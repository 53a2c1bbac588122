use maprs3d::{track_schedule, TrackStep};

#[test]
fn test_track_schedule_counts() {
    for npts in 0..10usize {
        let plan = track_schedule(npts);
        assert_eq!(plan.len(), npts);
    }
}

#[test]
fn test_track_schedule_three() {
    // a three-point track is both endpoints around one forward step
    let plan = track_schedule(3);
    assert_eq!(plan.len(), 3);
    assert!(matches!(plan[0], TrackStep::Start));
    assert!(matches!(plan[1], TrackStep::Intermediate(1)));
    assert!(matches!(plan[2], TrackStep::End));
}

#[test]
fn test_track_schedule_small() {
    let plan = track_schedule(0);
    assert!(plan.is_empty());

    let plan = track_schedule(1);
    assert!(matches!(plan[0], TrackStep::Start));

    let plan = track_schedule(2);
    assert!(matches!(plan[0], TrackStep::Start));
    assert!(matches!(plan[1], TrackStep::End));
}

#[test]
fn test_track_schedule_larger() {
    let plan = track_schedule(7);
    assert!(matches!(plan[0], TrackStep::Start));
    for (k, step) in plan.iter().enumerate().take(6).skip(1) {
        assert!(matches!(step, TrackStep::Intermediate(i) if *i == k));
    }
    assert!(matches!(plan[6], TrackStep::End));
}
