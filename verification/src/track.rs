use vstd::prelude::*;

verus! {

/// Where one slot of an interpolated track takes its coordinates from:
/// the first endpoint, the `k`-th forward step along the geodesic, or the
/// second endpoint.
#[derive(Clone, Copy, Debug, PartialEq, Eq, Structural)]
pub enum TrackStep {
    /// The first endpoint, emitted verbatim.
    Start,
    /// The `k`-th of the equally spaced forward steps, `k >= 1`.
    Intermediate(usize),
    /// The second endpoint, emitted verbatim.
    End,
}

/// The slot plan of a track with `npts` waypoints: nothing for zero, the
/// first endpoint alone for one, both endpoints for two, and otherwise the
/// two endpoints around `npts - 2` forward steps numbered from one.
pub open spec fn spec_track_schedule(npts: nat) -> Seq<TrackStep> {
    if npts == 0 {
        seq![]
    } else if npts == 1 {
        seq![TrackStep::Start]
    } else {
        seq![TrackStep::Start] + Seq::new((npts - 2) as nat, |i: int| TrackStep::Intermediate((i + 1) as usize))
            + seq![TrackStep::End]
    }
}

/// A schedule has exactly the requested number of waypoints; a non-empty
/// one begins with the first endpoint, and one with at least two ends with
/// the second.
pub proof fn lemma_track_schedule_shape(npts: nat)
    ensures
        spec_track_schedule(npts).len() == npts,
        npts >= 1 ==> spec_track_schedule(npts)[0] == TrackStep::Start,
        npts >= 2 ==> spec_track_schedule(npts)[npts - 1] == TrackStep::End,
        forall|i: int|
            1 <= i < npts - 1 ==> spec_track_schedule(npts)[i] == TrackStep::Intermediate(
                i as usize,
            ),
{
}

/// Lays out the slots of a track with `npts` waypoints.  The interpolator
/// walks this schedule in order: endpoints are copied through, and each
/// `Intermediate` slot is one more equal-distance step along the geodesic,
/// so the result has exactly `npts` entries, the first and last of which
/// are the endpoints themselves.
pub fn track_schedule(npts: usize) -> (r: Vec<TrackStep>)
    ensures
        r@ == spec_track_schedule(npts as nat),
        r@.len() == npts,
        npts >= 1 ==> r@[0] == TrackStep::Start,
        npts >= 2 ==> r@[npts - 1] == TrackStep::End,
{
    proof {
        lemma_track_schedule_shape(npts as nat);
    }
    let mut r: Vec<TrackStep> = Vec::new();
    if npts == 0 {
        proof {
            assert(r@ =~= spec_track_schedule(npts as nat));
        }
        return r;
    }
    r.push(TrackStep::Start);
    if npts == 1 {
        proof {
            assert(r@ =~= spec_track_schedule(npts as nat));
        }
        return r;
    }
    let mut k: usize = 1;
    while k + 1 < npts
        invariant
            1 <= k < npts,
            2 <= npts,
            r@.len() == k,
            r@[0] == TrackStep::Start,
            forall|i: int| 1 <= i < k ==> r@[i] == TrackStep::Intermediate(i as usize),
        decreases npts - k,
    {
        r.push(TrackStep::Intermediate(k));
        k = k + 1;
    }
    r.push(TrackStep::End);
    proof {
        assert(r@ =~= spec_track_schedule(npts as nat));
    }
    r
}

} // verus!
