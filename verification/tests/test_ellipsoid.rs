use std::collections::HashMap;

use maprs3d::EllipsoidLibrary;

/// Axis length in metres, converted from the library's nanometre fixed
/// point.  Every catalogued value is below 2^53 nanometres or has enough
/// trailing binary zeros, so the conversion is exact for the models probed
/// here.
fn metres(nm: u64) -> f64 {
    nm as f64 / maprs3d::ellipsoid::NM_PER_M as f64
}

fn flattening(e: &maprs3d::Ellipsoid) -> f64 {
    let a = metres(e.semimajor_axis_nm);
    let b = metres(e.semiminor_axis_nm);
    (a - b) / a
}

#[test]
fn test_reference() {
    let models: HashMap<&'static str, f64> = [
        ("maupertuis", 0.005235602050865236),
        ("plessis", 0.003240020729165458),
        ("everest1830", 0.003324448922118313),
        ("everest1830m", 0.003324449295589469),
        ("everest1967", 0.003324449343845343),
        ("airy", 0.00334085067870327),
        ("bessel", 0.0033427731536659813),
        ("clarke1866", 0.0033900753039287908),
        ("clarke1878", 0.003407549790771363),
        ("clarke1860", 0.003407561308111843),
        ("helmert", 0.0033523298109184524),
        ("hayford", 0.003367003387062615),
        ("international1924", 0.003367003387062615),
        ("krassovsky1940", 0.0033523298336767685),
        ("wgs66", 0.0033528919458556804),
        ("australian", 0.003352891899858333),
        ("international1967", 0.003352896192983603),
        ("grs67", 0.0033529237272191623),
        ("sa1969", 0.003352891899858333),
        ("wgs72", 0.0033527794541680267),
        ("grs80", 0.0033528106811816882),
        ("wgs84", 0.0033528106647473664),
        ("wgs84_mean", 0.0),
        ("iers1989", 0.0033528131102879993),
        ("iers2003", 0.0033528131084554157),
        ("mercury", 0.0009014546199549272),
        ("venus", 0.0),
        ("moon", 0.0012082158679017317),
        ("mars", 0.006123875928193323),
        ("jupyter", 0.06604858798757626),
        ("io", 0.0075968738044488665),
        ("uranus", 0.022927344575296372),
        ("neptune", 0.01708124697141011),
        ("pluto", 0.0),
    ]
    .iter()
    .cloned()
    .collect();

    for (name, ref_val) in models {
        let lib = EllipsoidLibrary::new();
        let ell = lib.get_ellipsoid(name).unwrap();
        let val = flattening(&ell);
        assert_eq!(val, ref_val);
    }
}

#[test]
fn test_bad_name() {
    let lib = EllipsoidLibrary::new();
    let ell = lib.get_ellipsoid("bad_name");
    assert!(ell.is_none());
}

#[test]
fn test_ellipsoid() {
    let library = EllipsoidLibrary::new();

    let ellipsoid = library.get_ellipsoid("wgs84").unwrap();

    assert_eq!(ellipsoid.name, "WGS-84 (1984)");
    assert_eq!(metres(ellipsoid.semimajor_axis_nm), 6378137.0);
    assert_eq!(metres(ellipsoid.semiminor_axis_nm), 6356752.31424518);

    let ellipsoid = library.get_ellipsoid("wgs84_mean").unwrap();

    assert_eq!(ellipsoid.name, "WGS-84 (1984) Mean");
    assert_eq!(metres(ellipsoid.semimajor_axis_nm), 6371008.7714);
    assert_eq!(metres(ellipsoid.semiminor_axis_nm), 6371008.7714);
}

#[test]
fn test_get_wgs84() {
    let ell = maprs3d::Ellipsoid::get_wgs84();
    assert_eq!(ell.model, "wgs84");
    assert_eq!(ell.name, "WGS-84 (1984)");
    assert_eq!(ell.semimajor_axis_nm, 6_378_137_000_000_000);
    assert_eq!(ell.semiminor_axis_nm, 6_356_752_314_245_180);
}

#[test]
fn test_every_key_is_oblate() {
    let keys = [
        "maupertuis",
        "plessis",
        "everest1830",
        "everest1830m",
        "everest1967",
        "airy",
        "bessel",
        "clarke1866",
        "clarke1878",
        "clarke1860",
        "helmert",
        "hayford",
        "international1924",
        "krassovsky1940",
        "wgs66",
        "australian",
        "international1967",
        "grs67",
        "sa1969",
        "wgs72",
        "grs80",
        "wgs84",
        "wgs84_mean",
        "iers1989",
        "pz90.11",
        "iers2003",
        "gsk2011",
        "mercury",
        "venus",
        "moon",
        "mars",
        "jupyter",
        "io",
        "saturn",
        "uranus",
        "neptune",
        "pluto",
    ];
    let lib = EllipsoidLibrary::new();
    for key in keys {
        let ell = lib.get_ellipsoid(key).unwrap();
        assert_eq!(ell.model, key);
        assert!(ell.semimajor_axis_nm >= ell.semiminor_axis_nm);
        assert!(ell.semiminor_axis_nm > 0);
        assert!(flattening(&ell) >= 0.0);
    }
}

#[test]
fn test_lookup_is_case_sensitive() {
    let lib = EllipsoidLibrary::new();
    assert!(lib.get_ellipsoid("WGS84").is_none());
    assert!(lib.get_ellipsoid("").is_none());
    assert!(lib.get_ellipsoid("wgs84 ").is_none());
}

#[test]
fn test_keys_are_unique() {
    // the catalogue keys never collide, so each lookup hit is the only
    // row filed under its key
    let keys = [
        "maupertuis",
        "plessis",
        "everest1830",
        "everest1830m",
        "everest1967",
        "airy",
        "bessel",
        "clarke1866",
        "clarke1878",
        "clarke1860",
        "helmert",
        "hayford",
        "international1924",
        "krassovsky1940",
        "wgs66",
        "australian",
        "international1967",
        "grs67",
        "sa1969",
        "wgs72",
        "grs80",
        "wgs84",
        "wgs84_mean",
        "iers1989",
        "pz90.11",
        "iers2003",
        "gsk2011",
        "mercury",
        "venus",
        "moon",
        "mars",
        "jupyter",
        "io",
        "saturn",
        "uranus",
        "neptune",
        "pluto",
    ];
    let mut seen = std::collections::HashSet::new();
    for key in keys {
        assert!(seen.insert(key));
    }
}
