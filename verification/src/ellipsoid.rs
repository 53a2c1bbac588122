use vstd::prelude::*;

verus! {

/// Defining parameters of a reference ellipsoid.
///
/// Every catalogued axis length is an exact decimal number of metres with at
/// most eight fractional digits, so both axes are held exactly as whole
/// nanometres.  A metre is `NM_PER_M` nanometres.
pub struct Model {
    /// Human-readable name, e.g. `"WGS-84 (1984)"`.
    pub name: String,
    /// Semimajor axis in nanometres.
    pub a_nm: u64,
    /// Semiminor axis in nanometres.
    pub b_nm: u64,
}

/// Nanometres per metre: the fixed scale of the axis fields.
pub const NM_PER_M: u64 = 1_000_000_000;

/// Ghost image of one catalogue row: the lookup key, the display name and
/// the two axes.
pub struct ModelView {
    pub key: Seq<char>,
    pub name: Seq<char>,
    pub a_nm: u64,
    pub b_nm: u64,
}

/// A reference ellipsoid together with the key and display name it was
/// catalogued under.  The derived floating-point quantities (flattening,
/// third flattening, eccentricity) are ratios of these two axes and are left
/// to the numerical layer; the invariant `wf` captures the one fact they all
/// rest on: the flattening `(a - b) / a` is non-negative and well defined.
pub struct Ellipsoid {
    /// Catalogue key, e.g. `"wgs84"`.
    pub model: String,
    /// Display name, e.g. `"WGS-84 (1984)"`.
    pub name: String,
    /// Semimajor axis in nanometres.
    pub semimajor_axis_nm: u64,
    /// Semiminor axis in nanometres.
    pub semiminor_axis_nm: u64,
}

impl Ellipsoid {
    /// An oblate (or spherical) ellipsoid: `a >= b > 0`, i.e. flattening in
    /// `[0, 1)`.
    pub open spec fn wf(self) -> bool {
        self.semimajor_axis_nm >= self.semiminor_axis_nm > 0
    }

    /// Builds an ellipsoid from its two axes.  Construction demands a
    /// non-negative flattening; there is no way to obtain a prolate value.
    pub fn new(semimajor_axis_nm: u64, semiminor_axis_nm: u64, name: &str, model: &str) -> (r: Ellipsoid)
        requires
            semimajor_axis_nm >= semiminor_axis_nm > 0,
        ensures
            r.semimajor_axis_nm == semimajor_axis_nm,
            r.semiminor_axis_nm == semiminor_axis_nm,
            r.name@ == name@,
            r.model@ == model@,
            r.wf(),
    {
        Ellipsoid {
            model: model.to_owned(),
            name: name.to_owned(),
            semimajor_axis_nm,
            semiminor_axis_nm,
        }
    }

    /// The WGS-84 (1984) ellipsoid: a = 6378137 m, b = 6356752.31424518 m.
    pub fn get_wgs84() -> (r: Ellipsoid)
        ensures
            r.semimajor_axis_nm == 6_378_137_000_000_000u64,
            r.semiminor_axis_nm == 6_356_752_314_245_180u64,
            r.name@ == "WGS-84 (1984)"@,
            r.model@ == "wgs84"@,
            r.wf(),
    {
        Ellipsoid::new(6_378_137_000_000_000, 6_356_752_314_245_180, "WGS-84 (1984)", "wgs84")
    }
}

/// The built-in catalogue: every named ellipsoid this library knows, in a
/// fixed order.  Each row carries the lookup key, the display name and the
/// two axes in nanometres.
pub open spec fn catalog() -> Seq<ModelView> {
    seq![
        ModelView { key: "maupertuis"@, name: "Maupertuis (1738)"@, a_nm: 6_397_300_000_000_000u64, b_nm: 6_363_806_283_000_000u64 },
        ModelView { key: "plessis"@, name: "Plessis (1817)"@, a_nm: 6_376_523_000_000_000u64, b_nm: 6_355_862_933_300_000u64 },
        ModelView { key: "everest1830"@, name: "Everest (1830)"@, a_nm: 6_377_299_365_000_000u64, b_nm: 6_356_098_359_000_000u64 },
        ModelView { key: "everest1830m"@, name: "Everest 1830 Modified (1967)"@, a_nm: 6_377_304_063_000_000u64, b_nm: 6_356_103_039_000_000u64 },
        ModelView { key: "everest1967"@, name: "Everest 1830 (1967 Definition)"@, a_nm: 6_377_298_556_000_000u64, b_nm: 6_356_097_550_000_000u64 },
        ModelView { key: "airy"@, name: "Airy (1830)"@, a_nm: 6_377_563_396_000_000u64, b_nm: 6_356_256_909_000_000u64 },
        ModelView { key: "bessel"@, name: "Bessel (1841)"@, a_nm: 6_377_397_155_000_000u64, b_nm: 6_356_078_963_000_000u64 },
        ModelView { key: "clarke1866"@, name: "Clarke (1866)"@, a_nm: 6_378_206_400_000_000u64, b_nm: 6_356_583_800_000_000u64 },
        ModelView { key: "clarke1878"@, name: "Clarke (1878)"@, a_nm: 6_378_190_000_000_000u64, b_nm: 6_356_456_000_000_000u64 },
        ModelView { key: "clarke1860"@, name: "Clarke (1880)"@, a_nm: 6_378_249_145_000_000u64, b_nm: 6_356_514_870_000_000u64 },
        ModelView { key: "helmert"@, name: "Helmert (1906)"@, a_nm: 6_378_200_000_000_000u64, b_nm: 6_356_818_170_000_000u64 },
        ModelView { key: "hayford"@, name: "Hayford (1910)"@, a_nm: 6_378_388_000_000_000u64, b_nm: 6_356_911_946_000_000u64 },
        ModelView { key: "international1924"@, name: "International (1924)"@, a_nm: 6_378_388_000_000_000u64, b_nm: 6_356_911_946_000_000u64 },
        ModelView { key: "krassovsky1940"@, name: "Krassovsky (1940)"@, a_nm: 6_378_245_000_000_000u64, b_nm: 6_356_863_019_000_000u64 },
        ModelView { key: "wgs66"@, name: "WGS66 (1966)"@, a_nm: 6_378_145_000_000_000u64, b_nm: 6_356_759_769_000_000u64 },
        ModelView { key: "australian"@, name: "Australian National (1966)"@, a_nm: 6_378_160_000_000_000u64, b_nm: 6_356_774_719_000_000u64 },
        ModelView { key: "international1967"@, name: "New International (1967)"@, a_nm: 6_378_157_500_000_000u64, b_nm: 6_356_772_200_000_000u64 },
        ModelView { key: "grs67"@, name: "GRS-67 (1967)"@, a_nm: 6_378_160_000_000_000u64, b_nm: 6_356_774_516_000_000u64 },
        ModelView { key: "sa1969"@, name: "South American (1969)"@, a_nm: 6_378_160_000_000_000u64, b_nm: 6_356_774_719_000_000u64 },
        ModelView { key: "wgs72"@, name: "WGS-72 (1972)"@, a_nm: 6_378_135_000_000_000u64, b_nm: 6_356_750_520_016_090u64 },
        ModelView { key: "grs80"@, name: "GRS-80 (1979)"@, a_nm: 6_378_137_000_000_000u64, b_nm: 6_356_752_314_140_360u64 },
        ModelView { key: "wgs84"@, name: "WGS-84 (1984)"@, a_nm: 6_378_137_000_000_000u64, b_nm: 6_356_752_314_245_180u64 },
        ModelView { key: "wgs84_mean"@, name: "WGS-84 (1984) Mean"@, a_nm: 6_371_008_771_400_000u64, b_nm: 6_371_008_771_400_000u64 },
        ModelView { key: "iers1989"@, name: "IERS (1989)"@, a_nm: 6_378_136_000_000_000u64, b_nm: 6_356_751_302_000_000u64 },
        ModelView { key: "pz90.11"@, name: "ПЗ-90 (2011)"@, a_nm: 6_378_136_000_000_000u64, b_nm: 6_356_751_361_800_000u64 },
        ModelView { key: "iers2003"@, name: "IERS (2003)"@, a_nm: 6_378_136_600_000_000u64, b_nm: 6_356_751_900_000_000u64 },
        ModelView { key: "gsk2011"@, name: "ГСК (2011)"@, a_nm: 6_378_136_500_000_000u64, b_nm: 6_356_751_758_000_000u64 },
        ModelView { key: "mercury"@, name: "Mercury"@, a_nm: 2_440_500_000_000_000u64, b_nm: 2_438_300_000_000_000u64 },
        ModelView { key: "venus"@, name: "Venus"@, a_nm: 6_051_800_000_000_000u64, b_nm: 6_051_800_000_000_000u64 },
        ModelView { key: "moon"@, name: "Moon"@, a_nm: 1_738_100_000_000_000u64, b_nm: 1_736_000_000_000_000u64 },
        ModelView { key: "mars"@, name: "Mars"@, a_nm: 3_396_900_000_000_000u64, b_nm: 3_376_097_805_859_520u64 },
        ModelView { key: "jupyter"@, name: "Jupiter"@, a_nm: 71_492_000_000_000_000u64, b_nm: 66_770_054_347_592_200u64 },
        ModelView { key: "io"@, name: "Io"@, a_nm: 1_829_700_000_000u64, b_nm: 1_815_800_000_000u64 },
        ModelView { key: "saturn"@, name: "Saturn"@, a_nm: 60_268_000_000_000_000u64, b_nm: 54_364_301_527_127_100u64 },
        ModelView { key: "uranus"@, name: "Uranus"@, a_nm: 25_559_000_000_000_000u64, b_nm: 24_973_000_000_000_000u64 },
        ModelView { key: "neptune"@, name: "Neptune"@, a_nm: 24_764_000_000_000_000u64, b_nm: 24_341_000_000_000_000u64 },
        ModelView { key: "pluto"@, name: "Pluto"@, a_nm: 1_188_000_000_000_000u64, b_nm: 1_188_000_000_000_000u64 },
    ]
}

/// The first catalogue row whose key is `key`, scanning from row `i` on.
pub open spec fn catalog_lookup_from(key: Seq<char>, i: int) -> Option<ModelView>
    decreases catalog().len() - i,
{
    if i < 0 || i >= catalog().len() {
        None
    } else if catalog()[i].key == key {
        Some(catalog()[i])
    } else {
        catalog_lookup_from(key, i + 1)
    }
}

/// The catalogue row filed under `key`, if any.
pub open spec fn catalog_lookup(key: Seq<char>) -> Option<ModelView> {
    catalog_lookup_from(key, 0)
}

/// Every catalogued ellipsoid satisfies the flattening invariant: the
/// semimajor axis is at least the semiminor axis and both are positive, so
/// the flattening `(a - b) / a` of every row is well defined and lies in
/// `[0, 1)`.
pub proof fn lemma_catalog_wellformed()
    ensures
        forall|i: int|
            0 <= i < catalog().len() ==> (#[trigger] catalog()[i]).a_nm >= catalog()[i].b_nm
                > 0,
{
}

/// One stored catalogue row.
struct CatalogEntry {
    key: String,
    model: Model,
}

/// The ghost image of a stored row.
spec fn entry_view(e: CatalogEntry) -> ModelView {
    ModelView { key: e.key@, name: e.model.name@, a_nm: e.model.a_nm, b_nm: e.model.b_nm }
}

/// Builds one stored row.
fn entry(key: &str, name: &str, a_nm: u64, b_nm: u64) -> (e: CatalogEntry)
    ensures
        entry_view(e) == (ModelView { key: key@, name: name@, a_nm, b_nm }),
{
    CatalogEntry { key: key.to_owned(), model: Model { name: name.to_owned(), a_nm, b_nm } }
}

/// The table of named ellipsoids, holding exactly the rows of `catalog`.
pub struct EllipsoidLibrary {
    models: Vec<CatalogEntry>,
}

impl EllipsoidLibrary {
    /// The stored rows are the catalogue, row for row.
    pub closed spec fn wf(self) -> bool {
        &&& self.models@.len() == catalog().len()
        &&& forall|i: int|
            0 <= i < catalog().len() ==> entry_view(#[trigger] self.models@[i]) == catalog()[i]
    }

    /// Fills the table with the built-in catalogue.
    pub fn new() -> (r: EllipsoidLibrary)
        ensures
            r.wf(),
    {
        let mut models: Vec<CatalogEntry> = Vec::new();
        models.push(entry("maupertuis", "Maupertuis (1738)", 6_397_300_000_000_000, 6_363_806_283_000_000));
        models.push(entry("plessis", "Plessis (1817)", 6_376_523_000_000_000, 6_355_862_933_300_000));
        models.push(entry("everest1830", "Everest (1830)", 6_377_299_365_000_000, 6_356_098_359_000_000));
        models.push(entry("everest1830m", "Everest 1830 Modified (1967)", 6_377_304_063_000_000, 6_356_103_039_000_000));
        models.push(entry("everest1967", "Everest 1830 (1967 Definition)", 6_377_298_556_000_000, 6_356_097_550_000_000));
        models.push(entry("airy", "Airy (1830)", 6_377_563_396_000_000, 6_356_256_909_000_000));
        models.push(entry("bessel", "Bessel (1841)", 6_377_397_155_000_000, 6_356_078_963_000_000));
        models.push(entry("clarke1866", "Clarke (1866)", 6_378_206_400_000_000, 6_356_583_800_000_000));
        models.push(entry("clarke1878", "Clarke (1878)", 6_378_190_000_000_000, 6_356_456_000_000_000));
        models.push(entry("clarke1860", "Clarke (1880)", 6_378_249_145_000_000, 6_356_514_870_000_000));
        models.push(entry("helmert", "Helmert (1906)", 6_378_200_000_000_000, 6_356_818_170_000_000));
        models.push(entry("hayford", "Hayford (1910)", 6_378_388_000_000_000, 6_356_911_946_000_000));
        models.push(entry("international1924", "International (1924)", 6_378_388_000_000_000, 6_356_911_946_000_000));
        models.push(entry("krassovsky1940", "Krassovsky (1940)", 6_378_245_000_000_000, 6_356_863_019_000_000));
        models.push(entry("wgs66", "WGS66 (1966)", 6_378_145_000_000_000, 6_356_759_769_000_000));
        models.push(entry("australian", "Australian National (1966)", 6_378_160_000_000_000, 6_356_774_719_000_000));
        models.push(entry("international1967", "New International (1967)", 6_378_157_500_000_000, 6_356_772_200_000_000));
        models.push(entry("grs67", "GRS-67 (1967)", 6_378_160_000_000_000, 6_356_774_516_000_000));
        models.push(entry("sa1969", "South American (1969)", 6_378_160_000_000_000, 6_356_774_719_000_000));
        models.push(entry("wgs72", "WGS-72 (1972)", 6_378_135_000_000_000, 6_356_750_520_016_090));
        models.push(entry("grs80", "GRS-80 (1979)", 6_378_137_000_000_000, 6_356_752_314_140_360));
        models.push(entry("wgs84", "WGS-84 (1984)", 6_378_137_000_000_000, 6_356_752_314_245_180));
        models.push(entry("wgs84_mean", "WGS-84 (1984) Mean", 6_371_008_771_400_000, 6_371_008_771_400_000));
        models.push(entry("iers1989", "IERS (1989)", 6_378_136_000_000_000, 6_356_751_302_000_000));
        models.push(entry("pz90.11", "ПЗ-90 (2011)", 6_378_136_000_000_000, 6_356_751_361_800_000));
        models.push(entry("iers2003", "IERS (2003)", 6_378_136_600_000_000, 6_356_751_900_000_000));
        models.push(entry("gsk2011", "ГСК (2011)", 6_378_136_500_000_000, 6_356_751_758_000_000));
        models.push(entry("mercury", "Mercury", 2_440_500_000_000_000, 2_438_300_000_000_000));
        models.push(entry("venus", "Venus", 6_051_800_000_000_000, 6_051_800_000_000_000));
        models.push(entry("moon", "Moon", 1_738_100_000_000_000, 1_736_000_000_000_000));
        models.push(entry("mars", "Mars", 3_396_900_000_000_000, 3_376_097_805_859_520));
        models.push(entry("jupyter", "Jupiter", 71_492_000_000_000_000, 66_770_054_347_592_200));
        models.push(entry("io", "Io", 1_829_700_000_000, 1_815_800_000_000));
        models.push(entry("saturn", "Saturn", 60_268_000_000_000_000, 54_364_301_527_127_100));
        models.push(entry("uranus", "Uranus", 25_559_000_000_000_000, 24_973_000_000_000_000));
        models.push(entry("neptune", "Neptune", 24_764_000_000_000_000, 24_341_000_000_000_000));
        models.push(entry("pluto", "Pluto", 1_188_000_000_000_000, 1_188_000_000_000_000));
        let r = EllipsoidLibrary { models };
        proof {
            assert forall|i: int| 0 <= i < catalog().len() implies entry_view(
                #[trigger] r.models@[i],
            ) == catalog()[i] by {
            }
        }
        r
    }

    /// Looks a key up in the table: the ellipsoid of the catalogue row filed
    /// under `name`, or nothing when no row carries that key.
    pub fn get_ellipsoid(&self, name: &str) -> (r: Option<Ellipsoid>)
        requires
            self.wf(),
        ensures
            r is Some <==> catalog_lookup(name@) is Some,
            r matches Some(e) ==> catalog_lookup(name@) matches Some(m) && e.model@ == name@
                && e.name@ == m.name && e.semimajor_axis_nm == m.a_nm && e.semiminor_axis_nm
                == m.b_nm && e.wf(),
    {
        let owned: String = name.to_owned();
        let n = self.models.len();
        let mut i: usize = 0;
        while i < n
            invariant
                self.wf(),
                n == self.models@.len(),
                i <= n,
                owned@ == name@,
                catalog_lookup(name@) == catalog_lookup_from(name@, i as int),
            decreases n - i,
        {
            if self.models[i].key.eq(&owned) {
                proof {
                    lemma_catalog_wellformed();
                }
                let m = &self.models[i].model;
                return Some(Ellipsoid::new(m.a_nm, m.b_nm, &m.name, name));
            }
            i = i + 1;
        }
        None
    }
}

} // verus!
