//! Celestial state model: the tracked bodies, the twelve zodiacal bands and
//! their elements, the eight lunar-phase bands, and the snapshot builder that
//! turns raw solver longitudes into positional records.
//!
//! Angles are carried as plain integers in thousandths of a degree
//! (millidegrees), so a full circle is `360_000`.

use vstd::prelude::*;
use vstd::arithmetic::div_mod::lemma_mod_multiples_vanish;
use vstd::arithmetic::div_mod::lemma_mod_bound;

verus! {

/// A full circle, in millidegrees.
pub const FULL_CIRCLE: i64 = 360_000;

/// Width of one zodiacal band (30 degrees), in millidegrees.
pub const BAND_WIDTH: i64 = 30_000;

/// Width of one lunar-phase band (45 degrees), in millidegrees.
pub const PHASE_WIDTH: i64 = 45_000;

/// The celestial bodies tracked for scheduling.
#[derive(Debug, Clone, Copy, PartialEq, Eq, Hash, Structural)]
pub enum Planet {
    Sun,
    Moon,
    Mercury,
    Venus,
    Mars,
    Jupiter,
    Saturn,
}

/// The seven tracked bodies, in a fixed order.
pub open spec fn all_planets() -> Seq<Planet> {
    seq![
        Planet::Sun,
        Planet::Moon,
        Planet::Mercury,
        Planet::Venus,
        Planet::Mars,
        Planet::Jupiter,
        Planet::Saturn,
    ]
}

impl Planet {
    pub fn all() -> (r: Vec<Planet>)
        ensures
            r@ == all_planets(),
    {
        let r = vec![
            Planet::Sun,
            Planet::Moon,
            Planet::Mercury,
            Planet::Venus,
            Planet::Mars,
            Planet::Jupiter,
            Planet::Saturn,
        ];
        proof {
            assert(r@ =~= all_planets());
        }
        r
    }

    /// Display name of the body.
    pub open spec fn spec_name(self) -> Seq<char> {
        match self {
            Planet::Sun => "Sun"@,
            Planet::Moon => "Moon"@,
            Planet::Mercury => "Mercury"@,
            Planet::Venus => "Venus"@,
            Planet::Mars => "Mars"@,
            Planet::Jupiter => "Jupiter"@,
            Planet::Saturn => "Saturn"@,
        }
    }

    pub fn name(self) -> (r: &'static str)
        ensures
            r@ == self.spec_name(),
    {
        match self {
            Planet::Sun => "Sun",
            Planet::Moon => "Moon",
            Planet::Mercury => "Mercury",
            Planet::Venus => "Venus",
            Planet::Mars => "Mars",
            Planet::Jupiter => "Jupiter",
            Planet::Saturn => "Saturn",
        }
    }

    /// The governed-domain label of the body.
    pub open spec fn spec_domain(self) -> Seq<char> {
        match self {
            Planet::Sun => "Life Force & Critical Processes"@,
            Planet::Moon => "Emotions & Interactive Tasks"@,
            Planet::Mercury => "Communication & Network"@,
            Planet::Venus => "Harmony & Desktop/UI"@,
            Planet::Mars => "Energy & CPU-Intensive"@,
            Planet::Jupiter => "Expansion & Memory-Heavy"@,
            Planet::Saturn => "Structure & System Tasks"@,
        }
    }

    pub fn domain(self) -> (r: &'static str)
        ensures
            r@ == self.spec_domain(),
    {
        match self {
            Planet::Sun => "Life Force & Critical Processes",
            Planet::Moon => "Emotions & Interactive Tasks",
            Planet::Mercury => "Communication & Network",
            Planet::Venus => "Harmony & Desktop/UI",
            Planet::Mars => "Energy & CPU-Intensive",
            Planet::Jupiter => "Expansion & Memory-Heavy",
            Planet::Saturn => "Structure & System Tasks",
        }
    }
}

/// One of the twelve 30-degree longitude bands, in fixed order from 0 degrees.
#[derive(Debug, Clone, Copy, PartialEq, Eq, Structural)]
pub enum ZodiacSign {
    Aries,
    Taurus,
    Gemini,
    Cancer,
    Leo,
    Virgo,
    Libra,
    Scorpio,
    Sagittarius,
    Capricorn,
    Aquarius,
    Pisces,
}

/// A longitude normalized into `[0, 360_000)` by Euclidean remainder.
pub open spec fn normalized_angle(millideg: int) -> int {
    millideg % (FULL_CIRCLE as int)
}

/// Index in `[0, 12)` of the band that holds the given longitude.
pub open spec fn band_index(millideg: int) -> int {
    normalized_angle(millideg) / (BAND_WIDTH as int)
}

/// The band with the given index in `[0, 12)`, counted from the band at 0 degrees.
pub open spec fn sign_of_band(i: int) -> ZodiacSign {
    if i == 0 {
        ZodiacSign::Aries
    } else if i == 1 {
        ZodiacSign::Taurus
    } else if i == 2 {
        ZodiacSign::Gemini
    } else if i == 3 {
        ZodiacSign::Cancer
    } else if i == 4 {
        ZodiacSign::Leo
    } else if i == 5 {
        ZodiacSign::Virgo
    } else if i == 6 {
        ZodiacSign::Libra
    } else if i == 7 {
        ZodiacSign::Scorpio
    } else if i == 8 {
        ZodiacSign::Sagittarius
    } else if i == 9 {
        ZodiacSign::Capricorn
    } else if i == 10 {
        ZodiacSign::Aquarius
    } else {
        ZodiacSign::Pisces
    }
}

/// The twelve bands in index order.
pub open spec fn all_signs() -> Seq<ZodiacSign> {
    seq![
        ZodiacSign::Aries,
        ZodiacSign::Taurus,
        ZodiacSign::Gemini,
        ZodiacSign::Cancer,
        ZodiacSign::Leo,
        ZodiacSign::Virgo,
        ZodiacSign::Libra,
        ZodiacSign::Scorpio,
        ZodiacSign::Sagittarius,
        ZodiacSign::Capricorn,
        ZodiacSign::Aquarius,
        ZodiacSign::Pisces,
    ]
}

impl ZodiacSign {
    /// The band that holds the given longitude, any integer accepted.
    pub open spec fn spec_from_longitude(millideg: int) -> ZodiacSign {
        sign_of_band(band_index(millideg))
    }

    /// Select the band of a longitude in millidegrees; negative values and
    /// values at or beyond a full circle are normalized first.
    pub fn from_longitude(millideg: i64) -> (s: ZodiacSign)
        ensures
            s == ZodiacSign::spec_from_longitude(millideg as int),
    {
        proof {
            lemma_mod_bound(millideg as int, FULL_CIRCLE as int);
        }
        let normalized = millideg.checked_rem_euclid(FULL_CIRCLE).unwrap();
        let index = normalized / BAND_WIDTH;
        match index {
            0 => ZodiacSign::Aries,
            1 => ZodiacSign::Taurus,
            2 => ZodiacSign::Gemini,
            3 => ZodiacSign::Cancer,
            4 => ZodiacSign::Leo,
            5 => ZodiacSign::Virgo,
            6 => ZodiacSign::Libra,
            7 => ZodiacSign::Scorpio,
            8 => ZodiacSign::Sagittarius,
            9 => ZodiacSign::Capricorn,
            10 => ZodiacSign::Aquarius,
            _ => ZodiacSign::Pisces,
        }
    }

    pub open spec fn spec_name(self) -> Seq<char> {
        match self {
            ZodiacSign::Aries => "Aries"@,
            ZodiacSign::Taurus => "Taurus"@,
            ZodiacSign::Gemini => "Gemini"@,
            ZodiacSign::Cancer => "Cancer"@,
            ZodiacSign::Leo => "Leo"@,
            ZodiacSign::Virgo => "Virgo"@,
            ZodiacSign::Libra => "Libra"@,
            ZodiacSign::Scorpio => "Scorpio"@,
            ZodiacSign::Sagittarius => "Sagittarius"@,
            ZodiacSign::Capricorn => "Capricorn"@,
            ZodiacSign::Aquarius => "Aquarius"@,
            ZodiacSign::Pisces => "Pisces"@,
        }
    }

    pub fn name(self) -> (r: &'static str)
        ensures
            r@ == self.spec_name(),
    {
        match self {
            ZodiacSign::Aries => "Aries",
            ZodiacSign::Taurus => "Taurus",
            ZodiacSign::Gemini => "Gemini",
            ZodiacSign::Cancer => "Cancer",
            ZodiacSign::Leo => "Leo",
            ZodiacSign::Virgo => "Virgo",
            ZodiacSign::Libra => "Libra",
            ZodiacSign::Scorpio => "Scorpio",
            ZodiacSign::Sagittarius => "Sagittarius",
            ZodiacSign::Capricorn => "Capricorn",
            ZodiacSign::Aquarius => "Aquarius",
            ZodiacSign::Pisces => "Pisces",
        }
    }

    /// The element that owns this band: three bands per element.
    pub open spec fn spec_element(self) -> Element {
        match self {
            ZodiacSign::Aries | ZodiacSign::Leo | ZodiacSign::Sagittarius => Element::Fire,
            ZodiacSign::Taurus | ZodiacSign::Virgo | ZodiacSign::Capricorn => Element::Earth,
            ZodiacSign::Gemini | ZodiacSign::Libra | ZodiacSign::Aquarius => Element::Air,
            ZodiacSign::Cancer | ZodiacSign::Scorpio | ZodiacSign::Pisces => Element::Water,
        }
    }

    pub fn element(self) -> (e: Element)
        ensures
            e == self.spec_element(),
    {
        match self {
            ZodiacSign::Aries | ZodiacSign::Leo | ZodiacSign::Sagittarius => Element::Fire,
            ZodiacSign::Taurus | ZodiacSign::Virgo | ZodiacSign::Capricorn => Element::Earth,
            ZodiacSign::Gemini | ZodiacSign::Libra | ZodiacSign::Aquarius => Element::Air,
            ZodiacSign::Cancer | ZodiacSign::Scorpio | ZodiacSign::Pisces => Element::Water,
        }
    }
}

/// Banding is periodic: adding any whole number of circles to a longitude
/// never changes its band.
pub proof fn lemma_band_periodic(millideg: int, k: int)
    ensures
        ZodiacSign::spec_from_longitude(millideg + (FULL_CIRCLE as int) * k)
            == ZodiacSign::spec_from_longitude(millideg),
{
    lemma_mod_multiples_vanish(k, millideg, FULL_CIRCLE as int);
}

/// Number of band indices in `[0, n)` whose band is owned by element `e`.
pub open spec fn bands_with_element(e: Element, n: int) -> int
    decreases n,
{
    if n <= 0 {
        0
    } else {
        bands_with_element(e, n - 1)
            + if sign_of_band(n - 1).spec_element() == e { 1int } else { 0int }
    }
}

/// The band-to-element mapping partitions the twelve bands into four groups
/// of three, one group per element.
pub proof fn lemma_elements_partition()
    ensures
        bands_with_element(Element::Fire, 12) == 3,
        bands_with_element(Element::Earth, 12) == 3,
        bands_with_element(Element::Air, 12) == 3,
        bands_with_element(Element::Water, 12) == 3,
{
    assert(bands_with_element(Element::Fire, 12) == 3) by {
        reveal_with_fuel(bands_with_element, 13);
    }
    assert(bands_with_element(Element::Earth, 12) == 3) by {
        reveal_with_fuel(bands_with_element, 13);
    }
    assert(bands_with_element(Element::Air, 12) == 3) by {
        reveal_with_fuel(bands_with_element, 13);
    }
    assert(bands_with_element(Element::Water, 12) == 3) by {
        reveal_with_fuel(bands_with_element, 13);
    }
}

/// The four elements.
#[derive(Debug, Clone, Copy, PartialEq, Eq, Structural)]
pub enum Element {
    Fire,
    Earth,
    Air,
    Water,
}

impl Element {
    pub open spec fn spec_name(self) -> Seq<char> {
        match self {
            Element::Fire => "Fire"@,
            Element::Earth => "Earth"@,
            Element::Air => "Air"@,
            Element::Water => "Water"@,
        }
    }

    pub fn name(self) -> (r: &'static str)
        ensures
            r@ == self.spec_name(),
    {
        match self {
            Element::Fire => "Fire",
            Element::Earth => "Earth",
            Element::Air => "Air",
            Element::Water => "Water",
        }
    }
}

/// One of the eight 45-degree bands over the Sun-to-Moon angular separation.
#[derive(Debug, Clone, Copy, PartialEq, Eq, Structural)]
pub enum MoonPhase {
    NewMoon,
    WaxingCrescent,
    FirstQuarter,
    WaxingGibbous,
    FullMoon,
    WaningGibbous,
    LastQuarter,
    WaningCrescent,
}

/// The phase band with the given index in `[0, 8)`.
pub open spec fn phase_of_band(i: int) -> MoonPhase {
    if i == 0 {
        MoonPhase::NewMoon
    } else if i == 1 {
        MoonPhase::WaxingCrescent
    } else if i == 2 {
        MoonPhase::FirstQuarter
    } else if i == 3 {
        MoonPhase::WaxingGibbous
    } else if i == 4 {
        MoonPhase::FullMoon
    } else if i == 5 {
        MoonPhase::WaningGibbous
    } else if i == 6 {
        MoonPhase::LastQuarter
    } else {
        MoonPhase::WaningCrescent
    }
}

impl MoonPhase {
    pub open spec fn spec_name(self) -> Seq<char> {
        match self {
            MoonPhase::NewMoon => "New Moon"@,
            MoonPhase::WaxingCrescent => "Waxing Crescent"@,
            MoonPhase::FirstQuarter => "First Quarter"@,
            MoonPhase::WaxingGibbous => "Waxing Gibbous"@,
            MoonPhase::FullMoon => "Full Moon"@,
            MoonPhase::WaningGibbous => "Waning Gibbous"@,
            MoonPhase::LastQuarter => "Last Quarter"@,
            MoonPhase::WaningCrescent => "Waning Crescent"@,
        }
    }

    pub fn name(self) -> (r: &'static str)
        ensures
            r@ == self.spec_name(),
    {
        match self {
            MoonPhase::NewMoon => "New Moon",
            MoonPhase::WaxingCrescent => "Waxing Crescent",
            MoonPhase::FirstQuarter => "First Quarter",
            MoonPhase::WaxingGibbous => "Waxing Gibbous",
            MoonPhase::FullMoon => "Full Moon",
            MoonPhase::WaningGibbous => "Waning Gibbous",
            MoonPhase::LastQuarter => "Last Quarter",
            MoonPhase::WaningCrescent => "Waning Crescent",
        }
    }

    /// The phase band that holds the given angular separation.
    pub open spec fn spec_from_angle(millideg: int) -> MoonPhase {
        phase_of_band(normalized_angle(millideg) / (PHASE_WIDTH as int))
    }

    /// Select the phase band of a Sun-to-Moon angular separation in
    /// millidegrees; any integer separation is normalized first.
    pub fn from_angle(millideg: i64) -> (p: MoonPhase)
        ensures
            p == MoonPhase::spec_from_angle(millideg as int),
    {
        proof {
            lemma_mod_bound(millideg as int, FULL_CIRCLE as int);
        }
        let normalized = millideg.checked_rem_euclid(FULL_CIRCLE).unwrap();
        let index = normalized / PHASE_WIDTH;
        match index {
            0 => MoonPhase::NewMoon,
            1 => MoonPhase::WaxingCrescent,
            2 => MoonPhase::FirstQuarter,
            3 => MoonPhase::WaxingGibbous,
            4 => MoonPhase::FullMoon,
            5 => MoonPhase::WaningGibbous,
            6 => MoonPhase::LastQuarter,
            _ => MoonPhase::WaningCrescent,
        }
    }
}

/// Directional detection over a one-day finite difference of longitudes.
///
/// With `delta` the unnormalized difference `tomorrow - today`: a jump above
/// half a circle means the body wrapped forward across the seam while
/// advancing (direct); a jump below minus half a circle means it wrapped
/// backward (retrograde); otherwise the plain sign of `delta` decides, with
/// zero counting as direct.
pub open spec fn spec_retrograde(today: int, tomorrow: int) -> bool {
    let delta = tomorrow - today;
    if delta > 180_000 {
        false
    } else if delta < -180_000 {
        true
    } else {
        delta < 0
    }
}

/// Decide whether a body is in retrograde motion from its longitude now and
/// one day later, both in `[0, 360_000)` millidegrees.
pub fn is_retrograde(lon_today: i64, lon_tomorrow: i64) -> (r: bool)
    requires
        0 <= lon_today < FULL_CIRCLE,
        0 <= lon_tomorrow < FULL_CIRCLE,
    ensures
        r == spec_retrograde(lon_today as int, lon_tomorrow as int),
{
    let delta = lon_tomorrow - lon_today;
    if delta > 180_000 {
        false
    } else if delta < -180_000 {
        true
    } else {
        delta < 0
    }
}

/// The positional record of one body: its longitude in millidegrees, the
/// band that holds it, its retrograde state, and - for the Moon only - the
/// lunar-phase band.
#[derive(Debug, Clone, PartialEq)]
pub struct PlanetaryPosition {
    pub planet: Planet,
    pub longitude: i64,
    pub sign: ZodiacSign,
    pub retrograde: bool,
    pub moon_phase: Option<MoonPhase>,
}

impl PlanetaryPosition {
    /// Well-formedness of one record: the longitude is a normalized solver
    /// output, the band is derived from it, the two luminaries are never
    /// retrograde, and exactly the Moon carries a phase.
    pub open spec fn wf(self) -> bool {
        &&& 0 <= self.longitude < FULL_CIRCLE
        &&& self.sign == ZodiacSign::spec_from_longitude(self.longitude as int)
        &&& (self.planet == Planet::Sun || self.planet == Planet::Moon) ==> !self.retrograde
        &&& self.moon_phase is Some <==> self.planet == Planet::Moon
    }
}

/// Longitudes of one ordinary body at the queried moment and one day later,
/// both in `[0, 360_000)` millidegrees, as the external solver reports them.
#[derive(Debug, Clone, Copy, PartialEq, Eq, Structural)]
pub struct BodyReading {
    pub longitude: i64,
    pub next_day_longitude: i64,
}

impl BodyReading {
    pub open spec fn wf(self) -> bool {
        &&& 0 <= self.longitude < FULL_CIRCLE
        &&& 0 <= self.next_day_longitude < FULL_CIRCLE
    }
}

/// Everything the external position solver reports for one moment: one
/// longitude for each luminary, and a one-day pair for each ordinary body.
#[derive(Debug, Clone, Copy, PartialEq, Eq, Structural)]
pub struct SolverReadings {
    pub sun: i64,
    pub moon: i64,
    pub mercury: BodyReading,
    pub venus: BodyReading,
    pub mars: BodyReading,
    pub jupiter: BodyReading,
    pub saturn: BodyReading,
}

impl SolverReadings {
    /// All longitudes lie in `[0, 360_000)`, as the solver contract promises.
    pub open spec fn wf(self) -> bool {
        &&& 0 <= self.sun < FULL_CIRCLE
        &&& 0 <= self.moon < FULL_CIRCLE
        &&& self.mercury.wf()
        &&& self.venus.wf()
        &&& self.mars.wf()
        &&& self.jupiter.wf()
        &&& self.saturn.wf()
    }
}

/// The record of a luminary: banded, never retrograde, no phase.
pub open spec fn luminary_record(p: Planet, longitude: int) -> PlanetaryPosition {
    PlanetaryPosition {
        planet: p,
        longitude: longitude as i64,
        sign: ZodiacSign::spec_from_longitude(longitude),
        retrograde: false,
        moon_phase: None,
    }
}

/// The record of an ordinary body: banded at the queried moment, retrograde
/// by the one-day finite difference.
pub open spec fn ordinary_record(p: Planet, r: BodyReading) -> PlanetaryPosition {
    PlanetaryPosition {
        planet: p,
        longitude: r.longitude,
        sign: ZodiacSign::spec_from_longitude(r.longitude as int),
        retrograde: spec_retrograde(r.longitude as int, r.next_day_longitude as int),
        moon_phase: None,
    }
}

/// The Moon's record: banded, never retrograde, phased by its angular
/// separation from the Sun.
pub open spec fn moon_record(moon: int, sun: int) -> PlanetaryPosition {
    PlanetaryPosition {
        planet: Planet::Moon,
        longitude: moon as i64,
        sign: ZodiacSign::spec_from_longitude(moon),
        retrograde: false,
        moon_phase: Some(MoonPhase::spec_from_angle(moon - sun)),
    }
}

/// The snapshot derived from one batch of solver readings: exactly one
/// record per tracked body, in fixed order.
pub open spec fn spec_snapshot(r: SolverReadings) -> Seq<PlanetaryPosition> {
    seq![
        luminary_record(Planet::Sun, r.sun as int),
        ordinary_record(Planet::Mercury, r.mercury),
        ordinary_record(Planet::Venus, r.venus),
        ordinary_record(Planet::Mars, r.mars),
        ordinary_record(Planet::Jupiter, r.jupiter),
        ordinary_record(Planet::Saturn, r.saturn),
        moon_record(r.moon as int, r.sun as int),
    ]
}

/// Well-formedness of a snapshot: the seven bodies in fixed order, each
/// record well formed.
pub open spec fn snapshot_wf(s: Seq<PlanetaryPosition>) -> bool {
    &&& s.len() == 7
    &&& s[0].planet == Planet::Sun
    &&& s[1].planet == Planet::Mercury
    &&& s[2].planet == Planet::Venus
    &&& s[3].planet == Planet::Mars
    &&& s[4].planet == Planet::Jupiter
    &&& s[5].planet == Planet::Saturn
    &&& s[6].planet == Planet::Moon
    &&& forall|i: int| 0 <= i < 7 ==> #[trigger] s[i].wf()
}

/// The fixed slot of each body in a well-formed snapshot.
pub open spec fn planet_slot(p: Planet) -> int {
    match p {
        Planet::Sun => 0,
        Planet::Mercury => 1,
        Planet::Venus => 2,
        Planet::Mars => 3,
        Planet::Jupiter => 4,
        Planet::Saturn => 5,
        Planet::Moon => 6,
    }
}

/// The record of the given body in a well-formed snapshot.
pub open spec fn record_for(s: Seq<PlanetaryPosition>, p: Planet) -> PlanetaryPosition {
    s[planet_slot(p)]
}

/// Look up the record of a body; a well-formed snapshot always holds exactly
/// one record per body.
pub fn position_of(positions: &Vec<PlanetaryPosition>, planet: Planet) -> (r: &PlanetaryPosition)
    requires
        snapshot_wf(positions@),
    ensures
        *r == record_for(positions@, planet),
        r.wf(),
{
    match planet {
        Planet::Sun => &positions[0],
        Planet::Mercury => &positions[1],
        Planet::Venus => &positions[2],
        Planet::Mars => &positions[3],
        Planet::Jupiter => &positions[4],
        Planet::Saturn => &positions[5],
        Planet::Moon => &positions[6],
    }
}

/// A snapshot built from well-formed readings is well formed.
pub proof fn lemma_spec_snapshot_wf(r: SolverReadings)
    requires
        r.wf(),
    ensures
        snapshot_wf(spec_snapshot(r)),
{
    let s = spec_snapshot(r);
    assert forall|i: int| 0 <= i < 7 implies #[trigger] s[i].wf() by {
        lemma_mod_bound(r.sun as int, FULL_CIRCLE as int);
        lemma_mod_bound(r.moon as int, FULL_CIRCLE as int);
    }
}

/// Build the positional snapshot for one batch of solver readings: band each
/// body's longitude, derive retrograde state for the ordinary bodies, and
/// derive the Moon's phase from its angular separation from the Sun.
pub fn calculate_planetary_positions(r: &SolverReadings) -> (positions: Vec<PlanetaryPosition>)
    requires
        r.wf(),
    ensures
        positions@ == spec_snapshot(*r),
        snapshot_wf(positions@),
{
    let mut positions: Vec<PlanetaryPosition> = Vec::new();

    positions.push(PlanetaryPosition {
        planet: Planet::Sun,
        longitude: r.sun,
        sign: ZodiacSign::from_longitude(r.sun),
        retrograde: false,
        moon_phase: None,
    });

    positions.push(PlanetaryPosition {
        planet: Planet::Mercury,
        longitude: r.mercury.longitude,
        sign: ZodiacSign::from_longitude(r.mercury.longitude),
        retrograde: is_retrograde(r.mercury.longitude, r.mercury.next_day_longitude),
        moon_phase: None,
    });

    positions.push(PlanetaryPosition {
        planet: Planet::Venus,
        longitude: r.venus.longitude,
        sign: ZodiacSign::from_longitude(r.venus.longitude),
        retrograde: is_retrograde(r.venus.longitude, r.venus.next_day_longitude),
        moon_phase: None,
    });

    positions.push(PlanetaryPosition {
        planet: Planet::Mars,
        longitude: r.mars.longitude,
        sign: ZodiacSign::from_longitude(r.mars.longitude),
        retrograde: is_retrograde(r.mars.longitude, r.mars.next_day_longitude),
        moon_phase: None,
    });

    positions.push(PlanetaryPosition {
        planet: Planet::Jupiter,
        longitude: r.jupiter.longitude,
        sign: ZodiacSign::from_longitude(r.jupiter.longitude),
        retrograde: is_retrograde(r.jupiter.longitude, r.jupiter.next_day_longitude),
        moon_phase: None,
    });

    positions.push(PlanetaryPosition {
        planet: Planet::Saturn,
        longitude: r.saturn.longitude,
        sign: ZodiacSign::from_longitude(r.saturn.longitude),
        retrograde: is_retrograde(r.saturn.longitude, r.saturn.next_day_longitude),
        moon_phase: None,
    });

    let phase = MoonPhase::from_angle(r.moon - r.sun);
    positions.push(PlanetaryPosition {
        planet: Planet::Moon,
        longitude: r.moon,
        sign: ZodiacSign::from_longitude(r.moon),
        retrograde: false,
        moon_phase: Some(phase),
    });

    proof {
        assert(positions@ =~= spec_snapshot(*r));
        lemma_spec_snapshot_wf(*r);
    }
    positions
}

} // verus!
