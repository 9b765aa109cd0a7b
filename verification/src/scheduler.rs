//! Scoring engine: fuses the positional snapshot (held in a time-bounded
//! cache) with the task classification into a priority, a directional
//! influence, an elemental-affinity boost and a narrative justification.
//!
//! Influence and boost values are carried in thousandths, so `1300` stands
//! for a multiplier of 1.3 and `-1000` for -1.0.

use vstd::prelude::*;
use vstd::pervasive::unreached;
use vstd::string::StringExecFns;
use crate::planets::Element;
use crate::planets::MoonPhase;
use crate::planets::Planet;
use crate::planets::PlanetaryPosition;
use crate::planets::SolverReadings;
use crate::planets::calculate_planetary_positions;
use crate::planets::position_of;
use crate::planets::record_for;
use crate::planets::snapshot_wf;
use crate::planets::spec_snapshot;
use crate::tasks::TaskClassifier;
use crate::tasks::TaskType;
use crate::tasks::pattern_table;
use crate::tasks::spec_classify;
use crate::text::dec_digits;
use crate::text::i64_to_string;
use crate::text::int_digits;
use crate::text::u64_to_string;

verus! {

/// One scheduling decision: a priority, the directional influence and
/// elemental boost that produced it (both in thousandths), and a narrative
/// justification.
#[derive(Debug, Clone, PartialEq)]
pub struct SchedulingDecision {
    pub priority: u32,
    pub reasoning: String,
    /// Directional influence in thousandths: `-1000` when the governing body
    /// is retrograde, else the element weight in `[1000, 1300]`.
    pub planetary_influence: i32,
    /// Elemental-affinity boost in thousandths, including the lunar-phase
    /// modifier for interactive tasks.
    pub element_boost: u32,
}

/// Element weight of a direct body's band, in thousandths.
pub open spec fn element_influence(e: Element) -> int {
    match e {
        Element::Fire => 1300,
        Element::Earth => 1100,
        Element::Air => 1200,
        Element::Water => 1000,
    }
}

/// Directional influence of one record, in thousandths: retrograde motion
/// dominates with `-1000`, otherwise the element weight of the band.
pub open spec fn spec_influence(p: PlanetaryPosition) -> int {
    if p.retrograde {
        -1000
    } else {
        element_influence(p.sign.spec_element())
    }
}

/// The fixed affinity matrix over (element of the governing body, category),
/// in thousandths.
pub open spec fn affinity_boost(e: Element, t: TaskType) -> int {
    match (e, t) {
        (Element::Fire, TaskType::CpuIntensive) => 1500,
        (Element::Air, TaskType::Network) => 1500,
        (Element::Earth, TaskType::System) => 1400,
        (Element::Water, TaskType::MemoryHeavy) => 1300,
        (Element::Air, TaskType::Desktop) => 1300,
        (Element::Water, TaskType::Desktop) => 1300,
        (Element::Water, TaskType::CpuIntensive) => 600,
        (Element::Earth, TaskType::Network) => 600,
        (Element::Air, TaskType::System) => 700,
        (Element::Fire, TaskType::MemoryHeavy) => 700,
        _ => 1000,
    }
}

/// The lunar modifier applied to interactive tasks, in thousandths, keyed by
/// the Moon's phase band.
pub open spec fn moon_modifier(phase: MoonPhase) -> int {
    match phase {
        MoonPhase::FullMoon => 1400,
        MoonPhase::WaxingGibbous => 1200,
        MoonPhase::FirstQuarter => 1100,
        MoonPhase::WaxingCrescent => 1050,
        MoonPhase::NewMoon => 800,
        MoonPhase::WaningGibbous => 950,
        MoonPhase::LastQuarter => 900,
        MoonPhase::WaningCrescent => 850,
    }
}

/// The base priority weight of each category.
pub open spec fn base_priority(t: TaskType) -> int {
    match t {
        TaskType::Critical => 1000,
        TaskType::System => 200,
        TaskType::Interactive => 150,
        TaskType::Desktop => 120,
        TaskType::CpuIntensive => 100,
        TaskType::Network => 100,
        TaskType::MemoryHeavy => 80,
    }
}

/// The lunar modifier taken from a well-formed snapshot's Moon record.
pub open spec fn moon_modifier_of(s: Seq<PlanetaryPosition>) -> int {
    match record_for(s, Planet::Moon).moon_phase {
        Some(phase) => moon_modifier(phase),
        None => 1000,
    }
}

/// Affinity boost of a category against a snapshot, before the lunar
/// modifier.
pub open spec fn spec_affinity(s: Seq<PlanetaryPosition>, t: TaskType) -> int {
    affinity_boost(record_for(s, t.spec_ruling_planet()).sign.spec_element(), t)
}

/// Full elemental boost of a category against a snapshot: the affinity
/// matrix value, scaled by the lunar modifier for interactive tasks.
pub open spec fn spec_boost(s: Seq<PlanetaryPosition>, t: TaskType) -> int {
    if t == TaskType::Interactive {
        spec_affinity(s, t) * moon_modifier_of(s) / 1000
    } else {
        spec_affinity(s, t)
    }
}

/// Priority of a category under a given influence and boost: the scaled
/// product floored when the influence is non-negative, else the flat
/// retrograde penalty of three tenths of the base weight; clamped to 1.
pub open spec fn spec_priority(t: TaskType, influence: int, boost: int) -> int {
    let raw = if influence >= 0 {
        base_priority(t) * influence * boost / 1000000
    } else {
        base_priority(t) * 300 / 1000
    };
    if raw < 1 {
        1
    } else {
        raw
    }
}

/// The retrograde penalty ignores the boost entirely: whatever the boost,
/// a negative influence always yields the flat penalty, and the priority
/// floor of 1 never engages for the seven categories.
pub proof fn lemma_retrograde_penalty_dominates(t: TaskType, boost: int)
    ensures
        spec_priority(t, -1000, boost) == base_priority(t) * 300 / 1000,
        spec_priority(t, -1000, boost) >= 1,
{
}

/// The flavour line reported for an elemental opposition.
pub open spec fn opposition_text(e: Element, t: TaskType) -> Seq<char> {
    match (e, t) {
        (Element::Water, TaskType::CpuIntensive) => "Water dampens fire"@,
        (Element::Earth, TaskType::Network) => "Earth blocks air"@,
        (Element::Air, TaskType::System) => "Air disrupts earth"@,
        (Element::Fire, TaskType::MemoryHeavy) => "Fire evaporates water"@,
        _ => "Elemental opposition"@,
    }
}

/// The narrative for one decision, selected strictly in this order:
/// retrograde disruption, elemental-opposition debuff (boost below 0.7),
/// strong blessing (boost above 1.3), mild enhancement (boost above 1.1),
/// neutral balance.
pub open spec fn spec_reasoning(
    t: TaskType,
    pos: PlanetaryPosition,
    influence: int,
    boost: int,
) -> Seq<char> {
    if influence < 0 {
        pos.planet.spec_name() + " RETROGRADE in "@ + pos.sign.spec_name() + " | "@
            + t.spec_name() + " task suffers cosmic CHAOS! Delays expected"@
    } else if boost < 700 {
        "WARNING: "@ + pos.planet.spec_name() + " in "@ + pos.sign.spec_name() + " ("@
            + pos.sign.spec_element().spec_name() + ") | "@ + t.spec_name() + " task DEBUFFED | "@
            + opposition_text(pos.sign.spec_element(), t)
    } else if boost > 1300 {
        pos.planet.spec_name() + " in "@ + pos.sign.spec_name() + " ("@
            + pos.sign.spec_element().spec_name() + ") | "@ + t.spec_name()
            + " task COSMICALLY BLESSED | "@ + pos.sign.spec_element().spec_name()
            + " provides divine boost"@
    } else if boost > 1100 {
        pos.planet.spec_name() + " in "@ + pos.sign.spec_name() + " | "@ + t.spec_name()
            + " task enhanced by favorable "@ + pos.sign.spec_element().spec_name() + " energy"@
    } else {
        pos.planet.spec_name() + " in "@ + pos.sign.spec_name() + " | "@ + t.spec_name()
            + " task neutral | Cosmos balanced"@
    }
}

/// The narrative of the privileged-process bypass.
pub open spec fn critical_reasoning(pid: int) -> Seq<char> {
    "Sun rules all - PID "@ + int_digits(pid) + " is CRITICAL (init)"@
}

/// Number of records among the first `n` of a snapshot whose band is owned
/// by element `e`.
pub open spec fn count_element_up_to(s: Seq<PlanetaryPosition>, e: Element, n: int) -> int
    decreases n,
{
    if n <= 0 {
        0
    } else {
        count_element_up_to(s, e, n - 1)
            + if s[n - 1].sign.spec_element() == e { 1int } else { 0int }
    }
}

/// Number of bodies of a snapshot currently in a band of element `e`.
pub open spec fn element_count(s: Seq<PlanetaryPosition>, e: Element) -> int {
    count_element_up_to(s, e, s.len() as int)
}

/// A Fire/Water clash holds when at least two bodies sit in Fire bands and
/// at least two sit in Water bands.
pub open spec fn fire_water_clash(s: Seq<PlanetaryPosition>) -> bool {
    element_count(s, Element::Fire) >= 2 && element_count(s, Element::Water) >= 2
}

/// An Earth/Air clash holds when at least two bodies sit in Earth bands and
/// at least two sit in Air bands.
pub open spec fn earth_air_clash(s: Seq<PlanetaryPosition>) -> bool {
    element_count(s, Element::Earth) >= 2 && element_count(s, Element::Air) >= 2
}

/// Count the bodies currently in a band of element `e`.
fn count_elements(positions: &Vec<PlanetaryPosition>, e: Element) -> (c: u64)
    ensures
        c as int == element_count(positions@, e),
        c <= positions@.len(),
{
    let n = positions.len();
    let mut c: u64 = 0;
    let mut i: usize = 0;
    while i < n
        invariant
            n == positions@.len(),
            i <= n,
            c as int == count_element_up_to(positions@, e, i as int),
            c <= i,
        decreases n - i,
    {
        if positions[i].sign.element() == e {
            c += 1;
        }
        i += 1;
    }
    c
}

/// The category-level status reported for one governing body.
#[derive(Debug, Clone, Copy, PartialEq, Eq, Structural)]
pub enum CategoryStatus {
    BoostedContested,
    Boosted,
    Debuffed,
    Neutral,
}

/// Status of a category whose governing body currently sits in element `e`:
/// boosted when `e` is the category's ideal element (contested as well when
/// the matching clash holds), debuffed when `e` is the opposed element,
/// neutral otherwise.
pub open spec fn spec_category_status(
    e: Element,
    ideal: Element,
    opposed: Element,
    clash: bool,
) -> CategoryStatus {
    if e == ideal && clash {
        CategoryStatus::BoostedContested
    } else if e == ideal {
        CategoryStatus::Boosted
    } else if e == opposed {
        CategoryStatus::Debuffed
    } else {
        CategoryStatus::Neutral
    }
}

fn category_status(e: Element, ideal: Element, opposed: Element, clash: bool) -> (r:
    CategoryStatus)
    ensures
        r == spec_category_status(e, ideal, opposed, clash),
{
    if e == ideal && clash {
        CategoryStatus::BoostedContested
    } else if e == ideal {
        CategoryStatus::Boosted
    } else if e == opposed {
        CategoryStatus::Debuffed
    } else {
        CategoryStatus::Neutral
    }
}

/// Status of the CPU-bound category: Mars against Fire (ideal) and Water
/// (opposed), contested under a Fire/Water clash.
pub open spec fn spec_cpu_status(s: Seq<PlanetaryPosition>) -> CategoryStatus {
    spec_category_status(
        record_for(s, Planet::Mars).sign.spec_element(),
        Element::Fire,
        Element::Water,
        fire_water_clash(s),
    )
}

/// Status of the network category: Mercury against Air and Earth, contested
/// under an Earth/Air clash.
pub open spec fn spec_network_status(s: Seq<PlanetaryPosition>) -> CategoryStatus {
    spec_category_status(
        record_for(s, Planet::Mercury).sign.spec_element(),
        Element::Air,
        Element::Earth,
        earth_air_clash(s),
    )
}

/// Status of the memory-heavy category: Jupiter against Water and Fire,
/// contested under a Fire/Water clash.
pub open spec fn spec_memory_status(s: Seq<PlanetaryPosition>) -> CategoryStatus {
    spec_category_status(
        record_for(s, Planet::Jupiter).sign.spec_element(),
        Element::Water,
        Element::Fire,
        fire_water_clash(s),
    )
}

/// Status of the system category: Saturn against Earth and Air, contested
/// under an Earth/Air clash.
pub open spec fn spec_system_status(s: Seq<PlanetaryPosition>) -> CategoryStatus {
    spec_category_status(
        record_for(s, Planet::Saturn).sign.spec_element(),
        Element::Earth,
        Element::Air,
        earth_air_clash(s),
    )
}

/// Clash detection marks a boosted category as contested: with at least two
/// bodies in Fire bands and two in Water bands, and Mars itself in a Fire
/// band, the conditions report flags the Fire/Water clash and reports the
/// CPU-bound category as boosted-and-contested.
pub proof fn lemma_clash_marks_cpu_contested(s: Seq<PlanetaryPosition>)
    requires
        element_count(s, Element::Fire) >= 2,
        element_count(s, Element::Water) >= 2,
        record_for(s, Planet::Mars).sign.spec_element() == Element::Fire,
    ensures
        fire_water_clash(s),
        spec_cpu_status(s) == CategoryStatus::BoostedContested,
{
}

/// Text rendered for the moment a report was computed for.
pub uninterp spec fn utc_text_of(secs: int) -> Seq<char>;

/// Relies on chrono's `DateTime::<Utc>::from_timestamp` and
/// `DateTime::format`: the rendered calendar text is a pure function of the
/// timestamp alone (an out-of-range timestamp renders as empty text).
#[verifier::external_body]
fn format_timestamp(secs: i64) -> (r: String)
    ensures
        r@ == utc_text_of(secs as int),
{
    match chrono::DateTime::<chrono::Utc>::from_timestamp(secs, 0) {
        Some(moment) => format!("{}", moment.format("%Y-%m-%d %H:%M:%S UTC")),
        None => String::new(),
    }
}

/// The report's heading and timestamp line.
pub open spec fn header_text(now: int) -> Seq<char> {
    "COSMIC WEATHER REPORT\n"@ + "Current time: "@ + utc_text_of(now) + "\n\n"@
}

fn render_header(now: i64) -> (r: String)
    ensures
        r@ == header_text(now as int),
{
    let mut s = String::from_str("COSMIC WEATHER REPORT\n");
    s.append("Current time: ");
    let stamp = format_timestamp(now);
    s.append(stamp.as_str());
    s.append("\n\n");
    s
}

/// The bracketed phase note shown after the Moon's line, empty for every
/// other body.
pub open spec fn phase_suffix(p: PlanetaryPosition) -> Seq<char> {
    match p.moon_phase {
        Some(phase) => " ["@ + phase.spec_name() + "]"@,
        None => Seq::<char>::empty(),
    }
}

fn render_phase_suffix(p: &PlanetaryPosition) -> (r: String)
    ensures
        r@ == phase_suffix(*p),
{
    match p.moon_phase {
        Some(phase) => {
            let mut s = String::from_str(" [");
            s.append(phase.name());
            s.append("]");
            s
        },
        None => String::new(),
    }
}

/// One body's line of the report: name, band, whole degrees, element, and
/// the phase note for the Moon.
pub open spec fn position_line(p: PlanetaryPosition) -> Seq<char> {
    p.planet.spec_name() + " in "@ + p.sign.spec_name() + " ("@
        + int_digits(p.longitude as int / 1000) + " deg) - "@ + p.sign.spec_element().spec_name()
        + phase_suffix(p) + "\n"@
}

fn render_position_line(p: &PlanetaryPosition) -> (r: String)
    requires
        p.wf(),
    ensures
        r@ == position_line(*p),
{
    let mut s = String::from_str(p.planet.name());
    s.append(" in ");
    s.append(p.sign.name());
    s.append(" (");
    let degrees = i64_to_string(p.longitude / 1000);
    s.append(degrees.as_str());
    s.append(" deg) - ");
    s.append(p.sign.element().name());
    let suffix = render_phase_suffix(p);
    s.append(suffix.as_str());
    s.append("\n");
    s
}

/// The body lines of the first `n` records, in snapshot order.
pub open spec fn positions_text_up_to(s: Seq<PlanetaryPosition>, n: int) -> Seq<char>
    decreases n,
{
    if n <= 0 {
        Seq::<char>::empty()
    } else {
        positions_text_up_to(s, n - 1) + position_line(s[n - 1])
    }
}

/// The body lines of a whole snapshot.
pub open spec fn positions_text(s: Seq<PlanetaryPosition>) -> Seq<char> {
    positions_text_up_to(s, s.len() as int)
}

fn render_positions(positions: &Vec<PlanetaryPosition>) -> (r: String)
    requires
        snapshot_wf(positions@),
    ensures
        r@ == positions_text(positions@),
{
    let n = positions.len();
    let mut out = String::new();
    let mut i: usize = 0;
    while i < n
        invariant
            n == positions@.len(),
            i <= n,
            snapshot_wf(positions@),
            out@ == positions_text_up_to(positions@, i as int),
        decreases n - i,
    {
        let line = render_position_line(&positions[i]);
        out.append(line.as_str());
        i += 1;
    }
    out
}

/// The status phrase of one category line, with its category-specific
/// flavour messages.
pub open spec fn status_line_text(
    st: CategoryStatus,
    boosted: Seq<char>,
    contested: Seq<char>,
    debuffed: Seq<char>,
) -> Seq<char> {
    match st {
        CategoryStatus::BoostedContested => "BOOSTED but CONTESTED - "@ + contested,
        CategoryStatus::Boosted => "BOOSTED - "@ + boosted,
        CategoryStatus::Debuffed => "DEBUFFED - "@ + debuffed,
        CategoryStatus::Neutral => "Neutral - Normal operations"@,
    }
}

fn render_status(st: CategoryStatus, boosted: &str, contested: &str, debuffed: &str) -> (r: String)
    ensures
        r@ == status_line_text(st, boosted@, contested@, debuffed@),
{
    match st {
        CategoryStatus::BoostedContested => {
            let mut s = String::from_str("BOOSTED but CONTESTED - ");
            s.append(contested);
            s
        },
        CategoryStatus::Boosted => {
            let mut s = String::from_str("BOOSTED - ");
            s.append(boosted);
            s
        },
        CategoryStatus::Debuffed => {
            let mut s = String::from_str("DEBUFFED - ");
            s.append(debuffed);
            s
        },
        CategoryStatus::Neutral => String::from_str("Neutral - Normal operations"),
    }
}

/// The CPU-bound guidance line.
pub open spec fn cpu_line_text(s: Seq<PlanetaryPosition>) -> Seq<char> {
    "CPU-Intensive Tasks (Mars in "@ + record_for(s, Planet::Mars).sign.spec_name() + "): "@
        + status_line_text(
        spec_cpu_status(s),
        "Compilations and calculations favored!"@,
        "Fire powers CPU but Water planets oppose!"@,
        "Water dampens the CPU fires!"@,
    ) + "\n"@
}

/// The network guidance line.
pub open spec fn network_line_text(s: Seq<PlanetaryPosition>) -> Seq<char> {
    "Network Tasks (Mercury in "@ + record_for(s, Planet::Mercury).sign.spec_name() + "): "@
        + status_line_text(
        spec_network_status(s),
        "Network communications flow freely!"@,
        "Air speeds networks but Earth planets oppose!"@,
        "Earth blocks network packets!"@,
    ) + "\n"@
}

/// The memory-heavy guidance line.
pub open spec fn memory_line_text(s: Seq<PlanetaryPosition>) -> Seq<char> {
    "Memory-Heavy Tasks (Jupiter in "@ + record_for(s, Planet::Jupiter).sign.spec_name() + "): "@
        + status_line_text(
        spec_memory_status(s),
        "Databases and caches optimized!"@,
        "Water fills memory but Fire planets oppose!"@,
        "Fire evaporates memory pools!"@,
    ) + "\n"@
}

/// The system guidance line.
pub open spec fn system_line_text(s: Seq<PlanetaryPosition>) -> Seq<char> {
    "System Tasks (Saturn in "@ + record_for(s, Planet::Saturn).sign.spec_name() + "): "@
        + status_line_text(
        spec_system_status(s),
        "System operations rock solid!"@,
        "Earth stabilizes systems but Air planets oppose!"@,
        "Air disrupts system stability!"@,
    ) + "\n"@
}

/// The guidance section: one status line per category tied to an ordinary
/// body.
pub open spec fn guidance_text(s: Seq<PlanetaryPosition>) -> Seq<char> {
    "\nASTROLOGICAL GUIDANCE\n\n"@ + cpu_line_text(s) + network_line_text(s) + memory_line_text(s)
        + system_line_text(s)
}

fn render_guidance(positions: &Vec<PlanetaryPosition>) -> (r: String)
    requires
        snapshot_wf(positions@),
    ensures
        r@ == guidance_text(positions@),
{
    let fire_count = count_elements(positions, Element::Fire);
    let earth_count = count_elements(positions, Element::Earth);
    let air_count = count_elements(positions, Element::Air);
    let water_count = count_elements(positions, Element::Water);
    let fw_clash = fire_count >= 2 && water_count >= 2;
    let ea_clash = earth_count >= 2 && air_count >= 2;

    let mut out = String::from_str("\nASTROLOGICAL GUIDANCE\n\n");

    let mars_pos = position_of(positions, Planet::Mars);
    let mut line = String::from_str("CPU-Intensive Tasks (Mars in ");
    line.append(mars_pos.sign.name());
    line.append("): ");
    let status = render_status(
        category_status(mars_pos.sign.element(), Element::Fire, Element::Water, fw_clash),
        "Compilations and calculations favored!",
        "Fire powers CPU but Water planets oppose!",
        "Water dampens the CPU fires!",
    );
    line.append(status.as_str());
    line.append("\n");
    out.append(line.as_str());

    let merc_pos = position_of(positions, Planet::Mercury);
    let mut line = String::from_str("Network Tasks (Mercury in ");
    line.append(merc_pos.sign.name());
    line.append("): ");
    let status = render_status(
        category_status(merc_pos.sign.element(), Element::Air, Element::Earth, ea_clash),
        "Network communications flow freely!",
        "Air speeds networks but Earth planets oppose!",
        "Earth blocks network packets!",
    );
    line.append(status.as_str());
    line.append("\n");
    out.append(line.as_str());

    let jup_pos = position_of(positions, Planet::Jupiter);
    let mut line = String::from_str("Memory-Heavy Tasks (Jupiter in ");
    line.append(jup_pos.sign.name());
    line.append("): ");
    let status = render_status(
        category_status(jup_pos.sign.element(), Element::Water, Element::Fire, fw_clash),
        "Databases and caches optimized!",
        "Water fills memory but Fire planets oppose!",
        "Fire evaporates memory pools!",
    );
    line.append(status.as_str());
    line.append("\n");
    out.append(line.as_str());

    let sat_pos = position_of(positions, Planet::Saturn);
    let mut line = String::from_str("System Tasks (Saturn in ");
    line.append(sat_pos.sign.name());
    line.append("): ");
    let status = render_status(
        category_status(sat_pos.sign.element(), Element::Earth, Element::Air, ea_clash),
        "System operations rock solid!",
        "Earth stabilizes systems but Air planets oppose!",
        "Air disrupts system stability!",
    );
    line.append(status.as_str());
    line.append("\n");
    out.append(line.as_str());

    out
}

/// The per-element tally section.
pub open spec fn balance_text(s: Seq<PlanetaryPosition>) -> Seq<char> {
    "\nElemental Balance:\n"@ + "   Fire (CPU): "@ + dec_digits(element_count(s, Element::Fire))
        + " planets | Earth (Stability): "@ + dec_digits(element_count(s, Element::Earth))
        + " planets\n"@ + "   Air (Network): "@ + dec_digits(element_count(s, Element::Air))
        + " planets | Water (Memory): "@ + dec_digits(element_count(s, Element::Water))
        + " planets\n"@
}

fn render_balance(positions: &Vec<PlanetaryPosition>) -> (r: String)
    ensures
        r@ == balance_text(positions@),
{
    let fire_count = count_elements(positions, Element::Fire);
    let earth_count = count_elements(positions, Element::Earth);
    let air_count = count_elements(positions, Element::Air);
    let water_count = count_elements(positions, Element::Water);

    let mut s = String::from_str("\nElemental Balance:\n");
    s.append("   Fire (CPU): ");
    let t = u64_to_string(fire_count);
    s.append(t.as_str());
    s.append(" planets | Earth (Stability): ");
    let t = u64_to_string(earth_count);
    s.append(t.as_str());
    s.append(" planets\n");
    s.append("   Air (Network): ");
    let t = u64_to_string(air_count);
    s.append(t.as_str());
    s.append(" planets | Water (Memory): ");
    let t = u64_to_string(water_count);
    s.append(t.as_str());
    s.append(" planets\n");
    s
}

/// The Fire/Water clash lines, empty when no such clash holds.
pub open spec fn fire_water_text(s: Seq<PlanetaryPosition>) -> Seq<char> {
    if fire_water_clash(s) {
        "   Fire vs Water CLASH! "@ + dec_digits(element_count(s, Element::Fire))
            + " Fire planets battle "@ + dec_digits(element_count(s, Element::Water))
            + " Water planets!\n"@ + "      CPU tasks and Memory tasks are in cosmic opposition!\n"@
    } else {
        Seq::<char>::empty()
    }
}

/// The Earth/Air clash lines, empty when no such clash holds.
pub open spec fn earth_air_text(s: Seq<PlanetaryPosition>) -> Seq<char> {
    if earth_air_clash(s) {
        "   Earth vs Air CLASH! "@ + dec_digits(element_count(s, Element::Earth))
            + " Earth planets battle "@ + dec_digits(element_count(s, Element::Air))
            + " Air planets!\n"@ + "      System tasks and Network tasks are in cosmic opposition!\n"@
    } else {
        Seq::<char>::empty()
    }
}

/// The closing line shown when the elements are at peace.
pub open spec fn peace_text(s: Seq<PlanetaryPosition>) -> Seq<char> {
    if !fire_water_clash(s) && !earth_air_clash(s) {
        "   The elements are at peace (for now).\n"@
    } else {
        Seq::<char>::empty()
    }
}

/// The tensions section: each clash reported independently, or the peace
/// line when neither holds.
pub open spec fn tensions_text(s: Seq<PlanetaryPosition>) -> Seq<char> {
    "\nCosmic Tensions:\n"@ + fire_water_text(s) + earth_air_text(s) + peace_text(s)
}

fn render_tensions(positions: &Vec<PlanetaryPosition>) -> (r: String)
    ensures
        r@ == tensions_text(positions@),
{
    let fire_count = count_elements(positions, Element::Fire);
    let earth_count = count_elements(positions, Element::Earth);
    let air_count = count_elements(positions, Element::Air);
    let water_count = count_elements(positions, Element::Water);
    let fw_clash = fire_count >= 2 && water_count >= 2;
    let ea_clash = earth_count >= 2 && air_count >= 2;

    let mut out = String::from_str("\nCosmic Tensions:\n");

    let fw_part = if fw_clash {
        let mut s = String::from_str("   Fire vs Water CLASH! ");
        let t = u64_to_string(fire_count);
        s.append(t.as_str());
        s.append(" Fire planets battle ");
        let t = u64_to_string(water_count);
        s.append(t.as_str());
        s.append(" Water planets!\n");
        s.append("      CPU tasks and Memory tasks are in cosmic opposition!\n");
        s
    } else {
        String::new()
    };
    out.append(fw_part.as_str());

    let ea_part = if ea_clash {
        let mut s = String::from_str("   Earth vs Air CLASH! ");
        let t = u64_to_string(earth_count);
        s.append(t.as_str());
        s.append(" Earth planets battle ");
        let t = u64_to_string(air_count);
        s.append(t.as_str());
        s.append(" Air planets!\n");
        s.append("      System tasks and Network tasks are in cosmic opposition!\n");
        s
    } else {
        String::new()
    };
    out.append(ea_part.as_str());

    let peace_part = if !fw_clash && !ea_clash {
        String::from_str("   The elements are at peace (for now).\n")
    } else {
        String::new()
    };
    out.append(peace_part.as_str());
    out
}

/// The whole conditions report for one snapshot and moment.
pub open spec fn spec_weather_report(s: Seq<PlanetaryPosition>, now: int) -> Seq<char> {
    header_text(now) + positions_text(s) + guidance_text(s) + balance_text(s) + tensions_text(s)
}

/// The scheduling engine: an immutable classifier and a time-bounded cache
/// of the latest positional snapshot.
pub struct AstrologicalScheduler {
    classifier: TaskClassifier,
    planetary_cache: Option<(i64, Vec<PlanetaryPosition>)>,
    cache_duration_secs: i64,
}

impl AstrologicalScheduler {
    /// The cache time-to-live, in seconds.
    pub closed spec fn spec_ttl(self) -> int {
        self.cache_duration_secs as int
    }

    /// The cached snapshot and the moment it was captured for, if any.
    pub closed spec fn spec_cache(self) -> Option<(int, Seq<PlanetaryPosition>)> {
        match self.planetary_cache {
            Some(c) => Some((c.0 as int, c.1@)),
            None => None,
        }
    }

    /// The engine's invariant: the classifier holds the fixed pattern table
    /// and any cached snapshot is well formed.
    pub closed spec fn wf(self) -> bool {
        &&& self.classifier@ == pattern_table()
        &&& match self.planetary_cache {
            Some(c) => snapshot_wf(c.1@),
            None => true,
        }
    }

    /// The cache is fresh at `now` when a snapshot is present and no more
    /// than the time-to-live has passed since it was captured.
    pub open spec fn cache_fresh(self, now: int) -> bool {
        match self.spec_cache() {
            Some(c) => now - c.0 <= self.spec_ttl(),
            None => false,
        }
    }

    /// The snapshot a request at `now` observes: the cached one while fresh,
    /// else one freshly built from the readings.
    pub open spec fn snapshot_for(self, now: int, r: SolverReadings) -> Seq<PlanetaryPosition> {
        if self.cache_fresh(now) {
            self.spec_cache()->Some_0.1
        } else {
            spec_snapshot(r)
        }
    }

    /// The cache after a request at `now`: unchanged while fresh, else
    /// replaced wholesale by a snapshot captured at `now`.
    pub open spec fn cache_after(self, now: int, r: SolverReadings) -> Option<
        (int, Seq<PlanetaryPosition>),
    > {
        if self.cache_fresh(now) {
            self.spec_cache()
        } else {
            Some((now, spec_snapshot(r)))
        }
    }

    /// Build an engine with an empty cache and the given time-to-live.
    pub fn new(cache_duration_secs: i64) -> (r: AstrologicalScheduler)
        ensures
            r.wf(),
            r.spec_ttl() == cache_duration_secs as int,
            r.spec_cache() is None,
    {
        AstrologicalScheduler {
            classifier: TaskClassifier::new(),
            planetary_cache: None,
            cache_duration_secs,
        }
    }

    /// The configured cache time-to-live, in seconds.
    pub fn cache_duration_secs(&self) -> (r: i64)
        ensures
            r as int == self.spec_ttl(),
    {
        self.cache_duration_secs
    }

    /// The moment the cached snapshot was captured for, if one is present.
    pub fn cached_at(&self) -> (r: Option<i64>)
        ensures
            match r {
                Some(t) => self.spec_cache() is Some && self.spec_cache()->Some_0.0 == t as int,
                None => self.spec_cache() is None,
            },
    {
        match &self.planetary_cache {
            Some(c) => Some(c.0),
            None => None,
        }
    }

    /// The cached snapshot, if one is present.
    pub fn cached_positions(&self) -> (r: Option<&Vec<PlanetaryPosition>>)
        ensures
            match r {
                Some(v) => self.spec_cache() is Some && self.spec_cache()->Some_0.1 == v@,
                None => self.spec_cache() is None,
            },
    {
        match &self.planetary_cache {
            Some(c) => Some(&c.1),
            None => None,
        }
    }

    /// Whether the cache is fresh at `now`.
    fn is_fresh(&self, now: i64) -> (r: bool)
        ensures
            r == self.cache_fresh(now as int),
    {
        match &self.planetary_cache {
            None => false,
            Some(c) => {
                match now.checked_sub(c.0) {
                    Some(age) => age <= self.cache_duration_secs,
                    None => now < c.0,
                }
            },
        }
    }

    /// Refresh the snapshot cache for a request at `now`: keep it while
    /// fresh, else rebuild it from the readings and stamp it with `now`.
    fn get_planetary_positions(&mut self, now: i64, readings: &SolverReadings)
        requires
            old(self).wf(),
            readings.wf(),
        ensures
            final(self).wf(),
            final(self).spec_ttl() == old(self).spec_ttl(),
            final(self).classifier == old(self).classifier,
            final(self).spec_cache() == old(self).cache_after(now as int, *readings),
            final(self).spec_cache() is Some,
    {
        let needs_refresh = !self.is_fresh(now);
        if needs_refresh {
            let positions = calculate_planetary_positions(readings);
            self.planetary_cache = Some((now, positions));
        }
    }

    /// Directional influence of one record, in thousandths: `-1000` for a
    /// retrograde body, else the element weight of its band.
    pub fn calculate_planetary_influence(position: &PlanetaryPosition) -> (r: i32)
        ensures
            r as int == spec_influence(*position),
            r == -1000 || 1000 <= r <= 1300,
    {
        if position.retrograde {
            return -1000;
        }
        match position.sign.element() {
            Element::Fire => 1300,
            Element::Earth => 1100,
            Element::Air => 1200,
            Element::Water => 1000,
        }
    }

    /// The lunar modifier for interactive tasks, in thousandths.
    pub fn moon_phase_modifier(phase: MoonPhase) -> (r: u32)
        ensures
            r as int == moon_modifier(phase),
            800 <= r <= 1400,
    {
        match phase {
            MoonPhase::FullMoon => 1400,
            MoonPhase::WaxingGibbous => 1200,
            MoonPhase::FirstQuarter => 1100,
            MoonPhase::WaxingCrescent => 1050,
            MoonPhase::NewMoon => 800,
            MoonPhase::WaningGibbous => 950,
            MoonPhase::LastQuarter => 900,
            MoonPhase::WaningCrescent => 850,
        }
    }

    /// Affinity-matrix boost of a category against the governing body's
    /// current element, in thousandths, before the lunar modifier.
    pub fn calculate_element_boost(positions: &Vec<PlanetaryPosition>, task_type: TaskType) -> (r:
        u32)
        requires
            snapshot_wf(positions@),
        ensures
            r as int == spec_affinity(positions@, task_type),
            600 <= r <= 1500,
    {
        let ruling_planet = task_type.ruling_planet();
        let planet_pos = position_of(positions, ruling_planet);
        let element = planet_pos.sign.element();
        match (element, task_type) {
            (Element::Fire, TaskType::CpuIntensive) => 1500,
            (Element::Air, TaskType::Network) => 1500,
            (Element::Earth, TaskType::System) => 1400,
            (Element::Water, TaskType::MemoryHeavy) => 1300,
            (Element::Air, TaskType::Desktop) => 1300,
            (Element::Water, TaskType::Desktop) => 1300,
            (Element::Water, TaskType::CpuIntensive) => 600,
            (Element::Earth, TaskType::Network) => 600,
            (Element::Air, TaskType::System) => 700,
            (Element::Fire, TaskType::MemoryHeavy) => 700,
            _ => 1000,
        }
    }

    /// Render the narrative for one non-critical decision.
    fn create_reasoning(
        task_type: TaskType,
        planet_pos: &PlanetaryPosition,
        influence: i32,
        boost: u32,
    ) -> (r: String)
        ensures
            r@ == spec_reasoning(task_type, *planet_pos, influence as int, boost as int),
    {
        let planet_name = planet_pos.planet.name();
        let sign_name = planet_pos.sign.name();
        let element_name = planet_pos.sign.element().name();

        if influence < 0 {
            let mut s = String::from_str(planet_name);
            s.append(" RETROGRADE in ");
            s.append(sign_name);
            s.append(" | ");
            s.append(task_type.name());
            s.append(" task suffers cosmic CHAOS! Delays expected");
            return s;
        }

        if boost < 700 {
            let opposition = match (planet_pos.sign.element(), task_type) {
                (Element::Water, TaskType::CpuIntensive) => "Water dampens fire",
                (Element::Earth, TaskType::Network) => "Earth blocks air",
                (Element::Air, TaskType::System) => "Air disrupts earth",
                (Element::Fire, TaskType::MemoryHeavy) => "Fire evaporates water",
                _ => "Elemental opposition",
            };
            proof {
                assert(opposition@ == opposition_text(
                    planet_pos.sign.spec_element(),
                    task_type,
                ));
            }
            let mut s = String::from_str("WARNING: ");
            s.append(planet_name);
            s.append(" in ");
            s.append(sign_name);
            s.append(" (");
            s.append(element_name);
            s.append(") | ");
            s.append(task_type.name());
            s.append(" task DEBUFFED | ");
            s.append(opposition);
            s
        } else if boost > 1300 {
            let mut s = String::from_str(planet_name);
            s.append(" in ");
            s.append(sign_name);
            s.append(" (");
            s.append(element_name);
            s.append(") | ");
            s.append(task_type.name());
            s.append(" task COSMICALLY BLESSED | ");
            s.append(element_name);
            s.append(" provides divine boost");
            s
        } else if boost > 1100 {
            let mut s = String::from_str(planet_name);
            s.append(" in ");
            s.append(sign_name);
            s.append(" | ");
            s.append(task_type.name());
            s.append(" task enhanced by favorable ");
            s.append(element_name);
            s.append(" energy");
            s
        } else {
            let mut s = String::from_str(planet_name);
            s.append(" in ");
            s.append(sign_name);
            s.append(" | ");
            s.append(task_type.name());
            s.append(" task neutral | Cosmos balanced");
            s
        }
    }

    /// Decide priority, influence, boost and narrative for one task at one
    /// moment.
    ///
    /// The reserved init process id bypasses everything with the fixed
    /// critical decision and leaves the cache untouched. Any other task is
    /// classified, the snapshot for `now` is taken from the cache while it
    /// is fresh and rebuilt from the readings otherwise, and the decision is
    /// computed from the governing body's record in that snapshot.
    pub fn schedule_task(&mut self, comm: &str, pid: i32, now: i64, readings: &SolverReadings) -> (d:
        SchedulingDecision)
        requires
            old(self).wf(),
            readings.wf(),
        ensures
            final(self).wf(),
            final(self).spec_ttl() == old(self).spec_ttl(),
            d.priority >= 1,
            pid == 1 ==> {
                &&& d.priority == 1000
                &&& d.planetary_influence == 1000
                &&& d.element_boost == 2000
                &&& d.reasoning@ == critical_reasoning(pid as int)
                &&& final(self).spec_cache() == old(self).spec_cache()
            },
            pid != 1 ==> {
                let t = spec_classify(pattern_table(), comm@);
                let snap = old(self).snapshot_for(now as int, *readings);
                let pos = record_for(snap, t.spec_ruling_planet());
                &&& d.planetary_influence as int == spec_influence(pos)
                &&& d.element_boost as int == spec_boost(snap, t)
                &&& d.priority as int == spec_priority(
                    t,
                    spec_influence(pos),
                    spec_boost(snap, t),
                )
                &&& d.reasoning@ == spec_reasoning(
                    t,
                    pos,
                    spec_influence(pos),
                    spec_boost(snap, t),
                )
                &&& pos.retrograde ==> d.priority as int == base_priority(t) * 300 / 1000
                &&& final(self).spec_cache() == old(self).cache_after(now as int, *readings)
            },
    {
        if TaskClassifier::is_critical(pid) {
            let mut reasoning = String::from_str("Sun rules all - PID ");
            let pid_text = i64_to_string(pid as i64);
            reasoning.append(pid_text.as_str());
            reasoning.append(" is CRITICAL (init)");
            return SchedulingDecision {
                priority: 1000,
                reasoning,
                planetary_influence: 1000,
                element_boost: 2000,
            };
        }

        let task_type = self.classifier.classify(comm);
        let ruling_planet = task_type.ruling_planet();

        self.get_planetary_positions(now, readings);
        let positions: &Vec<PlanetaryPosition> = match &self.planetary_cache {
            Some(c) => &c.1,
            None => unreached(),
        };

        let planet_pos = position_of(positions, ruling_planet);
        let planetary_influence = Self::calculate_planetary_influence(planet_pos);
        let mut element_boost = Self::calculate_element_boost(positions, task_type);

        if matches!(task_type, TaskType::Interactive) {
            let moon_pos = position_of(positions, Planet::Moon);
            if let Some(phase) = moon_pos.moon_phase {
                let modifier = Self::moon_phase_modifier(phase);
                proof {
                    assert((element_boost as u64) * (modifier as u64) <= 1500 * 1400)
                        by (nonlinear_arith)
                        requires
                            element_boost <= 1500,
                            modifier <= 1400,
                    ;
                }
                let scaled: u64 = (element_boost as u64) * (modifier as u64) / 1000;
                element_boost = scaled as u32;
            }
        }
        proof {
            assert(element_boost <= 2100);
        }

        let base_priority_weight: u64 = match task_type {
            TaskType::Critical => 1000,
            TaskType::System => 200,
            TaskType::Interactive => 150,
            TaskType::Desktop => 120,
            TaskType::CpuIntensive => 100,
            TaskType::Network => 100,
            TaskType::MemoryHeavy => 80,
        };

        let influenced_priority: u64 = if planetary_influence >= 0 {
            proof {
                assert(base_priority_weight * (planetary_influence as u64) * (element_boost as u64)
                    <= 1000 * 1300 * 2100) by (nonlinear_arith)
                    requires
                        base_priority_weight <= 1000,
                        0 <= planetary_influence <= 1300,
                        element_boost <= 2100,
                ;
            }
            base_priority_weight * (planetary_influence as u64) * (element_boost as u64) / 1000000
        } else {
            base_priority_weight * 300 / 1000
        };

        let priority: u32 = if influenced_priority < 1 {
            1
        } else {
            influenced_priority as u32
        };

        let reasoning = Self::create_reasoning(
            task_type,
            planet_pos,
            planetary_influence,
            element_boost,
        );

        SchedulingDecision { priority, reasoning, planetary_influence, element_boost }
    }

    /// Compose the conditions report for `now`: refresh or reuse the cached
    /// snapshot exactly as a decision would, then report every body's band
    /// and element, the four category statuses, the per-element tallies and
    /// any elemental clashes.
    pub fn get_cosmic_weather(&mut self, now: i64, readings: &SolverReadings) -> (r: String)
        requires
            old(self).wf(),
            readings.wf(),
        ensures
            final(self).wf(),
            final(self).spec_ttl() == old(self).spec_ttl(),
            final(self).spec_cache() == old(self).cache_after(now as int, *readings),
            r@ == spec_weather_report(
                old(self).snapshot_for(now as int, *readings),
                now as int,
            ),
    {
        self.get_planetary_positions(now, readings);
        let positions: &Vec<PlanetaryPosition> = match &self.planetary_cache {
            Some(c) => &c.1,
            None => unreached(),
        };

        let mut report = render_header(now);
        let section = render_positions(positions);
        report.append(section.as_str());
        let section = render_guidance(positions);
        report.append(section.as_str());
        let section = render_balance(positions);
        report.append(section.as_str());
        let section = render_tensions(positions);
        report.append(section.as_str());
        report
    }
}

/// Cache reuse: once a request at `t` has left the cache holding a snapshot
/// captured at `t`, every request at `t + d` with `0 <= d` no greater than
/// the time-to-live observes that identical snapshot - whatever the solver
/// would report meanwhile - and leaves the cache untouched.
pub proof fn lemma_cache_reuse(
    e: AstrologicalScheduler,
    t: int,
    d: int,
    r: SolverReadings,
)
    requires
        e.spec_cache() is Some,
        e.spec_cache()->Some_0.0 == t,
        0 <= d <= e.spec_ttl(),
    ensures
        e.cache_fresh(t + d),
        e.snapshot_for(t + d, r) == e.spec_cache()->Some_0.1,
        e.cache_after(t + d, r) == e.spec_cache(),
{
}

/// Cache expiry: a request strictly more than the time-to-live after the
/// cached moment discards the cached snapshot, observes one freshly built
/// from the readings, and stamps the cache with the new moment.
pub proof fn lemma_cache_expiry(
    e: AstrologicalScheduler,
    t: int,
    d: int,
    r: SolverReadings,
)
    requires
        e.spec_cache() is Some,
        e.spec_cache()->Some_0.0 == t,
        d > e.spec_ttl(),
    ensures
        !e.cache_fresh(t + d),
        e.snapshot_for(t + d, r) == spec_snapshot(r),
        e.cache_after(t + d, r) == Some((t + d, spec_snapshot(r))),
{
}

/// The time-slice mapping of the dispatch loop: the priority, clamped into
/// `[100, 1000]` thousandths, interpolates between the minimum and default
/// slice, and a retrograde influence halves the result when retrograde
/// effects are enabled.
pub open spec fn spec_time_slice(
    priority: int,
    influence: int,
    slice_ns: int,
    min_slice_ns: int,
    retrograde_enabled: bool,
) -> int {
    let factor = if priority < 100 {
        100int
    } else if priority > 1000 {
        1000int
    } else {
        priority
    };
    let slice = min_slice_ns + (slice_ns - min_slice_ns) * factor / 1000;
    if retrograde_enabled && influence < 0 {
        slice / 2
    } else {
        slice
    }
}

/// Map one decision into a time-slice duration in nanoseconds.
pub fn time_slice_ns(
    priority: u32,
    planetary_influence: i32,
    slice_ns: u64,
    min_slice_ns: u64,
    retrograde_enabled: bool,
) -> (r: u64)
    requires
        min_slice_ns <= slice_ns,
        slice_ns <= 0xffff_ffff_ffff_ffffu64 / 1000,
    ensures
        r as int == spec_time_slice(
            priority as int,
            planetary_influence as int,
            slice_ns as int,
            min_slice_ns as int,
            retrograde_enabled,
        ),
{
    let factor: u64 = if priority < 100 {
        100
    } else if priority > 1000 {
        1000
    } else {
        priority as u64
    };
    proof {
        assert((slice_ns - min_slice_ns) * factor <= slice_ns * 1000) by (nonlinear_arith)
            requires
                min_slice_ns <= slice_ns,
                factor <= 1000,
        ;
        assert((slice_ns - min_slice_ns) * factor / 1000 <= slice_ns - min_slice_ns)
            by (nonlinear_arith)
            requires
                min_slice_ns <= slice_ns,
                factor <= 1000,
        ;
    }
    let scaled: u64 = (slice_ns - min_slice_ns) * factor / 1000;
    let slice: u64 = min_slice_ns + scaled;
    if retrograde_enabled && planetary_influence < 0 {
        slice / 2
    } else {
        slice
    }
}

impl Default for AstrologicalScheduler {
    /// An engine with the default five-minute cache time-to-live.
    fn default() -> (r: AstrologicalScheduler)
        ensures
            r.wf(),
            r.spec_ttl() == 300,
            r.spec_cache() is None,
    {
        AstrologicalScheduler::new(300)
    }
}

} // verus!
