use horoscope::AstrologicalScheduler;
use horoscope::BodyReading;
use horoscope::SolverReadings;
use horoscope::TaskType;
use horoscope::calculate_planetary_positions;
use horoscope::scheduler::time_slice_ns;

/// Every ordinary body direct; Mars in a Fire band (Aries), so CPU-bound
/// work is perfectly aligned. Moon at 95 deg (Cancer, Water), separation
/// from the Sun of 335 deg (Waning Crescent).
fn fire_direct_readings() -> SolverReadings {
    SolverReadings {
        sun: 120_000,
        moon: 95_000,
        mercury: BodyReading { longitude: 60_000, next_day_longitude: 61_000 },
        venus: BodyReading { longitude: 31_000, next_day_longitude: 32_000 },
        mars: BodyReading { longitude: 10_000, next_day_longitude: 11_000 },
        jupiter: BodyReading { longitude: 215_000, next_day_longitude: 216_000 },
        saturn: BodyReading { longitude: 150_500, next_day_longitude: 151_000 },
    }
}

/// Same snapshot, but Mars moving backward: retrograde.
fn fire_retrograde_readings() -> SolverReadings {
    let mut r = fire_direct_readings();
    r.mars = BodyReading { longitude: 10_000, next_day_longitude: 9_000 };
    r
}

#[test]
fn test_scheduler_creation() {
    let scheduler = AstrologicalScheduler::new(300);
    assert_eq!(scheduler.cache_duration_secs(), 300);
}

#[test]
fn test_critical_task_priority() {
    let mut scheduler = AstrologicalScheduler::new(300);
    let readings = fire_direct_readings();

    let decision = scheduler.schedule_task("init", 1, 0, &readings);

    assert_eq!(decision.priority, 1000);
    assert!(decision.reasoning.contains("CRITICAL"));
}

#[test]
fn critical_bypass_ignores_identifier_and_moment() {
    let mut scheduler = AstrologicalScheduler::new(300);
    let readings = fire_retrograde_readings();

    let a = scheduler.schedule_task("gcc", 1, 12_345, &readings);
    let b = scheduler.schedule_task("totally_unknown_xyz", 1, -50, &readings);

    assert_eq!(a.priority, 1000);
    assert_eq!(b.priority, 1000);
    assert_eq!(a.planetary_influence, 1000);
    assert_eq!(a.element_boost, 2000);
    assert!(b.reasoning.contains("PID 1 is CRITICAL"));
    // the bypass never touches the cache
    assert_eq!(scheduler.cached_at(), None);
}

#[test]
fn test_task_scheduling() {
    let mut scheduler = AstrologicalScheduler::new(300);
    let readings = fire_direct_readings();
    let now: i64 = 1_700_000_000;

    let firefox_decision = scheduler.schedule_task("firefox", 1234, now, &readings);
    assert!(firefox_decision.priority > 0);
    assert!(!firefox_decision.reasoning.is_empty());

    let rustc_decision = scheduler.schedule_task("rustc", 5678, now, &readings);
    assert!(rustc_decision.priority > 0);

    let systemd_decision = scheduler.schedule_task("systemd", 100, now, &readings);
    assert!(systemd_decision.priority > 0);
}

#[test]
fn test_planetary_caching() {
    let mut scheduler = AstrologicalScheduler::new(300);
    let readings = fire_direct_readings();
    let now: i64 = 1_000;

    scheduler.schedule_task("bash", 1000, now, &readings);
    assert!(scheduler.cached_at().is_some());

    let cached_time = scheduler.cached_at().unwrap();

    scheduler.schedule_task("vim", 1001, now, &readings);
    let still_cached_time = scheduler.cached_at().unwrap();

    assert_eq!(cached_time, still_cached_time);
}

#[test]
fn cache_reused_within_ttl_and_replaced_after() {
    let mut scheduler = AstrologicalScheduler::new(300);
    let first = fire_direct_readings();
    let second = fire_retrograde_readings();

    scheduler.schedule_task("bash", 77, 1_000, &first);
    let snapshot = scheduler.cached_positions().unwrap().clone();
    assert_eq!(scheduler.cached_at(), Some(1_000));

    // A moment exactly ttl later must reuse the identical snapshot, even
    // with different solver readings on offer.
    scheduler.schedule_task("vim", 78, 1_300, &second);
    assert_eq!(scheduler.cached_at(), Some(1_000));
    assert_eq!(scheduler.cached_positions().unwrap(), &snapshot);

    // One second past the ttl the snapshot is rebuilt and restamped.
    scheduler.schedule_task("vim", 78, 1_301, &second);
    assert_eq!(scheduler.cached_at(), Some(1_301));
    let rebuilt = calculate_planetary_positions(&second);
    assert_eq!(scheduler.cached_positions().unwrap(), &rebuilt);
}

#[test]
fn cpu_task_in_fire_band_direct() {
    let mut scheduler = AstrologicalScheduler::new(300);
    let readings = fire_direct_readings();

    let decision = scheduler.schedule_task("gcc", 500, 0, &readings);

    assert_eq!(decision.element_boost, 1500);
    assert_eq!(decision.planetary_influence, 1300);
    assert_eq!(decision.priority, 195);
    assert!(decision.reasoning.contains("COSMICALLY BLESSED"));
}

#[test]
fn cpu_task_under_retrograde_mars() {
    let mut scheduler = AstrologicalScheduler::new(300);
    let readings = fire_retrograde_readings();

    let decision = scheduler.schedule_task("gcc", 500, 0, &readings);

    assert_eq!(decision.planetary_influence, -1000);
    assert_eq!(decision.priority, 30);
    assert!(decision.reasoning.contains("RETROGRADE"));
}

#[test]
fn retrograde_penalty_ignores_boost() {
    let mut scheduler = AstrologicalScheduler::new(300);
    let readings = fire_retrograde_readings();

    // Mars carries the perfect Fire affinity for CPU work, yet the
    // retrograde penalty must land on floor(100 * 0.3) regardless.
    let decision = scheduler.schedule_task("rustc", 42, 0, &readings);
    assert_eq!(decision.priority, 30);
}

#[test]
fn opposed_element_debuffs() {
    let mut scheduler = AstrologicalScheduler::new(300);
    let mut readings = fire_direct_readings();
    // Mars into Cancer (Water): Water opposes CPU work.
    readings.mars = BodyReading { longitude: 95_000, next_day_longitude: 96_000 };

    let decision = scheduler.schedule_task("gcc", 500, 0, &readings);

    assert_eq!(decision.element_boost, 600);
    assert_eq!(decision.planetary_influence, 1000);
    assert_eq!(decision.priority, 60);
    assert!(decision.reasoning.contains("DEBUFFED"));
    assert!(decision.reasoning.contains("Water dampens fire"));
}

#[test]
fn good_affinity_enhances() {
    let mut scheduler = AstrologicalScheduler::new(300);
    let readings = fire_direct_readings();

    // Jupiter sits in Scorpio (Water), good affinity for memory work.
    let decision = scheduler.schedule_task("postgres", 500, 0, &readings);

    assert_eq!(decision.element_boost, 1300);
    assert_eq!(decision.planetary_influence, 1000);
    assert_eq!(decision.priority, 104);
    assert!(decision.reasoning.contains("enhanced by favorable"));
}

#[test]
fn neutral_combination_reports_balance() {
    let mut scheduler = AstrologicalScheduler::new(300);
    let mut readings = fire_direct_readings();
    // Mercury into Aries (Fire): neutral for network work.
    readings.mercury = BodyReading { longitude: 5_000, next_day_longitude: 6_000 };

    let decision = scheduler.schedule_task("curl", 500, 0, &readings);

    assert_eq!(decision.element_boost, 1000);
    assert_eq!(decision.planetary_influence, 1300);
    assert_eq!(decision.priority, 130);
    assert!(decision.reasoning.contains("task neutral"));
}

#[test]
fn interactive_task_scaled_by_full_moon() {
    let mut scheduler = AstrologicalScheduler::new(300);
    let mut readings = fire_direct_readings();
    // Moon into Libra (Air) with a separation of exactly 180 deg: Full Moon.
    readings.sun = 20_000;
    readings.moon = 200_000;

    let decision = scheduler.schedule_task("bash", 500, 0, &readings);

    assert_eq!(decision.planetary_influence, 1200);
    assert_eq!(decision.element_boost, 1400);
    assert_eq!(decision.priority, 252);
}

#[test]
fn priority_floor_holds() {
    let mut scheduler = AstrologicalScheduler::new(300);
    let direct = fire_direct_readings();
    let retro = fire_retrograde_readings();

    for (comm, pid) in [
        ("gcc", 2),
        ("curl", 3),
        ("postgres", 4),
        ("systemd", 5),
        ("bash", 6),
        ("gnome-shell", 7),
        ("no_such_task", 8),
        ("init", 1),
    ] {
        let d = scheduler.schedule_task(comm, pid, 0, &direct);
        assert!(d.priority >= 1);
        let d = scheduler.schedule_task(comm, pid, 0, &retro);
        assert!(d.priority >= 1);
    }
}

#[test]
fn test_element_boost() {
    let readings = fire_direct_readings();
    let positions = calculate_planetary_positions(&readings);

    let cpu_boost = AstrologicalScheduler::calculate_element_boost(&positions, TaskType::CpuIntensive);
    let net_boost = AstrologicalScheduler::calculate_element_boost(&positions, TaskType::Network);

    assert!(cpu_boost > 0);
    assert!(net_boost > 0);
}

#[test]
fn test_planetary_influence() {
    let readings = fire_retrograde_readings();
    let positions = calculate_planetary_positions(&readings);

    for pos in positions {
        let influence = AstrologicalScheduler::calculate_planetary_influence(&pos);

        if pos.retrograde {
            assert_eq!(
                influence,
                -1000,
                "{} is retrograde and should have -1.0 influence",
                pos.planet.name()
            );
        } else {
            assert!(
                influence > 0,
                "{} is direct and should have positive influence",
                pos.planet.name()
            );
            assert!(
                (1000..=1300).contains(&influence),
                "{} influence should be between 1.0 and 1.3",
                pos.planet.name()
            );
        }
    }
}

#[test]
fn time_slice_interpolates_between_bounds() {
    // priority 195 of 1000: slice = 500us + 4500us * 0.195 = 1377.5us
    assert_eq!(time_slice_ns(195, 1300, 5_000_000, 500_000, true), 1_377_500);
    // the factor is clamped below at 0.1 and above at 1.0
    assert_eq!(time_slice_ns(30, 1000, 5_000_000, 500_000, false), 950_000);
    assert_eq!(time_slice_ns(1000, 1000, 5_000_000, 500_000, true), 5_000_000);
    assert_eq!(time_slice_ns(5000, 1000, 5_000_000, 500_000, true), 5_000_000);
}

#[test]
fn time_slice_halved_under_retrograde() {
    assert_eq!(time_slice_ns(30, -1000, 5_000_000, 500_000, true), 475_000);
    assert_eq!(time_slice_ns(30, -1000, 5_000_000, 500_000, false), 950_000);
}
