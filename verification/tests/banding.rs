use horoscope::MoonPhase;
use horoscope::ZodiacSign;
use horoscope::is_retrograde;

#[test]
fn test_zodiac_from_longitude() {
    assert_eq!(ZodiacSign::from_longitude(0), ZodiacSign::Aries);
    assert_eq!(ZodiacSign::from_longitude(30_000), ZodiacSign::Taurus);
    assert_eq!(ZodiacSign::from_longitude(60_000), ZodiacSign::Gemini);
    assert_eq!(ZodiacSign::from_longitude(330_000), ZodiacSign::Pisces);
    assert_eq!(ZodiacSign::from_longitude(360_000), ZodiacSign::Aries);
    assert_eq!(ZodiacSign::from_longitude(390_000), ZodiacSign::Taurus);
}

#[test]
fn banding_boundary_values() {
    // 0 deg is the first band, 30 deg the second, 359.999 deg the last,
    // and a full circle wraps back to the first.
    assert_eq!(ZodiacSign::from_longitude(0), ZodiacSign::Aries);
    assert_eq!(ZodiacSign::from_longitude(30_000), ZodiacSign::Taurus);
    assert_eq!(ZodiacSign::from_longitude(359_999), ZodiacSign::Pisces);
    assert_eq!(ZodiacSign::from_longitude(360_000), ZodiacSign::Aries);
    assert_eq!(ZodiacSign::from_longitude(29_999), ZodiacSign::Aries);
}

#[test]
fn banding_is_periodic() {
    let l: i64 = 47_123;
    assert_eq!(
        ZodiacSign::from_longitude(l),
        ZodiacSign::from_longitude(l + 5 * 360_000)
    );
    assert_eq!(
        ZodiacSign::from_longitude(l),
        ZodiacSign::from_longitude(l - 3 * 360_000)
    );
    assert_eq!(ZodiacSign::from_longitude(-30_000), ZodiacSign::Pisces);
    assert_eq!(ZodiacSign::from_longitude(-1), ZodiacSign::Pisces);
}

#[test]
fn directional_detection_rule() {
    // delta of +200 degrees wrapped forward across the seam: direct.
    assert!(!is_retrograde(100_000, 300_000));
    // delta of -200 degrees wrapped backward across the seam: retrograde.
    assert!(is_retrograde(300_000, 100_000));
    // small positive delta: direct.
    assert!(!is_retrograde(100_000, 110_000));
    // small negative delta: retrograde.
    assert!(is_retrograde(110_000, 100_000));
    // no motion counts as direct.
    assert!(!is_retrograde(5_000, 5_000));
}

#[test]
fn lunar_phase_banding() {
    assert_eq!(MoonPhase::from_angle(0), MoonPhase::NewMoon);
    assert_eq!(MoonPhase::from_angle(44_900), MoonPhase::NewMoon);
    assert_eq!(MoonPhase::from_angle(45_000), MoonPhase::WaxingCrescent);
    assert_eq!(MoonPhase::from_angle(359_900), MoonPhase::WaningCrescent);
    assert_eq!(MoonPhase::from_angle(90_000), MoonPhase::FirstQuarter);
    assert_eq!(MoonPhase::from_angle(135_000), MoonPhase::WaxingGibbous);
    assert_eq!(MoonPhase::from_angle(180_000), MoonPhase::FullMoon);
    assert_eq!(MoonPhase::from_angle(225_000), MoonPhase::WaningGibbous);
    assert_eq!(MoonPhase::from_angle(270_000), MoonPhase::LastQuarter);
    assert_eq!(MoonPhase::from_angle(315_000), MoonPhase::WaningCrescent);
    assert_eq!(MoonPhase::from_angle(360_000), MoonPhase::NewMoon);
}

#[test]
fn names_are_stable() {
    assert_eq!(ZodiacSign::Scorpio.name(), "Scorpio");
    assert_eq!(MoonPhase::FullMoon.name(), "Full Moon");
    assert_eq!(horoscope::Planet::Mercury.name(), "Mercury");
    assert_eq!(horoscope::Element::Water.name(), "Water");
}

#[test]
fn all_planets_listed_once() {
    let all = horoscope::Planet::all();
    assert_eq!(all.len(), 7);
    assert_eq!(all[0], horoscope::Planet::Sun);
    assert_eq!(all[6], horoscope::Planet::Saturn);
}
