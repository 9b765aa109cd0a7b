use chrono::Datelike;
use chrono::TimeZone;
use chrono::Utc;
use horoscope::BodyReading;
use horoscope::Planet;
use horoscope::SolverReadings;
use horoscope::ZodiacSign;
use horoscope::calculate_planetary_positions;

/// Convert a solver longitude in degrees, already limited to `[0, 360)`,
/// into millidegrees.
fn to_millideg(degrees: f64) -> i64 {
    ((degrees * 1000.0).floor() as i64).rem_euclid(360_000)
}

fn longitude_of(planet: &astro::planet::Planet, jd: f64) -> f64 {
    let (ecl, _) = astro::planet::geocent_apprnt_ecl_coords(planet, jd);
    astro::angle::limit_to_360(ecl.long.to_degrees())
}

fn body_reading(planet: &astro::planet::Planet, jd: f64) -> BodyReading {
    BodyReading {
        longitude: to_millideg(longitude_of(planet, jd)),
        next_day_longitude: to_millideg(longitude_of(planet, jd + 1.0)),
    }
}

/// Query the external position solver for one calendar day.
fn readings_at(dt: chrono::DateTime<Utc>) -> SolverReadings {
    let date = astro::time::Date {
        year: dt.year() as i16,
        month: dt.month() as u8,
        decimal_day: f64::from(dt.day()),
        cal_type: astro::time::CalType::Gregorian,
    };
    let jd = astro::time::julian_day(&date);

    let (sun_ecl, _) = astro::sun::geocent_ecl_pos(jd);
    let sun = to_millideg(astro::angle::limit_to_360(sun_ecl.long.to_degrees()));
    let (moon_ecl, _) = astro::lunar::geocent_ecl_pos(jd);
    let moon = to_millideg(astro::angle::limit_to_360(moon_ecl.long.to_degrees()));

    SolverReadings {
        sun,
        moon,
        mercury: body_reading(&astro::planet::Planet::Mercury, jd),
        venus: body_reading(&astro::planet::Planet::Venus, jd),
        mars: body_reading(&astro::planet::Planet::Mars, jd),
        jupiter: body_reading(&astro::planet::Planet::Jupiter, jd),
        saturn: body_reading(&astro::planet::Planet::Saturn, jd),
    }
}

#[test]
fn test_planetary_positions() {
    let test_time = Utc.with_ymd_and_hms(2024, 1, 1, 0, 0, 0).unwrap();
    let positions = calculate_planetary_positions(&readings_at(test_time));

    assert_eq!(positions.len(), 7);

    let planet_names: Vec<_> = positions.iter().map(|p| p.planet).collect();
    assert!(planet_names.contains(&Planet::Sun));
    assert!(planet_names.contains(&Planet::Moon));
    assert!(planet_names.contains(&Planet::Mercury));
    assert!(planet_names.contains(&Planet::Venus));
    assert!(planet_names.contains(&Planet::Mars));
    assert!(planet_names.contains(&Planet::Jupiter));
    assert!(planet_names.contains(&Planet::Saturn));

    for pos in &positions {
        assert!(
            pos.longitude >= 0 && pos.longitude < 360_000,
            "Planet {:?} longitude {} out of range",
            pos.planet,
            pos.longitude
        );
    }
}

#[test]
fn test_november_2025_positions() {
    let test_time = Utc.with_ymd_and_hms(2025, 11, 19, 22, 7, 46).unwrap();
    let positions = calculate_planetary_positions(&readings_at(test_time));

    for pos in &positions {
        println!("{:?} at {} millideg in {:?}", pos.planet, pos.longitude, pos.sign);
        match pos.planet {
            Planet::Sun => {
                assert_eq!(pos.sign, ZodiacSign::Scorpio, "Sun should be in Scorpio");
                assert!(
                    pos.longitude >= 210_000 && pos.longitude < 240_000,
                    "Sun longitude out of expected range"
                );
            }
            Planet::Mercury => {
                assert_eq!(pos.sign, ZodiacSign::Sagittarius, "Mercury should be in Sagittarius");
            }
            Planet::Venus => {
                assert_eq!(pos.sign, ZodiacSign::Scorpio, "Venus should be in Scorpio");
            }
            Planet::Mars => {
                assert_eq!(pos.sign, ZodiacSign::Sagittarius, "Mars should be in Sagittarius");
            }
            Planet::Jupiter => {
                assert_eq!(pos.sign, ZodiacSign::Cancer, "Jupiter should be in Cancer");
            }
            Planet::Saturn => {
                assert_eq!(pos.sign, ZodiacSign::Pisces, "Saturn should be in Pisces");
            }
            Planet::Moon => {
                assert_eq!(pos.sign, ZodiacSign::Scorpio, "Moon should be in Scorpio");
            }
        }
    }
}

#[test]
fn snapshot_structure_is_fixed() {
    let test_time = Utc.with_ymd_and_hms(2024, 6, 15, 0, 0, 0).unwrap();
    let positions = calculate_planetary_positions(&readings_at(test_time));

    // fixed order, luminaries never retrograde, only the Moon phased
    assert_eq!(positions[0].planet, Planet::Sun);
    assert_eq!(positions[6].planet, Planet::Moon);
    assert!(!positions[0].retrograde);
    assert!(!positions[6].retrograde);
    for pos in &positions {
        assert_eq!(pos.moon_phase.is_some(), pos.planet == Planet::Moon);
        assert_eq!(pos.sign, ZodiacSign::from_longitude(pos.longitude));
    }
}
