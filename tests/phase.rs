use sun_position::phase::{classify, whole_degrees, SunPosition};

#[test]
fn whole_degrees_truncates_toward_zero() {
    assert_eq!(whole_degrees(0), 0);
    assert_eq!(whole_degrees(999), 0);
    assert_eq!(whole_degrees(-999), 0);
    assert_eq!(whole_degrees(-1000), -1);
    assert_eq!(whole_degrees(-5900), -5);
    assert_eq!(whole_degrees(45_500), 45);
    assert_eq!(whole_degrees(i64::MIN), i64::MIN / 1000);
    assert_eq!(whole_degrees(i64::MAX), i64::MAX / 1000);
}

#[test]
fn classify_morning_bands() {
    assert_eq!(classify(-18_999, true), SunPosition::AstronomicalDawn);
    assert_eq!(classify(-13_000, true), SunPosition::AstronomicalDawn);
    assert_eq!(classify(-12_500, true), SunPosition::NauticalDawn);
    assert_eq!(classify(-7_000, true), SunPosition::NauticalDawn);
    assert_eq!(classify(-6_999, true), SunPosition::CivilDawn);
    assert_eq!(classify(-1_000, true), SunPosition::CivilDawn);
    assert_eq!(classify(0, true), SunPosition::Sunrise);
    assert_eq!(classify(90_999, true), SunPosition::Sunrise);
}

#[test]
fn classify_evening_bands() {
    assert_eq!(classify(-18_000, false), SunPosition::AstronomicalDusk);
    assert_eq!(classify(-12_000, false), SunPosition::NauticalDusk);
    assert_eq!(classify(-6_000, false), SunPosition::CivilDusk);
    assert_eq!(classify(30_000, false), SunPosition::Sunset);
}

#[test]
fn classify_truncates_small_negative_to_day() {
    assert_eq!(classify(-900, true), SunPosition::Sunrise);
    assert_eq!(classify(-900, false), SunPosition::Sunset);
}

#[test]
fn classify_out_of_range_is_night() {
    for morning in [true, false] {
        assert_eq!(classify(-19_000, morning), SunPosition::Night);
        assert_eq!(classify(-45_000, morning), SunPosition::Night);
        assert_eq!(classify(91_000, morning), SunPosition::Night);
        assert_eq!(classify(i64::MIN, morning), SunPosition::Night);
        assert_eq!(classify(i64::MAX, morning), SunPosition::Night);
    }
}

#[test]
fn classify_morning_and_evening_differ_by_family() {
    let pairs = [
        (-15_000, SunPosition::AstronomicalDawn, SunPosition::AstronomicalDusk),
        (-9_000, SunPosition::NauticalDawn, SunPosition::NauticalDusk),
        (-3_000, SunPosition::CivilDawn, SunPosition::CivilDusk),
        (10_000, SunPosition::Sunrise, SunPosition::Sunset),
        (-50_000, SunPosition::Night, SunPosition::Night),
    ];
    for (mdeg, dawn, dusk) in pairs {
        assert_eq!(classify(mdeg, true), dawn);
        assert_eq!(classify(mdeg, false), dusk);
    }
}

#[test]
fn classify_ignores_fraction_of_degree() {
    assert_eq!(classify(-5_100, true), classify(-5_900, true));
    assert_eq!(classify(-5_100, false), classify(-5_900, false));
    assert_eq!(classify(12_010, false), classify(12_990, false));
}

#[test]
fn wire_names_are_camel_case() {
    assert_eq!(SunPosition::Night.wire_name(), "night");
    assert_eq!(SunPosition::AstronomicalDawn.wire_name(), "astronomicalDawn");
    assert_eq!(SunPosition::NauticalDawn.wire_name(), "nauticalDawn");
    assert_eq!(SunPosition::CivilDawn.wire_name(), "civilDawn");
    assert_eq!(SunPosition::Sunrise.wire_name(), "sunrise");
    assert_eq!(SunPosition::Sunset.wire_name(), "sunset");
    assert_eq!(SunPosition::CivilDusk.wire_name(), "civilDusk");
    assert_eq!(SunPosition::NauticalDusk.wire_name(), "nauticalDusk");
    assert_eq!(SunPosition::AstronomicalDusk.wire_name(), "astronomicalDusk");
    assert_eq!(SunPosition::SolarNoon.wire_name(), "solarNoon");
}
