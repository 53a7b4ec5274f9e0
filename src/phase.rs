use vstd::prelude::*;

verus! {

/// One of the named segments of the sun's daily altitude cycle.
#[derive(Clone, Copy, Debug, PartialEq, Eq, Structural)]
pub enum SunPosition {
    Night,
    AstronomicalDawn,
    NauticalDawn,
    CivilDawn,
    Sunrise,
    Sunset,
    CivilDusk,
    NauticalDusk,
    AstronomicalDusk,
    SolarNoon,
}

/// The identifier under which a phase is published.
pub open spec fn wire_name_of(p: SunPosition) -> Seq<char> {
    match p {
        SunPosition::Night => "night"@,
        SunPosition::AstronomicalDawn => "astronomicalDawn"@,
        SunPosition::NauticalDawn => "nauticalDawn"@,
        SunPosition::CivilDawn => "civilDawn"@,
        SunPosition::Sunrise => "sunrise"@,
        SunPosition::Sunset => "sunset"@,
        SunPosition::CivilDusk => "civilDusk"@,
        SunPosition::NauticalDusk => "nauticalDusk"@,
        SunPosition::AstronomicalDusk => "astronomicalDusk"@,
        SunPosition::SolarNoon => "solarNoon"@,
    }
}

impl SunPosition {
    /// The identifier under which this phase is published.
    pub fn wire_name(&self) -> (r: &'static str)
        ensures
            r@ == wire_name_of(*self),
    {
        match self {
            SunPosition::Night => "night",
            SunPosition::AstronomicalDawn => "astronomicalDawn",
            SunPosition::NauticalDawn => "nauticalDawn",
            SunPosition::CivilDawn => "civilDawn",
            SunPosition::Sunrise => "sunrise",
            SunPosition::Sunset => "sunset",
            SunPosition::CivilDusk => "civilDusk",
            SunPosition::NauticalDusk => "nauticalDusk",
            SunPosition::AstronomicalDusk => "astronomicalDusk",
            SunPosition::SolarNoon => "solarNoon",
        }
    }
}

/// An altitude given in thousandths of a degree, truncated toward zero to
/// whole degrees.
pub open spec fn whole_degrees_of(mdeg: int) -> int {
    if mdeg >= 0 {
        mdeg / 1000
    } else {
        -((-mdeg) / 1000)
    }
}

/// The phase of a whole-degree altitude; `is_morning` picks the dawn side
/// of each band over the dusk side.
pub open spec fn band_of(deg: int, is_morning: bool) -> SunPosition {
    if -18 <= deg <= -13 {
        if is_morning { SunPosition::AstronomicalDawn } else { SunPosition::AstronomicalDusk }
    } else if -12 <= deg <= -7 {
        if is_morning { SunPosition::NauticalDawn } else { SunPosition::NauticalDusk }
    } else if -6 <= deg <= -1 {
        if is_morning { SunPosition::CivilDawn } else { SunPosition::CivilDusk }
    } else if 0 <= deg <= 90 {
        if is_morning { SunPosition::Sunrise } else { SunPosition::Sunset }
    } else {
        SunPosition::Night
    }
}

/// The phase of an altitude given in thousandths of a degree.
pub open spec fn classify_spec(mdeg: int, is_morning: bool) -> SunPosition {
    band_of(whole_degrees_of(mdeg), is_morning)
}

/// Truncates an altitude in thousandths of a degree toward zero, to whole
/// degrees.
pub fn whole_degrees(altitude_mdeg: i64) -> (r: i64)
    ensures
        r == whole_degrees_of(altitude_mdeg as int),
{
    if altitude_mdeg >= 0 {
        altitude_mdeg / 1000
    } else {
        // `-altitude_mdeg` overflows at `i64::MIN`, so negate in `u64`.
        let magnitude: u64 = (-(altitude_mdeg + 1)) as u64 + 1;
        let q: u64 = magnitude / 1000;
        -(q as i64)
    }
}

/// Maps an altitude, in thousandths of a degree, and the time of day to the
/// sun's phase. Any altitude outside the twilight and day bands is night;
/// the classification never produces `SolarNoon`.
pub fn classify(altitude_mdeg: i64, is_morning: bool) -> (r: SunPosition)
    ensures
        r == classify_spec(altitude_mdeg as int, is_morning),
        r != SunPosition::SolarNoon,
{
    let deg = whole_degrees(altitude_mdeg);
    if -18 <= deg && deg <= -13 {
        if is_morning { SunPosition::AstronomicalDawn } else { SunPosition::AstronomicalDusk }
    } else if -12 <= deg && deg <= -7 {
        if is_morning { SunPosition::NauticalDawn } else { SunPosition::NauticalDusk }
    } else if -6 <= deg && deg <= -1 {
        if is_morning { SunPosition::CivilDawn } else { SunPosition::CivilDusk }
    } else if 0 <= deg && deg <= 90 {
        if is_morning { SunPosition::Sunrise } else { SunPosition::Sunset }
    } else {
        SunPosition::Night
    }
}

/// The dusk-side counterpart of a morning phase: dawn bands become the
/// matching dusk bands, sunrise becomes sunset, anything else is unchanged.
pub open spec fn evening_counterpart(p: SunPosition) -> SunPosition {
    match p {
        SunPosition::AstronomicalDawn => SunPosition::AstronomicalDusk,
        SunPosition::NauticalDawn => SunPosition::NauticalDusk,
        SunPosition::CivilDawn => SunPosition::CivilDusk,
        SunPosition::Sunrise => SunPosition::Sunset,
        _ => p,
    }
}

/// Every altitude whose whole-degree part lies below -18 or above 90 is
/// night, whatever the time of day.
pub proof fn lemma_out_of_range_is_night(altitude_mdeg: int, is_morning: bool)
    requires
        altitude_mdeg <= -19000 || altitude_mdeg >= 91000,
    ensures
        classify_spec(altitude_mdeg, is_morning) == SunPosition::Night,
{
}

/// For one altitude, the morning and the evening classification differ only
/// in family (dawn against dusk, sunrise against sunset); night is the only
/// phase the two share.
pub proof fn lemma_morning_evening_pair(altitude_mdeg: int)
    ensures
        classify_spec(altitude_mdeg, false) == evening_counterpart(
            classify_spec(altitude_mdeg, true),
        ),
        (classify_spec(altitude_mdeg, true) == classify_spec(altitude_mdeg, false))
            <==> classify_spec(altitude_mdeg, true) == SunPosition::Night,
{
}

/// Changing only the fractional part of an altitude (same sign, same whole
/// number of degrees) never changes its phase.
pub proof fn lemma_fraction_invariant(a_mdeg: int, b_mdeg: int, is_morning: bool)
    requires
        (a_mdeg >= 0) == (b_mdeg >= 0),
        (if a_mdeg >= 0 { a_mdeg } else { -a_mdeg }) / 1000 == (if b_mdeg >= 0 {
            b_mdeg
        } else {
            -b_mdeg
        }) / 1000,
    ensures
        classify_spec(a_mdeg, is_morning) == classify_spec(b_mdeg, is_morning),
{
}

/// No two phases are published under the same identifier.
pub proof fn lemma_wire_names_distinct(p: SunPosition, q: SunPosition)
    requires
        p != q,
    ensures
        wire_name_of(p) != wire_name_of(q),
{
    reveal_strlit("night");
    reveal_strlit("astronomicalDawn");
    reveal_strlit("nauticalDawn");
    reveal_strlit("civilDawn");
    reveal_strlit("sunrise");
    reveal_strlit("sunset");
    reveal_strlit("civilDusk");
    reveal_strlit("nauticalDusk");
    reveal_strlit("astronomicalDusk");
    reveal_strlit("solarNoon");
    let (a, b) = (wire_name_of(p), wire_name_of(q));
    if a == b {
        assert(a[0] == b[0]);
        if a.len() > 13 {
            assert(a[13] == b[13]);
        } else if a.len() > 9 {
            assert(a[9] == b[9]);
        } else if a.len() > 6 {
            assert(a[6] == b[6]);
        }
    }
}

} // verus!
