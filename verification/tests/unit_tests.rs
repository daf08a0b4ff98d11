use gas_session::rational::{qty_eq, Qty};
use gas_session::units::{
    energy_to_canonical, energy_to_display, get_pressure, get_temperature, pressure_to_canonical,
    rise_to_display, temp_to_canonical, UnitInternalEnergy, UnitPressure, UnitTemp,
};
use gas_session::parser::parse_decimal;

fn q(num: i128, den: i128) -> Qty {
    Qty { num, den }
}

#[test]
fn pressure_round_trip_every_unit() {
    let x = q(100, 1);
    for unit in [UnitPressure::KPa, UnitPressure::Bar, UnitPressure::Psi] {
        let shown = get_pressure(x, unit);
        let back = pressure_to_canonical(shown, unit);
        assert!(qty_eq(back, x));
    }
}

#[test]
fn temperature_round_trip_every_unit() {
    let x = q(27315, 100);
    for unit in [UnitTemp::K, UnitTemp::C, UnitTemp::F, UnitTemp::R] {
        let shown = get_temperature(x, unit);
        let back = temp_to_canonical(shown, unit);
        assert!(qty_eq(back, x));
    }
}

#[test]
fn energy_round_trip_every_unit() {
    let x = q(1000, 1);
    let mm = q(2896, 100);
    for unit in [
        UnitInternalEnergy::JPerMol,
        UnitInternalEnergy::KJPerKg,
        UnitInternalEnergy::BtuPerLbm,
    ] {
        let shown = energy_to_display(x, mm, unit);
        let back = energy_to_canonical(shown, mm, unit);
        assert!(qty_eq(back, x));
    }
}

#[test]
fn pressure_display_values_exact() {
    let x = q(100, 1);
    assert_eq!(get_pressure(x, UnitPressure::KPa), q(100, 1));
    // 100 kPa is exactly 1 Bar
    assert!(qty_eq(get_pressure(x, UnitPressure::Bar), q(1, 1)));
    // 100 kPa is exactly 14.5038 PSI
    assert!(qty_eq(get_pressure(x, UnitPressure::Psi), q(145038, 10000)));
}

#[test]
fn pressure_input_values_exact() {
    // 1 Bar entered is 100 kPa
    assert!(qty_eq(pressure_to_canonical(q(1, 1), UnitPressure::Bar), q(100, 1)));
    // 14.5038 PSI entered is exactly 100 kPa
    assert!(qty_eq(
        pressure_to_canonical(q(145038, 10000), UnitPressure::Psi),
        q(100, 1)
    ));
}

#[test]
fn temperature_display_values_exact() {
    let x = q(27315, 100);
    assert!(qty_eq(get_temperature(x, UnitTemp::K), q(27315, 100)));
    assert!(qty_eq(get_temperature(x, UnitTemp::C), q(0, 1)));
    assert!(qty_eq(get_temperature(x, UnitTemp::F), q(32, 1)));
    // Rankine display is K * 9/5: 273.15 * 9/5 = 491.67
    assert!(qty_eq(get_temperature(x, UnitTemp::R), q(49167, 100)));
}

#[test]
fn temperature_input_values_exact() {
    assert!(qty_eq(temp_to_canonical(q(0, 1), UnitTemp::C), q(27315, 100)));
    assert!(qty_eq(temp_to_canonical(q(32, 1), UnitTemp::F), q(27315, 100)));
    // the Rankine input path is K = R * 5/9, mirroring the display direction
    assert!(qty_eq(temp_to_canonical(q(49167, 100), UnitTemp::R), q(27315, 100)));
}

#[test]
fn energy_display_values_exact() {
    let x = q(1000, 1);
    let mm = q(2896, 100);
    assert!(qty_eq(energy_to_display(x, mm, UnitInternalEnergy::JPerMol), x));
    // 1000 J/mol over 28.96 g/mol = 100000/2896 kJ/kg
    assert!(qty_eq(
        energy_to_display(x, mm, UnitInternalEnergy::KJPerKg),
        q(100000, 2896)
    ));
    // and times 0.429923 for BTU/lbm
    assert!(qty_eq(
        energy_to_display(x, mm, UnitInternalEnergy::BtuPerLbm),
        q(100000 * 429923, 2896 * 1000000)
    ));
}

#[test]
fn rise_uses_scale_without_offset() {
    let rise = q(50, 1);
    assert!(qty_eq(rise_to_display(rise, UnitTemp::K), q(50, 1)));
    assert!(qty_eq(rise_to_display(rise, UnitTemp::C), q(50, 1)));
    // a 50 K rise is a 90 degree Fahrenheit (and Rankine) rise, not 90 + 32
    assert!(qty_eq(rise_to_display(rise, UnitTemp::F), q(90, 1)));
    assert!(qty_eq(rise_to_display(rise, UnitTemp::R), q(90, 1)));
}

#[test]
fn fahrenheit_difference_of_displays_matches_rise() {
    let a = q(32315, 100);
    let b = q(27315, 100);
    let fa = get_temperature(a, UnitTemp::F);
    let fb = get_temperature(b, UnitTemp::F);
    let diff = Qty {
        num: fa.num * fb.den - fb.num * fa.den,
        den: fa.den * fb.den,
    };
    let rise = rise_to_display(q(50, 1), UnitTemp::F);
    assert!(qty_eq(diff, rise));
}

#[test]
fn parse_plain_integer() {
    assert_eq!(parse_decimal(b"123"), Some(q(123, 1)));
}

#[test]
fn parse_negative_fraction() {
    assert_eq!(parse_decimal(b"-4.5"), Some(q(-45, 10)));
}

#[test]
fn parse_signed_and_dotted_edges() {
    assert_eq!(parse_decimal(b"+.5"), Some(q(5, 10)));
    assert_eq!(parse_decimal(b"1."), Some(q(1, 1)));
    assert_eq!(parse_decimal(b"0.0001"), Some(q(1, 10000)));
}

#[test]
fn parse_rejects_malformed() {
    assert_eq!(parse_decimal(b""), None);
    assert_eq!(parse_decimal(b"-"), None);
    assert_eq!(parse_decimal(b"abc"), None);
    assert_eq!(parse_decimal(b"1.2.3"), None);
    assert_eq!(parse_decimal(b"12a"), None);
    assert_eq!(parse_decimal(b"1 2"), None);
}

#[test]
fn parse_respects_digit_limit() {
    assert_eq!(parse_decimal(b"999999999"), Some(q(999999999, 1)));
    assert_eq!(
        parse_decimal(b"1.23456789"),
        Some(q(123456789, 100000000))
    );
    assert_eq!(parse_decimal(b"1234567890"), None);
    assert_eq!(parse_decimal(b"1.234567890"), None);
}
