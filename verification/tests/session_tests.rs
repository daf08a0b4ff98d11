use gas_session::composition::{get_gas_comp, GasComp};
use gas_session::rational::{qty_eq, Qty};
use gas_session::session::{PropertyBundle, Session};
use gas_session::units::{get_pressure, UnitInternalEnergy, UnitPressure, UnitTemp};

fn q(num: i128, den: i128) -> Qty {
    Qty { num, den }
}

fn bundle(mm: Qty, u: Qty) -> PropertyBundle {
    PropertyBundle {
        density: q(4, 100),
        molar_mass: mm,
        internal_energy: u,
        enthalpy: q(2000, 1),
        entropy: q(100, 1),
        cp: q(29, 1),
        cv: q(20, 1),
        z: q(99, 100),
        kappa: q(14, 10),
        speed_of_sound: q(340, 1),
        gibbs_energy: q(-5000, 1),
        joule_thomson: q(2, 1000),
    }
}

#[test]
fn operating_point_mutators_invalidate_and_refresh_stores() {
    let mut p = Session::new().current;
    let b = bundle(q(2896, 100), q(1000, 1));
    p.refresh(Some(b));
    assert_eq!(p.properties, Some(b));
    p.set_pressure(q(250, 1));
    assert_eq!(p.properties, None);
    assert_eq!(p.pressure_kpa, q(250, 1));
    p.refresh(Some(b));
    p.set_temperature(q(300, 1));
    assert_eq!(p.properties, None);
    assert_eq!(p.temperature_k, q(300, 1));
    p.refresh(Some(b));
    p.set_composition(get_gas_comp(GasComp::Nitrogen));
    assert_eq!(p.properties, None);
    // a failed refresh leaves the point exactly as it was
    let before = p;
    p.refresh(None);
    assert_eq!(p, before);
}

#[test]
fn defaults_are_air_100_kpa_273_15_k() {
    let s = Session::new();
    assert_eq!(s.gas, GasComp::Air);
    assert_eq!(s.current.pressure_kpa, q(100, 1));
    assert_eq!(s.current.temperature_k, q(27315, 100));
    assert_eq!(s.current.composition, get_gas_comp(GasComp::Air));
    assert_eq!(s.current.properties, None);
    assert!(!s.show_inlet_state);
    assert!(!s.show_discharge_state);
    assert_eq!(s.units.pressure, UnitPressure::KPa);
    assert_eq!(s.units.temp, UnitTemp::K);
    assert_eq!(s.units.internal_energy, UnitInternalEnergy::JPerMol);
}

#[test]
fn gas_catalog_presets() {
    let air = get_gas_comp(GasComp::Air);
    assert_eq!((air.nitrogen_pph, air.oxygen_pph, air.argon_pph), (78, 21, 1));
    let ar = get_gas_comp(GasComp::Argon);
    assert_eq!((ar.nitrogen_pph, ar.oxygen_pph, ar.argon_pph), (0, 0, 100));
    let n2 = get_gas_comp(GasComp::Nitrogen);
    assert_eq!((n2.nitrogen_pph, n2.oxygen_pph, n2.argon_pph), (100, 0, 0));
    let o2 = get_gas_comp(GasComp::Oxygen);
    assert_eq!((o2.nitrogen_pph, o2.oxygen_pph, o2.argon_pph), (0, 100, 0));
    for c in [air, ar, n2, o2] {
        assert_eq!(c.nitrogen_pph + c.oxygen_pph + c.argon_pph, 100);
    }
}

#[test]
fn refresh_is_idempotent_for_an_unchanged_triple() {
    let mut s = Session::new();
    let b = bundle(q(2896, 100), q(1000, 1));
    s.calculate_state(Some(b));
    let once = s;
    s.calculate_state(Some(b));
    assert_eq!(s, once);
}

#[test]
fn failed_refresh_leaves_the_session_unchanged() {
    let mut s = Session::new();
    s.calculate_state(None);
    assert_eq!(s, Session::new());
    let b = bundle(q(2896, 100), q(1000, 1));
    s.calculate_state(Some(b));
    let before = s;
    s.calculate_state(None);
    assert_eq!(s, before);
}

#[test]
fn mutations_invalidate_properties() {
    let b = bundle(q(2896, 100), q(1000, 1));

    let mut s = Session::new();
    s.calculate_state(Some(b));
    assert!(s.current.properties.is_some());
    s.set_pressure(q(200, 1));
    assert_eq!(s.current.properties, None);

    let mut s = Session::new();
    s.calculate_state(Some(b));
    s.set_temperature(q(300, 1));
    assert_eq!(s.current.properties, None);

    let mut s = Session::new();
    s.calculate_state(Some(b));
    s.set_gas_comp(GasComp::Argon);
    assert_eq!(s.current.properties, None);
}

#[test]
fn changing_gas_hides_both_snapshots() {
    let mut s = Session::new();
    s.set_inlet();
    s.set_discharge();
    assert!(s.show_inlet_state && s.show_discharge_state);
    s.set_gas_comp(GasComp::Nitrogen);
    assert!(!s.show_inlet_state && !s.show_discharge_state);
    // the stored snapshots themselves remain
    assert_eq!(s.inlet_state.pressure_kpa, q(100, 1));
}

#[test]
fn snapshot_is_independent_of_later_mutation() {
    let mut s = Session::new();
    s.set_pressure(q(500, 1));
    s.set_temperature(q(300, 1));
    s.set_inlet();
    let saved = s.inlet_state;
    s.set_pressure(q(1000, 1));
    s.set_temperature(q(400, 1));
    s.set_gas_comp(GasComp::Oxygen);
    assert_eq!(s.inlet_state.pressure_kpa, saved.pressure_kpa);
    assert_eq!(s.inlet_state.temperature_k, saved.temperature_k);
    assert_eq!(s.inlet_state.composition, saved.composition);
}

#[test]
fn comparison_of_100_to_200_kpa_and_273_15_to_323_15_k() {
    let mut s = Session::new();
    // inlet: defaults, 100 kPa and 273.15 K
    s.set_inlet();
    s.set_pressure(q(200, 1));
    s.set_temperature(q(32315, 100));
    s.set_discharge();
    let c = s.comparison().unwrap();
    assert!(qty_eq(c.pressure_ratio, q(2, 1)));
    // 323.15 / 273.15 exactly; approximately 1.1830
    assert!(qty_eq(c.temperature_ratio, q(32315, 27315)));
    assert!(qty_eq(c.temperature_rise_k, q(50, 1)));
}

#[test]
fn comparison_needs_both_snapshots() {
    let mut s = Session::new();
    assert!(s.comparison().is_none());
    s.set_inlet();
    assert!(s.comparison().is_none());
    s.set_discharge();
    assert!(s.comparison().is_some());
}

#[test]
fn comparison_refuses_zero_inlet() {
    let mut s = Session::new();
    s.set_pressure(q(0, 1));
    s.set_inlet();
    s.set_pressure(q(200, 1));
    s.set_discharge();
    assert!(s.comparison().is_none());
}

#[test]
fn end_to_end_scenario_argon_500_then_1000() {
    let mut s = Session::new();
    s.set_gas_comp(GasComp::Argon);
    s.set_pressure(q(500, 1));
    s.set_temperature(q(300, 1));
    s.set_inlet();
    s.set_pressure(q(1000, 1));
    s.set_discharge();
    let c = s.comparison().unwrap();
    assert!(qty_eq(c.pressure_ratio, q(2, 1)));
    // both snapshots keep their own recorded pressures, independent of the
    // live current pressure
    assert!(qty_eq(s.inlet_state.pressure_kpa, q(500, 1)));
    assert!(qty_eq(s.discharge_state.pressure_kpa, q(1000, 1)));
    assert!(qty_eq(s.current.pressure_kpa, q(1000, 1)));
    assert_eq!(s.inlet_state.composition, get_gas_comp(GasComp::Argon));
}

#[test]
fn unit_change_affects_rendering_only() {
    let mut s = Session::new();
    s.change_unit_pressure(UnitPressure::Psi);
    // the rendered pressure for the canonical 100 kPa point is 14.5038 PSI
    let shown = get_pressure(s.current.pressure_kpa, s.units.pressure);
    assert!(qty_eq(shown, q(145038, 10000)));
    // and the stored canonical value is untouched
    assert_eq!(s.current.pressure_kpa, q(100, 1));
    assert_eq!(s.current.temperature_k, q(27315, 100));
}

#[test]
fn entered_values_convert_from_the_display_unit() {
    let mut s = Session::new();
    s.change_unit_pressure(UnitPressure::Bar);
    s.set_pressure(q(2, 1));
    assert!(qty_eq(s.current.pressure_kpa, q(200, 1)));

    s.change_unit_temperature(UnitTemp::C);
    s.set_temperature(q(0, 1));
    assert!(qty_eq(s.current.temperature_k, q(27315, 100)));

    s.change_unit_temperature(UnitTemp::F);
    s.set_temperature(q(212, 1));
    assert!(qty_eq(s.current.temperature_k, q(37315, 100)));

    s.change_unit_temperature(UnitTemp::R);
    s.set_temperature(q(9, 1));
    assert!(qty_eq(s.current.temperature_k, q(5, 1)));
}

#[test]
fn internal_energy_display_follows_preference() {
    let mut s = Session::new();
    assert_eq!(s.get_internal_energy(), None);
    let b = bundle(q(2896, 100), q(1000, 1));
    s.calculate_state(Some(b));
    let j = s.get_internal_energy().unwrap();
    assert!(qty_eq(j, q(1000, 1)));
    s.change_unit_internal_energy(UnitInternalEnergy::KJPerKg);
    let kj = s.get_internal_energy().unwrap();
    assert!(qty_eq(kj, q(100000, 2896)));
    s.change_unit_internal_energy(UnitInternalEnergy::BtuPerLbm);
    let btu = s.get_internal_energy().unwrap();
    assert!(qty_eq(btu, q(100000i128 * 429923, 2896i128 * 1000000)));
}

#[test]
fn internal_energy_needs_positive_molar_mass() {
    let mut s = Session::new();
    let b = bundle(q(0, 1), q(1000, 1));
    s.calculate_state(Some(b));
    assert_eq!(s.get_internal_energy(), None);
}
