use gas_session::composition::GasComp;
use gas_session::menu::{step, Effect, MenuState};
use gas_session::rational::{qty_eq, Qty};
use gas_session::session::Session;
use gas_session::units::{UnitPressure, UnitTemp};

fn q(num: i128, den: i128) -> Qty {
    Qty { num, den }
}

#[test]
fn main_menu_routes_every_token() {
    let mut s = Session::new();
    assert_eq!(
        step(MenuState::MainMenu, &mut s, b"g"),
        (MenuState::SelectGas, Effect::Prompt)
    );
    assert_eq!(
        step(MenuState::MainMenu, &mut s, b"p"),
        (MenuState::EnterPressure, Effect::Prompt)
    );
    assert_eq!(
        step(MenuState::MainMenu, &mut s, b"t"),
        (MenuState::EnterTemperature, Effect::Prompt)
    );
    assert_eq!(
        step(MenuState::MainMenu, &mut s, b"u"),
        (MenuState::SelectUnitKind, Effect::Prompt)
    );
    assert_eq!(
        step(MenuState::MainMenu, &mut s, b"q"),
        (MenuState::Exit, Effect::Quit)
    );
    assert_eq!(s, Session::new());
}

#[test]
fn main_menu_snapshots_on_1_and_2() {
    let mut s = Session::new();
    assert_eq!(
        step(MenuState::MainMenu, &mut s, b"1"),
        (MenuState::MainMenu, Effect::Render)
    );
    assert!(s.show_inlet_state);
    assert_eq!(
        step(MenuState::MainMenu, &mut s, b"2"),
        (MenuState::MainMenu, Effect::Render)
    );
    assert!(s.show_discharge_state);
}

#[test]
fn main_menu_diagnoses_unknown_input() {
    let mut s = Session::new();
    assert_eq!(
        step(MenuState::MainMenu, &mut s, b"x"),
        (MenuState::MainMenu, Effect::Invalid)
    );
    assert_eq!(
        step(MenuState::MainMenu, &mut s, b"gg"),
        (MenuState::MainMenu, Effect::Invalid)
    );
    assert_eq!(s, Session::new());
}

#[test]
fn gas_selection_applies_the_preset_and_asks_for_refresh() {
    let mut s = Session::new();
    assert_eq!(
        step(MenuState::SelectGas, &mut s, b"2"),
        (MenuState::MainMenu, Effect::Refresh)
    );
    assert_eq!(s.gas, GasComp::Argon);
    assert_eq!(s.current.composition.argon_pph, 100);
}

#[test]
fn gas_selection_reprompts_on_bad_choice() {
    let mut s = Session::new();
    assert_eq!(
        step(MenuState::SelectGas, &mut s, b"5"),
        (MenuState::SelectGas, Effect::Invalid)
    );
    assert_eq!(s, Session::new());
}

#[test]
fn pressure_entry_parses_converts_and_asks_for_refresh() {
    let mut s = Session::new();
    assert_eq!(
        step(MenuState::EnterPressure, &mut s, b"250.5"),
        (MenuState::MainMenu, Effect::Refresh)
    );
    assert!(qty_eq(s.current.pressure_kpa, q(2505, 10)));
    assert_eq!(s.current.properties, None);
}

#[test]
fn pressure_entry_reprompts_until_numeric() {
    let mut s = Session::new();
    assert_eq!(
        step(MenuState::EnterPressure, &mut s, b"abc"),
        (MenuState::EnterPressure, Effect::Invalid)
    );
    assert_eq!(
        step(MenuState::EnterPressure, &mut s, b""),
        (MenuState::EnterPressure, Effect::Invalid)
    );
    assert_eq!(s, Session::new());
    assert_eq!(
        step(MenuState::EnterPressure, &mut s, b"300"),
        (MenuState::MainMenu, Effect::Refresh)
    );
    assert!(qty_eq(s.current.pressure_kpa, q(300, 1)));
}

#[test]
fn temperature_entry_honours_the_display_unit() {
    let mut s = Session::new();
    step(MenuState::SelectUnitKind, &mut s, b"2");
    assert_eq!(
        step(MenuState::SelectTemperatureUnit, &mut s, b"1"),
        (MenuState::MainMenu, Effect::Render)
    );
    assert_eq!(s.units.temp, UnitTemp::C);
    assert_eq!(
        step(MenuState::EnterTemperature, &mut s, b"25"),
        (MenuState::MainMenu, Effect::Refresh)
    );
    assert!(qty_eq(s.current.temperature_k, q(29815, 100)));
}

#[test]
fn unit_menus_route_and_reprompt() {
    let mut s = Session::new();
    assert_eq!(
        step(MenuState::SelectUnitKind, &mut s, b"1"),
        (MenuState::SelectPressureUnit, Effect::Prompt)
    );
    assert_eq!(
        step(MenuState::SelectUnitKind, &mut s, b"9"),
        (MenuState::SelectUnitKind, Effect::Invalid)
    );
    assert_eq!(
        step(MenuState::SelectPressureUnit, &mut s, b"3"),
        (MenuState::MainMenu, Effect::Render)
    );
    assert_eq!(s.units.pressure, UnitPressure::Psi);
    // an invalid pressure-unit choice re-prompts the same menu
    assert_eq!(
        step(MenuState::SelectPressureUnit, &mut s, b"7"),
        (MenuState::SelectPressureUnit, Effect::Invalid)
    );
    assert_eq!(s.units.pressure, UnitPressure::Psi);
    // canonical state is untouched by unit changes
    assert_eq!(s.current.pressure_kpa, q(100, 1));
}

#[test]
fn exit_state_is_absorbing() {
    let mut s = Session::new();
    assert_eq!(
        step(MenuState::Exit, &mut s, b"anything"),
        (MenuState::Exit, Effect::Quit)
    );
}

#[test]
fn scripted_session_matches_the_end_to_end_scenario() {
    let mut s = Session::new();
    let script: &[(&[u8], MenuState)] = &[
        (b"g", MenuState::SelectGas),
        (b"2", MenuState::MainMenu),
        (b"p", MenuState::EnterPressure),
        (b"500", MenuState::MainMenu),
        (b"t", MenuState::EnterTemperature),
        (b"300", MenuState::MainMenu),
        (b"1", MenuState::MainMenu),
        (b"p", MenuState::EnterPressure),
        (b"1000", MenuState::MainMenu),
        (b"2", MenuState::MainMenu),
    ];
    let mut state = MenuState::MainMenu;
    for (line, expected) in script {
        let (next, _) = step(state, &mut s, line);
        state = next;
        assert_eq!(state, *expected);
    }
    let c = s.comparison().unwrap();
    assert!(qty_eq(c.pressure_ratio, q(2, 1)));
    assert!(qty_eq(s.inlet_state.pressure_kpa, q(500, 1)));
    assert!(qty_eq(s.discharge_state.pressure_kpa, q(1000, 1)));
}
