//! The command interpreter: a finite state machine over menu states.
//!
//! Each state takes one trimmed input line and yields the next state, an
//! effect for the surrounding I/O loop to perform, and the session mutation
//! the command calls for. Invalid input never aborts: it re-enters the same
//! state, so the loop re-prompts until a valid choice arrives. Whenever a
//! command mutates the canonical triple the effect is `Refresh`, telling the
//! loop to run the engine and hand the outcome to `calculate_state` before
//! rendering: a reimplementation of the loop cannot silently skip the
//! refresh without ignoring the effect.

use vstd::prelude::*;
use crate::composition::GasComp;
use crate::parser::{parse_decimal, parse_ok, parse_value};
use crate::session::{Session, Units, spec_set_discharge, spec_set_gas_comp, spec_set_inlet};
use crate::units::{
    UnitInternalEnergy, UnitPressure, UnitTemp,
    spec_pressure_to_canonical, spec_temp_to_canonical,
};

verus! {

#[derive(Clone, Copy, PartialEq, Eq, Structural, Debug)]
pub enum MenuState {
    /// the hub every completed command returns to
    MainMenu,
    /// choosing one of the gas presets
    SelectGas,
    /// entering a pressure in the active display unit
    EnterPressure,
    /// entering a temperature in the active display unit
    EnterTemperature,
    /// choosing which quantity's display unit to change
    SelectUnitKind,
    SelectPressureUnit,
    SelectTemperatureUnit,
    SelectEnergyUnit,
    /// terminal
    Exit,
}

/// What the I/O loop must do after a step, besides prompting for the next
/// state.
#[derive(Clone, Copy, PartialEq, Eq, Structural, Debug)]
pub enum Effect {
    /// nothing changed; show the next state's prompt
    Prompt,
    /// state changed with the canonical triple intact; render the summary
    Render,
    /// the canonical triple changed: run the engine, store the outcome via
    /// `calculate_state`, then render
    Refresh,
    /// the line was rejected; print the diagnostic and re-prompt
    Invalid,
    /// end the session
    Quit,
}

/// The line is exactly the one-byte token `b`. Tokens appear below as ASCII
/// byte values: the digits 1 to 4 are 49 to 52, and 103 g, 112 p, 113 q,
/// 116 t, 117 u.
pub open spec fn is_token(line: Seq<u8>, b: u8) -> bool {
    line.len() == 1 && line[0] == b
}

fn token_is(line: &[u8], b: u8) -> (r: bool)
    ensures
        r == is_token(line@, b),
{
    line.len() == 1 && line[0] == b
}

/// Transition table of the main menu: g/p/t/u move to the entry states,
/// 1 and 2 snapshot, q quits, anything else is diagnosed and re-prompted.
pub open spec fn main_menu_post(s0: Session, line: Seq<u8>, s1: Session, r: (MenuState, Effect)) -> bool {
    &&& (is_token(line, 103) ==> r == (MenuState::SelectGas, Effect::Prompt) && s1 == s0)
    &&& (is_token(line, 112) ==> r == (MenuState::EnterPressure, Effect::Prompt) && s1 == s0)
    &&& (is_token(line, 116) ==> r == (MenuState::EnterTemperature, Effect::Prompt) && s1 == s0)
    &&& (is_token(line, 49) ==> r == (MenuState::MainMenu, Effect::Render) && s1 == spec_set_inlet(s0))
    &&& (is_token(line, 50) ==> r == (MenuState::MainMenu, Effect::Render) && s1 == spec_set_discharge(s0))
    &&& (is_token(line, 117) ==> r == (MenuState::SelectUnitKind, Effect::Prompt) && s1 == s0)
    &&& (is_token(line, 113) ==> r == (MenuState::Exit, Effect::Quit) && s1 == s0)
    &&& (!(is_token(line, 103) || is_token(line, 112) || is_token(line, 116) || is_token(line, 49)
            || is_token(line, 50) || is_token(line, 117) || is_token(line, 113))
        ==> r == (MenuState::MainMenu, Effect::Invalid) && s1 == s0)
}

pub fn main_menu_step(session: &mut Session, line: &[u8]) -> (r: (MenuState, Effect))
    requires
        old(session).wf(),
    ensures
        final(session).wf(),
        main_menu_post(*old(session), line@, *final(session), r),
{
    if token_is(line, 103) {
        (MenuState::SelectGas, Effect::Prompt)
    } else if token_is(line, 112) {
        (MenuState::EnterPressure, Effect::Prompt)
    } else if token_is(line, 116) {
        (MenuState::EnterTemperature, Effect::Prompt)
    } else if token_is(line, 49) {
        session.set_inlet();
        (MenuState::MainMenu, Effect::Render)
    } else if token_is(line, 50) {
        session.set_discharge();
        (MenuState::MainMenu, Effect::Render)
    } else if token_is(line, 117) {
        (MenuState::SelectUnitKind, Effect::Prompt)
    } else if token_is(line, 113) {
        (MenuState::Exit, Effect::Quit)
    } else {
        (MenuState::MainMenu, Effect::Invalid)
    }
}

/// Gas selection: 1 Air, 2 Argon, 3 Nitrogen, 4 Oxygen; the preset replaces
/// the composition and the triple must then be refreshed.
pub open spec fn select_gas_post(s0: Session, line: Seq<u8>, s1: Session, r: (MenuState, Effect)) -> bool {
    &&& (is_token(line, 49) ==> r == (MenuState::MainMenu, Effect::Refresh)
            && s1 == spec_set_gas_comp(s0, GasComp::Air))
    &&& (is_token(line, 50) ==> r == (MenuState::MainMenu, Effect::Refresh)
            && s1 == spec_set_gas_comp(s0, GasComp::Argon))
    &&& (is_token(line, 51) ==> r == (MenuState::MainMenu, Effect::Refresh)
            && s1 == spec_set_gas_comp(s0, GasComp::Nitrogen))
    &&& (is_token(line, 52) ==> r == (MenuState::MainMenu, Effect::Refresh)
            && s1 == spec_set_gas_comp(s0, GasComp::Oxygen))
    &&& (!(is_token(line, 49) || is_token(line, 50) || is_token(line, 51) || is_token(line, 52))
        ==> r == (MenuState::SelectGas, Effect::Invalid) && s1 == s0)
}

pub fn select_gas_step(session: &mut Session, line: &[u8]) -> (r: (MenuState, Effect))
    requires
        old(session).wf(),
    ensures
        final(session).wf(),
        select_gas_post(*old(session), line@, *final(session), r),
{
    if token_is(line, 49) {
        session.set_gas_comp(GasComp::Air);
        (MenuState::MainMenu, Effect::Refresh)
    } else if token_is(line, 50) {
        session.set_gas_comp(GasComp::Argon);
        (MenuState::MainMenu, Effect::Refresh)
    } else if token_is(line, 51) {
        session.set_gas_comp(GasComp::Nitrogen);
        (MenuState::MainMenu, Effect::Refresh)
    } else if token_is(line, 52) {
        session.set_gas_comp(GasComp::Oxygen);
        (MenuState::MainMenu, Effect::Refresh)
    } else {
        (MenuState::SelectGas, Effect::Invalid)
    }
}

/// Pressure entry: a well-formed decimal is converted from the active display
/// unit and stored canonically, invalidating the bundle; anything else
/// re-prompts with the session untouched.
pub open spec fn enter_pressure_post(s0: Session, line: Seq<u8>, s1: Session, r: (MenuState, Effect)) -> bool {
    &&& (parse_ok(line) ==> {
        &&& r == (MenuState::MainMenu, Effect::Refresh)
        &&& s1.current.pressure_kpa@ == spec_pressure_to_canonical(parse_value(line), s0.units.pressure)
        &&& s1.current.properties is None
        &&& s1.current.temperature_k == s0.current.temperature_k
        &&& s1.current.composition == s0.current.composition
        &&& s1.gas == s0.gas
        &&& s1.inlet_state == s0.inlet_state
        &&& s1.discharge_state == s0.discharge_state
        &&& s1.show_inlet_state == s0.show_inlet_state
        &&& s1.show_discharge_state == s0.show_discharge_state
        &&& s1.units == s0.units
    })
    &&& (!parse_ok(line) ==> r == (MenuState::EnterPressure, Effect::Invalid) && s1 == s0)
}

pub fn enter_pressure_step(session: &mut Session, line: &[u8]) -> (r: (MenuState, Effect))
    requires
        old(session).wf(),
    ensures
        final(session).wf(),
        enter_pressure_post(*old(session), line@, *final(session), r),
{
    match parse_decimal(line) {
        Some(value) => {
            session.set_pressure(value);
            (MenuState::MainMenu, Effect::Refresh)
        },
        None => (MenuState::EnterPressure, Effect::Invalid),
    }
}

/// Temperature entry, same shape as pressure entry.
pub open spec fn enter_temperature_post(s0: Session, line: Seq<u8>, s1: Session, r: (MenuState, Effect)) -> bool {
    &&& (parse_ok(line) ==> {
        &&& r == (MenuState::MainMenu, Effect::Refresh)
        &&& s1.current.temperature_k@ == spec_temp_to_canonical(parse_value(line), s0.units.temp)
        &&& s1.current.properties is None
        &&& s1.current.pressure_kpa == s0.current.pressure_kpa
        &&& s1.current.composition == s0.current.composition
        &&& s1.gas == s0.gas
        &&& s1.inlet_state == s0.inlet_state
        &&& s1.discharge_state == s0.discharge_state
        &&& s1.show_inlet_state == s0.show_inlet_state
        &&& s1.show_discharge_state == s0.show_discharge_state
        &&& s1.units == s0.units
    })
    &&& (!parse_ok(line) ==> r == (MenuState::EnterTemperature, Effect::Invalid) && s1 == s0)
}

pub fn enter_temperature_step(session: &mut Session, line: &[u8]) -> (r: (MenuState, Effect))
    requires
        old(session).wf(),
    ensures
        final(session).wf(),
        enter_temperature_post(*old(session), line@, *final(session), r),
{
    match parse_decimal(line) {
        Some(value) => {
            session.set_temperature(value);
            (MenuState::MainMenu, Effect::Refresh)
        },
        None => (MenuState::EnterTemperature, Effect::Invalid),
    }
}

/// Choice of which quantity's display unit to change: 1 pressure,
/// 2 temperature, 3 internal energy.
pub open spec fn unit_kind_post(s0: Session, line: Seq<u8>, s1: Session, r: (MenuState, Effect)) -> bool {
    &&& s1 == s0
    &&& (is_token(line, 49) ==> r == (MenuState::SelectPressureUnit, Effect::Prompt))
    &&& (is_token(line, 50) ==> r == (MenuState::SelectTemperatureUnit, Effect::Prompt))
    &&& (is_token(line, 51) ==> r == (MenuState::SelectEnergyUnit, Effect::Prompt))
    &&& (!(is_token(line, 49) || is_token(line, 50) || is_token(line, 51))
        ==> r == (MenuState::SelectUnitKind, Effect::Invalid))
}

pub fn unit_kind_step(session: &mut Session, line: &[u8]) -> (r: (MenuState, Effect))
    requires
        old(session).wf(),
    ensures
        final(session).wf(),
        unit_kind_post(*old(session), line@, *final(session), r),
{
    if token_is(line, 49) {
        (MenuState::SelectPressureUnit, Effect::Prompt)
    } else if token_is(line, 50) {
        (MenuState::SelectTemperatureUnit, Effect::Prompt)
    } else if token_is(line, 51) {
        (MenuState::SelectEnergyUnit, Effect::Prompt)
    } else {
        (MenuState::SelectUnitKind, Effect::Invalid)
    }
}

/// Pressure unit choice: 1 kPa, 2 Bar, 3 PSI. Only the preference changes;
/// every canonical value is untouched.
pub open spec fn pressure_unit_post(s0: Session, line: Seq<u8>, s1: Session, r: (MenuState, Effect)) -> bool {
    &&& (is_token(line, 49) ==> r == (MenuState::MainMenu, Effect::Render)
            && s1 == (Session { units: Units { pressure: UnitPressure::KPa, ..s0.units }, ..s0 }))
    &&& (is_token(line, 50) ==> r == (MenuState::MainMenu, Effect::Render)
            && s1 == (Session { units: Units { pressure: UnitPressure::Bar, ..s0.units }, ..s0 }))
    &&& (is_token(line, 51) ==> r == (MenuState::MainMenu, Effect::Render)
            && s1 == (Session { units: Units { pressure: UnitPressure::Psi, ..s0.units }, ..s0 }))
    &&& (!(is_token(line, 49) || is_token(line, 50) || is_token(line, 51))
        ==> r == (MenuState::SelectPressureUnit, Effect::Invalid) && s1 == s0)
}

pub fn pressure_unit_step(session: &mut Session, line: &[u8]) -> (r: (MenuState, Effect))
    requires
        old(session).wf(),
    ensures
        final(session).wf(),
        pressure_unit_post(*old(session), line@, *final(session), r),
{
    if token_is(line, 49) {
        session.change_unit_pressure(UnitPressure::KPa);
        (MenuState::MainMenu, Effect::Render)
    } else if token_is(line, 50) {
        session.change_unit_pressure(UnitPressure::Bar);
        (MenuState::MainMenu, Effect::Render)
    } else if token_is(line, 51) {
        session.change_unit_pressure(UnitPressure::Psi);
        (MenuState::MainMenu, Effect::Render)
    } else {
        (MenuState::SelectPressureUnit, Effect::Invalid)
    }
}

/// Temperature unit choice: 1 Celsius, 2 Kelvin, 3 Fahrenheit, 4 Rankine.
pub open spec fn temperature_unit_post(s0: Session, line: Seq<u8>, s1: Session, r: (MenuState, Effect)) -> bool {
    &&& (is_token(line, 49) ==> r == (MenuState::MainMenu, Effect::Render)
            && s1 == (Session { units: Units { temp: UnitTemp::C, ..s0.units }, ..s0 }))
    &&& (is_token(line, 50) ==> r == (MenuState::MainMenu, Effect::Render)
            && s1 == (Session { units: Units { temp: UnitTemp::K, ..s0.units }, ..s0 }))
    &&& (is_token(line, 51) ==> r == (MenuState::MainMenu, Effect::Render)
            && s1 == (Session { units: Units { temp: UnitTemp::F, ..s0.units }, ..s0 }))
    &&& (is_token(line, 52) ==> r == (MenuState::MainMenu, Effect::Render)
            && s1 == (Session { units: Units { temp: UnitTemp::R, ..s0.units }, ..s0 }))
    &&& (!(is_token(line, 49) || is_token(line, 50) || is_token(line, 51) || is_token(line, 52))
        ==> r == (MenuState::SelectTemperatureUnit, Effect::Invalid) && s1 == s0)
}

pub fn temperature_unit_step(session: &mut Session, line: &[u8]) -> (r: (MenuState, Effect))
    requires
        old(session).wf(),
    ensures
        final(session).wf(),
        temperature_unit_post(*old(session), line@, *final(session), r),
{
    if token_is(line, 49) {
        session.change_unit_temperature(UnitTemp::C);
        (MenuState::MainMenu, Effect::Render)
    } else if token_is(line, 50) {
        session.change_unit_temperature(UnitTemp::K);
        (MenuState::MainMenu, Effect::Render)
    } else if token_is(line, 51) {
        session.change_unit_temperature(UnitTemp::F);
        (MenuState::MainMenu, Effect::Render)
    } else if token_is(line, 52) {
        session.change_unit_temperature(UnitTemp::R);
        (MenuState::MainMenu, Effect::Render)
    } else {
        (MenuState::SelectTemperatureUnit, Effect::Invalid)
    }
}

/// Internal-energy unit choice: 1 J/mol, 2 kJ/kg, 3 BTU/lbm.
pub open spec fn energy_unit_post(s0: Session, line: Seq<u8>, s1: Session, r: (MenuState, Effect)) -> bool {
    &&& (is_token(line, 49) ==> r == (MenuState::MainMenu, Effect::Render)
            && s1 == (Session { units: Units { internal_energy: UnitInternalEnergy::JPerMol, ..s0.units }, ..s0 }))
    &&& (is_token(line, 50) ==> r == (MenuState::MainMenu, Effect::Render)
            && s1 == (Session { units: Units { internal_energy: UnitInternalEnergy::KJPerKg, ..s0.units }, ..s0 }))
    &&& (is_token(line, 51) ==> r == (MenuState::MainMenu, Effect::Render)
            && s1 == (Session { units: Units { internal_energy: UnitInternalEnergy::BtuPerLbm, ..s0.units }, ..s0 }))
    &&& (!(is_token(line, 49) || is_token(line, 50) || is_token(line, 51))
        ==> r == (MenuState::SelectEnergyUnit, Effect::Invalid) && s1 == s0)
}

pub fn energy_unit_step(session: &mut Session, line: &[u8]) -> (r: (MenuState, Effect))
    requires
        old(session).wf(),
    ensures
        final(session).wf(),
        energy_unit_post(*old(session), line@, *final(session), r),
{
    if token_is(line, 49) {
        session.change_unit_internal_energy(UnitInternalEnergy::JPerMol);
        (MenuState::MainMenu, Effect::Render)
    } else if token_is(line, 50) {
        session.change_unit_internal_energy(UnitInternalEnergy::KJPerKg);
        (MenuState::MainMenu, Effect::Render)
    } else if token_is(line, 51) {
        session.change_unit_internal_energy(UnitInternalEnergy::BtuPerLbm);
        (MenuState::MainMenu, Effect::Render)
    } else {
        (MenuState::SelectEnergyUnit, Effect::Invalid)
    }
}

/// One step of the whole interpreter: dispatch the line to the handler of
/// the current state. `Exit` is terminal and absorbing.
pub fn step(state: MenuState, session: &mut Session, line: &[u8]) -> (r: (MenuState, Effect))
    requires
        old(session).wf(),
    ensures
        final(session).wf(),
        match state {
            MenuState::MainMenu => main_menu_post(*old(session), line@, *final(session), r),
            MenuState::SelectGas => select_gas_post(*old(session), line@, *final(session), r),
            MenuState::EnterPressure => enter_pressure_post(*old(session), line@, *final(session), r),
            MenuState::EnterTemperature => enter_temperature_post(*old(session), line@, *final(session), r),
            MenuState::SelectUnitKind => unit_kind_post(*old(session), line@, *final(session), r),
            MenuState::SelectPressureUnit => pressure_unit_post(*old(session), line@, *final(session), r),
            MenuState::SelectTemperatureUnit => temperature_unit_post(*old(session), line@, *final(session), r),
            MenuState::SelectEnergyUnit => energy_unit_post(*old(session), line@, *final(session), r),
            MenuState::Exit => r == (MenuState::Exit, Effect::Quit) && *final(session) == *old(session),
        },
{
    match state {
        MenuState::MainMenu => main_menu_step(session, line),
        MenuState::SelectGas => select_gas_step(session, line),
        MenuState::EnterPressure => enter_pressure_step(session, line),
        MenuState::EnterTemperature => enter_temperature_step(session, line),
        MenuState::SelectUnitKind => unit_kind_step(session, line),
        MenuState::SelectPressureUnit => pressure_unit_step(session, line),
        MenuState::SelectTemperatureUnit => temperature_unit_step(session, line),
        MenuState::SelectEnergyUnit => energy_unit_step(session, line),
        MenuState::Exit => (MenuState::Exit, Effect::Quit),
    }
}

} // verus!
