//! Session state: the current operating point, the inlet and discharge
//! snapshots, and the unit preferences.
//!
//! All stored state is canonical (kPa, Kelvin, J/mol); display units affect
//! rendering only. Any mutation of the canonical (pressure, temperature,
//! composition) triple invalidates the derived property bundle until the next
//! successful refresh. The equation-of-state engine that computes a bundle
//! from the triple lives outside this library (it works in floating point);
//! the caller runs it and hands the outcome to `calculate_state`.

use vstd::prelude::*;
use crate::rational::{Qty, Rat, qty_div, qty_sub, rat_bounded, rat_div, rat_eq, rat_sub};
use crate::composition::{GasComp, GasComposition, get_gas_comp, spec_gas_comp};
use crate::units::{
    UnitInternalEnergy, UnitPressure, UnitTemp,
    energy_to_display, pressure_to_canonical, temp_to_canonical,
    spec_energy_to_display, spec_pressure_to_canonical, spec_temp_to_canonical,
};

verus! {

/// The derived thermodynamic quantities of one operating point, in canonical
/// units, as handed back by the equation-of-state engine.
#[derive(Clone, Copy, PartialEq, Eq, Structural, Debug)]
pub struct PropertyBundle {
    /// mol/l
    pub density: Qty,
    /// g/mol
    pub molar_mass: Qty,
    /// J/mol
    pub internal_energy: Qty,
    /// J/mol
    pub enthalpy: Qty,
    /// J/(mol K)
    pub entropy: Qty,
    /// J/(mol K)
    pub cp: Qty,
    /// J/(mol K)
    pub cv: Qty,
    /// compressibility factor Z, dimensionless
    pub z: Qty,
    /// isentropic exponent, dimensionless
    pub kappa: Qty,
    /// m/s
    pub speed_of_sound: Qty,
    /// J/mol
    pub gibbs_energy: Qty,
    /// K/kPa
    pub joule_thomson: Qty,
}

pub open spec fn bundle_wf(b: PropertyBundle) -> bool {
    &&& rat_bounded(b.density@, 1_000_000_000_000_000)
    &&& rat_bounded(b.molar_mass@, 1_000_000_000_000_000)
    &&& rat_bounded(b.internal_energy@, 1_000_000_000_000_000)
    &&& rat_bounded(b.enthalpy@, 1_000_000_000_000_000)
    &&& rat_bounded(b.entropy@, 1_000_000_000_000_000)
    &&& rat_bounded(b.cp@, 1_000_000_000_000_000)
    &&& rat_bounded(b.cv@, 1_000_000_000_000_000)
    &&& rat_bounded(b.z@, 1_000_000_000_000_000)
    &&& rat_bounded(b.kappa@, 1_000_000_000_000_000)
    &&& rat_bounded(b.speed_of_sound@, 1_000_000_000_000_000)
    &&& rat_bounded(b.gibbs_energy@, 1_000_000_000_000_000)
    &&& rat_bounded(b.joule_thomson@, 1_000_000_000_000_000)
}

/// One canonical (pressure, temperature, composition) triple together with
/// its derived bundle. `properties` is `None` whenever the triple has been
/// mutated since the last successful refresh.
#[derive(Clone, Copy, PartialEq, Eq, Debug)]
pub struct OperatingPoint {
    /// canonical pressure, kPa
    pub pressure_kpa: Qty,
    /// canonical temperature, Kelvin
    pub temperature_k: Qty,
    pub composition: GasComposition,
    pub properties: Option<PropertyBundle>,
}

pub open spec fn op_wf(p: OperatingPoint) -> bool {
    &&& rat_bounded(p.pressure_kpa@, 1_000_000_000_000_000)
    &&& rat_bounded(p.temperature_k@, 1_000_000_000_000_000)
    &&& p.composition.wf()
    &&& match p.properties {
        Some(b) => bundle_wf(b),
        None => true,
    }
}

impl OperatingPoint {
    /// Store a new canonical pressure. The derived bundle is stale from this
    /// moment on, so it is cleared until the next successful refresh.
    pub fn set_pressure(&mut self, value_kpa: Qty)
        requires
            op_wf(*old(self)),
            rat_bounded(value_kpa@, 1_000_000_000_000_000),
        ensures
            final(self).pressure_kpa == value_kpa,
            final(self).temperature_k == old(self).temperature_k,
            final(self).composition == old(self).composition,
            final(self).properties is None,
            op_wf(*final(self)),
    {
        self.pressure_kpa = value_kpa;
        self.properties = None;
    }

    /// Store a new canonical temperature; clears the bundle likewise.
    pub fn set_temperature(&mut self, value_k: Qty)
        requires
            op_wf(*old(self)),
            rat_bounded(value_k@, 1_000_000_000_000_000),
        ensures
            final(self).temperature_k == value_k,
            final(self).pressure_kpa == old(self).pressure_kpa,
            final(self).composition == old(self).composition,
            final(self).properties is None,
            op_wf(*final(self)),
    {
        self.temperature_k = value_k;
        self.properties = None;
    }

    /// Replace the composition wholesale; clears the bundle likewise.
    pub fn set_composition(&mut self, c: GasComposition)
        requires
            op_wf(*old(self)),
            c.wf(),
        ensures
            final(self).composition == c,
            final(self).pressure_kpa == old(self).pressure_kpa,
            final(self).temperature_k == old(self).temperature_k,
            final(self).properties is None,
            op_wf(*final(self)),
    {
        self.composition = c;
        self.properties = None;
    }

    /// Store the outcome of an engine run on this point's triple: a success
    /// replaces the bundle, a failure leaves the point untouched (its bundle
    /// stays absent after a mutation), so the point is never left partially
    /// updated.
    pub fn refresh(&mut self, computed: Option<PropertyBundle>)
        requires
            op_wf(*old(self)),
            computed matches Some(b) ==> bundle_wf(b),
        ensures
            computed matches Some(b) ==> *final(self) == (OperatingPoint {
                properties: Some(b),
                ..*old(self)
            }),
            computed is None ==> *final(self) == *old(self),
            op_wf(*final(self)),
    {
        match computed {
            Some(b) => {
                self.properties = Some(b);
            },
            None => {},
        }
    }
}

/// The display unit for each quantity kind. Rendering-only state.
#[derive(Clone, Copy, PartialEq, Eq, Structural, Debug)]
pub struct Units {
    pub pressure: UnitPressure,
    pub temp: UnitTemp,
    pub internal_energy: UnitInternalEnergy,
}

/// The whole session: the single source of truth for the current operating
/// point, the two snapshots, their visibility flags, and unit preferences.
#[derive(Clone, Copy, PartialEq, Eq, Debug)]
pub struct Session {
    pub gas: GasComp,
    pub current: OperatingPoint,
    pub inlet_state: OperatingPoint,
    pub discharge_state: OperatingPoint,
    pub show_inlet_state: bool,
    pub show_discharge_state: bool,
    pub units: Units,
}

impl Session {
    pub open spec fn wf(self) -> bool {
        &&& op_wf(self.current)
        &&& op_wf(self.inlet_state)
        &&& op_wf(self.discharge_state)
    }
}

/// The state a session starts in: Air at 100 kPa and 273.15 K, canonical
/// display units, no snapshot visible, no bundle computed yet.
pub open spec fn spec_new_session() -> Session {
    let point = OperatingPoint {
        pressure_kpa: Qty { num: 100, den: 1 },
        temperature_k: Qty { num: 27315, den: 100 },
        composition: spec_gas_comp(GasComp::Air),
        properties: None,
    };
    Session {
        gas: GasComp::Air,
        current: point,
        inlet_state: point,
        discharge_state: point,
        show_inlet_state: false,
        show_discharge_state: false,
        units: Units {
            pressure: UnitPressure::KPa,
            temp: UnitTemp::K,
            internal_energy: UnitInternalEnergy::JPerMol,
        },
    }
}

pub open spec fn spec_set_gas_comp(s: Session, gas: GasComp) -> Session {
    Session {
        gas: gas,
        current: OperatingPoint {
            composition: spec_gas_comp(gas),
            properties: None,
            ..s.current
        },
        show_inlet_state: false,
        show_discharge_state: false,
        ..s
    }
}

pub open spec fn spec_set_inlet(s: Session) -> Session {
    Session { inlet_state: s.current, show_inlet_state: true, ..s }
}

pub open spec fn spec_set_discharge(s: Session) -> Session {
    Session { discharge_state: s.current, show_discharge_state: true, ..s }
}

/// Outcome of one refresh: a successful engine run replaces the bundle of the
/// current point; a failed one changes nothing, and the session carries on
/// with the bundle it had (absent after a mutation).
pub open spec fn spec_calculate_state(s: Session, computed: Option<PropertyBundle>) -> Session {
    match computed {
        Some(b) => Session {
            current: OperatingPoint { properties: Some(b), ..s.current },
            ..s
        },
        None => s,
    }
}

/// Refreshing twice with the bundles of one unchanged canonical triple ends
/// in the same state as refreshing once: the engine is a function of the
/// triple, so an unchanged triple hands back the same bundle, and storing it
/// again changes nothing.
pub proof fn lemma_calculate_state_idempotent(s: Session, computed: Option<PropertyBundle>)
    ensures
        spec_calculate_state(spec_calculate_state(s, computed), computed)
            == spec_calculate_state(s, computed),
{
}

/// Snapshot independence: a snapshot is a copy by value, so mutating the
/// current operating point afterwards leaves the stored snapshot exactly the
/// current point of snapshot time. Stated here for the whole-session
/// mutations; `set_pressure` and `set_temperature` state the same
/// preservation of both snapshots in their own contracts.
pub proof fn lemma_snapshot_independence(s: Session, gas: GasComp, computed: Option<PropertyBundle>)
    ensures
        spec_set_gas_comp(spec_set_inlet(s), gas).inlet_state == s.current,
        spec_calculate_state(spec_set_inlet(s), computed).inlet_state == s.current,
        spec_set_gas_comp(spec_set_discharge(s), gas).discharge_state == s.current,
        spec_calculate_state(spec_set_discharge(s), computed).discharge_state == s.current,
{
}

/// Derived comparison of the two snapshots, in canonical units.
#[derive(Clone, Copy, PartialEq, Eq, Structural, Debug)]
pub struct Comparison {
    /// discharge pressure over inlet pressure, dimensionless
    pub pressure_ratio: Qty,
    /// discharge temperature over inlet temperature, dimensionless
    pub temperature_ratio: Qty,
    /// discharge temperature minus inlet temperature, Kelvin
    pub temperature_rise_k: Qty,
}

impl Session {
    pub fn new() -> (r: Session)
        ensures
            r == spec_new_session(),
            r.wf(),
    {
        let point = OperatingPoint {
            pressure_kpa: Qty { num: 100, den: 1 },
            temperature_k: Qty { num: 27315, den: 100 },
            composition: get_gas_comp(GasComp::Air),
            properties: None,
        };
        Session {
            gas: GasComp::Air,
            current: point,
            inlet_state: point,
            discharge_state: point,
            show_inlet_state: false,
            show_discharge_state: false,
            units: Units {
                pressure: UnitPressure::KPa,
                temp: UnitTemp::K,
                internal_energy: UnitInternalEnergy::JPerMol,
            },
        }
    }

    /// Replace the gas composition with a preset. Invalidates the derived
    /// bundle and hides both snapshots: a comparison across two different
    /// gases would be meaningless until re-snapshotted.
    pub fn set_gas_comp(&mut self, gas: GasComp)
        requires
            old(self).wf(),
        ensures
            *final(self) == spec_set_gas_comp(*old(self), gas),
            final(self).current.properties is None,
            final(self).show_inlet_state == false,
            final(self).show_discharge_state == false,
            final(self).inlet_state == old(self).inlet_state,
            final(self).discharge_state == old(self).discharge_state,
            final(self).wf(),
    {
        self.gas = gas;
        self.current.set_composition(get_gas_comp(gas));
        self.show_inlet_state = false;
        self.show_discharge_state = false;
    }

    /// Set the current pressure from a value entered in the active display
    /// unit. The stored canonical value is the exact conversion; the derived
    /// bundle is invalidated until the next refresh; snapshots, preferences
    /// and everything else are untouched.
    pub fn set_pressure(&mut self, value: Qty)
        requires
            old(self).wf(),
            rat_bounded(value@, 1_000_000_000),
        ensures
            final(self).current.pressure_kpa@
                == spec_pressure_to_canonical(value@, old(self).units.pressure),
            final(self).current.temperature_k == old(self).current.temperature_k,
            final(self).current.composition == old(self).current.composition,
            final(self).current.properties is None,
            final(self).gas == old(self).gas,
            final(self).inlet_state == old(self).inlet_state,
            final(self).discharge_state == old(self).discharge_state,
            final(self).show_inlet_state == old(self).show_inlet_state,
            final(self).show_discharge_state == old(self).show_discharge_state,
            final(self).units == old(self).units,
            final(self).wf(),
    {
        proof {
            lemma_pressure_canonical_bounded(value@, self.units.pressure);
        }
        let canonical = pressure_to_canonical(value, self.units.pressure);
        self.current.set_pressure(canonical);
    }

    /// Set the current temperature from a value entered in the active display
    /// unit. Same shape as `set_pressure`.
    pub fn set_temperature(&mut self, value: Qty)
        requires
            old(self).wf(),
            rat_bounded(value@, 1_000_000_000),
        ensures
            final(self).current.temperature_k@
                == spec_temp_to_canonical(value@, old(self).units.temp),
            final(self).current.pressure_kpa == old(self).current.pressure_kpa,
            final(self).current.composition == old(self).current.composition,
            final(self).current.properties is None,
            final(self).gas == old(self).gas,
            final(self).inlet_state == old(self).inlet_state,
            final(self).discharge_state == old(self).discharge_state,
            final(self).show_inlet_state == old(self).show_inlet_state,
            final(self).show_discharge_state == old(self).show_discharge_state,
            final(self).units == old(self).units,
            final(self).wf(),
    {
        proof {
            lemma_temp_canonical_bounded(value@, self.units.temp);
        }
        let canonical = temp_to_canonical(value, self.units.temp);
        self.current.set_temperature(canonical);
    }

    /// Snapshot the current operating point as the inlet condition. The copy
    /// is by value: later mutation of the current point cannot reach it.
    pub fn set_inlet(&mut self)
        requires
            old(self).wf(),
        ensures
            *final(self) == spec_set_inlet(*old(self)),
            final(self).inlet_state == old(self).current,
            final(self).show_inlet_state == true,
            final(self).current == old(self).current,
            final(self).discharge_state == old(self).discharge_state,
            final(self).wf(),
    {
        self.inlet_state = self.current;
        self.show_inlet_state = true;
    }

    /// Snapshot the current operating point as the discharge condition.
    pub fn set_discharge(&mut self)
        requires
            old(self).wf(),
        ensures
            *final(self) == spec_set_discharge(*old(self)),
            final(self).discharge_state == old(self).current,
            final(self).show_discharge_state == true,
            final(self).current == old(self).current,
            final(self).inlet_state == old(self).inlet_state,
            final(self).wf(),
    {
        self.discharge_state = self.current;
        self.show_discharge_state = true;
    }

    /// Store the outcome of a refresh. A successful engine computation
    /// (`Some`) replaces the current point's bundle; a failure (`None`)
    /// leaves the session exactly as it was, so a failed computation never
    /// partially mutates state.
    pub fn calculate_state(&mut self, computed: Option<PropertyBundle>)
        requires
            old(self).wf(),
            computed matches Some(b) ==> bundle_wf(b),
        ensures
            *final(self) == spec_calculate_state(*old(self), computed),
            computed matches Some(b) ==> final(self).current.properties == Some(b),
            computed is None ==> *final(self) == *old(self),
            final(self).current.pressure_kpa == old(self).current.pressure_kpa,
            final(self).current.temperature_k == old(self).current.temperature_k,
            final(self).current.composition == old(self).current.composition,
            final(self).inlet_state == old(self).inlet_state,
            final(self).discharge_state == old(self).discharge_state,
            final(self).wf(),
    {
        self.current.refresh(computed);
    }

    /// Change the pressure display unit. Rendering-only: every canonical
    /// value, snapshot and flag is untouched.
    pub fn change_unit_pressure(&mut self, unit: UnitPressure)
        requires
            old(self).wf(),
        ensures
            final(self).units.pressure == unit,
            final(self).units.temp == old(self).units.temp,
            final(self).units.internal_energy == old(self).units.internal_energy,
            final(self).current == old(self).current,
            final(self).inlet_state == old(self).inlet_state,
            final(self).discharge_state == old(self).discharge_state,
            final(self).show_inlet_state == old(self).show_inlet_state,
            final(self).show_discharge_state == old(self).show_discharge_state,
            final(self).gas == old(self).gas,
            final(self).wf(),
    {
        self.units.pressure = unit;
    }

    /// Change the temperature display unit. Rendering-only.
    pub fn change_unit_temperature(&mut self, unit: UnitTemp)
        requires
            old(self).wf(),
        ensures
            final(self).units.temp == unit,
            final(self).units.pressure == old(self).units.pressure,
            final(self).units.internal_energy == old(self).units.internal_energy,
            final(self).current == old(self).current,
            final(self).inlet_state == old(self).inlet_state,
            final(self).discharge_state == old(self).discharge_state,
            final(self).show_inlet_state == old(self).show_inlet_state,
            final(self).show_discharge_state == old(self).show_discharge_state,
            final(self).gas == old(self).gas,
            final(self).wf(),
    {
        self.units.temp = unit;
    }

    /// Change the internal-energy display unit. Rendering-only.
    pub fn change_unit_internal_energy(&mut self, unit: UnitInternalEnergy)
        requires
            old(self).wf(),
        ensures
            final(self).units.internal_energy == unit,
            final(self).units.pressure == old(self).units.pressure,
            final(self).units.temp == old(self).units.temp,
            final(self).current == old(self).current,
            final(self).inlet_state == old(self).inlet_state,
            final(self).discharge_state == old(self).discharge_state,
            final(self).show_inlet_state == old(self).show_inlet_state,
            final(self).show_discharge_state == old(self).show_discharge_state,
            final(self).gas == old(self).gas,
            final(self).wf(),
    {
        self.units.internal_energy = unit;
    }

    /// The current internal energy in the active display unit: `None` until a
    /// bundle has been computed, or if the engine handed back a molar mass
    /// that is not positive (the kJ/kg and BTU/lbm scales divide by it).
    pub fn get_internal_energy(&self) -> (r: Option<Qty>)
        requires
            self.wf(),
        ensures
            match self.current.properties {
                Some(b) => {
                    if b.molar_mass@.n > 0 {
                        r matches Some(q)
                            && q@ == spec_energy_to_display(
                                b.internal_energy@, b.molar_mass@, self.units.internal_energy)
                            && q.wf()
                    } else {
                        r is None
                    }
                },
                None => r is None,
            },
    {
        match self.current.properties {
            Some(b) => {
                if b.molar_mass.num > 0 {
                    Some(energy_to_display(b.internal_energy, b.molar_mass, self.units.internal_energy))
                } else {
                    None
                }
            },
            None => None,
        }
    }

    /// The derived comparison of the two snapshots, available exactly when
    /// both are visible and the inlet values are nonzero (the ratios divide
    /// by them). Ratios are dimensionless; the rise is a canonical Kelvin
    /// difference, rendered through `rise_to_display`.
    pub fn comparison(&self) -> (r: Option<Comparison>)
        requires
            self.wf(),
        ensures
            r is Some <==> (self.show_inlet_state && self.show_discharge_state
                && self.inlet_state.pressure_kpa@.n != 0
                && self.inlet_state.temperature_k@.n != 0),
            r matches Some(c) ==> {
                &&& rat_eq(c.pressure_ratio@,
                        rat_div(self.discharge_state.pressure_kpa@, self.inlet_state.pressure_kpa@))
                &&& c.pressure_ratio.wf()
                &&& rat_eq(c.temperature_ratio@,
                        rat_div(self.discharge_state.temperature_k@, self.inlet_state.temperature_k@))
                &&& c.temperature_ratio.wf()
                &&& c.temperature_rise_k@
                        == rat_sub(self.discharge_state.temperature_k@, self.inlet_state.temperature_k@)
                &&& c.temperature_rise_k.wf()
                &&& rat_bounded(c.temperature_rise_k@, 2_000_000_000_000_000_000_000_000_000_000)
            },
    {
        if self.show_inlet_state && self.show_discharge_state
            && self.inlet_state.pressure_kpa.num != 0
            && self.inlet_state.temperature_k.num != 0
        {
            let pr = qty_div(self.discharge_state.pressure_kpa, self.inlet_state.pressure_kpa);
            let tr = qty_div(self.discharge_state.temperature_k, self.inlet_state.temperature_k);
            let td = qty_sub(self.discharge_state.temperature_k, self.inlet_state.temperature_k);
            Some(Comparison { pressure_ratio: pr, temperature_ratio: tr, temperature_rise_k: td })
        } else {
            None
        }
    }
}

/// A display-unit pressure within the input parser's bound converts to a
/// canonical value within the session's bound.
pub proof fn lemma_pressure_canonical_bounded(x: Rat, u: UnitPressure)
    requires
        rat_bounded(x, 1_000_000_000),
    ensures
        rat_bounded(spec_pressure_to_canonical(x, u), 1_000_000_000_000_000),
{
    let y = spec_pressure_to_canonical(x, u);
    assert(rat_bounded(y, 1_000_000_000_000_000)) by (nonlinear_arith)
        requires
            rat_bounded(x, 1_000_000_000),
            y == spec_pressure_to_canonical(x, u),
    {
    }
}

/// A display-unit temperature within the input parser's bound converts to a
/// canonical value within the session's bound.
pub proof fn lemma_temp_canonical_bounded(x: Rat, u: UnitTemp)
    requires
        rat_bounded(x, 1_000_000_000),
    ensures
        rat_bounded(spec_temp_to_canonical(x, u), 1_000_000_000_000_000),
{
}

} // verus!
