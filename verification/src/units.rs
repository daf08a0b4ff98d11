//! Unit conversion between the canonical internal units (kPa, Kelvin, J/mol)
//! and the selectable display units.
//!
//! Every conversion is an affine map with rational coefficients and is
//! computed exactly, so `to canonical` inverts `to display` as a genuine
//! equality of rational values, not merely within a tolerance.
//!
//! The Rankine input conversion is `K = R * 5/9`, deliberately mirroring the
//! display direction `R = K * 9/5` without an absolute-zero offset; the pair
//! still round-trips exactly.

use vstd::prelude::*;
use crate::rational::{Qty, Rat, rat_add, rat_bounded, rat_div, rat_eq, rat_mul, rat_sub, rat_wf};

verus! {

#[derive(Clone, Copy, PartialEq, Eq, Structural, Debug)]
pub enum UnitPressure {
    KPa,
    Bar,
    Psi,
}

#[derive(Clone, Copy, PartialEq, Eq, Structural, Debug)]
pub enum UnitTemp {
    K,
    C,
    F,
    R,
}

#[derive(Clone, Copy, PartialEq, Eq, Structural, Debug)]
pub enum UnitInternalEnergy {
    JPerMol,
    KJPerKg,
    BtuPerLbm,
}

/// Factor by which a canonical pressure in kPa is multiplied to render it in
/// the display unit: 1 for kPa, 0.01 for Bar, 0.145038 for PSI.
pub open spec fn pressure_factor(u: UnitPressure) -> Rat {
    match u {
        UnitPressure::KPa => Rat { n: 1, d: 1 },
        UnitPressure::Bar => Rat { n: 1, d: 100 },
        UnitPressure::Psi => Rat { n: 145038, d: 1000000 },
    }
}

pub open spec fn spec_pressure_to_display(x: Rat, u: UnitPressure) -> Rat {
    rat_mul(x, pressure_factor(u))
}

pub open spec fn spec_pressure_to_canonical(x: Rat, u: UnitPressure) -> Rat {
    rat_div(x, pressure_factor(u))
}

/// 273.15 K, the Celsius offset.
pub open spec fn kelvin_offset() -> Rat {
    Rat { n: 27315, d: 100 }
}

pub open spec fn spec_temp_to_display(x: Rat, u: UnitTemp) -> Rat {
    match u {
        UnitTemp::K => x,
        UnitTemp::C => rat_sub(x, kelvin_offset()),
        UnitTemp::F => rat_add(
            rat_mul(rat_sub(x, kelvin_offset()), Rat { n: 9, d: 5 }),
            Rat { n: 32, d: 1 },
        ),
        UnitTemp::R => rat_mul(x, Rat { n: 9, d: 5 }),
    }
}

pub open spec fn spec_temp_to_canonical(x: Rat, u: UnitTemp) -> Rat {
    match u {
        UnitTemp::K => x,
        UnitTemp::C => rat_add(x, kelvin_offset()),
        UnitTemp::F => rat_add(
            rat_mul(rat_sub(x, Rat { n: 32, d: 1 }), Rat { n: 5, d: 9 }),
            kelvin_offset(),
        ),
        UnitTemp::R => rat_mul(x, Rat { n: 5, d: 9 }),
    }
}

/// Display value of an internal energy `x` in J/mol, for a gas of molar mass
/// `mm` in g/mol: kJ/kg divides by the molar mass, BTU/lbm additionally
/// scales by 0.429923.
pub open spec fn spec_energy_to_display(x: Rat, mm: Rat, u: UnitInternalEnergy) -> Rat {
    match u {
        UnitInternalEnergy::JPerMol => x,
        UnitInternalEnergy::KJPerKg => rat_div(x, mm),
        UnitInternalEnergy::BtuPerLbm => rat_mul(rat_div(x, mm), Rat { n: 429923, d: 1000000 }),
    }
}

pub open spec fn spec_energy_to_canonical(x: Rat, mm: Rat, u: UnitInternalEnergy) -> Rat {
    match u {
        UnitInternalEnergy::JPerMol => x,
        UnitInternalEnergy::KJPerKg => rat_mul(x, mm),
        UnitInternalEnergy::BtuPerLbm => rat_mul(
            rat_div(x, Rat { n: 429923, d: 1000000 }),
            mm,
        ),
    }
}

/// Render a canonical pressure (kPa) in the display unit. Exact.
pub fn get_pressure(pressure: Qty, unit: UnitPressure) -> (r: Qty)
    requires
        rat_bounded(pressure@, 1_000_000_000_000_000),
    ensures
        r@ == spec_pressure_to_display(pressure@, unit),
        r.wf(),
        rat_bounded(r@, 1_000_000_000_000_000_000_000),
{
    match unit {
        UnitPressure::KPa => Qty { num: pressure.num * 1, den: pressure.den * 1 },
        UnitPressure::Bar => Qty { num: pressure.num * 1, den: pressure.den * 100 },
        UnitPressure::Psi => Qty { num: pressure.num * 145038, den: pressure.den * 1000000 },
    }
}

/// Read a pressure entered in the display unit back into canonical kPa. Exact.
pub fn pressure_to_canonical(value: Qty, unit: UnitPressure) -> (r: Qty)
    requires
        rat_bounded(value@, 1_000_000_000_000_000_000_000),
    ensures
        r@ == spec_pressure_to_canonical(value@, unit),
        r.wf(),
        rat_bounded(r@, 1_000_000_000_000_000_000_000_000_000),
{
    match unit {
        UnitPressure::KPa => Qty { num: value.num * 1, den: value.den * 1 },
        UnitPressure::Bar => Qty { num: value.num * 100, den: value.den * 1 },
        UnitPressure::Psi => Qty { num: value.num * 1000000, den: value.den * 145038 },
    }
}

/// Render a canonical temperature (Kelvin) in the display unit. Exact.
pub fn get_temperature(temperature: Qty, unit: UnitTemp) -> (r: Qty)
    requires
        rat_bounded(temperature@, 1_000_000_000_000_000),
    ensures
        r@ == spec_temp_to_display(temperature@, unit),
        r.wf(),
        rat_bounded(r@, 1_000_000_000_000_000_000_000),
{
    match unit {
        UnitTemp::K => temperature,
        UnitTemp::C => Qty {
            num: temperature.num * 100 - 27315 * temperature.den,
            den: temperature.den * 100,
        },
        UnitTemp::F => Qty {
            num: (temperature.num * 100 - 27315 * temperature.den) * 9
                + 32 * (temperature.den * 100 * 5),
            den: temperature.den * 100 * 5,
        },
        UnitTemp::R => Qty { num: temperature.num * 9, den: temperature.den * 5 },
    }
}

/// Read a temperature entered in the display unit back into canonical Kelvin.
/// Exact; the Rankine path is `K = R * 5/9`, the inverse of the display
/// direction.
pub fn temp_to_canonical(value: Qty, unit: UnitTemp) -> (r: Qty)
    requires
        rat_bounded(value@, 1_000_000_000_000_000_000_000),
    ensures
        r@ == spec_temp_to_canonical(value@, unit),
        r.wf(),
        rat_bounded(r@, 1_000_000_000_000_000_000_000_000_000),
{
    match unit {
        UnitTemp::K => value,
        UnitTemp::C => Qty {
            num: value.num * 100 + 27315 * value.den,
            den: value.den * 100,
        },
        UnitTemp::F => Qty {
            num: (value.num * 1 - 32 * value.den) * 5 * 100 + 27315 * (value.den * 1 * 9),
            den: value.den * 1 * 9 * 100,
        },
        UnitTemp::R => Qty { num: value.num * 5, den: value.den * 9 },
    }
}

/// Render an internal energy (J/mol) in the display unit, for molar mass `mm`
/// (g/mol). Exact.
pub fn energy_to_display(energy: Qty, mm: Qty, unit: UnitInternalEnergy) -> (r: Qty)
    requires
        rat_bounded(energy@, 1_000_000_000_000_000),
        rat_bounded(mm@, 1_000_000_000_000_000),
        mm@.n > 0,
    ensures
        r@ == spec_energy_to_display(energy@, mm@, unit),
        r.wf(),
{
    proof {
        crate::rational::lemma_mul_bound(energy.num as int, mm.den as int, 1_000_000_000_000_000);
        crate::rational::lemma_mul_bound(energy.den as int, mm.num as int, 1_000_000_000_000_000);
        assert(energy.den * mm.num > 0) by (nonlinear_arith)
            requires
                energy.den > 0,
                mm.num > 0,
        {
        }
    }
    match unit {
        UnitInternalEnergy::JPerMol => energy,
        UnitInternalEnergy::KJPerKg => Qty { num: energy.num * mm.den, den: energy.den * mm.num },
        UnitInternalEnergy::BtuPerLbm => Qty {
            num: (energy.num * mm.den) * 429923,
            den: (energy.den * mm.num) * 1000000,
        },
    }
}

/// Read an internal energy entered in the display unit back to J/mol. Exact.
pub fn energy_to_canonical(value: Qty, mm: Qty, unit: UnitInternalEnergy) -> (r: Qty)
    requires
        rat_bounded(value@, 1_000_000_000_000_000),
        rat_bounded(mm@, 1_000_000_000),
        mm@.n > 0,
    ensures
        r@ == spec_energy_to_canonical(value@, mm@, unit),
        r.wf(),
{
    proof {
        crate::rational::lemma_mul_bound2(
            value.num as int, mm.num as int, 1_000_000_000_000_000, 1_000_000_000);
        crate::rational::lemma_mul_bound2(
            value.den as int, mm.den as int, 1_000_000_000_000_000, 1_000_000_000);
        crate::rational::lemma_mul_bound2(
            value.num as int * 1000000, mm.num as int,
            1_000_000_000_000_000_000_000, 1_000_000_000);
        crate::rational::lemma_mul_bound2(
            value.den as int * 429923, mm.den as int,
            1_000_000_000_000_000_000_000, 1_000_000_000);
        assert(value.den * mm.den > 0 && (value.den * 429923) * mm.den > 0) by (nonlinear_arith)
            requires
                value.den > 0,
                mm.den > 0,
        {
        }
    }
    match unit {
        UnitInternalEnergy::JPerMol => value,
        UnitInternalEnergy::KJPerKg => Qty { num: value.num * mm.num, den: value.den * mm.den },
        UnitInternalEnergy::BtuPerLbm => Qty {
            num: (value.num * 1000000) * mm.num,
            den: (value.den * 429923) * mm.den,
        },
    }
}

/// Scale factor that turns a canonical temperature difference (Kelvin) into
/// the same difference expressed in the display unit: a rise is a linear,
/// offset-free image of the Kelvin rise (1 for K and C, 9/5 for F and R).
pub open spec fn spec_rise_to_display(x: Rat, u: UnitTemp) -> Rat {
    match u {
        UnitTemp::K => x,
        UnitTemp::C => x,
        UnitTemp::F => rat_mul(x, Rat { n: 9, d: 5 }),
        UnitTemp::R => rat_mul(x, Rat { n: 9, d: 5 }),
    }
}

/// Render a canonical temperature difference in the display unit. Exact.
pub fn rise_to_display(rise: Qty, unit: UnitTemp) -> (r: Qty)
    requires
        rat_bounded(rise@, 2_000_000_000_000_000_000_000_000_000_000),
    ensures
        r@ == spec_rise_to_display(rise@, unit),
        r.wf(),
{
    match unit {
        UnitTemp::K => rise,
        UnitTemp::C => rise,
        UnitTemp::F => Qty { num: rise.num * 9, den: rise.den * 5 },
        UnitTemp::R => Qty { num: rise.num * 9, den: rise.den * 5 },
    }
}

/// For every pressure unit, reading a rendered pressure back in gives the
/// canonical value again, exactly.
pub proof fn lemma_pressure_round_trip(x: Rat, u: UnitPressure)
    requires
        rat_wf(x),
    ensures
        rat_eq(spec_pressure_to_canonical(spec_pressure_to_display(x, u), u), x),
{
    let y = spec_pressure_to_canonical(spec_pressure_to_display(x, u), u);
    assert(y.n * x.d == x.n * y.d) by (nonlinear_arith)
        requires
            y == spec_pressure_to_canonical(spec_pressure_to_display(x, u), u),
    {
    }
}

/// For every temperature unit (Rankine included), reading a rendered
/// temperature back in gives the canonical value again, exactly.
pub proof fn lemma_temperature_round_trip(x: Rat, u: UnitTemp)
    requires
        rat_wf(x),
    ensures
        rat_eq(spec_temp_to_canonical(spec_temp_to_display(x, u), u), x),
{
    let y = spec_temp_to_canonical(spec_temp_to_display(x, u), u);
    assert(y.n * x.d == x.n * y.d) by (nonlinear_arith)
        requires
            y == spec_temp_to_canonical(spec_temp_to_display(x, u), u),
    {
    }
}

/// For every internal-energy unit, reading a rendered energy back in gives
/// the canonical value again, exactly, for any nonzero molar mass.
pub proof fn lemma_energy_round_trip(x: Rat, mm: Rat, u: UnitInternalEnergy)
    requires
        rat_wf(x),
        rat_wf(mm),
        mm.n != 0,
    ensures
        rat_eq(spec_energy_to_canonical(spec_energy_to_display(x, mm, u), mm, u), x),
{
    let y = spec_energy_to_canonical(spec_energy_to_display(x, mm, u), mm, u);
    assert(y.n * x.d == x.n * y.d) by (nonlinear_arith)
        requires
            y == spec_energy_to_canonical(spec_energy_to_display(x, mm, u), mm, u),
    {
    }
}

/// Offsets cancel in differences: the difference of two rendered
/// temperatures equals the rendered canonical difference, for every display
/// unit, affine Fahrenheit included.
pub proof fn lemma_rise_offset_cancels(a: Rat, b: Rat, u: UnitTemp)
    requires
        rat_wf(a),
        rat_wf(b),
    ensures
        rat_eq(
            rat_sub(spec_temp_to_display(a, u), spec_temp_to_display(b, u)),
            spec_rise_to_display(rat_sub(a, b), u),
        ),
{
    let lhs = rat_sub(spec_temp_to_display(a, u), spec_temp_to_display(b, u));
    let rhs = spec_rise_to_display(rat_sub(a, b), u);
    assert(lhs.n * rhs.d == rhs.n * lhs.d) by (nonlinear_arith)
        requires
            lhs == rat_sub(spec_temp_to_display(a, u), spec_temp_to_display(b, u)),
            rhs == spec_rise_to_display(rat_sub(a, b), u),
    {
    }
}

} // verus!
