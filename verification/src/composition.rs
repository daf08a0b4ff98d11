//! Preset gas-composition catalog.
//!
//! Mole fractions are kept as exact parts-per-hundred; a well-formed
//! composition sums to 100, i.e. to a mole fraction total of 1.

use vstd::prelude::*;

verus! {

#[derive(Clone, Copy, PartialEq, Eq, Structural, Debug)]
pub enum GasComp {
    Air,
    Argon,
    Nitrogen,
    Oxygen,
}

/// A gas mixture: mole fractions in parts per hundred. Components outside
/// the catalog's three are implicitly zero.
#[derive(Clone, Copy, PartialEq, Eq, Structural, Debug)]
pub struct GasComposition {
    pub nitrogen_pph: u32,
    pub oxygen_pph: u32,
    pub argon_pph: u32,
}

impl GasComposition {
    /// Fractions of a preset sum to exactly 1.
    pub open spec fn wf(self) -> bool {
        self.nitrogen_pph + self.oxygen_pph + self.argon_pph == 100
    }
}

pub open spec fn spec_gas_comp(gas: GasComp) -> GasComposition {
    match gas {
        GasComp::Air => GasComposition { nitrogen_pph: 78, oxygen_pph: 21, argon_pph: 1 },
        GasComp::Argon => GasComposition { nitrogen_pph: 0, oxygen_pph: 0, argon_pph: 100 },
        GasComp::Nitrogen => GasComposition { nitrogen_pph: 100, oxygen_pph: 0, argon_pph: 0 },
        GasComp::Oxygen => GasComposition { nitrogen_pph: 0, oxygen_pph: 100, argon_pph: 0 },
    }
}

/// Look a preset up in the catalog. The menu pre-validates the choice, so
/// every representable name has a composition; each preset is normalized.
pub fn get_gas_comp(gas_comp: GasComp) -> (r: GasComposition)
    ensures
        r == spec_gas_comp(gas_comp),
        r.wf(),
{
    match gas_comp {
        GasComp::Air => GasComposition { nitrogen_pph: 78, oxygen_pph: 21, argon_pph: 1 },
        GasComp::Argon => GasComposition { nitrogen_pph: 0, oxygen_pph: 0, argon_pph: 100 },
        GasComp::Nitrogen => GasComposition { nitrogen_pph: 100, oxygen_pph: 0, argon_pph: 0 },
        GasComp::Oxygen => GasComposition { nitrogen_pph: 0, oxygen_pph: 100, argon_pph: 0 },
    }
}

} // verus!
