//! Interactive gas-property session logic: exact rational quantities, unit
//! conversion between canonical (kPa, K, J/mol) and display units, a preset
//! gas-composition catalog, the session state (current / inlet / discharge
//! operating points and unit preferences), a decimal input parser, and the
//! menu state machine that dispatches operator commands.

pub mod composition;
pub mod menu;
pub mod parser;
pub mod rational;
pub mod session;
pub mod units;

pub use rational::{Qty, Rat};
