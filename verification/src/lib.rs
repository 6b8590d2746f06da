//! Invoice escrow: investor funds are held for an invoice until settlement.
//!
//! The escrow walks through three states: open (collecting investor funds),
//! funded (the funding target was reached and the SME can be paid), and
//! settled (the buyer has paid principal plus yield in full).

pub mod arith;
pub mod contract;
pub mod laws;
pub mod state;
