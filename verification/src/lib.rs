//! Core of a visual-stimulus display: the mapping from raw pointer input to a
//! normalized stimulus parameter set, the per-frame derivation of a render
//! transform from those parameters, and the state machine that swaps the
//! stimulus between its visual variants while keeping exactly one material
//! bound to the on-screen entity.
//!
//! All quantities are fixed-point integers (see [`units`]), so every rule in
//! this crate is stated and proved exactly.

pub mod coords;
pub mod entity;
pub mod params;
pub mod session;
pub mod transform;
pub mod units;
pub mod variant;
