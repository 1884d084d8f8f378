//! Case builder for the lbflow lattice-Boltzmann solver.
//!
//! A case configuration — domain size and dimensionality, collision model,
//! velocity set, initial fields, per-face boundary conditions and any number
//! of passive scalar fields — is rendered into the source text of a program
//! that runs that case against the solver library, together with the matching
//! package manifest.  Every renderer is a pure function from the configuration
//! to text, and its contract pins the produced text exactly.

pub mod config;
pub mod literal;
pub mod ui;
