//! A coin flip driven by a source of uniform draws, and a per-timestep
//! profit forecaster, both over fixed-point amounts.

pub mod coin_flip;
pub mod forecaster;
