//! Environmental oracle core: acquires an environmental reading from one of
//! several providers (falling back to a fixed reading), checks it against
//! plausibility bounds, and decides whether each cycle submits it.
//!
//! Measurements are held in fixed point: every reading field is an integer
//! count of ten-thousandths of its unit (see `snapshot::SCALE`).

pub mod clock;
pub mod cycle;
pub mod fallback;
pub mod network;
pub mod provider;
pub mod snapshot;
pub mod validate;
