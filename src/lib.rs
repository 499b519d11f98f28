//! Adaptive-rate animation controller for a CPU-load tray indicator.
//!
//! A sampler turns CPU measurements into usage values, an animator turns the
//! latest usage into an inter-frame delay and a cyclic frame index, and a
//! theme value chosen by the user travels with every animation tick.
//!
//! Usage values are fixed-point: hundredths of a percent, so `10000` is 100%.
pub mod animator;
pub mod rate;
pub mod sampler;
pub mod theme;
