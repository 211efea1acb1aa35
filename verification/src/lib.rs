//! Core state and arithmetic of an interactive 2D gravitational particle
//! simulation: buffer-capacity rounding, ping-pong buffer bookkeeping,
//! particle-record byte layout, capture-frame row trimming, frame pacing
//! slots, GUI edit validation and the per-frame orchestrator decisions.
//!
//! The GPU, windowing and float-valued parts of the simulator live outside
//! this library; they feed it plain values and act on its verified answers.

pub mod app_state;
pub mod capture;
pub mod float_bits;
pub mod follow;
pub mod framepace;
pub mod gui;
pub mod particle;
pub mod physics;
pub mod utils;
