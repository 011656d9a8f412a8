//! Drives a single-channel or three-channel (RGB) lighting fixture through an
//! abstract hardware-pin interface.
//!
//! The crate translates declarative lighting effects (steady color, blink,
//! fade, and multi-color sequences) into low-level pin commands: digital
//! high, digital low, or a PWM duty cycle. Duty cycles are kept in exact
//! fixed-point arithmetic (units of one millionth of a full cycle), so the
//! whole scheduling engine is ordinary integer code.
//!
//! - [`led`] holds the color data model, the conversion to duty cycles, the
//!   quantization rule and the topology-safe elementwise algebra.
//! - [`controller`] holds the abstract pin contract and the [`controller::Controller`]
//!   state machine that turns a one-shot request into a time-driven generator.
//! - [`laws`] states and proves the scheduling engine's global guarantees.

pub mod controller;
pub mod laws;
pub mod led;
