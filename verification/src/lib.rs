//! Verified core of a terminal system monitor: rolling history buffers for
//! throughput sparklines, a tiered-cadence metrics collector, discrete
//! scan-rate presets, CSV snapshot/log formatting, and the event-driven
//! state machine that merges timer ticks with keyboard commands.
//!
//! Terminal drawing, keyboard polling and the raw OS statistics source are
//! external collaborators; they hand this library plain values and take
//! plain values back.

pub mod clock;
pub mod collector;
pub mod csvfmt;
pub mod engine;
pub mod errors;
pub mod event;
pub mod history;
pub mod numfmt;
pub mod psort;
pub mod thermal;
pub mod types;
pub mod widgets;
