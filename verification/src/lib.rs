//! Real-time monitoring engine for a terminal metrics dashboard.
//!
//! The engine keeps one bounded, time-ordered sample buffer per tracked
//! sub-metric, a monitor that owns the chart's axis bounds and elapsed-time
//! clock, an event model for the tick/input fan-in, and the per-category
//! widget state machine that ties polling, windowing and drawing together.
//! Times and readings are carried as integer units (for example milliseconds
//! and hertz); the surrounding program converts to and from whatever its
//! collaborators use.

pub mod events;
pub mod monitor;
pub mod render_loop;
pub mod series;
pub mod settings;
pub mod widget;
