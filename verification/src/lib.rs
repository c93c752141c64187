//! Core of a live battery dashboard: the run configuration, the bounded
//! history of signed power values with its extrema, the normalisation of one
//! reading of a power source, and the decisions of the sampling loop.
//!
//! All quantities are integers in fixed units (milliwatts, milliwatt-hours,
//! millivolts, millikelvin, seconds, parts per million), so that every rule
//! here is exact and proved. Reading the power source, the terminal and the
//! clock is left to the program around this crate.

pub mod app;
pub mod chart;
pub mod config;
pub mod history;
pub mod sample;
pub mod scheduler;

pub use app::{App, ProviderError, TickError};
pub use chart::{AxisBounds, AxisLabels};
pub use config::{Config, ConfigError};
pub use history::HistoryBuffer;
pub use sample::{ChargeState, RawReading, Snapshot, Technology};
pub use scheduler::{Action, Event, Input, Phase, Scheduler};
