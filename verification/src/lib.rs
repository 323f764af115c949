//! Gym occupancy monitoring: proleptic Gregorian calendar values and their
//! texts, the opening-hour schedule with Bavarian holidays, configuration
//! defaults, error classification, the integer parts of the occupancy analytics,
//! time-series cross-validation splitting and hyperparameter grids, and the
//! planning steps of the data repair, the fetch loop and the monitor's
//! control panel.

pub mod analytics;
pub mod api;
pub mod calendar;
pub mod config;
pub mod daemon;
pub mod error;
pub mod repair;
pub mod schedule;
pub mod text;
pub mod traits;
pub mod ui;
pub mod ml;
