//! A habit tracker's streak and day-grid engine.
//!
//! A chain is a habit with a weekly cadence; a link records that the habit was
//! done on a calendar date. The engine computes, from a chain's cadence and its
//! links, the current and longest streak of expected days, and a window of
//! recent days marked with whether a link exists on each.

pub mod cadence;
pub mod chain_error;
pub mod date;
pub mod grid;
pub mod streak;
pub mod structs;

pub use chain_error::ChainError;
pub use date::Date;
pub use cadence::Cadence;
pub use grid::{build_day_grid, create_days, create_dummy_days};
pub use streak::{calculate_streak, compute_streak, due_streak};
pub use structs::{Chain, Day, DayMarker, Link, Streak, StreakSummary};
