use vstd::prelude::*;

use crate::cadence::Cadence;
use crate::date::Date;

verus! {

/// A tracked habit: its storage id, its unique name and its cadence.
#[derive(Debug)]
pub struct Chain {
    pub id: i64,
    pub name: String,
    pub cadence: Cadence,
}

/// A record that the habit of chain `chain_id` was done on `date`.
#[derive(Clone, Copy, Debug, PartialEq, Eq, Structural)]
pub struct Link {
    pub chain_id: i32,
    pub date: Date,
}

/// A chain's streaks: the run in progress at its latest link and the longest
/// run seen.
#[derive(Debug)]
pub struct Streak {
    pub name: String,
    pub streak: i32,
    pub longest_streak: i32,
}

/// The streak counts of a link sequence, with no chain attached.
#[derive(Clone, Copy, Debug, PartialEq, Eq, Structural)]
pub struct StreakSummary {
    pub current: usize,
    pub longest: usize,
}

/// One day of the display window, by date.
#[derive(Clone, Copy, Debug, PartialEq, Eq, Structural)]
pub struct DayMarker {
    pub date: Date,
    pub completed: bool,
}

/// One day of the display window, by day of the month.
#[derive(Clone, Copy, Debug, PartialEq, Eq, Structural)]
pub struct Day {
    pub day: i32,
    pub is_done: bool,
}

} // verus!
