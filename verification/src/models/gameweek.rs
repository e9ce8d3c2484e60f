//! Live per-player statistics for one gameweek.
//!
//! Unlike the static snapshot, this data changes while matches run and is
//! fetched fresh on every request; the core hands it through unchanged.

use vstd::prelude::*;

verus! {

/// The live statistics of every player in one gameweek.
#[derive(Debug, Clone, PartialEq)]
pub struct Gameweek {
    pub elements: Vec<Element>,
}

/// One player's live statistics.
#[derive(Debug, Clone, PartialEq)]
pub struct Element {
    pub id: i64,
    pub stats: Stats,
    pub explain: Vec<Explain>,
}

/// The statistic totals of one player.
#[derive(Debug, Clone, PartialEq)]
pub struct Stats {
    pub minutes: i64,
    pub goals_scored: i64,
    pub assists: i64,
    pub clean_sheets: i64,
    pub goals_conceded: i64,
    pub own_goals: i64,
    pub penalties_saved: i64,
    pub penalties_missed: i64,
    pub yellow_cards: i64,
    pub red_cards: i64,
    pub saves: i64,
    pub bonus: i64,
    pub bps: i64,
    pub influence: String,
    pub creativity: String,
    pub threat: String,
    pub ict_index: String,
    pub starts: i64,
    pub expected_goals: String,
    pub expected_assists: String,
    pub expected_goal_involvements: String,
    pub expected_goals_conceded: String,
    pub total_points: i64,
    pub in_dreamteam: bool,
}

/// The per-fixture breakdown of one player's points.
#[derive(Debug, Clone, PartialEq)]
pub struct Explain {
    pub fixture: i64,
    pub stats: Vec<Stat>,
}

/// One scored statistic inside a breakdown.
#[derive(Debug, Clone, PartialEq)]
pub struct Stat {
    pub identifier: String,
    pub points: i64,
    pub value: i64,
}

} // verus!
