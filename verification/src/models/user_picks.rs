//! One user's picks for one gameweek.

use crate::models::json::JsonValue;
use vstd::prelude::*;

verus! {

/// A user's squad selection for one gameweek.
#[derive(Debug, Clone, PartialEq)]
pub struct UserPicks {
    pub active_chip: JsonValue,
    pub automatic_subs: Vec<JsonValue>,
    pub entry_history: EntryHistory,
    pub picks: Vec<Pick>,
}

/// The user's score and transfer summary for the gameweek.
#[derive(Debug, Clone, Copy, PartialEq, Eq)]
pub struct EntryHistory {
    pub event: i64,
    pub points: i64,
    pub total_points: i64,
    pub rank: i64,
    pub rank_sort: i64,
    pub overall_rank: i64,
    pub bank: i64,
    pub value: i64,
    pub event_transfers: i64,
    pub event_transfers_cost: i64,
    pub points_on_bench: i64,
}

/// One picked player.
#[derive(Debug, Clone, Copy, PartialEq, Eq)]
pub struct Pick {
    pub element: i64,
    pub position: i64,
    pub multiplier: i64,
    pub is_captain: bool,
    pub is_vice_captain: bool,
}

} // verus!
