//! The results of one head-to-head league.

use crate::models::json::JsonValue;
use vstd::prelude::*;

verus! {

/// One page of a head-to-head league's results.
#[derive(Debug, Clone, PartialEq)]
pub struct H2HLeague {
    pub has_next: bool,
    pub page: i64,
    pub results: Vec<H2HResult>,
}

/// One head-to-head match between two entries.
#[derive(Debug, Clone, PartialEq)]
pub struct H2HResult {
    pub id: i64,
    pub entry_1_entry: i64,
    pub entry_1_name: String,
    pub entry_1_player_name: String,
    pub entry_1_points: i64,
    pub entry_1_win: i64,
    pub entry_1_draw: i64,
    pub entry_1_loss: i64,
    pub entry_1_total: i64,
    pub entry_2_entry: i64,
    pub entry_2_name: String,
    pub entry_2_player_name: String,
    pub entry_2_points: i64,
    pub entry_2_win: i64,
    pub entry_2_draw: i64,
    pub entry_2_loss: i64,
    pub entry_2_total: i64,
    pub is_knockout: bool,
    pub league: i64,
    pub winner: JsonValue,
    pub seed_value: JsonValue,
    pub event: i64,
    pub tiebreak: JsonValue,
    pub is_bye: bool,
    pub knockout_name: String,
}

} // verus!
