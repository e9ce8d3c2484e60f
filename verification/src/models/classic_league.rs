//! The standings of one classic league.

use crate::models::json::JsonValue;
use vstd::prelude::*;

verus! {

/// One classic league with its standings page.
#[derive(Debug, Clone, PartialEq)]
pub struct ClassicLeague {
    pub new_entries: NewEntries,
    pub last_updated_data: String,
    pub league: League,
    pub standings: Standings,
}

/// The page of entries that joined recently.
#[derive(Debug, Clone, PartialEq)]
pub struct NewEntries {
    pub has_next: bool,
    pub page: i64,
    pub results: Vec<JsonValue>,
}

/// The league's own description.
#[derive(Debug, Clone, PartialEq)]
pub struct League {
    pub id: i64,
    pub name: String,
    pub created: String,
    pub closed: bool,
    pub max_entries: JsonValue,
    pub league_type: String,
    pub scoring: String,
    pub admin_entry: i64,
    pub start_event: i64,
    pub code_privacy: String,
    pub has_cup: bool,
    pub cup_league: JsonValue,
    pub rank: JsonValue,
}

/// One page of league standings.
#[derive(Debug, Clone, PartialEq)]
pub struct Standings {
    pub has_next: bool,
    pub page: i64,
    pub results: Vec<ClassicResult>,
}

/// One row of a classic league's standings.
#[derive(Debug, Clone, PartialEq)]
pub struct ClassicResult {
    pub id: i64,
    pub event_total: i64,
    pub player_name: String,
    pub rank: i64,
    pub last_rank: i64,
    pub rank_sort: i64,
    pub total: i64,
    pub entry: i64,
    pub entry_name: String,
}

} // verus!
