//! The league memberships carried inside a user's profile.

use crate::models::json::JsonValue;
use vstd::prelude::*;

verus! {

/// Every league a user belongs to.
#[derive(Debug, Clone, PartialEq)]
pub struct Leagues {
    pub classic: Vec<Classic>,
    pub h2h: Vec<JsonValue>,
    pub cup: Cup,
    pub cup_matches: Vec<JsonValue>,
}

/// One classic league membership.
#[derive(Debug, Clone, PartialEq)]
pub struct Classic {
    pub id: i64,
    pub name: String,
    pub short_name: Option<String>,
    pub created: String,
    pub closed: bool,
    pub rank: JsonValue,
    pub max_entries: JsonValue,
    pub league_type: String,
    pub scoring: String,
    pub admin_entry: Option<i64>,
    pub start_event: i64,
    pub entry_can_leave: bool,
    pub entry_can_admin: bool,
    pub entry_can_invite: bool,
    pub has_cup: bool,
    pub cup_league: JsonValue,
    pub cup_qualified: JsonValue,
    pub entry_rank: i64,
    pub entry_last_rank: i64,
}

/// A user's cup participation.
#[derive(Debug, Clone, PartialEq)]
pub struct Cup {
    pub matches: Vec<JsonValue>,
    pub status: Status,
    pub cup_league: JsonValue,
}

/// The qualification status of a user's cup.
#[derive(Debug, Clone, PartialEq)]
pub struct Status {
    pub qualification_event: JsonValue,
    pub qualification_numbers: JsonValue,
    pub qualification_rank: JsonValue,
    pub qualification_state: JsonValue,
}

} // verus!
