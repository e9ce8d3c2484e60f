//! One transfer made by a user.

use vstd::prelude::*;

verus! {

/// A list of transfers.
pub type Transfers = Vec<Transfer>;

/// One transfer: a player in, a player out, and their costs.
#[derive(Debug, Clone, PartialEq)]
pub struct Transfer {
    pub element_in: i64,
    pub element_in_cost: i64,
    pub element_out: i64,
    pub element_out_cost: i64,
    pub entry: i64,
    pub event: i64,
    pub time: String,
}

} // verus!
