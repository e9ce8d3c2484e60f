//! Lookup by id over the snapshot's record lists.
//!
//! Three shapes recur over teams, players and gameweek summaries: all records,
//! the first record with a given id, and the records whose ids are in a given
//! set (an empty set standing for the whole collection).  Duplicate ids are
//! not rejected: a by-id lookup returns the first match in list order.

use crate::models::bootstrap_static::{Event, Player, Team};
use crate::models::fixture::Fixture;
use vstd::prelude::*;

verus! {

/// A record identified by an integer id.
pub trait Keyed: Sized {
    /// The record's id.
    spec fn key(self) -> i64;

    /// Reads the record's id.
    fn read_key(&self) -> (r: i64)
        ensures
            r == self.key(),
    ;
}

/// The first record with the given id, in list order.
pub open spec fn spec_first_with_key<T: Keyed>(s: Seq<T>, id: i64) -> Option<T>
    decreases s.len(),
{
    if s.len() == 0 {
        None
    } else if s[0].key() == id {
        Some(s[0])
    } else {
        spec_first_with_key(s.drop_first(), id)
    }
}

/// The records whose ids are members of `ids`, in list order.
pub open spec fn spec_with_keys<T: Keyed>(s: Seq<T>, ids: Seq<i64>) -> Seq<T> {
    s.filter(|t: T| ids.contains(t.key()))
}

/// What a by-ids request selects: everything for an empty id set (a
/// whole-collection request, not "no matches"), else the members.
pub open spec fn spec_selected<T: Keyed>(s: Seq<T>, ids: Seq<i64>) -> Seq<T> {
    if ids.len() == 0 {
        s
    } else {
        spec_with_keys(s, ids)
    }
}

/// There is no record with the given id before position `i`.
pub open spec fn spec_no_key_before<T: Keyed>(s: Seq<T>, id: i64, i: int) -> bool {
    forall|j: int| 0 <= j < i ==> s[j].key() != id
}

/// A first match at index `i` is what `spec_first_with_key` returns.
pub proof fn lemma_first_with_key_at<T: Keyed>(s: Seq<T>, id: i64, i: int)
    requires
        0 <= i < s.len(),
        s[i].key() == id,
        spec_no_key_before(s, id, i),
    ensures
        spec_first_with_key(s, id) == Some(s[i]),
    decreases i,
{
    if i == 0 {
    } else {
        lemma_first_with_key_at(s.drop_first(), id, i - 1);
    }
}

/// Without a match there is nothing to return.
pub proof fn lemma_first_with_key_none<T: Keyed>(s: Seq<T>, id: i64)
    requires
        spec_no_key_before(s, id, s.len() as int),
    ensures
        spec_first_with_key(s, id) is None,
    decreases s.len(),
{
    if s.len() > 0 {
        assert(spec_no_key_before(s.drop_first(), id, s.len() - 1));
        lemma_first_with_key_none(s.drop_first(), id);
    }
}

/// What a by-id lookup returns always carries the requested id.
pub proof fn lemma_first_with_key_matches<T: Keyed>(s: Seq<T>, id: i64)
    requires
        spec_first_with_key(s, id) is Some,
    ensures
        spec_first_with_key(s, id).unwrap().key() == id,
    decreases s.len(),
{
    if s.len() == 0 {
    } else if s[0].key() == id {
    } else {
        lemma_first_with_key_matches(s.drop_first(), id);
    }
}

/// The position of the first record with the given id, if any.
pub fn find_index_with_key<T: Keyed>(items: &Vec<T>, id: i64) -> (r: Option<usize>)
    ensures
        match r {
            Some(i) => i < items@.len() && items@[i as int].key() == id && spec_no_key_before(
                items@,
                id,
                i as int,
            ),
            None => spec_no_key_before(items@, id, items@.len() as int),
        },
{
    let mut i: usize = 0;
    while i < items.len()
        invariant
            i <= items@.len(),
            spec_no_key_before(items@, id, i as int),
        decreases items@.len() - i,
    {
        if items[i].read_key() == id {
            return Some(i);
        }
        i = i + 1;
    }
    None
}

/// Whether `ids` contains `id`.
pub fn ids_contain(ids: &Vec<i64>, id: i64) -> (r: bool)
    ensures
        r == ids@.contains(id),
{
    let mut i: usize = 0;
    while i < ids.len()
        invariant
            i <= ids@.len(),
            forall|j: int| 0 <= j < i ==> ids@[j] != id,
        decreases ids@.len() - i,
    {
        if ids[i] == id {
            return true;
        }
        i = i + 1;
    }
    false
}

impl Keyed for Team {
    open spec fn key(self) -> i64 {
        self.id
    }

    fn read_key(&self) -> i64 {
        self.id
    }
}

impl Keyed for Player {
    open spec fn key(self) -> i64 {
        self.id
    }

    fn read_key(&self) -> i64 {
        self.id
    }
}

impl Keyed for Event {
    open spec fn key(self) -> i64 {
        self.id
    }

    fn read_key(&self) -> i64 {
        self.id
    }
}

impl Keyed for Fixture {
    open spec fn key(self) -> i64 {
        self.id
    }

    fn read_key(&self) -> i64 {
        self.id
    }
}

} // verus!
