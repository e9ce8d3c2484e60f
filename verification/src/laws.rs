//! The laws of the client, stated and proved once for all inputs.
//!
//! Each proof function here records a property that relates several of the
//! crate's operations, over the same spec functions that those operations'
//! own contracts use.

use crate::fpl_error::FplError;
use crate::models::bootstrap_static::BootstrapStatic;
use crate::models::fixture::Fixture;
use crate::models::user::User;
use crate::queries::{
    lemma_first_with_key_matches, spec_first_with_key, spec_selected, spec_with_keys, Keyed,
};
use crate::resolver::spec_gameweek_of;
use crate::Fpl;
use vstd::prelude::*;

verus! {

/// There is a record with the given id.
pub open spec fn spec_has_key<T: Keyed>(s: Seq<T>, id: i64) -> bool {
    exists|i: int| 0 <= i < s.len() && s[i].key() == id
}

/// No two records share an id.
pub open spec fn spec_distinct_keys<T: Keyed>(s: Seq<T>) -> bool {
    forall|i: int, j: int| 0 <= i < j < s.len() ==> s[i].key() != s[j].key()
}

/// Law: the fetch pipeline never rewrites a decoded record.  Whatever the
/// decode gate may return for a successfully decoded user record whose id
/// field is the requested id — and the profile endpoint is keyed by that id —
/// is that record, so the returned id equals the requested one.
pub proof fn lemma_get_user_returns_requested_id(
    endpoint: &str,
    user_id: i64,
    u: User,
    r: Result<User, FplError>,
)
    requires
        u.id == user_id,
        call_ensures(
            crate::fetch::accept_decoded::<User>,
            (endpoint, Result::<User, String>::Ok(u)),
            r,
        ),
    ensures
        r matches Ok(got) && got.id == user_id,
{
}

/// The snapshot slot after a sequence of snapshot-backed calls on one client.
/// `outcomes[i]` is what the upstream would have returned had the `i`th call
/// fetched; a call fetches only when the slot is still empty, keeps the slot
/// empty on a failed fetch, and stores the dataset on a successful one.
pub open spec fn spec_slot_after(outcomes: Seq<Result<BootstrapStatic, FplError>>) -> Option<
    BootstrapStatic,
>
    decreases outcomes.len(),
{
    if outcomes.len() == 0 {
        None
    } else {
        let prev = spec_slot_after(outcomes.drop_last());
        if prev is Some {
            prev
        } else {
            match outcomes.last() {
                Ok(s) => Some(s),
                Err(_) => None,
            }
        }
    }
}

/// How many of those calls actually fetched: exactly the calls that found the
/// slot empty.
pub open spec fn spec_fetches_made(outcomes: Seq<Result<BootstrapStatic, FplError>>) -> nat
    decreases outcomes.len(),
{
    if outcomes.len() == 0 {
        0
    } else {
        spec_fetches_made(outcomes.drop_last()) + (if spec_slot_after(outcomes.drop_last()) is Some {
            0nat
        } else {
            1nat
        })
    }
}

/// Law: once the slot is populated it never changes and no later call
/// fetches, however many calls follow and whatever the upstream would have
/// answered them.
pub proof fn lemma_populated_slot_is_stable(
    outcomes: Seq<Result<BootstrapStatic, FplError>>,
    i: int,
    j: int,
)
    requires
        0 <= i <= j <= outcomes.len(),
        spec_slot_after(outcomes.take(i)) is Some,
    ensures
        spec_slot_after(outcomes.take(j)) == spec_slot_after(outcomes.take(i)),
        spec_fetches_made(outcomes.take(j)) == spec_fetches_made(outcomes.take(i)),
    decreases j - i,
{
    if i < j {
        lemma_populated_slot_is_stable(outcomes, i, j - 1);
        assert(outcomes.take(j).drop_last() =~= outcomes.take(j - 1));
    }
}

/// Law (retry without poison): failed fetches leave the slot empty rather
/// than storing partial data or a failed state, so every later call tries
/// again — a run of failures makes one fetch per call.
pub proof fn lemma_failed_fetches_leave_slot_empty(
    outcomes: Seq<Result<BootstrapStatic, FplError>>,
)
    requires
        forall|i: int| 0 <= i < outcomes.len() ==> outcomes[i] is Err,
    ensures
        spec_slot_after(outcomes) is None,
        spec_fetches_made(outcomes) == outcomes.len(),
    decreases outcomes.len(),
{
    if outcomes.len() > 0 {
        assert(forall|i: int|
            0 <= i < outcomes.drop_last().len() ==> outcomes.drop_last()[i] is Err);
        lemma_failed_fetches_leave_slot_empty(outcomes.drop_last());
    }
}

/// Law (single flight, sequentially): when the first call's fetch succeeds,
/// every later call observes that same snapshot and the whole sequence made
/// exactly one fetch.
pub proof fn lemma_single_flight(outcomes: Seq<Result<BootstrapStatic, FplError>>)
    requires
        outcomes.len() >= 1,
        outcomes[0] is Ok,
    ensures
        spec_slot_after(outcomes) == Some(outcomes[0]->Ok_0),
        spec_fetches_made(outcomes) == 1,
{
    assert(outcomes.take(1).drop_last() =~= outcomes.take(0));
    assert(outcomes.take(1).last() == outcomes[0]);
    assert(outcomes.take(0).len() == 0);
    assert(spec_slot_after(outcomes.take(0)) is None);
    assert(spec_fetches_made(outcomes.take(0)) == 0);
    assert(spec_slot_after(outcomes.take(1)) == Some(outcomes[0]->Ok_0));
    assert(spec_fetches_made(outcomes.take(1)) == 1);
    lemma_populated_slot_is_stable(outcomes, 1, outcomes.len() as int);
    assert(outcomes.take(outcomes.len() as int) =~= outcomes);
}

/// Law: a fresh client whose first snapshot-backed call fetches successfully
/// is ready, made exactly one fetch, and serves every team of that snapshot —
/// whatever other accessor calls follow.
pub proof fn lemma_fresh_client_single_fetch(
    outcomes: Seq<Result<BootstrapStatic, FplError>>,
    snap: BootstrapStatic,
    c: Fpl,
)
    requires
        outcomes.len() >= 1,
        outcomes[0] == Result::<BootstrapStatic, FplError>::Ok(snap),
        c.snapshot() == spec_slot_after(outcomes),
    ensures
        c.ready(),
        spec_fetches_made(outcomes) == 1,
        c.spec_teams() == snap.teams@,
{
    lemma_single_flight(outcomes);
}

/// Law (idempotence): every snapshot-backed accessor's result is a function
/// of the stored snapshot alone.  Between two calls on one client only shared
/// borrows and failed installs can occur — a second install is ruled out by
/// `install_snapshot`'s precondition — so the snapshot is the same value and
/// the calls return identical data.
pub proof fn lemma_accessors_idempotent(
    before: Fpl,
    after: Fpl,
    team_id: i64,
    player_id: i64,
    gameweek_id: i64,
    team_ids: Seq<i64>,
    player_ids: Seq<i64>,
)
    requires
        before.ready(),
        before.snapshot() == after.snapshot(),
    ensures
        spec_first_with_key(after.spec_teams(), team_id) == spec_first_with_key(
            before.spec_teams(),
            team_id,
        ),
        spec_first_with_key(after.spec_players(), player_id) == spec_first_with_key(
            before.spec_players(),
            player_id,
        ),
        spec_first_with_key(after.spec_events(), gameweek_id) == spec_first_with_key(
            before.spec_events(),
            gameweek_id,
        ),
        spec_selected(after.spec_teams(), team_ids) == spec_selected(before.spec_teams(), team_ids),
        spec_selected(after.spec_players(), player_ids) == spec_selected(
            before.spec_players(),
            player_ids,
        ),
        after.spec_teams() == before.spec_teams(),
        after.spec_players() == before.spec_players(),
        after.spec_events() == before.spec_events(),
{
}

/// Law: an empty id set asks for the whole collection, so a by-ids request
/// with no ids selects exactly what a get-all request returns.
pub proof fn lemma_empty_selection_is_everything<T: Keyed>(s: Seq<T>)
    ensures
        spec_selected(s, Seq::<i64>::empty()) == s,
{
}

/// The number of records a two-id request selects: one per id that is
/// present, when no two records share an id.
proof fn lemma_pair_filter_len<T: Keyed>(s: Seq<T>, a: i64, b: i64)
    requires
        a != b,
        spec_distinct_keys(s),
    ensures
        spec_with_keys(s, seq![a, b]).len() == (if spec_has_key(s, a) {
            1int
        } else {
            0int
        }) + (if spec_has_key(s, b) {
            1int
        } else {
            0int
        }),
    decreases s.len(),
{
    reveal(Seq::filter);
    let ids = seq![a, b];
    let pred = |t: T| ids.contains(t.key());
    if s.len() == 0 {
        assert(!spec_has_key(s, a));
        assert(!spec_has_key(s, b));
    } else {
        let prefix = s.drop_last();
        let last = s.last();
        assert(spec_distinct_keys(prefix)) by {
            assert(forall|i: int| 0 <= i < prefix.len() ==> prefix[i] == s[i]);
        }
        lemma_pair_filter_len(prefix, a, b);
        // How presence in `s` splits between the prefix and the last record.
        assert(spec_has_key(s, a) == (spec_has_key(prefix, a) || last.key() == a)) by {
            if spec_has_key(prefix, a) {
                let i = choose|i: int| 0 <= i < prefix.len() && prefix[i].key() == a;
                assert(s[i].key() == a);
            }
            if spec_has_key(s, a) && last.key() != a {
                let i = choose|i: int| 0 <= i < s.len() && s[i].key() == a;
                assert(prefix[i].key() == a);
            }
        }
        assert(spec_has_key(s, b) == (spec_has_key(prefix, b) || last.key() == b)) by {
            if spec_has_key(prefix, b) {
                let i = choose|i: int| 0 <= i < prefix.len() && prefix[i].key() == b;
                assert(s[i].key() == b);
            }
            if spec_has_key(s, b) && last.key() != b {
                let i = choose|i: int| 0 <= i < s.len() && s[i].key() == b;
                assert(prefix[i].key() == b);
            }
        }
        // With distinct ids, an id carried by the last record is in no
        // earlier one.
        if last.key() == a {
            assert(!spec_has_key(prefix, a)) by {
                if spec_has_key(prefix, a) {
                    let i = choose|i: int| 0 <= i < prefix.len() && prefix[i].key() == a;
                    assert(s[i].key() == s[s.len() - 1].key());
                }
            }
        }
        if last.key() == b {
            assert(!spec_has_key(prefix, b)) by {
                if spec_has_key(prefix, b) {
                    let i = choose|i: int| 0 <= i < prefix.len() && prefix[i].key() == b;
                    assert(s[i].key() == s[s.len() - 1].key());
                }
            }
        }
        assert(ids.contains(last.key()) == (last.key() == a || last.key() == b)) by {
            if ids.contains(last.key()) {
                let i = choose|i: int| 0 <= i < ids.len() && ids[i] == last.key();
            }
            assert(ids[0] == a && ids[1] == b);
        }
        assert(spec_with_keys(s, ids) == if pred(last) {
            spec_with_keys(prefix, ids).push(last)
        } else {
            spec_with_keys(prefix, ids)
        });
    }
}

/// Law: a two-id request with distinct, present ids returns exactly two
/// records, one carrying each id.
pub proof fn lemma_selected_pair<T: Keyed>(s: Seq<T>, a: i64, b: i64)
    requires
        a != b,
        spec_distinct_keys(s),
        spec_has_key(s, a),
        spec_has_key(s, b),
    ensures
        spec_selected(s, seq![a, b]).len() == 2,
        ({
            let r = spec_selected(s, seq![a, b]);
            (r[0].key() == a && r[1].key() == b) || (r[0].key() == b && r[1].key() == a)
        }),
{
    let ids = seq![a, b];
    let pred = |t: T| ids.contains(t.key());
    let r = spec_selected(s, ids);
    assert(ids.len() == 2);
    lemma_pair_filter_len(s, a, b);
    assert(r.len() == 2);
    // Each selected record carries one of the two ids.
    assert forall|k: int| 0 <= k < r.len() implies r[k].key() == a || r[k].key() == b by {
        s.lemma_filter_pred(pred, k);
        let i = choose|i: int| 0 <= i < ids.len() && ids[i] == r[k].key();
        assert(ids[0] == a && ids[1] == b);
    }
    // The record with each id is among the selected ones.
    let ia = choose|i: int| 0 <= i < s.len() && s[i].key() == a;
    assert(ids.contains(s[ia].key())) by {
        assert(ids[0] == a);
    }
    s.lemma_filter_contains(pred, ia);
    let ka = choose|k: int| 0 <= k < r.len() && r[k] == s[ia];
    let ib = choose|i: int| 0 <= i < s.len() && s[i].key() == b;
    assert(ids.contains(s[ib].key())) by {
        assert(ids[1] == b);
    }
    s.lemma_filter_contains(pred, ib);
    let kb = choose|k: int| 0 <= k < r.len() && r[k] == s[ib];
    assert(r[ka].key() == a);
    assert(r[kb].key() == b);
}

/// Law: a fixture that the unscoped list knows but does not assign to a
/// gameweek cannot be scoped, so the resolver's first step reports it as
/// unresolvable rather than guessing.
pub proof fn lemma_unassigned_fixture_is_unresolvable(all_fixtures: Seq<Fixture>, fixture_id: i64)
    requires
        spec_first_with_key(all_fixtures, fixture_id) matches Some(f) && f.event is None,
    ensures
        spec_gameweek_of(all_fixtures, fixture_id) is None,
{
}

/// Law: when the two fetched representations of a fixture agree, the record
/// the resolver returns carries the requested id and the team and score
/// fields of the unscoped representation.
pub proof fn lemma_agreeing_lists_resolve_consistently(
    all_fixtures: Seq<Fixture>,
    gameweek_fixtures: Seq<Fixture>,
    fixture_id: i64,
)
    requires
        spec_first_with_key(all_fixtures, fixture_id) is Some,
        spec_first_with_key(gameweek_fixtures, fixture_id) is Some,
        spec_first_with_key(gameweek_fixtures, fixture_id).unwrap()@ == spec_first_with_key(
            all_fixtures,
            fixture_id,
        ).unwrap()@,
    ensures
        ({
            let unscoped = spec_first_with_key(all_fixtures, fixture_id).unwrap();
            let resolved = spec_first_with_key(gameweek_fixtures, fixture_id).unwrap();
            resolved.id == fixture_id && resolved.team_h == unscoped.team_h && resolved.team_a
                == unscoped.team_a && resolved.team_h_score == unscoped.team_h_score
                && resolved.team_a_score == unscoped.team_a_score
        }),
{
    lemma_first_with_key_matches(gameweek_fixtures, fixture_id);
    let unscoped = spec_first_with_key(all_fixtures, fixture_id).unwrap();
    let resolved = spec_first_with_key(gameweek_fixtures, fixture_id).unwrap();
    assert(resolved@.team_h == unscoped@.team_h);
    assert(resolved@.team_a == unscoped@.team_a);
    assert(resolved@.team_h_score == unscoped@.team_h_score);
    assert(resolved@.team_a_score == unscoped@.team_a_score);
}

} // verus!
