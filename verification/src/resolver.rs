//! Two-hop resolution of one fixture by id.
//!
//! The upstream surface has no "fetch one fixture" endpoint, so the lookup
//! runs in two steps: the unscoped fixture list is fetched only to discover
//! which gameweek the fixture belongs to, and the list scoped to that
//! gameweek is then searched for the fixture itself.  Both steps must succeed
//! and agree; a fixture found in step one but missing from its own gameweek's
//! list is an upstream consistency anomaly and is reported, never ignored.

use crate::endpoints::{
    fixtures_endpoint, gameweek_fixtures_endpoint, spec_fixtures_endpoint,
    spec_gameweek_fixtures_endpoint,
};
use crate::fpl_error::{FplError, FplErrorKind};
use crate::models::fixture::Fixture;
use crate::queries::{
    find_index_with_key, lemma_first_with_key_at, lemma_first_with_key_none, spec_first_with_key,
    Keyed,
};
use vstd::prelude::*;
use vstd::string::StringExecFns;

verus! {

/// The gameweek that the unscoped fixture list assigns to a fixture: absent
/// when no fixture has the id, or when the matching fixture carries no
/// gameweek reference.
pub open spec fn spec_gameweek_of(all_fixtures: Seq<Fixture>, fixture_id: i64) -> Option<i64> {
    match spec_first_with_key(all_fixtures, fixture_id) {
        Some(f) => f.event,
        None => None,
    }
}

/// Step one: discover, from the unscoped fixture list, which gameweek the
/// fixture belongs to.  When the fixture is absent, or present but not yet
/// assigned to a gameweek, the lookup cannot be scoped and fails with an
/// unresolved-gameweek error naming the unscoped endpoint.
pub fn resolve_gameweek(all_fixtures: &Vec<Fixture>, fixture_id: i64) -> (r: Result<i64, FplError>)
    ensures
        (spec_gameweek_of(all_fixtures@, fixture_id) matches Some(gw) ==> r == Result::<
            i64,
            FplError,
        >::Ok(gw)),
        (spec_gameweek_of(all_fixtures@, fixture_id) is None ==> (r matches Err(e) && e.kind
            == FplErrorKind::UnresolvedGameweek && e.endpoint@ == spec_fixtures_endpoint()
            && e.detail@ == spec_unresolved_detail(all_fixtures@, fixture_id))),
{
    match find_index_with_key(all_fixtures, fixture_id) {
        Some(i) => {
            proof {
                lemma_first_with_key_at(all_fixtures@, fixture_id, i as int);
            }
            match all_fixtures[i].event {
                Some(gw) => Ok(gw),
                None => {
                    proof {
                        reveal_strlit("the fixture is not assigned to a gameweek");
                        reveal_strlit("no fixture has the requested id");
                    }
                    Err(
                        FplError::new(
                            FplErrorKind::UnresolvedGameweek,
                            fixtures_endpoint(),
                            String::from_str("the fixture is not assigned to a gameweek"),
                        ),
                    )
                },
            }
        },
        None => {
            proof {
                lemma_first_with_key_none(all_fixtures@, fixture_id);
                reveal_strlit("the fixture is not assigned to a gameweek");
                reveal_strlit("no fixture has the requested id");
            }
            Err(
                FplError::new(
                    FplErrorKind::UnresolvedGameweek,
                    fixtures_endpoint(),
                    String::from_str("no fixture has the requested id"),
                ),
            )
        },
    }
}

/// The cause text of an unresolved-gameweek failure: it says whether the
/// fixture was missing altogether or merely unassigned.
pub open spec fn spec_unresolved_detail(all_fixtures: Seq<Fixture>, fixture_id: i64) -> Seq<char> {
    match spec_first_with_key(all_fixtures, fixture_id) {
        Some(_) => "the fixture is not assigned to a gameweek"@,
        None => "no fixture has the requested id"@,
    }
}

/// Step two: pick the fixture out of its own gameweek's list.  A fixture
/// that was present in the unscoped list but is absent here has vanished —
/// an upstream consistency anomaly reported with the scoped endpoint.
pub fn select_fixture(gameweek_fixtures: &Vec<Fixture>, fixture_id: i64, gameweek_id: i64) -> (r:
    Result<Fixture, FplError>)
    ensures
        (spec_first_with_key(gameweek_fixtures@, fixture_id) matches Some(f) ==> (r matches Ok(g)
            && g@ == f@ && g.id == fixture_id)),
        (spec_first_with_key(gameweek_fixtures@, fixture_id) is None ==> (r matches Err(e)
            && e.kind == FplErrorKind::FixtureVanished && e.endpoint@
            == spec_gameweek_fixtures_endpoint(gameweek_id) && e.detail@
            == "the fixture is missing from its own gameweek's list"@)),
{
    match find_index_with_key(gameweek_fixtures, fixture_id) {
        Some(i) => {
            proof {
                lemma_first_with_key_at(gameweek_fixtures@, fixture_id, i as int);
            }
            Ok(gameweek_fixtures[i].clone())
        },
        None => {
            proof {
                lemma_first_with_key_none(gameweek_fixtures@, fixture_id);
            }
            Err(
                FplError::new(
                    FplErrorKind::FixtureVanished,
                    gameweek_fixtures_endpoint(gameweek_id),
                    String::from_str("the fixture is missing from its own gameweek's list"),
                ),
            )
        },
    }
}

} // verus!
