//! A typed, verified client core for a read-only fantasy-football statistics
//! API.
//!
//! The crate holds everything that can be reasoned about without a network:
//! the decimal rendering of ids, the endpoint URLs, the classification of a
//! request's outcome into a failure taxonomy, the memoized static snapshot on
//! the client, the derived lookup queries over that snapshot, and the two-hop
//! fixture resolution.  An unverified shell around the crate performs the
//! actual HTTP requests and JSON decoding and feeds the results into these
//! functions.

pub mod digits;
pub mod endpoints;
pub mod fetch;
pub mod fpl_error;
pub mod laws;
pub mod models;
pub mod queries;
pub mod resolver;

use crate::fpl_error::FplError;
use crate::models::bootstrap_static::{
    spec_events_view, BootstrapStatic, Event, Player, Players, Team,
};
use crate::queries::{
    find_index_with_key, ids_contain, lemma_first_with_key_at, lemma_first_with_key_none,
    spec_first_with_key, spec_selected, Keyed,
};
use vstd::prelude::*;

verus! {

/// The client.
///
/// It owns the snapshot slot: the static reference dataset is fetched at most
/// once in the client's lifetime, on the first call that needs it, and every
/// derived accessor then reads the stored copy.  The slot is the client's only
/// mutable state; the accessors themselves never change it.
#[derive(Debug)]
pub struct Fpl {
    /// The static dataset, absent until the first operation that needs it
    /// has fetched it.
    bootstrap_static: Option<BootstrapStatic>,
}

impl Fpl {
    /// The snapshot slot.
    pub closed spec fn snapshot(self) -> Option<BootstrapStatic> {
        self.bootstrap_static
    }

    /// Whether the snapshot has been fetched and stored.
    pub open spec fn ready(self) -> bool {
        self.snapshot() is Some
    }

    /// The stored snapshot's teams.
    pub open spec fn spec_teams(self) -> Seq<Team>
        recommends
            self.ready(),
    {
        self.snapshot().unwrap().teams@
    }

    /// The stored snapshot's players.
    pub open spec fn spec_players(self) -> Seq<Player>
        recommends
            self.ready(),
    {
        self.snapshot().unwrap().elements@
    }

    /// The stored snapshot's gameweek summaries.
    pub open spec fn spec_events(self) -> Seq<Event>
        recommends
            self.ready(),
    {
        self.snapshot().unwrap().events@
    }

    /// A fresh client: no snapshot yet.
    pub fn new() -> (r: Fpl)
        ensures
            !r.ready(),
    {
        Fpl { bootstrap_static: None }
    }

    /// Whether a snapshot is already stored, so that no fetch is needed.
    pub fn has_snapshot(&self) -> (r: bool)
        ensures
            r == self.ready(),
    {
        match &self.bootstrap_static {
            Some(_) => true,
            None => false,
        }
    }

    /// Stores the outcome of the one static-dataset fetch.
    ///
    /// On success the slot transitions from empty to populated and stays so
    /// for the client's lifetime.  On failure the slot stays empty — never
    /// partial data — and the failure is handed back, so the next call may
    /// retry.
    pub fn install_snapshot(&mut self, fetched: Result<BootstrapStatic, FplError>) -> (r: Result<
        (),
        FplError,
    >)
        requires
            !old(self).ready(),
        ensures
            (fetched matches Ok(s) ==> final(self).snapshot() == Some(s) && r == Result::<
                (),
                FplError,
            >::Ok(())),
            (fetched matches Err(e) ==> !final(self).ready() && r == Result::<(), FplError>::Err(
                e,
            )),
    {
        match fetched {
            Ok(s) => {
                self.bootstrap_static = Some(s);
                Ok(())
            },
            Err(e) => Err(e),
        }
    }

    /// The stored snapshot, whole.
    pub fn get_bootstrap_static(&self) -> (r: BootstrapStatic)
        requires
            self.ready(),
        ensures
            r@ == self.snapshot().unwrap()@,
    {
        self.bootstrap_static.as_ref().unwrap().clone()
    }

    /// Every team, in snapshot order.
    pub fn get_all_teams(&self) -> (r: Vec<Team>)
        requires
            self.ready(),
        ensures
            r@ == self.spec_teams(),
    {
        let r = self.bootstrap_static.as_ref().unwrap().teams.clone();
        proof {
            assert forall|i: int| 0 <= i < self.spec_teams().len() implies r@[i]
                == self.spec_teams()[i] by {
                assert(cloned::<Team>(self.spec_teams()[i], r@[i]));
            }
            assert(r@ =~= self.spec_teams());
        }
        r
    }

    /// The first team with the given id, or an explicit absent result (never
    /// a failure) when no team has it.
    pub fn get_team(&self, team_id: i64) -> (r: Option<Team>)
        requires
            self.ready(),
        ensures
            r == spec_first_with_key(self.spec_teams(), team_id),
    {
        let teams = &self.bootstrap_static.as_ref().unwrap().teams;
        match find_index_with_key(teams, team_id) {
            Some(i) => {
                proof {
                    lemma_first_with_key_at(teams@, team_id, i as int);
                }
                Some(teams[i].clone())
            },
            None => {
                proof {
                    lemma_first_with_key_none(teams@, team_id);
                }
                None
            },
        }
    }

    /// The teams whose ids are members of `team_ids`, in snapshot order, ids
    /// without a match silently omitted; an empty `team_ids` asks for every
    /// team.
    pub fn get_teams(&self, team_ids: Vec<i64>) -> (r: Vec<Team>)
        requires
            self.ready(),
        ensures
            r@ == spec_selected(self.spec_teams(), team_ids@),
    {
        if team_ids.len() == 0 {
            return self.get_all_teams();
        }
        let teams = &self.bootstrap_static.as_ref().unwrap().teams;
        let ghost pred = |t: Team| team_ids@.contains(t.key());
        let mut out: Vec<Team> = Vec::new();
        let mut i: usize = 0;
        while i < teams.len()
            invariant
                i <= teams@.len(),
                out@ == teams@.take(i as int).filter(pred),
                pred == (|t: Team| team_ids@.contains(t.key())),
            decreases teams@.len() - i,
        {
            let ghost prefix = teams@.take(i as int);
            let ghost next = teams@.take(i + 1 as int);
            if ids_contain(&team_ids, teams[i].read_key()) {
                out.push(teams[i].clone());
            }
            proof {
                assert(next.drop_last() =~= prefix);
                assert(next.last() == teams@[i as int]);
                reveal_with_fuel(Seq::filter, 2);
                if pred(teams@[i as int]) {
                    assert(next.filter(pred) == prefix.filter(pred).push(teams@[i as int]));
                    assert(out@ =~= next.filter(pred));
                } else {
                    assert(next.filter(pred) == prefix.filter(pred));
                }
            }
            i = i + 1;
        }
        proof {
            assert(teams@.take(teams@.len() as int) =~= teams@);
        }
        out
    }

    /// Every player, in snapshot order.
    pub fn get_all_players(&self) -> (r: Players)
        requires
            self.ready(),
        ensures
            r@ == self.spec_players(),
    {
        let r = self.bootstrap_static.as_ref().unwrap().elements.clone();
        proof {
            assert forall|i: int| 0 <= i < self.spec_players().len() implies r@[i]
                == self.spec_players()[i] by {
                assert(cloned::<Player>(self.spec_players()[i], r@[i]));
            }
            assert(r@ =~= self.spec_players());
        }
        r
    }

    /// The first player with the given id, or an explicit absent result
    /// (never a failure) when no player has it.
    pub fn get_player(&self, player_id: i64) -> (r: Option<Player>)
        requires
            self.ready(),
        ensures
            r == spec_first_with_key(self.spec_players(), player_id),
    {
        let players = &self.bootstrap_static.as_ref().unwrap().elements;
        match find_index_with_key(players, player_id) {
            Some(i) => {
                proof {
                    lemma_first_with_key_at(players@, player_id, i as int);
                }
                Some(players[i].clone())
            },
            None => {
                proof {
                    lemma_first_with_key_none(players@, player_id);
                }
                None
            },
        }
    }

    /// The players whose ids are members of `player_ids`, in snapshot order,
    /// ids without a match silently omitted; an empty `player_ids` asks for
    /// every player.
    pub fn get_players(&self, player_ids: Vec<i64>) -> (r: Players)
        requires
            self.ready(),
        ensures
            r@ == spec_selected(self.spec_players(), player_ids@),
    {
        if player_ids.len() == 0 {
            return self.get_all_players();
        }
        let players = &self.bootstrap_static.as_ref().unwrap().elements;
        let ghost pred = |t: Player| player_ids@.contains(t.key());
        let mut out: Players = Vec::new();
        let mut i: usize = 0;
        while i < players.len()
            invariant
                i <= players@.len(),
                out@ == players@.take(i as int).filter(pred),
                pred == (|t: Player| player_ids@.contains(t.key())),
            decreases players@.len() - i,
        {
            let ghost prefix = players@.take(i as int);
            let ghost next = players@.take(i + 1 as int);
            if ids_contain(&player_ids, players[i].read_key()) {
                out.push(players[i].clone());
            }
            proof {
                assert(next.drop_last() =~= prefix);
                assert(next.last() == players@[i as int]);
                reveal_with_fuel(Seq::filter, 2);
                if pred(players@[i as int]) {
                    assert(next.filter(pred) == prefix.filter(pred).push(players@[i as int]));
                    assert(out@ =~= next.filter(pred));
                } else {
                    assert(next.filter(pred) == prefix.filter(pred));
                }
            }
            i = i + 1;
        }
        proof {
            assert(players@.take(players@.len() as int) =~= players@);
        }
        out
    }

    /// Every gameweek summary, in snapshot order.
    pub fn get_static_gameweeks(&self) -> (r: Vec<Event>)
        requires
            self.ready(),
        ensures
            spec_events_view(r@) == spec_events_view(self.spec_events()),
            r@.len() == self.spec_events().len(),
    {
        let r = self.bootstrap_static.as_ref().unwrap().events.clone();
        proof {
            assert forall|i: int| 0 <= i < self.spec_events().len() implies r@[i]@
                == self.spec_events()[i]@ by {
                assert(cloned::<Event>(self.spec_events()[i], r@[i]));
            }
            assert(spec_events_view(r@) =~= spec_events_view(self.spec_events()));
        }
        r
    }

    /// The first gameweek summary with the given id, or an explicit absent
    /// result (never a failure) when no gameweek has it.
    pub fn get_static_gameweek(&self, gameweek_id: i64) -> (r: Option<Event>)
        requires
            self.ready(),
        ensures
            (spec_first_with_key(self.spec_events(), gameweek_id) matches Some(e) ==> r matches Some(
                g,
            ) && g@ == e@),
            (spec_first_with_key(self.spec_events(), gameweek_id) is None ==> r is None),
    {
        let events = &self.bootstrap_static.as_ref().unwrap().events;
        match find_index_with_key(events, gameweek_id) {
            Some(i) => {
                proof {
                    lemma_first_with_key_at(events@, gameweek_id, i as int);
                }
                Some(events[i].clone())
            },
            None => {
                proof {
                    lemma_first_with_key_none(events@, gameweek_id);
                }
                None
            },
        }
    }
}

} // verus!
