//! One match record.
//!
//! A fixture is identified by an integer id and carries an optional gameweek
//! reference: a newly scheduled fixture may not yet be assigned to a
//! gameweek.

use vstd::prelude::*;

verus! {

/// A list of fixtures.
pub type Fixtures = Vec<Fixture>;

/// One match of the competition.
#[derive(Debug, PartialEq)]
pub struct Fixture {
    pub code: i64,
    pub event: Option<i64>,
    pub finished: bool,
    pub finished_provisional: bool,
    pub id: i64,
    pub kickoff_time: Option<String>,
    pub minutes: i64,
    pub provisional_start_time: bool,
    pub started: Option<bool>,
    pub team_a: i64,
    pub team_a_score: Option<i64>,
    pub team_h: i64,
    pub team_h_score: Option<i64>,
    pub stats: Vec<Stat>,
    pub team_h_difficulty: i64,
    pub team_a_difficulty: i64,
    pub pulse_id: i64,
}

/// The abstract state of a [`Fixture`].
#[verifier::ext_equal]
pub ghost struct FixtureView {
    pub code: i64,
    pub event: Option<i64>,
    pub finished: bool,
    pub finished_provisional: bool,
    pub id: i64,
    pub kickoff_time: Option<String>,
    pub minutes: i64,
    pub provisional_start_time: bool,
    pub started: Option<bool>,
    pub team_a: i64,
    pub team_a_score: Option<i64>,
    pub team_h: i64,
    pub team_h_score: Option<i64>,
    pub stats: Seq<StatView>,
    pub team_h_difficulty: i64,
    pub team_a_difficulty: i64,
    pub pulse_id: i64,
}

/// The views of a sequence of per-fixture statistics.
pub open spec fn spec_stats_view(s: Seq<Stat>) -> Seq<StatView> {
    s.map_values(|t: Stat| t@)
}

impl View for Fixture {
    type V = FixtureView;

    open spec fn view(&self) -> FixtureView {
        FixtureView {
            code: self.code,
            event: self.event,
            finished: self.finished,
            finished_provisional: self.finished_provisional,
            id: self.id,
            kickoff_time: self.kickoff_time,
            minutes: self.minutes,
            provisional_start_time: self.provisional_start_time,
            started: self.started,
            team_a: self.team_a,
            team_a_score: self.team_a_score,
            team_h: self.team_h,
            team_h_score: self.team_h_score,
            stats: spec_stats_view(self.stats@),
            team_h_difficulty: self.team_h_difficulty,
            team_a_difficulty: self.team_a_difficulty,
            pulse_id: self.pulse_id,
        }
    }
}

impl Clone for Fixture {
    fn clone(&self) -> (r: Self)
        ensures
            r@ == self@,
    {
        let r = Fixture {
            code: self.code,
            event: self.event,
            finished: self.finished,
            finished_provisional: self.finished_provisional,
            id: self.id,
            kickoff_time: clone_opt_string(&self.kickoff_time),
            minutes: self.minutes,
            provisional_start_time: self.provisional_start_time,
            started: self.started,
            team_a: self.team_a,
            team_a_score: self.team_a_score,
            team_h: self.team_h,
            team_h_score: self.team_h_score,
            stats: self.stats.clone(),
            team_h_difficulty: self.team_h_difficulty,
            team_a_difficulty: self.team_a_difficulty,
            pulse_id: self.pulse_id,
        };
        proof {
            assert forall|i: int| 0 <= i < self.stats@.len() implies r.stats@[i]@
                == self.stats@[i]@ by {
                assert(cloned::<Stat>(self.stats@[i], r.stats@[i]));
            }
            assert(spec_stats_view(r.stats@) =~= spec_stats_view(self.stats@));
            assert(r@ =~= self@);
        }
        r
    }
}

/// An optional string, cloned exactly.
fn clone_opt_string(s: &Option<String>) -> (r: Option<String>)
    ensures
        r == *s,
{
    match s {
        Some(t) => Some(t.clone()),
        None => None,
    }
}

/// One statistic of a fixture: its identifier and the contributing players
/// on each side.
#[derive(Debug, PartialEq)]
pub struct Stat {
    pub identifier: String,
    pub a: Vec<A>,
    pub h: Vec<H>,
}

/// The abstract state of a [`Stat`].
#[verifier::ext_equal]
pub ghost struct StatView {
    pub identifier: String,
    pub a: Seq<A>,
    pub h: Seq<H>,
}

impl View for Stat {
    type V = StatView;

    open spec fn view(&self) -> StatView {
        StatView { identifier: self.identifier, a: self.a@, h: self.h@ }
    }
}

impl Clone for Stat {
    fn clone(&self) -> (r: Self)
        ensures
            r@ == self@,
    {
        let r = Stat { identifier: self.identifier.clone(), a: self.a.clone(), h: self.h.clone() };
        proof {
            assert forall|i: int| 0 <= i < self.a@.len() implies r.a@[i] == self.a@[i] by {
                assert(cloned::<A>(self.a@[i], r.a@[i]));
            }
            assert(r.a@ =~= self.a@);
            assert forall|i: int| 0 <= i < self.h@.len() implies r.h@[i] == self.h@[i] by {
                assert(cloned::<H>(self.h@[i], r.h@[i]));
            }
            assert(r.h@ =~= self.h@);
            assert(r@ =~= self@);
        }
        r
    }
}

/// One away-side contribution to a fixture statistic.
#[derive(Debug, Clone, Copy, PartialEq, Eq)]
pub struct A {
    pub value: i64,
    pub element: i64,
}

/// One home-side contribution to a fixture statistic.
#[derive(Debug, Clone, Copy, PartialEq, Eq)]
pub struct H {
    pub value: i64,
    pub element: i64,
}

} // verus!
