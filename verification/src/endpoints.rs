//! The fixed set of upstream endpoints, as fully-formed URLs.
//!
//! Every failure carries the endpoint it came from, so these strings are part
//! of the client's contract: each builder pins the exact URL it returns.

use crate::digits::{push_i64_text, spec_i64_text};
use vstd::prelude::*;
use vstd::string::StringExecFns;

verus! {

/// The common prefix of every upstream URL.
pub open spec fn spec_api_base() -> Seq<char> {
    "https://fantasy.premierleague.com/api/"@
}

/// The profile of one user.
pub open spec fn spec_user_endpoint(user_id: i64) -> Seq<char> {
    spec_api_base() + "entry/"@ + spec_i64_text(user_id as int) + "/"@
}

/// Every fixture, unscoped.
pub open spec fn spec_fixtures_endpoint() -> Seq<char> {
    spec_api_base() + "fixtures/"@
}

/// The fixtures of one gameweek.
pub open spec fn spec_gameweek_fixtures_endpoint(gameweek_id: i64) -> Seq<char> {
    spec_api_base() + "fixtures/?event="@ + spec_i64_text(gameweek_id as int)
}

/// Live per-player statistics for one gameweek.
pub open spec fn spec_live_gameweek_endpoint(gameweek_id: i64) -> Seq<char> {
    spec_api_base() + "event/"@ + spec_i64_text(gameweek_id as int) + "/live"@
}

/// The standings of one classic league.
pub open spec fn spec_classic_league_endpoint(league_id: i64) -> Seq<char> {
    spec_api_base() + "leagues-classic/"@ + spec_i64_text(league_id as int) + "/standings/"@
}

/// The results of one head-to-head league.
pub open spec fn spec_h2h_league_endpoint(league_id: i64) -> Seq<char> {
    spec_api_base() + "leagues-h2h-matches/league/"@ + spec_i64_text(league_id as int) + "/"@
}

/// One user's picks for one gameweek.
pub open spec fn spec_user_picks_endpoint(user_id: i64, gameweek_id: i64) -> Seq<char> {
    spec_api_base() + "entry/"@ + spec_i64_text(user_id as int) + "/event/"@ + spec_i64_text(
        gameweek_id as int,
    ) + "/picks/"@
}

/// The static reference snapshot.
pub open spec fn spec_bootstrap_static_endpoint() -> Seq<char> {
    spec_api_base() + "bootstrap-static/"@
}

/// The common prefix as an owned string.
fn api_base() -> (r: String)
    ensures
        r@ == spec_api_base(),
{
    String::from_str("https://fantasy.premierleague.com/api/")
}

/// URL of one user's profile.
pub fn user_endpoint(user_id: i64) -> (r: String)
    ensures
        r@ == spec_user_endpoint(user_id),
{
    let mut s = api_base();
    s.append("entry/");
    push_i64_text(&mut s, user_id);
    s.append("/");
    proof {
        assert(s@ =~= spec_user_endpoint(user_id));
    }
    s
}

/// URL of the unscoped fixture list.
pub fn fixtures_endpoint() -> (r: String)
    ensures
        r@ == spec_fixtures_endpoint(),
{
    let mut s = api_base();
    s.append("fixtures/");
    proof {
        assert(s@ =~= spec_fixtures_endpoint());
    }
    s
}

/// URL of one gameweek's fixture list.
pub fn gameweek_fixtures_endpoint(gameweek_id: i64) -> (r: String)
    ensures
        r@ == spec_gameweek_fixtures_endpoint(gameweek_id),
{
    let mut s = api_base();
    s.append("fixtures/?event=");
    push_i64_text(&mut s, gameweek_id);
    proof {
        assert(s@ =~= spec_gameweek_fixtures_endpoint(gameweek_id));
    }
    s
}

/// URL of one gameweek's live statistics.
pub fn live_gameweek_endpoint(gameweek_id: i64) -> (r: String)
    ensures
        r@ == spec_live_gameweek_endpoint(gameweek_id),
{
    let mut s = api_base();
    s.append("event/");
    push_i64_text(&mut s, gameweek_id);
    s.append("/live");
    proof {
        assert(s@ =~= spec_live_gameweek_endpoint(gameweek_id));
    }
    s
}

/// URL of one classic league's standings.
pub fn classic_league_endpoint(league_id: i64) -> (r: String)
    ensures
        r@ == spec_classic_league_endpoint(league_id),
{
    let mut s = api_base();
    s.append("leagues-classic/");
    push_i64_text(&mut s, league_id);
    s.append("/standings/");
    proof {
        assert(s@ =~= spec_classic_league_endpoint(league_id));
    }
    s
}

/// URL of one head-to-head league's results.
pub fn h2h_league_endpoint(league_id: i64) -> (r: String)
    ensures
        r@ == spec_h2h_league_endpoint(league_id),
{
    let mut s = api_base();
    s.append("leagues-h2h-matches/league/");
    push_i64_text(&mut s, league_id);
    s.append("/");
    proof {
        assert(s@ =~= spec_h2h_league_endpoint(league_id));
    }
    s
}

/// URL of one user's picks for one gameweek.
pub fn user_picks_endpoint(user_id: i64, gameweek_id: i64) -> (r: String)
    ensures
        r@ == spec_user_picks_endpoint(user_id, gameweek_id),
{
    let mut s = api_base();
    s.append("entry/");
    push_i64_text(&mut s, user_id);
    s.append("/event/");
    push_i64_text(&mut s, gameweek_id);
    s.append("/picks/");
    proof {
        assert(s@ =~= spec_user_picks_endpoint(user_id, gameweek_id));
    }
    s
}

/// URL of the static reference snapshot.
pub fn bootstrap_static_endpoint() -> (r: String)
    ensures
        r@ == spec_bootstrap_static_endpoint(),
{
    let mut s = api_base();
    s.append("bootstrap-static/");
    proof {
        assert(s@ =~= spec_bootstrap_static_endpoint());
    }
    s
}

} // verus!
