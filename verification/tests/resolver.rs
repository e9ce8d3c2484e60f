//! Exercises the two-hop fixture resolution on in-memory fixture lists.

use fpl_rs::fpl_error::FplErrorKind;
use fpl_rs::models::fixture::Fixture;
use fpl_rs::resolver::{resolve_gameweek, select_fixture};

fn make_fixture(id: i64, event: Option<i64>, team_h: i64, team_a: i64) -> Fixture {
    Fixture {
        code: 0,
        event,
        finished: false,
        finished_provisional: false,
        id,
        kickoff_time: None,
        minutes: 0,
        provisional_start_time: false,
        started: None,
        team_a,
        team_a_score: None,
        team_h,
        team_h_score: None,
        stats: Vec::new(),
        team_h_difficulty: 0,
        team_a_difficulty: 0,
        pulse_id: 0,
    }
}

#[test]
fn test_get_fixture() {
    // The unscoped list discovers the gameweek; the scoped list serves the
    // fixture itself.
    let all = vec![
        make_fixture(64, Some(14), 3, 4),
        make_fixture(65, Some(14), 14, 7),
        make_fixture(66, Some(15), 1, 2),
    ];
    let gameweek_id = resolve_gameweek(&all, 65).unwrap();
    assert_eq!(gameweek_id, 14);
    let scoped = vec![
        make_fixture(64, Some(14), 3, 4),
        make_fixture(65, Some(14), 14, 7),
    ];
    let fixture = select_fixture(&scoped, 65, gameweek_id).unwrap();
    assert!(fixture.team_h == 14);
    assert_eq!(fixture.id, 65);
}

#[test]
fn unassigned_fixture_fails_with_unresolved_gameweek() {
    let all = vec![make_fixture(65, None, 14, 7)];
    match resolve_gameweek(&all, 65) {
        Err(e) => {
            assert!(matches!(e.kind, FplErrorKind::UnresolvedGameweek));
            assert_eq!(e.endpoint, "https://fantasy.premierleague.com/api/fixtures/");
            assert_eq!(e.detail, "the fixture is not assigned to a gameweek");
        }
        Ok(_) => panic!("an unassigned fixture cannot be scoped"),
    }
}

#[test]
fn unknown_fixture_fails_with_unresolved_gameweek() {
    let all = vec![make_fixture(64, Some(14), 3, 4)];
    match resolve_gameweek(&all, 65) {
        Err(e) => {
            assert!(matches!(e.kind, FplErrorKind::UnresolvedGameweek));
            assert_eq!(e.detail, "no fixture has the requested id");
        }
        Ok(_) => panic!("an unknown fixture cannot be scoped"),
    }
}

#[test]
fn fixture_missing_from_its_gameweek_vanished() {
    let scoped = vec![make_fixture(64, Some(14), 3, 4)];
    match select_fixture(&scoped, 65, 14) {
        Err(e) => {
            assert!(matches!(e.kind, FplErrorKind::FixtureVanished));
            assert_eq!(
                e.endpoint,
                "https://fantasy.premierleague.com/api/fixtures/?event=14"
            );
        }
        Ok(_) => panic!("a vanished fixture is an anomaly, not a silent miss"),
    }
}

#[test]
fn agreeing_lists_return_the_same_record() {
    let record = make_fixture(65, Some(14), 14, 7);
    let all = vec![make_fixture(64, Some(14), 3, 4), record.clone()];
    let scoped = vec![record.clone()];
    let gameweek_id = resolve_gameweek(&all, 65).unwrap();
    let resolved = select_fixture(&scoped, 65, gameweek_id).unwrap();
    assert_eq!(resolved, record);
}

#[test]
fn resolution_picks_the_first_match_in_list_order() {
    let scoped = vec![
        make_fixture(65, Some(14), 1, 2),
        make_fixture(65, Some(14), 9, 9),
    ];
    let resolved = select_fixture(&scoped, 65, 14).unwrap();
    assert_eq!(resolved.team_h, 1);
}
