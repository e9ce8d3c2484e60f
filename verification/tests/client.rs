//! Exercises the client's snapshot cache and the derived lookup queries on
//! in-memory snapshots.

use fpl_rs::models::bootstrap_static::{
    BootstrapStatic, Event, GameSettings, Player, Team,
};
use fpl_rs::models::json::JsonValue;
use fpl_rs::Fpl;
use fpl_rs::fpl_error::{FplError, FplErrorKind};

fn make_team(id: i64, name: &str) -> Team {
    Team {
        code: 0,
        draw: 0,
        form: JsonValue::Null,
        id: id,
        loss: 0,
        name: name.to_string(),
        played: 0,
        points: 0,
        position: 0,
        short_name: String::new(),
        strength: 0,
        team_division: JsonValue::Null,
        unavailable: false,
        win: 0,
        strength_overall_home: 0,
        strength_overall_away: 0,
        strength_attack_home: 0,
        strength_attack_away: 0,
        strength_defence_home: 0,
        strength_defence_away: 0,
        pulse_id: 0,
    }
}

fn make_player(id: i64) -> Player {
    Player {
        chance_of_playing_next_round: None,
        chance_of_playing_this_round: None,
        code: 0,
        cost_change_event: 0,
        cost_change_event_fall: 0,
        cost_change_start: 0,
        cost_change_start_fall: 0,
        dreamteam_count: 0,
        element_type: 0,
        ep_next: String::new(),
        ep_this: String::new(),
        event_points: 0,
        first_name: String::new(),
        form: String::new(),
        id: id,
        in_dreamteam: false,
        news: String::new(),
        news_added: None,
        now_cost: 0,
        photo: String::new(),
        points_per_game: String::new(),
        second_name: String::new(),
        selected_by_percent: String::new(),
        special: false,
        squad_number: JsonValue::Null,
        status: String::new(),
        team: 0,
        team_code: 0,
        total_points: 0,
        transfers_in: 0,
        transfers_in_event: 0,
        transfers_out: 0,
        transfers_out_event: 0,
        value_form: String::new(),
        value_season: String::new(),
        web_name: String::new(),
        minutes: 0,
        goals_scored: 0,
        assists: 0,
        clean_sheets: 0,
        goals_conceded: 0,
        own_goals: 0,
        penalties_saved: 0,
        penalties_missed: 0,
        yellow_cards: 0,
        red_cards: 0,
        saves: 0,
        bonus: 0,
        bps: 0,
        influence: String::new(),
        creativity: String::new(),
        threat: String::new(),
        ict_index: String::new(),
        starts: 0,
        expected_goals: String::new(),
        expected_assists: String::new(),
        expected_goal_involvements: String::new(),
        expected_goals_conceded: String::new(),
        influence_rank: 0,
        influence_rank_type: 0,
        creativity_rank: 0,
        creativity_rank_type: 0,
        threat_rank: 0,
        threat_rank_type: 0,
        ict_index_rank: 0,
        ict_index_rank_type: 0,
        corners_and_indirect_freekicks_order: None,
        corners_and_indirect_freekicks_text: String::new(),
        direct_freekicks_order: None,
        direct_freekicks_text: String::new(),
        penalties_order: None,
        penalties_text: String::new(),
        expected_goals_per_90: String::new(),
        saves_per_90: String::new(),
        expected_assists_per_90: String::new(),
        expected_goal_involvements_per_90: String::new(),
        expected_goals_conceded_per_90: String::new(),
        goals_conceded_per_90: String::new(),
        now_cost_rank: 0,
        now_cost_rank_type: 0,
        form_rank: 0,
        form_rank_type: 0,
        points_per_game_rank: 0,
        points_per_game_rank_type: 0,
        selected_rank: 0,
        selected_rank_type: 0,
        starts_per_90: String::new(),
        clean_sheets_per_90: String::new(),
    }
}

fn make_event(id: i64) -> Event {
    Event {
        id: id,
        name: String::new(),
        deadline_time: String::new(),
        average_entry_score: 0,
        finished: false,
        data_checked: false,
        highest_scoring_entry: None,
        deadline_time_epoch: 0,
        deadline_time_game_offset: 0,
        highest_score: None,
        is_previous: false,
        is_current: false,
        is_next: false,
        cup_leagues_created: false,
        h2h_ko_matches_created: false,
        chip_plays: Vec::new(),
        most_selected: None,
        most_transferred_in: None,
        top_element: None,
        top_element_info: None,
        transfers_made: 0,
        most_captained: None,
        most_vice_captained: None,
    }
}

fn make_game_settings() -> GameSettings {
    GameSettings {
        league_join_private_max: 0,
        league_join_public_max: 0,
        league_max_size_public_classic: 0,
        league_max_size_public_h2h: 0,
        league_max_size_private_h2h: 0,
        league_max_ko_rounds_private_h2h: 0,
        league_prefix_public: String::new(),
        league_points_h2h_win: 0,
        league_points_h2h_lose: 0,
        league_points_h2h_draw: 0,
        league_ko_first_instead_of_random: false,
        cup_start_event_id: JsonValue::Null,
        cup_stop_event_id: JsonValue::Null,
        cup_qualifying_method: JsonValue::Null,
        cup_type: JsonValue::Null,
        squad_squadplay: 0,
        squad_squadsize: 0,
        squad_team_limit: 0,
        squad_total_spend: 0,
        ui_currency_multiplier: 0,
        ui_use_special_shirts: false,
        ui_special_shirt_exclusions: Vec::new(),
        stats_form_days: 0,
        sys_vice_captain_enabled: false,
        transfers_cap: 0,
        transfers_sell_on_fee: String::new(),
        league_h2h_tiebreak_stats: Vec::new(),
        timezone: String::new(),
    }
}


fn make_snapshot(teams: Vec<Team>, players: Vec<Player>, events: Vec<Event>) -> BootstrapStatic {
    BootstrapStatic {
        events,
        game_settings: make_game_settings(),
        phases: Vec::new(),
        teams,
        total_players: 0,
        elements: players,
        element_stats: Vec::new(),
        element_types: Vec::new(),
    }
}

/// A populated client holding twenty teams, a few players and gameweeks.
fn ready_client() -> Fpl {
    let names = [
        "Arsenal",
        "Aston Villa",
        "Bournemouth",
        "Brentford",
        "Brighton",
        "Burnley",
        "Chelsea",
        "Crystal Palace",
        "Everton",
        "Fulham",
        "Liverpool",
        "Luton",
        "Man City",
        "Man Utd",
        "Newcastle",
        "Nott'm Forest",
        "Sheffield Utd",
        "Spurs",
        "West Ham",
        "Wolves",
    ];
    let mut teams: Vec<Team> = Vec::new();
    for (i, name) in names.iter().enumerate() {
        teams.push(make_team(i as i64 + 1, name));
    }
    let players = vec![make_player(100), make_player(200), make_player(300)];
    let events = vec![make_event(1), make_event(2), make_event(3)];
    let mut fpl = Fpl::new();
    let installed = fpl.install_snapshot(Ok(make_snapshot(teams, players, events)));
    assert!(installed.is_ok());
    fpl
}

#[test]
fn fresh_client_has_no_snapshot() {
    let fpl = Fpl::new();
    assert!(!fpl.has_snapshot());
}

#[test]
fn failed_fetch_leaves_slot_empty_and_retry_succeeds() {
    let mut fpl = Fpl::new();
    let failure = FplError::new(
        FplErrorKind::TransportFailure,
        "https://fantasy.premierleague.com/api/bootstrap-static/".to_string(),
        "connection refused".to_string(),
    );
    let r = fpl.install_snapshot(Err(failure));
    match r {
        Err(e) => assert!(matches!(e.kind, FplErrorKind::TransportFailure)),
        Ok(_) => panic!("a failed fetch must be handed back"),
    }
    assert!(!fpl.has_snapshot());
    let retry = fpl.install_snapshot(Ok(make_snapshot(
        vec![make_team(1, "Arsenal")],
        Vec::new(),
        Vec::new(),
    )));
    assert!(retry.is_ok());
    assert!(fpl.has_snapshot());
}

#[test]
fn test_get_bootstrap_static() {
    let fpl = ready_client();
    let bootstrap_static = fpl.get_bootstrap_static();
    assert!(bootstrap_static.teams.len() > 0);
}

#[test]
fn test_get_all_teams() {
    let fpl = ready_client();
    let teams = fpl.get_all_teams();
    assert!(teams.len() == 20);
}

#[test]
fn test_get_teams() {
    let fpl = ready_client();
    let teams = fpl.get_teams(vec![1, 2]);
    assert!(teams.len() == 2);
    assert_eq!(teams[0].id, 1);
    assert_eq!(teams[1].id, 2);
}

#[test]
fn test_get_team() {
    let fpl = ready_client();
    let team = fpl.get_team(2).unwrap();
    assert!(team.name == "Aston Villa");
}

#[test]
fn empty_id_set_selects_every_team() {
    let fpl = ready_client();
    let all = fpl.get_all_teams();
    let selected = fpl.get_teams(Vec::new());
    assert_eq!(all.len(), selected.len());
    for (a, s) in all.iter().zip(selected.iter()) {
        assert_eq!(a, s);
    }
}

#[test]
fn absent_team_id_yields_none_not_failure() {
    let fpl = ready_client();
    assert!(fpl.get_team(999).is_none());
}

#[test]
fn missing_ids_are_omitted_without_error() {
    let fpl = ready_client();
    let teams = fpl.get_teams(vec![3, 999]);
    assert_eq!(teams.len(), 1);
    assert_eq!(teams[0].id, 3);
}

#[test]
fn duplicate_ids_resolve_to_first_in_snapshot_order() {
    let mut teams = vec![make_team(7, "First"), make_team(7, "Second")];
    teams.push(make_team(8, "Third"));
    let mut fpl = Fpl::new();
    fpl.install_snapshot(Ok(make_snapshot(teams, Vec::new(), Vec::new())))
        .unwrap();
    let team = fpl.get_team(7).unwrap();
    assert_eq!(team.name, "First");
}

#[test]
fn repeated_accessor_calls_return_identical_data() {
    let fpl = ready_client();
    let first = fpl.get_all_teams();
    let second = fpl.get_all_teams();
    assert_eq!(first, second);
    assert_eq!(fpl.get_team(5), fpl.get_team(5));
    assert_eq!(fpl.get_players(vec![100, 300]), fpl.get_players(vec![100, 300]));
    assert!(fpl.has_snapshot());
}

#[test]
fn test_get_all_players() {
    let fpl = ready_client();
    let players = fpl.get_all_players();
    assert_eq!(players.len(), 3);
}

#[test]
fn test_get_player() {
    let fpl = ready_client();
    let player = fpl.get_player(200).unwrap();
    assert_eq!(player.id, 200);
    assert!(fpl.get_player(201).is_none());
}

#[test]
fn test_get_players() {
    let fpl = ready_client();
    let players = fpl.get_players(vec![100, 300]);
    assert_eq!(players.len(), 2);
    assert_eq!(players[0].id, 100);
    assert_eq!(players[1].id, 300);
    let everyone = fpl.get_players(Vec::new());
    assert_eq!(everyone.len(), 3);
}

#[test]
fn test_get_static_gameweek() {
    let fpl = ready_client();
    let gameweek_id = 2;
    let static_gameweek = fpl.get_static_gameweek(gameweek_id).unwrap();
    assert!(static_gameweek.id == gameweek_id);
    assert!(fpl.get_static_gameweek(99).is_none());
}

#[test]
fn test_get_static_gameweeks() {
    let fpl = ready_client();
    let gameweeks = fpl.get_static_gameweeks();
    assert_eq!(gameweeks.len(), 3);
    assert_eq!(gameweeks[0].id, 1);
}

#[test]
fn snapshot_with_untyped_fields_round_trips() {
    let mut team = make_team(1, "Arsenal");
    team.form = JsonValue::Text("WWDLW".to_string());
    team.team_division = JsonValue::Int(1);
    let mut fpl = Fpl::new();
    fpl.install_snapshot(Ok(make_snapshot(vec![team], Vec::new(), Vec::new())))
        .unwrap();
    let got = fpl.get_team(1).unwrap();
    assert!(!got.form.is_null());
    assert_eq!(got.form, JsonValue::Text("WWDLW".to_string()));
    assert_eq!(got.team_division, JsonValue::Int(1));
}

#[test]
fn player_display_text_is_exact() {
    let mut player = make_player(233);
    player.first_name = "Erling".to_string();
    player.second_name = "Haaland".to_string();
    assert_eq!(player.display_text(), "<id: 233, name: Erling Haaland>");
}
