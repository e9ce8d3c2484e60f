//! The static reference snapshot and the records inside it.
//!
//! The snapshot is fetched at most once per client lifetime and every derived
//! accessor reads through it.  Each record with a `Vec` field carries a view
//! (a ghost mirror with sequences in place of vectors), so that a clone can
//! promise it preserves the record's whole abstract state.

use crate::digits::{push_i64_text, spec_i64_text};
use crate::models::json::JsonValue;
use vstd::prelude::*;
use vstd::string::StringExecFns;

verus! {

/// The players of the competition.
pub type Players = Vec<Player>;

/// The whole static reference dataset.
#[derive(Debug, PartialEq)]
pub struct BootstrapStatic {
    pub events: Vec<Event>,
    pub game_settings: GameSettings,
    pub phases: Vec<Phase>,
    pub teams: Vec<Team>,
    pub total_players: i64,
    pub elements: Players,
    pub element_stats: Vec<PlayerStat>,
    pub element_types: Vec<PlayerType>,
}

/// The abstract state of a [`BootstrapStatic`].
#[verifier::ext_equal]
pub ghost struct BootstrapStaticView {
    pub events: Seq<EventView>,
    pub game_settings: GameSettingsView,
    pub phases: Seq<Phase>,
    pub teams: Seq<Team>,
    pub total_players: i64,
    pub elements: Seq<Player>,
    pub element_stats: Seq<PlayerStat>,
    pub element_types: Seq<PlayerTypeView>,
}

/// The views of a sequence of gameweek summaries.
pub open spec fn spec_events_view(s: Seq<Event>) -> Seq<EventView> {
    s.map_values(|e: Event| e@)
}

/// The views of a sequence of player-position types.
pub open spec fn spec_player_types_view(s: Seq<PlayerType>) -> Seq<PlayerTypeView> {
    s.map_values(|t: PlayerType| t@)
}

impl View for BootstrapStatic {
    type V = BootstrapStaticView;

    open spec fn view(&self) -> BootstrapStaticView {
        BootstrapStaticView {
            events: spec_events_view(self.events@),
            game_settings: self.game_settings@,
            phases: self.phases@,
            teams: self.teams@,
            total_players: self.total_players,
            elements: self.elements@,
            element_stats: self.element_stats@,
            element_types: spec_player_types_view(self.element_types@),
        }
    }
}

impl Clone for BootstrapStatic {
    fn clone(&self) -> (r: Self)
        ensures
            r@ == self@,
    {
        let r = BootstrapStatic {
            events: self.events.clone(),
            game_settings: self.game_settings.clone(),
            phases: self.phases.clone(),
            teams: self.teams.clone(),
            total_players: self.total_players,
            elements: self.elements.clone(),
            element_stats: self.element_stats.clone(),
            element_types: self.element_types.clone(),
        };
        proof {
            assert forall|i: int| 0 <= i < self.events@.len() implies r.events@[i]@
                == self.events@[i]@ by {
                assert(cloned::<Event>(self.events@[i], r.events@[i]));
            }
            assert(spec_events_view(r.events@) =~= spec_events_view(self.events@));
            assert forall|i: int| 0 <= i < self.phases@.len() implies r.phases@[i]
                == self.phases@[i] by {
                assert(cloned::<Phase>(self.phases@[i], r.phases@[i]));
            }
            assert(r.phases@ =~= self.phases@);
            assert forall|i: int| 0 <= i < self.teams@.len() implies r.teams@[i]
                == self.teams@[i] by {
                assert(cloned::<Team>(self.teams@[i], r.teams@[i]));
            }
            assert(r.teams@ =~= self.teams@);
            assert forall|i: int| 0 <= i < self.elements@.len() implies r.elements@[i]
                == self.elements@[i] by {
                assert(cloned::<Player>(self.elements@[i], r.elements@[i]));
            }
            assert(r.elements@ =~= self.elements@);
            assert forall|i: int| 0 <= i < self.element_stats@.len() implies r.element_stats@[i]
                == self.element_stats@[i] by {
                assert(cloned::<PlayerStat>(self.element_stats@[i], r.element_stats@[i]));
            }
            assert(r.element_stats@ =~= self.element_stats@);
            assert forall|i: int| 0 <= i < self.element_types@.len() implies r.element_types@[i]@
                == self.element_types@[i]@ by {
                assert(cloned::<PlayerType>(self.element_types@[i], r.element_types@[i]));
            }
            assert(spec_player_types_view(r.element_types@) =~= spec_player_types_view(
                self.element_types@,
            ));
            assert(r@ =~= self@);
        }
        r
    }
}

/// One gameweek's summary inside the snapshot.
#[derive(Debug, PartialEq)]
pub struct Event {
    pub id: i64,
    pub name: String,
    pub deadline_time: String,
    pub average_entry_score: i64,
    pub finished: bool,
    pub data_checked: bool,
    pub highest_scoring_entry: Option<i64>,
    pub deadline_time_epoch: i64,
    pub deadline_time_game_offset: i64,
    pub highest_score: Option<i64>,
    pub is_previous: bool,
    pub is_current: bool,
    pub is_next: bool,
    pub cup_leagues_created: bool,
    pub h2h_ko_matches_created: bool,
    pub chip_plays: Vec<ChipPlay>,
    pub most_selected: Option<i64>,
    pub most_transferred_in: Option<i64>,
    pub top_element: Option<i64>,
    pub top_element_info: Option<TopPlayerInfo>,
    pub transfers_made: i64,
    pub most_captained: Option<i64>,
    pub most_vice_captained: Option<i64>,
}

/// The abstract state of an [`Event`].
#[verifier::ext_equal]
pub ghost struct EventView {
    pub id: i64,
    pub name: String,
    pub deadline_time: String,
    pub average_entry_score: i64,
    pub finished: bool,
    pub data_checked: bool,
    pub highest_scoring_entry: Option<i64>,
    pub deadline_time_epoch: i64,
    pub deadline_time_game_offset: i64,
    pub highest_score: Option<i64>,
    pub is_previous: bool,
    pub is_current: bool,
    pub is_next: bool,
    pub cup_leagues_created: bool,
    pub h2h_ko_matches_created: bool,
    pub chip_plays: Seq<ChipPlay>,
    pub most_selected: Option<i64>,
    pub most_transferred_in: Option<i64>,
    pub top_element: Option<i64>,
    pub top_element_info: Option<TopPlayerInfo>,
    pub transfers_made: i64,
    pub most_captained: Option<i64>,
    pub most_vice_captained: Option<i64>,
}

impl View for Event {
    type V = EventView;

    open spec fn view(&self) -> EventView {
        EventView {
            id: self.id,
            name: self.name,
            deadline_time: self.deadline_time,
            average_entry_score: self.average_entry_score,
            finished: self.finished,
            data_checked: self.data_checked,
            highest_scoring_entry: self.highest_scoring_entry,
            deadline_time_epoch: self.deadline_time_epoch,
            deadline_time_game_offset: self.deadline_time_game_offset,
            highest_score: self.highest_score,
            is_previous: self.is_previous,
            is_current: self.is_current,
            is_next: self.is_next,
            cup_leagues_created: self.cup_leagues_created,
            h2h_ko_matches_created: self.h2h_ko_matches_created,
            chip_plays: self.chip_plays@,
            most_selected: self.most_selected,
            most_transferred_in: self.most_transferred_in,
            top_element: self.top_element,
            top_element_info: self.top_element_info,
            transfers_made: self.transfers_made,
            most_captained: self.most_captained,
            most_vice_captained: self.most_vice_captained,
        }
    }
}

impl Clone for Event {
    fn clone(&self) -> (r: Self)
        ensures
            r@ == self@,
    {
        let r = Event {
            id: self.id,
            name: self.name.clone(),
            deadline_time: self.deadline_time.clone(),
            average_entry_score: self.average_entry_score,
            finished: self.finished,
            data_checked: self.data_checked,
            highest_scoring_entry: self.highest_scoring_entry,
            deadline_time_epoch: self.deadline_time_epoch,
            deadline_time_game_offset: self.deadline_time_game_offset,
            highest_score: self.highest_score,
            is_previous: self.is_previous,
            is_current: self.is_current,
            is_next: self.is_next,
            cup_leagues_created: self.cup_leagues_created,
            h2h_ko_matches_created: self.h2h_ko_matches_created,
            chip_plays: self.chip_plays.clone(),
            most_selected: self.most_selected,
            most_transferred_in: self.most_transferred_in,
            top_element: self.top_element,
            top_element_info: self.top_element_info,
            transfers_made: self.transfers_made,
            most_captained: self.most_captained,
            most_vice_captained: self.most_vice_captained,
        };
        proof {
            assert forall|i: int| 0 <= i < self.chip_plays@.len() implies r.chip_plays@[i]
                == self.chip_plays@[i] by {
                assert(cloned::<ChipPlay>(self.chip_plays@[i], r.chip_plays@[i]));
            }
            assert(r.chip_plays@ =~= self.chip_plays@);
            assert(r@ =~= self@);
        }
        r
    }
}

/// How often one chip was played in a gameweek.
#[derive(Debug, PartialEq)]
pub struct ChipPlay {
    pub chip_name: String,
    pub num_played: i64,
}

impl Clone for ChipPlay {
    fn clone(&self) -> (r: Self)
        ensures
            r == *self,
    {
        ChipPlay { chip_name: self.chip_name.clone(), num_played: self.num_played }
    }
}

/// The best-scoring player of a gameweek.
#[derive(Debug, Clone, Copy, PartialEq, Eq)]
pub struct TopPlayerInfo {
    pub id: i64,
    pub points: i64,
}

/// The competition-wide rule settings.
#[derive(Debug, PartialEq)]
pub struct GameSettings {
    pub league_join_private_max: i64,
    pub league_join_public_max: i64,
    pub league_max_size_public_classic: i64,
    pub league_max_size_public_h2h: i64,
    pub league_max_size_private_h2h: i64,
    pub league_max_ko_rounds_private_h2h: i64,
    pub league_prefix_public: String,
    pub league_points_h2h_win: i64,
    pub league_points_h2h_lose: i64,
    pub league_points_h2h_draw: i64,
    pub league_ko_first_instead_of_random: bool,
    pub cup_start_event_id: JsonValue,
    pub cup_stop_event_id: JsonValue,
    pub cup_qualifying_method: JsonValue,
    pub cup_type: JsonValue,
    pub squad_squadplay: i64,
    pub squad_squadsize: i64,
    pub squad_team_limit: i64,
    pub squad_total_spend: i64,
    pub ui_currency_multiplier: i64,
    pub ui_use_special_shirts: bool,
    pub ui_special_shirt_exclusions: Vec<JsonValue>,
    pub stats_form_days: i64,
    pub sys_vice_captain_enabled: bool,
    pub transfers_cap: i64,
    pub transfers_sell_on_fee: String,
    pub league_h2h_tiebreak_stats: Vec<String>,
    pub timezone: String,
}

/// The abstract state of a [`GameSettings`].
#[verifier::ext_equal]
pub ghost struct GameSettingsView {
    pub league_join_private_max: i64,
    pub league_join_public_max: i64,
    pub league_max_size_public_classic: i64,
    pub league_max_size_public_h2h: i64,
    pub league_max_size_private_h2h: i64,
    pub league_max_ko_rounds_private_h2h: i64,
    pub league_prefix_public: String,
    pub league_points_h2h_win: i64,
    pub league_points_h2h_lose: i64,
    pub league_points_h2h_draw: i64,
    pub league_ko_first_instead_of_random: bool,
    pub cup_start_event_id: JsonValue,
    pub cup_stop_event_id: JsonValue,
    pub cup_qualifying_method: JsonValue,
    pub cup_type: JsonValue,
    pub squad_squadplay: i64,
    pub squad_squadsize: i64,
    pub squad_team_limit: i64,
    pub squad_total_spend: i64,
    pub ui_currency_multiplier: i64,
    pub ui_use_special_shirts: bool,
    pub ui_special_shirt_exclusions: Seq<JsonValue>,
    pub stats_form_days: i64,
    pub sys_vice_captain_enabled: bool,
    pub transfers_cap: i64,
    pub transfers_sell_on_fee: String,
    pub league_h2h_tiebreak_stats: Seq<String>,
    pub timezone: String,
}

impl View for GameSettings {
    type V = GameSettingsView;

    open spec fn view(&self) -> GameSettingsView {
        GameSettingsView {
            league_join_private_max: self.league_join_private_max,
            league_join_public_max: self.league_join_public_max,
            league_max_size_public_classic: self.league_max_size_public_classic,
            league_max_size_public_h2h: self.league_max_size_public_h2h,
            league_max_size_private_h2h: self.league_max_size_private_h2h,
            league_max_ko_rounds_private_h2h: self.league_max_ko_rounds_private_h2h,
            league_prefix_public: self.league_prefix_public,
            league_points_h2h_win: self.league_points_h2h_win,
            league_points_h2h_lose: self.league_points_h2h_lose,
            league_points_h2h_draw: self.league_points_h2h_draw,
            league_ko_first_instead_of_random: self.league_ko_first_instead_of_random,
            cup_start_event_id: self.cup_start_event_id,
            cup_stop_event_id: self.cup_stop_event_id,
            cup_qualifying_method: self.cup_qualifying_method,
            cup_type: self.cup_type,
            squad_squadplay: self.squad_squadplay,
            squad_squadsize: self.squad_squadsize,
            squad_team_limit: self.squad_team_limit,
            squad_total_spend: self.squad_total_spend,
            ui_currency_multiplier: self.ui_currency_multiplier,
            ui_use_special_shirts: self.ui_use_special_shirts,
            ui_special_shirt_exclusions: self.ui_special_shirt_exclusions@,
            stats_form_days: self.stats_form_days,
            sys_vice_captain_enabled: self.sys_vice_captain_enabled,
            transfers_cap: self.transfers_cap,
            transfers_sell_on_fee: self.transfers_sell_on_fee,
            league_h2h_tiebreak_stats: self.league_h2h_tiebreak_stats@,
            timezone: self.timezone,
        }
    }
}

impl Clone for GameSettings {
    fn clone(&self) -> (r: Self)
        ensures
            r@ == self@,
    {
        let r = GameSettings {
            league_join_private_max: self.league_join_private_max,
            league_join_public_max: self.league_join_public_max,
            league_max_size_public_classic: self.league_max_size_public_classic,
            league_max_size_public_h2h: self.league_max_size_public_h2h,
            league_max_size_private_h2h: self.league_max_size_private_h2h,
            league_max_ko_rounds_private_h2h: self.league_max_ko_rounds_private_h2h,
            league_prefix_public: self.league_prefix_public.clone(),
            league_points_h2h_win: self.league_points_h2h_win,
            league_points_h2h_lose: self.league_points_h2h_lose,
            league_points_h2h_draw: self.league_points_h2h_draw,
            league_ko_first_instead_of_random: self.league_ko_first_instead_of_random,
            cup_start_event_id: self.cup_start_event_id.clone(),
            cup_stop_event_id: self.cup_stop_event_id.clone(),
            cup_qualifying_method: self.cup_qualifying_method.clone(),
            cup_type: self.cup_type.clone(),
            squad_squadplay: self.squad_squadplay,
            squad_squadsize: self.squad_squadsize,
            squad_team_limit: self.squad_team_limit,
            squad_total_spend: self.squad_total_spend,
            ui_currency_multiplier: self.ui_currency_multiplier,
            ui_use_special_shirts: self.ui_use_special_shirts,
            ui_special_shirt_exclusions: self.ui_special_shirt_exclusions.clone(),
            stats_form_days: self.stats_form_days,
            sys_vice_captain_enabled: self.sys_vice_captain_enabled,
            transfers_cap: self.transfers_cap,
            transfers_sell_on_fee: self.transfers_sell_on_fee.clone(),
            league_h2h_tiebreak_stats: self.league_h2h_tiebreak_stats.clone(),
            timezone: self.timezone.clone(),
        };
        proof {
            assert forall|i: int|
                0 <= i < self.ui_special_shirt_exclusions@.len() implies r.ui_special_shirt_exclusions@[i] == self.ui_special_shirt_exclusions@[i] by {
                assert(cloned::<JsonValue>(
                    self.ui_special_shirt_exclusions@[i],
                    r.ui_special_shirt_exclusions@[i],
                ));
            }
            assert(r.ui_special_shirt_exclusions@ =~= self.ui_special_shirt_exclusions@);
            assert forall|i: int|
                0 <= i < self.league_h2h_tiebreak_stats@.len() implies r.league_h2h_tiebreak_stats@[i] == self.league_h2h_tiebreak_stats@[i] by {
                assert(cloned::<String>(
                    self.league_h2h_tiebreak_stats@[i],
                    r.league_h2h_tiebreak_stats@[i],
                ));
            }
            assert(r.league_h2h_tiebreak_stats@ =~= self.league_h2h_tiebreak_stats@);
            assert(r@ =~= self@);
        }
        r
    }
}

/// One scheduling phase of the competition.
#[derive(Debug, PartialEq)]
pub struct Phase {
    pub id: i64,
    pub name: String,
    pub start_event: i64,
    pub stop_event: i64,
}

impl Clone for Phase {
    fn clone(&self) -> (r: Self)
        ensures
            r == *self,
    {
        Phase {
            id: self.id,
            name: self.name.clone(),
            start_event: self.start_event,
            stop_event: self.stop_event,
        }
    }
}

/// One team of the competition.
#[derive(Debug, PartialEq)]
pub struct Team {
    pub code: i64,
    pub draw: i64,
    pub form: JsonValue,
    pub id: i64,
    pub loss: i64,
    pub name: String,
    pub played: i64,
    pub points: i64,
    pub position: i64,
    pub short_name: String,
    pub strength: i64,
    pub team_division: JsonValue,
    pub unavailable: bool,
    pub win: i64,
    pub strength_overall_home: i64,
    pub strength_overall_away: i64,
    pub strength_attack_home: i64,
    pub strength_attack_away: i64,
    pub strength_defence_home: i64,
    pub strength_defence_away: i64,
    pub pulse_id: i64,
}

impl Clone for Team {
    fn clone(&self) -> (r: Self)
        ensures
            r == *self,
    {
        Team {
            code: self.code,
            draw: self.draw,
            form: self.form.clone(),
            id: self.id,
            loss: self.loss,
            name: self.name.clone(),
            played: self.played,
            points: self.points,
            position: self.position,
            short_name: self.short_name.clone(),
            strength: self.strength,
            team_division: self.team_division.clone(),
            unavailable: self.unavailable,
            win: self.win,
            strength_overall_home: self.strength_overall_home,
            strength_overall_away: self.strength_overall_away,
            strength_attack_home: self.strength_attack_home,
            strength_attack_away: self.strength_attack_away,
            strength_defence_home: self.strength_defence_home,
            strength_defence_away: self.strength_defence_away,
            pulse_id: self.pulse_id,
        }
    }
}

/// One player of the competition.
#[derive(Debug, PartialEq)]
pub struct Player {
    pub chance_of_playing_next_round: Option<i64>,
    pub chance_of_playing_this_round: Option<i64>,
    pub code: i64,
    pub cost_change_event: i64,
    pub cost_change_event_fall: i64,
    pub cost_change_start: i64,
    pub cost_change_start_fall: i64,
    pub dreamteam_count: i64,
    pub element_type: i64,
    pub ep_next: String,
    pub ep_this: String,
    pub event_points: i64,
    pub first_name: String,
    pub form: String,
    pub id: i64,
    pub in_dreamteam: bool,
    pub news: String,
    pub news_added: Option<String>,
    pub now_cost: i64,
    pub photo: String,
    pub points_per_game: String,
    pub second_name: String,
    pub selected_by_percent: String,
    pub special: bool,
    pub squad_number: JsonValue,
    pub status: String,
    pub team: i64,
    pub team_code: i64,
    pub total_points: i64,
    pub transfers_in: i64,
    pub transfers_in_event: i64,
    pub transfers_out: i64,
    pub transfers_out_event: i64,
    pub value_form: String,
    pub value_season: String,
    pub web_name: String,
    pub minutes: i64,
    pub goals_scored: i64,
    pub assists: i64,
    pub clean_sheets: i64,
    pub goals_conceded: i64,
    pub own_goals: i64,
    pub penalties_saved: i64,
    pub penalties_missed: i64,
    pub yellow_cards: i64,
    pub red_cards: i64,
    pub saves: i64,
    pub bonus: i64,
    pub bps: i64,
    pub influence: String,
    pub creativity: String,
    pub threat: String,
    pub ict_index: String,
    pub starts: i64,
    pub expected_goals: String,
    pub expected_assists: String,
    pub expected_goal_involvements: String,
    pub expected_goals_conceded: String,
    pub influence_rank: i64,
    pub influence_rank_type: i64,
    pub creativity_rank: i64,
    pub creativity_rank_type: i64,
    pub threat_rank: i64,
    pub threat_rank_type: i64,
    pub ict_index_rank: i64,
    pub ict_index_rank_type: i64,
    pub corners_and_indirect_freekicks_order: Option<i64>,
    pub corners_and_indirect_freekicks_text: String,
    pub direct_freekicks_order: Option<i64>,
    pub direct_freekicks_text: String,
    pub penalties_order: Option<i64>,
    pub penalties_text: String,
    pub expected_goals_per_90: String,
    pub saves_per_90: String,
    pub expected_assists_per_90: String,
    pub expected_goal_involvements_per_90: String,
    pub expected_goals_conceded_per_90: String,
    pub goals_conceded_per_90: String,
    pub now_cost_rank: i64,
    pub now_cost_rank_type: i64,
    pub form_rank: i64,
    pub form_rank_type: i64,
    pub points_per_game_rank: i64,
    pub points_per_game_rank_type: i64,
    pub selected_rank: i64,
    pub selected_rank_type: i64,
    pub starts_per_90: String,
    pub clean_sheets_per_90: String,
}

impl Clone for Player {
    fn clone(&self) -> (r: Self)
        ensures
            r == *self,
    {
        Player {
            chance_of_playing_next_round: self.chance_of_playing_next_round,
            chance_of_playing_this_round: self.chance_of_playing_this_round,
            code: self.code,
            cost_change_event: self.cost_change_event,
            cost_change_event_fall: self.cost_change_event_fall,
            cost_change_start: self.cost_change_start,
            cost_change_start_fall: self.cost_change_start_fall,
            dreamteam_count: self.dreamteam_count,
            element_type: self.element_type,
            ep_next: self.ep_next.clone(),
            ep_this: self.ep_this.clone(),
            event_points: self.event_points,
            first_name: self.first_name.clone(),
            form: self.form.clone(),
            id: self.id,
            in_dreamteam: self.in_dreamteam,
            news: self.news.clone(),
            news_added: self.news_added.clone(),
            now_cost: self.now_cost,
            photo: self.photo.clone(),
            points_per_game: self.points_per_game.clone(),
            second_name: self.second_name.clone(),
            selected_by_percent: self.selected_by_percent.clone(),
            special: self.special,
            squad_number: self.squad_number.clone(),
            status: self.status.clone(),
            team: self.team,
            team_code: self.team_code,
            total_points: self.total_points,
            transfers_in: self.transfers_in,
            transfers_in_event: self.transfers_in_event,
            transfers_out: self.transfers_out,
            transfers_out_event: self.transfers_out_event,
            value_form: self.value_form.clone(),
            value_season: self.value_season.clone(),
            web_name: self.web_name.clone(),
            minutes: self.minutes,
            goals_scored: self.goals_scored,
            assists: self.assists,
            clean_sheets: self.clean_sheets,
            goals_conceded: self.goals_conceded,
            own_goals: self.own_goals,
            penalties_saved: self.penalties_saved,
            penalties_missed: self.penalties_missed,
            yellow_cards: self.yellow_cards,
            red_cards: self.red_cards,
            saves: self.saves,
            bonus: self.bonus,
            bps: self.bps,
            influence: self.influence.clone(),
            creativity: self.creativity.clone(),
            threat: self.threat.clone(),
            ict_index: self.ict_index.clone(),
            starts: self.starts,
            expected_goals: self.expected_goals.clone(),
            expected_assists: self.expected_assists.clone(),
            expected_goal_involvements: self.expected_goal_involvements.clone(),
            expected_goals_conceded: self.expected_goals_conceded.clone(),
            influence_rank: self.influence_rank,
            influence_rank_type: self.influence_rank_type,
            creativity_rank: self.creativity_rank,
            creativity_rank_type: self.creativity_rank_type,
            threat_rank: self.threat_rank,
            threat_rank_type: self.threat_rank_type,
            ict_index_rank: self.ict_index_rank,
            ict_index_rank_type: self.ict_index_rank_type,
            corners_and_indirect_freekicks_order: self.corners_and_indirect_freekicks_order,
            corners_and_indirect_freekicks_text: self.corners_and_indirect_freekicks_text.clone(),
            direct_freekicks_order: self.direct_freekicks_order,
            direct_freekicks_text: self.direct_freekicks_text.clone(),
            penalties_order: self.penalties_order,
            penalties_text: self.penalties_text.clone(),
            expected_goals_per_90: self.expected_goals_per_90.clone(),
            saves_per_90: self.saves_per_90.clone(),
            expected_assists_per_90: self.expected_assists_per_90.clone(),
            expected_goal_involvements_per_90: self.expected_goal_involvements_per_90.clone(),
            expected_goals_conceded_per_90: self.expected_goals_conceded_per_90.clone(),
            goals_conceded_per_90: self.goals_conceded_per_90.clone(),
            now_cost_rank: self.now_cost_rank,
            now_cost_rank_type: self.now_cost_rank_type,
            form_rank: self.form_rank,
            form_rank_type: self.form_rank_type,
            points_per_game_rank: self.points_per_game_rank,
            points_per_game_rank_type: self.points_per_game_rank_type,
            selected_rank: self.selected_rank,
            selected_rank_type: self.selected_rank_type,
            starts_per_90: self.starts_per_90.clone(),
            clean_sheets_per_90: self.clean_sheets_per_90.clone(),
        }
    }
}

/// A player's one-line description: the id and the full name.
pub open spec fn spec_player_text(p: Player) -> Seq<char> {
    "<id: "@ + spec_i64_text(p.id as int) + ", name: "@ + p.first_name@ + " "@ + p.second_name@
        + ">"@
}

impl Player {
    /// The player's id and full name as one line of text.
    pub fn display_text(&self) -> (r: String)
        ensures
            r@ == spec_player_text(*self),
    {
        let mut s = String::from_str("<id: ");
        push_i64_text(&mut s, self.id);
        s.append(", name: ");
        s.append(self.first_name.as_str());
        s.append(" ");
        s.append(self.second_name.as_str());
        s.append(">");
        proof {
            assert(s@ =~= spec_player_text(*self));
        }
        s
    }
}

/// One statistic label of the competition.
#[derive(Debug, PartialEq)]
pub struct PlayerStat {
    pub label: String,
    pub name: String,
}

impl Clone for PlayerStat {
    fn clone(&self) -> (r: Self)
        ensures
            r == *self,
    {
        PlayerStat { label: self.label.clone(), name: self.name.clone() }
    }
}

/// One player-position type.
#[derive(Debug, PartialEq)]
pub struct PlayerType {
    pub id: i64,
    pub plural_name: String,
    pub plural_name_short: String,
    pub singular_name: String,
    pub singular_name_short: String,
    pub squad_select: i64,
    pub squad_min_play: i64,
    pub squad_max_play: i64,
    pub ui_shirt_specific: bool,
    pub sub_positions_locked: Vec<i64>,
    pub element_count: i64,
}

/// The abstract state of a [`PlayerType`].
#[verifier::ext_equal]
pub ghost struct PlayerTypeView {
    pub id: i64,
    pub plural_name: String,
    pub plural_name_short: String,
    pub singular_name: String,
    pub singular_name_short: String,
    pub squad_select: i64,
    pub squad_min_play: i64,
    pub squad_max_play: i64,
    pub ui_shirt_specific: bool,
    pub sub_positions_locked: Seq<i64>,
    pub element_count: i64,
}

impl View for PlayerType {
    type V = PlayerTypeView;

    open spec fn view(&self) -> PlayerTypeView {
        PlayerTypeView {
            id: self.id,
            plural_name: self.plural_name,
            plural_name_short: self.plural_name_short,
            singular_name: self.singular_name,
            singular_name_short: self.singular_name_short,
            squad_select: self.squad_select,
            squad_min_play: self.squad_min_play,
            squad_max_play: self.squad_max_play,
            ui_shirt_specific: self.ui_shirt_specific,
            sub_positions_locked: self.sub_positions_locked@,
            element_count: self.element_count,
        }
    }
}

impl Clone for PlayerType {
    fn clone(&self) -> (r: Self)
        ensures
            r@ == self@,
    {
        let r = PlayerType {
            id: self.id,
            plural_name: self.plural_name.clone(),
            plural_name_short: self.plural_name_short.clone(),
            singular_name: self.singular_name.clone(),
            singular_name_short: self.singular_name_short.clone(),
            squad_select: self.squad_select,
            squad_min_play: self.squad_min_play,
            squad_max_play: self.squad_max_play,
            ui_shirt_specific: self.ui_shirt_specific,
            sub_positions_locked: self.sub_positions_locked.clone(),
            element_count: self.element_count,
        };
        proof {
            assert forall|i: int|
                0 <= i < self.sub_positions_locked@.len() implies r.sub_positions_locked@[i] == self.sub_positions_locked@[i] by {
                assert(cloned::<i64>(self.sub_positions_locked@[i], r.sub_positions_locked@[i]));
            }
            assert(r.sub_positions_locked@ =~= self.sub_positions_locked@);
            assert(r@ =~= self@);
        }
        r
    }
}

} // verus!
