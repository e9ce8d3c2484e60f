//! Exercises the fetch pipeline end of a user lookup: a decoded profile is
//! handed back unchanged, so the returned id is the requested one.

use fpl_rs::endpoints::user_endpoint;
use fpl_rs::fetch::accept_decoded;
use fpl_rs::fpl_error::FplError;
use fpl_rs::models::json::JsonValue;
use fpl_rs::models::league::{Cup, Leagues, Status};
use fpl_rs::models::user::User;

fn make_user(id: i64) -> User {
    User {
        id,
        joined_time: String::new(),
        started_event: 1,
        favourite_team: 14,
        player_first_name: String::new(),
        player_last_name: String::new(),
        player_region_id: 0,
        player_region_name: String::new(),
        player_region_iso_code_short: String::new(),
        player_region_iso_code_long: String::new(),
        summary_overall_points: 0,
        summary_overall_rank: 0,
        summary_event_points: 0,
        summary_event_rank: None,
        current_event: 1,
        leagues: Leagues {
            classic: Vec::new(),
            h2h: Vec::new(),
            cup: Cup {
                matches: Vec::new(),
                status: Status {
                    qualification_event: JsonValue::Null,
                    qualification_numbers: JsonValue::Null,
                    qualification_rank: JsonValue::Null,
                    qualification_state: JsonValue::Null,
                },
                cup_league: JsonValue::Null,
            },
            cup_matches: Vec::new(),
        },
        name: String::new(),
        name_change_blocked: false,
        kit: JsonValue::Null,
        last_deadline_bank: 0,
        last_deadline_value: 0,
        last_deadline_total_transfers: 0,
    }
}

#[test]
fn test_get_user() {
    let user_id = 5489342;
    let endpoint = user_endpoint(user_id);
    let decoded = make_user(user_id);
    let r: Result<User, FplError> = accept_decoded(endpoint.as_str(), Ok(decoded));
    match r {
        Ok(user) => assert_eq!(user.id, user_id),
        Err(e) => panic!("Got this guy: {}", e.message()),
    }
}
