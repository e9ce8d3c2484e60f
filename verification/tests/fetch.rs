//! Exercises the outcome classification, the endpoint builders, the decimal
//! rendering, and the error messages.

use fpl_rs::digits::{i64_text, u64_text};
use fpl_rs::endpoints::{
    bootstrap_static_endpoint, classic_league_endpoint, fixtures_endpoint,
    gameweek_fixtures_endpoint, h2h_league_endpoint, live_gameweek_endpoint, user_endpoint,
    user_picks_endpoint,
};
use fpl_rs::fetch::{accept_decoded, check_status, transport_failure};
use fpl_rs::fpl_error::{FplError, FplErrorKind};

#[test]
fn decimal_rendering_is_exact() {
    assert_eq!(u64_text(0), "0");
    assert_eq!(u64_text(65), "65");
    assert_eq!(u64_text(18446744073709551615), "18446744073709551615");
    assert_eq!(i64_text(-7), "-7");
    assert_eq!(i64_text(5489342), "5489342");
    assert_eq!(i64_text(i64::MIN), "-9223372036854775808");
    assert_eq!(i64_text(i64::MAX), "9223372036854775807");
}

#[test]
fn endpoints_are_the_upstream_urls() {
    assert_eq!(
        user_endpoint(5489342),
        "https://fantasy.premierleague.com/api/entry/5489342/"
    );
    assert_eq!(
        fixtures_endpoint(),
        "https://fantasy.premierleague.com/api/fixtures/"
    );
    assert_eq!(
        gameweek_fixtures_endpoint(14),
        "https://fantasy.premierleague.com/api/fixtures/?event=14"
    );
    assert_eq!(
        live_gameweek_endpoint(2),
        "https://fantasy.premierleague.com/api/event/2/live"
    );
    assert_eq!(
        classic_league_endpoint(753276),
        "https://fantasy.premierleague.com/api/leagues-classic/753276/standings/"
    );
    assert_eq!(
        h2h_league_endpoint(288399),
        "https://fantasy.premierleague.com/api/leagues-h2h-matches/league/288399/"
    );
    assert_eq!(
        user_picks_endpoint(5489342, 14),
        "https://fantasy.premierleague.com/api/entry/5489342/event/14/picks/"
    );
    assert_eq!(
        bootstrap_static_endpoint(),
        "https://fantasy.premierleague.com/api/bootstrap-static/"
    );
}

#[test]
fn transport_failure_carries_endpoint_and_cause() {
    let e = transport_failure(
        "https://fantasy.premierleague.com/api/fixtures/",
        "connection refused".to_string(),
    );
    assert!(matches!(e.kind, FplErrorKind::TransportFailure));
    assert_eq!(e.endpoint, "https://fantasy.premierleague.com/api/fixtures/");
    assert_eq!(e.detail, "connection refused");
}

#[test]
fn success_status_passes_the_gate() {
    assert!(check_status("https://fantasy.premierleague.com/api/fixtures/", 200).is_ok());
}

#[test]
fn non_success_status_is_classified_with_its_code() {
    let r = check_status("https://fantasy.premierleague.com/api/fixtures/", 404);
    match r {
        Err(e) => {
            assert!(matches!(e.kind, FplErrorKind::StatusFailure(404)));
            assert_eq!(e.endpoint, "https://fantasy.premierleague.com/api/fixtures/");
        }
        Ok(_) => panic!("a 404 must not pass the status gate"),
    }
}

#[test]
fn decoded_value_is_handed_back_unchanged() {
    let r: Result<i64, FplError> = accept_decoded(
        "https://fantasy.premierleague.com/api/fixtures/",
        Ok(5489342),
    );
    assert_eq!(r.unwrap(), 5489342);
}

#[test]
fn decoder_complaint_is_classified_as_decode_failure() {
    let r: Result<i64, FplError> = accept_decoded(
        "https://fantasy.premierleague.com/api/fixtures/",
        Err("missing field `id`".to_string()),
    );
    match r {
        Err(e) => {
            assert!(matches!(e.kind, FplErrorKind::DecodeFailure));
            assert_eq!(e.detail, "missing field `id`");
        }
        Ok(_) => panic!("a decode complaint must be classified"),
    }
}

#[test]
fn error_message_names_kind_endpoint_and_cause() {
    let e = FplError::new(
        FplErrorKind::StatusFailure(503),
        "https://fantasy.premierleague.com/api/fixtures/".to_string(),
        "service unavailable".to_string(),
    );
    assert_eq!(
        e.message(),
        "FplError: status failure (503) at https://fantasy.premierleague.com/api/fixtures/: service unavailable"
    );
}
