use github_sync::fields::{
    fields_with_defaults, github_fields, github_fields_from_body, github_fields_from_response,
    FetchError,
};
use github_sync::time::Timestamp;

const NOW: Timestamp = Timestamp { secs: 1_600_000_000, nanos: 7 };

#[test]
fn missing_members_take_defaults() {
    let f = github_fields_from_response(200, r#"{"description":"x","stargazers_count":5}"#, NOW)
        .unwrap();
    assert_eq!(f.description, "x");
    assert_eq!(f.stars, 5);
    assert_eq!(f.forks, 0);
    assert_eq!(f.issues, 0);
    assert_eq!(f.last_commit, NOW);
}

#[test]
fn all_members_are_read() {
    let body = r#"{"description":"d","stargazers_count":10,"forks_count":3,
        "open_issues":2,"pushed_at":"2018-01-01T00:00:00Z","other":null}"#;
    let f = github_fields_from_body(body, NOW).unwrap();
    assert_eq!(f.description, "d");
    assert_eq!((f.stars, f.forks, f.issues), (10, 3, 2));
    assert_eq!(f.last_commit, Timestamp { secs: 1_514_764_800, nanos: 0 });
}

#[test]
fn offset_in_pushed_at_is_taken_into_account() {
    let body = r#"{"pushed_at":"2018-01-01T02:00:00.5+02:00"}"#;
    let f = github_fields_from_body(body, NOW).unwrap();
    assert_eq!(f.last_commit, Timestamp { secs: 1_514_764_800, nanos: 500_000_000 });
}

#[test]
fn wrong_typed_members_take_defaults() {
    let body = r#"{"description":null,"stargazers_count":"5","forks_count":1.5,
        "open_issues":[],"pushed_at":"yesterday"}"#;
    let f = github_fields_from_body(body, NOW).unwrap();
    assert_eq!(f.description, "");
    assert_eq!((f.stars, f.forks, f.issues), (0, 0, 0));
    assert_eq!(f.last_commit, NOW);
}

#[test]
fn non_200_status_is_remote_unavailable() {
    let r = github_fields_from_response(404, r#"{"message":"Not Found"}"#, NOW);
    assert_eq!(r.unwrap_err(), FetchError::RemoteUnavailable);
}

#[test]
fn malformed_body_is_parse_error() {
    let r = github_fields_from_response(200, "{not json", NOW);
    assert_eq!(r.unwrap_err(), FetchError::ParseError);
    let r = github_fields_from_response(200, "[1, 2]", NOW);
    assert_eq!(r.unwrap_err(), FetchError::ParseError);
    let r = github_fields(200, "");
    assert_eq!(r.unwrap_err(), FetchError::ParseError);
}

#[test]
fn current_time_fills_missing_pushed_at() {
    let f = github_fields(200, r#"{"forks_count":4}"#).unwrap();
    assert_eq!(f.forks, 4);
    assert!(f.last_commit.secs > 1_600_000_000);
}

#[test]
fn defaults_from_parts() {
    let f = fields_with_defaults(None, None, Some(-1), None, None, NOW);
    assert_eq!(f.description, "");
    assert_eq!((f.stars, f.forks, f.issues), (0, -1, 0));
    assert_eq!(f.last_commit, NOW);
    let t = Timestamp { secs: 5, nanos: 6 };
    let f = fields_with_defaults(Some("a".to_string()), Some(1), Some(2), Some(3), Some(t), NOW);
    assert_eq!(f.description, "a");
    assert_eq!((f.stars, f.forks, f.issues), (1, 2, 3));
    assert_eq!(f.last_commit, t);
}
