use github_sync::fields::{github_fields_from_response, FetchError};
use github_sync::pass::{after_fetch, after_persist, start_candidate, Outcome, Pass, Step};
use github_sync::persist::update_row;
use github_sync::time::Timestamp;

const NOW: Timestamp = Timestamp { secs: 100, nanos: 0 };

#[test]
fn update_row_is_the_same_each_time() {
    let f = github_fields_from_response(200, r#"{"description":"x","stargazers_count":5}"#, NOW)
        .unwrap();
    let a = update_row(7, &f);
    let b = update_row(7, &f);
    assert_eq!((a.id, a.description.as_str(), a.stars, a.forks, a.issues), (7, "x", 5, 0, 0));
    assert_eq!((b.id, b.description.as_str(), b.stars, b.forks, b.issues), (7, "x", 5, 0, 0));
    assert_eq!(a.last_commit, b.last_commit);
}

#[test]
fn update_row_truncates_counts() {
    let body = r#"{"stargazers_count":4294967297,"forks_count":-1,"open_issues":2147483648}"#;
    let f = github_fields_from_response(200, body, NOW).unwrap();
    let row = update_row(1, &f);
    assert_eq!((row.stars, row.forks, row.issues), (1, -1, i32::MIN));
}

#[test]
fn candidate_with_foreign_url_is_not_fetched() {
    match start_candidate("https://gitlab.com/foo/bar") {
        Step::Finished(o) => assert_eq!(o, Outcome::ExtractionFailure),
        other => panic!("unexpected step {:?}", other),
    }
    match start_candidate("https://github.com/onur/cratesfyi") {
        Step::Fetch(path) => assert_eq!(path, "onur/cratesfyi"),
        other => panic!("unexpected step {:?}", other),
    }
}

#[test]
fn fetch_errors_finish_the_candidate() {
    let cases = [
        (FetchError::TransportError, Outcome::TransportError),
        (FetchError::RemoteUnavailable, Outcome::RemoteUnavailable),
        (FetchError::ParseError, Outcome::ParseError),
    ];
    for (e, o) in cases {
        match after_fetch(3, Err(e)) {
            Step::Finished(got) => assert_eq!(got, o),
            other => panic!("unexpected step {:?}", other),
        }
    }
    let r = github_fields_from_response(404, "", NOW);
    match after_fetch(3, r) {
        Step::Finished(got) => assert_eq!(got, Outcome::RemoteUnavailable),
        other => panic!("unexpected step {:?}", other),
    }
}

#[test]
fn persist_result_gives_outcome() {
    assert_eq!(after_persist(true), Outcome::Updated);
    assert_eq!(after_persist(false), Outcome::PersistFailure);
}

fn handle(url: &str, id: i32, body: &str, written: &mut Vec<(i32, i32)>) -> Outcome {
    match start_candidate(url) {
        Step::Fetch(_) => match after_fetch(id, github_fields_from_response(200, body, NOW)) {
            Step::Persist(row) => {
                written.push((row.id, row.stars));
                after_persist(true)
            }
            Step::Finished(o) => o,
            Step::Fetch(_) => panic!("fetch after fetch"),
        },
        Step::Finished(o) => o,
        Step::Persist(_) => panic!("persist before fetch"),
    }
}

#[test]
fn failed_candidate_does_not_stop_the_pass() {
    let candidates = [
        ("https://github.com/a/one", 1, r#"{"stargazers_count":11}"#),
        ("https://example.com/b/two", 2, r#"{"stargazers_count":22}"#),
        ("https://github.com/c/three.git", 3, r#"{"stargazers_count":33}"#),
    ];
    let mut pass = Pass::new(candidates.len());
    let mut written = Vec::new();
    while let Some(i) = pass.next_candidate() {
        let (url, id, body) = candidates[i];
        let outcome = handle(url, id, body, &mut written);
        pass.record(outcome);
    }
    assert_eq!(
        pass.outcomes(),
        &vec![Outcome::Updated, Outcome::ExtractionFailure, Outcome::Updated]
    );
    assert_eq!(written, vec![(1, 11), (3, 33)]);
}

#[test]
fn empty_pass_is_done_at_once() {
    let pass = Pass::new(0);
    assert_eq!(pass.next_candidate(), None);
    assert!(pass.outcomes().is_empty());
}
