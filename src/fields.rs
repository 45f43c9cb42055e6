//! Turning the GitHub API's answer about a repository into a fully defaulted
//! metadata record.
use vstd::prelude::*;

use crate::extract::opt_str_view;
use crate::time::{current_time, instant_view, parse_rfc3339, rfc3339_instant, Timestamp};

verus! {

/// Why metadata could not be had for a repository.
#[derive(Clone, Copy, Debug, PartialEq, Eq, Structural)]
pub enum FetchError {
    /// The API could not be reached.
    TransportError,
    /// The API answered with a status other than 200.
    RemoteUnavailable,
    /// The body of the answer is not one JSON object.
    ParseError,
}

/// The metadata kept about a repository.
#[derive(Clone, Debug)]
pub struct GitHubFields {
    pub description: String,
    pub stars: i64,
    pub forks: i64,
    pub issues: i64,
    pub last_commit: Timestamp,
}

/// What a [`GitHubFields`] holds, as mathematical values.
pub struct FieldsModel {
    pub description: Seq<char>,
    pub stars: i64,
    pub forks: i64,
    pub issues: i64,
    pub last_commit: Timestamp,
}

impl View for GitHubFields {
    type V = FieldsModel;

    open spec fn view(&self) -> FieldsModel {
        FieldsModel {
            description: self.description@,
            stars: self.stars,
            forks: self.forks,
            issues: self.issues,
            last_commit: self.last_commit,
        }
    }
}

/// Whether serde_json reads the text as one JSON object.
pub uninterp spec fn json_object_text(text: Seq<char>) -> bool;

/// The member under `key` of the JSON object in `text`, where it is a string.
pub uninterp spec fn json_string_member(text: Seq<char>, key: Seq<char>) -> Option<Seq<char>>;

/// The member under `key` of the JSON object in `text`, where it is an
/// integer that fits in an `i64`.
pub uninterp spec fn json_i64_member(text: Seq<char>, key: Seq<char>) -> Option<i64>;

/// Relies on `serde_json::from_str` into a `serde_json::Map`, on `Map::get`
/// and on `Value::as_str`: `None` where the text is not one JSON object,
/// else the member under `key` where it is a JSON string.
#[verifier::external_body]
fn string_member(text: &str, key: &str) -> (r: Option<Option<String>>)
    ensures
        r is Some <==> json_object_text(text@),
        r matches Some(m) ==> opt_str_view(m) == json_string_member(text@, key@),
{
    serde_json::from_str::<serde_json::Map<String, serde_json::Value>>(text).ok().map(
        |obj| obj.get(key).and_then(|v| v.as_str()).map(|s| s.to_string()),
    )
}

/// Relies on `serde_json::from_str` into a `serde_json::Map`, on `Map::get`
/// and on `Value::as_i64`: `None` where the text is not one JSON object,
/// else the member under `key` where it is an integer that fits in an `i64`.
#[verifier::external_body]
fn i64_member(text: &str, key: &str) -> (r: Option<Option<i64>>)
    ensures
        r is Some <==> json_object_text(text@),
        r matches Some(m) ==> m == json_i64_member(text@, key@),
{
    serde_json::from_str::<serde_json::Map<String, serde_json::Value>>(text).ok().map(
        |obj| obj.get(key).and_then(|v| v.as_i64()),
    )
}

/// A description found, or the empty one.
pub open spec fn text_or_empty(s: Option<Seq<char>>) -> Seq<char> {
    match s {
        Some(s) => s,
        None => Seq::empty(),
    }
}

/// A count found, or zero.
pub open spec fn count_or_zero(n: Option<i64>) -> i64 {
    match n {
        Some(n) => n,
        None => 0,
    }
}

/// An instant found, or `now`.
pub open spec fn instant_or(t: Option<(i64, u32)>, now: Timestamp) -> Timestamp {
    match t {
        Some((secs, nanos)) => Timestamp { secs, nanos },
        None => now,
    }
}

/// The record that the members found give, each missing one replaced by its
/// default: an empty description, counts of zero, and `now` for the last
/// commit.
pub open spec fn defaulted(
    description: Option<Seq<char>>,
    stars: Option<i64>,
    forks: Option<i64>,
    issues: Option<i64>,
    pushed_at: Option<(i64, u32)>,
    now: Timestamp,
) -> FieldsModel {
    FieldsModel {
        description: text_or_empty(description),
        stars: count_or_zero(stars),
        forks: count_or_zero(forks),
        issues: count_or_zero(issues),
        last_commit: instant_or(pushed_at, now),
    }
}

/// The instant of the `pushed_at` member, where it is a string that reads
/// as RFC 3339.
pub open spec fn pushed_at_of(body: Seq<char>) -> Option<(i64, u32)> {
    match json_string_member(body, "pushed_at"@) {
        Some(s) => rfc3339_instant(s),
        None => None,
    }
}

/// The record that a JSON object body gives.
pub open spec fn fields_of_body(body: Seq<char>, now: Timestamp) -> FieldsModel {
    defaulted(
        json_string_member(body, "description"@),
        json_i64_member(body, "stargazers_count"@),
        json_i64_member(body, "forks_count"@),
        json_i64_member(body, "open_issues"@),
        pushed_at_of(body),
        now,
    )
}

/// What an answer of the API with this status and body gives.
pub open spec fn fetch_result(status: u16, body: Seq<char>, now: Timestamp) -> Result<FieldsModel, FetchError> {
    if status != 200 {
        Err(FetchError::RemoteUnavailable)
    } else if !json_object_text(body) {
        Err(FetchError::ParseError)
    } else {
        Ok(fields_of_body(body, now))
    }
}

/// The outcome of a fetch, as mathematical values.
pub open spec fn result_view(r: Result<GitHubFields, FetchError>) -> Result<FieldsModel, FetchError> {
    match r {
        Ok(f) => Ok(f@),
        Err(e) => Err(e),
    }
}

/// Builds the record out of the members found, giving each missing one its
/// default.
pub fn fields_with_defaults(
    description: Option<String>,
    stars: Option<i64>,
    forks: Option<i64>,
    issues: Option<i64>,
    pushed_at: Option<Timestamp>,
    now: Timestamp,
) -> (r: GitHubFields)
    ensures
        r@ == defaulted(opt_str_view(description), stars, forks, issues, instant_view(pushed_at), now),
{
    let description = match description {
        Some(d) => d,
        None => String::new(),
    };
    let stars = match stars {
        Some(n) => n,
        None => 0,
    };
    let forks = match forks {
        Some(n) => n,
        None => 0,
    };
    let issues = match issues {
        Some(n) => n,
        None => 0,
    };
    let last_commit = match pushed_at {
        Some(t) => t,
        None => now,
    };
    GitHubFields { description, stars, forks, issues, last_commit }
}

/// Reads the record out of a body that the API answered with status 200;
/// `now` stands in for a missing or unreadable `pushed_at`.
pub fn github_fields_from_body(body: &str, now: Timestamp) -> (r: Result<GitHubFields, FetchError>)
    ensures
        result_view(r) == fetch_result(200, body@, now),
{
    let description = match string_member(body, "description") {
        Some(m) => m,
        None => return Err(FetchError::ParseError),
    };
    let stars = match i64_member(body, "stargazers_count") {
        Some(m) => m,
        None => return Err(FetchError::ParseError),
    };
    let forks = match i64_member(body, "forks_count") {
        Some(m) => m,
        None => return Err(FetchError::ParseError),
    };
    let issues = match i64_member(body, "open_issues") {
        Some(m) => m,
        None => return Err(FetchError::ParseError),
    };
    let pushed_at = match string_member(body, "pushed_at") {
        Some(Some(s)) => parse_rfc3339(s.as_str()),
        Some(None) => None,
        None => return Err(FetchError::ParseError),
    };
    Ok(fields_with_defaults(description, stars, forks, issues, pushed_at, now))
}

/// Reads the record out of an answer of the API: a status other than 200 is
/// `RemoteUnavailable`, a body that is not one JSON object is `ParseError`.
pub fn github_fields_from_response(status: u16, body: &str, now: Timestamp) -> (r: Result<GitHubFields, FetchError>)
    ensures
        result_view(r) == fetch_result(status, body@, now),
{
    if status != 200 {
        return Err(FetchError::RemoteUnavailable);
    }
    github_fields_from_body(body, now)
}

/// Reads the record out of an answer of the API, with the current time
/// standing in for a missing or unreadable `pushed_at`.
pub fn github_fields(status: u16, body: &str) -> (r: Result<GitHubFields, FetchError>)
    ensures
        exists|now: Timestamp| result_view(r) == fetch_result(status, body@, now),
{
    let now = current_time();
    github_fields_from_response(status, body, now)
}

/// A status-200 answer whose body is a JSON object always gives a record,
/// whichever members it lacks or holds with another type; each such member
/// takes its default.
pub proof fn lemma_object_body_never_fails(body: Seq<char>, now: Timestamp)
    requires
        json_object_text(body),
    ensures
        fetch_result(200, body, now) == Ok::<FieldsModel, FetchError>(fields_of_body(body, now)),
        json_string_member(body, "description"@) is None ==> fields_of_body(body, now).description == Seq::<char>::empty(),
        json_i64_member(body, "stargazers_count"@) is None ==> fields_of_body(body, now).stars == 0,
        json_i64_member(body, "forks_count"@) is None ==> fields_of_body(body, now).forks == 0,
        json_i64_member(body, "open_issues"@) is None ==> fields_of_body(body, now).issues == 0,
        pushed_at_of(body) is None ==> fields_of_body(body, now).last_commit == now,
{
}

} // verus!
