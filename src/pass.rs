//! The decisions of a synchronisation pass: what to do with each candidate
//! package, and which candidate comes next.
use vstd::prelude::*;

use crate::extract::{extracted_path, get_github_path};
use crate::fields::{FetchError, GitHubFields};
use crate::persist::{row_of, update_row, UpdateRow};

verus! {

/// How the handling of one candidate ended.
#[derive(Clone, Copy, Debug, PartialEq, Eq, Structural)]
pub enum Outcome {
    /// Its metadata was fetched and written.
    Updated,
    /// Its repository URL names no GitHub repository.
    ExtractionFailure,
    /// The API could not be reached.
    TransportError,
    /// The API answered with a status other than 200.
    RemoteUnavailable,
    /// The API's answer is not one JSON object.
    ParseError,
    /// The store refused the write.
    PersistFailure,
}

/// What to do next for the candidate at hand.
#[derive(Clone, Debug)]
pub enum Step {
    /// Ask the API about the repository with this `owner/repo` identifier.
    Fetch(String),
    /// Write this row to the store.
    Persist(UpdateRow),
    /// The candidate is done with.
    Finished(Outcome),
}

/// The outcome that a failed fetch ends a candidate with.
pub open spec fn error_outcome(e: FetchError) -> Outcome {
    match e {
        FetchError::TransportError => Outcome::TransportError,
        FetchError::RemoteUnavailable => Outcome::RemoteUnavailable,
        FetchError::ParseError => Outcome::ParseError,
    }
}

/// The first step for a candidate with this repository URL: fetch its
/// identifier, or finish with `ExtractionFailure` where the URL gives none.
pub fn start_candidate(repository_url: &str) -> (r: Step)
    ensures
        match extracted_path(repository_url@) {
            Some(p) => r matches Step::Fetch(q) && q@ == p,
            None => r matches Step::Finished(o) && o == Outcome::ExtractionFailure,
        },
{
    match get_github_path(repository_url) {
        Some(path) => Step::Fetch(path),
        None => Step::Finished(Outcome::ExtractionFailure),
    }
}

/// The step after the fetch for package `id`: write what was fetched, or
/// finish with the fetch's error.
pub fn after_fetch(id: i32, fetched: Result<GitHubFields, FetchError>) -> (r: Step)
    ensures
        match fetched {
            Ok(f) => r matches Step::Persist(row) && row@ == row_of(id, f@),
            Err(e) => r matches Step::Finished(o) && o == error_outcome(e),
        },
{
    match fetched {
        Ok(f) => Step::Persist(update_row(id, &f)),
        Err(FetchError::TransportError) => Step::Finished(Outcome::TransportError),
        Err(FetchError::RemoteUnavailable) => Step::Finished(Outcome::RemoteUnavailable),
        Err(FetchError::ParseError) => Step::Finished(Outcome::ParseError),
    }
}

/// How a candidate ends once its row was handed to the store.
pub fn after_persist(written: bool) -> (r: Outcome)
    ensures
        r == (if written { Outcome::Updated } else { Outcome::PersistFailure }),
{
    if written {
        Outcome::Updated
    } else {
        Outcome::PersistFailure
    }
}

/// The progress of one pass over a fixed list of candidates: the outcome of
/// each candidate handled so far, in order.
pub struct Pass {
    total: usize,
    outcomes: Vec<Outcome>,
}

/// A pass as mathematical values: the number of candidates and the outcomes
/// recorded so far.
pub struct PassModel {
    pub total: nat,
    pub outcomes: Seq<Outcome>,
}

impl View for Pass {
    type V = PassModel;

    closed spec fn view(&self) -> PassModel {
        PassModel { total: self.total as nat, outcomes: self.outcomes@ }
    }
}

/// The candidate that a pass handles next, where one is left.
pub open spec fn next_of(p: PassModel) -> Option<nat> {
    if p.outcomes.len() < p.total {
        Some(p.outcomes.len())
    } else {
        None
    }
}

/// The pass after the outcome of its current candidate is recorded.
pub open spec fn recorded(p: PassModel, o: Outcome) -> PassModel {
    PassModel { total: p.total, outcomes: p.outcomes.push(o) }
}

impl Pass {
    /// No more outcomes are recorded than there are candidates.
    pub open spec fn wf(&self) -> bool {
        self@.outcomes.len() <= self@.total
    }

    /// A pass over `total` candidates, none handled yet.
    pub fn new(total: usize) -> (r: Pass)
        ensures
            r.wf(),
            r@.total == total,
            r@.outcomes == Seq::<Outcome>::empty(),
    {
        Pass { total, outcomes: Vec::new() }
    }

    /// The index of the candidate to handle next; `None` once every
    /// candidate has been handled.
    pub fn next_candidate(&self) -> (r: Option<usize>)
        requires
            self.wf(),
        ensures
            match next_of(self@) {
                Some(i) => r == Some(i as usize),
                None => r is None,
            },
    {
        if self.outcomes.len() < self.total {
            Some(self.outcomes.len())
        } else {
            None
        }
    }

    /// Records how the current candidate ended, whatever the outcome, and
    /// moves on to the next one.
    pub fn record(&mut self, outcome: Outcome)
        requires
            old(self).wf(),
            next_of(old(self)@) is Some,
        ensures
            final(self).wf(),
            final(self)@ == recorded(old(self)@, outcome),
    {
        self.outcomes.push(outcome);
    }

    /// The outcomes recorded so far, one per handled candidate, in order.
    pub fn outcomes(&self) -> (r: &Vec<Outcome>)
        ensures
            r@ == self@.outcomes,
    {
        &self.outcomes
    }
}

/// Whatever the outcome of candidate `n`, failure or not, the pass goes on to
/// candidate `n + 1` where there is one.
pub proof fn lemma_failure_does_not_stop_pass(p: PassModel, o: Outcome)
    requires
        next_of(p) is Some,
        p.outcomes.len() + 1 < p.total,
    ensures
        next_of(recorded(p, o)) == Some((p.outcomes.len() + 1) as nat),
{
}

/// A pass handles every candidate: after one outcome per candidate has been
/// recorded there is none left, and before that there always is.
pub proof fn lemma_pass_visits_all(p: PassModel)
    ensures
        next_of(p) is None <==> p.outcomes.len() >= p.total,
{
}

} // verus!
