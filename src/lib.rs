//! Keeps the GitHub metadata of package records up to date: reading an
//! `owner/repo` identifier out of a repository URL, turning the GitHub API's
//! answer into a fully defaulted record, building the row that is written
//! back, and deciding, candidate by candidate, what a synchronisation pass
//! does next.
pub mod extract;
pub mod fields;
pub mod pass;
pub mod persist;
pub mod time;
