//! The row that writes a repository's metadata back onto its package.
use vstd::prelude::*;

use crate::fields::{FieldsModel, GitHubFields};
use crate::time::Timestamp;

verus! {

/// The values of one update of a package's metadata columns, keyed by the
/// package id; the store stamps the time of the update itself.
#[derive(Clone, Debug)]
pub struct UpdateRow {
    pub id: i32,
    pub description: String,
    pub stars: i32,
    pub forks: i32,
    pub issues: i32,
    pub last_commit: Timestamp,
}

/// The metadata columns of one package, as mathematical values.
pub struct Snapshot {
    pub description: Seq<char>,
    pub stars: i32,
    pub forks: i32,
    pub issues: i32,
    pub last_commit: Timestamp,
}

impl View for UpdateRow {
    type V = (i32, Snapshot);

    open spec fn view(&self) -> (i32, Snapshot) {
        (self.id, Snapshot {
            description: self.description@,
            stars: self.stars,
            forks: self.forks,
            issues: self.issues,
            last_commit: self.last_commit,
        })
    }
}

/// The row that stores `fields` for package `id`: the counts are narrowed to
/// the 32-bit columns by truncation.
pub open spec fn row_of(id: i32, fields: FieldsModel) -> (i32, Snapshot) {
    (id, Snapshot {
        description: fields.description,
        stars: fields.stars as i32,
        forks: fields.forks as i32,
        issues: fields.issues as i32,
        last_commit: fields.last_commit,
    })
}

/// The metadata of every package after a row has been written: the row's
/// package has the row's values, every other package keeps its own.
pub open spec fn apply_row(store: Map<i32, Snapshot>, row: (i32, Snapshot)) -> Map<i32, Snapshot> {
    store.insert(row.0, row.1)
}

/// Builds the row that writes `fields` onto package `id`.
pub fn update_row(id: i32, fields: &GitHubFields) -> (r: UpdateRow)
    ensures
        r@ == row_of(id, fields@),
{
    UpdateRow {
        id,
        description: fields.description.clone(),
        stars: #[verifier::truncate] (fields.stars as i32),
        forks: #[verifier::truncate] (fields.forks as i32),
        issues: #[verifier::truncate] (fields.issues as i32),
        last_commit: fields.last_commit,
    }
}

/// Writing the same metadata twice onto the same package leaves the store as
/// writing it once does.
pub proof fn lemma_write_idempotent(store: Map<i32, Snapshot>, id: i32, fields: FieldsModel)
    ensures
        apply_row(apply_row(store, row_of(id, fields)), row_of(id, fields)) == apply_row(store, row_of(id, fields)),
{
    let row = row_of(id, fields);
    assert(apply_row(apply_row(store, row), row) =~= apply_row(store, row));
}

} // verus!
