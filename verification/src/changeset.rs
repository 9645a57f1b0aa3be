//! The changeset a grid group reports after rows were inserted, deleted or
//! updated within it.

use vstd::prelude::*;

verus! {

/// One row of a grid, as surfaced to consumers.
#[derive(Debug)]
pub struct RowPB {
    pub id: String,
    pub height: i32,
}

/// A row together with where it was inserted.
#[derive(Debug)]
pub struct InsertedRowPB {
    pub row: RowPB,
    pub index: Option<i32>,
    pub is_new: bool,
}

/// What changed inside one group of rows: insertions, deletions (by row
/// id) and updates, each list independent of the others.
#[derive(Debug)]
pub struct GroupRowsChangesetPB {
    pub group_id: String,
    pub inserted_rows: Vec<InsertedRowPB>,
    pub deleted_rows: Vec<String>,
    pub updated_rows: Vec<RowPB>,
}

impl GroupRowsChangesetPB {
    /// Whether the changeset carries no change at all.
    pub fn is_empty(&self) -> (r: bool)
        ensures
            r == (self.inserted_rows@.len() == 0 && self.deleted_rows@.len() == 0
                && self.updated_rows@.len() == 0),
    {
        self.inserted_rows.is_empty() && self.deleted_rows.is_empty()
            && self.updated_rows.is_empty()
    }

    /// A changeset that only inserts.
    pub fn insert(group_id: String, inserted_rows: Vec<InsertedRowPB>) -> (r: Self)
        ensures
            r.group_id == group_id,
            r.inserted_rows == inserted_rows,
            r.deleted_rows@.len() == 0,
            r.updated_rows@.len() == 0,
    {
        Self { group_id, inserted_rows, deleted_rows: Vec::new(), updated_rows: Vec::new() }
    }

    /// A changeset that only deletes.
    pub fn delete(group_id: String, deleted_rows: Vec<String>) -> (r: Self)
        ensures
            r.group_id == group_id,
            r.deleted_rows == deleted_rows,
            r.inserted_rows@.len() == 0,
            r.updated_rows@.len() == 0,
    {
        Self { group_id, inserted_rows: Vec::new(), deleted_rows, updated_rows: Vec::new() }
    }

    /// A changeset that only updates.
    pub fn update(group_id: String, updated_rows: Vec<RowPB>) -> (r: Self)
        ensures
            r.group_id == group_id,
            r.updated_rows == updated_rows,
            r.inserted_rows@.len() == 0,
            r.deleted_rows@.len() == 0,
    {
        Self { group_id, inserted_rows: Vec::new(), deleted_rows: Vec::new(), updated_rows }
    }
}

} // verus!
