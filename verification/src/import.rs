//! Import of a tabular payload: the size rule that rejects an oversized
//! payload before anything reaches the remote authority, and the view an
//! accepted import produces.

use vstd::prelude::*;

use crate::error::FolderError;
use crate::tree::LayoutKind;

verus! {

/// The largest number of data rows an imported tabular payload may hold;
/// a larger payload is rejected with `InvalidParams` and creates no node.
pub const MAX_IMPORT_ROWS: usize = 10000;

/// One tabular payload to import: the name of the view to create and its
/// data rows, one entry per row.
#[derive(Debug)]
pub struct ImportItemPayload {
    pub name: String,
    pub rows: Vec<String>,
}

/// A batch of payloads imported under one parent view.
#[derive(Debug)]
pub struct ImportPayload {
    pub parent_view_id: String,
    pub items: Vec<ImportItemPayload>,
}

/// The view an accepted import produces: a grid whose row count equals
/// the number of data rows of the payload.
#[derive(Debug)]
pub struct ImportedView {
    pub id: String,
    pub parent_view_id: String,
    pub name: String,
    pub layout: LayoutKind,
    pub row_count: usize,
}

/// Imports one tabular payload as a grid view under `parent_view_id`.
///
/// Succeeds exactly when the payload holds at most `MAX_IMPORT_ROWS` data
/// rows; the produced view reports exactly the payload's row count.  An
/// oversized payload is rejected with `InvalidParams` and no view is
/// created.
pub fn import_tabular(
    parent_view_id: &String,
    view_id: &String,
    item: &ImportItemPayload,
) -> (r: Result<ImportedView, FolderError>)
    ensures
        match r {
            Ok(v) => {
                &&& item.rows@.len() <= MAX_IMPORT_ROWS
                &&& v.id@ == view_id@
                &&& v.parent_view_id@ == parent_view_id@
                &&& v.name@ == item.name@
                &&& v.layout == LayoutKind::Grid
                &&& v.row_count == item.rows@.len()
            },
            Err(e) => {
                &&& e == FolderError::InvalidParams
                &&& item.rows@.len() > MAX_IMPORT_ROWS
            },
        },
{
    let row_count = item.rows.len();
    if row_count > MAX_IMPORT_ROWS {
        return Err(FolderError::InvalidParams);
    }
    Ok(
        ImportedView {
            id: view_id.clone(),
            parent_view_id: parent_view_id.clone(),
            name: item.name.clone(),
            layout: LayoutKind::Grid,
            row_count,
        },
    )
}

/// Imports a whole batch under the payload's parent, the item at each
/// index taking the view id at the same index.
///
/// Succeeds exactly when one view id is supplied per item and every item
/// is within the size limit; then one view per item is produced, in
/// order.  Otherwise the whole batch is rejected with `InvalidParams` and
/// no view is created.
pub fn import_payload(payload: &ImportPayload, view_ids: &Vec<String>) -> (r: Result<
    Vec<ImportedView>,
    FolderError,
>)
    ensures
        match r {
            Ok(views) => {
                &&& view_ids@.len() == payload.items@.len()
                &&& views@.len() == payload.items@.len()
                &&& forall|i: int|
                    0 <= i < views@.len() ==> {
                        &&& (#[trigger] views@[i]).id@ == view_ids@[i]@
                        &&& views@[i].parent_view_id@ == payload.parent_view_id@
                        &&& views@[i].name@ == payload.items@[i].name@
                        &&& views@[i].layout == LayoutKind::Grid
                        &&& views@[i].row_count == payload.items@[i].rows@.len()
                        &&& payload.items@[i].rows@.len() <= MAX_IMPORT_ROWS
                    }
            },
            Err(e) => {
                &&& e == FolderError::InvalidParams
                &&& (view_ids@.len() != payload.items@.len() || exists|i: int|
                    0 <= i < payload.items@.len() && (#[trigger] payload.items@[i]).rows@.len()
                        > MAX_IMPORT_ROWS)
            },
        },
{
    if view_ids.len() != payload.items.len() {
        return Err(FolderError::InvalidParams);
    }
    let n = payload.items.len();
    let mut views: Vec<ImportedView> = Vec::new();
    for i in 0..n
        invariant
            n == payload.items@.len(),
            n == view_ids@.len(),
            views@.len() == i,
            forall|k: int|
                0 <= k < i ==> {
                    &&& (#[trigger] views@[k]).id@ == view_ids@[k]@
                    &&& views@[k].parent_view_id@ == payload.parent_view_id@
                    &&& views@[k].name@ == payload.items@[k].name@
                    &&& views@[k].layout == LayoutKind::Grid
                    &&& views@[k].row_count == payload.items@[k].rows@.len()
                    &&& payload.items@[k].rows@.len() <= MAX_IMPORT_ROWS
                },
        decreases n - i,
    {
        match import_tabular(&payload.parent_view_id, &view_ids[i], &payload.items[i]) {
            Ok(v) => {
                views.push(v);
            },
            Err(e) => {
                proof {
                    assert(payload.items@[i as int].rows@.len() > MAX_IMPORT_ROWS);
                }
                return Err(e);
            },
        }
    }
    Ok(views)
}

} // verus!
