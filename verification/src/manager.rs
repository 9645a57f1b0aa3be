//! The sync coordinator.
//!
//! Reads are served synchronously from the local cache store, and every
//! read also describes the background refresh to run against the remote
//! authority; when a refresh completes, its payload is merged into the
//! cache and, if anything changed, a notification is published.  Mutations
//! are pure write-through: each one only builds the remote request — it
//! takes the coordinator by shared reference, so no mutation can touch the
//! local cache store synchronously; the cache converges on a later
//! read-triggered refresh.

use vstd::prelude::*;

use crate::error::FolderError;
use crate::notify::{recipients_of, NotificationBus};
use crate::store::{cache_lookup, cached_tree, upsert_post, CacheStore, UpsertOutcome};
use crate::tree::{tree_model, Icon, Node, NodeTree, TreeModel};
use crate::views::{node_models, view_of, ViewKind};

verus! {

/// The depth a folder fetch covers when the caller names none.
pub const DEFAULT_FETCH_DEPTH: u32 = 10;

/// What a page-creation call carries to the remote authority.
#[derive(Debug)]
pub struct CreatePageParams {
    pub parent_view_id: String,
    pub name: String,
    pub layout: crate::tree::LayoutKind,
}

/// What a page-update call carries.
#[derive(Debug)]
pub struct UpdatePageParams {
    pub name: String,
    pub icon: Option<Icon>,
}

/// What a page-move call carries.
#[derive(Debug)]
pub struct MovePageParams {
    pub new_parent_view_id: String,
    pub prev_view_id: Option<String>,
}

/// What a page-duplication call carries.
#[derive(Debug)]
pub struct DuplicatePageParams {
    pub suffix: String,
}

/// What a space-creation call carries.
#[derive(Debug)]
pub struct CreateSpaceParams {
    pub name: String,
    pub icon: Option<Icon>,
}

/// What a space-update call carries.
#[derive(Debug)]
pub struct UpdateSpaceParams {
    pub name: String,
}

/// What a favorite-flag update carries.
#[derive(Debug)]
pub struct FavoritePageParams {
    pub is_favorite: bool,
}

/// The background fetch a read detaches: the parameters the remote
/// authority's folder fetch is called with.
#[derive(Debug)]
pub struct FetchFolderRequest {
    pub workspace_id: String,
    pub depth: u32,
    pub root_view_id: String,
}

/// One write-through call to the remote authority.  The coordinator only
/// builds the request; performing the network call, and retrying it, is
/// the caller's concern.
#[derive(Debug)]
pub enum RemoteRequest {
    CreatePage { workspace_id: String, params: CreatePageParams },
    UpdatePage { workspace_id: String, view_id: String, params: UpdatePageParams },
    MovePageToTrash { workspace_id: String, view_id: String },
    RestorePageFromTrash { workspace_id: String, view_id: String },
    DuplicatePage { workspace_id: String, view_id: String, params: DuplicatePageParams },
    MovePage { workspace_id: String, view_id: String, params: MovePageParams },
    CreateSpace { workspace_id: String, params: CreateSpaceParams },
    UpdateSpace { workspace_id: String, space_id: String, params: UpdateSpaceParams },
    UpdateFavoritePage { workspace_id: String, view_id: String, params: FavoritePageParams },
}

/// The "folder pages updated" event published after a merge that changed
/// the cache: the workspace it is scoped to, the subtree that was fetched,
/// and the subscribers it is delivered to.
#[derive(Debug)]
pub struct FolderNotification {
    pub workspace_id: String,
    pub folder_view: NodeTree,
    pub recipients: Vec<u64>,
}

/// What a completed background refresh reports: the store's upsert
/// outcome and, exactly when the merge changed the cache, the notification
/// to deliver.
#[derive(Debug)]
pub struct RefreshOutcome {
    pub upsert: UpsertOutcome,
    pub notification: Option<FolderNotification>,
}

/// The sync coordinator: the only writer of the local cache store, and
/// the owner of the notification registry.
#[derive(Debug)]
pub struct FolderManager {
    pub cache: CacheStore,
    pub bus: NotificationBus,
}

impl FolderManager {
    /// A coordinator over an empty cache: no workspace has ever synced.
    pub fn new() -> (r: FolderManager)
        ensures
            r.cache.entries@.len() == 0,
            r.bus.subscriptions@.len() == 0,
    {
        FolderManager { cache: CacheStore::new(), bus: NotificationBus::new() }
    }

    /// The read path.
    ///
    /// Queries the local cache store synchronously for the subtree rooted
    /// at `root_view_id` (the workspace itself when none is named), cut
    /// off at `depth` (ten edges when none is named), and returns that
    /// result as-is: cached data however stale, or `NotFound` on a
    /// never-synced workspace.  Alongside, it always returns the fetch
    /// request the caller must detach against the remote authority —
    /// regardless of the cache's outcome, and without waiting for it.
    pub fn get_workspace_folder(
        &self,
        workspace_id: &String,
        depth: Option<u32>,
        root_view_id: Option<String>,
    ) -> (r: (Result<NodeTree, FolderError>, FetchFolderRequest))
        ensures
            r.1.workspace_id@ == workspace_id@,
            r.1.depth == (match depth {
                Some(d) => d,
                None => DEFAULT_FETCH_DEPTH,
            }),
            r.1.root_view_id@ == (match root_view_id {
                Some(v) => v@,
                None => workspace_id@,
            }),
            match r.0 {
                Ok(t) => cache_lookup(
                    self.cache,
                    workspace_id@,
                    r.1.root_view_id@,
                    r.1.depth as nat,
                ) == Some(tree_model(t)),
                Err(e) => e == FolderError::NotFound && cache_lookup(
                    self.cache,
                    workspace_id@,
                    r.1.root_view_id@,
                    r.1.depth as nat,
                ) == None::<TreeModel>,
            },
    {
        let fetch_depth = match depth {
            Some(d) => d,
            None => DEFAULT_FETCH_DEPTH,
        };
        let root = match root_view_id {
            Some(v) => v,
            None => workspace_id.clone(),
        };
        let local = self.cache.get(workspace_id, &root, fetch_depth);
        let request = FetchFolderRequest {
            workspace_id: workspace_id.clone(),
            depth: fetch_depth,
            root_view_id: root,
        };
        (local, request)
    }

    /// The completion of a background refresh.
    ///
    /// Merges the fetched subtree into the cache under the store's upsert
    /// policy — generation guard, depth-window merge, graft under the
    /// payload's parent — and publishes a notification scoped to the
    /// workspace exactly when the merge changed the cache.  A failed fetch
    /// never reaches this point: the caller drops it and the cache keeps
    /// its previous state.
    pub fn apply_refresh(
        &mut self,
        workspace_id: &String,
        fetched: &NodeTree,
        depth: u32,
        generation: u64,
    ) -> (r: Result<RefreshOutcome, FolderError>)
        ensures
            final(self).bus == old(self).bus,
            match r {
                Ok(out) => {
                    &&& upsert_post(
                        old(self).cache,
                        final(self).cache,
                        workspace_id@,
                        tree_model(*fetched),
                        crate::tree::opt_id_model(fetched.node.parent_id),
                        depth as nat,
                        generation,
                        Ok(out.upsert),
                    )
                    &&& match out.notification {
                        Some(n) => {
                            &&& out.upsert.changed
                            &&& n.workspace_id@ == workspace_id@
                            &&& tree_model(n.folder_view) == tree_model(*fetched)
                            &&& n.recipients@ == recipients_of(
                                old(self).bus.subscriptions@,
                                workspace_id@,
                            )
                        },
                        None => !out.upsert.changed,
                    }
                },
                Err(e) => {
                    &&& *final(self) == *old(self)
                    &&& upsert_post(
                        old(self).cache,
                        final(self).cache,
                        workspace_id@,
                        tree_model(*fetched),
                        crate::tree::opt_id_model(fetched.node.parent_id),
                        depth as nat,
                        generation,
                        Err(e),
                    )
                },
            },
    {
        let hint = match &fetched.node.parent_id {
            Some(p) => Some(p),
            None => None,
        };
        let upsert = match self.cache.upsert(workspace_id, fetched, hint, depth, generation) {
            Ok(u) => u,
            Err(e) => {
                return Err(e);
            },
        };
        let notification = if upsert.changed {
            Some(
                FolderNotification {
                    workspace_id: workspace_id.clone(),
                    folder_view: fetched.duplicate(),
                    recipients: self.bus.recipients(workspace_id),
                },
            )
        } else {
            None
        };
        Ok(RefreshOutcome { upsert, notification })
    }

    /// Write-through: a page creation routed to the remote authority.
    pub fn create_page(&self, workspace_id: &String, params: CreatePageParams) -> (r: RemoteRequest)
        ensures
            r matches RemoteRequest::CreatePage { workspace_id: w, params: p } && w@
                == workspace_id@ && p == params,
    {
        RemoteRequest::CreatePage { workspace_id: workspace_id.clone(), params }
    }

    /// Write-through: a page update routed to the remote authority.
    pub fn update_page(
        &self,
        workspace_id: &String,
        view_id: &String,
        params: UpdatePageParams,
    ) -> (r: RemoteRequest)
        ensures
            r matches RemoteRequest::UpdatePage { workspace_id: w, view_id: v, params: p } && w@
                == workspace_id@ && v@ == view_id@ && p == params,
    {
        RemoteRequest::UpdatePage {
            workspace_id: workspace_id.clone(),
            view_id: view_id.clone(),
            params,
        }
    }

    /// Write-through: moving a page to the trash flips its flag at the
    /// remote authority; the page is not deleted and can be restored.
    pub fn move_page_to_trash(&self, workspace_id: &String, view_id: &String) -> (r: RemoteRequest)
        ensures
            r matches RemoteRequest::MovePageToTrash { workspace_id: w, view_id: v } && w@
                == workspace_id@ && v@ == view_id@,
    {
        RemoteRequest::MovePageToTrash {
            workspace_id: workspace_id.clone(),
            view_id: view_id.clone(),
        }
    }

    /// Write-through: restoring a page from the trash.
    pub fn restore_page_from_trash(
        &self,
        workspace_id: &String,
        view_id: &String,
    ) -> (r: RemoteRequest)
        ensures
            r matches RemoteRequest::RestorePageFromTrash { workspace_id: w, view_id: v } && w@
                == workspace_id@ && v@ == view_id@,
    {
        RemoteRequest::RestorePageFromTrash {
            workspace_id: workspace_id.clone(),
            view_id: view_id.clone(),
        }
    }

    /// Write-through: a page duplication routed to the remote authority.
    pub fn duplicate_page(
        &self,
        workspace_id: &String,
        view_id: &String,
        params: DuplicatePageParams,
    ) -> (r: RemoteRequest)
        ensures
            r matches RemoteRequest::DuplicatePage { workspace_id: w, view_id: v, params: p } && w@
                == workspace_id@ && v@ == view_id@ && p == params,
    {
        RemoteRequest::DuplicatePage {
            workspace_id: workspace_id.clone(),
            view_id: view_id.clone(),
            params,
        }
    }

    /// Write-through: a page move routed to the remote authority.
    pub fn move_page(
        &self,
        workspace_id: &String,
        view_id: &String,
        params: MovePageParams,
    ) -> (r: RemoteRequest)
        ensures
            r matches RemoteRequest::MovePage { workspace_id: w, view_id: v, params: p } && w@
                == workspace_id@ && v@ == view_id@ && p == params,
    {
        RemoteRequest::MovePage {
            workspace_id: workspace_id.clone(),
            view_id: view_id.clone(),
            params,
        }
    }

    /// Write-through: a space creation routed to the remote authority.
    pub fn create_space(
        &self,
        workspace_id: &String,
        params: CreateSpaceParams,
    ) -> (r: RemoteRequest)
        ensures
            r matches RemoteRequest::CreateSpace { workspace_id: w, params: p } && w@
                == workspace_id@ && p == params,
    {
        RemoteRequest::CreateSpace { workspace_id: workspace_id.clone(), params }
    }

    /// Write-through: a space update routed to the remote authority.
    pub fn update_space(
        &self,
        workspace_id: &String,
        space_id: &String,
        params: UpdateSpaceParams,
    ) -> (r: RemoteRequest)
        ensures
            r matches RemoteRequest::UpdateSpace { workspace_id: w, space_id: s, params: p } && w@
                == workspace_id@ && s@ == space_id@ && p == params,
    {
        RemoteRequest::UpdateSpace {
            workspace_id: workspace_id.clone(),
            space_id: space_id.clone(),
            params,
        }
    }

    /// Write-through: a favorite-flag update routed to the remote
    /// authority.
    pub fn update_favorite_page(
        &self,
        workspace_id: &String,
        view_id: &String,
        params: FavoritePageParams,
    ) -> (r: RemoteRequest)
        ensures
            r matches RemoteRequest::UpdateFavoritePage { workspace_id: w, view_id: v, params: p }
                && w@ == workspace_id@ && v@ == view_id@ && p == params,
    {
        RemoteRequest::UpdateFavoritePage {
            workspace_id: workspace_id.clone(),
            view_id: view_id.clone(),
            params,
        }
    }

    /// The favorite pages of a workspace: exactly the cached nodes whose
    /// favorite flag is set and that are not in the trash, in preorder.
    pub fn get_favorite_pages(&self, workspace_id: &String) -> (r: Result<Vec<Node>, FolderError>)
        ensures
            match r {
                Ok(v) => match cached_tree(self.cache, workspace_id@) {
                    Some(t) => node_models(v@) == view_of(t, ViewKind::Favorite, 0),
                    None => false,
                },
                Err(e) => e == FolderError::NotFound && cached_tree(self.cache, workspace_id@)
                    == None::<TreeModel>,
            },
    {
        match self.cache.tree_of(workspace_id) {
            Some(t) => Ok(t.view_nodes(ViewKind::Favorite, 0)),
            None => Err(FolderError::NotFound),
        }
    }

    /// The recently modified pages of a workspace: exactly the cached,
    /// untrashed nodes whose recency key is at least `since`, in preorder.
    pub fn get_recent_pages(&self, workspace_id: &String, since: u64) -> (r: Result<
        Vec<Node>,
        FolderError,
    >)
        ensures
            match r {
                Ok(v) => match cached_tree(self.cache, workspace_id@) {
                    Some(t) => node_models(v@) == view_of(t, ViewKind::Recent, since),
                    None => false,
                },
                Err(e) => e == FolderError::NotFound && cached_tree(self.cache, workspace_id@)
                    == None::<TreeModel>,
            },
    {
        match self.cache.tree_of(workspace_id) {
            Some(t) => Ok(t.view_nodes(ViewKind::Recent, since)),
            None => Err(FolderError::NotFound),
        }
    }

    /// The trashed pages of a workspace: exactly the cached nodes whose
    /// trash flag is set, in preorder.
    pub fn get_trash_pages(&self, workspace_id: &String) -> (r: Result<Vec<Node>, FolderError>)
        ensures
            match r {
                Ok(v) => match cached_tree(self.cache, workspace_id@) {
                    Some(t) => node_models(v@) == view_of(t, ViewKind::Trash, 0),
                    None => false,
                },
                Err(e) => e == FolderError::NotFound && cached_tree(self.cache, workspace_id@)
                    == None::<TreeModel>,
            },
    {
        match self.cache.tree_of(workspace_id) {
            Some(t) => Ok(t.view_nodes(ViewKind::Trash, 0)),
            None => Err(FolderError::NotFound),
        }
    }
}

} // verus!
