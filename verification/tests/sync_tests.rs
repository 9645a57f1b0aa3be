use folder_sync::error::FolderError;
use folder_sync::manager::{
    CreatePageParams, CreateSpaceParams, DuplicatePageParams, FavoritePageParams, FolderManager,
    MovePageParams, RemoteRequest, UpdatePageParams, UpdateSpaceParams,
};
use folder_sync::notify::NotificationBus;
use folder_sync::store::CacheStore;
use folder_sync::tree::{LayoutKind, Node, NodeTree};

fn node(id: &str) -> Node {
    Node {
        id: id.to_string(),
        name: id.to_string(),
        icon: None,
        layout: LayoutKind::Document,
        parent_id: None,
        is_space: false,
        is_favorite: false,
        is_trashed: false,
        modified: 0,
    }
}

fn leaf(id: &str) -> NodeTree {
    NodeTree { node: node(id), children: vec![] }
}

fn tree(id: &str, children: Vec<NodeTree>) -> NodeTree {
    NodeTree { node: node(id), children }
}

#[test]
fn never_synced_workspace_returns_not_found_synchronously() {
    let m = FolderManager::new();
    let ws = "w1".to_string();
    let (local, request) = m.get_workspace_folder(&ws, None, None);
    match local {
        Err(FolderError::NotFound) => {}
        other => panic!("expected NotFound, got {:?}", other.map(|t| t.node.id)),
    }
    // The background fetch is described regardless of the cache miss.
    assert_eq!(request.workspace_id, "w1");
    assert_eq!(request.depth, 10);
    assert_eq!(request.root_view_id, "w1");
}

#[test]
fn read_defaults_and_explicit_parameters() {
    let m = FolderManager::new();
    let ws = "w2".to_string();
    let (_, request) = m.get_workspace_folder(&ws, Some(1), Some("space-a".to_string()));
    assert_eq!(request.depth, 1);
    assert_eq!(request.root_view_id, "space-a");
}

#[test]
fn refresh_then_read_converges_to_fetched_tree() {
    let mut m = FolderManager::new();
    let ws = "w1".to_string();
    let fetched = tree("w1", vec![leaf("a"), leaf("b")]);
    let outcome = m.apply_refresh(&ws, &fetched, 1, 1).unwrap();
    assert!(outcome.upsert.changed);
    assert!(!outcome.upsert.stale);
    assert_eq!(outcome.upsert.written, 3);
    let (local, _) = m.get_workspace_folder(&ws, Some(1), None);
    let got = local.unwrap();
    assert!(got.same_tree(&fetched.extract(1)));
}

#[test]
fn merging_same_payload_twice_is_idempotent_and_notifies_once() {
    let mut m = FolderManager::new();
    let ws = "w1".to_string();
    m.bus.subscribe(&ws, 7);
    let fetched = tree("w1", vec![leaf("a")]);
    let first = m.apply_refresh(&ws, &fetched, 1, 1).unwrap();
    assert!(first.upsert.changed);
    let n = first.notification.expect("first refresh must notify");
    assert_eq!(n.workspace_id, "w1");
    assert_eq!(n.recipients, vec![7]);
    // The identical payload arrives again: the cache stays as it is and no
    // second notification fires.
    let second = m.apply_refresh(&ws, &fetched, 1, 2).unwrap();
    assert!(!second.upsert.changed);
    assert!(second.notification.is_none());
    let (local, _) = m.get_workspace_folder(&ws, Some(1), None);
    assert!(local.unwrap().same_tree(&fetched.extract(1)));
}

#[test]
fn extract_depth_zero_keeps_only_root() {
    let t = tree("r", vec![tree("a", vec![leaf("b")])]);
    let cut = t.extract(0);
    assert_eq!(cut.node.id, "r");
    assert_eq!(cut.children.len(), 0);
}

#[test]
fn extract_depth_one_keeps_no_node_beyond_one_edge() {
    let t = tree("r", vec![tree("a", vec![leaf("b")]), leaf("c")]);
    let cut = t.extract(1);
    assert!(cut.contains_id(&"a".to_string()));
    assert!(cut.contains_id(&"c".to_string()));
    assert!(!cut.contains_id(&"b".to_string()));
    assert_eq!(cut.children[0].children.len(), 0);
}

#[test]
fn merge_removes_node_absent_from_fetched_window() {
    let cached = tree("r", vec![leaf("a"), leaf("b")]);
    let fetched = tree("r", vec![leaf("a")]);
    let (merged, changed) = cached.merge_with_change(&fetched, 1);
    assert!(changed);
    assert!(!merged.contains_id(&"b".to_string()));
    assert!(merged.contains_id(&"a".to_string()));
}

#[test]
fn merge_keeps_nodes_below_fetched_window() {
    // "b" lies two edges down; a depth-1 fetch must not erase it.
    let cached = tree("r", vec![tree("a", vec![leaf("b")])]);
    let fetched = tree("r", vec![leaf("a")]);
    let (merged, _) = cached.merge_with_change(&fetched, 1);
    assert!(merged.contains_id(&"b".to_string()));
}

#[test]
fn merge_takes_incoming_fields_and_order() {
    let mut renamed = node("a");
    renamed.name = "renamed".to_string();
    let cached = tree("r", vec![leaf("a"), leaf("b")]);
    let fetched = NodeTree {
        node: node("r"),
        children: vec![leaf("b"), NodeTree { node: renamed, children: vec![] }],
    };
    let (merged, changed) = cached.merge_with_change(&fetched, 1);
    assert!(changed);
    assert_eq!(merged.children[0].node.id, "b");
    assert_eq!(merged.children[1].node.id, "a");
    assert_eq!(merged.children[1].node.name, "renamed");
}

#[test]
fn stale_generation_is_rejected_by_the_guard() {
    let mut store = CacheStore::new();
    let ws = "w1".to_string();
    let newer = tree("w1", vec![leaf("a")]);
    let older = tree("w1", vec![leaf("old")]);
    store.upsert(&ws, &newer, None, 1, 5).unwrap();
    let out = store.upsert(&ws, &older, None, 1, 3).unwrap();
    assert!(out.stale);
    assert!(!out.changed);
    assert_eq!(out.written, 0);
    let got = store.get(&ws, &ws, 1).unwrap();
    assert!(got.same_tree(&newer.extract(1)));
}

#[test]
fn unknown_subtree_is_grafted_under_parent_hint() {
    let mut store = CacheStore::new();
    let ws = "w1".to_string();
    store.upsert(&ws, &tree("w1", vec![leaf("a")]), None, 1, 1).unwrap();
    let mut page = node("p");
    page.parent_id = Some("a".to_string());
    let sub = NodeTree { node: page, children: vec![] };
    let parent = "a".to_string();
    let out = store.upsert(&ws, &sub, Some(&parent), 1, 2).unwrap();
    assert!(out.changed);
    let got = store.get(&ws, &ws, 10).unwrap();
    assert!(got.contains_id(&"p".to_string()));
}

#[test]
fn unrelated_subtree_is_rejected_not_grafted() {
    let mut store = CacheStore::new();
    let ws = "w1".to_string();
    store.upsert(&ws, &tree("w1", vec![leaf("a")]), None, 1, 1).unwrap();
    let err = store.upsert(&ws, &leaf("stranger"), None, 1, 2).unwrap_err();
    assert_eq!(err, FolderError::InvalidParams);
    let got = store.get(&ws, &ws, 10).unwrap();
    assert!(!got.contains_id(&"stranger".to_string()));
}

#[test]
fn store_distinguishes_unknown_root_from_unknown_workspace() {
    let mut store = CacheStore::new();
    let ws = "w1".to_string();
    store.upsert(&ws, &tree("w1", vec![leaf("a")]), None, 1, 1).unwrap();
    assert_eq!(store.get(&ws, &"nope".to_string(), 1).unwrap_err(), FolderError::NotFound);
    assert_eq!(
        store.get(&"other".to_string(), &ws, 1).unwrap_err(),
        FolderError::NotFound
    );
    // A point lookup may start below the workspace root.
    let sub = store.get(&ws, &"a".to_string(), 5).unwrap();
    assert_eq!(sub.node.id, "a");
}

#[test]
fn mutations_do_not_touch_the_cache_synchronously() {
    let mut m = FolderManager::new();
    let ws = "w1".to_string();
    let fetched = tree("w1", vec![leaf("a")]);
    m.apply_refresh(&ws, &fetched, 1, 1).unwrap();
    let (before, _) = m.get_workspace_folder(&ws, Some(1), None);
    let before = before.unwrap();
    // Route a handful of mutations; each only builds a remote request.
    let _ = m.move_page_to_trash(&ws, &"a".to_string());
    let _ = m.create_page(
        &ws,
        CreatePageParams {
            parent_view_id: "w1".to_string(),
            name: "new page".to_string(),
            layout: LayoutKind::Document,
        },
    );
    let _ = m.move_page(
        &ws,
        &"a".to_string(),
        MovePageParams { new_parent_view_id: "w1".to_string(), prev_view_id: None },
    );
    // A read issued before any refresh completes still sees the
    // pre-mutation data.
    let (after, _) = m.get_workspace_folder(&ws, Some(1), None);
    assert!(after.unwrap().same_tree(&before));
}

#[test]
fn mutation_requests_carry_the_callers_parameters() {
    let m = FolderManager::new();
    let ws = "w9".to_string();
    let view = "v1".to_string();
    match m.move_page_to_trash(&ws, &view) {
        RemoteRequest::MovePageToTrash { workspace_id, view_id } => {
            assert_eq!(workspace_id, "w9");
            assert_eq!(view_id, "v1");
        }
        _ => panic!("wrong request variant"),
    }
    match m.restore_page_from_trash(&ws, &view) {
        RemoteRequest::RestorePageFromTrash { workspace_id, view_id } => {
            assert_eq!(workspace_id, "w9");
            assert_eq!(view_id, "v1");
        }
        _ => panic!("wrong request variant"),
    }
}

#[test]
fn every_mutation_builds_its_own_request() {
    let m = FolderManager::new();
    let ws = "w".to_string();
    let view = "v".to_string();
    match m.create_page(
        &ws,
        CreatePageParams {
            parent_view_id: "p".to_string(),
            name: "n".to_string(),
            layout: LayoutKind::Board,
        },
    ) {
        RemoteRequest::CreatePage { workspace_id, params } => {
            assert_eq!(workspace_id, "w");
            assert_eq!(params.parent_view_id, "p");
            assert_eq!(params.name, "n");
            assert_eq!(params.layout, LayoutKind::Board);
        }
        _ => panic!("wrong request variant"),
    }
    match m.update_page(&ws, &view, UpdatePageParams { name: "renamed".to_string(), icon: None })
    {
        RemoteRequest::UpdatePage { view_id, params, .. } => {
            assert_eq!(view_id, "v");
            assert_eq!(params.name, "renamed");
        }
        _ => panic!("wrong request variant"),
    }
    match m.duplicate_page(&ws, &view, DuplicatePageParams { suffix: " (copy)".to_string() }) {
        RemoteRequest::DuplicatePage { params, .. } => assert_eq!(params.suffix, " (copy)"),
        _ => panic!("wrong request variant"),
    }
    match m.create_space(&ws, CreateSpaceParams { name: "space".to_string(), icon: None }) {
        RemoteRequest::CreateSpace { params, .. } => assert_eq!(params.name, "space"),
        _ => panic!("wrong request variant"),
    }
    match m.update_space(&ws, &"s1".to_string(), UpdateSpaceParams { name: "sp".to_string() }) {
        RemoteRequest::UpdateSpace { space_id, params, .. } => {
            assert_eq!(space_id, "s1");
            assert_eq!(params.name, "sp");
        }
        _ => panic!("wrong request variant"),
    }
    match m.update_favorite_page(&ws, &view, FavoritePageParams { is_favorite: true }) {
        RemoteRequest::UpdateFavoritePage { view_id, params, .. } => {
            assert_eq!(view_id, "v");
            assert!(params.is_favorite);
        }
        _ => panic!("wrong request variant"),
    }
}

#[test]
fn slow_older_fetch_cannot_regress_a_newer_refresh() {
    let mut m = FolderManager::new();
    let ws = "w1".to_string();
    // The fetch that started second completes first, with newer data.
    let newer = tree("w1", vec![leaf("new")]);
    let outcome = m.apply_refresh(&ws, &newer, 1, 9).unwrap();
    assert!(!outcome.upsert.stale);
    // The fetch that started first straggles in afterwards.
    let older = tree("w1", vec![leaf("old")]);
    let outcome = m.apply_refresh(&ws, &older, 1, 4).unwrap();
    assert!(outcome.upsert.stale);
    assert!(outcome.notification.is_none());
    let (local, _) = m.get_workspace_folder(&ws, Some(1), None);
    assert!(local.unwrap().same_tree(&newer.extract(1)));
}

#[test]
fn views_follow_the_flags_and_only_the_flags() {
    let mut fav = node("fav");
    fav.is_favorite = true;
    fav.modified = 50;
    let mut fav_trashed = node("ft");
    fav_trashed.is_favorite = true;
    fav_trashed.is_trashed = true;
    let mut trashed = node("tr");
    trashed.is_trashed = true;
    let mut recent = node("re");
    recent.modified = 100;
    let root = NodeTree {
        node: node("w1"),
        children: vec![
            NodeTree { node: fav, children: vec![] },
            NodeTree { node: fav_trashed, children: vec![] },
            NodeTree { node: trashed, children: vec![] },
            NodeTree { node: recent, children: vec![] },
        ],
    };
    let mut m = FolderManager::new();
    let ws = "w1".to_string();
    m.apply_refresh(&ws, &root, 1, 1).unwrap();

    let favorites = m.get_favorite_pages(&ws).unwrap();
    assert_eq!(favorites.len(), 1);
    assert_eq!(favorites[0].id, "fav");

    let trash = m.get_trash_pages(&ws).unwrap();
    assert_eq!(trash.len(), 2);
    assert_eq!(trash[0].id, "ft");
    assert_eq!(trash[1].id, "tr");

    let recents = m.get_recent_pages(&ws, 60).unwrap();
    assert_eq!(recents.len(), 1);
    assert_eq!(recents[0].id, "re");

    let never = m.get_favorite_pages(&"unsynced".to_string()).unwrap_err();
    assert_eq!(never, FolderError::NotFound);
}

#[test]
fn bus_delivers_to_subscribers_of_the_workspace_only() {
    let mut bus = NotificationBus::new();
    let w1 = "w1".to_string();
    let w2 = "w2".to_string();
    bus.subscribe(&w1, 1);
    bus.subscribe(&w2, 2);
    bus.subscribe(&w1, 3);
    assert_eq!(bus.recipients(&w1), vec![1, 3]);
    assert_eq!(bus.recipients(&w2), vec![2]);
    bus.unsubscribe(1);
    assert_eq!(bus.recipients(&w1), vec![3]);
    bus.unsubscribe(3);
    assert_eq!(bus.recipients(&w1), Vec::<u64>::new());
}
