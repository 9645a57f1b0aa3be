use folder_sync::changeset::{GroupRowsChangesetPB, InsertedRowPB, RowPB};
use folder_sync::error::FolderError;
use folder_sync::import::{
    import_payload, import_tabular, ImportItemPayload, ImportPayload, MAX_IMPORT_ROWS,
};
use folder_sync::search::{ResultIconPB, ResultIconTypePB};
use folder_sync::tree::{Icon, IconKind, LayoutKind};

fn csv_rows(n: usize) -> Vec<String> {
    (0..n).map(|i| format!("row-{},cell,cell", i)).collect()
}

#[test]
fn import_492_row_csv_file_test() {
    let item = ImportItemPayload { name: "csv_492r_17c.csv".to_string(), rows: csv_rows(492) };
    let view = import_tabular(
        &"workspace".to_string(),
        &"view-1".to_string(),
        &item,
    )
    .unwrap();
    assert_eq!(view.row_count, 492);
    assert_eq!(view.layout, LayoutKind::Grid);
    assert_eq!(view.name, "csv_492r_17c.csv");
    assert_eq!(view.parent_view_id, "workspace");
}

#[test]
fn import_10240_row_csv_file_test() {
    let item = ImportItemPayload { name: "csv_10240r_15c.csv".to_string(), rows: csv_rows(10240) };
    let err = import_tabular(
        &"workspace".to_string(),
        &"view-2".to_string(),
        &item,
    )
    .unwrap_err();
    assert_eq!(err, FolderError::InvalidParams);
}

#[test]
fn import_boundary_row_count_is_accepted() {
    let item = ImportItemPayload { name: "edge.csv".to_string(), rows: csv_rows(MAX_IMPORT_ROWS) };
    let view = import_tabular(&"w".to_string(), &"v".to_string(), &item).unwrap();
    assert_eq!(view.row_count, MAX_IMPORT_ROWS);
}

#[test]
fn batch_import_is_all_or_nothing() {
    let payload = ImportPayload {
        parent_view_id: "w".to_string(),
        items: vec![
            ImportItemPayload { name: "ok.csv".to_string(), rows: csv_rows(3) },
            ImportItemPayload { name: "big.csv".to_string(), rows: csv_rows(MAX_IMPORT_ROWS + 1) },
        ],
    };
    let ids = vec!["v1".to_string(), "v2".to_string()];
    assert_eq!(import_payload(&payload, &ids).unwrap_err(), FolderError::InvalidParams);

    let payload = ImportPayload {
        parent_view_id: "w".to_string(),
        items: vec![
            ImportItemPayload { name: "a.csv".to_string(), rows: csv_rows(2) },
            ImportItemPayload { name: "b.csv".to_string(), rows: csv_rows(5) },
        ],
    };
    let views = import_payload(&payload, &ids).unwrap();
    assert_eq!(views.len(), 2);
    assert_eq!(views[0].id, "v1");
    assert_eq!(views[0].row_count, 2);
    assert_eq!(views[1].id, "v2");
    assert_eq!(views[1].row_count, 5);

    // One id per item is required.
    let one_id = vec!["v1".to_string()];
    assert_eq!(import_payload(&payload, &one_id).unwrap_err(), FolderError::InvalidParams);
}

fn row(id: &str) -> RowPB {
    RowPB { id: id.to_string(), height: 60 }
}

#[test]
fn changeset_emptiness_tracks_all_three_lists() {
    let empty = GroupRowsChangesetPB {
        group_id: "g".to_string(),
        inserted_rows: vec![],
        deleted_rows: vec![],
        updated_rows: vec![],
    };
    assert!(empty.is_empty());
    let only_deleted = GroupRowsChangesetPB::delete("g".to_string(), vec!["r1".to_string()]);
    assert!(!only_deleted.is_empty());
}

#[test]
fn changeset_constructors_fill_exactly_one_list() {
    let ins = GroupRowsChangesetPB::insert(
        "g1".to_string(),
        vec![InsertedRowPB { row: row("r1"), index: Some(0), is_new: true }],
    );
    assert_eq!(ins.group_id, "g1");
    assert_eq!(ins.inserted_rows.len(), 1);
    assert_eq!(ins.inserted_rows[0].row.id, "r1");
    assert!(ins.deleted_rows.is_empty());
    assert!(ins.updated_rows.is_empty());

    let del = GroupRowsChangesetPB::delete("g2".to_string(), vec!["a".to_string(), "b".to_string()]);
    assert_eq!(del.group_id, "g2");
    assert_eq!(del.deleted_rows, vec!["a".to_string(), "b".to_string()]);
    assert!(del.inserted_rows.is_empty());
    assert!(del.updated_rows.is_empty());

    let upd = GroupRowsChangesetPB::update("g3".to_string(), vec![row("r2")]);
    assert_eq!(upd.group_id, "g3");
    assert_eq!(upd.updated_rows.len(), 1);
    assert_eq!(upd.updated_rows[0].id, "r2");
    assert!(upd.inserted_rows.is_empty());
    assert!(upd.deleted_rows.is_empty());
}

#[test]
fn icon_type_codes_round_trip() {
    assert_eq!(i64::from(ResultIconTypePB::Emoji), 0);
    assert_eq!(i64::from(ResultIconTypePB::Url), 1);
    assert_eq!(i64::from(ResultIconTypePB::Icon), 2);
    assert_eq!(ResultIconTypePB::from(0i64), ResultIconTypePB::Emoji);
    assert_eq!(ResultIconTypePB::from(1i64), ResultIconTypePB::Url);
    assert_eq!(ResultIconTypePB::from(2i64), ResultIconTypePB::Icon);
    for ty in [ResultIconTypePB::Emoji, ResultIconTypePB::Url, ResultIconTypePB::Icon] {
        assert_eq!(ResultIconTypePB::from(i64::from(ty)), ty);
    }
}

#[test]
fn unknown_icon_code_falls_back_to_emoji() {
    assert_eq!(ResultIconTypePB::from(99i64), ResultIconTypePB::Emoji);
    assert_eq!(ResultIconTypePB::from(-1i64), ResultIconTypePB::Emoji);
}

#[test]
fn result_icons_and_tree_icons_convert_both_ways() {
    assert_eq!(IconKind::from(ResultIconTypePB::Icon), IconKind::Glyph);
    assert_eq!(IconKind::from(ResultIconTypePB::Emoji), IconKind::Emoji);
    assert_eq!(ResultIconTypePB::from(IconKind::Glyph), ResultIconTypePB::Icon);
    assert_eq!(ResultIconTypePB::from(IconKind::Url), ResultIconTypePB::Url);
    let icon = Icon::from(ResultIconPB { ty: ResultIconTypePB::Url, value: "u".to_string() });
    assert_eq!(icon.kind, IconKind::Url);
    assert_eq!(icon.value, "u");
    let back = ResultIconPB::from(icon);
    assert_eq!(back.ty, ResultIconTypePB::Url);
    assert_eq!(back.value, "u");
}

#[test]
fn result_icon_defaults_to_emoji_kind() {
    let icon = ResultIconPB::default();
    assert_eq!(icon.ty, ResultIconTypePB::Emoji);
    assert_eq!(icon.value, "");
}
