use watchman::event::{
    classify, classify_kind, CreateKind, DataChange, ModifyKind, NormalizedKind, RawKind,
    RawNotification, RemoveKind, RenameMode,
};

#[test]
fn create_kinds_map_one_to_one() {
    assert_eq!(
        classify_kind(&RawKind::Create(CreateKind::File), false),
        Some(NormalizedKind::CreateFile)
    );
    assert_eq!(
        classify_kind(&RawKind::Create(CreateKind::Folder), false),
        Some(NormalizedKind::CreateFolder)
    );
    assert_eq!(
        classify_kind(&RawKind::Create(CreateKind::Any), false),
        Some(NormalizedKind::Create)
    );
    assert_eq!(
        classify_kind(&RawKind::Create(CreateKind::Other), false),
        Some(NormalizedKind::Create)
    );
}

#[test]
fn remove_kinds_map_one_to_one() {
    assert_eq!(
        classify_kind(&RawKind::Remove(RemoveKind::File), true),
        Some(NormalizedKind::RemoveFile)
    );
    assert_eq!(
        classify_kind(&RawKind::Remove(RemoveKind::Folder), true),
        Some(NormalizedKind::RemoveFolder)
    );
    assert_eq!(
        classify_kind(&RawKind::Remove(RemoveKind::Any), true),
        Some(NormalizedKind::Remove)
    );
}

#[test]
fn data_modifications_map_by_sub_kind() {
    assert_eq!(
        classify_kind(&RawKind::Modify(ModifyKind::Data(DataChange::Content)), true),
        Some(NormalizedKind::ModifyContent)
    );
    assert_eq!(
        classify_kind(&RawKind::Modify(ModifyKind::Data(DataChange::Size)), true),
        Some(NormalizedKind::ModifySize)
    );
    assert_eq!(
        classify_kind(&RawKind::Modify(ModifyKind::Data(DataChange::Any)), true),
        Some(NormalizedKind::ModifyData)
    );
    assert_eq!(
        classify_kind(&RawKind::Modify(ModifyKind::Data(DataChange::Other)), true),
        Some(NormalizedKind::ModifyData)
    );
}

#[test]
fn metadata_and_access_are_suppressed() {
    assert_eq!(classify_kind(&RawKind::Modify(ModifyKind::Metadata), false), None);
    assert_eq!(classify_kind(&RawKind::Modify(ModifyKind::Metadata), true), None);
    assert_eq!(classify_kind(&RawKind::Access, false), None);
    assert_eq!(classify_kind(&RawKind::Access, true), None);
}

#[test]
fn rename_disambiguation_rewrites_to_remove_file() {
    let from = RawKind::Modify(ModifyKind::Name(RenameMode::From));
    let any = RawKind::Modify(ModifyKind::Name(RenameMode::Any));
    assert_eq!(classify_kind(&from, false), Some(NormalizedKind::RemoveFile));
    assert_eq!(classify_kind(&any, false), Some(NormalizedKind::RemoveFile));
    assert_eq!(classify_kind(&from, true), Some(NormalizedKind::RenameFrom));
    assert_eq!(classify_kind(&any, true), Some(NormalizedKind::Rename));
}

#[test]
fn other_rename_modes_ignore_the_probe() {
    let to = RawKind::Modify(ModifyKind::Name(RenameMode::To));
    let both = RawKind::Modify(ModifyKind::Name(RenameMode::Both));
    let other = RawKind::Modify(ModifyKind::Name(RenameMode::Other));
    assert_eq!(classify_kind(&to, false), Some(NormalizedKind::RenameTo));
    assert_eq!(classify_kind(&to, true), Some(NormalizedKind::RenameTo));
    assert_eq!(classify_kind(&both, false), Some(NormalizedKind::RenameBoth));
    assert_eq!(classify_kind(&both, true), Some(NormalizedKind::RenameBoth));
    assert_eq!(classify_kind(&other, false), Some(NormalizedKind::Rename));
    assert_eq!(classify_kind(&other, true), Some(NormalizedKind::Rename));
}

#[test]
fn top_level_catch_alls_map_directly() {
    assert_eq!(classify_kind(&RawKind::Any, false), Some(NormalizedKind::Any));
    assert_eq!(classify_kind(&RawKind::Other, false), Some(NormalizedKind::Other));
    assert_eq!(
        classify_kind(&RawKind::Modify(ModifyKind::Any), false),
        Some(NormalizedKind::ModifyData)
    );
    assert_eq!(
        classify_kind(&RawKind::Modify(ModifyKind::Other), false),
        Some(NormalizedKind::ModifyData)
    );
}

#[test]
fn classify_keeps_the_path_list() {
    let raw = RawNotification {
        kind: RawKind::Create(CreateKind::File),
        paths: vec!["/a/b".to_string(), "/c".to_string()],
    };
    let ev = classify(raw, false).unwrap();
    assert_eq!(ev.kind, NormalizedKind::CreateFile);
    assert_eq!(ev.paths, vec!["/a/b".to_string(), "/c".to_string()]);
}

#[test]
fn classify_suppresses_for_any_path_list() {
    let raw = RawNotification {
        kind: RawKind::Modify(ModifyKind::Metadata),
        paths: vec!["/a".to_string()],
    };
    assert!(classify(raw, true).is_none());
    let raw = RawNotification { kind: RawKind::Access, paths: vec![] };
    assert!(classify(raw, false).is_none());
}
