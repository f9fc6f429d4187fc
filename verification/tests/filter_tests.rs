use watchman::config::EventFilter;
use watchman::event::NormalizedKind;
use watchman::filter::accepts;

const ALL_KINDS: [NormalizedKind; 15] = [
    NormalizedKind::CreateFile,
    NormalizedKind::CreateFolder,
    NormalizedKind::Create,
    NormalizedKind::ModifyContent,
    NormalizedKind::ModifySize,
    NormalizedKind::ModifyData,
    NormalizedKind::RemoveFile,
    NormalizedKind::RemoveFolder,
    NormalizedKind::Remove,
    NormalizedKind::RenameFrom,
    NormalizedKind::RenameTo,
    NormalizedKind::RenameBoth,
    NormalizedKind::Rename,
    NormalizedKind::Any,
    NormalizedKind::Other,
];

fn row(filter: EventFilter) -> Vec<NormalizedKind> {
    match filter {
        EventFilter::Create => vec![
            NormalizedKind::CreateFile,
            NormalizedKind::CreateFolder,
            NormalizedKind::Create,
        ],
        EventFilter::Modify => vec![
            NormalizedKind::ModifyContent,
            NormalizedKind::ModifySize,
            NormalizedKind::ModifyData,
        ],
        EventFilter::Remove => vec![
            NormalizedKind::RemoveFile,
            NormalizedKind::RemoveFolder,
            NormalizedKind::Remove,
        ],
        EventFilter::Rename => vec![
            NormalizedKind::RenameFrom,
            NormalizedKind::RenameTo,
            NormalizedKind::RenameBoth,
            NormalizedKind::Rename,
        ],
    }
}

#[test]
fn each_filter_accepts_exactly_its_row() {
    for filter in [
        EventFilter::Create,
        EventFilter::Modify,
        EventFilter::Remove,
        EventFilter::Rename,
    ] {
        let set = Some(vec![filter]);
        let matched = row(filter);
        for kind in ALL_KINDS {
            assert_eq!(accepts(&set, &kind), matched.contains(&kind), "{:?} vs {:?}", filter, kind);
        }
    }
}

#[test]
fn no_filter_set_accepts_every_kind() {
    for kind in ALL_KINDS {
        assert!(accepts(&None, &kind));
    }
}

#[test]
fn empty_filter_set_accepts_nothing() {
    for kind in ALL_KINDS {
        assert!(!accepts(&Some(vec![]), &kind));
    }
}

#[test]
fn any_and_other_match_no_filter() {
    let every = Some(vec![
        EventFilter::Create,
        EventFilter::Modify,
        EventFilter::Remove,
        EventFilter::Rename,
    ]);
    assert!(!accepts(&every, &NormalizedKind::Any));
    assert!(!accepts(&every, &NormalizedKind::Other));
}

#[test]
fn a_later_filter_in_the_set_still_matches() {
    let set = Some(vec![EventFilter::Create, EventFilter::Rename]);
    assert!(accepts(&set, &NormalizedKind::RenameTo));
    assert!(accepts(&set, &NormalizedKind::CreateFile));
    assert!(!accepts(&set, &NormalizedKind::Remove));
}
