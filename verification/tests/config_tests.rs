use watchman::config::{Args, Config, EventFilter};

fn base_args() -> Args {
    Args {
        path: vec!["/tmp/watch-me".to_string()],
        recursive: false,
        backend: "auto".to_string(),
        json: true,
        debounce: 100,
        log: "info".to_string(),
        once: false,
        filter: None,
    }
}

#[test]
fn from_string_recognizes_the_vocabulary() {
    assert_eq!(EventFilter::from_string("create"), Some(EventFilter::Create));
    assert_eq!(EventFilter::from_string("modify"), Some(EventFilter::Modify));
    assert_eq!(EventFilter::from_string("remove"), Some(EventFilter::Remove));
    assert_eq!(EventFilter::from_string("rename"), Some(EventFilter::Rename));
}

#[test]
fn from_string_is_case_insensitive() {
    assert_eq!(EventFilter::from_string("Create"), Some(EventFilter::Create));
    assert_eq!(EventFilter::from_string("MODIFY"), Some(EventFilter::Modify));
    assert_eq!(EventFilter::from_string("ReMoVe"), Some(EventFilter::Remove));
    assert_eq!(EventFilter::from_string("RENAME"), Some(EventFilter::Rename));
}

#[test]
fn from_string_rejects_unknown_tokens() {
    assert_eq!(EventFilter::from_string(""), None);
    assert_eq!(EventFilter::from_string("created"), None);
    assert_eq!(EventFilter::from_string("creat"), None);
    assert_eq!(EventFilter::from_string("access"), None);
    assert_eq!(EventFilter::from_string("create "), None);
}

#[test]
fn from_args_without_filter_list() {
    let config = Config::from_args(base_args());
    assert_eq!(config.paths, vec!["/tmp/watch-me".to_string()]);
    assert!(!config.recursive);
    assert!(config.json_output);
    assert!(config.filters.is_none());
}

#[test]
fn from_args_keeps_recognized_filters_in_order() {
    let mut args = base_args();
    args.filter = Some(vec![
        "rename".to_string(),
        "bogus".to_string(),
        "Create".to_string(),
    ]);
    let config = Config::from_args(args);
    assert_eq!(
        config.filters,
        Some(vec![EventFilter::Rename, EventFilter::Create])
    );
}

#[test]
fn from_args_with_empty_filter_list_keeps_it_present() {
    let mut args = base_args();
    args.filter = Some(vec!["nonsense".to_string()]);
    let config = Config::from_args(args);
    assert_eq!(config.filters, Some(vec![]));
}

#[test]
fn from_args_carries_flags_over() {
    let mut args = base_args();
    args.recursive = true;
    args.json = false;
    args.path = vec!["/a".to_string(), "/b".to_string()];
    let config = Config::from_args(args);
    assert!(config.recursive);
    assert!(!config.json_output);
    assert_eq!(config.paths.len(), 2);
}
