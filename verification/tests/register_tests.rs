use watchman::config::Config;
use watchman::watchman::Watchman;

fn config(paths: Vec<String>, recursive: bool) -> Config {
    Config { paths, recursive, json_output: true, filters: None }
}

fn make_watcher() -> notify::RecommendedWatcher {
    notify::recommended_watcher(move |_res: notify::Result<notify::Event>| {}).unwrap()
}

#[test]
fn register_with_no_paths_always_succeeds() {
    let w = Watchman::new(config(vec![], false));
    let mut watcher = make_watcher();
    assert!(w.register(&mut watcher).is_ok());
}

#[test]
fn register_subscribes_an_existing_path() {
    let w = Watchman::new(config(vec!["/tmp".to_string()], false));
    let mut watcher = make_watcher();
    assert!(w.register(&mut watcher).is_ok());
}

#[test]
fn register_fails_fast_on_a_missing_path() {
    let w = Watchman::new(config(
        vec!["/tmp".to_string(), "/definitely/not/here/814711".to_string()],
        false,
    ));
    let mut watcher = make_watcher();
    let err = w.register(&mut watcher).unwrap_err();
    assert!(!err.message.is_empty());
}

#[test]
fn recursive_mode_follows_the_flag() {
    let w = Watchman::new(config(vec![], true));
    assert_eq!(w.recursive_mode(), notify::RecursiveMode::Recursive);
    let w = Watchman::new(config(vec![], false));
    assert_eq!(w.recursive_mode(), notify::RecursiveMode::NonRecursive);
}
