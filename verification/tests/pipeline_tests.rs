use watchman::config::{Config, EventFilter};
use watchman::event::{
    CreateKind, DataChange, ModifyKind, RawKind, RawNotification, RenameMode,
};
use watchman::watchman::{step_after_write, ChannelItem, LoopStep, SinkStatus, Watchman};

fn config(filters: Option<Vec<EventFilter>>) -> Config {
    Config {
        paths: vec!["/tmp".to_string()],
        recursive: false,
        json_output: true,
        filters,
    }
}

fn notification(kind: RawKind, path: &str) -> RawNotification {
    RawNotification { kind, paths: vec![path.to_string()] }
}

#[test]
fn file_creation_with_no_filters_is_emitted() {
    let w = Watchman::new(config(None));
    let raw = notification(RawKind::Create(CreateKind::File), "/tmp/new-file");
    let line = w.process_event(raw, true).unwrap();
    assert_eq!(line, "{\"kind\": \"CreateFile\", \"paths\": [\"/tmp/new-file\"]}");
}

#[test]
fn content_modification_passes_a_modify_filter() {
    let w = Watchman::new(config(Some(vec![EventFilter::Modify])));
    let raw = notification(RawKind::Modify(ModifyKind::Data(DataChange::Content)), "/tmp/f");
    let line = w.process_event(raw, true).unwrap();
    assert_eq!(line, "{\"kind\": \"ModifyContent\", \"paths\": [\"/tmp/f\"]}");
}

#[test]
fn content_modification_is_dropped_by_a_create_filter() {
    let w = Watchman::new(config(Some(vec![EventFilter::Create])));
    let raw = notification(RawKind::Modify(ModifyKind::Data(DataChange::Content)), "/tmp/f");
    assert!(w.process_event(raw, true).is_none());
}

#[test]
fn rename_to_passes_a_rename_filter() {
    let w = Watchman::new(config(Some(vec![EventFilter::Rename])));
    let raw = notification(RawKind::Modify(ModifyKind::Name(RenameMode::To)), "/tmp/dst");
    let line = w.process_event(raw, false).unwrap();
    assert_eq!(line, "{\"kind\": \"RenameTo\", \"paths\": [\"/tmp/dst\"]}");
}

#[test]
fn rewritten_remove_matches_remove_not_rename() {
    let raw_kind = RawKind::Modify(ModifyKind::Name(RenameMode::From));
    let rename_only = Watchman::new(config(Some(vec![EventFilter::Rename])));
    assert!(rename_only
        .process_event(notification(raw_kind, "/tmp/gone"), false)
        .is_none());
    let remove_too = Watchman::new(config(Some(vec![EventFilter::Remove])));
    let line = remove_too
        .process_event(notification(raw_kind, "/tmp/gone"), false)
        .unwrap();
    assert_eq!(line, "{\"kind\": \"RemoveFile\", \"paths\": [\"/tmp/gone\"]}");
}

#[test]
fn suppressed_kinds_produce_nothing_whatever_the_filters() {
    let w = Watchman::new(config(None));
    assert!(w
        .process_event(notification(RawKind::Access, "/tmp/f"), true)
        .is_none());
    assert!(w
        .process_event(notification(RawKind::Modify(ModifyKind::Metadata), "/tmp/f"), false)
        .is_none());
}

#[test]
fn plain_output_format_is_used_when_configured() {
    let mut c = config(None);
    c.json_output = false;
    let w = Watchman::new(c);
    let raw = notification(RawKind::Remove(watchman::event::RemoveKind::Folder), "/tmp/d");
    let line = w.process_event(raw, true).unwrap();
    assert_eq!(line, "Event: RemoveFolder [\"/tmp/d\"]");
}

#[test]
fn handle_event_probes_the_real_filesystem() {
    let w = Watchman::new(config(None));
    // The path exists, so a rename-From notification keeps its rename kind.
    let raw = RawNotification {
        kind: RawKind::Modify(ModifyKind::Name(RenameMode::From)),
        paths: vec!["/tmp".to_string()],
    };
    let line = w.handle_event(raw).unwrap();
    assert_eq!(line, "{\"kind\": \"RenameFrom\", \"paths\": [\"/tmp\"]}");
    // The path does not exist, so the same notification becomes a removal.
    let raw = RawNotification {
        kind: RawKind::Modify(ModifyKind::Name(RenameMode::From)),
        paths: vec!["/tmp/surely-not-here-904213".to_string()],
    };
    let line = w.handle_event(raw).unwrap();
    assert_eq!(
        line,
        "{\"kind\": \"RemoveFile\", \"paths\": [\"/tmp/surely-not-here-904213\"]}"
    );
}

#[test]
fn a_closed_channel_ends_the_loop_successfully() {
    let w = Watchman::new(config(None));
    let (step, line) = w.loop_step(ChannelItem::Closed);
    assert_eq!(step, LoopStep::ExitSuccess);
    assert!(line.is_none());
}

#[test]
fn a_source_error_keeps_the_loop_running() {
    let w = Watchman::new(config(None));
    let (step, line) = w.loop_step(ChannelItem::SourceError);
    assert_eq!(step, LoopStep::Continue);
    assert!(line.is_none());
}

#[test]
fn a_notification_runs_the_pipeline_and_continues() {
    let w = Watchman::new(config(None));
    let raw = notification(RawKind::Create(CreateKind::Folder), "/tmp/dir");
    let (step, line) = w.loop_step(ChannelItem::Notification(raw));
    assert_eq!(step, LoopStep::Continue);
    assert_eq!(
        line.unwrap(),
        "{\"kind\": \"CreateFolder\", \"paths\": [\"/tmp/dir\"]}"
    );
}

#[test]
fn sink_disconnect_is_a_clean_termination() {
    assert_eq!(step_after_write(SinkStatus::Disconnected), LoopStep::ExitSuccess);
    assert_eq!(step_after_write(SinkStatus::Written), LoopStep::Continue);
    assert_eq!(step_after_write(SinkStatus::Failed), LoopStep::ExitFailure);
}
