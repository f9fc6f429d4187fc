//! The watcher itself: the configuration holder, the verified pipeline from
//! a raw notification to the output line, the registrar that subscribes the
//! configured paths, and the decision rules of the main loop. The OS watch
//! primitive (notify) and the filesystem probe are the trusted edge.

use vstd::prelude::*;

use crate::codec::encode_event;
use crate::codec::event_line;
use crate::codec::plain_line;
use crate::codec::render_plain;
use crate::config::Config;
use crate::event::classify;
use crate::event::classify_kind_spec;
use crate::event::NormalizedKind;
use crate::event::RawKind;
use crate::event::RawNotification;
use crate::filter::accepts;
use crate::filter::accepts_spec;
use crate::filter::filters_view;

verus! {

/// notify's recursion mode for a watch subscription; a fieldless enum,
/// declared so contracts can name its variants.
#[verifier::external_type_specification]
pub struct ExRecursiveMode(notify::RecursiveMode);

/// notify's error type, carried through opaquely.
#[verifier::external_type_specification]
#[verifier::external_body]
pub struct ExNotifyError(notify::Error);

/// notify's platform watcher, carried through opaquely.
#[verifier::external_type_specification]
#[verifier::external_body]
pub struct ExWatcher(notify::RecommendedWatcher);

/// Relies on notify's Watcher::watch: subscribes the path with the given
/// recursion mode. Whether it succeeds depends on the filesystem and the
/// kernel, so nothing is promised of the outcome.
#[verifier::external_body]
fn watch_path(
    watcher: &mut notify::RecommendedWatcher,
    path: &str,
    mode: notify::RecursiveMode,
) -> (r: Result<(), notify::Error>) {
    notify::Watcher::watch(watcher, std::path::Path::new(path), mode)
}

/// Relies on the Display implementation of notify::Error for a readable
/// description of a subscription failure.
#[verifier::external_body]
fn describe_error(e: &notify::Error) -> (r: String) {
    format!("{}", e)
}

/// Relies on std::path::Path::exists. The outcome depends on the state of
/// the filesystem at the moment of the call, so nothing is promised of it;
/// callers state what holds for either outcome.
#[verifier::external_body]
fn path_exists(path: &str) -> (r: bool) {
    std::path::Path::new(path).exists()
}

/// A configured path could not be subscribed; fatal at startup.
#[derive(Clone, Debug)]
pub struct RegistrationError {
    pub message: String,
}

/// What became of one write to the output sink.
#[derive(Clone, Copy, Debug, PartialEq, Eq, Structural)]
pub enum SinkStatus {
    /// The line was written.
    Written,
    /// The consumer closed its read end.
    Disconnected,
    /// Any other write failure.
    Failed,
}

/// What the main loop does after one iteration.
#[derive(Clone, Copy, Debug, PartialEq, Eq, Structural)]
pub enum LoopStep {
    Continue,
    ExitSuccess,
    ExitFailure,
}

/// One item pulled from the delivery channel.
#[derive(Clone, Debug)]
pub enum ChannelItem {
    /// The source delivered a raw notification.
    Notification(RawNotification),
    /// The source reported a transport-level error; non-fatal.
    SourceError,
    /// The source terminated and the channel closed.
    Closed,
}

/// The contents of an optional output line.
pub open spec fn line_view(r: Option<String>) -> Option<Seq<char>> {
    match r {
        None => None,
        Some(s) => Some(s@),
    }
}

/// What the pipeline emits for one raw notification: classify (with the
/// given probe outcome), filter, then render in the configured format;
/// nothing for a suppressed or filtered-out notification.
pub open spec fn process_spec(
    config: Config,
    kind: RawKind,
    paths: Seq<Seq<char>>,
    first_path_exists: bool,
) -> Option<Seq<char>> {
    match classify_kind_spec(kind, first_path_exists) {
        None => None,
        Some(nk) => if accepts_spec(filters_view(config.filters), nk) {
            if config.json_output {
                Some(event_line(nk, paths))
            } else {
                Some(plain_line(nk, paths))
            }
        } else {
            None
        },
    }
}

/// The sink policy after one write attempt: disconnection of the consumer is
/// a clean termination, any other failure is fatal.
pub fn step_after_write(status: SinkStatus) -> (r: LoopStep)
    ensures
        status is Written ==> r == LoopStep::Continue,
        status is Disconnected ==> r == LoopStep::ExitSuccess,
        status is Failed ==> r == LoopStep::ExitFailure,
{
    match status {
        SinkStatus::Written => LoopStep::Continue,
        SinkStatus::Disconnected => LoopStep::ExitSuccess,
        SinkStatus::Failed => LoopStep::ExitFailure,
    }
}

/// The watcher: holds the configuration and drives the pipeline.
pub struct Watchman {
    pub config: Config,
}

impl Watchman {
    /// Wrap a configuration; construction itself cannot fail.
    pub fn new(config: Config) -> (r: Watchman)
        ensures
            r.config == config,
    {
        Watchman { config }
    }

    /// The recursion mode every subscription is made with.
    pub fn recursive_mode(&self) -> (r: notify::RecursiveMode)
        ensures
            r == if self.config.recursive {
                notify::RecursiveMode::Recursive
            } else {
                notify::RecursiveMode::NonRecursive
            },
    {
        if self.config.recursive {
            notify::RecursiveMode::Recursive
        } else {
            notify::RecursiveMode::NonRecursive
        }
    }

    /// Does the configured filter set forward this normalized kind?
    pub fn should_process_event(&self, kind: &NormalizedKind) -> (r: bool)
        ensures
            r == accepts_spec(filters_view(self.config.filters), *kind),
    {
        accepts(&self.config.filters, kind)
    }

    /// Classify, filter and render one raw notification, with the outcome of
    /// the existence probe supplied by the caller, so both outcomes of the
    /// inherently racy probe can be exercised deterministically.
    pub fn process_event(&self, raw: RawNotification, first_path_exists: bool) -> (r: Option<
        String,
    >)
        ensures
            line_view(r) == process_spec(
                self.config,
                raw.kind,
                raw.paths.deep_view(),
                first_path_exists,
            ),
    {
        match classify(raw, first_path_exists) {
            None => None,
            Some(ev) => {
                if self.should_process_event(&ev.kind) {
                    if self.config.json_output {
                        Some(encode_event(&ev.kind, &ev.paths))
                    } else {
                        Some(render_plain(&ev.kind, &ev.paths))
                    }
                } else {
                    None
                }
            },
        }
    }

    /// Classify, filter and render one raw notification, probing the real
    /// filesystem for the rename disambiguation. The probe races against the
    /// filesystem by nature, so the contract holds for whichever outcome the
    /// probe reported; a notification without paths probes nothing.
    pub fn handle_event(&self, raw: RawNotification) -> (r: Option<String>)
        ensures
            exists|b: bool|
                line_view(r) == #[trigger] process_spec(
                    self.config,
                    raw.kind,
                    raw.paths.deep_view(),
                    b,
                ),
            raw.paths.len() == 0 ==> line_view(r) == process_spec(
                self.config,
                raw.kind,
                raw.paths.deep_view(),
                false,
            ),
    {
        let first_path_exists = if raw.paths.len() == 0 {
            false
        } else {
            path_exists(raw.paths[0].as_str())
        };
        let r = self.process_event(raw, first_path_exists);
        proof {
            assert(line_view(r) == process_spec(
                self.config,
                raw.kind,
                raw.paths.deep_view(),
                first_path_exists,
            ));
        }
        r
    }

    /// The decision of one main-loop iteration: a closed channel ends the
    /// loop successfully, a transport error is absorbed, a notification runs
    /// the pipeline and the loop goes on.
    pub fn loop_step(&self, item: ChannelItem) -> (r: (LoopStep, Option<String>))
        ensures
            item is Closed ==> r == (LoopStep::ExitSuccess, None::<String>),
            item is SourceError ==> r == (LoopStep::Continue, None::<String>),
            item matches ChannelItem::Notification(raw) ==> r.0 == LoopStep::Continue && exists|
                b: bool,
            |
                line_view(r.1) == #[trigger] process_spec(
                    self.config,
                    raw.kind,
                    raw.paths.deep_view(),
                    b,
                ),
    {
        match item {
            ChannelItem::Closed => (LoopStep::ExitSuccess, None),
            ChannelItem::SourceError => (LoopStep::Continue, None),
            ChannelItem::Notification(raw) => {
                let line = self.handle_event(raw);
                (LoopStep::Continue, line)
            },
        }
    }

    /// Subscribe every configured path, in order, with the configured
    /// recursion mode; fail fast on the first path the source refuses.
    /// With nothing to subscribe, registration always succeeds.
    pub fn register(&self, watcher: &mut notify::RecommendedWatcher) -> (r: Result<
        (),
        RegistrationError,
    >)
        ensures
            self.config.paths.len() == 0 ==> r is Ok,
    {
        let mut i: usize = 0;
        while i < self.config.paths.len()
            decreases self.config.paths.len() - i,
        {
            let mode = self.recursive_mode();
            match watch_path(watcher, self.config.paths[i].as_str(), mode) {
                Ok(_) => {},
                Err(e) => {
                    let message = describe_error(&e);
                    return Err(RegistrationError { message });
                },
            }
            i = i + 1;
        }
        Ok(())
    }
}

} // verus!
