//! The event model: raw notification kinds as the OS watcher reports them,
//! the normalized kind taxonomy, and the classifier that maps one to the
//! other (including the rename/remove disambiguation).

use vstd::prelude::*;

verus! {

/// Sub-kind of a raw creation notification.
#[derive(Clone, Copy, Debug, PartialEq, Eq, Structural)]
pub enum CreateKind {
    Any,
    File,
    Folder,
    Other,
}

/// Sub-kind of a raw data-change notification.
#[derive(Clone, Copy, Debug, PartialEq, Eq, Structural)]
pub enum DataChange {
    Any,
    Size,
    Content,
    Other,
}

/// Sub-kind of a raw rename notification.
#[derive(Clone, Copy, Debug, PartialEq, Eq, Structural)]
pub enum RenameMode {
    Any,
    To,
    From,
    Both,
    Other,
}

/// Sub-kind of a raw modification notification.
#[derive(Clone, Copy, Debug, PartialEq, Eq, Structural)]
pub enum ModifyKind {
    Any,
    Data(DataChange),
    Metadata,
    Name(RenameMode),
    Other,
}

/// Sub-kind of a raw removal notification.
#[derive(Clone, Copy, Debug, PartialEq, Eq, Structural)]
pub enum RemoveKind {
    Any,
    File,
    Folder,
    Other,
}

/// The kind discriminator of a raw, OS-reported change notification.
#[derive(Clone, Copy, Debug, PartialEq, Eq, Structural)]
pub enum RawKind {
    Any,
    Access,
    Create(CreateKind),
    Modify(ModifyKind),
    Remove(RemoveKind),
    Other,
}

/// A raw change notification: a kind plus the ordered list of affected paths.
#[derive(Clone, Debug)]
pub struct RawNotification {
    pub kind: RawKind,
    pub paths: Vec<String>,
}

/// The closed, platform-independent tag set the rest of the pipeline
/// operates on.
#[derive(Clone, Copy, Debug, PartialEq, Eq, Structural)]
pub enum NormalizedKind {
    CreateFile,
    CreateFolder,
    Create,
    ModifyContent,
    ModifySize,
    ModifyData,
    RemoveFile,
    RemoveFolder,
    Remove,
    RenameFrom,
    RenameTo,
    RenameBoth,
    Rename,
    Any,
    Other,
}

/// The classifier's output: a normalized kind plus the path list of the
/// originating raw notification.
#[derive(Clone, Debug)]
pub struct NormalizedEvent {
    pub kind: NormalizedKind,
    pub paths: Vec<String>,
}

/// A raw kind is suppressed when no event may ever be forwarded for it:
/// metadata-only modifications and all access notifications.
pub open spec fn suppressed(kind: RawKind) -> bool {
    match kind {
        RawKind::Access => true,
        RawKind::Modify(ModifyKind::Metadata) => true,
        _ => false,
    }
}

/// What the classifier assigns to a raw kind. `first_path_exists` is the
/// outcome of the filesystem probe used to tell an ambiguous rename from a
/// removal; it only matters for rename sub-kinds `From` and `Any`.
pub open spec fn classify_kind_spec(kind: RawKind, first_path_exists: bool) -> Option<
    NormalizedKind,
> {
    match kind {
        RawKind::Create(CreateKind::File) => Some(NormalizedKind::CreateFile),
        RawKind::Create(CreateKind::Folder) => Some(NormalizedKind::CreateFolder),
        RawKind::Create(_) => Some(NormalizedKind::Create),
        RawKind::Modify(ModifyKind::Data(DataChange::Content)) => Some(
            NormalizedKind::ModifyContent,
        ),
        RawKind::Modify(ModifyKind::Data(DataChange::Size)) => Some(NormalizedKind::ModifySize),
        RawKind::Modify(ModifyKind::Data(_)) => Some(NormalizedKind::ModifyData),
        RawKind::Modify(ModifyKind::Metadata) => None,
        RawKind::Modify(ModifyKind::Name(RenameMode::From)) => if first_path_exists {
            Some(NormalizedKind::RenameFrom)
        } else {
            Some(NormalizedKind::RemoveFile)
        },
        RawKind::Modify(ModifyKind::Name(RenameMode::To)) => Some(NormalizedKind::RenameTo),
        RawKind::Modify(ModifyKind::Name(RenameMode::Both)) => Some(NormalizedKind::RenameBoth),
        RawKind::Modify(ModifyKind::Name(RenameMode::Any)) => if first_path_exists {
            Some(NormalizedKind::Rename)
        } else {
            Some(NormalizedKind::RemoveFile)
        },
        RawKind::Modify(ModifyKind::Name(RenameMode::Other)) => Some(NormalizedKind::Rename),
        RawKind::Modify(_) => Some(NormalizedKind::ModifyData),
        RawKind::Remove(RemoveKind::File) => Some(NormalizedKind::RemoveFile),
        RawKind::Remove(RemoveKind::Folder) => Some(NormalizedKind::RemoveFolder),
        RawKind::Remove(_) => Some(NormalizedKind::Remove),
        RawKind::Access => None,
        RawKind::Any => Some(NormalizedKind::Any),
        RawKind::Other => Some(NormalizedKind::Other),
    }
}

/// Normalize a raw kind. `first_path_exists` must be the outcome of probing
/// the notification's first affected path; the probe is inherently racy, so
/// the caller decides how it is obtained (the library probes the real
/// filesystem in `Watchman::handle_event`, tests pass a fixed value).
pub fn classify_kind(kind: &RawKind, first_path_exists: bool) -> (r: Option<NormalizedKind>)
    ensures
        r == classify_kind_spec(*kind, first_path_exists),
{
    match kind {
        RawKind::Create(CreateKind::File) => Some(NormalizedKind::CreateFile),
        RawKind::Create(CreateKind::Folder) => Some(NormalizedKind::CreateFolder),
        RawKind::Create(_) => Some(NormalizedKind::Create),
        RawKind::Modify(ModifyKind::Data(DataChange::Content)) => Some(
            NormalizedKind::ModifyContent,
        ),
        RawKind::Modify(ModifyKind::Data(DataChange::Size)) => Some(NormalizedKind::ModifySize),
        RawKind::Modify(ModifyKind::Data(_)) => Some(NormalizedKind::ModifyData),
        RawKind::Modify(ModifyKind::Metadata) => None,
        RawKind::Modify(ModifyKind::Name(RenameMode::From)) => if first_path_exists {
            Some(NormalizedKind::RenameFrom)
        } else {
            Some(NormalizedKind::RemoveFile)
        },
        RawKind::Modify(ModifyKind::Name(RenameMode::To)) => Some(NormalizedKind::RenameTo),
        RawKind::Modify(ModifyKind::Name(RenameMode::Both)) => Some(NormalizedKind::RenameBoth),
        RawKind::Modify(ModifyKind::Name(RenameMode::Any)) => if first_path_exists {
            Some(NormalizedKind::Rename)
        } else {
            Some(NormalizedKind::RemoveFile)
        },
        RawKind::Modify(ModifyKind::Name(RenameMode::Other)) => Some(NormalizedKind::Rename),
        RawKind::Modify(_) => Some(NormalizedKind::ModifyData),
        RawKind::Remove(RemoveKind::File) => Some(NormalizedKind::RemoveFile),
        RawKind::Remove(RemoveKind::Folder) => Some(NormalizedKind::RemoveFolder),
        RawKind::Remove(_) => Some(NormalizedKind::Remove),
        RawKind::Access => None,
        RawKind::Any => Some(NormalizedKind::Any),
        RawKind::Other => Some(NormalizedKind::Other),
    }
}

/// Classify a raw notification into a normalized event, or suppress it.
/// The path list is carried over unchanged.
pub fn classify(raw: RawNotification, first_path_exists: bool) -> (r: Option<NormalizedEvent>)
    ensures
        r is Some <==> classify_kind_spec(raw.kind, first_path_exists) is Some,
        r is Some ==> r.unwrap().kind == classify_kind_spec(raw.kind, first_path_exists).unwrap(),
        r is Some ==> r.unwrap().paths == raw.paths,
{
    match classify_kind(&raw.kind, first_path_exists) {
        None => None,
        Some(kind) => Some(NormalizedEvent { kind, paths: raw.paths }),
    }
}

/// Totality of the classifier: every raw kind either gets a normalized kind
/// or is explicitly suppressed, and suppression happens exactly for the
/// suppressed set, whatever the filesystem probe reported.
pub proof fn lemma_classifier_totality(kind: RawKind, first_path_exists: bool)
    ensures
        classify_kind_spec(kind, first_path_exists) is None <==> suppressed(kind),
{
}

/// The suppression set: a metadata-only modification or an access
/// notification never produces an event, whatever the probe reported
/// (and hence whatever the path list was).
pub proof fn lemma_suppression(kind: RawKind, first_path_exists: bool)
    requires
        kind == RawKind::Access || kind == RawKind::Modify(ModifyKind::Metadata),
    ensures
        classify_kind_spec(kind, first_path_exists) is None,
{
}

/// The rename/remove disambiguation: a rename notification of sub-kind
/// `From` or `Any` whose first path does not exist is reclassified as a
/// file removal.
pub proof fn lemma_rename_disambiguation(kind: RawKind)
    requires
        kind == RawKind::Modify(ModifyKind::Name(RenameMode::From)) || kind == RawKind::Modify(
            ModifyKind::Name(RenameMode::Any),
        ),
    ensures
        classify_kind_spec(kind, false) == Some(NormalizedKind::RemoveFile),
{
}

} // verus!
