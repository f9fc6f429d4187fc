//! The filter engine: decides whether a normalized kind is forwarded,
//! given the optionally configured filter set.

use vstd::prelude::*;

use crate::config::EventFilter;
use crate::event::NormalizedKind;

verus! {

/// The filter table: which normalized kinds a single filter matches.
/// A kind rewritten to `RemoveFile` by the rename disambiguation matches
/// `Remove`, not `Rename`; `Any` and `Other` match no filter at all.
pub open spec fn filter_matches(filter: EventFilter, kind: NormalizedKind) -> bool {
    match (filter, kind) {
        (EventFilter::Create, NormalizedKind::CreateFile) => true,
        (EventFilter::Create, NormalizedKind::CreateFolder) => true,
        (EventFilter::Create, NormalizedKind::Create) => true,
        (EventFilter::Modify, NormalizedKind::ModifyContent) => true,
        (EventFilter::Modify, NormalizedKind::ModifySize) => true,
        (EventFilter::Modify, NormalizedKind::ModifyData) => true,
        (EventFilter::Remove, NormalizedKind::RemoveFile) => true,
        (EventFilter::Remove, NormalizedKind::RemoveFolder) => true,
        (EventFilter::Remove, NormalizedKind::Remove) => true,
        (EventFilter::Rename, NormalizedKind::RenameFrom) => true,
        (EventFilter::Rename, NormalizedKind::RenameTo) => true,
        (EventFilter::Rename, NormalizedKind::RenameBoth) => true,
        (EventFilter::Rename, NormalizedKind::Rename) => true,
        _ => false,
    }
}

/// At least one filter of the set matches the kind.
pub open spec fn some_filter_matches(fs: Seq<EventFilter>, kind: NormalizedKind) -> bool {
    exists|i: int| 0 <= i < fs.len() && #[trigger] filter_matches(fs[i], kind)
}

/// An absent filter set accepts everything; a present one accepts a kind
/// iff at least one of its filters matches it.
pub open spec fn accepts_spec(filters: Option<Seq<EventFilter>>, kind: NormalizedKind) -> bool {
    match filters {
        None => true,
        Some(fs) => some_filter_matches(fs, kind),
    }
}

/// The filter set of a configuration, as a mathematical value.
pub open spec fn filters_view(filters: Option<Vec<EventFilter>>) -> Option<Seq<EventFilter>> {
    match filters {
        None => None,
        Some(fs) => Some(fs@),
    }
}

/// Does a single filter match a normalized kind, per the filter table?
pub fn filter_accepts(filter: &EventFilter, kind: &NormalizedKind) -> (r: bool)
    ensures
        r == filter_matches(*filter, *kind),
{
    match (filter, kind) {
        (EventFilter::Create, NormalizedKind::CreateFile) => true,
        (EventFilter::Create, NormalizedKind::CreateFolder) => true,
        (EventFilter::Create, NormalizedKind::Create) => true,
        (EventFilter::Modify, NormalizedKind::ModifyContent) => true,
        (EventFilter::Modify, NormalizedKind::ModifySize) => true,
        (EventFilter::Modify, NormalizedKind::ModifyData) => true,
        (EventFilter::Remove, NormalizedKind::RemoveFile) => true,
        (EventFilter::Remove, NormalizedKind::RemoveFolder) => true,
        (EventFilter::Remove, NormalizedKind::Remove) => true,
        (EventFilter::Rename, NormalizedKind::RenameFrom) => true,
        (EventFilter::Rename, NormalizedKind::RenameTo) => true,
        (EventFilter::Rename, NormalizedKind::RenameBoth) => true,
        (EventFilter::Rename, NormalizedKind::Rename) => true,
        _ => false,
    }
}

/// Decide whether an event of the given normalized kind is forwarded.
#[verifier::loop_isolation(false)]
pub fn accepts(filters: &Option<Vec<EventFilter>>, kind: &NormalizedKind) -> (r: bool)
    ensures
        r == accepts_spec(filters_view(*filters), *kind),
{
    match filters {
        None => true,
        Some(fs) => {
            let mut i: usize = 0;
            while i < fs.len()
                invariant
                    0 <= i <= fs.len(),
                    filters_view(*filters) == Some(fs@),
                    forall|j: int| 0 <= j < i ==> !(#[trigger] filter_matches(fs@[j], *kind)),
                decreases fs.len() - i,
            {
                if filter_accepts(&fs[i], kind) {
                    proof {
                        let wi = i as int;
                        assert(0 <= wi < fs@.len() && filter_matches(fs@[wi], *kind));
                        assert(some_filter_matches(fs@, *kind));
                    }
                    return true;
                }
                i = i + 1;
            }
            false
        },
    }
}

/// Filter completeness: each filter accepts exactly its row of the table,
/// independent of anything but the normalized kind.
pub proof fn lemma_filter_completeness(filter: EventFilter, kind: NormalizedKind)
    ensures
        filter_matches(filter, kind) <==> ((filter == EventFilter::Create && (kind
            == NormalizedKind::CreateFile || kind == NormalizedKind::CreateFolder || kind
            == NormalizedKind::Create)) || (filter == EventFilter::Modify && (kind
            == NormalizedKind::ModifyContent || kind == NormalizedKind::ModifySize || kind
            == NormalizedKind::ModifyData)) || (filter == EventFilter::Remove && (kind
            == NormalizedKind::RemoveFile || kind == NormalizedKind::RemoveFolder || kind
            == NormalizedKind::Remove)) || (filter == EventFilter::Rename && (kind
            == NormalizedKind::RenameFrom || kind == NormalizedKind::RenameTo || kind
            == NormalizedKind::RenameBoth || kind == NormalizedKind::Rename))),
{
}

/// No-filter pass-through: when no filter set is configured, every
/// normalized kind is accepted.
pub proof fn lemma_no_filter_pass_through(kind: NormalizedKind)
    ensures
        accepts_spec(None, kind),
{
}

} // verus!
