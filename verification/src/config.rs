//! The configuration surface: the values the command line hands over, the
//! filter vocabulary, and the internal configuration the watcher runs on.

use vstd::prelude::*;
use vstd::string::StrSliceExecFns;

verus! {

/// The values collected from the command line. Parsing itself lives outside
/// this library; this is the plain shape it delivers.
#[derive(Clone, Debug)]
pub struct Args {
    /// One or more paths to watch.
    pub path: Vec<String>,
    /// Watch directories recursively.
    pub recursive: bool,
    /// Backend selection knob; accepted but not implemented behaviour.
    pub backend: String,
    /// Output JSON (default true).
    pub json: bool,
    /// Debounce delay in milliseconds; accepted but not implemented behaviour.
    pub debounce: u64,
    /// Log level name.
    pub log: String,
    /// Exit after first event (testing convenience).
    pub once: bool,
    /// Filter events by type: create, modify, remove, rename.
    pub filter: Option<Vec<String>>,
}

/// The coarse event categories a user may filter by.
#[derive(Clone, Copy, Debug, PartialEq, Eq, Structural)]
pub enum EventFilter {
    Create,
    Modify,
    Remove,
    Rename,
}

/// `low` is `c` with an ASCII upper-case letter folded to lower case.
pub open spec fn lowered_to(c: char, low: char) -> bool {
    if 65 <= c as u32 && c as u32 <= 90 {
        low as u32 == c as u32 + 32
    } else {
        low == c
    }
}

/// `s` equals the (ASCII lower-case) keyword `kw` up to ASCII case.
pub open spec fn lower_matches(s: Seq<char>, kw: Seq<char>) -> bool {
    s.len() == kw.len() && forall|i: int| 0 <= i < s.len() ==> #[trigger] lowered_to(s[i], kw[i])
}

/// The filter a token names: the fixed vocabulary, case-insensitively;
/// anything else is no filter.
pub open spec fn from_string_spec(s: Seq<char>) -> Option<EventFilter> {
    if lower_matches(s, "create"@) {
        Some(EventFilter::Create)
    } else if lower_matches(s, "modify"@) {
        Some(EventFilter::Modify)
    } else if lower_matches(s, "remove"@) {
        Some(EventFilter::Remove)
    } else if lower_matches(s, "rename"@) {
        Some(EventFilter::Rename)
    } else {
        None
    }
}

/// Does `s` equal the lower-case keyword `kw` up to ASCII case?
fn matches_lower(s: &str, kw: &str) -> (r: bool)
    ensures
        r == lower_matches(s@, kw@),
{
    let n = s.unicode_len();
    if n != kw.unicode_len() {
        return false;
    }
    let mut i: usize = 0;
    while i < n
        invariant
            n == s@.len(),
            n == kw@.len(),
            0 <= i <= n,
            forall|j: int| 0 <= j < i ==> #[trigger] lowered_to(s@[j], kw@[j]),
        decreases n - i,
    {
        let c = s.get_char(i);
        let k = kw.get_char(i);
        let cu = c as u32;
        let ku = k as u32;
        let folded = if 65 <= cu && cu <= 90 {
            ku == cu + 32
        } else {
            k == c
        };
        if !folded {
            proof {
                assert(!lowered_to(s@[i as int], kw@[i as int]));
            }
            return false;
        }
        i = i + 1;
    }
    true
}

impl EventFilter {
    /// Parse a single filter token, case-insensitively.
    pub fn from_string(s: &str) -> (r: Option<EventFilter>)
        ensures
            r == from_string_spec(s@),
    {
        if matches_lower(s, "create") {
            Some(EventFilter::Create)
        } else if matches_lower(s, "modify") {
            Some(EventFilter::Modify)
        } else if matches_lower(s, "remove") {
            Some(EventFilter::Remove)
        } else if matches_lower(s, "rename") {
            Some(EventFilter::Rename)
        } else {
            None
        }
    }
}

/// The filters a list of tokens configures: recognized tokens in order,
/// unrecognized ones silently dropped.
pub open spec fn parse_filters_spec(tokens: Seq<Seq<char>>) -> Seq<EventFilter>
    decreases tokens.len(),
{
    if tokens.len() == 0 {
        Seq::empty()
    } else {
        let front = parse_filters_spec(tokens.drop_last());
        match from_string_spec(tokens.last()) {
            Some(f) => front.push(f),
            None => front,
        }
    }
}

/// The configuration the watcher runs on, read-only after construction.
#[derive(Clone, Debug)]
pub struct Config {
    pub paths: Vec<String>,
    pub recursive: bool,
    pub json_output: bool,
    pub filters: Option<Vec<EventFilter>>,
}

impl Config {
    /// Build the internal configuration from the command-line values.
    /// An absent filter list stays absent (accept everything); a present one
    /// keeps the recognized tokens in order and drops the rest.
    pub fn from_args(args: Args) -> (r: Config)
        ensures
            r.paths == args.path,
            r.recursive == args.recursive,
            r.json_output == args.json,
            r.filters is Some <==> args.filter is Some,
            args.filter is Some ==> r.filters.unwrap()@ == parse_filters_spec(
                args.filter.unwrap().deep_view(),
            ),
    {
        let filters = match args.filter {
            None => None,
            Some(tokens) => {
                let mut out: Vec<EventFilter> = Vec::new();
                let mut i: usize = 0;
                while i < tokens.len()
                    invariant
                        0 <= i <= tokens.len(),
                        out@ == parse_filters_spec(tokens.deep_view().take(i as int)),
                    decreases tokens.len() - i,
                {
                    proof {
                        assert(tokens.deep_view().take(i + 1).drop_last() =~= tokens.deep_view()
                            .take(i as int));
                        assert(tokens.deep_view().take(i + 1).last() == tokens@[i as int]@);
                    }
                    match EventFilter::from_string(tokens[i].as_str()) {
                        Some(f) => out.push(f),
                        None => (),
                    }
                    i = i + 1;
                }
                proof {
                    assert(tokens.deep_view().take(tokens.len() as int) =~= tokens.deep_view());
                }
                Some(out)
            },
        };
        Config { paths: args.path, recursive: args.recursive, json_output: args.json, filters }
    }
}

} // verus!
