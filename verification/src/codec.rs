//! The emitter's output format: one structured line per accepted event,
//! `{"kind": "<tag>", "paths": ["<path>", ...]}`, or a human-readable plain
//! line. The encoder is verified against a sequence-level model of the
//! format; the decoder model and the round-trip proof live here too.

use vstd::prelude::*;
use vstd::string::StrSliceExecFns;

use crate::event::NormalizedKind;

verus! {

/// The string tag a normalized kind is written as.
pub open spec fn kind_tag(kind: NormalizedKind) -> Seq<char> {
    match kind {
        NormalizedKind::CreateFile => "CreateFile"@,
        NormalizedKind::CreateFolder => "CreateFolder"@,
        NormalizedKind::Create => "Create"@,
        NormalizedKind::ModifyContent => "ModifyContent"@,
        NormalizedKind::ModifySize => "ModifySize"@,
        NormalizedKind::ModifyData => "ModifyData"@,
        NormalizedKind::RemoveFile => "RemoveFile"@,
        NormalizedKind::RemoveFolder => "RemoveFolder"@,
        NormalizedKind::Remove => "Remove"@,
        NormalizedKind::RenameFrom => "RenameFrom"@,
        NormalizedKind::RenameTo => "RenameTo"@,
        NormalizedKind::RenameBoth => "RenameBoth"@,
        NormalizedKind::Rename => "Rename"@,
        NormalizedKind::Any => "Any"@,
        NormalizedKind::Other => "Other"@,
    }
}

/// The lower-case hexadecimal digit for a value below sixteen.
pub open spec fn hex_digit(n: int) -> char {
    if n == 0 {
        '0'
    } else if n == 1 {
        '1'
    } else if n == 2 {
        '2'
    } else if n == 3 {
        '3'
    } else if n == 4 {
        '4'
    } else if n == 5 {
        '5'
    } else if n == 6 {
        '6'
    } else if n == 7 {
        '7'
    } else if n == 8 {
        '8'
    } else if n == 9 {
        '9'
    } else if n == 10 {
        'a'
    } else if n == 11 {
        'b'
    } else if n == 12 {
        'c'
    } else if n == 13 {
        'd'
    } else if n == 14 {
        'e'
    } else {
        'f'
    }
}

/// How one character is written inside a quoted string: quote and backslash
/// get a backslash escape, the common control characters their short form,
/// the remaining control characters a `\u00XX` form, everything else stands
/// for itself.
pub open spec fn escape_char(c: char) -> Seq<char> {
    if c == '"' {
        seq!['\\', '"']
    } else if c == '\\' {
        seq!['\\', '\\']
    } else if c == '\n' {
        seq!['\\', 'n']
    } else if c == '\r' {
        seq!['\\', 'r']
    } else if c == '\t' {
        seq!['\\', 't']
    } else if (c as u32) < 32 {
        seq!['\\', 'u', '0', '0', hex_digit(c as u32 as int / 16), hex_digit(c as u32 as int % 16)]
    } else {
        seq![c]
    }
}

/// A string's characters, each escaped.
pub open spec fn escape_string(s: Seq<char>) -> Seq<char>
    decreases s.len(),
{
    if s.len() == 0 {
        Seq::empty()
    } else {
        escape_char(s[0]) + escape_string(s.drop_first())
    }
}

/// A string escaped and wrapped in quotes.
pub open spec fn quoted(s: Seq<char>) -> Seq<char> {
    seq!['"'] + escape_string(s) + seq!['"']
}

/// The quoted paths after the first, each preceded by the separator.
pub open spec fn tail_body(paths: Seq<Seq<char>>) -> Seq<char>
    decreases paths.len(),
{
    if paths.len() == 0 {
        Seq::empty()
    } else {
        ", "@ + quoted(paths[0]) + tail_body(paths.drop_first())
    }
}

/// The body of the path array: the quoted paths, separated.
pub open spec fn paths_body(paths: Seq<Seq<char>>) -> Seq<char>
    decreases paths.len(),
{
    if paths.len() == 0 {
        Seq::empty()
    } else {
        quoted(paths[0]) + tail_body(paths.drop_first())
    }
}

/// The structured output line for an event.
pub open spec fn event_line(kind: NormalizedKind, paths: Seq<Seq<char>>) -> Seq<char> {
    "{\"kind\": \""@ + kind_tag(kind) + "\", \"paths\": ["@ + paths_body(paths) + "]}"@
}

/// The plain, human-readable output line for an event.
pub open spec fn plain_line(kind: NormalizedKind, paths: Seq<Seq<char>>) -> Seq<char> {
    "Event: "@ + kind_tag(kind) + " ["@ + paths_body(paths) + "]"@
}

/// Escaping commutes with appending one character at the end.
proof fn lemma_escape_string_snoc(s: Seq<char>, c: char)
    ensures
        escape_string(s.push(c)) == escape_string(s) + escape_char(c),
    decreases s.len(),
{
    if s.len() == 0 {
        assert(s.push(c).drop_first() =~= Seq::<char>::empty());
        assert(s.push(c)[0] == c);
        assert(escape_string(Seq::<char>::empty()) == Seq::<char>::empty());
        assert(escape_string(s.push(c)) =~= escape_string(s) + escape_char(c));
    } else {
        assert(s.push(c).drop_first() =~= s.drop_first().push(c));
        lemma_escape_string_snoc(s.drop_first(), c);
        assert(escape_string(s.push(c)) =~= escape_string(s) + escape_char(c));
    }
}

/// The separated tail commutes with appending one path at the end.
proof fn lemma_tail_body_snoc(paths: Seq<Seq<char>>, p: Seq<char>)
    ensures
        tail_body(paths.push(p)) == tail_body(paths) + ", "@ + quoted(p),
    decreases paths.len(),
{
    if paths.len() == 0 {
        assert(paths.push(p).drop_first() =~= Seq::<Seq<char>>::empty());
        assert(paths.push(p)[0] == p);
        assert(tail_body(Seq::<Seq<char>>::empty()) == Seq::<char>::empty());
        assert(tail_body(paths.push(p)) =~= tail_body(paths) + ", "@ + quoted(p));
    } else {
        assert(paths.push(p).drop_first() =~= paths.drop_first().push(p));
        lemma_tail_body_snoc(paths.drop_first(), p);
        assert(tail_body(paths.push(p)) =~= tail_body(paths) + ", "@ + quoted(p));
    }
}

/// The array body commutes with appending one path at the end.
proof fn lemma_paths_body_snoc(paths: Seq<Seq<char>>, p: Seq<char>)
    ensures
        paths.len() == 0 ==> paths_body(paths.push(p)) == quoted(p),
        paths.len() > 0 ==> paths_body(paths.push(p)) == paths_body(paths) + ", "@ + quoted(p),
{
    if paths.len() == 0 {
        assert(paths.push(p).drop_first() =~= Seq::<Seq<char>>::empty());
        assert(paths_body(paths.push(p)) =~= quoted(p));
    } else {
        assert(paths.push(p).drop_first() =~= paths.drop_first().push(p));
        lemma_tail_body_snoc(paths.drop_first(), p);
        assert(paths_body(paths.push(p)) =~= paths_body(paths) + ", "@ + quoted(p));
    }
}

/// Append every character of `s` to `out`.
fn push_str_chars(out: &mut Vec<char>, s: &str)
    ensures
        final(out)@ == old(out)@ + s@,
{
    let n = s.unicode_len();
    let mut i: usize = 0;
    while i < n
        invariant
            n == s@.len(),
            0 <= i <= n,
            out@ == old(out)@ + s@.take(i as int),
        decreases n - i,
    {
        let c = s.get_char(i);
        out.push(c);
        proof {
            assert(s@.take(i + 1) =~= s@.take(i as int).push(s@[i as int]));
            assert(old(out)@ + s@.take(i as int).push(s@[i as int]) =~= (old(out)@ + s@.take(
                i as int,
            )).push(s@[i as int]));
        }
        i = i + 1;
    }
    proof {
        assert(s@.take(n as int) =~= s@);
    }
}

/// The lower-case hexadecimal digit of a value below sixteen.
fn hex_digit_char(n: u32) -> (c: char)
    requires
        n < 16,
    ensures
        c == hex_digit(n as int),
{
    match n {
        0 => '0',
        1 => '1',
        2 => '2',
        3 => '3',
        4 => '4',
        5 => '5',
        6 => '6',
        7 => '7',
        8 => '8',
        9 => '9',
        10 => 'a',
        11 => 'b',
        12 => 'c',
        13 => 'd',
        14 => 'e',
        _ => 'f',
    }
}

/// Append the escaped form of one character to `out`.
fn push_escaped_char(out: &mut Vec<char>, c: char)
    ensures
        final(out)@ == old(out)@ + escape_char(c),
{
    if c == '"' {
        out.push('\\');
        out.push('"');
    } else if c == '\\' {
        out.push('\\');
        out.push('\\');
    } else if c == '\n' {
        out.push('\\');
        out.push('n');
    } else if c == '\r' {
        out.push('\\');
        out.push('r');
    } else if c == '\t' {
        out.push('\\');
        out.push('t');
    } else {
        let cu = c as u32;
        if cu < 32 {
            out.push('\\');
            out.push('u');
            out.push('0');
            out.push('0');
            out.push(hex_digit_char(cu / 16));
            out.push(hex_digit_char(cu % 16));
        } else {
            out.push(c);
        }
    }
    proof {
        assert(out@ =~= old(out)@ + escape_char(c));
    }
}

/// Append the escaped form of every character of `s` to `out`.
fn push_escaped_str(out: &mut Vec<char>, s: &str)
    ensures
        final(out)@ == old(out)@ + escape_string(s@),
{
    let n = s.unicode_len();
    let mut i: usize = 0;
    while i < n
        invariant
            n == s@.len(),
            0 <= i <= n,
            out@ == old(out)@ + escape_string(s@.take(i as int)),
        decreases n - i,
    {
        let c = s.get_char(i);
        push_escaped_char(out, c);
        proof {
            assert(s@.take(i + 1) =~= s@.take(i as int).push(s@[i as int]));
            lemma_escape_string_snoc(s@.take(i as int), s@[i as int]);
            assert(old(out)@ + escape_string(s@.take(i as int)) + escape_char(s@[i as int]) =~= old(
                out,
            )@ + escape_string(s@.take(i + 1)));
        }
        i = i + 1;
    }
    proof {
        assert(s@.take(n as int) =~= s@);
    }
}

/// Append the quoted, escaped form of `s` to `out`.
fn push_quoted(out: &mut Vec<char>, s: &str)
    ensures
        final(out)@ == old(out)@ + quoted(s@),
{
    out.push('"');
    push_escaped_str(out, s);
    out.push('"');
    proof {
        assert(out@ =~= old(out)@ + quoted(s@));
    }
}

/// Append the array body: the quoted paths, separated.
fn push_paths_body(out: &mut Vec<char>, paths: &Vec<String>)
    ensures
        final(out)@ == old(out)@ + paths_body(paths.deep_view()),
{
    let mut i: usize = 0;
    while i < paths.len()
        invariant
            0 <= i <= paths@.len(),
            out@ == old(out)@ + paths_body(paths.deep_view().take(i as int)),
        decreases paths@.len() - i,
    {
        proof {
            assert(paths.deep_view()[i as int] == paths@[i as int]@);
            assert(paths.deep_view().take(i + 1) =~= paths.deep_view().take(i as int).push(
                paths.deep_view()[i as int],
            ));
            lemma_paths_body_snoc(paths.deep_view().take(i as int), paths.deep_view()[i as int]);
        }
        if i > 0 {
            push_str_chars(out, ", ");
        }
        push_quoted(out, paths[i].as_str());
        proof {
            assert(out@ =~= old(out)@ + paths_body(paths.deep_view().take(i + 1)));
        }
        i = i + 1;
    }
    proof {
        assert(paths.deep_view().take(paths@.len() as int) =~= paths.deep_view());
    }
}

/// The tag a normalized kind is written as.
pub fn kind_tag_str(kind: &NormalizedKind) -> (r: &'static str)
    ensures
        r@ == kind_tag(*kind),
{
    match kind {
        NormalizedKind::CreateFile => "CreateFile",
        NormalizedKind::CreateFolder => "CreateFolder",
        NormalizedKind::Create => "Create",
        NormalizedKind::ModifyContent => "ModifyContent",
        NormalizedKind::ModifySize => "ModifySize",
        NormalizedKind::ModifyData => "ModifyData",
        NormalizedKind::RemoveFile => "RemoveFile",
        NormalizedKind::RemoveFolder => "RemoveFolder",
        NormalizedKind::Remove => "Remove",
        NormalizedKind::RenameFrom => "RenameFrom",
        NormalizedKind::RenameTo => "RenameTo",
        NormalizedKind::RenameBoth => "RenameBoth",
        NormalizedKind::Rename => "Rename",
        NormalizedKind::Any => "Any",
        NormalizedKind::Other => "Other",
    }
}

/// Relies on String's FromIterator over characters: collecting a vector of
/// characters yields the string of exactly those characters, in order.
#[verifier::external_body]
fn chars_to_string(chars: Vec<char>) -> (r: String)
    ensures
        r@ == chars@,
{
    chars.into_iter().collect()
}

/// Encode an event as its structured output line.
pub fn encode_event(kind: &NormalizedKind, paths: &Vec<String>) -> (r: String)
    ensures
        r@ == event_line(*kind, paths.deep_view()),
{
    let mut out: Vec<char> = Vec::new();
    push_str_chars(&mut out, "{\"kind\": \"");
    push_str_chars(&mut out, kind_tag_str(kind));
    push_str_chars(&mut out, "\", \"paths\": [");
    push_paths_body(&mut out, paths);
    push_str_chars(&mut out, "]}");
    proof {
        assert(out@ =~= event_line(*kind, paths.deep_view()));
    }
    chars_to_string(out)
}

// --- The decoder model, and the round-trip law of the structured format ---

/// `p` is a prefix of `s`.
pub open spec fn is_prefix(p: Seq<char>, s: Seq<char>) -> bool {
    p.len() <= s.len() && s.take(p.len() as int) == p
}

/// The numeric value of a lower-case hexadecimal digit, if it is one.
pub open spec fn hex_val(c: char) -> Option<int> {
    if c == '0' {
        Some(0)
    } else if c == '1' {
        Some(1)
    } else if c == '2' {
        Some(2)
    } else if c == '3' {
        Some(3)
    } else if c == '4' {
        Some(4)
    } else if c == '5' {
        Some(5)
    } else if c == '6' {
        Some(6)
    } else if c == '7' {
        Some(7)
    } else if c == '8' {
        Some(8)
    } else if c == '9' {
        Some(9)
    } else if c == 'a' {
        Some(10)
    } else if c == 'b' {
        Some(11)
    } else if c == 'c' {
        Some(12)
    } else if c == 'd' {
        Some(13)
    } else if c == 'e' {
        Some(14)
    } else if c == 'f' {
        Some(15)
    } else {
        None
    }
}

/// The index of the quote that closes a quoted string body: the first
/// quote not consumed as the second character of an escape.
pub open spec fn scan_string_end(s: Seq<char>) -> Option<int>
    decreases s.len(),
{
    if s.len() == 0 {
        None
    } else if s[0] == '"' {
        Some(0)
    } else if s[0] == '\\' {
        if s.len() < 2 {
            None
        } else {
            match scan_string_end(s.skip(2)) {
                None => None,
                Some(j) => Some(j + 2),
            }
        }
    } else {
        match scan_string_end(s.drop_first()) {
            None => None,
            Some(j) => Some(j + 1),
        }
    }
}

/// Undo the escaping of a quoted string body.
pub open spec fn unescape(s: Seq<char>) -> Option<Seq<char>>
    decreases s.len(),
{
    if s.len() == 0 {
        Some(Seq::empty())
    } else if s[0] == '\\' {
        if s.len() < 2 {
            None
        } else if s[1] == '"' || s[1] == '\\' {
            match unescape(s.skip(2)) {
                None => None,
                Some(t) => Some(seq![s[1]] + t),
            }
        } else if s[1] == 'n' {
            match unescape(s.skip(2)) {
                None => None,
                Some(t) => Some(seq!['\n'] + t),
            }
        } else if s[1] == 'r' {
            match unescape(s.skip(2)) {
                None => None,
                Some(t) => Some(seq!['\r'] + t),
            }
        } else if s[1] == 't' {
            match unescape(s.skip(2)) {
                None => None,
                Some(t) => Some(seq!['\t'] + t),
            }
        } else if s[1] == 'u' {
            if s.len() < 6 || s[2] != '0' || s[3] != '0' {
                None
            } else {
                match (hex_val(s[4]), hex_val(s[5])) {
                    (Some(hi), Some(lo)) => match unescape(s.skip(6)) {
                        None => None,
                        Some(t) => Some(seq![((16 * hi + lo) as u32) as char] + t),
                    },
                    _ => None,
                }
            }
        } else {
            None
        }
    } else if s[0] == '"' {
        None
    } else {
        match unescape(s.drop_first()) {
            None => None,
            Some(t) => Some(seq![s[0]] + t),
        }
    }
}

/// The tag section a kind is written as: its tag, the closing quote, and
/// the opening of the path array.
pub open spec fn tag_prefix(kind: NormalizedKind) -> Seq<char> {
    kind_tag(kind) + "\", \"paths\": ["@
}

/// The kind whose tag section opens `r`: the fixed vocabulary, tried in a
/// fixed order.
pub open spec fn decode_kind(r: Seq<char>) -> Option<NormalizedKind> {
    if is_prefix(tag_prefix(NormalizedKind::CreateFile), r) {
        Some(NormalizedKind::CreateFile)
    } else if is_prefix(tag_prefix(NormalizedKind::CreateFolder), r) {
        Some(NormalizedKind::CreateFolder)
    } else if is_prefix(tag_prefix(NormalizedKind::Create), r) {
        Some(NormalizedKind::Create)
    } else if is_prefix(tag_prefix(NormalizedKind::ModifyContent), r) {
        Some(NormalizedKind::ModifyContent)
    } else if is_prefix(tag_prefix(NormalizedKind::ModifySize), r) {
        Some(NormalizedKind::ModifySize)
    } else if is_prefix(tag_prefix(NormalizedKind::ModifyData), r) {
        Some(NormalizedKind::ModifyData)
    } else if is_prefix(tag_prefix(NormalizedKind::RemoveFile), r) {
        Some(NormalizedKind::RemoveFile)
    } else if is_prefix(tag_prefix(NormalizedKind::RemoveFolder), r) {
        Some(NormalizedKind::RemoveFolder)
    } else if is_prefix(tag_prefix(NormalizedKind::Remove), r) {
        Some(NormalizedKind::Remove)
    } else if is_prefix(tag_prefix(NormalizedKind::RenameFrom), r) {
        Some(NormalizedKind::RenameFrom)
    } else if is_prefix(tag_prefix(NormalizedKind::RenameTo), r) {
        Some(NormalizedKind::RenameTo)
    } else if is_prefix(tag_prefix(NormalizedKind::RenameBoth), r) {
        Some(NormalizedKind::RenameBoth)
    } else if is_prefix(tag_prefix(NormalizedKind::Rename), r) {
        Some(NormalizedKind::Rename)
    } else if is_prefix(tag_prefix(NormalizedKind::Any), r) {
        Some(NormalizedKind::Any)
    } else if is_prefix(tag_prefix(NormalizedKind::Other), r) {
        Some(NormalizedKind::Other)
    } else {
        None
    }
}

/// Parse the body of the path array, including the closing bracket and
/// brace: the quoted, separated paths, unescaped, in order.
pub open spec fn parse_paths(s: Seq<char>) -> Option<Seq<Seq<char>>>
    decreases s.len(),
{
    if s == "]}"@ {
        Some(Seq::empty())
    } else if s.len() == 0 || s[0] != '"' {
        None
    } else {
        let inner = s.drop_first();
        match scan_string_end(inner) {
            None => None,
            Some(j) => if j < 0 || j + 1 > inner.len() {
                None
            } else {
                match unescape(inner.take(j)) {
                    None => None,
                    Some(p) => {
                        let rest = inner.skip(j + 1);
                        if rest == "]}"@ {
                            Some(seq![p])
                        } else if rest.len() >= 2 && rest[0] == ',' && rest[1] == ' ' {
                            match parse_paths(rest.skip(2)) {
                                None => None,
                                Some(ps) => Some(seq![p] + ps),
                            }
                        } else {
                            None
                        }
                    },
                }
            },
        }
    }
}

/// Decode a structured output line: the kind tag, from the fixed
/// vocabulary, and the path array.
pub open spec fn decode_line(s: Seq<char>) -> Option<(NormalizedKind, Seq<Seq<char>>)> {
    let opening = "{\"kind\": \""@;
    if !is_prefix(opening, s) {
        None
    } else {
        let r = s.skip(opening.len() as int);
        match decode_kind(r) {
            None => None,
            Some(kind) => match parse_paths(r.skip(tag_prefix(kind).len() as int)) {
                None => None,
                Some(paths) => Some((kind, paths)),
            },
        }
    }
}

/// An escaped body never contains a bare quote or a dangling escape, so the
/// scan finds exactly the quote that follows it.
proof fn lemma_scan_past_escaped(p: Seq<char>, u: Seq<char>)
    requires
        u.len() > 0,
        u[0] == '"',
    ensures
        scan_string_end(escape_string(p) + u) == Some(escape_string(p).len() as int),
    decreases p.len(),
{
    if p.len() == 0 {
        assert(escape_string(p) + u =~= u);
    } else {
        let c = p[0];
        let e = escape_char(c);
        let r = escape_string(p.drop_first());
        let ru = r + u;
        lemma_scan_past_escaped(p.drop_first(), u);
        assert(escape_string(p) + u =~= e + ru);
        let s = e + ru;
        if c == '"' || c == '\\' || c == '\n' || c == '\r' || c == '\t' {
            assert(s[0] == '\\');
            assert(s.skip(2) =~= ru);
            assert(scan_string_end(s) == Some(r.len() as int + 2));
        } else if (c as u32) < 32 {
            let hi = hex_digit(c as u32 as int / 16);
            let lo = hex_digit(c as u32 as int % 16);
            assert(hi != '"' && hi != '\\');
            assert(lo != '"' && lo != '\\');
            let t1 = seq![lo] + ru;
            assert(t1.drop_first() =~= ru);
            assert(scan_string_end(t1) == Some(r.len() as int + 1));
            let t2 = seq![hi] + t1;
            assert(t2.drop_first() =~= t1);
            assert(scan_string_end(t2) == Some(r.len() as int + 2));
            let t3 = seq!['0'] + t2;
            assert(t3.drop_first() =~= t2);
            assert(scan_string_end(t3) == Some(r.len() as int + 3));
            let t4 = seq!['0'] + t3;
            assert(t4.drop_first() =~= t3);
            assert(scan_string_end(t4) == Some(r.len() as int + 4));
            assert(s[0] == '\\');
            assert(s.skip(2) =~= t4);
            assert(scan_string_end(s) == Some(r.len() as int + 6));
            assert(e.len() == 6);
        } else {
            assert(s[0] == c);
            assert(s.drop_first() =~= ru);
            assert(scan_string_end(s) == Some(r.len() as int + 1));
        }
    }
}

/// Unescaping inverts escaping.
proof fn lemma_unescape_escape(p: Seq<char>)
    ensures
        unescape(escape_string(p)) == Some(p),
    decreases p.len(),
{
    if p.len() == 0 {
        assert(escape_string(p) =~= Seq::<char>::empty());
    } else {
        let c = p[0];
        let e = escape_char(c);
        let r = escape_string(p.drop_first());
        lemma_unescape_escape(p.drop_first());
        let s = escape_string(p);
        assert(s =~= e + r);
        if c == '"' || c == '\\' {
            assert(s[0] == '\\' && s[1] == c);
            assert(s.skip(2) =~= r);
            assert(seq![c] + p.drop_first() =~= p);
        } else if c == '\n' {
            assert(s[0] == '\\' && s[1] == 'n');
            assert(s.skip(2) =~= r);
            assert(seq!['\n'] + p.drop_first() =~= p);
        } else if c == '\r' {
            assert(s[0] == '\\' && s[1] == 'r');
            assert(s.skip(2) =~= r);
            assert(seq!['\r'] + p.drop_first() =~= p);
        } else if c == '\t' {
            assert(s[0] == '\\' && s[1] == 't');
            assert(s.skip(2) =~= r);
            assert(seq!['\t'] + p.drop_first() =~= p);
        } else if (c as u32) < 32 {
            let cu = (c as u32) as int;
            let hi = cu / 16;
            let lo = cu % 16;
            assert(s[0] == '\\' && s[1] == 'u' && s[2] == '0' && s[3] == '0');
            assert(s[4] == hex_digit(hi) && s[5] == hex_digit(lo));
            assert(s.len() >= 6);
            assert(hex_val(hex_digit(hi)) == Some(hi));
            assert(hex_val(hex_digit(lo)) == Some(lo));
            assert(16 * hi + lo == cu);
            assert((16 * hi + lo) as u32 == c as u32);
            vstd::utf8::char_u32_cast(c, c as u32);
            assert(((16 * hi + lo) as u32) as char == c);
            assert(s.skip(6) =~= r);
            assert(seq![c] + p.drop_first() =~= p);
        } else {
            assert(s[0] == c && c != '\\' && c != '"');
            assert(s.drop_first() =~= r);
            assert(seq![c] + p.drop_first() =~= p);
        }
    }
}

/// Parsing the path array inverts building it.
proof fn lemma_parse_paths(ps: Seq<Seq<char>>)
    ensures
        parse_paths(paths_body(ps) + "]}"@) == Some(ps),
    decreases ps.len(),
{
    reveal_strlit("]}");
    reveal_strlit(", ");
    let close = "]}"@;
    if ps.len() == 0 {
        assert(paths_body(ps) + close =~= close);
        assert(ps =~= Seq::<Seq<char>>::empty());
    } else {
        let p = ps[0];
        let tail = tail_body(ps.drop_first());
        let s = paths_body(ps) + close;
        assert(s =~= seq!['"'] + (escape_string(p) + (seq!['"'] + (tail + close))));
        assert(s[0] == '"');
        assert(s.len() >= 2 + escape_string(p).len());
        assert(s != close);
        let inner = s.drop_first();
        assert(inner =~= escape_string(p) + (seq!['"'] + (tail + close)));
        lemma_scan_past_escaped(p, seq!['"'] + (tail + close));
        let j = escape_string(p).len() as int;
        assert(scan_string_end(inner) == Some(j));
        assert(inner.take(j) =~= escape_string(p));
        lemma_unescape_escape(p);
        assert(unescape(inner.take(j)) == Some(p));
        let rest = inner.skip(j + 1);
        assert(rest =~= tail + close);
        if ps.len() == 1 {
            assert(tail =~= Seq::<char>::empty());
            assert(rest =~= close);
            assert(parse_paths(s) == Some(seq![p]));
            assert(seq![p] =~= ps);
        } else {
            let ps1 = ps.drop_first();
            assert(tail =~= ", "@ + (quoted(ps1[0]) + tail_body(ps1.drop_first())));
            assert(tail =~= ", "@ + paths_body(ps1));
            assert(rest =~= ", "@ + (paths_body(ps1) + close));
            assert(rest[0] == ',' && rest[1] == ' ');
            assert(rest.len() >= 2);
            assert(rest != close);
            assert(rest.skip(2) =~= paths_body(ps1) + close);
            lemma_parse_paths(ps1);
            assert(parse_paths(s) == Some(seq![p] + ps1));
            assert(seq![p] + ps1 =~= ps);
        }
    }
}

/// A sequence whose character at `i` differs is not a prefix.
proof fn lemma_not_prefix(p: Seq<char>, s: Seq<char>, i: int)
    requires
        0 <= i < p.len(),
        i < s.len(),
        p[i] != s[i],
    ensures
        !is_prefix(p, s),
{
    if is_prefix(p, s) {
        assert(s.take(p.len() as int)[i] == s[i]);
        assert(false);
    }
}

/// The tag section picks out exactly the kind it was written for.
proof fn lemma_decode_kind(kind: NormalizedKind, rest: Seq<char>)
    ensures
        decode_kind(tag_prefix(kind) + rest) == Some(kind),
{
    reveal_strlit("CreateFile");
    reveal_strlit("CreateFolder");
    reveal_strlit("Create");
    reveal_strlit("ModifyContent");
    reveal_strlit("ModifySize");
    reveal_strlit("ModifyData");
    reveal_strlit("RemoveFile");
    reveal_strlit("RemoveFolder");
    reveal_strlit("Remove");
    reveal_strlit("RenameFrom");
    reveal_strlit("RenameTo");
    reveal_strlit("RenameBoth");
    reveal_strlit("Rename");
    reveal_strlit("Any");
    reveal_strlit("Other");
    reveal_strlit("\", \"paths\": [");
    let r = tag_prefix(kind) + rest;
    assert(r.take(tag_prefix(kind).len() as int) =~= tag_prefix(kind));
    assert(is_prefix(tag_prefix(kind), r));
    match kind {
        NormalizedKind::CreateFile => {
        },
        NormalizedKind::CreateFolder => {
            lemma_not_prefix(tag_prefix(NormalizedKind::CreateFile), r, 7);
        },
        NormalizedKind::Create => {
            lemma_not_prefix(tag_prefix(NormalizedKind::CreateFile), r, 6);
            lemma_not_prefix(tag_prefix(NormalizedKind::CreateFolder), r, 6);
        },
        NormalizedKind::ModifyContent => {
            lemma_not_prefix(tag_prefix(NormalizedKind::CreateFile), r, 0);
            lemma_not_prefix(tag_prefix(NormalizedKind::CreateFolder), r, 0);
            lemma_not_prefix(tag_prefix(NormalizedKind::Create), r, 0);
        },
        NormalizedKind::ModifySize => {
            lemma_not_prefix(tag_prefix(NormalizedKind::CreateFile), r, 0);
            lemma_not_prefix(tag_prefix(NormalizedKind::CreateFolder), r, 0);
            lemma_not_prefix(tag_prefix(NormalizedKind::Create), r, 0);
            lemma_not_prefix(tag_prefix(NormalizedKind::ModifyContent), r, 6);
        },
        NormalizedKind::ModifyData => {
            lemma_not_prefix(tag_prefix(NormalizedKind::CreateFile), r, 0);
            lemma_not_prefix(tag_prefix(NormalizedKind::CreateFolder), r, 0);
            lemma_not_prefix(tag_prefix(NormalizedKind::Create), r, 0);
            lemma_not_prefix(tag_prefix(NormalizedKind::ModifyContent), r, 6);
            lemma_not_prefix(tag_prefix(NormalizedKind::ModifySize), r, 6);
        },
        NormalizedKind::RemoveFile => {
            lemma_not_prefix(tag_prefix(NormalizedKind::CreateFile), r, 0);
            lemma_not_prefix(tag_prefix(NormalizedKind::CreateFolder), r, 0);
            lemma_not_prefix(tag_prefix(NormalizedKind::Create), r, 0);
            lemma_not_prefix(tag_prefix(NormalizedKind::ModifyContent), r, 0);
            lemma_not_prefix(tag_prefix(NormalizedKind::ModifySize), r, 0);
            lemma_not_prefix(tag_prefix(NormalizedKind::ModifyData), r, 0);
        },
        NormalizedKind::RemoveFolder => {
            lemma_not_prefix(tag_prefix(NormalizedKind::CreateFile), r, 0);
            lemma_not_prefix(tag_prefix(NormalizedKind::CreateFolder), r, 0);
            lemma_not_prefix(tag_prefix(NormalizedKind::Create), r, 0);
            lemma_not_prefix(tag_prefix(NormalizedKind::ModifyContent), r, 0);
            lemma_not_prefix(tag_prefix(NormalizedKind::ModifySize), r, 0);
            lemma_not_prefix(tag_prefix(NormalizedKind::ModifyData), r, 0);
            lemma_not_prefix(tag_prefix(NormalizedKind::RemoveFile), r, 7);
        },
        NormalizedKind::Remove => {
            lemma_not_prefix(tag_prefix(NormalizedKind::CreateFile), r, 0);
            lemma_not_prefix(tag_prefix(NormalizedKind::CreateFolder), r, 0);
            lemma_not_prefix(tag_prefix(NormalizedKind::Create), r, 0);
            lemma_not_prefix(tag_prefix(NormalizedKind::ModifyContent), r, 0);
            lemma_not_prefix(tag_prefix(NormalizedKind::ModifySize), r, 0);
            lemma_not_prefix(tag_prefix(NormalizedKind::ModifyData), r, 0);
            lemma_not_prefix(tag_prefix(NormalizedKind::RemoveFile), r, 6);
            lemma_not_prefix(tag_prefix(NormalizedKind::RemoveFolder), r, 6);
        },
        NormalizedKind::RenameFrom => {
            lemma_not_prefix(tag_prefix(NormalizedKind::CreateFile), r, 0);
            lemma_not_prefix(tag_prefix(NormalizedKind::CreateFolder), r, 0);
            lemma_not_prefix(tag_prefix(NormalizedKind::Create), r, 0);
            lemma_not_prefix(tag_prefix(NormalizedKind::ModifyContent), r, 0);
            lemma_not_prefix(tag_prefix(NormalizedKind::ModifySize), r, 0);
            lemma_not_prefix(tag_prefix(NormalizedKind::ModifyData), r, 0);
            lemma_not_prefix(tag_prefix(NormalizedKind::RemoveFile), r, 2);
            lemma_not_prefix(tag_prefix(NormalizedKind::RemoveFolder), r, 2);
            lemma_not_prefix(tag_prefix(NormalizedKind::Remove), r, 2);
        },
        NormalizedKind::RenameTo => {
            lemma_not_prefix(tag_prefix(NormalizedKind::CreateFile), r, 0);
            lemma_not_prefix(tag_prefix(NormalizedKind::CreateFolder), r, 0);
            lemma_not_prefix(tag_prefix(NormalizedKind::Create), r, 0);
            lemma_not_prefix(tag_prefix(NormalizedKind::ModifyContent), r, 0);
            lemma_not_prefix(tag_prefix(NormalizedKind::ModifySize), r, 0);
            lemma_not_prefix(tag_prefix(NormalizedKind::ModifyData), r, 0);
            lemma_not_prefix(tag_prefix(NormalizedKind::RemoveFile), r, 2);
            lemma_not_prefix(tag_prefix(NormalizedKind::RemoveFolder), r, 2);
            lemma_not_prefix(tag_prefix(NormalizedKind::Remove), r, 2);
            lemma_not_prefix(tag_prefix(NormalizedKind::RenameFrom), r, 6);
        },
        NormalizedKind::RenameBoth => {
            lemma_not_prefix(tag_prefix(NormalizedKind::CreateFile), r, 0);
            lemma_not_prefix(tag_prefix(NormalizedKind::CreateFolder), r, 0);
            lemma_not_prefix(tag_prefix(NormalizedKind::Create), r, 0);
            lemma_not_prefix(tag_prefix(NormalizedKind::ModifyContent), r, 0);
            lemma_not_prefix(tag_prefix(NormalizedKind::ModifySize), r, 0);
            lemma_not_prefix(tag_prefix(NormalizedKind::ModifyData), r, 0);
            lemma_not_prefix(tag_prefix(NormalizedKind::RemoveFile), r, 2);
            lemma_not_prefix(tag_prefix(NormalizedKind::RemoveFolder), r, 2);
            lemma_not_prefix(tag_prefix(NormalizedKind::Remove), r, 2);
            lemma_not_prefix(tag_prefix(NormalizedKind::RenameFrom), r, 6);
            lemma_not_prefix(tag_prefix(NormalizedKind::RenameTo), r, 6);
        },
        NormalizedKind::Rename => {
            lemma_not_prefix(tag_prefix(NormalizedKind::CreateFile), r, 0);
            lemma_not_prefix(tag_prefix(NormalizedKind::CreateFolder), r, 0);
            lemma_not_prefix(tag_prefix(NormalizedKind::Create), r, 0);
            lemma_not_prefix(tag_prefix(NormalizedKind::ModifyContent), r, 0);
            lemma_not_prefix(tag_prefix(NormalizedKind::ModifySize), r, 0);
            lemma_not_prefix(tag_prefix(NormalizedKind::ModifyData), r, 0);
            lemma_not_prefix(tag_prefix(NormalizedKind::RemoveFile), r, 2);
            lemma_not_prefix(tag_prefix(NormalizedKind::RemoveFolder), r, 2);
            lemma_not_prefix(tag_prefix(NormalizedKind::Remove), r, 2);
            lemma_not_prefix(tag_prefix(NormalizedKind::RenameFrom), r, 6);
            lemma_not_prefix(tag_prefix(NormalizedKind::RenameTo), r, 6);
            lemma_not_prefix(tag_prefix(NormalizedKind::RenameBoth), r, 6);
        },
        NormalizedKind::Any => {
            lemma_not_prefix(tag_prefix(NormalizedKind::CreateFile), r, 0);
            lemma_not_prefix(tag_prefix(NormalizedKind::CreateFolder), r, 0);
            lemma_not_prefix(tag_prefix(NormalizedKind::Create), r, 0);
            lemma_not_prefix(tag_prefix(NormalizedKind::ModifyContent), r, 0);
            lemma_not_prefix(tag_prefix(NormalizedKind::ModifySize), r, 0);
            lemma_not_prefix(tag_prefix(NormalizedKind::ModifyData), r, 0);
            lemma_not_prefix(tag_prefix(NormalizedKind::RemoveFile), r, 0);
            lemma_not_prefix(tag_prefix(NormalizedKind::RemoveFolder), r, 0);
            lemma_not_prefix(tag_prefix(NormalizedKind::Remove), r, 0);
            lemma_not_prefix(tag_prefix(NormalizedKind::RenameFrom), r, 0);
            lemma_not_prefix(tag_prefix(NormalizedKind::RenameTo), r, 0);
            lemma_not_prefix(tag_prefix(NormalizedKind::RenameBoth), r, 0);
            lemma_not_prefix(tag_prefix(NormalizedKind::Rename), r, 0);
        },
        NormalizedKind::Other => {
            lemma_not_prefix(tag_prefix(NormalizedKind::CreateFile), r, 0);
            lemma_not_prefix(tag_prefix(NormalizedKind::CreateFolder), r, 0);
            lemma_not_prefix(tag_prefix(NormalizedKind::Create), r, 0);
            lemma_not_prefix(tag_prefix(NormalizedKind::ModifyContent), r, 0);
            lemma_not_prefix(tag_prefix(NormalizedKind::ModifySize), r, 0);
            lemma_not_prefix(tag_prefix(NormalizedKind::ModifyData), r, 0);
            lemma_not_prefix(tag_prefix(NormalizedKind::RemoveFile), r, 0);
            lemma_not_prefix(tag_prefix(NormalizedKind::RemoveFolder), r, 0);
            lemma_not_prefix(tag_prefix(NormalizedKind::Remove), r, 0);
            lemma_not_prefix(tag_prefix(NormalizedKind::RenameFrom), r, 0);
            lemma_not_prefix(tag_prefix(NormalizedKind::RenameTo), r, 0);
            lemma_not_prefix(tag_prefix(NormalizedKind::RenameBoth), r, 0);
            lemma_not_prefix(tag_prefix(NormalizedKind::Rename), r, 0);
            lemma_not_prefix(tag_prefix(NormalizedKind::Any), r, 0);
        },
    }
}

/// Round-trip of the structured output: decoding an emitted line yields the
/// event's kind tag, from the fixed vocabulary, and its path list, in
/// order, with no entries added or dropped.
pub proof fn lemma_structured_round_trip(kind: NormalizedKind, paths: Seq<Seq<char>>)
    ensures
        decode_line(event_line(kind, paths)) == Some((kind, paths)),
{
    reveal_strlit("{\"kind\": \"");
    let opening = "{\"kind\": \""@;
    let s = event_line(kind, paths);
    let body = paths_body(paths) + "]}"@;
    assert(s =~= opening + (tag_prefix(kind) + body));
    assert(s.take(opening.len() as int) =~= opening);
    assert(is_prefix(opening, s));
    let r = s.skip(opening.len() as int);
    assert(r =~= tag_prefix(kind) + body);
    lemma_decode_kind(kind, body);
    assert(decode_kind(r) == Some(kind));
    assert(r.skip(tag_prefix(kind).len() as int) =~= body);
    lemma_parse_paths(paths);
    assert(decode_line(s) == Some((kind, paths)));
}

/// Render an event as its plain, human-readable output line.
pub fn render_plain(kind: &NormalizedKind, paths: &Vec<String>) -> (r: String)
    ensures
        r@ == plain_line(*kind, paths.deep_view()),
{
    let mut out: Vec<char> = Vec::new();
    push_str_chars(&mut out, "Event: ");
    push_str_chars(&mut out, kind_tag_str(kind));
    push_str_chars(&mut out, " [");
    push_paths_body(&mut out, paths);
    push_str_chars(&mut out, "]");
    proof {
        assert(out@ =~= plain_line(*kind, paths.deep_view()));
    }
    chars_to_string(out)
}

} // verus!
