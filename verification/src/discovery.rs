//! Target discovery: scanning the shared targets source text for every
//! occurrence of the entry-point naming pattern `pub fn fuzz_<name>(` and
//! collecting the `<name>` components in textual order, duplicates preserved.
//!
//! Discovery is recomputed from the text it is handed on every call; reading
//! the source file from disk is the caller's business.
//!
//! The name alphabet is fixed to ASCII letters, digits and underscore. This
//! is a deliberate narrowing of the general word-character class: harness
//! entry points are Rust identifiers written in the project's own sources,
//! and the full Unicode word-character class cannot be stated here without
//! copying its tables. On a source text whose harness name holds a
//! non-ASCII word character, this scan does not capture that name.

use vstd::prelude::*;

use crate::errors::DiscoveryError;
use crate::text::matches_at;

verus! {

/// A character that may appear in a captured target name: an ASCII letter,
/// digit or underscore. The alphabet is deliberately this narrow: harness
/// entry points are Rust identifiers written in the project's own sources,
/// so the scan does not admit the wider Unicode word-character class.
pub open spec fn is_name_char(c: char) -> bool {
    ('a' <= c && c <= 'z') || ('A' <= c && c <= 'Z') || ('0' <= c && c <= '9') || c == '_'
}

/// The fixed text that opens every entry-point definition.
pub open spec fn marker() -> Seq<char> {
    "pub fn fuzz_"@
}

/// An occurrence of the entry-point pattern: the marker starts at `i`, a
/// non-empty run of name characters follows it, and `j` is the position of
/// the `(` that closes the run.
pub open spec fn match_at(text: Seq<char>, i: int, j: int) -> bool {
    &&& 0 <= i
    &&& i + marker().len() < j
    &&& j < text.len()
    &&& text.subrange(i, i + marker().len() as int) == marker()
    &&& (forall|k: int| i + marker().len() <= k < j ==> is_name_char(#[trigger] text[k]))
    &&& text[j] == '('
}

/// The name captured by the occurrence `(i, j)`.
pub open spec fn name_at(text: Seq<char>, i: int, j: int) -> Seq<char> {
    text.subrange(i + marker().len() as int, j)
}

/// The names of all occurrences at or after position `i`, leftmost first,
/// each scan resuming just past the `(` of the previous occurrence.
pub open spec fn scan_from(text: Seq<char>, i: int) -> Seq<Seq<char>>
    decreases text.len() - i,
    when 0 <= i <= text.len()
{
    if i >= text.len() {
        Seq::empty()
    } else if exists|j: int| match_at(text, i, j) {
        let j = choose|j: int| match_at(text, i, j);
        seq![name_at(text, i, j)] + scan_from(text, j + 1)
    } else {
        scan_from(text, i + 1)
    }
}

/// Every name the entry-point pattern captures in `text`, in textual order.
pub open spec fn target_names(text: Seq<char>) -> Seq<Seq<char>> {
    scan_from(text, 0)
}

/// At most one `(` can close a run of name characters that starts at one
/// marker occurrence.
pub proof fn lemma_match_unique(text: Seq<char>, i: int, j1: int, j2: int)
    requires
        match_at(text, i, j1),
        match_at(text, i, j2),
    ensures
        j1 == j2,
{
    if j1 < j2 {
        assert(is_name_char(text[j1]));
        assert(!is_name_char('('));
    }
    if j2 < j1 {
        assert(is_name_char(text[j2]));
        assert(!is_name_char('('));
    }
}

proof fn lemma_scan_no_match(text: Seq<char>, i: int)
    requires
        0 <= i < text.len(),
        forall|j: int| !match_at(text, i, j),
    ensures
        scan_from(text, i) == scan_from(text, i + 1),
{
}

proof fn lemma_scan_match(text: Seq<char>, i: int, j: int)
    requires
        match_at(text, i, j),
    ensures
        scan_from(text, i) == seq![name_at(text, i, j)] + scan_from(text, j + 1),
{
    let jc = choose|j0: int| match_at(text, i, j0);
    lemma_match_unique(text, i, j, jc);
}

/// Decides whether `c`, read at a position of `text`, may belong to a name.
fn name_char_at(text: &str, j: usize) -> (b: bool)
    requires
        j < text@.len(),
    ensures
        b == is_name_char(text@[j as int]),
{
    let c = text.get_char(j);
    ('a' <= c && c <= 'z') || ('A' <= c && c <= 'Z') || ('0' <= c && c <= '9') || c == '_'
}

/// Tries the entry-point pattern at position `i` of `text`; on a match,
/// returns the captured name and the position of the closing `(`.
fn try_match_at(text: &str, i: usize, n: usize) -> (r: Option<(String, usize)>)
    requires
        n == text@.len(),
        i < n,
    ensures
        match r {
            Some(p) => match_at(text@, i as int, p.1 as int) && p.0@ == name_at(
                text@,
                i as int,
                p.1 as int,
            ),
            None => forall|j: int| !match_at(text@, i as int, j),
        },
{
    proof {
        reveal_strlit("pub fn fuzz_");
    }
    if n - i < 14 {
        return None;
    }
    if !matches_at(text, "pub fn fuzz_", i) {
        return None;
    }
    let mut j: usize = i + 12;
    while j < n && name_char_at(text, j)
        invariant
            n == text@.len(),
            i + 12 <= j <= n,
            forall|k: int| i + 12 <= k < j ==> is_name_char(#[trigger] text@[k]),
        decreases n - j,
    {
        j = j + 1;
    }
    proof {
        assert(!is_name_char('('));
    }
    if j == i + 12 {
        // the run of name characters is empty
        return None;
    }
    if j == n {
        // the run of name characters reaches the end of the text: no `(`
        return None;
    }
    if text.get_char(j) != '(' {
        return None;
    }
    let name_slice = text.substring_char(i + 12, j);
    let name = String::from_str(name_slice);
    Some((name, j))
}

/// Scans `text` for every occurrence of the entry-point pattern and returns
/// the captured names in textual order, duplicates preserved as found. Fails
/// exactly when the text holds no occurrence at all. A name is a non-empty
/// run of ASCII identifier characters (see `is_name_char` for why the
/// alphabet stops there).
pub fn discover_targets(text: &str) -> (r: Result<Vec<String>, DiscoveryError>)
    ensures
        match r {
            Ok(names) => names.deep_view() == target_names(text@) && names@.len() > 0,
            Err(e) => e is NoTargets && target_names(text@).len() == 0,
        },
{
    let n = text.unicode_len();
    let mut names: Vec<String> = Vec::new();
    let mut i: usize = 0;
    while i < n
        invariant
            n == text@.len(),
            0 <= i <= n,
            names.deep_view() + scan_from(text@, i as int) == target_names(text@),
        decreases n - i,
    {
        let ghost old_dv = names.deep_view();
        match try_match_at(text, i, n) {
            Some((name, j)) => {
                proof {
                    lemma_scan_match(text@, i as int, j as int);
                }
                names.push(name);
                proof {
                    assert(names.deep_view() =~= old_dv.push(name@));
                    assert(old_dv.push(name@) + scan_from(text@, j + 1) =~= old_dv + (seq![
                        name_at(text@, i as int, j as int),
                    ] + scan_from(text@, j + 1)));
                }
                i = j + 1;
            },
            None => {
                proof {
                    lemma_scan_no_match(text@, i as int);
                }
                i = i + 1;
            },
        }
    }
    if names.len() == 0 {
        proof {
            assert(target_names(text@) =~= Seq::<Seq<char>>::empty());
        }
        Err(DiscoveryError::NoTargets)
    } else {
        proof {
            assert(names.deep_view() + scan_from(text@, n as int) =~= names.deep_view());
        }
        Ok(names)
    }
}

} // verus!
