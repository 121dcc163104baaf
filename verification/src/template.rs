//! Harness templating: a per-target harness source is produced from a
//! template file by replacing every occurrence of one literal placeholder
//! token with the target's name. This is deliberately dumb text substitution,
//! not a templating language; a target name that itself contains the token
//! would corrupt the output, a documented limitation.

use vstd::prelude::*;

use crate::paths::path_join;
use crate::paths::Fuzzer;

verus! {

/// The literal token a harness template holds where the target name goes.
pub open spec fn placeholder() -> Seq<char> {
    "###TARGET###"@
}

/// `text` with every leftmost, non-overlapping occurrence of `pat` replaced
/// by `rep`.
pub open spec fn replace_all(text: Seq<char>, pat: Seq<char>, rep: Seq<char>) -> Seq<char>
    decreases text.len(),
    when pat.len() > 0
{
    if text.len() < pat.len() {
        text
    } else if text.subrange(0, pat.len() as int) == pat {
        rep + replace_all(text.skip(pat.len() as int), pat, rep)
    } else {
        seq![text[0]] + replace_all(text.skip(1), pat, rep)
    }
}

proof fn lemma_replace_step_match(text: Seq<char>, pat: Seq<char>, rep: Seq<char>, i: int)
    requires
        pat.len() > 0,
        0 <= i,
        i + pat.len() <= text.len(),
        text.subrange(i, i + pat.len()) == pat,
    ensures
        replace_all(text.skip(i), pat, rep) == rep + replace_all(
            text.skip(i + pat.len()),
            pat,
            rep,
        ),
{
    let s = text.skip(i);
    assert(s.subrange(0, pat.len() as int) =~= text.subrange(i, i + pat.len()));
    assert(s.skip(pat.len() as int) =~= text.skip(i + pat.len()));
}

proof fn lemma_replace_step_no_match(text: Seq<char>, pat: Seq<char>, rep: Seq<char>, i: int)
    requires
        pat.len() > 0,
        0 <= i < text.len(),
        i + pat.len() > text.len() || text.subrange(i, i + pat.len()) != pat,
    ensures
        replace_all(text.skip(i), pat, rep) == seq![text[i]] + replace_all(
            text.skip(i + 1),
            pat,
            rep,
        ),
{
    let s = text.skip(i);
    if s.len() >= pat.len() {
        assert(s.subrange(0, pat.len() as int) =~= text.subrange(i, i + pat.len()));
        assert(s.subrange(0, pat.len() as int) != pat);
    }
    assert(s.skip(1) =~= text.skip(i + 1));
    if s.len() < pat.len() {
        // one character is consumed and the tail, shorter than the pattern,
        // is returned unchanged on both sides
        assert(s =~= seq![text[i]] + text.skip(i + 1));
        assert(text.skip(i + 1).len() < pat.len());
    }
}

/// A text without any occurrence of the pattern is returned unchanged.
pub proof fn lemma_replace_all_absent(text: Seq<char>, pat: Seq<char>, rep: Seq<char>)
    requires
        pat.len() > 0,
        forall|i: int|
            0 <= i && i + pat.len() <= text.len() ==> #[trigger] text.subrange(i, i + pat.len())
                != pat,
    ensures
        replace_all(text, pat, rep) == text,
    decreases text.len(),
{
    if text.len() >= pat.len() {
        assert(text.subrange(0, 0 + pat.len() as int) != pat);
        let tail = text.skip(1);
        assert forall|i: int| 0 <= i && i + pat.len() <= tail.len() implies #[trigger] tail.subrange(
            i,
            i + pat.len(),
        ) != pat by {
            assert(tail.subrange(i, i + pat.len()) =~= text.subrange(i + 1, i + 1 + pat.len()));
        }
        lemma_replace_all_absent(tail, pat, rep);
        assert(text.subrange(0, pat.len() as int) != pat);
        assert(seq![text[0]] + tail =~= text);
    }
}

/// Replacement around a pattern occurrence that nothing earlier overlaps:
/// everything before the occurrence is kept, the occurrence becomes the
/// replacement, and the scan goes on after it.
pub proof fn lemma_replace_all_at_boundary(
    pre: Seq<char>,
    pat: Seq<char>,
    post: Seq<char>,
    rep: Seq<char>,
)
    requires
        pat.len() > 0,
        forall|i: int|
            0 <= i < pre.len() ==> #[trigger] (pre + pat + post).subrange(i, i + pat.len()) != pat,
    ensures
        replace_all(pre + pat + post, pat, rep) == pre + rep + replace_all(post, pat, rep),
    decreases pre.len(),
{
    let text = pre + pat + post;
    if pre.len() == 0 {
        assert(text.subrange(0, pat.len() as int) =~= pat);
        assert(text.skip(pat.len() as int) =~= post);
        assert(replace_all(text, pat, rep) == rep + replace_all(post, pat, rep));
        assert(pre + rep + replace_all(post, pat, rep) =~= rep + replace_all(post, pat, rep));
    } else {
        assert(text.subrange(0, 0 + pat.len() as int) != pat);
        assert(text.subrange(0, pat.len() as int) != pat);
        let pre1 = pre.skip(1);
        let tail = text.skip(1);
        assert(tail =~= pre1 + pat + post);
        assert forall|i: int| 0 <= i < pre1.len() implies #[trigger] (pre1 + pat + post).subrange(
            i,
            i + pat.len(),
        ) != pat by {
            assert((pre1 + pat + post).subrange(i, i + pat.len()) =~= text.subrange(
                i + 1,
                i + 1 + pat.len(),
            ));
        }
        lemma_replace_all_at_boundary(pre1, pat, post, rep);
        assert(replace_all(text, pat, rep) == seq![text[0]] + (pre1 + rep + replace_all(
            post,
            pat,
            rep,
        )));
        assert(seq![text[0]] + (pre1 + rep + replace_all(post, pat, rep)) =~= pre + rep
            + replace_all(post, pat, rep));
    }
}

/// The single-occurrence template law: when the placeholder token occurs
/// only at one position of the template — nowhere before it, and not in the
/// part after it — instantiation yields the text before the token, the
/// target's name, and the text after the token, each unchanged.
pub proof fn lemma_instantiate_single_occurrence(
    pre: Seq<char>,
    post: Seq<char>,
    target: Seq<char>,
)
    requires
        forall|i: int|
            0 <= i < pre.len() ==> #[trigger] (pre + placeholder() + post).subrange(
                i,
                i + placeholder().len(),
            ) != placeholder(),
        forall|i: int|
            0 <= i && i + placeholder().len() <= post.len() ==> #[trigger] post.subrange(
                i,
                i + placeholder().len(),
            ) != placeholder(),
    ensures
        replace_all(pre + placeholder() + post, placeholder(), target) == pre + target + post,
{
    reveal_strlit("###TARGET###");
    lemma_replace_all_at_boundary(pre, placeholder(), post, target);
    lemma_replace_all_absent(post, placeholder(), target);
}

/// Replaces every leftmost, non-overlapping occurrence of `pat` in `text`
/// with `rep`.
pub fn replace_all_str(text: &str, pat: &str, rep: &str) -> (r: String)
    requires
        pat@.len() > 0,
    ensures
        r@ == replace_all(text@, pat@, rep@),
{
    let n = text.unicode_len();
    let plen = pat.unicode_len();
    let mut out = String::from_str("");
    let mut i: usize = 0;
    proof {
        reveal_strlit("");
        assert(text@.skip(0) =~= text@);
        assert(out@ + replace_all(text@, pat@, rep@) =~= replace_all(text@, pat@, rep@));
    }
    while i < n
        invariant
            n == text@.len(),
            plen == pat@.len(),
            plen > 0,
            0 <= i <= n,
            out@ + replace_all(text@.skip(i as int), pat@, rep@) == replace_all(
                text@,
                pat@,
                rep@,
            ),
        decreases n - i,
    {
        if n - i >= plen && crate::text::matches_at(text, pat, i) {
            proof {
                lemma_replace_step_match(text@, pat@, rep@, i as int);
            }
            out.append(rep);
            i = i + plen;
        } else {
            proof {
                lemma_replace_step_no_match(text@, pat@, rep@, i as int);
            }
            let piece = text.substring_char(i, i + 1);
            proof {
                assert(piece@ =~= seq![text@[i as int]]);
            }
            out.append(piece);
            i = i + 1;
        }
    }
    proof {
        assert(text@.skip(n as int) =~= Seq::<char>::empty());
        assert(replace_all(Seq::<char>::empty(), pat@, rep@) =~= Seq::<char>::empty());
        assert(out@ + Seq::<char>::empty() =~= out@);
    }
    out
}

/// Instantiates a harness template for one target: every occurrence of the
/// placeholder token becomes the target's name, and nothing else changes.
pub fn instantiate_template(template: &str, target: &str) -> (r: String)
    ensures
        r@ == replace_all(template@, placeholder(), target@),
{
    proof {
        reveal_strlit("###TARGET###");
    }
    replace_all_str(template, "###TARGET###", target)
}

/// The generated harness file for `target` under an engine's work tree:
/// `<work_dir>/src/bin/<target>.rs`.
pub fn harness_file_path(work_dir: &str, target: &str) -> (p: String)
    ensures
        p@ == work_dir@ + "/"@ + "src"@ + "/"@ + "bin"@ + "/"@ + target@ + ".rs"@,
{
    let s = path_join(work_dir, "src");
    let b = path_join(s.as_str(), "bin");
    let mut p = path_join(b.as_str(), target);
    p.append(".rs");
    p
}

/// The generated harness file for `target` in the libfuzzer layout:
/// `<work_dir>/fuzz/fuzz_targets/<target>.rs`.
pub fn libfuzzer_target_path(work_dir: &str, target: &str) -> (p: String)
    ensures
        p@ == work_dir@ + "/"@ + "fuzz"@ + "/"@ + "fuzz_targets"@ + "/"@ + target@ + ".rs"@,
{
    let f = path_join(work_dir, "fuzz");
    let t = path_join(f.as_str(), "fuzz_targets");
    let mut p = path_join(t.as_str(), target);
    p.append(".rs");
    p
}

/// The generated debug binary source for `target`:
/// `<debug_dir>/src/bin/debug_<target>.rs`.
pub fn debug_target_path(debug_dir: &str, target: &str) -> (p: String)
    ensures
        p@ == debug_dir@ + "/"@ + "src"@ + "/"@ + "bin"@ + "/"@ + "debug_"@ + target@ + ".rs"@,
{
    let s = path_join(debug_dir, "src");
    let b = path_join(s.as_str(), "bin");
    let mut p = path_join(b.as_str(), "debug_");
    p.append(target);
    p.append(".rs");
    p
}

/// The template file of an engine's static definition directory:
/// `<fuzzer_dir>/template.rs`.
pub fn template_file_path(fuzzer: Fuzzer, root: &str) -> (p: String)
    ensures
        p@ == fuzzer.dir_spec(root@) + "/"@ + "template.rs"@,
{
    let d = fuzzer.dir(root);
    path_join(d.as_str(), "template.rs")
}

} // verus!
