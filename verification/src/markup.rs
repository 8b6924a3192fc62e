//! Removal of markup from captions.
//!
//! A tag is a span that starts at `<` and ends at the next `>`. Tags are
//! removed in one pass from left to right; what is left is not looked at
//! again, nesting is not understood, and character entities stay as they are.

use vstd::prelude::*;
use vstd::string::*;
use regex::Regex;

verus! {

/// Whether `s` holds a `>` at position `from` or later.
pub open spec fn closes_from(s: Seq<char>, from: int) -> bool {
    exists|j: int| from <= j < s.len() && s[j] == '>'
}

/// What one pass leaves of `s` from position `i` on, where `in_tag` says
/// whether position `i` lies inside a tag that opened earlier.
///
/// A `<` opens a tag only when a `>` follows it somewhere; the tag then runs
/// up to and including the first such `>`.
pub open spec fn strip_from(s: Seq<char>, i: int, in_tag: bool) -> Seq<char>
    decreases s.len() - i,
{
    if i < 0 || i >= s.len() {
        Seq::empty()
    } else if in_tag {
        strip_from(s, i + 1, s[i] != '>')
    } else if s[i] == '<' && closes_from(s, i + 1) {
        strip_from(s, i + 1, true)
    } else {
        seq![s[i]] + strip_from(s, i + 1, false)
    }
}

/// The text `s` with every tag removed.
pub open spec fn strip_markup(s: Seq<char>) -> Seq<char> {
    strip_from(s, 0, false)
}

/// The pattern that matches one tag.
pub open spec fn tag_pattern() -> Seq<char> {
    "<[^>]*>"@
}

/// No `<` in `s` has a `>` anywhere after it, so `s` holds no tag.
pub open spec fn tag_free(s: Seq<char>) -> bool {
    forall|i: int, j: int| 0 <= i < j < s.len() ==> !(s[i] == '<' && s[j] == '>')
}

/// Compiles `pattern` with `regex::Regex::new` and replaces every match in
/// `text` with `Regex::replace_all`.
///
/// Trusted. The contract covers the one pattern that the library uses, with
/// an empty replacement: the engine finds the leftmost match, which starts at
/// the first `<` that has a `>` after it and ends at the nearest such `>`
/// (`[^>]` matches every character but `>`, line breaks included), removes
/// it, and goes on behind it. The pattern is valid, so compiling it does not
/// fail.
#[verifier::external_body]
fn replace_matches(pattern: &str, text: &str, replacement: &str) -> (out: String)
    requires
        pattern@ == tag_pattern(),
        replacement@.len() == 0,
    ensures
        out@ == strip_markup(text@),
{
    Regex::new(pattern).unwrap().replace_all(text, replacement).into_owned()
}

/// Removes all markup from a caption.
pub fn sanitize_caption(raw: &str) -> (clean: String)
    ensures
        clean@ == strip_markup(raw@),
{
    proof {
        reveal_strlit("");
    }
    replace_matches("<[^>]*>", raw, "")
}

/// Every character that a pass from `i` on keeps stands in `s` at `i` or
/// later.
proof fn lemma_kept_chars(s: Seq<char>, i: int, in_tag: bool)
    requires
        0 <= i,
    ensures
        forall|k: int|
            0 <= k < strip_from(s, i, in_tag).len() ==> exists|j: int|
                i <= j < s.len() && s[j] == #[trigger] strip_from(s, i, in_tag)[k],
    decreases s.len() - i,
{
    if i < s.len() {
        let rest_in_tag = if in_tag {
            s[i] != '>'
        } else {
            s[i] == '<' && closes_from(s, i + 1)
        };
        lemma_kept_chars(s, i + 1, rest_in_tag);
        let rest = strip_from(s, i + 1, rest_in_tag);
        let out = strip_from(s, i, in_tag);
        assert forall|k: int| 0 <= k < out.len() implies exists|j: int|
            i <= j < s.len() && s[j] == #[trigger] out[k] by {
            if out == rest {
                let j = choose|j: int| i + 1 <= j < s.len() && s[j] == rest[k];
                assert(s[j] == out[k]);
            } else if k > 0 {
                let j = choose|j: int| i + 1 <= j < s.len() && s[j] == rest[k - 1];
                assert(s[j] == out[k]);
            }
        }
    }
}

/// What a pass leaves holds no tag.
proof fn lemma_strip_leaves_no_tag(s: Seq<char>, i: int, in_tag: bool)
    requires
        0 <= i,
    ensures
        tag_free(strip_from(s, i, in_tag)),
    decreases s.len() - i,
{
    if i < s.len() {
        let rest_in_tag = if in_tag {
            s[i] != '>'
        } else {
            s[i] == '<' && closes_from(s, i + 1)
        };
        lemma_strip_leaves_no_tag(s, i + 1, rest_in_tag);
        let rest = strip_from(s, i + 1, rest_in_tag);
        let out = strip_from(s, i, in_tag);
        if out != rest {
            // The character at `i` is kept. Where it is a `<`, no `>` follows
            // it in `s`, and so none follows it among the characters kept.
            lemma_kept_chars(s, i + 1, false);
            assert forall|a: int, b: int| 0 <= a < b < out.len() implies !(out[a] == '<' && out[b]
                == '>') by {
                if a == 0 && s[i] == '<' && rest[b - 1] == '>' {
                    let j = choose|j: int| i + 1 <= j < s.len() && s[j] == rest[b - 1];
                    assert(closes_from(s, i + 1));
                }
            }
        }
    }
}

/// A pass over a text that holds no tag keeps all of it.
proof fn lemma_strip_keeps_tag_free(s: Seq<char>, i: int)
    requires
        tag_free(s),
        0 <= i <= s.len(),
    ensures
        strip_from(s, i, false) =~= s.skip(i),
    decreases s.len() - i,
{
    if i < s.len() {
        lemma_strip_keeps_tag_free(s, i + 1);
        if s[i] == '<' && closes_from(s, i + 1) {
            let j = choose|j: int| i + 1 <= j < s.len() && s[j] == '>';
            assert(s[i] == '<' && s[j] == '>');
        }
    }
}

/// What is left of a text holds no tag.
pub proof fn lemma_stripped_is_tag_free(s: Seq<char>)
    ensures
        tag_free(strip_markup(s)),
{
    lemma_strip_leaves_no_tag(s, 0, false);
}

/// Removing markup twice gives what removing it once gives: a sanitized
/// caption is left as it is by another pass.
pub proof fn lemma_strip_markup_idempotent(s: Seq<char>)
    ensures
        strip_markup(strip_markup(s)) == strip_markup(s),
{
    lemma_strip_leaves_no_tag(s, 0, false);
    lemma_strip_keeps_tag_free(strip_markup(s), 0);
}

} // verus!
