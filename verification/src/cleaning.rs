//! Undoes the wrapping in which the service hands back its answer.
//!
//! The answer is a JSON array, but it arrives as the text of a JSON string:
//! quoted, and with the characters that a string cannot hold written as
//! escapes. [`unwrap_answer`] takes the quotes and the escapes away again.

use vstd::prelude::*;

verus! {

/// `String::push` of std. Believed, as std documents it: the character is
/// appended at the end, and the rest of the string stays as it was.
pub assume_specification[ String::push ](s: &mut String, ch: char)
    ensures
        final(s)@ == old(s)@.push(ch),
;

/// `s` without one quote at its start and one at its end, where it has them.
pub open spec fn without_quote_layer(s: Seq<char>) -> Seq<char> {
    let rest = if s.len() > 0 && s.first() == '"' {
        s.drop_first()
    } else {
        s
    };
    if rest.len() > 0 && rest.last() == '"' {
        rest.drop_last()
    } else {
        rest
    }
}

/// `s` without the two-character sequences of a backslash and the letter `n`,
/// found from left to right.
pub open spec fn without_escaped_newlines(s: Seq<char>) -> Seq<char>
    decreases s.len(),
{
    if s.len() == 0 {
        s
    } else if s.len() >= 2 && s[0] == '\\' && s[1] == 'n' {
        without_escaped_newlines(s.skip(2))
    } else {
        seq![s[0]] + without_escaped_newlines(s.skip(1))
    }
}

/// `s` without its backslashes.
pub open spec fn without_backslashes(s: Seq<char>) -> Seq<char> {
    s.filter(|c: char| c != '\\')
}

/// The answer inside a wrapped text: the quote layer is taken off first, then
/// the escaped newlines, then every backslash that is left.
pub open spec fn unwrapped(raw: Seq<char>) -> Seq<char> {
    without_backslashes(without_escaped_newlines(without_quote_layer(raw)))
}

/// No backslash survives the unwrapping, whether it began an escape or not.
pub proof fn lemma_unwrapped_has_no_backslash(raw: Seq<char>)
    ensures
        forall|i: int| 0 <= i < unwrapped(raw).len() ==> unwrapped(raw)[i] != '\\',
{
    let inner = without_escaped_newlines(without_quote_layer(raw));
    assert forall|i: int| 0 <= i < unwrapped(raw).len() implies unwrapped(raw)[i] != '\\' by {
        inner.lemma_filter_pred(|c: char| c != '\\', i);
    }
}

/// A text that holds no backslash, and no quote at either end, is its own
/// answer: unwrapping changes nothing.
pub proof fn lemma_plain_text_is_unchanged(raw: Seq<char>)
    requires
        forall|i: int| 0 <= i < raw.len() ==> raw[i] != '\\',
        raw.len() > 0 ==> raw.first() != '"' && raw.last() != '"',
    ensures
        unwrapped(raw) == raw,
{
    lemma_no_backslash_no_escaped_newline(raw);
    lemma_no_backslash_nothing_filtered(raw);
}

/// Where there is no backslash, there is no escaped newline to drop.
proof fn lemma_no_backslash_no_escaped_newline(s: Seq<char>)
    requires
        forall|i: int| 0 <= i < s.len() ==> s[i] != '\\',
    ensures
        without_escaped_newlines(s) == s,
    decreases s.len(),
{
    if s.len() > 0 {
        let rest = s.skip(1);
        assert forall|i: int| 0 <= i < rest.len() implies rest[i] != '\\' by {
            assert(rest[i] == s[i + 1]);
        }
        lemma_no_backslash_no_escaped_newline(rest);
        assert(seq![s[0]] + rest =~= s);
    }
}

/// Where there is no backslash, dropping the backslashes drops nothing.
proof fn lemma_no_backslash_nothing_filtered(s: Seq<char>)
    requires
        forall|i: int| 0 <= i < s.len() ==> s[i] != '\\',
    ensures
        without_backslashes(s) == s,
    decreases s.len(),
{
    reveal(Seq::filter);
    if s.len() > 0 {
        let front = s.drop_last();
        assert forall|i: int| 0 <= i < front.len() implies front[i] != '\\' by {
            assert(front[i] == s[i]);
        }
        lemma_no_backslash_nothing_filtered(front);
        assert(front.push(s.last()) =~= s);
    }
}

/// The characters of `s`, in order.
fn chars_of(s: &str) -> (chars: Vec<char>)
    ensures
        chars@ == s@,
{
    let mut chars: Vec<char> = Vec::new();
    for c in it: s.chars()
        invariant
            chars@ == it.seq().take(it.index() as int),
            it.seq() == s@,
    {
        chars.push(c);
    }
    chars
}

/// The bounds of `chars` inside its quote layer.
fn inside_quote_layer(chars: &Vec<char>) -> (bounds: (usize, usize))
    ensures
        bounds.0 <= bounds.1 <= chars.len(),
        chars@.subrange(bounds.0 as int, bounds.1 as int) == without_quote_layer(chars@),
{
    let mut lo: usize = 0;
    let mut hi: usize = chars.len();
    if lo < hi && chars[lo] == '"' {
        lo = lo + 1;
    }
    if lo < hi && chars[hi - 1] == '"' {
        hi = hi - 1;
    }
    (lo, hi)
}

/// Copies `chars[lo..hi]`, leaving the escaped newlines out.
fn drop_escaped_newlines(chars: &Vec<char>, lo: usize, hi: usize) -> (kept: Vec<char>)
    requires
        lo <= hi <= chars.len(),
    ensures
        kept@ == without_escaped_newlines(chars@.subrange(lo as int, hi as int)),
{
    let ghost src = chars@.subrange(lo as int, hi as int);
    let mut kept: Vec<char> = Vec::new();
    let mut i: usize = lo;
    assert(src.skip(0) =~= src);
    while i < hi
        invariant
            lo <= i <= hi <= chars.len(),
            src == chars@.subrange(lo as int, hi as int),
            kept@ + without_escaped_newlines(src.skip(i - lo)) == without_escaped_newlines(src),
        decreases hi - i,
    {
        let ghost rest = src.skip(i - lo);
        if chars[i] == '\\' && i + 1 < hi && chars[i + 1] == 'n' {
            assert(rest.skip(2) =~= src.skip(i + 2 - lo));
            i = i + 2;
        } else {
            assert(rest.skip(1) =~= src.skip(i + 1 - lo));
            assert(kept@.push(chars[i as int]) + without_escaped_newlines(rest.skip(1)) =~= kept@
                + (seq![rest[0]] + without_escaped_newlines(rest.skip(1))));
            kept.push(chars[i]);
            i = i + 1;
        }
    }
    kept
}

/// Collects `chars` into a string, leaving the backslashes out.
fn drop_backslashes(chars: &Vec<char>) -> (kept: String)
    ensures
        kept@ == without_backslashes(chars@),
{
    let mut kept = String::new();
    let mut i: usize = 0;
    while i < chars.len()
        invariant
            i <= chars.len(),
            kept@ == without_backslashes(chars@.take(i as int)),
        decreases chars.len() - i,
    {
        proof {
            reveal(Seq::filter);
            assert(chars@.take(i + 1).drop_last() =~= chars@.take(i as int));
        }
        if chars[i] != '\\' {
            kept.push(chars[i]);
        }
        i = i + 1;
    }
    assert(chars@.take(chars.len() as int) =~= chars@);
    kept
}

/// Takes the wrapping off an answer: one layer of surrounding quotes, every
/// escaped newline, and every backslash.
pub fn unwrap_answer(raw: &str) -> (clean: String)
    ensures
        clean@ == unwrapped(raw@),
{
    let chars = chars_of(raw);
    let (lo, hi) = inside_quote_layer(&chars);
    let kept = drop_escaped_newlines(&chars, lo, hi);
    drop_backslashes(&kept)
}

} // verus!
