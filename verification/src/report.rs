//! The lines in which a list of candidates is shown to an operator.

use crate::candidate::{candidate_views, CandidateView, IdentifierCandidate};
use vstd::prelude::*;

verus! {

/// The line that opens and closes a listing.
pub const SEPARATOR: &'static str = "----------";

/// The character for a digit below ten.
pub open spec fn digit(d: nat) -> char {
    seq!['0', '1', '2', '3', '4', '5', '6', '7', '8', '9'][d as int]
}

/// The decimal numeral of `n`, without leading zeros.
pub open spec fn decimal(n: nat) -> Seq<char>
    decreases n,
{
    if n < 10 {
        seq![digit(n)]
    } else {
        decimal(n / 10).push(digit(n % 10))
    }
}

/// The line for the candidate at `position`, counted from one: the position,
/// a space, the name, a colon and a space, the reason.
pub open spec fn line(position: nat, candidate: CandidateView) -> Seq<char> {
    decimal(position) + " "@ + candidate.name + ": "@ + candidate.desc
}

/// A listing: a separator, one line for each candidate in order, a separator.
pub open spec fn listing_of(list: Seq<CandidateView>) -> Seq<Seq<char>> {
    seq![SEPARATOR@] + Seq::new(list.len(), |i: int| line((i + 1) as nat, list[i])) + seq![
        SEPARATOR@,
    ]
}

/// The texts of a run of strings, in order.
pub open spec fn texts_of(lines: Seq<String>) -> Seq<Seq<char>> {
    lines.map_values(|l: String| l@)
}

/// The character for the digit `d`.
fn digit_char(d: usize) -> (c: char)
    requires
        d < 10,
    ensures
        c == digit(d as nat),
{
    match d {
        0 => '0',
        1 => '1',
        2 => '2',
        3 => '3',
        4 => '4',
        5 => '5',
        6 => '6',
        7 => '7',
        8 => '8',
        _ => '9',
    }
}

/// Appends the decimal numeral of `n` to `out`.
fn push_decimal(out: &mut String, n: usize)
    ensures
        final(out)@ == old(out)@ + decimal(n as nat),
    decreases n,
{
    if n >= 10 {
        push_decimal(out, n / 10);
    }
    out.push(digit_char(n % 10));
}

/// The line for `candidate` at `position`.
fn line_for(position: usize, candidate: &IdentifierCandidate) -> (text: String)
    ensures
        text@ == line(position as nat, candidate@),
{
    let mut text = String::new();
    push_decimal(&mut text, position);
    text.append(" ");
    text.append(candidate.name.as_str());
    text.append(": ");
    text.append(candidate.desc.as_str());
    text
}

/// The lines that show `candidates`: numbered from one, in the order given,
/// between two separators. An empty list shows as the two separators.
pub fn listing(candidates: &Vec<IdentifierCandidate>) -> (lines: Vec<String>)
    ensures
        texts_of(lines@) == listing_of(candidate_views(candidates@)),
{
    let ghost list = candidate_views(candidates@);
    let mut lines: Vec<String> = Vec::new();
    lines.push(SEPARATOR.to_owned());
    let mut i: usize = 0;
    while i < candidates.len()
        invariant
            i <= candidates.len(),
            list == candidate_views(candidates@),
            texts_of(lines@) == seq![SEPARATOR@] + Seq::new(
                i as nat,
                |k: int| line((k + 1) as nat, list[k]),
            ),
        decreases candidates.len() - i,
    {
        let ghost before = texts_of(lines@);
        let text = line_for(i + 1, &candidates[i]);
        lines.push(text);
        assert(texts_of(lines@) =~= before.push(line((i + 1) as nat, list[i as int])));
        i = i + 1;
    }
    lines.push(SEPARATOR.to_owned());
    lines
}

} // verus!
