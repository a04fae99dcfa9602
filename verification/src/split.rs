//! Splitting a text on a separator and joining it again, as mathematical
//! functions on sequences of characters, with the laws that relate them.

use vstd::prelude::*;

verus! {

/// `sep` is non-empty and occurs in `line` at position `i`.
pub open spec fn matches_at(line: Seq<char>, sep: Seq<char>, i: int) -> bool {
    &&& sep.len() > 0
    &&& 0 <= i
    &&& i + sep.len() <= line.len()
    &&& line.subrange(i, i + sep.len()) == sep
}

/// The first position at or after `from` where `sep` occurs in `line`,
/// or -1 where there is none.
pub open spec fn next_match(line: Seq<char>, sep: Seq<char>, from: int) -> int
    decreases line.len() - from,
{
    if sep.len() == 0 || from + sep.len() > line.len() {
        -1
    } else if matches_at(line, sep, from) {
        from
    } else {
        next_match(line, sep, from + 1)
    }
}

/// `sep` occurs in `line` at or after `from`.
pub open spec fn found_from(line: Seq<char>, sep: Seq<char>, from: int) -> bool {
    let m = next_match(line, sep, from);
    from <= m && matches_at(line, sep, m)
}

/// The pieces of `line` from position `from` on, cut at every occurrence of
/// `sep`: occurrences are taken leftmost first and do not overlap.
pub open spec fn split_from(line: Seq<char>, sep: Seq<char>, from: int) -> Seq<Seq<char>>
    decreases line.len() - from,
{
    let m = next_match(line, sep, from);
    if found_from(line, sep, from) {
        seq![line.subrange(from, m)] + split_from(line, sep, m + sep.len())
    } else {
        seq![line.subrange(from, line.len() as int)]
    }
}

/// The pieces of `line` between the occurrences of `sep`. Empty pieces are
/// kept; a line without `sep` is one piece.
pub open spec fn split(line: Seq<char>, sep: Seq<char>) -> Seq<Seq<char>> {
    split_from(line, sep, 0)
}

/// How many times `sep` occurs in `line` from `from` on, leftmost first and
/// without overlap.
pub open spec fn count_from(line: Seq<char>, sep: Seq<char>, from: int) -> nat
    decreases line.len() - from,
{
    let m = next_match(line, sep, from);
    if found_from(line, sep, from) {
        1 + count_from(line, sep, m + sep.len())
    } else {
        0
    }
}

/// How many times `sep` occurs in `line`.
pub open spec fn count(line: Seq<char>, sep: Seq<char>) -> nat {
    count_from(line, sep, 0)
}

/// `sep` followed by a piece, for every piece of `parts`.
pub open spec fn join_rest(parts: Seq<Seq<char>>, sep: Seq<char>) -> Seq<char>
    decreases parts.len(),
{
    if parts.len() == 0 {
        Seq::empty()
    } else {
        sep + parts[0] + join_rest(parts.drop_first(), sep)
    }
}

/// The pieces of `parts` in order, with `sep` between neighbours.
pub open spec fn join(parts: Seq<Seq<char>>, sep: Seq<char>) -> Seq<char> {
    if parts.len() == 0 {
        Seq::empty()
    } else {
        parts[0] + join_rest(parts.drop_first(), sep)
    }
}

/// `next_match` finds the least occurrence: it is an occurrence at or after
/// `from` with none before it, and it is -1 only where there is none at all.
pub proof fn lemma_next_match_least(line: Seq<char>, sep: Seq<char>, from: int)
    requires
        0 <= from,
    ensures
        found_from(line, sep, from) || next_match(line, sep, from) == -1,
        forall|i: int|
            from <= i && (i < next_match(line, sep, from) || !found_from(line, sep, from))
                ==> !matches_at(line, sep, i),
    decreases line.len() - from,
{
    if sep.len() == 0 || from + sep.len() > line.len() {
    } else if matches_at(line, sep, from) {
    } else {
        lemma_next_match_least(line, sep, from + 1);
    }
}

/// Where `sep` does not occur in `[from, i)`, the search from `from` gives
/// what the search from `i` gives.
pub proof fn lemma_next_match_skip(line: Seq<char>, sep: Seq<char>, from: int, i: int)
    requires
        from <= i,
        forall|j: int| from <= j < i ==> !matches_at(line, sep, j),
    ensures
        next_match(line, sep, from) == next_match(line, sep, i),
    decreases i - from,
{
    if from < i {
        lemma_next_match_skip(line, sep, from + 1, i);
    }
}

/// Splitting gives one piece more than there are occurrences of the
/// separator.
pub proof fn lemma_split_from_len(line: Seq<char>, sep: Seq<char>, from: int)
    ensures
        split_from(line, sep, from).len() == count_from(line, sep, from) + 1,
    decreases line.len() - from,
{
    if found_from(line, sep, from) {
        lemma_split_from_len(line, sep, next_match(line, sep, from) + sep.len());
    }
}

/// Joining the pieces from `from` on with the separator gives back the line
/// from `from` on.
pub proof fn lemma_join_split_from(line: Seq<char>, sep: Seq<char>, from: int)
    requires
        0 <= from <= line.len(),
    ensures
        join(split_from(line, sep, from), sep) == line.subrange(from, line.len() as int),
    decreases line.len() - from,
{
    if found_from(line, sep, from) {
        let m = next_match(line, sep, from);
        let next = m + sep.len();
        let head = line.subrange(from, m);
        let rest = split_from(line, sep, next);
        lemma_join_split_from(line, sep, next);
        lemma_split_from_len(line, sep, next);
        assert((seq![head] + rest).drop_first() =~= rest);
        assert(join(seq![head] + rest, sep) =~= head + sep + join(rest, sep));
        assert(head + sep + line.subrange(next, line.len() as int) =~= line.subrange(
            from,
            line.len() as int,
        )) by {
            assert(line.subrange(m, next) == sep);
        }
    } else {
        let only = seq![line.subrange(from, line.len() as int)];
        assert(only.drop_first() =~= Seq::<Seq<char>>::empty());
        assert(join(only, sep) =~= line.subrange(from, line.len() as int));
    }
}

/// The separator occurs nowhere in a piece of the line from `from` on.
pub proof fn lemma_piece_from_holds_no_separator(
    line: Seq<char>,
    sep: Seq<char>,
    from: int,
    p: int,
    j: int,
)
    requires
        0 <= from <= line.len(),
        0 <= p < split_from(line, sep, from).len(),
    ensures
        !matches_at(split_from(line, sep, from)[p], sep, j),
    decreases line.len() - from,
{
    lemma_next_match_least(line, sep, from);
    let m = next_match(line, sep, from);
    let end = if found_from(line, sep, from) { m } else { line.len() as int };
    let piece = line.subrange(from, end);
    if p == 0 {
        if matches_at(piece, sep, j) {
            assert(piece.subrange(j, j + sep.len()) =~= line.subrange(
                from + j,
                from + j + sep.len(),
            ));
            assert(matches_at(line, sep, from + j));
        }
    } else {
        lemma_piece_from_holds_no_separator(line, sep, m + sep.len(), p - 1, j);
    }
}

/// No piece holds the separator: the line is cut at every occurrence.
pub proof fn lemma_pieces_hold_no_separator(line: Seq<char>, sep: Seq<char>)
    ensures
        forall|p: int, j: int|
            0 <= p < split(line, sep).len() ==> !#[trigger] matches_at(split(line, sep)[p], sep, j),
{
    assert forall|p: int, j: int| 0 <= p < split(line, sep).len() implies !#[trigger] matches_at(
        split(line, sep)[p],
        sep,
        j,
    ) by {
        lemma_piece_from_holds_no_separator(line, sep, 0, p, j);
    }
}

/// Splitting a line and joining the pieces with the same separator gives
/// back the line.
pub proof fn lemma_join_split(line: Seq<char>, sep: Seq<char>)
    ensures
        join(split(line, sep), sep) == line,
{
    lemma_join_split_from(line, sep, 0);
    assert(line.subrange(0, line.len() as int) =~= line);
}

/// The number of pieces is the number of occurrences of the separator
/// plus one.
pub proof fn lemma_split_len(line: Seq<char>, sep: Seq<char>)
    ensures
        split(line, sep).len() == count(line, sep) + 1,
{
    lemma_split_from_len(line, sep, 0);
}

/// A line in which the separator does not occur is a single piece, the
/// line itself.
pub proof fn lemma_split_without_separator(line: Seq<char>, sep: Seq<char>)
    requires
        forall|i: int| !matches_at(line, sep, i),
    ensures
        split(line, sep) == seq![line],
{
    assert(line.subrange(0, line.len() as int) =~= line);
}

} // verus!
