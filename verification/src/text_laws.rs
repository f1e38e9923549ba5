//! What holds of the text operations.

use crate::fragments::opens;
use crate::laws::{decimal_value, law_decimal_reads_back, mentions, stands_at};
use crate::text::{argument_name, argument_names, decimal, include_lines, joined, replaced};
use vstd::prelude::*;

verus! {

/// Whether `s` is a number in decimal digits.
pub open spec fn is_number(s: Seq<char>) -> bool {
    s.len() > 0 && forall|k: int| 0 <= k < s.len() ==> '0' <= #[trigger] s[k] <= '9'
}

/// A number is written in decimal digits, starts with a zero only where it is zero, and can
/// be read back.
pub proof fn law_decimals_are_numbers(n: nat)
    ensures
        is_number(decimal(n)),
        decimal(n)[0] == '0' <==> n == 0,
        decimal_value(decimal(n)) == n,
    decreases n,
{
    law_decimal_reads_back(n);
    if n >= 10 {
        law_decimals_are_numbers(n / 10);
    }
}

/// The arguments are named one by one: `a_` and the number of the argument.
pub proof fn law_arguments_are_numbered(n: nat, k: int)
    requires
        0 <= k < n,
    ensures
        argument_names(n).len() == n,
        opens(argument_names(n)[k], "a_"@),
        is_number(argument_names(n)[k].skip(2)),
        decimal_value(argument_names(n)[k].skip(2)) == k,
{
    reveal_strlit("a_");
    law_decimals_are_numbers(k as nat);
    assert(argument_name(k as nat).skip(2) =~= decimal(k as nat));
    assert(argument_name(k as nat).subrange(0, 2) =~= "a_"@);
}

/// Joining nothing gives nothing, joining one part gives the part, and what is joined in two
/// halves stands on both sides of the separator.
pub proof fn law_joining(
    a: Seq<Seq<char>>,
    b: Seq<Seq<char>>,
    x: Seq<char>,
    separator: Seq<char>,
)
    ensures
        joined(seq![], separator).len() == 0,
        joined(seq![x], separator) == x,
        a.len() > 0 && b.len() > 0 ==> joined(a + b, separator) == joined(a, separator) + separator
            + joined(b, separator),
    decreases b.len(),
{
    if a.len() > 0 && b.len() > 0 {
        assert((a + b).last() == b.last());
        assert((a + b).drop_last() =~= a + b.drop_last());
        if b.len() > 1 {
            law_joining(a, b.drop_last(), x, separator);
            assert(joined(a + b, separator) =~= joined(a, separator) + separator + joined(
                b,
                separator,
            ));
        } else {
            assert(a + b.drop_last() =~= a);
        }
    }
}

/// There is one line for each operand, in their order.
pub proof fn law_each_operand_has_its_line(a: Seq<Seq<char>>, b: Seq<Seq<char>>, x: Seq<char>)
    ensures
        include_lines(seq![]).len() == 0,
        include_lines(seq![x]) == "#include "@ + x + "\n"@,
        include_lines(a + b) == include_lines(a) + include_lines(b),
    decreases b.len(),
{
    assert(seq![x].drop_last() =~= seq![]);
    assert(include_lines(seq![]) =~= seq![]);
    assert(include_lines(seq![x]) =~= "#include "@ + x + "\n"@);
    if b.len() > 0 {
        assert((a + b).last() == b.last());
        assert((a + b).drop_last() =~= a + b.drop_last());
        law_each_operand_has_its_line(a, b.drop_last(), x);
        assert(include_lines(a + b) =~= include_lines(a) + include_lines(b));
    } else {
        assert(a + b =~= a);
        assert(include_lines(a) + include_lines(b) =~= include_lines(a));
    }
}

/// Whether `pieces` are what the occurrences of `pattern` leave of `s`, read from left to
/// right: put together with the pattern they are `s`, and the pattern occurs in none of
/// them, nor across the end of one and the occurrence behind it.
pub open spec fn is_split(s: Seq<char>, pattern: Seq<char>, pieces: Seq<Seq<char>>) -> bool {
    &&& pieces.len() > 0
    &&& s == joined(pieces, pattern)
    &&& !mentions(pieces.last(), pattern)
    &&& forall|k: int| 0 <= k < pieces.len() - 1 ==> reaches(#[trigger] pieces[k], pattern)
}

/// Whether the first occurrence of `pattern` in `piece` and the pattern behind it is the one
/// behind it.
pub open spec fn reaches(piece: Seq<char>, pattern: Seq<char>) -> bool {
    forall|at: int| #[trigger] stands_at(piece + pattern, pattern, at) ==> at == piece.len()
}

/// Replacing puts the new text in place of every occurrence of the pattern, and leaves the
/// pieces between them as they are.
pub proof fn law_replace_exchanges_every_occurrence(
    s: Seq<char>,
    pattern: Seq<char>,
    by: Seq<char>,
)
    requires
        pattern.len() > 0,
    ensures
        exists|pieces: Seq<Seq<char>>|
            #[trigger] is_split(s, pattern, pieces) && replaced(s, pattern, by) == joined(
                pieces,
                by,
            ),
    decreases s.len(),
{
    if s.len() == 0 {
        assert(!mentions(s, pattern));
        assert(is_split(s, pattern, seq![s]));
        assert(replaced(s, pattern, by) =~= joined(seq![s], by));
    } else if pattern.is_prefix_of(s) {
        let rest = s.skip(pattern.len() as int);
        law_replace_exchanges_every_occurrence(rest, pattern, by);
        let tail = choose|pieces: Seq<Seq<char>>|
            #[trigger] is_split(rest, pattern, pieces) && replaced(rest, pattern, by) == joined(
                pieces,
                by,
            );
        assert(s =~= pattern + rest);
        lemma_split_behind_occurrence(rest, pattern, tail);
        lemma_joined_behind_nothing(tail, by);
        assert(is_split(s, pattern, seq![Seq::<char>::empty()] + tail));
    } else {
        let rest = s.skip(1);
        law_replace_exchanges_every_occurrence(rest, pattern, by);
        let tail = choose|pieces: Seq<Seq<char>>|
            #[trigger] is_split(rest, pattern, pieces) && replaced(rest, pattern, by) == joined(
                pieces,
                by,
            );
        let c = seq![s[0]];
        assert(s =~= c + rest);
        lemma_split_grows(c, rest, pattern, tail);
        lemma_joined_grows(c, tail, by);
        assert(is_split(s, pattern, grown(c, tail)));
    }
}

/// `pieces` with `c` in front of the first of them.
spec fn grown(c: Seq<char>, pieces: Seq<Seq<char>>) -> Seq<Seq<char>> {
    seq![c + pieces[0]] + pieces.skip(1)
}

proof fn lemma_joined_grows(c: Seq<char>, pieces: Seq<Seq<char>>, separator: Seq<char>)
    requires
        pieces.len() > 0,
    ensures
        joined(grown(c, pieces), separator) == c + joined(pieces, separator),
{
    let first = c + pieces[0];
    let more = pieces.skip(1);
    assert(pieces =~= seq![pieces[0]] + more);
    law_joining(seq![first], more, first, separator);
    law_joining(seq![pieces[0]], more, pieces[0], separator);
    if more.len() == 0 {
        assert(grown(c, pieces) =~= seq![first]);
        assert(pieces =~= seq![pieces[0]]);
    }
    assert(joined(grown(c, pieces), separator) =~= c + joined(pieces, separator));
}

proof fn lemma_joined_behind_nothing(pieces: Seq<Seq<char>>, separator: Seq<char>)
    requires
        pieces.len() > 0,
    ensures
        joined(seq![Seq::<char>::empty()] + pieces, separator) == separator + joined(
            pieces,
            separator,
        ),
{
    let empty = Seq::<char>::empty();
    law_joining(seq![empty], pieces, empty, separator);
    assert(empty + separator =~= separator);
}

proof fn lemma_split_behind_occurrence(
    rest: Seq<char>,
    pattern: Seq<char>,
    tail: Seq<Seq<char>>,
)
    requires
        is_split(rest, pattern, tail),
    ensures
        is_split(pattern + rest, pattern, seq![Seq::<char>::empty()] + tail),
{
    let pieces = seq![Seq::<char>::empty()] + tail;
    lemma_joined_behind_nothing(tail, pattern);
    assert(pieces.last() == tail.last());
    assert forall|k: int| 0 <= k < pieces.len() - 1 implies reaches(
        #[trigger] pieces[k],
        pattern,
    ) by {
        if k > 0 {
            assert(pieces[k] == tail[k - 1]);
        }
    }
}

proof fn lemma_split_grows(
    c: Seq<char>,
    rest: Seq<char>,
    pattern: Seq<char>,
    tail: Seq<Seq<char>>,
)
    requires
        c.len() == 1,
        is_split(rest, pattern, tail),
        !pattern.is_prefix_of(c + rest),
    ensures
        is_split(c + rest, pattern, grown(c, tail)),
{
    let s = c + rest;
    let pieces = grown(c, tail);
    let first = c + tail[0];
    let more = tail.skip(1);
    lemma_joined_grows(c, tail, pattern);
    assert(tail =~= seq![tail[0]] + more);
    if more.len() == 0 {
        assert(tail =~= seq![tail[0]]);
        assert(rest == tail[0]);
        assert forall|at: int| !stands_at(first, pattern, at) by {
            lemma_not_in_front(s, c, tail[0], pattern, at);
        }
        assert(pieces.last() == first);
    } else {
        assert(pieces.last() == tail.last());
        lemma_first_reaches(c, rest, pattern, tail);
    }
    assert forall|k: int| 0 <= k < pieces.len() - 1 implies reaches(
        #[trigger] pieces[k],
        pattern,
    ) by {
        if k > 0 {
            assert(pieces[k] == tail[k]);
        }
    }
}

proof fn lemma_first_reaches(
    c: Seq<char>,
    rest: Seq<char>,
    pattern: Seq<char>,
    tail: Seq<Seq<char>>,
)
    requires
        c.len() == 1,
        tail.len() > 1,
        is_split(rest, pattern, tail),
        !pattern.is_prefix_of(c + rest),
    ensures
        reaches(c + tail[0], pattern),
{
    let more = tail.skip(1);
    assert(tail =~= seq![tail[0]] + more);
    law_joining(seq![tail[0]], more, tail[0], pattern);
    assert(c + rest =~= (c + tail[0] + pattern) + joined(more, pattern));
    assert(reaches(tail[0], pattern));
    assert forall|at: int| #[trigger]
        stands_at((c + tail[0]) + pattern, pattern, at) implies at == (c + tail[0]).len() by {
        lemma_occurs_behind(c, tail[0], pattern, joined(more, pattern), at);
    }
}

proof fn lemma_occurs_behind(
    c: Seq<char>,
    piece: Seq<char>,
    pattern: Seq<char>,
    more: Seq<char>,
    at: int,
)
    requires
        c.len() == 1,
        reaches(piece, pattern),
        !pattern.is_prefix_of((c + piece + pattern) + more),
        stands_at((c + piece) + pattern, pattern, at),
    ensures
        at == (c + piece).len(),
{
    let text = (c + piece) + pattern;
    if at == 0 {
        assert((text + more).subrange(0, pattern.len() as int) =~= text.subrange(
            0,
            pattern.len() as int,
        ));
    } else {
        assert((piece + pattern).subrange(at - 1, at - 1 + pattern.len()) =~= text.subrange(
            at,
            at + pattern.len(),
        ));
        assert(stands_at(piece + pattern, pattern, at - 1));
    }
}

/// A pattern that does not start `c + piece` and does not occur in `piece` does not occur in
/// both together.
proof fn lemma_not_in_front(
    s: Seq<char>,
    c: Seq<char>,
    piece: Seq<char>,
    pattern: Seq<char>,
    at: int,
)
    requires
        c.len() == 1,
        s == c + piece,
        !pattern.is_prefix_of(s),
        !mentions(piece, pattern),
    ensures
        !stands_at(c + piece, pattern, at),
{
    if stands_at(c + piece, pattern, at) {
        if at > 0 {
            assert(piece.subrange(at - 1, at - 1 + pattern.len()) =~= s.subrange(
                at,
                at + pattern.len(),
            ));
            assert(stands_at(piece, pattern, at - 1));
        }
    }
}

} // verus!
