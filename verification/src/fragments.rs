//! How pieces of text stand in longer texts.

use crate::laws::{mentions, stands_at};
use vstd::prelude::*;

verus! {

/// Whether `text` ends with `part`.
pub open spec fn closes(text: Seq<char>, part: Seq<char>) -> bool {
    part.len() <= text.len() && text.subrange(text.len() - part.len(), text.len() as int) == part
}

/// Whether `text` starts with `part`.
pub open spec fn opens(text: Seq<char>, part: Seq<char>) -> bool {
    part.len() <= text.len() && text.subrange(0, part.len() as int) == part
}

/// Whether `text` is `head` and then `tail`, with nothing before, between or behind.
pub open spec fn made_of(text: Seq<char>, head: Seq<char>, tail: Seq<char>) -> bool {
    &&& opens(text, head)
    &&& closes(text, tail)
    &&& text.len() == head.len() + tail.len()
}

/// What stands in the first part of a sum stands in the sum.
pub broadcast proof fn lemma_first_mentions(t: Seq<char>, x: Seq<char>, part: Seq<char>)
    requires
        mentions(t, part),
    ensures
        #[trigger] mentions(t + x, part),
{
    let at = choose|at: int| stands_at(t, part, at);
    assert((t + x).subrange(at, at + part.len()) =~= t.subrange(at, at + part.len()));
    assert(stands_at(t + x, part, at));
}

/// What stands in the second part of a sum stands in the sum.
pub broadcast proof fn lemma_second_mentions(t: Seq<char>, x: Seq<char>, part: Seq<char>)
    requires
        mentions(x, part),
    ensures
        #[trigger] mentions(t + x, part),
{
    let at = choose|at: int| stands_at(x, part, at);
    let to = t.len() + at;
    assert((t + x).subrange(to, to + part.len()) =~= x.subrange(at, at + part.len()));
    assert(stands_at(t + x, part, to));
}

/// A text mentions what it ends with.
pub broadcast proof fn lemma_end_is_mentioned(t: Seq<char>, part: Seq<char>)
    requires
        closes(t, part),
    ensures
        #[trigger] mentions(t, part),
{
    assert(stands_at(t, part, t.len() - part.len()));
}

/// A part that goes on as the text does stands in the text, also where it breaks off
/// first.
pub broadcast proof fn lemma_broken_off(t: Seq<char>, x: Seq<char>, part: Seq<char>, y: Seq<char>)
    requires
        closes(t, part),
        opens(x, y),
    ensures
        #[trigger] mentions(t + x, part + y),
{
    let at = t.len() - part.len();
    let whole = part + y;
    assert forall|k: int| 0 <= k < whole.len() implies whole[k] == #[trigger] (t + x)[at + k] by {
        if k < part.len() {
            assert(part[k] == t.subrange(at, t.len() as int)[k]);
        } else {
            assert(y[k - part.len()] == x.subrange(0, y.len() as int)[k - part.len()]);
        }
    }
    assert((t + x).subrange(at, at + whole.len()) =~= whole);
    assert(stands_at(t + x, whole, at));
}

/// Text and part can go on alike.
pub broadcast proof fn lemma_end_goes_on(t: Seq<char>, part: Seq<char>, x: Seq<char>)
    requires
        closes(t, part),
    ensures
        #[trigger] closes(t + x, part + x),
{
    let at = t.len() - part.len();
    assert forall|k: int| 0 <= k < (part + x).len() implies (part + x)[k] == #[trigger] (t + x)[at
        + k] by {
        if k < part.len() {
            assert(part[k] == t.subrange(at, t.len() as int)[k]);
        }
    }
    assert((t + x).subrange(at, (t + x).len() as int) =~= part + x);
}

/// A sum ends as its second part does.
pub broadcast proof fn lemma_second_ends(t: Seq<char>, x: Seq<char>, part: Seq<char>)
    requires
        closes(x, part),
    ensures
        #[trigger] closes(t + x, part),
{
    assert((t + x).subrange((t + x).len() - part.len(), (t + x).len() as int) =~= x.subrange(
        x.len() - part.len(),
        x.len() as int,
    ));
}

/// A text ends with itself.
pub broadcast proof fn lemma_ends_with_itself(t: Seq<char>)
    ensures
        #[trigger] closes(t, t),
{
    assert(t.subrange(0, t.len() as int) =~= t);
}

/// A sum starts as its first part does.
pub broadcast proof fn lemma_first_starts(t: Seq<char>, x: Seq<char>, part: Seq<char>)
    requires
        opens(t, part),
    ensures
        #[trigger] opens(t + x, part),
{
    assert((t + x).subrange(0, part.len() as int) =~= t.subrange(0, part.len() as int));
}

/// A text starts with itself.
pub broadcast proof fn lemma_starts_with_itself(t: Seq<char>)
    ensures
        #[trigger] opens(t, t),
{
    assert(t.subrange(0, t.len() as int) =~= t);
}

/// Text and part can start alike and part later.
pub broadcast proof fn lemma_start_goes_on(t: Seq<char>, x: Seq<char>, y: Seq<char>)
    requires
        opens(x, y),
    ensures
        #[trigger] opens(t + x, t + y),
{
    assert forall|k: int| 0 <= k < (t + y).len() implies (t + y)[k] == #[trigger] (t + x)[k] by {
        if k >= t.len() {
            assert(y[k - t.len()] == x.subrange(0, y.len() as int)[k - t.len()]);
        }
    }
    assert((t + x).subrange(0, (t + y).len() as int) =~= t + y);
}

/// A sum is made of its parts.
pub broadcast proof fn lemma_sum_is_made_of(head: Seq<char>, tail: Seq<char>)
    ensures
        #[trigger] made_of(head + tail, head, tail),
{
    lemma_starts_with_itself(head);
    lemma_first_starts(head, tail, head);
    lemma_ends_with_itself(tail);
    lemma_second_ends(head, tail, tail);
}

/// A text and its tail can go on alike.
pub broadcast proof fn lemma_tail_goes_on(
    t: Seq<char>,
    head: Seq<char>,
    tail: Seq<char>,
    x: Seq<char>,
)
    requires
        made_of(t, head, tail),
    ensures
        #[trigger] made_of(t + x, head, tail + x),
{
    lemma_first_starts(t, x, head);
    lemma_end_goes_on(t, tail, x);
}

/// A text and its head can be preceded alike.
pub broadcast proof fn lemma_head_is_preceded(
    front: Seq<char>,
    t: Seq<char>,
    head: Seq<char>,
    tail: Seq<char>,
)
    requires
        made_of(t, head, tail),
    ensures
        #[trigger] made_of(front + t, front + head, tail),
{
    lemma_start_goes_on(front, t, head);
    lemma_second_ends(front, t, tail);
}

pub broadcast group group_fragments {
    lemma_sum_is_made_of,
    lemma_tail_goes_on,
    lemma_head_is_preceded,
    lemma_first_mentions,
    lemma_second_mentions,
    lemma_end_is_mentioned,
    lemma_broken_off,
    lemma_end_goes_on,
    lemma_second_ends,
    lemma_ends_with_itself,
    lemma_first_starts,
    lemma_starts_with_itself,
    lemma_start_goes_on,
}

/// What stands in a text stands in every text that starts with it.
pub proof fn lemma_mentioned_beyond(start: Seq<char>, text: Seq<char>, part: Seq<char>)
    requires
        mentions(start, part),
        start.is_prefix_of(text),
    ensures
        mentions(text, part),
{
    assert(text =~= start + text.skip(start.len() as int));
    lemma_first_mentions(start, text.skip(start.len() as int), part);
}

} // verus!
