//! The replace-or-append rule for a tag's ordered frame list.
use vstd::prelude::*;
use crate::frame::{Frame, frames_view};

verus! {

/// The list after placing `x` at `index`: an index strictly inside the list
/// other than the first replaces the element there; the first index and any
/// index past the end append `x` instead.
pub open spec fn replaced_or_appended<A>(s: Seq<A>, index: int, x: A) -> Seq<A> {
    if 0 < index < s.len() {
        s.update(index, x)
    } else {
        s.push(x)
    }
}

/// Viewing the frames commutes with the replace-or-append rule.
pub proof fn lemma_view_replaced_or_appended(s: Seq<Frame>, index: int, x: Frame)
    ensures
        frames_view(replaced_or_appended(s, index, x)) == replaced_or_appended(
            frames_view(s),
            index,
            x@,
        ),
{
    assert(frames_view(replaced_or_appended(s, index, x)) =~= replaced_or_appended(
        frames_view(s),
        index,
        x@,
    ));
}

/// Places `item` in `items` by position alone: when `0 < index < len` the
/// element at `index` is replaced, otherwise `item` is appended. What the
/// elements hold plays no part, so a frame's identifier is never matched.
pub fn replace_or_append<A>(items: Vec<A>, index: usize, item: A) -> (r: Vec<A>)
    ensures
        r@ == replaced_or_appended(items@, index as int, item),
{
    let ghost before = items@;
    let mut items = items;
    if index > 0 && index < items.len() {
        items.remove(index);
        items.insert(index, item);
        assert(items@ =~= before.update(index as int, item));
    } else {
        items.push(item);
    }
    items
}

/// Replacing inside the list keeps its length and changes the element at
/// `index` alone.
pub proof fn lemma_replace_in_range<A>(s: Seq<A>, index: int, x: A)
    requires
        0 < index < s.len(),
    ensures
        replaced_or_appended(s, index, x).len() == s.len(),
        replaced_or_appended(s, index, x)[index] == x,
        forall|j: int|
            0 <= j < s.len() && j != index ==> #[trigger] replaced_or_appended(s, index, x)[j]
                == s[j],
{
}

/// At index zero or past the end, the list grows by one: every earlier frame
/// stays where it was, and the new frame comes last.
pub proof fn lemma_append_out_of_range<A>(s: Seq<A>, index: int, x: A)
    requires
        index == 0 || index >= s.len(),
    ensures
        replaced_or_appended(s, index, x).len() == s.len() + 1,
        replaced_or_appended(s, index, x).subrange(0, s.len() as int) == s,
        replaced_or_appended(s, index, x)[s.len() as int] == x,
{
    assert(replaced_or_appended(s, index, x).subrange(0, s.len() as int) =~= s);
}

} // verus!
