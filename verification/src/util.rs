//! Helpers for rendering requests.
use vstd::prelude::*;

verus! {

/// The parts in order, with the separator between one and the next.
pub open spec fn joined(parts: Seq<Seq<char>>, separator: Seq<char>) -> Seq<char>
    decreases parts.len(),
{
    if parts.len() == 0 {
        Seq::empty()
    } else if parts.len() == 1 {
        parts[0]
    } else {
        joined(parts.drop_last(), separator) + separator + parts.last()
    }
}

/// The text `needle` stands somewhere in the text `hay`.
pub open spec fn occurs_in(needle: Seq<char>, hay: Seq<char>) -> bool {
    exists|i: int|
        0 <= i && i + needle.len() <= hay.len() && #[trigger] hay.subrange(i, i + needle.len())
            == needle
}

/// Renders a list of strings as one string, separated by commas.
pub fn string_slice_to_str(slice: &[String]) -> (s: String)
    ensures
        s@ == joined(slice.deep_view(), ","@),
{
    let ghost parts = slice.deep_view();
    let mut s = String::new();
    let mut i: usize = 0;
    assert(parts.take(0) == Seq::<Seq<char>>::empty());
    while i < slice.len()
        invariant
            i <= slice@.len(),
            parts == slice.deep_view(),
            s@ == joined(parts.take(i as int), ","@),
        decreases slice.len() - i,
    {
        if i > 0 {
            s.append(",");
        }
        s.append(slice[i].as_str());
        proof {
            let next = parts.take(i as int + 1);
            assert(next.drop_last() == parts.take(i as int));
            assert(next.last() == slice@[i as int]@);
            assert(Seq::<char>::empty() + next.last() == next.last());
        }
        i += 1;
    }
    assert(parts.take(i as int) == parts);
    s
}

} // verus!
