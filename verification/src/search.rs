//! Looking one thing up among the attributes of an answer: the first
//! occurrence wins.

use vstd::prelude::*;

verus! {

/// The first of `values` that holds something, or `None` where none does.
pub open spec fn first_some(values: Seq<Option<u16>>) -> Option<u16>
    decreases values.len(),
{
    if values.len() == 0 {
        None
    } else if values[0] is Some {
        values[0]
    } else {
        first_some(values.drop_first())
    }
}

/// `first_some` finds nothing exactly where nothing is there, and otherwise
/// finds the entry that has only empty entries before it.
pub proof fn lemma_first_some(values: Seq<Option<u16>>)
    ensures
        first_some(values) is None <==> forall|i: int|
            0 <= i < values.len() ==> #[trigger] values[i] is None,
        first_some(values) is Some ==> exists|i: int|
            0 <= i < values.len() && #[trigger] values[i] == first_some(values) && forall|j: int|
                0 <= j < i ==> #[trigger] values[j] is None,
    decreases values.len(),
{
    if values.len() == 0 {
    } else if values[0] is Some {
        assert(values[0] == first_some(values));
    } else {
        let rest = values.drop_first();
        lemma_first_some(rest);
        assert forall|i: int| 0 <= i < rest.len() implies rest[i] == values[i + 1] by {}
        if first_some(rest) is None {
            assert forall|i: int| 0 <= i < values.len() implies #[trigger] values[i] is None by {
                if i > 0 {
                    assert(rest[i - 1] is None);
                }
            }
        } else {
            let k = choose|i: int|
                0 <= i < rest.len() && #[trigger] rest[i] == first_some(rest) && forall|j: int|
                    0 <= j < i ==> #[trigger] rest[j] is None;
            assert(values[k + 1] == first_some(values));
            assert forall|j: int| 0 <= j < k + 1 implies #[trigger] values[j] is None by {
                if j > 0 {
                    assert(rest[j - 1] is None);
                }
            }
            assert(values[k + 1] is Some);
        }
    }
}

/// Nothing before a first entry changes what is found behind it: a search
/// through two lists in a row looks into the second only where the first
/// holds nothing.
pub proof fn lemma_first_some_concat(a: Seq<Option<u16>>, b: Seq<Option<u16>>)
    ensures
        first_some(a + b) == if first_some(a) is Some {
            first_some(a)
        } else {
            first_some(b)
        },
    decreases a.len(),
{
    if a.len() == 0 {
        assert(a + b =~= b);
    } else {
        assert((a + b)[0] == a[0]);
        assert((a + b).drop_first() =~= a.drop_first() + b);
        lemma_first_some_concat(a.drop_first(), b);
    }
}

/// Finds the first of `values` that holds something.
pub fn find_first(values: &Vec<Option<u16>>) -> (found: Option<u16>)
    ensures
        found == first_some(values@),
{
    let mut i: usize = 0;
    assert(values@.skip(0) =~= values@);
    while i < values.len()
        invariant
            i <= values@.len(),
            first_some(values@) == first_some(values@.skip(i as int)),
        decreases values@.len() - i,
    {
        let ghost rest = values@.skip(i as int);
        assert(rest[0] == values@[i as int]);
        assert(rest.drop_first() =~= values@.skip(i + 1));
        if let Some(value) = values[i] {
            return Some(value);
        }
        i += 1;
    }
    assert(values@.skip(i as int).len() == 0);
    None
}

} // verus!
