//! Removing items from a vector in place.
use vstd::prelude::*;

verus! {

/// The items of `s` whose flag in `removed` is unset, in order.
pub open spec fn kept<T>(s: Seq<T>, removed: Seq<bool>) -> Seq<T>
    decreases s.len(),
{
    if s.len() == 0 {
        Seq::empty()
    } else if removed.last() {
        kept(s.drop_last(), removed.drop_last())
    } else {
        kept(s.drop_last(), removed.drop_last()).push(s.last())
    }
}

proof fn lemma_kept_step<T>(s: Seq<T>, removed: Seq<bool>, j: int, b: bool)
    requires
        0 <= j < s.len(),
        removed.len() == j,
    ensures
        kept(s.take(j + 1), removed.push(b)) == if b {
            kept(s.take(j), removed)
        } else {
            kept(s.take(j), removed).push(s[j])
        },
{
    assert(s.take(j + 1).drop_last() == s.take(j));
    assert(removed.push(b).drop_last() == removed);
}

/// Removes, in place and keeping the order of the rest, every item for
/// which `predicate` holds. The predicate is asked once per item, in order.
pub fn drain_filter<T, F: Fn(&T) -> bool>(vec: &mut Vec<T>, predicate: F)
    requires
        forall|x: &T| predicate.requires((x,)),
    ensures
        exists|removed: Seq<bool>|
            {
                &&& removed.len() == old(vec)@.len()
                &&& forall|i: int| 0 <= i < removed.len() ==> predicate.ensures((&old(vec)@[i],), #[trigger] removed[i])
                &&& final(vec)@ == kept(old(vec)@, removed)
            },
{
    let ghost original = vec@;
    let ghost mut removed: Seq<bool> = Seq::empty();
    let ghost mut j: int = 0;
    let mut i: usize = 0;
    while i != vec.len()
        invariant
            0 <= j <= original.len(),
            removed.len() == j,
            forall|k: int| 0 <= k < j ==> predicate.ensures((&original[k],), #[trigger] removed[k]),
            forall|x: &T| predicate.requires((x,)),
            i == kept(original.take(j), removed).len(),
            vec@ == kept(original.take(j), removed) + original.skip(j),
        decreases original.len() - j,
    {
        proof {
            assert(vec@[i as int] == original[j]);
        }
        let drop = predicate(&vec[i]);
        proof {
            lemma_kept_step(original, removed, j, drop);
            removed = removed.push(drop);
            j = j + 1;
        }
        if drop {
            vec.remove(i);
        } else {
            i = i + 1;
        }
        proof {
            assert(vec@ =~= kept(original.take(j), removed) + original.skip(j));
        }
    }
    proof {
        assert(original.skip(j).len() == 0);
        assert(j == original.len());
        assert(original.take(j) == original);
    }
}

} // verus!
