use vstd::prelude::*;
use vstd::pervasive::VecAdditionalExecFns;

verus! {

/// A record kept in an otherwise read-only list: an unsigned identifier and
/// a payload.
#[derive(Debug, PartialEq)]
pub struct Numbered<T> {
    pub id: usize,
    pub field: T,
}

/// Values that carry an ordering identifier, stored in lists that support
/// overwriting exactly one slot in place.
pub trait Effective: Sized {
    /// The identifier that `replace` orders records by.
    spec fn key(&self) -> nat;

    /// Whether some element of `s` has an identifier strictly below `k`.
    open spec fn has_smaller(s: Seq<Self>, k: nat) -> bool {
        exists|i: int| 0 <= i < s.len() && #[trigger] s[i].key() < k
    }

    /// Whether `p` is the first position of `s` whose identifier is
    /// strictly below `k`: every earlier position carries an identifier of
    /// at least `k`.
    open spec fn is_first_smaller(s: Seq<Self>, k: nat, p: int) -> bool {
        &&& 0 <= p < s.len()
        &&& s[p].key() < k
        &&& forall|j: int| 0 <= j < p ==> #[trigger] s[j].key() >= k
    }

    /// Overwrite the slot at `index` with `value`, dropping the old record.
    ///
    /// The burden of supplying an in-range index lies entirely on the
    /// caller: it is a precondition, not a run-time check.
    fn modify_raw(list: &mut Vec<Self>, index: usize, value: Self)
        requires
            index < old(list).len(),
        ensures
            final(list)@ == old(list)@.update(index as int, value),
    ;

    /// Replace the first element of `list` whose identifier is strictly
    /// smaller than `value`'s; when no element qualifies, `value` is
    /// silently discarded and the list is left unchanged.  The length never
    /// changes and no other slot is touched.
    fn replace(list: &mut Vec<Self>, value: Self)
        ensures
            final(list)@.len() == old(list)@.len(),
            !Self::has_smaller(old(list)@, value.key()) ==> final(list)@ == old(list)@,
            forall|p: int|
                Self::is_first_smaller(old(list)@, value.key(), p) ==> final(list)@ == old(
                    list,
                )@.update(p, value),
            Self::has_smaller(old(list)@, value.key()) ==> exists|p: int|
                Self::is_first_smaller(old(list)@, value.key(), p),
    ;
}

impl<T> Effective for Numbered<T> {
    open spec fn key(&self) -> nat {
        self.id as nat
    }

    fn modify_raw(list: &mut Vec<Self>, index: usize, value: Self) {
        list.set(index, value);
    }

    fn replace(list: &mut Vec<Self>, value: Self) {
        let n = list.len();
        let mut p = n;
        let mut i: usize = 0;
        while i < n
            invariant
                i <= n,
                n == list.len(),
                list@ == old(list)@,
                p == n || Self::is_first_smaller(list@, value.key(), p as int),
                p == n ==> forall|j: int| 0 <= j < i ==> #[trigger] list@[j].key() >= value.key(),
            decreases n - i,
        {
            if p == n && list[i].id < value.id {
                p = i;
            }
            i = i + 1;
        }
        if p < n {
            proof {
                let k = value.key();
                // The first qualifying position is unique, so the single
                // overwrite below settles every clause about it.
                assert forall|q: int| Self::is_first_smaller(list@, k, q) implies q == p as int by {
                    if q < p as int {
                        assert(list@[q].key() >= k);
                    } else if (p as int) < q {
                        assert(list@[p as int].key() >= k);
                    }
                }
                assert(Self::has_smaller(list@, k));
            }
            Self::modify_raw(list, p, value);
        }
    }
}

} // verus!
