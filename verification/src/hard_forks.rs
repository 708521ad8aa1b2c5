//! The set of slots at which protocol behavior changes.
//!
//! A [`HardForkSet`] is owned by the root state and mutated only through
//! [`HardForkSet::register`].  It is kept as a strictly increasing vector of
//! slot numbers, so any two well-formed sets holding the same slots are the
//! same value ([`lemma_hard_fork_set_canonical`]), which is what makes
//! registration idempotent and order-independent at the level of values, not
//! just of abstract sets.

use vstd::prelude::*;

verus! {

/// A strictly increasing sequence: sorted, with no duplicates.
pub open spec fn sorted_unique(s: Seq<u64>) -> bool {
    forall|i: int, j: int| 0 <= i < j < s.len() ==> s[i] < s[j]
}

/// An ordered set of hard-fork slots.
#[derive(Debug)]
pub struct HardForkSet {
    /// The registered slots, strictly increasing.  Well-formedness is
    /// [`HardForkSet::wf`]; every constructor establishes it and every
    /// method preserves it.
    pub slots: Vec<u64>,
}

impl HardForkSet {
    /// The representation invariant: the slot vector is strictly increasing.
    pub open spec fn wf(&self) -> bool {
        sorted_unique(self.slots@)
    }

    /// The abstract value: the set of registered slots.
    pub open spec fn slot_set(&self) -> Set<u64> {
        self.slots@.to_set()
    }

    /// An empty hard-fork set, as a freshly derived root state owns.
    pub fn new() -> (r: HardForkSet)
        ensures
            r.wf(),
            r.slot_set() == Set::<u64>::empty(),
    {
        let r = HardForkSet { slots: Vec::new() };
        proof {
            assert(r.slot_set() =~= Set::<u64>::empty());
        }
        r
    }

    /// Whether `slot` is registered.
    pub fn contains_slot(&self, slot: u64) -> (r: bool)
        ensures
            r == self.slot_set().contains(slot),
    {
        let n: usize = self.slots.len();
        let mut i: usize = 0;
        let mut found: bool = false;
        while i < n
            invariant
                n == self.slots.len(),
                i <= n,
                found == exists|j: int| 0 <= j < i && self.slots@[j] == slot,
            decreases n - i,
        {
            if self.slots[i] == slot {
                found = true;
            }
            i += 1;
        }
        proof {
            if found {
                assert(self.slots@.contains(slot));
            }
            if self.slots@.contains(slot) {
                let j = choose|j: int| 0 <= j < self.slots@.len() && self.slots@[j] == slot;
                assert(0 <= j < i && self.slots@[j] == slot);
            }
        }
        found
    }

    /// Register one hard-fork slot.  Registration is a set insertion: a slot
    /// already present is left alone, and the vector stays strictly
    /// increasing.
    pub fn register(&mut self, slot: u64)
        requires
            old(self).wf(),
        ensures
            final(self).wf(),
            final(self).slot_set() == old(self).slot_set().insert(slot),
    {
        let n: usize = self.slots.len();
        let mut i: usize = 0;
        while i < n && self.slots[i] < slot
            invariant
                n == self.slots.len(),
                i <= n,
                *self == *old(self),
                forall|j: int| 0 <= j < i ==> self.slots@[j] < slot,
            decreases n - i,
        {
            i += 1;
        }
        if i < n && self.slots[i] == slot {
            proof {
                assert(old(self).slots@[i as int] == slot);
                assert(old(self).slots@.contains(slot));
                assert(final(self).slot_set() =~= old(self).slot_set().insert(slot));
            }
        } else {
            let ghost olds = self.slots@;
            self.slots.insert(i, slot);
            proof {
                let news = self.slots@;
                olds.insert_ensures(i as int, slot);
                assert forall|p: int, q: int|
                    0 <= p < q < news.len() implies news[p] < news[q] by {
                    if q < i {
                        assert(news[p] == olds[p] && news[q] == olds[q]);
                    } else if p < i && q == i {
                        assert(news[p] == olds[p] && olds[p] < slot);
                    } else if p < i && q > i {
                        assert(news[p] == olds[p] && news[q] == olds[q - 1]);
                        assert(olds[p] < slot);
                        assert(i < n && olds[i as int] > slot);
                        assert(olds[i as int] <= olds[q - 1]);
                    } else if p == i {
                        assert(news[q] == olds[q - 1]);
                        assert(i < n && olds[i as int] > slot);
                        assert(olds[i as int] <= olds[q - 1]);
                    } else {
                        assert(news[p] == olds[p - 1] && news[q] == olds[q - 1]);
                    }
                };
                assert forall|c: u64| news.contains(c) implies olds.contains(c) || c == slot by {
                    let k = choose|k: int| 0 <= k < news.len() && news[k] == c;
                    if k < i {
                        assert(olds[k] == c);
                    } else if k > i {
                        assert(olds[k - 1] == c);
                    }
                };
                assert forall|c: u64| olds.contains(c) implies news.contains(c) by {
                    let k = choose|k: int| 0 <= k < olds.len() && olds[k] == c;
                    if k < i {
                        assert(news[k] == c);
                    } else {
                        assert(news[k + 1] == c);
                    }
                };
                assert(news[i as int] == slot);
                assert(news.contains(slot));
                assert(final(self).slot_set() =~= old(self).slot_set().insert(slot));
            }
        }
    }
}

/// LAW — canonical representation.  Any two well-formed hard-fork sets that
/// hold the same slots are the same vector.  Together with the contract of
/// [`HardForkSet::register`] (a set insertion), this makes registration
/// idempotent and order-independent: registering a slot twice, or a batch of
/// slots in any order, leaves the identical final value.
pub proof fn lemma_hard_fork_set_canonical(a: HardForkSet, b: HardForkSet)
    requires
        a.wf(),
        b.wf(),
        a.slot_set() == b.slot_set(),
    ensures
        a.slots@ == b.slots@,
{
    lemma_sorted_unique_canonical(a.slots@, b.slots@);
}

/// A strictly increasing sequence is determined by the set of its elements.
pub proof fn lemma_sorted_unique_canonical(s1: Seq<u64>, s2: Seq<u64>)
    requires
        sorted_unique(s1),
        sorted_unique(s2),
        s1.to_set() == s2.to_set(),
    ensures
        s1 == s2,
    decreases s1.len(),
{
    if s1.len() == 0 {
        if s2.len() > 0 {
            assert(s2.contains(s2[0]));
            assert(s1.to_set().contains(s2[0]));
            assert(false);
        }
        assert(s1 =~= s2);
    } else if s2.len() == 0 {
        assert(s1.contains(s1[0]));
        assert(s2.to_set().contains(s1[0]));
        assert(false);
    } else {
        let a = s1[0];
        let b = s2[0];
        assert(s1.contains(a));
        assert(s2.to_set().contains(a));
        let ka = choose|k: int| 0 <= k < s2.len() && s2[k] == a;
        assert(b <= a);
        assert(s2.contains(b));
        assert(s1.to_set().contains(b));
        let kb = choose|k: int| 0 <= k < s1.len() && s1[k] == b;
        assert(a <= b);
        let t1 = s1.drop_first();
        let t2 = s2.drop_first();
        assert forall|p: int, q: int| 0 <= p < q < t1.len() implies t1[p] < t1[q] by {
            assert(t1[p] == s1[p + 1] && t1[q] == s1[q + 1]);
        };
        assert forall|p: int, q: int| 0 <= p < q < t2.len() implies t2[p] < t2[q] by {
            assert(t2[p] == s2[p + 1] && t2[q] == s2[q + 1]);
        };
        assert forall|c: u64| t1.contains(c) implies t2.contains(c) by {
            lemma_tail_membership(s1, c);
            assert(s1.contains(c) && c != a);
            assert(s2.to_set().contains(c));
            lemma_tail_membership_rev(s2, c);
        };
        assert forall|c: u64| t2.contains(c) implies t1.contains(c) by {
            lemma_tail_membership(s2, c);
            assert(s2.contains(c) && c != b);
            assert(s1.to_set().contains(c));
            lemma_tail_membership_rev(s1, c);
        };
        assert(t1.to_set() =~= t2.to_set());
        lemma_sorted_unique_canonical(t1, t2);
        assert(s1.len() == s2.len());
        assert forall|k: int| 0 <= k < s1.len() implies s1[k] == s2[k] by {
            if k > 0 {
                assert(t1[k - 1] == t2[k - 1]);
            }
        };
        assert(s1 =~= s2);
    }
}

/// An element of the tail of a strictly increasing sequence is an element of
/// the whole that differs from the head.
proof fn lemma_tail_membership(s: Seq<u64>, c: u64)
    requires
        sorted_unique(s),
        s.len() > 0,
        s.drop_first().contains(c),
    ensures
        s.contains(c),
        c != s[0],
{
    let t = s.drop_first();
    let k = choose|k: int| 0 <= k < t.len() && t[k] == c;
    assert(s[k + 1] == c);
    assert(s[0] < s[k + 1]);
}

/// An element of a strictly increasing sequence that differs from the head
/// is an element of the tail.
proof fn lemma_tail_membership_rev(s: Seq<u64>, c: u64)
    requires
        sorted_unique(s),
        s.len() > 0,
        s.contains(c),
        c != s[0],
    ensures
        s.drop_first().contains(c),
{
    let k = choose|k: int| 0 <= k < s.len() && s[k] == c;
    assert(k != 0);
    assert(s.drop_first()[k - 1] == c);
}

} // verus!
