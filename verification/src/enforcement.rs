//! Post-load invariant enforcement.
//!
//! Once the root state exists — whichever path produced it — two
//! independent, order-insensitive steps follow: the leader-schedule cache
//! is seeded from it, and the operator-supplied hard-fork candidates are
//! registered into its hard-fork set after sanitation.  Candidates at or
//! below the root's own slot describe forks already passed; they are
//! dropped, reported back for a warning, and never registered.

use vstd::prelude::*;
use crate::leader_schedule::DEFAULT_MAX_SCHEDULES;
use crate::leader_schedule::LeaderScheduleCache;
use crate::root_state::RootState;

verus! {

/// The hard-fork set after registering `candidates` against a root at
/// `root_slot`, starting from `base`: the candidates strictly beyond the
/// root's slot join the set, the rest are discarded.  The result depends
/// only on which candidates were supplied, not on their order or
/// multiplicity.
pub open spec fn registered_set(base: Set<u64>, candidates: Seq<u64>, root_slot: u64) -> Set<
    u64,
> {
    base.union(Set::new(|c: u64| candidates.contains(c) && c > root_slot))
}

/// Whether a candidate slot is stale for a root at `root_slot`: at or below
/// it, so registering it would have no effect and could mislead future
/// validation.
pub open spec fn stale_for(root_slot: u64) -> spec_fn(u64) -> bool {
    |c: u64| c <= root_slot
}

/// Register the operator-supplied hard-fork candidates into the root
/// state's hard-fork set.  Candidates strictly beyond the root's slot are
/// registered; the rest are returned, in the order supplied, for the
/// caller to warn about.  Nothing else of the root state changes.
pub fn apply_hard_forks(root: &mut RootState, candidates: &Vec<u64>) -> (ignored: Vec<u64>)
    requires
        old(root).wf(),
    ensures
        final(root).wf(),
        final(root).hard_forks.slot_set() == registered_set(
            old(root).hard_forks.slot_set(),
            candidates@,
            old(root).slot,
        ),
        ignored@ == candidates@.filter(stale_for(old(root).slot)),
        final(root).slot == old(root).slot,
        final(root).state_hash == old(root).state_hash,
        final(root).startup_verification_complete == old(root).startup_verification_complete,
        final(root).shrink_locations == old(root).shrink_locations,
{
    let ghost base = old(root).hard_forks.slot_set();
    let ghost root_slot = old(root).slot;
    let mut ignored: Vec<u64> = Vec::new();
    let n: usize = candidates.len();
    let mut i: usize = 0;
    proof {
        assert(candidates@.take(0) =~= Seq::<u64>::empty());
        assert(root.hard_forks.slot_set() =~= registered_set(base, candidates@.take(0), root_slot));
        assert(Seq::<u64>::empty().filter(stale_for(root_slot)) =~= Seq::<u64>::empty()) by {
            reveal_with_fuel(Seq::filter, 2);
        }
    }
    while i < n
        invariant
            n == candidates@.len(),
            i <= n,
            root.wf(),
            root.slot == root_slot,
            root.state_hash == old(root).state_hash,
            root.startup_verification_complete == old(root).startup_verification_complete,
            root.shrink_locations == old(root).shrink_locations,
            root.hard_forks.slot_set() == registered_set(
                base,
                candidates@.take(i as int),
                root_slot,
            ),
            ignored@ == candidates@.take(i as int).filter(stale_for(root_slot)),
        decreases n - i,
    {
        let c = candidates[i];
        let ghost taken = candidates@.take(i as int);
        proof {
            assert(candidates@.take(i + 1) =~= taken.push(c));
            assert forall|x: u64| #[trigger] taken.push(c).contains(x) implies taken.contains(x)
                || x == c by {
            lemma_push_contains(taken, c, x);
        };
        assert forall|x: u64| taken.contains(x) || x == c implies #[trigger] taken.push(
            c,
        ).contains(x) by {
            lemma_push_contains(taken, c, x);
        };
        }
        if c > root.slot {
            root.hard_forks.register(c);
            proof {
                assert(!stale_for(root_slot)(c));
                taken.lemma_filter_push(c, stale_for(root_slot));
                assert(root.hard_forks.slot_set() =~= registered_set(
                    base,
                    candidates@.take(i + 1),
                    root_slot,
                ));
                assert(taken.push(c).filter(stale_for(root_slot)) == taken.filter(
                    stale_for(root_slot),
                ));
            }
        } else {
            ignored.push(c);
            proof {
                assert(stale_for(root_slot)(c));
                taken.lemma_filter_push(c, stale_for(root_slot));
                assert(root.hard_forks.slot_set() =~= registered_set(
                    base,
                    candidates@.take(i + 1),
                    root_slot,
                ));
                assert(taken.push(c).filter(stale_for(root_slot)) == taken.filter(
                    stale_for(root_slot),
                ).push(c));
            }
        }
        i += 1;
    }
    proof {
        assert(candidates@.take(n as int) =~= candidates@);
    }
    ignored
}

/// Membership in a sequence extended by one element.
proof fn lemma_push_contains(s: Seq<u64>, c: u64, x: u64)
    ensures
        s.push(c).contains(x) <==> (s.contains(x) || x == c),
{
    if s.push(c).contains(x) {
        let k = choose|k: int| 0 <= k < s.push(c).len() && s.push(c)[k] == x;
        if k < s.len() {
            assert(s[k] == x);
        }
    }
    if s.contains(x) {
        let k = choose|k: int| 0 <= k < s.len() && s[k] == x;
        assert(s.push(c)[k] == x);
    }
    assert(s.push(c)[s.len() as int] == c);
}

/// Seed the leader-schedule cache from the root state, retaining an
/// unbounded history when the configuration asks for one and the default
/// bounded window otherwise.
pub fn build_leader_schedule_cache(root: &RootState, full_leader_cache: bool) -> (r:
    LeaderScheduleCache)
    ensures
        r.seeded_root_slot == root.slot,
        r.max_schedules == if full_leader_cache {
            usize::MAX
        } else {
            DEFAULT_MAX_SCHEDULES
        },
{
    let mut cache = LeaderScheduleCache::new_from_root(root);
    if full_leader_cache {
        cache.set_max_schedules(usize::MAX);
    }
    cache
}

/// LAW — registration is order-independent and insensitive to repetition:
/// two candidate lists supplying the same slots, in whatever order and
/// multiplicity, register the same hard-fork set.
pub proof fn lemma_registration_order_independent(
    base: Set<u64>,
    c1: Seq<u64>,
    c2: Seq<u64>,
    root_slot: u64,
)
    requires
        c1.to_set() == c2.to_set(),
    ensures
        registered_set(base, c1, root_slot) == registered_set(base, c2, root_slot),
{
    assert forall|c: u64| c1.contains(c) implies c2.contains(c) by {
        assert(c1.to_set().contains(c));
    };
    assert forall|c: u64| c2.contains(c) implies c1.contains(c) by {
        assert(c2.to_set().contains(c));
    };
    assert(registered_set(base, c1, root_slot) =~= registered_set(base, c2, root_slot));
}

/// LAW — registration is idempotent: registering a candidate list a second
/// time onto its own result changes nothing.
pub proof fn lemma_registration_idempotent(base: Set<u64>, candidates: Seq<u64>, root_slot: u64)
    ensures
        registered_set(registered_set(base, candidates, root_slot), candidates, root_slot)
            == registered_set(base, candidates, root_slot),
{
    assert(registered_set(registered_set(base, candidates, root_slot), candidates, root_slot)
        =~= registered_set(base, candidates, root_slot));
}

/// LAW — stale candidates never surface: a candidate at or below the
/// root's slot is in the final hard-fork set exactly when it already was in
/// the starting one, regardless of how many candidates were supplied.
pub proof fn lemma_stale_candidates_never_registered(
    base: Set<u64>,
    candidates: Seq<u64>,
    root_slot: u64,
    c: u64,
)
    requires
        c <= root_slot,
    ensures
        registered_set(base, candidates, root_slot).contains(c) == base.contains(c),
{
}

} // verus!
