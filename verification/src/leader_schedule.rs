//! The derived cache of per-epoch leader schedules.

use vstd::prelude::*;
use crate::root_state::RootState;

verus! {

/// How many epoch schedules the cache retains by default.
pub const DEFAULT_MAX_SCHEDULES: usize = 10;

/// A cache mapping epoch number to leader schedule, seeded from the root
/// state at construction.  The coordinator only decides how it is seeded
/// and how much history it retains; computing the schedules themselves is a
/// collaborator's concern.
#[derive(Clone, Copy, Debug, PartialEq, Eq, Structural)]
pub struct LeaderScheduleCache {
    /// The slot of the root state the cache was seeded from.
    pub seeded_root_slot: u64,
    /// How many epoch schedules are retained.
    pub max_schedules: usize,
}

impl LeaderScheduleCache {
    /// Seed a cache from the root state, with the default bounded
    /// retention window.
    pub fn new_from_root(root: &RootState) -> (r: LeaderScheduleCache)
        ensures
            r.seeded_root_slot == root.slot,
            r.max_schedules == DEFAULT_MAX_SCHEDULES,
    {
        LeaderScheduleCache { seeded_root_slot: root.slot, max_schedules: DEFAULT_MAX_SCHEDULES }
    }

    /// Reconfigure how many epoch schedules are retained.
    pub fn set_max_schedules(&mut self, max_schedules: usize)
        ensures
            *final(self) == (LeaderScheduleCache { max_schedules, ..*old(self) }),
    {
        self.max_schedules = max_schedules;
    }
}

} // verus!
