//! The single authoritative state tree after bootstrap.

use vstd::prelude::*;
use crate::hard_forks::HardForkSet;

verus! {

/// The root of all subsequent forks: exactly one exists after bootstrap
/// completes, identified by its slot number and content hash.  Constructed
/// exactly once per bootstrap attempt — either fully assembled from genesis
/// or fully assembled from a snapshot, never partially — and then handed to
/// the replay subsystem.
#[derive(Debug)]
pub struct RootState {
    /// The slot this root state stands at.
    pub slot: u64,
    /// The content hash identifying this root state.
    pub state_hash: u64,
    /// Whether startup verification is complete.  A root freshly derived
    /// from the trusted genesis definition needs no further validation and
    /// is marked complete explicitly; one restored from an external
    /// artifact carries whatever the restore collaborator reported.
    pub startup_verification_complete: bool,
    /// The slots at which protocol behavior changes.
    pub hard_forks: HardForkSet,
    /// The account-storage shrink locations, when an operator supplied an
    /// override.
    pub shrink_locations: Option<Vec<String>>,
}

impl RootState {
    /// Well-formedness: the owned hard-fork set keeps its invariant.
    pub open spec fn wf(&self) -> bool {
        self.hard_forks.wf()
    }

    /// A root state built by the genesis-replay collaborator: no prior
    /// artifact lineage, an empty hard-fork set, and startup verification
    /// not yet marked.
    pub fn from_genesis(slot: u64, state_hash: u64) -> (r: RootState)
        ensures
            r.wf(),
            r.slot == slot,
            r.state_hash == state_hash,
            !r.startup_verification_complete,
            r.hard_forks.slot_set() == Set::<u64>::empty(),
            r.shrink_locations is None,
    {
        RootState {
            slot,
            state_hash,
            startup_verification_complete: false,
            hard_forks: HardForkSet::new(),
            shrink_locations: None,
        }
    }

    /// A root state restored by the snapshot-loading collaborator, carrying
    /// the hard-fork set and verification flag it reported.
    pub fn restored(
        slot: u64,
        state_hash: u64,
        startup_verification_complete: bool,
        hard_forks: HardForkSet,
    ) -> (r: RootState)
        requires
            hard_forks.wf(),
        ensures
            r.wf(),
            r.slot == slot,
            r.state_hash == state_hash,
            r.startup_verification_complete == startup_verification_complete,
            r.hard_forks == hard_forks,
            r.shrink_locations is None,
    {
        RootState {
            slot,
            state_hash,
            startup_verification_complete,
            hard_forks,
            shrink_locations: None,
        }
    }

    /// The slot this root state stands at.
    pub fn slot(&self) -> (r: u64)
        ensures
            r == self.slot,
    {
        self.slot
    }

    /// Mark startup verification complete, as the genesis path does after
    /// deriving the root from the trusted genesis definition.
    pub fn set_startup_verification_complete(&mut self)
        ensures
            *final(self) == (RootState { startup_verification_complete: true, ..*old(self) }),
    {
        self.startup_verification_complete = true;
    }

    /// Apply the operator-supplied override of the account-storage shrink
    /// locations.
    pub fn set_shrink_locations(&mut self, locations: Vec<String>)
        ensures
            *final(self) == (RootState { shrink_locations: Some(locations), ..*old(self) }),
    {
        self.shrink_locations = Some(locations);
    }
}

} // verus!
