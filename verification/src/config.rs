//! The immutable input bundle of one bootstrap attempt.

use vstd::prelude::*;

verus! {

/// Everything the coordinator reads while deciding how the node's root
/// state is reconstructed.  Constructed once by the caller and consumed by
/// the coordinator; read-only for the duration of bootstrap.
///
/// The genesis definition, the ledger handle, and the notification
/// channels do not influence any decision made here: the surrounding
/// process hands them directly to the collaborators that consume them.
#[derive(Debug)]
pub struct BootstrapConfig {
    /// Whether the snapshot feature is configured at all.  When it is not,
    /// the presence probe is skipped and treated as "absent" — a
    /// configuration choice, not an error.
    pub snapshot_enabled: bool,
    /// The configured account-storage locations.  The snapshot restore path
    /// requires at least one: without it there is no way to materialize the
    /// restored account state.
    pub account_storage_locations: Vec<String>,
    /// An optional operator-supplied override of the account-storage shrink
    /// locations, applied onto a restored root state.
    pub shrink_locations: Option<Vec<String>>,
    /// How many synthetic filler accounts were requested for load testing;
    /// zero means none.  A non-zero request is only valid together with the
    /// snapshot path.
    pub filler_account_count: u64,
    /// Whether the leader-schedule cache keeps an unbounded history instead
    /// of the default bounded window.
    pub full_leader_cache: bool,
    /// Operator-supplied hard-fork candidate slots to register into the
    /// root state's hard-fork set.
    pub hard_fork_candidates: Option<Vec<u64>>,
}

/// The candidate slots a supplied option carries; none reads as empty.
pub open spec fn candidates_view(c: Option<Vec<u64>>) -> Seq<u64> {
    match c {
        Some(v) => v@,
        None => Seq::<u64>::empty(),
    }
}

impl BootstrapConfig {
    /// Whether filler accounts were requested.
    pub open spec fn filler_accounts_requested(&self) -> bool {
        self.filler_account_count > 0
    }

    /// Whether at least one account-storage location is configured.
    pub open spec fn has_account_storage(&self) -> bool {
        self.account_storage_locations@.len() > 0
    }

    /// The hard-fork candidates as a sequence; none supplied reads as empty.
    pub open spec fn candidate_seq(&self) -> Seq<u64> {
        candidates_view(self.hard_fork_candidates)
    }
}

} // verus!
