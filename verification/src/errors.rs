//! The fatal-error taxonomy of bootstrap.
//!
//! Some bootstrap failures are locally recoverable (a missing snapshot falls
//! back to genesis replay); the ones below are not: booting on would leave
//! consensus-relevant state undefined.  Rather than terminating the process
//! itself, the coordinator surfaces a distinguished fatal result that the
//! process's top-level driver is required to handle by terminating with a
//! diagnostic.

use vstd::prelude::*;

verus! {

/// A failure that must halt the process: no partial or best-effort node
/// state is acceptable after one of these.
#[derive(Clone, Copy, Debug, PartialEq, Eq, Structural)]
pub enum FatalError {
    /// No account-storage location is configured, but a snapshot restore is
    /// required: there is no way to materialize the restored account state.
    MissingAccountStorage,
    /// The snapshot-loading collaborator failed after a snapshot was known
    /// to be present.  Falling back to genesis would silently discard
    /// validated history, so the failure is terminal.
    SnapshotLoadFailed,
    /// Filler accounts were requested, but the genesis path would be taken.
    /// Filler accounts can only be injected relative to an existing
    /// account-store image, so this combination is a misconfiguration.
    FillerAccountsWithoutSnapshot,
}

impl FatalError {
    /// The diagnostic that the process driver prints before exiting.
    pub open spec fn diagnostic_spec(self) -> Seq<char> {
        match self {
            FatalError::MissingAccountStorage => {
                "Account paths not present when booting from snapshot"@
            },
            FatalError::SnapshotLoadFailed => {
                "Failed to load bank from snapshot archives"@
            },
            FatalError::FillerAccountsWithoutSnapshot => {
                "filler accounts specified, but not loading from snapshot"@
            },
        }
    }

    /// A human-readable description of the failed precondition or
    /// collaborator.
    pub fn diagnostic(&self) -> (r: &'static str)
        ensures
            r@ == self.diagnostic_spec(),
    {
        match self {
            FatalError::MissingAccountStorage => {
                "Account paths not present when booting from snapshot"
            },
            FatalError::SnapshotLoadFailed => "Failed to load bank from snapshot archives",
            FatalError::FillerAccountsWithoutSnapshot => {
                "filler accounts specified, but not loading from snapshot"
            },
        }
    }
}

} // verus!
