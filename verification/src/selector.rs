//! The choice between the two mutually exclusive recovery strategies.

use vstd::prelude::*;
use crate::config::BootstrapConfig;
use crate::errors::FatalError;

verus! {

/// The chosen recovery path.  The two are mutually exclusive: a restore
/// from a persisted snapshot, or a replay from the genesis definition.
#[derive(Clone, Copy, Debug, PartialEq, Eq, Structural)]
pub enum BootstrapStrategy {
    /// Restore the root state from a located snapshot artifact.
    Snapshot,
    /// Build the root state directly from the genesis definition.
    Genesis,
}

/// Whether a usable snapshot is available: the feature is enabled and the
/// presence probe reported an artifact.  With the feature disabled the
/// probe is skipped and treated as "absent".
pub open spec fn spec_snapshot_present(cfg: BootstrapConfig, probe_found: bool) -> bool {
    cfg.snapshot_enabled && probe_found
}

/// The selection policy as a value: snapshots are preferred whenever
/// available; otherwise genesis is used, unless filler accounts were
/// requested, which only the snapshot path can honor.
pub open spec fn spec_select(cfg: BootstrapConfig, probe_found: bool) -> Result<
    BootstrapStrategy,
    FatalError,
> {
    if spec_snapshot_present(cfg, probe_found) {
        Ok(BootstrapStrategy::Snapshot)
    } else if cfg.filler_accounts_requested() {
        Err(FatalError::FillerAccountsWithoutSnapshot)
    } else {
        Ok(BootstrapStrategy::Genesis)
    }
}

/// Choose the recovery strategy from the configuration and the probe
/// result.  Snapshots are preferred whenever the feature is enabled and the
/// probe reported presence.  A filler-account request on a genesis-bound
/// configuration is rejected as fatal before any genesis replay begins: a
/// silent fallback would inject filler accounts into nothing.
pub fn select_strategy(cfg: &BootstrapConfig, probe_found: bool) -> (r: Result<
    BootstrapStrategy,
    FatalError,
>)
    ensures
        r == spec_select(*cfg, probe_found),
        r == Ok::<_, FatalError>(BootstrapStrategy::Snapshot) <==> spec_snapshot_present(
            *cfg,
            probe_found,
        ),
        r == Err::<BootstrapStrategy, _>(FatalError::FillerAccountsWithoutSnapshot) <==> (
        !spec_snapshot_present(*cfg, probe_found) && cfg.filler_accounts_requested()),
        r == Ok::<_, FatalError>(BootstrapStrategy::Genesis) <==> (!spec_snapshot_present(
            *cfg,
            probe_found,
        ) && !cfg.filler_accounts_requested()),
{
    if cfg.snapshot_enabled && probe_found {
        Ok(BootstrapStrategy::Snapshot)
    } else if cfg.filler_account_count > 0 {
        Err(FatalError::FillerAccountsWithoutSnapshot)
    } else {
        Ok(BootstrapStrategy::Genesis)
    }
}

} // verus!
