//! The bootstrap coordinator: a state machine from events to actions.
//!
//! Bootstrap alternates decisions with collaborator work the coordinator
//! cannot perform itself — a directory probe, a purge of stale working
//! state, the long-running snapshot load, the genesis replay.  The
//! coordinator therefore hands out a [`BootstrapAction`] after every
//! [`BootstrapEvent`] it is fed; the process driver performs the action and
//! feeds back what came of it.  The transition relation [`step_spec`] (and
//! [`start_spec`] for the first action) is the complete statement of the
//! policy: which path is taken, in what order the collaborators run, and
//! which failures halt the process.

use vstd::prelude::*;
use crate::config::candidates_view;
use crate::config::BootstrapConfig;
use crate::enforcement::apply_hard_forks;
use crate::enforcement::build_leader_schedule_cache;
use crate::enforcement::registered_set;
use crate::enforcement::stale_for;
use crate::errors::FatalError;
use crate::enforcement::lemma_registration_order_independent;
use crate::hard_forks::lemma_hard_fork_set_canonical;
use crate::hard_forks::sorted_unique;
use crate::hard_forks::HardForkSet;
use crate::leader_schedule::LeaderScheduleCache;
use crate::leader_schedule::DEFAULT_MAX_SCHEDULES;
use crate::root_state::RootState;
use crate::selector::select_strategy;
use crate::selector::spec_select;
use crate::selector::BootstrapStrategy;
use crate::snapshot::assemble_provenance;
use crate::snapshot::spec_reference;
use crate::snapshot::SnapshotArtifact;
use crate::snapshot::SnapshotReference;

verus! {

/// Where the coordinator stands between two events.
#[derive(Clone, Copy, Debug, PartialEq, Eq, Structural)]
pub enum Phase {
    /// The presence probe was requested and its result is awaited.
    AwaitingProbe,
    /// The snapshot path was selected; the purge of stale working state is
    /// awaited.
    AwaitingPurge,
    /// The snapshot-loading collaborator was invoked and its result is
    /// awaited.
    AwaitingSnapshotLoad,
    /// The genesis-replay collaborator was invoked and its result is
    /// awaited.
    AwaitingGenesisReplay,
    /// Bootstrap completed; the outcome was handed out.
    Complete,
    /// A fatal error was handed out; the process must terminate.
    Halted,
}

/// What the driver must do next.
#[derive(Debug)]
pub enum BootstrapAction {
    /// Probe the configured snapshot storage for a full-snapshot artifact:
    /// a read-only scan, no other side effect.
    RunProbe,
    /// Purge leftover on-disk snapshot working state from prior runs, so it
    /// cannot consume the storage the incoming restored image needs.  Taken
    /// unconditionally before every restore — a no-op on a fresh boot.
    PurgeStaleWorkingState,
    /// Invoke the snapshot-loading collaborator, handing it the cancellation
    /// token so a shutdown request interrupts the restore promptly.
    LoadSnapshot,
    /// Invoke the genesis-replay collaborator.
    ReplayGenesis,
    /// Terminate the process with the error's diagnostic.
    Halt(FatalError),
    /// Bootstrap is done: hand the outcome to the replay subsystem.
    Finish(BootstrapOutcome),
}

/// What a performed action came to.
#[derive(Debug)]
pub enum BootstrapEvent {
    /// The probe reports whether a full-snapshot artifact exists.
    Probed { found: bool },
    /// The purge ran; nothing of its result is consumed.
    Purged,
    /// The snapshot-loading collaborator succeeded.
    SnapshotLoaded {
        /// The slot of the restored root state.
        root_slot: u64,
        /// The content hash of the restored root state.
        root_hash: u64,
        /// Whether the restore already completed startup verification.
        verification_complete: bool,
        /// The hard-fork slots the restored state carries, strictly
        /// increasing as the collaborator keeps them.
        hard_fork_slots: Vec<u64>,
        /// Provenance of the full artifact the restore came from.
        full: SnapshotArtifact,
        /// Provenance of the incremental artifact, when one took part; its
        /// slot is after the full artifact's.
        incremental: Option<SnapshotArtifact>,
    },
    /// The snapshot-loading collaborator failed — for any reason, a
    /// signalled cancellation included.
    SnapshotLoadFailed,
    /// The genesis-replay collaborator built a root state.
    GenesisReplayed { root_slot: u64, root_hash: u64 },
}

/// The assembled result of a completed bootstrap.
#[derive(Debug)]
pub struct BootstrapOutcome {
    /// The single authoritative root state.
    pub root: RootState,
    /// The leader-schedule cache seeded from it.
    pub leader_schedule: LeaderScheduleCache,
    /// Provenance of the snapshot artifacts, when the snapshot path ran;
    /// the genesis path has no prior artifact lineage.
    pub provenance: Option<SnapshotReference>,
    /// The hard-fork candidates dropped as stale, in the order supplied,
    /// for the driver to warn about.
    pub ignored_hard_forks: Vec<u64>,
}

/// The coordinator itself: the configuration it decides over and the phase
/// it stands in.
#[derive(Debug)]
pub struct Coordinator {
    /// The input bundle of this bootstrap attempt.  Consumed when the
    /// outcome is assembled.
    pub config: BootstrapConfig,
    /// Where the coordinator stands.
    pub phase: Phase,
}

impl BootstrapEvent {
    /// What the collaborators guarantee of the values they hand back: the
    /// restored hard-fork slots are strictly increasing, and an incremental
    /// artifact references a slot after its full artifact.
    pub open spec fn wf(self) -> bool {
        match self {
            BootstrapEvent::SnapshotLoaded {
                root_slot: _,
                root_hash: _,
                verification_complete: _,
                hard_fork_slots,
                full,
                incremental,
            } => sorted_unique(hard_fork_slots@) && (incremental matches Some(inc) ==> inc.slot
                > full.slot),
            _ => true,
        }
    }
}

/// The first transition: what `Coordinator::new` hands out.  With the
/// snapshot feature enabled the probe runs first; with it disabled the
/// probe is skipped, treated as "absent", and selection happens at once.
pub open spec fn start_spec(cfg: BootstrapConfig, post: Coordinator, action: BootstrapAction) -> bool {
    &&& post.config == cfg
    &&& if cfg.snapshot_enabled {
        post.phase is AwaitingProbe && action is RunProbe
    } else {
        match spec_select(cfg, false) {
            Ok(BootstrapStrategy::Genesis) => post.phase is AwaitingGenesisReplay
                && action is ReplayGenesis,
            Err(e) => post.phase is Halted && action == BootstrapAction::Halt(e),
            Ok(BootstrapStrategy::Snapshot) => false,
        }
    }
}

/// The outcome of post-load invariant enforcement, described over the root
/// the path produced: the hard-fork candidates beyond the root's slot are
/// registered onto `base_forks`, the stale ones are reported back in
/// order, and the leader-schedule cache is seeded from the root with the
/// configured retention.
pub open spec fn post_load_ok(
    outcome: BootstrapOutcome,
    cfg: BootstrapConfig,
    base_forks: Set<u64>,
    root_slot: u64,
) -> bool {
    &&& outcome.root.wf()
    &&& outcome.root.slot == root_slot
    &&& outcome.root.hard_forks.slot_set() == registered_set(
        base_forks,
        cfg.candidate_seq(),
        root_slot,
    )
    &&& outcome.ignored_hard_forks@ == cfg.candidate_seq().filter(stale_for(root_slot))
    &&& outcome.leader_schedule.seeded_root_slot == root_slot
    &&& outcome.leader_schedule.max_schedules == (if cfg.full_leader_cache {
        usize::MAX
    } else {
        DEFAULT_MAX_SCHEDULES
    })
}

/// The outcome owed for a successful snapshot restore: the root state is
/// the one the collaborator reported — hash, verification flag and
/// hard-fork set included —, the operator's shrink-location override is
/// applied onto it, and the provenance packages the reported artifacts
/// unchanged.
pub open spec fn restored_outcome_ok(
    outcome: BootstrapOutcome,
    cfg: BootstrapConfig,
    event: BootstrapEvent,
) -> bool {
    event matches BootstrapEvent::SnapshotLoaded {
        root_slot,
        root_hash,
        verification_complete,
        hard_fork_slots,
        full,
        incremental,
    } ==> {
        &&& post_load_ok(outcome, cfg, hard_fork_slots@.to_set(), root_slot)
        &&& outcome.root.state_hash == root_hash
        &&& outcome.root.startup_verification_complete == verification_complete
        &&& outcome.root.shrink_locations == cfg.shrink_locations
        &&& outcome.provenance == Some(spec_reference(full, incremental))
    }
}

/// The outcome owed for a completed genesis replay: the root state is the
/// one the collaborator built, explicitly marked startup-verified — it was
/// freshly derived from the trusted genesis definition —, with an empty
/// hard-fork set as its base and no provenance, since there is no prior
/// artifact lineage.
pub open spec fn genesis_outcome_ok(
    outcome: BootstrapOutcome,
    cfg: BootstrapConfig,
    event: BootstrapEvent,
) -> bool {
    event matches BootstrapEvent::GenesisReplayed { root_slot, root_hash } ==> {
        &&& post_load_ok(outcome, cfg, Set::<u64>::empty(), root_slot)
        &&& outcome.root.state_hash == root_hash
        &&& outcome.root.startup_verification_complete
        &&& outcome.root.shrink_locations is None
        &&& outcome.provenance is None
    }
}

/// The transition relation of the coordinator: given the phase it stands
/// in and the event fed to it, what phase it moves to and what action it
/// hands out.
pub open spec fn step_spec(
    pre: Coordinator,
    event: BootstrapEvent,
    post: Coordinator,
    action: BootstrapAction,
) -> bool {
    match (pre.phase, event) {
        (Phase::AwaitingProbe, BootstrapEvent::Probed { found }) => {
            match spec_select(pre.config, found) {
                Ok(BootstrapStrategy::Snapshot) => {
                    if pre.config.has_account_storage() {
                        post.config == pre.config && post.phase is AwaitingPurge
                            && action is PurgeStaleWorkingState
                    } else {
                        post.phase is Halted && action == BootstrapAction::Halt(
                            FatalError::MissingAccountStorage,
                        )
                    }
                },
                Ok(BootstrapStrategy::Genesis) => post.config == pre.config
                    && post.phase is AwaitingGenesisReplay && action is ReplayGenesis,
                Err(e) => post.phase is Halted && action == BootstrapAction::Halt(e),
            }
        },
        (Phase::AwaitingPurge, BootstrapEvent::Purged) => post.config == pre.config
            && post.phase is AwaitingSnapshotLoad && action is LoadSnapshot,
        (Phase::AwaitingSnapshotLoad, BootstrapEvent::SnapshotLoadFailed) => post.phase is Halted
            && action == BootstrapAction::Halt(FatalError::SnapshotLoadFailed),
        (
            Phase::AwaitingSnapshotLoad,
            BootstrapEvent::SnapshotLoaded {
                root_slot: _,
                root_hash: _,
                verification_complete: _,
                hard_fork_slots: _,
                full: _,
                incremental: _,
            },
        ) => post.phase is Complete && (action matches BootstrapAction::Finish(outcome)
            && restored_outcome_ok(outcome, pre.config, event)),
        (
            Phase::AwaitingGenesisReplay,
            BootstrapEvent::GenesisReplayed { root_slot: _, root_hash: _ },
        ) => post.phase is Complete && (action matches BootstrapAction::Finish(outcome)
            && genesis_outcome_ok(outcome, pre.config, event)),
        _ => false,
    }
}

impl Coordinator {
    /// Which events the coordinator can be fed where it stands: the one
    /// answering the action it handed out, carrying well-formed
    /// collaborator data.
    pub open spec fn accepts(self, event: BootstrapEvent) -> bool {
        &&& event.wf()
        &&& match (self.phase, event) {
            (Phase::AwaitingProbe, BootstrapEvent::Probed { found: _ }) => true,
            (Phase::AwaitingPurge, BootstrapEvent::Purged) => true,
            (
                Phase::AwaitingSnapshotLoad,
                BootstrapEvent::SnapshotLoaded {
                    root_slot: _,
                    root_hash: _,
                    verification_complete: _,
                    hard_fork_slots: _,
                    full: _,
                    incremental: _,
                },
            ) => true,
            (Phase::AwaitingSnapshotLoad, BootstrapEvent::SnapshotLoadFailed) => true,
            (
                Phase::AwaitingGenesisReplay,
                BootstrapEvent::GenesisReplayed { root_slot: _, root_hash: _ },
            ) => true,
            _ => false,
        }
    }

    /// Begin bootstrap: consume the configuration and hand out the first
    /// action.
    pub fn new(config: BootstrapConfig) -> (r: (Coordinator, BootstrapAction))
        ensures
            start_spec(config, r.0, r.1),
    {
        if config.snapshot_enabled {
            (Coordinator { config, phase: Phase::AwaitingProbe }, BootstrapAction::RunProbe)
        } else {
            match select_strategy(&config, false) {
                Ok(_) => (
                    Coordinator { config, phase: Phase::AwaitingGenesisReplay },
                    BootstrapAction::ReplayGenesis,
                ),
                Err(e) => (Coordinator { config, phase: Phase::Halted }, BootstrapAction::Halt(e)),
            }
        }
    }

    /// Feed back what the last action came to and receive the next one.
    pub fn step(self, event: BootstrapEvent) -> (r: (Coordinator, BootstrapAction))
        requires
            self.accepts(event),
        ensures
            step_spec(self, event, r.0, r.1),
    {
        let Coordinator { config, phase } = self;
        match (phase, event) {
            (Phase::AwaitingProbe, BootstrapEvent::Probed { found }) => {
                match select_strategy(&config, found) {
                    Ok(BootstrapStrategy::Snapshot) => {
                        if config.account_storage_locations.len() > 0 {
                            (
                                Coordinator { config, phase: Phase::AwaitingPurge },
                                BootstrapAction::PurgeStaleWorkingState,
                            )
                        } else {
                            (
                                Coordinator { config, phase: Phase::Halted },
                                BootstrapAction::Halt(FatalError::MissingAccountStorage),
                            )
                        }
                    },
                    Ok(BootstrapStrategy::Genesis) => (
                        Coordinator { config, phase: Phase::AwaitingGenesisReplay },
                        BootstrapAction::ReplayGenesis,
                    ),
                    Err(e) => (
                        Coordinator { config, phase: Phase::Halted },
                        BootstrapAction::Halt(e),
                    ),
                }
            },
            (Phase::AwaitingPurge, BootstrapEvent::Purged) => (
                Coordinator { config, phase: Phase::AwaitingSnapshotLoad },
                BootstrapAction::LoadSnapshot,
            ),
            (Phase::AwaitingSnapshotLoad, BootstrapEvent::SnapshotLoadFailed) => (
                Coordinator { config, phase: Phase::Halted },
                BootstrapAction::Halt(FatalError::SnapshotLoadFailed),
            ),
            (
                Phase::AwaitingSnapshotLoad,
                BootstrapEvent::SnapshotLoaded {
                    root_slot,
                    root_hash,
                    verification_complete,
                    hard_fork_slots,
                    full,
                    incremental,
                },
            ) => {
                let BootstrapConfig {
                    snapshot_enabled,
                    account_storage_locations,
                    shrink_locations,
                    filler_account_count,
                    full_leader_cache,
                    hard_fork_candidates,
                } = config;
                let mut root = RootState::restored(
                    root_slot,
                    root_hash,
                    verification_complete,
                    HardForkSet { slots: hard_fork_slots },
                );
                match shrink_locations {
                    Some(locations) => root.set_shrink_locations(locations),
                    None => (),
                }
                let provenance = assemble_provenance(full, incremental);
                let outcome = Self::assemble_outcome(
                    root,
                    full_leader_cache,
                    &hard_fork_candidates,
                    Some(provenance),
                );
                let spent = BootstrapConfig {
                    snapshot_enabled,
                    account_storage_locations,
                    shrink_locations: None,
                    filler_account_count,
                    full_leader_cache,
                    hard_fork_candidates,
                };
                (
                    Coordinator { config: spent, phase: Phase::Complete },
                    BootstrapAction::Finish(outcome),
                )
            },
            (
                Phase::AwaitingGenesisReplay,
                BootstrapEvent::GenesisReplayed { root_slot, root_hash },
            ) => {
                let BootstrapConfig {
                    snapshot_enabled,
                    account_storage_locations,
                    shrink_locations,
                    filler_account_count,
                    full_leader_cache,
                    hard_fork_candidates,
                } = config;
                let mut root = RootState::from_genesis(root_slot, root_hash);
                root.set_startup_verification_complete();
                let outcome = Self::assemble_outcome(
                    root,
                    full_leader_cache,
                    &hard_fork_candidates,
                    None,
                );
                let spent = BootstrapConfig {
                    snapshot_enabled,
                    account_storage_locations,
                    shrink_locations,
                    filler_account_count,
                    full_leader_cache,
                    hard_fork_candidates,
                };
                (
                    Coordinator { config: spent, phase: Phase::Complete },
                    BootstrapAction::Finish(outcome),
                )
            },
            _ => vstd::pervasive::unreached(),
        }
    }

    /// Enforce the post-load invariants on the root state a path produced
    /// and assemble the outcome handed to the replay subsystem.
    fn assemble_outcome(
        root: RootState,
        full_leader_cache: bool,
        hard_fork_candidates: &Option<Vec<u64>>,
        provenance: Option<SnapshotReference>,
    ) -> (outcome: BootstrapOutcome)
        requires
            root.wf(),
        ensures
            outcome.root.wf(),
            outcome.root.slot == root.slot,
            outcome.root.state_hash == root.state_hash,
            outcome.root.startup_verification_complete == root.startup_verification_complete,
            outcome.root.shrink_locations == root.shrink_locations,
            outcome.root.hard_forks.slot_set() == registered_set(
                root.hard_forks.slot_set(),
                candidates_view(*hard_fork_candidates),
                root.slot,
            ),
            outcome.ignored_hard_forks@ == candidates_view(*hard_fork_candidates).filter(
                stale_for(root.slot),
            ),
            outcome.leader_schedule.seeded_root_slot == root.slot,
            outcome.leader_schedule.max_schedules == (if full_leader_cache {
                usize::MAX
            } else {
                DEFAULT_MAX_SCHEDULES
            }),
            outcome.provenance == provenance,
    {
        let mut root = root;
        let leader_schedule = build_leader_schedule_cache(&root, full_leader_cache);
        let ignored_hard_forks: Vec<u64> = match hard_fork_candidates {
            Some(candidates) => apply_hard_forks(&mut root, candidates),
            None => {
                proof {
                    assert(registered_set(
                        root.hard_forks.slot_set(),
                        Seq::<u64>::empty(),
                        root.slot,
                    ) =~= root.hard_forks.slot_set());
                    assert(Seq::<u64>::empty().filter(stale_for(root.slot)) =~= Seq::<
                        u64,
                    >::empty()) by {
                        reveal_with_fuel(Seq::filter, 2);
                    }
                }
                Vec::new()
            },
        };
        BootstrapOutcome { root, leader_schedule, provenance, ignored_hard_forks }
    }
}

/// LAW — the hard-fork set a bootstrap finishes with does not depend on
/// the order or multiplicity of the operator-supplied candidates: two
/// attempts over the same base that differ only in that respect finish
/// with the identical hard-fork vector.
pub proof fn lemma_outcome_forks_order_independent(
    o1: BootstrapOutcome,
    cfg1: BootstrapConfig,
    o2: BootstrapOutcome,
    cfg2: BootstrapConfig,
    base_forks: Set<u64>,
    root_slot: u64,
)
    requires
        post_load_ok(o1, cfg1, base_forks, root_slot),
        post_load_ok(o2, cfg2, base_forks, root_slot),
        cfg1.candidate_seq().to_set() == cfg2.candidate_seq().to_set(),
    ensures
        o1.root.hard_forks.slots@ == o2.root.hard_forks.slots@,
{
    lemma_registration_order_independent(
        base_forks,
        cfg1.candidate_seq(),
        cfg2.candidate_seq(),
        root_slot,
    );
    lemma_hard_fork_set_canonical(o1.root.hard_forks, o2.root.hard_forks);
}

/// LAW — bootstrap is a single sequence: once complete or halted, the
/// coordinator accepts no further event, so the outcome handed out is the
/// only one of the attempt.
pub proof fn lemma_terminal_phases_accept_nothing(c: Coordinator, event: BootstrapEvent)
    requires
        c.phase is Complete || c.phase is Halted,
    ensures
        !c.accepts(event),
{
}

/// LAW — with the snapshot feature disabled, bootstrap takes the genesis
/// path: the first action handed out replays genesis, and the completed
/// outcome's root state is marked startup-verified and carries no
/// provenance.
pub proof fn lemma_disabled_feature_takes_genesis(
    cfg: BootstrapConfig,
    c1: Coordinator,
    a1: BootstrapAction,
    event: BootstrapEvent,
    c2: Coordinator,
    a2: BootstrapAction,
)
    requires
        !cfg.snapshot_enabled,
        !cfg.filler_accounts_requested(),
        start_spec(cfg, c1, a1),
        step_spec(c1, event, c2, a2),
    ensures
        a1 is ReplayGenesis,
        c1.phase is AwaitingGenesisReplay,
        a2 matches BootstrapAction::Finish(outcome) && outcome.root.startup_verification_complete
            && outcome.provenance is None,
{
}

/// LAW — no silent fallback: once the snapshot load is awaited, no
/// transition replays genesis.  A load failure halts the process; a
/// success completes with provenance packaging exactly the artifacts the
/// loading collaborator reported.
pub proof fn lemma_no_fallback_after_snapshot(
    c1: Coordinator,
    event: BootstrapEvent,
    c2: Coordinator,
    a2: BootstrapAction,
)
    requires
        c1.phase is AwaitingSnapshotLoad,
        step_spec(c1, event, c2, a2),
    ensures
        !(a2 is ReplayGenesis),
        event is SnapshotLoadFailed ==> a2 == BootstrapAction::Halt(FatalError::SnapshotLoadFailed)
            && c2.phase is Halted,
        event matches BootstrapEvent::SnapshotLoaded {
            root_slot: _,
            root_hash: _,
            verification_complete: _,
            hard_fork_slots: _,
            full,
            incremental,
        } ==> (a2 matches BootstrapAction::Finish(outcome) && outcome.provenance == Some(
            spec_reference(full, incremental),
        ) && (outcome.provenance matches Some(r) && r.full_spec() == full && r.incremental_spec()
            == incremental)),
{
}

/// LAW — the snapshot path, once selected, runs purge then load: the
/// acknowledged purge leads to the snapshot load, never to a genesis
/// replay and never straight to completion.
pub proof fn lemma_purge_leads_to_load(
    c1: Coordinator,
    event: BootstrapEvent,
    c2: Coordinator,
    a2: BootstrapAction,
)
    requires
        c1.phase is AwaitingPurge,
        step_spec(c1, event, c2, a2),
    ensures
        a2 is LoadSnapshot,
        c2.phase is AwaitingSnapshotLoad,
{
}

/// LAW — a filler-account request on a configuration that can only reach
/// genesis is fatal, deterministically, before any genesis replay is
/// requested: with the snapshot feature disabled the coordinator halts on
/// its very first action.
pub proof fn lemma_filler_without_snapshot_halts_at_start(
    cfg: BootstrapConfig,
    c1: Coordinator,
    a1: BootstrapAction,
)
    requires
        !cfg.snapshot_enabled,
        cfg.filler_accounts_requested(),
        start_spec(cfg, c1, a1),
    ensures
        a1 == BootstrapAction::Halt(FatalError::FillerAccountsWithoutSnapshot),
        c1.phase is Halted,
{
}

/// LAW — the same misconfiguration caught at probe time: when the probe
/// finds no artifact and filler accounts were requested, the coordinator
/// halts instead of falling back to genesis.
pub proof fn lemma_filler_on_probe_miss_halts(
    c1: Coordinator,
    c2: Coordinator,
    a2: BootstrapAction,
)
    requires
        c1.phase is AwaitingProbe,
        c1.config.filler_accounts_requested(),
        step_spec(c1, BootstrapEvent::Probed { found: false }, c2, a2),
    ensures
        a2 == BootstrapAction::Halt(FatalError::FillerAccountsWithoutSnapshot),
        c2.phase is Halted,
{
}

/// LAW — a probe miss is a local fallback, not a restore: with no artifact
/// found the coordinator never asks for a purge or a snapshot load, and
/// without a filler-account request it replays genesis.
pub proof fn lemma_probe_miss_never_restores(
    c1: Coordinator,
    c2: Coordinator,
    a2: BootstrapAction,
)
    requires
        c1.phase is AwaitingProbe,
        step_spec(c1, BootstrapEvent::Probed { found: false }, c2, a2),
    ensures
        !(a2 is PurgeStaleWorkingState),
        !(a2 is LoadSnapshot),
        !c1.config.filler_accounts_requested() ==> a2 is ReplayGenesis
            && c2.phase is AwaitingGenesisReplay,
{
}

/// LAW — the snapshot path checks its precondition before any collaborator
/// runs: with no account-storage location configured, a probe hit halts
/// bootstrap at once — no purge and no load is ever requested.
pub proof fn lemma_missing_storage_halts_before_collaborators(
    c1: Coordinator,
    c2: Coordinator,
    a2: BootstrapAction,
)
    requires
        c1.phase is AwaitingProbe,
        c1.config.snapshot_enabled,
        !c1.config.has_account_storage(),
        step_spec(c1, BootstrapEvent::Probed { found: true }, c2, a2),
    ensures
        a2 == BootstrapAction::Halt(FatalError::MissingAccountStorage),
        c2.phase is Halted,
{
}

} // verus!
