use bank_forks_utils::config::BootstrapConfig;
use bank_forks_utils::coordinator::BootstrapAction;
use bank_forks_utils::coordinator::BootstrapEvent;
use bank_forks_utils::coordinator::Coordinator;
use bank_forks_utils::coordinator::Phase;
use bank_forks_utils::errors::FatalError;
use bank_forks_utils::leader_schedule::DEFAULT_MAX_SCHEDULES;
use bank_forks_utils::selector::select_strategy;
use bank_forks_utils::selector::BootstrapStrategy;
use bank_forks_utils::snapshot::SnapshotArtifact;
use bank_forks_utils::snapshot::SnapshotReference;

fn plain_config() -> BootstrapConfig {
    BootstrapConfig {
        snapshot_enabled: false,
        account_storage_locations: vec![String::from("accounts")],
        shrink_locations: None,
        filler_account_count: 0,
        full_leader_cache: false,
        hard_fork_candidates: None,
    }
}

#[test]
fn disabled_feature_replays_genesis_and_marks_verified() {
    let (coordinator, action) = Coordinator::new(plain_config());
    assert!(matches!(action, BootstrapAction::ReplayGenesis));
    assert_eq!(coordinator.phase, Phase::AwaitingGenesisReplay);
    let (coordinator, action) =
        coordinator.step(BootstrapEvent::GenesisReplayed { root_slot: 100, root_hash: 7 });
    assert_eq!(coordinator.phase, Phase::Complete);
    match action {
        BootstrapAction::Finish(outcome) => {
            assert!(outcome.root.startup_verification_complete);
            assert_eq!(outcome.root.slot, 100);
            assert_eq!(outcome.root.state_hash, 7);
            assert!(outcome.provenance.is_none());
            assert!(outcome.root.hard_forks.slots.is_empty());
        }
        other => panic!("expected Finish, got {:?}", other),
    }
}

#[test]
fn probe_miss_replays_genesis_without_purge_or_load() {
    let mut config = plain_config();
    config.snapshot_enabled = true;
    let (coordinator, action) = Coordinator::new(config);
    assert!(matches!(action, BootstrapAction::RunProbe));
    assert_eq!(coordinator.phase, Phase::AwaitingProbe);
    let (coordinator, action) = coordinator.step(BootstrapEvent::Probed { found: false });
    assert!(matches!(action, BootstrapAction::ReplayGenesis));
    assert_eq!(coordinator.phase, Phase::AwaitingGenesisReplay);
}

#[test]
fn filler_accounts_without_snapshot_is_fatal_at_start() {
    let mut config = plain_config();
    config.filler_account_count = 1;
    let (coordinator, action) = Coordinator::new(config);
    assert!(matches!(
        action,
        BootstrapAction::Halt(FatalError::FillerAccountsWithoutSnapshot)
    ));
    assert_eq!(coordinator.phase, Phase::Halted);
}

#[test]
fn filler_accounts_on_probe_miss_is_fatal_before_genesis() {
    let mut config = plain_config();
    config.snapshot_enabled = true;
    config.filler_account_count = 3;
    let (coordinator, _action) = Coordinator::new(config);
    let (coordinator, action) = coordinator.step(BootstrapEvent::Probed { found: false });
    assert!(matches!(
        action,
        BootstrapAction::Halt(FatalError::FillerAccountsWithoutSnapshot)
    ));
    assert_eq!(coordinator.phase, Phase::Halted);
}

#[test]
fn missing_account_storage_is_fatal_before_any_collaborator() {
    let mut config = plain_config();
    config.snapshot_enabled = true;
    config.account_storage_locations = Vec::new();
    let (coordinator, _action) = Coordinator::new(config);
    let (coordinator, action) = coordinator.step(BootstrapEvent::Probed { found: true });
    assert!(matches!(
        action,
        BootstrapAction::Halt(FatalError::MissingAccountStorage)
    ));
    assert_eq!(coordinator.phase, Phase::Halted);
}

#[test]
fn snapshot_load_failure_halts_instead_of_falling_back() {
    let mut config = plain_config();
    config.snapshot_enabled = true;
    let (coordinator, _action) = Coordinator::new(config);
    let (coordinator, action) = coordinator.step(BootstrapEvent::Probed { found: true });
    assert!(matches!(action, BootstrapAction::PurgeStaleWorkingState));
    let (coordinator, action) = coordinator.step(BootstrapEvent::Purged);
    assert!(matches!(action, BootstrapAction::LoadSnapshot));
    let (coordinator, action) = coordinator.step(BootstrapEvent::SnapshotLoadFailed);
    assert!(matches!(
        action,
        BootstrapAction::Halt(FatalError::SnapshotLoadFailed)
    ));
    assert_eq!(coordinator.phase, Phase::Halted);
}

#[test]
fn snapshot_restore_packages_reported_provenance() {
    let hash_full: u64 = 0x1111;
    let hash_incremental: u64 = 0x2222;
    let mut config = plain_config();
    config.snapshot_enabled = true;
    config.shrink_locations = Some(vec![String::from("shrink")]);
    let (coordinator, _action) = Coordinator::new(config);
    let (coordinator, _action) = coordinator.step(BootstrapEvent::Probed { found: true });
    let (coordinator, _action) = coordinator.step(BootstrapEvent::Purged);
    let (coordinator, action) = coordinator.step(BootstrapEvent::SnapshotLoaded {
        root_slot: 600,
        root_hash: 42,
        verification_complete: false,
        hard_fork_slots: vec![10, 20],
        full: SnapshotArtifact { slot: 500, state_hash: hash_full },
        incremental: Some(SnapshotArtifact { slot: 600, state_hash: hash_incremental }),
    });
    assert_eq!(coordinator.phase, Phase::Complete);
    match action {
        BootstrapAction::Finish(outcome) => {
            assert_eq!(outcome.root.slot, 600);
            assert_eq!(outcome.root.state_hash, 42);
            assert!(!outcome.root.startup_verification_complete);
            assert_eq!(outcome.root.hard_forks.slots, vec![10, 20]);
            assert_eq!(
                outcome.root.shrink_locations,
                Some(vec![String::from("shrink")])
            );
            match outcome.provenance {
                Some(SnapshotReference::FullAndIncremental { full, incremental }) => {
                    assert_eq!(full.slot, 500);
                    assert_eq!(full.state_hash, hash_full);
                    assert_eq!(incremental.slot, 600);
                    assert_eq!(incremental.state_hash, hash_incremental);
                }
                other => panic!("expected full+incremental provenance, got {:?}", other),
            }
        }
        other => panic!("expected Finish, got {:?}", other),
    }
}

#[test]
fn snapshot_restore_with_full_artifact_only() {
    let mut config = plain_config();
    config.snapshot_enabled = true;
    let (coordinator, _action) = Coordinator::new(config);
    let (coordinator, _action) = coordinator.step(BootstrapEvent::Probed { found: true });
    let (coordinator, _action) = coordinator.step(BootstrapEvent::Purged);
    let (_coordinator, action) = coordinator.step(BootstrapEvent::SnapshotLoaded {
        root_slot: 500,
        root_hash: 9,
        verification_complete: true,
        hard_fork_slots: Vec::new(),
        full: SnapshotArtifact { slot: 500, state_hash: 77 },
        incremental: None,
    });
    match action {
        BootstrapAction::Finish(outcome) => {
            assert!(outcome.root.startup_verification_complete);
            assert!(outcome.root.shrink_locations.is_none());
            match outcome.provenance {
                Some(SnapshotReference::FullOnly { full }) => {
                    assert_eq!(full.slot, 500);
                    assert_eq!(full.state_hash, 77);
                }
                other => panic!("expected full-only provenance, got {:?}", other),
            }
        }
        other => panic!("expected Finish, got {:?}", other),
    }
}

#[test]
fn restore_registers_hard_forks_beyond_restored_slot() {
    let mut config = plain_config();
    config.snapshot_enabled = true;
    config.hard_fork_candidates = Some(vec![550, 650, 700]);
    let (coordinator, _action) = Coordinator::new(config);
    let (coordinator, _action) = coordinator.step(BootstrapEvent::Probed { found: true });
    let (coordinator, _action) = coordinator.step(BootstrapEvent::Purged);
    let (_coordinator, action) = coordinator.step(BootstrapEvent::SnapshotLoaded {
        root_slot: 600,
        root_hash: 1,
        verification_complete: false,
        hard_fork_slots: vec![100],
        full: SnapshotArtifact { slot: 600, state_hash: 2 },
        incremental: None,
    });
    match action {
        BootstrapAction::Finish(outcome) => {
            assert_eq!(outcome.root.hard_forks.slots, vec![100, 650, 700]);
            assert_eq!(outcome.ignored_hard_forks, vec![550]);
        }
        other => panic!("expected Finish, got {:?}", other),
    }
}

#[test]
fn leader_schedule_retention_follows_configuration() {
    let (coordinator, _action) = Coordinator::new(plain_config());
    let (_coordinator, action) =
        coordinator.step(BootstrapEvent::GenesisReplayed { root_slot: 5, root_hash: 6 });
    match action {
        BootstrapAction::Finish(outcome) => {
            assert_eq!(outcome.leader_schedule.seeded_root_slot, 5);
            assert_eq!(outcome.leader_schedule.max_schedules, DEFAULT_MAX_SCHEDULES);
        }
        other => panic!("expected Finish, got {:?}", other),
    }

    let mut config = plain_config();
    config.full_leader_cache = true;
    let (coordinator, _action) = Coordinator::new(config);
    let (_coordinator, action) =
        coordinator.step(BootstrapEvent::GenesisReplayed { root_slot: 5, root_hash: 6 });
    match action {
        BootstrapAction::Finish(outcome) => {
            assert_eq!(outcome.leader_schedule.max_schedules, usize::MAX);
        }
        other => panic!("expected Finish, got {:?}", other),
    }
}

#[test]
fn genesis_path_registers_hard_forks_too() {
    let mut config = plain_config();
    config.hard_fork_candidates = Some(vec![10, 3]);
    let (coordinator, _action) = Coordinator::new(config);
    let (_coordinator, action) =
        coordinator.step(BootstrapEvent::GenesisReplayed { root_slot: 5, root_hash: 0 });
    match action {
        BootstrapAction::Finish(outcome) => {
            assert_eq!(outcome.root.hard_forks.slots, vec![10]);
            assert_eq!(outcome.ignored_hard_forks, vec![3]);
        }
        other => panic!("expected Finish, got {:?}", other),
    }
}

#[test]
fn selector_prefers_snapshot_only_when_enabled_and_found() {
    let mut config = plain_config();
    config.snapshot_enabled = true;
    assert_eq!(
        select_strategy(&config, true),
        Ok(BootstrapStrategy::Snapshot)
    );
    assert_eq!(
        select_strategy(&config, false),
        Ok(BootstrapStrategy::Genesis)
    );
    config.snapshot_enabled = false;
    assert_eq!(
        select_strategy(&config, true),
        Ok(BootstrapStrategy::Genesis)
    );
}

#[test]
fn fatal_error_diagnostics_name_the_failure() {
    assert_eq!(
        FatalError::MissingAccountStorage.diagnostic(),
        "Account paths not present when booting from snapshot"
    );
    assert_eq!(
        FatalError::SnapshotLoadFailed.diagnostic(),
        "Failed to load bank from snapshot archives"
    );
    assert_eq!(
        FatalError::FillerAccountsWithoutSnapshot.diagnostic(),
        "filler accounts specified, but not loading from snapshot"
    );
}
