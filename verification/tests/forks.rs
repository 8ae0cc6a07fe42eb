use validator_store::chain_spec::{ChainSpec, Domain, EthSpec, Fork, ForkName, SigningContext};
use validator_store::initialized_validators::InitializedValidators;
use validator_store::primitives::{Epoch, Hash256, Slot};
use validator_store::store::{Config, ValidatorStore};

fn spec() -> ChainSpec {
    ChainSpec {
        genesis_fork_version: [0; 4],
        altair_fork_version: [1; 4],
        altair_fork_epoch: Some(Epoch(10)),
        bellatrix_fork_version: [2; 4],
        bellatrix_fork_epoch: Some(Epoch(20)),
        capella_fork_version: [3; 4],
        capella_fork_epoch: Some(Epoch(30)),
        deneb_fork_version: [4; 4],
        deneb_fork_epoch: Some(Epoch(40)),
    }
}

fn store(spec: ChainSpec) -> ValidatorStore {
    let config = Config {
        fee_recipient: None,
        gas_limit: None,
        builder_proposals: false,
        produce_block_v3: false,
        prefer_builder_proposals: false,
        builder_boost_factor: None,
    };
    ValidatorStore::new(
        InitializedValidators::new(),
        Hash256([9; 32]),
        spec,
        EthSpec::new(32),
        None,
        &config,
    )
}

#[test]
fn active_fork_is_last_started() {
    let spec = spec();
    assert_eq!(spec.fork_name_at_epoch(Epoch(0)), ForkName::Base);
    assert_eq!(spec.fork_name_at_epoch(Epoch(9)), ForkName::Base);
    assert_eq!(spec.fork_name_at_epoch(Epoch(10)), ForkName::Altair);
    assert_eq!(spec.fork_name_at_epoch(Epoch(29)), ForkName::Merge);
    assert_eq!(spec.fork_name_at_epoch(Epoch(30)), ForkName::Capella);
    assert_eq!(spec.fork_name_at_epoch(Epoch(u64::MAX)), ForkName::Deneb);
}

#[test]
fn unscheduled_fork_never_starts() {
    let spec = ChainSpec { deneb_fork_epoch: None, ..spec() };
    assert_eq!(spec.fork_name_at_epoch(Epoch(u64::MAX)), ForkName::Capella);
}

#[test]
fn forks_may_start_together() {
    let spec = ChainSpec {
        altair_fork_epoch: Some(Epoch(0)),
        bellatrix_fork_epoch: Some(Epoch(0)),
        capella_fork_epoch: Some(Epoch(0)),
        ..spec()
    };
    assert_eq!(
        spec.fork_at_epoch(Epoch(0)),
        Fork { previous_version: [2; 4], current_version: [3; 4], epoch: Epoch(0) }
    );
}

#[test]
fn fork_holds_both_versions() {
    let store = store(spec());
    assert_eq!(
        store.fork(Epoch(5)),
        Fork { previous_version: [0; 4], current_version: [0; 4], epoch: Epoch(0) }
    );
    assert_eq!(
        store.fork(Epoch(35)),
        Fork { previous_version: [2; 4], current_version: [3; 4], epoch: Epoch(30) }
    );
    assert_eq!(
        store.fork(Epoch(41)),
        Fork { previous_version: [3; 4], current_version: [4; 4], epoch: Epoch(40) }
    );
}

#[test]
fn context_commits_to_active_fork() {
    let store = store(spec());
    assert_eq!(
        store.signing_context(Domain::Randao, Epoch(41)),
        SigningContext {
            domain: Domain::Randao,
            epoch: Epoch(41),
            fork: Fork { previous_version: [3; 4], current_version: [4; 4], epoch: Epoch(40) },
            genesis_validators_root: Hash256([9; 32]),
        }
    );
}

#[test]
fn exits_commit_to_capella_from_deneb_on() {
    let store = store(spec());
    assert_eq!(
        store.signing_context(Domain::VoluntaryExit, Epoch(41)).fork,
        Fork { previous_version: [3; 4], current_version: [3; 4], epoch: Epoch(41) }
    );
    assert_eq!(
        store.signing_context(Domain::VoluntaryExit, Epoch(39)).fork,
        Fork { previous_version: [2; 4], current_version: [3; 4], epoch: Epoch(30) }
    );
    assert_eq!(
        store.signing_context(Domain::VoluntaryExit, Epoch(12)).fork,
        Fork { previous_version: [0; 4], current_version: [1; 4], epoch: Epoch(10) }
    );
}

#[test]
fn slots_and_epochs_convert() {
    assert_eq!(Slot(95).epoch(32), Epoch(2));
    assert_eq!(Slot(96).epoch(32), Epoch(3));
    assert_eq!(Epoch(3).start_slot(32), Slot(96));
    assert_eq!(Epoch(u64::MAX).start_slot(32), Slot(u64::MAX));
    assert_eq!(Epoch(600).saturating_sub(512), Epoch(88));
    assert_eq!(Epoch(5).saturating_sub(512), Epoch(0));
    assert_eq!(EthSpec::new(8).slots_per_epoch(), 8);
}
