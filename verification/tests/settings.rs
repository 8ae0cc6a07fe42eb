use validator_store::chain_spec::{ChainSpec, EthSpec};
use validator_store::initialized_validators::{
    InitializedValidator, InitializedValidators, SigningMethod,
};
use validator_store::primitives::{Address, Graffiti, Hash256, PublicKeyBytes};
use validator_store::store::{Config, ProposalData, ValidatorStore, DEFAULT_GAS_LIMIT};

const KNOWN: PublicKeyBytes = PublicKeyBytes([1; 48]);
const UNKNOWN: PublicKeyBytes = PublicKeyBytes([2; 48]);

fn config() -> Config {
    Config {
        fee_recipient: None,
        gas_limit: None,
        builder_proposals: false,
        produce_block_v3: false,
        prefer_builder_proposals: false,
        builder_boost_factor: None,
    }
}

fn validator() -> InitializedValidator {
    InitializedValidator {
        signing_method: SigningMethod(7),
        graffiti: None,
        suggested_fee_recipient: None,
        gas_limit: None,
        builder_proposals: None,
        builder_boost_factor: None,
        prefer_builder_proposals: None,
        index: None,
    }
}

fn spec() -> ChainSpec {
    ChainSpec {
        genesis_fork_version: [0; 4],
        altair_fork_version: [1; 4],
        altair_fork_epoch: None,
        bellatrix_fork_version: [2; 4],
        bellatrix_fork_epoch: None,
        capella_fork_version: [3; 4],
        capella_fork_epoch: None,
        deneb_fork_version: [4; 4],
        deneb_fork_epoch: None,
    }
}

fn store(validator: InitializedValidator, config: Config) -> ValidatorStore {
    let mut validators = InitializedValidators::new();
    validators.insert(KNOWN, validator);
    ValidatorStore::new(
        validators,
        Hash256([9; 32]),
        spec(),
        EthSpec::new(32),
        None,
        &config,
    )
}

#[test]
fn default_gas_limit_is_thirty_million() {
    assert_eq!(DEFAULT_GAS_LIMIT, 30_000_000);
    assert_eq!(store(validator(), config()).get_gas_limit(&KNOWN), 30_000_000);
}

#[test]
fn gas_limit_of_definition_comes_before_process() {
    let process = Config { gas_limit: Some(20), ..config() };
    let own = InitializedValidator { gas_limit: Some(10), ..validator() };
    assert_eq!(store(own, process).get_gas_limit(&KNOWN), 10);
    assert_eq!(store(own, process).get_gas_limit(&UNKNOWN), 20);
    assert_eq!(store(validator(), process).get_gas_limit(&KNOWN), 20);
    assert_eq!(store(validator(), process).get_gas_limit_defaulting(Some(5)), 5);
}

#[test]
fn fee_recipient_of_definition_comes_before_process() {
    let process = Config { fee_recipient: Some(Address([2; 20])), ..config() };
    let own = InitializedValidator {
        suggested_fee_recipient: Some(Address([1; 20])),
        ..validator()
    };
    assert_eq!(store(own, process).get_fee_recipient(&KNOWN), Some(Address([1; 20])));
    assert_eq!(store(own, process).get_fee_recipient(&UNKNOWN), Some(Address([2; 20])));
    assert_eq!(store(validator(), process).get_fee_recipient(&KNOWN), Some(Address([2; 20])));
    assert_eq!(store(validator(), config()).get_fee_recipient(&KNOWN), None);
    assert_eq!(
        store(validator(), process).get_fee_recipient_defaulting(Some(Address([3; 20]))),
        Some(Address([3; 20]))
    );
}

#[test]
fn builder_flags_of_definition_come_before_process() {
    let process = Config {
        builder_proposals: true,
        prefer_builder_proposals: true,
        builder_boost_factor: Some(50),
        ..config()
    };
    let own = InitializedValidator {
        builder_proposals: Some(false),
        prefer_builder_proposals: Some(false),
        builder_boost_factor: Some(75),
        ..validator()
    };
    let both = store(own, process);
    assert!(!both.get_builder_proposals(&KNOWN));
    assert!(!both.get_prefer_builder_proposals(&KNOWN));
    assert_eq!(both.get_builder_boost_factor(&KNOWN), Some(75));
    assert!(both.get_builder_proposals(&UNKNOWN));
    assert!(both.get_prefer_builder_proposals(&UNKNOWN));
    assert_eq!(both.get_builder_boost_factor(&UNKNOWN), Some(50));
    assert!(both.get_builder_proposals_defaulting(None));
}

#[test]
fn proposal_data_holds_each_setting() {
    let process = Config {
        fee_recipient: Some(Address([2; 20])),
        builder_proposals: true,
        ..config()
    };
    let own = InitializedValidator { index: Some(12), gas_limit: Some(10), ..validator() };
    let both = store(own, process);
    assert_eq!(
        both.proposal_data(&KNOWN),
        Some(ProposalData {
            validator_index: Some(12),
            fee_recipient: Some(Address([2; 20])),
            gas_limit: 10,
            builder_proposals: true,
        })
    );
    assert_eq!(both.proposal_data(&UNKNOWN), None);
}

#[test]
fn validator_index_needs_key_and_index() {
    let known = store(InitializedValidator { index: Some(3), ..validator() }, config());
    assert_eq!(known.validator_index(&KNOWN), Some(3));
    assert_eq!(known.validator_index(&UNKNOWN), None);
    assert_eq!(store(validator(), config()).validator_index(&KNOWN), None);
}

#[test]
fn graffiti_is_that_of_definition() {
    let own = InitializedValidator { graffiti: Some(Graffiti([5; 32])), ..validator() };
    assert_eq!(store(own, config()).graffiti(&KNOWN), Some(Graffiti([5; 32])));
    assert_eq!(store(own, config()).graffiti(&UNKNOWN), None);
    assert_eq!(store(validator(), config()).graffiti(&KNOWN), None);
}

#[test]
fn validator_preference_for_builder_is_highest_boost() {
    let own = InitializedValidator {
        prefer_builder_proposals: Some(true),
        builder_boost_factor: Some(5),
        builder_proposals: Some(false),
        ..validator()
    };
    assert_eq!(
        store(own, config()).determine_validator_builder_boost_factor(&KNOWN),
        Some(u64::MAX)
    );
}

#[test]
fn validator_boost_factor_is_itself() {
    let own = InitializedValidator {
        prefer_builder_proposals: Some(false),
        builder_boost_factor: Some(5),
        builder_proposals: Some(false),
        ..validator()
    };
    assert_eq!(store(own, config()).determine_validator_builder_boost_factor(&KNOWN), Some(5));
}

#[test]
fn validator_without_builder_proposals_prefers_local_payloads() {
    let off = InitializedValidator { builder_proposals: Some(false), ..validator() };
    let on = InitializedValidator { builder_proposals: Some(true), ..validator() };
    assert_eq!(store(off, config()).determine_validator_builder_boost_factor(&KNOWN), Some(0));
    assert_eq!(store(on, config()).determine_validator_builder_boost_factor(&KNOWN), None);
    assert_eq!(store(off, config()).determine_validator_builder_boost_factor(&UNKNOWN), None);
    assert_eq!(
        store(validator(), config()).determine_validator_builder_boost_factor(&KNOWN),
        None
    );
}

#[test]
fn process_boost_factor_follows_the_same_order() {
    let prefer = Config {
        prefer_builder_proposals: true,
        builder_boost_factor: Some(5),
        ..config()
    };
    let factor = Config { builder_boost_factor: Some(5), ..config() };
    let off = config();
    let on = Config { builder_proposals: true, ..config() };
    let of = |config| store(validator(), config).determine_default_builder_boost_factor();
    assert_eq!(of(prefer), Some(u64::MAX));
    assert_eq!(of(factor), Some(5));
    assert_eq!(of(off), Some(0));
    assert_eq!(of(on), None);
}

#[test]
fn block_production_version_is_that_of_config() {
    assert!(!store(validator(), config()).produce_block_v3());
    let v3 = Config { produce_block_v3: true, ..config() };
    assert!(store(validator(), v3).produce_block_v3());
}

#[test]
fn validators_are_those_that_are_enabled() {
    let mut known = store(validator(), config());
    assert!(known.has_validator(&KNOWN));
    assert!(!known.has_validator(&UNKNOWN));
    assert_eq!(known.num_voting_validators(), 1);
    assert_eq!(known.initialized_validators().voting_pubkeys(), vec![KNOWN]);

    let mut validators = InitializedValidators::new();
    validators.insert(UNKNOWN, validator());
    validators.insert(KNOWN, validator());
    validators.insert(UNKNOWN, InitializedValidator { gas_limit: Some(1), ..validator() });
    known.set_initialized_validators(validators);
    assert_eq!(known.num_voting_validators(), 2);
    assert_eq!(known.initialized_validators().voting_pubkeys(), vec![UNKNOWN, KNOWN]);
    assert_eq!(known.get_gas_limit(&UNKNOWN), 1);
}
