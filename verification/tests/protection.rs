use validator_store::chain_spec::{ChainSpec, EthSpec};
use validator_store::doppelganger::{DoppelgangerService, DoppelgangerState, DoppelgangerStatus};
use validator_store::error::Error;
use validator_store::initialized_validators::{
    InitializedValidator, InitializedValidators, SigningMethod,
};
use validator_store::primitives::{Hash256, PublicKeyBytes};
use validator_store::store::{Config, ValidatorStore};

const SAFE: PublicKeyBytes = PublicKeyBytes([1; 48]);
const WATCHED: PublicKeyBytes = PublicKeyBytes([2; 48]);
const MISSING: PublicKeyBytes = PublicKeyBytes([3; 48]);
const STRANGER: PublicKeyBytes = PublicKeyBytes([4; 48]);

fn validator(method: u64) -> InitializedValidator {
    InitializedValidator {
        signing_method: SigningMethod(method),
        graffiti: None,
        suggested_fee_recipient: None,
        gas_limit: None,
        builder_proposals: None,
        builder_boost_factor: None,
        prefer_builder_proposals: None,
        index: None,
    }
}

fn store(protected: bool) -> ValidatorStore {
    let mut validators = InitializedValidators::new();
    validators.insert(SAFE, validator(10));
    validators.insert(WATCHED, validator(20));
    validators.insert(MISSING, validator(30));
    let service = if protected {
        let mut service = DoppelgangerService::new();
        service.set_state(WATCHED, DoppelgangerState { requires_further_checks: true });
        service.set_state(SAFE, DoppelgangerState { requires_further_checks: false });
        service.set_state(STRANGER, DoppelgangerState { requires_further_checks: false });
        Some(service)
    } else {
        None
    };
    let spec = ChainSpec {
        genesis_fork_version: [0; 4],
        altair_fork_version: [1; 4],
        altair_fork_epoch: None,
        bellatrix_fork_version: [2; 4],
        bellatrix_fork_epoch: None,
        capella_fork_version: [3; 4],
        capella_fork_epoch: None,
        deneb_fork_version: [4; 4],
        deneb_fork_epoch: None,
    };
    let config = Config {
        fee_recipient: None,
        gas_limit: None,
        builder_proposals: false,
        produce_block_v3: false,
        prefer_builder_proposals: false,
        builder_boost_factor: None,
    };
    ValidatorStore::new(
        validators,
        Hash256([0; 32]),
        spec,
        EthSpec::new(32),
        service,
        &config,
    )
}

#[test]
fn statuses_are_those_of_enabled_validators() {
    assert_eq!(
        store(true).doppelganger_statuses(),
        vec![
            DoppelgangerStatus::SigningEnabled(SAFE),
            DoppelgangerStatus::SigningDisabled(WATCHED),
            DoppelgangerStatus::UnknownToDoppelganger(MISSING),
        ]
    );
    assert_eq!(
        store(false).doppelganger_statuses(),
        vec![
            DoppelgangerStatus::SigningEnabled(SAFE),
            DoppelgangerStatus::SigningEnabled(WATCHED),
            DoppelgangerStatus::SigningEnabled(MISSING),
        ]
    );
}

#[test]
fn filters_pick_by_status() {
    assert_eq!(store(true).voting_pubkeys(DoppelgangerStatus::only_safe), vec![SAFE]);
    assert_eq!(store(true).voting_pubkeys(DoppelgangerStatus::ignored), vec![SAFE, WATCHED]);
    assert_eq!(
        store(true).voting_pubkeys(|status| match status {
            DoppelgangerStatus::UnknownToDoppelganger(pubkey) => Some(pubkey),
            _ => None,
        }),
        vec![MISSING]
    );
    assert_eq!(
        store(false).voting_pubkeys(DoppelgangerStatus::only_safe),
        vec![SAFE, WATCHED, MISSING]
    );
}

#[test]
fn status_filters_hand_out_keys() {
    assert_eq!(DoppelgangerStatus::SigningEnabled(SAFE).only_safe(), Some(SAFE));
    assert_eq!(DoppelgangerStatus::SigningDisabled(SAFE).only_safe(), None);
    assert_eq!(DoppelgangerStatus::UnknownToDoppelganger(SAFE).only_safe(), None);
    assert_eq!(DoppelgangerStatus::SigningEnabled(SAFE).ignored(), Some(SAFE));
    assert_eq!(DoppelgangerStatus::SigningDisabled(SAFE).ignored(), Some(SAFE));
    assert_eq!(DoppelgangerStatus::UnknownToDoppelganger(SAFE).ignored(), None);
}

#[test]
fn protection_allows_only_safe_keys() {
    let store = store(true);
    assert!(store.doppelganger_protection_enabled());
    assert!(store.doppelganger_protection_allows_signing(SAFE));
    assert!(!store.doppelganger_protection_allows_signing(WATCHED));
    assert!(!store.doppelganger_protection_allows_signing(MISSING));
}

#[test]
fn disabled_protection_allows_every_key() {
    let store = store(false);
    assert!(!store.doppelganger_protection_enabled());
    assert!(store.doppelganger_protection_allows_signing(WATCHED));
    assert!(store.doppelganger_protection_allows_signing(STRANGER));
}

#[test]
fn checked_method_needs_protection_and_validator() {
    let store = store(true);
    assert_eq!(store.doppelganger_checked_signing_method::<String>(SAFE), Ok(SigningMethod(10)));
    assert_eq!(
        store.doppelganger_checked_signing_method::<String>(WATCHED),
        Err(Error::DoppelgangerProtected(WATCHED))
    );
    assert_eq!(
        store.doppelganger_checked_signing_method::<String>(MISSING),
        Err(Error::DoppelgangerProtected(MISSING))
    );
    assert_eq!(
        store.doppelganger_checked_signing_method::<String>(STRANGER),
        Err(Error::UnknownPubkey(STRANGER))
    );
}

#[test]
fn bypassed_method_needs_only_validator() {
    for protected in [true, false] {
        let store = store(protected);
        assert_eq!(store.doppelganger_bypassed_signing_method::<String>(WATCHED), Ok(SigningMethod(20)));
        assert_eq!(store.doppelganger_bypassed_signing_method::<String>(MISSING), Ok(SigningMethod(30)));
        assert_eq!(
            store.doppelganger_bypassed_signing_method::<String>(STRANGER),
            Err(Error::UnknownPubkey(STRANGER))
        );
    }
}

#[test]
fn state_of_protection_can_change() {
    let mut watched = store(true);
    watched.set_doppelganger_state(
        WATCHED,
        Some(DoppelgangerState { requires_further_checks: false }),
    );
    assert_eq!(watched.voting_pubkeys(DoppelgangerStatus::only_safe), vec![SAFE, WATCHED]);
    watched.set_doppelganger_state(SAFE, None);
    assert_eq!(watched.voting_pubkeys(DoppelgangerStatus::ignored), vec![WATCHED]);
    assert!(!watched.doppelganger_protection_allows_signing(SAFE));

    let mut unprotected = store(false);
    unprotected.set_doppelganger_state(
        WATCHED,
        Some(DoppelgangerState { requires_further_checks: true }),
    );
    assert!(!unprotected.doppelganger_protection_enabled());
    assert!(unprotected.doppelganger_protection_allows_signing(WATCHED));
}
