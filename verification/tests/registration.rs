use validator_store::chain_spec::{ChainSpec, EthSpec};
use validator_store::doppelganger::{DoppelgangerService, DoppelgangerState, DoppelgangerStatus};
use validator_store::initialized_validators::{
    InitializedValidator, InitializedValidators, SigningMethod,
};
use validator_store::local_validator::{Keypair, LocalValidator, SecretKey};
use validator_store::pending::Pending;
use validator_store::primitives::{Hash256, PublicKeyBytes};
use validator_store::pubkey_map::PubkeyMap;
use validator_store::store::registration::{
    AddValidator, AddValidatorEvent, DoppelgangerRegistration, KeystoreSettings,
    ValidatorDefinition,
};
use validator_store::store::{Config, ValidatorStore};

const A: PublicKeyBytes = PublicKeyBytes([1; 48]);
const B: PublicKeyBytes = PublicKeyBytes([2; 48]);

type Session = Pending<AddValidator<&'static str, &'static str, u8>>;

fn validator() -> InitializedValidator {
    InitializedValidator {
        signing_method: SigningMethod(1),
        graffiti: None,
        suggested_fee_recipient: None,
        gas_limit: None,
        builder_proposals: None,
        builder_boost_factor: None,
        prefer_builder_proposals: None,
        index: None,
    }
}

fn store(protected: bool) -> ValidatorStore {
    let mut validators = InitializedValidators::new();
    validators.insert(A, validator());
    validators.insert(B, validator());
    let spec = ChainSpec {
        genesis_fork_version: [0; 4],
        altair_fork_version: [1; 4],
        altair_fork_epoch: None,
        bellatrix_fork_version: [2; 4],
        bellatrix_fork_epoch: None,
        capella_fork_version: [3; 4],
        capella_fork_epoch: None,
        deneb_fork_version: [4; 4],
        deneb_fork_epoch: None,
    };
    let config = Config {
        fee_recipient: None,
        gas_limit: None,
        builder_proposals: false,
        produce_block_v3: false,
        prefer_builder_proposals: false,
        builder_boost_factor: None,
    };
    let service = if protected { Some(DoppelgangerService::new()) } else { None };
    ValidatorStore::new(
        validators,
        Hash256([9; 32]),
        spec,
        EthSpec::new(32),
        service,
        &config,
    )
}

fn definition(enabled: bool) -> ValidatorDefinition<u8> {
    ValidatorDefinition {
        enabled,
        voting_public_key: A,
        description: "first".to_string(),
        graffiti: None,
        suggested_fee_recipient: None,
        gas_limit: Some(5),
        builder_proposals: None,
        builder_boost_factor: None,
        prefer_builder_proposals: None,
        signing_definition: 42,
    }
}

const WATCHING: DoppelgangerState = DoppelgangerState { requires_further_checks: true };

fn enabled(pubkeys: &[PublicKeyBytes]) -> InitializedValidators {
    let mut validators = InitializedValidators::new();
    for pubkey in pubkeys {
        validators.insert(*pubkey, validator());
    }
    validators
}

#[test]
fn all_keys_are_registered_in_order() {
    let mut store = store(true);
    let mut asked = Vec::new();
    let mut registration = store.register_all_in_doppelganger_protection_if_enabled();
    while let DoppelgangerRegistration::Register { pubkey, .. } = registration.asked() {
        asked.push(*pubkey);
        registration = store.register_all_step(registration, Ok(WATCHING));
    }
    assert_eq!(*registration.asked(), DoppelgangerRegistration::Done(Ok(())));
    assert_eq!(asked, vec![A, B]);
    assert_eq!(
        store.doppelganger_statuses(),
        vec![DoppelgangerStatus::SigningDisabled(A), DoppelgangerStatus::SigningDisabled(B)]
    );
}

#[test]
fn nothing_is_registered_without_protection() {
    assert_eq!(
        *store(false).register_all_in_doppelganger_protection_if_enabled().asked(),
        DoppelgangerRegistration::Done(Ok(()))
    );
}

#[test]
fn first_failure_ends_registration() {
    let mut store = store(true);
    let failed = || DoppelgangerRegistration::Done(Err("locked".to_string()));
    let registration = store.register_all_in_doppelganger_protection_if_enabled();
    let registration = store.register_all_step(registration, Ok(WATCHING));
    let registration = store.register_all_step(registration, Err("locked".to_string()));
    assert_eq!(*registration.asked(), failed());
    let registration = store.register_all_step(registration, Ok(WATCHING));
    assert_eq!(*registration.asked(), failed());
    assert_eq!(
        store.doppelganger_statuses(),
        vec![DoppelgangerStatus::SigningDisabled(A), DoppelgangerStatus::UnknownToDoppelganger(B)]
    );
}

/// Takes in `definition(true)` of the key `A` up to the point where it is to be added.
fn up_to_adding(store: &mut ValidatorStore) -> Session {
    let session: Session = store.add_validator(definition(true));
    let session = store.add_validator_step(
        session,
        AddValidatorEvent::SlashingProtectionRegistered(Ok(())),
    );
    store.add_validator_step(session, AddValidatorEvent::DoppelgangerRegistered(Ok(WATCHING)))
}

#[test]
fn validator_is_protected_before_it_is_added() {
    let mut store = store(true);
    let session: Session = store.add_validator(definition(true));
    assert_eq!(*session.asked(), AddValidator::RegisterSlashingProtection(definition(true)));
    let session = store.add_validator_step(
        session,
        AddValidatorEvent::SlashingProtectionRegistered(Ok(())),
    );
    assert_eq!(*session.asked(), AddValidator::RegisterDoppelganger(definition(true)));
    let session =
        store.add_validator_step(session, AddValidatorEvent::DoppelgangerRegistered(Ok(WATCHING)));
    assert_eq!(*session.asked(), AddValidator::AddDefinition(definition(true)));
    assert!(!store.doppelganger_protection_allows_signing(A));
    let session =
        store.add_validator_step(session, AddValidatorEvent::DefinitionAdded(Ok(enabled(&[A]))));
    assert_eq!(*session.asked(), AddValidator::Done(Ok(definition(true))));
    assert!(store.has_validator(&A));
    assert!(!store.has_validator(&B));
    assert_eq!(
        store.doppelganger_statuses(),
        vec![DoppelgangerStatus::SigningDisabled(A)]
    );
}

#[test]
fn disabled_protection_is_skipped() {
    let mut store = store(false);
    let session: Session = store.add_validator(definition(false));
    let session = store.add_validator_step(
        session,
        AddValidatorEvent::SlashingProtectionRegistered(Ok(())),
    );
    assert_eq!(*session.asked(), AddValidator::AddDefinition(definition(false)));
}

#[test]
fn each_failure_is_told_with_what_failed() {
    let mut store = store(true);
    let session: Session = store.add_validator(definition(true));
    let session = store.add_validator_step(
        session,
        AddValidatorEvent::SlashingProtectionRegistered(Err("locked".to_string())),
    );
    assert_eq!(
        *session.asked(),
        AddValidator::Done(Err("failed to register validator: locked".to_string()))
    );
    let session: Session = store.add_validator(definition(true));
    let session = store.add_validator_step(
        session,
        AddValidatorEvent::SlashingProtectionRegistered(Ok(())),
    );
    let session = store.add_validator_step(
        session,
        AddValidatorEvent::DoppelgangerRegistered(Err("locked".to_string())),
    );
    assert_eq!(*session.asked(), AddValidator::Done(Err("locked".to_string())));
    let session = up_to_adding(&mut store);
    let session = store.add_validator_step(
        session,
        AddValidatorEvent::DefinitionAdded(Err("locked".to_string())),
    );
    assert_eq!(
        *session.asked(),
        AddValidator::Done(Err("Unable to add definition: locked".to_string()))
    );
    assert_eq!(store.num_voting_validators(), 2);
}

#[test]
fn keystore_becomes_definition() {
    let mut store = store(true);
    let settings = || KeystoreSettings {
        voting_keystore_path: "/keys/a.json",
        password_storage: "vault",
        graffiti: None,
        suggested_fee_recipient: None,
        gas_limit: Some(5),
        builder_proposals: Some(true),
        builder_boost_factor: Some(90),
        prefer_builder_proposals: None,
    };
    let start = |store: &ValidatorStore| -> Session {
        store.add_validator_keystore(
            "/keys/a.json",
            "vault",
            false,
            None,
            None,
            Some(5),
            Some(true),
            Some(90),
            None,
        )
    };
    let session = start(&store);
    assert_eq!(
        *session.asked(),
        AddValidator::ReadKeystore { settings: settings(), enable: false }
    );
    let session =
        store.add_validator_step(session, AddValidatorEvent::DefinitionAdded(Ok(enabled(&[]))));
    assert_eq!(
        *session.asked(),
        AddValidator::ReadKeystore { settings: settings(), enable: false }
    );
    assert_eq!(store.num_voting_validators(), 2);
    let session =
        store.add_validator_step(session, AddValidatorEvent::KeystoreRead(Ok(definition(true))));
    assert_eq!(*session.asked(), AddValidator::RegisterSlashingProtection(definition(false)));
    let session = start(&store);
    let session = store.add_validator_step(
        session,
        AddValidatorEvent::KeystoreRead(Err("no such file".to_string())),
    );
    assert_eq!(
        *session.asked(),
        AddValidator::Done(Err(
            "failed to create validator definitions: no such file".to_string()
        ))
    );
}

fn local(dir: &str, pk: u8, sk: u8) -> LocalValidator {
    LocalValidator {
        validator_dir: dir.to_string(),
        voting_keypair: Keypair { pk: PublicKeyBytes([pk; 48]), sk: SecretKey([sk; 32]) },
    }
}

#[test]
fn local_validators_compare_without_secret_keys() {
    assert!(local("a", 1, 1) == local("a", 1, 2));
    assert!(local("a", 1, 1) != local("b", 1, 1));
    assert!(local("a", 1, 1) != local("a", 2, 1));
}

#[test]
fn pubkey_map_keeps_first_place() {
    let mut map: PubkeyMap<u8> = PubkeyMap::new();
    assert_eq!(map.len(), 0);
    map.insert(B, 1);
    map.insert(A, 2);
    map.insert(B, 3);
    assert_eq!(map.len(), 2);
    assert_eq!(map.to_keys(), vec![B, A]);
    assert_eq!(map.get(&B), Some(&3));
    assert_eq!(map.get(&PublicKeyBytes([7; 48])), None);
    map.remove(&B);
    map.remove(&PublicKeyBytes([7; 48]));
    assert_eq!(map.to_keys(), vec![A]);
    assert_eq!(map.get(&A), Some(&2));
    assert_eq!(map.get(&B), None);
}

#[test]
fn keys_differ_in_any_byte() {
    let mut bytes = [1; 48];
    bytes[47] = 2;
    assert!(A == PublicKeyBytes([1; 48]));
    assert!(A != PublicKeyBytes(bytes));
}
