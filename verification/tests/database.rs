use validator_store::chain_spec::{ChainSpec, EthSpec};
use validator_store::doppelganger::{DoppelgangerService, DoppelgangerState};
use validator_store::error::{Error, InterchangeError, NotSafe, Safe, SigningError};
use validator_store::initialized_validators::{
    InitializedValidator, InitializedValidators, SigningMethod,
};
use validator_store::messages::{AttestationData, BeaconBlock, Checkpoint, SignedBeaconBlock};
use validator_store::pending::Pending;
use validator_store::primitives::{Epoch, Hash256, PublicKeyBytes, Signature, Slot};
use validator_store::store::interchange::{KeyExport, KeyExportEvent};
use validator_store::store::pruning::{
    PruneEvent, PrunePlan, Pruning, SLASHING_PROTECTION_HISTORY_EPOCHS,
};
use validator_store::store::sessions::{AttestationSigning, BlockSigning, SigningEvent};
use validator_store::store::{Config, ValidatorStore};

const A: PublicKeyBytes = PublicKeyBytes([1; 48]);
const B: PublicKeyBytes = PublicKeyBytes([2; 48]);
const C: PublicKeyBytes = PublicKeyBytes([3; 48]);

fn validator() -> InitializedValidator {
    InitializedValidator {
        signing_method: SigningMethod(1),
        graffiti: None,
        suggested_fee_recipient: None,
        gas_limit: None,
        builder_proposals: None,
        builder_boost_factor: None,
        prefer_builder_proposals: None,
        index: None,
    }
}

fn store() -> ValidatorStore {
    let mut validators = InitializedValidators::new();
    validators.insert(A, validator());
    validators.insert(B, validator());
    validators.insert(C, validator());
    let mut service = DoppelgangerService::new();
    service.set_state(A, DoppelgangerState { requires_further_checks: false });
    service.set_state(C, DoppelgangerState { requires_further_checks: true });
    let spec = ChainSpec {
        genesis_fork_version: [0; 4],
        altair_fork_version: [1; 4],
        altair_fork_epoch: None,
        bellatrix_fork_version: [2; 4],
        bellatrix_fork_epoch: None,
        capella_fork_version: [3; 4],
        capella_fork_epoch: None,
        deneb_fork_version: [4; 4],
        deneb_fork_epoch: None,
    };
    let config = Config {
        fee_recipient: None,
        gas_limit: None,
        builder_proposals: false,
        produce_block_v3: false,
        prefer_builder_proposals: false,
        builder_boost_factor: None,
    };
    ValidatorStore::new(
        validators,
        Hash256([9; 32]),
        spec,
        EthSpec::new(32),
        Some(service),
        &config,
    )
}

fn refused() -> NotSafe<String> {
    NotSafe::Refused("disk full".to_string())
}

fn prune(store: &mut ValidatorStore, epoch: u64) -> Pruning<String> {
    let session = store.prune_slashing_protection_db::<String>(Epoch(epoch), false);
    let session =
        store.prune_slashing_protection_step(session, PruneEvent::AttestationsPruned(Ok(())));
    store
        .prune_slashing_protection_step(session, PruneEvent::BlocksPruned(Ok(())))
        .into_asked()
}

#[test]
fn history_is_kept_for_512_epochs() {
    assert_eq!(SLASHING_PROTECTION_HISTORY_EPOCHS, 512);
    assert_eq!(
        *store().prune_slashing_protection_db::<String>(Epoch(1000), true).asked(),
        Pruning::PruneAttestations(PrunePlan {
            current_epoch: Epoch(1000),
            first_run: true,
            pubkeys: vec![A, C],
            new_min_target_epoch: Epoch(488),
            new_min_slot: Slot(15616),
        })
    );
}

#[test]
fn first_stretch_is_not_pruned() {
    assert_eq!(*store().prune_slashing_protection_db::<String>(Epoch(0), true).asked(), Pruning::NotDue);
    assert_eq!(*store().prune_slashing_protection_db::<String>(Epoch(511), true).asked(), Pruning::NotDue);
    assert!(matches!(
        store().prune_slashing_protection_db::<String>(Epoch(512), true).asked(),
        Pruning::PruneAttestations(_)
    ));
}

#[test]
fn pruning_is_due_once_per_stretch() {
    let mut store = store();
    assert_eq!(prune(&mut store, 600), Pruning::Completed);
    assert_eq!(prune(&mut store, 600), Pruning::NotDue);
    assert_eq!(prune(&mut store, 1023), Pruning::NotDue);
    assert_eq!(prune(&mut store, 100), Pruning::NotDue);
    assert_eq!(prune(&mut store, 1024), Pruning::Completed);
}

#[test]
fn failed_pruning_stays_due() {
    let mut store = store();
    let session = store.prune_slashing_protection_db::<String>(Epoch(600), false);
    let session = store
        .prune_slashing_protection_step(session, PruneEvent::AttestationsPruned(Err(refused())));
    assert_eq!(*session.asked(), Pruning::AttestationsFailed(refused()));

    let session = store.prune_slashing_protection_db::<String>(Epoch(600), false);
    let session =
        store.prune_slashing_protection_step(session, PruneEvent::AttestationsPruned(Ok(())));
    assert!(matches!(session.asked(), Pruning::PruneBlocks(_)));
    let session =
        store.prune_slashing_protection_step(session, PruneEvent::BlocksPruned(Err(refused())));
    assert_eq!(*session.asked(), Pruning::BlocksFailed(refused()));

    assert_eq!(prune(&mut store, 600), Pruning::Completed);
}

#[test]
fn last_prune_never_goes_back() {
    let mut store = store();
    let earlier = store.prune_slashing_protection_db::<String>(Epoch(1000), false);
    let earlier =
        store.prune_slashing_protection_step(earlier, PruneEvent::AttestationsPruned(Ok(())));
    assert_eq!(prune(&mut store, 2000), Pruning::Completed);
    let earlier = store.prune_slashing_protection_step(earlier, PruneEvent::BlocksPruned(Ok(())));
    assert_eq!(*earlier.asked(), Pruning::Completed);
    assert_eq!(prune(&mut store, 2000), Pruning::NotDue);
    assert_eq!(prune(&mut store, 2047), Pruning::NotDue);
    assert_eq!(prune(&mut store, 2048), Pruning::Completed);
}

#[test]
fn import_is_for_the_chain_of_the_store() {
    let request = store().import_slashing_protection("data");
    assert_eq!(request.asked().interchange, "data");
    assert_eq!(request.asked().genesis_validators_root, Hash256([9; 32]));
    assert_eq!(request.finish::<u8, String>(Ok(3)), Ok(()));
    let failed = || InterchangeError::Failed("wrong chain".to_string());
    let request = store().import_slashing_protection("data");
    assert_eq!(request.finish::<u8, String>(Err(failed())), Err(failed()));
}

#[test]
fn export_leaves_out_unknown_keys() {
    let store = store();
    let mut asked = Vec::new();
    let mut disabled = Vec::new();
    let mut session: Pending<KeyExport<&str, String>> = store.export_slashing_protection_for_keys(&[A, B, C]);
    let result = loop {
        let event = match session.asked() {
            KeyExport::LookUp { pubkey, .. } => {
                asked.push(*pubkey);
                KeyExportEvent::ValidatorId(if *pubkey == B {
                    Err(NotSafe::UnregisteredValidator(B))
                } else {
                    Ok(i64::from(pubkey.0[0]))
                })
            }
            KeyExport::Disable { validator_id, .. } => {
                disabled.push(*validator_id);
                KeyExportEvent::StatusUpdated(Ok(()))
            }
            KeyExport::Export { genesis_validators_root, known_pubkeys } => {
                assert_eq!(*genesis_validators_root, Hash256([9; 32]));
                assert_eq!(*known_pubkeys, vec![A, C]);
                KeyExportEvent::Exported(Ok("exported"))
            }
            KeyExport::Done(_) => break session.into_asked(),
        };
        session = store.export_slashing_protection_step(session, event);
    };
    assert_eq!(result, KeyExport::Done(Ok("exported")));
    assert_eq!(asked, vec![A, B, C]);
    assert_eq!(disabled, vec![1, 3]);
}

#[test]
fn export_of_no_keys_asks_for_none() {
    let session: Pending<KeyExport<u8, String>> = store().export_slashing_protection_for_keys(&[]);
    assert_eq!(
        *session.asked(),
        KeyExport::Export { genesis_validators_root: Hash256([9; 32]), known_pubkeys: vec![] }
    );
}

#[test]
fn failed_disable_ends_export() {
    let store = store();
    let session: Pending<KeyExport<u8, String>> = store.export_slashing_protection_for_keys(&[A, B]);
    let session =
        store.export_slashing_protection_step(session, KeyExportEvent::ValidatorId(Ok(4)));
    let session = store
        .export_slashing_protection_step(session, KeyExportEvent::StatusUpdated(Err(refused())));
    assert_eq!(*session.asked(), KeyExport::Done(Err(InterchangeError::NotSafe(refused()))));
    assert_eq!(InterchangeError::from(refused()), InterchangeError::NotSafe(refused()));
}

#[test]
fn failed_export_is_told() {
    let store = store();
    let failed = || InterchangeError::Failed("cannot serialize".to_string());
    let session: Pending<KeyExport<u8, String>> = store.export_slashing_protection_for_keys(&[]);
    let session =
        store.export_slashing_protection_step(session, KeyExportEvent::Exported(Err(failed())));
    assert_eq!(*session.asked(), KeyExport::Done(Err(failed())));
}

/// A database that remembers which proposals it found valid and which keys are disabled.
struct Memory {
    blocks: Vec<(PublicKeyBytes, BeaconBlock<u32>)>,
    attestations: Vec<(PublicKeyBytes, AttestationData)>,
    disabled: Vec<PublicKeyBytes>,
}

impl Memory {
    fn new() -> Self {
        Memory { blocks: vec![], attestations: vec![], disabled: vec![] }
    }

    fn sign_block(
        &mut self,
        store: &ValidatorStore,
        pubkey: PublicKeyBytes,
        new_block: fn() -> BeaconBlock<u32>,
    ) -> Result<SignedBeaconBlock<u32>, Error<String>> {
        let session = store.sign_block(pubkey, new_block(), Slot(100));
        let block = new_block();
        let status = if self.disabled.contains(&pubkey) {
            Err(refused())
        } else {
            match self.blocks.iter().find(|(key, b)| *key == pubkey && b.slot == block.slot) {
                Some((_, same)) if *same == block => Ok(Safe::SameData),
                Some(_) => Err(refused()),
                None => {
                    self.blocks.push((pubkey, block));
                    Ok(Safe::Valid)
                }
            }
        };
        let (session, _) = store.sign_block_step(session, SigningEvent::SlashingStatus(status));
        let (session, _) =
            store.sign_block_step(session, SigningEvent::Signed(Ok(Signature([8; 96]))));
        match session.into_asked() {
            BlockSigning::Done(result) => result,
            other => panic!("{:?}", other),
        }
    }

    fn sign_attestation(
        &mut self,
        store: &ValidatorStore,
        pubkey: PublicKeyBytes,
        signed: Result<Signature, SigningError<String>>,
    ) -> AttestationSigning<String> {
        let data = AttestationData {
            slot: Slot(3),
            index: 0,
            beacon_block_root: Hash256([3; 32]),
            source: Checkpoint { epoch: Epoch(0), root: Hash256([4; 32]) },
            target: Checkpoint { epoch: Epoch(0), root: Hash256([5; 32]) },
        };
        let session = store.sign_attestation(pubkey, 0, data, Epoch(0));
        let status = if self.attestations.contains(&(pubkey, data)) {
            Ok(Safe::SameData)
        } else {
            self.attestations.push((pubkey, data));
            Ok(Safe::Valid)
        };
        let (session, _) =
            store.sign_attestation_step(session, SigningEvent::SlashingStatus(status));
        let (session, _) = store.sign_attestation_step(session, SigningEvent::Signed(signed));
        session.into_asked()
    }

    fn export(&mut self, store: &ValidatorStore, keys: &[PublicKeyBytes]) -> Vec<PublicKeyBytes> {
        let mut session: Pending<KeyExport<Vec<PublicKeyBytes>, String>> =
            store.export_slashing_protection_for_keys(keys);
        loop {
            let event = match session.asked() {
                KeyExport::LookUp { .. } => KeyExportEvent::ValidatorId(Ok(1)),
                KeyExport::Disable { pubkey, .. } => {
                    self.disabled.push(*pubkey);
                    KeyExportEvent::StatusUpdated(Ok(()))
                }
                KeyExport::Export { known_pubkeys, .. } => {
                    KeyExportEvent::Exported(Ok(known_pubkeys.clone()))
                }
                KeyExport::Done(_) => break,
            };
            session = store.export_slashing_protection_step(session, event);
        }
        match session.into_asked() {
            KeyExport::Done(result) => result.unwrap(),
            other => panic!("{:?}", other),
        }
    }
}

fn block_of(slot: u64, body: u32) -> BeaconBlock<u32> {
    BeaconBlock {
        slot: Slot(slot),
        proposer_index: 4,
        parent_root: Hash256([1; 32]),
        state_root: Hash256([2; 32]),
        body,
    }
}

#[test]
fn slot_gets_one_signed_block() {
    let store = store();
    let mut memory = Memory::new();
    assert!(memory.sign_block(&store, A, || block_of(7, 1)).is_ok());
    assert_eq!(memory.sign_block(&store, A, || block_of(7, 1)), Err(Error::SameData));
    assert_eq!(
        memory.sign_block(&store, A, || block_of(7, 2)),
        Err(Error::Slashable(refused()))
    );
    assert!(memory.sign_block(&store, A, || block_of(8, 2)).is_ok());
}

#[test]
fn attestation_whose_signing_failed_is_not_tried_again() {
    let store = store();
    let mut memory = Memory::new();
    let failed = || SigningError("no route to signer".to_string());
    assert_eq!(
        memory.sign_attestation(&store, A, Err(failed())),
        AttestationSigning::Done(Err(Error::UnableToSign(failed())))
    );
    assert_eq!(
        memory.sign_attestation(&store, A, Ok(Signature([8; 96]))),
        AttestationSigning::Done(Err(Error::SameData))
    );
}

#[test]
fn exported_key_signs_no_more() {
    let store = store();
    let mut memory = Memory::new();
    assert_eq!(memory.export(&store, &[A]), vec![A]);
    assert_eq!(
        memory.sign_block(&store, A, || block_of(7, 1)),
        Err(Error::Slashable(refused()))
    );
}

#[test]
fn repeated_export_is_equal() {
    let store = store();
    let mut memory = Memory::new();
    assert_eq!(memory.export(&store, &[A, C]), vec![A, C]);
    assert_eq!(memory.export(&store, &[A, C]), vec![A, C]);
}
