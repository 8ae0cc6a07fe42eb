use validator_store::chain_spec::{ChainSpec, Domain, EthSpec};
use validator_store::doppelganger::{DoppelgangerService, DoppelgangerState};
use validator_store::error::{AttestationError, Error, NotSafe, Safe, SigningError};
use validator_store::initialized_validators::{
    InitializedValidator, InitializedValidators, SigningMethod,
};
use validator_store::messages::{
    AggregatorSlot, Attestation, AttestationData, BeaconBlock, Checkpoint, RandaoReveal,
    SelectionProof, SignedBeaconBlock, SignedVoluntaryExit, SyncAggregatorSelectionData,
    SyncCommitteeContribution, SyncCommitteeMessage, SyncCommitteeSignature, SyncSelectionProof,
    SyncSubnetId, ValidatorRegistrationData, VoluntaryExit,
};
use validator_store::primitives::{Address, Epoch, Hash256, PublicKeyBytes, Signature, Slot};
use validator_store::store::sessions::{AttestationSigning, BlockSigning, SigningEvent};
use validator_store::store::signing::{Counter, Label, Metric, SigningDomain};
use validator_store::store::{Config, ValidatorStore};

const SAFE: PublicKeyBytes = PublicKeyBytes([1; 48]);
const WATCHED: PublicKeyBytes = PublicKeyBytes([2; 48]);
const STRANGER: PublicKeyBytes = PublicKeyBytes([3; 48]);
const SIGNATURE: Signature = Signature([8; 96]);

fn validator(method: u64) -> InitializedValidator {
    InitializedValidator {
        signing_method: SigningMethod(method),
        graffiti: None,
        suggested_fee_recipient: None,
        gas_limit: None,
        builder_proposals: None,
        builder_boost_factor: None,
        prefer_builder_proposals: None,
        index: None,
    }
}

fn store() -> ValidatorStore {
    let mut validators = InitializedValidators::new();
    validators.insert(SAFE, validator(10));
    validators.insert(WATCHED, validator(20));
    let mut service = DoppelgangerService::new();
    service.set_state(SAFE, DoppelgangerState { requires_further_checks: false });
    service.set_state(WATCHED, DoppelgangerState { requires_further_checks: true });
    service.set_state(STRANGER, DoppelgangerState { requires_further_checks: false });
    let spec = ChainSpec {
        genesis_fork_version: [0; 4],
        altair_fork_version: [1; 4],
        altair_fork_epoch: Some(Epoch(2)),
        bellatrix_fork_version: [2; 4],
        bellatrix_fork_epoch: None,
        capella_fork_version: [3; 4],
        capella_fork_epoch: None,
        deneb_fork_version: [4; 4],
        deneb_fork_epoch: None,
    };
    let config = Config {
        fee_recipient: None,
        gas_limit: None,
        builder_proposals: false,
        produce_block_v3: false,
        prefer_builder_proposals: false,
        builder_boost_factor: None,
    };
    ValidatorStore::new(
        validators,
        Hash256([9; 32]),
        spec,
        EthSpec::new(32),
        Some(service),
        &config,
    )
}

fn context(domain: Domain, epoch: u64) -> SigningDomain {
    SigningDomain::Context(store().signing_context(domain, Epoch(epoch)))
}

fn failure() -> SigningError<String> {
    SigningError("no route to signer".to_string())
}

fn success(counter: Counter) -> Option<Metric> {
    Some(Metric { counter, label: Label::Success })
}

fn block(slot: u64) -> BeaconBlock<u32> {
    BeaconBlock {
        slot: Slot(slot),
        proposer_index: 4,
        parent_root: Hash256([1; 32]),
        state_root: Hash256([2; 32]),
        body: 77,
    }
}

fn data(target: u64) -> AttestationData {
    AttestationData {
        slot: Slot(70),
        index: 1,
        beacon_block_root: Hash256([3; 32]),
        source: Checkpoint { epoch: Epoch(1), root: Hash256([4; 32]) },
        target: Checkpoint { epoch: Epoch(target), root: Hash256([5; 32]) },
    }
}

fn refused(reason: &str) -> NotSafe<String> {
    NotSafe::Refused(reason.to_string())
}

#[test]
fn randao_reveal_is_checked() {
    let request = store().randao_reveal::<String>(SAFE, Epoch(3)).unwrap();
    assert_eq!(request.asked().method, SigningMethod(10));
    assert_eq!(request.asked().domain, context(Domain::Randao, 3));
    assert_eq!(request.asked().message, RandaoReveal(Epoch(3)));
    assert_eq!(request.finish::<String>(Ok(SIGNATURE)), (Ok(SIGNATURE), None));

    assert_eq!(
        store().randao_reveal::<String>(WATCHED, Epoch(3)),
        Err(Error::DoppelgangerProtected(WATCHED))
    );
    assert_eq!(store().randao_reveal::<String>(STRANGER, Epoch(3)), Err(Error::UnknownPubkey(STRANGER)));
}

#[test]
fn failed_signature_is_told() {
    let request = store().randao_reveal::<String>(SAFE, Epoch(3)).unwrap();
    assert_eq!(request.finish::<String>(Err(failure())), (Err(Error::UnableToSign(failure())), None));
    let exit = VoluntaryExit { epoch: Epoch(5), validator_index: 6 };
    let request = store().sign_voluntary_exit::<String>(SAFE, exit).unwrap();
    assert_eq!(request.finish::<String>(Err(failure())), (Err(Error::UnableToSign(failure())), None));
    assert_eq!(Error::from(failure()), Error::UnableToSign(failure()));
}

#[test]
fn exits_bypass_protection() {
    let exit = VoluntaryExit { epoch: Epoch(5), validator_index: 6 };
    let request = store().sign_voluntary_exit::<String>(WATCHED, exit).unwrap();
    assert_eq!(request.asked().method, SigningMethod(20));
    assert_eq!(request.asked().domain, context(Domain::VoluntaryExit, 5));
    assert_eq!(
        request.finish::<String>(Ok(SIGNATURE)),
        (
            Ok(SignedVoluntaryExit { message: exit, signature: SIGNATURE }),
            success(Counter::SignedVoluntaryExits)
        )
    );
    assert_eq!(
        store().sign_voluntary_exit::<String>(STRANGER, exit),
        Err(Error::UnknownPubkey(STRANGER))
    );
}

#[test]
fn registrations_are_for_builders() {
    let registration = ValidatorRegistrationData {
        fee_recipient: Address([1; 20]),
        gas_limit: 30_000_000,
        timestamp: 1,
        pubkey: WATCHED,
    };
    let request = store().sign_validator_registration_data::<String>(registration).unwrap();
    assert_eq!(request.asked().method, SigningMethod(20));
    assert_eq!(request.asked().domain, SigningDomain::Builder);
    let (signed, metric) = request.finish::<String>(Ok(SIGNATURE));
    let signed = signed.unwrap();
    assert_eq!(signed.message, registration);
    assert_eq!(signed.signature, SIGNATURE);
    assert_eq!(metric, success(Counter::SignedValidatorRegistrations));

    let stranger = ValidatorRegistrationData { pubkey: STRANGER, ..registration };
    assert_eq!(
        store().sign_validator_registration_data::<String>(stranger),
        Err(Error::UnknownPubkey(STRANGER))
    );
}

fn aggregate() -> Attestation {
    Attestation { aggregation_bits: vec![1, 0], data: data(3), signature: Signature([6; 96]) }
}

#[test]
fn aggregates_are_checked() {
    let proof = SelectionProof(Signature([7; 96]));
    let request = store()
        .produce_signed_aggregate_and_proof::<String>(SAFE, 11, aggregate(), proof)
        .unwrap();
    assert_eq!(request.asked().method, SigningMethod(10));
    assert_eq!(request.asked().domain, context(Domain::AggregateAndProof, 3));
    let (signed, metric) = request.finish::<String>(Ok(SIGNATURE));
    let signed = signed.unwrap();
    assert_eq!(signed.message.aggregator_index, 11);
    assert_eq!(signed.message.aggregate, aggregate());
    assert_eq!(signed.message.selection_proof, Signature([7; 96]));
    assert_eq!(signed.signature, SIGNATURE);
    assert_eq!(metric, success(Counter::SignedAggregates));

    assert_eq!(
        store().produce_signed_aggregate_and_proof::<String>(WATCHED, 11, aggregate(), proof),
        Err(Error::DoppelgangerProtected(WATCHED))
    );
}

#[test]
fn selection_proofs_bypass_protection() {
    let request = store().produce_selection_proof::<String>(WATCHED, Slot(95)).unwrap();
    assert_eq!(request.asked().domain, context(Domain::SelectionProof, 2));
    assert_eq!(request.asked().message, AggregatorSlot(Slot(95)));
    assert_eq!(
        request.finish::<String>(Ok(SIGNATURE)),
        (Ok(SelectionProof(SIGNATURE)), success(Counter::SignedSelectionProofs))
    );
    assert_eq!(
        store().produce_selection_proof::<String>(STRANGER, Slot(95)),
        Err(Error::UnknownPubkey(STRANGER))
    );
}

#[test]
fn sync_selection_proofs_count_when_asked_for() {
    let (request, metric) =
        store().produce_sync_selection_proof::<String>(&WATCHED, Slot(64), SyncSubnetId(3));
    let request = request.unwrap();
    assert_eq!(metric, success(Counter::SignedSyncSelectionProofs));
    assert_eq!(request.asked().domain, context(Domain::SyncCommitteeSelectionProof, 2));
    assert_eq!(
        request.asked().message,
        SyncAggregatorSelectionData { slot: Slot(64), subcommittee_index: 3 }
    );
    assert_eq!(request.finish::<String>(Ok(SIGNATURE)), (Ok(SyncSelectionProof(SIGNATURE)), None));

    let (request, metric) =
        store().produce_sync_selection_proof::<String>(&STRANGER, Slot(64), SyncSubnetId(3));
    assert_eq!(request, Err(Error::UnknownPubkey(STRANGER)));
    assert_eq!(metric, None);
}

#[test]
fn sync_committee_messages_bypass_protection() {
    let root = Hash256([5; 32]);
    let asked = store()
        .produce_sync_committee_signature::<String>(Slot(31), root, 12, &WATCHED)
        .unwrap();
    assert_eq!(asked.asked().request.method, SigningMethod(20));
    assert_eq!(asked.asked().request.domain, context(Domain::SyncCommittee, 0));
    assert_eq!(
        asked.asked().request.message,
        SyncCommitteeSignature { beacon_block_root: root, slot: Slot(31) }
    );
    assert_eq!(
        asked.finish::<String>(Ok(SIGNATURE)),
        (
            Ok(SyncCommitteeMessage {
                slot: Slot(31),
                beacon_block_root: root,
                validator_index: 12,
                signature: SIGNATURE,
            }),
            success(Counter::SignedSyncCommitteeMessages)
        )
    );
    assert_eq!(
        store().produce_sync_committee_signature::<String>(Slot(31), root, 12, &STRANGER),
        Err(Error::UnknownPubkey(STRANGER))
    );
}

fn contribution() -> SyncCommitteeContribution {
    SyncCommitteeContribution {
        slot: Slot(32),
        beacon_block_root: Hash256([5; 32]),
        subcommittee_index: 2,
        aggregation_bits: vec![3],
        signature: Signature([6; 96]),
    }
}

#[test]
fn contributions_bypass_protection() {
    let proof = SyncSelectionProof(Signature([7; 96]));
    let request = store()
        .produce_signed_contribution_and_proof::<String>(13, WATCHED, contribution(), proof)
        .unwrap();
    assert_eq!(request.asked().domain, context(Domain::ContributionAndProof, 1));
    let (signed, metric) = request.finish::<String>(Ok(SIGNATURE));
    let signed = signed.unwrap();
    assert_eq!(signed.message.aggregator_index, 13);
    assert_eq!(signed.message.contribution, contribution());
    assert_eq!(signed.message.selection_proof, Signature([7; 96]));
    assert_eq!(signed.signature, SIGNATURE);
    assert_eq!(metric, success(Counter::SignedSyncCommitteeContributions));

    assert_eq!(
        store().produce_signed_contribution_and_proof::<String>(13, STRANGER, contribution(), proof),
        Err(Error::UnknownPubkey(STRANGER))
    );
}

#[test]
fn block_is_signed_after_both_checks() {
    let store = store();
    let session = store.sign_block::<u32, String>(SAFE, block(70), Slot(70));
    assert_eq!(
        *session.asked(),
        BlockSigning::CheckProposal {
            validator_pubkey: SAFE,
            block: block(70),
            context: store.signing_context(Domain::BeaconProposer, Epoch(2)),
        }
    );
    let (session, metric) =
        store.sign_block_step(session, SigningEvent::SlashingStatus(Ok(Safe::Valid)));
    assert_eq!(metric, success(Counter::SignedBlocks));
    match session.asked() {
        BlockSigning::Sign(request) => {
            assert_eq!(request.method, SigningMethod(10));
            assert_eq!(request.domain, context(Domain::BeaconProposer, 2));
            assert_eq!(request.message, block(70));
        }
        other => panic!("{:?}", other),
    }
    let (session, metric) = store.sign_block_step(session, SigningEvent::Signed(Ok(SIGNATURE)));
    assert_eq!(metric, None);
    let signed = SignedBeaconBlock { message: block(70), signature: SIGNATURE };
    assert_eq!(*session.asked(), BlockSigning::Done(Ok(signed)));
}

#[test]
fn block_ahead_of_current_slot_is_refused() {
    assert_eq!(
        *store().sign_block::<u32, String>(SAFE, block(71), Slot(70)).asked(),
        BlockSigning::Done(Err(Error::GreaterThanCurrentSlot {
            slot: Slot(71),
            current_slot: Slot(70)
        }))
    );
}

#[test]
fn refused_block_is_not_signed() {
    let cases = vec![
        (Ok(Safe::SameData), Error::SameData, Label::SameData),
        (
            Err(NotSafe::UnregisteredValidator(SAFE)),
            Error::Slashable(NotSafe::UnregisteredValidator(SAFE)),
            Label::Unregistered,
        ),
        (
            Err(refused("double proposal")),
            Error::Slashable(refused("double proposal")),
            Label::Slashable,
        ),
    ];
    for (status, error, label) in cases {
        let store = store();
        let session = store.sign_block::<u32, String>(SAFE, block(70), Slot(70));
        let (session, metric) =
            store.sign_block_step(session, SigningEvent::SlashingStatus(status));
        assert_eq!(*session.asked(), BlockSigning::Done(Err(error)));
        assert_eq!(metric, Some(Metric { counter: Counter::SignedBlocks, label }));
        let (session, metric) =
            store.sign_block_step(session, SigningEvent::Signed(Ok(SIGNATURE)));
        assert!(matches!(session.asked(), BlockSigning::Done(Err(_))));
        assert_eq!(metric, None);
    }
}

#[test]
fn valid_block_of_protected_key_is_not_signed() {
    for (pubkey, error) in [
        (WATCHED, Error::DoppelgangerProtected(WATCHED)),
        (STRANGER, Error::UnknownPubkey(STRANGER)),
    ] {
        let store = store();
        let session = store.sign_block::<u32, String>(pubkey, block(70), Slot(70));
        let (session, metric) =
            store.sign_block_step(session, SigningEvent::SlashingStatus(Ok(Safe::Valid)));
        assert_eq!(*session.asked(), BlockSigning::Done(Err(error)));
        assert_eq!(metric, success(Counter::SignedBlocks));
    }
}

#[test]
fn block_signature_may_fail() {
    let store = store();
    let session = store.sign_block::<u32, String>(SAFE, block(70), Slot(80));
    let (session, _) =
        store.sign_block_step(session, SigningEvent::SlashingStatus(Ok(Safe::Valid)));
    let (session, metric) = store.sign_block_step(session, SigningEvent::Signed(Err(failure())));
    assert_eq!(*session.asked(), BlockSigning::Done(Err(Error::UnableToSign(failure()))));
    assert_eq!(metric, None);
}

#[test]
fn unasked_answers_change_nothing() {
    let store = store();
    let session = store.sign_block::<u32, String>(SAFE, block(70), Slot(70));
    let (session, metric) = store.sign_block_step(session, SigningEvent::Signed(Ok(SIGNATURE)));
    assert!(matches!(session.asked(), BlockSigning::CheckProposal { .. }));
    assert_eq!(metric, None);
    let session = store.sign_attestation::<String>(SAFE, 3, data(2), Epoch(2));
    let (session, metric) =
        store.sign_attestation_step(session, SigningEvent::SignatureAdded(Ok(())));
    assert!(matches!(session.asked(), AttestationSigning::CheckAttestation { .. }));
    assert_eq!(metric, None);
}

#[test]
fn attestation_is_signed_after_both_checks() {
    let store = store();
    let session = store.sign_attestation::<String>(SAFE, 3, data(2), Epoch(2));
    assert_eq!(
        *session.asked(),
        AttestationSigning::CheckAttestation {
            validator_pubkey: SAFE,
            validator_committee_position: 3,
            data: data(2),
            context: store.signing_context(Domain::BeaconAttester, Epoch(2)),
        }
    );
    let (session, metric) =
        store.sign_attestation_step(session, SigningEvent::SlashingStatus(Ok(Safe::Valid)));
    assert_eq!(metric, None);
    match session.asked() {
        AttestationSigning::Sign { request, validator_committee_position } => {
            assert_eq!(request.method, SigningMethod(10));
            assert_eq!(request.domain, context(Domain::BeaconAttester, 2));
            assert_eq!(request.message, data(2));
            assert_eq!(*validator_committee_position, 3);
        }
        other => panic!("{:?}", other),
    }
    let (session, metric) =
        store.sign_attestation_step(session, SigningEvent::Signed(Ok(SIGNATURE)));
    assert_eq!(metric, None);
    assert_eq!(
        *session.asked(),
        AttestationSigning::AddSignature {
            signature: SIGNATURE,
            validator_committee_position: 3
        }
    );
    let (session, metric) =
        store.sign_attestation_step(session, SigningEvent::SignatureAdded(Ok(())));
    assert_eq!(*session.asked(), AttestationSigning::Done(Ok(())));
    assert_eq!(metric, success(Counter::SignedAttestations));
}

#[test]
fn attestation_ahead_of_current_epoch_is_refused() {
    assert_eq!(
        *store().sign_attestation::<String>(SAFE, 3, data(3), Epoch(2)).asked(),
        AttestationSigning::Done(Err(Error::GreaterThanCurrentEpoch {
            epoch: Epoch(3),
            current_epoch: Epoch(2)
        }))
    );
}

#[test]
fn refused_attestation_is_not_signed() {
    let cases = vec![
        (Ok(Safe::SameData), Error::SameData, Label::SameData),
        (
            Err(NotSafe::UnregisteredValidator(SAFE)),
            Error::Slashable(NotSafe::UnregisteredValidator(SAFE)),
            Label::Unregistered,
        ),
        (
            Err(refused("surround vote")),
            Error::Slashable(refused("surround vote")),
            Label::Slashable,
        ),
    ];
    for (status, error, label) in cases {
        let store = store();
        let session = store.sign_attestation::<String>(SAFE, 3, data(2), Epoch(2));
        let (session, metric) =
            store.sign_attestation_step(session, SigningEvent::SlashingStatus(status));
        assert_eq!(*session.asked(), AttestationSigning::Done(Err(error)));
        assert_eq!(metric, Some(Metric { counter: Counter::SignedAttestations, label }));
        let (session, metric) =
            store.sign_attestation_step(session, SigningEvent::SlashingStatus(Ok(Safe::Valid)));
        assert!(matches!(session.asked(), AttestationSigning::Done(Err(_))));
        assert_eq!(metric, None);
    }
}

#[test]
fn valid_attestation_of_protected_key_is_not_signed() {
    let store = store();
    let session = store.sign_attestation::<String>(WATCHED, 3, data(2), Epoch(2));
    let (session, metric) =
        store.sign_attestation_step(session, SigningEvent::SlashingStatus(Ok(Safe::Valid)));
    assert_eq!(
        *session.asked(),
        AttestationSigning::Done(Err(Error::DoppelgangerProtected(WATCHED)))
    );
    assert_eq!(metric, None);
}

#[test]
fn attestation_may_fail_late() {
    let store = store();
    let session = store.sign_attestation::<String>(SAFE, 3, data(2), Epoch(2));
    let (session, _) =
        store.sign_attestation_step(session, SigningEvent::SlashingStatus(Ok(Safe::Valid)));
    let (session, _) = store.sign_attestation_step(session, SigningEvent::Signed(Ok(SIGNATURE)));
    let error = || AttestationError("already signed".to_string());
    let (session, metric) =
        store.sign_attestation_step(session, SigningEvent::SignatureAdded(Err(error())));
    assert_eq!(
        *session.asked(),
        AttestationSigning::Done(Err(Error::UnableToSignAttestation(error())))
    );
    assert_eq!(metric, None);

    let session = store.sign_attestation::<String>(SAFE, 3, data(2), Epoch(2));
    let (session, _) =
        store.sign_attestation_step(session, SigningEvent::SlashingStatus(Ok(Safe::Valid)));
    let (session, metric) =
        store.sign_attestation_step(session, SigningEvent::Signed(Err(failure())));
    assert_eq!(*session.asked(), AttestationSigning::Done(Err(Error::UnableToSign(failure()))));
    assert_eq!(metric, None);
}
