//! What holds of calls that ask for one signature, and of what they come to.

use vstd::prelude::*;

use crate::chain_spec::Domain;
use crate::error::{Error, SigningError};
use crate::laws::chain::{lemma_context, lemma_epoch_holds_slot};
use crate::laws::plain::{
    answers_under_protection, answers_without_protection, asks_if_ok, asks_to_sign, lies_in,
};
use crate::messages::{
    AggregateAndProof, AggregatorSlot, Attestation, ContributionAndProof, RandaoReveal,
    SelectionProof, SignedAggregateAndProof, SignedContributionAndProof,
    SignedValidatorRegistrationData, SignedVoluntaryExit, SyncAggregatorSelectionData,
    SyncCommitteeContribution, SyncCommitteeMessage, SyncCommitteeSignature, SyncSelectionProof,
    SyncSubnetId, ValidatorRegistrationData, VoluntaryExit,
};
use crate::pending::Pending;
use crate::primitives::{Epoch, Hash256, PublicKeyBytes, Signature, Slot};
use crate::store::signing::{
    Counter, Label, Metric, SigningRequest, SyncCommitteeRequest,
};
use crate::store::ValidatorStore;

verus! {

/// A reveal is asked for under protection, for its own epoch.
pub proof fn law_randao_reveal_asks<X>(
    store: ValidatorStore,
    pubkey: PublicKeyBytes,
    epoch: Epoch,
    asked: Result<Pending<SigningRequest<RandaoReveal>>, Error<X>>,
)
    requires
        call_ensures(ValidatorStore::randao_reveal::<X>, (&store, pubkey, epoch), asked),
    ensures
        answers_under_protection(store@, pubkey, asked),
        asks_if_ok(store@, pubkey, asked, Domain::Randao, epoch, RandaoReveal(epoch)),
{
    lemma_context(store@, Domain::Randao, epoch);
}

/// The signature of an exit is asked for without regard to protection, for the epoch of the exit.
pub proof fn law_voluntary_exit_asks<X>(
    store: ValidatorStore,
    pubkey: PublicKeyBytes,
    exit: VoluntaryExit,
    asked: Result<Pending<SigningRequest<VoluntaryExit>>, Error<X>>,
)
    requires
        call_ensures(ValidatorStore::sign_voluntary_exit::<X>, (&store, pubkey, exit), asked),
    ensures
        answers_without_protection(store@, pubkey, asked),
        asks_if_ok(store@, pubkey, asked, Domain::VoluntaryExit, exit.epoch, exit),
{
    lemma_context(store@, Domain::VoluntaryExit, exit.epoch);
}

/// The signature of a registration is asked for by the method of the key that is registered, under
/// the domain of block builders and without regard to protection.
pub proof fn law_validator_registration_asks<X>(
    store: ValidatorStore,
    data: ValidatorRegistrationData,
    asked: Result<Pending<SigningRequest<ValidatorRegistrationData>>, Error<X>>,
)
    requires
        call_ensures(
            ValidatorStore::sign_validator_registration_data::<X>,
            (&store, data),
            asked,
        ),
    ensures
        answers_without_protection(store@, data.pubkey, asked),
        asked matches Ok(request) ==> {
            &&& request@.method == store@.validators[data.pubkey].signing_method
            &&& request@.domain is Builder
            &&& request@.message == data
        },
{
}

/// The signature of an aggregate is asked for under protection, for the epoch of its target. The
/// message holds the aggregator, the aggregate and the proof that were given.
pub proof fn law_aggregate_asks<X>(
    store: ValidatorStore,
    pubkey: PublicKeyBytes,
    aggregator_index: u64,
    aggregate: Attestation,
    proof_of_selection: SelectionProof,
    asked: Result<Pending<SigningRequest<AggregateAndProof>>, Error<X>>,
)
    requires
        call_ensures(
            ValidatorStore::produce_signed_aggregate_and_proof::<X>,
            (&store, pubkey, aggregator_index, aggregate, proof_of_selection),
            asked,
        ),
    ensures
        answers_under_protection(store@, pubkey, asked),
        asks_if_ok(
            store@,
            pubkey,
            asked,
            Domain::AggregateAndProof,
            aggregate.data.target.epoch,
            AggregateAndProof {
                aggregator_index,
                aggregate,
                selection_proof: proof_of_selection.0,
            },
        ),
{
    lemma_context(store@, Domain::AggregateAndProof, aggregate.data.target.epoch);
}

/// A selection proof is asked for without regard to protection, for the epoch that the slot lies
/// in.
pub proof fn law_selection_proof_asks<X>(
    store: ValidatorStore,
    pubkey: PublicKeyBytes,
    slot: Slot,
    epoch: Epoch,
    asked: Result<Pending<SigningRequest<AggregatorSlot>>, Error<X>>,
)
    requires
        store@.wf(),
        lies_in(slot, epoch, store@.slots_per_epoch),
        call_ensures(ValidatorStore::produce_selection_proof::<X>, (&store, pubkey, slot), asked),
    ensures
        answers_without_protection(store@, pubkey, asked),
        asks_if_ok(store@, pubkey, asked, Domain::SelectionProof, epoch, AggregatorSlot(slot)),
{
    lemma_epoch_holds_slot(slot, epoch, store@.slots_per_epoch);
    lemma_context(store@, Domain::SelectionProof, epoch);
}

/// A sync selection proof is asked for without regard to protection, for the epoch that the slot
/// lies in, and counts as a success exactly if it is asked for.
pub proof fn law_sync_selection_proof_asks<X>(
    store: ValidatorStore,
    pubkey: PublicKeyBytes,
    slot: Slot,
    subnet: SyncSubnetId,
    epoch: Epoch,
    asked: (
        Result<Pending<SigningRequest<SyncAggregatorSelectionData>>, Error<X>>,
        Option<Metric>,
    ),
)
    requires
        store@.wf(),
        lies_in(slot, epoch, store@.slots_per_epoch),
        call_ensures(
            ValidatorStore::produce_sync_selection_proof::<X>,
            (&store, &pubkey, slot, subnet),
            asked,
        ),
    ensures
        answers_without_protection(store@, pubkey, asked.0),
        asks_if_ok(
            store@,
            pubkey,
            asked.0,
            Domain::SyncCommitteeSelectionProof,
            epoch,
            SyncAggregatorSelectionData { slot, subcommittee_index: subnet.0 },
        ),
        asked.0 is Ok ==> asked.1 == Some(
            Metric { counter: Counter::SignedSyncSelectionProofs, label: Label::Success },
        ),
        asked.0 is Err ==> asked.1 is None,
{
    lemma_epoch_holds_slot(slot, epoch, store@.slots_per_epoch);
    lemma_context(store@, Domain::SyncCommitteeSelectionProof, epoch);
}

/// The signature of a sync committee message is asked for without regard to protection, for the
/// epoch that the slot lies in. The index of the validator is kept for the message.
pub proof fn law_sync_committee_signature_asks<X>(
    store: ValidatorStore,
    slot: Slot,
    root: Hash256,
    validator_index: u64,
    pubkey: PublicKeyBytes,
    epoch: Epoch,
    asked: Result<Pending<SyncCommitteeRequest>, Error<X>>,
)
    requires
        store@.wf(),
        lies_in(slot, epoch, store@.slots_per_epoch),
        call_ensures(
            ValidatorStore::produce_sync_committee_signature::<X>,
            (&store, slot, root, validator_index, &pubkey),
            asked,
        ),
    ensures
        answers_without_protection(store@, pubkey, asked),
        asked matches Ok(request) ==> {
            &&& request@.validator_index == validator_index
            &&& asks_to_sign(
                store@,
                pubkey,
                request@.request,
                Domain::SyncCommittee,
                epoch,
                SyncCommitteeSignature { beacon_block_root: root, slot },
            )
        },
{
    lemma_epoch_holds_slot(slot, epoch, store@.slots_per_epoch);
    lemma_context(store@, Domain::SyncCommittee, epoch);
}

/// The signature of a contribution is asked for without regard to protection, for the epoch that
/// its slot lies in. The message holds the aggregator, the contribution and the proof that were
/// given.
pub proof fn law_contribution_asks<X>(
    store: ValidatorStore,
    aggregator_index: u64,
    pubkey: PublicKeyBytes,
    contribution: SyncCommitteeContribution,
    proof_of_selection: SyncSelectionProof,
    epoch: Epoch,
    asked: Result<Pending<SigningRequest<ContributionAndProof>>, Error<X>>,
)
    requires
        store@.wf(),
        lies_in(contribution.slot, epoch, store@.slots_per_epoch),
        call_ensures(
            ValidatorStore::produce_signed_contribution_and_proof::<X>,
            (&store, aggregator_index, pubkey, contribution, proof_of_selection),
            asked,
        ),
    ensures
        answers_without_protection(store@, pubkey, asked),
        asks_if_ok(
            store@,
            pubkey,
            asked,
            Domain::ContributionAndProof,
            epoch,
            ContributionAndProof {
                aggregator_index,
                contribution,
                selection_proof: proof_of_selection.0,
            },
        ),
{
    lemma_epoch_holds_slot(contribution.slot, epoch, store@.slots_per_epoch);
    lemma_context(store@, Domain::ContributionAndProof, epoch);
}

/// A signature that could not be made is told with the signer's reason, and counts for nothing.
pub open spec fn fails_as_told<T, X>(
    signed: Result<Signature, SigningError<X>>,
    done: (Result<T, Error<X>>, Option<Metric>),
) -> bool {
    signed matches Err(e) ==> done.0 == Err::<T, Error<X>>(Error::UnableToSign(e)) && done.1 is None
}

/// A reveal is the signature itself, and is not counted.
pub proof fn law_randao_reveal_is_signature<X>(
    request: Pending<SigningRequest<RandaoReveal>>,
    signed: Result<Signature, SigningError<X>>,
    done: (Result<Signature, Error<X>>, Option<Metric>),
)
    requires
        call_ensures(
            Pending::<SigningRequest<RandaoReveal>>::finish::<X>,
            (request, signed),
            done,
        ),
    ensures
        fails_as_told(signed, done),
        signed matches Ok(signature) ==> done.0 == Ok::<Signature, Error<X>>(signature) && done.1
            is None,
{
}

/// A signed exit holds the exit that was asked for and its signature, and is counted.
pub proof fn law_voluntary_exit_is_signed<X>(
    request: Pending<SigningRequest<VoluntaryExit>>,
    signed: Result<Signature, SigningError<X>>,
    done: (Result<SignedVoluntaryExit, Error<X>>, Option<Metric>),
)
    requires
        call_ensures(
            Pending::<SigningRequest<VoluntaryExit>>::finish::<X>,
            (request, signed),
            done,
        ),
    ensures
        fails_as_told(signed, done),
        signed matches Ok(signature) ==> {
            &&& done.0 matches Ok(exit) && exit.message == request@.message && exit.signature
                == signature
            &&& done.1 == Some(
                Metric { counter: Counter::SignedVoluntaryExits, label: Label::Success },
            )
        },
{
}

/// A signed registration holds the registration that was asked for and its signature, and is
/// counted.
pub proof fn law_validator_registration_is_signed<X>(
    request: Pending<SigningRequest<ValidatorRegistrationData>>,
    signed: Result<Signature, SigningError<X>>,
    done: (Result<SignedValidatorRegistrationData, Error<X>>, Option<Metric>),
)
    requires
        call_ensures(
            Pending::<SigningRequest<ValidatorRegistrationData>>::finish::<X>,
            (request, signed),
            done,
        ),
    ensures
        fails_as_told(signed, done),
        signed matches Ok(signature) ==> {
            &&& done.0 matches Ok(data) && data.message == request@.message && data.signature
                == signature
            &&& done.1 == Some(
                Metric { counter: Counter::SignedValidatorRegistrations, label: Label::Success },
            )
        },
{
}

/// A signed aggregate holds the message that was asked for and its signature, and is counted.
pub proof fn law_aggregate_is_signed<X>(
    request: Pending<SigningRequest<AggregateAndProof>>,
    signed: Result<Signature, SigningError<X>>,
    done: (Result<SignedAggregateAndProof, Error<X>>, Option<Metric>),
)
    requires
        call_ensures(
            Pending::<SigningRequest<AggregateAndProof>>::finish::<X>,
            (request, signed),
            done,
        ),
    ensures
        fails_as_told(signed, done),
        signed matches Ok(signature) ==> {
            &&& done.0 matches Ok(aggregate) && aggregate.message == request@.message
                && aggregate.signature == signature
            &&& done.1 == Some(
                Metric { counter: Counter::SignedAggregates, label: Label::Success },
            )
        },
{
}

/// A selection proof is the signature, and is counted.
pub proof fn law_selection_proof_is_signature<X>(
    request: Pending<SigningRequest<AggregatorSlot>>,
    signed: Result<Signature, SigningError<X>>,
    done: (Result<SelectionProof, Error<X>>, Option<Metric>),
)
    requires
        call_ensures(
            Pending::<SigningRequest<AggregatorSlot>>::finish::<X>,
            (request, signed),
            done,
        ),
    ensures
        fails_as_told(signed, done),
        signed matches Ok(signature) ==> {
            &&& done.0 matches Ok(selected) && selected.0 == signature
            &&& done.1 == Some(
                Metric { counter: Counter::SignedSelectionProofs, label: Label::Success },
            )
        },
{
}

/// A sync selection proof is the signature. It was counted when it was asked for, and is not
/// counted again.
pub proof fn law_sync_selection_proof_is_signature<X>(
    request: Pending<SigningRequest<SyncAggregatorSelectionData>>,
    signed: Result<Signature, SigningError<X>>,
    done: (Result<SyncSelectionProof, Error<X>>, Option<Metric>),
)
    requires
        call_ensures(
            Pending::<SigningRequest<SyncAggregatorSelectionData>>::finish::<X>,
            (request, signed),
            done,
        ),
    ensures
        fails_as_told(signed, done),
        signed matches Ok(signature) ==> {
            &&& done.0 matches Ok(selected) && selected.0 == signature
            &&& done.1 is None
        },
{
}

/// A sync committee message holds the slot, the root and the index that were asked for and the
/// signature, and is counted.
pub proof fn law_sync_committee_message_is_signed<X>(
    request: Pending<SyncCommitteeRequest>,
    signed: Result<Signature, SigningError<X>>,
    done: (Result<SyncCommitteeMessage, Error<X>>, Option<Metric>),
)
    requires
        call_ensures(Pending::<SyncCommitteeRequest>::finish::<X>, (request, signed), done),
    ensures
        fails_as_told(signed, done),
        signed matches Ok(signature) ==> {
            &&& done.0 matches Ok(message) && {
                &&& message.slot == request@.request.message.slot
                &&& message.beacon_block_root == request@.request.message.beacon_block_root
                &&& message.validator_index == request@.validator_index
                &&& message.signature == signature
            }
            &&& done.1 == Some(
                Metric { counter: Counter::SignedSyncCommitteeMessages, label: Label::Success },
            )
        },
{
}

/// A signed contribution holds the message that was asked for and its signature, and is counted.
pub proof fn law_contribution_is_signed<X>(
    request: Pending<SigningRequest<ContributionAndProof>>,
    signed: Result<Signature, SigningError<X>>,
    done: (Result<SignedContributionAndProof, Error<X>>, Option<Metric>),
)
    requires
        call_ensures(
            Pending::<SigningRequest<ContributionAndProof>>::finish::<X>,
            (request, signed),
            done,
        ),
    ensures
        fails_as_told(signed, done),
        signed matches Ok(signature) ==> {
            &&& done.0 matches Ok(contribution) && contribution.message == request@.message
                && contribution.signature == signature
            &&& done.1 == Some(
                Metric {
                    counter: Counter::SignedSyncCommitteeContributions,
                    label: Label::Success,
                },
            )
        },
{
}

} // verus!
