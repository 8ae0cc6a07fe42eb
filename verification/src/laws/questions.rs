//! What the signing of blocks and attestations asks for, question by question.

use vstd::prelude::*;

use crate::chain_spec::Domain;
use crate::error::{Error, NotSafe, Safe};
use crate::laws::chain::{lemma_context, lemma_epoch_holds_slot};
use crate::laws::plain::{commits_to, is_safe, lies_in};
use crate::messages::{AttestationData, BeaconBlock};
use crate::pending::Pending;
use crate::primitives::{Epoch, PublicKeyBytes, Slot};
use crate::store::sessions::{AttestationSigning, BlockSigning, SigningEvent};
use crate::store::signing::{Counter, Label, Metric, SigningDomain};
use crate::store::ValidatorStore;

verus! {

/// The signing of a block starts with the question whether this very block of this key may be
/// proposed, under the domain of the epoch that its slot lies in. A block that lies ahead of the
/// current slot is refused instead.
pub proof fn law_signing_starts_with_the_block<P, X>(
    store: ValidatorStore,
    pubkey: PublicKeyBytes,
    block: BeaconBlock<P>,
    current_slot: Slot,
    epoch: Epoch,
    session: Pending<BlockSigning<P, X>>,
)
    requires
        store@.wf(),
        lies_in(block.slot, epoch, store@.slots_per_epoch),
        call_ensures(
            ValidatorStore::sign_block::<P, X>,
            (&store, pubkey, block, current_slot),
            session,
        ),
    ensures
        block.slot.0 > current_slot.0 ==> session@ == BlockSigning::<P, X>::Done(
            Err(Error::GreaterThanCurrentSlot { slot: block.slot, current_slot }),
        ),
        block.slot.0 <= current_slot.0 ==> {
            &&& session@ matches BlockSigning::CheckProposal {
                validator_pubkey,
                block: asked,
                context,
            }
            &&& validator_pubkey == pubkey
            &&& asked == block
            &&& commits_to(store@, context, Domain::BeaconProposer, epoch)
        },
{
    lemma_epoch_holds_slot(block.slot, epoch, store@.slots_per_epoch);
    lemma_context(store@, Domain::BeaconProposer, epoch);
}

/// What each answer makes of the signing of a block, and what it counts.
pub proof fn law_each_answer_on_a_block<P, X>(
    store: ValidatorStore,
    session: Pending<BlockSigning<P, X>>,
    event: SigningEvent<X>,
    next: (Pending<BlockSigning<P, X>>, Option<Metric>),
)
    requires
        call_ensures(ValidatorStore::sign_block_step::<P, X>, (&store, session, event), next),
    ensures
        match (session@, event) {
            (
                BlockSigning::CheckProposal { validator_pubkey, block, context },
                SigningEvent::SlashingStatus(status),
            ) => {
                let label = match status {
                    Ok(Safe::Valid) => Label::Success,
                    Ok(Safe::SameData) => Label::SameData,
                    Err(NotSafe::UnregisteredValidator(_)) => Label::Unregistered,
                    Err(NotSafe::Refused(_)) => Label::Slashable,
                };
                &&& next.1 == Some(Metric { counter: Counter::SignedBlocks, label })
                &&& status matches Ok(Safe::SameData) ==> next.0@ == BlockSigning::<P, X>::Done(
                    Err(Error::SameData),
                )
                &&& status matches Err(reason) ==> next.0@ == BlockSigning::<P, X>::Done(
                    Err(Error::Slashable(reason)),
                )
                &&& status matches Ok(Safe::Valid) ==> if !is_safe(store@, validator_pubkey) {
                    next.0@ == BlockSigning::<P, X>::Done(
                        Err(Error::DoppelgangerProtected(validator_pubkey)),
                    )
                } else if !store@.validators.contains_key(validator_pubkey) {
                    next.0@ == BlockSigning::<P, X>::Done(
                        Err(Error::UnknownPubkey(validator_pubkey)),
                    )
                } else {
                    &&& next.0@ matches BlockSigning::Sign(request)
                    &&& request.method == store@.validators[validator_pubkey].signing_method
                    &&& request.domain == SigningDomain::Context(context)
                    &&& request.message == block
                }
            },
            (BlockSigning::Sign(request), SigningEvent::Signed(signed)) => {
                &&& next.1 is None
                &&& signed matches Err(e) ==> next.0@ == BlockSigning::<P, X>::Done(
                    Err(Error::UnableToSign(e)),
                )
                &&& signed matches Ok(signature) ==> {
                    &&& next.0@ matches BlockSigning::Done(Ok(block))
                    &&& block.message == request.message
                    &&& block.signature == signature
                }
            },
            _ => next.0@ == session@ && next.1 is None,
        },
{
}

/// What the database is asked to check and record is what is signed: the same block, under the same
/// domain, and the block that was given.
pub proof fn law_what_is_recorded_is_what_is_signed<P, X>(
    store: ValidatorStore,
    pubkey: PublicKeyBytes,
    block: BeaconBlock<P>,
    current_slot: Slot,
    start: Pending<BlockSigning<P, X>>,
    later: ValidatorStore,
    event: SigningEvent<X>,
    next: (Pending<BlockSigning<P, X>>, Option<Metric>),
)
    requires
        call_ensures(
            ValidatorStore::sign_block::<P, X>,
            (&store, pubkey, block, current_slot),
            start,
        ),
        call_ensures(ValidatorStore::sign_block_step::<P, X>, (&later, start, event), next),
        next.0@ is Sign,
    ensures
        start@ matches BlockSigning::CheckProposal { validator_pubkey, block: recorded, context }
            && next.0@ matches BlockSigning::Sign(request) && {
            &&& recorded == block
            &&& request.message == recorded
            &&& request.domain == SigningDomain::Context(context)
            &&& validator_pubkey == pubkey
            &&& request.method == later@.validators[pubkey].signing_method
        },
{
}

/// The signing of an attestation starts with the question whether this very data may be attested by
/// this key, under the domain of the epoch of its target. One whose target lies ahead of the current
/// epoch is refused instead.
pub proof fn law_signing_starts_with_the_attestation<X>(
    store: ValidatorStore,
    pubkey: PublicKeyBytes,
    position: usize,
    data: AttestationData,
    current_epoch: Epoch,
    session: Pending<AttestationSigning<X>>,
)
    requires
        call_ensures(
            ValidatorStore::sign_attestation::<X>,
            (&store, pubkey, position, data, current_epoch),
            session,
        ),
    ensures
        data.target.epoch.0 > current_epoch.0 ==> session@ == AttestationSigning::<X>::Done(
            Err(Error::GreaterThanCurrentEpoch { epoch: data.target.epoch, current_epoch }),
        ),
        data.target.epoch.0 <= current_epoch.0 ==> {
            &&& session@ matches AttestationSigning::CheckAttestation {
                validator_pubkey,
                validator_committee_position,
                data: asked,
                context,
            }
            &&& validator_pubkey == pubkey
            &&& validator_committee_position == position
            &&& asked == data
            &&& commits_to(store@, context, Domain::BeaconAttester, data.target.epoch)
        },
{
    lemma_context(store@, Domain::BeaconAttester, data.target.epoch);
}

/// What each answer makes of the signing of an attestation, and what it counts.
pub proof fn law_each_answer_on_an_attestation<X>(
    store: ValidatorStore,
    session: Pending<AttestationSigning<X>>,
    event: SigningEvent<X>,
    next: (Pending<AttestationSigning<X>>, Option<Metric>),
)
    requires
        call_ensures(ValidatorStore::sign_attestation_step::<X>, (&store, session, event), next),
    ensures
        match (session@, event) {
            (
                AttestationSigning::CheckAttestation {
                    validator_pubkey,
                    validator_committee_position,
                    data,
                    context,
                },
                SigningEvent::SlashingStatus(status),
            ) => {
                &&& status matches Ok(Safe::SameData) ==> {
                    &&& next.0@ == AttestationSigning::<X>::Done(Err(Error::SameData))
                    &&& next.1 == Some(
                        Metric { counter: Counter::SignedAttestations, label: Label::SameData },
                    )
                }
                &&& status matches Err(NotSafe::UnregisteredValidator(key)) ==> {
                    &&& next.0@ == AttestationSigning::<X>::Done(
                        Err(Error::Slashable(NotSafe::UnregisteredValidator(key))),
                    )
                    &&& next.1 == Some(
                        Metric { counter: Counter::SignedAttestations, label: Label::Unregistered },
                    )
                }
                &&& status matches Err(NotSafe::Refused(reason)) ==> {
                    &&& next.0@ == AttestationSigning::<X>::Done(
                        Err(Error::Slashable(NotSafe::Refused(reason))),
                    )
                    &&& next.1 == Some(
                        Metric { counter: Counter::SignedAttestations, label: Label::Slashable },
                    )
                }
                &&& status matches Ok(Safe::Valid) ==> next.1 is None && if !is_safe(
                    store@,
                    validator_pubkey,
                ) {
                    next.0@ == AttestationSigning::<X>::Done(
                        Err(Error::DoppelgangerProtected(validator_pubkey)),
                    )
                } else if !store@.validators.contains_key(validator_pubkey) {
                    next.0@ == AttestationSigning::<X>::Done(
                        Err(Error::UnknownPubkey(validator_pubkey)),
                    )
                } else {
                    &&& next.0@ matches AttestationSigning::Sign {
                        request,
                        validator_committee_position: position,
                    }
                    &&& request.method == store@.validators[validator_pubkey].signing_method
                    &&& request.domain == SigningDomain::Context(context)
                    &&& request.message == data
                    &&& position == validator_committee_position
                }
            },
            (
                AttestationSigning::Sign { request, validator_committee_position },
                SigningEvent::Signed(signed),
            ) => {
                &&& next.1 is None
                &&& signed matches Err(e) ==> next.0@ == AttestationSigning::<X>::Done(
                    Err(Error::UnableToSign(e)),
                )
                &&& signed matches Ok(made) ==> {
                    &&& next.0@ matches AttestationSigning::AddSignature {
                        signature,
                        validator_committee_position: position,
                    }
                    &&& signature == made
                    &&& position == validator_committee_position
                }
            },
            (
                AttestationSigning::AddSignature { signature, validator_committee_position },
                SigningEvent::SignatureAdded(added),
            ) => {
                &&& added is Ok ==> {
                    &&& next.0@ == AttestationSigning::<X>::Done(Ok(()))
                    &&& next.1 == Some(
                        Metric { counter: Counter::SignedAttestations, label: Label::Success },
                    )
                }
                &&& added matches Err(e) ==> {
                    &&& next.0@ == AttestationSigning::<X>::Done(
                        Err(Error::UnableToSignAttestation(e)),
                    )
                    &&& next.1 is None
                }
            },
            _ => next.0@ == session@ && next.1 is None,
        },
{
}

/// What the database is asked to check and record is what is signed: the same data, under the same
/// domain, and the data that was given. The position is kept.
pub proof fn law_recorded_attestation_is_signed<X>(
    store: ValidatorStore,
    pubkey: PublicKeyBytes,
    position: usize,
    data: AttestationData,
    current_epoch: Epoch,
    start: Pending<AttestationSigning<X>>,
    later: ValidatorStore,
    event: SigningEvent<X>,
    next: (Pending<AttestationSigning<X>>, Option<Metric>),
)
    requires
        call_ensures(
            ValidatorStore::sign_attestation::<X>,
            (&store, pubkey, position, data, current_epoch),
            start,
        ),
        call_ensures(ValidatorStore::sign_attestation_step::<X>, (&later, start, event), next),
        next.0@ is Sign,
    ensures
        start@ matches AttestationSigning::CheckAttestation {
            validator_pubkey,
            data: recorded,
            context,
            ..
        } && next.0@ matches AttestationSigning::Sign { request, validator_committee_position } && {
            &&& recorded == data
            &&& request.message == recorded
            &&& request.domain == SigningDomain::Context(context)
            &&& validator_pubkey == pubkey
            &&& validator_committee_position == position
            &&& request.method == later@.validators[pubkey].signing_method
        },
{
}

} // verus!
