//! How blocks and attestations come to be signed.
//!
//! Both can be slashed. So the slashing protection database is asked first, and a signature is
//! asked for only after it has found the message safe. A session stands for what is asked next;
//! each answer is an event that takes it one step on.

use vstd::prelude::*;

use crate::chain_spec::{Domain, SigningContext};
use crate::error::{AttestationError, Error, NotSafe, Safe, SigningError};
use crate::messages::{AttestationData, BeaconBlock, SignedBeaconBlock};
use crate::pending::Pending;
use crate::primitives::{epoch_of, Epoch, PublicKeyBytes, Signature, Slot};
use crate::store::signing::{
    request, success, Counter, Label, Metric, SigningDomain, SigningRequest,
};
use crate::store::{StoreView, ValidatorStore};

verus! {

/// An answer to what a session asks for.
#[derive(Debug, PartialEq, Eq)]
pub enum SigningEvent<X> {
    /// What the slashing protection database says of the message, which it has recorded if it
    /// found it valid.
    SlashingStatus(Result<Safe, NotSafe<X>>),
    /// The signature, or why there is none.
    Signed(Result<Signature, SigningError<X>>),
    /// Whether the signature could be added to the attestation.
    SignatureAdded(Result<(), AttestationError<X>>),
}

/// The signing of a block.
#[derive(Debug, PartialEq, Eq)]
pub enum BlockSigning<P, X> {
    /// The slashing protection database is asked to check and record the proposal, under the
    /// domain of `context`.
    CheckProposal {
        validator_pubkey: PublicKeyBytes,
        block: BeaconBlock<P>,
        context: SigningContext,
    },
    /// The signature is asked for.
    Sign(SigningRequest<BeaconBlock<P>>),
    /// Nothing is asked for any more.
    Done(Result<SignedBeaconBlock<P>, Error<X>>),
}

/// The signing of an attestation.
#[derive(Debug, PartialEq, Eq)]
pub enum AttestationSigning<X> {
    /// The slashing protection database is asked to check and record the attestation, under the
    /// domain of `context`.
    CheckAttestation {
        validator_pubkey: PublicKeyBytes,
        validator_committee_position: usize,
        data: AttestationData,
        context: SigningContext,
    },
    /// The signature is asked for.
    Sign { request: SigningRequest<AttestationData>, validator_committee_position: usize },
    /// The signature is to be added to the attestation.
    AddSignature { signature: Signature, validator_committee_position: usize },
    /// Nothing is asked for any more.
    Done(Result<(), Error<X>>),
}

/// Why a message of this status is not signed and how that counts, unless it may be signed.
pub open spec fn refusal<X>(status: Result<Safe, NotSafe<X>>) -> Option<(Error<X>, Label)> {
    match status {
        Ok(Safe::Valid) => None,
        Ok(Safe::SameData) => Some((Error::SameData, Label::SameData)),
        Err(NotSafe::UnregisteredValidator(pubkey)) => Some(
            (Error::Slashable(NotSafe::UnregisteredValidator(pubkey)), Label::Unregistered),
        ),
        Err(reason) => Some((Error::Slashable(reason), Label::Slashable)),
    }
}

impl StoreView {
    /// Where the signing of `block` starts.
    pub open spec fn block_start<P, X>(
        self,
        validator_pubkey: PublicKeyBytes,
        block: BeaconBlock<P>,
        current_slot: Slot,
    ) -> BlockSigning<P, X> {
        if block.slot.0 > current_slot.0 {
            BlockSigning::Done(
                Err(Error::GreaterThanCurrentSlot { slot: block.slot, current_slot }),
            )
        } else {
            BlockSigning::CheckProposal {
                validator_pubkey,
                block,
                context: self.context(
                    Domain::BeaconProposer,
                    epoch_of(block.slot, self.slots_per_epoch),
                ),
            }
        }
    }

    /// Where an event takes the signing of a block, and what it counts. An event that answers
    /// nothing that is asked changes nothing.
    pub open spec fn block_step<P, X>(
        self,
        session: BlockSigning<P, X>,
        event: SigningEvent<X>,
    ) -> (BlockSigning<P, X>, Option<Metric>) {
        match (session, event) {
            (
                BlockSigning::CheckProposal { validator_pubkey, block, context },
                SigningEvent::SlashingStatus(status),
            ) => match refusal(status) {
                Some((error, label)) => (
                    BlockSigning::Done(Err(error)),
                    Some(Metric { counter: Counter::SignedBlocks, label }),
                ),
                None => (
                    match request(
                        self.checked_method(validator_pubkey),
                        SigningDomain::Context(context),
                        block,
                    ) {
                        Ok(request) => BlockSigning::Sign(request),
                        Err(e) => BlockSigning::Done(Err(e)),
                    },
                    Some(success(Counter::SignedBlocks)),
                ),
            },
            (BlockSigning::Sign(request), SigningEvent::Signed(signed)) => (
                BlockSigning::Done(
                    match signed {
                        Ok(signature) => Ok(
                            SignedBeaconBlock { message: request.message, signature },
                        ),
                        Err(e) => Err(Error::UnableToSign(e)),
                    },
                ),
                None,
            ),
            (session, _) => (session, None),
        }
    }

    /// Where the signing of an attestation starts.
    pub open spec fn attestation_start<X>(
        self,
        validator_pubkey: PublicKeyBytes,
        validator_committee_position: usize,
        data: AttestationData,
        current_epoch: Epoch,
    ) -> AttestationSigning<X> {
        if data.target.epoch.0 > current_epoch.0 {
            AttestationSigning::Done(
                Err(Error::GreaterThanCurrentEpoch { epoch: data.target.epoch, current_epoch }),
            )
        } else {
            AttestationSigning::CheckAttestation {
                validator_pubkey,
                validator_committee_position,
                data,
                context: self.context(Domain::BeaconAttester, data.target.epoch),
            }
        }
    }

    /// Where an event takes the signing of an attestation, and what it counts. An event that
    /// answers nothing that is asked changes nothing.
    pub open spec fn attestation_step<X>(
        self,
        session: AttestationSigning<X>,
        event: SigningEvent<X>,
    ) -> (AttestationSigning<X>, Option<Metric>) {
        match (session, event) {
            (
                AttestationSigning::CheckAttestation {
                    validator_pubkey,
                    validator_committee_position,
                    data,
                    context,
                },
                SigningEvent::SlashingStatus(status),
            ) => match refusal(status) {
                Some((error, label)) => (
                    AttestationSigning::Done(Err(error)),
                    Some(Metric { counter: Counter::SignedAttestations, label }),
                ),
                None => (
                    match request(
                        self.checked_method(validator_pubkey),
                        SigningDomain::Context(context),
                        data,
                    ) {
                        Ok(request) => AttestationSigning::Sign {
                            request,
                            validator_committee_position,
                        },
                        Err(e) => AttestationSigning::Done(Err(e)),
                    },
                    None,
                ),
            },
            (
                AttestationSigning::Sign { request, validator_committee_position },
                SigningEvent::Signed(signed),
            ) => (
                match signed {
                    Ok(signature) => AttestationSigning::AddSignature {
                        signature,
                        validator_committee_position,
                    },
                    Err(e) => AttestationSigning::Done(Err(Error::UnableToSign(e))),
                },
                None,
            ),
            (
                AttestationSigning::AddSignature { signature, validator_committee_position },
                SigningEvent::SignatureAdded(added),
            ) => match added {
                Ok(()) => (
                    AttestationSigning::Done(Ok(())),
                    Some(success(Counter::SignedAttestations)),
                ),
                Err(e) => (
                    AttestationSigning::Done(Err(Error::UnableToSignAttestation(e))),
                    None,
                ),
            },
            (session, _) => (session, None),
        }
    }
}

/// Why a message of this status is not signed and how that counts, unless it may be signed.
fn refuse<X>(status: Result<Safe, NotSafe<X>>) -> (refused: Option<(Error<X>, Label)>)
    ensures
        refused == refusal(status),
{
    match status {
        // The message can be signed without slashing.
        Ok(Safe::Valid) => None,
        Ok(Safe::SameData) => Some((Error::SameData, Label::SameData)),
        Err(NotSafe::UnregisteredValidator(pubkey)) => Some(
            (Error::Slashable(NotSafe::UnregisteredValidator(pubkey)), Label::Unregistered),
        ),
        Err(reason) => Some((Error::Slashable(reason), Label::Slashable)),
    }
}

impl ValidatorStore {
    /// Starts to sign `block`. A block that lies ahead of the current slot is refused.
    pub fn sign_block<P, X>(
        &self,
        validator_pubkey: PublicKeyBytes,
        block: BeaconBlock<P>,
        current_slot: Slot,
    ) -> (session: Pending<BlockSigning<P, X>>)
        ensures
            session@ == self@.block_start::<P, X>(validator_pubkey, block, current_slot),
    {
        // Make sure the block slot is not higher than the current slot to avoid potential attacks.
        if block.slot.0 > current_slot.0 {
            return Pending::new(
                BlockSigning::Done(
                    Err(Error::GreaterThanCurrentSlot { slot: block.slot, current_slot }),
                ),
            );
        }
        let signing_epoch = block.slot.epoch(self.eth_spec.slots_per_epoch());
        let context = self.signing_context(Domain::BeaconProposer, signing_epoch);
        Pending::new(BlockSigning::CheckProposal { validator_pubkey, block, context })
    }

    /// Takes the signing of a block one step on, and says what that counts.
    pub fn sign_block_step<P, X>(
        &self,
        session: Pending<BlockSigning<P, X>>,
        event: SigningEvent<X>,
    ) -> (next: (Pending<BlockSigning<P, X>>, Option<Metric>))
        ensures
            (next.0@, next.1) == self@.block_step(session@, event),
    {
        let (session, metric) = match (session.into_asked(), event) {
            (
                BlockSigning::CheckProposal { validator_pubkey, block, context },
                SigningEvent::SlashingStatus(status),
            ) => match refuse(status) {
                Some((error, label)) => (
                    BlockSigning::Done(Err(error)),
                    Some(Metric { counter: Counter::SignedBlocks, label }),
                ),
                None => {
                    let metric = Metric { counter: Counter::SignedBlocks, label: Label::Success };
                    let domain = SigningDomain::Context(context);
                    match self.doppelganger_checked_signing_method(validator_pubkey) {
                        Ok(method) => (
                            BlockSigning::Sign(SigningRequest { method, domain, message: block }),
                            Some(metric),
                        ),
                        Err(e) => (BlockSigning::Done(Err(e)), Some(metric)),
                    }
                },
            },
            (BlockSigning::Sign(request), SigningEvent::Signed(signed)) => match signed {
                Ok(signature) => (
                    BlockSigning::Done(
                        Ok(SignedBeaconBlock { message: request.message, signature }),
                    ),
                    None,
                ),
                Err(e) => (BlockSigning::Done(Err(Error::from(e))), None),
            },
            (session, _) => (session, None),
        };
        (Pending::new(session), metric)
    }

    /// Starts to sign an attestation. One whose target lies ahead of the current epoch is refused.
    pub fn sign_attestation<X>(
        &self,
        validator_pubkey: PublicKeyBytes,
        validator_committee_position: usize,
        data: AttestationData,
        current_epoch: Epoch,
    ) -> (session: Pending<AttestationSigning<X>>)
        ensures
            session@ == self@.attestation_start::<X>(
                validator_pubkey,
                validator_committee_position,
                data,
                current_epoch,
            ),
    {
        // Make sure the target epoch is not higher than the current epoch to avoid potential
        // attacks.
        if data.target.epoch.0 > current_epoch.0 {
            return Pending::new(
                AttestationSigning::Done(
                    Err(Error::GreaterThanCurrentEpoch { epoch: data.target.epoch, current_epoch }),
                ),
            );
        }
        let context = self.signing_context(Domain::BeaconAttester, data.target.epoch);
        Pending::new(
            AttestationSigning::CheckAttestation {
                validator_pubkey,
                validator_committee_position,
                data,
                context,
            },
        )
    }

    /// Takes the signing of an attestation one step on, and says what that counts.
    pub fn sign_attestation_step<X>(
        &self,
        session: Pending<AttestationSigning<X>>,
        event: SigningEvent<X>,
    ) -> (next: (Pending<AttestationSigning<X>>, Option<Metric>))
        ensures
            (next.0@, next.1) == self@.attestation_step(session@, event),
    {
        let (session, metric) = match (session.into_asked(), event) {
            (
                AttestationSigning::CheckAttestation {
                    validator_pubkey,
                    validator_committee_position,
                    data,
                    context,
                },
                SigningEvent::SlashingStatus(status),
            ) => match refuse(status) {
                Some((error, label)) => (
                    AttestationSigning::Done(Err(error)),
                    Some(Metric { counter: Counter::SignedAttestations, label }),
                ),
                None => {
                    let domain = SigningDomain::Context(context);
                    match self.doppelganger_checked_signing_method(validator_pubkey) {
                        Ok(method) => (
                            AttestationSigning::Sign {
                                request: SigningRequest { method, domain, message: data },
                                validator_committee_position,
                            },
                            None,
                        ),
                        Err(e) => (AttestationSigning::Done(Err(e)), None),
                    }
                },
            },
            (
                AttestationSigning::Sign { request: _, validator_committee_position },
                SigningEvent::Signed(signed),
            ) => match signed {
                Ok(signature) => (
                    AttestationSigning::AddSignature { signature, validator_committee_position },
                    None,
                ),
                Err(e) => (AttestationSigning::Done(Err(Error::from(e))), None),
            },
            (
                AttestationSigning::AddSignature { signature: _, validator_committee_position: _ },
                SigningEvent::SignatureAdded(added),
            ) => match added {
                Ok(()) => {
                    let metric = Metric {
                        counter: Counter::SignedAttestations,
                        label: Label::Success,
                    };
                    (AttestationSigning::Done(Ok(())), Some(metric))
                },
                Err(e) => (
                    AttestationSigning::Done(Err(Error::UnableToSignAttestation(e))),
                    None,
                ),
            },
            (session, _) => (session, None),
        };
        (Pending::new(session), metric)
    }
}

} // verus!
