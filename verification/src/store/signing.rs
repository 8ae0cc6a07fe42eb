//! How a message comes to be signed.
//!
//! A signature is made elsewhere, and so is the check against slashing. The store says what is
//! asked for next, and what an answer means.

use vstd::prelude::*;

use crate::chain_spec::{Domain, SigningContext};
use crate::error::{Error, SigningError};
use crate::initialized_validators::SigningMethod;
use crate::messages::{
    AggregateAndProof, AggregatorSlot, Attestation, ContributionAndProof, RandaoReveal,
    SelectionProof, SignedAggregateAndProof, SignedContributionAndProof,
    SignedValidatorRegistrationData, SignedVoluntaryExit, SyncAggregatorSelectionData,
    SyncCommitteeContribution, SyncCommitteeMessage, SyncCommitteeSignature, SyncSelectionProof,
    SyncSubnetId, ValidatorRegistrationData, VoluntaryExit,
};
use crate::pending::{asked_of, Pending};
use crate::primitives::{epoch_of, Epoch, Hash256, PublicKeyBytes, Signature, Slot};
use crate::store::{StoreView, ValidatorStore};

verus! {

/// What is counted.
#[derive(Clone, Copy, Debug, PartialEq, Eq, Structural)]
pub enum Counter {
    SignedBlocks,
    SignedAttestations,
    SignedVoluntaryExits,
    SignedValidatorRegistrations,
    SignedAggregates,
    SignedSelectionProofs,
    SignedSyncSelectionProofs,
    SignedSyncCommitteeMessages,
    SignedSyncCommitteeContributions,
}

/// How what is counted came out.
#[derive(Clone, Copy, Debug, PartialEq, Eq, Structural)]
pub enum Label {
    Success,
    SameData,
    Unregistered,
    Slashable,
}

/// A counter that goes up by one.
#[derive(Clone, Copy, Debug, PartialEq, Eq, Structural)]
pub struct Metric {
    pub counter: Counter,
    pub label: Label,
}

/// What the domain of a signature is computed from.
#[derive(Clone, Copy, Debug, PartialEq, Eq)]
pub enum SigningDomain {
    /// The domain of the chain for this context.
    Context(SigningContext),
    /// The domain of messages to block builders, which no upgrade of the chain changes.
    Builder,
}

/// A signature of `message` that is asked for.
#[derive(Debug, PartialEq, Eq)]
pub struct SigningRequest<M> {
    pub method: SigningMethod,
    pub domain: SigningDomain,
    pub message: M,
}

/// A signature of a sync committee message that is asked for.
#[derive(Debug, PartialEq, Eq)]
pub struct SyncCommitteeRequest {
    pub request: SigningRequest<SyncCommitteeSignature>,
    pub validator_index: u64,
}

/// The request for a signature of `message`, where there is a method.
pub open spec fn request<M, X>(
    method: Result<SigningMethod, Error<X>>,
    domain: SigningDomain,
    message: M,
) -> Result<SigningRequest<M>, Error<X>> {
    match method {
        Ok(method) => Ok(SigningRequest { method, domain, message }),
        Err(e) => Err(e),
    }
}

/// A success that counts for `counter`.
pub open spec fn success(counter: Counter) -> Metric {
    Metric { counter, label: Label::Success }
}

impl StoreView {
    /// The domain of signatures of `domain` for the epoch that holds `slot`.
    pub open spec fn slot_domain(self, domain: Domain, slot: Slot) -> SigningDomain {
        SigningDomain::Context(self.context(domain, epoch_of(slot, self.slots_per_epoch)))
    }
}

/// The request for a signature of `message`, where there is a method.
fn make_request<M, X>(
    method: Result<SigningMethod, Error<X>>,
    domain: SigningDomain,
    message: M,
) -> (made: Result<Pending<SigningRequest<M>>, Error<X>>)
    ensures
        asked_of(made) == request(method, domain, message),
{
    match method {
        Ok(method) => Ok(Pending::new(SigningRequest { method, domain, message })),
        Err(e) => Err(e),
    }
}

impl ValidatorStore {
    /// The epoch that holds `slot`.
    fn slot_epoch(&self, slot: Slot) -> (epoch: Epoch)
        ensures
            epoch == epoch_of(slot, self@.slots_per_epoch),
    {
        slot.epoch(self.eth_spec.slots_per_epoch())
    }

    /// Asks for the signature that reveals a proposer's share of the randomness.
    pub fn randao_reveal<X>(
        &self,
        validator_pubkey: PublicKeyBytes,
        signing_epoch: Epoch,
    ) -> (asked: Result<Pending<SigningRequest<RandaoReveal>>, Error<X>>)
        ensures
            asked_of(asked) == request(
                self@.checked_method::<X>(validator_pubkey),
                SigningDomain::Context(self@.context(Domain::Randao, signing_epoch)),
                RandaoReveal(signing_epoch),
            ),
    {
        let method = self.doppelganger_checked_signing_method(validator_pubkey);
        let context = self.signing_context(Domain::Randao, signing_epoch);
        make_request(method, SigningDomain::Context(context), RandaoReveal(signing_epoch))
    }

    /// Asks for the signature of an exit. Exits cannot be slashed, so doppelganger protection does
    /// not hold them back.
    pub fn sign_voluntary_exit<X>(
        &self,
        validator_pubkey: PublicKeyBytes,
        voluntary_exit: VoluntaryExit,
    ) -> (asked: Result<Pending<SigningRequest<VoluntaryExit>>, Error<X>>)
        ensures
            asked_of(asked) == request(
                self@.bypassed_method::<X>(validator_pubkey),
                SigningDomain::Context(self@.context(Domain::VoluntaryExit, voluntary_exit.epoch)),
                voluntary_exit,
            ),
    {
        let context = self.signing_context(Domain::VoluntaryExit, voluntary_exit.epoch);
        let method = self.doppelganger_bypassed_signing_method(validator_pubkey);
        make_request(method, SigningDomain::Context(context), voluntary_exit)
    }

    /// Asks for the signature of a registration with block builders.
    pub fn sign_validator_registration_data<X>(
        &self,
        validator_registration_data: ValidatorRegistrationData,
    ) -> (asked: Result<Pending<SigningRequest<ValidatorRegistrationData>>, Error<X>>)
        ensures
            asked_of(asked) == request(
                self@.bypassed_method::<X>(validator_registration_data.pubkey),
                SigningDomain::Builder,
                validator_registration_data,
            ),
    {
        let method = self.doppelganger_bypassed_signing_method(validator_registration_data.pubkey);
        make_request(method, SigningDomain::Builder, validator_registration_data)
    }

    /// Asks for the signature of an aggregate.
    pub fn produce_signed_aggregate_and_proof<X>(
        &self,
        validator_pubkey: PublicKeyBytes,
        aggregator_index: u64,
        aggregate: Attestation,
        selection_proof: SelectionProof,
    ) -> (asked: Result<Pending<SigningRequest<AggregateAndProof>>, Error<X>>)
        ensures
            asked_of(asked) == request(
                self@.checked_method::<X>(validator_pubkey),
                SigningDomain::Context(
                    self@.context(Domain::AggregateAndProof, aggregate.data.target.epoch),
                ),
                (AggregateAndProof {
                    aggregator_index,
                    aggregate,
                    selection_proof: selection_proof.0,
                }),
            ),
    {
        let signing_epoch = aggregate.data.target.epoch;
        let context = self.signing_context(Domain::AggregateAndProof, signing_epoch);
        let message = AggregateAndProof {
            aggregator_index,
            aggregate,
            selection_proof: selection_proof.0,
        };
        let method = self.doppelganger_checked_signing_method(validator_pubkey);
        make_request(method, SigningDomain::Context(context), message)
    }

    /// Asks for the signature that proves that the validator was picked to aggregate at `slot`.
    ///
    /// Selection proofs cannot be slashed and are needed to subscribe to subnets, so doppelganger
    /// protection does not hold them back. While it holds back aggregates, no such proof is
    /// published.
    pub fn produce_selection_proof<X>(
        &self,
        validator_pubkey: PublicKeyBytes,
        slot: Slot,
    ) -> (asked: Result<Pending<SigningRequest<AggregatorSlot>>, Error<X>>)
        ensures
            asked_of(asked) == request(
                self@.bypassed_method::<X>(validator_pubkey),
                self@.slot_domain(Domain::SelectionProof, slot),
                AggregatorSlot(slot),
            ),
    {
        let signing_epoch = self.slot_epoch(slot);
        let context = self.signing_context(Domain::SelectionProof, signing_epoch);
        let method = self.doppelganger_bypassed_signing_method(validator_pubkey);
        make_request(method, SigningDomain::Context(context), AggregatorSlot(slot))
    }

    /// Asks for the signature that proves that the validator was picked to aggregate sync
    /// committee messages at `slot`. This counts as soon as it is asked for.
    pub fn produce_sync_selection_proof<X>(
        &self,
        validator_pubkey: &PublicKeyBytes,
        slot: Slot,
        subnet_id: SyncSubnetId,
    ) -> (asked: (
        Result<Pending<SigningRequest<SyncAggregatorSelectionData>>, Error<X>>,
        Option<Metric>,
    ))
        ensures
            asked_of(asked.0) == request(
                self@.bypassed_method::<X>(*validator_pubkey),
                self@.slot_domain(Domain::SyncCommitteeSelectionProof, slot),
                (SyncAggregatorSelectionData { slot, subcommittee_index: subnet_id.0 }),
            ),
            asked.1 == (if asked.0 is Ok {
                Some(success(Counter::SignedSyncSelectionProofs))
            } else {
                None
            }),
    {
        let signing_epoch = self.slot_epoch(slot);
        let context = self.signing_context(Domain::SyncCommitteeSelectionProof, signing_epoch);
        match self.doppelganger_bypassed_signing_method(*validator_pubkey) {
            Ok(method) => {
                let metric = Metric {
                    counter: Counter::SignedSyncSelectionProofs,
                    label: Label::Success,
                };
                let message = SyncAggregatorSelectionData { slot, subcommittee_index: subnet_id.0 };
                let domain = SigningDomain::Context(context);
                (Ok(Pending::new(SigningRequest { method, domain, message })), Some(metric))
            },
            Err(e) => (Err(e), None),
        }
    }

    /// Asks for the signature of a sync committee message.
    pub fn produce_sync_committee_signature<X>(
        &self,
        slot: Slot,
        beacon_block_root: Hash256,
        validator_index: u64,
        validator_pubkey: &PublicKeyBytes,
    ) -> (asked: Result<Pending<SyncCommitteeRequest>, Error<X>>)
        ensures
            asked_of(asked) == (match request(
                self@.bypassed_method::<X>(*validator_pubkey),
                self@.slot_domain(Domain::SyncCommittee, slot),
                (SyncCommitteeSignature { beacon_block_root, slot }),
            ) {
                Ok(request) => Ok(SyncCommitteeRequest { request, validator_index }),
                Err(e) => Err(e),
            }),
    {
        let signing_epoch = self.slot_epoch(slot);
        let context = self.signing_context(Domain::SyncCommittee, signing_epoch);
        let method = self.doppelganger_bypassed_signing_method(*validator_pubkey);
        let message = SyncCommitteeSignature { beacon_block_root, slot };
        let domain = SigningDomain::Context(context);
        match method {
            Ok(method) => {
                let request = SigningRequest { method, domain, message };
                Ok(Pending::new(SyncCommitteeRequest { request, validator_index }))
            },
            Err(e) => Err(e),
        }
    }

    /// Asks for the signature of a sync committee contribution.
    pub fn produce_signed_contribution_and_proof<X>(
        &self,
        aggregator_index: u64,
        aggregator_pubkey: PublicKeyBytes,
        contribution: SyncCommitteeContribution,
        selection_proof: SyncSelectionProof,
    ) -> (asked: Result<Pending<SigningRequest<ContributionAndProof>>, Error<X>>)
        ensures
            asked_of(asked) == request(
                self@.bypassed_method::<X>(aggregator_pubkey),
                self@.slot_domain(Domain::ContributionAndProof, contribution.slot),
                (ContributionAndProof {
                    aggregator_index,
                    contribution,
                    selection_proof: selection_proof.0,
                }),
            ),
    {
        let signing_epoch = self.slot_epoch(contribution.slot);
        let context = self.signing_context(Domain::ContributionAndProof, signing_epoch);
        let method = self.doppelganger_bypassed_signing_method(aggregator_pubkey);
        let message = ContributionAndProof {
            aggregator_index,
            contribution,
            selection_proof: selection_proof.0,
        };
        make_request(method, SigningDomain::Context(context), message)
    }
}

/// What the answer `signed` comes to: `done` of the signature, which counts for `metric`, or the
/// error.
pub open spec fn finished<T, X>(
    signed: Result<Signature, SigningError<X>>,
    done: spec_fn(Signature) -> T,
    metric: Option<Metric>,
) -> (Result<T, Error<X>>, Option<Metric>) {
    match signed {
        Ok(signature) => (Ok(done(signature)), metric),
        Err(e) => (Err(Error::UnableToSign(e)), None),
    }
}

impl Pending<SigningRequest<RandaoReveal>> {
    /// The reveal, once the answer is there. Reveals are not counted.
    pub fn finish<X>(self, signed: Result<Signature, SigningError<X>>) -> (done: (
        Result<Signature, Error<X>>,
        Option<Metric>,
    ))
        ensures
            done == finished(signed, |signature: Signature| signature, None),
    {
        match signed {
            Ok(signature) => (Ok(signature), None),
            Err(e) => (Err(Error::from(e)), None),
        }
    }
}

impl Pending<SigningRequest<VoluntaryExit>> {
    /// The signed exit, once the answer is there.
    pub fn finish<X>(self, signed: Result<Signature, SigningError<X>>) -> (done: (
        Result<SignedVoluntaryExit, Error<X>>,
        Option<Metric>,
    ))
        ensures
            done == finished(
                signed,
                |signature: Signature|
                    SignedVoluntaryExit { message: self@.message, signature },
                Some(success(Counter::SignedVoluntaryExits)),
            ),
    {
        match signed {
            Ok(signature) => {
                let metric = Metric {
                    counter: Counter::SignedVoluntaryExits,
                    label: Label::Success,
                };
                let message = self.into_asked().message;
                (Ok(SignedVoluntaryExit { message, signature }), Some(metric))
            },
            Err(e) => (Err(Error::from(e)), None),
        }
    }
}

impl Pending<SigningRequest<ValidatorRegistrationData>> {
    /// The signed registration, once the answer is there.
    pub fn finish<X>(self, signed: Result<Signature, SigningError<X>>) -> (done: (
        Result<SignedValidatorRegistrationData, Error<X>>,
        Option<Metric>,
    ))
        ensures
            done == finished(
                signed,
                |signature: Signature|
                    SignedValidatorRegistrationData { message: self@.message, signature },
                Some(success(Counter::SignedValidatorRegistrations)),
            ),
    {
        match signed {
            Ok(signature) => {
                let metric = Metric {
                    counter: Counter::SignedValidatorRegistrations,
                    label: Label::Success,
                };
                let message = self.into_asked().message;
                (Ok(SignedValidatorRegistrationData { message, signature }), Some(metric))
            },
            Err(e) => (Err(Error::from(e)), None),
        }
    }
}

impl Pending<SigningRequest<AggregateAndProof>> {
    /// The signed aggregate, once the answer is there.
    pub fn finish<X>(self, signed: Result<Signature, SigningError<X>>) -> (done: (
        Result<SignedAggregateAndProof, Error<X>>,
        Option<Metric>,
    ))
        ensures
            done == finished(
                signed,
                |signature: Signature|
                    SignedAggregateAndProof { message: self@.message, signature },
                Some(success(Counter::SignedAggregates)),
            ),
    {
        match signed {
            Ok(signature) => {
                let metric = Metric {
                    counter: Counter::SignedAggregates,
                    label: Label::Success,
                };
                let message = self.into_asked().message;
                (Ok(SignedAggregateAndProof { message, signature }), Some(metric))
            },
            Err(e) => (Err(Error::from(e)), None),
        }
    }
}

impl Pending<SigningRequest<AggregatorSlot>> {
    /// The selection proof, once the answer is there.
    pub fn finish<X>(self, signed: Result<Signature, SigningError<X>>) -> (done: (
        Result<SelectionProof, Error<X>>,
        Option<Metric>,
    ))
        ensures
            done == finished(
                signed,
                |signature: Signature| SelectionProof(signature),
                Some(success(Counter::SignedSelectionProofs)),
            ),
    {
        match signed {
            Ok(signature) => {
                let metric = Metric {
                    counter: Counter::SignedSelectionProofs,
                    label: Label::Success,
                };
                (Ok(SelectionProof(signature)), Some(metric))
            },
            Err(e) => (Err(Error::from(e)), None),
        }
    }
}

impl Pending<SigningRequest<SyncAggregatorSelectionData>> {
    /// The selection proof, once the answer is there. It was counted when it was asked for.
    pub fn finish<X>(self, signed: Result<Signature, SigningError<X>>) -> (done: (
        Result<SyncSelectionProof, Error<X>>,
        Option<Metric>,
    ))
        ensures
            done == finished(
                signed,
                |signature: Signature| SyncSelectionProof(signature),
                None,
            ),
    {
        match signed {
            Ok(signature) => {
                (Ok(SyncSelectionProof(signature)), None)
            },
            Err(e) => (Err(Error::from(e)), None),
        }
    }
}

impl Pending<SyncCommitteeRequest> {
    /// The signed sync committee message, once the answer is there.
    pub fn finish<X>(self, signed: Result<Signature, SigningError<X>>) -> (done: (
        Result<SyncCommitteeMessage, Error<X>>,
        Option<Metric>,
    ))
        ensures
            done == finished(
                signed,
                |signature: Signature| SyncCommitteeMessage {
                    slot: self@.request.message.slot,
                    beacon_block_root: self@.request.message.beacon_block_root,
                    validator_index: self@.validator_index,
                    signature,
                },
                Some(success(Counter::SignedSyncCommitteeMessages)),
            ),
    {
        match signed {
            Ok(signature) => {
                let metric = Metric {
                    counter: Counter::SignedSyncCommitteeMessages,
                    label: Label::Success,
                };
                let asked = self.into_asked();
                let message = SyncCommitteeMessage {
                    slot: asked.request.message.slot,
                    beacon_block_root: asked.request.message.beacon_block_root,
                    validator_index: asked.validator_index,
                    signature,
                };
                (Ok(message), Some(metric))
            },
            Err(e) => (Err(Error::from(e)), None),
        }
    }
}

impl Pending<SigningRequest<ContributionAndProof>> {
    /// The signed contribution, once the answer is there.
    pub fn finish<X>(self, signed: Result<Signature, SigningError<X>>) -> (done: (
        Result<SignedContributionAndProof, Error<X>>,
        Option<Metric>,
    ))
        ensures
            done == finished(
                signed,
                |signature: Signature|
                    SignedContributionAndProof { message: self@.message, signature },
                Some(success(Counter::SignedSyncCommitteeContributions)),
            ),
    {
        match signed {
            Ok(signature) => {
                let metric = Metric {
                    counter: Counter::SignedSyncCommitteeContributions,
                    label: Label::Success,
                };
                let message = self.into_asked().message;
                (Ok(SignedContributionAndProof { message, signature }), Some(metric))
            },
            Err(e) => (Err(Error::from(e)), None),
        }
    }
}

} // verus!
