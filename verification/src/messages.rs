//! The messages that validators sign, and what they are once they are signed.

use vstd::prelude::*;

use crate::primitives::{Address, Epoch, Hash256, PublicKeyBytes, Signature, Slot};

verus! {

/// A block. Its body `P` is carried along and never looked at.
#[derive(Debug, PartialEq, Eq)]
pub struct BeaconBlock<P> {
    pub slot: Slot,
    pub proposer_index: u64,
    pub parent_root: Hash256,
    pub state_root: Hash256,
    pub body: P,
}

#[derive(Debug, PartialEq, Eq)]
pub struct SignedBeaconBlock<P> {
    pub message: BeaconBlock<P>,
    pub signature: Signature,
}

#[derive(Clone, Copy, Debug, PartialEq, Eq)]
pub struct Checkpoint {
    pub epoch: Epoch,
    pub root: Hash256,
}

/// What an attester votes for.
#[derive(Clone, Copy, Debug, PartialEq, Eq)]
pub struct AttestationData {
    pub slot: Slot,
    pub index: u64,
    pub beacon_block_root: Hash256,
    pub source: Checkpoint,
    pub target: Checkpoint,
}

/// A vote with the bits of those who signed it.
#[derive(Debug, PartialEq, Eq)]
pub struct Attestation {
    pub aggregation_bits: Vec<u8>,
    pub data: AttestationData,
    pub signature: Signature,
}

/// The proof that a validator was picked to aggregate attestations.
#[derive(Clone, Copy, Debug, PartialEq, Eq)]
pub struct SelectionProof(pub Signature);

#[derive(Debug, PartialEq, Eq)]
pub struct AggregateAndProof {
    pub aggregator_index: u64,
    pub aggregate: Attestation,
    pub selection_proof: Signature,
}

#[derive(Debug, PartialEq, Eq)]
pub struct SignedAggregateAndProof {
    pub message: AggregateAndProof,
    pub signature: Signature,
}

#[derive(Clone, Copy, Debug, PartialEq, Eq)]
pub struct VoluntaryExit {
    pub epoch: Epoch,
    pub validator_index: u64,
}

#[derive(Clone, Copy, Debug, PartialEq, Eq)]
pub struct SignedVoluntaryExit {
    pub message: VoluntaryExit,
    pub signature: Signature,
}

/// What a validator registers with block builders.
#[derive(Clone, Copy, Debug, PartialEq, Eq)]
pub struct ValidatorRegistrationData {
    pub fee_recipient: Address,
    pub gas_limit: u64,
    pub timestamp: u64,
    pub pubkey: PublicKeyBytes,
}

#[derive(Clone, Copy, Debug, PartialEq, Eq)]
pub struct SignedValidatorRegistrationData {
    pub message: ValidatorRegistrationData,
    pub signature: Signature,
}

/// A subnet of the sync committee.
#[derive(Clone, Copy, Debug, PartialEq, Eq)]
pub struct SyncSubnetId(pub u64);

/// What a validator signs to be picked to aggregate sync committee messages.
#[derive(Clone, Copy, Debug, PartialEq, Eq)]
pub struct SyncAggregatorSelectionData {
    pub slot: Slot,
    pub subcommittee_index: u64,
}

/// The proof that a validator was picked to aggregate sync committee messages.
#[derive(Clone, Copy, Debug, PartialEq, Eq)]
pub struct SyncSelectionProof(pub Signature);

/// What a member of the sync committee signs: the head of the chain at a slot.
#[derive(Clone, Copy, Debug, PartialEq, Eq)]
pub struct SyncCommitteeSignature {
    pub beacon_block_root: Hash256,
    pub slot: Slot,
}

#[derive(Clone, Copy, Debug, PartialEq, Eq)]
pub struct SyncCommitteeMessage {
    pub slot: Slot,
    pub beacon_block_root: Hash256,
    pub validator_index: u64,
    pub signature: Signature,
}

/// Sync committee messages of a subcommittee, aggregated.
#[derive(Debug, PartialEq, Eq)]
pub struct SyncCommitteeContribution {
    pub slot: Slot,
    pub beacon_block_root: Hash256,
    pub subcommittee_index: u64,
    pub aggregation_bits: Vec<u8>,
    pub signature: Signature,
}

#[derive(Debug, PartialEq, Eq)]
pub struct ContributionAndProof {
    pub aggregator_index: u64,
    pub contribution: SyncCommitteeContribution,
    pub selection_proof: Signature,
}

#[derive(Debug, PartialEq, Eq)]
pub struct SignedContributionAndProof {
    pub message: ContributionAndProof,
    pub signature: Signature,
}

/// The epoch that a proposer signs to reveal its share of the randomness.
#[derive(Clone, Copy, Debug, PartialEq, Eq)]
pub struct RandaoReveal(pub Epoch);

/// The slot that a validator signs to be picked to aggregate attestations.
#[derive(Clone, Copy, Debug, PartialEq, Eq)]
pub struct AggregatorSlot(pub Slot);

} // verus!
