//! The words in which the laws on calls are put: the fields of what a store, a chain and a request
//! hold, and nothing that a function of the library computes.

use vstd::prelude::*;

use crate::chain_spec::{ChainSpec, Domain, Fork, SigningContext};
use crate::doppelganger::DoppelgangerState;
use crate::error::Error;
use crate::initialized_validators::InitializedValidators;
use crate::pending::Pending;
use crate::primitives::{Epoch, PublicKeyBytes, Slot};
use crate::store::signing::{SigningDomain, SigningRequest};
use crate::store::StoreView;

verus! {

/// An upgrade that is scheduled for `start` has started at `epoch`.
pub open spec fn has_started(start: Option<Epoch>, epoch: Epoch) -> bool {
    start matches Some(first) && first.0 <= epoch.0
}

/// `fork` holds the version of the last upgrade that has started at `epoch`, that of the upgrade
/// before it, and the epoch at which the last one started.
pub open spec fn is_fork_of_last_upgrade(spec: ChainSpec, epoch: Epoch, fork: Fork) -> bool {
    let altair = has_started(spec.altair_fork_epoch, epoch);
    let bellatrix = has_started(spec.bellatrix_fork_epoch, epoch);
    let capella = has_started(spec.capella_fork_epoch, epoch);
    let deneb = has_started(spec.deneb_fork_epoch, epoch);
    &&& deneb ==> {
        &&& fork.current_version == spec.deneb_fork_version
        &&& fork.previous_version == spec.capella_fork_version
        &&& spec.deneb_fork_epoch == Some(fork.epoch)
    }
    &&& capella && !deneb ==> {
        &&& fork.current_version == spec.capella_fork_version
        &&& fork.previous_version == spec.bellatrix_fork_version
        &&& spec.capella_fork_epoch == Some(fork.epoch)
    }
    &&& bellatrix && !capella && !deneb ==> {
        &&& fork.current_version == spec.bellatrix_fork_version
        &&& fork.previous_version == spec.altair_fork_version
        &&& spec.bellatrix_fork_epoch == Some(fork.epoch)
    }
    &&& altair && !bellatrix && !capella && !deneb ==> {
        &&& fork.current_version == spec.altair_fork_version
        &&& fork.previous_version == spec.genesis_fork_version
        &&& spec.altair_fork_epoch == Some(fork.epoch)
    }
    &&& !altair && !bellatrix && !capella && !deneb ==> {
        &&& fork.current_version == spec.genesis_fork_version
        &&& fork.previous_version == spec.genesis_fork_version
        &&& fork.epoch == Epoch(0)
    }
}

/// `context` is that of signatures of `domain` for `epoch`, on the chain of the store. Exits commit
/// to Capella once Deneb has started (EIP-7044), all else to the last upgrade that has started.
pub open spec fn commits_to(
    store: StoreView,
    context: SigningContext,
    domain: Domain,
    epoch: Epoch,
) -> bool {
    &&& context.domain == domain
    &&& context.epoch == epoch
    &&& context.genesis_validators_root == store.genesis_validators_root
    &&& if domain is VoluntaryExit && has_started(store.spec.deneb_fork_epoch, epoch) {
        &&& context.fork.previous_version == store.spec.capella_fork_version
        &&& context.fork.current_version == store.spec.capella_fork_version
        &&& context.fork.epoch == epoch
    } else {
        is_fork_of_last_upgrade(store.spec, epoch, context.fork)
    }
}

/// `slot` is one of the slots of `epoch`.
pub open spec fn lies_in(slot: Slot, epoch: Epoch, slots_per_epoch: u64) -> bool {
    epoch.0 * slots_per_epoch <= slot.0 < (epoch.0 + 1) * slots_per_epoch
}

/// Doppelganger protection is disabled, or has watched the key for long enough.
pub open spec fn is_safe(store: StoreView, pubkey: PublicKeyBytes) -> bool {
    store.doppelganger matches Some(states) ==> states.contains_key(pubkey)
        && !states[pubkey].requires_further_checks
}

/// Doppelganger protection is disabled, or knows the key.
pub open spec fn is_known(store: StoreView, pubkey: PublicKeyBytes) -> bool {
    store.doppelganger matches Some(states) ==> states.contains_key(pubkey)
}

/// The store has learned `state` of `pubkey` where protection is enabled, and has changed in nothing
/// else.
pub open spec fn has_learned(
    before: StoreView,
    after: StoreView,
    pubkey: PublicKeyBytes,
    state: DoppelgangerState,
) -> bool {
    &&& after.doppelganger is Some <==> before.doppelganger is Some
    &&& before.doppelganger is Some ==> after.doppelganger->0 == before.doppelganger->0.insert(
        pubkey,
        state,
    )
    &&& after.validators == before.validators
    &&& after.voting_pubkeys == before.voting_pubkeys
    &&& after.last_prune == before.last_prune
    &&& after.genesis_validators_root == before.genesis_validators_root
    &&& after.spec == before.spec
    &&& after.slots_per_epoch == before.slots_per_epoch
    &&& after.config == before.config
}

/// The store has `validators` for its enabled ones, and has changed in nothing else.
pub open spec fn has_taken_over(
    before: StoreView,
    after: StoreView,
    validators: InitializedValidators,
) -> bool {
    &&& after.validators == validators@
    &&& after.voting_pubkeys == validators.keys()
    &&& after.doppelganger == before.doppelganger
    &&& after.last_prune == before.last_prune
    &&& after.genesis_validators_root == before.genesis_validators_root
    &&& after.spec == before.spec
    &&& after.slots_per_epoch == before.slots_per_epoch
    &&& after.config == before.config
}

/// The key is answered as one whose messages protection holds back until it is safe.
pub open spec fn answers_under_protection<T, X>(
    store: StoreView,
    pubkey: PublicKeyBytes,
    answer: Result<T, Error<X>>,
) -> bool {
    &&& !is_safe(store, pubkey) ==> answer == Err::<T, Error<X>>(
        Error::DoppelgangerProtected(pubkey),
    )
    &&& is_safe(store, pubkey) && !store.validators.contains_key(pubkey) ==> answer == Err::<
        T,
        Error<X>,
    >(Error::UnknownPubkey(pubkey))
    &&& is_safe(store, pubkey) && store.validators.contains_key(pubkey) ==> answer is Ok
}

/// The key is answered as one whose messages protection does not hold back.
pub open spec fn answers_without_protection<T, X>(
    store: StoreView,
    pubkey: PublicKeyBytes,
    answer: Result<T, Error<X>>,
) -> bool {
    &&& !store.validators.contains_key(pubkey) ==> answer == Err::<T, Error<X>>(
        Error::UnknownPubkey(pubkey),
    )
    &&& store.validators.contains_key(pubkey) ==> answer is Ok
}

/// A signature of `message` is asked for, by the method of the enabled validator `pubkey`, in a
/// context of `domain` and `epoch`.
pub open spec fn asks_to_sign<M>(
    store: StoreView,
    pubkey: PublicKeyBytes,
    request: SigningRequest<M>,
    domain: Domain,
    epoch: Epoch,
    message: M,
) -> bool {
    &&& request.method == store.validators[pubkey].signing_method
    &&& request.domain matches SigningDomain::Context(context) && commits_to(
        store,
        context,
        domain,
        epoch,
    )
    &&& request.message == message
}

/// What is asked for, if anything, is a signature of `message` as above.
pub open spec fn asks_if_ok<M, X>(
    store: StoreView,
    pubkey: PublicKeyBytes,
    asked: Result<Pending<SigningRequest<M>>, Error<X>>,
    domain: Domain,
    epoch: Epoch,
    message: M,
) -> bool {
    asked matches Ok(request) ==> asks_to_sign(store, pubkey, request@, domain, epoch, message)
}

} // verus!
