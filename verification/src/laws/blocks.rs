//! What holds of the signing of a block, whatever answers come and however the store changes in
//! between.

use vstd::prelude::*;

use crate::chain_spec::Domain;
use crate::error::{Error, NotSafe, Safe, SigningError};
use crate::laws::steps::{cleared_at, first_status, label_of, Steps};
use crate::messages::{BeaconBlock, SignedBeaconBlock};
use crate::primitives::{epoch_of, PublicKeyBytes, Signature, Slot};
use crate::store::sessions::{BlockSigning, SigningEvent};
use crate::store::signing::{Counter, Metric, SigningDomain, SigningRequest};
use crate::store::StoreView;

verus! {

/// Where `steps` take the signing of a block.
pub open spec fn block_run<P, X>(start: BlockSigning<P, X>, steps: Steps<X>) -> BlockSigning<P, X>
    decreases steps.len(),
{
    if steps.len() == 0 {
        start
    } else {
        let (store, event) = steps.last();
        store.block_step(block_run(start, steps.drop_last()), event).0
    }
}

/// What `steps` count on the way.
pub open spec fn block_counts<P, X>(start: BlockSigning<P, X>, steps: Steps<X>) -> Seq<Metric>
    decreases steps.len(),
{
    if steps.len() == 0 {
        Seq::empty()
    } else {
        let (store, event) = steps.last();
        let before = block_counts(start, steps.drop_last());
        match store.block_step(block_run(start, steps.drop_last()), event).1 {
            Some(metric) => before.push(metric),
            None => before,
        }
    }
}

/// The request for the signature of `block` that is made when it is cleared at step `i`.
pub open spec fn block_request<P, X>(
    store: StoreView,
    pubkey: PublicKeyBytes,
    block: BeaconBlock<P>,
    steps: Steps<X>,
    i: int,
) -> SigningRequest<BeaconBlock<P>> {
    SigningRequest {
        method: steps[i].0.validators[pubkey].signing_method,
        domain: SigningDomain::Context(
            store.context(Domain::BeaconProposer, epoch_of(block.slot, store.slots_per_epoch)),
        ),
        message: block,
    }
}

/// A signature of a block is asked for only if the block does not lie ahead of the current slot,
/// the slashing protection database has found it valid, and doppelganger protection lets its
/// enabled proposer sign at that moment. What is asked for is a signature of this very block, by
/// the method of its proposer, under the domain of its epoch.
pub proof fn law_block_is_cleared_before_it_is_signed<P, X>(
    store: StoreView,
    pubkey: PublicKeyBytes,
    block: BeaconBlock<P>,
    current_slot: Slot,
    steps: Steps<X>,
)
    ensures
        ({
            let session = block_run(store.block_start::<P, X>(pubkey, block, current_slot), steps);
            match session {
                BlockSigning::CheckProposal { .. } => {
                    &&& session == store.block_start::<P, X>(pubkey, block, current_slot)
                    &&& forall|i: int|
                        0 <= i < steps.len() ==> !((#[trigger] steps[i]).1 is SlashingStatus)
                },
                BlockSigning::Sign(request) => {
                    &&& block.slot.0 <= current_slot.0
                    &&& exists|i: int| #[trigger]
                        cleared_at(pubkey, steps, i) && request == block_request(
                            store,
                            pubkey,
                            block,
                            steps,
                            i,
                        )
                },
                BlockSigning::Done(Ok(signed)) => {
                    &&& block.slot.0 <= current_slot.0
                    &&& signed.message == block
                    &&& exists|i: int, j: int|
                        {
                            &&& #[trigger] cleared_at(pubkey, steps, i)
                            &&& i < j < steps.len()
                            &&& (#[trigger] steps[j]).1 == SigningEvent::<X>::Signed(
                                Ok(signed.signature),
                            )
                        }
                },
                BlockSigning::Done(Err(_)) => true,
            }
        }),
    decreases steps.len(),
{
    if steps.len() > 0 {
        let before = steps.drop_last();
        let last = steps.len() - 1;
        law_block_is_cleared_before_it_is_signed(store, pubkey, block, current_slot, before);
        assert forall|i: int| cleared_at(pubkey, before, i) implies #[trigger] cleared_at(
            pubkey,
            steps,
            i,
        ) by {
            assert(forall|j: int| 0 <= j < i ==> before[j] == #[trigger] steps[j]);
        }
        let start = store.block_start::<P, X>(pubkey, block, current_slot);
        match (block_run(start, before), steps.last().1) {
            (BlockSigning::CheckProposal { .. }, SigningEvent::SlashingStatus(status)) => {
                assert(forall|j: int| 0 <= j < last ==> before[j] == #[trigger] steps[j]);
                assert(first_status(steps, last));
                if block_run(start, steps) is Sign {
                    assert(cleared_at(pubkey, steps, last));
                }
            },
            (BlockSigning::CheckProposal { .. }, _) => {
                assert(forall|j: int| 0 <= j < last ==> before[j] == #[trigger] steps[j]);
            },
            (BlockSigning::Sign(request), event) => {
                let i = choose|i: int| #[trigger]
                    cleared_at(pubkey, before, i) && request == block_request(
                        store,
                        pubkey,
                        block,
                        before,
                        i,
                    );
                assert(cleared_at(pubkey, steps, i));
                assert(steps[last].1 == event);
            },
            (BlockSigning::Done(Ok(signed)), _) => {
                let (i, j) = choose|i: int, j: int|
                    {
                        &&& #[trigger] cleared_at(pubkey, before, i)
                        &&& i < j < before.len()
                        &&& (#[trigger] before[j]).1 == SigningEvent::<X>::Signed(Ok(signed.signature))
                    };
                assert(cleared_at(pubkey, steps, i));
                assert(steps[j] == before[j]);
            },
            _ => {},
        }
    }
}

/// A run goes on from where a run has come to.
proof fn lemma_block_run_splits<P, X>(start: BlockSigning<P, X>, first: Steps<X>, then: Steps<X>)
    ensures
        block_run(start, first + then) == block_run(block_run(start, first), then),
    decreases then.len(),
{
    if then.len() == 0 {
        assert(first + then =~= first);
    } else {
        assert((first + then).drop_last() =~= first + then.drop_last());
        lemma_block_run_splits(start, first, then.drop_last());
    }
}

/// Nothing moves the signing of a block that is done, and nothing makes it count.
pub proof fn law_done_block_stays_done<P, X>(
    result: Result<SignedBeaconBlock<P>, Error<X>>,
    steps: Steps<X>,
)
    ensures
        block_run(BlockSigning::Done(result), steps) == BlockSigning::<P, X>::Done(result),
        block_counts(BlockSigning::Done(result), steps) == Seq::<Metric>::empty(),
    decreases steps.len(),
{
    if steps.len() > 0 {
        law_done_block_stays_done(result, steps.drop_last());
    }
}

/// A request for the signature of a block stands until it is answered. No second one is made.
pub proof fn law_block_is_requested_once<P, X>(
    start: BlockSigning<P, X>,
    first: Steps<X>,
    then: Steps<X>,
)
    requires
        block_run(start, first) is Sign,
    ensures
        block_run(start, first + then) is Sign ==> block_run(start, first + then) == block_run(
            start,
            first,
        ),
        !(block_run(start, first + then) is CheckProposal),
    decreases then.len(),
{
    if then.len() == 0 {
        assert(first + then =~= first);
    } else {
        assert((first + then).drop_last() =~= first + then.drop_last());
        law_block_is_requested_once(start, first, then.drop_last());
    }
}

/// A block that lies ahead of the current slot is refused at once, and neither the slashing
/// protection database nor a signer is ever asked.
pub proof fn law_future_block_is_refused<P, X>(
    store: StoreView,
    pubkey: PublicKeyBytes,
    block: BeaconBlock<P>,
    current_slot: Slot,
    steps: Steps<X>,
)
    requires
        block.slot.0 > current_slot.0,
    ensures
        block_run(store.block_start::<P, X>(pubkey, block, current_slot), steps) == BlockSigning::<
            P,
            X,
        >::Done(
            Err(Error::GreaterThanCurrentSlot { slot: block.slot, current_slot }),
        ),
        block_counts(store.block_start::<P, X>(pubkey, block, current_slot), steps) == Seq::<
            Metric,
        >::empty(),
{
    law_done_block_stays_done::<P, X>(
        Err(Error::GreaterThanCurrentSlot { slot: block.slot, current_slot }),
        steps,
    );
}

/// Until the slashing protection database speaks, the signing of a block waits for it.
proof fn lemma_block_waits<P, X>(start: BlockSigning<P, X>, steps: Steps<X>)
    requires
        start is CheckProposal,
        forall|i: int| 0 <= i < steps.len() ==> !((#[trigger] steps[i]).1 is SlashingStatus),
    ensures
        block_run(start, steps) == start,
        block_counts(start, steps) == Seq::<Metric>::empty(),
    decreases steps.len(),
{
    if steps.len() > 0 {
        let before = steps.drop_last();
        assert(forall|i: int| 0 <= i < before.len() ==> before[i] == #[trigger] steps[i]);
        lemma_block_waits(start, before);
        assert(!(steps[steps.len() - 1].1 is SlashingStatus));
    }
}

/// A block that the slashing protection database does not find valid is never signed. That it was
/// signed before, that its proposer is not registered and that it could be slashed are each told
/// as what they are.
pub proof fn law_refused_block_is_never_signed<P, X>(
    store: StoreView,
    pubkey: PublicKeyBytes,
    block: BeaconBlock<P>,
    current_slot: Slot,
    steps: Steps<X>,
    i: int,
    status: Result<Safe, NotSafe<X>>,
)
    requires
        block.slot.0 <= current_slot.0,
        first_status(steps, i),
        steps[i].1 == SigningEvent::<X>::SlashingStatus(status),
        status != Ok::<Safe, NotSafe<X>>(Safe::Valid),
    ensures
        ({
            let error = match status {
                Ok(_) => Error::SameData,
                Err(reason) => Error::Slashable(reason),
            };
            block_run(store.block_start::<P, X>(pubkey, block, current_slot), steps)
                == BlockSigning::<P, X>::Done(Err(error))
        }),
{
    let start = store.block_start::<P, X>(pubkey, block, current_slot);
    let before = steps.take(i);
    let then = steps.skip(i + 1);
    let here = steps.take(i + 1);
    assert(forall|j: int| 0 <= j < i ==> before[j] == #[trigger] steps[j]);
    lemma_block_waits(start, before);
    assert(here.drop_last() =~= before);
    assert(here.last() == steps[i]);
    let error = match status {
        Ok(_) => Error::SameData,
        Err(reason) => Error::Slashable(reason),
    };
    assert(block_run(start, here) == BlockSigning::<P, X>::Done(Err(error)));
    assert(here + then =~= steps);
    lemma_block_run_splits(start, here, then);
    law_done_block_stays_done::<P, X>(Err(error), then);
}

/// What the signing of a block comes to once both questions are answered. It succeeds exactly if
/// the block does not lie ahead of the current slot, the slashing protection database finds it
/// valid, doppelganger protection lets its enabled proposer sign, and the signature is made.
pub proof fn law_block_outcome<P, X>(
    store: StoreView,
    pubkey: PublicKeyBytes,
    block: BeaconBlock<P>,
    current_slot: Slot,
    at_status: StoreView,
    status: Result<Safe, NotSafe<X>>,
    at_signed: StoreView,
    signed: Result<Signature, SigningError<X>>,
)
    ensures
        ({
            let start = store.block_start::<P, X>(pubkey, block, current_slot);
            let steps = seq![
                (at_status, SigningEvent::SlashingStatus(status)),
                (at_signed, SigningEvent::Signed(signed)),
            ];
            let result = if block.slot.0 > current_slot.0 {
                Err(Error::GreaterThanCurrentSlot { slot: block.slot, current_slot })
            } else if status == Ok::<Safe, NotSafe<X>>(Safe::SameData) {
                Err(Error::SameData)
            } else if status is Err {
                Err(Error::Slashable(status->Err_0))
            } else if !at_status.allows_signing(pubkey) {
                Err(Error::DoppelgangerProtected(pubkey))
            } else if !at_status.validators.contains_key(pubkey) {
                Err(Error::UnknownPubkey(pubkey))
            } else if signed is Err {
                Err(Error::UnableToSign(signed->Err_0))
            } else {
                Ok(SignedBeaconBlock { message: block, signature: signed->Ok_0 })
            };
            block_run(start, steps) == BlockSigning::<P, X>::Done(result)
        }),
{
    let start = store.block_start::<P, X>(pubkey, block, current_slot);
    let one = (at_status, SigningEvent::SlashingStatus(status));
    let two = (at_signed, SigningEvent::Signed(signed));
    let steps = seq![one, two];
    assert(steps.drop_last() =~= seq![one]);
    assert(steps.drop_last().drop_last() =~= Seq::<(StoreView, SigningEvent<X>)>::empty());
    reveal_with_fuel(block_run, 3);
}

/// The signing of a block counts exactly once, when the slashing protection database speaks: as a
/// success if the block is valid, else as what the database says of it.
pub proof fn law_block_counts_once<P, X>(
    store: StoreView,
    pubkey: PublicKeyBytes,
    block: BeaconBlock<P>,
    current_slot: Slot,
    steps: Steps<X>,
    i: int,
    status: Result<Safe, NotSafe<X>>,
)
    requires
        block.slot.0 <= current_slot.0,
        first_status(steps, i),
        steps[i].1 == SigningEvent::<X>::SlashingStatus(status),
    ensures
        block_counts(store.block_start::<P, X>(pubkey, block, current_slot), steps) == seq![
            Metric { counter: Counter::SignedBlocks, label: label_of(status) },
        ],
    decreases steps.len(),
{
    let start = store.block_start::<P, X>(pubkey, block, current_slot);
    let before = steps.drop_last();
    assert(forall|j: int| 0 <= j < before.len() ==> before[j] == #[trigger] steps[j]);
    if i == steps.len() - 1 {
        lemma_block_waits(start, before);
    } else {
        law_block_counts_once(store, pubkey, block, current_slot, before, i, status);
        law_block_is_cleared_before_it_is_signed(store, pubkey, block, current_slot, before);
        assert(before[i].1 is SlashingStatus);
        assert(!(block_run(start, before) is CheckProposal));
    }
}

} // verus!
