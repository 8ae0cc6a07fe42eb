//! What holds of the pruning of the slashing protection database.

use vstd::prelude::*;

use crate::primitives::{epoch_of, Epoch, Slot};
use crate::store::pruning::{
    PruneEvent, PruningView, SLASHING_PROTECTION_HISTORY_EPOCHS,
};
use crate::store::StoreView;

verus! {

/// Where `events` take a store and its pruning.
pub open spec fn prune_run<X>(
    store: StoreView,
    session: PruningView<X>,
    events: Seq<PruneEvent<X>>,
) -> (StoreView, PruningView<X>)
    decreases events.len(),
{
    if events.len() == 0 {
        (store, session)
    } else {
        let (store, session) = prune_run(store, session, events.drop_last());
        store.prune_step(session, events.last())
    }
}

/// Pruning never touches the history to keep: the targets of the last
/// `SLASHING_PROTECTION_HISTORY_EPOCHS` epochs, and the slots of the epochs that are kept.
pub proof fn law_pruning_keeps_history(
    store: StoreView,
    current_epoch: Epoch,
    first_run: bool,
    slot: Slot,
)
    requires
        store.wf(),
        store.prune_due(current_epoch),
    ensures
        ({
            let plan = store.prune_plan(current_epoch, first_run);
            &&& plan.new_min_target_epoch.0 + SLASHING_PROTECTION_HISTORY_EPOCHS
                == current_epoch.0
            &&& slot.0 < plan.new_min_slot.0 ==> epoch_of(slot, store.slots_per_epoch).0
                < plan.new_min_target_epoch.0
        }),
{
    let plan = store.prune_plan(current_epoch, first_run);
    let min = plan.new_min_target_epoch.0 as int;
    let slots = store.slots_per_epoch as int;
    let s = slot.0 as int;
    if slot.0 < plan.new_min_slot.0 {
        assert(s < min * slots);
        assert(s / slots < min) by (nonlinear_arith)
            requires
                s < min * slots,
                slots > 0,
                s >= 0,
        ;
    }
}

/// Pruning is due at most once in each stretch of `SLASHING_PROTECTION_HISTORY_EPOCHS` epochs, and
/// is due again in the next, whichever epoch of it is the first to ask.
pub proof fn law_pruning_is_due_once_per_stretch(
    store: StoreView,
    pruned_at: Epoch,
    asked_at: Epoch,
)
    requires
        store.last_prune == pruned_at,
    ensures
        asked_at.0 / SLASHING_PROTECTION_HISTORY_EPOCHS == pruned_at.0
            / SLASHING_PROTECTION_HISTORY_EPOCHS ==> !store.prune_due(asked_at),
        asked_at.0 >= pruned_at.0 + SLASHING_PROTECTION_HISTORY_EPOCHS ==> store.prune_due(asked_at),
        asked_at.0 <= pruned_at.0 ==> !store.prune_due(asked_at),
{
}

/// Whatever the database answers, a pruning that no other overlaps changes nothing of the store but
/// the epoch of the last prune; and that to the current epoch, once both attestations and blocks
/// were pruned.
pub proof fn law_pruning_remembers_only_success<X>(
    store: StoreView,
    current_epoch: Epoch,
    first_run: bool,
    events: Seq<PruneEvent<X>>,
)
    ensures
        ({
            let plan = store.prune_plan(current_epoch, first_run);
            let (after, session) = prune_run(
                store,
                store.prune_start::<X>(current_epoch, first_run),
                events,
            );
            if session is Completed {
                &&& after == (StoreView { last_prune: current_epoch, ..store })
                &&& after.last_prune.0 > store.last_prune.0
                &&& !after.prune_due(current_epoch)
                &&& exists|i: int, j: int| #[trigger] both_pruned(events, i, j)
            } else {
                &&& after == store
                &&& session is NotDue <==> !store.prune_due(current_epoch)
                &&& session is PruneAttestations ==> session == PruningView::<X>::PruneAttestations(plan)
                &&& session is PruneBlocks ==> session == PruningView::<X>::PruneBlocks(plan) && exists|
                    i: int,
                | #[trigger] attestations_pruned(events, i)
            }
        }),
    decreases events.len(),
{
    let start = store.prune_start::<X>(current_epoch, first_run);
    if events.len() > 0 {
        let before = events.drop_last();
        let last = events.len() - 1;
        law_pruning_remembers_only_success(store, current_epoch, first_run, before);
        assert forall|i: int| attestations_pruned(before, i) implies #[trigger] attestations_pruned(
            events,
            i,
        ) by {}
        assert forall|i: int, j: int| both_pruned(before, i, j) implies #[trigger] both_pruned(
            events,
            i,
            j,
        ) by {}
        let (_, session) = prune_run(store, start, before);
        let (_, next) = prune_run(store, start, events);
        if session is PruneAttestations && next is PruneBlocks {
            assert(attestations_pruned(events, last));
        }
        if session is PruneBlocks {
            let i = choose|i: int| #[trigger] attestations_pruned(before, i);
            assert(attestations_pruned(events, i));
            if next is Completed {
                assert(both_pruned(events, i, last));
            }
        }
        if session is Completed {
            let (i, j) = choose|i: int, j: int| #[trigger] both_pruned(before, i, j);
            assert(both_pruned(events, i, j));
        }
    }
}

/// Attestations were pruned at step `i`.
pub open spec fn attestations_pruned<X>(events: Seq<PruneEvent<X>>, i: int) -> bool {
    &&& 0 <= i < events.len()
    &&& events[i] is AttestationsPruned
    &&& events[i]->AttestationsPruned_0 is Ok
}

/// Attestations were pruned at step `i`, and blocks at the later step `j`.
pub open spec fn both_pruned<X>(events: Seq<PruneEvent<X>>, i: int, j: int) -> bool {
    &&& attestations_pruned(events, i)
    &&& i < j < events.len()
    &&& events[j] is BlocksPruned
    &&& events[j]->BlocksPruned_0 is Ok
}

/// Where answers take a store, each to some pruning that was started at some time.
pub open spec fn overlapping_run<X>(
    store: StoreView,
    answers: Seq<(PruningView<X>, PruneEvent<X>)>,
) -> StoreView
    decreases answers.len(),
{
    if answers.len() == 0 {
        store
    } else {
        let (session, event) = answers.last();
        overlapping_run(store, answers.drop_last()).prune_step(session, event).0
    }
}

/// However prunings overlap, and whatever the database answers, the epoch of the last prune never
/// goes back, and nothing else of the store changes. What is not due stays so. Each pruning that
/// went through is remembered by its own epoch or a later one.
pub proof fn law_last_prune_never_goes_back<X>(
    store: StoreView,
    answers: Seq<(PruningView<X>, PruneEvent<X>)>,
)
    ensures
        ({
            let after = overlapping_run(store, answers);
            &&& after.last_prune.0 >= store.last_prune.0
            &&& after == (StoreView { last_prune: after.last_prune, ..store })
            &&& forall|epoch: Epoch| !store.prune_due(epoch) ==> !#[trigger] after.prune_due(epoch)
            &&& forall|i: int|
                0 <= i < answers.len() && (#[trigger] answers[i]).0 is PruneBlocks && answers[i].1
                    is BlocksPruned && answers[i].1->BlocksPruned_0 is Ok
                    ==> after.last_prune.0 >= answers[i].0->PruneBlocks_0.current_epoch.0
        }),
    decreases answers.len(),
{
    if answers.len() > 0 {
        let before = answers.drop_last();
        law_last_prune_never_goes_back(store, before);
        assert(forall|i: int| 0 <= i < before.len() ==> before[i] == #[trigger] answers[i]);
        let middle = overlapping_run(store, before);
        let after = overlapping_run(store, answers);
        assert forall|epoch: Epoch| !store.prune_due(epoch) implies !#[trigger] after.prune_due(
            epoch,
        ) by {
            assert(!middle.prune_due(epoch));
        }
    }
}

} // verus!
