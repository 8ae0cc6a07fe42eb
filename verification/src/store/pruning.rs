//! The pruning of the slashing protection database.

use vstd::prelude::*;

use crate::doppelganger::DoppelgangerStatus;
use crate::error::NotSafe;
use crate::laws::protection::law_ignored_picks_watched;
use crate::pending::Pending;
use crate::primitives::{epochs_before, start_of, Epoch, PublicKeyBytes, Slot};
use crate::store::{answers, somes, StoreView, ValidatorStore};

verus! {

/// Number of epochs of slashing protection history to keep.
///
/// This acts as a maximum safe-guard against clock drift.
pub const SLASHING_PROTECTION_HISTORY_EPOCHS: u64 = 512;

/// What is pruned: all that lies before these bounds, for these keys.
#[derive(Debug, PartialEq, Eq)]
pub struct PrunePlan {
    pub current_epoch: Epoch,
    /// The caller has not pruned before, so that pruning may take long.
    pub first_run: bool,
    pub pubkeys: Vec<PublicKeyBytes>,
    pub new_min_target_epoch: Epoch,
    pub new_min_slot: Slot,
}

/// The pruning of the slashing protection database.
#[derive(Debug, PartialEq, Eq)]
pub enum Pruning<X> {
    /// It is too early to prune again.
    NotDue,
    /// Attestations whose target lies before the bound are to be pruned.
    PruneAttestations(PrunePlan),
    /// Blocks whose slot lies before the bound are to be pruned.
    PruneBlocks(PrunePlan),
    /// Attestations could not be pruned. Pruning stays due.
    AttestationsFailed(NotSafe<X>),
    /// Blocks could not be pruned. Pruning stays due.
    BlocksFailed(NotSafe<X>),
    /// Attestations and blocks were pruned.
    Completed,
}

/// An answer to what pruning asks for.
#[derive(Debug, PartialEq, Eq)]
pub enum PruneEvent<X> {
    AttestationsPruned(Result<(), NotSafe<X>>),
    BlocksPruned(Result<(), NotSafe<X>>),
}

/// What a plan stands for.
#[verifier::ext_equal]
pub struct PrunePlanView {
    pub current_epoch: Epoch,
    pub first_run: bool,
    pub pubkeys: Seq<PublicKeyBytes>,
    pub new_min_target_epoch: Epoch,
    pub new_min_slot: Slot,
}

impl View for PrunePlan {
    type V = PrunePlanView;

    open spec fn view(&self) -> PrunePlanView {
        PrunePlanView {
            current_epoch: self.current_epoch,
            first_run: self.first_run,
            pubkeys: self.pubkeys@,
            new_min_target_epoch: self.new_min_target_epoch,
            new_min_slot: self.new_min_slot,
        }
    }
}

/// What pruning stands for.
pub enum PruningView<X> {
    NotDue,
    PruneAttestations(PrunePlanView),
    PruneBlocks(PrunePlanView),
    AttestationsFailed(NotSafe<X>),
    BlocksFailed(NotSafe<X>),
    Completed,
}

impl<X> View for Pruning<X> {
    type V = PruningView<X>;

    open spec fn view(&self) -> PruningView<X> {
        match *self {
            Pruning::NotDue => PruningView::NotDue,
            Pruning::PruneAttestations(plan) => PruningView::PruneAttestations(plan@),
            Pruning::PruneBlocks(plan) => PruningView::PruneBlocks(plan@),
            Pruning::AttestationsFailed(e) => PruningView::AttestationsFailed(e),
            Pruning::BlocksFailed(e) => PruningView::BlocksFailed(e),
            Pruning::Completed => PruningView::Completed,
        }
    }
}

/// The later of two epochs.
pub open spec fn later_of(a: Epoch, b: Epoch) -> Epoch {
    if a.0 < b.0 { b } else { a }
}

impl StoreView {
    /// Pruning is due at `current_epoch`: since the last time, another stretch of the history to
    /// keep has begun.
    pub open spec fn prune_due(self, current_epoch: Epoch) -> bool {
        current_epoch.0 / SLASHING_PROTECTION_HISTORY_EPOCHS > self.last_prune.0
            / SLASHING_PROTECTION_HISTORY_EPOCHS
    }

    /// What is pruned at `current_epoch`.
    pub open spec fn prune_plan(self, current_epoch: Epoch, first_run: bool) -> PrunePlanView {
        let new_min_target_epoch = epochs_before(
            current_epoch,
            SLASHING_PROTECTION_HISTORY_EPOCHS,
        );
        PrunePlanView {
            current_epoch,
            first_run,
            pubkeys: self.watched_pubkeys(),
            new_min_target_epoch,
            new_min_slot: start_of(new_min_target_epoch, self.slots_per_epoch),
        }
    }

    /// Where pruning starts at `current_epoch`.
    pub open spec fn prune_start<X>(self, current_epoch: Epoch, first_run: bool) -> PruningView<X> {
        if self.prune_due(current_epoch) {
            PruningView::PruneAttestations(self.prune_plan(current_epoch, first_run))
        } else {
            PruningView::NotDue
        }
    }

    /// Where an event takes the store and the pruning. Only a prune that went through is
    /// remembered, unless a later one went through before it. An event that answers nothing that is
    /// asked changes nothing.
    pub open spec fn prune_step<X>(self, session: PruningView<X>, event: PruneEvent<X>) -> (
        StoreView,
        PruningView<X>,
    ) {
        match (session, event) {
            (PruningView::PruneAttestations(plan), PruneEvent::AttestationsPruned(pruned)) => {
                match pruned {
                    Ok(()) => (self, PruningView::PruneBlocks(plan)),
                    Err(e) => (self, PruningView::AttestationsFailed(e)),
                }
            },
            (PruningView::PruneBlocks(plan), PruneEvent::BlocksPruned(pruned)) => {
                match pruned {
                    Ok(()) => (
                        StoreView { last_prune: later_of(self.last_prune, plan.current_epoch), ..self },
                        PruningView::Completed,
                    ),
                    Err(e) => (self, PruningView::BlocksFailed(e)),
                }
            },
            (session, _) => (self, session),
        }
    }
}

impl ValidatorStore {
    /// Starts to prune the slashing protection database so that it remains performant.
    ///
    /// Something is pruned only periodically, so this is usually cheap to call. The flag
    /// `first_run` can serve to print a more verbose message.
    pub fn prune_slashing_protection_db<X>(&self, current_epoch: Epoch, first_run: bool) -> (session:
        Pending<Pruning<X>>)
        ensures
            session@@ == self@.prune_start::<X>(current_epoch, first_run),
    {
        // Attempt to prune every SLASHING_PROTECTION_HISTORY_EPOCHs, with a tolerance for
        // missing the epoch that aligns exactly.
        if current_epoch.0 / SLASHING_PROTECTION_HISTORY_EPOCHS
            <= self.slashing_protection_last_prune.0 / SLASHING_PROTECTION_HISTORY_EPOCHS {
            return Pending::new(Pruning::NotDue);
        }
        let new_min_target_epoch = current_epoch.saturating_sub(SLASHING_PROTECTION_HISTORY_EPOCHS);
        let new_min_slot = new_min_target_epoch.start_slot(self.eth_spec.slots_per_epoch());
        let pubkeys = self.voting_pubkeys(DoppelgangerStatus::ignored);
        proof {
            use_type_invariant(self);
            let picked = choose|picked: Seq<Option<PublicKeyBytes>>|
                #[trigger] answers(DoppelgangerStatus::ignored, self@.statuses(), picked)
                    && pubkeys@ == somes(picked);
            law_ignored_picks_watched(self@, picked);
        }
        let plan = PrunePlan {
            current_epoch,
            first_run,
            pubkeys,
            new_min_target_epoch,
            new_min_slot,
        };
        Pending::new(Pruning::PruneAttestations(plan))
    }

    /// Takes pruning one step on. Only a prune that went through is remembered. Where two of them
    /// overlap, the later epoch is, so the epoch of the last prune never goes back.
    pub fn prune_slashing_protection_step<X>(
        &mut self,
        session: Pending<Pruning<X>>,
        event: PruneEvent<X>,
    ) -> (next: Pending<Pruning<X>>)
        ensures
            final(self)@.wf(),
            (final(self)@, next@@) == old(self)@.prune_step(session@@, event),
            final(self)@.last_prune.0 >= old(self)@.last_prune.0,
    {
        proof {
            use_type_invariant(&*self);
        }
        let next = match (session.into_asked(), event) {
            (Pruning::PruneAttestations(plan), PruneEvent::AttestationsPruned(pruned)) => {
                match pruned {
                    Ok(()) => Pruning::PruneBlocks(plan),
                    Err(e) => Pruning::AttestationsFailed(e),
                }
            },
            (Pruning::PruneBlocks(plan), PruneEvent::BlocksPruned(pruned)) => {
                match pruned {
                    Ok(()) => {
                        if self.slashing_protection_last_prune.0 < plan.current_epoch.0 {
                            self.slashing_protection_last_prune = plan.current_epoch;
                        }
                        Pruning::Completed
                    },
                    Err(e) => Pruning::BlocksFailed(e),
                }
            },
            (session, _) => session,
        };
        Pending::new(next)
    }
}

} // verus!
