//! What calls on the slashing protection database ask for, question by question.

use vstd::prelude::*;

use crate::error::InterchangeError;
use crate::laws::database::{Exchange, ExportRun};
use crate::laws::plain::is_known;
use crate::laws::protection::{
    law_voting_pubkeys_are_enabled, lemma_filter_contains, lemma_watched_are_known,
};
use crate::pending::Pending;
use crate::primitives::{Epoch, PublicKeyBytes};
use crate::store::interchange::{ImportRequest, KeyExport, KeyExportEvent, KeyExportView};
use crate::store::pruning::{PruneEvent, PrunePlan, Pruning};
use crate::store::{StoreView, ValidatorStore};

verus! {

/// A stretch of 512 epochs begins after `last`, up to `current`.
pub open spec fn stretch_begins(last: Epoch, current: Epoch) -> bool {
    exists|k: int| last.0 < #[trigger] (k * 512) <= current.0
}

/// The first epoch of the stretch that `current` lies in is the only one that matters.
proof fn lemma_stretch(last: Epoch, current: Epoch)
    ensures
        stretch_begins(last, current) <==> current.0 / 512 > last.0 / 512,
{
    if current.0 / 512 > last.0 / 512 {
        let k = (current.0 / 512) as int;
        assert(last.0 < k * 512 <= current.0);
    }
}

/// Two plans are the same but for whether the caller has pruned before.
pub open spec fn same_but_for_first_run(a: PrunePlan, b: PrunePlan) -> bool {
    &&& a.current_epoch == b.current_epoch
    &&& a.pubkeys@ == b.pubkeys@
    &&& a.new_min_target_epoch == b.new_min_target_epoch
    &&& a.new_min_slot == b.new_min_slot
}

/// Two plans are the same.
pub open spec fn same_plan(a: PrunePlan, b: PrunePlan) -> bool {
    same_but_for_first_run(a, b) && a.first_run == b.first_run
}

/// Pruning is asked for exactly if a stretch of 512 epochs has begun since the last time. Then it is
/// for all enabled keys that protection knows, each once, or for all enabled ones where protection
/// is disabled. What is kept are the last 512 epochs, and all slots of theirs.
pub proof fn law_pruning_asks<X>(
    store: ValidatorStore,
    current_epoch: Epoch,
    first_run: bool,
    session: Pending<Pruning<X>>,
    pubkey: PublicKeyBytes,
)
    requires
        store@.wf(),
        call_ensures(
            ValidatorStore::prune_slashing_protection_db::<X>,
            (&store, current_epoch, first_run),
            session,
        ),
    ensures
        !stretch_begins(store@.last_prune, current_epoch) ==> session@ is NotDue,
        stretch_begins(store@.last_prune, current_epoch) ==> (session@ matches
            Pruning::PruneAttestations(plan) && {
            let first_slot = plan.new_min_target_epoch.0 * store@.slots_per_epoch;
            &&& plan.current_epoch == current_epoch
            &&& plan.first_run == first_run
            &&& plan.pubkeys@ == store@.voting_pubkeys.filter(
                |pubkey: PublicKeyBytes| is_known(store@, pubkey),
            )
            &&& plan.pubkeys@.contains(pubkey) <==> store@.validators.contains_key(pubkey)
                && is_known(store@, pubkey)
            &&& plan.new_min_target_epoch.0 + 512 == current_epoch.0
            &&& first_slot <= u64::MAX ==> plan.new_min_slot.0 == first_slot
            &&& first_slot > u64::MAX ==> plan.new_min_slot.0 == u64::MAX
        }),
{
    lemma_stretch(store@.last_prune, current_epoch);
    lemma_watched_are_known(store@);
    law_voting_pubkeys_are_enabled(store@, pubkey);
    let known = |pubkey: PublicKeyBytes| is_known(store@, pubkey);
    lemma_filter_contains(store@.voting_pubkeys, known, pubkey);
}

/// Whether the caller has pruned before changes nothing of what is asked for: both plans differ in
/// nothing but the flag.
pub proof fn law_first_run_changes_nothing<X>(
    store: ValidatorStore,
    current_epoch: Epoch,
    first: Pending<Pruning<X>>,
    again: Pending<Pruning<X>>,
)
    requires
        call_ensures(
            ValidatorStore::prune_slashing_protection_db::<X>,
            (&store, current_epoch, true),
            first,
        ),
        call_ensures(
            ValidatorStore::prune_slashing_protection_db::<X>,
            (&store, current_epoch, false),
            again,
        ),
    ensures
        first@ is NotDue <==> again@ is NotDue,
        first@ matches Pruning::PruneAttestations(a) ==> (again@ matches
            Pruning::PruneAttestations(b) && same_but_for_first_run(a, b) && a.first_run
            && !b.first_run),
{
}

/// What each answer makes of pruning and of the store.
pub proof fn law_each_answer_on_pruning<X>(
    store: &mut ValidatorStore,
    session: Pending<Pruning<X>>,
    event: PruneEvent<X>,
    next: Pending<Pruning<X>>,
)
    requires
        call_ensures(
            ValidatorStore::prune_slashing_protection_step::<X>,
            (store, session, event),
            next,
        ),
    ensures
        match (session@, event) {
            (Pruning::PruneAttestations(plan), PruneEvent::AttestationsPruned(pruned)) => {
                &&& final(store)@ == old(store)@
                &&& pruned is Ok ==> (next@ matches Pruning::PruneBlocks(kept) && same_plan(
                    kept,
                    plan,
                ))
                &&& pruned matches Err(e) ==> (next@ matches Pruning::AttestationsFailed(told)
                    && told == e)
            },
            (Pruning::PruneBlocks(plan), PruneEvent::BlocksPruned(pruned)) => {
                &&& pruned is Ok ==> {
                    let before = old(store)@;
                    let after = final(store)@;
                    &&& next@ is Completed
                    &&& after.last_prune == before.last_prune || after.last_prune
                        == plan.current_epoch
                    &&& after.last_prune.0 >= before.last_prune.0
                    &&& after.last_prune.0 >= plan.current_epoch.0
                    &&& after.validators == before.validators
                    &&& after.voting_pubkeys == before.voting_pubkeys
                    &&& after.doppelganger == before.doppelganger
                    &&& after.genesis_validators_root == before.genesis_validators_root
                    &&& after.spec == before.spec
                    &&& after.slots_per_epoch == before.slots_per_epoch
                    &&& after.config == before.config
                }
                &&& pruned matches Err(e) ==> {
                    &&& next@ matches Pruning::BlocksFailed(told) && told == e
                    &&& final(store)@ == old(store)@
                }
            },
            (Pruning::PruneAttestations(plan), _) => {
                &&& final(store)@ == old(store)@
                &&& next@ matches Pruning::PruneAttestations(kept) && same_plan(kept, plan)
            },
            (Pruning::PruneBlocks(plan), _) => {
                &&& final(store)@ == old(store)@
                &&& next@ matches Pruning::PruneBlocks(kept) && same_plan(kept, plan)
            },
            (Pruning::NotDue, _) => final(store)@ == old(store)@ && next@ is NotDue,
            (Pruning::Completed, _) => final(store)@ == old(store)@ && next@ is Completed,
            (Pruning::AttestationsFailed(e), _) => {
                &&& final(store)@ == old(store)@
                &&& next@ matches Pruning::AttestationsFailed(told) && told == e
            },
            (Pruning::BlocksFailed(e), _) => {
                &&& final(store)@ == old(store)@
                &&& next@ matches Pruning::BlocksFailed(told) && told == e
            },
        },
{
}

/// What is imported is the data that was given, for the chain of the store. A failure is passed on.
pub proof fn law_import_asks<I, R, X>(
    store: ValidatorStore,
    interchange: I,
    asked: Pending<ImportRequest<I>>,
    imported: Result<R, InterchangeError<X>>,
    done: Result<(), InterchangeError<X>>,
)
    requires
        call_ensures(
            ValidatorStore::import_slashing_protection::<I>,
            (&store, interchange),
            asked,
        ),
        call_ensures(Pending::<ImportRequest<I>>::finish::<R, X>, (asked, imported), done),
    ensures
        asked@.interchange == interchange,
        asked@.genesis_validators_root == store@.genesis_validators_root,
        imported is Ok ==> done is Ok,
        imported matches Err(e) ==> done == Err::<(), InterchangeError<X>>(e),
{
}

/// The export goes on with `remaining`, after `known` was disabled: the first of them is looked up
/// next, and the data is asked for once there is none.
pub open spec fn export_goes_on_with<I, X>(
    store: StoreView,
    session: KeyExport<I, X>,
    remaining: Seq<PublicKeyBytes>,
    known: Seq<PublicKeyBytes>,
) -> bool {
    if remaining.len() > 0 {
        session matches KeyExport::LookUp { pubkey, rest, known_pubkeys } && {
            &&& pubkey == remaining[0]
            &&& rest@ == remaining.drop_first()
            &&& known_pubkeys@ == known
        }
    } else {
        session matches KeyExport::Export { genesis_validators_root, known_pubkeys } && {
            &&& genesis_validators_root == store.genesis_validators_root
            &&& known_pubkeys@ == known
        }
    }
}

/// The first key and the rest make up all.
proof fn lemma_first_and_rest(pubkey: PublicKeyBytes, rest: Seq<PublicKeyBytes>)
    ensures
        (seq![pubkey] + rest)[0] == pubkey,
        (seq![pubkey] + rest).first() == pubkey,
        (seq![pubkey] + rest).drop_first() == rest,
        (seq![pubkey] + rest).len() == rest.len() + 1,
{
    assert((seq![pubkey] + rest).drop_first() =~= rest);
}

/// What an export stands for shows what it goes on with.
proof fn lemma_export_goes_on<I, X>(
    store: StoreView,
    session: KeyExport<I, X>,
    remaining: Seq<PublicKeyBytes>,
    known: Seq<PublicKeyBytes>,
)
    requires
        session@ == store.export_of::<I, X>(remaining, known),
    ensures
        export_goes_on_with(store, session, remaining, known),
{
    match session {
        KeyExport::LookUp { pubkey, rest, known_pubkeys } => {
            lemma_first_and_rest(pubkey, rest@);
        },
        KeyExport::Disable { pubkey, rest, .. } => {
            lemma_first_and_rest(pubkey, rest@);
        },
        _ => {},
    }
}

/// An export starts with the first of the given keys, and with none disabled.
pub proof fn law_export_starts_with_all_keys<I, X>(
    store: ValidatorStore,
    pubkeys: &[PublicKeyBytes],
    session: Pending<KeyExport<I, X>>,
)
    requires
        call_ensures(
            ValidatorStore::export_slashing_protection_for_keys::<I, X>,
            (&store, pubkeys),
            session,
        ),
    ensures
        export_goes_on_with(store@, session@, pubkeys@, Seq::empty()),
{
    lemma_export_goes_on(store@, session@, pubkeys@, Seq::empty());
}

/// What each answer makes of an export. A key that is found is to be disabled, by the id that it was
/// found with; one that is not is left out. A key that was disabled is known, and a failure to
/// disable one ends the export. What the database exports, or why it does not, is what the export
/// comes to.
pub proof fn law_each_answer_on_an_export<I, X>(
    store: ValidatorStore,
    session: Pending<KeyExport<I, X>>,
    event: KeyExportEvent<I, X>,
    next: Pending<KeyExport<I, X>>,
)
    requires
        call_ensures(
            ValidatorStore::export_slashing_protection_step::<I, X>,
            (&store, session, event),
            next,
        ),
    ensures
        match (session@, event) {
            (
                KeyExport::LookUp { pubkey, rest, known_pubkeys },
                KeyExportEvent::ValidatorId(answer),
            ) => {
                &&& answer matches Ok(id) ==> (next@ matches KeyExport::Disable {
                    validator_id,
                    pubkey: key,
                    rest: others,
                    known_pubkeys: known,
                } && validator_id == id && key == pubkey && others@ == rest@ && known@
                    == known_pubkeys@)
                &&& answer is Err ==> export_goes_on_with(store@, next@, rest@, known_pubkeys@)
            },
            (
                KeyExport::Disable { validator_id, pubkey, rest, known_pubkeys },
                KeyExportEvent::StatusUpdated(updated),
            ) => {
                &&& updated is Ok ==> export_goes_on_with(
                    store@,
                    next@,
                    rest@,
                    known_pubkeys@.push(pubkey),
                )
                &&& updated matches Err(e) ==> next@ == KeyExport::<I, X>::Done(
                    Err(InterchangeError::NotSafe(e)),
                )
            },
            (
                KeyExport::Export { genesis_validators_root, known_pubkeys },
                KeyExportEvent::Exported(exported),
            ) => next@ == KeyExport::<I, X>::Done(exported),
            (KeyExport::LookUp { pubkey, rest, known_pubkeys }, _) => next@ matches
                KeyExport::LookUp { pubkey: key, rest: others, known_pubkeys: known } && key
                == pubkey && others@ == rest@ && known@ == known_pubkeys@,
            (KeyExport::Disable { validator_id, pubkey, rest, known_pubkeys }, _) => next@ matches
                KeyExport::Disable {
                validator_id: id,
                pubkey: key,
                rest: others,
                known_pubkeys: known,
            } && id == validator_id && key == pubkey && others@ == rest@ && known@
                == known_pubkeys@,
            (KeyExport::Export { genesis_validators_root, known_pubkeys }, _) => next@ matches
                KeyExport::Export { genesis_validators_root: root, known_pubkeys: known } && root
                == genesis_validators_root && known@ == known_pubkeys@,
            (KeyExport::Done(result), _) => next@ == KeyExport::<I, X>::Done(result),
        },
{
    match session@ {
        KeyExport::LookUp { pubkey, rest, known_pubkeys } => {
            lemma_first_and_rest(pubkey, rest@);
            match event {
                KeyExportEvent::ValidatorId(Err(_)) => {
                    lemma_export_goes_on(store@, next@, rest@, known_pubkeys@);
                },
                _ => {},
            }
        },
        KeyExport::Disable { pubkey, rest, known_pubkeys, .. } => {
            lemma_first_and_rest(pubkey, rest@);
            match event {
                KeyExportEvent::StatusUpdated(Ok(_)) => {
                    lemma_export_goes_on(store@, next@, rest@, known_pubkeys@.push(pubkey));
                },
                _ => {},
            }
        },
        _ => {},
    }
    match next@ {
        KeyExport::LookUp { pubkey, rest, .. } => {
            lemma_first_and_rest(pubkey, rest@);
        },
        KeyExport::Disable { pubkey, rest, .. } => {
            lemma_first_and_rest(pubkey, rest@);
        },
        _ => {},
    }
}

/// The exchange before the `m`th looked the same key up, and found it with this id.
pub open spec fn was_just_found<P, I, X>(
    record: Seq<Exchange<P, I, X>>,
    m: int,
    pubkey: PublicKeyBytes,
    validator_id: i64,
) -> bool {
    &&& 0 < m <= record.len()
    &&& record[m - 1] == (Exchange::<P, I, X>::LookUp { pubkey, answer: Ok(validator_id) })
}

/// In every export, each request to disable a validator follows directly on the lookup of the same
/// key, and is for the id with which that was answered. So what is disabled are the given keys, and
/// no other validator.
pub proof fn law_disabled_id_is_that_of_the_key<P, I, X>(run: ExportRun<I, X>)
    ensures
        forall|m: int|
            0 <= m < run.exchanges::<P>().len() ==> ((#[trigger] run.exchanges::<P>()[m]) matches
                Exchange::Disable { pubkey, validator_id, answer } ==> was_just_found(
                run.exchanges::<P>(),
                m,
                pubkey,
                validator_id,
            )),
        run.end() matches KeyExportView::Disable { validator_id, remaining, known }
            ==> was_just_found(
            run.exchanges::<P>(),
            run.exchanges::<P>().len() as int,
            remaining.first(),
            validator_id,
        ),
    decreases run.events.len(),
{
    if run.events.len() > 0 {
        let before = ExportRun { events: run.events.drop_last(), ..run };
        law_disabled_id_is_that_of_the_key::<P, I, X>(before);
        let old_record = before.exchanges::<P>();
        let record = run.exchanges::<P>();
        assert(run.end() == run.store.export_step(before.end(), run.events.last()));
        assert(forall|m: int| 0 <= m < old_record.len() ==> old_record[m] == #[trigger] record[m]);
        assert forall|m: int| 0 <= m < record.len() implies ((#[trigger] record[m]) matches
            Exchange::Disable { pubkey, validator_id, answer } ==> was_just_found(
            record,
            m,
            pubkey,
            validator_id,
        )) by {
            if m < old_record.len() {
                assert(old_record[m] == record[m]);
                if record[m] is Disable {
                    assert(old_record[m - 1] == record[m - 1]);
                }
            } else if record[m] is Disable {
                assert(m == old_record.len());
                assert(old_record[m - 1] == record[m - 1]);
            }
        }
    }
}

} // verus!
