//! What holds of the export of slashing protection data.

use vstd::prelude::*;

use crate::error::{InterchangeError, NotSafe};
use crate::primitives::PublicKeyBytes;
use crate::store::interchange::{KeyExportEvent, KeyExportView};
use crate::store::StoreView;

verus! {

/// Where `events` take an export.
pub open spec fn export_run<I, X>(
    store: StoreView,
    start: KeyExportView<I, X>,
    events: Seq<KeyExportEvent<I, X>>,
) -> KeyExportView<I, X>
    decreases events.len(),
{
    if events.len() == 0 {
        start
    } else {
        store.export_step(export_run(store, start, events.drop_last()), events.last())
    }
}

/// The keys that were disabled on the way, in order.
pub open spec fn disabled_by<I, X>(
    store: StoreView,
    start: KeyExportView<I, X>,
    events: Seq<KeyExportEvent<I, X>>,
) -> Seq<PublicKeyBytes>
    decreases events.len(),
{
    if events.len() == 0 {
        Seq::empty()
    } else {
        let before = disabled_by(store, start, events.drop_last());
        match (export_run(store, start, events.drop_last()), events.last()) {
            (
                KeyExportView::Disable { remaining, .. },
                KeyExportEvent::StatusUpdated(Ok(_)),
            ) => before.push(remaining.first()),
            _ => before,
        }
    }
}

/// The answers of a database that has these ids, or none, for the keys that it is asked for, and
/// that disables all that have one.
pub open spec fn answers_for<I, X>(ids: Seq<Result<i64, NotSafe<X>>>) -> Seq<KeyExportEvent<I, X>>
    decreases ids.len(),
{
    if ids.len() == 0 {
        Seq::empty()
    } else {
        match ids.last() {
            Ok(id) => answers_for(ids.drop_last()).push(KeyExportEvent::ValidatorId(Ok(id))).push(
                KeyExportEvent::StatusUpdated(Ok(())),
            ),
            Err(e) => answers_for(ids.drop_last()).push(KeyExportEvent::ValidatorId(Err(e))),
        }
    }
}

/// Those of `pubkeys` that have an id, in order.
pub open spec fn with_id<X>(pubkeys: Seq<PublicKeyBytes>, ids: Seq<Result<i64, NotSafe<X>>>) -> Seq<
    PublicKeyBytes,
>
    decreases ids.len(),
{
    if ids.len() == 0 {
        Seq::empty()
    } else {
        let before = with_id(pubkeys, ids.drop_last());
        if ids.last() is Ok {
            before.push(pubkeys[ids.len() - 1])
        } else {
            before
        }
    }
}

/// A database that can disable keys is asked for each of the given keys once and in order. A key
/// that it does not know is silently left out, and the data of all others is exported, for the
/// chain of the store.
pub proof fn law_unknown_keys_are_left_out<I, X>(
    store: StoreView,
    pubkeys: Seq<PublicKeyBytes>,
    ids: Seq<Result<i64, NotSafe<X>>>,
)
    requires
        ids.len() <= pubkeys.len(),
    ensures
        export_run(
            store,
            store.export_of::<I, X>(pubkeys, Seq::empty()),
            answers_for(ids),
        ) == store.export_of::<I, X>(pubkeys.skip(ids.len() as int), with_id(pubkeys, ids)),
        ids.len() == pubkeys.len() ==> export_run(
            store,
            store.export_of::<I, X>(pubkeys, Seq::empty()),
            answers_for(ids),
        ) == (KeyExportView::<I, X>::Export {
            genesis_validators_root: store.genesis_validators_root,
            known: with_id(pubkeys, ids),
        }),
    decreases ids.len(),
{
    let start = store.export_of::<I, X>(pubkeys, Seq::empty());
    if ids.len() == 0 {
        assert(pubkeys.skip(0) =~= pubkeys);
    } else {
        let before = ids.drop_last();
        law_unknown_keys_are_left_out::<I, X>(store, pubkeys, before);
        let remaining = pubkeys.skip(before.len() as int);
        assert(remaining.drop_first() =~= pubkeys.skip(ids.len() as int));
        assert(remaining.first() == pubkeys[ids.len() - 1]);
        let asked = answers_for::<I, X>(before);
        match ids.last() {
            Ok(id) => {
                let looked_up = asked.push(KeyExportEvent::ValidatorId(Ok(id)));
                let disabled = looked_up.push(KeyExportEvent::StatusUpdated(Ok(())));
                assert(looked_up.drop_last() =~= asked);
                assert(disabled.drop_last() =~= looked_up);
                assert(export_run(store, start, looked_up) == (KeyExportView::<I, X>::Disable {
                    validator_id: id,
                    remaining,
                    known: with_id(pubkeys, before),
                }));
            },
            Err(e) => {
                let looked_up = asked.push(KeyExportEvent::ValidatorId(Err(e)));
                assert(looked_up.drop_last() =~= asked);
            },
        }
    }
}

/// What was found and done by the time of `session`.
pub open spec fn export_account<I, X>(
    store: StoreView,
    pubkeys: Seq<PublicKeyBytes>,
    disabled: Seq<PublicKeyBytes>,
    session: KeyExportView<I, X>,
) -> bool {
    match session {
        KeyExportView::LookUp { remaining, known } => {
            &&& known == disabled
            &&& 0 < remaining.len() <= pubkeys.len()
            &&& remaining == pubkeys.skip(pubkeys.len() - remaining.len())
        },
        KeyExportView::Disable { validator_id, remaining, known } => {
            &&& known == disabled
            &&& 0 < remaining.len() <= pubkeys.len()
            &&& remaining == pubkeys.skip(pubkeys.len() - remaining.len())
        },
        KeyExportView::Export { genesis_validators_root, known } => {
            &&& known == disabled
            &&& genesis_validators_root == store.genesis_validators_root
        },
        KeyExportView::Done(_) => true,
    }
}

/// Whatever the database answers, data is asked for exactly those keys that were disabled, and all
/// of them are among the given ones.
pub proof fn law_exported_keys_are_disabled<I, X>(
    store: StoreView,
    pubkeys: Seq<PublicKeyBytes>,
    events: Seq<KeyExportEvent<I, X>>,
)
    ensures
        export_account(
            store,
            pubkeys,
            disabled_by(store, store.export_of::<I, X>(pubkeys, Seq::empty()), events),
            export_run(store, store.export_of::<I, X>(pubkeys, Seq::empty()), events),
        ),
        forall|pubkey: PublicKeyBytes|
            disabled_by(store, store.export_of::<I, X>(pubkeys, Seq::empty()), events).contains(pubkey)
                ==> pubkeys.contains(pubkey),
    decreases events.len(),
{
    let start = store.export_of::<I, X>(pubkeys, Seq::empty());
    if events.len() == 0 {
        assert(pubkeys.skip(0) =~= pubkeys);
    } else {
        let before = events.drop_last();
        law_exported_keys_are_disabled(store, pubkeys, before);
        let session = export_run(store, start, before);
        match session {
            KeyExportView::LookUp { remaining, .. } => {
                assert(remaining.drop_first() =~= pubkeys.skip(
                    pubkeys.len() - remaining.len() + 1,
                ));
            },
            KeyExportView::Disable { remaining, .. } => {
                assert(remaining.drop_first() =~= pubkeys.skip(
                    pubkeys.len() - remaining.len() + 1,
                ));
                assert(remaining.first() == pubkeys[pubkeys.len() - remaining.len()]);
                let disabled = disabled_by(store, start, before);
                let after = disabled_by(store, start, events);
                assert forall|pubkey: PublicKeyBytes| after.contains(pubkey) implies
                    pubkeys.contains(pubkey) by {
                    let i = after.index_of(pubkey);
                    if i < disabled.len() {
                        assert(disabled[i] == pubkey);
                        assert(disabled.contains(pubkey));
                    }
                }
            },
            _ => {},
        }
    }
}

/// A failure to disable a key ends the export with that failure, and nothing is exported.
pub proof fn law_failed_disable_ends_export<I, X>(
    store: StoreView,
    validator_id: i64,
    remaining: Seq<PublicKeyBytes>,
    known: Seq<PublicKeyBytes>,
    e: NotSafe<X>,
    events: Seq<KeyExportEvent<I, X>>,
)
    ensures
        export_run(
            store,
            KeyExportView::<I, X>::Disable { validator_id, remaining, known },
            seq![KeyExportEvent::StatusUpdated(Err(e))] + events,
        ) == KeyExportView::<I, X>::Done(Err(InterchangeError::NotSafe(e))),
    decreases events.len(),
{
    let failed = seq![KeyExportEvent::<I, X>::StatusUpdated(Err(e))];
    if events.len() == 0 {
        assert(failed + events =~= failed);
        assert(failed.drop_last() =~= Seq::empty());
        reveal_with_fuel(export_run, 2);
    } else {
        assert((failed + events).drop_last() =~= failed + events.drop_last());
        law_failed_disable_ends_export(
            store,
            validator_id,
            remaining,
            known,
            e,
            events.drop_last(),
        );
    }
}

} // verus!
