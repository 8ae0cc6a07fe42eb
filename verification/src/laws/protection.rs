//! What holds of doppelganger protection.

use vstd::prelude::*;

use crate::chain_spec::Domain;
use crate::doppelganger::{DoppelgangerService, DoppelgangerState, DoppelgangerStatus};
use crate::error::Error;
use crate::initialized_validators::SigningMethod;
use crate::laws::plain::{
    answers_under_protection, answers_without_protection, is_known, is_safe,
};
use crate::primitives::{Epoch, PublicKeyBytes, Slot};
use crate::store::{answers, somes, StoreView, ValidatorStore};

verus! {

/// Picking by a test is filtering.
proof fn lemma_somes_of_filter(
    pubkeys: Seq<PublicKeyBytes>,
    picked: Seq<Option<PublicKeyBytes>>,
    keep: spec_fn(PublicKeyBytes) -> bool,
)
    requires
        picked.len() == pubkeys.len(),
        forall|i: int|
            0 <= i < pubkeys.len() ==> #[trigger] picked[i] == (if keep(pubkeys[i]) {
                Some(pubkeys[i])
            } else {
                None
            }),
    ensures
        somes(picked) == pubkeys.filter(keep),
    decreases pubkeys.len(),
{
    reveal(Seq::filter);
    if pubkeys.len() > 0 {
        lemma_somes_of_filter(pubkeys.drop_last(), picked.drop_last(), keep);
        assert(picked.last() == picked[pubkeys.len() - 1]);
    }
}

/// Filtering makes no key occur twice.
proof fn lemma_filter_keeps_each_once(
    pubkeys: Seq<PublicKeyBytes>,
    keep: spec_fn(PublicKeyBytes) -> bool,
)
    requires
        pubkeys.no_duplicates(),
    ensures
        pubkeys.filter(keep).no_duplicates(),
    decreases pubkeys.len(),
{
    reveal(Seq::filter);
    if pubkeys.len() > 0 {
        let before = pubkeys.drop_last();
        lemma_filter_keeps_each_once(before, keep);
        lemma_filter_contains(before, keep, pubkeys.last());
        assert(!before.contains(pubkeys.last()));
        assert forall|i: int, j: int|
            0 <= i < j < pubkeys.filter(keep).len() implies #[trigger] pubkeys.filter(keep)[i]
            != #[trigger] pubkeys.filter(keep)[j] by {
            let kept = before.filter(keep);
            if j == kept.len() {
                assert(kept.contains(kept[i]));
            }
        }
    }
}

/// What `voting_pubkeys(DoppelgangerStatus::only_safe)` returns are the keys that doppelganger
/// protection lets sign, each once.
pub proof fn law_only_safe_picks_safe(store: StoreView, picked: Seq<Option<PublicKeyBytes>>)
    requires
        store.wf(),
        answers(DoppelgangerStatus::only_safe, store.statuses(), picked),
    ensures
        somes(picked) == store.safe_pubkeys(),
        store.safe_pubkeys().no_duplicates(),
{
    let keep = |pubkey: PublicKeyBytes| store.allows_signing(pubkey);
    assert forall|i: int| 0 <= i < picked.len() implies #[trigger] picked[i] == (if keep(
        store.voting_pubkeys[i],
    ) {
        Some(store.voting_pubkeys[i])
    } else {
        None
    }) by {
        assert(call_ensures(DoppelgangerStatus::only_safe, (store.statuses()[i],), picked[i]));
    }
    lemma_somes_of_filter(store.voting_pubkeys, picked, keep);
    lemma_filter_keeps_each_once(store.voting_pubkeys, keep);
}

/// What `voting_pubkeys(DoppelgangerStatus::ignored)` returns are the keys that doppelganger
/// protection knows, each once.
pub proof fn law_ignored_picks_watched(store: StoreView, picked: Seq<Option<PublicKeyBytes>>)
    requires
        store.wf(),
        answers(DoppelgangerStatus::ignored, store.statuses(), picked),
    ensures
        somes(picked) == store.watched_pubkeys(),
        store.watched_pubkeys().no_duplicates(),
{
    let keep = |pubkey: PublicKeyBytes| !(store.status(pubkey) is UnknownToDoppelganger);
    assert forall|i: int| 0 <= i < picked.len() implies #[trigger] picked[i] == (if keep(
        store.voting_pubkeys[i],
    ) {
        Some(store.voting_pubkeys[i])
    } else {
        None
    }) by {
        assert(call_ensures(DoppelgangerStatus::ignored, (store.statuses()[i],), picked[i]));
    }
    lemma_somes_of_filter(store.voting_pubkeys, picked, keep);
    lemma_filter_keeps_each_once(store.voting_pubkeys, keep);
}

/// A key is in a filtered sequence if it is in the sequence and passes the filter.
pub proof fn lemma_filter_contains(
    pubkeys: Seq<PublicKeyBytes>,
    keep: spec_fn(PublicKeyBytes) -> bool,
    pubkey: PublicKeyBytes,
)
    ensures
        pubkeys.filter(keep).contains(pubkey) <==> pubkeys.contains(pubkey) && keep(pubkey),
{
    broadcast use vstd::seq_lib::group_filter_ensures;

    if pubkeys.filter(keep).contains(pubkey) {
        let i = pubkeys.filter(keep).index_of(pubkey);
        assert(pubkeys.filter(keep)[i] == pubkey);
        pubkeys.lemma_filter_contains_rev(keep, pubkey);
    }
    if pubkeys.contains(pubkey) && keep(pubkey) {
        let i = pubkeys.index_of(pubkey);
        assert(pubkeys[i] == pubkey);
    }
}

/// A key is voted with exactly if its validator is enabled.
pub proof fn law_voting_pubkeys_are_enabled(store: StoreView, pubkey: PublicKeyBytes)
    requires
        store.wf(),
    ensures
        store.voting_pubkeys.contains(pubkey) <==> store.validators.contains_key(pubkey),
{
    assert(store.voting_pubkeys.contains(pubkey) <==> store.voting_pubkeys.to_set().contains(
        pubkey,
    ));
}

/// The statuses are those of the voting keys, one for each and in their order.
pub proof fn law_statuses_match_pubkeys(store: StoreView, i: int)
    requires
        0 <= i < store.voting_pubkeys.len(),
    ensures
        store.statuses().len() == store.voting_pubkeys.len(),
        store.statuses()[i].pubkey() == store.voting_pubkeys[i],
{
}

/// The keys that protection knows are the safe ones *plus* those that still undergo protection.
pub proof fn law_watched_is_safe_plus_undergoing(store: StoreView, pubkey: PublicKeyBytes)
    requires
        store.wf(),
    ensures
        store.watched_pubkeys().contains(pubkey) <==> {
            ||| store.safe_pubkeys().contains(pubkey)
            ||| store.validators.contains_key(pubkey) && store.status(pubkey) is SigningDisabled
        },
{
    law_voting_pubkeys_are_enabled(store, pubkey);
    lemma_filter_contains(
        store.voting_pubkeys,
        |key: PublicKeyBytes| store.allows_signing(key),
        pubkey,
    );
    lemma_filter_contains(
        store.voting_pubkeys,
        |key: PublicKeyBytes| !(store.status(key) is UnknownToDoppelganger),
        pubkey,
    );
}

/// A key gets a signing method under protection exactly if it is one of the safe keys. The method
/// is then the one that it has without protection.
pub proof fn law_safe_pubkeys_sign<X>(store: StoreView, pubkey: PublicKeyBytes)
    requires
        store.wf(),
    ensures
        store.checked_method::<X>(pubkey) is Ok <==> store.safe_pubkeys().contains(pubkey),
        store.checked_method::<X>(pubkey) is Ok ==> store.checked_method::<X>(pubkey)
            == store.bypassed_method::<X>(pubkey),
{
    law_voting_pubkeys_are_enabled(store, pubkey);
    lemma_filter_contains(
        store.voting_pubkeys,
        |key: PublicKeyBytes| store.allows_signing(key),
        pubkey,
    );
}

/// Where protection is disabled, every key may sign, and protection holds nothing back.
pub proof fn law_disabled_protection_allows_all<X>(store: StoreView, pubkey: PublicKeyBytes)
    requires
        store.doppelganger is None,
    ensures
        store.allows_signing(pubkey),
        store.checked_method::<X>(pubkey) == store.bypassed_method::<X>(pubkey),
        store.safe_pubkeys() == store.voting_pubkeys,
        store.watched_pubkeys() == store.voting_pubkeys,
{
    lemma_filter_all(store.voting_pubkeys, |key: PublicKeyBytes| store.allows_signing(key));
    lemma_filter_all(
        store.voting_pubkeys,
        |key: PublicKeyBytes| !(store.status(key) is UnknownToDoppelganger),
    );
}

/// A filter that keeps everything changes nothing.
proof fn lemma_filter_all(pubkeys: Seq<PublicKeyBytes>, keep: spec_fn(PublicKeyBytes) -> bool)
    requires
        forall|i: int| 0 <= i < pubkeys.len() ==> keep(#[trigger] pubkeys[i]),
    ensures
        pubkeys.filter(keep) == pubkeys,
    decreases pubkeys.len(),
{
    reveal(Seq::filter);
    if pubkeys.len() > 0 {
        lemma_filter_all(pubkeys.drop_last(), keep);
        assert(pubkeys.drop_last().push(pubkeys.last()) =~= pubkeys);
    }
}

/// A key that protection holds back, because it watches it still or does not know it, gets no
/// signing method for messages that can be slashed, and is told why. If it is enabled, it keeps the
/// method for messages that cannot be slashed.
pub proof fn law_protected_key_is_refused<X>(store: StoreView, pubkey: PublicKeyBytes)
    requires
        store.doppelganger matches Some(states) && (!states.contains_key(pubkey)
            || states[pubkey].requires_further_checks),
    ensures
        !store.allows_signing(pubkey),
        store.checked_method::<X>(pubkey) == Err::<SigningMethod, Error<X>>(
            Error::DoppelgangerProtected(pubkey),
        ),
        store.validators.contains_key(pubkey) ==> store.bypassed_method::<X>(pubkey) is Ok,
{
}

/// What is signed without regard to protection does not depend on it: neither the method nor what
/// the signature commits to.
pub proof fn law_bypassed_ignores_protection<X>(
    store: StoreView,
    doppelganger: Option<Map<PublicKeyBytes, DoppelgangerState>>,
    pubkey: PublicKeyBytes,
    domain: Domain,
    epoch: Epoch,
    slot: Slot,
)
    ensures
        ({
            let other = StoreView { doppelganger, ..store };
            &&& other.bypassed_method::<X>(pubkey) == store.bypassed_method::<X>(pubkey)
            &&& other.context(domain, epoch) == store.context(domain, epoch)
            &&& other.slot_domain(domain, slot) == store.slot_domain(domain, slot)
        }),
{
}

/// The status is the one that protection has for the key: it may sign if it is safe, undergoes
/// protection if it is known and not safe, and is unknown otherwise.
pub open spec fn is_status_of(
    store: StoreView,
    pubkey: PublicKeyBytes,
    status: DoppelgangerStatus,
) -> bool {
    &&& is_safe(store, pubkey) ==> status == DoppelgangerStatus::SigningEnabled(pubkey)
    &&& is_known(store, pubkey) && !is_safe(store, pubkey) ==> status
        == DoppelgangerStatus::SigningDisabled(pubkey)
    &&& !is_known(store, pubkey) ==> status == DoppelgangerStatus::UnknownToDoppelganger(pubkey)
}

/// Protection tells of a key what it was last told of it.
pub proof fn law_service_tells_what_it_was_told(
    service: &mut DoppelgangerService,
    pubkey: PublicKeyBytes,
    state: DoppelgangerState,
    other: PublicKeyBytes,
    before: DoppelgangerStatus,
    after: DoppelgangerStatus,
)
    requires
        call_ensures(DoppelgangerService::validator_status, (&*old(service), other), before),
        call_ensures(DoppelgangerService::set_state, (service, pubkey, state), ()),
        call_ensures(DoppelgangerService::validator_status, (&*final(service), other), after),
    ensures
        other != pubkey ==> after == before,
        other == pubkey && state.requires_further_checks ==> after
            == DoppelgangerStatus::SigningDisabled(pubkey),
        other == pubkey && !state.requires_further_checks ==> after
            == DoppelgangerStatus::SigningEnabled(pubkey),
{
}

/// Protection does not know a key that it was told to forget. Of other keys it tells what it did.
pub proof fn law_service_forgets(
    service: &mut DoppelgangerService,
    pubkey: PublicKeyBytes,
    other: PublicKeyBytes,
    before: DoppelgangerStatus,
    after: DoppelgangerStatus,
)
    requires
        call_ensures(DoppelgangerService::validator_status, (&*old(service), other), before),
        call_ensures(DoppelgangerService::remove, (service, &pubkey), ()),
        call_ensures(DoppelgangerService::validator_status, (&*final(service), other), after),
    ensures
        other != pubkey ==> after == before,
        other == pubkey ==> after == DoppelgangerStatus::UnknownToDoppelganger(pubkey),
{
}

/// Protection tells of a key what it holds of it, by the flag that it holds.
pub proof fn law_service_status_by_fields(
    service: DoppelgangerService,
    pubkey: PublicKeyBytes,
    status: DoppelgangerStatus,
)
    requires
        call_ensures(DoppelgangerService::validator_status, (&service, pubkey), status),
    ensures
        !service@.contains_key(pubkey) ==> status == DoppelgangerStatus::UnknownToDoppelganger(
            pubkey,
        ),
        service@.contains_key(pubkey) && service@[pubkey].requires_further_checks ==> status
            == DoppelgangerStatus::SigningDisabled(pubkey),
        service@.contains_key(pubkey) && !service@[pubkey].requires_further_checks ==> status
            == DoppelgangerStatus::SigningEnabled(pubkey),
{
}

/// New protection knows no key.
pub proof fn law_new_service_knows_nothing(
    service: DoppelgangerService,
    pubkey: PublicKeyBytes,
    status: DoppelgangerStatus,
)
    requires
        call_ensures(DoppelgangerService::new, (), service),
        call_ensures(DoppelgangerService::validator_status, (&service, pubkey), status),
    ensures
        status == DoppelgangerStatus::UnknownToDoppelganger(pubkey),
{
}

/// `only_safe` hands out the keys that may sign, and `ignored` also those that undergo protection.
/// Neither hands out a key that is unknown, nor any but its own.
pub proof fn law_filters_hand_out_own_key(
    status: DoppelgangerStatus,
    safe: Option<PublicKeyBytes>,
    known: Option<PublicKeyBytes>,
)
    requires
        call_ensures(DoppelgangerStatus::only_safe, (status,), safe),
        call_ensures(DoppelgangerStatus::ignored, (status,), known),
    ensures
        match status {
            DoppelgangerStatus::SigningEnabled(pubkey) => safe == Some(pubkey) && known == Some(
                pubkey,
            ),
            DoppelgangerStatus::SigningDisabled(pubkey) => safe is None && known == Some(pubkey),
            DoppelgangerStatus::UnknownToDoppelganger(_) => safe is None && known is None,
        },
{
}

/// The statuses of a store are those that protection has for its keys, in their order.
pub proof fn law_statuses_by_fields(store: ValidatorStore, statuses: Vec<DoppelgangerStatus>)
    requires
        call_ensures(ValidatorStore::doppelganger_statuses, (&store,), statuses),
    ensures
        statuses@.len() == store@.voting_pubkeys.len(),
        forall|i: int|
            #![trigger statuses@[i]]
            0 <= i < statuses@.len() ==> is_status_of(
                store@,
                store@.voting_pubkeys[i],
                statuses@[i],
            ),
{
}

/// Picking is putting through a function and keeping what it gives.
proof fn lemma_somes_is_filter_map<T>(
    items: Seq<T>,
    picked: Seq<Option<PublicKeyBytes>>,
    pick: spec_fn(T) -> Option<PublicKeyBytes>,
)
    requires
        picked.len() == items.len(),
        forall|i: int| 0 <= i < items.len() ==> #[trigger] picked[i] == pick(items[i]),
    ensures
        somes(picked) == items.filter_map(pick),
    decreases items.len(),
{
    if items.len() > 0 {
        lemma_somes_is_filter_map(items.drop_last(), picked.drop_last(), pick);
        assert(picked.last() == picked[items.len() - 1]);
        assert(somes(picked) =~= items.filter_map(pick));
    }
}

/// Whatever the filter, the keys that come back are those that it hands out for the statuses that
/// protection has for the voting keys, in their order. Here `pick` is what the filter returns, and
/// `status` the status of each key.
pub proof fn law_voting_pubkeys_by_filter<
    F: Fn(DoppelgangerStatus) -> Option<PublicKeyBytes>,
>(
    store: ValidatorStore,
    filter_func: F,
    pick: spec_fn(DoppelgangerStatus) -> Option<PublicKeyBytes>,
    status: spec_fn(PublicKeyBytes) -> DoppelgangerStatus,
    pubkeys: Vec<PublicKeyBytes>,
)
    requires
        forall|s: DoppelgangerStatus, out: Option<PublicKeyBytes>| #[trigger]
            call_ensures(filter_func, (s,), out) ==> out == pick(s),
        forall|pubkey: PublicKeyBytes| is_status_of(store@, pubkey, #[trigger] status(pubkey)),
        call_ensures(ValidatorStore::voting_pubkeys::<F>, (&store, filter_func), pubkeys),
    ensures
        pubkeys@ == store@.voting_pubkeys.filter_map(
            |pubkey: PublicKeyBytes| pick(status(pubkey)),
        ),
{
    let picked = choose|picked: Seq<Option<PublicKeyBytes>>| #[trigger]
        answers(filter_func, store@.statuses(), picked) && pubkeys@ == somes(picked);
    let both = |pubkey: PublicKeyBytes| pick(status(pubkey));
    assert forall|i: int| 0 <= i < store@.voting_pubkeys.len() implies #[trigger] picked[i] == both(
        store@.voting_pubkeys[i],
    ) by {
        let pubkey = store@.voting_pubkeys[i];
        assert(is_status_of(store@, pubkey, status(pubkey)));
        assert(call_ensures(filter_func, (store@.statuses()[i],), picked[i]));
    }
    lemma_somes_is_filter_map(store@.voting_pubkeys, picked, both);
}

/// What comes back is what the filter has handed out for each status.
proof fn lemma_filter_was_asked<F: Fn(DoppelgangerStatus) -> Option<PublicKeyBytes>>(
    store: ValidatorStore,
    filter_func: F,
    pubkeys: Vec<PublicKeyBytes>,
)
    requires
        call_ensures(ValidatorStore::voting_pubkeys::<F>, (&store, filter_func), pubkeys),
    ensures
        exists|picked: Seq<Option<PublicKeyBytes>>| #[trigger]
            answers(filter_func, store@.statuses(), picked) && pubkeys@ == somes(picked),
{
}

/// The safe keys are the voting keys that are safe, in their order, and the known ones those that
/// are known.
pub proof fn law_common_filters_by_fields(
    store: ValidatorStore,
    safe: Vec<PublicKeyBytes>,
    known: Vec<PublicKeyBytes>,
)
    requires
        store@.wf(),
        call_ensures(
            ValidatorStore::voting_pubkeys,
            (&store, DoppelgangerStatus::only_safe),
            safe,
        ),
        call_ensures(
            ValidatorStore::voting_pubkeys,
            (&store, DoppelgangerStatus::ignored),
            known,
        ),
    ensures
        safe@ == store@.voting_pubkeys.filter(|pubkey: PublicKeyBytes| is_safe(store@, pubkey)),
        known@ == store@.voting_pubkeys.filter(|pubkey: PublicKeyBytes| is_known(store@, pubkey)),
{
    lemma_filter_was_asked(store, DoppelgangerStatus::only_safe, safe);
    let picked = choose|picked: Seq<Option<PublicKeyBytes>>| #[trigger]
        answers(DoppelgangerStatus::only_safe, store@.statuses(), picked) && safe@ == somes(picked);
    law_only_safe_picks_safe(store@, picked);
    lemma_filter_was_asked(store, DoppelgangerStatus::ignored, known);
    let picked = choose|picked: Seq<Option<PublicKeyBytes>>| #[trigger]
        answers(DoppelgangerStatus::ignored, store@.statuses(), picked) && known@ == somes(picked);
    law_ignored_picks_watched(store@, picked);
    lemma_watched_are_known(store@);
}

/// The keys that are let sign are the safe ones, and those that are watched the known ones.
pub proof fn lemma_watched_are_known(store: StoreView)
    ensures
        store.safe_pubkeys() == store.voting_pubkeys.filter(
            |pubkey: PublicKeyBytes| is_safe(store, pubkey),
        ),
        store.watched_pubkeys() == store.voting_pubkeys.filter(
            |pubkey: PublicKeyBytes| is_known(store, pubkey),
        ),
{
    assert((|pubkey: PublicKeyBytes| store.allows_signing(pubkey)) =~= (|pubkey: PublicKeyBytes|
        is_safe(store, pubkey)));
    assert((|pubkey: PublicKeyBytes| !(store.status(pubkey) is UnknownToDoppelganger)) =~= (
    |pubkey: PublicKeyBytes| is_known(store, pubkey)));
}

/// A key may sign under protection exactly if it is safe. It then has the method of its validator,
/// which it has in any case for messages that cannot be slashed.
pub proof fn law_methods_by_fields<X>(
    store: ValidatorStore,
    pubkey: PublicKeyBytes,
    allows: bool,
    checked: Result<SigningMethod, Error<X>>,
    bypassed: Result<SigningMethod, Error<X>>,
    enabled: bool,
)
    requires
        call_ensures(
            ValidatorStore::doppelganger_protection_allows_signing,
            (&store, pubkey),
            allows,
        ),
        call_ensures(
            ValidatorStore::doppelganger_checked_signing_method::<X>,
            (&store, pubkey),
            checked,
        ),
        call_ensures(
            ValidatorStore::doppelganger_bypassed_signing_method::<X>,
            (&store, pubkey),
            bypassed,
        ),
        call_ensures(ValidatorStore::doppelganger_protection_enabled, (&store,), enabled),
    ensures
        allows <==> is_safe(store@, pubkey),
        answers_under_protection(store@, pubkey, checked),
        answers_without_protection(store@, pubkey, bypassed),
        checked matches Ok(method) ==> method == store@.validators[pubkey].signing_method,
        bypassed matches Ok(method) ==> method == store@.validators[pubkey].signing_method,
        enabled <==> store@.doppelganger is Some,
{
}

} // verus!
