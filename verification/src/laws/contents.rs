//! What holds of what a store and its collections are filled with.

use vstd::prelude::*;
use vstd::std_specs::cmp::PartialEqSpec;
use vstd::std_specs::convert::FromSpec;

use crate::chain_spec::{ChainSpec, EthSpec};
use crate::doppelganger::{DoppelgangerService, DoppelgangerState};
use crate::error::{Error, InterchangeError, NotSafe, SigningError};
use crate::initialized_validators::{InitializedValidator, InitializedValidators};
use crate::local_validator::LocalValidator;
use crate::primitives::{Epoch, Hash256, PublicKeyBytes};
use crate::pubkey_map::PubkeyMap;
use crate::store::{Config, StoreView, ValidatorStore};

verus! {

/// A map gives back what was last put at a key, and keeps what stands at others. A key that is there
/// keeps its place, and a new one goes to the end.
pub proof fn law_map_gives_back_what_was_put<V>(
    map: &mut PubkeyMap<V>,
    key: PublicKeyBytes,
    value: V,
    other: PublicKeyBytes,
    before: Option<&V>,
    after: Option<&V>,
    keys_before: Vec<PublicKeyBytes>,
    keys_after: Vec<PublicKeyBytes>,
)
    requires
        call_ensures(PubkeyMap::<V>::get, (&*old(map), &other), before),
        call_ensures(PubkeyMap::<V>::to_keys, (&*old(map),), keys_before),
        call_ensures(PubkeyMap::<V>::insert, (map, key, value), ()),
        call_ensures(PubkeyMap::<V>::get, (&*final(map), &other), after),
        call_ensures(PubkeyMap::<V>::to_keys, (&*final(map),), keys_after),
    ensures
        other == key ==> after == Some(&value),
        other != key ==> after == before,
        keys_before@.contains(key) ==> keys_after@ == keys_before@,
        !keys_before@.contains(key) ==> keys_after@ == keys_before@.push(key),
{
    assert(keys_before@.contains(key) <==> keys_before@.to_set().contains(key));
}

/// A map gives nothing at a key that was taken out, and keeps what stands at others, and their
/// order.
pub proof fn law_map_forgets_what_was_taken_out<V>(
    map: &mut PubkeyMap<V>,
    key: PublicKeyBytes,
    other: PublicKeyBytes,
    before: Option<&V>,
    after: Option<&V>,
    keys_before: Vec<PublicKeyBytes>,
    keys_after: Vec<PublicKeyBytes>,
)
    requires
        call_ensures(PubkeyMap::<V>::get, (&*old(map), &other), before),
        call_ensures(PubkeyMap::<V>::to_keys, (&*old(map),), keys_before),
        call_ensures(PubkeyMap::<V>::remove, (map, &key), ()),
        call_ensures(PubkeyMap::<V>::get, (&*final(map), &other), after),
        call_ensures(PubkeyMap::<V>::to_keys, (&*final(map),), keys_after),
    ensures
        other == key ==> after is None,
        other != key ==> after == before,
        keys_before@.contains(key) ==> keys_after@ == keys_before@.remove(
            keys_before@.index_of(key),
        ),
        !keys_before@.contains(key) ==> keys_after@ == keys_before@,
{
    assert(keys_before@.contains(key) <==> keys_before@.to_set().contains(key));
}

/// A map has the keys at which there is something, each once, and as many as it counts. A new one
/// has none.
pub proof fn law_map_has_its_keys<V>(
    map: PubkeyMap<V>,
    key: PublicKeyBytes,
    value: Option<&V>,
    keys: Vec<PublicKeyBytes>,
    len: usize,
    empty: PubkeyMap<V>,
    none: usize,
)
    requires
        call_ensures(PubkeyMap::<V>::get, (&map, &key), value),
        call_ensures(PubkeyMap::<V>::to_keys, (&map,), keys),
        call_ensures(PubkeyMap::<V>::len, (&map,), len),
        call_ensures(PubkeyMap::<V>::new, (), empty),
        call_ensures(PubkeyMap::<V>::len, (&empty,), none),
    ensures
        keys@.contains(key) <==> value is Some,
        keys@.no_duplicates(),
        len == keys@.len(),
        none == 0,
{
    assert(keys@.contains(key) <==> keys@.to_set().contains(key));
}

/// Validators give back the one that was last put at a key, and keep the others. A new key goes to
/// the end.
pub proof fn law_validators_give_back_what_was_put(
    validators: &mut InitializedValidators,
    pubkey: PublicKeyBytes,
    validator: InitializedValidator,
    other: PublicKeyBytes,
    before: Option<&InitializedValidator>,
    after: Option<&InitializedValidator>,
    keys_before: Vec<PublicKeyBytes>,
    keys_after: Vec<PublicKeyBytes>,
)
    requires
        call_ensures(InitializedValidators::validator, (&*old(validators), &other), before),
        call_ensures(InitializedValidators::voting_pubkeys, (&*old(validators),), keys_before),
        call_ensures(InitializedValidators::insert, (validators, pubkey, validator), ()),
        call_ensures(InitializedValidators::validator, (&*final(validators), &other), after),
        call_ensures(InitializedValidators::voting_pubkeys, (&*final(validators),), keys_after),
    ensures
        other == pubkey ==> after == Some(&validator),
        other != pubkey ==> after == before,
        keys_before@.contains(pubkey) ==> keys_after@ == keys_before@,
        !keys_before@.contains(pubkey) ==> keys_after@ == keys_before@.push(pubkey),
{
    assert(keys_before@.contains(pubkey) <==> keys_before@.to_set().contains(pubkey));
}

/// The voting keys are those of the validators, each once, and as many as are counted. At first
/// there are none.
pub proof fn law_validators_have_their_keys(
    validators: InitializedValidators,
    pubkey: PublicKeyBytes,
    validator: Option<&InitializedValidator>,
    keys: Vec<PublicKeyBytes>,
    count: usize,
    empty: InitializedValidators,
    none: usize,
)
    requires
        call_ensures(InitializedValidators::validator, (&validators, &pubkey), validator),
        call_ensures(InitializedValidators::voting_pubkeys, (&validators,), keys),
        call_ensures(InitializedValidators::num_enabled, (&validators,), count),
        call_ensures(InitializedValidators::new, (), empty),
        call_ensures(InitializedValidators::num_enabled, (&empty,), none),
    ensures
        keys@.contains(pubkey) <==> validator is Some,
        keys@.no_duplicates(),
        count == keys@.len(),
        none == 0,
{
    assert(keys@.contains(pubkey) <==> keys@.to_set().contains(pubkey));
}

/// A store that is well formed votes with each of its keys once, with those of its validators and no
/// others, and its epochs have slots.
pub proof fn law_store_votes_with_each_key_once(
    store: StoreView,
    i: int,
    j: int,
    pubkey: PublicKeyBytes,
)
    requires
        store.wf(),
        0 <= i < j < store.voting_pubkeys.len(),
    ensures
        store.voting_pubkeys[i] != store.voting_pubkeys[j],
        store.validators.contains_key(store.voting_pubkeys[i]),
        store.validators.contains_key(pubkey) <==> store.voting_pubkeys.contains(pubkey),
        store.slots_per_epoch > 0,
{
    assert(store.voting_pubkeys.contains(store.voting_pubkeys[i]));
    assert(store.voting_pubkeys.to_set().contains(store.voting_pubkeys[i]));
    assert(store.voting_pubkeys.contains(pubkey) <==> store.voting_pubkeys.to_set().contains(
        pubkey,
    ));
}

/// A new store holds what it was made of, and was never pruned.
pub proof fn law_new_store_holds_what_it_was_made_of(
    validators: InitializedValidators,
    root: Hash256,
    spec: ChainSpec,
    eth_spec: EthSpec,
    service: Option<DoppelgangerService>,
    config: Config,
    store: ValidatorStore,
    slots: u64,
)
    requires
        call_ensures(
            ValidatorStore::new,
            (validators, root, spec, eth_spec, service, &config),
            store,
        ),
        call_ensures(EthSpec::slots_per_epoch, (&eth_spec,), slots),
    ensures
        store@.wf(),
        store@.validators == validators@,
        store@.voting_pubkeys == validators.keys(),
        store@.doppelganger is Some <==> service is Some,
        service matches Some(watched) ==> store@.doppelganger == Some(watched@),
        store@.last_prune == Epoch(0),
        store@.genesis_validators_root == root,
        store@.spec == spec,
        store@.slots_per_epoch == slots,
        store@.config == config,
{
}

/// A store hands out the validators that it holds, and counts them.
pub proof fn law_store_hands_out_its_validators(
    store: ValidatorStore,
    validators: &InitializedValidators,
    keys: Vec<PublicKeyBytes>,
    count: usize,
    pubkey: PublicKeyBytes,
    has: bool,
)
    requires
        store@.wf(),
        call_ensures(ValidatorStore::initialized_validators, (&store,), validators),
        call_ensures(InitializedValidators::voting_pubkeys, (validators,), keys),
        call_ensures(ValidatorStore::num_voting_validators, (&store,), count),
        call_ensures(ValidatorStore::has_validator, (&store, &pubkey), has),
    ensures
        validators@ == store@.validators,
        keys@ == store@.voting_pubkeys,
        count == keys@.len(),
        has <==> keys@.contains(pubkey),
        has <==> store@.validators.contains_key(pubkey),
{
    assert(keys@.contains(pubkey) <==> keys@.to_set().contains(pubkey));
}

/// A store that takes over validators holds these, and changes in nothing else.
pub proof fn law_store_takes_over_validators(
    store: &mut ValidatorStore,
    validators: InitializedValidators,
)
    requires
        call_ensures(ValidatorStore::set_initialized_validators, (store, validators), ()),
    ensures
        final(store)@.validators == validators@,
        final(store)@.voting_pubkeys == validators.keys(),
        final(store)@.doppelganger == old(store)@.doppelganger,
        final(store)@.last_prune == old(store)@.last_prune,
        final(store)@.genesis_validators_root == old(store)@.genesis_validators_root,
        final(store)@.spec == old(store)@.spec,
        final(store)@.slots_per_epoch == old(store)@.slots_per_epoch,
        final(store)@.config == old(store)@.config,
{
}

/// A store that takes over what protection knows of a key holds this, keeps what it knew of others,
/// and changes in nothing else. Protection stays enabled or disabled.
pub proof fn law_store_takes_over_what_is_known(
    store: &mut ValidatorStore,
    pubkey: PublicKeyBytes,
    state: Option<DoppelgangerState>,
    other: PublicKeyBytes,
)
    requires
        call_ensures(ValidatorStore::set_doppelganger_state, (store, pubkey, state), ()),
    ensures
        final(store)@.doppelganger is Some <==> old(store)@.doppelganger is Some,
        old(store)@.doppelganger is Some ==> {
            let before = old(store)@.doppelganger->0;
            let after = final(store)@.doppelganger->0;
            &&& state matches Some(known) ==> after.contains_key(pubkey) && after[pubkey] == known
            &&& state is None ==> !after.contains_key(pubkey)
            &&& other != pubkey ==> after.contains_key(other) == before.contains_key(other)
            &&& other != pubkey && before.contains_key(other) ==> after[other] == before[other]
        },
        final(store)@.validators == old(store)@.validators,
        final(store)@.voting_pubkeys == old(store)@.voting_pubkeys,
        final(store)@.last_prune == old(store)@.last_prune,
        final(store)@.genesis_validators_root == old(store)@.genesis_validators_root,
        final(store)@.spec == old(store)@.spec,
        final(store)@.slots_per_epoch == old(store)@.slots_per_epoch,
        final(store)@.config == old(store)@.config,
{
}

/// Local validators are equal exactly if their directories and their public keys are.
pub proof fn law_local_validators_compare_directory_and_key(a: LocalValidator, b: LocalValidator)
    ensures
        a.eq_spec(&b) <==> a.validator_dir@ == b.validator_dir@ && a.voting_keypair.pk
            == b.voting_keypair.pk,
{
}

/// A reason is told as what it is, whatever it is passed through.
pub proof fn law_reasons_are_passed_on<X>(signing: SigningError<X>, unsafe_reason: NotSafe<X>)
    ensures
        <Error<X> as FromSpec<SigningError<X>>>::from_spec(signing) == Error::<X>::UnableToSign(
            signing,
        ),
        <InterchangeError<X> as FromSpec<NotSafe<X>>>::from_spec(unsafe_reason)
            == InterchangeError::<X>::NotSafe(unsafe_reason),
{
}

} // verus!
