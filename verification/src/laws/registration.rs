//! What holds of the registration of validators.

use vstd::prelude::*;

use crate::doppelganger::DoppelgangerState;
use crate::initialized_validators::InitializedValidators;
use crate::primitives::PublicKeyBytes;
use crate::store::registration::{
    registration_of, AddValidatorEvent, AddValidatorView, KeystoreSettings, RegistrationView,
    ValidatorDefinition,
};
use crate::store::StoreView;

verus! {

/// Where `answers` take a store and a registration with doppelganger protection.
pub open spec fn registration_run(
    store: StoreView,
    start: RegistrationView,
    answers: Seq<Result<DoppelgangerState, Seq<char>>>,
) -> (StoreView, RegistrationView)
    decreases answers.len(),
{
    if answers.len() == 0 {
        (store, start)
    } else {
        let (store, registration) = registration_run(store, start, answers.drop_last());
        store.register_step(registration, answers.last())
    }
}

/// As long as no registration fails, the keys are registered one after the other, each once and in
/// order, and nothing more is asked for after the last. The store takes over what protection then
/// knows of each of them, and changes in nothing else.
pub proof fn law_every_key_is_registered(
    store: StoreView,
    pubkeys: Seq<PublicKeyBytes>,
    answers: Seq<Result<DoppelgangerState, Seq<char>>>,
)
    requires
        store.doppelganger is Some,
        pubkeys.no_duplicates(),
        answers.len() <= pubkeys.len(),
        forall|i: int| 0 <= i < answers.len() ==> (#[trigger] answers[i]) is Ok,
    ensures
        ({
            let (after, registration) = registration_run(store, registration_of(pubkeys), answers);
            let states = after.doppelganger->0;
            &&& registration == registration_of(pubkeys.skip(answers.len() as int))
            &&& after.doppelganger is Some
            &&& after == (StoreView { doppelganger: after.doppelganger, ..store })
            &&& forall|i: int|
                #![trigger pubkeys[i]]
                0 <= i < answers.len() ==> states.contains_key(pubkeys[i]) && Ok::<
                    DoppelgangerState,
                    Seq<char>,
                >(states[pubkeys[i]]) == answers[i]
            &&& forall|pubkey: PublicKeyBytes|
                !pubkeys.take(answers.len() as int).contains(pubkey) ==> {
                    &&& #[trigger] states.contains_key(pubkey) == store.doppelganger->0.contains_key(
                        pubkey,
                    )
                    &&& states[pubkey] == store.doppelganger->0[pubkey]
                }
        }),
    decreases answers.len(),
{
    if answers.len() == 0 {
        assert(pubkeys.skip(0) =~= pubkeys);
    } else {
        let before = answers.drop_last();
        let last = before.len() as int;
        assert(forall|i: int| 0 <= i < before.len() ==> before[i] == #[trigger] answers[i]);
        law_every_key_is_registered(store, pubkeys, before);
        assert(answers[last] is Ok);
        assert(pubkeys.skip(last).drop_first() =~= pubkeys.skip(answers.len() as int));
        assert(pubkeys.skip(last).first() == pubkeys[last]);
        let (after, _) = registration_run(store, registration_of(pubkeys), answers);
        let states = after.doppelganger->0;
        assert forall|pubkey: PublicKeyBytes|
            !pubkeys.take(answers.len() as int).contains(pubkey) implies {
            &&& #[trigger] states.contains_key(pubkey) == store.doppelganger->0.contains_key(pubkey)
            &&& states[pubkey] == store.doppelganger->0[pubkey]
        } by {
            assert(pubkeys.take(answers.len() as int)[last] == pubkeys[last]);
            if pubkeys.take(last).contains(pubkey) {
                let i = pubkeys.take(last).index_of(pubkey);
                assert(pubkeys.take(answers.len() as int)[i] == pubkey);
            }
        }
    }
}

/// Once all validators of a store are registered, doppelganger protection knows every one of them.
pub proof fn law_registered_keys_are_known(
    store: StoreView,
    answers: Seq<Result<DoppelgangerState, Seq<char>>>,
    pubkey: PublicKeyBytes,
)
    requires
        store.wf(),
        store.doppelganger is Some,
        answers.len() == store.voting_pubkeys.len(),
        forall|i: int| 0 <= i < answers.len() ==> (#[trigger] answers[i]) is Ok,
        store.validators.contains_key(pubkey),
    ensures
        ({
            let (after, registration) = registration_run(
                store,
                registration_of(store.voting_pubkeys),
                answers,
            );
            &&& registration == RegistrationView::Done(Ok(()))
            &&& !(after.status(pubkey) is UnknownToDoppelganger)
        }),
{
    law_every_key_is_registered(store, store.voting_pubkeys, answers);
    assert(store.voting_pubkeys.to_set().contains(pubkey));
    let i = store.voting_pubkeys.index_of(pubkey);
    assert(store.voting_pubkeys[i] == pubkey);
}

/// Nothing moves a registration that is done, and nothing of the store changes any more.
pub proof fn law_done_registration_stays_done(
    store: StoreView,
    result: Result<(), Seq<char>>,
    answers: Seq<Result<DoppelgangerState, Seq<char>>>,
)
    ensures
        registration_run(store, RegistrationView::Done(result), answers) == (
            store,
            RegistrationView::Done(result),
        ),
    decreases answers.len(),
{
    if answers.len() > 0 {
        law_done_registration_stays_done(store, result, answers.drop_last());
    }
}

/// The first failure ends the registration and is what it reports. No key after it is registered.
pub proof fn law_first_failure_ends_registration(
    store: StoreView,
    pubkeys: Seq<PublicKeyBytes>,
    answers: Seq<Result<DoppelgangerState, Seq<char>>>,
    i: int,
    e: Seq<char>,
)
    requires
        store.doppelganger is Some,
        pubkeys.no_duplicates(),
        0 <= i < answers.len(),
        i < pubkeys.len(),
        forall|j: int| 0 <= j < i ==> (#[trigger] answers[j]) is Ok,
        answers[i] == Err::<DoppelgangerState, Seq<char>>(e),
    ensures
        registration_run(store, registration_of(pubkeys), answers) == (
            registration_run(store, registration_of(pubkeys), answers.take(i)).0,
            RegistrationView::Done(Err(e)),
        ),
    decreases answers.len(),
{
    let before = answers.drop_last();
    assert(forall|j: int| 0 <= j < before.len() ==> before[j] == #[trigger] answers[j]);
    if i == answers.len() - 1 {
        assert(answers.take(i) =~= before);
        law_every_key_is_registered(store, pubkeys, before);
    } else {
        assert(before[i] == answers[i]);
        assert(before.take(i) =~= answers.take(i));
        law_first_failure_ends_registration(store, pubkeys, before, i, e);
    }
}

/// Events, each with what the store holds when it comes.
pub type AddSteps<S> = Seq<(StoreView, AddValidatorEvent<S>)>;

/// Where `steps` take the taking in of a validator.
pub open spec fn add_run<L, K, S>(
    start: AddValidatorView<L, K, S>,
    steps: AddSteps<S>,
) -> AddValidatorView<L, K, S>
    decreases steps.len(),
{
    if steps.len() == 0 {
        start
    } else {
        let (store, event) = steps.last();
        store.add_validator_step(add_run(start, steps.drop_last()), event).1
    }
}

/// At step `i`, slashing protection has registered the key.
pub open spec fn slashing_registered<S>(steps: AddSteps<S>, i: int) -> bool {
    &&& 0 <= i < steps.len()
    &&& steps[i].1 is SlashingProtectionRegistered
    &&& steps[i].1->SlashingProtectionRegistered_0 is Ok
}

/// Slashing protection has registered the key at step `i`; and if doppelganger protection was
/// enabled then, it has come to watch the key at the later step `j`.
pub open spec fn protected<S>(steps: AddSteps<S>, i: int, j: int) -> bool {
    &&& slashing_registered(steps, i)
    &&& steps[i].0.doppelganger is Some ==> {
        &&& i < j < steps.len()
        &&& steps[j].1 is DoppelgangerRegistered
        &&& steps[j].1->DoppelgangerRegistered_0 is Ok
    }
}

/// How the taking in of `definition` has come to `session` over `steps`.
pub open spec fn add_account<L, K, S>(
    definition: ValidatorDefinition<S>,
    steps: AddSteps<S>,
    session: AddValidatorView<L, K, S>,
) -> bool {
    match session {
        AddValidatorView::ReadKeystore { .. } => false,
        AddValidatorView::RegisterSlashingProtection(d) => d == definition,
        AddValidatorView::RegisterDoppelganger(d) => {
            &&& d == definition
            &&& exists|i: int| #[trigger]
                slashing_registered(steps, i) && steps[i].0.doppelganger is Some
        },
        AddValidatorView::AddDefinition(d) => {
            &&& d == definition
            &&& exists|i: int, j: int| #[trigger] protected(steps, i, j)
        },
        AddValidatorView::Done(result) => result matches Ok(d) ==> {
            &&& d == definition
            &&& exists|i: int, j: int| #[trigger] protected(steps, i, j)
            &&& exists|k: int|
                0 <= k < steps.len() && (#[trigger] steps[k]).1 is DefinitionAdded
                    && steps[k].1->DefinitionAdded_0 is Ok
        },
    }
}

/// A definition is added, and so its duties start, only after slashing protection has registered
/// its key and doppelganger protection, if it is enabled, has come to watch it. What is returned is
/// the definition that was given, and only after it was added.
pub proof fn law_validator_is_protected_before_it_is_added<L, K, S>(
    definition: ValidatorDefinition<S>,
    steps: AddSteps<S>,
)
    ensures
        add_account(
            definition,
            steps,
            add_run(AddValidatorView::<L, K, S>::RegisterSlashingProtection(definition), steps),
        ),
    decreases steps.len(),
{
    let start = AddValidatorView::<L, K, S>::RegisterSlashingProtection(definition);
    if steps.len() > 0 {
        let before = steps.drop_last();
        let last = steps.len() - 1;
        law_validator_is_protected_before_it_is_added::<L, K, S>(definition, before);
        assert(forall|j: int| 0 <= j < last ==> before[j] == #[trigger] steps[j]);
        let session = add_run(start, before);
        let next = add_run(start, steps);
        match session {
            AddValidatorView::RegisterSlashingProtection(_) => {
                if next is RegisterDoppelganger {
                    assert(slashing_registered(steps, last));
                }
                if next is AddDefinition {
                    assert(protected(steps, last, last));
                }
            },
            AddValidatorView::RegisterDoppelganger(_) => {
                let i = choose|i: int| #[trigger]
                    slashing_registered(before, i) && before[i].0.doppelganger is Some;
                assert(slashing_registered(steps, i));
                if next is AddDefinition {
                    assert(protected(steps, i, last));
                }
            },
            AddValidatorView::AddDefinition(_) => {
                let (i, j) = choose|i: int, j: int| #[trigger] protected(before, i, j);
                assert(protected(steps, i, j));
                assert(steps[last].1 == steps.last().1);
            },
            AddValidatorView::Done(result) => {
                if result is Ok {
                    let (i, j) = choose|i: int, j: int| #[trigger] protected(before, i, j);
                    assert(protected(steps, i, j));
                    let k = choose|k: int|
                        0 <= k < before.len() && (#[trigger] before[k]).1 is DefinitionAdded
                            && before[k].1->DefinitionAdded_0 is Ok;
                    assert(steps[k] == before[k]);
                }
            },
            AddValidatorView::ReadKeystore { .. } => {},
        }
    }
}

/// A validator that a keystore stands for is taken in as the definition that was made of the
/// keystore, enabled or not as was asked.
pub proof fn law_keystore_becomes_definition<L, K, S>(
    settings: KeystoreSettings<L, K>,
    enable: bool,
    store: StoreView,
    definition: ValidatorDefinition<S>,
    steps: AddSteps<S>,
)
    ensures
        add_run(
            AddValidatorView::<L, K, S>::ReadKeystore { settings, enable },
            seq![(store, AddValidatorEvent::KeystoreRead(Ok(definition)))] + steps,
        ) == add_run(
            AddValidatorView::<L, K, S>::RegisterSlashingProtection(
                ValidatorDefinition { enabled: enable, ..definition },
            ),
            steps,
        ),
    decreases steps.len(),
{
    let read = seq![(store, AddValidatorEvent::KeystoreRead(Ok(definition)))];
    if steps.len() == 0 {
        assert(read + steps =~= read);
        assert(read.drop_last() =~= Seq::empty());
        reveal_with_fuel(add_run, 2);
    } else {
        assert((read + steps).drop_last() =~= read + steps.drop_last());
        law_keystore_becomes_definition(settings, enable, store, definition, steps.drop_last());
    }
}

/// Where `events` take a store and the taking in of a validator.
pub open spec fn add_store_run<L, K, S>(
    store: StoreView,
    start: AddValidatorView<L, K, S>,
    events: Seq<AddValidatorEvent<S>>,
) -> (StoreView, AddValidatorView<L, K, S>)
    decreases events.len(),
{
    if events.len() == 0 {
        (store, start)
    } else {
        let (store, session) = add_store_run(store, start, events.drop_last());
        store.add_validator_step(session, events.last())
    }
}

/// What the taking in of a validator comes to once all questions are answered. Each failure is told
/// with what failed. The store takes over what doppelganger protection then knows of the key, and
/// in the end the validators that are then enabled; it changes in nothing else.
pub proof fn law_add_validator_outcome<L, K, S>(
    definition: ValidatorDefinition<S>,
    store: StoreView,
    slashing: Result<(), String>,
    doppelganger: Result<DoppelgangerState, String>,
    added: Result<InitializedValidators, String>,
)
    ensures
        ({
            let events = if store.doppelganger is Some {
                seq![
                    AddValidatorEvent::SlashingProtectionRegistered(slashing),
                    AddValidatorEvent::DoppelgangerRegistered(doppelganger),
                    AddValidatorEvent::DefinitionAdded(added),
                ]
            } else {
                seq![
                    AddValidatorEvent::SlashingProtectionRegistered(slashing),
                    AddValidatorEvent::DefinitionAdded(added),
                ]
            };
            let result = if slashing is Err {
                Err("failed to register validator: "@ + slashing->Err_0@)
            } else if store.doppelganger is Some && doppelganger is Err {
                Err(doppelganger->Err_0@)
            } else if added is Err {
                Err("Unable to add definition: "@ + added->Err_0@)
            } else {
                Ok(definition)
            };
            let watching = if store.doppelganger is Some && slashing is Ok && doppelganger is Ok {
                store.watching(definition.voting_public_key, Some(doppelganger->Ok_0))
            } else {
                store
            };
            add_store_run(
                store,
                AddValidatorView::<L, K, S>::RegisterSlashingProtection(definition),
                events,
            ) == (
                if result is Ok {
                    watching.with_validators(added->Ok_0)
                } else {
                    watching
                },
                AddValidatorView::<L, K, S>::Done(result),
            )
        }),
{
    let one = AddValidatorEvent::<S>::SlashingProtectionRegistered(slashing);
    let two = AddValidatorEvent::<S>::DoppelgangerRegistered(doppelganger);
    let three = AddValidatorEvent::<S>::DefinitionAdded(added);
    assert(seq![one, two, three].drop_last() =~= seq![one, two]);
    assert(seq![one, two].drop_last() =~= seq![one]);
    assert(seq![one, three].drop_last() =~= seq![one]);
    assert(seq![one].drop_last() =~= Seq::empty());
    reveal_with_fuel(add_store_run, 4);
}

} // verus!
