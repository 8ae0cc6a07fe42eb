//! What the registration of validators asks for, question by question.

use vstd::prelude::*;

use crate::doppelganger::DoppelgangerState;
use crate::laws::plain::{has_learned, has_taken_over};
use crate::pending::Pending;
use crate::primitives::{Address, Graffiti, PublicKeyBytes};
use crate::store::registration::{
    AddValidator, AddValidatorEvent, DoppelgangerRegistration, ValidatorDefinition,
};
use crate::store::ValidatorStore;

verus! {

/// The registration goes on with `remaining`: the first of them is registered next, and all is done
/// once there is none.
pub open spec fn registration_goes_on_with(
    registration: DoppelgangerRegistration,
    remaining: Seq<PublicKeyBytes>,
) -> bool {
    if remaining.len() > 0 {
        registration matches DoppelgangerRegistration::Register { pubkey, rest } && {
            &&& pubkey == remaining[0]
            &&& rest@ == remaining.drop_first()
        }
    } else {
        registration matches DoppelgangerRegistration::Done(Ok(_))
    }
}

/// A registration that has come to an end tells what it told.
pub open spec fn tells_the_same<T>(a: Result<T, String>, b: Result<T, String>) -> bool {
    match (a, b) {
        (Ok(x), Ok(y)) => x == y,
        (Err(x), Err(y)) => x@ == y@,
        _ => false,
    }
}

/// All validators are registered, from the first on, if protection is enabled, and none if it is
/// not.
pub proof fn law_registration_starts_with_all_keys(
    store: ValidatorStore,
    registration: Pending<DoppelgangerRegistration>,
)
    requires
        call_ensures(
            ValidatorStore::register_all_in_doppelganger_protection_if_enabled,
            (&store,),
            registration,
        ),
    ensures
        store@.doppelganger is Some ==> registration_goes_on_with(
            registration@,
            store@.voting_pubkeys,
        ),
        store@.doppelganger is None ==> registration@ matches DoppelgangerRegistration::Done(
            Ok(_),
        ),
{
    if let DoppelgangerRegistration::Register { pubkey, rest } = registration@ {
        assert((seq![pubkey] + rest@).drop_first() =~= rest@);
        assert((seq![pubkey] + rest@)[0] == pubkey);
    }
}

/// What each answer makes of the registration of all validators, and of the store.
pub proof fn law_each_answer_on_a_registration(
    store: &mut ValidatorStore,
    registration: Pending<DoppelgangerRegistration>,
    answer: Result<DoppelgangerState, String>,
    next: Pending<DoppelgangerRegistration>,
)
    requires
        call_ensures(ValidatorStore::register_all_step, (store, registration, answer), next),
    ensures
        match registration@ {
            DoppelgangerRegistration::Register { pubkey, rest } => match answer {
                Ok(state) => {
                    &&& registration_goes_on_with(next@, rest@)
                    &&& has_learned(old(store)@, final(store)@, pubkey, state)
                },
                Err(e) => {
                    &&& next@ matches DoppelgangerRegistration::Done(Err(told)) && told@ == e@
                    &&& final(store)@ == old(store)@
                },
            },
            DoppelgangerRegistration::Done(result) => {
                &&& next@ matches DoppelgangerRegistration::Done(told) && tells_the_same(
                    told,
                    result,
                )
                &&& final(store)@ == old(store)@
            },
        },
{
    if let DoppelgangerRegistration::Register { pubkey, rest } = registration@ {
        assert((seq![pubkey] + rest@).drop_first() =~= rest@);
        assert((seq![pubkey] + rest@)[0] == pubkey);
        assert((seq![pubkey] + rest@).first() == pubkey);
    }
    if let DoppelgangerRegistration::Register { pubkey, rest } = next@ {
        assert((seq![pubkey] + rest@).drop_first() =~= rest@);
        assert((seq![pubkey] + rest@)[0] == pubkey);
    }
}

/// A keystore is read with all the settings that were given, and a definition is registered as it
/// was given.
pub proof fn law_adding_starts_with_what_was_given<L, K, S>(
    store: ValidatorStore,
    path: L,
    password_storage: K,
    enable: bool,
    graffiti: Option<Graffiti>,
    fee_recipient: Option<Address>,
    gas_limit: Option<u64>,
    builder_proposals: Option<bool>,
    builder_boost_factor: Option<u64>,
    prefer_builder_proposals: Option<bool>,
    read: Pending<AddValidator<L, K, S>>,
    definition: ValidatorDefinition<S>,
    added: Pending<AddValidator<L, K, S>>,
)
    requires
        call_ensures(
            ValidatorStore::add_validator_keystore::<L, K, S>,
            (
                &store,
                path,
                password_storage,
                enable,
                graffiti,
                fee_recipient,
                gas_limit,
                builder_proposals,
                builder_boost_factor,
                prefer_builder_proposals,
            ),
            read,
        ),
        call_ensures(ValidatorStore::add_validator::<L, K, S>, (&store, definition), added),
    ensures
        read@ matches AddValidator::ReadKeystore { settings, enable: enabled } && {
            &&& enabled == enable
            &&& settings.voting_keystore_path == path
            &&& settings.password_storage == password_storage
            &&& settings.graffiti == graffiti
            &&& settings.suggested_fee_recipient == fee_recipient
            &&& settings.gas_limit == gas_limit
            &&& settings.builder_proposals == builder_proposals
            &&& settings.builder_boost_factor == builder_boost_factor
            &&& settings.prefer_builder_proposals == prefer_builder_proposals
        },
        added@ matches AddValidator::RegisterSlashingProtection(asked) && asked == definition,
{
}

/// The definition that was made of a keystore, enabled or not as was asked.
pub open spec fn is_definition_made<S>(
    asked: ValidatorDefinition<S>,
    made: ValidatorDefinition<S>,
    enable: bool,
) -> bool {
    &&& asked.enabled == enable
    &&& asked.voting_public_key == made.voting_public_key
    &&& asked.description == made.description
    &&& asked.graffiti == made.graffiti
    &&& asked.suggested_fee_recipient == made.suggested_fee_recipient
    &&& asked.gas_limit == made.gas_limit
    &&& asked.builder_proposals == made.builder_proposals
    &&& asked.builder_boost_factor == made.builder_boost_factor
    &&& asked.prefer_builder_proposals == made.prefer_builder_proposals
    &&& asked.signing_definition == made.signing_definition
}

/// What each answer makes of the taking in of a validator, and of the store. The key is registered
/// with slashing protection, then with doppelganger protection if that is enabled, and then the
/// definition is added; and it is the same definition all along.
pub proof fn law_each_answer_on_an_addition<L, K, S>(
    store: &mut ValidatorStore,
    session: Pending<AddValidator<L, K, S>>,
    event: AddValidatorEvent<S>,
    next: Pending<AddValidator<L, K, S>>,
)
    requires
        call_ensures(
            ValidatorStore::add_validator_step::<L, K, S>,
            (store, session, event),
            next,
        ),
    ensures
        match (session@, event) {
            (
                AddValidator::ReadKeystore { settings, enable },
                AddValidatorEvent::KeystoreRead(read),
            ) => {
                &&& final(store)@ == old(store)@
                &&& read matches Ok(made) ==> (next@ matches
                    AddValidator::RegisterSlashingProtection(asked) && is_definition_made(
                    asked,
                    made,
                    enable,
                ))
                &&& read matches Err(e) ==> (next@ matches AddValidator::Done(Err(told)) && told@
                    == "failed to create validator definitions: "@ + e@)
            },
            (
                AddValidator::RegisterSlashingProtection(definition),
                AddValidatorEvent::SlashingProtectionRegistered(registered),
            ) => {
                &&& final(store)@ == old(store)@
                &&& registered is Ok && old(store)@.doppelganger is Some ==> (next@ matches
                    AddValidator::RegisterDoppelganger(asked) && asked == definition)
                &&& registered is Ok && old(store)@.doppelganger is None ==> (next@ matches
                    AddValidator::AddDefinition(asked) && asked == definition)
                &&& registered matches Err(e) ==> (next@ matches AddValidator::Done(Err(told))
                    && told@ == "failed to register validator: "@ + e@)
            },
            (
                AddValidator::RegisterDoppelganger(definition),
                AddValidatorEvent::DoppelgangerRegistered(registered),
            ) => {
                &&& registered matches Ok(state) ==> {
                    &&& next@ matches AddValidator::AddDefinition(asked)
                    &&& asked == definition
                    &&& has_learned(
                        old(store)@,
                        final(store)@,
                        definition.voting_public_key,
                        state,
                    )
                }
                &&& registered matches Err(e) ==> {
                    &&& next@ matches AddValidator::Done(Err(told))
                    &&& told@ == e@
                    &&& final(store)@ == old(store)@
                }
            },
            (
                AddValidator::AddDefinition(definition),
                AddValidatorEvent::DefinitionAdded(added),
            ) => {
                &&& added matches Ok(validators) ==> {
                    &&& next@ matches AddValidator::Done(Ok(told))
                    &&& told == definition
                    &&& has_taken_over(old(store)@, final(store)@, validators)
                }
                &&& added matches Err(e) ==> {
                    &&& next@ matches AddValidator::Done(Err(told))
                    &&& told@ == "Unable to add definition: "@ + e@
                    &&& final(store)@ == old(store)@
                }
            },
            (AddValidator::Done(result), _) => {
                &&& next@ matches AddValidator::Done(told)
                &&& tells_the_same(told, result)
                &&& final(store)@ == old(store)@
            },
            _ => next@ == session@ && final(store)@ == old(store)@,
        },
{
}

} // verus!
