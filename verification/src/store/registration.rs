//! How validators are taken in, and made known to slashing and doppelganger protection.

use std::collections::VecDeque;

use vstd::prelude::*;

use crate::doppelganger::DoppelgangerState;
use crate::initialized_validators::InitializedValidators;
use crate::pending::Pending;
use crate::primitives::{Address, Graffiti, PublicKeyBytes};
use crate::store::{StoreView, ValidatorStore};

verus! {

/// The registration of validators with doppelganger protection, one after the other.
#[derive(Debug, PartialEq, Eq)]
pub enum DoppelgangerRegistration {
    /// Protection is asked to watch `pubkey`. The keys in `rest` follow.
    Register { pubkey: PublicKeyBytes, rest: VecDeque<PublicKeyBytes> },
    /// Nothing is asked for any more.
    Done(Result<(), String>),
}

/// What a registration with doppelganger protection stands for.
pub enum RegistrationView {
    /// The keys that remain, from the one that is asked for on.
    Register(Seq<PublicKeyBytes>),
    Done(Result<(), Seq<char>>),
}

impl View for DoppelgangerRegistration {
    type V = RegistrationView;

    open spec fn view(&self) -> RegistrationView {
        match self {
            DoppelgangerRegistration::Register { pubkey, rest } => RegistrationView::Register(
                seq![*pubkey] + rest@,
            ),
            DoppelgangerRegistration::Done(result) => RegistrationView::Done(text_of(*result)),
        }
    }
}

/// A result whose error is taken as its text.
pub open spec fn text_of<T>(result: Result<T, String>) -> Result<T, Seq<char>> {
    match result {
        Ok(value) => Ok(value),
        Err(e) => Err(e@),
    }
}

/// The registration of `pubkeys`.
pub open spec fn registration_of(pubkeys: Seq<PublicKeyBytes>) -> RegistrationView {
    if pubkeys.len() == 0 {
        RegistrationView::Done(Ok(()))
    } else {
        RegistrationView::Register(pubkeys)
    }
}

impl StoreView {
    /// Where an answer takes the store and the registration. What protection then knows of the key
    /// is taken over. The first failure ends the registration.
    pub open spec fn register_step(
        self,
        registration: RegistrationView,
        answer: Result<DoppelgangerState, Seq<char>>,
    ) -> (StoreView, RegistrationView) {
        match registration {
            RegistrationView::Register(pubkeys) => match answer {
                Ok(state) => (
                    self.watching(pubkeys.first(), Some(state)),
                    registration_of(pubkeys.drop_first()),
                ),
                Err(e) => (self, RegistrationView::Done(Err(e))),
            },
            RegistrationView::Done(result) => (self, RegistrationView::Done(result)),
        }
    }
}

/// The registration of `pubkeys`.
fn register_next(mut pubkeys: VecDeque<PublicKeyBytes>) -> (registration: DoppelgangerRegistration)
    ensures
        registration@ == registration_of(pubkeys@),
{
    let ghost all = pubkeys@;
    match pubkeys.pop_front() {
        Some(pubkey) => {
            assert(seq![pubkey] + pubkeys@ =~= all);
            DoppelgangerRegistration::Register { pubkey, rest: pubkeys }
        },
        None => DoppelgangerRegistration::Done(Ok(())),
    }
}

/// A validator as it stands in the definitions of this process. Where its key is found, `S`, is
/// carried along and never looked at.
#[derive(Debug, PartialEq, Eq)]
pub struct ValidatorDefinition<S> {
    pub enabled: bool,
    pub voting_public_key: PublicKeyBytes,
    pub description: String,
    pub graffiti: Option<Graffiti>,
    pub suggested_fee_recipient: Option<Address>,
    pub gas_limit: Option<u64>,
    pub builder_proposals: Option<bool>,
    pub builder_boost_factor: Option<u64>,
    pub prefer_builder_proposals: Option<bool>,
    pub signing_definition: S,
}

/// A keystore on the filesystem, with the settings of the validator that is made of it. Its path,
/// `L`, and where its password is kept, `K`, are carried along and never looked at.
#[derive(Debug, PartialEq, Eq)]
pub struct KeystoreSettings<L, K> {
    pub voting_keystore_path: L,
    pub password_storage: K,
    pub graffiti: Option<Graffiti>,
    pub suggested_fee_recipient: Option<Address>,
    pub gas_limit: Option<u64>,
    pub builder_proposals: Option<bool>,
    pub builder_boost_factor: Option<u64>,
    pub prefer_builder_proposals: Option<bool>,
}

/// How a validator is taken in.
#[derive(Debug, PartialEq, Eq)]
pub enum AddValidator<L, K, S> {
    /// The keystore is to be read, and a definition made of it.
    ReadKeystore { settings: KeystoreSettings<L, K>, enable: bool },
    /// The slashing protection database is asked to register the voting key.
    RegisterSlashingProtection(ValidatorDefinition<S>),
    /// Doppelganger protection is asked to watch the voting key.
    RegisterDoppelganger(ValidatorDefinition<S>),
    /// The definition is to be added to those of this process and saved, in place of a disabled
    /// one of the same key. If it is enabled, its duties start.
    AddDefinition(ValidatorDefinition<S>),
    /// Nothing is asked for any more.
    Done(Result<ValidatorDefinition<S>, String>),
}

/// An answer to what is asked for while a validator is taken in: what doppelganger protection then
/// knows of the key, and the validators that are then enabled. An error is given in words.
#[derive(Debug)]
pub enum AddValidatorEvent<S> {
    KeystoreRead(Result<ValidatorDefinition<S>, String>),
    SlashingProtectionRegistered(Result<(), String>),
    DoppelgangerRegistered(Result<DoppelgangerState, String>),
    DefinitionAdded(Result<InitializedValidators, String>),
}

/// What the taking in of a validator stands for.
pub enum AddValidatorView<L, K, S> {
    ReadKeystore { settings: KeystoreSettings<L, K>, enable: bool },
    RegisterSlashingProtection(ValidatorDefinition<S>),
    RegisterDoppelganger(ValidatorDefinition<S>),
    AddDefinition(ValidatorDefinition<S>),
    Done(Result<ValidatorDefinition<S>, Seq<char>>),
}

impl<L, K, S> View for AddValidator<L, K, S> {
    type V = AddValidatorView<L, K, S>;

    open spec fn view(&self) -> AddValidatorView<L, K, S> {
        match *self {
            AddValidator::ReadKeystore { settings, enable } => AddValidatorView::ReadKeystore {
                settings,
                enable,
            },
            AddValidator::RegisterSlashingProtection(
                definition,
            ) => AddValidatorView::RegisterSlashingProtection(definition),
            AddValidator::RegisterDoppelganger(definition) => AddValidatorView::RegisterDoppelganger(
                definition,
            ),
            AddValidator::AddDefinition(definition) => AddValidatorView::AddDefinition(definition),
            AddValidator::Done(result) => AddValidatorView::Done(text_of(result)),
        }
    }
}

impl StoreView {
    /// Where an event takes the store and the taking in of a validator. What protection then knows
    /// and the validators that are then enabled are taken over. The first failure ends it. An event
    /// that answers nothing that is asked changes nothing.
    pub open spec fn add_validator_step<L, K, S>(
        self,
        session: AddValidatorView<L, K, S>,
        event: AddValidatorEvent<S>,
    ) -> (StoreView, AddValidatorView<L, K, S>) {
        match (session, event) {
            (
                AddValidatorView::ReadKeystore { settings, enable },
                AddValidatorEvent::KeystoreRead(read),
            ) => match read {
                Ok(definition) => (
                    self,
                    AddValidatorView::RegisterSlashingProtection(
                        ValidatorDefinition { enabled: enable, ..definition },
                    ),
                ),
                Err(e) => (
                    self,
                    AddValidatorView::Done(
                        Err("failed to create validator definitions: "@ + e@),
                    ),
                ),
            },
            (
                AddValidatorView::RegisterSlashingProtection(definition),
                AddValidatorEvent::SlashingProtectionRegistered(registered),
            ) => match registered {
                Ok(()) => if self.doppelganger is Some {
                    (self, AddValidatorView::RegisterDoppelganger(definition))
                } else {
                    (self, AddValidatorView::AddDefinition(definition))
                },
                Err(e) => (
                    self,
                    AddValidatorView::Done(Err("failed to register validator: "@ + e@)),
                ),
            },
            (
                AddValidatorView::RegisterDoppelganger(definition),
                AddValidatorEvent::DoppelgangerRegistered(registered),
            ) => match registered {
                Ok(state) => (
                    self.watching(definition.voting_public_key, Some(state)),
                    AddValidatorView::AddDefinition(definition),
                ),
                Err(e) => (self, AddValidatorView::Done(Err(e@))),
            },
            (
                AddValidatorView::AddDefinition(definition),
                AddValidatorEvent::DefinitionAdded(added),
            ) => match added {
                Ok(validators) => (
                    self.with_validators(validators),
                    AddValidatorView::Done(Ok(definition)),
                ),
                Err(e) => (self, AddValidatorView::Done(Err("Unable to add definition: "@ + e@))),
            },
            (session, _) => (self, session),
        }
    }
}

/// `what`, followed by the reason.
fn describe(what: &str, reason: String) -> (description: String)
    ensures
        description@ == what@ + reason@,
{
    what.to_owned().concat(reason.as_str())
}

impl ValidatorStore {
    /// Starts to register all validators with doppelganger protection, to keep another instance
    /// from running them at the same time.
    ///
    /// Nothing is asked for if doppelganger protection is disabled.
    pub fn register_all_in_doppelganger_protection_if_enabled(&self) -> (registration:
        Pending<DoppelgangerRegistration>)
        ensures
            registration@@ == (if self@.doppelganger is Some {
                registration_of(self@.voting_pubkeys)
            } else {
                RegistrationView::Done(Ok(()))
            }),
    {
        if self.doppelganger_service.is_none() {
            return Pending::new(DoppelgangerRegistration::Done(Ok(())));
        }
        let pubkeys = self.validators.voting_pubkeys();
        let mut queue: VecDeque<PublicKeyBytes> = VecDeque::new();
        let mut i: usize = 0;
        while i < pubkeys.len()
            invariant
                0 <= i <= pubkeys@.len(),
                queue@ == pubkeys@.take(i as int),
            decreases pubkeys@.len() - i,
        {
            queue.push_back(pubkeys[i]);
            i += 1;
        }
        assert(queue@ =~= pubkeys@);
        Pending::new(register_next(queue))
    }

    /// Takes the registration of all validators one step on, and takes over what protection then
    /// knows of the key.
    pub fn register_all_step(
        &mut self,
        registration: Pending<DoppelgangerRegistration>,
        answer: Result<DoppelgangerState, String>,
    ) -> (next: Pending<DoppelgangerRegistration>)
        ensures
            final(self)@.wf(),
            (final(self)@, next@@) == old(self)@.register_step(registration@@, text_of(answer)),
    {
        proof {
            use_type_invariant(&*self);
        }
        let next = match registration.into_asked() {
            DoppelgangerRegistration::Register { pubkey, rest } => match answer {
                Ok(state) => {
                    assert((seq![pubkey] + rest@).drop_first() =~= rest@);
                    self.set_doppelganger_state(pubkey, Some(state));
                    register_next(rest)
                },
                Err(e) => DoppelgangerRegistration::Done(Err(e)),
            },
            DoppelgangerRegistration::Done(result) => DoppelgangerRegistration::Done(result),
        };
        Pending::new(next)
    }

    /// Starts to take in a validator that an EIP-2335 keystore on the filesystem stands for.
    pub fn add_validator_keystore<L, K, S>(
        &self,
        voting_keystore_path: L,
        password_storage: K,
        enable: bool,
        graffiti: Option<Graffiti>,
        suggested_fee_recipient: Option<Address>,
        gas_limit: Option<u64>,
        builder_proposals: Option<bool>,
        builder_boost_factor: Option<u64>,
        prefer_builder_proposals: Option<bool>,
    ) -> (session: Pending<AddValidator<L, K, S>>)
        ensures
            session@ == (AddValidator::<L, K, S>::ReadKeystore {
                settings: KeystoreSettings {
                    voting_keystore_path,
                    password_storage,
                    graffiti,
                    suggested_fee_recipient,
                    gas_limit,
                    builder_proposals,
                    builder_boost_factor,
                    prefer_builder_proposals,
                },
                enable,
            }),
    {
        let settings = KeystoreSettings {
            voting_keystore_path,
            password_storage,
            graffiti,
            suggested_fee_recipient,
            gas_limit,
            builder_proposals,
            builder_boost_factor,
            prefer_builder_proposals,
        };
        Pending::new(AddValidator::ReadKeystore { settings, enable })
    }

    /// Starts to take in a validator. Its key is registered with slashing protection, then with
    /// doppelganger protection if that is enabled, and only then is the definition added.
    pub fn add_validator<L, K, S>(&self, validator_def: ValidatorDefinition<S>) -> (session:
        Pending<AddValidator<L, K, S>>)
        ensures
            session@ == AddValidator::<L, K, S>::RegisterSlashingProtection(validator_def),
    {
        Pending::new(AddValidator::RegisterSlashingProtection(validator_def))
    }

    /// Takes the taking in of a validator one step on. The store takes over what doppelganger
    /// protection then knows of its key, and at the end the validators that are then enabled.
    pub fn add_validator_step<L, K, S>(
        &mut self,
        session: Pending<AddValidator<L, K, S>>,
        event: AddValidatorEvent<S>,
    ) -> (next: Pending<AddValidator<L, K, S>>)
        ensures
            final(self)@.wf(),
            (final(self)@, next@@) == old(self)@.add_validator_step(session@@, event),
    {
        proof {
            use_type_invariant(&*self);
        }
        let next = match (session.into_asked(), event) {
            (
                AddValidator::ReadKeystore { settings: _, enable },
                AddValidatorEvent::KeystoreRead(read),
            ) => match read {
                Ok(mut definition) => {
                    definition.enabled = enable;
                    AddValidator::RegisterSlashingProtection(definition)
                },
                Err(e) => AddValidator::Done(
                    Err(describe("failed to create validator definitions: ", e)),
                ),
            },
            (
                AddValidator::RegisterSlashingProtection(definition),
                AddValidatorEvent::SlashingProtectionRegistered(registered),
            ) => match registered {
                Ok(()) => {
                    if self.doppelganger_service.is_some() {
                        AddValidator::RegisterDoppelganger(definition)
                    } else {
                        AddValidator::AddDefinition(definition)
                    }
                },
                Err(e) => AddValidator::Done(Err(describe("failed to register validator: ", e))),
            },
            (
                AddValidator::RegisterDoppelganger(definition),
                AddValidatorEvent::DoppelgangerRegistered(registered),
            ) => match registered {
                Ok(state) => {
                    self.set_doppelganger_state(definition.voting_public_key, Some(state));
                    AddValidator::AddDefinition(definition)
                },
                Err(e) => AddValidator::Done(Err(e)),
            },
            (
                AddValidator::AddDefinition(definition),
                AddValidatorEvent::DefinitionAdded(added),
            ) => match added {
                Ok(validators) => {
                    self.set_initialized_validators(validators);
                    AddValidator::Done(Ok(definition))
                },
                Err(e) => AddValidator::Done(Err(describe("Unable to add definition: ", e))),
            },
            (session, _) => session,
        };
        Pending::new(next)
    }
}

} // verus!
