//! The validators that are enabled and ready to sign.

use vstd::prelude::*;

use crate::primitives::{Address, Graffiti, PublicKeyBytes};
use crate::pubkey_map::PubkeyMap;

verus! {

/// The handle of a key, or of the remote signer that holds it. What stands behind it is the
/// business of whoever makes signatures.
#[derive(Clone, Copy, Debug, PartialEq, Eq, Structural)]
pub struct SigningMethod(pub u64);

/// An enabled validator, with the settings of its definition.
#[derive(Clone, Copy, Debug, PartialEq, Eq)]
pub struct InitializedValidator {
    pub signing_method: SigningMethod,
    pub graffiti: Option<Graffiti>,
    pub suggested_fee_recipient: Option<Address>,
    pub gas_limit: Option<u64>,
    pub builder_proposals: Option<bool>,
    pub builder_boost_factor: Option<u64>,
    pub prefer_builder_proposals: Option<bool>,
    /// The index of the validator in the state of the chain, once it is known.
    pub index: Option<u64>,
}

/// The enabled validators by their voting keys.
#[derive(Debug)]
pub struct InitializedValidators {
    validators: PubkeyMap<InitializedValidator>,
}

impl View for InitializedValidators {
    type V = Map<PublicKeyBytes, InitializedValidator>;

    closed spec fn view(&self) -> Map<PublicKeyBytes, InitializedValidator> {
        self.validators@
    }
}

impl InitializedValidators {
    /// The voting keys, in the order in which the validators came.
    pub closed spec fn keys(&self) -> Seq<PublicKeyBytes> {
        self.validators.keys()
    }

    /// The voting keys are those of the validators, each once.
    #[verifier::type_invariant]
    pub open spec fn wf(&self) -> bool {
        &&& self.keys().no_duplicates()
        &&& self.keys().to_set() == self@.dom()
    }

    /// No validators.
    pub fn new() -> (validators: Self)
        ensures
            validators.wf(),
            validators.keys() == Seq::<PublicKeyBytes>::empty(),
            validators@ == Map::<PublicKeyBytes, InitializedValidator>::empty(),
    {
        let validators: PubkeyMap<InitializedValidator> = PubkeyMap::new();
        proof {
            validators.lemma_keys();
        }
        InitializedValidators { validators }
    }

    /// Adds a validator, or gives one that is there new settings.
    pub fn insert(&mut self, pubkey: PublicKeyBytes, validator: InitializedValidator)
        ensures
            final(self).wf(),
            final(self)@ == old(self)@.insert(pubkey, validator),
            final(self).keys() == (if old(self)@.contains_key(pubkey) {
                old(self).keys()
            } else {
                old(self).keys().push(pubkey)
            }),
    {
        let mut validators: PubkeyMap<InitializedValidator> = PubkeyMap::new();
        proof {
            validators.lemma_keys();
        }
        std::mem::swap(&mut validators, &mut self.validators);
        validators.insert(pubkey, validator);
        proof {
            validators.lemma_keys();
        }
        self.validators = validators;
    }

    /// The validator with the voting key `pubkey`.
    pub fn validator(&self, pubkey: &PublicKeyBytes) -> (validator: Option<&InitializedValidator>)
        ensures
            validator == (if self@.contains_key(*pubkey) { Some(&self@[*pubkey]) } else { None }),
    {
        self.validators.get(pubkey)
    }

    /// The voting keys of all validators, each once.
    pub fn voting_pubkeys(&self) -> (pubkeys: Vec<PublicKeyBytes>)
        ensures
            pubkeys@ == self.keys(),
            pubkeys@.no_duplicates(),
            pubkeys@.to_set() == self@.dom(),
    {
        self.validators.to_keys()
    }

    /// How many validators there are.
    pub fn num_enabled(&self) -> (count: usize)
        ensures
            count == self.keys().len(),
            self@.dom().finite(),
            count == self@.dom().len(),
    {
        self.validators.len()
    }
}

} // verus!
