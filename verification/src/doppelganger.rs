//! Protection against a second instance that runs the same validators.

use vstd::prelude::*;

use crate::primitives::PublicKeyBytes;
use crate::pubkey_map::PubkeyMap;

verus! {

/// What doppelganger protection says of a validator.
#[derive(Clone, Copy, Debug, PartialEq, Eq)]
pub enum DoppelgangerStatus {
    /// The validator passed protection and may sign.
    SigningEnabled(PublicKeyBytes),
    /// The validator still undergoes protection and must not sign.
    SigningDisabled(PublicKeyBytes),
    /// Protection does not know the validator, which must not sign.
    UnknownToDoppelganger(PublicKeyBytes),
}

impl DoppelgangerStatus {
    /// The validator that this status is of.
    pub open spec fn pubkey(self) -> PublicKeyBytes {
        match self {
            DoppelgangerStatus::SigningEnabled(pubkey) => pubkey,
            DoppelgangerStatus::SigningDisabled(pubkey) => pubkey,
            DoppelgangerStatus::UnknownToDoppelganger(pubkey) => pubkey,
        }
    }

    /// The key, if it passed protection and is safe enough to sign with.
    pub fn only_safe(self) -> (pubkey: Option<PublicKeyBytes>)
        ensures
            pubkey == (if self is SigningEnabled { Some(self.pubkey()) } else { None }),
    {
        match self {
            DoppelgangerStatus::SigningEnabled(pubkey) => Some(pubkey),
            DoppelgangerStatus::SigningDisabled(_) => None,
            DoppelgangerStatus::UnknownToDoppelganger(_) => None,
        }
    }

    /// The key, if it passed protection or still undergoes it. Such a key serves to collect duties
    /// and for other tasks that do not sign.
    pub fn ignored(self) -> (pubkey: Option<PublicKeyBytes>)
        ensures
            pubkey == (if self is UnknownToDoppelganger { None } else { Some(self.pubkey()) }),
    {
        match self {
            DoppelgangerStatus::SigningEnabled(pubkey) => Some(pubkey),
            DoppelgangerStatus::SigningDisabled(pubkey) => Some(pubkey),
            DoppelgangerStatus::UnknownToDoppelganger(_) => None,
        }
    }
}

/// What protection knows of a validator.
#[derive(Clone, Copy, Debug, PartialEq, Eq, Structural)]
pub struct DoppelgangerState {
    /// The validator has not been watched for long enough.
    pub requires_further_checks: bool,
}

/// The validators that protection watches.
pub struct DoppelgangerService {
    states: PubkeyMap<DoppelgangerState>,
}

impl View for DoppelgangerService {
    type V = Map<PublicKeyBytes, DoppelgangerState>;

    closed spec fn view(&self) -> Map<PublicKeyBytes, DoppelgangerState> {
        self.states@
    }
}

/// The status of `pubkey` where protection knows `states`.
pub open spec fn status_in(
    states: Map<PublicKeyBytes, DoppelgangerState>,
    pubkey: PublicKeyBytes,
) -> DoppelgangerStatus {
    if !states.contains_key(pubkey) {
        DoppelgangerStatus::UnknownToDoppelganger(pubkey)
    } else if states[pubkey].requires_further_checks {
        DoppelgangerStatus::SigningDisabled(pubkey)
    } else {
        DoppelgangerStatus::SigningEnabled(pubkey)
    }
}

impl DoppelgangerService {
    /// Protection that watches no validator yet.
    pub fn new() -> (service: Self)
        ensures
            service@ == Map::<PublicKeyBytes, DoppelgangerState>::empty(),
    {
        DoppelgangerService { states: PubkeyMap::new() }
    }

    /// Records what is known of `pubkey`.
    pub fn set_state(&mut self, pubkey: PublicKeyBytes, state: DoppelgangerState)
        ensures
            final(self)@ == old(self)@.insert(pubkey, state),
    {
        self.states.insert(pubkey, state);
    }

    /// Forgets `pubkey`.
    pub fn remove(&mut self, pubkey: &PublicKeyBytes)
        ensures
            final(self)@ == old(self)@.remove(*pubkey),
    {
        self.states.remove(pubkey);
    }

    /// The status of `pubkey`.
    pub fn validator_status(&self, pubkey: PublicKeyBytes) -> (status: DoppelgangerStatus)
        ensures
            status == status_in(self@, pubkey),
    {
        match self.states.get(&pubkey) {
            Some(state) => {
                if state.requires_further_checks {
                    DoppelgangerStatus::SigningDisabled(pubkey)
                } else {
                    DoppelgangerStatus::SigningEnabled(pubkey)
                }
            },
            None => DoppelgangerStatus::UnknownToDoppelganger(pubkey),
        }
    }
}

} // verus!
