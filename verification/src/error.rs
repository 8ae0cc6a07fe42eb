//! Why a request is refused.
//!
//! What the database, a signer or an attestation gives as its reason, `X`, is carried along and
//! never looked at.

use vstd::prelude::*;

use crate::primitives::{Epoch, PublicKeyBytes, Slot};

verus! {

/// What the slashing protection database says of a message that it does not refuse.
#[derive(Clone, Copy, Debug, PartialEq, Eq, Structural)]
pub enum Safe {
    /// The message is new and conflicts with none that was signed before.
    Valid,
    /// The very same message was signed before.
    SameData,
}

/// Why the slashing protection database refuses a message.
#[derive(Debug, PartialEq, Eq)]
pub enum NotSafe<X> {
    /// The database does not know the validator.
    UnregisteredValidator(PublicKeyBytes),
    /// Any other reason: a conflicting message, a disabled validator, a failing database.
    Refused(X),
}

/// Why a signature could not be made.
#[derive(Debug, PartialEq, Eq)]
pub struct SigningError<X>(pub X);

/// Why a signature could not be added to an attestation.
#[derive(Debug, PartialEq, Eq)]
pub struct AttestationError<X>(pub X);

/// Why slashing protection data could not be imported or exported.
#[derive(Debug, PartialEq, Eq)]
pub enum InterchangeError<X> {
    /// The database refused an operation.
    NotSafe(NotSafe<X>),
    /// Any other reason.
    Failed(X),
}

impl<X> From<NotSafe<X>> for InterchangeError<X> {
    fn from(e: NotSafe<X>) -> (error: Self) {
        InterchangeError::NotSafe(e)
    }
}

impl<X> vstd::std_specs::convert::FromSpecImpl<NotSafe<X>> for InterchangeError<X> {
    open spec fn obeys_from_spec() -> bool {
        true
    }

    open spec fn from_spec(e: NotSafe<X>) -> Self {
        InterchangeError::NotSafe(e)
    }
}

/// Why the store does not sign.
#[derive(Debug, PartialEq, Eq)]
pub enum Error<X> {
    DoppelgangerProtected(PublicKeyBytes),
    UnknownToDoppelgangerService(PublicKeyBytes),
    UnknownPubkey(PublicKeyBytes),
    Slashable(NotSafe<X>),
    SameData,
    GreaterThanCurrentSlot { slot: Slot, current_slot: Slot },
    GreaterThanCurrentEpoch { epoch: Epoch, current_epoch: Epoch },
    UnableToSignAttestation(AttestationError<X>),
    UnableToSign(SigningError<X>),
}

impl<X> From<SigningError<X>> for Error<X> {
    fn from(e: SigningError<X>) -> (error: Self) {
        Error::UnableToSign(e)
    }
}

impl<X> vstd::std_specs::convert::FromSpecImpl<SigningError<X>> for Error<X> {
    open spec fn obeys_from_spec() -> bool {
        true
    }

    open spec fn from_spec(e: SigningError<X>) -> Self {
        Error::UnableToSign(e)
    }
}

} // verus!
