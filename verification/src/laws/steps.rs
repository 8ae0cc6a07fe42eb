//! What comes to a session, one step after the other.

use vstd::prelude::*;

use crate::error::{NotSafe, Safe};
use crate::primitives::PublicKeyBytes;
use crate::store::sessions::SigningEvent;
use crate::store::signing::Label;
use crate::store::StoreView;

verus! {

/// Events, each with what the store holds when it comes.
pub type Steps<X> = Seq<(StoreView, SigningEvent<X>)>;

/// The first word of the slashing protection database comes at step `i`.
pub open spec fn first_status<X>(steps: Steps<X>, i: int) -> bool {
    &&& 0 <= i < steps.len()
    &&& steps[i].1 is SlashingStatus
    &&& forall|j: int| 0 <= j < i ==> !((#[trigger] steps[j]).1 is SlashingStatus)
}

/// At step `i`, for the first time, the slashing protection database speaks of the message, and
/// finds it valid; and doppelganger protection lets the enabled validator `pubkey` sign.
pub open spec fn cleared_at<X>(pubkey: PublicKeyBytes, steps: Steps<X>, i: int) -> bool {
    &&& first_status(steps, i)
    &&& steps[i].1 == SigningEvent::<X>::SlashingStatus(Ok(Safe::Valid))
    &&& steps[i].0.allows_signing(pubkey)
    &&& steps[i].0.validators.contains_key(pubkey)
}

/// How a word of the slashing protection database counts.
pub open spec fn label_of<X>(status: Result<Safe, NotSafe<X>>) -> Label {
    match status {
        Ok(Safe::Valid) => Label::Success,
        Ok(Safe::SameData) => Label::SameData,
        Err(NotSafe::UnregisteredValidator(_)) => Label::Unregistered,
        Err(_) => Label::Slashable,
    }
}

} // verus!
