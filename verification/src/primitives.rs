//! Byte strings and time units of the consensus layer.

use vstd::prelude::*;

verus! {

/// Whether two byte arrays hold the same bytes.
pub fn bytes_equal<const N: usize>(a: &[u8; N], b: &[u8; N]) -> (same: bool)
    ensures
        same == (*a == *b),
{
    let mut i: usize = 0;
    while i < N
        invariant
            0 <= i <= N,
            forall|j: int| 0 <= j < i ==> a[j] == b[j],
        decreases N - i,
    {
        if a[i] != b[i] {
            return false;
        }
        i += 1;
    }
    assert(*a =~= *b);
    true
}

/// A compressed BLS public key. It names a validator.
#[derive(Clone, Copy, Debug, Eq)]
pub struct PublicKeyBytes(pub [u8; 48]);

impl PartialEq for PublicKeyBytes {
    fn eq(&self, other: &Self) -> (same: bool) {
        bytes_equal(&self.0, &other.0)
    }
}

impl vstd::std_specs::cmp::PartialEqSpecImpl for PublicKeyBytes {
    open spec fn obeys_eq_spec() -> bool {
        true
    }

    open spec fn eq_spec(&self, other: &Self) -> bool {
        self.0 == other.0
    }
}

/// A BLS signature in its compressed form.
#[derive(Clone, Copy, Debug, PartialEq, Eq)]
pub struct Signature(pub [u8; 96]);

/// A hash tree root.
#[derive(Clone, Copy, Debug, PartialEq, Eq)]
pub struct Hash256(pub [u8; 32]);

/// An execution layer address.
#[derive(Clone, Copy, Debug, PartialEq, Eq)]
pub struct Address(pub [u8; 20]);

/// The free text that a proposer puts into a block.
#[derive(Clone, Copy, Debug, PartialEq, Eq)]
pub struct Graffiti(pub [u8; 32]);

/// A slot of the beacon chain.
#[derive(Clone, Copy, Debug, PartialEq, Eq, Structural)]
pub struct Slot(pub u64);

/// An epoch of the beacon chain.
#[derive(Clone, Copy, Debug, PartialEq, Eq, Structural)]
pub struct Epoch(pub u64);

impl Slot {
    /// The epoch that holds this slot.
    pub fn epoch(self, slots_per_epoch: u64) -> (epoch: Epoch)
        requires
            slots_per_epoch > 0,
        ensures
            epoch == epoch_of(self, slots_per_epoch),
    {
        Epoch(self.0 / slots_per_epoch)
    }
}

impl Epoch {
    /// The first slot of this epoch, or the last slot there is where that does not fit.
    pub fn start_slot(self, slots_per_epoch: u64) -> (slot: Slot)
        ensures
            slot == start_of(self, slots_per_epoch),
    {
        match self.0.checked_mul(slots_per_epoch) {
            Some(product) => Slot(product),
            None => Slot(u64::MAX),
        }
    }

    /// The epoch that lies `epochs` before this one, or the first one where there is none.
    pub fn saturating_sub(self, epochs: u64) -> (earlier: Epoch)
        ensures
            earlier == epochs_before(self, epochs),
    {
        if self.0 < epochs {
            Epoch(0)
        } else {
            Epoch(self.0 - epochs)
        }
    }
}

/// The epoch that holds `slot`.
pub open spec fn epoch_of(slot: Slot, slots_per_epoch: u64) -> Epoch {
    Epoch(slot.0 / slots_per_epoch)
}

/// The first slot of `epoch`, or the last slot there is where that does not fit.
pub open spec fn start_of(epoch: Epoch, slots_per_epoch: u64) -> Slot {
    let first = epoch.0 * slots_per_epoch;
    if first <= u64::MAX {
        Slot(first as u64)
    } else {
        Slot(u64::MAX)
    }
}

/// The epoch that lies `epochs` before `epoch`, or the first one where there is none.
pub open spec fn epochs_before(epoch: Epoch, epochs: u64) -> Epoch {
    if epoch.0 < epochs {
        Epoch(0)
    } else {
        Epoch((epoch.0 - epochs) as u64)
    }
}

} // verus!
