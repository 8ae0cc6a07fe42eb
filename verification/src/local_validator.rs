//! A validator whose keys are held by this process.

use vstd::prelude::*;

use crate::primitives::PublicKeyBytes;

verus! {

/// A secret key. It is never compared.
pub struct SecretKey(pub [u8; 32]);

/// A public key and the secret key that it was derived from.
pub struct Keypair {
    pub pk: PublicKeyBytes,
    pub sk: SecretKey,
}

/// A validator whose files lie in a directory of this machine.
pub struct LocalValidator {
    pub validator_dir: String,
    pub voting_keypair: Keypair,
}

/// Equality by hand, to avoid doing equality checks between secret keys.
///
/// It's nice to avoid secret key comparisons from a security perspective, but it's also a little
/// risky when it comes to the integrity of maps.
///
/// Keypairs come from keystores, where the public key is derived from the secret key via a hash
/// function. For two equal public keys with different secret keys there would have to be either:
///
/// - A serious upstream integrity error.
/// - A hash collision.
///
/// It seems reasonable to make these two assumptions in order to avoid the equality checks.
impl PartialEq for LocalValidator {
    fn eq(&self, other: &Self) -> (same: bool) {
        self.validator_dir == other.validator_dir && self.voting_keypair.pk
            == other.voting_keypair.pk
    }
}

impl vstd::std_specs::cmp::PartialEqSpecImpl for LocalValidator {
    open spec fn obeys_eq_spec() -> bool {
        true
    }

    open spec fn eq_spec(&self, other: &Self) -> bool {
        &&& self.validator_dir@ == other.validator_dir@
        &&& self.voting_keypair.pk == other.voting_keypair.pk
    }
}

} // verus!
