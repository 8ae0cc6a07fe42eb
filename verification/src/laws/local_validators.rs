//! What holds of the equality of local validators.

use vstd::prelude::*;
use vstd::std_specs::cmp::PartialEqSpec;

use crate::local_validator::{Keypair, LocalValidator, SecretKey};

verus! {

/// Equality does not depend on secret keys.
pub proof fn law_equality_ignores_secret_keys(
    a: LocalValidator,
    b: LocalValidator,
    a_sk: SecretKey,
    b_sk: SecretKey,
)
    ensures
        a.eq_spec(&b) == (LocalValidator {
            voting_keypair: Keypair { sk: a_sk, ..a.voting_keypair },
            ..a
        }).eq_spec(
            &(LocalValidator {
                voting_keypair: Keypair { sk: b_sk, ..b.voting_keypair },
                ..b
            }),
        ),
{
}

/// Equality is an equivalence.
pub proof fn law_equality_is_an_equivalence(a: LocalValidator, b: LocalValidator, c: LocalValidator)
    ensures
        a.eq_spec(&a),
        a.eq_spec(&b) == b.eq_spec(&a),
        a.eq_spec(&b) && b.eq_spec(&c) ==> a.eq_spec(&c),
{
}

} // verus!
