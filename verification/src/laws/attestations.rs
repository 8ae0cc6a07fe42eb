//! What holds of the signing of an attestation, whatever answers come and however the store
//! changes in between.

use vstd::prelude::*;

use crate::chain_spec::Domain;
use crate::error::{AttestationError, Error, NotSafe, Safe, SigningError};
use crate::laws::steps::{cleared_at, first_status, label_of, Steps};
use crate::messages::AttestationData;
use crate::primitives::{Epoch, PublicKeyBytes, Signature};
use crate::store::sessions::{AttestationSigning, SigningEvent};
use crate::store::signing::{success, Counter, Metric, SigningDomain, SigningRequest};
use crate::store::StoreView;

verus! {

/// Where `steps` take the signing of an attestation.
pub open spec fn attestation_run<X>(
    start: AttestationSigning<X>,
    steps: Steps<X>,
) -> AttestationSigning<X>
    decreases steps.len(),
{
    if steps.len() == 0 {
        start
    } else {
        let (store, event) = steps.last();
        store.attestation_step(attestation_run(start, steps.drop_last()), event).0
    }
}

/// What `steps` count on the way.
pub open spec fn attestation_counts<X>(start: AttestationSigning<X>, steps: Steps<X>) -> Seq<Metric>
    decreases steps.len(),
{
    if steps.len() == 0 {
        Seq::empty()
    } else {
        let (store, event) = steps.last();
        let before = attestation_counts(start, steps.drop_last());
        match store.attestation_step(attestation_run(start, steps.drop_last()), event).1 {
            Some(metric) => before.push(metric),
            None => before,
        }
    }
}

/// The request for the signature of `data` that is made when it is cleared at step `i`.
pub open spec fn attestation_request<X>(
    store: StoreView,
    pubkey: PublicKeyBytes,
    data: AttestationData,
    steps: Steps<X>,
    i: int,
) -> SigningRequest<AttestationData> {
    SigningRequest {
        method: steps[i].0.validators[pubkey].signing_method,
        domain: SigningDomain::Context(
            store.context(Domain::BeaconAttester, data.target.epoch),
        ),
        message: data,
    }
}

/// The attestation is cleared at step `i`, and its signature comes at the later step `j`.
pub open spec fn signed_at<X>(
    pubkey: PublicKeyBytes,
    steps: Steps<X>,
    i: int,
    j: int,
    signature: Signature,
) -> bool {
    &&& cleared_at(pubkey, steps, i)
    &&& i < j < steps.len()
    &&& steps[j].1 == SigningEvent::<X>::Signed(Ok(signature))
}

/// The attestation is cleared, and later its signature comes.
pub open spec fn was_signed<X>(
    pubkey: PublicKeyBytes,
    steps: Steps<X>,
    signature: Signature,
) -> bool {
    exists|i: int, j: int| signed_at(pubkey, steps, i, j, signature)
}

/// The attestation is cleared at step `i`, its signature comes at the later step `j`, and at the
/// still later step `k` it was added.
pub open spec fn added_at<X>(
    pubkey: PublicKeyBytes,
    steps: Steps<X>,
    i: int,
    j: int,
    k: int,
    signature: Signature,
) -> bool {
    &&& signed_at(pubkey, steps, i, j, signature)
    &&& j < k < steps.len()
    &&& steps[k].1 == SigningEvent::<X>::SignatureAdded(Ok(()))
}

/// How the signing of `data` has come to `session` over `steps`.
pub open spec fn attestation_account<X>(
    store: StoreView,
    pubkey: PublicKeyBytes,
    position: usize,
    data: AttestationData,
    current_epoch: Epoch,
    steps: Steps<X>,
    session: AttestationSigning<X>,
) -> bool {
    match session {
        AttestationSigning::CheckAttestation { .. } => {
            &&& session == store.attestation_start::<X>(pubkey, position, data, current_epoch)
            &&& forall|i: int|
                0 <= i < steps.len() ==> !((#[trigger] steps[i]).1 is SlashingStatus)
        },
        AttestationSigning::Sign { request, validator_committee_position } => {
            &&& data.target.epoch.0 <= current_epoch.0
            &&& validator_committee_position == position
            &&& exists|i: int| #[trigger]
                cleared_at(pubkey, steps, i) && request == attestation_request(
                    store,
                    pubkey,
                    data,
                    steps,
                    i,
                )
        },
        AttestationSigning::AddSignature { signature, validator_committee_position } => {
            &&& data.target.epoch.0 <= current_epoch.0
            &&& validator_committee_position == position
            &&& was_signed(pubkey, steps, signature)
        },
        AttestationSigning::Done(result) => result is Ok ==> {
            &&& data.target.epoch.0 <= current_epoch.0
            &&& exists|i: int, j: int, k: int, signature: Signature| #[trigger]
                added_at(pubkey, steps, i, j, k, signature)
        },
    }
}

/// A signature of an attestation is asked for only if its target does not lie ahead of the current
/// epoch, the slashing protection database has found it valid, and doppelganger protection lets
/// its enabled attester sign at that moment. What is asked for is a signature of this very data,
/// by the method of its attester, under the domain of its target. It is added at the position that
/// was given. Success is reported only after it was added.
pub proof fn law_attestation_is_cleared_before_it_is_signed<X>(
    store: StoreView,
    pubkey: PublicKeyBytes,
    position: usize,
    data: AttestationData,
    current_epoch: Epoch,
    steps: Steps<X>,
)
    ensures
        attestation_account(
            store,
            pubkey,
            position,
            data,
            current_epoch,
            steps,
            attestation_run(store.attestation_start::<X>(pubkey, position, data, current_epoch), steps),
        ),
    decreases steps.len(),
{
    if steps.len() > 0 {
        let before = steps.drop_last();
        let last = steps.len() - 1;
        law_attestation_is_cleared_before_it_is_signed(
            store,
            pubkey,
            position,
            data,
            current_epoch,
            before,
        );
        assert(forall|j: int| 0 <= j < last ==> before[j] == #[trigger] steps[j]);
        assert forall|i: int| cleared_at(pubkey, before, i) implies #[trigger] cleared_at(
            pubkey,
            steps,
            i,
        ) by {
            assert(forall|j: int| 0 <= j < i ==> before[j] == #[trigger] steps[j]);
        }
        assert forall|i: int, j: int, signature: Signature|
            signed_at(pubkey, before, i, j, signature) implies #[trigger] signed_at(
            pubkey,
            steps,
            i,
            j,
            signature,
        ) by {
            assert(cleared_at(pubkey, steps, i));
        }
        let start = store.attestation_start::<X>(pubkey, position, data, current_epoch);
        match (attestation_run(start, before), steps.last().1) {
            (AttestationSigning::CheckAttestation { .. }, SigningEvent::SlashingStatus(status)) => {
                assert(first_status(steps, last));
                if attestation_run(start, steps) is Sign {
                    assert(cleared_at(pubkey, steps, last));
                }
            },
            (AttestationSigning::Sign { request, .. }, event) => {
                let i = choose|i: int| #[trigger]
                    cleared_at(pubkey, before, i) && request == attestation_request(
                        store,
                        pubkey,
                        data,
                        before,
                        i,
                    );
                assert(cleared_at(pubkey, steps, i));
                assert(request == attestation_request(store, pubkey, data, steps, i));
                if event is Signed && event->Signed_0 is Ok {
                    let signature = event->Signed_0->Ok_0;
                    assert(attestation_run(start, steps) == AttestationSigning::<X>::AddSignature {
                        signature,
                        validator_committee_position: position,
                    });
                    assert(signed_at(pubkey, steps, i, last, signature));
                    assert(was_signed(pubkey, steps, signature));
                }
            },
            (AttestationSigning::AddSignature { signature, .. }, event) => {
                let (i, j) = choose|i: int, j: int| #[trigger]
                    signed_at(pubkey, before, i, j, signature);
                assert(signed_at(pubkey, steps, i, j, signature));
                if let SigningEvent::SignatureAdded(Ok(unit)) = event {
                    assert(added_at(pubkey, steps, i, j, last, signature));
                }
            },
            (AttestationSigning::Done(result), _) => {
                if result is Ok {
                    let (i, j, k, signature) = choose|i: int, j: int, k: int, signature: Signature|
                     #[trigger]
                        added_at(pubkey, before, i, j, k, signature);
                    assert(signed_at(pubkey, steps, i, j, signature));
                    assert(added_at(pubkey, steps, i, j, k, signature));
                }
            },
            _ => {},
        }
    }
}

/// Nothing moves the signing of an attestation that is done, and nothing makes it count.
pub proof fn law_done_attestation_stays_done<X>(result: Result<(), Error<X>>, steps: Steps<X>)
    ensures
        attestation_run(AttestationSigning::Done(result), steps) == AttestationSigning::<X>::Done(
            result,
        ),
        attestation_counts(AttestationSigning::Done(result), steps) == Seq::<Metric>::empty(),
    decreases steps.len(),
{
    if steps.len() > 0 {
        law_done_attestation_stays_done(result, steps.drop_last());
    }
}

/// A request for the signature of an attestation stands until it is answered. No second one is
/// made.
pub proof fn law_attestation_is_requested_once<X>(
    start: AttestationSigning<X>,
    first: Steps<X>,
    then: Steps<X>,
)
    requires
        attestation_run(start, first) is Sign,
    ensures
        attestation_run(start, first + then) is Sign ==> attestation_run(start, first + then)
            == attestation_run(start, first),
        !(attestation_run(start, first + then) is CheckAttestation),
    decreases then.len(),
{
    if then.len() == 0 {
        assert(first + then =~= first);
    } else {
        assert((first + then).drop_last() =~= first + then.drop_last());
        law_attestation_is_requested_once(start, first, then.drop_last());
    }
}

/// An attestation whose target lies ahead of the current epoch is refused at once, and neither the
/// slashing protection database nor a signer is ever asked.
pub proof fn law_future_attestation_is_refused<X>(
    store: StoreView,
    pubkey: PublicKeyBytes,
    position: usize,
    data: AttestationData,
    current_epoch: Epoch,
    steps: Steps<X>,
)
    requires
        data.target.epoch.0 > current_epoch.0,
    ensures
        attestation_run(store.attestation_start::<X>(pubkey, position, data, current_epoch), steps)
            == AttestationSigning::<X>::Done(
            Err(Error::GreaterThanCurrentEpoch { epoch: data.target.epoch, current_epoch }),
        ),
        attestation_counts(store.attestation_start::<X>(pubkey, position, data, current_epoch), steps)
            == Seq::<Metric>::empty(),
{
    law_done_attestation_stays_done(
        Err(Error::GreaterThanCurrentEpoch { epoch: data.target.epoch, current_epoch }),
        steps,
    );
}

/// Until the slashing protection database speaks, the signing of an attestation waits for it.
proof fn lemma_attestation_waits<X>(start: AttestationSigning<X>, steps: Steps<X>)
    requires
        start is CheckAttestation,
        forall|i: int| 0 <= i < steps.len() ==> !((#[trigger] steps[i]).1 is SlashingStatus),
    ensures
        attestation_run(start, steps) == start,
        attestation_counts(start, steps) == Seq::<Metric>::empty(),
    decreases steps.len(),
{
    if steps.len() > 0 {
        let before = steps.drop_last();
        assert(forall|i: int| 0 <= i < before.len() ==> before[i] == #[trigger] steps[i]);
        lemma_attestation_waits(start, before);
        assert(!(steps[steps.len() - 1].1 is SlashingStatus));
    }
}

/// An attestation that the slashing protection database does not find valid is never signed. That
/// it was signed before, that its attester is not registered and that it could be slashed are each
/// told as what they are. This counts as what the database says.
pub proof fn law_refused_attestation_is_never_signed<X>(
    store: StoreView,
    pubkey: PublicKeyBytes,
    position: usize,
    data: AttestationData,
    current_epoch: Epoch,
    steps: Steps<X>,
    i: int,
    status: Result<Safe, NotSafe<X>>,
)
    requires
        data.target.epoch.0 <= current_epoch.0,
        first_status(steps, i),
        steps[i].1 == SigningEvent::<X>::SlashingStatus(status),
        status != Ok::<Safe, NotSafe<X>>(Safe::Valid),
    ensures
        ({
            let start = store.attestation_start::<X>(pubkey, position, data, current_epoch);
            let error = match status {
                Ok(_) => Error::SameData,
                Err(reason) => Error::Slashable(reason),
            };
            &&& attestation_run(start, steps) == AttestationSigning::<X>::Done(Err(error))
            &&& attestation_counts(start, steps) == seq![
                Metric { counter: Counter::SignedAttestations, label: label_of(status) },
            ]
        }),
    decreases steps.len(),
{
    let start = store.attestation_start::<X>(pubkey, position, data, current_epoch);
    let before = steps.drop_last();
    assert(forall|j: int| 0 <= j < before.len() ==> before[j] == #[trigger] steps[j]);
    if i == steps.len() - 1 {
        lemma_attestation_waits(start, before);
    } else {
        law_refused_attestation_is_never_signed(
            store,
            pubkey,
            position,
            data,
            current_epoch,
            before,
            i,
            status,
        );
    }
}

/// What the signing of an attestation comes to once all questions are answered, and what it
/// counts: what the database says if that is a refusal, and else a success if it comes to one. It
/// succeeds exactly if the target does not lie ahead of the current epoch, the slashing
/// protection database finds the attestation valid, doppelganger protection lets its enabled
/// attester sign, the signature is made, and it can be added.
pub proof fn law_attestation_outcome<X>(
    store: StoreView,
    pubkey: PublicKeyBytes,
    position: usize,
    data: AttestationData,
    current_epoch: Epoch,
    at_status: StoreView,
    status: Result<Safe, NotSafe<X>>,
    at_signed: StoreView,
    signed: Result<Signature, SigningError<X>>,
    at_added: StoreView,
    added: Result<(), AttestationError<X>>,
)
    ensures
        ({
            let start = store.attestation_start::<X>(pubkey, position, data, current_epoch);
            let steps = seq![
                (at_status, SigningEvent::SlashingStatus(status)),
                (at_signed, SigningEvent::Signed(signed)),
                (at_added, SigningEvent::SignatureAdded(added)),
            ];
            let result = if data.target.epoch.0 > current_epoch.0 {
                Err(Error::GreaterThanCurrentEpoch { epoch: data.target.epoch, current_epoch })
            } else if status == Ok::<Safe, NotSafe<X>>(Safe::SameData) {
                Err(Error::SameData)
            } else if status is Err {
                Err(Error::Slashable(status->Err_0))
            } else if !at_status.allows_signing(pubkey) {
                Err(Error::DoppelgangerProtected(pubkey))
            } else if !at_status.validators.contains_key(pubkey) {
                Err(Error::UnknownPubkey(pubkey))
            } else if signed is Err {
                Err(Error::UnableToSign(signed->Err_0))
            } else if added is Err {
                Err(Error::UnableToSignAttestation(added->Err_0))
            } else {
                Ok(())
            };
            let counts = if data.target.epoch.0 > current_epoch.0 {
                Seq::empty()
            } else if status != Ok::<Safe, NotSafe<X>>(Safe::Valid) {
                seq![Metric { counter: Counter::SignedAttestations, label: label_of(status) }]
            } else if result is Ok {
                seq![success(Counter::SignedAttestations)]
            } else {
                Seq::empty()
            };
            &&& attestation_run(start, steps) == AttestationSigning::<X>::Done(result)
            &&& attestation_counts(start, steps) == counts
        }),
{
    let start = store.attestation_start::<X>(pubkey, position, data, current_epoch);
    let one = (at_status, SigningEvent::SlashingStatus(status));
    let two = (at_signed, SigningEvent::Signed(signed));
    let three = (at_added, SigningEvent::SignatureAdded(added));
    let steps = seq![one, two, three];
    assert(steps.drop_last() =~= seq![one, two]);
    assert(seq![one, two].drop_last() =~= seq![one]);
    assert(seq![one].drop_last() =~= Seq::<(StoreView, SigningEvent<X>)>::empty());
    reveal_with_fuel(attestation_run, 4);
    reveal_with_fuel(attestation_counts, 4);
}

/// The signing of an attestation counts at most once.
pub proof fn law_attestation_counts_at_most_once<X>(start: AttestationSigning<X>, steps: Steps<X>)
    ensures
        attestation_counts(start, steps).len() <= 1,
        attestation_counts(start, steps).len() == 1 ==> attestation_run(start, steps) is Done,
    decreases steps.len(),
{
    if steps.len() > 0 {
        law_attestation_counts_at_most_once(start, steps.drop_last());
    }
}

/// Once a signature is to be added, the signing of an attestation stays there until it was added or
/// could not be.
proof fn lemma_adding_ends_in_adding<X>(start: AttestationSigning<X>, steps: Steps<X>, k: int)
    requires
        0 <= k <= steps.len(),
        attestation_run(start, steps.take(k)) is AddSignature,
    ensures
        match attestation_run(start, steps) {
            AttestationSigning::AddSignature { .. } => true,
            AttestationSigning::Done(Ok(_)) => true,
            AttestationSigning::Done(Err(e)) => e is UnableToSignAttestation,
            _ => false,
        },
    decreases steps.len(),
{
    if k == steps.len() {
        assert(steps.take(k) =~= steps);
    } else {
        assert(steps.drop_last().take(k) =~= steps.take(k));
        lemma_adding_ends_in_adding(start, steps.drop_last(), k);
    }
}

/// An attestation that was not signed is left as it was: where its signing ends in an error other
/// than that the signature could not be added, nobody was ever asked to add one.
pub proof fn law_unsigned_attestation_is_untouched<X>(start: AttestationSigning<X>, steps: Steps<X>)
    requires
        attestation_run(start, steps) matches AttestationSigning::Done(Err(e)) && !(
        e is UnableToSignAttestation),
    ensures
        forall|k: int|
            0 <= k <= steps.len() ==> !(attestation_run(
                start,
                #[trigger] steps.take(k),
            ) is AddSignature),
{
    assert forall|k: int| 0 <= k <= steps.len() implies !(attestation_run(
        start,
        #[trigger] steps.take(k),
    ) is AddSignature) by {
        if attestation_run(start, steps.take(k)) is AddSignature {
            lemma_adding_ends_in_adding(start, steps, k);
        }
    }
}

} // verus!
