//! What the store makes of the promises of a slashing protection database.
//!
//! The database lies outside. What it promises is stated over the record of what it was asked and
//! what it answered. Where a record keeps a promise, the laws hold of the runs that stand in it.

use vstd::prelude::*;

use crate::chain_spec::{Domain, SigningContext};
use crate::error::{Error, InterchangeError, NotSafe, Safe};
use crate::laws::attestations::{
    attestation_run, law_attestation_is_cleared_before_it_is_signed,
    law_refused_attestation_is_never_signed, law_unsigned_attestation_is_untouched,
};
use crate::laws::blocks::{
    block_run, law_block_is_cleared_before_it_is_signed, law_refused_block_is_never_signed,
};
use crate::laws::interchange::export_run;
use crate::laws::steps::{cleared_at, first_status, Steps};
use crate::messages::{AttestationData, BeaconBlock};
use crate::primitives::{epoch_of, Epoch, Hash256, PublicKeyBytes, Slot};
use crate::store::interchange::{KeyExportEvent, KeyExportView};
use crate::store::sessions::{AttestationSigning, BlockSigning, SigningEvent};
use crate::store::StoreView;

verus! {

/// What the database is asked, and what it answers.
#[allow(inconsistent_fields)]
pub enum Exchange<P, I, X> {
    /// A proposal is to be checked and recorded.
    Block {
        pubkey: PublicKeyBytes,
        block: BeaconBlock<P>,
        context: SigningContext,
        answer: Result<Safe, NotSafe<X>>,
    },
    /// An attestation is to be checked and recorded.
    Attestation {
        pubkey: PublicKeyBytes,
        data: AttestationData,
        context: SigningContext,
        answer: Result<Safe, NotSafe<X>>,
    },
    /// The id of a key is looked up, be it enabled or not.
    LookUp { pubkey: PublicKeyBytes, answer: Result<i64, NotSafe<X>> },
    /// A key is to be disabled.
    Disable { pubkey: PublicKeyBytes, validator_id: i64, answer: Result<(), NotSafe<X>> },
    /// The data of keys is to be exported.
    Export {
        genesis_validators_root: Hash256,
        known: Seq<PublicKeyBytes>,
        answer: Result<I, InterchangeError<X>>,
    },
    /// A key is registered.
    Register { pubkey: PublicKeyBytes },
    /// Data is imported.
    Import,
    /// Old data is pruned.
    Prune,
}

/// What the database was asked and answered, in order.
pub type Record<P, I, X> = Seq<Exchange<P, I, X>>;

/// Nothing is pruned, imported, disabled or exported between two exchanges.
pub open spec fn undisturbed<P, I, X>(record: Record<P, I, X>, i: int, j: int) -> bool {
    forall|k: int|
        i < k < j ==> !((#[trigger] record[k]) is Prune) && !(record[k] is Import) && !(
        record[k] is Disable) && !(record[k] is Export)
}

/// The stores are of the same chain.
pub open spec fn same_chain(a: StoreView, b: StoreView) -> bool {
    &&& a.spec == b.spec
    &&& a.genesis_validators_root == b.genesis_validators_root
    &&& a.slots_per_epoch == b.slots_per_epoch
}

/// The signing of a block, from its start over some steps.
pub struct BlockRun<P, X> {
    pub store: StoreView,
    pub pubkey: PublicKeyBytes,
    pub block: BeaconBlock<P>,
    pub current_slot: Slot,
    pub steps: Steps<X>,
}

impl<P, X> BlockRun<P, X> {
    pub open spec fn start(self) -> BlockSigning<P, X> {
        self.store.block_start(self.pubkey, self.block, self.current_slot)
    }

    /// What the signing has come to.
    pub open spec fn end(self) -> BlockSigning<P, X> {
        block_run(self.start(), self.steps)
    }

    /// What a signature of the block commits to.
    pub open spec fn context(self) -> SigningContext {
        self.store.context(
            Domain::BeaconProposer,
            epoch_of(self.block.slot, self.store.slots_per_epoch),
        )
    }

    /// The database is asked for the block, and this is what it answers.
    pub open spec fn answered(self, answer: Result<Safe, NotSafe<X>>) -> bool {
        &&& self.block.slot.0 <= self.current_slot.0
        &&& exists|i: int| #[trigger]
            first_status(self.steps, i) && self.steps[i].1 == SigningEvent::<X>::SlashingStatus(
                answer,
            )
    }

    /// This is what the database is asked and answers.
    pub open spec fn exchanged<I>(self, exchange: Exchange<P, I, X>) -> bool {
        exchange matches Exchange::Block { pubkey, block, context, answer } && {
            &&& pubkey == self.pubkey
            &&& block == self.block
            &&& context == self.context()
            &&& self.answered(answer)
        }
    }

    /// At some point a signature of the block is asked for.
    pub open spec fn asked_to_sign(self) -> bool {
        exists|k: int|
            0 <= k <= self.steps.len() && block_run(
                self.start(),
                #[trigger] self.steps.take(k),
            ) is Sign
    }
}

/// The signing of an attestation, from its start over some steps.
pub struct AttestationRun<X> {
    pub store: StoreView,
    pub pubkey: PublicKeyBytes,
    pub position: usize,
    pub data: AttestationData,
    pub current_epoch: Epoch,
    pub steps: Steps<X>,
}

impl<X> AttestationRun<X> {
    pub open spec fn start(self) -> AttestationSigning<X> {
        self.store.attestation_start(self.pubkey, self.position, self.data, self.current_epoch)
    }

    /// What the signing has come to.
    pub open spec fn end(self) -> AttestationSigning<X> {
        attestation_run(self.start(), self.steps)
    }

    /// What a signature of the attestation commits to.
    pub open spec fn context(self) -> SigningContext {
        self.store.context(Domain::BeaconAttester, self.data.target.epoch)
    }

    /// The database is asked for the attestation, and this is what it answers.
    pub open spec fn answered(self, answer: Result<Safe, NotSafe<X>>) -> bool {
        &&& self.data.target.epoch.0 <= self.current_epoch.0
        &&& exists|i: int| #[trigger]
            first_status(self.steps, i) && self.steps[i].1 == SigningEvent::<X>::SlashingStatus(
                answer,
            )
    }

    /// This is what the database is asked and answers.
    pub open spec fn exchanged<P, I>(self, exchange: Exchange<P, I, X>) -> bool {
        exchange matches Exchange::Attestation { pubkey, data, context, answer } && {
            &&& pubkey == self.pubkey
            &&& data == self.data
            &&& context == self.context()
            &&& self.answered(answer)
        }
    }

    /// At some point a signature of the attestation is asked for.
    pub open spec fn asked_to_sign(self) -> bool {
        exists|k: int|
            0 <= k <= self.steps.len() && attestation_run(
                self.start(),
                #[trigger] self.steps.take(k),
            ) is Sign
    }

    /// At some point the attestation is handed out for a signature to be added.
    pub open spec fn asked_to_add(self) -> bool {
        exists|k: int|
            0 <= k <= self.steps.len() && attestation_run(
                self.start(),
                #[trigger] self.steps.take(k),
            ) is AddSignature
    }
}

/// The first word of the database is one.
proof fn lemma_first_status_is_one<X>(steps: Steps<X>, i: int, j: int)
    requires
        first_status(steps, i),
        first_status(steps, j),
    ensures
        i == j,
{
    if i < j {
        assert(!(steps[i].1 is SlashingStatus));
    }
    if j < i {
        assert(!(steps[j].1 is SlashingStatus));
    }
}

/// What clears a message within the first steps clears it within all.
proof fn lemma_cleared_in_front<X>(pubkey: PublicKeyBytes, steps: Steps<X>, k: int, i: int)
    requires
        0 <= k <= steps.len(),
        cleared_at(pubkey, steps.take(k), i),
    ensures
        cleared_at(pubkey, steps, i),
{
    let front = steps.take(k);
    assert(forall|j: int| 0 <= j < k ==> front[j] == #[trigger] steps[j]);
}

/// A signature of a block is asked for only if the database has found the block valid.
pub proof fn law_asked_block_was_found_valid<P, X>(run: BlockRun<P, X>)
    requires
        run.asked_to_sign() || run.end() matches BlockSigning::Done(Ok(_)),
    ensures
        run.answered(Ok(Safe::Valid)),
{
    let k = if run.asked_to_sign() {
        choose|k: int|
            0 <= k <= run.steps.len() && block_run(
                run.start(),
                #[trigger] run.steps.take(k),
            ) is Sign
    } else {
        assert(run.steps.take(run.steps.len() as int) =~= run.steps);
        run.steps.len() as int
    };
    let front = run.steps.take(k);
    law_block_is_cleared_before_it_is_signed::<P, X>(
        run.store,
        run.pubkey,
        run.block,
        run.current_slot,
        front,
    );
    let i = choose|i: int| #[trigger] cleared_at(run.pubkey, front, i);
    lemma_cleared_in_front(run.pubkey, run.steps, k, i);
    assert(first_status(run.steps, i));
}

/// A signature of an attestation is asked for only if the database has found it valid.
pub proof fn law_asked_attestation_was_found_valid<X>(run: AttestationRun<X>)
    requires
        run.asked_to_sign(),
    ensures
        run.answered(Ok(Safe::Valid)),
{
    let k = choose|k: int|
        0 <= k <= run.steps.len() && attestation_run(
            run.start(),
            #[trigger] run.steps.take(k),
        ) is Sign;
    let front = run.steps.take(k);
    law_attestation_is_cleared_before_it_is_signed::<X>(
        run.store,
        run.pubkey,
        run.position,
        run.data,
        run.current_epoch,
        front,
    );
    let i = choose|i: int| #[trigger] cleared_at(run.pubkey, front, i);
    lemma_cleared_in_front(run.pubkey, run.steps, k, i);
    assert(first_status(run.steps, i));
}

/// The error that a message comes to which the database does not find valid.
pub open spec fn refusal_error<X>(answer: Result<Safe, NotSafe<X>>) -> Error<X> {
    match answer {
        Ok(_) => Error::SameData,
        Err(reason) => Error::Slashable(reason),
    }
}

/// A block that the database does not find valid comes to an error, and no signature of it is ever
/// asked for.
proof fn lemma_refused_block<P, X>(run: BlockRun<P, X>, answer: Result<Safe, NotSafe<X>>)
    requires
        run.answered(answer),
        answer != Ok::<Safe, NotSafe<X>>(Safe::Valid),
    ensures
        run.end() == BlockSigning::<P, X>::Done(Err(refusal_error(answer))),
        !run.asked_to_sign(),
{
    let i = choose|i: int| #[trigger]
        first_status(run.steps, i) && run.steps[i].1 == SigningEvent::<X>::SlashingStatus(answer);
    law_refused_block_is_never_signed::<P, X>(
        run.store,
        run.pubkey,
        run.block,
        run.current_slot,
        run.steps,
        i,
        answer,
    );
    if run.asked_to_sign() {
        law_asked_block_was_found_valid(run);
        let j = choose|j: int| #[trigger]
            first_status(run.steps, j) && run.steps[j].1 == SigningEvent::<X>::SlashingStatus(
                Ok(Safe::Valid),
            );
        lemma_first_status_is_one(run.steps, i, j);
    }
}

/// An attestation that the database does not find valid comes to an error. No signature of it is
/// ever asked for, and it is left as it was.
proof fn lemma_refused_attestation<X>(run: AttestationRun<X>, answer: Result<Safe, NotSafe<X>>)
    requires
        run.answered(answer),
        answer != Ok::<Safe, NotSafe<X>>(Safe::Valid),
    ensures
        run.end() == AttestationSigning::<X>::Done(Err(refusal_error(answer))),
        !run.asked_to_sign(),
        !run.asked_to_add(),
{
    let i = choose|i: int| #[trigger]
        first_status(run.steps, i) && run.steps[i].1 == SigningEvent::<X>::SlashingStatus(answer);
    law_refused_attestation_is_never_signed::<X>(
        run.store,
        run.pubkey,
        run.position,
        run.data,
        run.current_epoch,
        run.steps,
        i,
        answer,
    );
    law_unsigned_attestation_is_untouched(run.start(), run.steps);
    if run.asked_to_sign() {
        law_asked_attestation_was_found_valid(run);
        let j = choose|j: int| #[trigger]
            first_status(run.steps, j) && run.steps[j].1 == SigningEvent::<X>::SlashingStatus(
                Ok(Safe::Valid),
            );
        lemma_first_status_is_one(run.steps, i, j);
    }
}

/// Where the database never finds two blocks of one key and slot valid, no slot of a key gets more
/// than one signature: of any two runs, at most one asks for it.
pub proof fn law_slot_is_signed_at_most_once<P, X>(runs: Seq<BlockRun<P, X>>, i: int, j: int)
    requires
        forall|a: int, b: int|
            0 <= a < b < runs.len() && (#[trigger] runs[a]).pubkey == (#[trigger] runs[b]).pubkey
                && runs[a].block.slot == runs[b].block.slot ==> !(runs[a].answered(Ok(Safe::Valid))
                && runs[b].answered(Ok(Safe::Valid))),
        0 <= i < j < runs.len(),
        runs[i].pubkey == runs[j].pubkey,
        runs[i].block.slot == runs[j].block.slot,
    ensures
        !(runs[i].asked_to_sign() && runs[j].asked_to_sign()),
{
    if runs[i].asked_to_sign() && runs[j].asked_to_sign() {
        law_asked_block_was_found_valid(runs[i]);
        law_asked_block_was_found_valid(runs[j]);
    }
}

/// A block that was found valid is remembered: another one of its key and slot is the same data if
/// it has the same signing root, and is else refused.
pub open spec fn block_remembered<P, I, X>(
    first: Exchange<P, I, X>,
    second: Exchange<P, I, X>,
    root: spec_fn(BeaconBlock<P>, SigningContext) -> Hash256,
) -> bool {
    (first is Block && second is Block && first->Block_answer == Ok::<Safe, NotSafe<X>>(Safe::Valid)
        && first->Block_pubkey == second->Block_pubkey && first->block.slot == second->block.slot)
        ==> if root(first->block, first->Block_context) == root(
        second->block,
        second->Block_context,
    ) {
        second->Block_answer == Ok::<Safe, NotSafe<X>>(Safe::SameData)
    } else {
        second->Block_answer is Err
    }
}

/// The database remembers the blocks that it found valid, as long as it is undisturbed.
pub open spec fn remembers_blocks<P, I, X>(
    record: Record<P, I, X>,
    root: spec_fn(BeaconBlock<P>, SigningContext) -> Hash256,
) -> bool {
    forall|i: int, j: int|
        0 <= i < j < record.len() && undisturbed(record, i, j) ==> #[trigger] block_remembered(
            record[i],
            record[j],
            root,
        )
}

/// With a database that remembers blocks, no slot of a validator gets two signed blocks, not even
/// the same one twice. After one was found valid, and so after one was signed, the same block is
/// told to be the same data, and a block with another signing root to be slashable. No signature is
/// asked for.
pub proof fn law_slot_gets_one_signed_block<P, I, X>(
    record: Record<P, I, X>,
    root: spec_fn(BeaconBlock<P>, SigningContext) -> Hash256,
    i: int,
    j: int,
    first: BlockRun<P, X>,
    second: BlockRun<P, X>,
)
    requires
        remembers_blocks(record, root),
        0 <= i < j < record.len(),
        undisturbed(record, i, j),
        first.exchanged(record[i]),
        second.exchanged(record[j]),
        first.answered(Ok(Safe::Valid)) || first.end() matches BlockSigning::Done(Ok(_)),
        first.pubkey == second.pubkey,
        first.block.slot == second.block.slot,
    ensures
        !second.asked_to_sign(),
        second.end() matches BlockSigning::Done(Err(e)) && {
            &&& root(first.block, first.context()) == root(second.block, second.context())
                ==> e is SameData
            &&& root(first.block, first.context()) != root(second.block, second.context())
                ==> e is Slashable
            &&& first.block == second.block && same_chain(first.store, second.store)
                ==> e is SameData
        },
{
    if !first.answered(Ok(Safe::Valid)) {
        law_asked_block_was_found_valid(first);
    }
    let a = choose|a: int| #[trigger]
        first_status(first.steps, a) && first.steps[a].1 == SigningEvent::<X>::SlashingStatus(
            Ok(Safe::Valid),
        );
    let b = choose|b: int| #[trigger]
        first_status(first.steps, b) && first.steps[b].1 == SigningEvent::<X>::SlashingStatus(
            record[i]->Block_answer,
        );
    lemma_first_status_is_one(first.steps, a, b);
    assert(block_remembered(record[i], record[j], root));
    lemma_refused_block(second, record[j]->Block_answer);
}

/// An attestation that was found valid is remembered: the same one is the same data.
pub open spec fn attestation_remembered<P, I, X>(
    first: Exchange<P, I, X>,
    second: Exchange<P, I, X>,
) -> bool {
    (first is Attestation && second is Attestation && first->Attestation_answer == Ok::<
        Safe,
        NotSafe<X>,
    >(Safe::Valid) && first->Attestation_pubkey == second->Attestation_pubkey && first->data
        == second->data && first->Attestation_context == second->Attestation_context)
        ==> second->Attestation_answer == Ok::<Safe, NotSafe<X>>(Safe::SameData)
}

/// The database remembers the attestations that it found valid, as long as it is undisturbed.
pub open spec fn remembers_attestations<P, I, X>(record: Record<P, I, X>) -> bool {
    forall|i: int, j: int|
        0 <= i < j < record.len() && undisturbed(record, i, j)
            ==> #[trigger] attestation_remembered(record[i], record[j])
}

/// With a database that remembers attestations, the same attestation is never signed twice, and one
/// whose signing failed is not tried again. Once it was found valid, whatever that came to, it is
/// told to be the same data, whatever the position. No signature is asked for, and the attestation
/// is left as it was.
pub proof fn law_attestation_is_signed_once<P, I, X>(
    record: Record<P, I, X>,
    i: int,
    j: int,
    first: AttestationRun<X>,
    second: AttestationRun<X>,
)
    requires
        remembers_attestations(record),
        0 <= i < j < record.len(),
        undisturbed(record, i, j),
        first.exchanged(record[i]),
        second.exchanged(record[j]),
        first.answered(Ok(Safe::Valid)),
        first.pubkey == second.pubkey,
        first.data == second.data,
        same_chain(first.store, second.store),
    ensures
        second.end() == AttestationSigning::<X>::Done(Err(Error::SameData)),
        !second.asked_to_sign(),
        !second.asked_to_add(),
{
    let a = choose|a: int| #[trigger]
        first_status(first.steps, a) && first.steps[a].1 == SigningEvent::<X>::SlashingStatus(
            Ok(Safe::Valid),
        );
    let b = choose|b: int| #[trigger]
        first_status(first.steps, b) && first.steps[b].1 == SigningEvent::<X>::SlashingStatus(
            record[i]->Attestation_answer,
        );
    lemma_first_status_is_one(first.steps, a, b);
    assert(attestation_remembered(record[i], record[j]));
    lemma_refused_attestation(second, record[j]->Attestation_answer);
}

/// The export of slashing protection data, from its start over some events.
pub struct ExportRun<I, X> {
    pub store: StoreView,
    pub pubkeys: Seq<PublicKeyBytes>,
    pub events: Seq<KeyExportEvent<I, X>>,
}

impl<I, X> ExportRun<I, X> {
    pub open spec fn start(self) -> KeyExportView<I, X> {
        self.store.export_of(self.pubkeys, Seq::empty())
    }

    /// What the export has come to.
    pub open spec fn end(self) -> KeyExportView<I, X> {
        export_run(self.store, self.start(), self.events)
    }

    /// What the database is asked and answers on the way.
    pub open spec fn exchanges<P>(self) -> Record<P, I, X>
        decreases self.events.len(),
    {
        if self.events.len() == 0 {
            Seq::empty()
        } else {
            let before = ExportRun { events: self.events.drop_last(), ..self };
            match (before.end(), self.events.last()) {
                (
                    KeyExportView::LookUp { remaining, .. },
                    KeyExportEvent::ValidatorId(answer),
                ) => before.exchanges().push(
                    Exchange::LookUp { pubkey: remaining.first(), answer },
                ),
                (
                    KeyExportView::Disable { validator_id, remaining, .. },
                    KeyExportEvent::StatusUpdated(answer),
                ) => before.exchanges().push(
                    Exchange::Disable { pubkey: remaining.first(), validator_id, answer },
                ),
                (
                    KeyExportView::Export { genesis_validators_root, known },
                    KeyExportEvent::Exported(answer),
                ) => before.exchanges().push(
                    Exchange::Export { genesis_validators_root, known, answer },
                ),
                _ => before.exchanges(),
            }
        }
    }
}

/// The exchange leaves `pubkey` disabled, or shows that the database does not know it.
pub open spec fn locks_out<P, I, X>(exchange: Exchange<P, I, X>, pubkey: PublicKeyBytes) -> bool {
    match exchange {
        Exchange::LookUp { pubkey: key, answer } => key == pubkey && answer is Err,
        Exchange::Disable { pubkey: key, validator_id, answer } => key == pubkey && answer is Ok,
        _ => false,
    }
}

/// Some exchange locks `pubkey` out.
pub open spec fn locked_out<P, I, X>(record: Record<P, I, X>, pubkey: PublicKeyBytes) -> bool {
    exists|m: int| 0 <= m < record.len() && #[trigger] locks_out(record[m], pubkey)
}

/// The exchange asks for a message of `pubkey` to be checked.
pub open spec fn checks<P, I, X>(exchange: Exchange<P, I, X>, pubkey: PublicKeyBytes) -> bool {
    match exchange {
        Exchange::Block { pubkey: key, .. } => key == pubkey,
        Exchange::Attestation { pubkey: key, .. } => key == pubkey,
        _ => false,
    }
}

/// The exchange refuses a message.
pub open spec fn refuses<P, I, X>(exchange: Exchange<P, I, X>) -> bool {
    match exchange {
        Exchange::Block { answer, .. } => answer is Err,
        Exchange::Attestation { answer, .. } => answer is Err,
        _ => false,
    }
}

/// Between two exchanges `pubkey` is not registered, nor can an import have brought it.
pub open spec fn not_registered<P, I, X>(
    record: Record<P, I, X>,
    pubkey: PublicKeyBytes,
    i: int,
    j: int,
) -> bool {
    forall|k: int|
        i < k < j ==> !((#[trigger] record[k]) is Import) && record[k] != (Exchange::<
            P,
            I,
            X,
        >::Register { pubkey })
}

/// The database refuses all messages of a key that is disabled or that it does not know, until the
/// key is registered.
pub open spec fn refuses_locked_out<P, I, X>(record: Record<P, I, X>) -> bool {
    forall|pubkey: PublicKeyBytes, i: int, j: int|
        0 <= i < j < record.len() && #[trigger] locks_out(record[i], pubkey) && #[trigger] checks(
            record[j],
            pubkey,
        ) && not_registered(record, pubkey, i, j) ==> refuses(record[j])
}

/// The keys that an export has dealt with so far are locked out.
pub open spec fn export_locks_out<P, I, X>(run: ExportRun<I, X>) -> bool {
    let record = run.exchanges::<P>();
    match run.end() {
        KeyExportView::LookUp { remaining, .. } => {
            &&& 0 < remaining.len() <= run.pubkeys.len()
            &&& remaining == run.pubkeys.skip(run.pubkeys.len() - remaining.len())
            &&& forall|i: int|
                0 <= i < run.pubkeys.len() - remaining.len() ==> locked_out(
                    record,
                    #[trigger] run.pubkeys[i],
                )
        },
        KeyExportView::Disable { remaining, .. } => {
            &&& 0 < remaining.len() <= run.pubkeys.len()
            &&& remaining == run.pubkeys.skip(run.pubkeys.len() - remaining.len())
            &&& forall|i: int|
                0 <= i < run.pubkeys.len() - remaining.len() ==> locked_out(
                    record,
                    #[trigger] run.pubkeys[i],
                )
        },
        KeyExportView::Export { .. } => forall|i: int|
            0 <= i < run.pubkeys.len() ==> locked_out(record, #[trigger] run.pubkeys[i]),
        KeyExportView::Done(result) => result is Ok ==> forall|i: int|
            0 <= i < run.pubkeys.len() ==> locked_out(record, #[trigger] run.pubkeys[i]),
    }
}

/// By the time an export succeeds, each of the given keys is disabled, or the database does not
/// know it.
pub proof fn law_export_locks_out_all_keys<P, I, X>(run: ExportRun<I, X>)
    ensures
        export_locks_out::<P, I, X>(run),
    decreases run.events.len(),
{
    if run.events.len() == 0 {
        assert(run.pubkeys.skip(0) =~= run.pubkeys);
    } else {
        let before = ExportRun { events: run.events.drop_last(), ..run };
        law_export_locks_out_all_keys::<P, I, X>(before);
        let old_record = before.exchanges::<P>();
        let record = run.exchanges::<P>();
        assert(run.end() == run.store.export_step(before.end(), run.events.last()));
        assert forall|pubkey: PublicKeyBytes| locked_out(old_record, pubkey) implies locked_out(
            record,
            pubkey,
        ) by {
            let m = choose|m: int|
                0 <= m < old_record.len() && #[trigger] locks_out(old_record[m], pubkey);
            assert(record[m] == old_record[m]);
            assert(locks_out(record[m], pubkey));
        }
        let last = record.len() - 1;
        match (before.end(), run.events.last()) {
            (KeyExportView::LookUp { remaining, .. }, KeyExportEvent::ValidatorId(answer)) => {
                let at = run.pubkeys.len() - remaining.len();
                assert(remaining.first() == run.pubkeys[at]);
                assert(remaining.drop_first() =~= run.pubkeys.skip(at + 1));
                if answer is Err {
                    assert(locks_out(record[last], run.pubkeys[at]));
                }
            },
            (KeyExportView::Disable { remaining, .. }, KeyExportEvent::StatusUpdated(answer)) => {
                let at = run.pubkeys.len() - remaining.len();
                assert(remaining.first() == run.pubkeys[at]);
                assert(remaining.drop_first() =~= run.pubkeys.skip(at + 1));
                if answer is Ok {
                    assert(locks_out(record[last], run.pubkeys[at]));
                }
            },
            _ => {},
        }
    }
}

/// The exchanges of an export stand in the record from `at` on.
pub open spec fn stands_at<P, I, X>(
    record: Record<P, I, X>,
    export: ExportRun<I, X>,
    at: int,
) -> bool {
    &&& 0 <= at
    &&& at + export.exchanges::<P>().len() <= record.len()
    &&& export.exchanges::<P>() == record.subrange(at, at + export.exchanges::<P>().len())
}

/// After an export that succeeded, what is checked of one of its keys is refused.
proof fn lemma_exported_key_is_refused<P, I, X>(
    record: Record<P, I, X>,
    export: ExportRun<I, X>,
    at: int,
    pubkey: PublicKeyBytes,
    j: int,
)
    requires
        refuses_locked_out(record),
        stands_at(record, export, at),
        export.end() matches KeyExportView::Done(Ok(_)),
        export.pubkeys.contains(pubkey),
        at + export.exchanges::<P>().len() <= j < record.len(),
        not_registered(record, pubkey, at - 1, j),
        checks(record[j], pubkey),
    ensures
        refuses(record[j]),
{
    law_export_locks_out_all_keys::<P, I, X>(export);
    let exchanges = export.exchanges::<P>();
    let n = export.pubkeys.index_of(pubkey);
    assert(export.pubkeys[n] == pubkey);
    let m = choose|m: int|
        0 <= m < exchanges.len() && #[trigger] locks_out(exchanges[m], pubkey);
    assert(record[at + m] == exchanges[m]);
    assert(locks_out(record[at + m], pubkey));
    assert(not_registered(record, pubkey, at + m, j));
}

/// With a database that refuses keys that are disabled or that it does not know, an exported key
/// signs no further block until it is registered again: each is told to be slashable.
pub proof fn law_exported_key_signs_no_block<P, I, X>(
    record: Record<P, I, X>,
    export: ExportRun<I, X>,
    at: int,
    j: int,
    run: BlockRun<P, X>,
)
    requires
        refuses_locked_out(record),
        stands_at(record, export, at),
        export.end() matches KeyExportView::Done(Ok(_)),
        export.pubkeys.contains(run.pubkey),
        at + export.exchanges::<P>().len() <= j < record.len(),
        not_registered(record, run.pubkey, at - 1, j),
        run.exchanged(record[j]),
    ensures
        run.end() matches BlockSigning::Done(Err(Error::Slashable(_))),
        !run.asked_to_sign(),
{
    lemma_exported_key_is_refused(record, export, at, run.pubkey, j);
    lemma_refused_block(run, record[j]->Block_answer);
}

/// With a database that refuses keys that are disabled or that it does not know, an exported key
/// signs no further attestation until it is registered again: each is told to be slashable, and is
/// left as it was.
pub proof fn law_exported_key_signs_no_attestation<P, I, X>(
    record: Record<P, I, X>,
    export: ExportRun<I, X>,
    at: int,
    j: int,
    run: AttestationRun<X>,
)
    requires
        refuses_locked_out(record),
        stands_at(record, export, at),
        export.end() matches KeyExportView::Done(Ok(_)),
        export.pubkeys.contains(run.pubkey),
        at + export.exchanges::<P>().len() <= j < record.len(),
        not_registered(record, run.pubkey, at - 1, j),
        run.exchanged(record[j]),
    ensures
        run.end() matches AttestationSigning::Done(Err(Error::Slashable(_))),
        !run.asked_to_sign(),
        !run.asked_to_add(),
{
    lemma_exported_key_is_refused(record, export, at, run.pubkey, j);
    lemma_refused_attestation(run, record[j]->Attestation_answer);
}

/// Two lookups of one key are answered alike: there is an id, or there is none.
pub open spec fn looked_up_alike<P, I, X>(a: Exchange<P, I, X>, b: Exchange<P, I, X>) -> bool {
    (a is LookUp && b is LookUp && a->LookUp_pubkey == b->LookUp_pubkey) ==> (a->LookUp_answer is Ok
        <==> b->LookUp_answer is Ok)
}

/// Two exports of the same keys, for the same chain, are answered with the same data.
pub open spec fn exported_alike<P, I, X>(a: Exchange<P, I, X>, b: Exchange<P, I, X>) -> bool {
    (a is Export && b is Export && a->genesis_validators_root == b->genesis_validators_root
        && a->known == b->known) ==> a->Export_answer == b->Export_answer
}

/// Keys can be disabled, and to disable a key changes neither whether it is found nor the data of
/// any key.
pub open spec fn disabling_keeps_data<P, I, X>(record: Record<P, I, X>) -> bool {
    &&& forall|i: int|
        0 <= i < record.len() && (#[trigger] record[i]) is Disable ==> record[i]->Disable_answer is Ok
    &&& forall|i: int, j: int|
        0 <= i < record.len() && 0 <= j < record.len() ==> #[trigger] looked_up_alike(
            record[i],
            record[j],
        )
    &&& forall|i: int, j: int|
        0 <= i < record.len() && 0 <= j < record.len() ==> #[trigger] exported_alike(
            record[i],
            record[j],
        )
}

/// The database finds exactly the keys that pass `found`, and can disable them.
pub open spec fn finds<P, I, X>(
    record: Record<P, I, X>,
    found: spec_fn(PublicKeyBytes) -> bool,
) -> bool {
    forall|i: int|
        0 <= i < record.len() ==> match #[trigger] record[i] {
            Exchange::LookUp { pubkey, answer } => answer is Ok <==> found(pubkey),
            Exchange::Disable { answer, .. } => answer is Ok,
            _ => true,
        }
}

/// The answer to an export of `known` stands in the record.
pub open spec fn export_answered<P, I, X>(
    record: Record<P, I, X>,
    genesis_validators_root: Hash256,
    known: Seq<PublicKeyBytes>,
    answer: Result<I, InterchangeError<X>>,
) -> bool {
    exists|m: int|
        0 <= m < record.len() && #[trigger] record[m] == (Exchange::<P, I, X>::Export {
            genesis_validators_root,
            known,
            answer,
        })
}

/// The keys that an export has gone through are those that are found.
pub open spec fn export_follows<P, I, X>(
    run: ExportRun<I, X>,
    found: spec_fn(PublicKeyBytes) -> bool,
) -> bool {
    let root = run.store.genesis_validators_root;
    match run.end() {
        KeyExportView::LookUp { remaining, known } => {
            let n = run.pubkeys.len() - remaining.len();
            &&& 0 < remaining.len() <= run.pubkeys.len()
            &&& remaining == run.pubkeys.skip(n)
            &&& known == run.pubkeys.take(n).filter(found)
        },
        KeyExportView::Disable { validator_id, remaining, known } => {
            let n = run.pubkeys.len() - remaining.len();
            &&& 0 < remaining.len() <= run.pubkeys.len()
            &&& remaining == run.pubkeys.skip(n)
            &&& known == run.pubkeys.take(n).filter(found)
            &&& found(run.pubkeys[n])
        },
        KeyExportView::Export { genesis_validators_root, known } => {
            &&& genesis_validators_root == root
            &&& known == run.pubkeys.filter(found)
        },
        KeyExportView::Done(result) => export_answered(
            run.exchanges::<P>(),
            root,
            run.pubkeys.filter(found),
            result,
        ),
    }
}

/// Against a database that finds exactly the keys that pass `found`, and can disable them, an export
/// asks for the data of exactly these keys, and comes to what the database answers.
pub proof fn law_export_is_of_found_keys<P, I, X>(
    run: ExportRun<I, X>,
    found: spec_fn(PublicKeyBytes) -> bool,
)
    requires
        finds(run.exchanges::<P>(), found),
    ensures
        export_follows::<P, I, X>(run, found),
    decreases run.events.len(),
{
    reveal(Seq::filter);
    if run.events.len() == 0 {
        assert(run.pubkeys.skip(0) =~= run.pubkeys);
        assert(run.pubkeys.take(0) =~= Seq::empty());
        if run.pubkeys.len() == 0 {
            assert(run.pubkeys =~= Seq::empty());
        }
    } else {
        let before = ExportRun { events: run.events.drop_last(), ..run };
        let old_record = before.exchanges::<P>();
        let record = run.exchanges::<P>();
        assert(forall|m: int|
            0 <= m < old_record.len() ==> old_record[m] == #[trigger] record[m]);
        assert(finds(old_record, found)) by {
            assert forall|i: int| 0 <= i < old_record.len() implies match #[trigger] old_record[i] {
                Exchange::LookUp { pubkey, answer } => answer is Ok <==> found(pubkey),
                Exchange::Disable { answer, .. } => answer is Ok,
                _ => true,
            } by {
                assert(record[i] == old_record[i]);
            }
        }
        law_export_is_of_found_keys::<P, I, X>(before, found);
        assert(run.end() == run.store.export_step(before.end(), run.events.last()));
        match (before.end(), run.events.last()) {
            (KeyExportView::LookUp { remaining, .. }, KeyExportEvent::ValidatorId(answer)) => {
                let n = run.pubkeys.len() - remaining.len();
                assert(record[record.len() - 1] is LookUp);
                lemma_export_goes_on(run.pubkeys, remaining, n, found);
            },
            (KeyExportView::Disable { remaining, .. }, KeyExportEvent::StatusUpdated(answer)) => {
                let n = run.pubkeys.len() - remaining.len();
                assert(record[record.len() - 1] is Disable);
                lemma_export_goes_on(run.pubkeys, remaining, n, found);
            },
            (
                KeyExportView::Export { genesis_validators_root, known },
                KeyExportEvent::Exported(answer),
            ) => {
                assert(record[record.len() - 1] == (Exchange::<P, I, X>::Export {
                    genesis_validators_root,
                    known,
                    answer,
                }));
            },
            (KeyExportView::Done(result), _) => {
                let root = run.store.genesis_validators_root;
                let known = run.pubkeys.filter(found);
                let m = choose|m: int|
                    0 <= m < old_record.len() && #[trigger] old_record[m] == (Exchange::<
                        P,
                        I,
                        X,
                    >::Export { genesis_validators_root: root, known, answer: result });
                assert(record[m] == old_record[m]);
            },
            _ => {},
        }
    }
}

/// What is kept of one more key.
proof fn lemma_export_goes_on(
    pubkeys: Seq<PublicKeyBytes>,
    remaining: Seq<PublicKeyBytes>,
    n: int,
    found: spec_fn(PublicKeyBytes) -> bool,
)
    requires
        0 <= n < pubkeys.len(),
        remaining == pubkeys.skip(n),
    ensures
        remaining.first() == pubkeys[n],
        remaining.drop_first() == pubkeys.skip(n + 1),
        pubkeys.take(n + 1).filter(found) == (if found(pubkeys[n]) {
            pubkeys.take(n).filter(found).push(pubkeys[n])
        } else {
            pubkeys.take(n).filter(found)
        }),
        n + 1 == pubkeys.len() ==> pubkeys.take(n + 1) == pubkeys,
{
    reveal(Seq::filter);
    assert(remaining.drop_first() =~= pubkeys.skip(n + 1));
    assert(pubkeys.take(n + 1).drop_last() =~= pubkeys.take(n));
    assert(pubkeys.take(n + 1).last() == pubkeys[n]);
    if n + 1 == pubkeys.len() {
        assert(pubkeys.take(n + 1) =~= pubkeys);
    }
}

/// Where keys can be disabled and that keeps their data, an export that is repeated, with nothing
/// else in between, gives the same once more. Keys are looked up whatever their status, so those
/// that the first export disabled are still exported.
pub proof fn law_repeated_export_is_equal<P, I, X>(first: ExportRun<I, X>, second: ExportRun<I, X>)
    requires
        disabling_keeps_data(first.exchanges::<P>() + second.exchanges::<P>()),
        first.pubkeys == second.pubkeys,
        first.store.genesis_validators_root == second.store.genesis_validators_root,
        first.end() is Done,
        second.end() is Done,
    ensures
        second.end() == first.end(),
{
    let one = first.exchanges::<P>();
    let two = second.exchanges::<P>();
    let record = one + two;
    let found = |pubkey: PublicKeyBytes|
        exists|m: int|
            0 <= m < record.len() && (#[trigger] record[m]) is LookUp && record[m]->LookUp_pubkey
                == pubkey && record[m]->LookUp_answer is Ok;
    assert forall|i: int| 0 <= i < record.len() && (#[trigger] record[i]) is LookUp implies (
    record[i]->LookUp_answer is Ok <==> found(record[i]->LookUp_pubkey)) by {
        let pubkey = record[i]->LookUp_pubkey;
        if found(pubkey) {
            let m = choose|m: int|
                0 <= m < record.len() && (#[trigger] record[m]) is LookUp
                    && record[m]->LookUp_pubkey == pubkey && record[m]->LookUp_answer is Ok;
            assert(looked_up_alike(record[m], record[i]));
        }
    }
    assert(forall|i: int| 0 <= i < one.len() ==> one[i] == #[trigger] record[i]);
    assert(forall|i: int| 0 <= i < two.len() ==> #[trigger] two[i] == record[one.len() + i]);
    assert(finds(one, found)) by {
        assert forall|i: int| 0 <= i < one.len() implies match #[trigger] one[i] {
            Exchange::LookUp { pubkey, answer } => answer is Ok <==> found(pubkey),
            Exchange::Disable { answer, .. } => answer is Ok,
            _ => true,
        } by {
            assert(record[i] == one[i]);
        }
    }
    assert(finds(two, found)) by {
        assert forall|i: int| 0 <= i < two.len() implies match #[trigger] two[i] {
            Exchange::LookUp { pubkey, answer } => answer is Ok <==> found(pubkey),
            Exchange::Disable { answer, .. } => answer is Ok,
            _ => true,
        } by {
            assert(record[one.len() + i] == two[i]);
        }
    }
    law_export_is_of_found_keys::<P, I, X>(first, found);
    law_export_is_of_found_keys::<P, I, X>(second, found);
    let root = first.store.genesis_validators_root;
    let known = first.pubkeys.filter(found);
    let a = choose|m: int|
        0 <= m < one.len() && #[trigger] one[m] == (Exchange::<P, I, X>::Export {
            genesis_validators_root: root,
            known,
            answer: first.end()->Done_0,
        });
    let b = choose|m: int|
        0 <= m < two.len() && #[trigger] two[m] == (Exchange::<P, I, X>::Export {
            genesis_validators_root: root,
            known,
            answer: second.end()->Done_0,
        });
    assert(record[a] == one[a]);
    assert(record[one.len() + b] == two[b]);
    assert(exported_alike(record[a], record[one.len() + b]));
}

} // verus!
