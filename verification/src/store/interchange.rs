//! The import and export of slashing protection data.

use std::collections::VecDeque;

use vstd::prelude::*;

use crate::error::{InterchangeError, NotSafe};
use crate::pending::Pending;
use crate::primitives::{Hash256, PublicKeyBytes};
use crate::store::{StoreView, ValidatorStore};

verus! {

/// Slashing protection data that is to be imported for a chain.
#[derive(Debug, PartialEq, Eq)]
pub struct ImportRequest<I> {
    pub interchange: I,
    pub genesis_validators_root: Hash256,
}

/// The export of slashing protection data for keys that are disabled on the way. Everything that
/// is asked for stands in one transaction of the database.
#[derive(Debug, PartialEq, Eq)]
pub enum KeyExport<I, X> {
    /// The database is asked for the id of `pubkey`, be it enabled or not. The keys in `rest`
    /// follow.
    LookUp {
        pubkey: PublicKeyBytes,
        rest: VecDeque<PublicKeyBytes>,
        known_pubkeys: Vec<PublicKeyBytes>,
    },
    /// The database is asked to disable the validator `validator_id`.
    Disable {
        validator_id: i64,
        pubkey: PublicKeyBytes,
        rest: VecDeque<PublicKeyBytes>,
        known_pubkeys: Vec<PublicKeyBytes>,
    },
    /// The database is asked for the data of the known keys.
    Export { genesis_validators_root: Hash256, known_pubkeys: Vec<PublicKeyBytes> },
    /// Nothing is asked for any more.
    Done(Result<I, InterchangeError<X>>),
}

/// An answer to what an export asks for.
#[derive(Debug, PartialEq, Eq)]
pub enum KeyExportEvent<I, X> {
    ValidatorId(Result<i64, NotSafe<X>>),
    StatusUpdated(Result<(), NotSafe<X>>),
    Exported(Result<I, InterchangeError<X>>),
}

/// What an export stands for.
pub enum KeyExportView<I, X> {
    /// The keys that remain, from the one that is asked for on, and those that were disabled.
    LookUp { remaining: Seq<PublicKeyBytes>, known: Seq<PublicKeyBytes> },
    Disable { validator_id: i64, remaining: Seq<PublicKeyBytes>, known: Seq<PublicKeyBytes> },
    Export { genesis_validators_root: Hash256, known: Seq<PublicKeyBytes> },
    Done(Result<I, InterchangeError<X>>),
}

impl<I, X> View for KeyExport<I, X> {
    type V = KeyExportView<I, X>;

    open spec fn view(&self) -> KeyExportView<I, X> {
        match *self {
            KeyExport::LookUp { pubkey, rest, known_pubkeys } => KeyExportView::LookUp {
                remaining: seq![pubkey] + rest@,
                known: known_pubkeys@,
            },
            KeyExport::Disable { validator_id, pubkey, rest, known_pubkeys } =>
                KeyExportView::Disable {
                validator_id,
                remaining: seq![pubkey] + rest@,
                known: known_pubkeys@,
            },
            KeyExport::Export { genesis_validators_root, known_pubkeys } => KeyExportView::Export {
                genesis_validators_root,
                known: known_pubkeys@,
            },
            KeyExport::Done(result) => KeyExportView::Done(result),
        }
    }
}

impl StoreView {
    /// The export where `remaining` is yet to be looked up and `known` was disabled.
    pub open spec fn export_of<I, X>(
        self,
        remaining: Seq<PublicKeyBytes>,
        known: Seq<PublicKeyBytes>,
    ) -> KeyExportView<I, X> {
        if remaining.len() == 0 {
            KeyExportView::Export { genesis_validators_root: self.genesis_validators_root, known }
        } else {
            KeyExportView::LookUp { remaining, known }
        }
    }

    /// Where an event takes an export. A key without an id is left out. A failure to disable a key
    /// ends the export. An event that answers nothing that is asked changes nothing.
    pub open spec fn export_step<I, X>(
        self,
        session: KeyExportView<I, X>,
        event: KeyExportEvent<I, X>,
    ) -> KeyExportView<I, X> {
        match (session, event) {
            (KeyExportView::LookUp { remaining, known }, KeyExportEvent::ValidatorId(id)) => {
                match id {
                    Ok(validator_id) => KeyExportView::Disable { validator_id, remaining, known },
                    Err(_) => self.export_of(remaining.drop_first(), known),
                }
            },
            (
                KeyExportView::Disable { validator_id, remaining, known },
                KeyExportEvent::StatusUpdated(updated),
            ) => match updated {
                Ok(()) => self.export_of(remaining.drop_first(), known.push(remaining.first())),
                Err(e) => KeyExportView::Done(Err(InterchangeError::NotSafe(e))),
            },
            (
                KeyExportView::Export { genesis_validators_root, known },
                KeyExportEvent::Exported(exported),
            ) => KeyExportView::Done(exported),
            (session, _) => session,
        }
    }
}

impl<I> Pending<ImportRequest<I>> {
    /// The outcome of the import. What the database reports of a success is not passed on.
    pub fn finish<R, X>(self, imported: Result<R, InterchangeError<X>>) -> (done: Result<
        (),
        InterchangeError<X>,
    >)
        ensures
            done == (match imported {
                Ok(_) => Ok(()),
                Err(e) => Err(e),
            }),
    {
        match imported {
            Ok(_) => Ok(()),
            Err(e) => Err(e),
        }
    }
}

impl ValidatorStore {
    /// Asks for slashing protection data to be imported. It must be of the chain of this store.
    pub fn import_slashing_protection<I>(&self, interchange: I) -> (asked: Pending<ImportRequest<I>>)
        ensures
            asked@ == (ImportRequest {
                interchange,
                genesis_validators_root: self@.genesis_validators_root,
            }),
    {
        Pending::new(
            ImportRequest { interchange, genesis_validators_root: self.genesis_validators_root },
        )
    }

    /// The export where `remaining` is yet to be looked up and `known_pubkeys` was disabled.
    fn export_next<I, X>(
        &self,
        mut remaining: VecDeque<PublicKeyBytes>,
        known_pubkeys: Vec<PublicKeyBytes>,
    ) -> (session: KeyExport<I, X>)
        ensures
            session@ == self@.export_of::<I, X>(remaining@, known_pubkeys@),
    {
        let ghost all = remaining@;
        match remaining.pop_front() {
            Some(pubkey) => {
                assert(seq![pubkey] + remaining@ =~= all);
                KeyExport::LookUp { pubkey, rest: remaining, known_pubkeys }
            },
            None => KeyExport::Export {
                genesis_validators_root: self.genesis_validators_root,
                known_pubkeys,
            },
        }
    }

    /// Starts to export slashing protection data while also disabling the given keys in the
    /// database.
    ///
    /// A key that the database does not know is silently left out. It is the caller's
    /// responsibility to check whether all keys had data returned for them.
    pub fn export_slashing_protection_for_keys<I, X>(&self, pubkeys: &[PublicKeyBytes]) -> (
    session: Pending<KeyExport<I, X>>)
        ensures
            session@@ == self@.export_of::<I, X>(pubkeys@, Seq::empty()),
    {
        let mut queue: VecDeque<PublicKeyBytes> = VecDeque::new();
        let mut i: usize = 0;
        while i < pubkeys.len()
            invariant
                0 <= i <= pubkeys@.len(),
                queue@ == pubkeys@.take(i as int),
            decreases pubkeys@.len() - i,
        {
            queue.push_back(pubkeys[i]);
            i += 1;
        }
        assert(queue@ =~= pubkeys@);
        Pending::new(self.export_next(queue, Vec::new()))
    }

    /// Takes an export one step on.
    pub fn export_slashing_protection_step<I, X>(
        &self,
        session: Pending<KeyExport<I, X>>,
        event: KeyExportEvent<I, X>,
    ) -> (next: Pending<KeyExport<I, X>>)
        ensures
            next@@ == self@.export_step(session@@, event),
    {
        let next = match (session.into_asked(), event) {
            (
                KeyExport::LookUp { pubkey, rest, known_pubkeys },
                KeyExportEvent::ValidatorId(id),
            ) => match id {
                Ok(validator_id) => KeyExport::Disable {
                    validator_id,
                    pubkey,
                    rest,
                    known_pubkeys,
                },
                Err(_) => {
                    assert((seq![pubkey] + rest@).drop_first() =~= rest@);
                    self.export_next(rest, known_pubkeys)
                },
            },
            (
                KeyExport::Disable { validator_id: _, pubkey, rest, mut known_pubkeys },
                KeyExportEvent::StatusUpdated(updated),
            ) => match updated {
                Ok(()) => {
                    assert((seq![pubkey] + rest@).drop_first() =~= rest@);
                    known_pubkeys.push(pubkey);
                    self.export_next(rest, known_pubkeys)
                },
                Err(e) => KeyExport::Done(Err(InterchangeError::from(e))),
            },
            (
                KeyExport::Export { genesis_validators_root: _, known_pubkeys: _ },
                KeyExportEvent::Exported(exported),
            ) => KeyExport::Done(exported),
            (session, _) => session,
        };
        Pending::new(next)
    }
}

} // verus!
