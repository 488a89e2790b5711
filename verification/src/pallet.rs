//! The registry itself: the records it holds and the two operations on them.

use vstd::prelude::*;
use crate::bytes::{copy_bytes, same_bytes};
use crate::model::{Ledger, store_events, store_ledger, store_result, verify_events, verify_result};
use crate::types::{Config, Error, Event};

verus! {

/// One stored record: the parcel's coordinates, its owner's name and the
/// account that registered it.
struct LandRecord<T: Config> {
    coordinates: Vec<u8>,
    owner: Vec<u8>,
    registered_by: T::AccountId,
}

/// The registry of land records.
///
/// It holds its records in the order in which they were stored, and no two
/// of them have the same coordinates. Its view is the ledger that
/// [`crate::model`] describes.
pub struct Pallet<T: Config> {
    proofs: Vec<LandRecord<T>>,
}

/// No two records have the same coordinates.
spec fn distinct_coordinates<T: Config>(records: Seq<LandRecord<T>>) -> bool {
    forall|i: int, j: int|
        #![trigger records[i], records[j]]
        0 <= i < j < records.len() ==> records[i].coordinates@ != records[j].coordinates@
}

/// The ledger that a sequence of records stands for.
spec fn ledger_of<T: Config>(records: Seq<LandRecord<T>>) -> Ledger<T::AccountId>
    decreases records.len(),
{
    if records.len() == 0 {
        Map::empty()
    } else {
        let last = records.last();
        ledger_of(records.drop_last()).insert(last.coordinates@, (last.owner@, last.registered_by))
    }
}

/// Coordinates that no record carries are not in the ledger.
proof fn lemma_ledger_lacks<T: Config>(records: Seq<LandRecord<T>>, coordinates: Seq<u8>)
    requires
        forall|i: int| 0 <= i < records.len() ==> records[i].coordinates@ != coordinates,
    ensures
        !ledger_of(records).contains_key(coordinates),
    decreases records.len(),
{
    if records.len() > 0 {
        lemma_ledger_lacks(records.drop_last(), coordinates);
    }
}

/// Where coordinates are distinct, the ledger holds each record under its own
/// coordinates.
proof fn lemma_ledger_holds<T: Config>(records: Seq<LandRecord<T>>, at: int)
    requires
        distinct_coordinates(records),
        0 <= at < records.len(),
    ensures
        ledger_of(records).contains_key(records[at].coordinates@),
        ledger_of(records)[records[at].coordinates@] == (
            records[at].owner@,
            records[at].registered_by,
        ),
    decreases records.len(),
{
    if at < records.len() - 1 {
        lemma_ledger_holds(records.drop_last(), at);
    }
}

impl<T: Config> View for Pallet<T> {
    type V = Ledger<T::AccountId>;

    /// The ledger: for the coordinates of each registered parcel, its owner's
    /// name and the account that registered it.
    closed spec fn view(&self) -> Ledger<T::AccountId> {
        ledger_of(self.proofs@)
    }
}

impl<T: Config> Pallet<T> {
    /// What every registry satisfies: a parcel has at most one record.
    #[verifier::type_invariant]
    spec fn well_formed(self) -> bool {
        distinct_coordinates(self.proofs@)
    }

    /// An empty registry.
    pub fn new() -> (pallet: Self)
        ensures
            pallet@ == Ledger::<T::AccountId>::empty(),
    {
        Pallet { proofs: Vec::new() }
    }

    /// The index of the record with the given coordinates, if there is one.
    fn position(&self, coordinates: &Vec<u8>) -> (found: Option<usize>)
        ensures
            (match found {
                Some(at) => at < self.proofs@.len() && self.proofs@[at as int].coordinates@
                    == coordinates@,
                None => forall|i: int|
                    0 <= i < self.proofs@.len() ==> self.proofs@[i].coordinates@ != coordinates@,
            }),
    {
        let mut at: usize = 0;
        while at < self.proofs.len()
            invariant
                at <= self.proofs@.len(),
                forall|i: int| 0 <= i < at ==> self.proofs@[i].coordinates@ != coordinates@,
            decreases self.proofs@.len() - at,
        {
            if same_bytes(&self.proofs[at].coordinates, coordinates) {
                return Some(at);
            }
            at += 1;
        }
        None
    }

    /// Registers `owner` as the owner of the parcel at `coordinates`, on
    /// behalf of the authenticated account `origin`.
    ///
    /// A parcel is registered once. If the registry already holds a record
    /// for `coordinates`, the call is refused with
    /// [`Error::LandRecordExists`] and changes nothing. Otherwise the record
    /// is stored and one [`Event::LandRecordStored`] is appended to `events`.
    /// The test and the insertion are one step: the exclusive borrow keeps
    /// every other operation out of the registry in between.
    ///
    /// Coordinates are not inspected: any byte sequence, the empty one
    /// included, names a parcel.
    pub fn store_land(
        &mut self,
        origin: T::AccountId,
        coordinates: Vec<u8>,
        owner: Vec<u8>,
        events: &mut Vec<Event<T>>,
    ) -> (res: Result<(), Error>)
        ensures
            res == store_result(old(self)@, coordinates@),
            final(self)@ == store_ledger(old(self)@, origin, coordinates@, owner@),
            old(self)@.submap_of(final(self)@),
            final(events).deep_view() == old(events).deep_view() + store_events(
                old(self)@,
                origin,
                coordinates@,
            ),
    {
        proof {
            use_type_invariant(&*self);
        }
        match self.position(&coordinates) {
            Some(at) => {
                proof {
                    lemma_ledger_holds(self.proofs@, at as int);
                }
                Err(Error::LandRecordExists)
            },
            None => {
                proof {
                    lemma_ledger_lacks(self.proofs@, coordinates@);
                }
                let record = LandRecord {
                    coordinates: copy_bytes(&coordinates),
                    owner,
                    registered_by: origin,
                };
                let ghost before = self.proofs@;
                let mut proofs: Vec<LandRecord<T>> = Vec::new();
                std::mem::swap(&mut proofs, &mut self.proofs);
                proofs.push(record);
                proof {
                    assert(proofs@.drop_last() =~= before);
                }
                self.proofs = proofs;
                events.push(Event::LandRecordStored(origin, coordinates));
                Ok(())
            },
        }
    }

    /// Confirms the owner of the parcel at `coordinates`.
    ///
    /// Any authenticated account may ask: `_origin` stands for the caller
    /// that the host has authenticated, and the answer does not depend on it.
    /// If the registry holds no record for `coordinates`, the call is refused
    /// with [`Error::NoSuchLandRecord`]. Otherwise the recorded owner's name
    /// is returned and one [`Event::OwnerVerified`] that carries it is
    /// appended to `events`. The registry is not changed.
    pub fn verify_land(
        &self,
        _origin: T::AccountId,
        coordinates: Vec<u8>,
        events: &mut Vec<Event<T>>,
    ) -> (res: Result<Vec<u8>, Error>)
        ensures
            (match res {
                Ok(owner) => verify_result(self@, coordinates@) == Ok::<Seq<u8>, Error>(owner@),
                Err(error) => verify_result(self@, coordinates@) == Err::<Seq<u8>, Error>(error),
            }),
            final(events).deep_view() == old(events).deep_view() + verify_events(
                self@,
                coordinates@,
            ),
    {
        proof {
            use_type_invariant(self);
        }
        match self.position(&coordinates) {
            Some(at) => {
                proof {
                    lemma_ledger_holds(self.proofs@, at as int);
                }
                let owner = copy_bytes(&self.proofs[at].owner);
                events.push(Event::OwnerVerified(copy_bytes(&owner)));
                Ok(owner)
            },
            None => {
                proof {
                    lemma_ledger_lacks(self.proofs@, coordinates@);
                }
                Err(Error::NoSuchLandRecord)
            },
        }
    }

    /// The record stored for the parcel at `coordinates`, if there is one: a
    /// copy of the owner's name, and the account that registered it.
    pub fn proofs(&self, coordinates: &Vec<u8>) -> (found: Option<(Vec<u8>, T::AccountId)>)
        ensures
            (match found {
                Some((owner, registered_by)) => self@.contains_key(coordinates@)
                    && self@[coordinates@] == (owner@, registered_by),
                None => !self@.contains_key(coordinates@),
            }),
    {
        proof {
            use_type_invariant(self);
        }
        match self.position(coordinates) {
            Some(at) => {
                proof {
                    lemma_ledger_holds(self.proofs@, at as int);
                }
                Some((copy_bytes(&self.proofs[at].owner), self.proofs[at].registered_by))
            },
            None => {
                proof {
                    lemma_ledger_lacks(self.proofs@, coordinates@);
                }
                None
            },
        }
    }
}

} // verus!
