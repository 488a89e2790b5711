//! The registry as mathematics: a map from coordinates to records, and what
//! the two operations answer, leave behind and publish.
//!
//! The operations of [`crate::Pallet`] are stated over the functions of this
//! file, and the laws at its end are proved from them.

use vstd::prelude::*;
use crate::types::{Error, EventView};

verus! {

/// The registry's contents: a ledger takes the coordinates of a registered
/// parcel to the owner's name and to the account, of type `A`, that registered
/// it. Coordinates are compared byte by byte; the empty sequence is a key like
/// any other.
pub type Ledger<A> = Map<Seq<u8>, (Seq<u8>, A)>;

/// The answer to an attempt to store a record under `coordinates`: refused
/// exactly when the ledger already holds a record for them.
pub open spec fn store_result<A>(
    ledger: Ledger<A>,
    coordinates: Seq<u8>,
) -> Result<(), Error> {
    if ledger.contains_key(coordinates) {
        Err(Error::LandRecordExists)
    } else {
        Ok(())
    }
}

/// The ledger after an attempt by `who` to store `owner` under `coordinates`:
/// one record more if the coordinates were free, the same ledger if not.
pub open spec fn store_ledger<A>(
    ledger: Ledger<A>,
    who: A,
    coordinates: Seq<u8>,
    owner: Seq<u8>,
) -> Ledger<A> {
    if ledger.contains_key(coordinates) {
        ledger
    } else {
        ledger.insert(coordinates, (owner, who))
    }
}

/// The events that an attempt by `who` to store a record under `coordinates`
/// publishes: one if the record was stored, none if it was refused.
pub open spec fn store_events<A>(
    ledger: Ledger<A>,
    who: A,
    coordinates: Seq<u8>,
) -> Seq<EventView<A>> {
    if ledger.contains_key(coordinates) {
        Seq::empty()
    } else {
        seq![EventView::LandRecordStored(who, coordinates)]
    }
}

/// The answer to a request for the owner of `coordinates`: the recorded name,
/// or a refusal when nothing is recorded. It does not depend on who asks.
pub open spec fn verify_result<A>(
    ledger: Ledger<A>,
    coordinates: Seq<u8>,
) -> Result<Seq<u8>, Error> {
    if ledger.contains_key(coordinates) {
        Ok(ledger[coordinates].0)
    } else {
        Err(Error::NoSuchLandRecord)
    }
}

/// The events that a request for the owner of `coordinates` publishes: one
/// that carries the recorded name, or none when nothing is recorded.
pub open spec fn verify_events<A>(
    ledger: Ledger<A>,
    coordinates: Seq<u8>,
) -> Seq<EventView<A>> {
    if ledger.contains_key(coordinates) {
        seq![EventView::OwnerVerified(ledger[coordinates].0)]
    } else {
        Seq::empty()
    }
}

/// A store under free coordinates succeeds, records exactly what was handed
/// in and publishes one event that names the caller and the coordinates.
pub proof fn lemma_store_on_free_coordinates<A>(
    ledger: Ledger<A>,
    who: A,
    coordinates: Seq<u8>,
    owner: Seq<u8>,
)
    requires
        !ledger.contains_key(coordinates),
    ensures
        store_result(ledger, coordinates) == Ok::<(), Error>(()),
        store_ledger(ledger, who, coordinates, owner).contains_key(coordinates),
        store_ledger(ledger, who, coordinates, owner)[coordinates] == (owner, who),
        store_events(ledger, who, coordinates) == seq![
            EventView::LandRecordStored(who, coordinates),
        ],
{
}

/// Once a store under some coordinates has succeeded, every later store under
/// the same coordinates is refused, whoever attempts it and whatever owner it
/// names: the ledger stays as it was, the first record included, and nothing
/// is published.
pub proof fn lemma_second_store_is_refused<A>(
    ledger: Ledger<A>,
    first: A,
    first_owner: Seq<u8>,
    second: A,
    second_owner: Seq<u8>,
    coordinates: Seq<u8>,
)
    requires
        store_result(ledger, coordinates) is Ok,
    ensures
        ({
            let stored = store_ledger(ledger, first, coordinates, first_owner);
            let after = store_ledger(stored, second, coordinates, second_owner);
            &&& store_result(stored, coordinates) == Err::<(), Error>(Error::LandRecordExists)
            &&& store_events(stored, second, coordinates) == Seq::<EventView<A>>::empty()
            &&& after == stored
            &&& after.contains_key(coordinates)
            &&& after[coordinates] == (first_owner, first)
        }),
{
}

/// Asking for the owner of coordinates that were never registered is refused,
/// and nothing is published.
pub proof fn lemma_verify_unregistered<A>(
    ledger: Ledger<A>,
    coordinates: Seq<u8>,
)
    requires
        !ledger.contains_key(coordinates),
    ensures
        verify_result(ledger, coordinates) == Err::<Seq<u8>, Error>(Error::NoSuchLandRecord),
        verify_events(ledger, coordinates) == Seq::<EventView<A>>::empty(),
{
}

/// After a successful store, asking for the owner of the same coordinates
/// succeeds and gives back exactly the name that was stored, and the event
/// published carries that name.
pub proof fn lemma_store_then_verify<A>(
    ledger: Ledger<A>,
    who: A,
    coordinates: Seq<u8>,
    owner: Seq<u8>,
)
    requires
        store_result(ledger, coordinates) is Ok,
    ensures
        ({
            let stored = store_ledger(ledger, who, coordinates, owner);
            &&& verify_result(stored, coordinates) == Ok::<Seq<u8>, Error>(owner)
            &&& verify_events(stored, coordinates) == seq![EventView::<A>::OwnerVerified(owner)]
        }),
{
}

/// A store under some coordinates, accepted or refused, leaves every other
/// key as it was: present or absent as before, with the same record, and so
/// with the same answer to a request for its owner.
pub proof fn lemma_store_leaves_other_keys<A>(
    ledger: Ledger<A>,
    who: A,
    coordinates: Seq<u8>,
    owner: Seq<u8>,
    other: Seq<u8>,
)
    requires
        other != coordinates,
    ensures
        ({
            let stored = store_ledger(ledger, who, coordinates, owner);
            &&& stored.contains_key(other) == ledger.contains_key(other)
            &&& ledger.contains_key(other) ==> stored[other] == ledger[other]
            &&& verify_result(stored, other) == verify_result(ledger, other)
            &&& store_result(stored, other) == store_result(ledger, other)
        }),
{
}

/// The ledger only grows: whatever a store attempt does, every record that
/// was there before is still there, unchanged.
pub proof fn lemma_store_keeps_records<A>(
    ledger: Ledger<A>,
    who: A,
    coordinates: Seq<u8>,
    owner: Seq<u8>,
)
    ensures
        ledger.submap_of(store_ledger(ledger, who, coordinates, owner)),
{
}

} // verus!
