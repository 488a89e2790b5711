//! The types that cross the registry's boundary: the host's configuration,
//! the errors and the events.

use vstd::prelude::*;
use crate::bytes::copy_bytes;

verus! {

/// What the host supplies to the registry.
pub trait Config {
    /// The identity of an authenticated caller. The host establishes it; the
    /// registry never looks inside. It is a handle that is copied as it
    /// stands into the record and into the event of a successful store.
    type AccountId: Copy;
}

/// Why an operation was turned down. Both are ordinary outcomes: the registry
/// is unchanged and stays usable.
#[derive(Clone, Copy, Debug, PartialEq, Eq, Structural)]
pub enum Error {
    /// The land record already exists.
    LandRecordExists,
    /// The land does not exist, so it cannot be verified.
    NoSuchLandRecord,
}

/// What the registry tells its host to publish.
#[derive(Debug, PartialEq, Eq)]
pub enum Event<T: Config> {
    /// A record was stored: the account that stored it and the coordinates.
    LandRecordStored(T::AccountId, Vec<u8>),
    /// The owner of a parcel was confirmed: the owner's name.
    OwnerVerified(Vec<u8>),
}

/// The mathematical value of an [`Event`], over an account type `A`.
pub enum EventView<A> {
    LandRecordStored(A, Seq<u8>),
    OwnerVerified(Seq<u8>),
}

impl<T: Config> View for Event<T> {
    type V = EventView<T::AccountId>;

    open spec fn view(&self) -> EventView<T::AccountId> {
        match self {
            Event::LandRecordStored(who, coordinates) => EventView::LandRecordStored(
                *who,
                coordinates@,
            ),
            Event::OwnerVerified(owner) => EventView::OwnerVerified(owner@),
        }
    }
}

impl<T: Config> Clone for Event<T> {
    fn clone(&self) -> (copy: Self)
        ensures
            copy@ == self@,
    {
        match self {
            Event::LandRecordStored(who, coordinates) => Event::LandRecordStored(
                *who,
                copy_bytes(coordinates),
            ),
            Event::OwnerVerified(owner) => Event::OwnerVerified(copy_bytes(owner)),
        }
    }
}

impl<T: Config> DeepView for Event<T> {
    type V = EventView<T::AccountId>;

    open spec fn deep_view(&self) -> EventView<T::AccountId> {
        self@
    }
}

} // verus!
