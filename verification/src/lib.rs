//! An append-once land registry.
//!
//! A [`Pallet`] binds a land parcel's coordinates to the name of its owner and
//! to the account that registered it. A binding is written once and never
//! changed or removed; anyone may later ask for the owner of a parcel.
//!
//! The registry is a plain value that its host owns. The host authenticates
//! each caller and hands over the account; the registry decides against its
//! current state and reports the outcome, together with the events that the
//! host is to publish.
//!
//! [`model`] holds the mathematical description of the two operations and the
//! laws that follow from it.

mod bytes;
pub mod model;
pub mod pallet;
pub mod types;

pub use pallet::Pallet;
pub use types::{Config, Error, Event, EventView};
