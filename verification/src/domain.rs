//! The messages that travel between the workers, and the records they carry.

use crate::errors::ErrorKind;
use crossbeam_channel::Receiver;
use vstd::prelude::*;

verus! {

/// `crossbeam_channel::Receiver`: the receiving end of a channel, carried
/// through as an opaque value.
#[verifier::external_type_specification]
#[verifier::external_body]
#[verifier::reject_recursive_types(T)]
pub struct ExReceiver<T>(Receiver<T>);

/// A planet as a client submits it: the three texts that are stored.
#[derive(Debug, Clone)]
pub struct Planet {
    pub name: String,
    pub climate: String,
    pub terrain: String,
}

/// A stored planet on its way to a response: its four columns, and the
/// channel on which its film count will arrive, if its request was answered.
pub struct InnerPlanet {
    pub uuid: String,
    pub name: String,
    pub climate: String,
    pub terrain: String,
    pub request: Option<Receiver<Result<i64, ErrorKind>>>,
}

/// A planet as a response shows it: the stored columns and the film count.
/// `Id` is the form in which the identifier is at hand.
#[derive(Debug)]
pub struct Enriched<Id> {
    pub uuid: Id,
    pub name: String,
    pub climate: String,
    pub terrain: String,
    pub films: i64,
}

/// What the film service answered for one name: the name, and the raw
/// payload.
pub struct SearchResponse(pub String, pub Vec<u8>);

/// Asks for every stored planet.
pub struct ReadPlanets;

/// Asks for the film count of the planet of this name.
pub struct ReadFilms(pub String);

/// Asks to delete the planet with this identifier. An identifier is a
/// number of 128 bits.
pub struct DeletePlanet(pub u128);

/// Asks for the planet with this identifier.
pub struct GetPlanet(pub u128);

/// Asks for the planets whose name contains this term.
pub struct SearchPlanet(pub String);

} // verus!
