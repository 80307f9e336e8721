//! What each request of the service leads to: the message that a worker is
//! sent, and the response that the worker's answer becomes.

use crate::cache::SharedCache;
use crate::domain::DeletePlanet;
use crate::domain::Enriched;
use crate::domain::GetPlanet;
use crate::domain::Planet;
use crate::domain::ReadPlanets;
use crate::domain::SearchPlanet;
use crate::errors::ErrorKind;
use crate::films::getfilms;
use crate::films::fetched;
use crate::films::Fetch;
use uuid::Uuid;
use vstd::prelude::*;

verus! {

/// `uuid::Error`: why a text is not an identifier. Carried through as an
/// opaque value.
#[verifier::external_type_specification]
#[verifier::external_body]
pub struct ExUuidError(uuid::Error);

/// The identifier that `Uuid::parse_str` reads from a text, as a number;
/// `None` where it reads none.
pub uninterp spec fn uuid_value(text: Seq<char>) -> Option<u128>;

/// Calls `Uuid::parse_str`, and `Uuid::as_u128` on what it returns.
/// Trusted: whether the call succeeds, and with which identifier, depends
/// on the text alone.
#[verifier::external_body]
fn parse_uuid(text: &str) -> (parsed: Result<u128, uuid::Error>)
    ensures
        parsed is Ok <==> uuid_value(text@) is Some,
        parsed matches Ok(id) ==> uuid_value(text@) == Some(id),
{
    Uuid::parse_str(text).map(|id| id.as_u128())
}

/// The search term of a search request, as its query string gives it.
pub struct SearchParam {
    pub search: String,
}

/// What the store reports of a transaction that it committed.
#[derive(Debug)]
pub struct Receipt {
    /// The number of the transaction.
    pub tx_id: i64,
    /// The moment of the transaction, as the store renders it.
    pub tx_instant: String,
}

/// The response to a request.
pub enum Response {
    /// Success, with the receipt of the transaction.
    Committed(Receipt),
    /// Success, with the planets found.
    Planets(Vec<Enriched<String>>),
    /// Success, with the planet found or, where there is none, with nothing.
    Planet(Option<Enriched<u128>>),
    /// A failure, of whatever kind.
    ServerError,
}

/// The status code that a response goes out with.
pub open spec fn status_of(response: Response) -> u16 {
    if response is ServerError {
        500
    } else {
        200
    }
}

impl Response {
    /// The status code that this response goes out with: 500 for every
    /// failure, 200 otherwise.
    pub fn status(&self) -> (code: u16)
        ensures
            code == status_of(*self),
    {
        match self {
            Response::ServerError => 500,
            _ => 200,
        }
    }
}

/// The identifier that a request names, given how the path's parameter
/// parsed, if the path had one. A path without the parameter, or with one
/// that is no identifier, is answered with a failure.
pub fn identified(parsed: Option<Result<u128, uuid::Error>>) -> (id: Result<u128, Response>)
    ensures
        match parsed {
            Some(Ok(uuid)) => id == Ok::<u128, Response>(uuid),
            _ => id == Err::<u128, Response>(Response::ServerError),
        },
{
    match parsed {
        Some(Ok(uuid)) => Ok(uuid),
        _ => Err(Response::ServerError),
    }
}

/// The identifier that the path's parameter names: the one that the text
/// reads as, where there is a text and it reads as one.
pub open spec fn named(param: Option<&str>) -> Option<u128> {
    match param {
        Some(text) => uuid_value(text@),
        None => None,
    }
}

/// Reads the identifier from the path's parameter.
fn path_id(param: Option<&str>) -> (id: Result<u128, Response>)
    ensures
        match named(param) {
            Some(uuid) => id == Ok::<u128, Response>(uuid),
            None => id == Err::<u128, Response>(Response::ServerError),
        },
{
    match param {
        Some(text) => identified(Some(parse_uuid(text))),
        None => identified(None),
    }
}

/// Begins the creation of a planet: its film count is looked for at once,
/// so that it is cached by the time the planet is read. The result says
/// whether the film service has to be asked for that; either way the planet
/// is then sent to the writer.
pub fn create(planet: &Planet, cache: &SharedCache) -> (warm: Fetch)
    ensures
        fetched(warm, planet.name@),
{
    getfilms(planet.name.as_str(), cache)
}

/// The message that a request for all planets sends to a reader.
pub fn read() -> (msg: ReadPlanets) {
    ReadPlanets
}

/// The message that a request to delete a planet sends to the writer, or
/// the failure it is answered with at once: where the path names no
/// identifier, or what it names is none.
pub fn delete(param: Option<&str>) -> (msg: Result<DeletePlanet, Response>)
    ensures
        match named(param) {
            Some(uuid) => msg matches Ok(sent) && sent.0 == uuid,
            None => msg matches Err(response) && response is ServerError,
        },
{
    match path_id(param) {
        Ok(uuid) => Ok(DeletePlanet(uuid)),
        Err(response) => Err(response),
    }
}

/// The message that a search sends to a reader: the term as it was given.
pub fn search(info: SearchParam) -> (msg: SearchPlanet)
    ensures
        msg.0 == info.search,
{
    SearchPlanet(info.search)
}

/// The message that a request for one planet sends to a reader, or the
/// failure it is answered with at once: where the path names no identifier,
/// or what it names is none.
pub fn id(param: Option<&str>) -> (msg: Result<GetPlanet, Response>)
    ensures
        match named(param) {
            Some(uuid) => msg matches Ok(sent) && sent.0 == uuid,
            None => msg matches Err(response) && response is ServerError,
        },
{
    match path_id(param) {
        Ok(uuid) => Ok(GetPlanet(uuid)),
        Err(response) => Err(response),
    }
}

/// The response to a creation or a deletion, from the writer's answer: the
/// receipt, or a failure whatever went wrong.
pub fn committed(answer: Result<Receipt, ErrorKind>) -> (response: Response)
    ensures
        match answer {
            Ok(receipt) => response == Response::Committed(receipt),
            Err(_) => response == Response::ServerError,
        },
{
    match answer {
        Ok(receipt) => Response::Committed(receipt),
        Err(_) => Response::ServerError,
    }
}

/// The response to a listing or a search, from the reader's answer: the
/// planets, or a failure whatever went wrong.
pub fn listed(answer: Result<Vec<Enriched<String>>, ErrorKind>) -> (response: Response)
    ensures
        match answer {
            Ok(planets) => response == Response::Planets(planets),
            Err(_) => response == Response::ServerError,
        },
{
    match answer {
        Ok(planets) => Response::Planets(planets),
        Err(_) => Response::ServerError,
    }
}

/// The response to a request for one planet, from the reader's answer: the
/// planet, nothing where there is no such planet, or a failure whatever
/// went wrong. That there is no such planet is no failure.
pub fn shown(answer: Result<Option<Enriched<u128>>, ErrorKind>) -> (response: Response)
    ensures
        match answer {
            Ok(planet) => response == Response::Planet(planet),
            Err(_) => response == Response::ServerError,
        },
{
    match answer {
        Ok(planet) => Response::Planet(planet),
        Err(_) => Response::ServerError,
    }
}

} // verus!
