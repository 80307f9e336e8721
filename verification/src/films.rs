//! The fetcher: it answers a film request from the cache where it can, and
//! otherwise says which request to send to the film service.

use crate::cache::dwindled;
use crate::cache::held;
use crate::cache::MetricCache;
use crate::cache::SharedCache;
use crate::domain::ReadFilms;
use crate::domain::SearchResponse;
use crate::errors::ErrorKind;
use crossbeam_channel::Receiver;
use crossbeam_channel::SendError;
use crossbeam_channel::Sender;
use vstd::prelude::*;

verus! {

/// `crossbeam_channel::Sender`: the sending end of a channel, carried
/// through as an opaque value.
#[verifier::external_type_specification]
#[verifier::external_body]
#[verifier::reject_recursive_types(T)]
pub struct ExSender<T>(Sender<T>);

/// `crossbeam_channel::SendError`: no receiver is left; it gives the
/// message back. Carried through as an opaque value.
#[verifier::external_type_specification]
#[verifier::external_body]
#[verifier::reject_recursive_types(T)]
pub struct ExSendError<T>(SendError<T>);

/// The address of the film service's search, up to the name searched for.
pub const SEARCH: &'static str = "https://swapi.co/api/planets/?search=";

/// The name of the header that every request to the film service carries.
pub const AGENT_HEADER: &'static str = "User-Agent";

/// The value of that header.
pub const AGENT: &'static str = "Actix-web";

/// The number of answers that the channel of one request can hold.
pub const SLOTS: usize = 1;

/// The address at which the film service is asked for a planet.
pub open spec fn search_url(name: Seq<char>) -> Seq<char> {
    SEARCH@ + name
}

/// A request to the film service that is still to be made.
pub struct Outbound {
    /// The planet asked about.
    pub name: String,
    /// The address to get.
    pub url: String,
}

/// What is to be done about a film request once the cache was asked.
pub enum Fetch {
    /// The request is settled: with the count that the cache held, or with
    /// the failure to ask it. Nothing is sent to the film service.
    Done(Result<i64, ErrorKind>),
    /// The cache held nothing for the name: the film service is to be asked.
    Request(Outbound),
}

/// Whether `step` is what follows from finding `found` in the cache for
/// `name`: a count that was found settles the request, and a miss asks the
/// film service for that name.
pub open spec fn follows(step: Fetch, name: Seq<char>, found: Option<i64>) -> bool {
    match found {
        Some(films) => step == Fetch::Done(Ok(films)),
        None => step matches Fetch::Request(out) && out.name@ == name && out.url@ == search_url(
            name,
        ),
    }
}

/// Decides what to do about a film request from what the cache held.
pub fn plan(name: &str, found: Option<i64>) -> (step: Fetch)
    ensures
        follows(step, name@, found),
{
    match found {
        Some(films) => Fetch::Done(Ok(films)),
        None => {
            let mut url = String::from_str(SEARCH);
            url.append(name);
            Fetch::Request(Outbound { name: String::from_str(name), url })
        },
    }
}

/// Asks the cache for the count of a planet and decides what to do: a count
/// that the cache still holds settles the request without a call to the
/// film service; only a miss leads to one.
pub fn lookup(cache: &mut MetricCache, name: &str) -> (step: Fetch)
    ensures
        final(cache).expire() == old(cache).expire(),
        dwindled(old(cache)@, final(cache)@),
        follows(step, name@, held(final(cache)@, name@)),
        step matches Fetch::Done(Ok(films)) ==> films >= 0,
{
    let found = cache.get(name);
    plan(name, found)
}

/// Whether `step` is one that a film request for `name` can take against a
/// shared cache: settled with a count, which is never negative; settled
/// with the failure of a poisoned lock; or a request to the film service
/// for that name.
pub open spec fn fetched(step: Fetch, name: Seq<char>) -> bool {
    match step {
        Fetch::Done(Ok(films)) => films >= 0,
        Fetch::Done(Err(e)) => e is Poisoned,
        Fetch::Request(out) => out.name@ == name && out.url@ == search_url(name),
    }
}

/// Handles a film request against the shared cache: takes the lock, and
/// does under it what `lookup` does. A poisoned lock settles the request
/// with that failure.
///
/// What the cache holds depends on the other workers and on the time, so
/// of a count only this is stated: it is not negative. A request to the
/// film service is for the name that was asked about.
pub fn getfilms(name: &str, cache: &SharedCache) -> (step: Fetch)
    ensures
        fetched(step, name@),
{
    match cache.lock() {
        Ok(mut held) => {
            let cache = SharedCache::cache(&mut held);
            lookup(cache, name)
        },
        Err(e) => Fetch::Done(Err(e)),
    }
}

/// What the film service's answer leads to: a payload goes to a parser
/// worker under the name it was fetched for, and a failure of the transport
/// settles the request. `transport` is the body that arrived, or the cause
/// for which none did.
pub fn received(out: Outbound, transport: Result<Vec<u8>, String>) -> (next: Result<
    SearchResponse,
    ErrorKind,
>)
    ensures
        match transport {
            Ok(body) => next matches Ok(msg) && msg.0 == out.name && msg.1 == body,
            Err(cause) => next matches Err(ErrorKind::Failure(m)) && m == cause,
        },
{
    match transport {
        Ok(body) => Ok(SearchResponse(out.name, body)),
        Err(cause) => Err(ErrorKind::Failure(cause)),
    }
}

/// Calls `crossbeam_channel::bounded`: a new channel that holds up to
/// `capacity` messages, as its two ends. The call panics for a capacity
/// that is too large for its bookkeeping; such capacities are left out.
#[verifier::external_body]
fn channel(capacity: usize) -> (ends: (
    Sender<Result<i64, ErrorKind>>,
    Receiver<Result<i64, ErrorKind>>,
))
    requires
        capacity <= 0xFFFF,
{
    crossbeam_channel::bounded(capacity)
}

/// Calls `Sender::send`, which blocks while the channel is full and fails
/// once no receiver is left. Nothing is claimed of what it returns.
#[verifier::external_body]
fn send(reply: &Sender<Result<i64, ErrorKind>>, result: Result<i64, ErrorKind>) -> (sent: Result<
    (),
    SendError<Result<i64, ErrorKind>>,
>)
{
    reply.send(result)
}

/// The way back to the requester of a film count: the sending end of the
/// channel on which the requester waits.
pub struct Reply {
    channel: Sender<Result<i64, ErrorKind>>,
}

impl Reply {
    /// Settles the request: hands `result` to the requester. A requester
    /// that has gone away is not an error.
    pub fn settle(self, result: Result<i64, ErrorKind>) {
        let _ = send(&self.channel, result);
    }
}

/// A film request that waits for the film service: the request to make, and
/// the way back to the requester.
pub struct Pending {
    pub outbound: Outbound,
    pub reply: Reply,
}

/// Whether `pending` is what becomes of a film request that took `step`: a
/// settled request leaves nothing pending, and a request to the film
/// service is pending as it is.
pub open spec fn answered(step: Fetch, pending: Option<Pending>) -> bool {
    match step {
        Fetch::Done(_) => pending is None,
        Fetch::Request(out) => pending matches Some(p) && p.outbound == out,
    }
}

/// Does what the step of a film request calls for. A settled request is
/// answered at once: its count, or its failure, is sent to the requester,
/// and nothing is pending. A request to the film service is handed back
/// as pending, with the way back to the requester, to be settled later.
pub fn answer(step: Fetch, reply: Reply) -> (pending: Option<Pending>)
    ensures
        answered(step, pending),
        pending matches Some(p) ==> p.reply == reply,
{
    match step {
        Fetch::Done(result) => {
            reply.settle(result);
            None
        },
        Fetch::Request(outbound) => Some(Pending { outbound, reply }),
    }
}

/// The fetcher. `P` is the address of the parser workers. A fetcher that
/// lacks that address or the cache answers no request.
pub struct FilmsExecutor<P> {
    pub processor: Option<P>,
    pub cache: Option<SharedCache>,
}

impl<P> Default for FilmsExecutor<P> {
    fn default() -> (fetcher: FilmsExecutor<P>)
        ensures
            fetcher.processor is None,
            fetcher.cache is None,
    {
        FilmsExecutor { processor: None, cache: None }
    }
}

impl<P> FilmsExecutor<P> {
    /// Takes a film request. The requester gets the receiving end of a new
    /// channel with one slot, on which the count or the failure will arrive
    /// once.
    ///
    /// Where the cache settles the request, the answer is in the channel
    /// when this returns. Where the film service has to be asked, the
    /// request is handed back with the sending end, to be settled later.
    /// A fetcher without cache or parser address drops the sending end: the
    /// requester finds the channel closed.
    ///
    /// With cache and parser address at hand, the request takes one of the
    /// steps that `getfilms` can take for its name, and what is pending is
    /// what `answer` makes of that step. Which step it is depends on the
    /// lock and on what the cache holds at that moment.
    pub fn handle(&mut self, msg: ReadFilms) -> (taken: (
        Receiver<Result<i64, ErrorKind>>,
        Option<Pending>,
    ))
        ensures
            *final(self) == *old(self),
            (old(self).processor is None || old(self).cache is None) ==> taken.1 is None,
            (old(self).processor is Some && old(self).cache is Some) ==> exists|step: Fetch|
                fetched(step, msg.0@) && #[trigger] answered(step, taken.1),
            taken.1 matches Some(pending) ==> pending.outbound.name@ == msg.0@
                && pending.outbound.url@ == search_url(msg.0@),
    {
        let (tx, rx) = channel(SLOTS);
        let reply = Reply { channel: tx };
        if self.processor.is_none() {
            return (rx, None);
        }
        match &self.cache {
            None => (rx, None),
            Some(cache) => {
                let step = getfilms(msg.0.as_str(), cache);
                let ghost taken_step = step;
                let pending = answer(step, reply);
                assert(fetched(taken_step, msg.0@) && answered(taken_step, pending));
                (rx, pending)
            },
        }
    }
}

/// Of two fetches of the same name, the first of which ended with a count
/// in the cache, the second asks the film service only if that count has
/// expired in between: while the cache still holds it, the second fetch is
/// settled with that count and without a call.
///
/// `first` is the cache after the first fetch, `second` the cache as the
/// second fetch finds it once expired counts are dropped.
pub proof fn second_fetch_is_settled_from_the_cache(
    first: Map<Seq<char>, i64>,
    second: Map<Seq<char>, i64>,
    name: Seq<char>,
    films: i64,
    step: Fetch,
)
    requires
        first.contains_key(name),
        first[name] == films,
        dwindled(first, second),
        follows(step, name, held(second, name)),
    ensures
        second.contains_key(name) ==> step == Fetch::Done(Ok(films)),
        step is Request ==> !second.contains_key(name),
{
}

} // verus!
