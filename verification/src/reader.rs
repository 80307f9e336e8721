//! The read side: from the rows of a query to the planets of a response.
//!
//! A read worker runs a query, sends one film request per row before it
//! waits for any of them, and then waits for the answers in the order of the
//! rows. Whatever order the answers are ready in, the response keeps the
//! order of the rows.

use crate::cache::dwindled;
use crate::cache::held;
use crate::domain::Enriched;
use crate::domain::GetPlanet;
use crate::domain::InnerPlanet;
use crate::domain::Planet;
use crate::domain::ReadFilms;
use crate::domain::SearchPlanet;
use crate::errors::ErrorKind;
use crate::films::follows;
use crate::films::Fetch;
use crate::processor::resolved_count_is_not_negative;
use crate::processor::resolves;
use crate::writer::creates;
use crate::writer::retracts;
use crate::writer::triple_of;
use crate::writer::Assertion;
use crate::writer::Binding;
use crate::writer::Retraction;
use crate::writer::Stored;
use crossbeam_channel::Receiver;
use crossbeam_channel::RecvError;
use vstd::prelude::*;

verus! {

/// `crossbeam_channel::RecvError`: the channel is empty and no sender is
/// left. Carried through as an opaque value.
#[verifier::external_type_specification]
#[verifier::external_body]
pub struct ExRecvError(RecvError);

/// The three queries of the read side.
#[derive(Debug, Clone, Copy, PartialEq, Eq, Structural)]
pub enum Query {
    /// Every planet.
    ListAll,
    /// The planets whose name contains a term.
    Search,
    /// The planet with a given identifier.
    GetById,
}

/// How the wait for one planet's film count ended.
#[derive(Debug, Clone, Copy, PartialEq, Eq, Structural)]
pub enum Delivery {
    /// The count arrived.
    Metric(i64),
    /// A failure arrived in place of the count.
    Failed,
    /// The channel closed before anything arrived.
    Closed,
    /// The request was never answered, so there is no channel to wait on.
    Unanswered,
}

/// The film count that a response shows for a delivery: the count itself,
/// or the value that stands for its absence in the given query.
pub open spec fn settled(query: Query, delivery: Delivery) -> int {
    match delivery {
        Delivery::Metric(v) => v as int,
        Delivery::Failed => -1,
        Delivery::Closed => -1,
        Delivery::Unanswered => if query == Query::Search {
            0
        } else {
            -1
        },
    }
}

/// What a wait on a channel returned, as a delivery.
pub open spec fn delivered(received: Result<Result<i64, ErrorKind>, RecvError>) -> Delivery {
    match received {
        Ok(Ok(v)) => Delivery::Metric(v),
        Ok(Err(_)) => Delivery::Failed,
        Err(_) => Delivery::Closed,
    }
}

/// Column `i` of a row, or the empty text where the row is shorter.
pub open spec fn column(row: Seq<String>, i: int) -> Seq<char> {
    if 0 <= i < row.len() {
        row[i]@
    } else {
        Seq::empty()
    }
}

/// The search term as the full-text index takes it: between two asterisks.
pub open spec fn wrapped(term: Seq<char>) -> Seq<char> {
    seq!['*'] + term + seq!['*']
}

/// The film count shown for `delivery` in a response to `query`.
pub fn settle(query: Query, delivery: Delivery) -> (films: i64)
    ensures
        films == settled(query, delivery),
{
    match delivery {
        Delivery::Metric(v) => v,
        Delivery::Failed => -1,
        Delivery::Closed => -1,
        Delivery::Unanswered => match query {
            Query::Search => 0,
            _ => -1,
        },
    }
}

/// Turns what a wait on a channel returned into a delivery.
pub fn delivery_of(received: Result<Result<i64, ErrorKind>, RecvError>) -> (d: Delivery)
    ensures
        d == delivered(received),
{
    match received {
        Ok(Ok(v)) => Delivery::Metric(v),
        Ok(Err(_)) => Delivery::Failed,
        Err(_) => Delivery::Closed,
    }
}

/// Calls `Receiver::recv`, which blocks until a message arrives or every
/// sender is gone. Nothing is claimed of what it returns.
#[verifier::external_body]
fn receive(channel: &Receiver<Result<i64, ErrorKind>>) -> (r: Result<Result<i64, ErrorKind>, RecvError>)
{
    channel.recv()
}

/// Waits for the answer to one request. Without a channel there is nothing
/// to wait on, and the delivery is `Unanswered`; with one, the delivery is
/// whatever the channel hands over.
pub fn await_delivery(request: &Option<Receiver<Result<i64, ErrorKind>>>) -> (d: Delivery)
    ensures
        request is None <==> d == Delivery::Unanswered,
{
    match request {
        None => Delivery::Unanswered,
        Some(channel) => delivery_of(receive(channel)),
    }
}

/// Whether `shown` is `planet` with the film count `films`.
pub open spec fn shows(shown: Enriched<String>, planet: InnerPlanet, films: int) -> bool {
    &&& shown.uuid@ == planet.uuid@
    &&& shown.name@ == planet.name@
    &&& shown.climate@ == planet.climate@
    &&& shown.terrain@ == planet.terrain@
    &&& shown.films == films
}

/// Whether `out` answers `query` for `planets`, given how the wait for each
/// of them ended: one entry per planet, in the order of the planets, each
/// with the count that its own delivery settles to.
pub open spec fn joined(
    query: Query,
    planets: Seq<InnerPlanet>,
    deliveries: Seq<Delivery>,
    out: Seq<Enriched<String>>,
) -> bool {
    &&& out.len() == planets.len()
    &&& forall|i: int|
        0 <= i < planets.len() ==> shows(
            #[trigger] out[i],
            planets[i],
            settled(query, deliveries[i]),
        )
}

/// Reads column `i` of a row.
fn column_of(row: &Vec<String>, i: usize) -> (text: String)
    ensures
        text@ == column(row@, i as int),
{
    if i < row.len() {
        row[i].clone()
    } else {
        String::new()
    }
}

/// The film request for a row of a listing: it carries the row's name,
/// which is its second column.
pub fn read_films(row: &Vec<String>) -> (msg: ReadFilms)
    ensures
        msg.0@ == column(row@, 1),
{
    ReadFilms(column_of(row, 1))
}

/// The planet that a row of a listing stands for. The columns are the
/// identifier, the name, the climate and the terrain; one that the row lacks
/// is empty. `request` is the channel that the film request for this row
/// was answered with, if it was.
pub fn inner_planet(row: &Vec<String>, request: Option<Receiver<Result<i64, ErrorKind>>>) -> (planet:
    InnerPlanet)
    ensures
        planet.uuid@ == column(row@, 0),
        planet.name@ == column(row@, 1),
        planet.climate@ == column(row@, 2),
        planet.terrain@ == column(row@, 3),
        planet.request == request,
{
    InnerPlanet {
        uuid: column_of(row, 0),
        name: column_of(row, 1),
        climate: column_of(row, 2),
        terrain: column_of(row, 3),
        request,
    }
}

/// The pattern that a search hands to the full-text index: the term between
/// two asterisks, so that it matches anywhere in a name.
pub fn search_pattern(search: &SearchPlanet) -> (pattern: String)
    ensures
        pattern@ == wrapped(search.0@),
{
    proof {
        reveal_strlit("*");
    }
    let mut pattern = String::from_str("*");
    pattern.append(search.0.as_str());
    pattern.append("*");
    pattern
}

/// One planet of a response: the planet's columns and the settled count.
pub fn enrich(query: Query, planet: &InnerPlanet, delivery: Delivery) -> (shown: Enriched<String>)
    ensures
        shows(shown, *planet, settled(query, delivery)),
{
    Enriched {
        uuid: planet.uuid.clone(),
        name: planet.name.clone(),
        climate: planet.climate.clone(),
        terrain: planet.terrain.clone(),
        films: settle(query, delivery),
    }
}

/// Assembles the response to `query` from the planets and from how the wait
/// for each of them ended. Entry `i` of the result is planet `i` with the
/// count that delivery `i` settles to: the order of the planets is kept.
pub fn join_with(query: Query, planets: &Vec<InnerPlanet>, deliveries: &Vec<Delivery>) -> (out: Vec<
    Enriched<String>,
>)
    requires
        deliveries.len() == planets.len(),
    ensures
        joined(query, planets@, deliveries@, out@),
{
    let mut out: Vec<Enriched<String>> = Vec::new();
    let mut i: usize = 0;
    while i < planets.len()
        invariant
            i <= planets.len(),
            deliveries.len() == planets.len(),
            out.len() == i,
            forall|k: int|
                0 <= k < i ==> shows(#[trigger] out[k], planets[k], settled(query, deliveries[k])),
        decreases planets.len() - i,
    {
        out.push(enrich(query, &planets[i], deliveries[i]));
        i = i + 1;
    }
    out
}

/// Waits for the film count of every planet, one planet after the other in
/// the order given, and assembles the response to `query`.
///
/// The planets come out in the order in which they went in, each with its
/// own columns. What a channel hands over is not known beforehand, so of
/// the counts only this is stated: a planet without a channel gets the
/// value that stands for an unanswered request.
pub fn join(query: Query, planets: &Vec<InnerPlanet>) -> (out: Vec<Enriched<String>>)
    ensures
        out.len() == planets.len(),
        forall|i: int|
            0 <= i < planets.len() ==> shows(#[trigger] out[i], planets[i], out[i].films as int),
        forall|i: int|
            0 <= i < planets.len() && planets[i].request is None ==> (#[trigger] out[i]).films
                == settled(query, Delivery::Unanswered),
{
    let mut deliveries: Vec<Delivery> = Vec::new();
    let mut i: usize = 0;
    while i < planets.len()
        invariant
            i <= planets.len(),
            deliveries.len() == i,
            forall|k: int|
                0 <= k < i && planets[k].request is None ==> #[trigger] deliveries[k]
                    == Delivery::Unanswered,
        decreases planets.len() - i,
    {
        deliveries.push(await_delivery(&planets[i].request));
        i = i + 1;
    }
    join_with(query, planets, &deliveries)
}

/// The film request for the row of a single planet: it carries the row's
/// name, which is its first column.
pub fn found_films(row: &Vec<String>) -> (msg: ReadFilms)
    requires
        row.len() >= 3,
    ensures
        msg.0@ == row[0]@,
{
    ReadFilms(row[0].clone())
}

/// Whether `shown` is the planet of `row` under the identifier `id`, with
/// the film count `films`. The row holds the name, the climate and the
/// terrain.
pub open spec fn shows_found(shown: Enriched<u128>, id: u128, row: Seq<String>, films: int) -> bool {
    &&& shown.uuid == id
    &&& shown.name@ == row[0]@
    &&& shown.climate@ == row[1]@
    &&& shown.terrain@ == row[2]@
    &&& shown.films == films
}

/// The planet asked for by `id`, as a response shows it. The row holds the
/// name, the climate and the terrain; the identifier is the one asked for.
pub fn found(id: GetPlanet, row: &Vec<String>, delivery: Delivery) -> (shown: Enriched<u128>)
    requires
        row.len() >= 3,
    ensures
        shows_found(shown, id.0, row@, settled(Query::GetById, delivery)),
{
    Enriched {
        uuid: id.0,
        name: row[0].clone(),
        climate: row[1].clone(),
        terrain: row[2].clone(),
        films: settle(Query::GetById, delivery),
    }
}

/// Whether `request` is what became of the film request for `name`: the
/// request was dispatched, and `request` is what was claimed for the answer
/// that the dispatch promised.
pub open spec fn requested<T, D: Fn(ReadFilms) -> T, C: Fn(T) -> Option<
    Receiver<Result<i64, ErrorKind>>,
>>(dispatch: D, claim: C, name: Seq<char>, request: Option<Receiver<Result<i64, ErrorKind>>>) -> bool {
    exists|msg: ReadFilms, ticket: T|
        msg.0@ == name && #[trigger] dispatch.ensures((msg,), ticket) && #[trigger] claim.ensures(
            (ticket,),
            request,
        )
}

/// Whether `films` is a count that was waited for on what became of the
/// film request for `name`: where nothing could be claimed for the request,
/// it is the value that stands for an unanswered request in `query`.
pub open spec fn waited<T, D: Fn(ReadFilms) -> T, C: Fn(T) -> Option<
    Receiver<Result<i64, ErrorKind>>,
>>(dispatch: D, claim: C, query: Query, name: Seq<char>, films: int) -> bool {
    exists|request: Option<Receiver<Result<i64, ErrorKind>>>|
        {
            &&& #[trigger] requested(dispatch, claim, name, request)
            &&& request is None ==> films == settled(query, Delivery::Unanswered)
        }
}

/// Whether `shown` answers a request for the planet with the identifier
/// `id`, given the row that the store returned for it: nothing without a
/// row, and with one the planet of that row under that identifier.
pub open spec fn gets(id: u128, row: Option<Vec<String>>, shown: Option<Enriched<u128>>) -> bool {
    match row {
        None => shown is None,
        Some(r) => shown matches Some(s) && shows_found(s, id, r@, s.films as int),
    }
}

/// Whether `out` lists the planets of `rows`: one planet for each row, in
/// the order of the rows, with the identifier, the name, the climate and
/// the terrain of its row.
pub open spec fn lists(rows: Seq<Vec<String>>, out: Seq<Enriched<String>>) -> bool {
    &&& out.len() == rows.len()
    &&& forall|i: int|
        0 <= i < rows.len() ==> {
            &&& (#[trigger] out[i]).uuid@ == column(rows[i]@, 0)
            &&& out[i].name@ == column(rows[i]@, 1)
            &&& out[i].climate@ == column(rows[i]@, 2)
            &&& out[i].terrain@ == column(rows[i]@, 3)
        }
}

/// Answers a request for a single planet from the row that the store
/// returned for its identifier, if it returned one.
///
/// Without a row there is no such planet: nothing is dispatched, and
/// nothing is waited for. With a row, the film request for its name is
/// dispatched, its answer is claimed, the count is waited for, and the
/// planet is returned with it. `dispatch` and `claim` are as in `list`.
///
/// What arrives on a channel is not known beforehand, so of the count only
/// this is stated: where the claim gave no channel, it is the value that
/// stands for an unanswered request.
pub fn get_by_id<T, D, C>(id: GetPlanet, row: &Option<Vec<String>>, dispatch: D, claim: C) -> (shown:
    Option<Enriched<u128>>) where
    D: Fn(ReadFilms) -> T,
    C: Fn(T) -> Option<Receiver<Result<i64, ErrorKind>>>,

    requires
        row matches Some(r) ==> r.len() >= 3,
        forall|msg: ReadFilms| dispatch.requires((msg,)),
        forall|ticket: T| claim.requires((ticket,)),
    ensures
        gets(id.0, *row, shown),
        row matches Some(r) ==> waited(
            dispatch,
            claim,
            Query::GetById,
            r[0]@,
            shown.unwrap().films as int,
        ),
{
    match row {
        None => None,
        Some(r) => {
            let msg = found_films(r);
            let ghost sent = msg;
            let ticket = dispatch(msg);
            let ghost promised = ticket;
            let request = claim(ticket);
            let shown = found(id, r, await_delivery(&request));
            proof {
                assert(requested(dispatch, claim, r[0]@, request));
            }
            Some(shown)
        },
    }
}

/// Answers a listing or a search from the rows that the store returned.
///
/// `dispatch` sends a film request to the fetcher and returns at once with
/// whatever stands for the pending answer; `claim` waits for that answer:
/// the channel of the request, if the fetcher gave one. Every row's request
/// is dispatched before any answer is claimed, so that the fetches overlap.
/// The answers are then claimed, and the counts waited for, in the order of
/// the rows.
///
/// The response holds one planet for each row, in the order of the rows,
/// with the columns of its row. The count of a planet is waited for on the
/// channel that was claimed for the request of its own name. What arrives
/// on a channel is not known beforehand, so of the count only this is
/// stated: where the claim gave no channel, it is the value that stands
/// for an unanswered request.
pub fn list<T, D, C>(query: Query, rows: &Vec<Vec<String>>, dispatch: D, claim: C) -> (out: Vec<
    Enriched<String>,
>) where D: Fn(ReadFilms) -> T, C: Fn(T) -> Option<Receiver<Result<i64, ErrorKind>>>
    requires
        forall|msg: ReadFilms| dispatch.requires((msg,)),
        forall|ticket: T| claim.requires((ticket,)),
    ensures
        lists(rows@, out@),
        forall|i: int|
            0 <= i < rows.len() ==> waited(
                dispatch,
                claim,
                query,
                column(rows[i]@, 1),
                (#[trigger] out[i]).films as int,
            ),
{
    let n = rows.len();
    let mut tickets: Vec<T> = Vec::new();
    let ghost mut sent: Seq<ReadFilms> = Seq::empty();
    let mut i: usize = 0;
    while i < n
        invariant
            n == rows.len(),
            i <= n,
            tickets.len() == i,
            sent.len() == i,
            forall|msg: ReadFilms| dispatch.requires((msg,)),
            forall|j: int|
                0 <= j < i ==> (#[trigger] sent[j]).0@ == column(rows[j]@, 1) && dispatch.ensures(
                    (sent[j],),
                    tickets[j],
                ),
        decreases n - i,
    {
        let msg = read_films(&rows[i]);
        proof {
            sent = sent.push(msg);
        }
        tickets.push(dispatch(msg));
        i = i + 1;
    }
    let ghost promised = tickets@;
    let mut waiting: Vec<T> = Vec::new();
    while tickets.len() > 0
        invariant
            promised.len() == n,
            tickets.len() + waiting.len() == n,
            forall|j: int| 0 <= j < tickets.len() ==> #[trigger] tickets[j] == promised[j],
            forall|j: int| 0 <= j < waiting.len() ==> #[trigger] waiting[j] == promised[n - 1 - j],
        decreases tickets.len(),
    {
        match tickets.pop() {
            Some(ticket) => waiting.push(ticket),
            None => {},
        }
    }
    let mut planets: Vec<InnerPlanet> = Vec::new();
    let mut k: usize = 0;
    while k < n
        invariant
            n == rows.len(),
            promised.len() == n,
            sent.len() == n,
            k <= n,
            planets.len() == k,
            waiting.len() == n - k,
            forall|ticket: T| claim.requires((ticket,)),
            forall|j: int| 0 <= j < waiting.len() ==> #[trigger] waiting[j] == promised[n - 1 - j],
            forall|j: int|
                0 <= j < n ==> (#[trigger] sent[j]).0@ == column(rows[j]@, 1) && dispatch.ensures(
                    (sent[j],),
                    promised[j],
                ),
            forall|j: int|
                0 <= j < k ==> {
                    &&& (#[trigger] planets[j]).uuid@ == column(rows[j]@, 0)
                    &&& planets[j].name@ == column(rows[j]@, 1)
                    &&& planets[j].climate@ == column(rows[j]@, 2)
                    &&& planets[j].terrain@ == column(rows[j]@, 3)
                    &&& requested(dispatch, claim, column(rows[j]@, 1), planets[j].request)
                },
        decreases n - k,
    {
        let request = match waiting.pop() {
            Some(ticket) => claim(ticket),
            None => None,
        };
        proof {
            assert(dispatch.ensures((sent[k as int],), promised[k as int]) && claim.ensures(
                (promised[k as int],),
                request,
            ));
        }
        planets.push(inner_planet(&rows[k], request));
        k = k + 1;
    }
    let out = join(query, &planets);
    assert forall|i: int| 0 <= i < rows.len() implies waited(
        dispatch,
        claim,
        query,
        column(rows[i]@, 1),
        (#[trigger] out[i]).films as int,
    ) by {
        assert(shows(out[i], planets[i], out[i].films as int));
        assert(requested(dispatch, claim, column(rows[i]@, 1), planets[i].request));
    }
    out
}

/// The response to a query is determined by the planets and by how the wait
/// for each of them ended: two responses assembled from the same planets
/// and the same deliveries show the same planets, in the same order, with
/// the same counts.
pub proof fn same_deliveries_same_response(
    query: Query,
    planets: Seq<InnerPlanet>,
    deliveries: Seq<Delivery>,
    one: Seq<Enriched<String>>,
    other: Seq<Enriched<String>>,
)
    requires
        joined(query, planets, deliveries, one),
        joined(query, planets, deliveries, other),
    ensures
        one.len() == other.len(),
        forall|i: int|
            0 <= i < one.len() ==> shows(#[trigger] one[i], planets[i], other[i].films as int)
                && shows(other[i], planets[i], one[i].films as int),
{
    assert forall|i: int| 0 <= i < one.len() implies shows(
        #[trigger] one[i],
        planets[i],
        other[i].films as int,
    ) && shows(other[i], planets[i], one[i].films as int) by {
        assert(shows(one[i], planets[i], settled(query, deliveries[i])));
        assert(shows(other[i], planets[i], settled(query, deliveries[i])));
    }
}

/// A planet that the store gives back as it was created is shown as it was
/// created: under the identifier drawn for it, with the name, the climate
/// and the terrain that were submitted. Where its film count arrived and
/// was derived from a payload, the count shown is not negative.
///
/// `terms` is what was handed to the store, `row` what the store returned
/// for the identifier, `scanned` what the scanner made of the payload.
pub proof fn created_planet_is_shown(
    terms: Seq<Assertion>,
    id: u128,
    planet: Planet,
    row: Seq<String>,
    scanned: Result<Vec<Option<Vec<u8>>>, String>,
    films: i64,
    shown: Enriched<u128>,
)
    requires
        creates(terms, id, planet),
        row.len() == 3,
        terms[1].value == Stored::Text(row[0]),
        terms[2].value == Stored::Text(row[1]),
        terms[3].value == Stored::Text(row[2]),
        resolves(Ok(films), scanned),
        shows_found(shown, id, row, settled(Query::GetById, Delivery::Metric(films))),
    ensures
        shown.uuid == id,
        shown.name@ == planet.name@,
        shown.climate@ == planet.climate@,
        shown.terrain@ == planet.terrain@,
        shown.films >= 0,
{
    resolved_count_is_not_negative(films, scanned);
}

/// A planet that the store gives back as it was created is found as it was
/// created: a request for the identifier drawn for it is answered with a
/// planet, under that identifier, with the name, the climate and the
/// terrain that were submitted.
///
/// `terms` is what was handed to the store, `row` what the store returned
/// for the identifier, `shown` the answer to the request.
pub proof fn created_planet_is_found(
    terms: Seq<Assertion>,
    id: u128,
    planet: Planet,
    row: Vec<String>,
    shown: Option<Enriched<u128>>,
)
    requires
        creates(terms, id, planet),
        row@.len() == 3,
        terms[1].value == Stored::Text(row@[0]),
        terms[2].value == Stored::Text(row@[1]),
        terms[3].value == Stored::Text(row@[2]),
        gets(id, Some(row), shown),
    ensures
        shown is Some,
        shown.unwrap().uuid == id,
        shown.unwrap().name@ == planet.name@,
        shown.unwrap().climate@ == planet.climate@,
        shown.unwrap().terrain@ == planet.terrain@,
{
}

/// A planet that was deleted is not found: once every triple of it is taken
/// out, the store returns no row for its identifier, and a request for it
/// is answered with nothing.
///
/// `rows` are the triples that the store held for the identifier, `out`
/// the retractions that were committed, `shown` the answer to a request
/// made when the store returns no row.
pub proof fn deleted_planet_is_not_found<V>(
    rows: Seq<Vec<Binding<V>>>,
    out: Seq<Retraction<V>>,
    id: u128,
    shown: Option<Enriched<u128>>,
)
    requires
        retracts(out, rows),
        gets(id, None, shown),
    ensures
        forall|i: int| 0 <= i < rows.len() ==> #[trigger] out[i] == triple_of(rows[i]@),
        shown is None,
{
}

/// Two listings of the same rows show the same planets: as many of them,
/// and at each place the same identifier, name, climate and terrain.
pub proof fn same_rows_same_planets(
    rows: Seq<Vec<String>>,
    one: Seq<Enriched<String>>,
    other: Seq<Enriched<String>>,
)
    requires
        lists(rows, one),
        lists(rows, other),
    ensures
        other.len() == one.len(),
        forall|i: int|
            0 <= i < one.len() ==> {
                &&& (#[trigger] other[i]).uuid@ == one[i].uuid@
                &&& other[i].name@ == one[i].name@
                &&& other[i].climate@ == one[i].climate@
                &&& other[i].terrain@ == one[i].terrain@
            },
{
    assert forall|i: int| 0 <= i < one.len() implies {
        &&& (#[trigger] other[i]).uuid@ == one[i].uuid@
        &&& other[i].name@ == one[i].name@
        &&& other[i].climate@ == one[i].climate@
        &&& other[i].terrain@ == one[i].terrain@
    } by {
        assert(one[i].uuid@ == column(rows[i]@, 0));
    }
}

/// A listing that is repeated while the counts of the first are still in
/// the cache shows the same counts, and asks the film service for none of
/// them.
///
/// In the first listing every count arrived, and `cached` held it
/// afterwards. `later[i]` is the cache as the second fetch for planet `i`
/// finds it: nothing was stored in between, and the count of the planet has
/// not expired. `steps[i]` is the step of that fetch, and `second[i]` what
/// the requester of planet `i` then receives: the answer that the step
/// settled.
pub proof fn repeated_listing_shows_the_same_counts(
    query: Query,
    planets: Seq<InnerPlanet>,
    first: Seq<Delivery>,
    cached: Map<Seq<char>, i64>,
    later: Seq<Map<Seq<char>, i64>>,
    steps: Seq<Fetch>,
    second: Seq<Delivery>,
    one: Seq<Enriched<String>>,
    other: Seq<Enriched<String>>,
)
    requires
        first.len() == planets.len(),
        later.len() == planets.len(),
        steps.len() == planets.len(),
        second.len() == planets.len(),
        forall|i: int|
            0 <= i < planets.len() ==> ((#[trigger] first[i]) matches Delivery::Metric(films)
                && held(cached, planets[i].name@) == Some(films)),
        forall|i: int|
            0 <= i < planets.len() ==> dwindled(cached, #[trigger] later[i])
                && later[i].contains_key(planets[i].name@),
        forall|i: int|
            0 <= i < planets.len() ==> follows(
                #[trigger] steps[i],
                planets[i].name@,
                held(later[i], planets[i].name@),
            ),
        forall|i: int|
            0 <= i < planets.len() ==> ((#[trigger] steps[i]) matches Fetch::Done(result)
                ==> second[i] == delivered(Ok(result))),
        joined(query, planets, first, one),
        joined(query, planets, second, other),
    ensures
        forall|i: int| 0 <= i < planets.len() ==> (#[trigger] steps[i]) is Done,
        forall|i: int| 0 <= i < planets.len() ==> (#[trigger] other[i]).films == one[i].films,
{
    assert forall|i: int| 0 <= i < planets.len() implies (#[trigger] steps[i]) is Done by {
        assert(first[i] is Metric);
        assert(dwindled(cached, later[i]));
    }
    assert forall|i: int| 0 <= i < planets.len() implies (#[trigger] other[i]).films
        == one[i].films by {
        assert(first[i] is Metric);
        assert(dwindled(cached, later[i]));
        assert(steps[i] is Done);
        assert(shows(one[i], planets[i], settled(query, first[i])));
        assert(shows(other[i], planets[i], settled(query, second[i])));
    }
}

} // verus!
