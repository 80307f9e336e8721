//! The parser worker: from the two fields scanned out of a payload to the
//! film count of a planet, by way of the cache.

use crate::cache::dwindled;
use crate::cache::dwindled_but;
use crate::cache::held;
use crate::cache::MetricCache;
use crate::cache::SharedCache;
use crate::domain::SearchResponse;
use crate::errors::ErrorKind;
use crate::text::decimal_i64;
use crate::text::parse_i64;
use crate::text::utf8_text;
use vstd::prelude::*;
use vstd::string::StrSliceExecFns;
use vstd::utf8::decode_utf8;
use vstd::utf8::encode_utf8_decode_utf8;
use vstd::utf8::valid_utf8;

verus! {

/// The number of commas in a text.
pub open spec fn commas(text: Seq<char>) -> nat
    decreases text.len(),
{
    if text.len() == 0 {
        0
    } else {
        commas(text.drop_last()) + if text.last() == ',' {
            1nat
        } else {
            0nat
        }
    }
}

/// Counts the commas of a text of `length` characters.
fn count_commas(text: &str, length: usize) -> (count: usize)
    requires
        length == text@.len(),
    ensures
        count == commas(text@),
        count <= length,
{
    let mut count: usize = 0;
    for c in it: text.chars()
        invariant
            it.seq() == text@,
            length == text@.len(),
            count == commas(it.seq().take(it.index())),
            count <= it.index(),
    {
        assert(it.seq().take(it.index() + 1).drop_last() == it.seq().take(it.index()));
        if c == ',' {
            count = count + 1;
        }
    }
    assert(text@.take(text@.len() as int) == text@);
    count
}

/// The path of the field that holds the number of results.
pub const COUNT_QUERY: &'static str = "$.count";

/// The path of the field that holds the films of a result.
pub const FILMS_QUERY: &'static str = "$.results.films";

/// The number of films that the raw text of a films field lists: one more
/// than its commas where the text is longer than three characters, and none
/// where it is not (an empty list is written with two).
pub open spec fn film_count(films: Seq<char>) -> nat {
    if films.len() > 3 {
        commas(films) + 1
    } else {
        0
    }
}

/// What the two scanned fields amount to.
pub enum Derived {
    /// The planet appears in this many films.
    Films(i64),
    /// The fields are not the two that were asked for, the count is
    /// missing, or the films are too many to be counted.
    Unexpected,
    /// A field is not UTF-8.
    NotText,
    /// The count is this text, which is not an integer.
    NotNumber(Seq<char>),
    /// There is exactly one result, and it has no films field.
    Corrupt,
}

/// The rule by which the scanned fields give a film count. The first field
/// is the number of results, the second the films of the result. Only where
/// there is exactly one result do the films count; with any other number of
/// results the planet is taken to appear in no film.
pub open spec fn derived(fields: Seq<Option<Vec<u8>>>) -> Derived {
    if fields.len() != 2 {
        Derived::Unexpected
    } else {
        match fields[0] {
            None => Derived::Unexpected,
            Some(count) => if !valid_utf8(count@) {
                Derived::NotText
            } else {
                match decimal_i64(decode_utf8(count@)) {
                    None => Derived::NotNumber(decode_utf8(count@)),
                    Some(results) => if results != 1 {
                        Derived::Films(0)
                    } else {
                        match fields[1] {
                            None => Derived::Corrupt,
                            Some(films) => if !valid_utf8(films@) {
                                Derived::NotText
                            } else if film_count(decode_utf8(films@)) <= i64::MAX {
                                Derived::Films(film_count(decode_utf8(films@)) as i64)
                            } else {
                                Derived::Unexpected
                            },
                        }
                    },
                }
            },
        }
    }
}

/// Whether `res` is how `derived` is reported: the count itself, or the
/// failure that belongs to it.
pub open spec fn reports(res: Result<i64, ErrorKind>, derived: Derived) -> bool {
    match derived {
        Derived::Films(n) => res == Ok::<i64, ErrorKind>(n),
        Derived::Unexpected => res matches Err(ErrorKind::Msg(m)) && m@
            == "unexpected data to parse"@,
        Derived::NotText => res matches Err(ErrorKind::Str(_)),
        Derived::NotNumber(text) => res matches Err(ErrorKind::Parse(m)) && m@ == text,
        Derived::Corrupt => res matches Err(ErrorKind::Msg(m)) && m@ == "corrupt data!"@,
    }
}

/// Whether `res` is what a miss ends in, given what the scanner returned:
/// the scanner's failure, or the report of what its fields amount to.
pub open spec fn resolves(
    res: Result<i64, ErrorKind>,
    scanned: Result<Vec<Option<Vec<u8>>>, String>,
) -> bool {
    match scanned {
        Ok(fields) => reports(res, derived(fields@)),
        Err(why) => res matches Err(ErrorKind::Pikkr(m)) && m@ == why@,
    }
}

/// Counts the films in the raw text of a films field.
fn count_films(films: &str) -> (count: Option<i64>)
    ensures
        count == if film_count(films@) <= i64::MAX {
            Some(film_count(films@) as i64)
        } else {
            None::<i64>
        },
{
    let length = films.unicode_len();
    if length > 3 {
        let found = count_commas(films, length) as u64;
        if found < 0x7FFF_FFFF_FFFF_FFFF {
            Some((found + 1) as i64)
        } else {
            None
        }
    } else {
        Some(0)
    }
}

/// Derives the film count from the fields that the scanner found for the
/// two paths, in the order of the paths.
pub fn derive_metric(fields: &Vec<Option<Vec<u8>>>) -> (res: Result<i64, ErrorKind>)
    ensures
        reports(res, derived(fields@)),
{
    if fields.len() != 2 {
        return Err(ErrorKind::Msg(String::from_str("unexpected data to parse")));
    }
    let count = match &fields[0] {
        Some(count) => count,
        None => {
            return Err(ErrorKind::Msg(String::from_str("unexpected data to parse")));
        },
    };
    let count_text = match utf8_text(count.as_slice()) {
        Ok(text) => text,
        Err(e) => {
            return Err(ErrorKind::Str(e));
        },
    };
    proof {
        encode_utf8_decode_utf8(count_text@);
    }
    let results = match parse_i64(count_text) {
        Some(results) => results,
        None => {
            return Err(ErrorKind::Parse(String::from_str(count_text)));
        },
    };
    if results != 1 {
        return Ok(0);
    }
    let films = match &fields[1] {
        Some(films) => films,
        None => {
            return Err(ErrorKind::Msg(String::from_str("corrupt data!")));
        },
    };
    let films_text = match utf8_text(films.as_slice()) {
        Ok(text) => text,
        Err(e) => {
            return Err(ErrorKind::Str(e));
        },
    };
    proof {
        encode_utf8_decode_utf8(films_text@);
    }
    match count_films(films_text) {
        Some(n) => Ok(n),
        None => Err(ErrorKind::Msg(String::from_str("unexpected data to parse"))),
    }
}

/// What a miss ends in: the scanner's failure under its own kind, or the
/// count derived from the fields it found.
pub fn resolve(scanned: Result<Vec<Option<Vec<u8>>>, String>) -> (res: Result<i64, ErrorKind>)
    ensures
        resolves(res, scanned),
{
    match scanned {
        Ok(fields) => derive_metric(&fields),
        Err(why) => Err(ErrorKind::Pikkr(why)),
    }
}

/// Finds the film count of a planet from the payload that the film service
/// sent for it. `scanned` is what the field scanner made of the payload.
///
/// The cache is asked first: another worker may have stored the count while
/// this payload was on its way. A count that the cache still holds is the
/// answer, and the payload is not looked at. Otherwise the count is derived
/// from the scanned fields, stored under the name, and returned. Where that
/// fails, the failure is returned and nothing is stored: the cache never
/// holds a count that was not derived from a payload.
pub fn parse(
    cache: &mut MetricCache,
    name: String,
    scanned: Result<Vec<Option<Vec<u8>>>, String>,
) -> (res: Result<i64, ErrorKind>)
    ensures
        final(cache).expire() == old(cache).expire(),
        dwindled_but(old(cache)@, final(cache)@, name@),
        match res {
            Ok(films) => {
                &&& films >= 0
                &&& held(final(cache)@, name@) == Some(films)
                &&& held(old(cache)@, name@) == Some(films) || resolves(res, scanned)
            },
            Err(_) => {
                &&& dwindled(old(cache)@, final(cache)@)
                &&& held(final(cache)@, name@) is None
                &&& resolves(res, scanned)
            },
        },
        held(old(cache)@, name@) is None ==> resolves(res, scanned),
{
    if let Some(films) = cache.get(name.as_str()) {
        return Ok(films);
    }
    match resolve(scanned) {
        Ok(films) => {
            proof {
                resolved_count_is_not_negative(films, scanned);
            }
            cache.put(name, films);
            Ok(films)
        },
        Err(e) => Err(e),
    }
}

/// A parser worker. It shares the cache with the fetcher and with the other
/// parser workers.
pub struct InboundCacheProcessor {
    pub cache: SharedCache,
}

impl InboundCacheProcessor {
    /// Handles the payload that arrived for a planet. `scan` is the field
    /// scanner: from a payload it gives the fields found for the two paths.
    ///
    /// The cache is asked first, and a count that it holds is the answer:
    /// the payload is then not scanned at all. Otherwise the payload is
    /// scanned, without the lock being held, and then, under the lock, done
    /// with as `parse` does.
    ///
    /// What the cache holds depends on the other workers and on the time, so
    /// of success only this is stated: the answer is a count, and never
    /// negative. Failure is a poisoned lock, or what a miss ends in for what
    /// the scanner returned.
    pub fn handle<F>(&mut self, msg: SearchResponse, scan: F) -> (res: Result<i64, ErrorKind>) where
        F: FnOnce(&Vec<u8>) -> Result<Vec<Option<Vec<u8>>>, String>,

        requires
            scan.requires((&msg.1,)),
        ensures
            *final(self) == *old(self),
            res matches Ok(films) ==> films >= 0,
            res matches Err(e) ==> e is Poisoned || exists|
                scanned: Result<Vec<Option<Vec<u8>>>, String>,
            |
                scan.ensures((&msg.1,), scanned) && resolves(res, scanned),
    {
        match self.cache.get(msg.0.as_str()) {
            Ok(Some(films)) => {
                return Ok(films);
            },
            Ok(None) => {},
            Err(e) => {
                return Err(e);
            },
        }
        let scanned = scan(&msg.1);
        match self.cache.lock() {
            Ok(mut held) => {
                let cache = SharedCache::cache(&mut held);
                parse(cache, msg.0, scanned)
            },
            Err(e) => Err(e),
        }
    }
}

/// A count that is derived from a payload is never negative.
pub proof fn derived_count_is_not_negative(fields: Seq<Option<Vec<u8>>>)
    ensures
        derived(fields) matches Derived::Films(films) ==> films >= 0,
{
}

/// Whatever the scanner returned, a count that a miss ends in is never
/// negative.
pub proof fn resolved_count_is_not_negative(
    films: i64,
    scanned: Result<Vec<Option<Vec<u8>>>, String>,
)
    requires
        resolves(Ok(films), scanned),
    ensures
        films >= 0,
{
    match scanned {
        Ok(fields) => derived_count_is_not_negative(fields@),
        Err(_) => {},
    }
}

} // verus!
