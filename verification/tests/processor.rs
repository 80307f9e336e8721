use swapi::cache::MetricCache;
use swapi::cache::SharedCache;
use swapi::domain::SearchResponse;
use swapi::errors::ErrorKind;
use swapi::processor::derive_metric;
use swapi::processor::parse;
use swapi::processor::resolve;
use swapi::processor::InboundCacheProcessor;
use swapi::processor::COUNT_QUERY;
use swapi::processor::FILMS_QUERY;

fn fields(count: Option<&str>, films: Option<&str>) -> Vec<Option<Vec<u8>>> {
    vec![
        count.map(|c| c.as_bytes().to_vec()),
        films.map(|f| f.as_bytes().to_vec()),
    ]
}

#[test]
fn one_result_with_four_films_counts_four() {
    let got = derive_metric(&fields(Some("1"), Some("a,b,c,d")));
    assert!(matches!(got, Ok(4)));
}

#[test]
fn one_result_with_short_films_counts_zero() {
    let got = derive_metric(&fields(Some("1"), Some("ab")));
    assert!(matches!(got, Ok(0)));
}

#[test]
fn no_result_counts_zero_whatever_the_films() {
    assert!(matches!(derive_metric(&fields(Some("0"), Some("a,b,c,d"))), Ok(0)));
    assert!(matches!(derive_metric(&fields(Some("0"), None)), Ok(0)));
    assert!(matches!(derive_metric(&fields(Some("0"), Some("ab"))), Ok(0)));
}

#[test]
fn several_results_count_zero() {
    assert!(matches!(derive_metric(&fields(Some("2"), Some("a,b,c,d"))), Ok(0)));
    assert!(matches!(derive_metric(&fields(Some("-1"), None)), Ok(0)));
}

#[test]
fn one_result_without_films_is_corrupt() {
    match derive_metric(&fields(Some("1"), None)) {
        Err(ErrorKind::Msg(m)) => assert_eq!(m, "corrupt data!"),
        other => panic!("got {:?}", other),
    }
}

#[test]
fn films_of_three_characters_count_zero_and_of_four_count_entries() {
    assert!(matches!(derive_metric(&fields(Some("1"), Some("a,b"))), Ok(0)));
    assert!(matches!(derive_metric(&fields(Some("1"), Some("a,bc"))), Ok(2)));
    assert!(matches!(derive_metric(&fields(Some("1"), Some("abcd"))), Ok(1)));
    assert!(matches!(derive_metric(&fields(Some("1"), Some(",,,,"))), Ok(5)));
    assert!(matches!(derive_metric(&fields(Some("1"), Some(""))), Ok(0)));
    assert!(matches!(derive_metric(&fields(Some("1"), Some("[]"))), Ok(0)));
}

#[test]
fn film_list_as_the_service_writes_it() {
    let films = "[\"https://swapi.co/api/films/5/\",\"https://swapi.co/api/films/4/\",\"https://swapi.co/api/films/6/\"]";
    assert!(matches!(derive_metric(&fields(Some("1"), Some(films))), Ok(3)));
}

#[test]
fn length_of_films_is_counted_in_characters() {
    // Two characters in four bytes: not longer than three characters.
    assert!(matches!(derive_metric(&fields(Some("1"), Some("\u{e9}\u{e9}"))), Ok(0)));
    assert!(matches!(derive_metric(&fields(Some("1"), Some("\u{e9},\u{e9},"))), Ok(3)));
}

#[test]
fn count_with_a_sign_or_leading_zeros_is_read() {
    assert!(matches!(derive_metric(&fields(Some("+1"), Some("a,b,c,d"))), Ok(4)));
    assert!(matches!(derive_metric(&fields(Some("001"), Some("a,b,c,d"))), Ok(4)));
    assert!(matches!(derive_metric(&fields(Some("-0"), Some("a,b,c,d"))), Ok(0)));
    assert!(matches!(
        derive_metric(&fields(Some("9223372036854775807"), None)),
        Ok(0)
    ));
    assert!(matches!(
        derive_metric(&fields(Some("-9223372036854775808"), None)),
        Ok(0)
    ));
}

#[test]
fn count_that_is_no_integer_is_a_parse_error() {
    for bad in ["", "x", "1.0", " 1", "1 ", "+", "-", "1_0", "9223372036854775808", "\"1\""] {
        match derive_metric(&fields(Some(bad), Some("a,b,c,d"))) {
            Err(ErrorKind::Parse(text)) => assert_eq!(text, bad),
            other => panic!("count {:?} gave {:?}", bad, other),
        }
    }
}

#[test]
fn count_that_is_not_utf8_is_a_decoding_error() {
    let got = derive_metric(&vec![Some(vec![0xff, 0x31]), Some(b"a,b,c,d".to_vec())]);
    assert!(matches!(got, Err(ErrorKind::Str(_))));
}

#[test]
fn films_that_are_not_utf8_are_a_decoding_error() {
    let got = derive_metric(&vec![Some(b"1".to_vec()), Some(vec![b'a', 0xc3, b',', b'b'])]);
    assert!(matches!(got, Err(ErrorKind::Str(_))));
}

#[test]
fn films_that_are_not_utf8_do_not_matter_without_exactly_one_result() {
    let got = derive_metric(&vec![Some(b"0".to_vec()), Some(vec![0xff, 0xfe])]);
    assert!(matches!(got, Ok(0)));
}

#[test]
fn missing_count_is_unexpected() {
    match derive_metric(&fields(None, Some("a,b,c,d"))) {
        Err(ErrorKind::Msg(m)) => assert_eq!(m, "unexpected data to parse"),
        other => panic!("got {:?}", other),
    }
}

#[test]
fn wrong_number_of_fields_is_unexpected() {
    for given in [
        vec![],
        vec![Some(b"1".to_vec())],
        vec![Some(b"1".to_vec()), Some(b"a,b,c,d".to_vec()), None],
    ] {
        match derive_metric(&given) {
            Err(ErrorKind::Msg(m)) => assert_eq!(m, "unexpected data to parse"),
            other => panic!("got {:?}", other),
        }
    }
}

#[test]
fn scanner_failure_is_reported_under_its_own_kind() {
    match resolve(Err(String::from("invalid record"))) {
        Err(ErrorKind::Pikkr(m)) => assert_eq!(m, "invalid record"),
        other => panic!("got {:?}", other),
    }
    assert!(matches!(resolve(Ok(fields(Some("1"), Some("a,b,c,d")))), Ok(4)));
}

#[test]
fn the_two_paths_that_are_scanned() {
    assert_eq!(COUNT_QUERY, "$.count");
    assert_eq!(FILMS_QUERY, "$.results.films");
}

#[test]
fn parse_stores_what_it_derives() {
    let mut cache = MetricCache::new(604800);
    let got = parse(
        &mut cache,
        String::from("Tatooine"),
        Ok(fields(Some("1"), Some("a,b,c,d,e"))),
    );
    assert!(matches!(got, Ok(5)));
    assert_eq!(cache.get("Tatooine"), Some(5));
    assert_eq!(cache.get("Alderaan"), None);
}

#[test]
fn parse_answers_from_the_cache_without_looking_at_the_payload() {
    let mut cache = MetricCache::new(604800);
    cache.put(String::from("Tatooine"), 7);
    let got = parse(&mut cache, String::from("Tatooine"), Err(String::from("invalid record")));
    assert!(matches!(got, Ok(7)));
    let got = parse(
        &mut cache,
        String::from("Tatooine"),
        Ok(fields(Some("1"), Some("a,b,c,d"))),
    );
    assert!(matches!(got, Ok(7)));
    assert_eq!(cache.get("Tatooine"), Some(7));
}

#[test]
fn parse_stores_nothing_when_it_fails() {
    let mut cache = MetricCache::new(604800);
    cache.put(String::from("Hoth"), 1);
    let got = parse(&mut cache, String::from("Tatooine"), Ok(fields(Some("1"), None)));
    assert!(matches!(got, Err(ErrorKind::Msg(_))));
    let got = parse(&mut cache, String::from("Tatooine"), Err(String::from("invalid record")));
    assert!(matches!(got, Err(ErrorKind::Pikkr(_))));
    let got = parse(&mut cache, String::from("Tatooine"), Ok(fields(Some("x"), None)));
    assert!(matches!(got, Err(ErrorKind::Parse(_))));
    assert_eq!(cache.get("Tatooine"), None);
    assert_eq!(cache.get("Hoth"), Some(1));
}

#[test]
fn worker_stores_in_the_shared_cache() {
    let shared = SharedCache::new(604800);
    let mut worker = InboundCacheProcessor { cache: shared.share() };
    let got = worker.handle(SearchResponse(String::from("Naboo"), b"{}".to_vec()), |_| {
        Ok(fields(Some("1"), Some("a,b,c,d")))
    });
    assert!(matches!(got, Ok(4)));
    assert!(matches!(shared.get("Naboo"), Ok(Some(4))));
}

#[test]
fn worker_scans_the_payload_it_was_sent() {
    let shared = SharedCache::new(604800);
    let mut worker = InboundCacheProcessor { cache: shared.share() };
    let got = worker.handle(SearchResponse(String::from("Naboo"), b"a,b,c,d,e,f".to_vec()), |raw| {
        Ok(vec![Some(b"1".to_vec()), Some(raw.clone())])
    });
    assert!(matches!(got, Ok(6)));
}

#[test]
fn worker_does_not_scan_when_the_cache_holds_the_count() {
    let shared = SharedCache::new(604800);
    assert!(matches!(shared.put(String::from("Naboo"), 4), Ok(())));
    let mut worker = InboundCacheProcessor { cache: shared.share() };
    let mut scans = 0;
    let again = worker.handle(SearchResponse(String::from("Naboo"), b"{}".to_vec()), |_| {
        scans += 1;
        Ok(fields(Some("0"), None))
    });
    assert!(matches!(again, Ok(4)));
    assert_eq!(scans, 0);
    let other = worker.handle(SearchResponse(String::from("Hoth"), b"{}".to_vec()), |_| {
        scans += 1;
        Ok(fields(Some("0"), None))
    });
    assert!(matches!(other, Ok(0)));
    assert_eq!(scans, 1);
}

#[test]
fn worker_reports_failure_and_stores_nothing() {
    let shared = SharedCache::new(604800);
    let mut worker = InboundCacheProcessor { cache: shared.share() };
    let got = worker.handle(SearchResponse(String::from("Naboo"), Vec::new()), |_| {
        Err(String::from("invalid record"))
    });
    match got {
        Err(ErrorKind::Pikkr(m)) => assert_eq!(m, "invalid record"),
        other => panic!("got {:?}", other),
    }
    assert!(matches!(shared.get("Naboo"), Ok(None)));
    let got = worker.handle(SearchResponse(String::from("Naboo"), Vec::new()), |_| {
        Ok(fields(Some("1"), None))
    });
    assert!(matches!(got, Err(ErrorKind::Msg(_))));
    assert!(matches!(shared.get("Naboo"), Ok(None)));
}
