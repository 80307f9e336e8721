use swapi::cache::MAX_EXPIRE;
use swapi::cli::expire;
use swapi::cli::get_api_port;
use swapi::cli::interface;
use swapi::cli::port;
use swapi::cli::settings;
use swapi::cli::DEFAULT_EXPIRE;
use swapi::cli::DEFAULT_PORT;
use swapi::cli::MAILBOX;
use swapi::cli::PARSERS;
use swapi::cli::READERS;
use swapi::cli::WRITERS;
use swapi::dirs::Directories;

fn dirs() -> Directories {
    Directories { base: String::from("/data"), db: String::from("/data/db") }
}

#[test]
fn all_is_every_interface() {
    assert_eq!(interface("all"), "0.0.0.0");
}

#[test]
fn local_is_the_loopback_interface() {
    assert_eq!(interface("local"), "127.0.0.1");
}

#[test]
fn anything_else_is_an_address_already() {
    assert_eq!(interface("192.168.1.7"), "192.168.1.7");
    assert_eq!(interface(""), "");
    assert_eq!(interface("All"), "All");
    assert_eq!(interface("locals"), "locals");
    assert_eq!(interface("al"), "al");
    assert_eq!(interface("::1"), "::1");
}

#[test]
fn defaults() {
    assert_eq!(DEFAULT_PORT, 8080);
    assert_eq!(DEFAULT_EXPIRE, 604800);
    assert_eq!(DEFAULT_EXPIRE, 7 * 24 * 60 * 60);
    assert_eq!(WRITERS, 1);
    assert_eq!(READERS, 8);
    assert_eq!(PARSERS, 8);
    assert_eq!(MAILBOX, 1000);
}

#[test]
fn port_of_the_environment() {
    assert_eq!(get_api_port("3000"), 3000);
    assert_eq!(get_api_port(""), 8080);
    assert_eq!(get_api_port("http"), 8080);
    assert_eq!(get_api_port("65535"), 65535);
    assert_eq!(get_api_port("65536"), 8080);
    assert_eq!(get_api_port("-1"), 8080);
    assert_eq!(get_api_port("+80"), 80);
    assert_eq!(get_api_port("0"), 0);
    assert_eq!(get_api_port(" 80"), 8080);
    assert_eq!(get_api_port("0080"), 80);
}

#[test]
fn command_line_port_comes_first() {
    assert_eq!(port(Some("9000"), "3000"), 9000);
    assert_eq!(port(Some("9000"), ""), 9000);
}

#[test]
fn bad_or_absent_command_line_port_falls_back() {
    assert_eq!(port(Some("x"), "3000"), 3000);
    assert_eq!(port(Some("70000"), "3000"), 3000);
    assert_eq!(port(None, "3000"), 3000);
    assert_eq!(port(None, ""), 8080);
    assert_eq!(port(Some(""), "nope"), 8080);
}

#[test]
fn expire_is_a_number_of_seconds() {
    assert_eq!(expire("604800"), Some(604800));
    assert_eq!(expire("0"), Some(0));
    assert_eq!(expire("18446744073709551615"), Some(u64::MAX));
    assert_eq!(expire("18446744073709551616"), None);
    assert_eq!(expire("-1"), None);
    assert_eq!(expire("7d"), None);
    assert_eq!(expire(""), None);
    assert_eq!(expire("+5"), Some(5));
}

#[test]
fn settings_from_the_defaults() {
    let s = settings(None, "", "local", None, "604800", None, dirs()).unwrap();
    assert_eq!(s.port, 8080);
    assert_eq!(s.interface, "127.0.0.1");
    assert_eq!(s.dirs, dirs());
    assert_eq!(s.expire, 604800);
    assert_eq!(s.log, "");
}

#[test]
fn settings_from_the_command_line() {
    let s = settings(
        Some("9000"),
        "3000",
        "all",
        Some(String::from("/tmp/planets")),
        "60",
        Some("swapi=debug"),
        dirs(),
    )
    .unwrap();
    assert_eq!(s.port, 9000);
    assert_eq!(s.interface, "0.0.0.0");
    assert_eq!(s.dirs.base, "/data");
    assert_eq!(s.dirs.db, "/tmp/planets");
    assert_eq!(s.expire, 60);
    assert_eq!(s.log, "swapi=debug");
}

#[test]
fn no_settings_without_a_usable_expire() {
    assert!(settings(None, "", "local", None, "soon", None, dirs()).is_none());
    assert!(settings(None, "", "local", None, "", None, dirs()).is_none());
    assert!(settings(None, "", "local", None, "4294967296", None, dirs()).is_none());
    let longest = settings(None, "", "local", None, "4294967295", None, dirs()).unwrap();
    assert_eq!(longest.expire, MAX_EXPIRE);
}
