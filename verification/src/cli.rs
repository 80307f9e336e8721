//! What the command line and the environment decide before the service
//! starts.

use crate::cache::MAX_EXPIRE;
use crate::dirs::Directories;
use crate::text::decimal_u16;
use crate::text::decimal_u64;
use crate::text::parse_u16;
use crate::text::parse_u64;
use crate::text::same_text;
use vstd::prelude::*;

verus! {

/// The port that is listened on where neither the command line nor the
/// environment names one.
pub const DEFAULT_PORT: u16 = 8080;

/// The time, in seconds, for which a film count is kept where the command
/// line names none: seven days.
pub const DEFAULT_EXPIRE: u64 = 604800;

/// The number of workers that write to the store. Writes are serialized by
/// there being exactly one.
pub const WRITERS: usize = 1;

/// The number of workers that read from the store.
pub const READERS: usize = 8;

/// The number of workers that parse payloads.
pub const PARSERS: usize = 8;

/// The number of film requests that may wait for the fetcher.
pub const MAILBOX: usize = 1000;

/// The address that an interface name stands for.
pub open spec fn interface_address(name: Seq<char>) -> Seq<char> {
    if name == "all"@ {
        "0.0.0.0"@
    } else if name == "local"@ {
        "127.0.0.1"@
    } else {
        name
    }
}

/// The port to listen on: the one given on the command line where that is
/// a port number, else the one given by the environment where that is one,
/// else the default.
pub open spec fn chosen_port(flag: Option<Seq<char>>, env: Seq<char>) -> u16 {
    if flag is Some && decimal_u16(flag.unwrap()) is Some {
        decimal_u16(flag.unwrap()).unwrap()
    } else if decimal_u16(env) is Some {
        decimal_u16(env).unwrap()
    } else {
        DEFAULT_PORT
    }
}

/// Resolves the name of an interface to the address to bind: `all` is every
/// interface, `local` is the loopback interface, and anything else is taken
/// to be an address already.
pub fn interface(name: &str) -> (address: String)
    ensures
        address@ == interface_address(name@),
{
    if same_text(name, "all") {
        String::from_str("0.0.0.0")
    } else if same_text(name, "local") {
        String::from_str("127.0.0.1")
    } else {
        String::from_str(name)
    }
}

/// The port that the environment names, or the default where it names none.
/// `env` is the value of the variable, empty where it is not set.
pub fn get_api_port(env: &str) -> (chosen: u16)
    ensures
        chosen == chosen_port(None, env@),
{
    match parse_u16(env) {
        Some(given) => given,
        None => DEFAULT_PORT,
    }
}

/// Chooses the port to listen on from the command line's value, if there is
/// one, and the environment's, empty where it is not set.
pub fn port(flag: Option<&str>, env: &str) -> (chosen: u16)
    ensures
        chosen == chosen_port(
            match flag {
                Some(f) => Some(f@),
                None => None,
            },
            env@,
        ),
{
    match flag {
        Some(f) => match parse_u16(f) {
            Some(given) => given,
            None => get_api_port(env),
        },
        None => get_api_port(env),
    }
}

/// Reads the time, in seconds, for which film counts are kept. `None` where
/// the text is not a number of seconds.
pub fn expire(flag: &str) -> (seconds: Option<u64>)
    ensures
        seconds == decimal_u64(flag@),
{
    parse_u64(flag)
}

/// What the service starts with.
pub struct Settings {
    /// The port to listen on.
    pub port: u16,
    /// The address to bind.
    pub interface: String,
    /// The directories of the data and of the store.
    pub dirs: Directories,
    /// The time, in seconds, for which a film count is kept.
    pub expire: u64,
    /// The pattern that selects what is logged.
    pub log: String,
}

/// The time for which film counts are kept, where the text names one that
/// the cache can keep.
pub open spec fn chosen_expire(flag: Seq<char>) -> Option<u64> {
    match decimal_u64(flag) {
        Some(seconds) => if seconds <= MAX_EXPIRE {
            Some(seconds)
        } else {
            None
        },
        None => None,
    }
}

/// Puts together what the service starts with, from the values of the
/// command line (`port`, `interface`, `db`, `expire`, `log`), the port that
/// the environment names (`port_env`, empty where it names none) and the
/// default directories.
///
/// There are no settings where `expire` is not a number of seconds, or is
/// more than the cache can keep. Otherwise the port is chosen as `port`
/// does, the interface is resolved as `interface` does, the store is where
/// `db` puts it, if it says so, and nothing is logged by pattern where
/// `log` is absent.
pub fn settings(
    port_flag: Option<&str>,
    port_env: &str,
    interface_flag: &str,
    db: Option<String>,
    expire_flag: &str,
    log: Option<&str>,
    dirs: Directories,
) -> (chosen: Option<Settings>)
    ensures
        chosen is Some <==> chosen_expire(expire_flag@) is Some,
        chosen matches Some(s) ==> {
            &&& Some(s.expire) == chosen_expire(expire_flag@)
            &&& s.port == chosen_port(
                match port_flag {
                    Some(f) => Some(f@),
                    None => None,
                },
                port_env@,
            )
            &&& s.interface@ == interface_address(interface_flag@)
            &&& s.dirs.base == dirs.base
            &&& s.dirs.db == match db {
                Some(path) => path,
                None => dirs.db,
            }
            &&& s.log@ == match log {
                Some(pattern) => pattern@,
                None => Seq::<char>::empty(),
            }
        },
{
    let seconds = match expire(expire_flag) {
        Some(seconds) => seconds,
        None => {
            return None;
        },
    };
    if seconds > MAX_EXPIRE {
        return None;
    }
    Some(
        Settings {
            port: port(port_flag, port_env),
            interface: interface(interface_flag),
            dirs: dirs.with_db(db),
            expire: seconds,
            log: match log {
                Some(pattern) => String::from_str(pattern),
                None => String::new(),
            },
        },
    )
}

} // verus!
