//! The settings of the service, read from the environment's text, with
//! their defaults.

use crate::text::{decimal, decimal_text, parse_unsigned, parse_unsigned_text};
use vstd::prelude::*;
use vstd::string::StringExecFns;

verus! {

/// The port when `PORT` gives none.
pub const DEFAULT_PORT: u16 = 8273;

/// Minutes for which a level found not sent is not asked about again, when
/// `NOT_SENT_EXPIRATION` gives none.
pub const DEFAULT_NOT_SENT_EXPIRATION: u32 = 5;

/// Minutes for which clients may cache a "sent" answer, when `SENT_CACHE`
/// gives none.
pub const DEFAULT_SENT_CACHE: u32 = 60;

/// Minutes for which clients may cache a "not sent" answer, when
/// `NOT_SENT_CACHE` gives none.
pub const DEFAULT_NOT_SENT_CACHE: u32 = 5;

/// The upstream service's address for levels, when `ENDPOINT_URL` gives none.
pub const DEFAULT_ENDPOINT_URL: &'static str = "https://api.senddb.dev/api/v1/level/";

/// The settings of the service.
#[derive(Debug)]
pub struct Config {
    pub port: u16,
    pub not_sent_expiration: u32,
    pub sent_cache: u32,
    pub not_sent_cache: u32,
    pub endpoint_url: String,
}

/// A numeric setting: the value that its text parses to as an unsigned
/// integer no greater than `max`, else `default` (also where it is unset).
pub open spec fn setting_value(text: Option<String>, max: nat, default: nat) -> nat {
    match text {
        Some(t) => match parse_unsigned(t@, max) {
            Some(n) => n,
            None => default,
        },
        None => default,
    }
}

/// Decides `setting_value`.
pub fn setting_or(text: &Option<String>, max: u64, default: u64) -> (value: u64)
    requires
        max <= u32::MAX,
    ensures
        value == setting_value(*text, max as nat, default as nat),
{
    match text {
        Some(t) => match parse_unsigned_text(t.as_str(), max) {
            Some(n) => n,
            None => default,
        },
        None => default,
    }
}

impl Config {
    /// The settings from the text of `PORT`, `NOT_SENT_EXPIRATION`,
    /// `SENT_CACHE`, `NOT_SENT_CACHE` and `ENDPOINT_URL` (`None`: unset):
    /// each number as `setting_value` reads it, the address as it is.
    pub fn from_env(
        port: Option<String>,
        not_sent_expiration: Option<String>,
        sent_cache: Option<String>,
        not_sent_cache: Option<String>,
        endpoint_url: Option<String>,
    ) -> (config: Config)
        ensures
            config.port == setting_value(port, u16::MAX as nat, DEFAULT_PORT as nat),
            config.not_sent_expiration == setting_value(
                not_sent_expiration,
                u32::MAX as nat,
                DEFAULT_NOT_SENT_EXPIRATION as nat,
            ),
            config.sent_cache == setting_value(sent_cache, u32::MAX as nat, DEFAULT_SENT_CACHE as nat),
            config.not_sent_cache == setting_value(
                not_sent_cache,
                u32::MAX as nat,
                DEFAULT_NOT_SENT_CACHE as nat,
            ),
            config.endpoint_url@ == (match endpoint_url {
                Some(u) => u@,
                None => DEFAULT_ENDPOINT_URL@,
            }),
    {
        let port_value = setting_or(&port, 0xffff, DEFAULT_PORT as u64);
        let expiration = setting_or(&not_sent_expiration, 0xffff_ffff, DEFAULT_NOT_SENT_EXPIRATION as u64);
        let sent = setting_or(&sent_cache, 0xffff_ffff, DEFAULT_SENT_CACHE as u64);
        let not_sent = setting_or(&not_sent_cache, 0xffff_ffff, DEFAULT_NOT_SENT_CACHE as u64);
        let url = match endpoint_url {
            Some(u) => u,
            None => String::from_str(DEFAULT_ENDPOINT_URL),
        };
        Config {
            port: port_value as u16,
            not_sent_expiration: expiration as u32,
            sent_cache: sent as u32,
            not_sent_cache: not_sent as u32,
            endpoint_url: url,
        }
    }
}

/// The `Cache-Control` value that lets clients keep an answer for
/// `minutes` minutes.
pub fn cache_control(minutes: u32) -> (value: String)
    requires
        minutes * 60 <= u32::MAX,
    ensures
        value@ == "public, max-age="@ + decimal((minutes * 60) as nat),
{
    let seconds = decimal_text(minutes * 60);
    String::from_str("public, max-age=").concat(seconds.as_str())
}

} // verus!
