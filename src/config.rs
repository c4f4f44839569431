//! Configuration from named settings (the process environment, in practice),
//! with defaults for every optional setting.

use vstd::prelude::*;
use vstd::string::StrSliceExecFns;

use crate::retry::RetryConfig;

verus! {

/// Settings of the ingestion service. Durations are in whole seconds.
#[derive(Clone, Debug, PartialEq)]
pub struct Config {
    pub database_url: String,
    pub database_max_connections: u32,
    pub database_acquire_timeout: u64,
    pub pure_api_key: String,
    pub api_base_url: String,
    pub product_sync_interval: u64,
    pub transaction_sync_interval: u64,
    pub rate_limit_delay: u64,
    pub max_retries: u32,
    pub initial_backoff: u64,
    pub product_batch_size: usize,
    pub transaction_insert_batch_size: usize,
}

/// A required setting that is missing.
#[derive(Clone, Copy, Debug, PartialEq, Eq, Structural)]
pub enum ConfigError {
    MissingDatabaseUrl,
    MissingApiKey,
}

/// Whether `c` is an ASCII decimal digit.
pub open spec fn is_digit(c: char) -> bool {
    '0' <= c <= '9'
}

/// The number that a string of decimal digits writes.
pub open spec fn digits_value(d: Seq<char>) -> nat
    decreases d.len(),
{
    if d.len() == 0 {
        0
    } else {
        digits_value(d.drop_last()) * 10 + ((d.last() as u32) - ('0' as u32)) as nat
    }
}

/// The digits of a number's text: the text without one leading `+`.
pub open spec fn unsigned_digits(s: Seq<char>) -> Seq<char> {
    if s.len() > 0 && s[0] == '+' { s.drop_first() } else { s }
}

/// The unsigned number a text writes: an optional `+`, then one or more
/// decimal digits and nothing else.
pub open spec fn parsed_unsigned(s: Seq<char>) -> Option<nat> {
    let d = unsigned_digits(s);
    if d.len() > 0 && forall|i: int| 0 <= i < d.len() ==> is_digit(#[trigger] d[i]) {
        Some(digits_value(d))
    } else {
        None
    }
}

/// The number a text writes, where it is at most `max`.
pub open spec fn parsed_at_most(s: Seq<char>, max: nat) -> Option<nat> {
    match parsed_unsigned(s) {
        Some(v) => if v <= max { Some(v) } else { None },
        None => None,
    }
}

/// Reads an unsigned number no larger than `max`: an optional `+` and decimal
/// digits, as Rust's integer parsing takes them.
pub fn parse_unsigned(s: &str, max: u64) -> (r: Option<u64>)
    ensures
        match r {
            Some(v) => parsed_at_most(s@, max as nat) == Some(v as nat),
            None => parsed_at_most(s@, max as nat) is None,
        },
{
    let n = s.unicode_len();
    let mut start: usize = 0;
    if n > 0 && s.get_char(0) == '+' {
        start = 1;
    }
    let ghost d = unsigned_digits(s@);
    assert(d =~= s@.subrange(start as int, n as int));
    if start >= n {
        return None;
    }
    let mut value: u64 = 0;
    let mut over = false;
    let mut i: usize = start;
    while i < n
        invariant
            start <= i <= n,
            n == s@.len(),
            d == s@.subrange(start as int, n as int),
            d == unsigned_digits(s@),
            forall|k: int| start <= k < i ==> is_digit(#[trigger] s@[k]),
            !over ==> value as nat == digits_value(s@.subrange(start as int, i as int)) && value <= max,
            over ==> digits_value(s@.subrange(start as int, i as int)) > max,
        decreases n - i,
    {
        let c = s.get_char(i);
        if !('0' <= c && c <= '9') {
            assert(d[i - start] == c);
            assert(!is_digit(d[i - start]));
            return None;
        }
        let ghost prev = s@.subrange(start as int, i as int);
        assert(s@.subrange(start as int, i + 1).drop_last() =~= prev);
        let digit = ((c as u32) - ('0' as u32)) as u64;
        if !over {
            let next = (value as u128) * 10 + (digit as u128);
            if next > max as u128 {
                over = true;
            } else {
                value = next as u64;
            }
        }
        i += 1;
    }
    assert(s@.subrange(start as int, n as int) == d);
    assert forall|k: int| 0 <= k < d.len() implies is_digit(#[trigger] d[k]) by {
        assert(d[k] == s@[start + k]);
    }
    if over {
        None
    } else {
        Some(value)
    }
}

/// The value of the first setting named `name`.
pub open spec fn setting(vars: Seq<(String, String)>, name: Seq<char>) -> Option<Seq<char>>
    decreases vars.len(),
{
    if vars.len() == 0 {
        None
    } else if vars[0].0@ == name {
        Some(vars[0].1@)
    } else {
        setting(vars.drop_first(), name)
    }
}

/// A numeric setting: its value where it is set to a number no larger than
/// `max`, else `default`.
pub open spec fn numeric_setting(vars: Seq<(String, String)>, name: Seq<char>, default: nat, max: nat) -> nat {
    match setting(vars, name) {
        Some(v) => match parsed_at_most(v, max) {
            Some(n) => n,
            None => default,
        },
        None => default,
    }
}

fn find_setting<'a>(vars: &'a [(String, String)], name: &str) -> (r: Option<&'a String>)
    ensures
        match r {
            Some(v) => setting(vars@, name@) == Some(v@),
            None => setting(vars@, name@) is None,
        },
{
    let key = name.to_owned();
    let mut i: usize = 0;
    assert(vars@.subrange(0, vars@.len() as int) =~= vars@);
    while i < vars.len()
        invariant
            i <= vars@.len(),
            key@ == name@,
            setting(vars@, name@) == setting(vars@.subrange(i as int, vars@.len() as int), name@),
        decreases vars@.len() - i,
    {
        let ghost rest = vars@.subrange(i as int, vars@.len() as int);
        assert(rest[0] == vars@[i as int]);
        if vars[i].0 == key {
            return Some(&vars[i].1);
        }
        assert(rest.drop_first() =~= vars@.subrange(i + 1, vars@.len() as int));
        i += 1;
    }
    None
}

fn numeric(vars: &[(String, String)], name: &str, default: u64, max: u64) -> (r: u64)
    requires
        default <= max,
    ensures
        r as nat == numeric_setting(vars@, name@, default as nat, max as nat),
        r <= max,
{
    match find_setting(vars, name) {
        Some(v) => match parse_unsigned(v.as_str(), max) {
            Some(n) => n,
            None => default,
        },
        None => default,
    }
}

/// Default address of the provider's API.
pub const DEFAULT_API_BASE_URL: &'static str = "https://api.collectpure.com";

impl Config {
    /// Builds the configuration from named settings. `DATABASE_URL` and
    /// `PURE_API_KEY` are required; every other setting falls back to its
    /// default where it is missing or is not a number in its type's range.
    pub fn from_vars(vars: &[(String, String)]) -> (r: Result<Config, ConfigError>)
        ensures
            setting(vars@, "DATABASE_URL"@) is None ==> r == Err::<Config, ConfigError>(ConfigError::MissingDatabaseUrl),
            setting(vars@, "DATABASE_URL"@) is Some && setting(vars@, "PURE_API_KEY"@) is None
                ==> r == Err::<Config, ConfigError>(ConfigError::MissingApiKey),
            r is Ok <==> setting(vars@, "DATABASE_URL"@) is Some && setting(vars@, "PURE_API_KEY"@) is Some,
            r matches Ok(c) ==> {
                &&& setting(vars@, "DATABASE_URL"@) == Some(c.database_url@)
                &&& setting(vars@, "PURE_API_KEY"@) == Some(c.pure_api_key@)
                &&& c.api_base_url@ == match setting(vars@, "API_BASE_URL"@) {
                    Some(v) => v,
                    None => DEFAULT_API_BASE_URL@,
                }
                &&& c.database_max_connections as nat == numeric_setting(vars@, "DATABASE_MAX_CONNECTIONS"@, 5, u32::MAX as nat)
                &&& c.database_acquire_timeout as nat == numeric_setting(vars@, "DATABASE_ACQUIRE_TIMEOUT_SECS"@, 3, u64::MAX as nat)
                &&& c.product_sync_interval as nat == numeric_setting(vars@, "PRODUCT_SYNC_INTERVAL_SECS"@, 3600, u64::MAX as nat)
                &&& c.transaction_sync_interval as nat == numeric_setting(vars@, "TRANSACTION_SYNC_INTERVAL_SECS"@, 21600, u64::MAX as nat)
                &&& c.rate_limit_delay as nat == numeric_setting(vars@, "RATE_LIMIT_DELAY_SECS"@, 6, u64::MAX as nat)
                &&& c.max_retries as nat == numeric_setting(vars@, "MAX_RETRIES"@, 10, u32::MAX as nat)
                &&& c.initial_backoff as nat == numeric_setting(vars@, "INITIAL_BACKOFF_SECS"@, 6, u64::MAX as nat)
                &&& c.product_batch_size as nat == numeric_setting(vars@, "PRODUCT_BATCH_SIZE"@, 30, usize::MAX as nat)
                &&& c.transaction_insert_batch_size as nat == numeric_setting(vars@, "TRANSACTION_INSERT_BATCH_SIZE"@, 1000, usize::MAX as nat)
            },
    {
        let database_url = match find_setting(vars, "DATABASE_URL") {
            Some(v) => v.clone(),
            None => return Err(ConfigError::MissingDatabaseUrl),
        };
        let pure_api_key = match find_setting(vars, "PURE_API_KEY") {
            Some(v) => v.clone(),
            None => return Err(ConfigError::MissingApiKey),
        };
        let api_base_url = match find_setting(vars, "API_BASE_URL") {
            Some(v) => v.clone(),
            None => DEFAULT_API_BASE_URL.to_owned(),
        };
        let max_u32 = u32::MAX as u64;
        let max_usize = usize::MAX as u64;
        proof {
            assert(5 <= max_u32 && 10 <= max_u32);
            assert(30 <= max_usize && 1000 <= max_usize);
        }
        let database_max_connections = numeric(vars, "DATABASE_MAX_CONNECTIONS", 5, max_u32) as u32;
        let database_acquire_timeout = numeric(vars, "DATABASE_ACQUIRE_TIMEOUT_SECS", 3, u64::MAX);
        let product_sync_interval = numeric(vars, "PRODUCT_SYNC_INTERVAL_SECS", 3600, u64::MAX);
        let transaction_sync_interval = numeric(vars, "TRANSACTION_SYNC_INTERVAL_SECS", 21600, u64::MAX);
        let rate_limit_delay = numeric(vars, "RATE_LIMIT_DELAY_SECS", 6, u64::MAX);
        let max_retries = numeric(vars, "MAX_RETRIES", 10, max_u32) as u32;
        let initial_backoff = numeric(vars, "INITIAL_BACKOFF_SECS", 6, u64::MAX);
        let product_batch_size = numeric(vars, "PRODUCT_BATCH_SIZE", 30, max_usize) as usize;
        let transaction_insert_batch_size = numeric(vars, "TRANSACTION_INSERT_BATCH_SIZE", 1000, max_usize) as usize;
        Ok(Config {
            database_url,
            database_max_connections,
            database_acquire_timeout,
            pure_api_key,
            api_base_url,
            product_sync_interval,
            transaction_sync_interval,
            rate_limit_delay,
            max_retries,
            initial_backoff,
            product_batch_size,
            transaction_insert_batch_size,
        })
    }

    /// The retry policy of calls to the provider.
    pub fn retry_config(&self) -> (r: RetryConfig)
        ensures
            r.max_retries == self.max_retries,
            r.initial_backoff == self.initial_backoff,
            r.rate_limit_delay == self.rate_limit_delay,
    {
        RetryConfig {
            max_retries: self.max_retries,
            initial_backoff: self.initial_backoff,
            rate_limit_delay: self.rate_limit_delay,
        }
    }
}

} // verus!
