//! Startup configuration, validated from plain environment values.
//!
//! The process is configured by four named values. The validation here is
//! pure: the surrounding process reads the environment and hands the
//! values in as options, and a missing or malformed value yields a typed
//! error instead of a crash, in the order the values are checked.

use vstd::prelude::*;
use vstd::string::*;

verus! {

/// The poll interval assumed before any configuration is read, in whole
/// seconds.
pub const DEFAULT_FETCH_INTERVAL: u64 = 5;

/// The process configuration: where to fetch the status, where to notify,
/// how long to sleep between cycles, and the (currently uninterpreted)
/// language tag.
#[derive(Debug, Clone, PartialEq)]
pub struct Config {
    pub webhook_url: String,
    pub spaceapi_url: String,
    pub fetch_interval: u64,
    pub language: String,
}

/// Which required value was missing or malformed, named in the order the
/// values are checked.
#[derive(Debug, Clone, Copy, PartialEq, Eq, Structural)]
pub enum ConfigError {
    MissingWebhookUrl,
    MissingSpaceapiUrl,
    MissingFetchInterval,
    InvalidFetchInterval,
    MissingLanguage,
}

/// A decimal digit.
pub open spec fn is_digit(c: char) -> bool {
    '0' as u32 <= c as u32 && c as u32 <= '9' as u32
}

/// The value of one decimal digit.
pub open spec fn digit_value(c: char) -> nat
    recommends
        is_digit(c),
{
    (c as u32 - '0' as u32) as nat
}

/// Every character of `s` is a decimal digit.
pub open spec fn all_digits(s: Seq<char>) -> bool {
    forall|i: int| 0 <= i < s.len() ==> is_digit(#[trigger] s[i])
}

/// The number the decimal digits of `s` denote, most significant first.
pub open spec fn decimal_value(s: Seq<char>) -> nat
    decreases s.len(),
{
    if s.len() == 0 {
        0
    } else {
        decimal_value(s.drop_last()) * 10 + digit_value(s.last())
    }
}

/// A well-formed interval value: a non-empty string of decimal digits
/// denoting a number that fits in a `u64`.
pub open spec fn valid_interval(s: Seq<char>) -> bool {
    s.len() > 0 && all_digits(s) && decimal_value(s) <= u64::MAX
}

/// Dropping digits from the right never increases the denoted number.
proof fn lemma_decimal_prefix_le(s: Seq<char>, j: int)
    requires
        0 <= j <= s.len(),
    ensures
        decimal_value(s.subrange(0, j)) <= decimal_value(s),
    decreases s.len() - j,
{
    if j == s.len() {
        assert(s.subrange(0, j) =~= s);
    } else {
        assert(s.subrange(0, j + 1).drop_last() =~= s.subrange(0, j));
        lemma_decimal_prefix_le(s, j + 1);
    }
}

/// Reads a whole number of seconds: succeeds exactly on a non-empty
/// string of decimal digits whose value fits in a `u64`, and returns that
/// value.
pub fn parse_u64(s: &str) -> (r: Option<u64>)
    ensures
        r matches Some(n) ==> valid_interval(s@) && n == decimal_value(s@),
        r is None ==> !valid_interval(s@),
{
    let len = s.unicode_len();
    if len == 0 {
        return None;
    }
    let mut acc: u64 = 0;
    let mut i: usize = 0;
    while i < len
        invariant
            0 < len == s@.len(),
            i <= len,
            all_digits(s@.subrange(0, i as int)),
            acc == decimal_value(s@.subrange(0, i as int)),
        decreases len - i,
    {
        let c = s.get_char(i);
        let cu = c as u32;
        if cu < '0' as u32 || cu > '9' as u32 {
            assert(!is_digit(s@[i as int]));
            return None;
        }
        let d = (cu - '0' as u32) as u64;
        proof {
            assert(s@.subrange(0, i as int + 1).drop_last() =~= s@.subrange(0, i as int));
            assert(s@.subrange(0, i as int + 1).last() == s@[i as int]);
        }
        let acc10 = match acc.checked_mul(10) {
            Some(v) => v,
            None => {
                proof {
                    assert(decimal_value(s@.subrange(0, i as int + 1)) > u64::MAX);
                    lemma_decimal_prefix_le(s@, i as int + 1);
                }
                return None;
            },
        };
        let next = match acc10.checked_add(d) {
            Some(v) => v,
            None => {
                proof {
                    assert(decimal_value(s@.subrange(0, i as int + 1)) > u64::MAX);
                    lemma_decimal_prefix_le(s@, i as int + 1);
                }
                return None;
            },
        };
        acc = next;
        i = i + 1;
    }
    proof {
        assert(s@.subrange(0, len as int) =~= s@);
    }
    Some(acc)
}

impl Config {
    /// A configuration that has read nothing yet: empty addresses and the
    /// default poll interval.
    pub fn new() -> (r: Self)
        ensures
            r.webhook_url@ == Seq::<char>::empty(),
            r.spaceapi_url@ == Seq::<char>::empty(),
            r.fetch_interval == DEFAULT_FETCH_INTERVAL,
            r.language@ == Seq::<char>::empty(),
    {
        Config {
            webhook_url: String::new(),
            spaceapi_url: String::new(),
            fetch_interval: DEFAULT_FETCH_INTERVAL,
            language: String::new(),
        }
    }

    /// Validates the four environment values, in the order they are
    /// read: each missing value is reported by name, a non-numeric or
    /// oversized interval is rejected, and with all four present and
    /// well-formed the configuration carries them over unchanged.
    pub fn from_env_values(
        webhook_url: Option<String>,
        spaceapi_url: Option<String>,
        fetch_interval: Option<String>,
        language: Option<String>,
    ) -> (r: Result<Config, ConfigError>)
        ensures
            webhook_url is None ==> r == Err::<Config, ConfigError>(ConfigError::MissingWebhookUrl),
            webhook_url is Some && spaceapi_url is None ==> r == Err::<Config, ConfigError>(
                ConfigError::MissingSpaceapiUrl,
            ),
            webhook_url is Some && spaceapi_url is Some && fetch_interval is None ==> r == Err::<
                Config,
                ConfigError,
            >(ConfigError::MissingFetchInterval),
            webhook_url is Some && spaceapi_url is Some ==> (fetch_interval matches Some(f)
                && !valid_interval(f@) ==> r == Err::<Config, ConfigError>(
                ConfigError::InvalidFetchInterval,
            )),
            webhook_url is Some && spaceapi_url is Some && language is None ==> (fetch_interval
                matches Some(f) && valid_interval(f@) ==> r == Err::<Config, ConfigError>(
                ConfigError::MissingLanguage,
            )),
            webhook_url matches Some(w) ==> spaceapi_url matches Some(s) ==> language matches Some(
                l,
            ) ==> fetch_interval matches Some(f) ==> valid_interval(f@) ==> {
                &&& r matches Ok(c)
                &&& c.webhook_url@ == w@
                &&& c.spaceapi_url@ == s@
                &&& c.fetch_interval == decimal_value(f@)
                &&& c.language@ == l@
            },
    {
        let webhook_url = match webhook_url {
            Some(w) => w,
            None => {
                return Err(ConfigError::MissingWebhookUrl);
            },
        };
        let spaceapi_url = match spaceapi_url {
            Some(s) => s,
            None => {
                return Err(ConfigError::MissingSpaceapiUrl);
            },
        };
        let fetch_interval = match fetch_interval {
            Some(f) => f,
            None => {
                return Err(ConfigError::MissingFetchInterval);
            },
        };
        let fetch_interval = match parse_u64(fetch_interval.as_str()) {
            Some(n) => n,
            None => {
                return Err(ConfigError::InvalidFetchInterval);
            },
        };
        let language = match language {
            Some(l) => l,
            None => {
                return Err(ConfigError::MissingLanguage);
            },
        };
        Ok(Config { webhook_url, spaceapi_url, fetch_interval, language })
    }
}

} // verus!
