//! Configuration rules: defaults for host and port, a decimal port that
//! must fit an unsigned 16-bit integer, and two values without which the
//! process must not start.

use vstd::prelude::*;
use vstd::string::StrSliceExecFns;

verus! {

/// The settings the service starts with.
#[derive(Debug)]
pub struct Config {
    pub host: String,
    pub port: u16,
    pub mongodb_uri: String,
    pub mongodb_db: String,
}

/// What keeps a configuration from being built, checked in this order: a
/// port that is not a decimal unsigned 16-bit number, then a missing store
/// address, then a missing database name.
#[derive(Debug)]
pub enum ConfigError {
    BadPort,
    MissingUri,
    MissingDb,
}

/// A decimal digit.
pub open spec fn is_digit(c: char) -> bool {
    '0' <= c && c <= '9'
}

/// The number a digit string denotes, most significant digit first.
pub open spec fn digits_val(s: Seq<char>) -> int
    decreases s.len(),
{
    if s.len() == 0 {
        0
    } else {
        digits_val(s.drop_last()) * 10 + (s.last() as int - '0' as int)
    }
}

pub open spec fn all_digits(s: Seq<char>) -> bool {
    forall|i: int| 0 <= i < s.len() ==> is_digit(#[trigger] s[i])
}

/// A valid port: at least one character, digits only, value at most 65535.
pub open spec fn is_port_str(s: Seq<char>) -> bool {
    &&& s.len() >= 1
    &&& all_digits(s)
    &&& digits_val(s) <= 65535
}

proof fn lemma_digits_val_nonneg(s: Seq<char>)
    requires
        all_digits(s),
    ensures
        digits_val(s) >= 0,
    decreases s.len(),
{
    if s.len() > 0 {
        lemma_digits_val_nonneg(s.drop_last());
    }
}

/// The value of a digit string is no less than the value of any of its
/// prefixes.
proof fn lemma_digits_val_prefix(s: Seq<char>, i: int)
    requires
        all_digits(s),
        0 <= i <= s.len(),
    ensures
        digits_val(s.subrange(0, i)) <= digits_val(s),
    decreases s.len() - i,
{
    if i == s.len() {
        assert(s.subrange(0, i) =~= s);
    } else {
        lemma_digits_val_prefix(s, i + 1);
        let p = s.subrange(0, i + 1);
        assert(p.drop_last() =~= s.subrange(0, i));
        assert(all_digits(s.subrange(0, i)));
        lemma_digits_val_nonneg(s.subrange(0, i));
        assert(digits_val(s.subrange(0, i)) <= digits_val(p));
    }
}

/// Parse a decimal port number. Returns the value exactly when the text is
/// a non-empty string of digits denoting a number that fits 16 bits.
pub fn parse_port(s: &str) -> (r: Option<u16>)
    ensures
        match r {
            Some(v) => is_port_str(s@) && v == digits_val(s@),
            None => !is_port_str(s@),
        },
{
    let n = s.unicode_len();
    if n == 0 {
        return None;
    }
    let mut acc: u32 = 0;
    let mut i: usize = 0;
    while i < n
        invariant
            n == s@.len(),
            0 < n,
            i <= n,
            all_digits(s@.subrange(0, i as int)),
            acc == digits_val(s@.subrange(0, i as int)),
            acc <= 65535,
        decreases n - i,
    {
        let c = s.get_char(i);
        let d: u32 = c as u32;
        if d < 48 || d > 57 {
            assert(!is_digit(s@[i as int]));
            return None;
        }
        proof {
            assert(s@.subrange(0, i as int + 1).drop_last() =~= s@.subrange(0, i as int));
            assert(s@.subrange(0, i as int + 1).last() == s@[i as int]);
        }
        let next: u32 = acc * 10 + (d - 48);
        if next > 65535 {
            proof {
                assert(digits_val(s@.subrange(0, i as int + 1)) > 65535);
                if all_digits(s@) {
                    lemma_digits_val_prefix(s@, i as int + 1);
                }
            }
            return None;
        }
        acc = next;
        i = i + 1;
    }
    proof {
        assert(s@.subrange(0, n as int) =~= s@);
    }
    Some(acc as u16)
}

impl Config {
    /// Build the configuration from the raw environment values, each absent
    /// or present as text. Host defaults to "127.0.0.1" and port to 3000; a
    /// present port must be a decimal unsigned 16-bit number; the store
    /// address and the database name are required.
    pub fn from_values(
        host: Option<String>,
        port: Option<String>,
        uri: Option<String>,
        db: Option<String>,
    ) -> (r: Result<Config, ConfigError>)
        ensures
            match r {
                Ok(c) => {
                    &&& match port {
                        Some(p) => is_port_str(p@) && c.port == digits_val(p@),
                        None => c.port == 3000,
                    }
                    &&& match host {
                        Some(h) => c.host@ == h@,
                        None => c.host@ == "127.0.0.1"@,
                    }
                    &&& (uri matches Some(u) && c.mongodb_uri@ == u@)
                    &&& (db matches Some(d) && c.mongodb_db@ == d@)
                },
                Err(e) => match e {
                    ConfigError::BadPort => port matches Some(p) && !is_port_str(p@),
                    ConfigError::MissingUri => (match port {
                        Some(p) => is_port_str(p@),
                        None => true,
                    }) && uri is None,
                    ConfigError::MissingDb => (match port {
                        Some(p) => is_port_str(p@),
                        None => true,
                    }) && uri is Some && db is None,
                },
            },
    {
        let port_value: u16 = match &port {
            Some(p) => match parse_port(p.as_str()) {
                Some(v) => v,
                None => {
                    return Err(ConfigError::BadPort);
                },
            },
            None => 3000,
        };
        let uri_value = match uri {
            Some(u) => u,
            None => {
                return Err(ConfigError::MissingUri);
            },
        };
        let db_value = match db {
            Some(d) => d,
            None => {
                return Err(ConfigError::MissingDb);
            },
        };
        let host_value = match host {
            Some(h) => h,
            None => "127.0.0.1".to_owned(),
        };
        Ok(Config { host: host_value, port: port_value, mongodb_uri: uri_value, mongodb_db: db_value })
    }
}

} // verus!
