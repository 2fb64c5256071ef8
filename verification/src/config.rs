//! Pool configuration: resolving the endpoint connection string and the
//! maximum-connection-count value into a validated configuration, together
//! with the fixed pool policy constants.
//!
//! The application reads the raw environment values; this module decides
//! what they mean. A missing count falls back to a default; a present one
//! must parse as a positive `u32`.

use vstd::prelude::*;
use crate::errors::ConfigError;

verus! {

/// Maximum connections used when no count is configured.
pub const DEFAULT_MAX_CONNECTIONS: u32 = 10;

/// Fixed pool policy: minimum number of connections kept open.
pub const MIN_CONNECTIONS: u32 = 1;

/// Fixed pool policy: seconds to wait for a connection before acquisition
/// fails.
pub const ACQUIRE_TIMEOUT_SECS: u64 = 5;

/// Fixed pool policy: seconds an idle connection is kept before recycling.
pub const IDLE_TIMEOUT_SECS: u64 = 300;

/// Fixed pool policy: seconds a connection may live before replacement.
pub const MAX_LIFETIME_SECS: u64 = 1800;

/// A raw environment value as the application found it.
#[derive(Debug)]
pub enum EnvValue {
    /// The variable was set to these bytes.
    Present(Vec<u8>),
    /// The variable was not set.
    Absent,
    /// The variable was set but its value could not be read as text.
    Unreadable,
}

/// True of a byte that is an ASCII decimal digit.
pub open spec fn is_ascii_digit(b: u8) -> bool {
    48 <= b <= 57
}

/// The numeric value of a sequence of ASCII decimal digits.
pub open spec fn digits_value(s: Seq<u8>) -> nat
    decreases s.len(),
{
    if s.len() == 0 {
        0
    } else {
        (digits_value(s.drop_last()) * 10 + (s.last() - 48)) as nat
    }
}

/// The digits of a numeral, with one optional leading plus sign removed.
pub open spec fn digits_of(s: Seq<u8>) -> Seq<u8> {
    if s.len() > 0 && s[0] == 43 {
        s.drop_first()
    } else {
        s
    }
}

/// True of the byte sequences that denote a `u32`: an optional plus sign,
/// then one or more ASCII decimal digits, with a value at most `u32::MAX`.
pub open spec fn is_u32_numeral(s: Seq<u8>) -> bool {
    &&& digits_of(s).len() > 0
    &&& forall|i: int| 0 <= i < digits_of(s).len() ==> is_ascii_digit(digits_of(s)[i])
    &&& digits_value(digits_of(s)) <= u32::MAX
}

/// The value a `u32` numeral denotes.
pub open spec fn u32_numeral_value(s: Seq<u8>) -> nat {
    digits_value(digits_of(s))
}

/// Appending digits never shrinks the value a digit sequence denotes.
proof fn lemma_digits_value_prefix_le(s: Seq<u8>, n: int)
    requires
        0 <= n <= s.len(),
        forall|i: int| 0 <= i < s.len() ==> is_ascii_digit(s[i]),
    ensures
        digits_value(s.take(n)) <= digits_value(s),
    decreases s.len() - n,
{
    if n < s.len() {
        lemma_digits_value_prefix_le(s, n + 1);
        let t = s.take(n + 1);
        assert(t.drop_last() =~= s.take(n));
        assert(is_ascii_digit(s[n]));
        assert(digits_value(t) == digits_value(s.take(n)) * 10 + (s[n] - 48));
        assert(digits_value(s.take(n)) * 10 >= digits_value(s.take(n))) by (nonlinear_arith);
    } else {
        assert(s.take(n) =~= s);
    }
}

/// Parses a byte string as a `u32`, accepting exactly the `u32` numerals:
/// an optional leading plus sign followed by one or more decimal digits
/// whose value fits in a `u32`.
pub fn parse_u32(s: &Vec<u8>) -> (r: Option<u32>)
    ensures
        is_u32_numeral(s@) ==> r == Some((u32_numeral_value(s@) as u32)),
        !is_u32_numeral(s@) ==> r is None,
{
    let start: usize = if s.len() > 0 && s[0] == 43 {
        1
    } else {
        0
    };
    proof {
        assert(digits_of(s@) =~= s@.subrange(start as int, s@.len() as int));
    }
    if s.len() == start {
        return None;
    }
    let ghost digits = digits_of(s@);
    let mut acc: u32 = 0;
    let mut i: usize = start;
    while i < s.len()
        invariant
            start <= i <= s.len(),
            digits == digits_of(s@),
            digits =~= s@.subrange(start as int, s@.len() as int),
            forall|j: int| start <= j < i ==> is_ascii_digit(s@[j]),
            acc == digits_value(digits.take(i - start)),
        decreases s.len() - i,
    {
        let b = s[i];
        if b < 48 || b > 57 {
            proof {
                assert(digits_of(s@)[i - start] == s@[i as int]);
                assert(!is_ascii_digit(digits_of(s@)[i - start]));
            }
            return None;
        }
        let d: u32 = (b - 48) as u32;
        if acc > (u32::MAX - d) / 10 {
            proof {
                if is_u32_numeral(s@) {
                    assert(forall|j: int|
                        0 <= j < digits.len() ==> is_ascii_digit(digits_of(s@)[j]));
                    assert(forall|j: int| 0 <= j < digits.len() ==> is_ascii_digit(digits[j]));
                    let k = i - start + 1;
                    assert(digits.take(k).drop_last() =~= digits.take(k - 1));
                    assert(digits.take(k).last() == s@[i as int]);
                    assert(digits_value(digits.take(k)) == acc * 10 + d);
                    assert(acc * 10 + d > u32::MAX) by (nonlinear_arith)
                        requires
                            acc > (u32::MAX - d) / 10,
                            d <= 9,
                    ;
                    lemma_digits_value_prefix_le(digits, k);
                }
            }
            return None;
        }
        proof {
            let k = i - start + 1;
            assert(digits.take(k).drop_last() =~= digits.take(k - 1));
            assert(digits.take(k).last() == s@[i as int]);
            assert(acc * 10 + d <= u32::MAX) by (nonlinear_arith)
                requires
                    acc <= (u32::MAX - d) / 10,
                    d <= 9,
            ;
        }
        acc = acc * 10 + d;
        i = i + 1;
    }
    proof {
        assert(digits.take(s@.len() - start) =~= digits);
    }
    Some(acc)
}

/// The maximum-connection count an environment value resolves to: the
/// default when absent, otherwise the `u32` numeral it holds.
pub open spec fn spec_resolve_max_connections(v: EnvValue) -> Result<u32, ConfigError> {
    match v {
        EnvValue::Absent => Ok(DEFAULT_MAX_CONNECTIONS),
        EnvValue::Unreadable => Err(ConfigError::UnreadableMaxConnections),
        EnvValue::Present(bytes) => if is_u32_numeral(bytes@) {
            Ok(u32_numeral_value(bytes@) as u32)
        } else {
            Err(ConfigError::InvalidMaxConnections)
        },
    }
}

/// Resolves the raw maximum-connection-count environment value: absent
/// means the default, a present value must be a `u32` numeral, an
/// unreadable one is an error. Positivity is checked by the caller that
/// assembles the configuration, as is the default's.
pub fn resolve_max_connections(v: &EnvValue) -> (r: Result<u32, ConfigError>)
    ensures
        r == spec_resolve_max_connections(*v),
{
    match v {
        EnvValue::Absent => Ok(DEFAULT_MAX_CONNECTIONS),
        EnvValue::Unreadable => Err(ConfigError::UnreadableMaxConnections),
        EnvValue::Present(bytes) => match parse_u32(bytes) {
            Some(n) => Ok(n),
            None => Err(ConfigError::InvalidMaxConnections),
        },
    }
}

/// A validated pool configuration: the endpoint connection string, the
/// maximum number of connections, and the fixed pool policy.
#[derive(Debug, PartialEq, Eq)]
pub struct PoolConfig {
    /// The endpoint connection string, as configured.
    pub database_url: Vec<u8>,
    /// Upper bound on concurrently open connections; always positive.
    pub max_connections: u32,
    /// Lower bound on open connections kept ready.
    pub min_connections: u32,
    /// Seconds to wait for a connection before acquisition fails.
    pub acquire_timeout_secs: u64,
    /// Seconds an idle connection is kept before recycling.
    pub idle_timeout_secs: u64,
    /// Seconds a connection may live before replacement.
    pub max_lifetime_secs: u64,
    /// Whether a connection's liveness is checked before it is handed out.
    pub test_before_acquire: bool,
}

impl PoolConfig {
    /// Well-formedness: a positive connection bound and the fixed policy.
    pub open spec fn wf(self) -> bool {
        &&& self.max_connections >= 1
        &&& self.min_connections == MIN_CONNECTIONS
        &&& self.acquire_timeout_secs == ACQUIRE_TIMEOUT_SECS
        &&& self.idle_timeout_secs == IDLE_TIMEOUT_SECS
        &&& self.max_lifetime_secs == MAX_LIFETIME_SECS
        &&& self.test_before_acquire
    }
}

/// The configuration that raw environment values resolve to, or the first
/// configuration error: a missing connection string, then an unresolvable
/// count, then a zero count.
pub open spec fn spec_build_pool_config(
    url: Option<Vec<u8>>,
    max_raw: EnvValue,
) -> Result<PoolConfig, ConfigError> {
    match url {
        None => Err(ConfigError::MissingDatabaseUrl),
        Some(u) => match spec_resolve_max_connections(max_raw) {
            Err(e) => Err(e),
            Ok(n) => if n == 0 {
                Err(ConfigError::ZeroMaxConnections)
            } else {
                Ok(
                    PoolConfig {
                        database_url: u,
                        max_connections: n,
                        min_connections: MIN_CONNECTIONS,
                        acquire_timeout_secs: ACQUIRE_TIMEOUT_SECS,
                        idle_timeout_secs: IDLE_TIMEOUT_SECS,
                        max_lifetime_secs: MAX_LIFETIME_SECS,
                        test_before_acquire: true,
                    },
                )
            },
        },
    }
}

/// Builds the validated pool configuration from the raw environment
/// values: the endpoint connection string (required) and the
/// maximum-connection count (optional, defaulting, must be positive).
pub fn build_pool_config(url: Option<Vec<u8>>, max_raw: &EnvValue) -> (r: Result<
    PoolConfig,
    ConfigError,
>)
    ensures
        r == spec_build_pool_config(url, *max_raw),
        r matches Ok(c) ==> c.wf(),
{
    let u = match url {
        None => {
            return Err(ConfigError::MissingDatabaseUrl);
        },
        Some(u) => u,
    };
    let n = match resolve_max_connections(max_raw) {
        Err(e) => {
            return Err(e);
        },
        Ok(n) => n,
    };
    if n == 0 {
        return Err(ConfigError::ZeroMaxConnections);
    }
    Ok(
        PoolConfig {
            database_url: u,
            max_connections: n,
            min_connections: MIN_CONNECTIONS,
            acquire_timeout_secs: ACQUIRE_TIMEOUT_SECS,
            idle_timeout_secs: IDLE_TIMEOUT_SECS,
            max_lifetime_secs: MAX_LIFETIME_SECS,
            test_before_acquire: true,
        },
    )
}

} // verus!
