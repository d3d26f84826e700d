//! The service configuration, assembled from the raw environment
//! values: numbers fall back to their defaults when missing or
//! unparsable, and the origin allow-list is split on commas with blank
//! entries dropped.

use vstd::prelude::*;
use crate::numeric::{digits_value, parses_as_u64, parse_u64};
use crate::textutil::{str_trim, trim_of};

verus! {

/// The service configuration.
#[derive(Clone, Debug)]
pub struct Config {
    pub database_url: String,
    pub jwt_secret: String,
    pub jwt_expiration: i64,
    pub port: u16,
    pub minio_endpoint: String,
    pub minio_access_key: String,
    pub minio_secret_key: String,
    pub minio_bucket: String,
    pub cookie_domain: Option<String>,
    pub allowed_origins: Vec<String>,
    pub database_max_connections: u32,
}

/// The default token lifetime, in seconds.
pub const DEFAULT_JWT_EXPIRATION: i64 = 3600;

/// The default listening port.
pub const DEFAULT_PORT: u16 = 8000;

/// The default size of the database connection pool.
pub const DEFAULT_MAX_CONNECTIONS: u32 = 5;

/// Resolve the token lifetime: the parsed value of the raw setting, or
/// 3600 when the setting is missing or does not parse.
pub fn jwt_expiration_setting(raw: Option<&str>) -> (r: i64)
    ensures
        (match raw {
            Some(s) => if parses_as_u64(s@) && digits_value(s@) <= i64::MAX {
                r == digits_value(s@)
            } else {
                r == DEFAULT_JWT_EXPIRATION
            },
            None => r == DEFAULT_JWT_EXPIRATION,
        }),
{
    match raw {
        Some(s) => match parse_u64(s) {
            Some(v) => if v <= 9_223_372_036_854_775_807u64 {
                v as i64
            } else {
                DEFAULT_JWT_EXPIRATION
            },
            None => DEFAULT_JWT_EXPIRATION,
        },
        None => DEFAULT_JWT_EXPIRATION,
    }
}

/// Resolve the port: the parsed value of the raw setting, or 8000 when
/// the setting is missing, does not parse, or does not fit a u16.
pub fn port_setting(raw: Option<&str>) -> (r: u16)
    ensures
        (match raw {
            Some(s) => if parses_as_u64(s@) && digits_value(s@) <= u16::MAX {
                r == digits_value(s@)
            } else {
                r == DEFAULT_PORT
            },
            None => r == DEFAULT_PORT,
        }),
{
    match raw {
        Some(s) => match parse_u64(s) {
            Some(v) => if v <= 65535u64 {
                v as u16
            } else {
                DEFAULT_PORT
            },
            None => DEFAULT_PORT,
        },
        None => DEFAULT_PORT,
    }
}

/// Resolve the pool size: the parsed value when it parses, fits a u32
/// and is positive; 5 otherwise.
pub fn max_connections_setting(raw: Option<&str>) -> (r: u32)
    ensures
        (match raw {
            Some(s) => if parses_as_u64(s@) && 0 < digits_value(s@) <= u32::MAX {
                r == digits_value(s@)
            } else {
                r == DEFAULT_MAX_CONNECTIONS
            },
            None => r == DEFAULT_MAX_CONNECTIONS,
        }),
{
    match raw {
        Some(s) => match parse_u64(s) {
            Some(v) => if 0 < v && v <= 4_294_967_295u64 {
                v as u32
            } else {
                DEFAULT_MAX_CONNECTIONS
            },
            None => DEFAULT_MAX_CONNECTIONS,
        },
        None => DEFAULT_MAX_CONNECTIONS,
    }
}

/// Where the first `,` stands in `s` at or after `i`, or the length of
/// `s`.
pub open spec fn comma_at(s: Seq<char>, i: int) -> int
    decreases s.len() - i when 0 <= i <= s.len()
{
    if i >= s.len() {
        s.len() as int
    } else if s[i] == ',' {
        i
    } else {
        comma_at(s, i + 1)
    }
}

/// The scan for a `,` ends between its start and the end of the string.
proof fn lemma_comma_at_bounds(s: Seq<char>, i: int)
    requires
        0 <= i <= s.len(),
    ensures
        i <= comma_at(s, i) <= s.len(),
    decreases s.len() - i,
{
    if i < s.len() && s[i] != ',' {
        lemma_comma_at_bounds(s, i + 1);
    }
}

/// The origin allow-list a raw setting denotes: the comma-separated
/// entries, each trimmed, with the blank ones dropped.
pub open spec fn origins_spec(s: Seq<char>) -> Seq<Seq<char>>
    decreases s.len(),
    via origins_spec_decreases
{
    let k = comma_at(s, 0);
    let entry = trim_of(s.subrange(0, k));
    let rest: Seq<Seq<char>> = if k == s.len() {
        Seq::empty()
    } else {
        origins_spec(s.subrange(k + 1, s.len() as int))
    };
    if entry.len() == 0 {
        rest
    } else {
        seq![entry] + rest
    }
}

#[via_fn]
proof fn origins_spec_decreases(s: Seq<char>) {
    lemma_comma_at_bounds(s, 0);
}

/// The views of a vector of strings.
pub open spec fn views_of(v: Seq<String>) -> Seq<Seq<char>> {
    v.map_values(|o: String| o@)
}

/// Split an origin allow-list on commas, trimming each entry and
/// dropping the blank ones.
pub fn split_origins(raw: &str) -> (r: Vec<String>)
    ensures
        views_of(r@) == origins_spec(raw@),
    decreases raw@.len(),
{
    let n = raw.unicode_len();
    let mut k: usize = 0;
    while k < n && raw.get_char(k) != ','
        invariant
            k <= n,
            n == raw@.len(),
            comma_at(raw@, 0) == comma_at(raw@, k as int),
        decreases n - k,
    {
        k = k + 1;
    }
    proof {
        assert(comma_at(raw@, k as int) == k);
    }
    let entry = str_trim(raw.substring_char(0, k));
    let mut rest: Vec<String> = if k == n {
        Vec::new()
    } else {
        let tail = raw.substring_char(k + 1, n);
        proof {
            assert(tail@ == raw@.subrange(k + 1, n as int));
        }
        split_origins(tail)
    };
    if entry.is_empty() {
        rest
    } else {
        let mut out: Vec<String> = Vec::new();
        out.push(entry.to_owned());
        let mut i: usize = 0;
        let m = rest.len();
        while i < m
            invariant
                i <= m,
                m == rest@.len(),
                out@.len() == i + 1,
                out@[0]@ == entry@,
                forall|j: int| 0 <= j < i ==> #[trigger] out@[j + 1] == rest@[j],
            decreases m - i,
        {
            out.push(rest[i].clone());
            i = i + 1;
        }
        proof {
            assert forall|j: int| 0 <= j < out@.len() implies views_of(out@)[j] == (seq![entry@]
                + views_of(rest@))[j] by {
                if j > 0 {
                    assert(out@[(j - 1) + 1] == rest@[j - 1]);
                }
            }
            assert(views_of(out@) =~= seq![entry@] + views_of(rest@));
        }
        out
    }
}

} // verus!
