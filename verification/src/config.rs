//! The configuration the controller starts from: where to reach the
//! autopilot and where the plane server listens.
//!
//! The runtime reads the configuration text from a file or another
//! source and hands it here whole; this module does the parsing.  The
//! format is line-oriented: each line binds one dotted key to a value,
//! separated by the first equals sign, and the first line binding a key
//! wins.

use vstd::prelude::*;

verus! {

/// How to reach the autopilot.
#[derive(Debug, Clone, PartialEq, Eq)]
pub struct PixhawkConfig {
    pub address: String,
}

/// Where the plane server listens.
#[derive(Debug, Clone, PartialEq, Eq)]
pub struct ServerConfig {
    pub address: String,
}

/// The whole configuration.
#[derive(Debug, Clone, PartialEq, Eq)]
pub struct PlaneSystemConfig {
    pub pixhawk: PixhawkConfig,
    pub server: ServerConfig,
}

/// Which required binding the configuration text lacks.
#[derive(Debug, Clone, Copy, PartialEq, Eq, Structural)]
pub enum ConfigError {
    MissingPixhawkAddress,
    MissingServerAddress,
}

/// Index of the first occurrence of `c` at or after position `i`.
pub open spec fn first_index_of(s: Seq<char>, c: char, i: int) -> Option<int>
    decreases s.len() - i when 0 <= i <= s.len()
{
    if i >= s.len() {
        None
    } else if s[i] == c {
        Some(i)
    } else {
        first_index_of(s, c, i + 1)
    }
}

/// Where the first occurrence of `c` sits, and what lies before it.
pub proof fn lemma_first_index_of(s: Seq<char>, c: char, i: int)
    requires
        0 <= i <= s.len(),
    ensures
        match first_index_of(s, c, i) {
            Some(p) => i <= p < s.len() && s[p] == c && (forall|j: int| i <= j < p ==> s[j] != c),
            None => forall|j: int| i <= j < s.len() ==> s[j] != c,
        },
    decreases s.len() - i,
{
    if i < s.len() && s[i] != c {
        lemma_first_index_of(s, c, i + 1);
    }
}

/// The value a single line binds to `key`: the text after the first
/// equals sign, when what precedes it is exactly the key.
pub open spec fn line_value(line: Seq<char>, key: Seq<char>) -> Option<Seq<char>> {
    match first_index_of(line, '=', 0) {
        None => None,
        Some(p) => if line.take(p) == key {
            Some(line.skip(p + 1))
        } else {
            None
        },
    }
}

/// The value the text binds to `key` in its first matching line at or
/// after position `i`.
pub open spec fn config_value_from(s: Seq<char>, key: Seq<char>, i: int) -> Option<Seq<char>>
    decreases s.len() - i when 0 <= i <= s.len() via config_value_from_decreases
{
    match first_index_of(s, '\n', i) {
        None => line_value(s.subrange(i, s.len() as int), key),
        Some(p) => match line_value(s.subrange(i, p), key) {
            Some(v) => Some(v),
            None => config_value_from(s, key, p + 1),
        },
    }
}

#[via_fn]
proof fn config_value_from_decreases(s: Seq<char>, key: Seq<char>, i: int) {
    if 0 <= i <= s.len() {
        lemma_first_index_of(s, '\n', i);
    }
}

/// The key binding the autopilot address.
pub open spec fn pixhawk_address_key() -> Seq<char> {
    "pixhawk.address"@
}

/// The key binding the plane-server address.
pub open spec fn server_address_key() -> Seq<char> {
    "server.address"@
}

/// Find the first occurrence of `c` inside `[start, end)`, reported
/// relative to `start`.
fn find_in_range(s: &str, start: usize, end: usize, c: char) -> (r: Option<usize>)
    requires
        start <= end <= s@.len(),
    ensures
        match r {
            Some(p) => first_index_of(s@.subrange(start as int, end as int), c, 0) == Some(p as int)
                && start + p < end,
            None => first_index_of(s@.subrange(start as int, end as int), c, 0) is None,
        },
{
    let ghost sub = s@.subrange(start as int, end as int);
    let mut k: usize = 0;
    while k < end - start
        invariant
            start <= end <= s@.len(),
            k <= end - start,
            sub == s@.subrange(start as int, end as int),
            first_index_of(sub, c, 0) == first_index_of(sub, c, k as int),
        decreases end - start - k,
    {
        if s.get_char(start + k) == c {
            return Some(k);
        }
        k = k + 1;
    }
    None
}

/// Whether the characters of `[start, end)` are exactly `key`.
fn range_is_key(s: &str, start: usize, end: usize, key: &str) -> (r: bool)
    requires
        start <= end <= s@.len(),
    ensures
        r == (s@.subrange(start as int, end as int) == key@),
{
    let klen: usize = key.unicode_len();
    if end - start != klen {
        proof {
            assert(s@.subrange(start as int, end as int).len() != key@.len());
        }
        return false;
    }
    let mut j: usize = 0;
    while j < klen
        invariant
            start <= end <= s@.len(),
            end - start == klen == key@.len(),
            j <= klen,
            forall|t: int|
                0 <= t < j ==> s@.subrange(start as int, end as int)[t] == key@[t],
        decreases klen - j,
    {
        if s.get_char(start + j) != key.get_char(j) {
            proof {
                assert(s@.subrange(start as int, end as int)[j as int] != key@[j as int]);
            }
            return false;
        }
        j = j + 1;
    }
    proof {
        assert(s@.subrange(start as int, end as int) =~= key@);
    }
    true
}

/// Look up the first binding of `key` in the configuration text.
pub fn lookup_config_value(s: &str, key: &str) -> (r: Option<String>)
    ensures
        match r {
            Some(v) => config_value_from(s@, key@, 0) == Some(v@),
            None => config_value_from(s@, key@, 0) is None,
        },
{
    let n: usize = s.unicode_len();
    let mut start: usize = 0;
    loop
        invariant
            start <= n,
            n == s@.len(),
            config_value_from(s@, key@, 0) == config_value_from(s@, key@, start as int),
        decreases n - start,
    {
        let nl = find_in_range(s, start, n, '\n');
        proof {
            lemma_relative_index(s@, '\n', start as int, n as int);
        }
        let line_end: usize = match nl {
            Some(p) => start + p,
            None => n,
        };
        let eq = find_in_range(s, start, line_end, '=');
        let matched: bool = match eq {
            Some(p) => {
                proof {
                    assert(s@.subrange(start as int, line_end as int).take(p as int) =~= s@.subrange(
                        start as int,
                        start + p,
                    ));
                }
                range_is_key(s, start, start + p, key)
            },
            None => false,
        };
        if matched {
            let p = match eq {
                Some(p) => p,
                None => 0,
            };
            let value = s.substring_char(start + p + 1, line_end);
            let owned = String::from_str(value);
            proof {
                assert(s@.subrange(start as int, line_end as int).skip(p + 1) =~= s@.subrange(
                    start + p + 1,
                    line_end as int,
                ));
            }
            return Some(owned);
        }
        match nl {
            Some(_) => {
                start = line_end + 1;
            },
            None => {
                return None;
            },
        }
    }
}

/// The first occurrence of `c` in the suffix `[i, end)` of the text,
/// seen through the subrange, determines the one seen absolutely.
proof fn lemma_relative_index(s: Seq<char>, c: char, i: int, end: int)
    requires
        0 <= i <= end == s.len(),
    ensures
        match first_index_of(s.subrange(i, end), c, 0) {
            Some(p) => first_index_of(s, c, i) == Some(i + p),
            None => first_index_of(s, c, i) is None,
        },
{
    lemma_first_index_of(s.subrange(i, end), c, 0);
    lemma_first_index_of(s, c, i);
    let sub = s.subrange(i, end);
    match first_index_of(sub, c, 0) {
        Some(p) => {
            assert(s[i + p] == c);
            match first_index_of(s, c, i) {
                Some(q) => {
                    assert(sub[q - i] == c);
                },
                None => {
                    assert(false);
                },
            }
        },
        None => {
            match first_index_of(s, c, i) {
                Some(q) => {
                    assert(sub[q - i] == c);
                    assert(false);
                },
                None => {
                },
            }
        },
    }
}

impl PlaneSystemConfig {
    /// Parse the configuration from its text.  Succeeds exactly when the
    /// text binds both required keys, and reports the first missing one
    /// otherwise.
    pub fn read(source: &str) -> (r: Result<PlaneSystemConfig, ConfigError>)
        ensures
            match r {
                Ok(c) => config_value_from(source@, pixhawk_address_key(), 0) == Some(
                    c.pixhawk.address@,
                ) && config_value_from(source@, server_address_key(), 0) == Some(
                    c.server.address@,
                ),
                Err(e) => (e == ConfigError::MissingPixhawkAddress && config_value_from(
                    source@,
                    pixhawk_address_key(),
                    0,
                ) is None) || (e == ConfigError::MissingServerAddress && config_value_from(
                    source@,
                    server_address_key(),
                    0,
                ) is None),
            },
    {
        let pixhawk_address = match lookup_config_value(source, "pixhawk.address") {
            Some(v) => v,
            None => {
                return Err(ConfigError::MissingPixhawkAddress);
            },
        };
        let server_address = match lookup_config_value(source, "server.address") {
            Some(v) => v,
            None => {
                return Err(ConfigError::MissingServerAddress);
            },
        };
        Ok(
            PlaneSystemConfig {
                pixhawk: PixhawkConfig { address: pixhawk_address },
                server: ServerConfig { address: server_address },
            },
        )
    }
}

} // verus!
