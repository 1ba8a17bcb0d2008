//! Service configuration from the values of its environment variables.

use vstd::prelude::*;

verus! {

/// The service's configuration.
#[derive(Clone, Debug, PartialEq, Eq)]
pub struct Config {
    /// The port to listen on.
    pub server_port: u16,
    /// Where the store is.
    pub database_url: String,
}

/// Why the configuration could not be built.
#[derive(Clone, Copy, Debug, PartialEq, Eq)]
pub enum ConfigError {
    /// No server port was given.
    MissingServerPort,
    /// No store location was given.
    MissingDatabaseUrl,
    /// The server port is not a decimal number from 0 to 65535.
    InvalidServerPort,
}

/// Whether `s` is a non-empty run of decimal digits.
pub open spec fn is_digits(s: Seq<char>) -> bool {
    s.len() > 0 && forall|i: int| 0 <= i < s.len() ==> '0' <= #[trigger] s[i] <= '9'
}

/// The number that the decimal digits `s` write.
pub open spec fn digits_value(s: Seq<char>) -> int
    decreases s.len(),
{
    if s.len() == 0 {
        0
    } else {
        digits_value(s.drop_last()) * 10 + (s.last() as int - '0' as int)
    }
}

/// The digits of a port written as `s`: `s` without one leading `+`.
pub open spec fn port_digits(s: Seq<char>) -> Seq<char> {
    if s.len() > 0 && s[0] == '+' {
        s.subrange(1, s.len() as int)
    } else {
        s
    }
}

/// The number that the port written as `s` stands for.
pub open spec fn port_value(s: Seq<char>) -> int {
    digits_value(port_digits(s))
}

/// Whether `s` writes a port number: an optional `+`, then at least one
/// decimal digit, for a value of at most 65535.
pub open spec fn is_port(s: Seq<char>) -> bool {
    is_digits(port_digits(s)) && port_value(s) <= u16::MAX
}

proof fn lemma_digits_grow(s: Seq<char>, i: int, j: int)
    requires
        0 <= i <= j <= s.len(),
        forall|k: int| 0 <= k < s.len() ==> '0' <= #[trigger] s[k] <= '9',
    ensures
        digits_value(s.subrange(0, i)) <= digits_value(s.subrange(0, j)),
    decreases j - i,
{
    if i < j {
        lemma_digits_grow(s, i, j - 1);
        assert(s.subrange(0, j).drop_last() =~= s.subrange(0, j - 1));
        assert(digits_value(s.subrange(0, j - 1)) >= 0) by {
            lemma_digits_nonneg(s.subrange(0, j - 1));
        }
    }
}

proof fn lemma_digits_nonneg(s: Seq<char>)
    requires
        forall|k: int| 0 <= k < s.len() ==> '0' <= #[trigger] s[k] <= '9',
    ensures
        digits_value(s) >= 0,
    decreases s.len(),
{
    if s.len() > 0 {
        lemma_digits_nonneg(s.drop_last());
    }
}

/// The port that `s` writes in decimal, after an optional `+`, if it
/// writes one.
pub fn parse_port(s: &str) -> (r: Option<u16>)
    ensures
        r is Some <==> is_port(s@),
        r is Some ==> r->0 == port_value(s@),
{
    let n: usize = s.unicode_len();
    if n > 0 && s.get_char(0) == '+' {
        parse_digits(s.substring_char(1, n))
    } else {
        parse_digits(s)
    }
}

/// The number that the decimal digits `s` write, if `s` is a non-empty run
/// of digits whose value is at most 65535.
fn parse_digits(s: &str) -> (r: Option<u16>)
    ensures
        r is Some <==> is_digits(s@) && digits_value(s@) <= u16::MAX,
        r is Some ==> r->0 == digits_value(s@),
{
    let n: usize = s.unicode_len();
    if n == 0 {
        return None;
    }
    let mut value: u32 = 0;
    let mut i: usize = 0;
    while i < n
        invariant
            n == s@.len(),
            0 <= i <= n,
            forall|k: int| 0 <= k < i ==> '0' <= #[trigger] s@[k] <= '9',
            value == digits_value(s@.subrange(0, i as int)),
            value <= u16::MAX,
        decreases n - i,
    {
        let c: char = s.get_char(i);
        if c < '0' || c > '9' {
            return None;
        }
        assert(s@.subrange(0, i + 1).drop_last() =~= s@.subrange(0, i as int));
        let next: u32 = value * 10 + (c as u32 - '0' as u32);
        if next > 65535 {
            proof {
                assert(forall|k: int| 0 <= k < i + 1 ==> '0' <= #[trigger] s@[k] <= '9');
                if forall|k: int| 0 <= k < s@.len() ==> '0' <= #[trigger] s@[k] <= '9' {
                    lemma_digits_grow(s@, i + 1, n as int);
                    assert(s@.subrange(0, n as int) =~= s@);
                }
            }
            return None;
        }
        value = next;
        i = i + 1;
    }
    assert(s@.subrange(0, n as int) =~= s@);
    Some(value as u16)
}

impl Config {
    /// The configuration from the values of `SERVER_PORT` and `DATABASE_URL`.
    pub fn from_env(server_port: Option<String>, database_url: Option<String>) -> (r: Result<Config, ConfigError>)
        ensures
            server_port is None ==> r == Err::<Config, ConfigError>(ConfigError::MissingServerPort),
            server_port is Some && !is_port(server_port->0@) ==> r == Err::<Config, ConfigError>(
                ConfigError::InvalidServerPort,
            ),
            server_port is Some && is_port(server_port->0@) && database_url is None ==> r == Err::<
                Config,
                ConfigError,
            >(ConfigError::MissingDatabaseUrl),
            r is Ok <==> (server_port is Some && is_port(server_port->0@) && database_url is Some),
            r is Ok ==> r->Ok_0.server_port == port_value(server_port->0@) && r->Ok_0.database_url
                == database_url->0,
    {
        let port: u16 = match server_port {
            None => return Err(ConfigError::MissingServerPort),
            Some(p) => match parse_port(p.as_str()) {
                None => return Err(ConfigError::InvalidServerPort),
                Some(v) => v,
            },
        };
        match database_url {
            None => Err(ConfigError::MissingDatabaseUrl),
            Some(url) => Ok(Config { server_port: port, database_url: url }),
        }
    }
}

} // verus!
