//! The key-value store client: where it connects to.
use crate::error::{AppError, AppResult};
use redis::{Client, RedisError};
use vstd::prelude::*;

verus! {

#[verifier::external_type_specification]
#[verifier::external_body]
pub struct ExClient(Client);

#[verifier::external_type_specification]
#[verifier::external_body]
pub struct ExRedisError(RedisError);

/// Where the key-value store listens.
#[derive(Debug)]
pub struct RedisConfig {
    pub host: String,
    pub port: u16,
}

/// The character of a decimal digit.
pub open spec fn digit_char(d: int) -> char {
    (d + 48) as char
}

/// The decimal notation of a number, most significant digit first, without
/// leading zeros.
pub open spec fn decimal(n: nat) -> Seq<char>
    decreases n,
{
    if n < 10 {
        seq![digit_char(n as int)]
    } else {
        decimal(n / 10) + seq![digit_char((n % 10) as int)]
    }
}

/// The number that a string of decimal digits denotes.
pub open spec fn decimal_value(digits: Seq<char>) -> int
    decreases digits.len(),
{
    if digits.len() == 0 {
        0
    } else {
        decimal_value(digits.drop_last()) * 10 + (digits.last() as int - 48)
    }
}

/// The decimal notation of a number is made of digits only, and reads back as
/// that number: the port written into a URL is the configured port.
pub proof fn lemma_decimal_round_trip(n: nat)
    ensures
        decimal(n).len() >= 1,
        forall|i: int| 0 <= i < decimal(n).len() ==> '0' <= #[trigger] decimal(n)[i] <= '9',
        decimal_value(decimal(n)) == n,
    decreases n,
{
    if n >= 10 {
        lemma_decimal_round_trip(n / 10);
        let s = decimal(n);
        assert(s.drop_last() =~= decimal(n / 10));
        assert(s.last() == digit_char((n % 10) as int));
        assert(digit_char((n % 10) as int) as int == n % 10 + 48);
        assert(n == (n / 10) * 10 + n % 10) by (nonlinear_arith);
        assert(decimal_value(s) == decimal_value(s.drop_last()) * 10 + (s.last() as int - 48));
        assert(decimal_value(s.drop_last()) == n / 10);
    } else {
        let s = decimal(n);
        assert(s.drop_last() =~= Seq::<char>::empty());
        assert(digit_char(n as int) as int == n + 48);
        assert(decimal_value(s.drop_last()) == 0);
        assert(decimal_value(s) == decimal_value(s.drop_last()) * 10 + (s.last() as int - 48));
    }
}

/// The URL of the store at `host` and `port`: `redis://{host}:{port}`.
pub open spec fn redis_url_of(host: Seq<char>, port: u16) -> Seq<char> {
    "redis://"@ + host + ":"@ + decimal(port as nat)
}

/// What `redis::Client::open` returns for a URL: the client for the connection
/// the URL describes, or the error of a URL it does not accept. Its parsing of
/// connection URLs is the outside crate's and is left unstated; it depends on
/// the URL alone and opens no connection.
pub uninterp spec fn client_opened(url: Seq<char>) -> Result<Client, RedisError>;

/// Builds a client for a URL with `redis::Client::open`, which parses the URL
/// and opens no connection yet. Claimed: its result, client or error, is a
/// function of the URL alone.
#[verifier::external_body]
fn open_client(url: String) -> (r: Result<Client, RedisError>)
    ensures
        r == client_opened(url@),
{
    Client::open(url)
}

/// The decimal digit `d` as a one-character string.
fn digit_str(d: u16) -> (s: &'static str)
    requires
        d < 10,
    ensures
        s@ == seq![digit_char(d as int)],
{
    proof {
        reveal_strlit("0");
        reveal_strlit("1");
        reveal_strlit("2");
        reveal_strlit("3");
        reveal_strlit("4");
        reveal_strlit("5");
        reveal_strlit("6");
        reveal_strlit("7");
        reveal_strlit("8");
        reveal_strlit("9");
    }
    let s = match d {
        0 => "0",
        1 => "1",
        2 => "2",
        3 => "3",
        4 => "4",
        5 => "5",
        6 => "6",
        7 => "7",
        8 => "8",
        _ => "9",
    };
    assert(s@ =~= seq![digit_char(d as int)]);
    s
}

/// The decimal notation of `n`.
pub fn decimal_string(n: u16) -> (s: String)
    ensures
        s@ == decimal(n as nat),
    decreases n,
{
    if n < 10 {
        String::from_str(digit_str(n))
    } else {
        let high = decimal_string(n / 10);
        let s = high.concat(digit_str(n % 10));
        s
    }
}

/// The URL of the store described by `host` and `port`.
pub fn redis_url(host: &str, port: u16) -> (url: String)
    ensures
        url@ == redis_url_of(host@, port),
        url@.len() == 9 + host@.len() as int + decimal(port as nat).len(),
        url@.subrange(8, 8 + host@.len() as int) == host@,
        url@[8 + host@.len() as int] == ':',
        url@.subrange(9 + host@.len() as int, url@.len() as int) == decimal(port as nat),
{
    proof {
        lemma_redis_url_layout(host@, port);
    }
    let mut url = String::from_str("redis://");
    url.append(host);
    url.append(":");
    let digits = decimal_string(port);
    url.append(digits.as_str());
    url
}

/// The URL is `redis://`, then the whole host as given, whatever its length,
/// then `:` and the port's decimal notation, and nothing else.
pub proof fn lemma_redis_url_layout(host: Seq<char>, port: u16)
    ensures
        redis_url_of(host, port).len() == 9 + host.len() as int + decimal(port as nat).len(),
        redis_url_of(host, port).subrange(0, 8) == seq!['r', 'e', 'd', 'i', 's', ':', '/', '/'],
        redis_url_of(host, port).subrange(8, 8 + host.len() as int) == host,
        redis_url_of(host, port)[8 + host.len() as int] == ':',
        redis_url_of(host, port).subrange(9 + host.len() as int, redis_url_of(host, port).len() as int)
            == decimal(port as nat),
{
    reveal_strlit("redis://");
    reveal_strlit(":");
    let url = redis_url_of(host, port);
    let d = decimal(port as nat);
    assert("redis://"@ =~= seq!['r', 'e', 'd', 'i', 's', ':', '/', '/']);
    assert(":"@ =~= seq![':']);
    assert(url =~= seq!['r', 'e', 'd', 'i', 's', ':', '/', '/'] + host + seq![':'] + d);
    assert(url.subrange(0, 8) =~= seq!['r', 'e', 'd', 'i', 's', ':', '/', '/']);
    assert(url.subrange(8, 8 + host.len() as int) =~= host);
    assert(url.subrange(9 + host.len() as int, url.len() as int) =~= d);
}

/// A client of the key-value store.
pub struct RedisClient {
    client: Client,
}

impl RedisClient {
    /// The underlying client.
    pub closed spec fn spec_client(&self) -> Client {
        self.client
    }

    /// The client that a call of `Client::open` built, or, when it failed, a
    /// key-value store error carrying the error's display text.
    pub fn from_opened(opened: Result<Client, RedisError>) -> (r: AppResult<RedisClient>)
        ensures
            opened is Ok <==> r is Ok,
            r matches Ok(c) ==> c.spec_client() == opened->Ok_0,
            opened is Err ==> (r matches Err(AppError::KeyValueStoreError(m))
                && vstd::string::to_string_from_display_ensures::<RedisError>(&opened->Err_0, m)),
    {
        match opened {
            Ok(client) => Ok(RedisClient { client }),
            Err(e) => Err(AppError::KeyValueStoreError(e.to_string())),
        }
    }

    /// A client for the store at the configured host and port: the client that
    /// `Client::open` builds for the URL `redis://{host}:{port}`, or, when it
    /// refuses that URL, a key-value store error carrying the error's text.
    pub fn new(config: &RedisConfig) -> (r: AppResult<RedisClient>)
        ensures
            match client_opened(redis_url_of(config.host@, config.port)) {
                Ok(client) => r matches Ok(c) && c.spec_client() == client,
                Err(e) => r matches Err(AppError::KeyValueStoreError(m))
                    && vstd::string::to_string_from_display_ensures::<RedisError>(&e, m),
            },
    {
        let url = redis_url(config.host.as_str(), config.port);
        Self::from_opened(open_client(url))
    }

    /// The underlying client, for the commands sent to the store.
    pub fn inner_ref(&self) -> (c: &Client)
        ensures
            *c == self.spec_client(),
    {
        &self.client
    }
}

} // verus!
