use vstd::prelude::*;
use vstd::string::*;

verus! {

/// Where the Redis server is and which database to use.
#[derive(Debug, Clone, Default)]
pub struct RedisConfig {
    pub port: u16,
    pub host: String,
    pub database: String,
}

/// Credentials and addresses for the crypto payment gateway.
#[derive(Debug, Clone, Default)]
pub struct OxaPayConfig {
    pub merchant_key: String,
    pub return_url: String,
    pub callback_urlbase: String,
}

/// Settings of the payment service.
#[derive(Debug, Clone, Default)]
pub struct ServiceConfig {
    pub redis: RedisConfig,
    pub oxapay: OxaPayConfig,
}

/// What the payment service shares between requests.
#[derive(Debug, Clone)]
pub struct ServiceState {
    pub config: std::sync::Arc<ServiceConfig>,
}

/// The invoice link handed back for a crypto subscription.
#[derive(Debug, Clone, Default)]
pub struct CryptoSubscriptionResponse {
    pub invoice_url: String,
}

/// The character of a decimal digit.
pub open spec fn digit_char(d: nat) -> char {
    if d == 0 { '0' }
    else if d == 1 { '1' }
    else if d == 2 { '2' }
    else if d == 3 { '3' }
    else if d == 4 { '4' }
    else if d == 5 { '5' }
    else if d == 6 { '6' }
    else if d == 7 { '7' }
    else if d == 8 { '8' }
    else { '9' }
}

/// The decimal digits of `n`, without leading zeros.
pub open spec fn decimal(n: nat) -> Seq<char>
    decreases n,
{
    if n < 10 {
        seq![digit_char(n)]
    } else {
        decimal(n / 10).push(digit_char(n % 10))
    }
}

/// `redis://host:port/database`.
pub open spec fn redis_url(host: Seq<char>, port: nat, database: Seq<char>) -> Seq<char> {
    "redis://"@ + host + seq![':'] + decimal(port) + seq!['/'] + database
}

fn digit_str(d: u64) -> (r: &'static str)
    requires
        d < 10,
    ensures
        r@ == seq![digit_char(d as nat)],
{
    proof {
        reveal_strlit("0");
        reveal_strlit("1");
        reveal_strlit("2");
        reveal_strlit("3");
        reveal_strlit("4");
        reveal_strlit("5");
        reveal_strlit("6");
        reveal_strlit("7");
        reveal_strlit("8");
        reveal_strlit("9");
    }
    let r = if d == 0 { "0" }
    else if d == 1 { "1" }
    else if d == 2 { "2" }
    else if d == 3 { "3" }
    else if d == 4 { "4" }
    else if d == 5 { "5" }
    else if d == 6 { "6" }
    else if d == 7 { "7" }
    else if d == 8 { "8" }
    else { "9" };
    proof {
        assert(r@ =~= seq![digit_char(d as nat)]);
    }
    r
}

/// Appends the decimal digits of `n` to `s`.
pub(crate) fn append_decimal(s: &mut String, n: u64)
    ensures
        final(s)@ == old(s)@ + decimal(n as nat),
    decreases n,
{
    if n >= 10 {
        append_decimal(s, n / 10);
    }
    s.append(digit_str(n % 10));
    proof {
        if n < 10 {
            assert(decimal(n as nat) =~= seq![digit_char(n as nat)]);
        } else {
            assert(decimal(n as nat) == decimal((n / 10) as nat).push(digit_char((n % 10) as nat)));
        }
        assert(s@ =~= old(s)@ + decimal(n as nat));
    }
}

impl RedisConfig {
    /// The connection URL of this configuration.
    pub fn get_url(&self) -> (r: String)
        ensures
            r@ == redis_url(self.host@, self.port as nat, self.database@),
    {
        Self::create_url(self.host.as_str(), self.port, self.database.as_str())
    }

    /// The connection URL `redis://host:port/database_name`.
    pub fn create_url(host: &str, port: u16, database_name: &str) -> (r: String)
        ensures
            r@ == redis_url(host@, port as nat, database_name@),
    {
        proof {
            reveal_strlit("redis://");
            reveal_strlit(":");
            reveal_strlit("/");
        }
        let mut s = String::from_str("redis://");
        s.append(host);
        s.append(":");
        append_decimal(&mut s, port as u64);
        s.append("/");
        s.append(database_name);
        proof {
            assert(s@ =~= redis_url(host@, port as nat, database_name@));
        }
        s
    }
}

} // verus!
