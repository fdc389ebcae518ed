use vstd::prelude::*;

verus! {

/// Base address of the exchange's REST interface.
pub open spec fn api_base() -> Seq<char> {
    "https://api.pro.coinbase.com"@
}

/// Current price of a trading pair, kept as the decimal text the exchange sent.
pub struct Ticker {
    pub price: String,
}

/// Figures of a trading pair over the trailing 24 hours, each kept as the
/// decimal text the exchange sent.
pub struct Stats {
    pub open: String,
    pub high: String,
    pub low: String,
    pub volume: String,
    pub last: String,
}

/// Why a request to the exchange produced no value.
#[derive(Debug)]
pub enum FetchError {
    /// The exchange could not be reached, or did not answer.
    Transport(String),
    /// The answer's body did not have the expected shape.
    Decode(String),
}

impl FetchError {
    /// The detail recorded for operators.
    pub fn detail(&self) -> (r: &str)
        ensures
            r@ == match self {
                FetchError::Transport(m) => m@,
                FetchError::Decode(m) => m@,
            },
    {
        match self {
            FetchError::Transport(m) => m.as_str(),
            FetchError::Decode(m) => m.as_str(),
        }
    }
}

/// Path of the ticker resource of a trading pair.
pub open spec fn ticker_path(pair: Seq<char>) -> Seq<char> {
    "/products/"@ + pair + "/ticker"@
}

/// Path of the 24-hour statistics resource of a trading pair.
pub open spec fn stats_path(pair: Seq<char>) -> Seq<char> {
    "/products/"@ + pair + "/stats"@
}

/// Full address of a resource of the exchange.
pub fn coinbase_url(endpoint: &str) -> (r: String)
    ensures
        r@ == api_base() + endpoint@,
{
    String::from_str("https://api.pro.coinbase.com").concat(endpoint)
}

/// Path of the ticker resource of `pair`.
pub fn ticker_endpoint(pair: &str) -> (r: String)
    ensures
        r@ == ticker_path(pair@),
{
    String::from_str("/products/").concat(pair).concat("/ticker")
}

/// Path of the 24-hour statistics resource of `pair`.
pub fn stats_endpoint(pair: &str) -> (r: String)
    ensures
        r@ == stats_path(pair@),
{
    String::from_str("/products/").concat(pair).concat("/stats")
}

} // verus!
