use vstd::prelude::*;

use crate::api::coinbase_pro::{FetchError, Ticker};
use crate::commands::{apology, apology_text};

verus! {

/// Reply that shows the price of one unit of `symbol` in euros.
pub open spec fn price_text(symbol: Seq<char>, price: Seq<char>) -> Seq<char> {
    "```ini\n1 "@ + symbol + " = "@ + price + " € # Coinbase Pro```"@
}

/// Reply of the price command for `symbol`, given what the ticker request
/// brought back.
pub open spec fn price_reply(symbol: Seq<char>, fetched: Result<Ticker, FetchError>) -> Seq<char> {
    match fetched {
        Ok(t) => price_text(symbol, t.price@),
        Err(_) => apology_text(symbol),
    }
}

/// Formats the reply of the price command once the ticker of `symbol` has been
/// requested: the price on success, the apology on any failure.
pub fn preis(symbol: &str, fetched: &Result<Ticker, FetchError>) -> (r: String)
    ensures
        r@ == price_reply(symbol@, *fetched),
{
    match fetched {
        Ok(ticker) => String::from_str("```ini\n1 ").concat(symbol).concat(" = ").concat(
            ticker.price.as_str(),
        ).concat(" € # Coinbase Pro```"),
        Err(_) => apology(symbol),
    }
}

} // verus!
