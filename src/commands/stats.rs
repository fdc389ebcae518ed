use vstd::prelude::*;

use crate::api::coinbase_pro::{FetchError, Stats};
use crate::commands::{apology, apology_text};

verus! {

/// Block that shows the 24-hour figures of `symbol`: a heading, an empty line,
/// then open, high, low, volume (counted in `symbol`) and last, one per line.
pub open spec fn stats_text(
    symbol: Seq<char>,
    open: Seq<char>,
    high: Seq<char>,
    low: Seq<char>,
    volume: Seq<char>,
    last: Seq<char>,
) -> Seq<char> {
    "```ini\n[ 24h Stats "@ + symbol + " ] # Coinbase Pro\n\n"@
        + "Open   = "@ + open + " €\n"@
        + "High   = "@ + high + " €\n"@
        + "Low    = "@ + low + " €\n"@
        + "Volume = "@ + volume + " "@ + symbol + "\n"@
        + "Last   = "@ + last + " €```"@
}

/// Reply of the stats command for `symbol`, given what the statistics request
/// brought back.
pub open spec fn stats_reply(symbol: Seq<char>, fetched: Result<Stats, FetchError>) -> Seq<char> {
    match fetched {
        Ok(s) => stats_text(symbol, s.open@, s.high@, s.low@, s.volume@, s.last@),
        Err(_) => apology_text(symbol),
    }
}

/// Formats the reply of the stats command once the statistics of `symbol` have
/// been requested: the figures on success, the apology on any failure.
pub fn stats(symbol: &str, fetched: &Result<Stats, FetchError>) -> (r: String)
    ensures
        r@ == stats_reply(symbol@, *fetched),
{
    match fetched {
        Ok(s) => {
            let mut text = String::from_str("```ini\n[ 24h Stats ");
            text.append(symbol);
            text.append(" ] # Coinbase Pro\n\n");
            text.append("Open   = ");
            text.append(s.open.as_str());
            text.append(" €\n");
            text.append("High   = ");
            text.append(s.high.as_str());
            text.append(" €\n");
            text.append("Low    = ");
            text.append(s.low.as_str());
            text.append(" €\n");
            text.append("Volume = ");
            text.append(s.volume.as_str());
            text.append(" ");
            text.append(symbol);
            text.append("\n");
            text.append("Last   = ");
            text.append(s.last.as_str());
            text.append(" €```");
            text
        },
        Err(_) => apology(symbol),
    }
}

} // verus!
