use vstd::prelude::*;

pub mod coinbase_pro;

verus! {

/// What `str::to_uppercase` makes of a sequence of characters.
pub uninterp spec fn upper_of(s: Seq<char>) -> Seq<char>;

/// Relies on `str::to_uppercase`: the upper-case mapping of each character,
/// which depends on the characters alone.
#[verifier::external_body]
fn to_upper(s: &str) -> (r: String)
    ensures
        r@ == upper_of(s@),
{
    s.to_uppercase()
}

/// Display symbol of the asset used when a command names none.
pub open spec fn default_symbol() -> Seq<char> {
    "BTC"@
}

/// Trading pair of a display symbol: the symbol quoted in euros.
pub open spec fn pair_of(symbol: Seq<char>) -> Seq<char> {
    symbol + "-EUR"@
}

/// Display symbol chosen for the optional first argument of a command.
pub open spec fn symbol_of(arg: Option<Seq<char>>) -> Seq<char> {
    match arg {
        Some(s) => upper_of(s),
        None => default_symbol(),
    }
}

/// Resolves the first argument of a command, if any, into the display symbol
/// and the trading pair that the exchange knows it by.
pub fn get_product(arg: Option<&str>) -> (r: (String, String))
    ensures
        r.0@ == symbol_of(
            match arg {
                Some(s) => Some(s@),
                None => None,
            },
        ),
        r.1@ == pair_of(r.0@),
{
    let product = match arg {
        Some(p) => to_upper(p),
        None => String::from_str("BTC"),
    };
    let pair = product.clone().concat("-EUR");
    (product, pair)
}

} // verus!
