use vstd::prelude::*;

pub mod price;
pub mod stats;

verus! {

/// Reply sent when the exchange gave nothing usable for `symbol`.
pub open spec fn apology_text(symbol: Seq<char>) -> Seq<char> {
    "Sorry, aber "@ + symbol + " kenne ich leider nicht! Dafür bin ich wohl zu blöd... Muuuuh!"@
}

/// Builds the reply sent when the exchange gave nothing usable for `symbol`.
pub fn apology(symbol: &str) -> (r: String)
    ensures
        r@ == apology_text(symbol@),
{
    String::from_str("Sorry, aber ").concat(symbol).concat(
        " kenne ich leider nicht! Dafür bin ich wohl zu blöd... Muuuuh!",
    )
}

} // verus!
