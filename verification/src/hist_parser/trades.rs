//! Trade side of the historical converter.

use vstd::prelude::*;
use vstd::utf8::encode_utf8;
use crate::aggressor::AggressorKind;
use crate::hist_parser::orderbook::{decimal_places, max_u8, string_places};
use crate::text::{str_equals, str_lowercase, to_lowercase};

verus! {

/// One row of the trades CSV file, its numbers still as written.
#[derive(Debug, Clone, PartialEq, Eq)]
pub struct TradeRow {
    pub instrument_name: Option<String>,
    pub trade_id: String,
    pub side: String,
    pub size: String,
    pub price: String,
    pub created_time: u64,
}

/// Largest number of decimal places among the prices (`price`) or sizes of
/// a list of rows.
pub open spec fn rows_max(rows: Seq<TradeRow>, price: bool) -> u8
    decreases rows.len(),
{
    if rows.len() == 0 {
        0
    } else {
        max_u8(
            rows_max(rows.drop_last(), price),
            string_places(if price { rows.last().price } else { rows.last().size }),
        )
    }
}

/// Number of rows the detection reads.
pub open spec fn sampled_rows(n: nat, sample: usize) -> nat {
    if n < sample { n } else { sample as nat }
}

/// Detects the price and size precisions of a trades file from the decimal
/// places written in its first `sample` rows; an override, where given,
/// wins over what was detected.
pub fn detect_precisions(
    rows: &Vec<TradeRow>,
    override_price: Option<u8>,
    override_size: Option<u8>,
    sample: usize,
) -> (r: (u8, u8))
    ensures
        r.0 == match override_price {
            Some(p) => p,
            None => rows_max(rows@.take(sampled_rows(rows@.len(), sample) as int), true),
        },
        r.1 == match override_size {
            Some(p) => p,
            None => rows_max(rows@.take(sampled_rows(rows@.len(), sample) as int), false),
        },
{
    if override_price.is_some() && override_size.is_some() {
        return (override_price.unwrap(), override_size.unwrap());
    }
    let mut price_prec: u8 = 0;
    let mut size_prec: u8 = 0;
    let n: usize = if rows.len() < sample { rows.len() } else { sample };
    let mut i: usize = 0;
    while i < n
        invariant
            n == sampled_rows(rows@.len(), sample),
            n <= rows@.len(),
            i <= n,
            price_prec == rows_max(rows@.take(i as int), true),
            size_prec == rows_max(rows@.take(i as int), false),
        decreases n - i,
    {
        let p = decimal_places(rows[i].price.as_str());
        let q = decimal_places(rows[i].size.as_str());
        proof {
            let t = rows@.take(i + 1);
            assert(t.drop_last() =~= rows@.take(i as int));
            assert(t.last() == rows@[i as int]);
        }
        price_prec = if price_prec >= p { price_prec } else { p };
        size_prec = if size_prec >= q { size_prec } else { q };
        i = i + 1;
    }
    (
        match override_price { Some(p) => p, None => price_prec },
        match override_size { Some(p) => p, None => size_prec },
    )
}

/// A trade side word that is neither `buy` nor `sell`.
#[derive(Debug, Clone, PartialEq, Eq)]
pub struct UnknownTradeSide {
    /// The side word, lowercased.
    pub side: String,
}

/// Reads a lowercased side word: `buy` is a buyer-initiated trade, `sell` a
/// seller-initiated one, anything else is refused.
pub fn trade_side_from_lowercase(lower: &str) -> (r: Result<AggressorKind, UnknownTradeSide>)
    ensures
        lower@ == "buy"@ ==> r == Ok::<AggressorKind, UnknownTradeSide>(AggressorKind::Buyer),
        lower@ == "sell"@ ==> r == Ok::<AggressorKind, UnknownTradeSide>(AggressorKind::Seller),
        lower@ != "buy"@ && lower@ != "sell"@ ==> (r matches Err(e) && e.side@ == lower@),
{
    proof {
        reveal_strlit("buy");
        reveal_strlit("sell");
        assert("buy"@.len() == 3);
        assert("sell"@.len() == 4);
        assert("buy"@ != "sell"@);
    }
    if str_equals(lower, "buy") {
        Ok(AggressorKind::Buyer)
    } else if str_equals(lower, "sell") {
        Ok(AggressorKind::Seller)
    } else {
        Err(UnknownTradeSide { side: lower.to_owned() })
    }
}

/// Reads the side word of a trades row, case-insensitively.
pub fn parse_trade_side(side: &str) -> (r: Result<AggressorKind, UnknownTradeSide>)
    ensures
        str_lowercase(side@) == "buy"@ ==> r == Ok::<AggressorKind, UnknownTradeSide>(AggressorKind::Buyer),
        str_lowercase(side@) == "sell"@ ==> r == Ok::<AggressorKind, UnknownTradeSide>(AggressorKind::Seller),
        str_lowercase(side@) != "buy"@ && str_lowercase(side@) != "sell"@
            ==> (r matches Err(e) && e.side@ == str_lowercase(side@)),
{
    let lower = to_lowercase(side);
    trade_side_from_lowercase(lower.as_str())
}

} // verus!
