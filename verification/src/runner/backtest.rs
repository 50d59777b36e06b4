//! Venue settings and instrument naming of the backtest runner.

use vstd::prelude::*;
use vstd::string::StringSliceAdditionalSpecFns;
use vstd::utf8::encode_utf8_valid_utf8;
use crate::text::{
    chars_replaced, find_byte, lemma_ascii_byte_boundaries, replace_char, str_equals, str_lowercase, to_lowercase,
};

verus! {

/// How the simulated venue nets positions.
#[derive(Debug, Clone, Copy, PartialEq, Eq)]
pub enum OmsKind {
    Netting,
    Hedging,
}

/// The kind of account held at the simulated venue.
#[derive(Debug, Clone, Copy, PartialEq, Eq)]
pub enum AccountKind {
    Cash,
    Margin,
}

/// The depth of order book the simulated venue keeps.
#[derive(Debug, Clone, Copy, PartialEq, Eq)]
pub enum BookKind {
    L1Mbp,
    L2Mbp,
    L3Mbo,
}

/// A venue setting that names no known option.
#[derive(Debug, Clone, PartialEq, Eq)]
pub enum VenueSettingError {
    UnknownOmsType(String),
    UnknownAccountType(String),
    UnknownBookType(String),
}

/// Reads an order-management setting: `Netting` or `Hedging`, exactly.
pub fn parse_oms_type(s: &str) -> (r: Result<OmsKind, VenueSettingError>)
    ensures
        s@ == "Netting"@ ==> r == Ok::<OmsKind, VenueSettingError>(OmsKind::Netting),
        s@ != "Netting"@ && s@ == "Hedging"@ ==> r == Ok::<OmsKind, VenueSettingError>(OmsKind::Hedging),
        s@ != "Netting"@ && s@ != "Hedging"@ ==> (r matches Err(VenueSettingError::UnknownOmsType(t)) && t@ == s@),
{
    if str_equals(s, "Netting") {
        Ok(OmsKind::Netting)
    } else if str_equals(s, "Hedging") {
        Ok(OmsKind::Hedging)
    } else {
        Err(VenueSettingError::UnknownOmsType(s.to_owned()))
    }
}

/// Reads an account setting: `Cash` or `Margin`, exactly.
pub fn parse_account_type(s: &str) -> (r: Result<AccountKind, VenueSettingError>)
    ensures
        s@ == "Cash"@ ==> r == Ok::<AccountKind, VenueSettingError>(AccountKind::Cash),
        s@ != "Cash"@ && s@ == "Margin"@ ==> r == Ok::<AccountKind, VenueSettingError>(AccountKind::Margin),
        s@ != "Cash"@ && s@ != "Margin"@ ==> (r matches Err(VenueSettingError::UnknownAccountType(t)) && t@ == s@),
{
    if str_equals(s, "Cash") {
        Ok(AccountKind::Cash)
    } else if str_equals(s, "Margin") {
        Ok(AccountKind::Margin)
    } else {
        Err(VenueSettingError::UnknownAccountType(s.to_owned()))
    }
}

/// Reads a book setting: `L1_MBP`, `L2_MBP` or `L3_MBO`, exactly.
pub fn parse_book_type(s: &str) -> (r: Result<BookKind, VenueSettingError>)
    ensures
        s@ == "L1_MBP"@ ==> r == Ok::<BookKind, VenueSettingError>(BookKind::L1Mbp),
        s@ != "L1_MBP"@ && s@ == "L2_MBP"@ ==> r == Ok::<BookKind, VenueSettingError>(BookKind::L2Mbp),
        s@ != "L1_MBP"@ && s@ != "L2_MBP"@ && s@ == "L3_MBO"@ ==> r == Ok::<BookKind, VenueSettingError>(BookKind::L3Mbo),
        s@ != "L1_MBP"@ && s@ != "L2_MBP"@ && s@ != "L3_MBO"@
            ==> (r matches Err(VenueSettingError::UnknownBookType(t)) && t@ == s@),
{
    if str_equals(s, "L1_MBP") {
        Ok(BookKind::L1Mbp)
    } else if str_equals(s, "L2_MBP") {
        Ok(BookKind::L2Mbp)
    } else if str_equals(s, "L3_MBO") {
        Ok(BookKind::L3Mbo)
    } else {
        Err(VenueSettingError::UnknownBookType(s.to_owned()))
    }
}

/// Splits an instrument symbol such as `ETH-USDT` at its first `-` into
/// base and quote currency codes; a symbol without `-` is all base, quoted
/// in `USDT`.
pub fn split_symbol(symbol: &str) -> (r: (&str, &str))
    ensures
        ({
            let b = symbol.spec_bytes();
            if exists|i: int| 0 <= i < b.len() && b[i] == 45u8 {
                let i = choose|i: int| 0 <= i < b.len() && b[i] == 45u8 && forall|j: int| 0 <= j < i ==> b[j] != 45u8;
                r.0.spec_bytes() == b.subrange(0, i) && r.1.spec_bytes() == b.subrange(i + 1, b.len() as int)
            } else {
                r.0@ == symbol@ && r.1@ == "USDT"@
            }
        }),
{
    let bytes = symbol.as_bytes();
    match find_byte(bytes, 45u8) {
        Some(pos) => {
            proof {
                let b = symbol.spec_bytes();
                let w = choose|i: int| 0 <= i < b.len() && b[i] == 45u8 && forall|j: int| 0 <= j < i ==> b[j] != 45u8;
                assert(w == pos) by {
                    if w < pos { assert(b[w] != 45u8); }
                    if w > pos { assert(b[pos as int] != 45u8); }
                }
                encode_utf8_valid_utf8(symbol@);
                lemma_ascii_byte_boundaries(b, pos as int);
            }
            let (base, rest) = symbol.split_at(pos);
            proof {
                let b = symbol.spec_bytes();
                let rb = rest.spec_bytes();
                encode_utf8_valid_utf8(rest@);
                assert(rb[0] == b[pos as int]);
                lemma_ascii_byte_boundaries(rb, 0);
            }
            let (_, quote) = rest.split_at(1);
            proof {
                let b = symbol.spec_bytes();
                assert(quote.spec_bytes() =~= b.subrange(pos + 1, b.len() as int));
            }
            (base, quote)
        },
        None => (symbol, "USDT"),
    }
}

/// The stem of a symbol's data file names: every `.` and `-` becomes `_`,
/// then the whole is lowercased.
pub open spec fn spec_data_file_stem(symbol: Seq<char>) -> Seq<char> {
    str_lowercase(chars_replaced(chars_replaced(symbol, '.', '_'), '-', '_'))
}

/// Names the stem of a symbol's quote and bar files, such as `eth_usdt`
/// for `ETH-USDT`.
pub fn data_file_stem(symbol: &str) -> (r: String)
    ensures
        r@ == spec_data_file_stem(symbol@),
{
    proof {
        reveal_strlit("_");
    }
    let dotless = replace_char(symbol, '.', "_");
    let dashless = replace_char(dotless.as_str(), '-', "_");
    to_lowercase(dashless.as_str())
}

} // verus!
