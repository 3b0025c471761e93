//! Venue adapters: each submodule speaks one venue's wire format and
//! reduces it to the shared model. This module holds what they share:
//! parsing venue numeric text into fixed-point prices and quantities,
//! with the range checks the book engine needs.

pub mod binance;
pub mod hyperliquid;
pub mod okex;

use vstd::prelude::*;

use crate::depth::{Level, level_in_range, levels_in_range};
use crate::numeric::{Price, Qty};

verus! {

/// The price bounds under which tick rounding cannot overflow.
pub open spec fn price_in_range(p: Price) -> bool {
    p.units <= i64::MAX - 5_000_000_000 && p.units >= i64::MIN + 20_000_000_000
}

/// Parse a venue price text into atomic units, accepting only values
/// whose later tick rounding cannot overflow.
pub fn parse_price_text(s: &str) -> (r: Option<Price>)
    ensures
        r is Some <==> (crate::text::is_decimal_lit(s@) && crate::text::decimal_magnitude(s@)
            <= i64::MAX && i64::MIN + 20_000_000_000 <= crate::text::decimal_units(s@)
            && crate::text::decimal_units(s@) <= i64::MAX - 5_000_000_000),
        r is Some ==> r->0.units == crate::text::decimal_units(s@) && price_in_range(r->0),
{
    match crate::text::parse_decimal_units(s) {
        None => None,
        Some(units) => {
            if units <= i64::MAX - 5_000_000_000 && units >= i64::MIN + 20_000_000_000 {
                Some(Price { units })
            } else {
                None
            }
        },
    }
}

/// Parse a venue quantity text: a nonnegative decimal in atomic units.
pub fn parse_qty_text(s: &str) -> (r: Option<Qty>)
    ensures
        r is Some <==> (crate::text::is_decimal_lit(s@) && crate::text::decimal_magnitude(s@)
            <= i64::MAX && crate::text::decimal_units(s@) >= 0),
        r is Some ==> r->0.units == crate::text::decimal_units(s@),
{
    match crate::text::parse_decimal_units(s) {
        None => None,
        Some(units) => {
            if units >= 0 {
                Some(Qty { units: units as u64 })
            } else {
                None
            }
        },
    }
}

/// A price out of a JSON field that is a string or a number.
pub fn parse_json_price(v: &serde_json::Value) -> (r: Option<Price>)
    ensures
        r is Some ==> price_in_range(r->0),
{
    match crate::json::json_text(v) {
        Some(s) => parse_price_text(s.as_str()),
        None => None,
    }
}

/// A quantity out of a JSON field that is a string or a number.
pub fn parse_json_qty(v: &serde_json::Value) -> (r: Option<Qty>) {
    match crate::json::json_text(v) {
        Some(s) => parse_qty_text(s.as_str()),
        None => None,
    }
}

/// A u64 out of a JSON field that is a number or a digit string.
pub fn parse_json_u64(v: &serde_json::Value) -> (r: Option<u64>) {
    match crate::json::json_as_u64(v) {
        Some(n) => Some(n),
        None => match crate::json::json_as_str(v) {
            Some(s) => crate::text::parse_u64(s),
            None => None,
        },
    }
}

/// One order-book level out of a JSON entry: either the array form
/// [price, qty] or the object form {"0": price, "1": qty}.
pub fn parse_json_level(v: &serde_json::Value) -> (r: Option<Level>)
    ensures
        r is Some ==> level_in_range(r->0),
{
    let price_field: Option<&serde_json::Value> = match crate::json::json_get_index(v, 0) {
        Some(p) => Some(p),
        None => crate::json::json_get(v, "0"),
    };
    let qty_field: Option<&serde_json::Value> = match crate::json::json_get_index(v, 1) {
        Some(q) => Some(q),
        None => crate::json::json_get(v, "1"),
    };
    match (price_field, qty_field) {
        (Some(pf), Some(qf)) => {
            match (parse_json_price(pf), parse_json_qty(qf)) {
                (Some(price), Some(qty)) => Some(Level { price, qty }),
                _ => None,
            }
        },
        _ => None,
    }
}

/// Whitespace as REST bodies are trimmed of it.
pub open spec fn is_ws_char(c: char) -> bool {
    c == ' ' || c == '\t' || c == '\n' || c == '\r'
}

/// The index of the first non-whitespace character, or the length.
pub open spec fn first_content(s: Seq<char>) -> nat
    decreases s.len(),
{
    if s.len() == 0 {
        0
    } else if !is_ws_char(s[0]) {
        0
    } else {
        1 + first_content(s.skip(1))
    }
}

/// What a REST body looks like at first glance: nothing but
/// whitespace, markup (an error page rather than data), or data worth
/// handing to a decoder.
#[derive(Debug, Clone, Copy, PartialEq, Eq, Structural)]
pub enum RestBodyKind {
    Empty,
    Markup,
    Data,
}

/// What `classify_rest_body` answers.
pub open spec fn rest_body_kind(s: Seq<char>) -> RestBodyKind {
    if first_content(s) >= s.len() {
        RestBodyKind::Empty
    } else if s[first_content(s) as int] == '<' {
        RestBodyKind::Markup
    } else {
        RestBodyKind::Data
    }
}

/// Screen a REST body before decoding: all-whitespace bodies and
/// bodies that open with markup are rejected without a parse attempt.
pub fn classify_rest_body(s: &str) -> (r: RestBodyKind)
    ensures
        r == rest_body_kind(s@),
{
    let n: usize = s.unicode_len();
    let mut i: usize = 0;
    let mut content: bool = false;
    while i < n && !content
        invariant
            0 <= i <= n,
            n == s@.len(),
            forall|k: int| 0 <= k < i ==> is_ws_char(#[trigger] s@[k]),
            content ==> i < n && !is_ws_char(s@[i as int]),
        decreases n - i + (if content { 0int } else { 1int }),
    {
        let c: char = s.get_char(i);
        if c == ' ' || c == '\t' || c == '\n' || c == '\r' {
            i = i + 1;
        } else {
            content = true;
        }
    }
    proof {
        lemma_first_content(s@);
        if i < n {
            lemma_first_content_unique(s@, i as int);
        } else {
            lemma_first_content_unique(s@, n as int);
        }
    }
    if i == n {
        RestBodyKind::Empty
    } else if s.get_char(i) == '<' {
        RestBodyKind::Markup
    } else {
        RestBodyKind::Data
    }
}

/// `first_content` is the least index holding content.
proof fn lemma_first_content(s: Seq<char>)
    ensures
        first_content(s) <= s.len(),
        first_content(s) < s.len() ==> !is_ws_char(s[first_content(s) as int]),
        forall|j: int| 0 <= j < first_content(s) ==> is_ws_char(#[trigger] s[j]),
    decreases s.len(),
{
    if s.len() == 0 {
    } else if !is_ws_char(s[0]) {
    } else {
        lemma_first_content(s.skip(1));
        assert forall|j: int| 0 <= j < first_content(s) implies is_ws_char(
            #[trigger] s[j],
        ) by {
            if j > 0 {
                assert(s[j] == s.skip(1)[j - 1]);
            }
        }
    }
}

/// Any index whose prefix is whitespace and which holds content (or
/// is the length) equals `first_content`.
proof fn lemma_first_content_unique(s: Seq<char>, d: int)
    requires
        0 <= d <= s.len(),
        d < s.len() ==> !is_ws_char(s[d]),
        forall|j: int| 0 <= j < d ==> is_ws_char(#[trigger] s[j]),
    ensures
        d == first_content(s),
{
    lemma_first_content(s);
    let fc = first_content(s) as int;
    if fc < d {
        assert(is_ws_char(s[fc]));
    } else if d < fc {
        assert(is_ws_char(s[d]));
    }
}

/// A trade of any venue, decoded and normalized.
pub struct RawTrade {
    pub time: u64,
    pub price: Price,
    pub qty: Qty,
    pub is_sell: bool,
}

/// A candle row of any venue: time, the four prices, and the base
/// volume.
pub struct RawCandle {
    pub time: u64,
    pub open: Price,
    pub high: Price,
    pub low: Price,
    pub close: Price,
    pub volume: Qty,
}

/// Every price of a candle row is in the tick-rounding range.
pub open spec fn raw_candle_in_range(c: RawCandle) -> bool {
    price_in_range(c.open) && price_in_range(c.high) && price_in_range(c.low) && price_in_range(
        c.close,
    )
}

/// Decode a candle row of the array form [time, open, high, low,
/// close, volume, ...], each field as text.
pub fn parse_candle_row(row: &serde_json::Value) -> (r: Option<RawCandle>)
    ensures
        r is Some ==> raw_candle_in_range(r->0),
{
    let time: u64 = match crate::json::json_get_index(row, 0) {
        Some(v) => match parse_json_u64(v) {
            Some(t) => t,
            None => {
                return None;
            },
        },
        None => {
            return None;
        },
    };
    let open: Price = match crate::json::json_get_index(row, 1) {
        Some(v) => match parse_json_price(v) {
            Some(p) => p,
            None => {
                return None;
            },
        },
        None => {
            return None;
        },
    };
    let high: Price = match crate::json::json_get_index(row, 2) {
        Some(v) => match parse_json_price(v) {
            Some(p) => p,
            None => {
                return None;
            },
        },
        None => {
            return None;
        },
    };
    let low: Price = match crate::json::json_get_index(row, 3) {
        Some(v) => match parse_json_price(v) {
            Some(p) => p,
            None => {
                return None;
            },
        },
        None => {
            return None;
        },
    };
    let close: Price = match crate::json::json_get_index(row, 4) {
        Some(v) => match parse_json_price(v) {
            Some(p) => p,
            None => {
                return None;
            },
        },
        None => {
            return None;
        },
    };
    let volume: Qty = match crate::json::json_get_index(row, 5) {
        Some(v) => match parse_json_qty(v) {
            Some(q) => q,
            None => {
                return None;
            },
        },
        None => {
            return None;
        },
    };
    Some(RawCandle { time, open, high, low, close, volume })
}

/// A whole side of levels out of a JSON array. None when the value is
/// not an array or any entry is malformed.
pub fn parse_json_levels(v: &serde_json::Value) -> (r: Option<Vec<Level>>)
    ensures
        r is Some ==> levels_in_range(r->0@),
{
    let arr: &Vec<serde_json::Value> = match crate::json::json_as_array(v) {
        Some(a) => a,
        None => {
            return None;
        },
    };
    let mut out: Vec<Level> = Vec::new();
    let n: usize = arr.len();
    let mut i: usize = 0;
    while i < n
        invariant
            0 <= i <= n,
            n == arr@.len(),
            levels_in_range(out@),
        decreases n - i,
    {
        match parse_json_level(&arr[i]) {
            Some(lvl) => {
                out.push(lvl);
            },
            None => {
                return None;
            },
        }
        i = i + 1;
    }
    Some(out)
}

/// The daily change of a price over its previous daily open, as a
/// fixed-point percentage: (last - open) * 100 / open, zero when the
/// open is not positive.
pub open spec fn pct_change_spec(last: Price, prev_open: Price) -> Price {
    if prev_open.units <= 0 {
        Price { units: 0 }
    } else {
        let q = ((last.units - prev_open.units) * 100_000_000 * 100) / (prev_open.units as int);
        Price {
            units: if q > i64::MAX {
                i64::MAX
            } else if q < i64::MIN {
                i64::MIN
            } else {
                q as i64
            },
        }
    }
}

/// The daily percentage change between two prices.
pub fn pct_change(last: Price, prev_open: Price) -> (r: Price)
    requires
        0 <= last.units,
        last.units <= i64::MAX - 5_000_000_000,
        prev_open.units <= i64::MAX - 5_000_000_000,
    ensures
        r == pct_change_spec(last, prev_open),
{
    if prev_open.units <= 0 {
        return Price { units: 0 };
    }
    let diff: i128 = (last.units as i128) - (prev_open.units as i128);
    proof {
        assert((last.units as int - prev_open.units as int) * 10_000_000_000 <= (i64::MAX as int)
            * 10_000_000_000 && (last.units as int - prev_open.units as int) * 10_000_000_000
            >= (-(i64::MAX as int)) * 10_000_000_000) by (nonlinear_arith)
            requires
                -(i64::MAX as int) <= last.units as int - prev_open.units as int <= i64::MAX as int,
        ;
    }
    let scaled: i128 = diff * 10_000_000_000i128;
    proof {
        assert(i128::MIN <= scaled as int / (prev_open.units as int) <= i128::MAX)
            by (nonlinear_arith)
            requires
                prev_open.units as int >= 1,
                i128::MIN <= scaled as int <= i128::MAX,
        ;
    }
    let q: i128 = scaled.checked_div_euclid(prev_open.units as i128).unwrap();
    proof {
        assert((last.units as int - prev_open.units as int) * 100_000_000 * 100 == (last.units
            as int - prev_open.units as int) * 10_000_000_000) by (nonlinear_arith);
    }
    if q > i64::MAX as i128 {
        Price { units: i64::MAX }
    } else if q < i64::MIN as i128 {
        Price { units: i64::MIN }
    } else {
        Price { units: q as i64 }
    }
}

} // verus!
