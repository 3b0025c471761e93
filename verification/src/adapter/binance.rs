//! The Binance adapter: its per-market rate limiter (dynamic,
//! header-driven), its stream frame decoding, and the normalization of
//! its REST payloads.

use vstd::prelude::*;

use crate::adapter::{RawTrade, parse_json_level, parse_json_levels, parse_json_price,
    parse_json_qty, parse_json_u64, price_in_range};
use crate::depth::{DepthPayload, Level, levels_in_range};
use crate::json::{json_as_array, json_as_bool, json_as_str, json_get, json_parse};
use crate::limiter::DynamicBucket;
use crate::numeric::{ContractSize, Price, Qty};
use crate::stream::DiffMeta;
use crate::{AdapterError, Exchange, MarketKind, Ticker, valid_symbol_text};

verus! {

/// Request weight allowed per window on the spot API.
pub const SPOT_LIMIT: usize = 6000;

/// Request weight allowed per window on the perpetual APIs.
pub const PERP_LIMIT: usize = 2400;

/// The venue's declared window: one minute.
pub const REFILL_RATE_MS: u64 = 60_000;

/// The venue's rate limiter: a dynamic bucket fed by the used-weight
/// response header, sized at the declared limit shrunk by a three
/// percent safety margin.
pub struct BinanceLimiter {
    pub bucket: DynamicBucket,
}

impl BinanceLimiter {
    /// The declared limit shrunk by the safety margin.
    pub open spec fn effective_limit(limit: usize) -> int {
        limit - (limit * 3) / 100
    }

    pub fn new(limit: usize, refill_rate_ms: u64, now_ms: u64) -> (r: Self)
        requires
            limit <= 1_000_000,
            1000 <= refill_rate_ms <= 100_000_000_000,
            refill_rate_ms % 1000 == 0,
        ensures
            r.bucket.wf(),
            r.bucket.max_weight == Self::effective_limit(limit),
            r.bucket.current_used_weight == 0,
            r.bucket.refill_rate_ms == refill_rate_ms,
            r.bucket.last_updated_ms == now_ms,
            r.bucket.fallback_bucket.last_refill_ms == now_ms,
            r.bucket.fallback_bucket.available_tokens == Self::effective_limit(limit),
    {
        proof {
            assert((limit * 3) / 100 <= limit * 3) by (nonlinear_arith)
                requires
                    limit >= 0,
            ;
        }
        let margin: usize = (limit * 3) / 100;
        let effective_limit: usize = limit - margin;
        BinanceLimiter { bucket: DynamicBucket::new(effective_limit, refill_rate_ms, now_ms) }
    }

    /// Must run before each request; an answer asks the caller to
    /// sleep that many milliseconds first.
    pub fn prepare_request(&mut self, weight: usize, now_ms: u64) -> (r: Option<u64>)
        requires
            old(self).bucket.wf(),
            now_ms >= old(self).bucket.last_updated_ms,
            now_ms >= old(self).bucket.fallback_bucket.last_refill_ms,
        ensures
            final(self).bucket.wf(),
            old(self).bucket.report_is_fresh(now_ms) ==> r == old(self).bucket.header_wait(
                weight,
                now_ms,
            ) && final(self).bucket == old(self).bucket,
            !old(self).bucket.report_is_fresh(now_ms) ==> ({
                let b = old(self).bucket.fallback_bucket.refilled(now_ms);
                &&& (r is None <==> b.available_tokens >= weight)
                &&& (r is Some ==> 0 < r->0 <= b.refill_rate_ms)
            }),
    {
        let (wait_time, _reason) = self.bucket.prepare_request(weight, now_ms);
        wait_time
    }

    /// Learn the venue's reported usage out of the used-weight header.
    pub fn update_from_response(&mut self, used_weight_header: Option<&str>, now_ms: u64)
        ensures
            final(self).bucket.wf() == old(self).bucket.wf(),
            match used_weight_header {
                Some(h) => ({
                    let ok = h@.len() > 0 && crate::text::all_digits(h@)
                        && crate::text::digits_to_nat(h@) <= u64::MAX;
                    let v = crate::text::digits_to_nat(h@);
                    &&& (ok && v > 0 && v <= usize::MAX) ==> final(self).bucket
                        == (DynamicBucket {
                        current_used_weight: v as usize,
                        last_updated_ms: now_ms,
                        ..old(self).bucket
                    })
                    &&& !(ok && v > 0 && v <= usize::MAX) ==> final(self).bucket == old(
                        self,
                    ).bucket
                }),
                None => final(self).bucket == old(self).bucket,
            },
    {
        match used_weight_header {
            Some(h) => {
                match crate::text::parse_u64(h) {
                    Some(v) => {
                        if v > 0 && v <= usize::MAX as u64 {
                            self.bucket.update_weight(v as usize, now_ms);
                        }
                    },
                    None => {},
                }
            },
            None => {},
        }
    }

    /// A throttling or ban status is terminal for the process.
    pub fn should_exit_on_status(&self, status: u16) -> (r: bool)
        ensures
            r == (status == 429 || status == 418),
    {
        status == 429 || status == 418
    }
}

/// The venue identity for each market family.
pub open spec fn exchange_of(market: MarketKind) -> Exchange {
    match market {
        MarketKind::Spot => Exchange::BinanceSpot,
        MarketKind::LinearPerps => Exchange::BinanceLinear,
        MarketKind::InversePerps => Exchange::BinanceInverse,
    }
}

pub fn exchange_from_market_type(market: MarketKind) -> (r: Exchange)
    ensures
        r == exchange_of(market),
{
    match market {
        MarketKind::Spot => Exchange::BinanceSpot,
        MarketKind::LinearPerps => Exchange::BinanceLinear,
        MarketKind::InversePerps => Exchange::BinanceInverse,
    }
}

/// The streaming host for each market family.
pub fn ws_domain_from_market_type(market: MarketKind) -> (r: &'static str)
    ensures
        market == MarketKind::Spot ==> r@ == "stream.binance.com"@,
        market == MarketKind::LinearPerps ==> r@ == "fstream.binance.com"@,
        market == MarketKind::InversePerps ==> r@ == "dstream.binance.com"@,
{
    match market {
        MarketKind::Spot => "stream.binance.com",
        MarketKind::LinearPerps => "fstream.binance.com",
        MarketKind::InversePerps => "dstream.binance.com",
    }
}

/// Inverse contracts are worth a fixed power of ten of the quote
/// asset: one hundred for the flagship pair, ten for the rest. Spot
/// and linear instruments have no contract size.
pub fn get_contract_size(ticker: &Ticker, market_type: MarketKind) -> (r: Option<ContractSize>)
    ensures
        market_type != MarketKind::InversePerps ==> r is None,
        market_type == MarketKind::InversePerps ==> (r matches Some(c) && c.power == if ticker.symbol@
            == "BTCUSD_PERP"@ {
            2int
        } else {
            1int
        }),
{
    match market_type {
        MarketKind::Spot | MarketKind::LinearPerps => None,
        MarketKind::InversePerps => {
            if crate::text::str_eq(ticker.as_str(), "BTCUSD_PERP") {
                Some(ContractSize::new(2))
            } else {
                Some(ContractSize::new(1))
            }
        },
    }
}

/// What a raw venue quantity becomes in the display denomination:
/// scaled by the contract size when there is one, converted to whole
/// quote units when the preference asks for it, else kept as is.
pub open spec fn calc_qty_spec(
    qty: Qty,
    price: Price,
    contract_size: Option<ContractSize>,
    size_in_quote: bool,
) -> Option<Qty> {
    match contract_size {
        Some(size) => if qty.units * crate::numeric::pow10(size.power as nat) <= u64::MAX
            && size.power >= 0 {
            Some(Qty { units: (qty.units * crate::numeric::pow10(size.power as nat)) as u64 })
        } else if size.power < 0 {
            Some(
                Qty {
                    units: (qty.units as int / crate::numeric::pow10((-size.power) as nat) as int)
                        as u64,
                },
            )
        } else {
            None
        },
        None => if size_in_quote {
            if price.units >= 0 && crate::numeric::quote_units(qty.units as nat, price.units as nat)
                <= u64::MAX {
                Some(
                    Qty {
                        units: crate::numeric::quote_units(
                            qty.units as nat,
                            price.units as nat,
                        ) as u64,
                    },
                )
            } else {
                None
            }
        } else {
            Some(qty)
        },
    }
}

/// Apply the venue's unit conversion to one quantity.
pub fn calc_qty(qty: Qty, price: Price, contract_size: Option<ContractSize>, size_in_quote: bool)
    -> (r: Option<Qty>)
    requires
        match contract_size {
            Some(c) => c.wf(),
            None => true,
        },
    ensures
        r == calc_qty_spec(qty, price, contract_size, size_in_quote),
{
    match contract_size {
        Some(size) => qty.scale_by_pow10(size.power),
        None => {
            if size_in_quote {
                if price.units >= 0 {
                    qty.to_quote_units(price)
                } else {
                    None
                }
            } else {
                Some(qty)
            }
        },
    }
}


/// Convert every level of a depth payload into the display
/// denomination, with the same unit rule as trades and candles:
/// prices and identifiers stay as they are, each quantity goes
/// through `calc_qty`. None exactly when some level's conversion does
/// not fit.
pub fn convert_depth_payload(
    payload: &DepthPayload,
    contract_size: Option<ContractSize>,
    size_in_quote: bool,
) -> (r: Option<DepthPayload>)
    requires
        match contract_size {
            Some(c) => c.wf(),
            None => true,
        },
    ensures
        r is Some <==> (forall|i: int|
            0 <= i < payload.bids@.len() ==> calc_qty_spec(
                (#[trigger] payload.bids@[i]).qty,
                payload.bids@[i].price,
                contract_size,
                size_in_quote,
            ) is Some) && (forall|i: int|
            0 <= i < payload.asks@.len() ==> calc_qty_spec(
                (#[trigger] payload.asks@[i]).qty,
                payload.asks@[i].price,
                contract_size,
                size_in_quote,
            ) is Some),
        r matches Some(p) ==> ({
            &&& p.last_update_id == payload.last_update_id
            &&& p.time == payload.time
            &&& p.bids@.len() == payload.bids@.len()
            &&& p.asks@.len() == payload.asks@.len()
            &&& forall|i: int|
                0 <= i < p.bids@.len() ==> (#[trigger] p.bids@[i]).price
                    == payload.bids@[i].price && Some(p.bids@[i].qty) == calc_qty_spec(
                    payload.bids@[i].qty,
                    payload.bids@[i].price,
                    contract_size,
                    size_in_quote,
                )
            &&& forall|i: int|
                0 <= i < p.asks@.len() ==> (#[trigger] p.asks@[i]).price
                    == payload.asks@[i].price && Some(p.asks@[i].qty) == calc_qty_spec(
                    payload.asks@[i].qty,
                    payload.asks@[i].price,
                    contract_size,
                    size_in_quote,
                )
            &&& (payload.wf() ==> p.wf())
        }),
{
    let bids: Option<Vec<Level>> = convert_side(&payload.bids, contract_size, size_in_quote);
    let asks: Option<Vec<Level>> = convert_side(&payload.asks, contract_size, size_in_quote);
    match (bids, asks) {
        (Some(b), Some(a)) => Some(
            DepthPayload {
                last_update_id: payload.last_update_id,
                time: payload.time,
                bids: b,
                asks: a,
            },
        ),
        _ => None,
    }
}

/// Convert one side of a payload, level by level.
fn convert_side(
    levels: &Vec<Level>,
    contract_size: Option<ContractSize>,
    size_in_quote: bool,
) -> (r: Option<Vec<Level>>)
    requires
        match contract_size {
            Some(c) => c.wf(),
            None => true,
        },
    ensures
        r is Some <==> forall|i: int|
            0 <= i < levels@.len() ==> calc_qty_spec(
                (#[trigger] levels@[i]).qty,
                levels@[i].price,
                contract_size,
                size_in_quote,
            ) is Some,
        r matches Some(out) ==> ({
            &&& out@.len() == levels@.len()
            &&& forall|i: int|
                0 <= i < out@.len() ==> (#[trigger] out@[i]).price == levels@[i].price
                    && Some(out@[i].qty) == calc_qty_spec(
                    levels@[i].qty,
                    levels@[i].price,
                    contract_size,
                    size_in_quote,
                )
            &&& (levels_in_range(levels@) ==> levels_in_range(out@))
        }),
{
    let mut out: Vec<Level> = Vec::new();
    let n: usize = levels.len();
    let mut i: usize = 0;
    while i < n
        invariant
            0 <= i <= n,
            n == levels@.len(),
            out@.len() == i,
            match contract_size {
                Some(c) => c.wf(),
                None => true,
            },
            forall|k: int|
                0 <= k < i ==> calc_qty_spec(
                    (#[trigger] levels@[k]).qty,
                    levels@[k].price,
                    contract_size,
                    size_in_quote,
                ) is Some,
            forall|k: int|
                0 <= k < i ==> (#[trigger] out@[k]).price == levels@[k].price && Some(
                    out@[k].qty,
                ) == calc_qty_spec(
                    levels@[k].qty,
                    levels@[k].price,
                    contract_size,
                    size_in_quote,
                ),
        decreases n - i,
    {
        let lvl: Level = levels[i];
        match calc_qty(lvl.qty, lvl.price, contract_size, size_in_quote) {
            Some(qty) => {
                out.push(Level { price: lvl.price, qty });
            },
            None => {
                proof {
                    let kw: int = i as int;
                    assert(0 <= kw && kw < levels@.len() && calc_qty_spec(
                        levels@[kw].qty,
                        levels@[kw].price,
                        contract_size,
                        size_in_quote,
                    ) is None);
                }
                return None;
            },
        }
        i = i + 1;
    }
    Some(out)
}

/// A candle frame, decoded and normalized; quantities are base-asset.
pub struct RawKline {
    pub symbol: String,
    pub interval: String,
    pub time: u64,
    pub open: Price,
    pub high: Price,
    pub low: Price,
    pub close: Price,
    pub volume: Qty,
    pub taker_buy_volume: Qty,
}

/// What one stream frame turned out to hold.
pub enum StreamData {
    Trade(RawTrade),
    Depth(DepthPayload, DiffMeta),
    Kline(RawKline),
}

/// Every price of a decoded frame is in the tick-rounding range.
pub open spec fn stream_data_wf(d: StreamData) -> bool {
    match d {
        StreamData::Trade(t) => price_in_range(t.price),
        StreamData::Depth(p, meta) => p.wf() && p.last_update_id == meta.final_id,
        StreamData::Kline(k) => price_in_range(k.open) && price_in_range(k.high)
            && price_in_range(k.low) && price_in_range(k.close) && valid_symbol_text(k.symbol@),
    }
}

/// Which stream a combined-stream frame belongs to, read from the
/// text after '@' in its stream name.
enum StreamTag {
    Trade,
    Depth,
    Kline,
}

/// Classify a combined-stream name: "sym@depth..." carries depth,
/// "sym@aggTrade" trades, "sym@kline_..." candles.
fn classify_stream(s: &str) -> (r: Option<StreamTag>) {
    let n: usize = s.unicode_len();
    let mut i: usize = 0;
    while i < n && s.get_char(i) != '@'
        invariant
            0 <= i <= n,
            n == s@.len(),
        decreases n - i,
    {
        i = i + 1;
    }
    if i < n && n - i > 2 {
        let c1: char = s.get_char(i + 1);
        let c2: char = s.get_char(i + 2);
        if c1 == 'd' && c2 == 'e' {
            Some(StreamTag::Depth)
        } else if c1 == 'a' && c2 == 'g' {
            Some(StreamTag::Trade)
        } else if c1 == 'k' && c2 == 'l' {
            Some(StreamTag::Kline)
        } else {
            None
        }
    } else {
        None
    }
}

/// Decode a trade payload: time "T", price "p", quantity "q", maker
/// flag "m".
fn trade_from_json(data: &serde_json::Value) -> (r: Option<RawTrade>)
    ensures
        r is Some ==> price_in_range(r->0.price),
{
    let time: u64 = match json_get(data, "T") {
        Some(v) => match parse_json_u64(v) {
            Some(t) => t,
            None => {
                return None;
            },
        },
        None => {
            return None;
        },
    };
    let price: Price = match json_get(data, "p") {
        Some(v) => match parse_json_price(v) {
            Some(p) => p,
            None => {
                return None;
            },
        },
        None => {
            return None;
        },
    };
    let qty: Qty = match json_get(data, "q") {
        Some(v) => match parse_json_qty(v) {
            Some(q) => q,
            None => {
                return None;
            },
        },
        None => {
            return None;
        },
    };
    let is_sell: bool = match json_get(data, "m") {
        Some(v) => match json_as_bool(v) {
            Some(b) => b,
            None => {
                return None;
            },
        },
        None => {
            return None;
        },
    };
    Some(RawTrade { time, price, qty, is_sell })
}

/// Decode a depth diff: identifier range "U".."u" (and the previous
/// final "pu" on perpetuals), event time, and the changed levels.
fn depth_from_json(data: &serde_json::Value, market: MarketKind) -> (r: Option<(
    DepthPayload,
    DiffMeta,
)>)
    ensures
        r matches Some(pm) ==> pm.0.wf() && pm.0.last_update_id == pm.1.final_id,
{
    let time_key: &str = match market {
        MarketKind::Spot => "E",
        MarketKind::LinearPerps | MarketKind::InversePerps => "T",
    };
    let time: u64 = match json_get(data, time_key) {
        Some(v) => match parse_json_u64(v) {
            Some(t) => t,
            None => {
                return None;
            },
        },
        None => {
            return None;
        },
    };
    let first_id: u64 = match json_get(data, "U") {
        Some(v) => match parse_json_u64(v) {
            Some(t) => t,
            None => {
                return None;
            },
        },
        None => {
            return None;
        },
    };
    let final_id: u64 = match json_get(data, "u") {
        Some(v) => match parse_json_u64(v) {
            Some(t) => t,
            None => {
                return None;
            },
        },
        None => {
            return None;
        },
    };
    let prev_final_id: u64 = match market {
        MarketKind::Spot => 0,
        MarketKind::LinearPerps | MarketKind::InversePerps => match json_get(data, "pu") {
            Some(v) => match parse_json_u64(v) {
                Some(t) => t,
                None => {
                    return None;
                },
            },
            None => {
                return None;
            },
        },
    };
    let bids: Vec<Level> = match json_get(data, "b") {
        Some(v) => match parse_json_levels(v) {
            Some(l) => l,
            None => {
                return None;
            },
        },
        None => {
            return None;
        },
    };
    let asks: Vec<Level> = match json_get(data, "a") {
        Some(v) => match parse_json_levels(v) {
            Some(l) => l,
            None => {
                return None;
            },
        },
        None => {
            return None;
        },
    };
    let payload: DepthPayload = DepthPayload { last_update_id: final_id, time, bids, asks };
    let meta: DiffMeta = DiffMeta { first_id, final_id, prev_final_id };
    Some((payload, meta))
}

/// Decode a candle wrapper: symbol "s" and the candle object "k" with
/// time, prices, base volume "v" and taker-buy base volume "V".
fn kline_from_json(data: &serde_json::Value) -> (r: Option<RawKline>)
    ensures
        r is Some ==> price_in_range(r->0.open) && price_in_range(r->0.high) && price_in_range(
            r->0.low,
        ) && price_in_range(r->0.close) && valid_symbol_text(r->0.symbol@),
{
    let symbol: String = match json_get(data, "s") {
        Some(v) => match json_as_str(v) {
            Some(s) => s.to_owned(),
            None => {
                return None;
            },
        },
        None => {
            return None;
        },
    };
    if !crate::symbol_is_valid(symbol.as_str()) {
        return None;
    }
    let k: &serde_json::Value = match json_get(data, "k") {
        Some(v) => v,
        None => {
            return None;
        },
    };
    let time: u64 = match json_get(k, "t") {
        Some(v) => match parse_json_u64(v) {
            Some(t) => t,
            None => {
                return None;
            },
        },
        None => {
            return None;
        },
    };
    let interval: String = match json_get(k, "i") {
        Some(v) => match json_as_str(v) {
            Some(s) => s.to_owned(),
            None => {
                return None;
            },
        },
        None => {
            return None;
        },
    };
    let open: Price = match json_get(k, "o") {
        Some(v) => match parse_json_price(v) {
            Some(p) => p,
            None => {
                return None;
            },
        },
        None => {
            return None;
        },
    };
    let high: Price = match json_get(k, "h") {
        Some(v) => match parse_json_price(v) {
            Some(p) => p,
            None => {
                return None;
            },
        },
        None => {
            return None;
        },
    };
    let low: Price = match json_get(k, "l") {
        Some(v) => match parse_json_price(v) {
            Some(p) => p,
            None => {
                return None;
            },
        },
        None => {
            return None;
        },
    };
    let close: Price = match json_get(k, "c") {
        Some(v) => match parse_json_price(v) {
            Some(p) => p,
            None => {
                return None;
            },
        },
        None => {
            return None;
        },
    };
    let volume: Qty = match json_get(k, "v") {
        Some(v) => match parse_json_qty(v) {
            Some(q) => q,
            None => {
                return None;
            },
        },
        None => {
            return None;
        },
    };
    let taker_buy_volume: Qty = match json_get(k, "V") {
        Some(v) => match parse_json_qty(v) {
            Some(q) => q,
            None => {
                return None;
            },
        },
        None => {
            return None;
        },
    };
    Some(RawKline { symbol, interval, time, open, high, low, close, volume, taker_buy_volume })
}

/// Decode one combined-stream frame: its "stream" name selects the
/// decoder for its "data" object. Whatever the frame held, every price
/// that comes out is in the tick-rounding range, and a depth payload's
/// identifier matches its declared range.
pub fn feed_de(slice: &[u8], market: MarketKind) -> (r: Result<StreamData, AdapterError>)
    ensures
        r is Ok ==> stream_data_wf(r->Ok_0),
        !crate::json::json_parses(slice@) ==> r is Err,
{
    let v: serde_json::Value = match json_parse(slice) {
        Some(v) => v,
        None => {
            return Err(AdapterError::ParseError("Invalid JSON frame".to_owned()));
        },
    };
    let stream_name: &serde_json::Value = match json_get(&v, "stream") {
        Some(s) => s,
        None => {
            return Err(AdapterError::ParseError("Frame without stream name".to_owned()));
        },
    };
    let tag: StreamTag = match json_as_str(stream_name) {
        Some(s) => match classify_stream(s) {
            Some(t) => t,
            None => {
                return Err(AdapterError::ParseError("Unknown stream type".to_owned()));
            },
        },
        None => {
            return Err(AdapterError::ParseError("Stream name is not text".to_owned()));
        },
    };
    let data: &serde_json::Value = match json_get(&v, "data") {
        Some(d) => d,
        None => {
            return Err(AdapterError::ParseError("Frame without data".to_owned()));
        },
    };
    match tag {
        StreamTag::Trade => match trade_from_json(data) {
            Some(t) => Ok(StreamData::Trade(t)),
            None => Err(AdapterError::ParseError("Malformed trade frame".to_owned())),
        },
        StreamTag::Depth => match depth_from_json(data, market) {
            Some((payload, meta)) => Ok(StreamData::Depth(payload, meta)),
            None => Err(AdapterError::ParseError("Malformed depth frame".to_owned())),
        },
        StreamTag::Kline => match kline_from_json(data) {
            Some(k) => Ok(StreamData::Kline(k)),
            None => Err(AdapterError::ParseError("Malformed kline frame".to_owned())),
        },
    }
}

/// The (buy, sell) volume pair of a candle from the venue's totals:
/// the taker-buy volume and the remainder (never below zero), each
/// converted by the market's unit rule.
pub open spec fn kline_volumes_spec(
    total: Qty,
    taker_buy: Qty,
    close: Price,
    contract_size: Option<ContractSize>,
    size_in_quote: bool,
) -> Option<crate::VolumePair> {
    let sell_raw = Qty {
        units: if total.units >= taker_buy.units {
            (total.units - taker_buy.units) as u64
        } else {
            0
        },
    };
    match (
        calc_qty_spec(taker_buy, close, contract_size, size_in_quote),
        calc_qty_spec(sell_raw, close, contract_size, size_in_quote),
    ) {
        (Some(buy), Some(sell)) => Some(crate::VolumePair { buy, sell }),
        _ => None,
    }
}

/// Split a candle's volume into the converted (buy, sell) pair.
pub fn kline_volumes(
    total: Qty,
    taker_buy: Qty,
    close: Price,
    contract_size: Option<ContractSize>,
    size_in_quote: bool,
) -> (r: Option<crate::VolumePair>)
    requires
        match contract_size {
            Some(c) => c.wf(),
            None => true,
        },
    ensures
        r == kline_volumes_spec(total, taker_buy, close, contract_size, size_in_quote),
{
    let sell_units: u64 = if total.units >= taker_buy.units {
        total.units - taker_buy.units
    } else {
        0
    };
    let buy: Option<Qty> = calc_qty(taker_buy, close, contract_size, size_in_quote);
    let sell: Option<Qty> = calc_qty(Qty { units: sell_units }, close, contract_size,
        size_in_quote);
    match (buy, sell) {
        (Some(b), Some(s)) => Some(crate::VolumePair { buy: b, sell: s }),
        _ => None,
    }
}

/// Normalize the candle rows of a history fetch: each row an array
/// with the open time, the four prices as text, the base volume at
/// index five and the taker-buy base volume at index nine.
pub fn normalize_klines(
    body: &[u8],
    min_ticksize: crate::numeric::MinTicksize,
    contract_size: Option<ContractSize>,
    size_in_quote: bool,
) -> (r: Result<Vec<crate::Kline>, AdapterError>)
    requires
        min_ticksize.wf(),
        match contract_size {
            Some(c) => c.wf(),
            None => true,
        },
    ensures
        !crate::json::json_parses(body@) ==> r is Err,
        r matches Ok(ks) ==> forall|i: int|
            0 <= i < ks.len() ==> crate::kline_on_tick(#[trigger] ks@[i], min_ticksize),
{
    let v: serde_json::Value = match json_parse(body) {
        Some(v) => v,
        None => {
            return Err(AdapterError::ParseError("Invalid kline JSON".to_owned()));
        },
    };
    let rows: &Vec<serde_json::Value> = match json_as_array(&v) {
        Some(a) => a,
        None => {
            return Err(AdapterError::ParseError("Kline payload is not an array".to_owned()));
        },
    };
    let mut out: Vec<crate::Kline> = Vec::new();
    let n: usize = rows.len();
    let mut i: usize = 0;
    while i < n
        invariant
            0 <= i <= n,
            n == rows@.len(),
            min_ticksize.wf(),
            match contract_size {
                Some(c) => c.wf(),
                None => true,
            },
            forall|k: int|
                0 <= k < out.len() ==> crate::kline_on_tick(#[trigger] out@[k], min_ticksize),
        decreases n - i,
    {
        let row: &serde_json::Value = &rows[i];
        let candle: crate::adapter::RawCandle = match crate::adapter::parse_candle_row(row) {
            Some(c) => c,
            None => {
                return Err(AdapterError::ParseError("Malformed kline row".to_owned()));
            },
        };
        let taker_buy: Qty = match crate::json::json_get_index(row, 9) {
            Some(t) => match parse_json_qty(t) {
                Some(q) => q,
                None => {
                    return Err(AdapterError::ParseError("Bad taker volume".to_owned()));
                },
            },
            None => {
                return Err(AdapterError::ParseError("Missing taker volume".to_owned()));
            },
        };
        let volume: crate::VolumePair = match kline_volumes(candle.volume, taker_buy,
            candle.close, contract_size, size_in_quote) {
            Some(vp) => vp,
            None => {
                return Err(AdapterError::ParseError("Volume out of range".to_owned()));
            },
        };
        out.push(
            crate::Kline::new(
                candle.time,
                candle.open,
                candle.high,
                candle.low,
                candle.close,
                volume,
                min_ticksize,
            ),
        );
        i = i + 1;
    }
    Ok(out)
}

/// Normalize a 24-hour statistics payload into (ticker, stats) rows,
/// skipping symbols the model does not support. Inverse-market volumes
/// are scaled by the contract size; other markets report quote volume
/// directly.
pub fn normalize_ticker_prices(body: &[u8], market: MarketKind) -> (r: Result<
    Vec<(Ticker, crate::TickerStats)>,
    AdapterError,
>)
    ensures
        !crate::json::json_parses(body@) ==> r is Err,
        r matches Ok(rows) ==> forall|i: int|
            0 <= i < rows.len() ==> ({
                &&& (#[trigger] rows@[i]).0.wf()
                &&& rows@[i].0.exchange == exchange_of(market)
                &&& price_in_range(rows@[i].1.mark_price)
                &&& price_in_range(rows@[i].1.daily_price_chg)
            }),
{
    let v: serde_json::Value = match json_parse(body) {
        Some(v) => v,
        None => {
            return Err(AdapterError::ParseError("Invalid stats JSON".to_owned()));
        },
    };
    let rows: &Vec<serde_json::Value> = match json_as_array(&v) {
        Some(a) => a,
        None => {
            return Err(AdapterError::ParseError("Stats payload is not an array".to_owned()));
        },
    };
    let exchange: Exchange = exchange_from_market_type(market);
    let mut out: Vec<(Ticker, crate::TickerStats)> = Vec::new();
    let n: usize = rows.len();
    let mut i: usize = 0;
    while i < n
        invariant
            0 <= i <= n,
            n == rows@.len(),
            exchange == exchange_of(market),
            forall|k: int|
                0 <= k < out.len() ==> ({
                    &&& (#[trigger] out@[k]).0.wf()
                    &&& out@[k].0.exchange == exchange_of(market)
                    &&& price_in_range(out@[k].1.mark_price)
                    &&& price_in_range(out@[k].1.daily_price_chg)
                }),
        decreases n - i,
    {
        let item: &serde_json::Value = &rows[i];
        let symbol: &str = match json_get(item, "symbol") {
            Some(s) => match json_as_str(s) {
                Some(ss) => ss,
                None => {
                    return Err(AdapterError::ParseError("Symbol not found".to_owned()));
                },
            },
            None => {
                return Err(AdapterError::ParseError("Symbol not found".to_owned()));
            },
        };
        if crate::is_symbol_supported(symbol, exchange, false) && crate::symbol_is_valid(
            symbol,
        ) {
            let last_price: Price = match json_get(item, "lastPrice") {
                Some(p) => match parse_json_price(p) {
                    Some(pp) => pp,
                    None => {
                        return Err(AdapterError::ParseError("Bad last price".to_owned()));
                    },
                },
                None => {
                    return Err(AdapterError::ParseError("Last price not found".to_owned()));
                },
            };
            let change_pct: Price = match json_get(item, "priceChangePercent") {
                Some(p) => match parse_json_price(p) {
                    Some(pp) => pp,
                    None => {
                        return Err(AdapterError::ParseError("Bad price change".to_owned()));
                    },
                },
                None => {
                    return Err(AdapterError::ParseError("Price change not found".to_owned()));
                },
            };
            let volume_key: &str = match market {
                MarketKind::Spot | MarketKind::LinearPerps => "quoteVolume",
                MarketKind::InversePerps => "volume",
            };
            let volume: Qty = match json_get(item, volume_key) {
                Some(q) => match parse_json_qty(q) {
                    Some(qq) => qq,
                    None => {
                        return Err(AdapterError::ParseError("Bad volume".to_owned()));
                    },
                },
                None => {
                    return Err(AdapterError::ParseError("Volume not found".to_owned()));
                },
            };
            let ticker: Ticker = Ticker::new(symbol, exchange);
            let daily_volume: Qty = match get_contract_size(&ticker, market) {
                Some(cs) => match volume.scale_by_pow10(cs.power) {
                    Some(scaled) => scaled,
                    None => {
                        return Err(AdapterError::ParseError("Volume out of range".to_owned()));
                    },
                },
                None => volume,
            };
            out.push(
                (
                    ticker,
                    crate::TickerStats {
                        mark_price: last_price,
                        daily_price_chg: change_pct,
                        daily_volume,
                    },
                ),
            );
        }
        i = i + 1;
    }
    Ok(out)
}

/// Normalize an open-interest history payload: each row a "timestamp"
/// and a "sumOpenInterest" text, scaled by the contract size when the
/// instrument has one.
pub fn normalize_open_interest(body: &[u8], contract_size: Option<ContractSize>) -> (r: Result<
    Vec<crate::OpenInterest>,
    AdapterError,
>)
    requires
        match contract_size {
            Some(c) => c.wf(),
            None => true,
        },
    ensures
        !crate::json::json_parses(body@) ==> r is Err,
        match contract_size {
            Some(c) => c.power >= 0 ==> (r matches Ok(rows) ==> forall|i: int|
                0 <= i < rows.len() ==> (#[trigger] rows@[i]).value.units as int % (
                crate::numeric::pow10(c.power as nat) as int) == 0),
            None => true,
        },
{
    let v: serde_json::Value = match json_parse(body) {
        Some(v) => v,
        None => {
            return Err(AdapterError::ParseError("Invalid open-interest JSON".to_owned()));
        },
    };
    let rows: &Vec<serde_json::Value> = match json_as_array(&v) {
        Some(a) => a,
        None => {
            return Err(
                AdapterError::ParseError("Open-interest payload is not an array".to_owned()),
            );
        },
    };
    let mut out: Vec<crate::OpenInterest> = Vec::new();
    let n: usize = rows.len();
    let mut i: usize = 0;
    while i < n
        invariant
            0 <= i <= n,
            n == rows@.len(),
            match contract_size {
                Some(c) => c.wf(),
                None => true,
            },
            match contract_size {
                Some(c) => c.power >= 0 ==> forall|k: int|
                    0 <= k < out.len() ==> (#[trigger] out@[k]).value.units as int % (
                    crate::numeric::pow10(c.power as nat) as int) == 0,
                None => true,
            },
        decreases n - i,
    {
        let item: &serde_json::Value = &rows[i];
        let time: u64 = match json_get(item, "timestamp") {
            Some(t) => match parse_json_u64(t) {
                Some(tt) => tt,
                None => {
                    return Err(AdapterError::ParseError("Bad timestamp".to_owned()));
                },
            },
            None => {
                return Err(AdapterError::ParseError("Missing timestamp".to_owned()));
            },
        };
        let sum: Qty = match json_get(item, "sumOpenInterest") {
            Some(s) => match parse_json_qty(s) {
                Some(q) => q,
                None => {
                    return Err(AdapterError::ParseError("Bad open interest".to_owned()));
                },
            },
            None => {
                return Err(AdapterError::ParseError("Missing open interest".to_owned()));
            },
        };
        let value: Qty = match contract_size {
            Some(cs) => match sum.scale_by_pow10(cs.power) {
                Some(scaled) => scaled,
                None => {
                    return Err(
                        AdapterError::ParseError("Open interest out of range".to_owned()),
                    );
                },
            },
            None => sum,
        };
        proof {
            match contract_size {
                Some(cs) => {
                    if cs.power >= 0 {
                        crate::numeric::lemma_pow10_monotone(cs.power as nat, cs.power as nat);
                        vstd::arithmetic::div_mod::lemma_mod_multiples_basic(
                            sum.units as int,
                            crate::numeric::pow10(cs.power as nat) as int,
                        );
                    }
                },
                None => {},
            }
        }
        out.push(crate::OpenInterest { time, value });
        i = i + 1;
    }
    Ok(out)
}

/// Normalize an aggregated-trades payload: each row carries the same
/// fields as a trade stream frame.
pub fn normalize_trades(body: &[u8]) -> (r: Result<Vec<RawTrade>, AdapterError>)
    ensures
        r is Ok ==> forall|i: int|
            0 <= i < r->Ok_0.len() ==> price_in_range((#[trigger] r->Ok_0@[i]).price),
        !crate::json::json_parses(body@) ==> r is Err,
{
    let v: serde_json::Value = match json_parse(body) {
        Some(v) => v,
        None => {
            return Err(AdapterError::ParseError("Invalid trades JSON".to_owned()));
        },
    };
    let rows: &Vec<serde_json::Value> = match json_as_array(&v) {
        Some(a) => a,
        None => {
            return Err(AdapterError::ParseError("Trades payload is not an array".to_owned()));
        },
    };
    let mut out: Vec<RawTrade> = Vec::new();
    let n: usize = rows.len();
    let mut i: usize = 0;
    while i < n
        invariant
            0 <= i <= n,
            n == rows@.len(),
            forall|k: int| 0 <= k < out.len() ==> price_in_range((#[trigger] out@[k]).price),
        decreases n - i,
    {
        match trade_from_json(&rows[i]) {
            Some(t) => {
                out.push(t);
            },
            None => {
                return Err(AdapterError::ParseError("Malformed trade row".to_owned()));
            },
        }
        i = i + 1;
    }
    Ok(out)
}

/// Normalize one archived-trade record, whose fields arrive as plain
/// text columns: price, quantity, trade time and the sell flag.
pub fn trade_from_archive_record(
    price_text: &str,
    qty_text: &str,
    time_text: &str,
    is_sell_text: &str,
) -> (r: Option<RawTrade>)
    ensures
        r is Some ==> price_in_range(r->0.price),
        r is Some ==> ({
            &&& r->0.price.units == crate::text::decimal_units(price_text@)
            &&& r->0.qty.units == crate::text::decimal_units(qty_text@)
            &&& r->0.time == crate::text::digits_to_nat(time_text@)
            &&& r->0.is_sell == (is_sell_text@ == "true"@)
        }),
{
    let price: Price = match crate::adapter::parse_price_text(price_text) {
        Some(p) => p,
        None => {
            return None;
        },
    };
    let qty: Qty = match crate::adapter::parse_qty_text(qty_text) {
        Some(q) => q,
        None => {
            return None;
        },
    };
    let time: u64 = match crate::text::parse_u64(time_text) {
        Some(t) => t,
        None => {
            return None;
        },
    };
    let is_sell: bool = if crate::text::str_eq(is_sell_text, "true") {
        true
    } else if crate::text::str_eq(is_sell_text, "false") {
        false
    } else {
        return None;
    };
    Some(RawTrade { time, price, qty, is_sell })
}

/// Normalize the instrument-metadata payload: keep supported symbols
/// whose contract type (when present) is perpetual, whose quote asset
/// is a dollar unit, and whose status is trading or halted; read the
/// tick size from the price filter and the minimum quantity from the
/// lot-size filter.
pub fn normalize_exchange_info(body: &[u8], market: MarketKind) -> (r: Result<
    Vec<(Ticker, Option<crate::TickerInfo>)>,
    AdapterError,
>)
    ensures
        !crate::json::json_parses(body@) ==> r is Err,
        r matches Ok(rows) ==> forall|i: int|
            0 <= i < rows.len() ==> ({
                &&& (#[trigger] rows@[i]).0.wf()
                &&& rows@[i].0.exchange == exchange_of(market)
                &&& (rows@[i].1 matches Some(info) ==> info.min_ticksize.wf()
                    && info.min_qty.wf() && (info.contract_size matches Some(c) ==> c.wf()))
            }),
{
    let v: serde_json::Value = match json_parse(body) {
        Some(v) => v,
        None => {
            return Err(AdapterError::ParseError("Invalid exchange info".to_owned()));
        },
    };
    let symbols: &Vec<serde_json::Value> = match json_get(&v, "symbols") {
        Some(s) => match json_as_array(s) {
            Some(a) => a,
            None => {
                return Err(AdapterError::ParseError("Missing symbols array".to_owned()));
            },
        },
        None => {
            return Err(AdapterError::ParseError("Missing symbols array".to_owned()));
        },
    };
    let exchange: Exchange = exchange_from_market_type(market);
    let mut out: Vec<(Ticker, Option<crate::TickerInfo>)> = Vec::new();
    let n: usize = symbols.len();
    let mut i: usize = 0;
    while i < n
        invariant
            0 <= i <= n,
            n == symbols@.len(),
            exchange == exchange_of(market),
            forall|k: int|
                0 <= k < out.len() ==> ({
                    &&& (#[trigger] out@[k]).0.wf()
                    &&& out@[k].0.exchange == exchange_of(market)
                    &&& (out@[k].1 matches Some(info) ==> info.min_ticksize.wf()
                        && info.min_qty.wf() && (info.contract_size matches Some(c)
                        ==> c.wf()))
                }),
        decreases n - i,
    {
        let item: &serde_json::Value = &symbols[i];
        match instrument_from_json(item, exchange) {
            Ok(Some(row)) => {
                out.push(row);
            },
            Ok(None) => {},
            Err(e) => {
                return Err(e);
            },
        }
        i = i + 1;
    }
    Ok(out)
}

/// One instrument row of the metadata payload: None for a row the
/// market filters drop (wrong contract type, quote asset or status,
/// or an unsupported symbol), an error where the row itself is
/// malformed — the whole fetch fails on a missing symbol, filter list,
/// lot size, or tick size, as the reference behavior does.
fn instrument_from_json(item: &serde_json::Value, exchange: Exchange) -> (r: Result<
    Option<(Ticker, Option<crate::TickerInfo>)>,
    AdapterError,
>)
    ensures
        r matches Ok(Some(row)) ==> ({
            &&& row.0.wf()
            &&& row.0.exchange == exchange
            &&& (row.1 matches Some(info) ==> info.min_ticksize.wf() && info.min_qty.wf()
                && (info.contract_size matches Some(c) ==> c.wf()))
        }),
{
    let symbol: &str = match json_get(item, "symbol") {
        Some(s) => match json_as_str(s) {
            Some(ss) => ss,
            None => {
                return Err(AdapterError::ParseError("Missing symbol".to_owned()));
            },
        },
        None => {
            return Err(AdapterError::ParseError("Missing symbol".to_owned()));
        },
    };
    if !crate::is_symbol_supported(symbol, exchange, true) || !crate::symbol_is_valid(symbol) {
        return Ok(None);
    }
    match json_get(item, "contractType") {
        Some(ct) => match json_as_str(ct) {
            Some(s) => {
                if !crate::text::str_eq(s, "PERPETUAL") {
                    return Ok(None);
                }
            },
            None => {},
        },
        None => {},
    }
    match json_get(item, "quoteAsset") {
        Some(qa) => match json_as_str(qa) {
            Some(s) => {
                if !crate::text::str_eq(s, "USDT") && !crate::text::str_eq(s, "USD") {
                    return Ok(None);
                }
            },
            None => {},
        },
        None => {},
    }
    match json_get(item, "status") {
        Some(st) => match json_as_str(st) {
            Some(s) => {
                if !crate::text::str_eq(s, "TRADING") && !crate::text::str_eq(s, "HALT") {
                    return Ok(None);
                }
            },
            None => {},
        },
        None => {},
    }
    let filters: &Vec<serde_json::Value> = match json_get(item, "filters") {
        Some(f) => match json_as_array(f) {
            Some(a) => a,
            None => {
                return Err(AdapterError::ParseError("Missing filters array".to_owned()));
            },
        },
        None => {
            return Err(AdapterError::ParseError("Missing filters array".to_owned()));
        },
    };
    let mut price_filter_seen: bool = false;
    let mut tick_units: Option<i64> = None;
    let mut min_qty_units: Option<u64> = None;
    let m: usize = filters.len();
    let mut j: usize = 0;
    while j < m
        invariant
            0 <= j <= m,
            m == filters@.len(),
        decreases m - j,
    {
        let f: &serde_json::Value = &filters[j];
        match json_get(f, "filterType") {
            Some(ft) => match json_as_str(ft) {
                Some(name) => {
                    if crate::text::str_eq(name, "PRICE_FILTER") {
                        price_filter_seen = true;
                        match json_get(f, "tickSize") {
                            Some(ts) => match parse_json_price(ts) {
                                Some(p) => {
                                    tick_units = Some(p.units);
                                },
                                None => {},
                            },
                            None => {},
                        }
                    } else if crate::text::str_eq(name, "LOT_SIZE") {
                        match json_get(f, "minQty") {
                            Some(mq) => match parse_json_qty(mq) {
                                Some(q) => {
                                    min_qty_units = Some(q.units);
                                },
                                None => {},
                            },
                            None => {},
                        }
                    }
                },
                None => {},
            },
            None => {},
        }
        j = j + 1;
    }
    let min_qty_val: u64 = match min_qty_units {
        Some(q) => q,
        None => {
            return Err(
                AdapterError::ParseError("Missing minQty in LOT_SIZE filter".to_owned()),
            );
        },
    };
    let contract_size: Option<crate::numeric::ContractSize> = match json_get(
        item,
        "contractSize",
    ) {
        Some(cs) => match parse_json_qty(cs) {
            Some(q) => {
                if q.units <= i64::MAX as u64 {
                    Some(crate::numeric::ContractSize::from_units(q.units as i64))
                } else {
                    None
                }
            },
            None => None,
        },
        None => None,
    };
    let ticker: Ticker = Ticker::new(symbol, exchange);
    match tick_units {
        Some(tu) => {
            let info: crate::TickerInfo = crate::TickerInfo::new(
                ticker.clone(),
                crate::numeric::MinTicksize::from_units(tu),
                crate::numeric::MinQtySize::from_units(
                    if min_qty_val <= i64::MAX as u64 {
                        min_qty_val as i64
                    } else {
                        i64::MAX
                    },
                ),
                contract_size,
            );
            Ok(Some((ticker, Some(info))))
        },
        None => {
            if price_filter_seen {
                return Err(AdapterError::ParseError("tickSize not found".to_owned()));
            }
            Ok(Some((ticker, None)))
        },
    }
}

/// Normalize a fetched order-book snapshot: "lastUpdateId", the
/// levels of both sides, and the venue time "T" on perpetuals (the
/// caller supplies the clock for spot, which reports none).
pub fn parse_fetched_depth(body: &[u8], market: MarketKind, now_ms: u64) -> (r: Result<
    DepthPayload,
    AdapterError,
>)
    ensures
        r is Ok ==> r->Ok_0.wf(),
        !crate::json::json_parses(body@) ==> r is Err,
{
    let v: serde_json::Value = match json_parse(body) {
        Some(v) => v,
        None => {
            return Err(AdapterError::ParseError("Invalid snapshot JSON".to_owned()));
        },
    };
    let update_id: u64 = match json_get(&v, "lastUpdateId") {
        Some(u) => match parse_json_u64(u) {
            Some(t) => t,
            None => {
                return Err(AdapterError::ParseError("Bad lastUpdateId".to_owned()));
            },
        },
        None => {
            return Err(AdapterError::ParseError("Missing lastUpdateId".to_owned()));
        },
    };
    let time: u64 = match market {
        MarketKind::Spot => now_ms,
        MarketKind::LinearPerps | MarketKind::InversePerps => match json_get(&v, "T") {
            Some(t) => match parse_json_u64(t) {
                Some(tt) => tt,
                None => {
                    return Err(AdapterError::ParseError("Bad snapshot time".to_owned()));
                },
            },
            None => {
                return Err(AdapterError::ParseError("Missing snapshot time".to_owned()));
            },
        },
    };
    let bids: Vec<Level> = match json_get(&v, "bids") {
        Some(b) => match parse_json_levels(b) {
            Some(l) => l,
            None => {
                return Err(AdapterError::ParseError("Malformed bids".to_owned()));
            },
        },
        None => {
            return Err(AdapterError::ParseError("Missing bids".to_owned()));
        },
    };
    let asks: Vec<Level> = match json_get(&v, "asks") {
        Some(a) => match parse_json_levels(a) {
            Some(l) => l,
            None => {
                return Err(AdapterError::ParseError("Malformed asks".to_owned()));
            },
        },
        None => {
            return Err(AdapterError::ParseError("Missing asks".to_owned()));
        },
    };
    Ok(DepthPayload { last_update_id: update_id, time, bids, asks })
}

} // verus!
