//! The OKX adapter: a fixed-window limiter, stream decoding for its
//! books and trades channels, and normalization of its REST payloads.

use vstd::prelude::*;

use crate::adapter::{RawTrade, parse_candle_row, parse_json_price, parse_json_qty,
    parse_qty_text, pct_change, price_in_range};
use crate::depth::{DepthPayload, Level};
use crate::json::{json_as_array, json_as_str, json_get, json_get_index, json_parse};
use crate::limiter::FixedWindowBucket;
use crate::numeric::{ContractSize, MinQtySize, MinTicksize, Price, Qty, scale_by_pow10_spec,
    to_quote_units_spec};
use crate::{AdapterError, Exchange, Kline, MarketKind, Ticker, TickerInfo, TickerStats,
    Timeframe, VolumePair};

verus! {

/// Requests allowed per window.
pub const LIMIT: usize = 20;

/// The venue's declared window: two seconds.
pub const REFILL_RATE_MS: u64 = 2_000;

/// The venue's rate limiter: a fixed window sized at the declared
/// limit shrunk by a five percent safety margin.
pub struct OkexLimiter {
    pub bucket: FixedWindowBucket,
}

impl OkexLimiter {
    /// The declared limit shrunk by the safety margin.
    pub open spec fn effective_limit(limit: usize) -> int {
        limit - (limit * 5) / 100
    }

    pub fn new(limit: usize, refill_rate_ms: u64, now_ms: u64) -> (r: Self)
        requires
            limit <= 1_000_000,
            1000 <= refill_rate_ms <= 100_000_000_000,
            refill_rate_ms % 1000 == 0,
        ensures
            r.bucket.wf(),
            r.bucket.max_tokens == Self::effective_limit(limit),
            r.bucket.available_tokens == Self::effective_limit(limit),
            r.bucket.refill_rate_ms == refill_rate_ms,
            r.bucket.last_refill_ms == now_ms,
    {
        proof {
            assert((limit * 5) / 100 <= limit * 5) by (nonlinear_arith)
                requires
                    limit >= 0,
            ;
        }
        let margin: usize = (limit * 5) / 100;
        let effective_limit: usize = limit - margin;
        OkexLimiter { bucket: FixedWindowBucket::new(effective_limit, refill_rate_ms, now_ms) }
    }

    /// Must run before each request; an answer asks the caller to
    /// sleep that many milliseconds first.
    pub fn prepare_request(&mut self, weight: usize, now_ms: u64) -> (r: Option<u64>)
        requires
            old(self).bucket.wf(),
            now_ms >= old(self).bucket.last_refill_ms,
        ensures
            final(self).bucket.wf(),
            ({
                let b = old(self).bucket.refilled(now_ms);
                &&& (r is None <==> b.available_tokens >= weight)
                &&& (r is Some ==> 0 < r->0 <= b.refill_rate_ms)
            }),
    {
        self.bucket.calculate_wait_time(weight, now_ms)
    }

    /// Deduct the weight the completed request consumed, at most what
    /// the refilled budget still holds.
    pub fn update_from_response(&mut self, weight: usize, now_ms: u64)
        requires
            old(self).bucket.wf(),
            now_ms >= old(self).bucket.last_refill_ms,
        ensures
            final(self).bucket.wf(),
            ({
                let b = old(self).bucket.refilled(now_ms);
                final(self).bucket == (FixedWindowBucket {
                    available_tokens: (b.available_tokens - vstd::math::min(
                        weight as int,
                        b.available_tokens as int,
                    )) as usize,
                    ..b
                })
            }),
    {
        self.bucket.consume_tokens(weight, now_ms);
    }

    /// A throttling status is terminal for the process.
    pub fn should_exit_on_status(&self, status: u16) -> (r: bool)
        ensures
            r == (status == 429),
    {
        status == 429
    }
}

/// The venue's instrument-type parameter for each market family.
pub fn okx_inst_type(m: MarketKind) -> (r: &'static str)
    ensures
        m == MarketKind::Spot ==> r@ == "SPOT"@,
        m != MarketKind::Spot ==> r@ == "SWAP"@,
{
    match m {
        MarketKind::Spot => "SPOT",
        MarketKind::LinearPerps | MarketKind::InversePerps => "SWAP",
    }
}

/// The venue's candle-channel name for an interval; sub-minute
/// intervals have none.
pub fn timeframe_to_okx_bar(tf: Timeframe) -> (r: Option<&'static str>)
    ensures
        r is Some <==> !tf.is_subminute(),
{
    match tf {
        Timeframe::M1 => Some("1m"),
        Timeframe::M3 => Some("3m"),
        Timeframe::M5 => Some("5m"),
        Timeframe::M15 => Some("15m"),
        Timeframe::M30 => Some("30m"),
        Timeframe::H1 => Some("1H"),
        Timeframe::H2 => Some("2H"),
        Timeframe::H4 => Some("4H"),
        Timeframe::H12 => Some("12Hutc"),
        Timeframe::D1 => Some("1Dutc"),
        _ => None,
    }
}

/// The venue's unit conversion: contracts scale by the contract size;
/// on inverse markets the contract is already quote-denominated, so
/// only the quote preference multiplies by it; elsewhere the quote
/// preference further converts through the price.
pub open spec fn calc_qty_spec(
    qty: Qty,
    price: Price,
    size_in_quote: bool,
    contract_size: Option<ContractSize>,
    market: MarketKind,
) -> Option<Qty> {
    match contract_size {
        Some(cs) => {
            if market == MarketKind::InversePerps {
                if size_in_quote {
                    scale_by_pow10_spec(qty, cs.power)
                } else {
                    Some(qty)
                }
            } else {
                match scale_by_pow10_spec(qty, cs.power) {
                    Some(scaled) => if size_in_quote {
                        to_quote_units_spec(scaled, price)
                    } else {
                        Some(scaled)
                    },
                    None => None,
                }
            }
        },
        None => if size_in_quote {
            to_quote_units_spec(qty, price)
        } else {
            Some(qty)
        },
    }
}

/// Apply the venue's unit conversion to one quantity.
pub fn calc_qty(
    qty: Qty,
    price: Price,
    size_in_quote: bool,
    contract_size: Option<ContractSize>,
    market: MarketKind,
) -> (r: Option<Qty>)
    requires
        match contract_size {
            Some(c) => c.wf(),
            None => true,
        },
    ensures
        r == calc_qty_spec(qty, price, size_in_quote, contract_size, market),
{
    match contract_size {
        Some(cs) => {
            if matches!(market, MarketKind::InversePerps) {
                if size_in_quote {
                    qty.scale_by_pow10(cs.power)
                } else {
                    Some(qty)
                }
            } else {
                match qty.scale_by_pow10(cs.power) {
                    Some(scaled) => {
                        if size_in_quote {
                            if scaled.units <= u64::MAX && price.units >= 0 {
                                scaled.to_quote_units(price)
                            } else {
                                None
                            }
                        } else {
                            Some(scaled)
                        }
                    },
                    None => None,
                }
            }
        },
        None => {
            if size_in_quote {
                if price.units >= 0 {
                    qty.to_quote_units(price)
                } else {
                    None
                }
            } else {
                Some(qty)
            }
        },
    }
}


/// Convert every level of a depth payload into the display
/// denomination, with the same unit rule as trades and candles:
/// prices and identifiers stay as they are, each quantity goes
/// through `calc_qty`. None exactly when some level's conversion does
/// not fit.
pub fn convert_depth_payload(
    payload: &DepthPayload,
    size_in_quote: bool,
    contract_size: Option<ContractSize>,
    market: MarketKind,
) -> (r: Option<DepthPayload>)
    requires
        match contract_size {
            Some(c) => c.wf(),
            None => true,
        },
    ensures
        r is Some <==> (forall|i: int|
            0 <= i < payload.bids@.len() ==> calc_qty_spec(
                (#[trigger] payload.bids@[i]).qty,
                payload.bids@[i].price,
                size_in_quote,
                contract_size,
                market,
            ) is Some) && (forall|i: int|
            0 <= i < payload.asks@.len() ==> calc_qty_spec(
                (#[trigger] payload.asks@[i]).qty,
                payload.asks@[i].price,
                size_in_quote,
                contract_size,
                market,
            ) is Some),
        r matches Some(p) ==> ({
            &&& p.last_update_id == payload.last_update_id
            &&& p.time == payload.time
            &&& p.bids@.len() == payload.bids@.len()
            &&& p.asks@.len() == payload.asks@.len()
            &&& forall|i: int|
                0 <= i < p.bids@.len() ==> (#[trigger] p.bids@[i]).price
                    == payload.bids@[i].price && Some(p.bids@[i].qty) == calc_qty_spec(
                    payload.bids@[i].qty,
                    payload.bids@[i].price,
                    size_in_quote,
                    contract_size,
                    market,
                )
            &&& forall|i: int|
                0 <= i < p.asks@.len() ==> (#[trigger] p.asks@[i]).price
                    == payload.asks@[i].price && Some(p.asks@[i].qty) == calc_qty_spec(
                    payload.asks@[i].qty,
                    payload.asks@[i].price,
                    size_in_quote,
                    contract_size,
                    market,
                )
            &&& (payload.wf() ==> p.wf())
        }),
{
    let bids: Option<Vec<Level>> = convert_side(&payload.bids, size_in_quote, contract_size,
        market);
    let asks: Option<Vec<Level>> = convert_side(&payload.asks, size_in_quote, contract_size,
        market);
    match (bids, asks) {
        (Some(b), Some(a)) => Some(
            DepthPayload {
                last_update_id: payload.last_update_id,
                time: payload.time,
                bids: b,
                asks: a,
            },
        ),
        _ => None,
    }
}

/// Convert one side of a payload, level by level.
fn convert_side(
    levels: &Vec<Level>,
    size_in_quote: bool,
    contract_size: Option<ContractSize>,
    market: MarketKind,
) -> (r: Option<Vec<Level>>)
    requires
        match contract_size {
            Some(c) => c.wf(),
            None => true,
        },
    ensures
        r is Some <==> forall|i: int|
            0 <= i < levels@.len() ==> calc_qty_spec(
                (#[trigger] levels@[i]).qty,
                levels@[i].price,
                size_in_quote,
                contract_size,
                market,
            ) is Some,
        r matches Some(out) ==> ({
            &&& out@.len() == levels@.len()
            &&& forall|i: int|
                0 <= i < out@.len() ==> (#[trigger] out@[i]).price == levels@[i].price
                    && Some(out@[i].qty) == calc_qty_spec(
                    levels@[i].qty,
                    levels@[i].price,
                    size_in_quote,
                    contract_size,
                    market,
                )
            &&& (crate::depth::levels_in_range(levels@) ==> crate::depth::levels_in_range(
                out@,
            ))
        }),
{
    let mut out: Vec<Level> = Vec::new();
    let n: usize = levels.len();
    let mut i: usize = 0;
    while i < n
        invariant
            0 <= i <= n,
            n == levels@.len(),
            out@.len() == i,
            match contract_size {
                Some(c) => c.wf(),
                None => true,
            },
            forall|k: int|
                0 <= k < i ==> calc_qty_spec(
                    (#[trigger] levels@[k]).qty,
                    levels@[k].price,
                    size_in_quote,
                    contract_size,
                    market,
                ) is Some,
            forall|k: int|
                0 <= k < i ==> (#[trigger] out@[k]).price == levels@[k].price && Some(
                    out@[k].qty,
                ) == calc_qty_spec(
                    levels@[k].qty,
                    levels@[k].price,
                    size_in_quote,
                    contract_size,
                    market,
                ),
        decreases n - i,
    {
        let lvl: Level = levels[i];
        match calc_qty(lvl.qty, lvl.price, size_in_quote, contract_size, market) {
            Some(qty) => {
                out.push(Level { price: lvl.price, qty });
            },
            None => {
                proof {
                    let kw: int = i as int;
                    assert(0 <= kw && kw < levels@.len() && calc_qty_spec(
                        levels@[kw].qty,
                        levels@[kw].price,
                        size_in_quote,
                        contract_size,
                        market,
                    ) is None);
                }
                return None;
            },
        }
        i = i + 1;
    }
    Some(out)
}

/// What one stream frame turned out to hold: a batch of trades, or a
/// book message that is either a full snapshot or a delta.
pub enum StreamData {
    Trade(Vec<RawTrade>),
    Depth(DepthPayload, bool),
}

/// Every price of a decoded frame is in the tick-rounding range.
pub open spec fn stream_data_wf(d: StreamData) -> bool {
    match d {
        StreamData::Trade(ts) => forall|i: int|
            0 <= i < ts.len() ==> price_in_range((#[trigger] ts[i]).price),
        StreamData::Depth(p, _is_snapshot) => p.wf(),
    }
}

/// Decode the trades of a "trades" message.
fn trades_from_json(data: &serde_json::Value) -> (r: Option<Vec<RawTrade>>)
    ensures
        r is Some ==> forall|i: int|
            0 <= i < r->0.len() ==> price_in_range((#[trigger] r->0@[i]).price),
{
    let arr: &Vec<serde_json::Value> = match json_as_array(data) {
        Some(a) => a,
        None => {
            return None;
        },
    };
    let mut out: Vec<RawTrade> = Vec::new();
    let n: usize = arr.len();
    let mut i: usize = 0;
    while i < n
        invariant
            0 <= i <= n,
            n == arr@.len(),
            forall|k: int| 0 <= k < out.len() ==> price_in_range((#[trigger] out@[k]).price),
        decreases n - i,
    {
        let item: &serde_json::Value = &arr[i];
        let time: u64 = match json_get(item, "ts") {
            Some(v) => match crate::adapter::parse_json_u64(v) {
                Some(t) => t,
                None => {
                    return None;
                },
            },
            None => {
                return None;
            },
        };
        let price: Price = match json_get(item, "px") {
            Some(v) => match parse_json_price(v) {
                Some(p) => p,
                None => {
                    return None;
                },
            },
            None => {
                return None;
            },
        };
        let qty: Qty = match json_get(item, "sz") {
            Some(v) => match parse_json_qty(v) {
                Some(q) => q,
                None => {
                    return None;
                },
            },
            None => {
                return None;
            },
        };
        let is_sell: bool = match json_get(item, "side") {
            Some(v) => match json_as_str(v) {
                Some(s) => crate::text::str_eq(s, "sell") || crate::text::str_eq(s, "SELL"),
                None => {
                    return None;
                },
            },
            None => {
                return None;
            },
        };
        out.push(RawTrade { time, price, qty, is_sell });
        i = i + 1;
    }
    Some(out)
}

/// Decode one stream frame: a book message (the "books" channel, with
/// "snapshot" or "update" action) or a trade batch (the "trades"
/// channel). Whatever the frame held, every price that comes out is in
/// the tick-rounding range.
pub fn feed_de(slice: &[u8]) -> (r: Result<StreamData, AdapterError>)
    ensures
        r is Ok ==> stream_data_wf(r->Ok_0),
        !crate::json::json_parses(slice@) ==> r is Err,
{
    let v: serde_json::Value = match json_parse(slice) {
        Some(v) => v,
        None => {
            return Err(AdapterError::ParseError("Invalid JSON frame".to_owned()));
        },
    };
    let channel_is_books: bool;
    let channel_is_trades: bool;
    match json_get(&v, "arg") {
        Some(arg) => match json_get(arg, "channel") {
            Some(c) => match json_as_str(c) {
                Some(name) => {
                    channel_is_books = crate::text::str_eq(name, "books");
                    channel_is_trades = crate::text::str_eq(name, "trades")
                        || crate::text::str_eq(name, "trade");
                },
                None => {
                    return Err(AdapterError::ParseError("Channel is not text".to_owned()));
                },
            },
            None => {
                return Err(AdapterError::ParseError("Frame without channel".to_owned()));
            },
        },
        None => {
            return Err(AdapterError::ParseError("Frame without arg".to_owned()));
        },
    }
    let data: &serde_json::Value = match json_get(&v, "data") {
        Some(d) => d,
        None => {
            return Err(AdapterError::ParseError("Frame without data".to_owned()));
        },
    };
    let action_is_update: Option<bool> = match json_get(&v, "action") {
        Some(a) => match json_as_str(a) {
            Some(s) => Some(crate::text::str_eq(s, "update")),
            None => None,
        },
        None => None,
    };
    match action_is_update {
        Some(is_update) => {
            if !channel_is_books {
                return Err(
                    AdapterError::ParseError("Depth message on a non-depth channel".to_owned()),
                );
            }
            let first: &serde_json::Value = match json_get_index(data, 0) {
                Some(f) => f,
                None => {
                    return Err(AdapterError::ParseError("Empty book message".to_owned()));
                },
            };
            let bids: Vec<Level> = match json_get(first, "bids") {
                Some(b) => match crate::adapter::parse_json_levels(b) {
                    Some(l) => l,
                    None => {
                        return Err(AdapterError::ParseError("Malformed bids".to_owned()));
                    },
                },
                None => Vec::new(),
            };
            let asks: Vec<Level> = match json_get(first, "asks") {
                Some(a) => match crate::adapter::parse_json_levels(a) {
                    Some(l) => l,
                    None => {
                        return Err(AdapterError::ParseError("Malformed asks".to_owned()));
                    },
                },
                None => Vec::new(),
            };
            let seq_id: u64 = match json_get(first, "seqId") {
                Some(s) => match crate::json::json_as_u64(s) {
                    Some(t) => t,
                    None => 0,
                },
                None => 0,
            };
            let time: u64 = match json_get(first, "ts") {
                Some(t) => match crate::adapter::parse_json_u64(t) {
                    Some(tt) => tt,
                    None => 0,
                },
                None => 0,
            };
            let payload: DepthPayload = DepthPayload {
                last_update_id: seq_id,
                time,
                bids,
                asks,
            };
            Ok(StreamData::Depth(payload, !is_update))
        },
        None => {
            if channel_is_trades {
                match trades_from_json(data) {
                    Some(ts) => Ok(StreamData::Trade(ts)),
                    None => Err(AdapterError::ParseError("Malformed trade batch".to_owned())),
                }
            } else {
                Err(AdapterError::ParseError("Unknown frame".to_owned()))
            }
        },
    }
}


/// The venue's own exchange identity for each market family.
pub open spec fn exchange_of(market: MarketKind) -> Exchange {
    match market {
        MarketKind::Spot => Exchange::OkexSpot,
        MarketKind::LinearPerps => Exchange::OkexLinear,
        MarketKind::InversePerps => Exchange::OkexInverse,
    }
}

pub fn exchange_for_market(market: MarketKind) -> (r: Exchange)
    ensures
        r == exchange_of(market),
{
    match market {
        MarketKind::Spot => Exchange::OkexSpot,
        MarketKind::LinearPerps => Exchange::OkexLinear,
        MarketKind::InversePerps => Exchange::OkexInverse,
    }
}

/// Whether one instrument row passes the market's filters: it must be
/// live, and spot pairs quote in USDT, linear contracts settle in
/// USDT, inverse contracts are inverse.
fn instrument_accepted(item: &serde_json::Value, market: MarketKind) -> (r: bool) {
    let live: bool = match json_get(item, "state") {
        Some(st) => match json_as_str(st) {
            Some(s) => crate::text::str_eq(s, "live"),
            None => false,
        },
        None => false,
    };
    if !live {
        return false;
    }
    match market {
        MarketKind::Spot => match json_get(item, "quoteCcy") {
            Some(q) => match json_as_str(q) {
                Some(s) => crate::text::str_eq(s, "USDT"),
                None => false,
            },
            None => false,
        },
        MarketKind::LinearPerps => {
            let linear: bool = match json_get(item, "ctType") {
                Some(c) => match json_as_str(c) {
                    Some(s) => crate::text::str_eq(s, "linear"),
                    None => false,
                },
                None => false,
            };
            let settles_usdt: bool = match json_get(item, "settleCcy") {
                Some(c) => match json_as_str(c) {
                    Some(s) => crate::text::str_eq(s, "USDT"),
                    None => false,
                },
                None => false,
            };
            linear && settles_usdt
        },
        MarketKind::InversePerps => match json_get(item, "ctType") {
            Some(c) => match json_as_str(c) {
                Some(s) => crate::text::str_eq(s, "inverse"),
                None => false,
            },
            None => false,
        },
    }
}

/// Normalize the instrument-metadata payload: keep live instruments of
/// the requested market family, reading the tick size, lot size and
/// (for contracts) the contract value as nearest powers of ten.
pub fn normalize_instruments(body: &[u8], market: MarketKind) -> (r: Result<
    Vec<(Ticker, Option<TickerInfo>)>,
    AdapterError,
>)
    ensures
        !crate::json::json_parses(body@) ==> r is Err,
        r matches Ok(rows) ==> forall|i: int|
            0 <= i < rows.len() ==> ({
                &&& (#[trigger] rows@[i]).0.wf()
                &&& rows@[i].0.exchange == exchange_of(market)
                &&& (rows@[i].1 matches Some(info) ==> info.min_ticksize.wf()
                    && info.min_qty.wf() && (info.contract_size matches Some(c) ==> c.wf()))
            }),
{
    let v: serde_json::Value = match json_parse(body) {
        Some(v) => v,
        None => {
            return Err(AdapterError::ParseError("Invalid instrument JSON".to_owned()));
        },
    };
    let rows: &Vec<serde_json::Value> = match json_get(&v, "data") {
        Some(d) => match json_as_array(d) {
            Some(a) => a,
            None => {
                return Err(AdapterError::ParseError("Result list is not an array".to_owned()));
            },
        },
        None => {
            return Err(AdapterError::ParseError("Result list is not an array".to_owned()));
        },
    };
    let exchange: Exchange = exchange_for_market(market);
    let mut out: Vec<(Ticker, Option<TickerInfo>)> = Vec::new();
    let n: usize = rows.len();
    let mut i: usize = 0;
    while i < n
        invariant
            0 <= i <= n,
            n == rows@.len(),
            exchange == exchange_of(market),
            forall|k: int|
                0 <= k < out.len() ==> ({
                    &&& (#[trigger] out@[k]).0.wf()
                    &&& out@[k].0.exchange == exchange_of(market)
                    &&& (out@[k].1 matches Some(info) ==> info.min_ticksize.wf()
                        && info.min_qty.wf() && (info.contract_size matches Some(c)
                        ==> c.wf()))
                }),
        decreases n - i,
    {
        let item: &serde_json::Value = &rows[i];
        let keep: bool = instrument_accepted(item, market);
        let symbol: Option<&str> = match json_get(item, "instId") {
            Some(s) => json_as_str(s),
            None => None,
        };
        match symbol {
            Some(sym) => {
                if keep && crate::is_symbol_supported(sym, exchange, true)
                    && crate::symbol_is_valid(sym) {
                    let tick: Option<Price> = match json_get(item, "tickSz") {
                        Some(t) => parse_json_price(t),
                        None => None,
                    };
                    let lot: Option<Qty> = match json_get(item, "lotSz") {
                        Some(l) => parse_json_qty(l),
                        None => None,
                    };
                    match (tick, lot) {
                        (Some(tp), Some(lq)) => {
                            let contract_size: Option<ContractSize> = if matches!(
                                market,
                                MarketKind::Spot,
                            ) {
                                None
                            } else {
                                match json_get(item, "ctVal") {
                                    Some(cv) => match parse_json_qty(cv) {
                                        Some(q) => {
                                            if q.units <= i64::MAX as u64 {
                                                Some(ContractSize::from_units(q.units as i64))
                                            } else {
                                                None
                                            }
                                        },
                                        None => None,
                                    },
                                    None => None,
                                }
                            };
                            let ticker: Ticker = Ticker::new(sym, exchange);
                            let info: TickerInfo = TickerInfo::new(
                                ticker.clone(),
                                MinTicksize::from_units(tp.units),
                                MinQtySize::from_units(
                                    if lq.units <= i64::MAX as u64 {
                                        lq.units as i64
                                    } else {
                                        i64::MAX
                                    },
                                ),
                                contract_size,
                            );
                            out.push((ticker, Some(info)));
                        },
                        _ => {
                            return Err(
                                AdapterError::ParseError("Tick or lot size not found".to_owned()),
                            );
                        },
                    }
                }
            },
            None => {},
        }
        i = i + 1;
    }
    Ok(out)
}

/// Normalize the daily statistics payload: the last trade price, the
/// change over the previous daily open, and the 24-hour volume, which
/// contract markets convert to quote units through the last price.
pub fn normalize_ticker_prices(body: &[u8], market: MarketKind) -> (r: Result<
    Vec<(Ticker, TickerStats)>,
    AdapterError,
>)
    ensures
        !crate::json::json_parses(body@) ==> r is Err,
        r matches Ok(rows) ==> forall|i: int|
            0 <= i < rows.len() ==> ({
                &&& (#[trigger] rows@[i]).0.wf()
                &&& rows@[i].0.exchange == exchange_of(market)
                &&& price_in_range(rows@[i].1.mark_price)
            }),
{
    let v: serde_json::Value = match json_parse(body) {
        Some(v) => v,
        None => {
            return Err(AdapterError::ParseError("Invalid stats JSON".to_owned()));
        },
    };
    let rows: &Vec<serde_json::Value> = match json_get(&v, "data") {
        Some(d) => match json_as_array(d) {
            Some(a) => a,
            None => {
                return Err(AdapterError::ParseError("Result list is not an array".to_owned()));
            },
        },
        None => {
            return Err(AdapterError::ParseError("Result list is not an array".to_owned()));
        },
    };
    let exchange: Exchange = exchange_for_market(market);
    let mut out: Vec<(Ticker, TickerStats)> = Vec::new();
    let n: usize = rows.len();
    let mut i: usize = 0;
    while i < n
        invariant
            0 <= i <= n,
            n == rows@.len(),
            exchange == exchange_of(market),
            forall|k: int|
                0 <= k < out.len() ==> ({
                    &&& (#[trigger] out@[k]).0.wf()
                    &&& out@[k].0.exchange == exchange_of(market)
                    &&& price_in_range(out@[k].1.mark_price)
                }),
        decreases n - i,
    {
        let item: &serde_json::Value = &rows[i];
        let symbol: Option<&str> = match json_get(item, "instId") {
            Some(s) => json_as_str(s),
            None => None,
        };
        match symbol {
            Some(sym) => {
                if crate::is_symbol_supported(sym, exchange, false) && crate::symbol_is_valid(
                    sym,
                ) {
                    let last: Option<Price> = match json_get(item, "last") {
                        Some(l) => parse_json_price(l),
                        None => None,
                    };
                    let open24h: Option<Price> = match json_get(item, "open24h") {
                        Some(o) => parse_json_price(o),
                        None => None,
                    };
                    let vol: Option<Qty> = match json_get(item, "volCcy24h") {
                        Some(vq) => parse_json_qty(vq),
                        None => None,
                    };
                    match (last, open24h, vol) {
                        (Some(last_price), Some(prev_open), Some(vol24h)) => {
                            if last_price.units >= 0 && prev_open.units >= 0 {
                                let chg: Price = pct_change(last_price, prev_open);
                                let volume: Option<Qty> = if matches!(market, MarketKind::Spot) {
                                    Some(vol24h)
                                } else {
                                    vol24h.to_quote_units(last_price)
                                };
                                match volume {
                                    Some(daily_volume) => {
                                        out.push(
                                            (
                                                Ticker::new(sym, exchange),
                                                TickerStats {
                                                    mark_price: last_price,
                                                    daily_price_chg: chg,
                                                    daily_volume,
                                                },
                                            ),
                                        );
                                    },
                                    None => {},
                                }
                            }
                        },
                        _ => {},
                    }
                }
            },
            None => {},
        }
        i = i + 1;
    }
    Ok(out)
}

/// Normalize a candle-history payload. The venue reports no buy/sell
/// split, so the whole converted volume is carried in the sell slot
/// and the buy slot is zero; rows stay in the order served.
pub fn normalize_klines(
    body: &[u8],
    min_ticksize: MinTicksize,
    contract_size: Option<ContractSize>,
    size_in_quote: bool,
    market: MarketKind,
) -> (r: Result<Vec<Kline>, AdapterError>)
    requires
        min_ticksize.wf(),
        match contract_size {
            Some(c) => c.wf(),
            None => true,
        },
    ensures
        !crate::json::json_parses(body@) ==> r is Err,
        r matches Ok(ks) ==> forall|i: int|
            0 <= i < ks.len() ==> crate::kline_on_tick(#[trigger] ks@[i], min_ticksize),
{
    let v: serde_json::Value = match json_parse(body) {
        Some(v) => v,
        None => {
            return Err(AdapterError::ParseError("Invalid kline JSON".to_owned()));
        },
    };
    let rows: &Vec<serde_json::Value> = match json_get(&v, "data") {
        Some(d) => match json_as_array(d) {
            Some(a) => a,
            None => {
                return Err(AdapterError::ParseError("Kline result is not an array".to_owned()));
            },
        },
        None => {
            return Err(AdapterError::ParseError("Kline result is not an array".to_owned()));
        },
    };
    let mut out: Vec<Kline> = Vec::new();
    let n: usize = rows.len();
    let mut i: usize = 0;
    while i < n
        invariant
            0 <= i <= n,
            n == rows@.len(),
            min_ticksize.wf(),
            match contract_size {
                Some(c) => c.wf(),
                None => true,
            },
            forall|k: int|
                0 <= k < out.len() ==> crate::kline_on_tick(#[trigger] out@[k], min_ticksize),
        decreases n - i,
    {
        match parse_candle_row(&rows[i]) {
            Some(candle) => {
                let volume: Qty = match calc_qty(
                    candle.volume,
                    candle.close,
                    size_in_quote,
                    contract_size,
                    market,
                ) {
                    Some(q) => q,
                    None => {
                        return Err(AdapterError::ParseError("Volume out of range".to_owned()));
                    },
                };
                out.push(
                    Kline::new(
                        candle.time,
                        candle.open,
                        candle.high,
                        candle.low,
                        candle.close,
                        VolumePair { buy: Qty { units: 0 }, sell: volume },
                        min_ticksize,
                    ),
                );
            },
            None => {},
        }
        i = i + 1;
    }
    Ok(out)
}

/// Normalize one open-interest row from its plain text fields: the
/// timestamp digits and the base amount as a decimal.
pub fn open_interest_row(time_text: &str, amount_text: &str) -> (r: Option<crate::OpenInterest>)
    ensures
        r is Some <==> (time_text@.len() > 0 && crate::text::all_digits(time_text@)
            && crate::text::digits_to_nat(time_text@) <= u64::MAX
            && crate::text::is_decimal_lit(amount_text@)
            && crate::text::decimal_magnitude(amount_text@) <= i64::MAX
            && crate::text::decimal_units(amount_text@) >= 0),
        r is Some ==> r->0.time == crate::text::digits_to_nat(time_text@)
            && r->0.value.units == crate::text::decimal_units(amount_text@),
{
    let time: u64 = match crate::text::parse_u64(time_text) {
        Some(t) => t,
        None => {
            return None;
        },
    };
    let value: Qty = match parse_qty_text(amount_text) {
        Some(q) => q,
        None => {
            return None;
        },
    };
    Some(crate::OpenInterest { time, value })
}

/// Normalize an open-interest history payload: rows of the array form
/// [time, contracts, base amount, quote amount], keeping the base
/// amount; a malformed row is skipped.
pub fn normalize_open_interest(body: &[u8]) -> (r: Result<Vec<crate::OpenInterest>, AdapterError>)
    ensures
        !crate::json::json_parses(body@) ==> r is Err,
{
    let v: serde_json::Value = match json_parse(body) {
        Some(v) => v,
        None => {
            return Err(AdapterError::ParseError("Invalid open-interest JSON".to_owned()));
        },
    };
    let rows: &Vec<serde_json::Value> = match json_get(&v, "data") {
        Some(d) => match json_as_array(d) {
            Some(a) => a,
            None => {
                return Err(AdapterError::ParseError("Fetch result is not an array".to_owned()));
            },
        },
        None => {
            return Err(AdapterError::ParseError("Fetch result is not an array".to_owned()));
        },
    };
    let mut out: Vec<crate::OpenInterest> = Vec::new();
    let n: usize = rows.len();
    let mut i: usize = 0;
    while i < n
        invariant
            0 <= i <= n,
            n == rows@.len(),
        decreases n - i,
    {
        let row: &serde_json::Value = &rows[i];
        let time_text: Option<String> = match json_get_index(row, 0) {
            Some(t) => crate::json::json_text(t),
            None => None,
        };
        let amount_text: Option<String> = match json_get_index(row, 2) {
            Some(q) => crate::json::json_text(q),
            None => None,
        };
        match (time_text, amount_text) {
            (Some(ts), Some(amount)) => {
                match open_interest_row(ts.as_str(), amount.as_str()) {
                    Some(entry) => {
                        out.push(entry);
                    },
                    None => {},
                }
            },
            _ => {},
        }
        i = i + 1;
    }
    Ok(out)
}

} // verus!
