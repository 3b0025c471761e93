//! The Hyperliquid adapter: a fixed-window limiter, the
//! significant-figure rules that shape its depth feed, and stream
//! decoding for its book, trade and candle channels.

use vstd::prelude::*;

use crate::adapter::{RawCandle, RawTrade, parse_json_price, parse_json_qty, parse_json_u64,
    price_in_range, raw_candle_in_range};
use crate::depth::{DepthPayload, Level, level_in_range, levels_in_range};
use crate::json::{json_as_array, json_as_str, json_get, json_get_index, json_parse};
use crate::limiter::FixedWindowBucket;
use crate::numeric::{MinQtySize, MinTicksize, Price, Qty, pow10};
use crate::{AdapterError, Exchange, MarketKind, Ticker, TickerInfo};

verus! {

/// Requests allowed per window.
pub const LIMIT: usize = 1200;

/// The venue's declared window: one minute.
pub const REFILL_RATE_MS: u64 = 60_000;

/// The venue's rate limiter: a fixed window sized at the declared
/// limit shrunk by a five percent safety margin.
pub struct HyperliquidLimiter {
    pub bucket: FixedWindowBucket,
}

impl HyperliquidLimiter {
    /// The declared limit shrunk by the safety margin.
    pub open spec fn effective_limit(limit: usize) -> int {
        limit - (limit * 5) / 100
    }

    pub fn new(limit: usize, refill_rate_ms: u64, now_ms: u64) -> (r: Self)
        requires
            limit <= 1_000_000,
            1000 <= refill_rate_ms <= 100_000_000_000,
            refill_rate_ms % 1000 == 0,
        ensures
            r.bucket.wf(),
            r.bucket.max_tokens == Self::effective_limit(limit),
            r.bucket.available_tokens == Self::effective_limit(limit),
            r.bucket.refill_rate_ms == refill_rate_ms,
            r.bucket.last_refill_ms == now_ms,
    {
        proof {
            assert((limit * 5) / 100 <= limit * 5) by (nonlinear_arith)
                requires
                    limit >= 0,
            ;
        }
        let margin: usize = (limit * 5) / 100;
        let effective_limit: usize = limit - margin;
        HyperliquidLimiter {
            bucket: FixedWindowBucket::new(effective_limit, refill_rate_ms, now_ms),
        }
    }

    /// Must run before each request; an answer asks the caller to
    /// sleep that many milliseconds first.
    pub fn prepare_request(&mut self, weight: usize, now_ms: u64) -> (r: Option<u64>)
        requires
            old(self).bucket.wf(),
            now_ms >= old(self).bucket.last_refill_ms,
        ensures
            final(self).bucket.wf(),
            ({
                let b = old(self).bucket.refilled(now_ms);
                &&& (r is None <==> b.available_tokens >= weight)
                &&& (r is Some ==> 0 < r->0 <= b.refill_rate_ms)
            }),
    {
        self.bucket.calculate_wait_time(weight, now_ms)
    }

    /// Deduct the weight the completed request consumed, at most what
    /// the refilled budget still holds.
    pub fn update_from_response(&mut self, weight: usize, now_ms: u64)
        requires
            old(self).bucket.wf(),
            now_ms >= old(self).bucket.last_refill_ms,
        ensures
            final(self).bucket.wf(),
            ({
                let b = old(self).bucket.refilled(now_ms);
                final(self).bucket == (FixedWindowBucket {
                    available_tokens: (b.available_tokens - vstd::math::min(
                        weight as int,
                        b.available_tokens as int,
                    )) as usize,
                    ..b
                })
            }),
    {
        self.bucket.consume_tokens(weight, now_ms);
    }

    /// A throttling status is terminal for the process.
    pub fn should_exit_on_status(&self, status: u16) -> (r: bool)
        ensures
            r == (status == 429),
    {
        status == 429
    }
}

/// How many decimal digits a value has; zero for zero.
pub open spec fn dec_len(n: nat) -> nat
    decreases n,
{
    if n == 0 {
        0
    } else {
        1 + dec_len(n / 10)
    }
}

/// Count the decimal digits of a value.
pub fn digit_count_u64(n: u64) -> (r: u32)
    ensures
        r == dec_len(n as nat),
        r <= 20,
    decreases n,
{
    proof {
        lemma_dec_len_le_20(n as nat);
    }
    if n == 0 {
        0
    } else {
        1 + digit_count_u64(n / 10)
    }
}

/// A u64 has at most twenty decimal digits.
pub proof fn lemma_dec_len_le_20(n: nat)
    requires
        n <= u64::MAX,
    ensures
        dec_len(n) <= 20,
{
    crate::numeric::lemma_pow10_values();
    assert(pow10(19) == 10 * pow10(18));
    assert(pow10(20) == 10 * pow10(19));
    lemma_dec_len_bound(n, 20);
}

/// A value below 10^k has at most k digits.
pub proof fn lemma_dec_len_bound(n: nat, k: nat)
    requires
        n < pow10(k),
    ensures
        dec_len(n) <= k,
    decreases k,
{
    crate::numeric::lemma_pow10_values();
    if n == 0 {
    } else if k == 0 {
        crate::numeric::lemma_pow10_monotone(0, 0);
        assert(false);
    } else {
        assert(n / 10 < pow10((k - 1) as nat)) by (nonlinear_arith)
            requires
                n < pow10(k),
                pow10(k) == 10 * pow10((k - 1) as nat),
                n >= 0,
        ;
        lemma_dec_len_bound(n / 10, (k - 1) as nat);
    }
}

/// The number of digits of a price's whole part: zero below one.
pub open spec fn int_digits_spec(units: int) -> int {
    if units <= 0 {
        0
    } else {
        dec_len((units / 100_000_000) as nat) as int
    }
}

/// Count the digits of the whole part of a price.
pub fn price_int_digits(p: Price) -> (r: u32)
    ensures
        r == int_digits_spec(p.units as int),
        r <= 20,
{
    if p.units <= 0 {
        0
    } else {
        digit_count_u64((p.units as u64) / 100_000_000u64)
    }
}

/// The aggregation a depth subscription may ask of the venue: a
/// number of significant figures (two to five), and at five, a
/// mantissa of one, two or five.
#[derive(Debug, Clone, Copy, PartialEq, Eq, Structural)]
pub struct DepthFeedConfig {
    pub n_sig_figs: Option<i32>,
    pub mantissa: Option<i32>,
}

impl DepthFeedConfig {
    /// The values a subscription may carry: two to five significant
    /// figures, and a mantissa of one, two or five only at five.
    pub open spec fn wf(self) -> bool {
        &&& match self.n_sig_figs {
            Some(n) => 2 <= n <= 5,
            None => true,
        }
        &&& match self.mantissa {
            Some(m) => (m == 1 || m == 2 || m == 5) && self.n_sig_figs == Some(5i32),
            None => true,
        }
    }

    pub fn new(n_sig_figs: Option<i32>, mantissa: Option<i32>) -> (r: Self)
        ensures
            r.n_sig_figs == n_sig_figs,
            r.mantissa == mantissa,
    {
        DepthFeedConfig { n_sig_figs, mantissa }
    }

    /// The server's full precision: no significant-figure cap.
    pub fn full_precision() -> (r: Self)
        ensures
            r.n_sig_figs is None,
            r.mantissa is None,
    {
        DepthFeedConfig { n_sig_figs: None, mantissa: None }
    }

    pub fn is_full(&self) -> (r: bool)
        ensures
            r == (self.n_sig_figs is None),
    {
        self.n_sig_figs.is_none()
    }
}

/// A tick size as mantissa times ten to the exponent, exact without
/// floating point; a zero mantissa stands for no tick.
#[derive(Debug, Clone, Copy, PartialEq, Eq, Structural)]
pub struct TickShape {
    pub mantissa: i32,
    pub exponent: i32,
}

/// The tick the venue's feed uses under a configuration, for a price
/// with the given whole-digit count and (below one) leading zeros.
pub open spec fn depth_tick_spec(units: int, cfg: DepthFeedConfig) -> TickShape {
    if units <= 0 {
        TickShape { mantissa: 0, exponent: 0 }
    } else {
        let d = int_digits_spec(units);
        let leading_zeros = if units >= 100_000_000 {
            0int
        } else {
            8 - dec_len(units as nat) as int
        };
        match cfg.n_sig_figs {
            None => if d > 5 {
                TickShape { mantissa: 1, exponent: 0 }
            } else if units >= 100_000_000 {
                TickShape { mantissa: 1, exponent: (0 - (5 - d)) as i32 }
            } else {
                TickShape { mantissa: 1, exponent: (0 - (leading_zeros + 5)) as i32 }
            },
            Some(n) => {
                let base = if n < d {
                    TickShape { mantissa: 1, exponent: (d - n) as i32 }
                } else if n == d {
                    TickShape { mantissa: 1, exponent: 0 }
                } else if units >= 100_000_000 {
                    TickShape { mantissa: 1, exponent: (0 - (n - d)) as i32 }
                } else {
                    TickShape { mantissa: 1, exponent: (0 - (leading_zeros + (n - d))) as i32 }
                };
                if n == 5 && (cfg.mantissa == Some(1i32) || cfg.mantissa == Some(2i32)
                    || cfg.mantissa == Some(5i32)) {
                    TickShape { mantissa: cfg.mantissa->0, exponent: base.exponent }
                } else {
                    base
                }
            },
        }
    }
}

/// The price grid the venue's feed snaps to under a configuration.
pub fn depth_tick_from_cfg(price: Price, cfg: DepthFeedConfig) -> (r: TickShape)
    requires
        cfg.wf(),
    ensures
        r == depth_tick_spec(price.units as int, cfg),
{
    if price.units <= 0 {
        return TickShape { mantissa: 0, exponent: 0 };
    }
    let d: u32 = price_int_digits(price);
    let leading_zeros: i32 = if price.units >= 100_000_000 {
        0
    } else {
        let dl: u32 = digit_count_u64(price.units as u64);
        proof {
            crate::numeric::lemma_pow10_values();
            lemma_dec_len_bound(price.units as nat, 8);
        }
        8 - (dl as i32)
    };
    match cfg.n_sig_figs {
        None => {
            if d > 5 {
                TickShape { mantissa: 1, exponent: 0 }
            } else if price.units >= 100_000_000 {
                TickShape { mantissa: 1, exponent: 0 - (5 - d as i32) }
            } else {
                TickShape { mantissa: 1, exponent: 0 - (leading_zeros + 5) }
            }
        },
        Some(n) => {
            let base_exp: i32 = if n < d as i32 {
                d as i32 - n
            } else if n == d as i32 {
                0
            } else if price.units >= 100_000_000 {
                proof {
                    lemma_dec_len_le_20((price.units as u64 / 100_000_000) as nat);
                }
                0 - (n - d as i32)
            } else {
                0 - (leading_zeros + (n - d as i32))
            };
            let m: i32 = match cfg.mantissa {
                Some(mv) => {
                    if n == 5 && (mv == 1 || mv == 2 || mv == 5) {
                        mv
                    } else {
                        1
                    }
                },
                None => 1,
            };
            TickShape { mantissa: m, exponent: base_exp }
        },
    }
}

/// The nearest of 1, 2, 5 and 10 to a multiplier in log space,
/// written as (decade, mantissa): the midpoints are the square roots
/// of 2, 10 and 50 times the decade, compared exactly by squaring.
pub open spec fn snap125_spec(m: nat) -> (int, int) {
    let mm = if m < 1 {
        1nat
    } else {
        m
    };
    let k = (dec_len(mm) - 1) as nat;
    if mm * mm < 2 * pow10(2 * k) {
        (k as int, 1int)
    } else if mm * mm < pow10(2 * k + 1) {
        (k as int, 2int)
    } else if mm * mm < 50 * pow10(2 * k) {
        (k as int, 5int)
    } else {
        (k as int + 1, 1int)
    }
}

/// Snap a multiplier to the nearest 1-2-5 times a power of ten.
pub fn snap_multiplier_to_125(multiplier: u16) -> (r: (i32, i32))
    ensures
        r.0 == snap125_spec(multiplier as nat).0,
        r.1 == snap125_spec(multiplier as nat).1,
{
    let m: u64 = if multiplier < 1 {
        1
    } else {
        multiplier as u64
    };
    let k: u32 = digit_count_u64(m) - 1;
    proof {
        crate::numeric::lemma_pow10_values();
        lemma_dec_len_bound(m as nat, 5);
        assert(dec_len(m as nat) >= 1);
    }
    proof {
        assert(m * m <= 65535 * 65535) by (nonlinear_arith)
            requires
                0 <= m <= 65535,
        ;
        crate::numeric::lemma_pow10_monotone((2 * k) as nat, 8);
    }
    let sq: u64 = m * m;
    let decade: u64 = crate::numeric::pow10_i64(2 * k) as u64;
    if sq < 2 * decade {
        (k as i32, 1)
    } else if sq < 10 * decade {
        (k as i32, 2)
    } else if sq < 50 * decade {
        (k as i32, 5)
    } else {
        (k as i32 + 1, 1)
    }
}

/// The feed configuration that best matches a chart multiplier at a
/// price: full precision for a unit multiplier, else the
/// significant-figure count that coarsens the grid by the multiplier's
/// decade, with a mantissa only at the five-figure limit.
pub open spec fn config_from_multiplier_spec(units: int, multiplier: nat) -> DepthFeedConfig {
    if units <= 0 || multiplier <= 1 {
        DepthFeedConfig { n_sig_figs: None, mantissa: None }
    } else {
        let d = int_digits_spec(units);
        let k = snap125_spec(multiplier).0;
        let m125 = snap125_spec(multiplier).1;
        let n0 = if d > 5 {
            d - k
        } else {
            5 - k
        };
        let n = if n0 < 2 {
            2int
        } else if n0 > 5 {
            5int
        } else {
            n0
        };
        let mantissa = if n == 5 && (m125 == 2 || m125 == 5) {
            Some(m125 as i32)
        } else {
            None
        };
        DepthFeedConfig { n_sig_figs: Some(n as i32), mantissa }
    }
}

/// Choose the depth-feed configuration for a chart multiplier.
pub fn config_from_multiplier(price: Price, multiplier: u16) -> (r: DepthFeedConfig)
    ensures
        r == config_from_multiplier_spec(price.units as int, multiplier as nat),
        r.wf(),
{
    if price.units <= 0 || multiplier <= 1 {
        return DepthFeedConfig::full_precision();
    }
    let d: u32 = price_int_digits(price);
    let (k, m125) = snap_multiplier_to_125(multiplier);
    proof {
        crate::numeric::lemma_pow10_values();
        lemma_dec_len_bound(multiplier as nat, 5);
        lemma_dec_len_le_20((price.units as u64 / 100_000_000) as nat);
    }
    let n0: i32 = if d > 5 {
        d as i32 - k
    } else {
        5 - k
    };
    let n: i32 = if n0 < 2 {
        2
    } else if n0 > 5 {
        5
    } else {
        n0
    };
    let mantissa: Option<i32> = if n == 5 && (m125 == 2 || m125 == 5) {
        Some(m125)
    } else {
        None
    };
    DepthFeedConfig { n_sig_figs: Some(n), mantissa }
}

/// The chart multipliers the venue can serve for a base tick size:
/// coarse decades above one, the fractional set below one, and the
/// safe intersection exactly at one, where the region is ambiguous.
pub fn allowed_multipliers_for_base_tick(base_tick_power: i8) -> (r: Vec<u16>)
    ensures
        base_tick_power < 0 ==> r@ == seq![1u16, 2u16, 5u16, 10u16, 100u16, 1000u16],
        base_tick_power > 0 ==> r@ == seq![1u16, 10u16, 20u16, 50u16, 100u16, 1000u16, 10000u16],
        base_tick_power == 0 ==> r@ == seq![1u16, 10u16, 100u16, 1000u16],
{
    let mut v: Vec<u16> = Vec::new();
    if base_tick_power < 0 {
        v.push(1);
        v.push(2);
        v.push(5);
        v.push(10);
        v.push(100);
        v.push(1000);
        proof {
            assert(v@ =~= seq![1u16, 2u16, 5u16, 10u16, 100u16, 1000u16]);
        }
    } else if base_tick_power > 0 {
        v.push(1);
        v.push(10);
        v.push(20);
        v.push(50);
        v.push(100);
        v.push(1000);
        v.push(10000);
        proof {
            assert(v@ =~= seq![1u16, 10u16, 20u16, 50u16, 100u16, 1000u16, 10000u16]);
        }
    } else {
        v.push(1);
        v.push(10);
        v.push(100);
        v.push(1000);
        proof {
            assert(v@ =~= seq![1u16, 10u16, 100u16, 1000u16]);
        }
    }
    v
}

/// The multiplier set exact for a price: the coarse set when its
/// whole part exceeds the significant-figure limit, else the
/// fractional set.
pub fn exact_multipliers_for_price(price: Price) -> (r: Vec<u16>)
    ensures
        price.units > 0 && int_digits_spec(price.units as int) > 5 ==> r@ == seq![
            1u16, 10u16, 20u16, 50u16, 100u16, 1000u16, 10000u16,
        ],
        !(price.units > 0 && int_digits_spec(price.units as int) > 5) ==> r@ == seq![
            1u16, 2u16, 5u16, 10u16, 100u16, 1000u16,
        ],
{
    let mut v: Vec<u16> = Vec::new();
    if price.units > 0 && price_int_digits(price) > 5 {
        v.push(1);
        v.push(10);
        v.push(20);
        v.push(50);
        v.push(100);
        v.push(1000);
        v.push(10000);
        proof {
            assert(v@ =~= seq![1u16, 10u16, 20u16, 50u16, 100u16, 1000u16, 10000u16]);
        }
    } else {
        v.push(1);
        v.push(2);
        v.push(5);
        v.push(10);
        v.push(100);
        v.push(1000);
        proof {
            assert(v@ =~= seq![1u16, 2u16, 5u16, 10u16, 100u16, 1000u16]);
        }
    }
    v
}

/// The tick-size exponent the venue implies for an instrument: one
/// for wide prices, else enough fractional digits to reach five
/// significant figures, capped by the instrument's decimal budget.
pub open spec fn compute_tick_power_spec(units: int, sz_decimals: int) -> int {
    if units <= 0 {
        -3
    } else {
        let cap = if 6 - sz_decimals >= 0 {
            6 - sz_decimals
        } else {
            0
        };
        let d = int_digits_spec(units);
        if d > 5 {
            0
        } else if units >= 100_000_000 {
            let remaining = 5 - d;
            if remaining == 0 || cap == 0 {
                0
            } else if remaining < cap {
                -remaining
            } else {
                -cap
            }
        } else {
            let leading_zeros = 8 - dec_len(units as nat) as int;
            let total = if leading_zeros + 5 < cap {
                leading_zeros + 5
            } else {
                cap
            };
            if total <= 0 {
                0
            } else {
                -total
            }
        }
    }
}

/// The tick size the venue implies for an instrument, as a clamped
/// power of ten.
pub fn compute_tick_size(price: Price, sz_decimals: u32, market: MarketKind) -> (r: MinTicksize)
    ensures
        r.wf(),
        ({
            let p = compute_tick_power_spec(price.units as int, sz_decimals as int);
            r.power == if p < -8 {
                -8int
            } else if p > 2 {
                2int
            } else {
                p
            }
        }),
{
    if price.units <= 0 {
        return MinTicksize::new(-3);
    }
    let cap: i32 = if sz_decimals <= 6 {
        6 - sz_decimals as i32
    } else {
        0
    };
    let d: u32 = price_int_digits(price);
    proof {
        crate::numeric::lemma_pow10_values();
        lemma_dec_len_le_20((price.units as u64 / 100_000_000) as nat);
        lemma_dec_len_le_20(price.units as nat);
        if price.units < 100_000_000 {
            lemma_dec_len_bound(price.units as nat, 8);
        }
    }
    if d > 5 {
        MinTicksize::new(0)
    } else if price.units >= 100_000_000 {
        let remaining: i32 = 5 - d as i32;
        if remaining == 0 || cap == 0 {
            MinTicksize::new(0)
        } else {
            let t: i32 = if remaining < cap {
                remaining
            } else {
                cap
            };
            MinTicksize::new((0 - t) as i8)
        }
    } else {
        let dl: u32 = digit_count_u64(price.units as u64);
        let leading_zeros: i32 = 8 - dl as i32;
        let total: i32 = if leading_zeros + 5 < cap {
            leading_zeros + 5
        } else {
            cap
        };
        if total <= 0 {
            MinTicksize::new(0)
        } else {
            MinTicksize::new((0 - total) as i8)
        }
    }
}

/// One token of the venue's spot metadata.
pub struct TokenInfo {
    pub name: String,
    pub index: u32,
    pub sz_decimals: u32,
}

/// The symbol shown for a spot pair: "@index" pairs take the base and
/// quote token names joined; named pairs drop the slash.
pub fn create_display_symbol(pair_name: &str, tokens: &Vec<TokenInfo>, token_indices: (u32, u32))
    -> (r: String)
    ensures
        !(pair_name@.len() > 0 && pair_name@[0] == '@') ==> r@ == pair_name@.filter(
            |c: char| c != '/',
        ),
{
    let n: usize = pair_name.unicode_len();
    if n > 0 && pair_name.get_char(0) == '@' {
        let mut base: Option<&TokenInfo> = None;
        let mut quote: Option<&TokenInfo> = None;
        let m: usize = tokens.len();
        let mut i: usize = 0;
        while i < m
            invariant
                0 <= i <= m,
                m == tokens@.len(),
            decreases m - i,
        {
            if tokens[i].index == token_indices.0 && base.is_none() {
                base = Some(&tokens[i]);
            }
            if tokens[i].index == token_indices.1 && quote.is_none() {
                quote = Some(&tokens[i]);
            }
            i = i + 1;
        }
        match (base, quote) {
            (Some(b), Some(q)) => {
                let mut s: String = b.name.clone();
                s.append(q.name.as_str());
                s
            },
            _ => pair_name.to_owned(),
        }
    } else {
        let mut out: String = String::new();
        proof {
            reveal(Seq::filter);
            assert(pair_name@.take(0).filter(|c: char| c != '/') =~= Seq::<char>::empty());
        }
        let mut i: usize = 0;
        while i < n
            invariant
                0 <= i <= n,
                n == pair_name@.len(),
                out@ == pair_name@.take(i as int).filter(|c: char| c != '/'),
            decreases n - i,
        {
            let c: char = pair_name.get_char(i);
            proof {
                reveal(Seq::filter);
                let pred = |cc: char| cc != '/';
                assert(pair_name@.take(i + 1).drop_last() =~= pair_name@.take(i as int));
                assert(pair_name@.take(i + 1).last() == pair_name@[i as int]);
                assert(pair_name@.take(i + 1).filter(pred) == if pred(pair_name@[i as int]) {
                    pair_name@.take(i as int).filter(pred).push(pair_name@[i as int])
                } else {
                    pair_name@.take(i as int).filter(pred)
                });
            }
            if c != '/' {
                crate::text::push_char(&mut out, c);
                proof {
                    assert(out@ =~= pair_name@.take(i + 1).filter(|cc: char| cc != '/'));
                }
            } else {
                proof {
                    assert(out@ =~= pair_name@.take(i + 1).filter(|cc: char| cc != '/'));
                }
            }
            i = i + 1;
        }
        proof {
            assert(pair_name@.take(n as int) =~= pair_name@);
        }
        out
    }
}

/// What one stream frame turned out to hold.
pub enum StreamData {
    Trade(Vec<RawTrade>),
    Depth(DepthPayload),
    Kline(KlineMsg),
}

/// A candle frame with the instrument and interval it belongs to.
pub struct KlineMsg {
    pub symbol: String,
    pub interval: String,
    pub candle: RawCandle,
}

/// Every price of a decoded frame is in the tick-rounding range.
pub open spec fn stream_data_wf(d: StreamData) -> bool {
    match d {
        StreamData::Trade(ts) => forall|i: int|
            0 <= i < ts.len() ==> price_in_range((#[trigger] ts[i]).price),
        StreamData::Depth(p) => p.wf(),
        StreamData::Kline(k) => raw_candle_in_range(k.candle),
    }
}

/// One level of the venue's book: an object with price "px" and size
/// "sz".
fn parse_hl_level(v: &serde_json::Value) -> (r: Option<Level>)
    ensures
        r is Some ==> level_in_range(r->0),
{
    let price: Price = match json_get(v, "px") {
        Some(p) => match parse_json_price(p) {
            Some(pp) => pp,
            None => {
                return None;
            },
        },
        None => {
            return None;
        },
    };
    let qty: Qty = match json_get(v, "sz") {
        Some(q) => match parse_json_qty(q) {
            Some(qq) => qq,
            None => {
                return None;
            },
        },
        None => {
            return None;
        },
    };
    Some(Level { price, qty })
}

/// One side of the venue's book.
fn parse_hl_levels(v: &serde_json::Value) -> (r: Option<Vec<Level>>)
    ensures
        r is Some ==> levels_in_range(r->0@),
{
    let arr: &Vec<serde_json::Value> = match json_as_array(v) {
        Some(a) => a,
        None => {
            return None;
        },
    };
    let mut out: Vec<Level> = Vec::new();
    let n: usize = arr.len();
    let mut i: usize = 0;
    while i < n
        invariant
            0 <= i <= n,
            n == arr@.len(),
            levels_in_range(out@),
        decreases n - i,
    {
        match parse_hl_level(&arr[i]) {
            Some(lvl) => {
                out.push(lvl);
            },
            None => {
                return None;
            },
        }
        i = i + 1;
    }
    Some(out)
}

/// Decode an "l2Book" payload: the bid and ask sides and the venue
/// time, which also serves as the update identifier.
pub fn parse_l2_book(data: &serde_json::Value) -> (r: Option<DepthPayload>)
    ensures
        r is Some ==> r->0.wf(),
{
    let time: u64 = match json_get(data, "time") {
        Some(t) => match parse_json_u64(t) {
            Some(tt) => tt,
            None => {
                return None;
            },
        },
        None => {
            return None;
        },
    };
    let levels: &serde_json::Value = match json_get(data, "levels") {
        Some(l) => l,
        None => {
            return None;
        },
    };
    let bids: Vec<Level> = match json_get_index(levels, 0) {
        Some(b) => match parse_hl_levels(b) {
            Some(l) => l,
            None => {
                return None;
            },
        },
        None => {
            return None;
        },
    };
    let asks: Vec<Level> = match json_get_index(levels, 1) {
        Some(a) => match parse_hl_levels(a) {
            Some(l) => l,
            None => {
                return None;
            },
        },
        None => {
            return None;
        },
    };
    Some(DepthPayload { last_update_id: time, time, bids, asks })
}

/// Decode a trade batch: each trade an object with price "px", size
/// "sz", time, and side "A" for a sell.
fn parse_hl_trades(data: &serde_json::Value) -> (r: Option<Vec<RawTrade>>)
    ensures
        r is Some ==> forall|i: int|
            0 <= i < r->0.len() ==> price_in_range((#[trigger] r->0@[i]).price),
{
    let arr: &Vec<serde_json::Value> = match json_as_array(data) {
        Some(a) => a,
        None => {
            return None;
        },
    };
    let mut out: Vec<RawTrade> = Vec::new();
    let n: usize = arr.len();
    let mut i: usize = 0;
    while i < n
        invariant
            0 <= i <= n,
            n == arr@.len(),
            forall|k: int| 0 <= k < out.len() ==> price_in_range((#[trigger] out@[k]).price),
        decreases n - i,
    {
        let item: &serde_json::Value = &arr[i];
        let time: u64 = match json_get(item, "time") {
            Some(t) => match parse_json_u64(t) {
                Some(tt) => tt,
                None => {
                    return None;
                },
            },
            None => {
                return None;
            },
        };
        let price: Price = match json_get(item, "px") {
            Some(p) => match parse_json_price(p) {
                Some(pp) => pp,
                None => {
                    return None;
                },
            },
            None => {
                return None;
            },
        };
        let qty: Qty = match json_get(item, "sz") {
            Some(q) => match parse_json_qty(q) {
                Some(qq) => qq,
                None => {
                    return None;
                },
            },
            None => {
                return None;
            },
        };
        let is_sell: bool = match json_get(item, "side") {
            Some(s) => match json_as_str(s) {
                Some(ss) => crate::text::str_eq(ss, "A"),
                None => {
                    return None;
                },
            },
            None => {
                return None;
            },
        };
        out.push(RawTrade { time, price, qty, is_sell });
        i = i + 1;
    }
    Some(out)
}

/// Decode a candle message: symbol "s", interval "i", open time "t",
/// the four prices and the base volume "v".
fn parse_hl_candle(data: &serde_json::Value) -> (r: Option<KlineMsg>)
    ensures
        r is Some ==> raw_candle_in_range(r->0.candle),
{
    let symbol: String = match json_get(data, "s") {
        Some(v) => match json_as_str(v) {
            Some(s) => s.to_owned(),
            None => {
                return None;
            },
        },
        None => {
            return None;
        },
    };
    let interval: String = match json_get(data, "i") {
        Some(v) => match json_as_str(v) {
            Some(s) => s.to_owned(),
            None => {
                return None;
            },
        },
        None => {
            return None;
        },
    };
    let time: u64 = match json_get(data, "t") {
        Some(v) => match parse_json_u64(v) {
            Some(t) => t,
            None => {
                return None;
            },
        },
        None => {
            return None;
        },
    };
    let open: Price = match json_get(data, "o") {
        Some(v) => match parse_json_price(v) {
            Some(p) => p,
            None => {
                return None;
            },
        },
        None => {
            return None;
        },
    };
    let high: Price = match json_get(data, "h") {
        Some(v) => match parse_json_price(v) {
            Some(p) => p,
            None => {
                return None;
            },
        },
        None => {
            return None;
        },
    };
    let low: Price = match json_get(data, "l") {
        Some(v) => match parse_json_price(v) {
            Some(p) => p,
            None => {
                return None;
            },
        },
        None => {
            return None;
        },
    };
    let close: Price = match json_get(data, "c") {
        Some(v) => match parse_json_price(v) {
            Some(p) => p,
            None => {
                return None;
            },
        },
        None => {
            return None;
        },
    };
    let volume: Qty = match json_get(data, "v") {
        Some(v) => match parse_json_qty(v) {
            Some(q) => q,
            None => {
                return None;
            },
        },
        None => {
            return None;
        },
    };
    Some(
        KlineMsg {
            symbol,
            interval,
            candle: RawCandle { time, open, high, low, close, volume },
        },
    )
}

/// Decode one stream frame: the "channel" field selects trades, the
/// book, or a candle. Whatever the frame held, every price that comes
/// out is in the tick-rounding range.
pub fn parse_websocket_message(payload: &[u8]) -> (r: Result<StreamData, AdapterError>)
    ensures
        r is Ok ==> stream_data_wf(r->Ok_0),
        !crate::json::json_parses(payload@) ==> r is Err,
{
    let v: serde_json::Value = match json_parse(payload) {
        Some(v) => v,
        None => {
            return Err(AdapterError::ParseError("Invalid JSON frame".to_owned()));
        },
    };
    let channel: &str = match json_get(&v, "channel") {
        Some(c) => match json_as_str(c) {
            Some(s) => s,
            None => {
                return Err(AdapterError::ParseError("Channel is not text".to_owned()));
            },
        },
        None => {
            return Err(AdapterError::ParseError("Missing channel".to_owned()));
        },
    };
    let data: &serde_json::Value = match json_get(&v, "data") {
        Some(d) => d,
        None => {
            return Err(AdapterError::ParseError("Missing data".to_owned()));
        },
    };
    if crate::text::str_eq(channel, "trades") {
        match parse_hl_trades(data) {
            Some(ts) => Ok(StreamData::Trade(ts)),
            None => Err(AdapterError::ParseError("Malformed trade batch".to_owned())),
        }
    } else if crate::text::str_eq(channel, "l2Book") {
        match parse_l2_book(data) {
            Some(p) => Ok(StreamData::Depth(p)),
            None => Err(AdapterError::ParseError("Malformed book message".to_owned())),
        }
    } else if crate::text::str_eq(channel, "candle") {
        match parse_hl_candle(data) {
            Some(k) => Ok(StreamData::Kline(k)),
            None => Err(AdapterError::ParseError("Malformed candle".to_owned())),
        }
    } else {
        Err(AdapterError::ParseError("Unknown channel".to_owned()))
    }
}

/// The metadata the venue implies for an instrument at a price: the
/// computed tick size and a minimum quantity of ten to the minus size
/// decimals.
pub fn create_ticker_info(ticker: Ticker, price: Price, sz_decimals: u32, market: MarketKind)
    -> (r: TickerInfo)
    ensures
        r.ticker == ticker,
        r.contract_size is None,
        r.min_ticksize.wf(),
        r.min_qty.wf(),
{
    let tick_size: MinTicksize = compute_tick_size(price, sz_decimals, market);
    let mq: i32 = if sz_decimals <= 127 {
        0 - sz_decimals as i32
    } else {
        -127
    };
    let min_qty: MinQtySize = MinQtySize::new(if mq < -128 {
        -128
    } else {
        mq as i8
    });
    TickerInfo::new(ticker, tick_size, min_qty, None)
}


/// Read a token of the spot metadata: its name, index and size
/// decimals.
fn token_from_json(v: &serde_json::Value) -> (r: Option<TokenInfo>) {
    let name: String = match json_get(v, "name") {
        Some(n) => match json_as_str(n) {
            Some(s) => s.to_owned(),
            None => {
                return None;
            },
        },
        None => {
            return None;
        },
    };
    let index: u64 = match json_get(v, "index") {
        Some(i) => match parse_json_u64(i) {
            Some(ii) => ii,
            None => 0,
        },
        None => 0,
    };
    let sz_decimals: u64 = match json_get(v, "szDecimals") {
        Some(d) => match parse_json_u64(d) {
            Some(dd) => dd,
            None => {
                return None;
            },
        },
        None => {
            return None;
        },
    };
    if index > u32::MAX as u64 || sz_decimals > u32::MAX as u64 {
        return None;
    }
    Some(TokenInfo { name, index: index as u32, sz_decimals: sz_decimals as u32 })
}

/// The first usable price of an asset context: the mid price, the
/// mark price, or the oracle price, whichever parses first.
fn price_from_context(ctx: &serde_json::Value) -> (r: Option<Price>)
    ensures
        r is Some ==> price_in_range(r->0),
{
    match json_get(ctx, "midPx") {
        Some(p) => match parse_json_price(p) {
            Some(pp) => {
                return Some(pp);
            },
            None => {},
        },
        None => {},
    }
    match json_get(ctx, "markPx") {
        Some(p) => match parse_json_price(p) {
            Some(pp) => {
                return Some(pp);
            },
            None => {},
        },
        None => {},
    }
    match json_get(ctx, "oraclePx") {
        Some(p) => parse_json_price(p),
        None => None,
    }
}

/// Normalize the perpetual metadata payload [meta, contexts]: each
/// universe entry becomes an instrument whose tick size is computed
/// from its current price and size decimals.
pub fn normalize_perp_assets(body: &[u8], exchange: Exchange) -> (r: Result<
    Vec<(Ticker, Option<TickerInfo>)>,
    AdapterError,
>)
    ensures
        !crate::json::json_parses(body@) ==> r is Err,
        r matches Ok(rows) ==> forall|i: int|
            0 <= i < rows.len() ==> ({
                &&& (#[trigger] rows@[i]).0.wf()
                &&& rows@[i].0.exchange == exchange
                &&& (rows@[i].1 matches Some(info) ==> info.min_ticksize.wf()
                    && info.min_qty.wf() && info.contract_size is None)
            }),
{
    let v: serde_json::Value = match json_parse(body) {
        Some(v) => v,
        None => {
            return Err(AdapterError::ParseError("Invalid metadata JSON".to_owned()));
        },
    };
    let universe: &Vec<serde_json::Value> = match json_get_index(&v, 0) {
        Some(meta) => match json_get(meta, "universe") {
            Some(u) => match json_as_array(u) {
                Some(a) => a,
                None => {
                    return Err(
                        AdapterError::ParseError("Missing universe in metadata".to_owned()),
                    );
                },
            },
            None => {
                return Err(AdapterError::ParseError("Missing universe in metadata".to_owned()));
            },
        },
        None => {
            return Err(AdapterError::ParseError("Missing metadata".to_owned()));
        },
    };
    let contexts: &Vec<serde_json::Value> = match json_get_index(&v, 1) {
        Some(c) => match json_as_array(c) {
            Some(a) => a,
            None => {
                return Err(
                    AdapterError::ParseError("Missing asset contexts array".to_owned()),
                );
            },
        },
        None => {
            return Err(AdapterError::ParseError("Missing asset contexts array".to_owned()));
        },
    };
    let mut out: Vec<(Ticker, Option<TickerInfo>)> = Vec::new();
    let n: usize = universe.len();
    let mut i: usize = 0;
    while i < n
        invariant
            0 <= i <= n,
            n == universe@.len(),
            forall|k: int|
                0 <= k < out.len() ==> ({
                    &&& (#[trigger] out@[k]).0.wf()
                    &&& out@[k].0.exchange == exchange
                    &&& (out@[k].1 matches Some(info) ==> info.min_ticksize.wf()
                        && info.min_qty.wf() && info.contract_size is None)
                }),
        decreases n - i,
    {
        match token_from_json(&universe[i]) {
            Some(asset) => {
                if crate::symbol_is_valid(asset.name.as_str()) && i < contexts.len() {
                    match price_from_context(&contexts[i]) {
                        Some(price) => {
                            let ticker: Ticker = Ticker::new(asset.name.as_str(), exchange);
                            let info: TickerInfo = create_ticker_info(
                                ticker.clone(),
                                price,
                                asset.sz_decimals,
                                MarketKind::LinearPerps,
                            );
                            out.push((ticker, Some(info)));
                        },
                        None => {},
                    }
                }
            },
            None => {},
        }
        i = i + 1;
    }
    Ok(out)
}

/// Normalize the spot metadata payload [meta, contexts]: each pair of
/// the universe becomes an instrument carrying a display alias built
/// from its token names, priced by its context.
pub fn normalize_spot_assets(body: &[u8], exchange: Exchange) -> (r: Result<
    Vec<(Ticker, Option<TickerInfo>)>,
    AdapterError,
>)
    ensures
        !crate::json::json_parses(body@) ==> r is Err,
        r matches Ok(rows) ==> forall|i: int|
            0 <= i < rows.len() ==> ({
                &&& (#[trigger] rows@[i]).0.wf()
                &&& rows@[i].0.exchange == exchange
                &&& (rows@[i].1 matches Some(info) ==> info.min_ticksize.wf()
                    && info.min_qty.wf() && info.contract_size is None)
            }),
{
    let v: serde_json::Value = match json_parse(body) {
        Some(v) => v,
        None => {
            return Err(AdapterError::ParseError("Invalid metadata JSON".to_owned()));
        },
    };
    let meta: &serde_json::Value = match json_get_index(&v, 0) {
        Some(m) => m,
        None => {
            return Err(AdapterError::ParseError("Missing metadata".to_owned()));
        },
    };
    let contexts: &Vec<serde_json::Value> = match json_get_index(&v, 1) {
        Some(c) => match json_as_array(c) {
            Some(a) => a,
            None => {
                return Err(
                    AdapterError::ParseError("Missing asset contexts array".to_owned()),
                );
            },
        },
        None => {
            return Err(AdapterError::ParseError("Missing asset contexts array".to_owned()));
        },
    };
    let token_rows: &Vec<serde_json::Value> = match json_get(meta, "tokens") {
        Some(t) => match json_as_array(t) {
            Some(a) => a,
            None => {
                return Err(AdapterError::ParseError("Missing tokens".to_owned()));
            },
        },
        None => {
            return Err(AdapterError::ParseError("Missing tokens".to_owned()));
        },
    };
    let mut tokens: Vec<TokenInfo> = Vec::new();
    let tn: usize = token_rows.len();
    let mut ti: usize = 0;
    while ti < tn
        invariant
            0 <= ti <= tn,
            tn == token_rows@.len(),
        decreases tn - ti,
    {
        match token_from_json(&token_rows[ti]) {
            Some(tok) => {
                tokens.push(tok);
            },
            None => {},
        }
        ti = ti + 1;
    }
    let universe: &Vec<serde_json::Value> = match json_get(meta, "universe") {
        Some(u) => match json_as_array(u) {
            Some(a) => a,
            None => {
                return Err(AdapterError::ParseError("Missing universe".to_owned()));
            },
        },
        None => {
            return Err(AdapterError::ParseError("Missing universe".to_owned()));
        },
    };
    let mut out: Vec<(Ticker, Option<TickerInfo>)> = Vec::new();
    let n: usize = universe.len();
    let mut i: usize = 0;
    while i < n
        invariant
            0 <= i <= n,
            n == universe@.len(),
            forall|k: int|
                0 <= k < out.len() ==> ({
                    &&& (#[trigger] out@[k]).0.wf()
                    &&& out@[k].0.exchange == exchange
                    &&& (out@[k].1 matches Some(info) ==> info.min_ticksize.wf()
                        && info.min_qty.wf() && info.contract_size is None)
                }),
        decreases n - i,
    {
        let pair: &serde_json::Value = &universe[i];
        let name: Option<&str> = match json_get(pair, "name") {
            Some(nm) => json_as_str(nm),
            None => None,
        };
        let index: Option<u64> = match json_get(pair, "index") {
            Some(ix) => parse_json_u64(ix),
            None => None,
        };
        let base: Option<u64> = match json_get(pair, "tokens") {
            Some(t) => match json_get_index(t, 0) {
                Some(b) => parse_json_u64(b),
                None => None,
            },
            None => None,
        };
        let quote: Option<u64> = match json_get(pair, "tokens") {
            Some(t) => match json_get_index(t, 1) {
                Some(q) => parse_json_u64(q),
                None => None,
            },
            None => None,
        };
        match (name, index, base, quote) {
            (Some(pair_name), Some(ctx_index), Some(base_ix), Some(quote_ix)) => {
                if crate::symbol_is_valid(pair_name) && base_ix <= u32::MAX as u64 && quote_ix
                    <= u32::MAX as u64 && ctx_index < contexts.len() as u64 {
                    match price_from_context(&contexts[ctx_index as usize]) {
                        Some(price) => {
                            let display: String = create_display_symbol(
                                pair_name,
                                &tokens,
                                (base_ix as u32, quote_ix as u32),
                            );
                            // The base token's size decimals shape the tick.
                            let mut sz_decimals: u32 = 0;
                            let mut found: bool = false;
                            let mut k: usize = 0;
                            let m: usize = tokens.len();
                            while k < m
                                invariant
                                    0 <= k <= m,
                                    m == tokens@.len(),
                                decreases m - k,
                            {
                                if tokens[k].index == base_ix as u32 && !found {
                                    sz_decimals = tokens[k].sz_decimals;
                                    found = true;
                                }
                                k = k + 1;
                            }
                            if found && crate::symbol_is_valid(display.as_str()) {
                                let ticker: Ticker = Ticker::new_with_display(
                                    pair_name,
                                    exchange,
                                    Some(display.as_str()),
                                );
                                let info: TickerInfo = create_ticker_info(
                                    ticker.clone(),
                                    price,
                                    sz_decimals,
                                    MarketKind::Spot,
                                );
                                out.push((ticker, Some(info)));
                            }
                        },
                        None => {},
                    }
                }
            },
            _ => {},
        }
        i = i + 1;
    }
    Ok(out)
}

/// Normalize a candle-snapshot payload: an array of candle objects.
/// The venue reports no buy/sell split, so the converted volume sits
/// in the sell slot.
pub fn normalize_candle_snapshot(
    body: &[u8],
    min_ticksize: MinTicksize,
    size_in_quote: bool,
) -> (r: Result<Vec<crate::Kline>, AdapterError>)
    requires
        min_ticksize.wf(),
    ensures
        !crate::json::json_parses(body@) ==> r is Err,
        r matches Ok(ks) ==> forall|i: int|
            0 <= i < ks.len() ==> crate::kline_on_tick(#[trigger] ks@[i], min_ticksize),
{
    let v: serde_json::Value = match json_parse(body) {
        Some(v) => v,
        None => {
            return Err(AdapterError::ParseError("Invalid candle JSON".to_owned()));
        },
    };
    let rows: &Vec<serde_json::Value> = match json_as_array(&v) {
        Some(a) => a,
        None => {
            return Err(AdapterError::ParseError("Candle payload is not an array".to_owned()));
        },
    };
    let mut out: Vec<crate::Kline> = Vec::new();
    let n: usize = rows.len();
    let mut i: usize = 0;
    while i < n
        invariant
            0 <= i <= n,
            n == rows@.len(),
            min_ticksize.wf(),
            forall|k: int|
                0 <= k < out.len() ==> crate::kline_on_tick(#[trigger] out@[k], min_ticksize),
        decreases n - i,
    {
        match parse_hl_candle(&rows[i]) {
            Some(msg) => {
                let volume: Qty = if size_in_quote && msg.candle.close.units >= 0 {
                    match msg.candle.volume.to_quote_units(msg.candle.close) {
                        Some(q) => q,
                        None => {
                            return Err(
                                AdapterError::ParseError("Volume out of range".to_owned()),
                            );
                        },
                    }
                } else {
                    msg.candle.volume
                };
                out.push(
                    crate::Kline::new(
                        msg.candle.time,
                        msg.candle.open,
                        msg.candle.high,
                        msg.candle.low,
                        msg.candle.close,
                        crate::VolumePair { buy: Qty { units: 0 }, sell: volume },
                        min_ticksize,
                    ),
                );
            },
            None => {},
        }
        i = i + 1;
    }
    Ok(out)
}


/// Normalize the perpetual daily statistics: the venue's mid-price
/// map supplies the mark price, and each symbol's asset context the
/// previous daily price and notional volume. Spot symbols ("@index"
/// pairs and slash-named pairs) are left to the spot path.
pub fn normalize_perp_ticker_stats(
    mids_body: &[u8],
    metadata_body: &[u8],
    exchange: Exchange,
) -> (r: Result<Vec<(Ticker, crate::TickerStats)>, AdapterError>)
    ensures
        !crate::json::json_parses(mids_body@) ==> r is Err,
        !crate::json::json_parses(metadata_body@) ==> r is Err,
        r matches Ok(rows) ==> forall|i: int|
            0 <= i < rows.len() ==> ({
                &&& (#[trigger] rows@[i]).0.wf()
                &&& rows@[i].0.exchange == exchange
                &&& price_in_range(rows@[i].1.mark_price)
            }),
{
    let mids: serde_json::Value = match json_parse(mids_body) {
        Some(v) => v,
        None => {
            return Err(AdapterError::ParseError("Invalid mid-price JSON".to_owned()));
        },
    };
    let keys: Vec<String> = match crate::json::json_object_keys(&mids) {
        Some(k) => k,
        None => {
            return Err(AdapterError::ParseError("Mid prices are not an object".to_owned()));
        },
    };
    let meta: serde_json::Value = match json_parse(metadata_body) {
        Some(v) => v,
        None => {
            return Err(AdapterError::ParseError("Invalid metadata JSON".to_owned()));
        },
    };
    let universe: &Vec<serde_json::Value> = match json_get_index(&meta, 0) {
        Some(m) => match json_get(m, "universe") {
            Some(u) => match json_as_array(u) {
                Some(a) => a,
                None => {
                    return Err(AdapterError::ParseError("Universe not found".to_owned()));
                },
            },
            None => {
                return Err(AdapterError::ParseError("Universe not found".to_owned()));
            },
        },
        None => {
            return Err(AdapterError::ParseError("Meta data not found".to_owned()));
        },
    };
    let contexts: &Vec<serde_json::Value> = match json_get_index(&meta, 1) {
        Some(c) => match json_as_array(c) {
            Some(a) => a,
            None => {
                return Err(AdapterError::ParseError("Asset contexts not found".to_owned()));
            },
        },
        None => {
            return Err(AdapterError::ParseError("Asset contexts not found".to_owned()));
        },
    };
    let mut out: Vec<(Ticker, crate::TickerStats)> = Vec::new();
    let n: usize = keys.len();
    let mut i: usize = 0;
    while i < n
        invariant
            0 <= i <= n,
            n == keys@.len(),
            forall|k: int|
                0 <= k < out.len() ==> ({
                    &&& (#[trigger] out@[k]).0.wf()
                    &&& out@[k].0.exchange == exchange
                    &&& price_in_range(out@[k].1.mark_price)
                }),
        decreases n - i,
    {
        let symbol: &str = keys[i].as_str();
        let is_spot: bool = crate::text::str_contains_char(symbol, '@')
            || crate::text::str_contains_char(symbol, '/');
        if !is_spot && crate::symbol_is_valid(symbol) {
            let mid: Option<Price> = match crate::json::json_get(&mids, symbol) {
                Some(m) => parse_json_price(m),
                None => None,
            };
            match mid {
                Some(mid_price) => {
                    // Find this symbol's position in the universe; its
                    // context sits at the same index.
                    let m: usize = universe.len();
                    let mut j: usize = 0;
                    let mut found: Option<usize> = None;
                    while j < m
                        invariant
                            0 <= j <= m,
                            m == universe@.len(),
                            found matches Some(fj) ==> fj < m,
                        decreases m - j,
                    {
                        match json_get(&universe[j], "name") {
                            Some(nm) => match json_as_str(nm) {
                                Some(s) => {
                                    if crate::text::str_eq(s, symbol) && found.is_none() {
                                        found = Some(j);
                                    }
                                },
                                None => {},
                            },
                            None => {},
                        }
                        j = j + 1;
                    }
                    match found {
                        Some(idx) => {
                            if idx < contexts.len() {
                                let ctx: &serde_json::Value = &contexts[idx];
                                let prev: Option<Price> = match json_get(ctx, "prevDayPx") {
                                    Some(p) => parse_json_price(p),
                                    None => None,
                                };
                                let vol: Option<Qty> = match json_get(ctx, "dayNtlVlm") {
                                    Some(v) => parse_json_qty(v),
                                    None => None,
                                };
                                match (prev, vol) {
                                    (Some(prev_day), Some(volume)) => {
                                        if mid_price.units >= 0 && prev_day.units >= 0 {
                                            out.push(
                                                (
                                                    Ticker::new(symbol, exchange),
                                                    crate::TickerStats {
                                                        mark_price: mid_price,
                                                        daily_price_chg: crate::adapter::pct_change(
                                                            mid_price,
                                                            prev_day,
                                                        ),
                                                        daily_volume: volume,
                                                    },
                                                ),
                                            );
                                        }
                                    },
                                    _ => {},
                                }
                            }
                        },
                        None => {},
                    }
                },
                None => {},
            }
        }
        i = i + 1;
    }
    Ok(out)
}

} // verus!
