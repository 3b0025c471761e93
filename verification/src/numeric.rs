//! Fixed-point numeric model: prices as signed counts of atomic units
//! (one atomic unit is 10^-8 of a display unit), grouping steps, and
//! power-of-ten quantities with clamped exponents.

use vstd::prelude::*;

verus! {

/// Number of decimal digits of one atomic unit: prices are counted in 10^-8.
pub const PRICE_SCALE: u32 = 8;

/// 10^e over the integers.
pub open spec fn pow10(e: nat) -> nat
    decreases e,
{
    if e == 0 {
        1
    } else {
        10 * pow10((e - 1) as nat)
    }
}

/// Euclidean flooring of `a` to a multiple of `unit`.
pub open spec fn floor_to_multiple(a: int, unit: int) -> int {
    (a / unit) * unit
}

/// Nearest multiple of `unit`; a tie rounds toward plus infinity, as
/// adding half the step and flooring has it.
pub open spec fn round_to_multiple(a: int, unit: int) -> int {
    ((a + unit / 2) / unit) * unit
}

/// Nearest multiple of `unit`, ties away from zero: negative values
/// round by their magnitude. Display formatting uses this, so that a
/// sign never changes which digits appear.
pub open spec fn round_half_away(a: int, unit: int) -> int {
    if a >= 0 {
        ((a + unit / 2) / unit) * unit
    } else {
        -((((-a) + unit / 2) / unit) * unit)
    }
}

/// Smallest multiple of `unit` that is >= `a`.
pub open spec fn ceil_to_multiple(a: int, unit: int) -> int {
    ((a + unit - 1) / unit) * unit
}

/// The concrete values of the powers of ten that fit an i64.
pub proof fn lemma_pow10_values()
    ensures
        pow10(0) == 1,
        pow10(1) == 10,
        pow10(2) == 100,
        pow10(3) == 1000,
        pow10(4) == 10000,
        pow10(5) == 100000,
        pow10(6) == 1000000,
        pow10(7) == 10000000,
        pow10(8) == 100000000,
        pow10(9) == 1000000000,
        pow10(10) == 10000000000,
        pow10(11) == 100000000000,
        pow10(12) == 1000000000000,
        pow10(13) == 10000000000000,
        pow10(14) == 100000000000000,
        pow10(15) == 1000000000000000,
        pow10(16) == 10000000000000000,
        pow10(17) == 100000000000000000,
        pow10(18) == 1000000000000000000,
{
    assert(pow10(0) == 1);
    assert(pow10(1) == 10);
    assert(pow10(2) == 100);
    assert(pow10(3) == 1000);
    assert(pow10(4) == 10000);
    assert(pow10(5) == 100000);
    assert(pow10(6) == 1000000);
    assert(pow10(7) == 10000000);
    assert(pow10(8) == 100000000);
    assert(pow10(9) == 1000000000);
    assert(pow10(10) == 10000000000);
    assert(pow10(11) == 100000000000);
    assert(pow10(12) == 1000000000000);
    assert(pow10(13) == 10000000000000);
    assert(pow10(14) == 100000000000000);
    assert(pow10(15) == 1000000000000000);
    assert(pow10(16) == 10000000000000000);
    assert(pow10(17) == 100000000000000000);
    assert(pow10(18) == 1000000000000000000);
}

/// Exact power of ten used at execution time.
/// Returns 10^e; requires the result to fit an i64 (e <= 18).
pub fn pow10_i64(e: u32) -> (r: i64)
    requires
        e <= 18,
    ensures
        r == pow10(e as nat),
        r >= 1,
    decreases e,
{
    proof {
        lemma_pow10_monotone(e as nat, 18);
        lemma_pow10_values();
    }
    if e == 0 {
        1
    } else {
        let p: i64 = pow10_i64(e - 1);
        proof {
            lemma_pow10_monotone((e - 1) as nat, 17);
        }
        10 * p
    }
}

pub proof fn lemma_pow10_monotone(a: nat, b: nat)
    requires
        a <= b,
    ensures
        pow10(a) <= pow10(b),
        pow10(a) >= 1,
    decreases b,
{
    if b > 0 {
        if a == b {
            lemma_pow10_monotone((b - 1) as nat, (b - 1) as nat);
        } else {
            lemma_pow10_monotone(a, (b - 1) as nat);
        }
    }
}

/// Powers of ten multiply by adding exponents.
pub proof fn lemma_pow10_mul(a: nat, b: nat)
    ensures
        pow10(a) * pow10(b) == pow10(a + b),
    decreases a,
{
    if a == 0 {
        assert(pow10(0) * pow10(b) == pow10(b)) by (nonlinear_arith)
            requires
                pow10(0) == 1,
        ;
    } else {
        lemma_pow10_mul((a - 1) as nat, b);
        assert((10 * pow10((a - 1) as nat)) * pow10(b) == 10 * (pow10((a - 1) as nat) * pow10(
            b,
        ))) by (nonlinear_arith);
    }
}

/// Euclidean (flooring) division of an i64 by a positive divisor, with
/// the proof that the quotient stays in range.
pub fn div_floor_i64(a: i64, b: i64) -> (r: i64)
    requires
        b >= 1,
    ensures
        r == a as int / b as int,
{
    proof {
        assert(i64::MIN <= a as int / b as int <= i64::MAX) by (nonlinear_arith)
            requires
                b as int >= 1,
                i64::MIN <= a as int <= i64::MAX,
        ;
    }
    a.checked_div_euclid(b).unwrap()
}

/// The multiple `(x / unit) * unit` sits within `(x - unit, x]`.
pub proof fn lemma_floor_mul_bounds(x: int, unit: int)
    requires
        unit >= 1,
    ensures
        (x / unit) * unit <= x,
        x - unit < (x / unit) * unit,
{
    assert((x / unit) * unit <= x && x - unit < (x / unit) * unit) by (nonlinear_arith)
        requires
            unit >= 1,
    ;
}

/// A power-of-ten quantity: the value 10^power, with the exponent clamped
/// to a declared range when constructed.
#[derive(Debug, Clone, Copy, PartialEq, Eq, Hash, Structural)]
pub struct Power10 {
    pub power: i8,
}

impl Power10 {
    /// Clamp `power` into `[min, max]`.
    pub fn new(power: i8, min: i8, max: i8) -> (r: Self)
        requires
            min <= max,
        ensures
            min <= r.power <= max,
            r.power == if power < min {
                min as int
            } else if power > max {
                max as int
            } else {
                power as int
            },
    {
        let clamped: i8 = if power < min {
            min
        } else if power > max {
            max
        } else {
            power
        };
        Power10 { power: clamped }
    }
}

/// Minimum price increment of an instrument: 10^power, power in [-8, 2].
#[derive(Debug, Clone, Copy, PartialEq, Eq, Hash, Structural)]
pub struct MinTicksize {
    pub power: i8,
}

impl MinTicksize {
    pub open spec fn wf(self) -> bool {
        -8 <= self.power <= 2
    }

    /// Clamp `power` into the tick-size exponent range [-8, 2].
    pub fn new(power: i8) -> (r: Self)
        ensures
            r.wf(),
            r.power == if power < -8 {
                -8
            } else if power > 2 {
                2
            } else {
                power as int
            },
    {
        let p: Power10 = Power10::new(power, -8, 2);
        MinTicksize { power: p.power }
    }

    /// The nearest power of ten to a positive atomic-unit count,
    /// clamped into the range; zero or negative counts give 10^0.
    pub fn from_units(units: i64) -> (r: Self)
        ensures
            r.wf(),
            units <= 0 ==> r.power == 0,
            units > 0 ==> ({
                let p = nearest_exp((units * units) as nat, 0) - 8;
                r.power == if p < -8 {
                    -8int
                } else if p > 2 {
                    2int
                } else {
                    p
                }
            }),
    {
        if units <= 0 {
            MinTicksize { power: 0 }
        } else {
            let e: u32 = nearest_pow10_exp(units as u64);
            let p: i32 = e as i32 - 8;
            Self::new(p as i8)
        }
    }
}

/// Minimum order quantity of an instrument: 10^power, power in [-6, 8].
#[derive(Debug, Clone, Copy, PartialEq, Eq, Hash, Structural)]
pub struct MinQtySize {
    pub power: i8,
}

impl MinQtySize {
    pub open spec fn wf(self) -> bool {
        -6 <= self.power <= 8
    }

    /// Clamp `power` into the quantity exponent range [-6, 8].
    pub fn new(power: i8) -> (r: Self)
        ensures
            r.wf(),
            r.power == if power < -6 {
                -6
            } else if power > 8 {
                8
            } else {
                power as int
            },
    {
        let p: Power10 = Power10::new(power, -6, 8);
        MinQtySize { power: p.power }
    }

    /// The nearest power of ten to a positive atomic-unit count,
    /// clamped into the range; zero or negative counts give 10^0.
    pub fn from_units(units: i64) -> (r: Self)
        ensures
            r.wf(),
            units <= 0 ==> r.power == 0,
            units > 0 ==> ({
                let p = nearest_exp((units * units) as nat, 0) - 8;
                r.power == if p < -6 {
                    -6int
                } else if p > 8 {
                    8int
                } else {
                    p
                }
            }),
    {
        if units <= 0 {
            MinQtySize { power: 0 }
        } else {
            let e: u32 = nearest_pow10_exp(units as u64);
            let p: i32 = e as i32 - 8;
            Self::new(p as i8)
        }
    }
}

/// Contract size of a derivative instrument: 10^power, power in [-4, 6].
#[derive(Debug, Clone, Copy, PartialEq, Eq, Hash, Structural)]
pub struct ContractSize {
    pub power: i8,
}

impl ContractSize {
    pub open spec fn wf(self) -> bool {
        -4 <= self.power <= 6
    }

    /// Clamp `power` into the contract-size exponent range [-4, 6].
    pub fn new(power: i8) -> (r: Self)
        ensures
            r.wf(),
            r.power == if power < -4 {
                -4
            } else if power > 6 {
                6
            } else {
                power as int
            },
    {
        let p: Power10 = Power10::new(power, -4, 6);
        ContractSize { power: p.power }
    }

    /// The nearest power of ten to a positive atomic-unit count,
    /// clamped into the range; zero or negative counts give 10^0.
    pub fn from_units(units: i64) -> (r: Self)
        ensures
            r.wf(),
            units <= 0 ==> r.power == 0,
            units > 0 ==> ({
                let p = nearest_exp((units * units) as nat, 0) - 8;
                r.power == if p < -4 {
                    -4int
                } else if p > 6 {
                    6int
                } else {
                    p
                }
            }),
    {
        if units <= 0 {
            ContractSize { power: 0 }
        } else {
            let e: u32 = nearest_pow10_exp(units as u64);
            let p: i32 = e as i32 - 8;
            Self::new(p as i8)
        }
    }
}

/// A grouping granularity (tick size or chart bucket width), counted in
/// atomic units.
#[derive(Debug, Default, Clone, Copy, PartialEq, Eq, Hash, Structural)]
pub struct PriceStep {
    pub units: i64,
}

impl PriceStep {
    pub fn from_units(units: i64) -> (r: Self)
        ensures
            r.units == units,
    {
        PriceStep { units }
    }
}

/// A price: a signed count of atomic units. Two prices are equal iff their
/// counts are equal; ordering is the integer ordering of the counts.
#[derive(Debug, Clone, Copy, PartialEq, Eq, Hash, Structural)]
pub struct Price {
    pub units: i64,
}

impl Price {
    /// Wrap a raw atomic-unit count, with no rounding.
    pub fn from_units(units: i64) -> (r: Self)
        ensures
            r.units == units,
    {
        Price { units }
    }

    /// Integer comparison on the unit counts.
    pub fn lt(self, other: Self) -> (r: bool)
        ensures
            r == (self.units < other.units),
    {
        self.units < other.units
    }

    /// Checked addition of two prices; overflow is a caller error.
    pub fn add_price(self, rhs: Self) -> (r: Self)
        requires
            i64::MIN <= self.units + rhs.units <= i64::MAX,
        ensures
            r.units == self.units + rhs.units,
    {
        Price { units: self.units + rhs.units }
    }

    /// Checked subtraction of two prices; overflow is a caller error.
    pub fn sub_price(self, rhs: Self) -> (r: Self)
        requires
            i64::MIN <= self.units - rhs.units <= i64::MAX,
        ensures
            r.units == self.units - rhs.units,
    {
        Price { units: self.units - rhs.units }
    }

    /// Euclidean division of the unit count by a positive integer.
    pub fn div_int(self, rhs: i64) -> (r: Self)
        requires
            rhs > 0,
        ensures
            r.units == self.units / rhs,
    {
        Price { units: div_floor_i64(self.units, rhs) }
    }

    /// Round to the nearest multiple of `step`, ties away from zero.
    /// A step of zero or one atomic unit is a no-op; overflow near the
    /// ends of the range is a caller error.
    pub fn round_to_step(self, step: PriceStep) -> (r: Self)
        requires
            step.units > 1 ==> self.units + step.units / 2 <= i64::MAX,
            step.units > 1 ==> i64::MIN + 2 * step.units <= self.units,
        ensures
            step.units <= 1 ==> r == self,
            step.units > 1 ==> r.units == round_to_multiple(self.units as int, step.units as int),
    {
        let unit: i64 = step.units;
        if unit <= 1 {
            return self;
        }
        let half: i64 = div_floor_i64(unit, 2);
        proof {
            lemma_floor_mul_bounds(self.units + half, unit as int);
            if self.units + half >= 0 {
                vstd::arithmetic::div_mod::lemma_div_pos_is_pos(
                    self.units + half,
                    unit as int,
                );
                vstd::arithmetic::mul::lemma_mul_nonnegative(
                    (self.units + half) / (unit as int),
                    unit as int,
                );
            }
        }
        let rounded: i64 = div_floor_i64(self.units + half, unit) * unit;
        Price { units: rounded }
    }

    /// Floor to a multiple of `step`; a step of zero or one is a no-op.
    /// Underflow below the representable range is a caller error.
    pub fn floor_to_step(self, step: PriceStep) -> (r: Self)
        requires
            step.units > 1 ==> i64::MIN + step.units <= self.units,
        ensures
            r == self.floor_spec(step),
            r.units <= self.units,
    {
        let unit: i64 = step.units;
        if unit <= 1 {
            return self;
        }
        proof {
            lemma_floor_mul_bounds(self.units as int, unit as int);
        }
        let floored: i64 = div_floor_i64(self.units, unit) * unit;
        Price { units: floored }
    }

    /// Ceil to a multiple of `step`; a step of zero or one is a no-op.
    /// Saturates instead of overflowing near the top of the range.
    pub fn ceil_to_step(self, step: PriceStep) -> (r: Self)
        ensures
            r == self.ceil_spec(step),
            step.units > 1 && self.units + step.units - 1 <= i64::MAX ==> r.units >= self.units,
    {
        let unit: i64 = step.units;
        if unit <= 1 {
            return self;
        }
        let added: i64 = match self.units.checked_add(unit - 1) {
            Some(v) => v,
            None => {
                if self.units < 0 {
                    i64::MIN
                } else {
                    i64::MAX
                }
            },
        };
        proof {
            lemma_floor_mul_bounds(added as int, unit as int);
        }
        let ceiled: i64 = div_floor_i64(added, unit) * unit;
        Price { units: ceiled }
    }

    /// Directionally biased grouping: the bid/sell side floors, the ask/buy
    /// side ceils, so one level never mixes liquidity from both sides.
    pub fn round_to_side_step(self, is_sell_or_bid: bool, step: PriceStep) -> (r: Self)
        requires
            is_sell_or_bid && step.units > 1 ==> i64::MIN + step.units <= self.units,
        ensures
            is_sell_or_bid ==> r == self.floor_spec(step),
            !is_sell_or_bid ==> r == self.ceil_spec(step),
            is_sell_or_bid ==> r.units <= self.units,
            !is_sell_or_bid && (step.units <= 1 || self.units + step.units - 1 <= i64::MAX)
                ==> r.units >= self.units,
    {
        if is_sell_or_bid {
            self.floor_to_step(step)
        } else {
            self.ceil_to_step(step)
        }
    }

    /// What `floor_to_step` returns.
    pub open spec fn floor_spec(self, step: PriceStep) -> Price {
        if step.units <= 1 {
            self
        } else {
            Price { units: floor_to_multiple(self.units as int, step.units as int) as i64 }
        }
    }

    /// What `ceil_to_step` returns.
    pub open spec fn ceil_spec(self, step: PriceStep) -> Price {
        if step.units <= 1 {
            self
        } else if self.units + step.units - 1 <= i64::MAX {
            Price { units: ceil_to_multiple(self.units as int, step.units as int) as i64 }
        } else {
            Price { units: floor_to_multiple(i64::MAX as int, step.units as int) as i64 }
        }
    }

    /// Atomic units in one minimum tick: 10^(PRICE_SCALE + power).
    pub fn min_tick_units(min_tick: MinTicksize) -> (r: i64)
        requires
            min_tick.wf(),
        ensures
            r == pow10((PRICE_SCALE + min_tick.power) as nat),
            r >= 1,
    {
        let exp: u32 = (PRICE_SCALE as i32 + min_tick.power as i32) as u32;
        pow10_i64(exp)
    }

    /// Round to the nearest multiple of the minimum tick, ties away from
    /// zero. The bounds keep every tick size (at most 10^10 atomic units)
    /// free of overflow.
    pub fn round_to_min_tick(self, min_tick: MinTicksize) -> (r: Self)
        requires
            min_tick.wf(),
            self.units <= i64::MAX - 5_000_000_000,
            self.units >= i64::MIN + 20_000_000_000,
        ensures
            r.units == round_to_multiple(
                self.units as int,
                pow10((PRICE_SCALE + min_tick.power) as nat) as int,
            ),
    {
        let unit: i64 = Self::min_tick_units(min_tick);
        proof {
            lemma_pow10_values();
            lemma_pow10_monotone((PRICE_SCALE + min_tick.power) as nat, 10);
            if unit == 1 {
                lemma_floor_mul_bounds(self.units as int, 1);
                if self.units >= 0 {
                    assert(round_to_multiple(self.units as int, 1) == (self.units as int / 1)
                        * 1);
                } else {
                    assert(round_to_multiple(self.units as int, 1) == (self.units as int / 1)
                        * 1);
                }
            }
        }
        self.round_to_step(PriceStep { units: unit })
    }

    /// Move by `steps` increments of `step`. The product saturates; the
    /// final addition must not overflow.
    pub fn add_steps(self, steps: i64, step: PriceStep) -> (r: Self)
        requires
            i64::MIN <= steps * step.units <= i64::MAX,
            i64::MIN <= self.units + steps * step.units <= i64::MAX,
        ensures
            r.units == self.units + steps * step.units,
    {
        let delta: i64 = steps.checked_mul(step.units).unwrap();
        Price { units: self.units + delta }
    }

    /// Number of step increments from `low` to `high`, both ends included.
    /// None when the range is reversed, the step is not positive, or the
    /// count does not fit the machine.
    pub fn steps_between_inclusive(low: Price, high: Price, step: PriceStep) -> (r: Option<usize>)
        ensures
            (high.units < low.units || step.units <= 0 || high.units - low.units > i64::MAX
                || (high.units - low.units) / (step.units as int) + 1 > usize::MAX) <==> r is None,
            r is Some ==> r->0 == (high.units - low.units) / (step.units as int) + 1,
    {
        if high.units < low.units || step.units <= 0 {
            return None;
        }
        match high.units.checked_sub(low.units) {
            None => None,
            Some(span) => {
                proof {
                    assert(0 <= span as int / (step.units as int) <= span as int)
                        by (nonlinear_arith)
                        requires
                            span as int >= 0,
                            step.units as int >= 1,
                    ;
                }
                let q: i64 = div_floor_i64(span, step.units);
                if (q as u64) > (usize::MAX as u64) - 1 {
                    None
                } else {
                    Some((q as usize) + 1)
                }
            },
        }
    }
}

/// The decimal rendering of a price at a given precision: the unit
/// count rounded to the nearest multiple of 10^(8 + power) by its
/// magnitude (so a sign never changes which digits appear), written
/// with min(-power, 8) fractional digits (none when power >= 0). The
/// integer part is always written in full.
pub open spec fn price_text(units: int, power: int) -> Seq<char> {
    let unit = pow10((8 + power) as nat) as int;
    let rounded = round_half_away(units, unit);
    let decimals = if power < 0 {
        vstd::math::min(-power, 8)
    } else {
        0
    };
    let mag = if rounded < 0 {
        -rounded
    } else {
        rounded
    };
    let sign = if rounded < 0 {
        seq!['-']
    } else {
        Seq::<char>::empty()
    };
    let ip = mag / 100_000_000;
    if decimals == 0 {
        sign + crate::text::dec_digits(ip as nat)
    } else {
        let fp = (mag % 100_000_000) / pow10((8 - decimals) as nat) as int;
        sign + crate::text::dec_digits(ip as nat) + seq!['.'] + crate::text::dec_padded(
            fp as nat,
            decimals as nat,
        )
    }
}

impl Price {
    /// Append the decimal rendering of this price at `precision` to
    /// `out`. The bounds keep rounding free of overflow for every
    /// accepted precision.
    pub fn fmt_into(self, precision: Power10, out: &mut String)
        requires
            -8 <= precision.power <= 2,
            self.units <= i64::MAX - 5_000_000_000,
            self.units >= i64::MIN + 20_000_000_000,
        ensures
            final(out)@ == old(out)@ + price_text(self.units as int, precision.power as int),
    {
        let exp: u32 = (PRICE_SCALE as i32 + precision.power as i32) as u32;
        let unit: i64 = pow10_i64(exp);
        proof {
            lemma_pow10_values();
            lemma_pow10_monotone(exp as nat, 10);
        }
        let decimals: u32 = if precision.power < 0 {
            let d: u32 = (-(precision.power as i32)) as u32;
            if d < 8 {
                d
            } else {
                8
            }
        } else {
            0
        };
        // Round the magnitude, so the sign never changes the digits.
        let neg0: bool = self.units < 0;
        let mag0: u64 = if neg0 {
            (-(self.units as i128)) as u64
        } else {
            self.units as u64
        };
        let half: u64 = (unit as u64) / 2;
        proof {
            lemma_floor_mul_bounds(mag0 + half, unit as int);
            vstd::arithmetic::div_mod::lemma_div_pos_is_pos(
                mag0 + half,
                unit as int,
            );
            vstd::arithmetic::mul::lemma_mul_nonnegative(
                (mag0 + half) / (unit as int),
                unit as int,
            );
        }
        let mag: u64 = ((mag0 + half) / (unit as u64)) * (unit as u64);
        let neg: bool = neg0 && mag > 0;
        proof {
            if self.units >= 0 {
                assert(round_half_away(self.units as int, unit as int) == mag as int);
            } else {
                assert(round_half_away(self.units as int, unit as int) == -(mag as int));
            }
        }
        if neg {
            proof {
                reveal_strlit("-");
                assert("-"@ =~= seq!['-']);
            }
            out.append("-");
        }
        let ip: u64 = mag / 100_000_000u64;
        crate::text::append_u64(out, ip);
        if decimals > 0 {
            proof {
                reveal_strlit(".");
                assert("."@ =~= seq!['.']);
            }
            out.append(".");
            let div: u64 = pow10_i64(8 - decimals) as u64;
            let fp: u64 = (mag % 100_000_000u64) / div;
            crate::text::append_u64_padded(out, fp, decimals);
        }
        proof {
            let txt = price_text(self.units as int, precision.power as int);
            if decimals == 0 {
                if neg {
                    assert(old(out)@ + seq!['-'] + crate::text::dec_digits(ip as nat) =~= old(
                        out,
                    )@ + txt);
                } else {
                    assert(old(out)@ + crate::text::dec_digits(ip as nat) =~= old(out)@ + txt);
                }
            } else {
                let fp = (mag as int % 100_000_000) / pow10((8 - decimals) as nat) as int;
                if neg {
                    assert(old(out)@ + seq!['-'] + crate::text::dec_digits(ip as nat)
                        + seq!['.'] + crate::text::dec_padded(fp as nat, decimals as nat)
                        =~= old(out)@ + txt);
                } else {
                    assert(old(out)@ + crate::text::dec_digits(ip as nat) + seq!['.']
                        + crate::text::dec_padded(fp as nat, decimals as nat) =~= old(out)@
                        + txt);
                }
            }
        }
    }

    /// The decimal rendering of this price at `precision`.
    pub fn to_string(self, precision: Power10) -> (r: String)
        requires
            -8 <= precision.power <= 2,
            self.units <= i64::MAX - 5_000_000_000,
            self.units >= i64::MIN + 20_000_000_000,
        ensures
            r@ == price_text(self.units as int, precision.power as int),
    {
        let mut out: String = String::new();
        self.fmt_into(precision, &mut out);
        proof {
            assert(Seq::<char>::empty() + price_text(
                self.units as int,
                precision.power as int,
            ) =~= price_text(self.units as int, precision.power as int));
        }
        out
    }
}

/// Grouping a price to a side-biased step never crosses the input:
/// the bid/floor result is never greater than the price, the ask/ceil
/// result never less. The bound keeps the ceil away from the saturation
/// point at the top of the range, where it instead stays below.
pub proof fn lemma_side_step_bias(p: Price, step: PriceStep)
    requires
        step.units > 1 ==> i64::MIN + step.units <= p.units,
        step.units > 1 ==> p.units + step.units - 1 <= i64::MAX,
    ensures
        p.floor_spec(step).units <= p.units,
        p.ceil_spec(step).units >= p.units,
{
    if step.units > 1 {
        lemma_floor_mul_bounds(p.units as int, step.units as int);
        lemma_floor_mul_bounds(p.units + step.units - 1, step.units as int);
    }
}

/// A nonnegative quantity of an instrument (an order size or volume),
/// counted in atomic units of 10^-8.
#[derive(Debug, Default, Clone, Copy, PartialEq, Eq, Hash, Structural)]
pub struct Qty {
    pub units: u64,
}

impl Qty {
    pub fn from_units(units: u64) -> (r: Self)
        ensures
            r.units == units,
    {
        Qty { units }
    }

    pub fn is_zero(self) -> (r: bool)
        ensures
            r == (self.units == 0),
    {
        self.units == 0
    }

    /// Add two quantities; None on overflow.
    pub fn checked_add(self, rhs: Self) -> (r: Option<Qty>)
        ensures
            r is Some <==> self.units + rhs.units <= u64::MAX,
            r is Some ==> r->0.units == self.units + rhs.units,
    {
        match self.units.checked_add(rhs.units) {
            Some(v) => Some(Qty { units: v }),
            None => None,
        }
    }

    /// Multiply by a power of ten (a contract size). A nonnegative
    /// exponent is exact and None on overflow; a negative exponent
    /// divides, discarding the remainder.
    pub fn scale_by_pow10(self, power: i8) -> (r: Option<Qty>)
        requires
            -18 <= power <= 18,
        ensures
            power >= 0 ==> ((r is Some <==> self.units * pow10(power as nat) <= u64::MAX)
                && (r is Some ==> r->0.units == self.units * pow10(power as nat))),
            power < 0 ==> r is Some && r->0.units == self.units as int / pow10((-power) as nat) as int,
    {
        if power >= 0 {
            let m: u64 = pow10_i64(power as u32) as u64;
            match self.units.checked_mul(m) {
                Some(v) => Some(Qty { units: v }),
                None => None,
            }
        } else {
            let d: u64 = pow10_i64((-(power as i32)) as u32) as u64;
            Some(Qty { units: self.units / d })
        }
    }

    /// Convert a base-asset quantity into whole quote units at `price`:
    /// the product rounded half up to a whole display unit, as a count
    /// of atomic units. None when the result does not fit.
    pub fn to_quote_units(self, price: Price) -> (r: Option<Qty>)
        requires
            price.units >= 0,
        ensures
            r is Some <==> quote_units(self.units as nat, price.units as nat) <= u64::MAX,
            r is Some ==> r->0.units == quote_units(self.units as nat, price.units as nat),
    {
        proof {
            assert((self.units as u128) * (price.units as u128) <= (u64::MAX as u128) * (
            i64::MAX as u128)) by (nonlinear_arith)
                requires
                    self.units as u128 <= u64::MAX as u128,
                    0 <= price.units as u128 <= i64::MAX as u128,
            ;
        }
        let prod: u128 = (self.units as u128) * (price.units as u128);
        let whole: u128 = (prod + 5_000_000_000_000_000u128) / 10_000_000_000_000_000u128;
        proof {
            assert(whole <= (u64::MAX as u128 * i64::MAX as u128 + 5_000_000_000_000_000)
                / 10_000_000_000_000_000) by {
                vstd::arithmetic::div_mod::lemma_div_is_ordered(
                    whole as int * 10_000_000_000_000_000 + (prod as int
                        + 5_000_000_000_000_000) % 10_000_000_000_000_000
                        - ((prod as int + 5_000_000_000_000_000)
                        % 10_000_000_000_000_000),
                    u64::MAX as int * i64::MAX as int + 5_000_000_000_000_000,
                    10_000_000_000_000_000,
                );
                vstd::arithmetic::div_mod::lemma_div_is_ordered(
                    prod as int + 5_000_000_000_000_000,
                    u64::MAX as int * i64::MAX as int + 5_000_000_000_000_000,
                    10_000_000_000_000_000,
                );
            }
        }
        match whole.checked_mul(100_000_000u128) {
            Some(units) => {
                if units > u64::MAX as u128 {
                    None
                } else {
                    Some(Qty { units: units as u64 })
                }
            },
            None => None,
        }
    }
}

/// A base quantity times a price, rounded half up to a whole display
/// unit, as atomic units: round(q * p / 10^16) * 10^8.
pub open spec fn quote_units(q: nat, p: nat) -> nat {
    ((q * p + 5_000_000_000_000_000) / 10_000_000_000_000_000) * 100_000_000
}

/// What `Qty::scale_by_pow10` returns.
pub open spec fn scale_by_pow10_spec(q: Qty, power: i8) -> Option<Qty> {
    if power >= 0 {
        if q.units * pow10(power as nat) <= u64::MAX {
            Some(Qty { units: (q.units * pow10(power as nat)) as u64 })
        } else {
            None
        }
    } else {
        Some(Qty { units: (q.units as int / pow10((-power) as nat) as int) as u64 })
    }
}

/// What `Qty::to_quote_units` returns, None for a negative price.
pub open spec fn to_quote_units_spec(q: Qty, price: Price) -> Option<Qty> {
    if price.units >= 0 && quote_units(q.units as nat, price.units as nat) <= u64::MAX {
        Some(Qty { units: quote_units(q.units as nat, price.units as nat) as u64 })
    } else {
        None
    }
}

/// Exact power of ten as a u128; the exponent may reach 38.
pub fn pow10_u128(e: u32) -> (r: u128)
    requires
        e <= 38,
    ensures
        r == pow10(e as nat),
        r >= 1,
    decreases e,
{
    proof {
        lemma_pow10_38_bound();
        lemma_pow10_monotone(e as nat, 38);
    }
    if e == 0 {
        1
    } else {
        let p: u128 = pow10_u128(e - 1);
        proof {
            lemma_pow10_monotone((e - 1) as nat, 37);
            lemma_pow10_38_bound();
        }
        10 * p
    }
}

/// The powers of ten up to 10^38 fit a u128.
pub proof fn lemma_pow10_38_bound()
    ensures
        pow10(37) == 10_000_000_000_000_000_000_000_000_000_000_000_000,
        pow10(38) == 100_000_000_000_000_000_000_000_000_000_000_000_000,
        pow10(38) <= u128::MAX,
{
    lemma_pow10_values();
    assert(pow10(19) == 10 * pow10(18));
    assert(pow10(20) == 10 * pow10(19));
    assert(pow10(21) == 10 * pow10(20));
    assert(pow10(22) == 10 * pow10(21));
    assert(pow10(23) == 10 * pow10(22));
    assert(pow10(24) == 10 * pow10(23));
    assert(pow10(25) == 10 * pow10(24));
    assert(pow10(26) == 10 * pow10(25));
    assert(pow10(27) == 10 * pow10(26));
    assert(pow10(28) == 10 * pow10(27));
    assert(pow10(29) == 10 * pow10(28));
    assert(pow10(30) == 10 * pow10(29));
    assert(pow10(31) == 10 * pow10(30));
    assert(pow10(32) == 10 * pow10(31));
    assert(pow10(33) == 10 * pow10(32));
    assert(pow10(34) == 10 * pow10(33));
    assert(pow10(35) == 10 * pow10(34));
    assert(pow10(36) == 10 * pow10(35));
    assert(pow10(37) == 10 * pow10(36));
    assert(pow10(38) == 10 * pow10(37));
}

/// The exponent of the power of ten nearest to the value whose square
/// is `sq`, searching upward from `e`: rounding a base-ten logarithm
/// means comparing the square against the odd powers of ten.
pub open spec fn nearest_exp(sq: nat, e: nat) -> nat
    decreases 18 - e,
{
    if e >= 18 {
        18
    } else if sq < pow10(2 * e + 1) {
        e
    } else {
        nearest_exp(sq, e + 1)
    }
}

/// The exponent of the power of ten nearest to `units` in log space:
/// the unique e with 10^(2e-1) <= units^2 (unless e is 0) and
/// units^2 < 10^(2e+1) (unless e is 18), matching a rounded log10.
pub fn nearest_pow10_exp(units: u64) -> (e: u32)
    requires
        units >= 1,
    ensures
        e <= 18,
        e == nearest_exp((units * units) as nat, 0),
        e > 0 ==> pow10((2 * e - 1) as nat) <= units * units,
        e < 18 ==> units * units < pow10((2 * e + 1) as nat),
{
    proof {
        assert((units as int) * (units as int) <= (u64::MAX as int) * (u64::MAX as int)
            && (u64::MAX as int) * (u64::MAX as int) <= u128::MAX) by (nonlinear_arith)
            requires
                0 <= units as int <= u64::MAX as int,
        ;
    }
    let sq: u128 = (units as u128) * (units as u128);
    let mut e: u32 = 0;
    while e < 18 && sq >= pow10_u128(2 * e + 1)
        invariant
            0 <= e <= 18,
            sq == units * units,
            e > 0 ==> pow10((2 * e - 1) as nat) <= sq,
            nearest_exp(sq as nat, 0) == nearest_exp(sq as nat, e as nat),
        decreases 18 - e,
    {
        e = e + 1;
    }
    e
}

} // verus!
