//! Order-book reconstruction: a two-sided book kept as sorted price
//! levels, replaced wholesale by snapshots and merged incrementally by
//! diffs. A quantity of zero removes its level; no zero-quantity entry
//! ever persists. The book is modelled as a map from price to quantity.

use vstd::prelude::*;

use crate::numeric::{MinTicksize, Price, Qty};

verus! {

/// One price level: a price and the outstanding quantity at it.
#[derive(Debug, Clone, Copy, PartialEq, Eq, Structural)]
pub struct Level {
    pub price: Price,
    pub qty: Qty,
}

/// A side of the book is well-formed when its levels are sorted by
/// strictly increasing price and hold no zero quantity.
pub open spec fn side_wf(s: Seq<Level>) -> bool {
    &&& forall|i: int, j: int|
        0 <= i < j < s.len() ==> (#[trigger] s[i]).price.units < (#[trigger] s[j]).price.units
    &&& forall|i: int| 0 <= i < s.len() ==> (#[trigger] s[i]).qty.units > 0
}

/// The contents of a side as a map from price units to quantity units.
pub open spec fn side_map(s: Seq<Level>) -> Map<int, u64>
    decreases s.len(),
{
    if s.len() == 0 {
        Map::empty()
    } else {
        side_map(s.drop_last()).insert(s.last().price.units as int, s.last().qty.units)
    }
}

/// A price is in the map exactly when some level holds it, with that
/// level's quantity.
pub proof fn lemma_side_map_index(s: Seq<Level>)
    requires
        side_wf(s),
    ensures
        forall|p: int|
            #[trigger] side_map(s).dom().contains(p) <==> exists|i: int|
                0 <= i < s.len() && (#[trigger] s[i]).price.units == p,
        forall|i: int|
            0 <= i < s.len() ==> side_map(s).dom().contains((#[trigger] s[i]).price.units as int)
                && side_map(s)[s[i].price.units as int] == s[i].qty.units,
    decreases s.len(),
{
    if s.len() > 0 {
        assert(side_wf(s.drop_last())) by {
            assert(forall|i: int|
                0 <= i < s.len() - 1 ==> s.drop_last()[i] == #[trigger] s[i]);
        }
        lemma_side_map_index(s.drop_last());
        assert forall|i: int| 0 <= i < s.len() implies side_map(s).dom().contains(
            (#[trigger] s[i]).price.units as int,
        ) && side_map(s)[s[i].price.units as int] == s[i].qty.units by {
            if i < s.len() - 1 {
                assert(s.drop_last()[i] == s[i]);
                assert(s[i].price.units < s.last().price.units);
            }
        }
        assert forall|p: int| #[trigger] side_map(s).dom().contains(p) implies exists|i: int|
            0 <= i < s.len() && (#[trigger] s[i]).price.units == p by {
            if p != s.last().price.units {
                assert(side_map(s.drop_last()).dom().contains(p));
                let i = choose|i: int|
                    0 <= i < s.drop_last().len() && (#[trigger] s.drop_last()[i]).price.units
                        == p;
                assert(s[i] == s.drop_last()[i]);
            } else {
                assert(s[s.len() - 1].price.units == p);
            }
        }
    }
}

/// Setting one level: a zero quantity removes the price, any other
/// quantity inserts or overwrites it.
pub open spec fn level_set(m: Map<int, u64>, price: Price, qty: Qty) -> Map<int, u64> {
    if qty.units == 0 {
        m.remove(price.units as int)
    } else {
        m.insert(price.units as int, qty.units)
    }
}

/// Replacing the quantity at an existing index is an insert on the map.
proof fn lemma_side_map_set_qty(s: Seq<Level>, i: int, qty: Qty)
    requires
        side_wf(s),
        0 <= i < s.len(),
        qty.units > 0,
    ensures
        side_map(s.update(i, Level { price: s[i].price, qty })) == side_map(s).insert(
            s[i].price.units as int,
            qty.units,
        ),
        side_wf(s.update(i, Level { price: s[i].price, qty })),
    decreases s.len(),
{
    let lvl = Level { price: s[i].price, qty };
    let t = s.update(i, lvl);
    assert(side_wf(t)) by {
        assert(forall|k: int| 0 <= k < t.len() ==> (#[trigger] t[k]).price == s[k].price);
    }
    if i == s.len() - 1 {
        assert(t.drop_last() =~= s.drop_last());
        assert(t.last() == lvl);
    } else {
        assert(side_wf(s.drop_last())) by {
            assert(forall|k: int|
                0 <= k < s.len() - 1 ==> s.drop_last()[k] == #[trigger] s[k]);
        }
        lemma_side_map_set_qty(s.drop_last(), i, qty);
        assert(t.drop_last() =~= s.drop_last().update(i, lvl));
        assert(t.last() == s.last());
        assert(s[i].price.units < s.last().price.units);
        assert(side_map(t) =~= side_map(s).insert(s[i].price.units as int, qty.units));
    }
}

/// Removing the level at an index removes its price from the map.
proof fn lemma_side_map_remove_at(s: Seq<Level>, i: int)
    requires
        side_wf(s),
        0 <= i < s.len(),
    ensures
        side_map(s.remove(i)) == side_map(s).remove(s[i].price.units as int),
        side_wf(s.remove(i)),
    decreases s.len(),
{
    let t = s.remove(i);
    assert(side_wf(t)) by {
        assert(forall|k: int|
            0 <= k < t.len() ==> t[k] == if k < i {
                s[k]
            } else {
                s[k + 1]
            });
    }
    assert(side_wf(s.drop_last())) by {
        assert(forall|k: int| 0 <= k < s.len() - 1 ==> s.drop_last()[k] == #[trigger] s[k]);
    }
    if i == s.len() - 1 {
        assert(t =~= s.drop_last());
        lemma_side_map_index(s.drop_last());
        assert(!side_map(s.drop_last()).dom().contains(s[i].price.units as int)) by {
            if side_map(s.drop_last()).dom().contains(s[i].price.units as int) {
                let k = choose|k: int|
                    0 <= k < s.drop_last().len() && (#[trigger] s.drop_last()[k]).price.units
                        == s[i].price.units;
                assert(s[k].price.units < s[i].price.units);
            }
        }
        assert(side_map(t) =~= side_map(s).remove(s[i].price.units as int));
    } else {
        lemma_side_map_remove_at(s.drop_last(), i);
        assert(t.drop_last() =~= s.drop_last().remove(i));
        assert(t.last() == s.last());
        assert(s[i].price.units < s.last().price.units);
        assert(side_map(t) =~= side_map(s).remove(s[i].price.units as int));
    }
}

/// Inserting a level at its sorted position inserts its price.
proof fn lemma_side_map_insert_at(s: Seq<Level>, i: int, lvl: Level)
    requires
        side_wf(s),
        0 <= i <= s.len(),
        lvl.qty.units > 0,
        forall|k: int| 0 <= k < i ==> (#[trigger] s[k]).price.units < lvl.price.units,
        forall|k: int| i <= k < s.len() ==> lvl.price.units < (#[trigger] s[k]).price.units,
    ensures
        side_map(s.insert(i, lvl)) == side_map(s).insert(lvl.price.units as int, lvl.qty.units),
        side_wf(s.insert(i, lvl)),
    decreases s.len(),
{
    let t = s.insert(i, lvl);
    assert(side_wf(t)) by {
        assert(forall|k: int|
            0 <= k < t.len() ==> t[k] == if k < i {
                s[k]
            } else if k == i {
                lvl
            } else {
                s[k - 1]
            });
    }
    if i == s.len() {
        assert(t.drop_last() =~= s);
        assert(t.last() == lvl);
    } else {
        assert(side_wf(s.drop_last())) by {
            assert(forall|k: int|
                0 <= k < s.len() - 1 ==> s.drop_last()[k] == #[trigger] s[k]);
        }
        lemma_side_map_insert_at(s.drop_last(), i, lvl);
        assert(t.drop_last() =~= s.drop_last().insert(i, lvl));
        assert(t.last() == s.last());
        assert(lvl.price.units < s.last().price.units);
        assert(side_map(t) =~= side_map(s).insert(lvl.price.units as int, lvl.qty.units));
    }
}

/// A price greater than every level's price is absent from the map.
proof fn lemma_side_map_absent(s: Seq<Level>, p: int)
    requires
        side_wf(s),
        forall|k: int| 0 <= k < s.len() ==> (#[trigger] s[k]).price.units != p,
    ensures
        !side_map(s).dom().contains(p),
        side_map(s).remove(p) == side_map(s),
{
    lemma_side_map_index(s);
    if side_map(s).dom().contains(p) {
        let k = choose|k: int| 0 <= k < s.len() && (#[trigger] s[k]).price.units == p;
    }
    assert(side_map(s).remove(p) =~= side_map(s));
}

/// Set one price level on a sorted side: remove it on a zero quantity,
/// insert or overwrite otherwise. Keeps the side sorted and free of
/// zero quantities.
pub fn set_level(levels: &mut Vec<Level>, price: Price, qty: Qty)
    requires
        side_wf(old(levels)@),
    ensures
        side_wf(final(levels)@),
        side_map(final(levels)@) == level_set(side_map(old(levels)@), price, qty),
{
    let n: usize = levels.len();
    let mut i: usize = 0;
    while i < n && levels[i].price.units < price.units
        invariant
            0 <= i <= n,
            n == levels@.len(),
            side_wf(levels@),
            levels@ == old(levels)@,
            forall|k: int| 0 <= k < i ==> (#[trigger] levels@[k]).price.units < price.units,
        decreases n - i,
    {
        i = i + 1;
    }
    if i < n && levels[i].price.units == price.units {
        if qty.units == 0 {
            proof {
                lemma_side_map_remove_at(levels@, i as int);
            }
            levels.remove(i);
        } else {
            proof {
                lemma_side_map_set_qty(levels@, i as int, qty);
                assert(levels@.update(i as int, Level { price, qty }) =~= levels@.update(
                    i as int,
                    Level { price: levels@[i as int].price, qty },
                ));
            }
            levels[i] = Level { price, qty };
        }
    } else {
        proof {
            assert forall|k: int| i <= k < levels@.len() implies price.units < (
            #[trigger] levels@[k]).price.units by {
                if k > i {
                    assert(levels@[i as int].price.units < levels@[k].price.units);
                }
            }
        }
        if qty.units == 0 {
            // The price is absent: removing it changes nothing.
            proof {
                assert forall|k: int| 0 <= k < levels@.len() implies (
                #[trigger] levels@[k]).price.units != price.units by {}
                lemma_side_map_absent(levels@, price.units as int);
            }
        } else {
            proof {
                lemma_side_map_insert_at(levels@, i as int, Level { price, qty });
            }
            levels.insert(i, Level { price, qty });
        }
    }
}

/// A price rounded to the instrument's minimum tick.
pub open spec fn tick_rounded(p: Price, t: MinTicksize) -> Price {
    Price {
        units: crate::numeric::round_to_multiple(
            p.units as int,
            crate::numeric::pow10((crate::numeric::PRICE_SCALE + t.power) as nat) as int,
        ) as i64,
    }
}

/// A price sitting exactly on the instrument's tick grid.
pub open spec fn on_tick(p: Price, t: MinTicksize) -> bool {
    p.units as int % (crate::numeric::pow10(
        (crate::numeric::PRICE_SCALE + t.power) as nat,
    ) as int) == 0
}

/// Rounding to the tick lands on the tick grid.
pub proof fn lemma_tick_rounded_on_tick(p: Price, t: MinTicksize)
    requires
        t.wf(),
        crate::numeric::round_to_multiple(
            p.units as int,
            crate::numeric::pow10((crate::numeric::PRICE_SCALE + t.power) as nat) as int,
        ) == tick_rounded(p, t).units as int,
    ensures
        on_tick(tick_rounded(p, t), t),
{
    let unit = crate::numeric::pow10((crate::numeric::PRICE_SCALE + t.power) as nat) as int;
    crate::numeric::lemma_pow10_monotone(
        (crate::numeric::PRICE_SCALE + t.power) as nat,
        (crate::numeric::PRICE_SCALE + t.power) as nat,
    );
    let q = (p.units as int + unit / 2) / unit;
    vstd::arithmetic::div_mod::lemma_mod_multiples_basic(q, unit);
}

/// Bounds under which tick rounding cannot overflow.
pub open spec fn level_in_range(lvl: Level) -> bool {
    lvl.price.units <= i64::MAX - 5_000_000_000 && lvl.price.units >= i64::MIN
        + 20_000_000_000
}

pub open spec fn levels_in_range(s: Seq<Level>) -> bool {
    forall|i: int| 0 <= i < s.len() ==> level_in_range(#[trigger] s[i])
}

/// One level of a diff applied to a side: the price is first rounded to
/// the minimum tick, then a zero quantity removes it and any other
/// quantity inserts or overwrites it.
pub open spec fn apply_level(m: Map<int, u64>, lvl: Level, t: MinTicksize) -> Map<int, u64> {
    level_set(m, tick_rounded(lvl.price, t), lvl.qty)
}

/// A whole diff applied to a side, level by level, in order.
pub open spec fn apply_levels(m: Map<int, u64>, s: Seq<Level>, t: MinTicksize) -> Map<int, u64>
    decreases s.len(),
{
    if s.len() == 0 {
        m
    } else {
        apply_level(apply_levels(m, s.drop_last(), t), s.last(), t)
    }
}

/// Applying one diff and then another equals applying their
/// concatenation: folding diffs in order loses and duplicates nothing.
pub proof fn lemma_apply_levels_concat(
    m: Map<int, u64>,
    a: Seq<Level>,
    b: Seq<Level>,
    t: MinTicksize,
)
    ensures
        apply_levels(apply_levels(m, a, t), b, t) == apply_levels(m, a + b, t),
    decreases b.len(),
{
    if b.len() == 0 {
        assert(a + b =~= a);
    } else {
        lemma_apply_levels_concat(m, a, b.drop_last(), t);
        assert((a + b).drop_last() =~= a + b.drop_last());
        assert((a + b).last() == b.last());
    }
}

/// A diff entry carrying quantity zero at a price removes that price:
/// it is absent afterwards even if it was present before, as long as no
/// later entry of the same diff re-adds it.
pub proof fn lemma_zero_qty_removes(m: Map<int, u64>, s: Seq<Level>, k: int, t: MinTicksize)
    requires
        0 <= k < s.len(),
        s[k].qty.units == 0,
        forall|j: int|
            k < j < s.len() ==> tick_rounded((#[trigger] s[j]).price, t).units != tick_rounded(
                s[k].price,
                t,
            ).units,
    ensures
        !apply_levels(m, s, t).dom().contains(tick_rounded(s[k].price, t).units as int),
    decreases s.len(),
{
    if k == s.len() - 1 {
    } else {
        assert(forall|j: int|
            k < j < s.len() - 1 ==> tick_rounded((#[trigger] s.drop_last()[j]).price, t).units
                != tick_rounded(s.drop_last()[k].price, t).units);
        lemma_zero_qty_removes(m, s.drop_last(), k, t);
        assert(s.last() == s[s.len() - 1]);
        assert(tick_rounded(s.last().price, t).units != tick_rounded(s[k].price, t).units);
    }
}

/// Merge a diff into one side of the book.
pub fn diff_side(levels: &mut Vec<Level>, orders: &Vec<Level>, t: MinTicksize)
    requires
        side_wf(old(levels)@),
        t.wf(),
        levels_in_range(orders@),
    ensures
        side_wf(final(levels)@),
        side_map(final(levels)@) == apply_levels(side_map(old(levels)@), orders@, t),
{
    let n: usize = orders.len();
    let mut i: usize = 0;
    while i < n
        invariant
            0 <= i <= n,
            n == orders@.len(),
            t.wf(),
            levels_in_range(orders@),
            side_wf(levels@),
            side_map(levels@) == apply_levels(side_map(old(levels)@), orders@.take(i as int), t),
        decreases n - i,
    {
        let lvl: Level = orders[i];
        let p: Price = lvl.price.round_to_min_tick(t);
        set_level(levels, p, lvl.qty);
        proof {
            assert(orders@.take(i + 1).drop_last() =~= orders@.take(i as int));
            assert(orders@.take(i + 1).last() == orders@[i as int]);
        }
        i = i + 1;
    }
    proof {
        assert(orders@.take(n as int) =~= orders@);
    }
}

/// Replace one side of the book wholesale with a snapshot's levels.
pub fn replace_side(levels: &mut Vec<Level>, orders: &Vec<Level>, t: MinTicksize)
    requires
        t.wf(),
        levels_in_range(orders@),
    ensures
        side_wf(final(levels)@),
        side_map(final(levels)@) == apply_levels(Map::empty(), orders@, t),
{
    levels.clear();
    proof {
        assert(side_map(levels@) =~= Map::<int, u64>::empty());
    }
    diff_side(levels, orders, t);
}

/// A full update for one instrument: the update identifier range it
/// covers, its timestamp, and the changed levels of both sides.
#[derive(Debug, Clone)]
pub struct DepthPayload {
    pub last_update_id: u64,
    pub time: u64,
    pub bids: Vec<Level>,
    pub asks: Vec<Level>,
}

impl DepthPayload {
    pub open spec fn wf(self) -> bool {
        levels_in_range(self.bids@) && levels_in_range(self.asks@)
    }
}

/// A snapshot replaces the book wholesale; a diff merges into it.
pub enum DepthUpdate {
    Snapshot(DepthPayload),
    Diff(DepthPayload),
}

/// The materialized two-sided book, both sides sorted by price with no
/// zero-quantity level.
#[derive(Debug, Default)]
pub struct Depth {
    pub bids: Vec<Level>,
    pub asks: Vec<Level>,
}

impl Depth {
    pub open spec fn wf(self) -> bool {
        side_wf(self.bids@) && side_wf(self.asks@)
    }

    pub open spec fn bid_map(self) -> Map<int, u64> {
        side_map(self.bids@)
    }

    pub open spec fn ask_map(self) -> Map<int, u64> {
        side_map(self.asks@)
    }

    pub fn new() -> (r: Depth)
        ensures
            r.wf(),
            r.bids@.len() == 0,
            r.asks@.len() == 0,
    {
        Depth { bids: Vec::new(), asks: Vec::new() }
    }

    /// Merge a diff into both sides.
    pub fn update(&mut self, diff: &DepthPayload, t: MinTicksize)
        requires
            old(self).wf(),
            t.wf(),
            diff.wf(),
        ensures
            final(self).wf(),
            final(self).bid_map() == apply_levels(old(self).bid_map(), diff.bids@, t),
            final(self).ask_map() == apply_levels(old(self).ask_map(), diff.asks@, t),
    {
        diff_side(&mut self.bids, &diff.bids, t);
        diff_side(&mut self.asks, &diff.asks, t);
    }

    /// Replace both sides wholesale from a snapshot.
    pub fn replace_all(&mut self, snapshot: &DepthPayload, t: MinTicksize)
        requires
            t.wf(),
            snapshot.wf(),
        ensures
            final(self).wf(),
            final(self).bid_map() == apply_levels(Map::empty(), snapshot.bids@, t),
            final(self).ask_map() == apply_levels(Map::empty(), snapshot.asks@, t),
    {
        replace_side(&mut self.bids, &snapshot.bids, t);
        replace_side(&mut self.asks, &snapshot.asks, t);
    }

    /// The midpoint of the best ask (lowest ask) and the best bid
    /// (highest bid); undefined while either side is empty.
    pub fn mid_price(&self) -> (r: Option<Price>)
        requires
            self.wf(),
        ensures
            r is Some <==> self.bids@.len() > 0 && self.asks@.len() > 0,
            r is Some ==> r->0.units == (self.asks@[0].price.units
                + self.bids@.last().price.units) / 2,
    {
        if self.bids.len() == 0 || self.asks.len() == 0 {
            return None;
        }
        let a: i64 = self.asks[0].price.units;
        let b: i64 = self.bids[self.bids.len() - 1].price.units;
        let sum: i128 = (a as i128) + (b as i128);
        proof {
            assert(i128::MIN <= sum as int / 2 <= i128::MAX) by (nonlinear_arith)
                requires
                    i128::MIN <= sum as int <= i128::MAX,
            ;
            assert((a as int + b as int) / 2 >= vstd::math::min(a as int, b as int)
                && (a as int + b as int) / 2 <= vstd::math::max(a as int, b as int))
                by (nonlinear_arith);
        }
        let mid: i128 = sum.checked_div_euclid(2).unwrap();
        Some(Price { units: mid as i64 })
    }

    /// An equal copy of the book, handed to consumers as an immutable
    /// snapshot.
    pub fn snapshot(&self) -> (r: Depth)
        ensures
            r.bids@ == self.bids@,
            r.asks@ == self.asks@,
    {
        let bids: Vec<Level> = self.bids.clone();
        let asks: Vec<Level> = self.asks.clone();
        proof {
            assert(bids@ =~= self.bids@);
            assert(asks@ =~= self.asks@);
        }
        Depth { bids, asks }
    }
}

/// The authoritative book for one instrument, with the identifier and
/// timestamp of the last applied update. Created empty on stream start,
/// replaced wholesale on snapshot, merged on diff.
#[derive(Debug, Default)]
pub struct LocalDepthCache {
    pub last_update_id: u64,
    pub time: u64,
    pub depth: Depth,
}

impl LocalDepthCache {
    pub fn new() -> (r: LocalDepthCache)
        ensures
            r.depth.wf(),
            r.last_update_id == 0,
            r.time == 0,
            r.depth.bids@.len() == 0,
            r.depth.asks@.len() == 0,
    {
        LocalDepthCache { last_update_id: 0, time: 0, depth: Depth::new() }
    }

    /// Apply a snapshot or a diff, and take over its identifier and
    /// timestamp.
    pub fn update(&mut self, new_depth: DepthUpdate, t: MinTicksize)
        requires
            old(self).depth.wf(),
            t.wf(),
            match new_depth {
                DepthUpdate::Snapshot(ref p) => p.wf(),
                DepthUpdate::Diff(ref p) => p.wf(),
            },
        ensures
            final(self).depth.wf(),
            match new_depth {
                DepthUpdate::Snapshot(p) => {
                    &&& final(self).last_update_id == p.last_update_id
                    &&& final(self).time == p.time
                    &&& final(self).depth.bid_map() == apply_levels(Map::empty(), p.bids@, t)
                    &&& final(self).depth.ask_map() == apply_levels(Map::empty(), p.asks@, t)
                },
                DepthUpdate::Diff(p) => {
                    &&& final(self).last_update_id == p.last_update_id
                    &&& final(self).time == p.time
                    &&& final(self).depth.bid_map() == apply_levels(
                        old(self).depth.bid_map(),
                        p.bids@,
                        t,
                    )
                    &&& final(self).depth.ask_map() == apply_levels(
                        old(self).depth.ask_map(),
                        p.asks@,
                        t,
                    )
                },
            },
    {
        match new_depth {
            DepthUpdate::Snapshot(snapshot) => {
                self.last_update_id = snapshot.last_update_id;
                self.time = snapshot.time;
                self.depth.replace_all(&snapshot, t);
            },
            DepthUpdate::Diff(diff) => {
                self.last_update_id = diff.last_update_id;
                self.time = diff.time;
                self.depth.update(&diff, t);
            },
        }
    }
}

} // verus!
