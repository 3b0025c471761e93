use flowsurface::depth::{Depth, DepthPayload, DepthUpdate, Level, LocalDepthCache};
use flowsurface::numeric::{MinTicksize, Price, Qty};
use flowsurface::stream::{
    apply_depth_diff, depth_diff_decision, DepthAction, DiffMeta, SequenceRule,
};

fn lvl(price_units: i64, qty_units: u64) -> Level {
    Level {
        price: Price::from_units(price_units),
        qty: Qty::from_units(qty_units),
    }
}

fn tick() -> MinTicksize {
    MinTicksize::new(-8)
}

fn payload(id: u64, time: u64, bids: Vec<Level>, asks: Vec<Level>) -> DepthPayload {
    DepthPayload {
        last_update_id: id,
        time,
        bids,
        asks,
    }
}

fn side_qty(levels: &Vec<Level>, price_units: i64) -> Option<u64> {
    for l in levels {
        if l.price.units == price_units {
            return Some(l.qty.units);
        }
    }
    None
}

#[test]
fn snapshot_replaces_wholesale() {
    let mut cache = LocalDepthCache::new();
    cache.update(
        DepthUpdate::Snapshot(payload(7, 100, vec![lvl(100, 5)], vec![lvl(200, 3)])),
        tick(),
    );
    assert_eq!(cache.last_update_id, 7);
    assert_eq!(cache.time, 100);
    assert_eq!(side_qty(&cache.depth.bids, 100), Some(5));
    assert_eq!(side_qty(&cache.depth.asks, 200), Some(3));
    // A second snapshot discards everything from the first.
    cache.update(
        DepthUpdate::Snapshot(payload(9, 101, vec![lvl(150, 2)], vec![])),
        tick(),
    );
    assert_eq!(cache.last_update_id, 9);
    assert_eq!(side_qty(&cache.depth.bids, 100), None);
    assert_eq!(side_qty(&cache.depth.bids, 150), Some(2));
    assert!(cache.depth.asks.is_empty());
}

#[test]
fn diff_inserts_overwrites_and_removes() {
    let mut cache = LocalDepthCache::new();
    cache.update(
        DepthUpdate::Snapshot(payload(1, 10, vec![lvl(100, 5), lvl(110, 4)], vec![])),
        tick(),
    );
    cache.update(
        DepthUpdate::Diff(payload(2, 11, vec![lvl(100, 9), lvl(120, 1)], vec![lvl(130, 2)])),
        tick(),
    );
    assert_eq!(side_qty(&cache.depth.bids, 100), Some(9));
    assert_eq!(side_qty(&cache.depth.bids, 110), Some(4));
    assert_eq!(side_qty(&cache.depth.bids, 120), Some(1));
    assert_eq!(side_qty(&cache.depth.asks, 130), Some(2));
    // Sorted ascending on both sides.
    for w in cache.depth.bids.windows(2) {
        assert!(w[0].price.units < w[1].price.units);
    }
}

#[test]
fn zero_qty_removes_level_even_if_present_before() {
    let mut cache = LocalDepthCache::new();
    cache.update(
        DepthUpdate::Snapshot(payload(1, 10, vec![lvl(100, 5)], vec![lvl(200, 7)])),
        tick(),
    );
    cache.update(
        DepthUpdate::Diff(payload(2, 11, vec![lvl(100, 0)], vec![lvl(200, 0)])),
        tick(),
    );
    assert_eq!(side_qty(&cache.depth.bids, 100), None);
    assert_eq!(side_qty(&cache.depth.asks, 200), None);
    assert!(cache.depth.bids.is_empty());
    assert!(cache.depth.asks.is_empty());
    // Removing an absent level changes nothing.
    cache.update(
        DepthUpdate::Diff(payload(3, 12, vec![lvl(500, 0)], vec![])),
        tick(),
    );
    assert!(cache.depth.bids.is_empty());
}

#[test]
fn diffs_fold_in_order_over_snapshot() {
    // Applying diffs one by one equals applying all their levels in
    // order to the snapshot.
    let mut one_by_one = LocalDepthCache::new();
    one_by_one.update(
        DepthUpdate::Snapshot(payload(1, 10, vec![lvl(100, 5), lvl(110, 2)], vec![])),
        tick(),
    );
    one_by_one.update(
        DepthUpdate::Diff(payload(2, 11, vec![lvl(110, 0), lvl(120, 3)], vec![])),
        tick(),
    );
    one_by_one.update(
        DepthUpdate::Diff(payload(3, 12, vec![lvl(120, 4), lvl(100, 1)], vec![])),
        tick(),
    );

    let mut combined = LocalDepthCache::new();
    combined.update(
        DepthUpdate::Snapshot(payload(1, 10, vec![lvl(100, 5), lvl(110, 2)], vec![])),
        tick(),
    );
    combined.update(
        DepthUpdate::Diff(payload(
            3,
            12,
            vec![lvl(110, 0), lvl(120, 3), lvl(120, 4), lvl(100, 1)],
            vec![],
        )),
        tick(),
    );
    assert_eq!(one_by_one.depth.bids, combined.depth.bids);
    assert_eq!(side_qty(&one_by_one.depth.bids, 100), Some(1));
    assert_eq!(side_qty(&one_by_one.depth.bids, 110), None);
    assert_eq!(side_qty(&one_by_one.depth.bids, 120), Some(4));
}

#[test]
fn diff_rounds_prices_to_min_tick() {
    let mut cache = LocalDepthCache::new();
    // Tick of 0.01: 123.456 groups to 123.46.
    let coarse = MinTicksize::new(-2);
    cache.update(
        DepthUpdate::Snapshot(payload(1, 10, vec![lvl(12_345_600_000, 5)], vec![])),
        coarse,
    );
    assert_eq!(side_qty(&cache.depth.bids, 12_346_000_000), Some(5));
}

#[test]
fn mid_price_is_midpoint_and_needs_both_sides() {
    let mut depth = Depth::new();
    assert_eq!(depth.mid_price(), None);
    depth.replace_all(
        &payload(1, 10, vec![lvl(100, 1), lvl(110, 1)], vec![lvl(130, 1), lvl(150, 1)]),
        tick(),
    );
    // Best bid 110, best ask 130.
    assert_eq!(depth.mid_price(), Some(Price::from_units(120)));
}

#[test]
fn gap_triggers_resync_and_leaves_depth_unchanged() {
    let mut cache = LocalDepthCache::new();
    cache.update(
        DepthUpdate::Snapshot(payload(100, 10, vec![lvl(100, 5)], vec![lvl(200, 3)])),
        tick(),
    );
    let before_bids = cache.depth.bids.clone();
    // The diff starts past the local identifier: a gap.
    let meta = DiffMeta {
        first_id: 102,
        final_id: 105,
        prev_final_id: 0,
    };
    let action = apply_depth_diff(
        &mut cache,
        SequenceRule::FirstAdjacent,
        0,
        meta,
        payload(105, 11, vec![lvl(100, 0)], vec![]),
        tick(),
    );
    assert_eq!(action, DepthAction::Resync);
    assert_eq!(cache.depth.bids, before_bids);
    assert_eq!(cache.last_update_id, 100);
    assert_eq!(cache.time, 10);
}

#[test]
fn covering_diff_applies() {
    let mut cache = LocalDepthCache::new();
    cache.update(
        DepthUpdate::Snapshot(payload(100, 10, vec![lvl(100, 5)], vec![])),
        tick(),
    );
    // Covers the local identifier: first <= 101 <= final.
    let meta = DiffMeta {
        first_id: 99,
        final_id: 105,
        prev_final_id: 0,
    };
    let action = apply_depth_diff(
        &mut cache,
        SequenceRule::FirstAdjacent,
        0,
        meta,
        payload(105, 11, vec![lvl(100, 7)], vec![]),
        tick(),
    );
    assert_eq!(action, DepthAction::Apply);
    assert_eq!(cache.last_update_id, 105);
    assert_eq!(side_qty(&cache.depth.bids, 100), Some(7));
}

#[test]
fn decision_table_matches_sequencing_rules() {
    // Old data or empty book: skip.
    let meta = DiffMeta { first_id: 5, final_id: 9, prev_final_id: 4 };
    assert_eq!(
        depth_diff_decision(SequenceRule::FirstAdjacent, 9, 0, meta),
        DepthAction::Skip
    );
    assert_eq!(
        depth_diff_decision(SequenceRule::FirstAdjacent, 0, 0, meta),
        DepthAction::Skip
    );
    // Chained diff on the adjacency rule.
    assert_eq!(
        depth_diff_decision(SequenceRule::FirstAdjacent, 6, 4, meta),
        DepthAction::Apply
    );
    assert_eq!(
        depth_diff_decision(SequenceRule::FirstAdjacent, 6, 3, meta),
        DepthAction::Desync
    );
    // The derivative rule matches the previous final identifier.
    assert_eq!(
        depth_diff_decision(SequenceRule::PrevFinalMatch, 6, 4, meta),
        DepthAction::Apply
    );
    assert_eq!(
        depth_diff_decision(SequenceRule::PrevFinalMatch, 6, 5, meta),
        DepthAction::Desync
    );
}
