use flowsurface::numeric::{ContractSize, MinQtySize, MinTicksize};
use flowsurface::aggr::TickCount;
use flowsurface::ladder::Side;
use flowsurface::ladder::{ChaseProgress, ChaseTracker};
use flowsurface::numeric::Price;
use flowsurface::sidebar::{Menu, Position, Sidebar};
use flowsurface::tickers_table::Settings;
use flowsurface::timeandsales::{StackedBar, StackedBarRatio};
use flowsurface::{
    is_symbol_supported, Exchange, MarketKind, SerTicker, SizePreference, SizeUnit, Ticker,
    TickerInfo, TickMultiplier, Timeframe,
};

#[test]
fn ticker_equality_ignores_display_alias() {
    let a = Ticker::new_with_display("@107", Exchange::HyperliquidSpot, Some("HYPEUSDC"));
    let b = Ticker::new("@107", Exchange::HyperliquidSpot);
    assert_eq!(a, b);
    let other_venue = Ticker::new("@107", Exchange::HyperliquidLinear);
    assert!(a != other_venue);
    let other_symbol = Ticker::new("@108", Exchange::HyperliquidSpot);
    assert!(a != other_symbol);
}

#[test]
fn ticker_display_symbol() {
    let aliased = Ticker::new_with_display("@107", Exchange::HyperliquidSpot, Some("HYPEUSDC"));
    assert_eq!(aliased.display_symbol(), Some("HYPEUSDC"));
    assert_eq!(aliased.display_symbol_and_type().0.as_str(), "HYPEUSDC");
    // Hyperliquid linear symbols gain the quote suffix for display.
    let hl = Ticker::new("BTC", Exchange::HyperliquidLinear);
    assert_eq!(hl.display_symbol(), None);
    assert_eq!(hl.display_symbol_and_type().0.as_str(), "BTCUSDT");
    assert_eq!(hl.display_symbol_and_type().1, MarketKind::LinearPerps);
    // Other venues keep the raw symbol.
    let b = Ticker::new("BTCUSDT", Exchange::BinanceSpot);
    assert_eq!(b.display_symbol_and_type().0.as_str(), "BTCUSDT");
}

#[test]
fn ticker_text_round_trip() {
    let t = Ticker::new("BTCUSDT", Exchange::BinanceLinear);
    let s = SerTicker::ticker_to_string(&t);
    assert_eq!(s.as_str(), "BinanceLinear:BTCUSDT");
    let back = SerTicker::ticker_from_string(s.as_str()).unwrap();
    assert_eq!(back, t);
    assert_eq!(SerTicker::ticker_to_string(&back), s);

    let aliased = Ticker::new_with_display("@107", Exchange::HyperliquidSpot, Some("HYPEUSDC"));
    let s2 = SerTicker::ticker_to_string(&aliased);
    assert_eq!(s2.as_str(), "HyperliquidSpot:@107|HYPEUSDC");
    let back2 = SerTicker::ticker_from_string(s2.as_str()).unwrap();
    assert_eq!(back2.display_symbol(), Some("HYPEUSDC"));
    assert_eq!(SerTicker::ticker_to_string(&back2), s2);
}

#[test]
fn ticker_text_rejects_malformed() {
    assert!(SerTicker::ticker_from_string("NoColonHere").is_none());
    assert!(SerTicker::ticker_from_string("NotAVenue:BTC").is_none());
    assert!(SerTicker::ticker_from_string("BinanceSpot:with space").is_none());
    // An alias with an invalid character is rejected too.
    assert!(SerTicker::ticker_from_string("HyperliquidSpot:@107|bad alias").is_none());
    // A symbol longer than the model admits is rejected.
    assert!(
        SerTicker::ticker_from_string("BinanceSpot:AAAAAAAAAAAAAAAAAAAAAAAAAAAAAAAAA")
            .is_none()
    );
}

#[test]
fn exchange_names_round_trip() {
    for e in [
        Exchange::BinanceLinear,
        Exchange::BinanceInverse,
        Exchange::BinanceSpot,
        Exchange::BybitLinear,
        Exchange::BybitInverse,
        Exchange::BybitSpot,
        Exchange::HyperliquidLinear,
        Exchange::HyperliquidSpot,
        Exchange::OkexLinear,
        Exchange::OkexInverse,
        Exchange::OkexSpot,
    ] {
        let name = SerTicker::exchange_to_string(e);
        assert_eq!(SerTicker::string_to_exchange(name), Some(e));
    }
    assert_eq!(SerTicker::string_to_exchange("Coinbase"), None);
}

#[test]
fn symbol_support_rules() {
    assert!(is_symbol_supported("BTC-USDT_SWAP", Exchange::OkexLinear, false));
    assert!(is_symbol_supported("btcusdt", Exchange::BinanceSpot, false));
    assert!(!is_symbol_supported("BTC/USD", Exchange::BinanceSpot, false));
    assert!(!is_symbol_supported("BTC USD", Exchange::BinanceSpot, true));
}

#[test]
fn timeframe_conversions() {
    assert_eq!(Timeframe::M1.to_minutes(), 1);
    assert_eq!(Timeframe::D1.to_minutes(), 1440);
    assert_eq!(Timeframe::M1.to_milliseconds(), 60_000);
    assert_eq!(Timeframe::MS100.to_milliseconds(), 100);
    assert_eq!(Timeframe::H12.to_milliseconds(), 43_200_000);
    assert_eq!(Timeframe::M5.label(), "5m");
    assert_eq!(Timeframe::MS500.label(), "500ms");
    assert_eq!(Timeframe::from_label("5m"), Some(Timeframe::M5));
    assert_eq!(Timeframe::from_label("1d"), Some(Timeframe::D1));
    assert_eq!(Timeframe::from_label("7m"), None);
}

#[test]
fn tick_multiplier_custom() {
    assert!(!TickMultiplier(1).is_custom());
    assert!(!TickMultiplier(500).is_custom());
    assert!(TickMultiplier(3).is_custom());
    assert!(TickMultiplier(499).is_custom());
}

#[test]
fn size_preference_setter_getter() {
    // Before any setter call the preference is the base asset.
    let mut prefs = SizePreference::default();
    assert_eq!(flowsurface::volume_size_unit(&prefs), SizeUnit::Base);
    flowsurface::set_preferred_currency(&mut prefs, SizeUnit::Quote);
    assert_eq!(flowsurface::volume_size_unit(&prefs), SizeUnit::Quote);
    flowsurface::set_preferred_currency(&mut prefs, SizeUnit::Base);
    assert_eq!(flowsurface::volume_size_unit(&prefs), SizeUnit::Base);
}

#[test]
fn ticker_info_accessors() {
    let ticker = Ticker::new("BTCUSD_PERP", Exchange::BinanceInverse);
    let info = TickerInfo::new(
        ticker,
        MinTicksize::new(-1),
        MinQtySize::new(0),
        Some(ContractSize::new(2)),
    );
    assert_eq!(info.market_type(), MarketKind::InversePerps);
    assert!(info.is_perps());
    assert_eq!(info.exchange(), Exchange::BinanceInverse);
    let spot = TickerInfo::new(
        Ticker::new("BTCUSDT", Exchange::BinanceSpot),
        MinTicksize::new(-2),
        MinQtySize::new(-5),
        None,
    );
    assert!(!spot.is_perps());
}

#[test]
fn chase_tracker_follows_and_fades() {
    let mut t = ChaseTracker::new();
    t.update(Some(Price::from_units(100)), true, 0, 10_000);
    assert_eq!(t.state, ChaseProgress::Idle);
    // Two rising updates on the bid side: a chase of two steps.
    t.update(Some(Price::from_units(110)), true, 10, 10_000);
    t.update(Some(Price::from_units(120)), true, 20, 10_000);
    match t.state {
        ChaseProgress::Chasing { consecutive, end, .. } => {
            assert_eq!(consecutive, 2);
            assert_eq!(end.units, 120);
        }
        _ => panic!("expected a chase"),
    }
    // A reversal freezes the run into a fade.
    t.update(Some(Price::from_units(115)), true, 30, 10_000);
    match t.state {
        ChaseProgress::Fading { start_consecutive, fade_steps, end, .. } => {
            assert_eq!(start_consecutive, 2);
            assert_eq!(fade_steps, 0);
            assert_eq!(end.units, 120);
        }
        _ => panic!("expected a fade"),
    }
    // A vanished side resets everything.
    t.update(None, true, 40, 10_000);
    assert_eq!(t.state, ChaseProgress::Idle);
    assert_eq!(t.last_best, None);
}

#[test]
fn chase_tracker_resets_after_silence() {
    let mut t = ChaseTracker::new();
    t.update(Some(Price::from_units(100)), true, 0, 1_000);
    t.update(Some(Price::from_units(110)), true, 10, 1_000);
    assert!(matches!(t.state, ChaseProgress::Chasing { .. }));
    // Silence beyond the window clears the run before the new update.
    t.update(Some(Price::from_units(111)), true, 5_000, 1_000);
    assert_eq!(t.state, ChaseProgress::Idle);
}

#[test]
fn side_and_aggregation_helpers() {
    assert_eq!(Side::Bid.idx(), 0);
    assert_eq!(Side::Ask.idx(), 1);
    assert!(Side::Bid.is_bid());
    assert!(!Side::Ask.is_bid());
    assert!(!TickCount(200).is_custom());
    assert!(TickCount(123).is_custom());
    let bar = StackedBar::Compact(StackedBarRatio::Volume);
    assert_eq!(bar.ratio(), StackedBarRatio::Volume);
    assert_eq!(
        bar.with_ratio(StackedBarRatio::Count),
        StackedBar::Compact(StackedBarRatio::Count)
    );
}

#[test]
fn sidebar_menu_state() {
    let mut s = Sidebar::new();
    assert!(!s.is_menu_active(Menu::Audio));
    s.set_menu(Menu::Audio);
    assert!(s.is_menu_active(Menu::Audio));
    assert!(!s.is_menu_active(Menu::Layout));
    s.set_position(Position::Right);
    assert_eq!(s.position, Position::Right);
    s.sync_tickers_table_settings(&Settings::new());
    assert!(s.tickers_table.is_some());
}
