use flowsurface::adapter::{binance, hyperliquid, okex};
use flowsurface::adapter::{classify_rest_body, parse_price_text, parse_qty_text, RestBodyKind};
use flowsurface::depth::{DepthPayload, Level};
use flowsurface::numeric::{ContractSize, Price, Qty};
use flowsurface::{Exchange, MarketKind, Ticker, Timeframe};

#[test]
fn price_and_qty_text_parsing() {
    assert_eq!(parse_price_text("65000.5").unwrap().units, 6_500_050_000_000);
    assert_eq!(parse_qty_text("0.25").unwrap().units, 25_000_000);
    assert!(parse_qty_text("-1").is_none());
    assert!(parse_price_text("abc").is_none());
}

#[test]
fn binance_limiter_margin_and_exit() {
    let limiter = binance::BinanceLimiter::new(6000, 60_000, 0);
    assert_eq!(limiter.bucket.max_weight, 5820);
    let perp = binance::BinanceLimiter::new(2400, 60_000, 0);
    assert_eq!(perp.bucket.max_weight, 2328);
    assert!(limiter.should_exit_on_status(429));
    assert!(limiter.should_exit_on_status(418));
    assert!(!limiter.should_exit_on_status(200));
}

#[test]
fn binance_limiter_learns_header_weight() {
    let mut limiter = binance::BinanceLimiter::new(10, 60_000, 5_000);
    limiter.update_from_response(Some("7"), 5_100);
    assert_eq!(limiter.bucket.current_used_weight, 7);
    // Malformed or missing headers change nothing.
    limiter.update_from_response(Some("x7"), 5_200);
    assert_eq!(limiter.bucket.current_used_weight, 7);
    limiter.update_from_response(None, 5_300);
    assert_eq!(limiter.bucket.current_used_weight, 7);
}

#[test]
fn binance_market_mappings() {
    assert_eq!(
        binance::exchange_from_market_type(MarketKind::Spot),
        Exchange::BinanceSpot
    );
    assert_eq!(
        binance::ws_domain_from_market_type(MarketKind::LinearPerps),
        "fstream.binance.com"
    );
    let flagship = Ticker::new("BTCUSD_PERP", Exchange::BinanceInverse);
    assert_eq!(
        binance::get_contract_size(&flagship, MarketKind::InversePerps),
        Some(ContractSize::new(2))
    );
    let other = Ticker::new("ETHUSD_PERP", Exchange::BinanceInverse);
    assert_eq!(
        binance::get_contract_size(&other, MarketKind::InversePerps),
        Some(ContractSize::new(1))
    );
    assert_eq!(binance::get_contract_size(&other, MarketKind::Spot), None);
}

#[test]
fn binance_calc_qty_conversions() {
    let qty = Qty::from_units(200_000_000); // 2 base units
    let price = Price::from_units(300_000_000); // price 3
    // Contract size 10: quantity scales by ten.
    let scaled = binance::calc_qty(qty, price, Some(ContractSize::new(1)), false).unwrap();
    assert_eq!(scaled.units, 2_000_000_000);
    // Quote preference: 2 * 3 rounded to whole quote units.
    let quote = binance::calc_qty(qty, price, None, true).unwrap();
    assert_eq!(quote.units, 6 * 100_000_000);
    // Base preference without contract size: unchanged.
    assert_eq!(binance::calc_qty(qty, price, None, false), Some(qty));
}

#[test]
fn binance_feed_de_depth_frame() {
    let frame = "{\"stream\":\"btcusdt@depth@100ms\",\"data\":{\"E\":1700000000123,\"U\":100,\"u\":105,\"b\":[[\"65000.10\",\"1.5\"],[\"64999.90\",\"0\"]],\"a\":[[\"65000.20\",\"2\"]]}}";
    match binance::feed_de(frame.as_bytes(), MarketKind::Spot) {
        Ok(binance::StreamData::Depth(payload, meta)) => {
            assert_eq!(meta.first_id, 100);
            assert_eq!(meta.final_id, 105);
            assert_eq!(payload.last_update_id, 105);
            assert_eq!(payload.time, 1700000000123);
            assert_eq!(payload.bids.len(), 2);
            assert_eq!(payload.bids[0].price.units, 6_500_010_000_000);
            assert_eq!(payload.bids[0].qty.units, 150_000_000);
            assert_eq!(payload.bids[1].qty.units, 0);
            assert_eq!(payload.asks.len(), 1);
        }
        other => panic!("unexpected decode: {:?}", other.is_ok()),
    }
}

#[test]
fn binance_feed_de_perp_depth_carries_prev_final() {
    let frame = "{\"stream\":\"btcusd_perp@depth@100ms\",\"data\":{\"T\":1700000000456,\"U\":200,\"u\":210,\"pu\":199,\"b\":[],\"a\":[]}}";
    match binance::feed_de(frame.as_bytes(), MarketKind::InversePerps) {
        Ok(binance::StreamData::Depth(payload, meta)) => {
            assert_eq!(meta.prev_final_id, 199);
            assert_eq!(payload.time, 1700000000456);
        }
        other => panic!("unexpected decode: {:?}", other.is_ok()),
    }
}

#[test]
fn binance_feed_de_trade_and_kline_frames() {
    let trade = "{\"stream\":\"btcusdt@aggTrade\",\"data\":{\"T\":1700000000789,\"p\":\"65000.5\",\"q\":\"0.25\",\"m\":true}}";
    match binance::feed_de(trade.as_bytes(), MarketKind::Spot) {
        Ok(binance::StreamData::Trade(t)) => {
            assert_eq!(t.time, 1700000000789);
            assert_eq!(t.price.units, 6_500_050_000_000);
            assert_eq!(t.qty.units, 25_000_000);
            assert!(t.is_sell);
        }
        other => panic!("unexpected decode: {:?}", other.is_ok()),
    }
    let kline = "{\"stream\":\"btcusdt@kline_1m\",\"data\":{\"s\":\"BTCUSDT\",\"k\":{\"t\":1700000000000,\"i\":\"1m\",\"o\":\"100\",\"h\":\"110\",\"l\":\"90\",\"c\":\"105\",\"v\":\"10\",\"V\":\"4\"}}}";
    match binance::feed_de(kline.as_bytes(), MarketKind::Spot) {
        Ok(binance::StreamData::Kline(k)) => {
            assert_eq!(k.symbol.as_str(), "BTCUSDT");
            assert_eq!(k.interval.as_str(), "1m");
            assert_eq!(k.open.units, 100 * 100_000_000);
            assert_eq!(k.volume.units, 10 * 100_000_000);
            assert_eq!(k.taker_buy_volume.units, 4 * 100_000_000);
        }
        other => panic!("unexpected decode: {:?}", other.is_ok()),
    }
    assert!(binance::feed_de(b"not json", MarketKind::Spot).is_err());
}

#[test]
fn binance_snapshot_normalization() {
    let body = "{\"lastUpdateId\":42,\"bids\":[[\"100.5\",\"1\"]],\"asks\":[[\"101.5\",\"2\"]]}";
    let p = binance::parse_fetched_depth(body.as_bytes(), MarketKind::Spot, 777).unwrap();
    assert_eq!(p.last_update_id, 42);
    assert_eq!(p.time, 777); // spot snapshots take the caller's clock
    assert_eq!(p.bids[0].price.units, 10_050_000_000);
}

#[test]
fn binance_kline_volumes_split() {
    let total = Qty::from_units(10 * 100_000_000);
    let taker_buy = Qty::from_units(4 * 100_000_000);
    let close = Price::from_units(2 * 100_000_000);
    let vp = binance::kline_volumes(total, taker_buy, close, None, false).unwrap();
    assert_eq!(vp.buy.units, 4 * 100_000_000);
    assert_eq!(vp.sell.units, 6 * 100_000_000);
    // In quote units at price 2: buy 8, sell 12.
    let vq = binance::kline_volumes(total, taker_buy, close, None, true).unwrap();
    assert_eq!(vq.buy.units, 8 * 100_000_000);
    assert_eq!(vq.sell.units, 12 * 100_000_000);
}

#[test]
fn binance_pct_change() {
    let last = Price::from_units(110 * 100_000_000);
    let open = Price::from_units(100 * 100_000_000);
    // Ten percent, in atomic units.
    assert_eq!(flowsurface::adapter::pct_change(last, open).units, 10 * 100_000_000);
    assert_eq!(flowsurface::adapter::pct_change(last, Price::from_units(0)).units, 0);
}

#[test]
fn binance_archive_record() {
    let t = binance::trade_from_archive_record("100.5", "0.2", "1700000000001", "true").unwrap();
    assert_eq!(t.price.units, 10_050_000_000);
    assert_eq!(t.qty.units, 20_000_000);
    assert_eq!(t.time, 1700000000001);
    assert!(t.is_sell);
    assert!(binance::trade_from_archive_record("x", "0.2", "1", "true").is_none());
    assert!(binance::trade_from_archive_record("1", "0.2", "1", "maybe").is_none());
}

#[test]
fn okex_limiter_and_mappings() {
    let limiter = okex::OkexLimiter::new(20, 2_000, 0);
    assert_eq!(limiter.bucket.max_tokens, 19);
    assert!(limiter.should_exit_on_status(429));
    assert!(!limiter.should_exit_on_status(418));
    assert_eq!(okex::okx_inst_type(MarketKind::Spot), "SPOT");
    assert_eq!(okex::okx_inst_type(MarketKind::InversePerps), "SWAP");
    assert_eq!(okex::timeframe_to_okx_bar(Timeframe::H12), Some("12Hutc"));
    assert_eq!(okex::timeframe_to_okx_bar(Timeframe::MS100), None);
}

#[test]
fn okex_calc_qty_contract_rules() {
    let qty = Qty::from_units(300_000_000); // 3 contracts
    let price = Price::from_units(2 * 100_000_000);
    let cs = Some(ContractSize::new(1)); // contract worth 10
    // Inverse, base preference: contracts pass through.
    assert_eq!(
        okex::calc_qty(qty, price, false, cs, MarketKind::InversePerps),
        Some(qty)
    );
    // Inverse, quote preference: scaled by the contract size.
    assert_eq!(
        okex::calc_qty(qty, price, true, cs, MarketKind::InversePerps)
            .unwrap()
            .units,
        3_000_000_000
    );
    // Linear: scaled, then through the price for quote.
    assert_eq!(
        okex::calc_qty(qty, price, false, cs, MarketKind::LinearPerps)
            .unwrap()
            .units,
        3_000_000_000
    );
    assert_eq!(
        okex::calc_qty(qty, price, true, cs, MarketKind::LinearPerps)
            .unwrap()
            .units,
        60 * 100_000_000
    );
}

#[test]
fn okex_feed_de_book_and_trades() {
    let snapshot = "{\"arg\":{\"channel\":\"books\",\"instId\":\"BTC-USDT\"},\"action\":\"snapshot\",\"data\":[{\"bids\":[[\"100.5\",\"1\",\"0\",\"1\"]],\"asks\":[[\"101\",\"2\",\"0\",\"1\"]],\"ts\":\"1700000000000\",\"seqId\":55}]}";
    match okex::feed_de(snapshot.as_bytes()) {
        Ok(okex::StreamData::Depth(p, is_snapshot)) => {
            assert!(is_snapshot);
            assert_eq!(p.last_update_id, 55);
            assert_eq!(p.time, 1700000000000);
            assert_eq!(p.bids[0].price.units, 10_050_000_000);
        }
        other => panic!("unexpected decode: {:?}", other.is_ok()),
    }
    let update = "{\"arg\":{\"channel\":\"books\",\"instId\":\"BTC-USDT\"},\"action\":\"update\",\"data\":[{\"bids\":[],\"asks\":[],\"ts\":\"1700000000500\",\"seqId\":56}]}";
    match okex::feed_de(update.as_bytes()) {
        Ok(okex::StreamData::Depth(_, is_snapshot)) => assert!(!is_snapshot),
        other => panic!("unexpected decode: {:?}", other.is_ok()),
    }
    let trades = "{\"arg\":{\"channel\":\"trades\",\"instId\":\"BTC-USDT\"},\"data\":[{\"ts\":\"1700000000700\",\"px\":\"100.5\",\"sz\":\"0.5\",\"side\":\"sell\"}]}";
    match okex::feed_de(trades.as_bytes()) {
        Ok(okex::StreamData::Trade(ts)) => {
            assert_eq!(ts.len(), 1);
            assert!(ts[0].is_sell);
            assert_eq!(ts[0].price.units, 10_050_000_000);
        }
        other => panic!("unexpected decode: {:?}", other.is_ok()),
    }
}

#[test]
fn hyperliquid_limiter_margin() {
    let limiter = hyperliquid::HyperliquidLimiter::new(1200, 60_000, 0);
    assert_eq!(limiter.bucket.max_tokens, 1140);
    assert!(limiter.should_exit_on_status(429));
}

#[test]
fn hyperliquid_tick_rules() {
    // A five-digit price at full precision keeps whole units.
    let btc = Price::from_units(65_000 * 100_000_000);
    let full = hyperliquid::DepthFeedConfig::full_precision();
    let tick = hyperliquid::depth_tick_from_cfg(btc, full);
    assert_eq!((tick.mantissa, tick.exponent), (1, 0));
    // A four-digit price gains one fractional digit.
    let eth = Price::from_units(3_000 * 100_000_000);
    let tick2 = hyperliquid::depth_tick_from_cfg(eth, full);
    assert_eq!((tick2.mantissa, tick2.exponent), (1, -1));
    // Three significant figures on a five-digit price: tick 100.
    let cfg = hyperliquid::DepthFeedConfig::new(Some(3), None);
    let tick3 = hyperliquid::depth_tick_from_cfg(btc, cfg);
    assert_eq!((tick3.mantissa, tick3.exponent), (1, 2));
    // A mantissa applies only at the five-figure limit.
    let cfg5 = hyperliquid::DepthFeedConfig::new(Some(5), Some(5));
    let tick5 = hyperliquid::depth_tick_from_cfg(btc, cfg5);
    assert_eq!((tick5.mantissa, tick5.exponent), (5, 0));
}

#[test]
fn hyperliquid_snap_and_config() {
    assert_eq!(hyperliquid::snap_multiplier_to_125(1), (0, 1));
    assert_eq!(hyperliquid::snap_multiplier_to_125(2), (0, 2));
    assert_eq!(hyperliquid::snap_multiplier_to_125(25), (1, 2));
    assert_eq!(hyperliquid::snap_multiplier_to_125(50), (1, 5));
    assert_eq!(hyperliquid::snap_multiplier_to_125(8), (1, 1));
    let btc = Price::from_units(65_000 * 100_000_000);
    // A unit multiplier keeps full precision.
    assert!(hyperliquid::config_from_multiplier(btc, 1).is_full());
    // A multiplier of ten drops one significant figure.
    let cfg = hyperliquid::config_from_multiplier(btc, 10);
    assert_eq!(cfg.n_sig_figs, Some(4));
    assert_eq!(cfg.mantissa, None);
    // A multiplier of two keeps five figures with mantissa two.
    let cfg2 = hyperliquid::config_from_multiplier(btc, 2);
    assert_eq!(cfg2.n_sig_figs, Some(5));
    assert_eq!(cfg2.mantissa, Some(2));
}

#[test]
fn hyperliquid_compute_tick_size() {
    // Six or more whole digits: whole-unit ticks.
    let wide = Price::from_units(123_456 * 100_000_000);
    assert_eq!(hyperliquid::compute_tick_size(wide, 0, MarketKind::LinearPerps).power, 0);
    // Five whole digits leave no significant figure for decimals.
    let btc = Price::from_units(65_000 * 100_000_000);
    assert_eq!(hyperliquid::compute_tick_size(btc, 0, MarketKind::LinearPerps).power, 0);
    // Four whole digits with room in the decimal budget: one decimal.
    let eth = Price::from_units(3_000 * 100_000_000);
    assert_eq!(hyperliquid::compute_tick_size(eth, 4, MarketKind::LinearPerps).power, -1);
    // A sub-unit price counts its leading zeros.
    let small = Price::from_units(5_000_000); // 0.05
    assert_eq!(hyperliquid::compute_tick_size(small, 0, MarketKind::LinearPerps).power, -6);
    // A non-positive price falls back to a thousandth.
    assert_eq!(
        hyperliquid::compute_tick_size(Price::from_units(0), 0, MarketKind::LinearPerps).power,
        -3
    );
}

#[test]
fn hyperliquid_display_symbols() {
    let tokens = vec![
        hyperliquid::TokenInfo { name: String::from("HYPE"), index: 150, sz_decimals: 2 },
        hyperliquid::TokenInfo { name: String::from("USDC"), index: 0, sz_decimals: 8 },
    ];
    let named = hyperliquid::create_display_symbol("PURR/USDC", &tokens, (1, 0));
    assert_eq!(named.as_str(), "PURRUSDC");
    let indexed = hyperliquid::create_display_symbol("@107", &tokens, (150, 0));
    assert_eq!(indexed.as_str(), "HYPEUSDC");
    let unknown = hyperliquid::create_display_symbol("@9", &tokens, (7, 0));
    assert_eq!(unknown.as_str(), "@9");
}

#[test]
fn hyperliquid_stream_decode() {
    let book = "{\"channel\":\"l2Book\",\"data\":{\"coin\":\"BTC\",\"time\":1700000000000,\"levels\":[[{\"px\":\"65000.0\",\"sz\":\"1.5\",\"n\":3}],[{\"px\":\"65001.0\",\"sz\":\"2\",\"n\":1}]]}}";
    match hyperliquid::parse_websocket_message(book.as_bytes()) {
        Ok(hyperliquid::StreamData::Depth(p)) => {
            assert_eq!(p.last_update_id, 1700000000000);
            assert_eq!(p.bids[0].price.units, 6_500_000_000_000);
            assert_eq!(p.asks[0].qty.units, 200_000_000);
        }
        other => panic!("unexpected decode: {:?}", other.is_ok()),
    }
    let trades = "{\"channel\":\"trades\",\"data\":[{\"coin\":\"BTC\",\"side\":\"A\",\"px\":\"65000.5\",\"sz\":\"0.1\",\"time\":1700000000001}]}";
    match hyperliquid::parse_websocket_message(trades.as_bytes()) {
        Ok(hyperliquid::StreamData::Trade(ts)) => {
            assert!(ts[0].is_sell);
            assert_eq!(ts[0].qty.units, 10_000_000);
        }
        other => panic!("unexpected decode: {:?}", other.is_ok()),
    }
    let candle = "{\"channel\":\"candle\",\"data\":{\"s\":\"BTC\",\"i\":\"1m\",\"t\":1700000000000,\"T\":1700000060000,\"o\":\"100\",\"h\":\"110\",\"l\":\"90\",\"c\":\"105\",\"v\":\"12\",\"n\":7}}";
    match hyperliquid::parse_websocket_message(candle.as_bytes()) {
        Ok(hyperliquid::StreamData::Kline(k)) => {
            assert_eq!(k.symbol.as_str(), "BTC");
            assert_eq!(k.interval.as_str(), "1m");
            assert_eq!(k.candle.close.units, 105 * 100_000_000);
        }
        other => panic!("unexpected decode: {:?}", other.is_ok()),
    }
}

#[test]
fn okex_rest_normalizers() {
    let instruments = "{\"data\":[{\"instId\":\"BTC-USDT\",\"state\":\"live\",\"quoteCcy\":\"USDT\",\"tickSz\":\"0.1\",\"lotSz\":\"0.00001\"},{\"instId\":\"ETH-EUR\",\"state\":\"live\",\"quoteCcy\":\"EUR\",\"tickSz\":\"0.1\",\"lotSz\":\"0.001\"}]}";
    let rows = okex::normalize_instruments(instruments.as_bytes(), MarketKind::Spot).unwrap();
    assert_eq!(rows.len(), 1);
    let (ticker, info) = &rows[0];
    assert_eq!(ticker.as_str(), "BTC-USDT");
    let info = info.as_ref().unwrap();
    assert_eq!(info.min_ticksize.power, -1);
    assert_eq!(info.min_qty.power, -5);
    assert!(info.contract_size.is_none());

    let stats = "{\"data\":[{\"instId\":\"BTC-USDT\",\"last\":\"110\",\"open24h\":\"100\",\"volCcy24h\":\"1000\"}]}";
    let rows = okex::normalize_ticker_prices(stats.as_bytes(), MarketKind::Spot).unwrap();
    assert_eq!(rows.len(), 1);
    assert_eq!(rows[0].1.mark_price.units, 110 * 100_000_000);
    assert_eq!(rows[0].1.daily_price_chg.units, 10 * 100_000_000);
    assert_eq!(rows[0].1.daily_volume.units, 1000 * 100_000_000);

    let klines = "{\"data\":[[\"1700000000000\",\"100\",\"110\",\"90\",\"105\",\"12\"]]}";
    let ks = okex::normalize_klines(
        klines.as_bytes(),
        flowsurface::numeric::MinTicksize::new(-1),
        None,
        false,
        MarketKind::Spot,
    )
    .unwrap();
    assert_eq!(ks.len(), 1);
    assert_eq!(ks[0].close.units, 105 * 100_000_000);
    assert_eq!(ks[0].volume.sell.units, 12 * 100_000_000);

    let oi = "{\"data\":[[\"1700000000000\",\"5\",\"2.5\",\"100000\"]]}";
    let ois = okex::normalize_open_interest(oi.as_bytes()).unwrap();
    assert_eq!(ois.len(), 1);
    assert_eq!(ois[0].time, 1700000000000);
    assert_eq!(ois[0].value.units, 250_000_000);
}

#[test]
fn hyperliquid_rest_normalizers() {
    let perp = "[{\"universe\":[{\"name\":\"BTC\",\"szDecimals\":5}]},[{\"midPx\":\"65000.0\",\"markPx\":\"65001.0\",\"dayNtlVlm\":\"1\",\"prevDayPx\":\"64000\"}]]";
    let rows =
        hyperliquid::normalize_perp_assets(perp.as_bytes(), Exchange::HyperliquidLinear).unwrap();
    assert_eq!(rows.len(), 1);
    let (ticker, info) = &rows[0];
    assert_eq!(ticker.as_str(), "BTC");
    let info = info.as_ref().unwrap();
    // Five whole digits leave no room for decimals.
    assert_eq!(info.min_ticksize.power, 0);
    assert_eq!(info.min_qty.power, -5);

    let spot = "[{\"tokens\":[{\"name\":\"HYPE\",\"szDecimals\":2,\"index\":150},{\"name\":\"USDC\",\"szDecimals\":8,\"index\":0}],\"universe\":[{\"name\":\"@107\",\"tokens\":[150,0],\"index\":0}]},[{\"midPx\":\"25.5\",\"markPx\":\"25.4\",\"dayNtlVlm\":\"1\",\"prevDayPx\":\"24\"}]]";
    let rows =
        hyperliquid::normalize_spot_assets(spot.as_bytes(), Exchange::HyperliquidSpot).unwrap();
    assert_eq!(rows.len(), 1);
    assert_eq!(rows[0].0.as_str(), "@107");
    assert_eq!(rows[0].0.display_symbol(), Some("HYPEUSDC"));

    let candles = "[{\"t\":1700000000000,\"T\":1700000060000,\"s\":\"BTC\",\"i\":\"1m\",\"o\":\"100\",\"h\":\"110\",\"l\":\"90\",\"c\":\"105\",\"v\":\"12\",\"n\":3}]";
    let ks = hyperliquid::normalize_candle_snapshot(
        candles.as_bytes(),
        flowsurface::numeric::MinTicksize::new(0),
        true,
    )
    .unwrap();
    assert_eq!(ks.len(), 1);
    // In quote units at close 105: 12 * 105 = 1260.
    assert_eq!(ks[0].volume.sell.units, 1260 * 100_000_000);
}

#[test]
fn rest_body_screening() {
    assert_eq!(classify_rest_body(""), RestBodyKind::Empty);
    assert_eq!(classify_rest_body("  \n\t "), RestBodyKind::Empty);
    assert_eq!(classify_rest_body("  <html>nope"), RestBodyKind::Markup);
    assert_eq!(classify_rest_body("{\"ok\":1}"), RestBodyKind::Data);
}

#[test]
fn hyperliquid_perp_stats() {
    let mids = "{\"BTC\":\"110\",\"@107\":\"25\",\"PURR/USDC\":\"1\"}";
    let meta = "[{\"universe\":[{\"name\":\"BTC\",\"szDecimals\":5}]},[{\"prevDayPx\":\"100\",\"dayNtlVlm\":\"5000\"}]]";
    let rows = hyperliquid::normalize_perp_ticker_stats(
        mids.as_bytes(),
        meta.as_bytes(),
        Exchange::HyperliquidLinear,
    )
    .unwrap();
    // Spot-style keys are left out; only the perpetual remains.
    assert_eq!(rows.len(), 1);
    assert_eq!(rows[0].0.as_str(), "BTC");
    assert_eq!(rows[0].1.mark_price.units, 110 * 100_000_000);
    assert_eq!(rows[0].1.daily_price_chg.units, 10 * 100_000_000);
    assert_eq!(rows[0].1.daily_volume.units, 5000 * 100_000_000);
}

#[test]
fn binance_depth_payload_conversion() {
    let payload = DepthPayload {
        last_update_id: 7,
        time: 11,
        bids: vec![Level {
            price: Price::from_units(2 * 100_000_000),
            qty: Qty::from_units(300_000_000), // 3 contracts
        }],
        asks: vec![Level {
            price: Price::from_units(3 * 100_000_000),
            qty: Qty::from_units(100_000_000),
        }],
    };
    // Inverse contract worth 100: book quantities scale with it, as
    // trades and candles in the same event do.
    let converted =
        binance::convert_depth_payload(&payload, Some(ContractSize::new(2)), false).unwrap();
    assert_eq!(converted.last_update_id, 7);
    assert_eq!(converted.time, 11);
    assert_eq!(converted.bids[0].price.units, 2 * 100_000_000);
    assert_eq!(converted.bids[0].qty.units, 300_000_000 * 100);
    assert_eq!(converted.asks[0].qty.units, 100_000_000 * 100);
    // Quote preference without a contract: through the price.
    let quoted = binance::convert_depth_payload(&payload, None, true).unwrap();
    assert_eq!(quoted.bids[0].qty.units, 6 * 100_000_000);
}

#[test]
fn okex_depth_payload_conversion() {
    let payload = DepthPayload {
        last_update_id: 9,
        time: 13,
        bids: vec![Level {
            price: Price::from_units(2 * 100_000_000),
            qty: Qty::from_units(300_000_000),
        }],
        asks: vec![],
    };
    // Linear contract worth 10, base preference: scaled by the size.
    let converted = okex::convert_depth_payload(
        &payload,
        false,
        Some(ContractSize::new(1)),
        MarketKind::LinearPerps,
    )
    .unwrap();
    assert_eq!(converted.bids[0].qty.units, 3_000_000_000);
    // Inverse, base preference: contracts pass through unchanged.
    let inverse = okex::convert_depth_payload(
        &payload,
        false,
        Some(ContractSize::new(1)),
        MarketKind::InversePerps,
    )
    .unwrap();
    assert_eq!(inverse.bids[0].qty.units, 300_000_000);
}

#[test]
fn okex_open_interest_rows() {
    let row = okex::open_interest_row("1700000000000", "2.5").unwrap();
    assert_eq!(row.time, 1700000000000);
    assert_eq!(row.value.units, 250_000_000);
    assert!(okex::open_interest_row("x", "2.5").is_none());
    assert!(okex::open_interest_row("1", "-2.5").is_none());
}

#[test]
fn binance_exchange_info_errors_on_missing_lot_size() {
    // A row that passes the filters but carries no LOT_SIZE minQty
    // fails the whole fetch, as the reference behavior does.
    let body = "{\"symbols\":[{\"symbol\":\"BTCUSDT\",\"status\":\"TRADING\",\"quoteAsset\":\"USDT\",\"filters\":[{\"filterType\":\"PRICE_FILTER\",\"tickSize\":\"0.01\"}]}]}";
    assert!(binance::normalize_exchange_info(body.as_bytes(), MarketKind::Spot).is_err());
    // A complete row succeeds and carries its tick and lot sizes.
    let good = "{\"symbols\":[{\"symbol\":\"BTCUSDT\",\"status\":\"TRADING\",\"quoteAsset\":\"USDT\",\"filters\":[{\"filterType\":\"PRICE_FILTER\",\"tickSize\":\"0.01\"},{\"filterType\":\"LOT_SIZE\",\"minQty\":\"0.00001\"}]}]}";
    let rows = binance::normalize_exchange_info(good.as_bytes(), MarketKind::Spot).unwrap();
    assert_eq!(rows.len(), 1);
    let info = rows[0].1.as_ref().unwrap();
    assert_eq!(info.min_ticksize.power, -2);
    assert_eq!(info.min_qty.power, -5);
    // A filtered-out row is skipped without failing the fetch.
    let filtered = "{\"symbols\":[{\"symbol\":\"BTCEUR\",\"status\":\"TRADING\",\"quoteAsset\":\"EUR\",\"filters\":[]}]}";
    let rows = binance::normalize_exchange_info(filtered.as_bytes(), MarketKind::Spot).unwrap();
    assert!(rows.is_empty());
}
