//! Settings of the instrument table shown in the sidebar.

use vstd::prelude::*;

use crate::{MarketKind, Ticker};

verus! {

/// A venue family, covering all its market kinds at once.
#[derive(Debug, Clone, Copy, PartialEq, Eq, Structural)]
pub enum ExchangeInclusive {
    Binance,
    Bybit,
    Hyperliquid,
    Okex,
}

/// How the table is sorted.
#[derive(Debug, Clone, Copy, PartialEq, Eq, Structural, Default)]
pub enum SortOptions {
    #[default]
    VolumeAsc,
    VolumeDesc,
    ChangeAsc,
    ChangeDesc,
}

/// Which way a displayed price moved since the previous statistics.
#[derive(Debug, Clone, Copy, PartialEq, Eq, Structural)]
pub enum PriceChangeDirection {
    Increased,
    Decreased,
    Unchanged,
}

/// The persisted state of the instrument table.
#[derive(Debug, Clone)]
pub struct Settings {
    pub favorited_tickers: Vec<Ticker>,
    pub show_favorites: bool,
    pub selected_sort_option: SortOptions,
    pub selected_exchanges: Vec<ExchangeInclusive>,
    pub selected_markets: Vec<MarketKind>,
}

impl Settings {
    /// The default view: nothing filtered, sorted by volume falling.
    pub fn new() -> (r: Settings)
        ensures
            r.favorited_tickers@.len() == 0,
            r.show_favorites == false,
            r.selected_sort_option == SortOptions::VolumeDesc,
            r.selected_exchanges@ == seq![
                ExchangeInclusive::Binance, ExchangeInclusive::Bybit,
                ExchangeInclusive::Hyperliquid, ExchangeInclusive::Okex,
            ],
            r.selected_markets@ == seq![
                MarketKind::Spot, MarketKind::LinearPerps, MarketKind::InversePerps,
            ],
    {
        let mut exchanges: Vec<ExchangeInclusive> = Vec::new();
        exchanges.push(ExchangeInclusive::Binance);
        exchanges.push(ExchangeInclusive::Bybit);
        exchanges.push(ExchangeInclusive::Hyperliquid);
        exchanges.push(ExchangeInclusive::Okex);
        let mut markets: Vec<MarketKind> = Vec::new();
        markets.push(MarketKind::Spot);
        markets.push(MarketKind::LinearPerps);
        markets.push(MarketKind::InversePerps);
        proof {
            assert(exchanges@ =~= seq![
                ExchangeInclusive::Binance, ExchangeInclusive::Bybit,
                ExchangeInclusive::Hyperliquid, ExchangeInclusive::Okex,
            ]);
            assert(markets@ =~= seq![
                MarketKind::Spot, MarketKind::LinearPerps, MarketKind::InversePerps,
            ]);
        }
        Settings {
            favorited_tickers: Vec::new(),
            show_favorites: false,
            selected_sort_option: SortOptions::VolumeDesc,
            selected_exchanges: exchanges,
            selected_markets: markets,
        }
    }
}

} // verus!
