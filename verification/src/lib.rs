//! Exchange-agnostic market-data core: an exact fixed-point numeric model,
//! order-book reconstruction from snapshots and diffs, per-venue rate
//! limiting, and the connection state machine shared by all venue adapters.

pub mod numeric;
pub mod text;
pub mod depth;
pub mod limiter;
pub mod stream;
pub mod json;
pub mod adapter;
pub mod aggr;
pub mod ladder;
pub mod sidebar;
pub mod tickers_table;
pub mod timeandsales;

use vstd::prelude::*;

verus! {

/// A venue together with the market family it serves.
#[derive(Debug, Clone, Copy, PartialEq, Eq, Hash, Structural)]
pub enum Exchange {
    BinanceLinear,
    BinanceInverse,
    BinanceSpot,
    BybitLinear,
    BybitInverse,
    BybitSpot,
    HyperliquidLinear,
    HyperliquidSpot,
    OkexLinear,
    OkexInverse,
    OkexSpot,
}

/// The kind of market an instrument trades on.
#[derive(Debug, Clone, Copy, PartialEq, Eq, Hash, Structural)]
pub enum MarketKind {
    Spot,
    LinearPerps,
    InversePerps,
}

impl Exchange {
    /// The market family this venue serves.
    pub fn market_type(self) -> (r: MarketKind)
        ensures
            r == self.market_type_spec(),
    {
        match self {
            Exchange::BinanceSpot | Exchange::BybitSpot | Exchange::HyperliquidSpot
                | Exchange::OkexSpot => MarketKind::Spot,
            Exchange::BinanceLinear | Exchange::BybitLinear | Exchange::HyperliquidLinear
                | Exchange::OkexLinear => MarketKind::LinearPerps,
            Exchange::BinanceInverse | Exchange::BybitInverse | Exchange::OkexInverse
                => MarketKind::InversePerps,
        }
    }

    pub open spec fn market_type_spec(self) -> MarketKind {
        match self {
            Exchange::BinanceSpot | Exchange::BybitSpot | Exchange::HyperliquidSpot
                | Exchange::OkexSpot => MarketKind::Spot,
            Exchange::BinanceLinear | Exchange::BybitLinear | Exchange::HyperliquidLinear
                | Exchange::OkexLinear => MarketKind::LinearPerps,
            Exchange::BinanceInverse | Exchange::BybitInverse | Exchange::OkexInverse
                => MarketKind::InversePerps,
        }
    }
}

/// Whether displayed sizes are denominated in the base asset or in the
/// quote asset.
#[derive(Debug, Clone, Copy, PartialEq, Eq, Hash, Structural, Default)]
pub enum SizeUnit {
    #[default]
    Base,
    Quote,
}

/// The process-wide size-unit preference, owned by the embedding
/// program and passed where records are constructed.
#[derive(Debug, Clone, Copy, PartialEq, Eq, Structural, Default)]
pub struct SizePreference {
    pub unit: SizeUnit,
}

/// Set the preferred denomination for sizes and volumes.
pub fn set_preferred_currency(prefs: &mut SizePreference, v: SizeUnit)
    ensures
        final(prefs).unit == v,
{
    prefs.unit = v;
}

/// The denomination currently preferred for sizes and volumes.
pub fn volume_size_unit(prefs: &SizePreference) -> (r: SizeUnit)
    ensures
        r == prefs.unit,
{
    prefs.unit
}

/// A chart or stream interval.
#[derive(Debug, Clone, Copy, PartialEq, Eq, Hash, Structural, PartialOrd, Ord)]
pub enum Timeframe {
    MS100,
    MS200,
    MS300,
    MS500,
    MS1000,
    M1,
    M3,
    M5,
    M15,
    M30,
    H1,
    H2,
    H4,
    H12,
    D1,
}

impl Timeframe {
    /// The candle intervals offered to charts.
    pub const KLINE: [Timeframe; 10] = [
        Timeframe::M1,
        Timeframe::M3,
        Timeframe::M5,
        Timeframe::M15,
        Timeframe::M30,
        Timeframe::H1,
        Timeframe::H2,
        Timeframe::H4,
        Timeframe::H12,
        Timeframe::D1,
    ];

    /// The sub-second intervals offered to heatmaps.
    pub const HEATMAP: [Timeframe; 5] = [
        Timeframe::MS100,
        Timeframe::MS200,
        Timeframe::MS300,
        Timeframe::MS500,
        Timeframe::MS1000,
    ];

    /// Whether this interval is a sub-second depth push rate rather
    /// than a candle length.
    pub open spec fn is_subminute(self) -> bool {
        self == Timeframe::MS100 || self == Timeframe::MS200 || self == Timeframe::MS300
            || self == Timeframe::MS500 || self == Timeframe::MS1000
    }

    /// The interval in minutes; only candle intervals have one.
    pub fn to_minutes(self) -> (r: u16)
        requires
            !self.is_subminute(),
        ensures
            r == self.to_minutes_spec(),
    {
        match self {
            Timeframe::M1 => 1,
            Timeframe::M3 => 3,
            Timeframe::M5 => 5,
            Timeframe::M15 => 15,
            Timeframe::M30 => 30,
            Timeframe::H1 => 60,
            Timeframe::H2 => 120,
            Timeframe::H4 => 240,
            Timeframe::H12 => 720,
            Timeframe::D1 => 1440,
            _ => 0,
        }
    }

    pub open spec fn to_minutes_spec(self) -> u16 {
        match self {
            Timeframe::M1 => 1,
            Timeframe::M3 => 3,
            Timeframe::M5 => 5,
            Timeframe::M15 => 15,
            Timeframe::M30 => 30,
            Timeframe::H1 => 60,
            Timeframe::H2 => 120,
            Timeframe::H4 => 240,
            Timeframe::H12 => 720,
            Timeframe::D1 => 1440,
            _ => 0,
        }
    }

    /// The interval in milliseconds.
    pub fn to_milliseconds(self) -> (r: u64)
        ensures
            r == self.to_milliseconds_spec(),
            r > 0,
    {
        match self {
            Timeframe::MS100 => 100,
            Timeframe::MS200 => 200,
            Timeframe::MS300 => 300,
            Timeframe::MS500 => 500,
            Timeframe::MS1000 => 1000,
            _ => {
                let minutes: u16 = self.to_minutes();
                (minutes as u64) * 60_000
            },
        }
    }

    pub open spec fn to_milliseconds_spec(self) -> u64 {
        match self {
            Timeframe::MS100 => 100,
            Timeframe::MS200 => 200,
            Timeframe::MS300 => 300,
            Timeframe::MS500 => 500,
            Timeframe::MS1000 => 1000,
            _ => (self.to_minutes_spec() * 60_000) as u64,
        }
    }

    /// What `label` returns for each interval.
    pub open spec fn label_text(self) -> Seq<char> {
        match self {
            Timeframe::MS100 => "100ms"@,
            Timeframe::MS200 => "200ms"@,
            Timeframe::MS300 => "300ms"@,
            Timeframe::MS500 => "500ms"@,
            Timeframe::MS1000 => "1s"@,
            Timeframe::M1 => "1m"@,
            Timeframe::M3 => "3m"@,
            Timeframe::M5 => "5m"@,
            Timeframe::M15 => "15m"@,
            Timeframe::M30 => "30m"@,
            Timeframe::H1 => "1h"@,
            Timeframe::H2 => "2h"@,
            Timeframe::H4 => "4h"@,
            Timeframe::H12 => "12h"@,
            Timeframe::D1 => "1d"@,
        }
    }

    /// The interval whose venue-facing name the text is.
    pub fn from_label(s: &str) -> (r: Option<Timeframe>)
        ensures
            r is Some ==> s@ == r->0.label_text(),
            r is None ==> forall|tf: Timeframe| s@ != tf.label_text(),
    {
        if crate::text::str_eq(s, "100ms") {
            Some(Timeframe::MS100)
        } else if crate::text::str_eq(s, "200ms") {
            Some(Timeframe::MS200)
        } else if crate::text::str_eq(s, "300ms") {
            Some(Timeframe::MS300)
        } else if crate::text::str_eq(s, "500ms") {
            Some(Timeframe::MS500)
        } else if crate::text::str_eq(s, "1s") {
            Some(Timeframe::MS1000)
        } else if crate::text::str_eq(s, "1m") {
            Some(Timeframe::M1)
        } else if crate::text::str_eq(s, "3m") {
            Some(Timeframe::M3)
        } else if crate::text::str_eq(s, "5m") {
            Some(Timeframe::M5)
        } else if crate::text::str_eq(s, "15m") {
            Some(Timeframe::M15)
        } else if crate::text::str_eq(s, "30m") {
            Some(Timeframe::M30)
        } else if crate::text::str_eq(s, "1h") {
            Some(Timeframe::H1)
        } else if crate::text::str_eq(s, "2h") {
            Some(Timeframe::H2)
        } else if crate::text::str_eq(s, "4h") {
            Some(Timeframe::H4)
        } else if crate::text::str_eq(s, "12h") {
            Some(Timeframe::H12)
        } else if crate::text::str_eq(s, "1d") {
            Some(Timeframe::D1)
        } else {
            None
        }
    }

    /// The venue-facing name of the interval ("1m", "1h", "100ms").
    pub fn label(self) -> (r: &'static str)
        ensures
            r@ == self.label_text(),
    {
        match self {
            Timeframe::MS100 => "100ms",
            Timeframe::MS200 => "200ms",
            Timeframe::MS300 => "300ms",
            Timeframe::MS500 => "500ms",
            Timeframe::MS1000 => "1s",
            Timeframe::M1 => "1m",
            Timeframe::M3 => "3m",
            Timeframe::M5 => "5m",
            Timeframe::M15 => "15m",
            Timeframe::M30 => "30m",
            Timeframe::H1 => "1h",
            Timeframe::H2 => "2h",
            Timeframe::H4 => "4h",
            Timeframe::H12 => "12h",
            Timeframe::D1 => "1d",
        }
    }
}

/// The milliseconds value that had no matching interval.
#[derive(Debug, Clone, Copy, PartialEq, Eq, Structural)]
pub struct InvalidTimeframe(pub u64);

/// The push rate asked of a depth stream.
#[derive(Debug, Default, Clone, Copy, PartialEq, Eq, Hash, Structural)]
pub enum PushFrequency {
    #[default]
    ServerDefault,
    Custom(Timeframe),
}

/// A chart-side multiplier applied to an instrument's tick size.
#[derive(Debug, Clone, Copy, PartialEq, Eq, Hash, Structural)]
pub struct TickMultiplier(pub u16);

impl TickMultiplier {
    /// The standard multipliers offered in the interface.
    pub open spec fn standard_spec(self) -> bool {
        self.0 == 1 || self.0 == 2 || self.0 == 5 || self.0 == 10 || self.0 == 25 || self.0
            == 50 || self.0 == 100 || self.0 == 200 || self.0 == 500
    }

    /// Whether the multiplier is none of the standard choices.
    pub fn is_custom(&self) -> (r: bool)
        ensures
            r == !self.standard_spec(),
    {
        !(self.0 == 1 || self.0 == 2 || self.0 == 5 || self.0 == 10 || self.0 == 25 || self.0
            == 50 || self.0 == 100 || self.0 == 200 || self.0 == 500)
    }
}

/// Whether a venue symbol is made only of ASCII alphanumerics, '_' and
/// '-'. The `log` flag mirrors the caller's wish to report rejects and
/// does not change the answer.
pub fn is_symbol_supported(symbol: &str, exchange: Exchange, log: bool) -> (r: bool)
    ensures
        r == symbol_chars_supported(symbol@),
{
    let n: usize = symbol.unicode_len();
    let mut i: usize = 0;
    while i < n
        invariant
            0 <= i <= n,
            n == symbol@.len(),
            forall|k: int| 0 <= k < i ==> supported_symbol_char(#[trigger] symbol@[k]),
        decreases n - i,
    {
        let c: char = symbol.get_char(i);
        let ok: bool = (c >= 'a' && c <= 'z') || (c >= 'A' && c <= 'Z') || (c >= '0' && c
            <= '9') || c == '_' || c == '-';
        if !ok {
            return false;
        }
        i = i + 1;
    }
    true
}

pub open spec fn supported_symbol_char(c: char) -> bool {
    ('a' <= c && c <= 'z') || ('A' <= c && c <= 'Z') || ('0' <= c && c <= '9') || c == '_'
        || c == '-'
}

pub open spec fn symbol_chars_supported(s: Seq<char>) -> bool {
    forall|i: int| 0 <= i < s.len() ==> supported_symbol_char(#[trigger] s[i])
}

/// A symbol text the model accepts: at most 28 printable ASCII
/// characters, none of them ':' or '|'.
pub open spec fn valid_symbol_text(s: Seq<char>) -> bool {
    &&& s.len() <= 28
    &&& forall|i: int|
        0 <= i < s.len() ==> ('!' <= #[trigger] s[i] && s[i] <= '~' && s[i] != ':' && s[i]
            != '|')
}

/// Whether a text can serve as a ticker symbol.
pub fn symbol_is_valid(s: &str) -> (r: bool)
    ensures
        r == valid_symbol_text(s@),
{
    let n: usize = s.unicode_len();
    if n > 28 {
        return false;
    }
    let mut i: usize = 0;
    while i < n
        invariant
            0 <= i <= n,
            n == s@.len(),
            forall|k: int|
                0 <= k < i ==> ('!' <= #[trigger] s@[k] && s@[k] <= '~' && s@[k] != ':'
                    && s@[k] != '|'),
        decreases n - i,
    {
        let c: char = s.get_char(i);
        if !(c >= '!' && c <= '~' && c != ':' && c != '|') {
            return false;
        }
        i = i + 1;
    }
    true
}

/// A compact instrument identifier: the venue, the venue's raw symbol,
/// and an optional display alias for the interface. Equality is by
/// venue and raw symbol alone; to key a map, use the alias-free
/// "Venue:Symbol" text from `symbol_and_exchange_string`.
#[derive(Debug, Clone)]
pub struct Ticker {
    pub symbol: String,
    pub exchange: Exchange,
    pub display: Option<String>,
}

impl PartialEq for Ticker {
    /// Equal exactly when venue and raw symbol agree; the display
    /// alias does not take part.
    fn eq(&self, other: &Ticker) -> (r: bool) {
        self.exchange == other.exchange && crate::text::str_eq(
            self.symbol.as_str(),
            other.symbol.as_str(),
        )
    }
}

impl vstd::std_specs::cmp::PartialEqSpecImpl for Ticker {
    open spec fn obeys_eq_spec() -> bool {
        true
    }

    open spec fn eq_spec(&self, other: &Ticker) -> bool {
        self.exchange == other.exchange && self.symbol@ == other.symbol@
    }
}

impl Eq for Ticker {

}

impl Ticker {
    /// All symbol texts held by the ticker are valid.
    pub open spec fn wf(self) -> bool {
        &&& valid_symbol_text(self.symbol@)
        &&& match self.display {
            Some(d) => valid_symbol_text(d@),
            None => true,
        }
    }

    /// Wrap a raw venue symbol. A malformed symbol is a caller error.
    pub fn new(ticker: &str, exchange: Exchange) -> (r: Ticker)
        requires
            valid_symbol_text(ticker@),
        ensures
            r.wf(),
            r.symbol@ == ticker@,
            r.exchange == exchange,
            r.display is None,
    {
        Ticker { symbol: ticker.to_owned(), exchange, display: None }
    }

    /// Wrap a raw venue symbol with an optional display alias.
    pub fn new_with_display(ticker: &str, exchange: Exchange, display_symbol: Option<&str>)
        -> (r: Ticker)
        requires
            valid_symbol_text(ticker@),
            match display_symbol {
                Some(d) => valid_symbol_text(d@),
                None => true,
            },
        ensures
            r.wf(),
            r.symbol@ == ticker@,
            r.exchange == exchange,
            match display_symbol {
                Some(d) => r.display matches Some(rd) && rd@ == d@,
                None => r.display is None,
            },
    {
        let display: Option<String> = match display_symbol {
            Some(d) => Some(d.to_owned()),
            None => None,
        };
        Ticker { symbol: ticker.to_owned(), exchange, display }
    }

    /// The raw venue symbol.
    pub fn as_str(&self) -> (r: &str)
        ensures
            r@ == self.symbol@,
    {
        self.symbol.as_str()
    }

    /// The alias when one is set, the raw symbol otherwise.
    pub fn display_as_str(&self) -> (r: &str)
        ensures
            r@ == self.display_text(),
    {
        match &self.display {
            Some(d) => d.as_str(),
            None => self.symbol.as_str(),
        }
    }

    pub open spec fn display_text(self) -> Seq<char> {
        match self.display {
            Some(d) => d@,
            None => self.symbol@,
        }
    }

    /// The display alias, when one is set.
    pub fn display_symbol(&self) -> (r: Option<&str>)
        ensures
            r is Some <==> self.display is Some,
            r is Some ==> r->0@ == self.display->0@,
    {
        match &self.display {
            Some(d) => Some(d.as_str()),
            None => None,
        }
    }

    /// The raw symbol together with the market kind.
    pub fn to_full_symbol_and_type(&self) -> (r: (String, MarketKind))
        ensures
            r.0@ == self.symbol@,
            r.1 == self.exchange.market_type_spec(),
    {
        (self.symbol.clone(), self.exchange.market_type())
    }

    /// The symbol shown in the interface: the alias when set, and on
    /// the one venue whose linear-perpetual symbols omit the quote
    /// asset, the raw symbol with "USDT" appended.
    pub open spec fn display_symbol_text(self) -> Seq<char> {
        match self.display {
            Some(d) => d@,
            None => if self.exchange == Exchange::HyperliquidLinear {
                self.symbol@ + "USDT"@
            } else {
                self.symbol@
            },
        }
    }

    pub fn display_symbol_and_type(&self) -> (r: (String, MarketKind))
        ensures
            r.0@ == self.display_symbol_text(),
            r.1 == self.exchange.market_type_spec(),
    {
        let market_kind: MarketKind = self.exchange.market_type();
        let result: String = match &self.display {
            Some(d) => d.clone(),
            None => {
                let mut s: String = self.symbol.clone();
                if matches!(self.exchange, Exchange::HyperliquidLinear) {
                    s.append("USDT");
                }
                s
            },
        };
        (result, market_kind)
    }

    pub fn market_type(&self) -> (r: MarketKind)
        ensures
            r == self.exchange.market_type_spec(),
    {
        self.exchange.market_type()
    }

    /// "Venue:Symbol" in one text.
    pub fn symbol_and_exchange_string(&self) -> (r: String)
        ensures
            r@ == exchange_label(self.exchange) + ":"@ + self.symbol@,
    {
        let mut s: String = SerTicker::exchange_to_string(self.exchange).to_owned();
        s.append(":");
        s.append(self.symbol.as_str());
        s
    }
}

/// The stable text name of each venue.
pub open spec fn exchange_label(e: Exchange) -> Seq<char> {
    match e {
        Exchange::BinanceLinear => "BinanceLinear"@,
        Exchange::BinanceInverse => "BinanceInverse"@,
        Exchange::BinanceSpot => "BinanceSpot"@,
        Exchange::BybitLinear => "BybitLinear"@,
        Exchange::BybitInverse => "BybitInverse"@,
        Exchange::BybitSpot => "BybitSpot"@,
        Exchange::HyperliquidLinear => "HyperliquidLinear"@,
        Exchange::HyperliquidSpot => "HyperliquidSpot"@,
        Exchange::OkexLinear => "OkexLinear"@,
        Exchange::OkexInverse => "OkexInverse"@,
        Exchange::OkexSpot => "OkexSpot"@,
    }
}

/// A (venue, ticker) pair under the serialized "Exchange:Symbol" text
/// form, used as a map key by consumers.
#[derive(Debug, Clone)]
pub struct SerTicker {
    pub exchange: Exchange,
    pub ticker: Ticker,
}

impl PartialEq for SerTicker {
    fn eq(&self, other: &SerTicker) -> (r: bool) {
        self.exchange == other.exchange && self.ticker == other.ticker
    }
}

impl vstd::std_specs::cmp::PartialEqSpecImpl for SerTicker {
    open spec fn obeys_eq_spec() -> bool {
        true
    }

    open spec fn eq_spec(&self, other: &SerTicker) -> bool {
        self.exchange == other.exchange && self.ticker.exchange == other.ticker.exchange
            && self.ticker.symbol@ == other.ticker.symbol@
    }
}

impl Eq for SerTicker {

}

impl SerTicker {
    pub fn new(exchange: Exchange, ticker_str: &str) -> (r: SerTicker)
        requires
            valid_symbol_text(ticker_str@),
        ensures
            r.exchange == exchange,
            r.ticker.symbol@ == ticker_str@,
            r.ticker.exchange == exchange,
    {
        let ticker: Ticker = Ticker::new(ticker_str, exchange);
        SerTicker { exchange, ticker }
    }

    pub fn from_parts(ticker: Ticker) -> (r: SerTicker)
        ensures
            r.exchange == ticker.exchange,
            r.ticker == ticker,
    {
        let exchange: Exchange = ticker.exchange;
        SerTicker { exchange, ticker }
    }

    /// The stable text name of a venue.
    pub fn exchange_to_string(exchange: Exchange) -> (r: &'static str)
        ensures
            r@ == exchange_label(exchange),
    {
        match exchange {
            Exchange::BinanceLinear => "BinanceLinear",
            Exchange::BinanceInverse => "BinanceInverse",
            Exchange::BinanceSpot => "BinanceSpot",
            Exchange::BybitLinear => "BybitLinear",
            Exchange::BybitInverse => "BybitInverse",
            Exchange::BybitSpot => "BybitSpot",
            Exchange::HyperliquidLinear => "HyperliquidLinear",
            Exchange::HyperliquidSpot => "HyperliquidSpot",
            Exchange::OkexLinear => "OkexLinear",
            Exchange::OkexInverse => "OkexInverse",
            Exchange::OkexSpot => "OkexSpot",
        }
    }

    /// The serialized text of a ticker: "Exchange:Symbol", with
    /// "|Alias" appended when a display alias is set.
    pub open spec fn ticker_text(t: Ticker) -> Seq<char> {
        exchange_label(t.exchange) + ":"@ + t.symbol@ + match t.display {
            Some(d) => "|"@ + d@,
            None => Seq::<char>::empty(),
        }
    }

    /// Serialize a ticker into its stable text form.
    pub fn ticker_to_string(t: &Ticker) -> (r: String)
        ensures
            r@ == Self::ticker_text(*t),
    {
        let mut s: String = Self::exchange_to_string(t.exchange).to_owned();
        s.append(":");
        s.append(t.symbol.as_str());
        match &t.display {
            Some(d) => {
                s.append("|");
                s.append(d.as_str());
            },
            None => {},
        }
        s
    }

    /// The venue whose stable name the text is; None for any other
    /// text.
    pub fn string_to_exchange(s: &str) -> (r: Option<Exchange>)
        ensures
            r is Some ==> s@ == exchange_label(r->0),
            r is None ==> forall|e: Exchange| s@ != exchange_label(e),
    {
        if crate::text::str_eq(s, "BinanceLinear") {
            Some(Exchange::BinanceLinear)
        } else if crate::text::str_eq(s, "BinanceInverse") {
            Some(Exchange::BinanceInverse)
        } else if crate::text::str_eq(s, "BinanceSpot") {
            Some(Exchange::BinanceSpot)
        } else if crate::text::str_eq(s, "BybitLinear") {
            Some(Exchange::BybitLinear)
        } else if crate::text::str_eq(s, "BybitInverse") {
            Some(Exchange::BybitInverse)
        } else if crate::text::str_eq(s, "BybitSpot") {
            Some(Exchange::BybitSpot)
        } else if crate::text::str_eq(s, "HyperliquidLinear") {
            Some(Exchange::HyperliquidLinear)
        } else if crate::text::str_eq(s, "HyperliquidSpot") {
            Some(Exchange::HyperliquidSpot)
        } else if crate::text::str_eq(s, "OkexLinear") {
            Some(Exchange::OkexLinear)
        } else if crate::text::str_eq(s, "OkexInverse") {
            Some(Exchange::OkexInverse)
        } else if crate::text::str_eq(s, "OkexSpot") {
            Some(Exchange::OkexSpot)
        } else {
            None
        }
    }

    /// Whether a text is the stable form of some ticker: a venue name
    /// up to the first ':', then the symbol up to the first '|' (when
    /// one follows), then the alias, both valid symbol texts.
    pub open spec fn ticker_text_parses(s: Seq<char>) -> bool {
        let i = crate::text::first_occurrence(s, ':') as int;
        if i >= s.len() {
            false
        } else {
            let rest = s.skip(i + 1);
            let j = crate::text::first_occurrence(rest, '|') as int;
            &&& exists|e: Exchange| s.take(i) == exchange_label(e)
            &&& if j >= rest.len() {
                valid_symbol_text(rest)
            } else {
                valid_symbol_text(rest.take(j)) && valid_symbol_text(rest.skip(j + 1))
            }
        }
    }

    /// Parse the stable text form back into a ticker: Some exactly on
    /// a text that parses, and the result serializes back to exactly
    /// the given text.
    pub fn ticker_from_string(s: &str) -> (r: Option<Ticker>)
        ensures
            r is Some <==> Self::ticker_text_parses(s@),
            r is Some ==> r->0.wf() && Self::ticker_text(r->0) == s@,
    {
        let n: usize = s.unicode_len();
        let mut i: usize = 0;
        while i < n && s.get_char(i) != ':'
            invariant
                0 <= i <= n,
                n == s@.len(),
                forall|k: int| 0 <= k < i ==> s@[k] != ':',
            decreases n - i,
        {
            i = i + 1;
        }
        proof {
            crate::text::lemma_first_occurrence_unique(s@, ':', i as int);
        }
        if i == n {
            return None;
        }
        let ghost rest = s@.skip(i + 1);
        let ex_str: &str = s.substring_char(0, i);
        proof {
            assert(ex_str@ =~= s@.take(i as int));
        }
        let exchange: Exchange = match Self::string_to_exchange(ex_str) {
            Some(e) => e,
            None => {
                proof {
                    assert(!(exists|e: Exchange| s@.take(i as int) == exchange_label(e)));
                }
                return None;
            },
        };
        let mut j: usize = i + 1;
        while j < n && s.get_char(j) != '|'
            invariant
                i + 1 <= j <= n,
                n == s@.len(),
                forall|k: int| i + 1 <= k < j ==> s@[k] != '|',
            decreases n - j,
        {
            j = j + 1;
        }
        proof {
            assert(rest.len() == n - (i + 1));
            assert(forall|k: int| 0 <= k < rest.len() ==> rest[k] == s@[k + i + 1]);
            crate::text::lemma_first_occurrence_unique(rest, '|', j - (i + 1));
        }
        let sym: &str = s.substring_char(i + 1, j);
        proof {
            if j < n {
                assert(sym@ =~= rest.take(j - (i + 1)));
            } else {
                assert(sym@ =~= rest);
            }
        }
        if !symbol_is_valid(sym) {
            return None;
        }
        if j < n {
            let d: &str = s.substring_char(j + 1, n);
            proof {
                assert(d@ =~= rest.skip(j - (i + 1) + 1));
            }
            if !symbol_is_valid(d) {
                return None;
            }
            let t: Ticker = Ticker::new_with_display(sym, exchange, Some(d));
            proof {
                reveal_strlit(":");
                reveal_strlit("|");
                assert(":"@ =~= seq![':']);
                assert("|"@ =~= seq!['|']);
                assert(s@[i as int] == ':');
                assert(s@[j as int] == '|');
                assert(Self::ticker_text(t) =~= s@);
                assert(Self::ticker_text_parses(s@)) by {
                    let ew: Exchange = exchange;
                    assert(s@.take(i as int) == exchange_label(ew));
                }
            }
            Some(t)
        } else {
            let t: Ticker = Ticker::new(sym, exchange);
            proof {
                reveal_strlit(":");
                assert(":"@ =~= seq![':']);
                assert(s@[i as int] == ':');
                assert(Self::ticker_text(t) =~= s@);
                assert(Self::ticker_text_parses(s@)) by {
                    let ew: Exchange = exchange;
                    assert(s@.take(i as int) == exchange_label(ew));
                }
            }
            Some(t)
        }
    }
}

/// Immutable metadata for one instrument: its identifier, minimum tick
/// size, minimum order quantity, and (for contract markets) the
/// contract size. Fetched once per session and read-only thereafter.
#[derive(Debug, Clone)]
pub struct TickerInfo {
    pub ticker: Ticker,
    pub min_ticksize: crate::numeric::MinTicksize,
    pub min_qty: crate::numeric::MinQtySize,
    pub contract_size: Option<crate::numeric::ContractSize>,
}

impl PartialEq for TickerInfo {
    fn eq(&self, other: &TickerInfo) -> (r: bool) {
        self.ticker == other.ticker && self.min_ticksize == other.min_ticksize && self.min_qty
            == other.min_qty && self.contract_size == other.contract_size
    }
}

impl vstd::std_specs::cmp::PartialEqSpecImpl for TickerInfo {
    open spec fn obeys_eq_spec() -> bool {
        true
    }

    open spec fn eq_spec(&self, other: &TickerInfo) -> bool {
        &&& self.ticker.exchange == other.ticker.exchange
        &&& self.ticker.symbol@ == other.ticker.symbol@
        &&& self.min_ticksize == other.min_ticksize
        &&& self.min_qty == other.min_qty
        &&& self.contract_size == other.contract_size
    }
}

impl Eq for TickerInfo {

}

impl TickerInfo {
    pub fn new(
        ticker: Ticker,
        min_ticksize: crate::numeric::MinTicksize,
        min_qty: crate::numeric::MinQtySize,
        contract_size: Option<crate::numeric::ContractSize>,
    ) -> (r: TickerInfo)
        ensures
            r.ticker == ticker,
            r.min_ticksize == min_ticksize,
            r.min_qty == min_qty,
            r.contract_size == contract_size,
    {
        TickerInfo { ticker, min_ticksize, min_qty, contract_size }
    }

    pub fn market_type(&self) -> (r: MarketKind)
        ensures
            r == self.ticker.exchange.market_type_spec(),
    {
        self.ticker.market_type()
    }

    /// Whether the instrument is a perpetual contract of either kind.
    pub fn is_perps(&self) -> (r: bool)
        ensures
            r == (self.ticker.exchange.market_type_spec() == MarketKind::LinearPerps
                || self.ticker.exchange.market_type_spec() == MarketKind::InversePerps),
    {
        let market_type: MarketKind = self.ticker.market_type();
        market_type == MarketKind::LinearPerps || market_type == MarketKind::InversePerps
    }

    pub fn exchange(&self) -> (r: Exchange)
        ensures
            r == self.ticker.exchange,
    {
        self.ticker.exchange
    }
}

/// One executed trade, normalized.
#[derive(Debug, Clone, Copy, PartialEq, Eq, Structural)]
pub struct Trade {
    pub time: u64,
    pub is_sell: bool,
    pub price: crate::numeric::Price,
    pub qty: crate::numeric::Qty,
}

/// A (buy, sell) volume pair.
#[derive(Debug, Clone, Copy, PartialEq, Eq, Structural)]
pub struct VolumePair {
    pub buy: crate::numeric::Qty,
    pub sell: crate::numeric::Qty,
}

/// One candle, normalized.
#[derive(Debug, Clone, Copy, PartialEq, Eq, Structural)]
pub struct Kline {
    pub time: u64,
    pub open: crate::numeric::Price,
    pub high: crate::numeric::Price,
    pub low: crate::numeric::Price,
    pub close: crate::numeric::Price,
    pub volume: VolumePair,
}

impl Kline {
    /// Build a candle, rounding every price to the instrument's
    /// minimum tick.
    pub fn new(
        time: u64,
        open: crate::numeric::Price,
        high: crate::numeric::Price,
        low: crate::numeric::Price,
        close: crate::numeric::Price,
        volume: VolumePair,
        min_ticksize: crate::numeric::MinTicksize,
    ) -> (r: Kline)
        requires
            min_ticksize.wf(),
            i64::MIN + 20_000_000_000 <= open.units <= i64::MAX - 5_000_000_000,
            i64::MIN + 20_000_000_000 <= high.units <= i64::MAX - 5_000_000_000,
            i64::MIN + 20_000_000_000 <= low.units <= i64::MAX - 5_000_000_000,
            i64::MIN + 20_000_000_000 <= close.units <= i64::MAX - 5_000_000_000,
        ensures
            r.time == time,
            r.volume == volume,
            r.open == crate::depth::tick_rounded(open, min_ticksize),
            r.high == crate::depth::tick_rounded(high, min_ticksize),
            r.low == crate::depth::tick_rounded(low, min_ticksize),
            r.close == crate::depth::tick_rounded(close, min_ticksize),
            kline_on_tick(r, min_ticksize),
    {
        let r = Kline {
            time,
            open: open.round_to_min_tick(min_ticksize),
            high: high.round_to_min_tick(min_ticksize),
            low: low.round_to_min_tick(min_ticksize),
            close: close.round_to_min_tick(min_ticksize),
            volume,
        };
        proof {
            crate::depth::lemma_tick_rounded_on_tick(open, min_ticksize);
            crate::depth::lemma_tick_rounded_on_tick(high, min_ticksize);
            crate::depth::lemma_tick_rounded_on_tick(low, min_ticksize);
            crate::depth::lemma_tick_rounded_on_tick(close, min_ticksize);
        }
        r
    }
}

/// All four prices of a candle sit on the instrument's tick grid.
pub open spec fn kline_on_tick(k: Kline, t: crate::numeric::MinTicksize) -> bool {
    &&& crate::depth::on_tick(k.open, t)
    &&& crate::depth::on_tick(k.high, t)
    &&& crate::depth::on_tick(k.low, t)
    &&& crate::depth::on_tick(k.close, t)
}

/// Daily statistics for one instrument. The price change is a
/// fixed-point percentage in atomic units.
#[derive(Debug, Clone, Copy, PartialEq, Eq, Structural)]
pub struct TickerStats {
    pub mark_price: crate::numeric::Price,
    pub daily_price_chg: crate::numeric::Price,
    pub daily_volume: crate::numeric::Qty,
}

/// One open-interest observation.
#[derive(Debug, Clone, Copy, PartialEq, Eq, Structural)]
pub struct OpenInterest {
    pub time: u64,
    pub value: crate::numeric::Qty,
}

/// How the depth feed is aggregated: on this side, or by the venue at
/// a requested multiplier.
#[derive(Debug, Clone, Copy, PartialEq, Eq, Hash, Structural)]
pub enum StreamTicksize {
    Client,
    ServerSide(TickMultiplier),
}

/// The identity of one stream of events.
#[derive(Debug, Clone)]
pub enum StreamKind {
    DepthAndTrades { ticker_info: TickerInfo, depth_aggr: StreamTicksize, push_freq: PushFrequency },
    Kline { ticker_info: TickerInfo, timeframe: Timeframe },
}

/// Streams that read one instrument or several over one transport.
pub enum StreamPairKind {
    SingleSource(TickerInfo),
    MultiSource(Vec<TickerInfo>),
}

/// What can go wrong between a venue and the model.
#[derive(Debug, Clone, PartialEq, Eq)]
pub enum AdapterError {
    /// A network fetch failed; the text carries the cause.
    FetchError(String),
    /// A payload did not have the expected shape.
    ParseError(String),
    /// The streaming transport failed.
    WebsocketError(String),
    /// The request itself was not valid for the venue.
    InvalidRequest(String),
}

/// The only thing consumers ever observe from a connection.
#[derive(Debug)]
pub enum Event {
    Connected(Exchange),
    Disconnected(Exchange, String),
    DepthReceived(StreamKind, u64, crate::depth::Depth, Vec<Trade>),
    KlineReceived(StreamKind, Kline),
}

} // verus!
