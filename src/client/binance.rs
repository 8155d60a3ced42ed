//! The Binance exchange: its host, credentials and route table.
use vstd::prelude::*;

use crate::apis::spot::Spot;
use crate::apis::{ToUrl, API};
use crate::client::{RequestData, RequestSigned};
use crate::error::ExbotError;

verus! {

/// Connection settings of a Binance account.
#[derive(Debug, Clone)]
pub struct Client {
    host: String,
    api_key: String,
    secret_key: String,
}

/// The path that Binance serves a spot operation under.
pub open spec fn spot_path(route: Spot) -> Seq<char> {
    match route {
        Spot::Ping => "/api/v3/ping"@,
        Spot::Time => "/api/v3/time"@,
        Spot::ExchangeInfo => "/api/v3/exchangeInfo"@,
        Spot::Depth => "/api/v3/depth"@,
        Spot::Trades => "/api/v3/trades"@,
        Spot::HistoricalTrades => "/api/v3/historicalTrades"@,
        Spot::AggTrades => "/api/v3/aggTrades"@,
        Spot::Klines => "/api/v3/klines"@,
        Spot::AvgPrice => "/api/v3/avgPrice"@,
        Spot::UiKlines => "/api/v3/uiKlines"@,
        Spot::Ticker24hr => "/api/v3/ticker/24hr"@,
        Spot::TickerPrice => "/api/v3/ticker/price"@,
        Spot::TickerBookTicker => "/api/v3/ticker/bookTicker"@,
        Spot::Ticker => "/api/v3/ticker"@,
        Spot::OrderTest => "/api/v3/order/test"@,
        Spot::Order => "/api/v3/order"@,
        Spot::OpenOrders => "/api/v3/openOrders"@,
        Spot::OrderCancelReplace => "/api/v3/orderCancelReplace"@,
        Spot::AllOrders => "/api/v3/allOrders"@,
        Spot::OrderOco => "/api/v3/order/oco"@,
        Spot::OrderList => "/api/v3/orderList"@,
        Spot::AllOrderList => "/api/v3/allOrderList"@,
        Spot::OpenOrderList => "/api/v3/openOrderList"@,
        Spot::Account => "/api/v3/account"@,
        Spot::MyTrades => "/api/v3/myTrades"@,
        Spot::RateLimitOrder => "/api/v3/rateLimitOrder"@,
        Spot::UserDataStream => "/api/v3/userDataStream"@,
    }
}

/// The path of an operation in Binance's route table.
pub open spec fn api_path(api: API) -> Seq<char> {
    match api {
        API::Spot(route) => spot_path(route),
    }
}

/// Looks up the path of a spot operation.
pub fn spot_route(route: Spot) -> (r: &'static str)
    ensures
        r@ == spot_path(route),
{
    match route {
        Spot::Ping => "/api/v3/ping",
        Spot::Time => "/api/v3/time",
        Spot::ExchangeInfo => "/api/v3/exchangeInfo",
        Spot::Depth => "/api/v3/depth",
        Spot::Trades => "/api/v3/trades",
        Spot::HistoricalTrades => "/api/v3/historicalTrades",
        Spot::AggTrades => "/api/v3/aggTrades",
        Spot::Klines => "/api/v3/klines",
        Spot::AvgPrice => "/api/v3/avgPrice",
        Spot::UiKlines => "/api/v3/uiKlines",
        Spot::Ticker24hr => "/api/v3/ticker/24hr",
        Spot::TickerPrice => "/api/v3/ticker/price",
        Spot::TickerBookTicker => "/api/v3/ticker/bookTicker",
        Spot::Ticker => "/api/v3/ticker",
        Spot::OrderTest => "/api/v3/order/test",
        Spot::Order => "/api/v3/order",
        Spot::OpenOrders => "/api/v3/openOrders",
        Spot::OrderCancelReplace => "/api/v3/orderCancelReplace",
        Spot::AllOrders => "/api/v3/allOrders",
        Spot::OrderOco => "/api/v3/order/oco",
        Spot::OrderList => "/api/v3/orderList",
        Spot::AllOrderList => "/api/v3/allOrderList",
        Spot::OpenOrderList => "/api/v3/openOrderList",
        Spot::Account => "/api/v3/account",
        Spot::MyTrades => "/api/v3/myTrades",
        Spot::RateLimitOrder => "/api/v3/rateLimitOrder",
        Spot::UserDataStream => "/api/v3/userDataStream",
    }
}

impl Client {
    pub fn new(host: &str, api_key: &str, secret_key: &str) -> (r: Self)
        ensures
            r.host_view() == host@,
            r.api_key_view() == api_key@,
            r.secret_key_view() == secret_key@,
    {
        Client { host: host.to_owned(), api_key: api_key.to_owned(), secret_key: secret_key.to_owned() }
    }

    pub closed spec fn host_view(&self) -> Seq<char> {
        self.host@
    }

    pub closed spec fn api_key_view(&self) -> Seq<char> {
        self.api_key@
    }

    pub closed spec fn secret_key_view(&self) -> Seq<char> {
        self.secret_key@
    }

    /// The host that every URL starts with.
    pub fn host(&self) -> (r: &str)
        ensures
            r@ == self.host_view(),
    {
        self.host.as_str()
    }
}

impl Default for Client {
    fn default() -> (r: Self)
        ensures
            r.host_view() == "https://api.binance.com"@,
            r.api_key_view() == Seq::<char>::empty(),
            r.secret_key_view() == Seq::<char>::empty(),
    {
        Client {
            host: "https://api.binance.com".to_owned(),
            api_key: String::new(),
            secret_key: String::new(),
        }
    }
}

impl ToUrl for Client {
    open spec fn url_of(&self, api: API) -> Seq<char> {
        self.host_view() + api_path(api)
    }

    fn to_url(&self, api: API) -> (r: String) {
        let path = match api {
            API::Spot(route) => spot_route(route),
        };
        let mut url = self.host.clone();
        url.append(path);
        url
    }
}

impl RequestSigned for Client {
    /// Binance's signature scheme is not provided.
    open spec fn can_sign(&self) -> bool {
        false
    }

    /// Binance's signature scheme is not provided: signing always fails.
    fn signed(&self) -> (r: Result<RequestData, ExbotError>) {
        Err(ExbotError::Error("request signing is not supported for binance".to_owned()))
    }
}

/// Tells a spot path back from its length and three of its characters.
spec fn spot_of_path(p: Seq<char>) -> Spot {
    if p.len() == 12 {
        if p[8] == 'p' { Spot::Ping } else { Spot::Time }
    } else if p.len() == 13 {
        if p[8] == 'd' { Spot::Depth } else { Spot::Order }
    } else if p.len() == 14 {
        if p[8] == 'k' { Spot::Klines } else if p[9] == 'r' { Spot::Trades } else { Spot::Ticker }
    } else if p.len() == 15 {
        Spot::Account
    } else if p.len() == 16 {
        if p[8] == 'a' { Spot::AvgPrice } else if p[8] == 'u' { Spot::UiKlines } else { Spot::MyTrades }
    } else if p.len() == 17 {
        if p[9] == 'g' {
            Spot::AggTrades
        } else if p[9] == 'l' {
            Spot::AllOrders
        } else if p[13] == '/' {
            Spot::OrderOco
        } else {
            Spot::OrderList
        }
    } else if p.len() == 18 {
        if p[9] == 'r' { Spot::OrderTest } else { Spot::OpenOrders }
    } else if p.len() == 19 {
        Spot::Ticker24hr
    } else if p.len() == 20 {
        if p[8] == 'e' {
            Spot::ExchangeInfo
        } else if p[8] == 't' {
            Spot::TickerPrice
        } else {
            Spot::AllOrderList
        }
    } else if p.len() == 21 {
        Spot::OpenOrderList
    } else if p.len() == 22 {
        if p[8] == 'r' { Spot::RateLimitOrder } else { Spot::UserDataStream }
    } else if p.len() == 24 {
        Spot::HistoricalTrades
    } else if p.len() == 25 {
        Spot::TickerBookTicker
    } else {
        Spot::OrderCancelReplace
    }
}

proof fn lemma_spot_path_inverse(a: Spot)
    ensures
        spot_path(a).len() > 0,
        spot_of_path(spot_path(a)) == a,
{
    reveal_strlit("/api/v3/ping");
    reveal_strlit("/api/v3/time");
    reveal_strlit("/api/v3/exchangeInfo");
    reveal_strlit("/api/v3/depth");
    reveal_strlit("/api/v3/trades");
    reveal_strlit("/api/v3/historicalTrades");
    reveal_strlit("/api/v3/aggTrades");
    reveal_strlit("/api/v3/klines");
    reveal_strlit("/api/v3/avgPrice");
    reveal_strlit("/api/v3/uiKlines");
    reveal_strlit("/api/v3/ticker/24hr");
    reveal_strlit("/api/v3/ticker/price");
    reveal_strlit("/api/v3/ticker/bookTicker");
    reveal_strlit("/api/v3/ticker");
    reveal_strlit("/api/v3/order/test");
    reveal_strlit("/api/v3/order");
    reveal_strlit("/api/v3/openOrders");
    reveal_strlit("/api/v3/orderCancelReplace");
    reveal_strlit("/api/v3/allOrders");
    reveal_strlit("/api/v3/order/oco");
    reveal_strlit("/api/v3/orderList");
    reveal_strlit("/api/v3/allOrderList");
    reveal_strlit("/api/v3/openOrderList");
    reveal_strlit("/api/v3/account");
    reveal_strlit("/api/v3/myTrades");
    reveal_strlit("/api/v3/rateLimitOrder");
    reveal_strlit("/api/v3/userDataStream");
}

/// Every spot operation has a non-empty path, and distinct operations have
/// distinct paths.
pub proof fn lemma_spot_paths_distinct(a: Spot, b: Spot)
    ensures
        spot_path(a).len() > 0,
        a != b ==> spot_path(a) != spot_path(b),
{
    lemma_spot_path_inverse(a);
    lemma_spot_path_inverse(b);
}

/// Resolving against Binance gives a non-empty URL for every operation, and
/// different URLs for different operations.
pub proof fn lemma_binance_urls_distinct(c: Client, a: API, b: API)
    ensures
        c.url_of(a).len() > 0,
        a != b ==> c.url_of(a) != c.url_of(b),
{
    let (API::Spot(ra), API::Spot(rb)) = (a, b);
    lemma_spot_paths_distinct(ra, rb);
    let h = c.host_view();
    if a != b {
        assert(c.url_of(a).subrange(h.len() as int, c.url_of(a).len() as int) =~= spot_path(ra));
        assert(c.url_of(b).subrange(h.len() as int, c.url_of(b).len() as int) =~= spot_path(rb));
    }
}

} // verus!
