//! Spot market operations.
use vstd::prelude::*;

verus! {

/// The operations of the spot market.
#[derive(Debug, Clone, Copy, PartialEq, Eq, Structural)]
pub enum Spot {
    Ping,
    Time,
    ExchangeInfo,
    Depth,
    Trades,
    HistoricalTrades,
    AggTrades,
    Klines,
    AvgPrice,
    UiKlines,
    Ticker24hr,
    TickerPrice,
    TickerBookTicker,
    Ticker,
    OrderTest,
    Order,
    OpenOrders,
    OrderCancelReplace,
    AllOrders,
    OrderOco,
    OrderList,
    AllOrderList,
    OpenOrderList,
    Account,
    MyTrades,
    RateLimitOrder,
    UserDataStream,
}

} // verus!
