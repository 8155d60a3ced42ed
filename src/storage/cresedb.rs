//! The schema of the CeresDB backend.
use vstd::prelude::*;

use super::schema::TableSchema;

verus! {

/// The name of the candlestick table.
pub const KLINES_TABLE: &'static str = "exbot_klines";

/// The statement that creates the candlestick table.
pub const CREATE_KLINES_TABLE: &'static str = r#"CREATE TABLE exbot_klines (
        symbol string TAG,
        interval string TAG,
        open_time uint64,
        open_price string,
        high_price string,
        low_price string,
        close_price string,
        volume string,
        close_time uint64,
        quote_volume string,
        trades_number uint64,
        taker_buy_base_volume string,
        taker_buy_quote_volume string,
        t timestamp NOT NULL,
        TIMESTAMP KEY(t)) ENGINE=Analytic with (enable_ttl='false')"#;

/// The tables that the CeresDB backend needs, in creation order.
pub fn create_tables() -> (r: Vec<TableSchema>)
    ensures
        r@.len() == 1,
        r@[0].name@ == KLINES_TABLE@,
        r@[0].create_sql@ == CREATE_KLINES_TABLE@,
{
    vec![TableSchema { name: KLINES_TABLE.to_owned(), create_sql: CREATE_KLINES_TABLE.to_owned() }]
}

} // verus!
