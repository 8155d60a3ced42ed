//! Ingestion: decoded candlesticks become one insert statement for the
//! storage backend.
use vstd::prelude::*;

use crate::apis::kline::{binance_row_ok, decode_rows, DecodeMode, Kline};
use crate::client::binance;
use crate::error::ExbotError;
use crate::json::JsonValue;
use crate::storage::cresedb::KLINES_TABLE;
use crate::storage::Storage;

verus! {

/// The character of a decimal digit.
pub open spec fn digit_char(d: nat) -> char {
    if d == 0 {
        '0'
    } else if d == 1 {
        '1'
    } else if d == 2 {
        '2'
    } else if d == 3 {
        '3'
    } else if d == 4 {
        '4'
    } else if d == 5 {
        '5'
    } else if d == 6 {
        '6'
    } else if d == 7 {
        '7'
    } else if d == 8 {
        '8'
    } else {
        '9'
    }
}

/// The decimal text of a number, without leading zeros.
pub open spec fn decimal(n: nat) -> Seq<char>
    decreases n,
{
    if n < 10 {
        seq![digit_char(n)]
    } else {
        decimal(n / 10).push(digit_char(n % 10))
    }
}

/// The text of a string literal's body: each quote doubled.
pub open spec fn escaped(s: Seq<char>) -> Seq<char>
    decreases s.len(),
{
    if s.len() == 0 {
        Seq::empty()
    } else if s.last() == '\'' {
        escaped(s.drop_last()) + seq!['\'', '\'']
    } else {
        escaped(s.drop_last()).push(s.last())
    }
}

/// A string literal holding `s`.
pub open spec fn quoted(s: Seq<char>) -> Seq<char> {
    seq!['\''] + escaped(s) + seq!['\'']
}

/// The start of the statement that inserts candlesticks.
pub open spec fn insert_head() -> Seq<char> {
    "INSERT INTO exbot_klines (t, symbol, interval, open_time, open_price, high_price, low_price, close_price, volume, close_time, quote_volume, trades_number, taker_buy_base_volume, taker_buy_quote_volume) VALUES "@
}

/// The parenthesised values of one candlestick; its timestamp is its open time.
pub open spec fn kline_values<C>(symbol: Seq<char>, interval: Seq<char>, k: Kline<C>) -> Seq<char> {
    "("@ + decimal(k.open_time as nat) + ", "@ + quoted(symbol) + ", "@ + quoted(interval) + ", "@
        + decimal(k.open_time as nat) + ", "@ + quoted(k.open_price@) + ", "@ + quoted(
        k.high_price@,
    ) + ", "@ + quoted(k.low_price@) + ", "@ + quoted(k.close_price@) + ", "@ + quoted(
        k.volume@,
    ) + ", "@ + decimal(k.close_time as nat) + ", "@ + quoted(k.quote_volume@) + ", "@ + decimal(
        k.trades_number as nat,
    ) + ", "@ + quoted(k.taker_buy_base_volume@) + ", "@ + quoted(k.taker_buy_quote_volume@)
        + ")"@
}

/// The values of the candlesticks, in order, separated by commas.
pub open spec fn values_list<C>(symbol: Seq<char>, interval: Seq<char>, ks: Seq<Kline<C>>) -> Seq<
    char,
>
    decreases ks.len(),
{
    if ks.len() == 0 {
        Seq::empty()
    } else if ks.len() == 1 {
        kline_values(symbol, interval, ks[0])
    } else {
        values_list(symbol, interval, ks.drop_last()) + ", "@ + kline_values(
            symbol,
            interval,
            ks.last(),
        )
    }
}

/// The statement that inserts the candlesticks `ks` of `symbol` at
/// `interval`.
pub open spec fn insert_sql<C>(symbol: Seq<char>, interval: Seq<char>, ks: Seq<Kline<C>>) -> Seq<
    char,
> {
    insert_head() + values_list(symbol, interval, ks)
}

fn digit_text(d: u64) -> (r: &'static str)
    requires
        d < 10,
    ensures
        r@ == seq![digit_char(d as nat)],
{
    proof {
        reveal_strlit("0");
        reveal_strlit("1");
        reveal_strlit("2");
        reveal_strlit("3");
        reveal_strlit("4");
        reveal_strlit("5");
        reveal_strlit("6");
        reveal_strlit("7");
        reveal_strlit("8");
        reveal_strlit("9");
    }
    let r = if d == 0 {
        "0"
    } else if d == 1 {
        "1"
    } else if d == 2 {
        "2"
    } else if d == 3 {
        "3"
    } else if d == 4 {
        "4"
    } else if d == 5 {
        "5"
    } else if d == 6 {
        "6"
    } else if d == 7 {
        "7"
    } else if d == 8 {
        "8"
    } else {
        "9"
    };
    assert(r@ =~= seq![digit_char(d as nat)]);
    r
}

/// Writes a number in decimal.
pub fn decimal_text(n: u64) -> (r: String)
    ensures
        r@ == decimal(n as nat),
    decreases n,
{
    if n < 10 {
        digit_text(n).to_owned()
    } else {
        let mut s = decimal_text(n / 10);
        s.append(digit_text(n % 10));
        s
    }
}

/// Writes `s` as a string literal of the statement.
pub fn quote(s: &str) -> (r: String)
    ensures
        r@ == quoted(s@),
{
    let n = s.unicode_len();
    let mut out = "'".to_owned();
    proof {
        reveal_strlit("'");
        assert(out@ =~= seq!['\''] + escaped(s@.subrange(0, 0)));
    }
    let mut i: usize = 0;
    while i < n
        invariant
            n == s@.len(),
            i <= n,
            out@ == seq!['\''] + escaped(s@.subrange(0, i as int)),
        decreases n - i,
    {
        let c = s.get_char(i);
        let ghost before = out@;
        let ghost sub = s@.subrange(0, i + 1);
        proof {
            assert(sub.drop_last() =~= s@.subrange(0, i as int));
            assert(sub.last() == c);
        }
        if c == '\'' {
            out.append("''");
            proof {
                reveal_strlit("''");
                assert("''"@ =~= seq!['\'', '\'']);
                assert(out@ =~= seq!['\''] + escaped(sub));
            }
        } else {
            let one = s.substring_char(i, i + 1);
            out.append(one);
            proof {
                assert(one@ =~= seq![c]);
                assert(out@ =~= seq!['\''] + escaped(sub));
            }
        }
        i = i + 1;
    }
    out.append("'");
    proof {
        reveal_strlit("'");
        assert(s@.subrange(0, n as int) =~= s@);
    }
    out
}

/// Writes the values of one candlestick.
fn kline_values_text<C>(symbol: &str, interval: &str, k: &Kline<C>) -> (r: String)
    ensures
        r@ == kline_values(symbol@, interval@, *k),
{
    let mut s = "(".to_owned();
    s.append(decimal_text(k.open_time).as_str());
    s.append(", ");
    s.append(quote(symbol).as_str());
    s.append(", ");
    s.append(quote(interval).as_str());
    s.append(", ");
    s.append(decimal_text(k.open_time).as_str());
    s.append(", ");
    s.append(quote(k.open_price.as_str()).as_str());
    s.append(", ");
    s.append(quote(k.high_price.as_str()).as_str());
    s.append(", ");
    s.append(quote(k.low_price.as_str()).as_str());
    s.append(", ");
    s.append(quote(k.close_price.as_str()).as_str());
    s.append(", ");
    s.append(quote(k.volume.as_str()).as_str());
    s.append(", ");
    s.append(decimal_text(k.close_time).as_str());
    s.append(", ");
    s.append(quote(k.quote_volume.as_str()).as_str());
    s.append(", ");
    s.append(decimal_text(k.trades_number).as_str());
    s.append(", ");
    s.append(quote(k.taker_buy_base_volume.as_str()).as_str());
    s.append(", ");
    s.append(quote(k.taker_buy_quote_volume.as_str()).as_str());
    s.append(")");
    s
}

/// Writes the statement that inserts `klines` of `symbol` at `interval`.
pub fn kline_insert_sql<C>(symbol: &str, interval: &str, klines: &Vec<Kline<C>>) -> (r: String)
    ensures
        r@ == insert_sql(symbol@, interval@, klines@),
{
    let mut s = "INSERT INTO exbot_klines (t, symbol, interval, open_time, open_price, high_price, low_price, close_price, volume, close_time, quote_volume, trades_number, taker_buy_base_volume, taker_buy_quote_volume) VALUES ".to_owned();
    let mut i: usize = 0;
    while i < klines.len()
        invariant
            i <= klines.len(),
            s@ == insert_head() + values_list(symbol@, interval@, klines@.subrange(0, i as int)),
        decreases klines.len() - i,
    {
        proof {
            let next = klines@.subrange(0, i + 1);
            assert(next.drop_last() =~= klines@.subrange(0, i as int));
            assert(next.last() == klines@[i as int]);
            if i == 0 {
                assert(next[0] == klines@[0]);
            }
        }
        if i > 0 {
            s.append(", ");
        }
        s.append(kline_values_text(symbol, interval, &klines[i]).as_str());
        proof {
            if i == 0 {
                assert(values_list(symbol@, interval@, klines@.subrange(0, 0)) =~= Seq::<char>::empty());
            }
        }
        i = i + 1;
    }
    proof {
        assert(klines@.subrange(0, klines.len() as int) =~= klines@);
    }
    s
}

/// Decodes a candlestick response of `symbol` at `interval` in the given
/// mode and stores the records in `storage` with one insert statement (none
/// where the response is empty). Gives the decoded records, in the order of
/// the rows. A row rejected in strict mode gives the decoding error and
/// stores nothing; otherwise an error can only come from the storage call,
/// which is made only where there are rows.
pub fn ingest_klines<S: Storage>(
    storage: &S,
    symbol: &str,
    interval: &str,
    rows: &Vec<Vec<JsonValue>>,
    mode: DecodeMode,
) -> (r: Result<Vec<Kline<binance::Client>>, ExbotError>)
    ensures
        r matches Ok(ks) ==> {
            &&& ks.len() == rows.len()
            &&& forall|i: int| 0 <= i < ks.len() ==> (#[trigger] ks[i]).decodes_binance(rows[i]@)
        },
        (mode == DecodeMode::Strict && (exists|i: int|
            0 <= i < rows.len() && !binance_row_ok(#[trigger] rows[i]@))) ==> r matches Err(
            ExbotError::SerdeJson(_),
        ),
        rows@.len() == 0 ==> (r matches Ok(ks) && ks.len() == 0),
        r is Err ==> rows@.len() > 0,
{
    let klines = match decode_rows(rows, mode) {
        Ok(klines) => klines,
        Err(e) => return Err(e),
    };
    if klines.len() > 0 {
        let sql = kline_insert_sql(symbol, interval, &klines);
        match storage.query(vec![KLINES_TABLE.to_owned()], sql) {
            Ok(_) => {},
            Err(e) => return Err(e),
        }
    }
    Ok(klines)
}

} // verus!
