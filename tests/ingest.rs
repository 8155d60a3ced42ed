use std::cell::RefCell;

use exbot::apis::kline::{DecodeMode, Kline};
use exbot::client::binance;
use exbot::error::ExbotError;
use exbot::ingest::{decimal_text, ingest_klines, kline_insert_sql, quote};
use exbot::json::JsonValue;
use exbot::storage::Storage;

const HEAD: &str = "INSERT INTO exbot_klines (t, symbol, interval, open_time, open_price, high_price, low_price, close_price, volume, close_time, quote_volume, trades_number, taker_buy_base_volume, taker_buy_quote_volume) VALUES ";

struct Recorder {
    statements: RefCell<Vec<(Vec<String>, String)>>,
    fail: bool,
}

impl Storage for Recorder {
    type QueryItem = ();

    fn query(&self, metrics: Vec<String>, sql: String) -> Result<(), ExbotError> {
        self.statements.borrow_mut().push((metrics, sql));
        if self.fail {
            Err(ExbotError::Storage("write refused".to_string()))
        } else {
            Ok(())
        }
    }

    fn row_count(_item: &()) -> usize {
        0
    }
}

fn text(s: &str) -> JsonValue {
    JsonValue::Str(s.to_string())
}

fn row(open_time: u64) -> Vec<JsonValue> {
    vec![
        JsonValue::PosInt(open_time),
        text("1.5"),
        text("2.5"),
        text("0.5"),
        text("1.0"),
        text("100"),
        JsonValue::PosInt(open_time + 59_999),
        text("150"),
        JsonValue::PosInt(12),
        text("60"),
        text("90"),
    ]
}

const ONE_VALUES: &str = "(60000, 'NEARUSDT', '1m', 60000, '1.5', '2.5', '0.5', '1.0', '100', 119999, '150', 12, '60', '90')";

#[test]
fn decimal_text_writes_digits() {
    assert_eq!(decimal_text(0), "0");
    assert_eq!(decimal_text(7), "7");
    assert_eq!(decimal_text(10), "10");
    assert_eq!(decimal_text(1_499_040_000_000), "1499040000000");
    assert_eq!(decimal_text(u64::MAX), u64::MAX.to_string());
}

#[test]
fn quote_doubles_quotes() {
    assert_eq!(quote(""), "''");
    assert_eq!(quote("NEARUSDT"), "'NEARUSDT'");
    assert_eq!(quote("a'b''"), "'a''b'''''");
    assert_eq!(quote("é'"), "'é'''");
}

#[test]
fn insert_statement_for_one_and_two_klines() {
    let one = vec![Kline::<binance::Client>::from_row(&row(60_000))];
    assert_eq!(kline_insert_sql("NEARUSDT", "1m", &one), format!("{}{}", HEAD, ONE_VALUES));
    let two = vec![
        Kline::<binance::Client>::from_row(&row(60_000)),
        Kline::<binance::Client>::from_row(&vec![JsonValue::PosInt(3)]),
    ];
    assert_eq!(
        kline_insert_sql("NEARUSDT", "1m", &two),
        format!("{}{}, (3, 'NEARUSDT', '1m', 3, '', '', '', '', '', 0, '', 0, '', '')", HEAD, ONE_VALUES)
    );
    let none: Vec<Kline<binance::Client>> = vec![];
    assert_eq!(kline_insert_sql("NEARUSDT", "1m", &none), HEAD);
}

#[test]
fn ingest_stores_all_rows_in_one_statement() {
    let storage = Recorder { statements: RefCell::new(vec![]), fail: false };
    let rows: Vec<Vec<JsonValue>> = (1..=5u64).map(|i| row(i * 60_000)).collect();
    let klines = ingest_klines(&storage, "NEARUSDT", "1m", &rows, DecodeMode::Lenient).unwrap();
    assert_eq!(klines.len(), 5);
    for w in klines.windows(2) {
        assert!(w[0].open_time < w[1].open_time);
    }
    let statements = storage.statements.borrow();
    assert_eq!(statements.len(), 1);
    assert_eq!(statements[0].0, vec!["exbot_klines".to_string()]);
    assert!(statements[0].1.starts_with(HEAD));
    assert!(statements[0].1.contains(ONE_VALUES));
}

#[test]
fn ingest_of_nothing_sends_nothing() {
    let storage = Recorder { statements: RefCell::new(vec![]), fail: false };
    let klines = ingest_klines(&storage, "NEARUSDT", "1m", &vec![], DecodeMode::Strict).unwrap();
    assert!(klines.is_empty());
    assert!(storage.statements.borrow().is_empty());
}

#[test]
fn ingest_reports_a_storage_error() {
    let storage = Recorder { statements: RefCell::new(vec![]), fail: true };
    let e = ingest_klines(&storage, "NEARUSDT", "1m", &vec![row(1)], DecodeMode::Strict).unwrap_err();
    assert!(matches!(e, ExbotError::Storage(_)));
}

#[test]
fn strict_ingest_rejects_a_bad_row_and_stores_nothing() {
    let storage = Recorder { statements: RefCell::new(vec![]), fail: false };
    let mut bad = row(2);
    bad.truncate(5);
    let rows = vec![row(1), bad];
    let e = ingest_klines(&storage, "NEARUSDT", "1m", &rows, DecodeMode::Strict).unwrap_err();
    assert!(matches!(e, ExbotError::SerdeJson(_)));
    assert!(storage.statements.borrow().is_empty());
    let klines = ingest_klines(&storage, "NEARUSDT", "1m", &rows, DecodeMode::Lenient).unwrap();
    assert_eq!(klines[1].close_time, 0);
    assert_eq!(storage.statements.borrow().len(), 1);
}
