use exbot::apis::kline::{decode_klines, decode_rows, kline_request, DecodeMode, Kline};
use exbot::apis::spot::Spot;
use exbot::apis::API;
use exbot::client::{binance, Client, Method};
use exbot::error::ExbotError;
use exbot::json::JsonValue;

fn text(s: &str) -> JsonValue {
    JsonValue::Str(s.to_string())
}

fn row(open_time: u64) -> Vec<JsonValue> {
    vec![
        JsonValue::PosInt(open_time),
        text("0.01634790"),
        text("0.80000000"),
        text("0.01575800"),
        text("0.01577100"),
        text("148976.11427815"),
        JsonValue::PosInt(open_time + 59_999),
        text("2434.19055334"),
        JsonValue::PosInt(308),
        text("1756.87402397"),
        text("28.46694368"),
        text("0"),
    ]
}

#[test]
fn kline_should_work() {
    let request_data = exbot::client::RequestData::default()
        .add_query(("symbol", "NEARUSDT"))
        .add_query(("interval", "1m"))
        .add_query(("limit", "5"));
    let request = Client::new(binance::Client::default()).get(API::Spot(Spot::Klines), request_data);
    assert_eq!(request.method, Method::Get);
    assert_eq!(request.url, "https://api.binance.com/api/v3/klines");
    assert_eq!(
        request.query,
        vec![("symbol", "NEARUSDT"), ("interval", "1m"), ("limit", "5")]
    );
    // the exchange's answer: five rows
    let response: Vec<Vec<JsonValue>> = (0..5u64).map(|i| row(1_499_040_000_000 + i * 60_000)).collect();
    let data = response
        .into_iter()
        .map(|v| v.try_into().unwrap())
        .collect::<Vec<Kline<binance::Client>>>();
    assert_eq!(data.len(), 5);
}

#[test]
fn ingestion_keeps_five_rows_in_order() {
    let request = Client::new(binance::Client::default())
        .get(API::Spot(Spot::Klines), kline_request("NEARUSDT", "1m", "5"));
    assert_eq!(request.url, "https://api.binance.com/api/v3/klines");
    assert_eq!(
        request.query,
        vec![("symbol", "NEARUSDT"), ("interval", "1m"), ("limit", "5")]
    );
    assert!(request.headers.is_empty());
    let rows: Vec<Vec<JsonValue>> = (0..5u64).map(|i| row(1_499_040_000_000 + i * 60_000)).collect();
    let klines = decode_klines(&rows);
    assert_eq!(klines.len(), 5);
    for (i, k) in klines.iter().enumerate() {
        assert_eq!(k.open_time, 1_499_040_000_000 + i as u64 * 60_000);
        assert_eq!(k.close_time, k.open_time + 59_999);
    }
    for w in klines.windows(2) {
        assert!(w[0].open_time < w[1].open_time);
    }
}

#[test]
fn full_row_decodes_every_field() {
    let k = Kline::<binance::Client>::from_row(&row(1_499_040_000_000));
    assert_eq!(k.open_time, 1_499_040_000_000);
    assert_eq!(k.open_price, "0.01634790");
    assert_eq!(k.high_price, "0.80000000");
    assert_eq!(k.low_price, "0.01575800");
    assert_eq!(k.close_price, "0.01577100");
    assert_eq!(k.volume, "148976.11427815");
    assert_eq!(k.close_time, 1_499_040_059_999);
    assert_eq!(k.quote_volume, "2434.19055334");
    assert_eq!(k.trades_number, 308);
    assert_eq!(k.taker_buy_base_volume, "1756.87402397");
    assert_eq!(k.taker_buy_quote_volume, "28.46694368");
}

#[test]
fn short_row_defaults_missing_fields() {
    let mut r = row(7);
    r.truncate(3);
    let k: Kline<binance::Client> = r.try_into().unwrap();
    assert_eq!(k.open_time, 7);
    assert_eq!(k.open_price, "0.01634790");
    assert_eq!(k.high_price, "0.80000000");
    assert_eq!(k.low_price, "");
    assert_eq!(k.close_time, 0);
    assert_eq!(k.trades_number, 0);
    assert_eq!(k.taker_buy_quote_volume, "");
}

#[test]
fn empty_row_gives_all_defaults() {
    let k = Kline::<binance::Client>::from_row(&vec![]);
    assert_eq!(k.open_time, 0);
    assert_eq!(k.open_price, "");
    assert_eq!(k.close_time, 0);
    assert_eq!(k.trades_number, 0);
    assert_eq!(k.taker_buy_base_volume, "");
}

#[test]
fn mistyped_values_default_only_their_fields() {
    let mut r = row(42);
    r[0] = text("42");
    r[2] = JsonValue::PosInt(5);
    r[6] = JsonValue::NegInt(-1);
    r[8] = JsonValue::Float("308.5".to_string());
    r[9] = JsonValue::Null;
    r[10] = JsonValue::Bool(true);
    let k = Kline::<binance::Client>::from_row(&r);
    assert_eq!(k.open_time, 0);
    assert_eq!(k.open_price, "0.01634790");
    assert_eq!(k.high_price, "");
    assert_eq!(k.low_price, "0.01575800");
    assert_eq!(k.close_time, 0);
    assert_eq!(k.quote_volume, "2434.19055334");
    assert_eq!(k.trades_number, 0);
    assert_eq!(k.taker_buy_base_volume, "");
    assert_eq!(k.taker_buy_quote_volume, "");
}

#[test]
fn nested_values_are_mistyped() {
    let mut r = row(1);
    r[1] = JsonValue::Array(vec![text("1")]);
    r[3] = JsonValue::Object(vec![("a".to_string(), text("1"))]);
    let k = Kline::<binance::Client>::from_row(&r);
    assert_eq!(k.open_price, "");
    assert_eq!(k.low_price, "");
    assert_eq!(k.high_price, "0.80000000");
}

#[test]
fn strict_decoding_accepts_a_full_row() {
    let k = Kline::<binance::Client>::from_row_strict(&row(9)).unwrap();
    assert_eq!(k.open_time, 9);
    assert_eq!(k.trades_number, 308);
    // exactly eleven positions are enough
    let mut r = row(9);
    r.truncate(11);
    assert!(Kline::<binance::Client>::from_row_strict(&r).is_ok());
}

#[test]
fn strict_decoding_rejects_a_short_row() {
    let mut r = row(9);
    r.truncate(10);
    let e = Kline::<binance::Client>::from_row_strict(&r).unwrap_err();
    assert!(matches!(e, ExbotError::SerdeJson(_)));
}

#[test]
fn strict_decoding_rejects_a_mistyped_value() {
    let mut r = row(9);
    r[8] = text("308");
    let e = Kline::<binance::Client>::from_row_strict(&r).unwrap_err();
    assert!(matches!(e, ExbotError::SerdeJson(_)));
    let mut r = row(9);
    r[4] = JsonValue::PosInt(1);
    assert!(Kline::<binance::Client>::from_row_strict(&r).is_err());
}

#[test]
fn json_value_readers() {
    assert_eq!(JsonValue::PosInt(3).as_u64(), Some(3));
    assert_eq!(JsonValue::NegInt(-3).as_u64(), None);
    assert_eq!(text("x").as_u64(), None);
    assert_eq!(text("x").as_text(), Some("x".to_string()));
    assert_eq!(JsonValue::PosInt(3).as_text(), None);
}

#[test]
fn decode_mode_is_an_explicit_choice() {
    let mut short = row(5);
    short.truncate(4);
    let lenient = Kline::<binance::Client>::decode(&short, DecodeMode::Lenient).unwrap();
    assert_eq!(lenient.open_time, 5);
    assert_eq!(lenient.volume, "");
    assert!(matches!(
        Kline::<binance::Client>::decode(&short, DecodeMode::Strict),
        Err(ExbotError::SerdeJson(_))
    ));
    let rows = vec![row(1), short, row(3)];
    assert_eq!(decode_rows(&rows, DecodeMode::Lenient).unwrap().len(), 3);
    assert!(decode_rows(&rows, DecodeMode::Strict).is_err());
    let good = vec![row(1), row(3)];
    assert_eq!(decode_rows(&good, DecodeMode::Strict).unwrap()[1].open_time, 3);
}
