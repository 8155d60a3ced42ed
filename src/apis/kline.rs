//! Candlestick records and their decoding from positional rows.
use vstd::prelude::*;

use core::marker::PhantomData;

use crate::client::binance;
use crate::client::RequestData;
use crate::error::ExbotError;
use crate::json::{text_of, u64_of, JsonValue};

verus! {

/// The number of positions of a candlestick row that decoding reads.
pub const KLINE_FIELDS: usize = 11;

/// How decoding treats a short row or a value of the wrong type.
#[derive(Debug, Clone, Copy, PartialEq, Eq, Structural)]
pub enum DecodeMode {
    /// The field takes its default and decoding goes on.
    Lenient,
    /// The row is rejected.
    Strict,
}

/// Kline response item, tagged with the exchange it came from.
#[derive(Debug, Default)]
pub struct Kline<Client> {
    /// Kline open time
    pub open_time: u64,
    /// Open price
    pub open_price: String,
    /// High price
    pub high_price: String,
    /// Low price
    pub low_price: String,
    /// Close price
    pub close_price: String,
    /// Volume
    pub volume: String,
    /// Kline close time
    pub close_time: u64,
    /// Quote asset volume
    pub quote_volume: String,
    /// Number of trades
    pub trades_number: u64,
    /// Taker buy base asset volume
    pub taker_buy_base_volume: String,
    /// Taker buy quote asset volume
    pub taker_buy_quote_volume: String,
    /// The exchange the record came from; it carries nothing at run time.
    pub _marker: PhantomData<Client>,
}

/// The integer at position `i` of a row, or zero where the row is short or
/// the value there is not an unsigned integer.
pub open spec fn u64_at(row: Seq<JsonValue>, i: int) -> u64 {
    if 0 <= i < row.len() {
        match u64_of(row[i]) {
            Some(n) => n,
            None => 0,
        }
    } else {
        0
    }
}

/// The text at position `i` of a row, or the empty text where the row is
/// short or the value there is not a string.
pub open spec fn text_at(row: Seq<JsonValue>, i: int) -> Seq<char> {
    if 0 <= i < row.len() {
        match text_of(row[i]) {
            Some(s) => s,
            None => Seq::empty(),
        }
    } else {
        Seq::empty()
    }
}

/// Whether position `i` of a row holds a value of the type that Binance's
/// candlestick layout gives that position.
pub open spec fn binance_field_ok(row: Seq<JsonValue>, i: int) -> bool {
    &&& 0 <= i < row.len()
    &&& if i == 0 || i == 6 || i == 8 {
        u64_of(row[i]) is Some
    } else {
        text_of(row[i]) is Some
    }
}

/// A row whose eleven positions all decode.
pub open spec fn binance_row_ok(row: Seq<JsonValue>) -> bool {
    forall|i: int| 0 <= i < KLINE_FIELDS ==> #[trigger] binance_field_ok(row, i)
}

impl<C> Kline<C> {
    /// Each field holds what Binance's layout puts at its position, or the
    /// field's default where that position is missing or of another type.
    pub open spec fn decodes_binance(&self, row: Seq<JsonValue>) -> bool {
        &&& self.open_time == u64_at(row, 0)
        &&& self.open_price@ == text_at(row, 1)
        &&& self.high_price@ == text_at(row, 2)
        &&& self.low_price@ == text_at(row, 3)
        &&& self.close_price@ == text_at(row, 4)
        &&& self.volume@ == text_at(row, 5)
        &&& self.close_time == u64_at(row, 6)
        &&& self.quote_volume@ == text_at(row, 7)
        &&& self.trades_number == u64_at(row, 8)
        &&& self.taker_buy_base_volume@ == text_at(row, 9)
        &&& self.taker_buy_quote_volume@ == text_at(row, 10)
    }
}

impl<C> Kline<C> {
    /// The integer field that Binance's layout puts at position `i`.
    pub open spec fn u64_field_at(&self, i: int) -> u64 {
        if i == 0 {
            self.open_time
        } else if i == 6 {
            self.close_time
        } else {
            self.trades_number
        }
    }

    /// The text field that Binance's layout puts at position `i`.
    pub open spec fn text_field_at(&self, i: int) -> Seq<char> {
        if i == 1 {
            self.open_price@
        } else if i == 2 {
            self.high_price@
        } else if i == 3 {
            self.low_price@
        } else if i == 4 {
            self.close_price@
        } else if i == 5 {
            self.volume@
        } else if i == 7 {
            self.quote_volume@
        } else if i == 9 {
            self.taker_buy_base_volume@
        } else {
            self.taker_buy_quote_volume@
        }
    }
}

/// Of a decoded row, each of the eleven fields holds the decoded value where
/// its position is present and of the right type, and its default (zero or
/// the empty text) exactly where the position is missing or of another type.
pub proof fn lemma_decoded_fields<C>(k: Kline<C>, row: Seq<JsonValue>)
    requires
        k.decodes_binance(row),
    ensures
        forall|i: int|
            (i == 0 || i == 6 || i == 8) ==> #[trigger] k.u64_field_at(i) == if binance_field_ok(
                row,
                i,
            ) {
                u64_of(row[i])->Some_0
            } else {
                0
            },
        forall|i: int|
            0 <= i < KLINE_FIELDS && i != 0 && i != 6 && i != 8 ==> #[trigger] k.text_field_at(i)
                == if binance_field_ok(row, i) {
                text_of(row[i])->Some_0
            } else {
                Seq::<char>::empty()
            },
{
}

/// Reads the integer at position `i`, or zero.
fn u64_field(row: &Vec<JsonValue>, i: usize) -> (r: u64)
    ensures
        r == u64_at(row@, i as int),
{
    if i < row.len() {
        match row[i].as_u64() {
            Some(n) => n,
            None => 0,
        }
    } else {
        0
    }
}

/// Reads the text at position `i`, or the empty text.
fn text_field(row: &Vec<JsonValue>, i: usize) -> (r: String)
    ensures
        r@ == text_at(row@, i as int),
{
    if i < row.len() {
        match row[i].as_text() {
            Some(s) => s,
            None => String::new(),
        }
    } else {
        String::new()
    }
}

impl Kline<binance::Client> {
    /// Decodes a Binance candlestick row leniently: a missing or mistyped
    /// position leaves its field at the default, and decoding never fails.
    pub fn from_row(row: &Vec<JsonValue>) -> (r: Self)
        ensures
            r.decodes_binance(row@),
    {
        Kline {
            open_time: u64_field(row, 0),
            open_price: text_field(row, 1),
            high_price: text_field(row, 2),
            low_price: text_field(row, 3),
            close_price: text_field(row, 4),
            volume: text_field(row, 5),
            close_time: u64_field(row, 6),
            quote_volume: text_field(row, 7),
            trades_number: u64_field(row, 8),
            taker_buy_base_volume: text_field(row, 9),
            taker_buy_quote_volume: text_field(row, 10),
            _marker: PhantomData,
        }
    }

    /// Decodes a Binance candlestick row strictly: a row that is short or
    /// holds a value of the wrong type at one of its eleven positions is
    /// rejected.
    pub fn from_row_strict(row: &Vec<JsonValue>) -> (r: Result<Self, ExbotError>)
        ensures
            r is Ok <==> binance_row_ok(row@),
            r matches Ok(k) ==> k.decodes_binance(row@),
            r matches Err(e) ==> e is SerdeJson,
    {
        let mut i: usize = 0;
        while i < KLINE_FIELDS
            invariant
                i <= KLINE_FIELDS,
                forall|j: int| 0 <= j < i ==> #[trigger] binance_field_ok(row@, j),
            decreases KLINE_FIELDS - i,
        {
            if i >= row.len() {
                assert(!binance_field_ok(row@, i as int));
                return Err(ExbotError::SerdeJson("candlestick row is too short".to_owned()));
            }
            let ok = if i == 0 || i == 6 || i == 8 {
                row[i].as_u64().is_some()
            } else {
                row[i].as_text().is_some()
            };
            if !ok {
                assert(!binance_field_ok(row@, i as int));
                return Err(
                    ExbotError::SerdeJson("candlestick row holds a value of the wrong type".to_owned()),
                );
            }
            i = i + 1;
        }
        Ok(Self::from_row(row))
    }

    /// Decodes a Binance candlestick row in the given mode.
    pub fn decode(row: &Vec<JsonValue>, mode: DecodeMode) -> (r: Result<Self, ExbotError>)
        ensures
            r is Ok <==> (mode == DecodeMode::Lenient || binance_row_ok(row@)),
            r matches Ok(k) ==> k.decodes_binance(row@),
            r matches Err(e) ==> e is SerdeJson,
    {
        match mode {
            DecodeMode::Lenient => Ok(Self::from_row(row)),
            DecodeMode::Strict => Self::from_row_strict(row),
        }
    }
}

impl TryFrom<Vec<JsonValue>> for Kline<binance::Client> {
    type Error = ExbotError;

    /// Decodes leniently; see `from_row`.
    fn try_from(value: Vec<JsonValue>) -> (r: Result<Self, Self::Error>)
        ensures
            r matches Ok(k) && k.decodes_binance(value@),
    {
        Ok(Self::from_row(&value))
    }
}

// The result holds a `String`, which no spec function can build, so no spec
// result is claimed here; the `ensures` of the impl above say what it is.
impl vstd::std_specs::convert::TryFromSpecImpl<Vec<JsonValue>> for Kline<binance::Client> {
    open spec fn obeys_try_from_spec() -> bool {
        false
    }

    open spec fn try_from_spec(v: Vec<JsonValue>) -> Result<Self, ExbotError> {
        Err(ExbotError::Unknown)
    }
}

/// The request descriptor of a candlestick query.
pub fn kline_request(symbol: &'static str, interval: &'static str, limit: &'static str) -> (r:
    RequestData)
    ensures
        r@.headers.dom().is_empty(),
        r@.query == seq![("symbol"@, symbol@), ("interval"@, interval@), ("limit"@, limit@)],
{
    let r = RequestData::default().add_query(("symbol", symbol)).add_query(
        ("interval", interval),
    ).add_query(("limit", limit));
    proof {
        assert(r@.query =~= seq![("symbol"@, symbol@), ("interval"@, interval@), ("limit"@, limit@)]);
    }
    r
}

/// Decodes every row of a candlestick response, in order.
pub fn decode_klines(rows: &Vec<Vec<JsonValue>>) -> (r: Vec<Kline<binance::Client>>)
    ensures
        r.len() == rows.len(),
        forall|i: int| 0 <= i < r.len() ==> (#[trigger] r[i]).decodes_binance(rows[i]@),
{
    let mut out: Vec<Kline<binance::Client>> = Vec::new();
    let mut i: usize = 0;
    while i < rows.len()
        invariant
            i <= rows.len(),
            out.len() == i,
            forall|j: int| 0 <= j < i ==> (#[trigger] out[j]).decodes_binance(rows[j]@),
        decreases rows.len() - i,
    {
        out.push(Kline::from_row(&rows[i]));
        i = i + 1;
    }
    out
}

/// Decodes every row of a candlestick response, in order, in the given
/// mode; in strict mode the first row that does not decode rejects the
/// whole response.
pub fn decode_rows(rows: &Vec<Vec<JsonValue>>, mode: DecodeMode) -> (r: Result<
    Vec<Kline<binance::Client>>,
    ExbotError,
>)
    ensures
        r is Ok <==> (mode == DecodeMode::Lenient || forall|i: int|
            0 <= i < rows.len() ==> binance_row_ok(#[trigger] rows[i]@)),
        r matches Ok(ks) ==> {
            &&& ks.len() == rows.len()
            &&& forall|i: int| 0 <= i < ks.len() ==> (#[trigger] ks[i]).decodes_binance(rows[i]@)
        },
        r matches Err(e) ==> e is SerdeJson,
{
    let mut out: Vec<Kline<binance::Client>> = Vec::new();
    let mut i: usize = 0;
    while i < rows.len()
        invariant
            i <= rows.len(),
            out.len() == i,
            forall|j: int| 0 <= j < i ==> (#[trigger] out[j]).decodes_binance(rows[j]@),
            mode == DecodeMode::Strict ==> forall|j: int|
                0 <= j < i ==> binance_row_ok(#[trigger] rows[j]@),
        decreases rows.len() - i,
    {
        match Kline::decode(&rows[i], mode) {
            Ok(k) => out.push(k),
            Err(e) => return Err(e),
        }
        i = i + 1;
    }
    Ok(out)
}

} // verus!
