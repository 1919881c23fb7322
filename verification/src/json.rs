//! Engine values, JSON values, and the mapping of the first onto the second.

use crate::calendar::{
    date_text, format_date, format_time, format_timestamp_micros, format_timestamp_millis,
    format_timestamp_nanos, format_timestamp_secs, time_text, timestamp_micros_text,
    timestamp_millis_text, timestamp_nanos_text, timestamp_secs_text,
};
use crate::text::{i128_to_string, int_text, nat_text, opt_text, u128_to_string};
use vstd::prelude::*;
use vstd::string::*;

verus! {

/// The unit in which a timestamp or a time of day counts.
#[derive(Debug, Clone, Copy, PartialEq, Eq, Structural)]
pub enum TimeUnit {
    Second,
    Millisecond,
    Microsecond,
    Nanosecond,
}

/// A binary floating-point number, held as the bits of its 64-bit form
/// together with the text that JSON writes for it.
#[derive(Debug, Clone, PartialEq)]
pub struct FloatValue {
    pub bits: u64,
    pub text: String,
}

/// One value of a row, as the engine hands it out.
#[derive(Debug, PartialEq)]
pub enum Value {
    Null,
    Boolean(bool),
    TinyInt(i8),
    SmallInt(i16),
    Int(i32),
    BigInt(i64),
    HugeInt(i128),
    UHugeInt(u128),
    UTinyInt(u8),
    USmallInt(u16),
    UInt(u32),
    UBigInt(u64),
    Float(FloatValue),
    Double(FloatValue),
    /// A fixed-point decimal, held as its base-10 text.
    Decimal(String),
    Timestamp(TimeUnit, i64),
    Text(String),
    Blob(Vec<u8>),
    /// Days since 1970-01-01.
    Date32(i32),
    Time64(TimeUnit, i64),
    Interval { months: i32, days: i32, nanos: i64 },
    List(Vec<Value>),
    Enum(String),
    Struct(Vec<StructField>),
    Array(Vec<Value>),
    Mapping(Vec<MapEntry>),
    Union(Box<Value>),
    /// A value of a type that has no JSON form.
    Unsupported,
}

/// One named field of a struct value.
#[derive(Debug, PartialEq)]
pub struct StructField {
    pub name: String,
    pub value: Value,
}

/// One entry of a map value.
#[derive(Debug, PartialEq)]
pub struct MapEntry {
    pub key: Value,
    pub value: Value,
}

/// Why a value has no JSON form.
#[derive(Debug, Clone, Copy, PartialEq, Eq, Structural)]
pub enum MappingError {
    /// The timestamp lies outside the range of representable instants.
    Timestamp { unit: TimeUnit, amount: i64 },
    /// The day count lies outside the range of representable dates.
    Date { days: i32 },
    /// The amount is no time of day.
    Time { unit: TimeUnit, amount: i64 },
    /// A map key is an array or an object.
    MapKey,
    /// The value's type has no JSON form.
    Unsupported,
}

/// A JSON number as a mathematical object.
pub ghost enum NumberModel {
    Int(int),
    Float { bits: u64, text: Seq<char> },
}

/// A JSON value as a mathematical object. An object is the sequence of its
/// fields in the order in which they were written; read as an object, a later
/// field replaces an earlier one of the same name.
pub ghost enum JsonModel {
    Null,
    Bool(bool),
    Number(NumberModel),
    String(Seq<char>),
    Array(Seq<JsonModel>),
    Object(Seq<(Seq<char>, JsonModel)>),
}

/// A JSON number.
#[derive(Debug, PartialEq)]
pub enum JsonNumber {
    PosInt(u64),
    NegInt(i64),
    Float(FloatValue),
}

/// A JSON value.
#[derive(Debug, PartialEq)]
pub enum JsonValue {
    Null,
    Bool(bool),
    Number(JsonNumber),
    String(String),
    Array(Vec<JsonValue>),
    Object(Vec<JsonField>),
}

/// One field of a JSON object.
#[derive(Debug, PartialEq)]
pub struct JsonField {
    pub name: String,
    pub value: JsonValue,
}

/// The number that a JSON number stands for.
pub open spec fn number_model(number: JsonNumber) -> NumberModel {
    match number {
        JsonNumber::PosInt(n) => NumberModel::Int(n as int),
        JsonNumber::NegInt(n) => NumberModel::Int(n as int),
        JsonNumber::Float(f) => NumberModel::Float { bits: f.bits, text: f.text@ },
    }
}

impl View for JsonNumber {
    type V = NumberModel;

    open spec fn view(&self) -> NumberModel {
        number_model(*self)
    }
}

/// The value that a JSON value stands for.
pub open spec fn json_model(json: JsonValue) -> JsonModel
    decreases json,
{
    match json {
        JsonValue::Null => JsonModel::Null,
        JsonValue::Bool(b) => JsonModel::Bool(b),
        JsonValue::Number(n) => JsonModel::Number(number_model(n)),
        JsonValue::String(s) => JsonModel::String(s@),
        JsonValue::Array(items) => JsonModel::Array(json_views(items@)),
        JsonValue::Object(fields) => JsonModel::Object(field_views(fields@)),
    }
}

/// The values that a sequence of JSON values stands for.
pub open spec fn json_views(items: Seq<JsonValue>) -> Seq<JsonModel>
    decreases items,
{
    Seq::new(
        items.len(),
        |i: int|
            if 0 <= i < items.len() {
                json_model(items[i])
            } else {
                JsonModel::Null
            },
    )
}

/// The named values that a sequence of JSON fields stands for.
pub open spec fn field_views(fields: Seq<JsonField>) -> Seq<(Seq<char>, JsonModel)>
    decreases fields,
{
    Seq::new(
        fields.len(),
        |i: int|
            if 0 <= i < fields.len() {
                (fields[i].name@, json_model(fields[i].value))
            } else {
                (Seq::empty(), JsonModel::Null)
            },
    )
}

impl View for JsonValue {
    type V = JsonModel;

    open spec fn view(&self) -> JsonModel {
        json_model(*self)
    }
}

/// Whether the bits are those of a finite number: the exponent is not all
/// ones.
pub open spec fn is_finite_bits(bits: u64) -> bool {
    (bits >> 52) & 0x7ff != 0x7ff
}

/// The JSON form of a floating-point number: itself where it is finite,
/// null where it is not.
pub open spec fn float_json(f: FloatValue) -> JsonModel {
    if is_finite_bits(f.bits) {
        JsonModel::Number(NumberModel::Float { bits: f.bits, text: f.text@ })
    } else {
        JsonModel::Null
    }
}

/// The JSON number of an integer.
pub open spec fn int_json(i: int) -> JsonModel {
    JsonModel::Number(NumberModel::Int(i))
}

/// The ISO-8601 text of a timestamp, where the instant is representable.
pub open spec fn timestamp_text(unit: TimeUnit, amount: int) -> Option<Seq<char>> {
    match unit {
        TimeUnit::Nanosecond => Some(timestamp_nanos_text(amount)),
        TimeUnit::Microsecond => timestamp_micros_text(amount),
        TimeUnit::Millisecond => timestamp_millis_text(amount),
        TimeUnit::Second => timestamp_secs_text(amount),
    }
}

/// An amount of `unit` in microseconds; nanoseconds are cut towards zero.
pub open spec fn to_micros(unit: TimeUnit, amount: int) -> int {
    match unit {
        TimeUnit::Second => amount * 1_000_000,
        TimeUnit::Millisecond => amount * 1000,
        TimeUnit::Microsecond => amount,
        TimeUnit::Nanosecond => if amount >= 0 {
            amount / 1000
        } else {
            -((-amount) / 1000)
        },
    }
}

/// Days between 0001-01-01 and 1970-01-01, counting the first as day one.
pub const EPOCH_DAYS_FROM_CE: i32 = 719163;

/// The ISO text of the date `days` days after 1970-01-01, where that date
/// is representable.
pub open spec fn date32_text(days: int) -> Option<Seq<char>> {
    if days + EPOCH_DAYS_FROM_CE <= i32::MAX {
        date_text(days + EPOCH_DAYS_FROM_CE)
    } else {
        None
    }
}

/// The ISO text of a time of day at microsecond resolution, where the
/// amount is a time of day: it is not negative, its microseconds fit in 64
/// bits and its whole seconds in 32.
pub open spec fn time64_text(unit: TimeUnit, amount: int) -> Option<Seq<char>> {
    let micros = to_micros(unit, amount);
    if 0 <= micros <= i64::MAX && micros / 1_000_000 <= u32::MAX {
        time_text(micros / 1_000_000, (micros % 1_000_000) * 1000)
    } else {
        None
    }
}

/// The text under which a mapped key names a field of a JSON object; none
/// for an array or an object.
pub open spec fn key_text(key: JsonModel) -> Option<Seq<char>> {
    match key {
        JsonModel::String(s) => Some(s),
        JsonModel::Bool(b) => Some(
            if b {
                "true"@
            } else {
                "false"@
            },
        ),
        JsonModel::Number(NumberModel::Int(i)) => Some(int_text(i)),
        JsonModel::Number(NumberModel::Float { bits, text }) => Some(text),
        JsonModel::Null => Some("null"@),
        JsonModel::Array(_) => None,
        JsonModel::Object(_) => None,
    }
}

/// The results of a sequence in order: all of them where every one is a
/// success, the first failure otherwise.
pub open spec fn collect<T, E>(results: Seq<Result<T, E>>) -> Result<Seq<T>, E>
    decreases results.len(),
{
    if results.len() == 0 {
        Ok(Seq::empty())
    } else {
        match collect(results.drop_last()) {
            Err(e) => Err(e),
            Ok(items) => match results.last() {
                Err(e) => Err(e),
                Ok(item) => Ok(items.push(item)),
            },
        }
    }
}

/// A mapped value under a field name.
pub open spec fn named(name: Seq<char>, value: Result<JsonModel, MappingError>) -> Result<
    (Seq<char>, JsonModel),
    MappingError,
> {
    match value {
        Ok(json) => Ok((name, json)),
        Err(e) => Err(e),
    }
}

/// One entry of a map as a field: the key decides first, then the key's
/// kind, then the value.
pub open spec fn entry_field(
    key: Result<JsonModel, MappingError>,
    value: Result<JsonModel, MappingError>,
) -> Result<(Seq<char>, JsonModel), MappingError> {
    match key {
        Err(e) => Err(e),
        Ok(k) => match key_text(k) {
            None => Err(MappingError::MapKey),
            Some(name) => named(name, value),
        },
    }
}

/// The JSON array of the given bytes.
pub open spec fn blob_json(bytes: Seq<u8>) -> JsonModel {
    JsonModel::Array(Seq::new(bytes.len(), |i: int| int_json(bytes[i] as int)))
}

/// The JSON object of an interval.
pub open spec fn interval_json(months: int, days: int, nanos: int) -> JsonModel {
    JsonModel::Object(
        seq![
            ("months"@, int_json(months)),
            ("days"@, int_json(days)),
            ("nanos"@, int_json(nanos)),
        ],
    )
}

/// A text as a JSON string, or the given failure where there is no text.
pub open spec fn text_json(text: Option<Seq<char>>, otherwise: MappingError) -> Result<
    JsonModel,
    MappingError,
> {
    match text {
        Some(s) => Ok(JsonModel::String(s)),
        None => Err(otherwise),
    }
}

/// The collected items as a JSON array.
pub open spec fn array_json(items: Result<Seq<JsonModel>, MappingError>) -> Result<
    JsonModel,
    MappingError,
> {
    match items {
        Ok(jsons) => Ok(JsonModel::Array(jsons)),
        Err(e) => Err(e),
    }
}

/// The collected fields as a JSON object.
pub open spec fn object_json(fields: Result<Seq<(Seq<char>, JsonModel)>, MappingError>) -> Result<
    JsonModel,
    MappingError,
> {
    match fields {
        Ok(pairs) => Ok(JsonModel::Object(pairs)),
        Err(e) => Err(e),
    }
}

/// The mapped values of a sequence, each with its own outcome.
pub open spec fn item_results(items: Seq<Value>) -> Seq<Result<JsonModel, MappingError>>
    decreases items,
{
    Seq::new(
        items.len(),
        |i: int|
            if 0 <= i < items.len() {
                json_of(items[i])
            } else {
                Err(MappingError::Unsupported)
            },
    )
}

/// The mapped fields of a struct, each with its own outcome.
pub open spec fn field_results(fields: Seq<StructField>) -> Seq<
    Result<(Seq<char>, JsonModel), MappingError>,
>
    decreases fields,
{
    Seq::new(
        fields.len(),
        |i: int|
            if 0 <= i < fields.len() {
                named(fields[i].name@, json_of(fields[i].value))
            } else {
                Err(MappingError::Unsupported)
            },
    )
}

/// The mapped entries of a map, each with its own outcome.
pub open spec fn entry_results(entries: Seq<MapEntry>) -> Seq<
    Result<(Seq<char>, JsonModel), MappingError>,
>
    decreases entries,
{
    Seq::new(
        entries.len(),
        |i: int|
            if 0 <= i < entries.len() {
                entry_field(json_of(entries[i].key), json_of(entries[i].value))
            } else {
                Err(MappingError::Unsupported)
            },
    )
}

/// The JSON form of an engine value, or the reason why it has none.
pub open spec fn json_of(value: Value) -> Result<JsonModel, MappingError>
    decreases value,
{
    match value {
        Value::Null => Ok(JsonModel::Null),
        Value::Boolean(b) => Ok(JsonModel::Bool(b)),
        Value::TinyInt(i) => Ok(int_json(i as int)),
        Value::SmallInt(i) => Ok(int_json(i as int)),
        Value::Int(i) => Ok(int_json(i as int)),
        Value::BigInt(i) => Ok(int_json(i as int)),
        Value::UTinyInt(i) => Ok(int_json(i as int)),
        Value::USmallInt(i) => Ok(int_json(i as int)),
        Value::UInt(i) => Ok(int_json(i as int)),
        Value::UBigInt(i) => Ok(int_json(i as int)),
        Value::HugeInt(i) => Ok(JsonModel::String(int_text(i as int))),
        Value::UHugeInt(i) => Ok(JsonModel::String(nat_text(i as nat))),
        Value::Float(f) => Ok(float_json(f)),
        Value::Double(f) => Ok(float_json(f)),
        Value::Decimal(text) => Ok(JsonModel::String(text@)),
        Value::Timestamp(unit, amount) => text_json(
            timestamp_text(unit, amount as int),
            MappingError::Timestamp { unit, amount },
        ),
        Value::Text(s) => Ok(JsonModel::String(s@)),
        Value::Blob(bytes) => Ok(blob_json(bytes@)),
        Value::Date32(days) => text_json(date32_text(days as int), MappingError::Date { days }),
        Value::Time64(unit, amount) => text_json(
            time64_text(unit, amount as int),
            MappingError::Time { unit, amount },
        ),
        Value::Interval { months, days, nanos } => Ok(
            interval_json(months as int, days as int, nanos as int),
        ),
        Value::Enum(s) => Ok(JsonModel::String(s@)),
        Value::List(items) => array_json(collect(item_results(items@))),
        Value::Array(items) => array_json(collect(item_results(items@))),
        Value::Struct(fields) => object_json(collect(field_results(fields@))),
        Value::Mapping(entries) => object_json(collect(entry_results(entries@))),
        Value::Union(inner) => json_of(*inner),
        Value::Unsupported => Err(MappingError::Unsupported),
    }
}

/// A failure among the first `k` results is the failure of the whole.
pub proof fn lemma_collect_prefix_failure<T, E>(results: Seq<Result<T, E>>, k: int)
    requires
        0 <= k <= results.len(),
        collect(results.take(k)) is Err,
    ensures
        collect(results) == collect(results.take(k)),
    decreases results.len() - k,
{
    if k < results.len() {
        assert(results.take(k + 1).drop_last() =~= results.take(k));
        lemma_collect_prefix_failure(results, k + 1);
    } else {
        assert(results.take(k) =~= results);
    }
}

/// One more result extends the collected prefix, or fails it.
pub proof fn lemma_collect_step<T, E>(results: Seq<Result<T, E>>, k: int)
    requires
        0 <= k < results.len(),
        collect(results.take(k)) is Ok,
    ensures
        collect(results.take(k + 1)) == match results[k] {
            Err(e) => Err::<Seq<T>, E>(e),
            Ok(item) => Ok(collect(results.take(k))->Ok_0.push(item)),
        },
{
    assert(results.take(k + 1).drop_last() =~= results.take(k));
    assert(results.take(k + 1).last() == results[k]);
}

/// Whether a mapped result is the given outcome.
pub open spec fn is_json_of(result: Result<JsonValue, MappingError>, value: Value) -> bool {
    match result {
        Ok(json) => json_of(value) == Ok::<JsonModel, MappingError>(json@),
        Err(e) => json_of(value) == Err::<JsonModel, MappingError>(e),
    }
}

fn float_to_json(f: &FloatValue) -> (json: JsonValue)
    ensures
        json@ == float_json(*f),
{
    if (f.bits >> 52) & 0x7ff != 0x7ff {
        JsonValue::Number(JsonNumber::Float(FloatValue { bits: f.bits, text: f.text.clone() }))
    } else {
        JsonValue::Null
    }
}

fn signed_to_json(i: i64) -> (json: JsonValue)
    ensures
        json@ == int_json(i as int),
{
    if i >= 0 {
        JsonValue::Number(JsonNumber::PosInt(i as u64))
    } else {
        JsonValue::Number(JsonNumber::NegInt(i))
    }
}

fn unsigned_to_json(i: u64) -> (json: JsonValue)
    ensures
        json@ == int_json(i as int),
{
    JsonValue::Number(JsonNumber::PosInt(i))
}

fn string_json(text: Option<String>, otherwise: MappingError) -> (result: Result<
    JsonValue,
    MappingError,
>)
    ensures
        match result {
            Ok(json) => text_json(opt_text(text), otherwise) == Ok::<JsonModel, MappingError>(
                json@,
            ),
            Err(e) => text_json(opt_text(text), otherwise) == Err::<JsonModel, MappingError>(e),
        },
{
    match text {
        Some(s) => Ok(JsonValue::String(s)),
        None => Err(otherwise),
    }
}

fn timestamp_to_text(unit: TimeUnit, amount: i64) -> (text: Option<String>)
    ensures
        opt_text(text) == timestamp_text(unit, amount as int),
{
    match unit {
        TimeUnit::Nanosecond => Some(format_timestamp_nanos(amount)),
        TimeUnit::Microsecond => format_timestamp_micros(amount),
        TimeUnit::Millisecond => format_timestamp_millis(amount),
        TimeUnit::Second => format_timestamp_secs(amount),
    }
}

fn date32_to_text(days: i32) -> (text: Option<String>)
    ensures
        opt_text(text) == date32_text(days as int),
{
    match days.checked_add(EPOCH_DAYS_FROM_CE) {
        Some(from_ce) => format_date(from_ce),
        None => None,
    }
}

/// An amount of `unit` in microseconds, where that fits in 64 bits.
pub fn checked_to_micros(unit: TimeUnit, amount: i64) -> (micros: Option<i64>)
    ensures
        match micros {
            Some(m) => m == to_micros(unit, amount as int),
            None => !(i64::MIN <= to_micros(unit, amount as int) <= i64::MAX),
        },
{
    match unit {
        TimeUnit::Second => amount.checked_mul(1_000_000),
        TimeUnit::Millisecond => amount.checked_mul(1000),
        TimeUnit::Microsecond => Some(amount),
        TimeUnit::Nanosecond => Some(amount / 1000),
    }
}

fn time64_to_text(unit: TimeUnit, amount: i64) -> (text: Option<String>)
    ensures
        opt_text(text) == time64_text(unit, amount as int),
{
    match checked_to_micros(unit, amount) {
        None => None,
        Some(micros) => {
            if micros < 0 {
                return None;
            }
            let seconds: i64 = micros / 1_000_000;
            let nano: i64 = (micros % 1_000_000) * 1000;
            if seconds > 0xffff_ffff {
                return None;
            }
            format_time(seconds as u32, nano as u32)
        },
    }
}

fn blob_to_json(bytes: &Vec<u8>) -> (json: JsonValue)
    ensures
        json@ == blob_json(bytes@),
{
    let mut items: Vec<JsonValue> = Vec::new();
    let mut i: usize = 0;
    while i < bytes.len()
        invariant
            i <= bytes.len(),
            items@.len() == i,
            forall|k: int| 0 <= k < i ==> (#[trigger] items@[k])@ == int_json(bytes@[k] as int),
        decreases bytes.len() - i,
    {
        items.push(unsigned_to_json(bytes[i] as u64));
        i += 1;
    }
    let json = JsonValue::Array(items);
    assert(json@->Array_0 =~= blob_json(bytes@)->Array_0);
    json
}

fn interval_to_json(months: i32, days: i32, nanos: i64) -> (json: JsonValue)
    ensures
        json@ == interval_json(months as int, days as int, nanos as int),
{
    let mut fields: Vec<JsonField> = Vec::new();
    fields.push(JsonField { name: String::from_str("months"), value: signed_to_json(months as i64) });
    fields.push(JsonField { name: String::from_str("days"), value: signed_to_json(days as i64) });
    fields.push(JsonField { name: String::from_str("nanos"), value: signed_to_json(nanos) });
    let json = JsonValue::Object(fields);
    assert(json@->Object_0 =~= interval_json(months as int, days as int, nanos as int)->Object_0);
    json
}

fn make_array(jsons: Vec<JsonValue>) -> (json: JsonValue)
    ensures
        json@ == JsonModel::Array(json_views(jsons@)),
{
    JsonValue::Array(jsons)
}

fn make_object(pairs: Vec<JsonField>) -> (json: JsonValue)
    ensures
        json@ == JsonModel::Object(field_views(pairs@)),
{
    JsonValue::Object(pairs)
}

/// The text under which a mapped key names a field, if it is a scalar.
pub fn key_to_text(key: &JsonValue) -> (text: Option<String>)
    ensures
        opt_text(text) == key_text(key@),
{
    match key {
        JsonValue::String(s) => Some(s.clone()),
        JsonValue::Bool(b) => Some(
            if *b {
                String::from_str("true")
            } else {
                String::from_str("false")
            },
        ),
        JsonValue::Number(JsonNumber::PosInt(n)) => Some(u128_to_string(*n as u128)),
        JsonValue::Number(JsonNumber::NegInt(n)) => Some(i128_to_string(*n as i128)),
        JsonValue::Number(JsonNumber::Float(f)) => Some(f.text.clone()),
        JsonValue::Null => Some(String::from_str("null")),
        JsonValue::Array(_) => None,
        JsonValue::Object(_) => None,
    }
}

/// Maps the values of a list in order and stops at the first failure.
fn map_items(items: &Vec<Value>) -> (result: Result<Vec<JsonValue>, MappingError>)
    ensures
        match result {
            Ok(jsons) => collect(item_results(items@)) == Ok::<Seq<JsonModel>, MappingError>(
                json_views(jsons@),
            ),
            Err(e) => collect(item_results(items@)) == Err::<Seq<JsonModel>, MappingError>(e),
        },
    decreases items,
{
    let ghost results = item_results(items@);
    let mut jsons: Vec<JsonValue> = Vec::new();
    let mut i: usize = 0;
    assert(results.take(0) =~= Seq::empty());
    assert(json_views(jsons@) =~= Seq::empty());
    while i < items.len()
        invariant
            i <= items.len(),
            results == item_results(items@),
            collect(results.take(i as int)) == Ok::<Seq<JsonModel>, MappingError>(
                json_views(jsons@),
            ),
        decreases items.len() - i,
    {
        proof {
            lemma_collect_step(results, i as int);
        }
        match duckdb_value_to_json_value(&items[i]) {
            Ok(json) => {
                let ghost before = json_views(jsons@);
                jsons.push(json);
                assert(json_views(jsons@) =~= before.push(json@));
            },
            Err(e) => {
                proof {
                    lemma_collect_prefix_failure(results, i + 1);
                }
                return Err(e);
            },
        }
        i += 1;
    }
    assert(results.take(i as int) =~= results);
    Ok(jsons)
}

/// Maps the fields of a struct in order and stops at the first failure.
fn map_fields(fields: &Vec<StructField>) -> (result: Result<Vec<JsonField>, MappingError>)
    ensures
        match result {
            Ok(pairs) => collect(field_results(fields@)) == Ok::<
                Seq<(Seq<char>, JsonModel)>,
                MappingError,
            >(field_views(pairs@)),
            Err(e) => collect(field_results(fields@)) == Err::<
                Seq<(Seq<char>, JsonModel)>,
                MappingError,
            >(e),
        },
    decreases fields,
{
    let ghost results = field_results(fields@);
    let mut pairs: Vec<JsonField> = Vec::new();
    let mut i: usize = 0;
    assert(results.take(0) =~= Seq::empty());
    assert(field_views(pairs@) =~= Seq::empty());
    while i < fields.len()
        invariant
            i <= fields.len(),
            results == field_results(fields@),
            collect(results.take(i as int)) == Ok::<Seq<(Seq<char>, JsonModel)>, MappingError>(
                field_views(pairs@),
            ),
        decreases fields.len() - i,
    {
        proof {
            lemma_collect_step(results, i as int);
        }
        match duckdb_value_to_json_value(&fields[i].value) {
            Ok(json) => {
                let ghost before = field_views(pairs@);
                let field = JsonField { name: fields[i].name.clone(), value: json };
                pairs.push(field);
                assert(field_views(pairs@) =~= before.push((field.name@, field.value@)));
            },
            Err(e) => {
                proof {
                    lemma_collect_prefix_failure(results, i + 1);
                }
                return Err(e);
            },
        }
        i += 1;
    }
    assert(results.take(i as int) =~= results);
    Ok(pairs)
}

/// Maps the entries of a map in order and stops at the first failure.
fn map_entries(entries: &Vec<MapEntry>) -> (result: Result<Vec<JsonField>, MappingError>)
    ensures
        match result {
            Ok(pairs) => collect(entry_results(entries@)) == Ok::<
                Seq<(Seq<char>, JsonModel)>,
                MappingError,
            >(field_views(pairs@)),
            Err(e) => collect(entry_results(entries@)) == Err::<
                Seq<(Seq<char>, JsonModel)>,
                MappingError,
            >(e),
        },
    decreases entries,
{
    let ghost results = entry_results(entries@);
    let mut pairs: Vec<JsonField> = Vec::new();
    let mut i: usize = 0;
    assert(results.take(0) =~= Seq::empty());
    assert(field_views(pairs@) =~= Seq::empty());
    while i < entries.len()
        invariant
            i <= entries.len(),
            results == entry_results(entries@),
            collect(results.take(i as int)) == Ok::<Seq<(Seq<char>, JsonModel)>, MappingError>(
                field_views(pairs@),
            ),
        decreases entries.len() - i,
    {
        proof {
            lemma_collect_step(results, i as int);
        }
        let key = match duckdb_value_to_json_value(&entries[i].key) {
            Ok(key) => key,
            Err(e) => {
                proof {
                    lemma_collect_prefix_failure(results, i + 1);
                }
                return Err(e);
            },
        };
        let name = match key_to_text(&key) {
            Some(name) => name,
            None => {
                proof {
                    lemma_collect_prefix_failure(results, i + 1);
                }
                return Err(MappingError::MapKey);
            },
        };
        match duckdb_value_to_json_value(&entries[i].value) {
            Ok(json) => {
                let ghost before = field_views(pairs@);
                let field = JsonField { name, value: json };
                pairs.push(field);
                assert(field_views(pairs@) =~= before.push((field.name@, field.value@)));
            },
            Err(e) => {
                proof {
                    lemma_collect_prefix_failure(results, i + 1);
                }
                return Err(e);
            },
        }
        i += 1;
    }
    assert(results.take(i as int) =~= results);
    Ok(pairs)
}

/// Maps one engine value to JSON, or says why it has no JSON form.
pub fn duckdb_value_to_json_value(dv: &Value) -> (result: Result<JsonValue, MappingError>)
    ensures
        is_json_of(result, *dv),
    decreases dv,
{
    match dv {
        Value::Null => Ok(JsonValue::Null),
        Value::Boolean(b) => Ok(JsonValue::Bool(*b)),
        Value::TinyInt(i) => Ok(signed_to_json(*i as i64)),
        Value::SmallInt(i) => Ok(signed_to_json(*i as i64)),
        Value::Int(i) => Ok(signed_to_json(*i as i64)),
        Value::BigInt(i) => Ok(signed_to_json(*i)),
        Value::UTinyInt(i) => Ok(unsigned_to_json(*i as u64)),
        Value::USmallInt(i) => Ok(unsigned_to_json(*i as u64)),
        Value::UInt(i) => Ok(unsigned_to_json(*i as u64)),
        Value::UBigInt(i) => Ok(unsigned_to_json(*i)),
        Value::HugeInt(i) => Ok(JsonValue::String(i128_to_string(*i))),
        Value::UHugeInt(i) => Ok(JsonValue::String(u128_to_string(*i))),
        Value::Float(f) => Ok(float_to_json(f)),
        Value::Double(f) => Ok(float_to_json(f)),
        Value::Decimal(text) => Ok(JsonValue::String(text.clone())),
        Value::Timestamp(unit, amount) => string_json(
            timestamp_to_text(*unit, *amount),
            MappingError::Timestamp { unit: *unit, amount: *amount },
        ),
        Value::Text(s) => Ok(JsonValue::String(s.clone())),
        Value::Blob(bytes) => Ok(blob_to_json(bytes)),
        Value::Date32(days) => string_json(
            date32_to_text(*days),
            MappingError::Date { days: *days },
        ),
        Value::Time64(unit, amount) => string_json(
            time64_to_text(*unit, *amount),
            MappingError::Time { unit: *unit, amount: *amount },
        ),
        Value::Interval { months, days, nanos } => Ok(interval_to_json(*months, *days, *nanos)),
        Value::Enum(s) => Ok(JsonValue::String(s.clone())),
        Value::List(items) => {
            match map_items(items) {
                Ok(jsons) => Ok(make_array(jsons)),
                Err(e) => Err(e),
            }
        },
        Value::Array(items) => {
            match map_items(items) {
                Ok(jsons) => Ok(make_array(jsons)),
                Err(e) => Err(e),
            }
        },
        Value::Struct(fields) => {
            match map_fields(fields) {
                Ok(pairs) => Ok(make_object(pairs)),
                Err(e) => Err(e),
            }
        },
        Value::Mapping(entries) => {
            match map_entries(entries) {
                Ok(pairs) => Ok(make_object(pairs)),
                Err(e) => Err(e),
            }
        },
        Value::Union(inner) => duckdb_value_to_json_value(inner),
        Value::Unsupported => Err(MappingError::Unsupported),
    }
}

/// A value of a row that has no JSON form: its column, and why.
#[derive(Debug, Clone, Copy, PartialEq, Eq, Structural)]
pub struct RowError {
    pub column: usize,
    pub error: MappingError,
}

/// The mapped values of a row, each failure with its column.
pub open spec fn column_results(row: Seq<Value>) -> Seq<Result<JsonModel, (int, MappingError)>> {
    Seq::new(
        row.len(),
        |i: int|
            match json_of(row[i]) {
                Ok(json) => Ok(json),
                Err(e) => Err((i, e)),
            },
    )
}

/// The JSON form of a row: the JSON forms of its values in order, or the
/// first column whose value has none, with the reason.
pub open spec fn row_json(row: Seq<Value>) -> Result<Seq<JsonModel>, (int, MappingError)> {
    collect(column_results(row))
}

/// Whether a mapped row is the given outcome.
pub open spec fn is_row_json(result: Result<Vec<JsonValue>, RowError>, row: Seq<Value>) -> bool {
    match result {
        Ok(jsons) => row_json(row) == Ok::<Seq<JsonModel>, (int, MappingError)>(
            json_views(jsons@),
        ),
        Err(e) => row_json(row) == Err::<Seq<JsonModel>, (int, MappingError)>(
            (e.column as int, e.error),
        ),
    }
}

/// Maps the values of one row to JSON, in order, and stops at the first
/// value that has no JSON form.
pub fn duckdb_row_to_json(row: &Vec<Value>) -> (result: Result<Vec<JsonValue>, RowError>)
    ensures
        is_row_json(result, row@),
{
    let ghost results = column_results(row@);
    let mut jsons: Vec<JsonValue> = Vec::with_capacity(row.len());
    let mut i: usize = 0;
    assert(results.take(0) =~= Seq::empty());
    assert(json_views(jsons@) =~= Seq::empty());
    while i < row.len()
        invariant
            i <= row.len(),
            results == column_results(row@),
            collect(results.take(i as int)) == Ok::<Seq<JsonModel>, (int, MappingError)>(
                json_views(jsons@),
            ),
        decreases row.len() - i,
    {
        proof {
            lemma_collect_step(results, i as int);
        }
        match duckdb_value_to_json_value(&row[i]) {
            Ok(json) => {
                let ghost before = json_views(jsons@);
                jsons.push(json);
                assert(json_views(jsons@) =~= before.push(json@));
            },
            Err(error) => {
                proof {
                    lemma_collect_prefix_failure(results, i + 1);
                }
                return Err(RowError { column: i, error });
            },
        }
        i += 1;
    }
    assert(results.take(i as int) =~= results);
    Ok(jsons)
}

} // verus!
