use chrono::NaiveDate;
use frogtable::json::{
    checked_to_micros, duckdb_row_to_json, duckdb_value_to_json_value, key_to_text, FloatValue,
    JsonField, JsonNumber, JsonValue, MapEntry, MappingError, RowError, StructField, TimeUnit,
    Value,
};

fn float(value: f64) -> FloatValue {
    FloatValue { bits: value.to_bits(), text: format!("{:?}", value) }
}

fn number(n: u64) -> JsonValue {
    JsonValue::Number(JsonNumber::PosInt(n))
}

fn negative(n: i64) -> JsonValue {
    JsonValue::Number(JsonNumber::NegInt(n))
}

fn string(s: &str) -> JsonValue {
    JsonValue::String(s.to_string())
}

fn field(name: &str, value: JsonValue) -> JsonField {
    JsonField { name: name.to_string(), value }
}

fn map(v: Value) -> Result<JsonValue, MappingError> {
    duckdb_value_to_json_value(&v)
}

#[test]
fn null_maps_to_null() {
    assert_eq!(map(Value::Null), Ok(JsonValue::Null));
}

#[test]
fn boolean_maps_to_boolean() {
    assert_eq!(map(Value::Boolean(true)), Ok(JsonValue::Bool(true)));
    assert_eq!(map(Value::Boolean(false)), Ok(JsonValue::Bool(false)));
}

#[test]
fn integers_up_to_64_bits_map_to_numbers() {
    assert_eq!(map(Value::TinyInt(-128)), Ok(negative(-128)));
    assert_eq!(map(Value::TinyInt(127)), Ok(number(127)));
    assert_eq!(map(Value::SmallInt(-1)), Ok(negative(-1)));
    assert_eq!(map(Value::Int(0)), Ok(number(0)));
    assert_eq!(map(Value::Int(i32::MIN)), Ok(negative(i32::MIN as i64)));
    assert_eq!(map(Value::BigInt(i64::MAX)), Ok(number(i64::MAX as u64)));
    assert_eq!(map(Value::BigInt(i64::MIN)), Ok(negative(i64::MIN)));
    assert_eq!(map(Value::UTinyInt(255)), Ok(number(255)));
    assert_eq!(map(Value::USmallInt(65535)), Ok(number(65535)));
    assert_eq!(map(Value::UInt(u32::MAX)), Ok(number(u32::MAX as u64)));
    assert_eq!(map(Value::UBigInt(u64::MAX)), Ok(number(u64::MAX)));
}

#[test]
fn huge_integers_map_to_decimal_strings() {
    assert_eq!(
        map(Value::HugeInt(i128::MAX)),
        Ok(string("170141183460469231731687303715884105727"))
    );
    assert_eq!(map(Value::HugeInt(-5)), Ok(string("-5")));
    assert_eq!(map(Value::HugeInt(0)), Ok(string("0")));
    assert_eq!(
        map(Value::UHugeInt(u128::MAX)),
        Ok(string("340282366920938463463374607431768211455"))
    );
}

#[test]
fn finite_floats_map_to_numbers() {
    assert_eq!(
        map(Value::Double(float(1.5))),
        Ok(JsonValue::Number(JsonNumber::Float(float(1.5))))
    );
    assert_eq!(
        map(Value::Float(float(-0.25))),
        Ok(JsonValue::Number(JsonNumber::Float(float(-0.25))))
    );
    assert_eq!(
        map(Value::Double(float(0.0))),
        Ok(JsonValue::Number(JsonNumber::Float(float(0.0))))
    );
    assert_eq!(
        map(Value::Double(float(f64::MAX))),
        Ok(JsonValue::Number(JsonNumber::Float(float(f64::MAX))))
    );
    assert_eq!(
        map(Value::Double(float(f64::MIN_POSITIVE / 4.0))),
        Ok(JsonValue::Number(JsonNumber::Float(float(f64::MIN_POSITIVE / 4.0))))
    );
}

#[test]
fn floats_without_a_finite_value_map_to_null() {
    assert_eq!(map(Value::Double(float(f64::INFINITY))), Ok(JsonValue::Null));
    assert_eq!(map(Value::Double(float(f64::NEG_INFINITY))), Ok(JsonValue::Null));
    assert_eq!(map(Value::Double(float(f64::NAN))), Ok(JsonValue::Null));
    assert_eq!(map(Value::Float(float(f32::INFINITY as f64))), Ok(JsonValue::Null));
}

#[test]
fn finiteness_agrees_with_the_standard_library() {
    for value in [0.0, -0.0, 1.0, f64::MAX, f64::MIN, f64::EPSILON, f64::NAN, f64::INFINITY] {
        let mapped = map(Value::Double(float(value))).unwrap();
        assert_eq!(mapped != JsonValue::Null, value.is_finite(), "{value}");
    }
}

#[test]
fn text_and_enum_map_to_strings() {
    assert_eq!(map(Value::Text("hello".to_string())), Ok(string("hello")));
    assert_eq!(map(Value::Text(String::new())), Ok(string("")));
    assert_eq!(map(Value::Enum("happy".to_string())), Ok(string("happy")));
}

#[test]
fn decimal_maps_to_its_text() {
    assert_eq!(map(Value::Decimal("12.340".to_string())), Ok(string("12.340")));
    assert_eq!(map(Value::Decimal("-0.001".to_string())), Ok(string("-0.001")));
}

#[test]
fn blob_maps_to_array_of_bytes() {
    assert_eq!(
        map(Value::Blob(vec![0, 1, 255])),
        Ok(JsonValue::Array(vec![number(0), number(1), number(255)]))
    );
    assert_eq!(map(Value::Blob(vec![])), Ok(JsonValue::Array(vec![])));
}

#[test]
fn timestamp_maps_by_its_unit() {
    assert_eq!(
        map(Value::Timestamp(TimeUnit::Second, 0)),
        Ok(string("1970-01-01T00:00:00+00:00"))
    );
    assert_eq!(
        map(Value::Timestamp(TimeUnit::Second, 1704412800)),
        Ok(string("2024-01-05T00:00:00+00:00"))
    );
    assert_eq!(
        map(Value::Timestamp(TimeUnit::Millisecond, 1704412800123)),
        Ok(string("2024-01-05T00:00:00.123+00:00"))
    );
    assert_eq!(
        map(Value::Timestamp(TimeUnit::Microsecond, 1704412800000001)),
        Ok(string("2024-01-05T00:00:00.000001+00:00"))
    );
    assert_eq!(
        map(Value::Timestamp(TimeUnit::Nanosecond, 1704412800000000001)),
        Ok(string("2024-01-05T00:00:00.000000001+00:00"))
    );
    assert_eq!(
        map(Value::Timestamp(TimeUnit::Nanosecond, -1)),
        Ok(string("1969-12-31T23:59:59.999999999+00:00"))
    );
}

#[test]
fn timestamp_outside_the_range_fails() {
    assert_eq!(
        map(Value::Timestamp(TimeUnit::Second, i64::MAX)),
        Err(MappingError::Timestamp { unit: TimeUnit::Second, amount: i64::MAX })
    );
    assert_eq!(
        map(Value::Timestamp(TimeUnit::Millisecond, i64::MIN)),
        Err(MappingError::Timestamp { unit: TimeUnit::Millisecond, amount: i64::MIN })
    );
    assert_eq!(
        map(Value::Timestamp(TimeUnit::Microsecond, i64::MAX)),
        Err(MappingError::Timestamp { unit: TimeUnit::Microsecond, amount: i64::MAX })
    );
}

#[test]
fn nanosecond_timestamps_never_fail() {
    assert!(map(Value::Timestamp(TimeUnit::Nanosecond, i64::MAX)).is_ok());
    assert!(map(Value::Timestamp(TimeUnit::Nanosecond, i64::MIN)).is_ok());
}

#[test]
fn date_maps_to_iso_date() {
    assert_eq!(map(Value::Date32(0)), Ok(string("1970-01-01")));
    assert_eq!(map(Value::Date32(19727)), Ok(string("2024-01-05")));
    assert_eq!(map(Value::Date32(-1)), Ok(string("1969-12-31")));
}

#[test]
fn date_outside_the_range_fails() {
    assert_eq!(map(Value::Date32(i32::MAX)), Err(MappingError::Date { days: i32::MAX }));
    assert_eq!(map(Value::Date32(i32::MAX - 719163)), Err(MappingError::Date { days: i32::MAX - 719163 }));
    assert_eq!(map(Value::Date32(i32::MIN)), Err(MappingError::Date { days: i32::MIN }));
}

#[test]
fn date_text_parses_back_to_the_same_date() {
    for days in [-719162, -1, 0, 1, 59, 60, 365, 11016, 19727, 19782, 2932896] {
        let text = match map(Value::Date32(days)).unwrap() {
            JsonValue::String(text) => text,
            other => panic!("{other:?}"),
        };
        let parsed = NaiveDate::parse_from_str(&text, "%Y-%m-%d").unwrap();
        let epoch = NaiveDate::from_ymd_opt(1970, 1, 1).unwrap();
        assert_eq!(parsed.signed_duration_since(epoch).num_days(), days as i64, "{text}");
    }
    let parsed = NaiveDate::parse_from_str("2024-01-05", "%Y-%m-%d").unwrap();
    assert_eq!(parsed, NaiveDate::from_ymd_opt(2024, 1, 5).unwrap());
}

#[test]
fn time_maps_to_iso_time() {
    assert_eq!(map(Value::Time64(TimeUnit::Microsecond, 0)), Ok(string("00:00:00")));
    assert_eq!(
        map(Value::Time64(TimeUnit::Microsecond, 3_723_000_004)),
        Ok(string("01:02:03.000004"))
    );
    assert_eq!(map(Value::Time64(TimeUnit::Second, 86399)), Ok(string("23:59:59")));
    assert_eq!(map(Value::Time64(TimeUnit::Millisecond, 1500)), Ok(string("00:00:01.500")));
    assert_eq!(map(Value::Time64(TimeUnit::Nanosecond, 1_000_999)), Ok(string("00:00:00.001")));
}

#[test]
fn nanoseconds_are_cut_towards_zero() {
    assert_eq!(checked_to_micros(TimeUnit::Nanosecond, -1), Some(0));
    assert_eq!(checked_to_micros(TimeUnit::Nanosecond, -1999), Some(-1));
    assert_eq!(checked_to_micros(TimeUnit::Nanosecond, 1999), Some(1));
    assert_eq!(map(Value::Time64(TimeUnit::Nanosecond, -1)), Ok(string("00:00:00")));
}

#[test]
fn micros_of_each_unit() {
    assert_eq!(checked_to_micros(TimeUnit::Second, 2), Some(2_000_000));
    assert_eq!(checked_to_micros(TimeUnit::Millisecond, 2), Some(2_000));
    assert_eq!(checked_to_micros(TimeUnit::Microsecond, 2), Some(2));
    assert_eq!(checked_to_micros(TimeUnit::Second, i64::MAX), None);
    assert_eq!(checked_to_micros(TimeUnit::Millisecond, i64::MIN), None);
}

#[test]
fn amounts_that_are_no_time_of_day_fail() {
    for (unit, amount) in [
        (TimeUnit::Second, 86400),
        (TimeUnit::Microsecond, -1),
        (TimeUnit::Second, -1),
        (TimeUnit::Second, i64::MAX),
        (TimeUnit::Microsecond, i64::MAX),
        (TimeUnit::Millisecond, i64::MIN),
    ] {
        assert_eq!(map(Value::Time64(unit, amount)), Err(MappingError::Time { unit, amount }));
    }
}

#[test]
fn interval_maps_to_object_of_its_parts() {
    assert_eq!(
        map(Value::Interval { months: 1, days: -2, nanos: 3_000_000_000 }),
        Ok(JsonValue::Object(vec![
            field("months", number(1)),
            field("days", negative(-2)),
            field("nanos", number(3_000_000_000)),
        ]))
    );
}

#[test]
fn list_and_array_map_each_element() {
    let expected = JsonValue::Array(vec![number(1), JsonValue::Null, string("x")]);
    assert_eq!(
        map(Value::List(vec![Value::Int(1), Value::Null, Value::Text("x".to_string())])),
        Ok(JsonValue::Array(vec![number(1), JsonValue::Null, string("x")]))
    );
    assert_eq!(
        map(Value::Array(vec![Value::Int(1), Value::Null, Value::Text("x".to_string())])),
        Ok(expected)
    );
    assert_eq!(map(Value::List(vec![])), Ok(JsonValue::Array(vec![])));
}

#[test]
fn nested_lists_map_recursively() {
    assert_eq!(
        map(Value::List(vec![Value::List(vec![Value::Boolean(true)]), Value::List(vec![])])),
        Ok(JsonValue::Array(vec![
            JsonValue::Array(vec![JsonValue::Bool(true)]),
            JsonValue::Array(vec![]),
        ]))
    );
}

#[test]
fn struct_maps_to_object_by_field_name() {
    assert_eq!(
        map(Value::Struct(vec![
            StructField { name: "id".to_string(), value: Value::Int(1) },
            StructField {
                name: "tags".to_string(),
                value: Value::List(vec![Value::Text("a".to_string())])
            },
        ])),
        Ok(JsonValue::Object(vec![
            field("id", number(1)),
            field("tags", JsonValue::Array(vec![string("a")])),
        ]))
    );
}

#[test]
fn map_keys_become_field_names() {
    assert_eq!(
        map(Value::Mapping(vec![
            MapEntry { key: Value::Text("k".to_string()), value: Value::Int(1) },
            MapEntry { key: Value::Boolean(true), value: Value::Int(2) },
            MapEntry { key: Value::Int(-7), value: Value::Int(3) },
            MapEntry { key: Value::UBigInt(u64::MAX), value: Value::Int(4) },
            MapEntry { key: Value::Null, value: Value::Int(5) },
            MapEntry { key: Value::Double(float(1.5)), value: Value::Int(6) },
            MapEntry { key: Value::Boolean(false), value: Value::Int(7) },
            MapEntry { key: Value::HugeInt(12), value: Value::Int(8) },
        ])),
        Ok(JsonValue::Object(vec![
            field("k", number(1)),
            field("true", number(2)),
            field("-7", number(3)),
            field("18446744073709551615", number(4)),
            field("null", number(5)),
            field("1.5", number(6)),
            field("false", number(7)),
            field("12", number(8)),
        ]))
    );
}

#[test]
fn key_text_of_each_kind() {
    assert_eq!(key_to_text(&string("a")), Some("a".to_string()));
    assert_eq!(key_to_text(&JsonValue::Bool(true)), Some("true".to_string()));
    assert_eq!(key_to_text(&JsonValue::Null), Some("null".to_string()));
    assert_eq!(key_to_text(&number(0)), Some("0".to_string()));
    assert_eq!(key_to_text(&negative(i64::MIN)), Some("-9223372036854775808".to_string()));
    assert_eq!(key_to_text(&JsonValue::Array(vec![])), None);
    assert_eq!(key_to_text(&JsonValue::Object(vec![])), None);
}

#[test]
fn map_with_array_or_object_key_fails() {
    assert_eq!(
        map(Value::Mapping(vec![MapEntry { key: Value::List(vec![]), value: Value::Int(1) }])),
        Err(MappingError::MapKey)
    );
    assert_eq!(
        map(Value::Mapping(vec![MapEntry { key: Value::Struct(vec![]), value: Value::Int(1) }])),
        Err(MappingError::MapKey)
    );
    assert_eq!(
        map(Value::Mapping(vec![MapEntry { key: Value::Blob(vec![1]), value: Value::Int(1) }])),
        Err(MappingError::MapKey)
    );
}

#[test]
fn map_key_failure_comes_before_value_failure() {
    assert_eq!(
        map(Value::Mapping(vec![MapEntry {
            key: Value::List(vec![]),
            value: Value::Unsupported
        }])),
        Err(MappingError::MapKey)
    );
    assert_eq!(
        map(Value::Mapping(vec![MapEntry { key: Value::Unsupported, value: Value::Int(1) }])),
        Err(MappingError::Unsupported)
    );
    assert_eq!(
        map(Value::Mapping(vec![MapEntry {
            key: Value::Text("k".to_string()),
            value: Value::Date32(i32::MAX)
        }])),
        Err(MappingError::Date { days: i32::MAX })
    );
}

#[test]
fn union_maps_its_active_value() {
    assert_eq!(map(Value::Union(Box::new(Value::Int(5)))), Ok(number(5)));
    assert_eq!(
        map(Value::Union(Box::new(Value::Union(Box::new(Value::Text("x".to_string())))))),
        Ok(string("x"))
    );
}

#[test]
fn unsupported_value_fails() {
    assert_eq!(map(Value::Unsupported), Err(MappingError::Unsupported));
}

#[test]
fn first_failure_in_a_list_wins() {
    assert_eq!(
        map(Value::List(vec![
            Value::Int(1),
            Value::Date32(i32::MAX),
            Value::Unsupported,
        ])),
        Err(MappingError::Date { days: i32::MAX })
    );
    assert_eq!(
        map(Value::Struct(vec![
            StructField { name: "a".to_string(), value: Value::Unsupported },
            StructField { name: "b".to_string(), value: Value::Date32(i32::MAX) },
        ])),
        Err(MappingError::Unsupported)
    );
}

#[test]
fn row_maps_each_column() {
    assert_eq!(
        duckdb_row_to_json(&vec![Value::Int(1), Value::Text("a".to_string()), Value::Null]),
        Ok(vec![number(1), string("a"), JsonValue::Null])
    );
    assert_eq!(duckdb_row_to_json(&vec![]), Ok(vec![]));
}

#[test]
fn row_failure_names_the_first_failing_column() {
    assert_eq!(
        duckdb_row_to_json(&vec![
            Value::Int(1),
            Value::Unsupported,
            Value::Date32(i32::MAX)
        ]),
        Err(RowError { column: 1, error: MappingError::Unsupported })
    );
}
