use turso_rows::{Error, FromValue, Row, Value};

fn names(list: &[&str]) -> Vec<String> {
    list.iter().map(|s| s.to_string()).collect()
}

fn sample() -> Row {
    Row::new(
        vec![Value::Integer(7), Value::Text("ann".to_string()), Value::Real(2.5f64.to_bits())],
        names(&["id", "name", "score"]),
    )
    .unwrap()
}

#[test]
fn positional_bounds() {
    let row = sample();
    assert_eq!(row.column_count(), 3);
    assert_eq!(row.get_value(2usize), Ok(Value::Real(2.5f64.to_bits())));
    assert_eq!(row.get_value(3usize), Err(Error::InvalidColumnIndex(3)));
    assert_eq!(row.get_value(usize::MAX), Err(Error::InvalidColumnIndex(usize::MAX)));
}

#[test]
fn first_position_is_zero() {
    let row = sample();
    assert_eq!(row.get_value(0usize), Ok(Value::Integer(7)));
    assert_eq!(row.get_value(1usize), Ok(Value::Text("ann".to_string())));
}

#[test]
fn name_lookup() {
    let row = sample();
    assert_eq!(row.column_index("name"), Ok(1));
    assert_eq!(row.column_index("missing"), Err(Error::InvalidColumnName("missing".to_string())));
}

#[test]
fn name_lookup_is_exact() {
    let row = sample();
    assert_eq!(row.column_index("Name"), Err(Error::InvalidColumnName("Name".to_string())));
    assert_eq!(row.column_index(""), Err(Error::InvalidColumnName(String::new())));
    assert_eq!(row.column_index("id"), Ok(0));
    assert_eq!(row.column_index("score"), Ok(2));
}

#[test]
fn duplicate_names_resolve_to_the_earliest() {
    let row = Row::new(
        vec![Value::Integer(1), Value::Integer(2), Value::Integer(3)],
        names(&["a", "b", "a"]),
    )
    .unwrap();
    assert_eq!(row.column_index("a"), Ok(0));
    assert_eq!(row.get_value("a"), Ok(Value::Integer(1)));
    assert_eq!(row.column_index("b"), Ok(1));
}

#[test]
fn value_by_name() {
    let row = sample();
    assert_eq!(row.get_value("name"), Ok(Value::Text("ann".to_string())));
    assert_eq!(row.get_value("nope"), Err(Error::InvalidColumnName("nope".to_string())));
}

#[test]
fn names_must_pair_with_values() {
    let short = Row::new(vec![Value::Null, Value::Null], names(&["only"]));
    assert_eq!(short.unwrap_err(), Error::InvalidColumnIndex(1));
    let long = Row::new(vec![Value::Null], names(&["a", "b", "c"]));
    assert_eq!(long.unwrap_err(), Error::InvalidColumnIndex(1));
    let none = Row::new(vec![Value::Null], Vec::new());
    assert_eq!(none.unwrap_err(), Error::InvalidColumnIndex(0));
    let empty = Row::new(Vec::new(), Vec::new()).unwrap();
    assert_eq!(empty.column_count(), 0);
    assert_eq!(empty.get_value(0usize), Err(Error::InvalidColumnIndex(0)));
}

#[test]
fn row_of_bare_values_has_no_names() {
    let values = vec![Value::Integer(42), Value::Blob(vec![1, 2, 3]), Value::Null];
    let row = Row::from_iter(&values);
    assert_eq!(row.column_count(), 3);
    assert_eq!(row.get_value(0usize), Ok(Value::Integer(42)));
    assert_eq!(row.get_value(1usize), Ok(Value::Blob(vec![1, 2, 3])));
    assert_eq!(row.get_value(2usize), Ok(Value::Null));
    assert_eq!(row.get_value(3usize), Err(Error::InvalidColumnIndex(3)));
    assert_eq!(row.column_index("id"), Err(Error::InvalidColumnName("id".to_string())));
    assert_eq!(values.len(), 3);
}

#[test]
fn clone_of_a_value_is_equal() {
    for v in [
        Value::Null,
        Value::Integer(-5),
        Value::Real(0.25f64.to_bits()),
        Value::Text("héllo".to_string()),
        Value::Blob(vec![0, 255]),
    ] {
        assert_eq!(v.clone(), v);
    }
}

#[test]
fn decode_matching_kinds() {
    let row = Row::from_iter(&vec![
        Value::Integer(42),
        Value::Text("abc".to_string()),
        Value::Blob(vec![1, 2, 3]),
        Value::Integer(1),
        Value::Integer(0),
    ]);
    assert_eq!(row.get::<usize, i64>(0), Ok(42));
    assert_eq!(row.get::<usize, i32>(0), Ok(42));
    assert_eq!(row.get::<usize, u32>(0), Ok(42));
    assert_eq!(row.get::<usize, u64>(0), Ok(42));
    assert_eq!(row.get::<usize, String>(1), Ok("abc".to_string()));
    assert_eq!(row.get::<usize, Vec<u8>>(2), Ok(vec![1, 2, 3]));
    assert_eq!(row.get::<usize, bool>(3), Ok(true));
    assert_eq!(row.get::<usize, bool>(4), Ok(false));
}

fn mismatch(expected: &str, found: &str) -> Error {
    Error::ConversionFailure(format!("expected {expected}, found {found}"))
}

#[test]
fn decode_mismatch() {
    let row = Row::from_iter(&vec![Value::Text("abc".to_string()), Value::Integer(1)]);
    assert_eq!(
        row.get::<usize, i64>(0),
        Err(Error::ConversionFailure("expected integer, found text".to_string()))
    );
    assert_eq!(row.get::<usize, i32>(0).unwrap_err(), mismatch("integer", "text"));
    assert_eq!(row.get::<usize, u32>(0).unwrap_err(), mismatch("integer", "text"));
    assert_eq!(row.get::<usize, u64>(0).unwrap_err(), mismatch("integer", "text"));
    assert_eq!(row.get::<usize, bool>(0).unwrap_err(), mismatch("integer", "text"));
    assert_eq!(row.get::<usize, Vec<u8>>(0).unwrap_err(), mismatch("blob", "text"));
    assert_eq!(row.get::<usize, [u8; 3]>(0).unwrap_err(), mismatch("blob", "text"));
    assert_eq!(row.get::<usize, String>(1).unwrap_err(), mismatch("text", "integer"));
    assert_eq!(row.get::<usize, Vec<u8>>(1).unwrap_err(), mismatch("blob", "integer"));
    assert_eq!(row.get::<usize, Option<i64>>(0).unwrap_err(), mismatch("integer", "text"));
}

#[test]
fn decode_real_and_blob_as_other_kinds_fails() {
    let real = Value::Real(1.0f64.to_bits());
    assert_eq!(i64::from_sql(real.clone()).unwrap_err(), mismatch("integer", "real"));
    assert_eq!(String::from_sql(real).unwrap_err(), mismatch("text", "real"));
    assert_eq!(bool::from_sql(Value::Blob(vec![1])).unwrap_err(), mismatch("integer", "blob"));
}

#[test]
fn kind_mismatch_names_both_kinds() {
    assert_eq!(Error::kind_mismatch("text", &Value::Null), mismatch("text", "null"));
    assert_eq!(Value::Null.kind_name(), "null");
    assert_eq!(Value::Integer(0).kind_name(), "integer");
    assert_eq!(Value::Real(0).kind_name(), "real");
    assert_eq!(Value::Text(String::new()).kind_name(), "text");
    assert_eq!(Value::Blob(Vec::new()).kind_name(), "blob");
}

#[test]
fn decode_array_of_exact_length() {
    assert_eq!(<[u8; 3]>::from_sql(Value::Blob(vec![1, 2, 3])), Ok([1, 2, 3]));
    assert_eq!(<[u8; 0]>::from_sql(Value::Blob(Vec::new())), Ok([]));
    assert_eq!(
        <[u8; 3]>::from_sql(Value::Blob(vec![1, 2])).unwrap_err(),
        Error::ConversionFailure("Invalid blob size, expected 3".to_string())
    );
    assert_eq!(
        <[u8; 2]>::from_sql(Value::Blob(vec![1, 2, 3])).unwrap_err(),
        Error::ConversionFailure("Invalid blob size, expected 2".to_string())
    );
    assert_eq!(
        <[u8; 2]>::from_sql(Value::Null).unwrap_err(),
        Error::ConversionFailure("Null value".to_string())
    );
}

#[test]
fn decode_value_as_itself() {
    for v in [
        Value::Null,
        Value::Integer(3),
        Value::Real(2.5f64.to_bits()),
        Value::Text("t".to_string()),
        Value::Blob(vec![9]),
    ] {
        assert_eq!(Value::from_sql(v.clone()), Ok(v));
    }
}

#[test]
fn decode_null() {
    let null = Error::ConversionFailure("Null value".to_string());
    assert_eq!(i64::from_sql(Value::Null).unwrap_err(), null);
    assert_eq!(i32::from_sql(Value::Null).unwrap_err(), null);
    assert_eq!(u32::from_sql(Value::Null).unwrap_err(), null);
    assert_eq!(u64::from_sql(Value::Null).unwrap_err(), null);
    assert_eq!(bool::from_sql(Value::Null).unwrap_err(), null);
    assert_eq!(String::from_sql(Value::Null).unwrap_err(), null);
    assert_eq!(Vec::<u8>::from_sql(Value::Null).unwrap_err(), null);
}

#[test]
fn decode_optional() {
    assert_eq!(Option::<i64>::from_sql(Value::Null), Ok(None));
    assert_eq!(Option::<i64>::from_sql(Value::Integer(5)), Ok(Some(5)));
    assert_eq!(Option::<String>::from_sql(Value::Text("x".to_string())), Ok(Some("x".to_string())));
    assert_eq!(Option::<Option<bool>>::from_sql(Value::Null), Ok(None));
}

#[test]
fn decode_never_truncates() {
    let out_of_range = Error::ConversionFailure("integer out of range".to_string());
    assert_eq!(i32::from_sql(Value::Integer(i32::MAX as i64)), Ok(i32::MAX));
    assert_eq!(i32::from_sql(Value::Integer(i32::MIN as i64)), Ok(i32::MIN));
    assert_eq!(i32::from_sql(Value::Integer(i32::MAX as i64 + 1)).unwrap_err(), out_of_range);
    assert_eq!(i32::from_sql(Value::Integer(i32::MIN as i64 - 1)).unwrap_err(), out_of_range);
    assert_eq!(u32::from_sql(Value::Integer(u32::MAX as i64)), Ok(u32::MAX));
    assert_eq!(u32::from_sql(Value::Integer(u32::MAX as i64 + 1)).unwrap_err(), out_of_range);
    assert_eq!(u32::from_sql(Value::Integer(-1)).unwrap_err(), out_of_range);
    assert_eq!(u64::from_sql(Value::Integer(i64::MAX)), Ok(i64::MAX as u64));
    assert_eq!(u64::from_sql(Value::Integer(0)), Ok(0));
    assert_eq!(u64::from_sql(Value::Integer(-1)).unwrap_err(), out_of_range);
    assert_eq!(i64::from_sql(Value::Integer(i64::MIN)), Ok(i64::MIN));
}

#[test]
fn decode_bool_accepts_zero_and_one_only() {
    assert_eq!(bool::from_sql(Value::Integer(0)), Ok(false));
    assert_eq!(bool::from_sql(Value::Integer(1)), Ok(true));
    assert!(matches!(bool::from_sql(Value::Integer(2)), Err(Error::ConversionFailure(_))));
    assert!(matches!(bool::from_sql(Value::Integer(-1)), Err(Error::ConversionFailure(_))));
}

#[test]
fn decode_keeps_text_and_bytes() {
    assert_eq!(String::from_sql(Value::Text(String::new())), Ok(String::new()));
    assert_eq!(
        String::from_sql(Value::Text("héllo wörld".to_string())),
        Ok("héllo wörld".to_string())
    );
    assert_eq!(Vec::<u8>::from_sql(Value::Blob(Vec::new())), Ok(Vec::new()));
    assert_eq!(Vec::<u8>::from_sql(Value::Blob(vec![0, 128, 255])), Ok(vec![0, 128, 255]));
}

#[test]
fn failed_lookup_wins_over_decoding() {
    let row = sample();
    assert_eq!(row.get::<usize, i64>(9), Err(Error::InvalidColumnIndex(9)));
    assert_eq!(row.get::<&str, i64>("nope"), Err(Error::InvalidColumnName("nope".to_string())));
}
