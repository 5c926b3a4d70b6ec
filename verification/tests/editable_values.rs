use vision_traits::EditError;
use vision_traits::editable::Editable;
use vision_traits::value::Value;

fn int_value(n: i64) -> Value {
    if n >= 0 {
        Value::Num { positive: true, mantissa: n as u64, exponent: 0 }
    } else {
        Value::Num { positive: false, mantissa: n.unsigned_abs(), exponent: 0 }
    }
}

#[test]
fn u8_round_trip() {
    assert_eq!(u8::deserialize(&int_value(0)), Ok(0u8));
    assert_eq!(u8::deserialize(&int_value(5)), Ok(5u8));
    assert_eq!(u8::deserialize(&int_value(255)), Ok(255u8));
}

#[test]
fn u8_rejects_out_of_width() {
    assert_eq!(u8::deserialize(&int_value(256)), Err(EditError::WrongKind));
    assert_eq!(u8::deserialize(&int_value(-1)), Err(EditError::WrongKind));
}

#[test]
fn u16_round_trip() {
    assert_eq!(u16::deserialize(&int_value(65535)), Ok(65535u16));
    assert_eq!(u16::deserialize(&int_value(65536)), Err(EditError::WrongKind));
}

#[test]
fn u32_round_trip() {
    assert_eq!(u32::deserialize(&int_value(4294967295)), Ok(4294967295u32));
    assert_eq!(u32::deserialize(&int_value(4294967296)), Err(EditError::WrongKind));
}

#[test]
fn i8_round_trip() {
    assert_eq!(i8::deserialize(&int_value(-128)), Ok(-128i8));
    assert_eq!(i8::deserialize(&int_value(127)), Ok(127i8));
    assert_eq!(i8::deserialize(&int_value(128)), Err(EditError::WrongKind));
    assert_eq!(i8::deserialize(&int_value(-129)), Err(EditError::WrongKind));
}

#[test]
fn i16_round_trip() {
    assert_eq!(i16::deserialize(&int_value(-32768)), Ok(-32768i16));
    assert_eq!(i16::deserialize(&int_value(32767)), Ok(32767i16));
}

#[test]
fn i32_round_trip() {
    assert_eq!(i32::deserialize(&int_value(-2147483648)), Ok(-2147483648i32));
    assert_eq!(i32::deserialize(&int_value(2147483647)), Ok(2147483647i32));
}

#[test]
fn bool_round_trip() {
    assert_eq!(bool::deserialize(&Value::Bool(true)), Ok(true));
    assert_eq!(bool::deserialize(&Value::Bool(false)), Ok(false));
    assert_eq!(bool::deserialize(&int_value(1)), Err(EditError::WrongKind));
}

#[test]
fn string_round_trip() {
    assert_eq!(
        String::deserialize(&Value::Str("hello".to_owned())),
        Ok("hello".to_owned())
    );
    assert_eq!(String::deserialize(&Value::Null), Err(EditError::WrongKind));
}

#[test]
fn numbers_with_exponents_are_not_integers() {
    let v = Value::Num { positive: true, mantissa: 30, exponent: -1 };
    assert_eq!(u8::deserialize(&v), Err(EditError::WrongKind));
}

#[test]
fn container_values_fail_leaf_coercions() {
    let arr = Value::Arr(vec![int_value(1), int_value(2)]);
    assert_eq!(u8::deserialize(&arr), Err(EditError::WrongKind));
    let obj = Value::Obj(vec![("k".to_owned(), int_value(1))]);
    assert_eq!(bool::deserialize(&obj), Err(EditError::WrongKind));
}

#[test]
fn object_lookup_takes_the_first_match() {
    let obj = Value::Obj(vec![
        ("k".to_owned(), int_value(1)),
        ("k".to_owned(), int_value(2)),
    ]);
    let first = obj.lookup("k").unwrap();
    assert_eq!(u8::deserialize(first), Ok(1u8));
}

#[test]
fn primitive_schemas_report_native_bounds() {
    let s = u8::schema();
    assert_eq!(s.name, "u8");
    assert_eq!(s.params.get("min"), Some(&0i64));
    assert_eq!(s.params.get("max"), Some(&255i64));

    let s = i16::schema();
    assert_eq!(s.name, "i16");
    assert_eq!(s.params.get("min"), Some(&-32768i64));
    assert_eq!(s.params.get("max"), Some(&32767i64));

    let s = bool::schema();
    assert_eq!(s.name, "bool");
    assert_eq!(s.params.len(), 0);

    let s = String::schema();
    assert_eq!(s.name, "string");
    assert_eq!(s.params.len(), 0);
}
