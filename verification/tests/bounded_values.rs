use vision_traits::EditError;
use vision_traits::bounded::{Bounds, Constraint, IntKind};
use vision_traits::value::Value;

fn int_value(n: i64) -> Value {
    if n >= 0 {
        Value::Num { positive: true, mantissa: n as u64, exponent: 0 }
    } else {
        Value::Num { positive: false, mantissa: n.unsigned_abs(), exponent: 0 }
    }
}

fn range_object(min: i64, max: i64) -> Value {
    Value::Obj(vec![
        ("min".to_owned(), int_value(min)),
        ("max".to_owned(), int_value(max)),
    ])
}

#[test]
fn constrained_accepts_in_bounds() {
    let c = Constraint {
        bounds: Bounds { kind: IntKind::U8, min: 0, max: 10 },
        inclusive: true,
    };
    let v = c.deserialize(&int_value(7)).unwrap();
    assert_eq!(v.val, 7);
    let v = c.deserialize(&int_value(0)).unwrap();
    assert_eq!(v.val, 0);
    let v = c.deserialize(&int_value(10)).unwrap();
    assert_eq!(v.val, 10);
}

#[test]
fn constrained_rejects_out_of_bounds() {
    let c = Constraint {
        bounds: Bounds { kind: IntKind::U8, min: 0, max: 10 },
        inclusive: true,
    };
    assert_eq!(c.deserialize(&int_value(11)), Err(EditError::OutOfBounds));
    assert_eq!(c.deserialize(&int_value(256)), Err(EditError::WrongKind));
    assert_eq!(c.deserialize(&Value::Bool(true)), Err(EditError::WrongKind));
}

#[test]
fn exclusive_bounds_exclude_both_ends() {
    let c = Constraint {
        bounds: Bounds { kind: IntKind::I16, min: -5, max: 5 },
        inclusive: false,
    };
    assert_eq!(c.deserialize(&int_value(-5)), Err(EditError::OutOfBounds));
    assert_eq!(c.deserialize(&int_value(5)), Err(EditError::OutOfBounds));
    let v = c.deserialize(&int_value(4)).unwrap();
    assert_eq!(v.val, 4);
}

#[test]
fn constrained_schema_reports_declared_bounds() {
    let c = Constraint {
        bounds: Bounds { kind: IntKind::U8, min: 3, max: 9 },
        inclusive: true,
    };
    let s = c.schema();
    assert_eq!(s.name, "ConstrainedU8");
    assert_eq!(s.params.get("min"), Some(&3i64));
    assert_eq!(s.params.get("max"), Some(&9i64));
}

#[test]
fn range_accepts_ordered_pair() {
    let b = Bounds { kind: IntKind::U8, min: 0, max: 10 };
    let r = b.range_deserialize(&range_object(3, 7)).unwrap();
    assert_eq!((r.min, r.max), (3, 7));
}

#[test]
fn range_rejects_inverted_pair() {
    let b = Bounds { kind: IntKind::U8, min: 0, max: 10 };
    assert_eq!(
        b.range_deserialize(&range_object(7, 3)),
        Err(EditError::InvertedRange)
    );
}

#[test]
fn range_rejects_out_of_bounds_end() {
    let b = Bounds { kind: IntKind::U8, min: 0, max: 10 };
    assert_eq!(
        b.range_deserialize(&range_object(3, 11)),
        Err(EditError::OutOfBounds)
    );
}

#[test]
fn range_rejects_missing_end() {
    let b = Bounds { kind: IntKind::U8, min: 0, max: 10 };
    let only_min = Value::Obj(vec![("min".to_owned(), int_value(3))]);
    assert_eq!(b.range_deserialize(&only_min), Err(EditError::WrongKind));
}

#[test]
fn range_schema_reports_declared_bounds() {
    let b = Bounds { kind: IntKind::I32, min: -4, max: 40 };
    let s = b.range_schema();
    assert_eq!(s.name, "RangeI32");
    assert_eq!(s.params.get("min"), Some(&-4i64));
    assert_eq!(s.params.get("max"), Some(&40i64));
}
