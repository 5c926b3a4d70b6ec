use vision_traits::{Configurable, DeserializationError, EditError};
use vision_traits::editable::Editable;
use vision_traits::fields::{parse_settings_object, settings_field};
use vision_traits::schema::{NameMap, SettingType};
use vision_traits::nodes::{ClampSettings, ThresholdSettings};

/// The schema a struct with fields `{a: u8, b: string}` aggregates.
fn pair_schema(first_a: bool) -> NameMap<SettingType> {
    let mut m = NameMap::new();
    if first_a {
        m.insert("a".to_owned(), u8::schema());
        m.insert("b".to_owned(), String::schema());
    } else {
        m.insert("b".to_owned(), String::schema());
        m.insert("a".to_owned(), u8::schema());
    }
    m
}

#[test]
fn two_field_schema_has_both_entries() {
    let m = pair_schema(true);
    assert_eq!(m.len(), 2);
    let a = m.get("a").unwrap();
    assert_eq!(a.name, "u8");
    assert_eq!(a.params.get("min"), Some(&0i64));
    assert_eq!(a.params.get("max"), Some(&255i64));
    let b = m.get("b").unwrap();
    assert_eq!(b.name, "string");
    assert_eq!(b.params.len(), 0);
}

#[test]
fn two_field_schema_ignores_declaration_order() {
    let first = pair_schema(true);
    let second = pair_schema(false);
    assert_eq!(first.len(), second.len());
    assert_eq!(first.get("a").unwrap().name, second.get("a").unwrap().name);
    assert_eq!(first.get("b").unwrap().name, second.get("b").unwrap().name);
}

#[test]
fn missing_field_is_reported_by_name() {
    // Deserializing `{"a": 5}` for a struct with fields {a: u8, b: string}:
    // field `a` decodes, then the lookup of `b` fails.
    let obj = parse_settings_object("{\"a\": 5}").unwrap();
    let a: Result<u8, _> = settings_field(&obj, "a");
    assert_eq!(a, Ok(5u8));
    let b: Result<String, _> = settings_field(&obj, "b");
    assert_eq!(b, Err(DeserializationError::MissingField("b".to_owned())));
}

#[test]
fn field_failures_carry_the_field_name() {
    let obj = parse_settings_object("{\"a\": \"oops\"}").unwrap();
    let a: Result<u8, _> = settings_field(&obj, "a");
    assert_eq!(
        a,
        Err(DeserializationError::FieldDeserializationError(
            "a".to_owned(),
            EditError::WrongKind
        ))
    );
}

#[test]
fn non_object_blob_is_rejected() {
    assert!(matches!(
        parse_settings_object("\"5\""),
        Err(DeserializationError::NotObject)
    ));
    assert!(matches!(
        parse_settings_object("[1,2]"),
        Err(DeserializationError::NotObject)
    ));
    assert!(matches!(
        parse_settings_object("not json at all"),
        Err(DeserializationError::NotObject)
    ));
}

#[test]
fn non_object_blob_is_rejected_through_a_settings_struct() {
    assert_eq!(
        ThresholdSettings::deserialize("\"5\""),
        Err(DeserializationError::NotObject)
    );
    assert_eq!(
        ThresholdSettings::deserialize("[1,2]"),
        Err(DeserializationError::NotObject)
    );
}

#[test]
fn oversized_digit_runs_are_rejected_before_parsing() {
    // A fraction of this length would overflow the parser's 16-bit
    // decimal exponent; the library refuses the text instead.
    let mut blob = String::from("{\"threshold\": 0.");
    for _ in 0..33000 {
        blob.push('0');
    }
    blob.push('}');
    assert_eq!(
        ThresholdSettings::deserialize(&blob),
        Err(DeserializationError::NotObject)
    );
}

#[test]
fn maximal_digit_runs_still_parse() {
    // A run at the limit is safe for the parser; the fraction is then
    // simply not an exact integer, so the field decode fails.
    let mut blob = String::from("{\"threshold\": 0.");
    for _ in 0..32768 {
        blob.push('0');
    }
    blob.push('}');
    assert_eq!(
        ThresholdSettings::deserialize(&blob),
        Err(DeserializationError::FieldDeserializationError(
            "threshold".to_owned(),
            EditError::WrongKind
        ))
    );
}

#[test]
fn threshold_settings_deserialize() {
    assert_eq!(
        ThresholdSettings::deserialize("{\"threshold\": 5}"),
        Ok(ThresholdSettings { threshold: 5 })
    );
    assert_eq!(
        ThresholdSettings::deserialize("{}"),
        Err(DeserializationError::MissingField("threshold".to_owned()))
    );
    assert_eq!(
        ThresholdSettings::deserialize("{\"threshold\": 300}"),
        Err(DeserializationError::FieldDeserializationError(
            "threshold".to_owned(),
            EditError::WrongKind
        ))
    );
}

#[test]
fn unit_settings_accept_anything() {
    assert_eq!(<() as Configurable>::deserialize("not json at all"), Ok(()));
    assert_eq!(<() as Configurable>::schema().len(), 0);
}

#[test]
fn clamp_settings_deserialize_from_text() {
    let s = ClampSettings::deserialize(
        "{\"cutoff\": 42, \"window\": {\"min\": 3, \"max\": 7}, \"label\": \"demo\"}",
    )
    .unwrap();
    assert_eq!(s.cutoff.val, 42);
    assert_eq!((s.window.min, s.window.max), (3, 7));
    assert_eq!(s.label, "demo");
}

#[test]
fn clamp_settings_reject_inverted_window() {
    let r = ClampSettings::deserialize(
        "{\"cutoff\": 42, \"window\": {\"min\": 7, \"max\": 3}, \"label\": \"demo\"}",
    );
    assert_eq!(
        r,
        Err(DeserializationError::FieldDeserializationError(
            "window".to_owned(),
            EditError::InvertedRange
        ))
    );
}

#[test]
fn clamp_settings_reject_out_of_bounds_cutoff() {
    let r = ClampSettings::deserialize(
        "{\"cutoff\": 101, \"window\": {\"min\": 3, \"max\": 7}, \"label\": \"demo\"}",
    );
    assert_eq!(
        r,
        Err(DeserializationError::FieldDeserializationError(
            "cutoff".to_owned(),
            EditError::OutOfBounds
        ))
    );
}

#[test]
fn clamp_settings_schema_lists_all_fields() {
    let m = ClampSettings::schema();
    assert_eq!(m.len(), 3);
    let cutoff = m.get("cutoff").unwrap();
    assert_eq!(cutoff.name, "ConstrainedU8");
    assert_eq!(cutoff.params.get("min"), Some(&0i64));
    assert_eq!(cutoff.params.get("max"), Some(&100i64));
    let window = m.get("window").unwrap();
    assert_eq!(window.name, "RangeU16");
    assert_eq!(window.params.get("max"), Some(&1000i64));
    assert_eq!(m.get("label").unwrap().name, "string");
}

#[test]
fn fractional_numbers_fail_integer_fields() {
    let obj = parse_settings_object("{\"a\": 5.5}").unwrap();
    let a: Result<u8, _> = settings_field(&obj, "a");
    assert_eq!(
        a,
        Err(DeserializationError::FieldDeserializationError(
            "a".to_owned(),
            EditError::WrongKind
        ))
    );
}
