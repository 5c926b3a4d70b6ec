use vision_traits::{
    DeserializationError, NodeCreationError, NodeProcessable, NodeProcessingError,
};
use vision_traits::erased::{AnyValue, Erased};
use vision_traits::input::{Input, InputSingular};
use vision_traits::output::{Output, OutputSingular};
use vision_traits::schema::NameMap;
use vision_traits::nodes::{OneShotNode, ThresholdNode};

#[test]
fn erased_round_trip_recovers_value() {
    // A one-field output moved into a map, then read back as an input.
    let out = OutputSingular { val: 0xDEADBEEFu32 };
    let map = out.to_any_map();
    let input = InputSingular::<u32>::from_any_map(&map).unwrap();
    assert_eq!(*input.val, 0xDEADBEEFu32);
}

#[test]
fn erased_round_trip_recovers_strings() {
    let out = OutputSingular { val: "payload".to_owned() };
    let map = out.to_any_map();
    let input = InputSingular::<String>::from_any_map(&map).unwrap();
    assert_eq!(input.val, "payload");
}

#[test]
fn extraction_checks_the_dynamic_type() {
    let wrong = u8::try_extract(&AnyValue::U32(7));
    assert_eq!(wrong, None);
    let right = u32::try_extract(&AnyValue::U32(7));
    assert_eq!(right, Some(&7u32));
}

#[test]
fn threshold_node_end_to_end() {
    let mut node = <ThresholdNode as NodeProcessable>::make("{\"threshold\": 5}").unwrap();

    let mut map = NameMap::new();
    map.insert("val".to_owned(), AnyValue::U32(13));
    let result = node.process(&map).unwrap();
    assert_eq!(result.get("val"), Some(&AnyValue::Bool(true)));

    let mut low = NameMap::new();
    low.insert("val".to_owned(), AnyValue::U32(3));
    let result = node.process(&low).unwrap();
    assert_eq!(result.get("val"), Some(&AnyValue::Bool(false)));
}

#[test]
fn threshold_node_schema() {
    let schema = <ThresholdNode as NodeProcessable>::get_schema();
    assert_eq!(schema.name, "Threshold");
    assert_eq!(schema.settings.len(), 1);
    let threshold = schema.settings.get("threshold").unwrap();
    assert_eq!(threshold.name, "u8");
    assert_eq!(schema.inputs.len(), 1);
    assert_eq!(schema.inputs.get("val").unwrap().name, "u32");
    assert_eq!(schema.outputs.len(), 1);
    assert_eq!(schema.outputs.get("val").unwrap().name, "bool");
}

#[test]
fn make_rejects_bad_settings() {
    let r = <ThresholdNode as NodeProcessable>::make("[1,2]");
    assert!(matches!(
        r,
        Err(NodeCreationError::DeserializationError(
            DeserializationError::NotObject
        ))
    ));

    let r = <ThresholdNode as NodeProcessable>::make("{}");
    match r {
        Err(NodeCreationError::DeserializationError(DeserializationError::MissingField(f))) => {
            assert_eq!(f, "threshold");
        },
        _ => panic!("expected a missing-field error"),
    }
}

#[test]
fn process_rejects_missing_input() {
    let mut node = <ThresholdNode as NodeProcessable>::make("{\"threshold\": 5}").unwrap();
    let empty = NameMap::new();
    let r = node.process(&empty);
    match r {
        Err(NodeProcessingError::DeserializationError(DeserializationError::MissingField(f))) => {
            assert_eq!(f, "val");
        },
        _ => panic!("expected a missing-field error"),
    }
}

#[test]
fn process_rejects_mistyped_input() {
    let mut node = <ThresholdNode as NodeProcessable>::make("{\"threshold\": 5}").unwrap();
    let mut map = NameMap::new();
    map.insert("val".to_owned(), AnyValue::Bool(true));
    let r = node.process(&map);
    match r {
        Err(NodeProcessingError::DeserializationError(DeserializationError::TypeError(f))) => {
            assert_eq!(f, "val");
        },
        _ => panic!("expected a type error"),
    }
}

#[test]
fn failing_second_call_surfaces_the_execution_error() {
    let mut node = <OneShotNode as NodeProcessable>::make("{}").unwrap();
    let empty = NameMap::new();

    let first = node.process(&empty);
    assert!(first.is_ok());

    let second = node.process(&empty);
    match second {
        Err(NodeProcessingError::ExecutionError(e)) => {
            assert_eq!(e.message, "the node was already spent");
        },
        _ => panic!("expected an execution error on the second call"),
    }
}
