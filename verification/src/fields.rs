use vstd::prelude::*;
use vstd::string::StringSliceAdditionalSpecFns;
use crate::{DeserializationError, DeserializationErrorV};
use crate::bounded::{Bounds, Constrained, Constraint, RangeValue};
use crate::editable::Editable;
use crate::parse::{
    digit_runs_at_most, digit_runs_bounded, parse_json, parsed_json, DIGIT_RUN_LIMIT,
};
use crate::value::{JsonData, Value};

verus! {

/// The object a settings text denotes, if it parses and is an object.
pub open spec fn spec_settings_object(j: Option<JsonData>) -> Option<JsonData> {
    match j {
        Some(d) => if d is Obj {
            Some(d)
        } else {
            None
        },
        None => None,
    }
}

/// Parse a settings text and insist on an object at the top level;
/// anything else is `NotObject`: a malformed text, and also one whose
/// digit runs are too long for the parser (see `DIGIT_RUN_LIMIT`).
pub fn parse_settings_object(input: &str) -> (r: Result<Value, DeserializationError>)
    ensures
        match r {
            Ok(v) => digit_runs_at_most(input.spec_bytes(), DIGIT_RUN_LIMIT as int)
                && parsed_json(input@) == Some(v@) && spec_settings_object(parsed_json(input@))
                == Some(v@),
            Err(e) => e@ == DeserializationErrorV::NotObject && (!digit_runs_at_most(
                input.spec_bytes(),
                DIGIT_RUN_LIMIT as int,
            ) || spec_settings_object(parsed_json(input@)) is None),
        },
{
    if !digit_runs_bounded(input) {
        return Err(DeserializationError::NotObject);
    }
    match parse_json(input) {
        Some(v) => {
            if v.is_object() {
                Ok(v)
            } else {
                Err(DeserializationError::NotObject)
            }
        },
        None => Err(DeserializationError::NotObject),
    }
}

/// What decoding one named field of a settings object yields: absence is
/// `MissingField`, a leaf failure is wrapped with the field's name.
pub open spec fn spec_settings_field<T: Editable>(d: JsonData, name: Seq<char>) -> Result<
    T::V,
    DeserializationErrorV,
> {
    match d.lookup(name) {
        Some(x) => match T::spec_deserialize(x) {
            Ok(v) => Ok(v),
            Err(e) => Err(DeserializationErrorV::FieldDeserializationError(name, e)),
        },
        None => Err(DeserializationErrorV::MissingField(name)),
    }
}

/// Decode one named field of a settings object as a leaf `Editable` type.
pub fn settings_field<T: Editable>(obj: &Value, name: &str) -> (r: Result<
    T,
    DeserializationError,
>)
    ensures
        match r {
            Ok(x) => spec_settings_field::<T>(obj@, name@) == Ok::<T::V, DeserializationErrorV>(
                x@,
            ),
            Err(e) => spec_settings_field::<T>(obj@, name@) == Err::<T::V, DeserializationErrorV>(
                e@,
            ),
        },
{
    match obj.lookup(name) {
        Some(x) => match T::deserialize(x) {
            Ok(v) => Ok(v),
            Err(e) => Err(
                DeserializationError::FieldDeserializationError(name.to_owned(), e),
            ),
        },
        None => Err(DeserializationError::MissingField(name.to_owned())),
    }
}

/// What decoding one named constrained field yields.
pub open spec fn spec_constrained_field(d: JsonData, name: Seq<char>, c: Constraint) -> Result<
    int,
    DeserializationErrorV,
> {
    match d.lookup(name) {
        Some(x) => match c.spec_deserialize(x) {
            Ok(n) => Ok(n),
            Err(e) => Err(DeserializationErrorV::FieldDeserializationError(name, e)),
        },
        None => Err(DeserializationErrorV::MissingField(name)),
    }
}

/// Decode one named field of a settings object under a constraint.
pub fn constrained_field(obj: &Value, name: &str, c: &Constraint) -> (r: Result<
    Constrained,
    DeserializationError,
>)
    requires
        c.wf(),
    ensures
        match r {
            Ok(x) => x.wf() && x.constraint == *c && spec_constrained_field(obj@, name@, *c)
                == Ok::<int, DeserializationErrorV>(x.val as int),
            Err(e) => spec_constrained_field(obj@, name@, *c) == Err::<
                int,
                DeserializationErrorV,
            >(e@),
        },
{
    match obj.lookup(name) {
        Some(x) => match c.deserialize(x) {
            Ok(v) => Ok(v),
            Err(e) => Err(
                DeserializationError::FieldDeserializationError(name.to_owned(), e),
            ),
        },
        None => Err(DeserializationError::MissingField(name.to_owned())),
    }
}

/// What decoding one named range field yields.
pub open spec fn spec_range_field(d: JsonData, name: Seq<char>, b: Bounds) -> Result<
    (int, int),
    DeserializationErrorV,
> {
    match d.lookup(name) {
        Some(x) => match b.spec_range_deserialize(x) {
            Ok(p) => Ok(p),
            Err(e) => Err(DeserializationErrorV::FieldDeserializationError(name, e)),
        },
        None => Err(DeserializationErrorV::MissingField(name)),
    }
}

/// Decode one named field of a settings object as a range pair.
pub fn range_field(obj: &Value, name: &str, b: &Bounds) -> (r: Result<
    RangeValue,
    DeserializationError,
>)
    requires
        b.wf(),
    ensures
        match r {
            Ok(x) => x.wf() && x.bounds == *b && spec_range_field(obj@, name@, *b) == Ok::<
                (int, int),
                DeserializationErrorV,
            >((x.min as int, x.max as int)),
            Err(e) => spec_range_field(obj@, name@, *b) == Err::<
                (int, int),
                DeserializationErrorV,
            >(e@),
        },
{
    match obj.lookup(name) {
        Some(x) => match b.range_deserialize(x) {
            Ok(v) => Ok(v),
            Err(e) => Err(
                DeserializationError::FieldDeserializationError(name.to_owned(), e),
            ),
        },
        None => Err(DeserializationError::MissingField(name.to_owned())),
    }
}

} // verus!
