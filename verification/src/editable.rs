use vstd::prelude::*;
use crate::EditError;
use crate::schema::{NameMap, SettingType, SettingTypeV};
use crate::value::{JsonData, Value};

verus! {

/// The schema a fixed-width integer kind declares: its name and its
/// natural minimum and maximum.
pub open spec fn int_schema(name: Seq<char>, lo: i64, hi: i64) -> SettingTypeV {
    SettingTypeV { name, params: map!["min"@ => lo, "max"@ => hi] }
}

/// The exact integer a value denotes, accepted only within `[lo, hi]`.
pub open spec fn int_in(d: JsonData, lo: int, hi: int) -> Option<int> {
    match d.as_int() {
        Some(n) => if lo <= n <= hi {
            Some(n)
        } else {
            None
        },
        None => None,
    }
}

/// Build the schema entry of an integer kind with the given bounds.
pub(crate) fn int_setting(name: &str, lo: i64, hi: i64) -> (r: SettingType)
    ensures
        r.wf(),
        r@ == int_schema(name@, lo, hi),
{
    proof {
        reveal_strlit("min");
        reveal_strlit("max");
        assert("min"@[1] != "max"@[1]);
        assert("min"@ != "max"@);
    }
    let mut params = NameMap::<i64>::new();
    params.insert("min".to_owned(), lo);
    params.insert("max".to_owned(), hi);
    proof {
        assert(params@ =~= int_schema(name@, lo, hi).params);
    }
    SettingType { name: name.to_owned(), params }
}

/// The integer a value denotes when it lies within `[lo, hi]`.
pub(crate) fn take_int(v: &Value, lo: i64, hi: i64) -> (r: Option<i64>)
    ensures
        match r {
            Some(n) => int_in(v@, lo as int, hi as int) == Some(n as int),
            None => int_in(v@, lo as int, hi as int) is None,
        },
{
    match v.as_i64() {
        Some(n) => if lo <= n && n <= hi {
            Some(n)
        } else {
            None
        },
        None => None,
    }
}

/// A leaf value type of a settings struct: it describes itself with a
/// schema entry and decodes itself from a structured value.
pub trait Editable: View + Sized {
    /// The schema entry this type declares.
    spec fn spec_schema() -> SettingTypeV;

    /// What deserialization returns on each structured value.
    spec fn spec_deserialize(d: JsonData) -> Result<Self::V, EditError>;

    /// Describe this type for schema introspection.
    fn schema() -> (r: SettingType)
        ensures
            r.wf(),
            r@ == Self::spec_schema(),
    ;

    /// Decode a structured value into this type.
    fn deserialize(v: &Value) -> (r: Result<Self, EditError>)
        ensures
            match r {
                Ok(x) => Self::spec_deserialize(v@) == Ok::<Self::V, EditError>(x@),
                Err(e) => Self::spec_deserialize(v@) == Err::<Self::V, EditError>(e),
            },
    ;
}

impl Editable for u8 {
    open spec fn spec_schema() -> SettingTypeV {
        int_schema("u8"@, 0, 255)
    }

    open spec fn spec_deserialize(d: JsonData) -> Result<u8, EditError> {
        match int_in(d, 0, 255) {
            Some(n) => Ok(n as u8),
            None => Err(EditError::WrongKind),
        }
    }

    fn schema() -> (r: SettingType) {
        int_setting("u8", 0, 255)
    }

    fn deserialize(v: &Value) -> (r: Result<u8, EditError>) {
        match take_int(v, 0, 255) {
            Some(n) => Ok(n as u8),
            None => Err(EditError::WrongKind),
        }
    }
}

impl Editable for u16 {
    open spec fn spec_schema() -> SettingTypeV {
        int_schema("u16"@, 0, 65535)
    }

    open spec fn spec_deserialize(d: JsonData) -> Result<u16, EditError> {
        match int_in(d, 0, 65535) {
            Some(n) => Ok(n as u16),
            None => Err(EditError::WrongKind),
        }
    }

    fn schema() -> (r: SettingType) {
        int_setting("u16", 0, 65535)
    }

    fn deserialize(v: &Value) -> (r: Result<u16, EditError>) {
        match take_int(v, 0, 65535) {
            Some(n) => Ok(n as u16),
            None => Err(EditError::WrongKind),
        }
    }
}

impl Editable for u32 {
    open spec fn spec_schema() -> SettingTypeV {
        int_schema("u32"@, 0, 4294967295)
    }

    open spec fn spec_deserialize(d: JsonData) -> Result<u32, EditError> {
        match int_in(d, 0, 4294967295) {
            Some(n) => Ok(n as u32),
            None => Err(EditError::WrongKind),
        }
    }

    fn schema() -> (r: SettingType) {
        int_setting("u32", 0, 4294967295)
    }

    fn deserialize(v: &Value) -> (r: Result<u32, EditError>) {
        match take_int(v, 0, 4294967295) {
            Some(n) => Ok(n as u32),
            None => Err(EditError::WrongKind),
        }
    }
}

impl Editable for i8 {
    open spec fn spec_schema() -> SettingTypeV {
        int_schema("i8"@, -128i64, 127)
    }

    open spec fn spec_deserialize(d: JsonData) -> Result<i8, EditError> {
        match int_in(d, -128, 127) {
            Some(n) => Ok(n as i8),
            None => Err(EditError::WrongKind),
        }
    }

    fn schema() -> (r: SettingType) {
        int_setting("i8", -128, 127)
    }

    fn deserialize(v: &Value) -> (r: Result<i8, EditError>) {
        match take_int(v, -128, 127) {
            Some(n) => Ok(n as i8),
            None => Err(EditError::WrongKind),
        }
    }
}

impl Editable for i16 {
    open spec fn spec_schema() -> SettingTypeV {
        int_schema("i16"@, -32768i64, 32767)
    }

    open spec fn spec_deserialize(d: JsonData) -> Result<i16, EditError> {
        match int_in(d, -32768, 32767) {
            Some(n) => Ok(n as i16),
            None => Err(EditError::WrongKind),
        }
    }

    fn schema() -> (r: SettingType) {
        int_setting("i16", -32768, 32767)
    }

    fn deserialize(v: &Value) -> (r: Result<i16, EditError>) {
        match take_int(v, -32768, 32767) {
            Some(n) => Ok(n as i16),
            None => Err(EditError::WrongKind),
        }
    }
}

impl Editable for i32 {
    open spec fn spec_schema() -> SettingTypeV {
        int_schema("i32"@, -2147483648i64, 2147483647)
    }

    open spec fn spec_deserialize(d: JsonData) -> Result<i32, EditError> {
        match int_in(d, -2147483648, 2147483647) {
            Some(n) => Ok(n as i32),
            None => Err(EditError::WrongKind),
        }
    }

    fn schema() -> (r: SettingType) {
        int_setting("i32", -2147483648, 2147483647)
    }

    fn deserialize(v: &Value) -> (r: Result<i32, EditError>) {
        match take_int(v, -2147483648, 2147483647) {
            Some(n) => Ok(n as i32),
            None => Err(EditError::WrongKind),
        }
    }
}

impl Editable for bool {
    open spec fn spec_schema() -> SettingTypeV {
        SettingTypeV { name: "bool"@, params: Map::empty() }
    }

    open spec fn spec_deserialize(d: JsonData) -> Result<bool, EditError> {
        match d {
            JsonData::Bool(b) => Ok(b),
            _ => Err(EditError::WrongKind),
        }
    }

    fn schema() -> (r: SettingType) {
        SettingType { name: "bool".to_owned(), params: NameMap::new() }
    }

    fn deserialize(v: &Value) -> (r: Result<bool, EditError>) {
        match v.as_bool() {
            Some(b) => Ok(b),
            None => Err(EditError::WrongKind),
        }
    }
}

impl Editable for String {
    open spec fn spec_schema() -> SettingTypeV {
        SettingTypeV { name: "string"@, params: Map::empty() }
    }

    open spec fn spec_deserialize(d: JsonData) -> Result<Seq<char>, EditError> {
        match d {
            JsonData::Str(s) => Ok(s),
            _ => Err(EditError::WrongKind),
        }
    }

    fn schema() -> (r: SettingType) {
        SettingType { name: "string".to_owned(), params: NameMap::new() }
    }

    fn deserialize(v: &Value) -> (r: Result<String, EditError>) {
        match v.as_str() {
            Some(s) => Ok(s.clone()),
            None => Err(EditError::WrongKind),
        }
    }
}

} // verus!
