use vstd::prelude::*;

verus! {

/// Model of an `AnyValue`.
pub enum AnyData {
    U8(u8),
    U16(u16),
    U32(u32),
    I8(i8),
    I16(i16),
    I32(i32),
    Bool(bool),
    Str(Seq<char>),
}

/// A type-erased single value: the dynamic representation that crosses
/// the boundary between a node and its orchestrator. Recovering the
/// static type is a checked operation that can fail, never more.
#[derive(Debug, Clone, PartialEq, Eq)]
pub enum AnyValue {
    U8(u8),
    U16(u16),
    U32(u32),
    I8(i8),
    I16(i16),
    I32(i32),
    Bool(bool),
    Str(String),
}

impl View for AnyValue {
    type V = AnyData;

    open spec fn view(&self) -> AnyData {
        match self {
            AnyValue::U8(x) => AnyData::U8(*x),
            AnyValue::U16(x) => AnyData::U16(*x),
            AnyValue::U32(x) => AnyData::U32(*x),
            AnyValue::I8(x) => AnyData::I8(*x),
            AnyValue::I16(x) => AnyData::I16(*x),
            AnyValue::I32(x) => AnyData::I32(*x),
            AnyValue::Bool(x) => AnyData::Bool(*x),
            AnyValue::Str(x) => AnyData::Str(x@),
        }
    }
}

/// A static type that can cross the dynamic boundary: it erases itself
/// into an `AnyValue` and recovers itself by a checked extraction.
pub trait Erased: View + Sized {
    /// The name this type shows in input and output schemas.
    spec fn spec_label() -> Seq<char>;

    /// The erased form of a value.
    spec fn spec_erased(self) -> AnyData;

    /// What checked extraction recovers from an erased value.
    spec fn spec_extract(d: AnyData) -> Option<Self::V>;

    /// Erasing then extracting recovers the value exactly.
    proof fn lemma_extract_erased(self)
        ensures
            Self::spec_extract(self.spec_erased()) == Some(self@),
    ;

    /// The schema name of this type.
    fn type_label() -> (r: String)
        ensures
            r@ == Self::spec_label(),
    ;

    /// Move the value into its erased form.
    fn erase(self) -> (r: AnyValue)
        ensures
            r@ == self.spec_erased(),
    ;

    /// Recover the static type from an erased value, if the types match.
    fn try_extract(v: &AnyValue) -> (r: Option<&Self>)
        ensures
            match r {
                Some(x) => Self::spec_extract(v@) == Some(x@),
                None => Self::spec_extract(v@) is None,
            },
    ;
}

impl Erased for u8 {
    open spec fn spec_label() -> Seq<char> {
        "u8"@
    }

    open spec fn spec_erased(self) -> AnyData {
        AnyData::U8(self)
    }

    open spec fn spec_extract(d: AnyData) -> Option<u8> {
        match d {
            AnyData::U8(x) => Some(x),
            _ => None,
        }
    }

    proof fn lemma_extract_erased(self) {
    }

    fn type_label() -> (r: String) {
        "u8".to_owned()
    }

    fn erase(self) -> (r: AnyValue) {
        AnyValue::U8(self)
    }

    fn try_extract(v: &AnyValue) -> (r: Option<&u8>) {
        match v {
            AnyValue::U8(x) => Some(x),
            _ => None,
        }
    }
}

impl Erased for u16 {
    open spec fn spec_label() -> Seq<char> {
        "u16"@
    }

    open spec fn spec_erased(self) -> AnyData {
        AnyData::U16(self)
    }

    open spec fn spec_extract(d: AnyData) -> Option<u16> {
        match d {
            AnyData::U16(x) => Some(x),
            _ => None,
        }
    }

    proof fn lemma_extract_erased(self) {
    }

    fn type_label() -> (r: String) {
        "u16".to_owned()
    }

    fn erase(self) -> (r: AnyValue) {
        AnyValue::U16(self)
    }

    fn try_extract(v: &AnyValue) -> (r: Option<&u16>) {
        match v {
            AnyValue::U16(x) => Some(x),
            _ => None,
        }
    }
}

impl Erased for u32 {
    open spec fn spec_label() -> Seq<char> {
        "u32"@
    }

    open spec fn spec_erased(self) -> AnyData {
        AnyData::U32(self)
    }

    open spec fn spec_extract(d: AnyData) -> Option<u32> {
        match d {
            AnyData::U32(x) => Some(x),
            _ => None,
        }
    }

    proof fn lemma_extract_erased(self) {
    }

    fn type_label() -> (r: String) {
        "u32".to_owned()
    }

    fn erase(self) -> (r: AnyValue) {
        AnyValue::U32(self)
    }

    fn try_extract(v: &AnyValue) -> (r: Option<&u32>) {
        match v {
            AnyValue::U32(x) => Some(x),
            _ => None,
        }
    }
}

impl Erased for i8 {
    open spec fn spec_label() -> Seq<char> {
        "i8"@
    }

    open spec fn spec_erased(self) -> AnyData {
        AnyData::I8(self)
    }

    open spec fn spec_extract(d: AnyData) -> Option<i8> {
        match d {
            AnyData::I8(x) => Some(x),
            _ => None,
        }
    }

    proof fn lemma_extract_erased(self) {
    }

    fn type_label() -> (r: String) {
        "i8".to_owned()
    }

    fn erase(self) -> (r: AnyValue) {
        AnyValue::I8(self)
    }

    fn try_extract(v: &AnyValue) -> (r: Option<&i8>) {
        match v {
            AnyValue::I8(x) => Some(x),
            _ => None,
        }
    }
}

impl Erased for i16 {
    open spec fn spec_label() -> Seq<char> {
        "i16"@
    }

    open spec fn spec_erased(self) -> AnyData {
        AnyData::I16(self)
    }

    open spec fn spec_extract(d: AnyData) -> Option<i16> {
        match d {
            AnyData::I16(x) => Some(x),
            _ => None,
        }
    }

    proof fn lemma_extract_erased(self) {
    }

    fn type_label() -> (r: String) {
        "i16".to_owned()
    }

    fn erase(self) -> (r: AnyValue) {
        AnyValue::I16(self)
    }

    fn try_extract(v: &AnyValue) -> (r: Option<&i16>) {
        match v {
            AnyValue::I16(x) => Some(x),
            _ => None,
        }
    }
}

impl Erased for i32 {
    open spec fn spec_label() -> Seq<char> {
        "i32"@
    }

    open spec fn spec_erased(self) -> AnyData {
        AnyData::I32(self)
    }

    open spec fn spec_extract(d: AnyData) -> Option<i32> {
        match d {
            AnyData::I32(x) => Some(x),
            _ => None,
        }
    }

    proof fn lemma_extract_erased(self) {
    }

    fn type_label() -> (r: String) {
        "i32".to_owned()
    }

    fn erase(self) -> (r: AnyValue) {
        AnyValue::I32(self)
    }

    fn try_extract(v: &AnyValue) -> (r: Option<&i32>) {
        match v {
            AnyValue::I32(x) => Some(x),
            _ => None,
        }
    }
}

impl Erased for bool {
    open spec fn spec_label() -> Seq<char> {
        "bool"@
    }

    open spec fn spec_erased(self) -> AnyData {
        AnyData::Bool(self)
    }

    open spec fn spec_extract(d: AnyData) -> Option<bool> {
        match d {
            AnyData::Bool(x) => Some(x),
            _ => None,
        }
    }

    proof fn lemma_extract_erased(self) {
    }

    fn type_label() -> (r: String) {
        "bool".to_owned()
    }

    fn erase(self) -> (r: AnyValue) {
        AnyValue::Bool(self)
    }

    fn try_extract(v: &AnyValue) -> (r: Option<&bool>) {
        match v {
            AnyValue::Bool(x) => Some(x),
            _ => None,
        }
    }
}

impl Erased for String {
    open spec fn spec_label() -> Seq<char> {
        "string"@
    }

    open spec fn spec_erased(self) -> AnyData {
        AnyData::Str(self@)
    }

    open spec fn spec_extract(d: AnyData) -> Option<Seq<char>> {
        match d {
            AnyData::Str(x) => Some(x),
            _ => None,
        }
    }

    proof fn lemma_extract_erased(self) {
    }

    fn type_label() -> (r: String) {
        "string".to_owned()
    }

    fn erase(self) -> (r: AnyValue) {
        AnyValue::Str(self)
    }

    fn try_extract(v: &AnyValue) -> (r: Option<&String>) {
        match v {
            AnyValue::Str(x) => Some(x),
            _ => None,
        }
    }
}

} // verus!
