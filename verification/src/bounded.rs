use vstd::prelude::*;
use crate::EditError;
use crate::editable::{int_schema, int_setting, take_int};
use crate::schema::{SettingType, SettingTypeV};
use crate::value::{JsonData, Value};

verus! {

/// The fixed-width integer kind a bounded value wraps.
#[derive(Debug, Clone, Copy, PartialEq, Eq, Structural)]
pub enum IntKind {
    U8,
    U16,
    U32,
    I8,
    I16,
    I32,
}

/// The smallest value the kind's width can hold.
pub open spec fn native_min(k: IntKind) -> int {
    match k {
        IntKind::U8 => 0,
        IntKind::U16 => 0,
        IntKind::U32 => 0,
        IntKind::I8 => -128,
        IntKind::I16 => -32768,
        IntKind::I32 => -2147483648,
    }
}

/// The largest value the kind's width can hold.
pub open spec fn native_max(k: IntKind) -> int {
    match k {
        IntKind::U8 => 255,
        IntKind::U16 => 65535,
        IntKind::U32 => 4294967295,
        IntKind::I8 => 127,
        IntKind::I16 => 32767,
        IntKind::I32 => 2147483647,
    }
}

/// The schema name of the constrained family for the kind.
pub open spec fn constrained_name(k: IntKind) -> Seq<char> {
    match k {
        IntKind::U8 => "ConstrainedU8"@,
        IntKind::U16 => "ConstrainedU16"@,
        IntKind::U32 => "ConstrainedU32"@,
        IntKind::I8 => "ConstrainedI8"@,
        IntKind::I16 => "ConstrainedI16"@,
        IntKind::I32 => "ConstrainedI32"@,
    }
}

/// The schema name of the range family for the kind.
pub open spec fn range_name(k: IntKind) -> Seq<char> {
    match k {
        IntKind::U8 => "RangeU8"@,
        IntKind::U16 => "RangeU16"@,
        IntKind::U32 => "RangeU32"@,
        IntKind::I8 => "RangeI8"@,
        IntKind::I16 => "RangeI16"@,
        IntKind::I32 => "RangeI32"@,
    }
}

fn native_lo(k: IntKind) -> (r: i64)
    ensures
        r as int == native_min(k),
{
    match k {
        IntKind::U8 => 0,
        IntKind::U16 => 0,
        IntKind::U32 => 0,
        IntKind::I8 => -128,
        IntKind::I16 => -32768,
        IntKind::I32 => -2147483648,
    }
}

fn native_hi(k: IntKind) -> (r: i64)
    ensures
        r as int == native_max(k),
{
    match k {
        IntKind::U8 => 255,
        IntKind::U16 => 65535,
        IntKind::U32 => 4294967295,
        IntKind::I8 => 127,
        IntKind::I16 => 32767,
        IntKind::I32 => 2147483647,
    }
}

fn constrained_label(k: IntKind) -> (r: String)
    ensures
        r@ == constrained_name(k),
{
    match k {
        IntKind::U8 => "ConstrainedU8".to_owned(),
        IntKind::U16 => "ConstrainedU16".to_owned(),
        IntKind::U32 => "ConstrainedU32".to_owned(),
        IntKind::I8 => "ConstrainedI8".to_owned(),
        IntKind::I16 => "ConstrainedI16".to_owned(),
        IntKind::I32 => "ConstrainedI32".to_owned(),
    }
}

fn range_label(k: IntKind) -> (r: String)
    ensures
        r@ == range_name(k),
{
    match k {
        IntKind::U8 => "RangeU8".to_owned(),
        IntKind::U16 => "RangeU16".to_owned(),
        IntKind::U32 => "RangeU32".to_owned(),
        IntKind::I8 => "RangeI8".to_owned(),
        IntKind::I16 => "RangeI16".to_owned(),
        IntKind::I32 => "RangeI32".to_owned(),
    }
}

/// Declared inclusive bounds over one integer kind. Declaring bounds
/// that lie outside the kind's width, or with `min` above `max`, is a
/// programmer error: the well-formedness precondition excludes it.
#[derive(Debug, Clone, Copy, PartialEq, Eq, Structural)]
pub struct Bounds {
    pub kind: IntKind,
    pub min: i64,
    pub max: i64,
}

impl Bounds {
    /// The declared bounds fit the kind and are ordered.
    pub open spec fn wf(self) -> bool {
        native_min(self.kind) <= (self.min as int) && (self.min as int) <= (self.max as int) && (self.max as int) <= native_max(self.kind)
    }
}

/// A single-value constraint: declared bounds plus whether they are
/// inclusive. With `inclusive` false both ends are excluded.
#[derive(Debug, Clone, Copy, PartialEq, Eq, Structural)]
pub struct Constraint {
    pub bounds: Bounds,
    pub inclusive: bool,
}

impl Constraint {
    pub open spec fn wf(self) -> bool {
        self.bounds.wf()
    }

    /// Whether the constraint admits the integer.
    pub open spec fn admits(self, n: int) -> bool {
        if self.inclusive {
            (self.bounds.min as int) <= n <= (self.bounds.max as int)
        } else {
            (self.bounds.min as int) < n < (self.bounds.max as int)
        }
    }

    /// The schema entry the constraint declares: the family name for its
    /// kind, and the declared bounds as parameters.
    pub open spec fn spec_schema(self) -> SettingTypeV {
        int_schema(constrained_name(self.bounds.kind), self.bounds.min, self.bounds.max)
    }

    /// What deserialization returns on each structured value: the exact
    /// integer if it fits the kind's width and the declared bounds.
    pub open spec fn spec_deserialize(self, d: JsonData) -> Result<int, EditError> {
        match crate::editable::int_in(d, native_min(self.bounds.kind), native_max(self.bounds.kind)) {
            Some(n) => if self.admits(n) {
                Ok(n)
            } else {
                Err(EditError::OutOfBounds)
            },
            None => Err(EditError::WrongKind),
        }
    }

    /// Describe the constraint for schema introspection.
    pub fn schema(&self) -> (r: SettingType)
        requires
            self.wf(),
        ensures
            r.wf(),
            r@ == self.spec_schema(),
    {
        let label = constrained_label(self.bounds.kind);
        int_setting(label.as_str(), self.bounds.min, self.bounds.max)
    }

    /// Decode a structured value into a constrained value.
    pub fn deserialize(&self, v: &Value) -> (r: Result<Constrained, EditError>)
        requires
            self.wf(),
        ensures
            match r {
                Ok(c) => c.wf() && c.constraint == *self && self.spec_deserialize(v@) == Ok::<
                    int,
                    EditError,
                >(c.val as int),
                Err(e) => self.spec_deserialize(v@) == Err::<int, EditError>(e),
            },
    {
        let lo = native_lo(self.bounds.kind);
        let hi = native_hi(self.bounds.kind);
        match take_int(v, lo, hi) {
            Some(n) => {
                let admitted = if self.inclusive {
                    self.bounds.min <= n && n <= self.bounds.max
                } else {
                    self.bounds.min < n && n < self.bounds.max
                };
                if admitted {
                    Ok(Constrained { constraint: *self, val: n })
                } else {
                    Err(EditError::OutOfBounds)
                }
            },
            None => Err(EditError::WrongKind),
        }
    }
}

/// A value that always satisfies the constraint it was decoded under.
#[derive(Debug, Clone, Copy, PartialEq, Eq, Structural)]
pub struct Constrained {
    pub constraint: Constraint,
    pub val: i64,
}

impl Constrained {
    /// The held value satisfies the constraint.
    pub open spec fn wf(self) -> bool {
        self.constraint.wf() && self.constraint.admits(self.val as int)
    }
}

impl Bounds {
    /// The schema entry the range family declares for these bounds.
    pub open spec fn spec_range_schema(self) -> SettingTypeV {
        int_schema(range_name(self.kind), self.min, self.max)
    }

    /// One end of a range value: the named field must hold an exact
    /// integer of the kind's width, within the declared bounds.
    pub open spec fn spec_range_part(self, d: JsonData, key: Seq<char>) -> Result<int, EditError> {
        match d.lookup(key) {
            Some(x) => match crate::editable::int_in(x, native_min(self.kind), native_max(self.kind)) {
                Some(n) => if (self.min as int) <= n <= (self.max as int) {
                    Ok(n)
                } else {
                    Err(EditError::OutOfBounds)
                },
                None => Err(EditError::WrongKind),
            },
            None => Err(EditError::WrongKind),
        }
    }

    /// What range deserialization returns: the decoded pair, ordered.
    pub open spec fn spec_range_deserialize(self, d: JsonData) -> Result<(int, int), EditError> {
        match (self.spec_range_part(d, "min"@), self.spec_range_part(d, "max"@)) {
            (Ok(lo), Ok(hi)) => if lo <= hi {
                Ok((lo, hi))
            } else {
                Err(EditError::InvertedRange)
            },
            (Err(e), _) => Err(e),
            (_, Err(e)) => Err(e),
        }
    }

    /// Describe the range family for schema introspection.
    pub fn range_schema(&self) -> (r: SettingType)
        requires
            self.wf(),
        ensures
            r.wf(),
            r@ == self.spec_range_schema(),
    {
        let label = range_label(self.kind);
        int_setting(label.as_str(), self.min, self.max)
    }

    fn range_part(&self, v: &Value, key: &str) -> (r: Result<i64, EditError>)
        ensures
            match r {
                Ok(n) => self.spec_range_part(v@, key@) == Ok::<int, EditError>(n as int),
                Err(e) => self.spec_range_part(v@, key@) == Err::<int, EditError>(e),
            },
    {
        let lo = native_lo(self.kind);
        let hi = native_hi(self.kind);
        match v.lookup(key) {
            Some(x) => match take_int(x, lo, hi) {
                Some(n) => if self.min <= n && n <= self.max {
                    Ok(n)
                } else {
                    Err(EditError::OutOfBounds)
                },
                None => Err(EditError::WrongKind),
            },
            None => Err(EditError::WrongKind),
        }
    }

    /// Decode a structured value into a range value: both ends must fit
    /// the declared bounds, and the minimum must not exceed the maximum.
    pub fn range_deserialize(&self, v: &Value) -> (r: Result<RangeValue, EditError>)
        requires
            self.wf(),
        ensures
            match r {
                Ok(rv) => rv.wf() && rv.bounds == *self && self.spec_range_deserialize(v@) == Ok::<
                    (int, int),
                    EditError,
                >((rv.min as int, rv.max as int)),
                Err(e) => self.spec_range_deserialize(v@) == Err::<(int, int), EditError>(e),
            },
    {
        let lo = match self.range_part(v, "min") {
            Ok(n) => n,
            Err(e) => {
                return Err(e);
            },
        };
        let hi = match self.range_part(v, "max") {
            Ok(n) => n,
            Err(e) => {
                return Err(e);
            },
        };
        if lo <= hi {
            Ok(RangeValue { bounds: *self, min: lo, max: hi })
        } else {
            Err(EditError::InvertedRange)
        }
    }
}

/// A pair `(min, max)` drawn from one declared bound, with
/// `bounds.min <= min <= max <= bounds.max` as its invariant.
#[derive(Debug, Clone, Copy, PartialEq, Eq, Structural)]
pub struct RangeValue {
    pub bounds: Bounds,
    pub min: i64,
    pub max: i64,
}

impl RangeValue {
    /// The held pair is ordered and lies within the declared bounds.
    pub open spec fn wf(self) -> bool {
        self.bounds.wf() && self.bounds.min <= self.min <= self.max <= self.bounds.max
    }
}

} // verus!
