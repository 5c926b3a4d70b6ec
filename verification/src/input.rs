use vstd::prelude::*;
use crate::{DeserializationError, DeserializationErrorV};
use crate::erased::{AnyData, AnyValue, Erased};
use crate::schema::{NameMap, Type};

verus! {

/// A typed view over a dynamic value map: each declared field is looked
/// up by name and recovered at its static type, borrowed for `'a`.
pub trait Input<'a>: Sized {
    /// The expected field names and their static type names.
    spec fn spec_schema() -> Map<Seq<char>, Seq<char>>;

    /// The error construction from the map reports, if any.
    spec fn spec_check(m: Map<Seq<char>, AnyData>) -> Option<DeserializationErrorV>;

    /// Whether this value is what construction from the map yields.
    spec fn obtained_from(self, m: Map<Seq<char>, AnyData>) -> bool;

    /// Describe the expected fields for schema introspection.
    fn schema() -> (r: NameMap<Type>)
        ensures
            r.wf(),
            r@ == Self::spec_schema(),
    ;

    /// Recover the typed view from a dynamic value map.
    fn from_any_map(m: &'a NameMap<AnyValue>) -> (r: Result<Self, DeserializationError>)
        requires
            m.wf(),
        ensures
            match r {
                Ok(x) => Self::spec_check(m@) is None && x.obtained_from(m@),
                Err(e) => Self::spec_check(m@) == Some(e@),
            },
    ;
}

/// The one-field typed view: a single borrowed value named "val".
pub struct InputSingular<'a, T> {
    pub val: &'a T,
}

impl<'a, T: Erased> Input<'a> for InputSingular<'a, T> {
    open spec fn spec_schema() -> Map<Seq<char>, Seq<char>> {
        map!["val"@ => T::spec_label()]
    }

    open spec fn spec_check(m: Map<Seq<char>, AnyData>) -> Option<DeserializationErrorV> {
        if !m.contains_key("val"@) {
            Some(DeserializationErrorV::MissingField("val"@))
        } else if T::spec_extract(m["val"@]) is None {
            Some(DeserializationErrorV::TypeError("val"@))
        } else {
            None
        }
    }

    open spec fn obtained_from(self, m: Map<Seq<char>, AnyData>) -> bool {
        m.contains_key("val"@) && T::spec_extract(m["val"@]) == Some(self.val@)
    }

    fn schema() -> (r: NameMap<Type>) {
        let mut r = NameMap::<Type>::new();
        r.insert("val".to_owned(), Type { name: T::type_label() });
        proof {
            assert(r@ =~= Self::spec_schema());
        }
        r
    }

    fn from_any_map(m: &'a NameMap<AnyValue>) -> (r: Result<Self, DeserializationError>) {
        match m.get("val") {
            Some(av) => match T::try_extract(av) {
                Some(x) => Ok(InputSingular { val: x }),
                None => Err(DeserializationError::TypeError("val".to_owned())),
            },
            None => Err(DeserializationError::MissingField("val".to_owned())),
        }
    }
}

/// The zero-field typed view: it expects nothing and always succeeds.
impl<'a> Input<'a> for () {
    open spec fn spec_schema() -> Map<Seq<char>, Seq<char>> {
        Map::empty()
    }

    open spec fn spec_check(m: Map<Seq<char>, AnyData>) -> Option<DeserializationErrorV> {
        None
    }

    open spec fn obtained_from(self, m: Map<Seq<char>, AnyData>) -> bool {
        true
    }

    fn schema() -> (r: NameMap<Type>) {
        NameMap::new()
    }

    fn from_any_map(m: &'a NameMap<AnyValue>) -> (r: Result<Self, DeserializationError>) {
        Ok(())
    }
}

} // verus!
