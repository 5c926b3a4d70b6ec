use vstd::prelude::*;
use crate::erased::{AnyData, AnyValue, Erased};
use crate::schema::{NameMap, Type};

verus! {

/// A typed result that moves its fields into a dynamic value map, each
/// owned and keyed by its field name.
pub trait Output: Sized {
    /// The produced field names and their static type names.
    spec fn spec_schema() -> Map<Seq<char>, Seq<char>>;

    /// The map this value erases to.
    spec fn spec_to(self) -> Map<Seq<char>, AnyData>;

    /// Describe the produced fields for schema introspection.
    fn schema() -> (r: NameMap<Type>)
        ensures
            r.wf(),
            r@ == Self::spec_schema(),
    ;

    /// Move every field into an owned, type-erased map.
    fn to_any_map(self) -> (r: NameMap<AnyValue>)
        ensures
            r.wf(),
            r@ == self.spec_to(),
    ;
}

/// The one-field typed result: a single owned value named "val".
pub struct OutputSingular<T> {
    pub val: T,
}

impl<T: Erased> Output for OutputSingular<T> {
    open spec fn spec_schema() -> Map<Seq<char>, Seq<char>> {
        map!["val"@ => T::spec_label()]
    }

    open spec fn spec_to(self) -> Map<Seq<char>, AnyData> {
        map!["val"@ => self.val.spec_erased()]
    }

    fn schema() -> (r: NameMap<Type>) {
        let mut r = NameMap::<Type>::new();
        r.insert("val".to_owned(), Type { name: T::type_label() });
        proof {
            assert(r@ =~= Self::spec_schema());
        }
        r
    }

    fn to_any_map(self) -> (r: NameMap<AnyValue>) {
        let ghost o = self;
        let mut r = NameMap::<AnyValue>::new();
        r.insert("val".to_owned(), self.val.erase());
        proof {
            assert(r@ =~= o.spec_to());
        }
        r
    }
}

impl<T> From<T> for OutputSingular<T> {
    fn from(val: T) -> (r: Self) {
        OutputSingular { val }
    }
}

impl<T> vstd::std_specs::convert::FromSpecImpl<T> for OutputSingular<T> {
    open spec fn obeys_from_spec() -> bool {
        true
    }

    open spec fn from_spec(val: T) -> Self {
        OutputSingular { val }
    }
}

/// The zero-field typed result: it produces an empty map.
impl Output for () {
    open spec fn spec_schema() -> Map<Seq<char>, Seq<char>> {
        Map::empty()
    }

    open spec fn spec_to(self) -> Map<Seq<char>, AnyData> {
        Map::empty()
    }

    fn schema() -> (r: NameMap<Type>) {
        NameMap::new()
    }

    fn to_any_map(self) -> (r: NameMap<AnyValue>) {
        NameMap::new()
    }
}

} // verus!
