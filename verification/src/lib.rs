pub mod bounded;
pub mod editable;
pub mod erased;
pub mod fields;
pub mod input;
pub mod laws;
pub mod output;
pub mod parse;
pub mod schema;
pub mod nodes;
pub mod value;

use vstd::prelude::*;
use vstd::string::StringSliceAdditionalSpecFns;
use crate::erased::AnyValue;
use crate::input::Input;
use crate::output::Output;
use crate::parse::{digit_runs_at_most, parsed_json, DIGIT_RUN_LIMIT};
use crate::schema::{Function, NameMap, SettingType, SettingTypeV};
use crate::value::JsonData;

verus! {

/// Why a single leaf value could not be decoded.
#[derive(Debug, Clone, Copy, PartialEq, Eq, Structural)]
pub enum EditError {
    /// The value is absent, of the wrong kind, or does not fit the width.
    WrongKind,
    /// The value lies outside the declared bounds.
    OutOfBounds,
    /// A range value's minimum exceeds its maximum.
    InvertedRange,
}

/// Model of a `DeserializationError`.
pub enum DeserializationErrorV {
    TypeError(Seq<char>),
    MissingField(Seq<char>),
    FieldDeserializationError(Seq<char>, EditError),
    NotObject,
}

/// Why a serialized settings blob or a dynamic value map was rejected,
/// always naming the field at fault.
#[derive(Debug, Clone, PartialEq, Eq)]
pub enum DeserializationError {
    /// A dynamic value's true type did not match the expected one.
    TypeError(String),
    /// A required field name was absent.
    MissingField(String),
    /// A present field's raw value failed its leaf conversion.
    FieldDeserializationError(String, EditError),
    /// The top-level serialized settings value was not an object.
    NotObject,
}

impl View for DeserializationError {
    type V = DeserializationErrorV;

    open spec fn view(&self) -> DeserializationErrorV {
        match self {
            DeserializationError::TypeError(f) => DeserializationErrorV::TypeError(f@),
            DeserializationError::MissingField(f) => DeserializationErrorV::MissingField(f@),
            DeserializationError::FieldDeserializationError(f, e) =>
                DeserializationErrorV::FieldDeserializationError(f@, *e),
            DeserializationError::NotObject => DeserializationErrorV::NotObject,
        }
    }
}

/// A node-specific failure, reported by a node's own `make` or `process`.
#[derive(Debug, Clone, PartialEq, Eq)]
pub struct NodeError {
    pub message: String,
}

impl View for NodeError {
    type V = Seq<char>;

    open spec fn view(&self) -> Seq<char> {
        self.message@
    }
}

/// Model of a `NodeCreationError`.
pub enum NodeCreationErrorV {
    DeserializationError(DeserializationErrorV),
    CreationError(Seq<char>),
}

/// Why an erased `make` failed: bad settings text, or a domain failure.
#[derive(Debug, Clone, PartialEq, Eq)]
pub enum NodeCreationError {
    DeserializationError(DeserializationError),
    CreationError(NodeError),
}

impl View for NodeCreationError {
    type V = NodeCreationErrorV;

    open spec fn view(&self) -> NodeCreationErrorV {
        match self {
            NodeCreationError::DeserializationError(e) =>
                NodeCreationErrorV::DeserializationError(e@),
            NodeCreationError::CreationError(e) => NodeCreationErrorV::CreationError(e@),
        }
    }
}

/// Model of a `NodeProcessingError`.
pub enum NodeProcessingErrorV {
    DeserializationError(DeserializationErrorV),
    ExecutionError(Seq<char>),
}

/// Why an erased `process` call failed: a bad input map, or a domain failure.
#[derive(Debug, Clone, PartialEq, Eq)]
pub enum NodeProcessingError {
    DeserializationError(DeserializationError),
    ExecutionError(NodeError),
}

impl View for NodeProcessingError {
    type V = NodeProcessingErrorV;

    open spec fn view(&self) -> NodeProcessingErrorV {
        match self {
            NodeProcessingError::DeserializationError(e) =>
                NodeProcessingErrorV::DeserializationError(e@),
            NodeProcessingError::ExecutionError(e) => NodeProcessingErrorV::ExecutionError(e@),
        }
    }
}

/// A settings struct: it aggregates the schema of its named fields and
/// deserializes itself from a serialized settings text, reporting which
/// field failed.
pub trait Configurable: View + Sized {
    /// The object-level schema: one entry per named field.
    spec fn spec_schema() -> Map<Seq<char>, SettingTypeV>;

    /// What deserialization returns on each parse outcome of the text.
    spec fn spec_deserialize(j: Option<JsonData>) -> Result<Self::V, DeserializationErrorV>;

    /// Enumerate every named field's schema entry.
    fn schema() -> (r: NameMap<SettingType>)
        ensures
            r.wf(),
            r@ == Self::spec_schema(),
    ;

    /// Parse a serialized settings text and decode every field. The
    /// contract speaks of every text whose digit runs the parser can
    /// take (see `parse::DIGIT_RUN_LIMIT`); longer runs are rejected by
    /// the object check, never given to the parser.
    fn deserialize(input: &str) -> (r: Result<Self, DeserializationError>)
        ensures
            digit_runs_at_most(input.spec_bytes(), DIGIT_RUN_LIMIT as int) ==> match r {
                Ok(x) => Self::spec_deserialize(parsed_json(input@)) == Ok::<
                    Self::V,
                    DeserializationErrorV,
                >(x@),
                Err(e) => Self::spec_deserialize(parsed_json(input@)) == Err::<
                    Self::V,
                    DeserializationErrorV,
                >(e@),
            },
    ;
}

/// A settings struct with no fields accepts any settings text, even a
/// malformed one, and deserializes to its unit value.
impl Configurable for () {
    open spec fn spec_schema() -> Map<Seq<char>, SettingTypeV> {
        Map::empty()
    }

    open spec fn spec_deserialize(j: Option<JsonData>) -> Result<(), DeserializationErrorV> {
        Ok(())
    }

    fn schema() -> (r: NameMap<SettingType>) {
        NameMap::new()
    }

    fn deserialize(input: &str) -> (r: Result<(), DeserializationError>) {
        Ok(())
    }
}

/// A unit of work with typed settings, input and output. `make` and
/// `process` may fail for domain reasons of the node's own; the
/// framework wraps such failures but never interprets them.
pub trait Node: Sized {
    type S: Configurable;

    type I<'a>: Input<'a>;

    type O: Output;

    /// The display name of this node type.
    spec fn spec_name() -> Seq<char>;

    /// The display name of this node type.
    fn name() -> (r: String)
        ensures
            r@ == Self::spec_name(),
    ;

    /// Construct an instance from already-deserialized settings.
    fn make(settings: Self::S) -> Result<Self, NodeError>;

    /// Run one unit of work; internal state may change.
    fn process(&mut self, input: Self::I<'_>) -> Result<Self::O, NodeError>;
}

/// The uniform dynamic face of a node type: schema discovery,
/// construction from a serialized settings text, and execution against
/// a dynamic value map. Implemented once, for every `Node`.
pub trait NodeProcessable: Sized {
    /// Assemble the complete schema of this node type.
    fn get_schema() -> Function;

    /// Deserialize settings and construct an instance.
    fn make(input: &str) -> Result<Self, NodeCreationError>;

    /// Build the typed input from the map, run the node, erase the result.
    fn process(&mut self, input: &NameMap<AnyValue>) -> Result<
        NameMap<AnyValue>,
        NodeProcessingError,
    >
        requires
            input.wf(),
    ;
}

/// Assemble the complete schema of a node type from its three
/// associated types' schemas and its display name.
pub fn erased_schema<T: Node>() -> (r: Function)
    ensures
        r.wf(),
        r@.name == T::spec_name(),
        r@.settings == T::S::spec_schema(),
        r@.inputs == <T::I<'static> as Input<'static>>::spec_schema(),
        r@.outputs == T::O::spec_schema(),
{
    Function {
        name: T::name(),
        settings: T::S::schema(),
        inputs: <T::I<'static> as Input<'static>>::schema(),
        outputs: T::O::schema(),
    }
}

/// The node is what the node type's own `make` returned on the settings
/// the text decodes to, so it meets whatever `make`'s contract promises.
pub open spec fn node_made_from<T: Node>(j: Option<JsonData>, n: T) -> bool {
    exists|s: T::S|
        T::S::spec_deserialize(j) == Ok::<<T::S as View>::V, DeserializationErrorV>(s@)
            && #[trigger] call_ensures(T::make, (s,), Ok::<T, NodeError>(n))
}

/// The node type's own `make` failed with this error on the settings the
/// text decodes to.
pub open spec fn node_make_failed<T: Node>(j: Option<JsonData>, ne: NodeError) -> bool {
    exists|s: T::S|
        T::S::spec_deserialize(j) == Ok::<<T::S as View>::V, DeserializationErrorV>(s@)
            && #[trigger] call_ensures(T::make, (s,), Err::<T, NodeError>(ne))
}

/// Deserialize a settings text and construct a node from it, wrapping
/// either failure into the unified creation error. A success wraps what
/// the node's own `make` returned on the decoded settings, and so meets
/// whatever that impl's contract promises of it.
pub fn erased_make<T: Node>(input: &str) -> (r: Result<T, NodeCreationError>)
    ensures
        digit_runs_at_most(input.spec_bytes(), DIGIT_RUN_LIMIT as int) ==> match r {
            Ok(n) => node_made_from::<T>(parsed_json(input@), n),
            Err(e) => match e {
                NodeCreationError::DeserializationError(de) => T::S::spec_deserialize(
                    parsed_json(input@),
                ) == Err::<<T::S as View>::V, DeserializationErrorV>(de@),
                NodeCreationError::CreationError(ne) => node_make_failed::<T>(
                    parsed_json(input@),
                    ne,
                ),
            },
        },
{
    match T::S::deserialize(input) {
        Ok(settings) => {
            let ghost decoded = settings;
            let res = T::make(settings);
            match res {
                Ok(node) => {
                    proof {
                        if digit_runs_at_most(input.spec_bytes(), DIGIT_RUN_LIMIT as int) {
                            assert(T::S::spec_deserialize(parsed_json(input@)) == Ok::<
                                <T::S as View>::V,
                                DeserializationErrorV,
                            >(decoded@) && call_ensures(
                                T::make,
                                (decoded,),
                                Ok::<T, NodeError>(node),
                            ));
                            assert(node_made_from::<T>(parsed_json(input@), node));
                        }
                    }
                    Ok(node)
                },
                Err(e) => {
                    proof {
                        if digit_runs_at_most(input.spec_bytes(), DIGIT_RUN_LIMIT as int) {
                            assert(T::S::spec_deserialize(parsed_json(input@)) == Ok::<
                                <T::S as View>::V,
                                DeserializationErrorV,
                            >(decoded@) && call_ensures(
                                T::make,
                                (decoded,),
                                Err::<T, NodeError>(e),
                            ));
                            assert(node_make_failed::<T>(parsed_json(input@), e));
                        }
                    }
                    Err(NodeCreationError::CreationError(e))
                },
            }
        },
        Err(e) => Err(NodeCreationError::DeserializationError(e)),
    }
}

/// Build the typed input from a dynamic value map, run one unit of the
/// node's work, and erase the typed output back into a map. A success is
/// the erasure of what the node's own `process` returned on the typed
/// input, and so meets whatever that impl's contract promises of it; a
/// rejected input map leaves the node untouched.
#[verifier::spinoff_prover]
pub fn erased_process<'a, T: Node>(node: &mut T, input: &'a NameMap<AnyValue>) -> (r: Result<
    NameMap<AnyValue>,
    NodeProcessingError,
>)
    requires
        input.wf(),
    ensures
        r matches Ok(out) ==> out.wf() && <T::I<'static> as Input<'static>>::spec_check(input@)
            is None,
        r matches Ok(out) ==> exists|i: T::I<'a>, m: &mut T, o: T::O|
            i.obtained_from(input@) && *m == *old(node) && *final(m) == *final(node)
                && #[trigger] call_ensures(T::process, (m, i), Ok::<T::O, NodeError>(o)) && out@
                == o.spec_to(),
        r matches Err(NodeProcessingError::DeserializationError(de)) ==> <T::I<'static> as Input<
            'static,
        >>::spec_check(input@) == Some(de@) && *final(node) == *old(node),
        r matches Err(NodeProcessingError::ExecutionError(ne)) ==> <T::I<'static> as Input<
            'static,
        >>::spec_check(input@) is None,
        r matches Err(NodeProcessingError::ExecutionError(ne)) ==> exists|
            i: T::I<'a>,
            m: &mut T,
            bad: NodeError,
        |
            i.obtained_from(input@) && *m == *old(node) && *final(m) == *final(node) && bad == ne
                && #[trigger] call_ensures(T::process, (m, i), Err::<T::O, NodeError>(bad)),
{
    let typed = match <T::I<'a> as Input<'a>>::from_any_map(input) {
        Ok(i) => i,
        Err(e) => {
            return Err(NodeProcessingError::DeserializationError(e));
        },
    };
    let ghost gi = typed;
    let res = run_node(node, typed);
    match res {
        Ok(out) => {
            let ghost go = out;
            let out_map = out.to_any_map();
            proof {
                let m = choose|m: &mut T|
                    *m == *old(node) && *final(m) == *final(node) && #[trigger] call_ensures(
                        T::process,
                        (m, gi),
                        res,
                    );
                assert(gi.obtained_from(input@) && *m == *old(node) && *final(m) == *final(node)
                    && call_ensures(T::process, (m, gi), Ok::<T::O, NodeError>(go)) && out_map@
                    == go.spec_to());
            }
            Ok(out_map)
        },
        Err(e) => {
            proof {
                let m = choose|m: &mut T|
                    *m == *old(node) && *final(m) == *final(node) && #[trigger] call_ensures(
                        T::process,
                        (m, gi),
                        res,
                    );
                assert(gi.obtained_from(input@) && *m == *old(node) && *final(m) == *final(node)
                    && call_ensures(T::process, (m, gi), Err::<T::O, NodeError>(e)));
            }
            Err(NodeProcessingError::ExecutionError(e))
        },
    }
}

/// Run one unit of a node's work, recording that the result is exactly
/// what the node's own `process` returned on this input.
fn run_node<'a, T: Node>(node: &mut T, typed: T::I<'a>) -> (r: Result<T::O, NodeError>)
    ensures
        exists|m: &mut T|
            *m == *old(node) && *final(m) == *final(node) && #[trigger] call_ensures(
                T::process,
                (m, typed),
                r,
            ),
{
    T::process(node, typed)
}

impl<T: Node> NodeProcessable for T {
    fn get_schema() -> (r: Function)
        ensures
            r.wf(),
            r@.name == T::spec_name(),
            r@.settings == T::S::spec_schema(),
            r@.inputs == <T::I<'static> as Input<'static>>::spec_schema(),
            r@.outputs == T::O::spec_schema(),
    {
        erased_schema::<T>()
    }

    /// The behavioral contract stands on `erased_make`: the trait method
    /// cannot carry it, as its name collides with `Node::make` under the
    /// contract machinery.
    fn make(input: &str) -> Result<T, NodeCreationError> {
        erased_make::<T>(input)
    }

    /// The behavioral contract stands on `erased_process`, as with `make`.
    fn process(&mut self, input: &NameMap<AnyValue>) -> Result<
        NameMap<AnyValue>,
        NodeProcessingError,
    > {
        erased_process(self, input)
    }
}

} // verus!
