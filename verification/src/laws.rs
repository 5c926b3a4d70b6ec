use vstd::prelude::*;
use crate::{node_made_from, Configurable, DeserializationErrorV, EditError, Node, NodeError};
use crate::bounded::{Bounds, Constraint};
use crate::editable::Editable;
use crate::erased::Erased;
use crate::input::{Input, InputSingular};
use crate::nodes::{ThresholdNode, ThresholdSettings};
use crate::output::{Output, OutputSingular};
use crate::schema::SettingTypeV;
use crate::value::JsonData;

verus! {

/// The structured value that renders an exact integer.
pub open spec fn num_of_int(n: int) -> JsonData {
    if n >= 0 {
        JsonData::Num { positive: true, mantissa: n as u64, exponent: 0 }
    } else {
        JsonData::Num { positive: false, mantissa: (-n) as u64, exponent: 0 }
    }
}

/// Law: every representable `u8` decodes back from its rendering.
pub proof fn lemma_u8_round_trip(v: u8)
    ensures
        <u8 as Editable>::spec_deserialize(num_of_int(v as int)) == Ok::<u8, EditError>(v),
{
}

/// Law: every representable `u16` decodes back from its rendering.
pub proof fn lemma_u16_round_trip(v: u16)
    ensures
        <u16 as Editable>::spec_deserialize(num_of_int(v as int)) == Ok::<u16, EditError>(v),
{
}

/// Law: every representable `u32` decodes back from its rendering.
pub proof fn lemma_u32_round_trip(v: u32)
    ensures
        <u32 as Editable>::spec_deserialize(num_of_int(v as int)) == Ok::<u32, EditError>(v),
{
}

/// Law: every representable `i8` decodes back from its rendering.
pub proof fn lemma_i8_round_trip(v: i8)
    ensures
        <i8 as Editable>::spec_deserialize(num_of_int(v as int)) == Ok::<i8, EditError>(v),
{
}

/// Law: every representable `i16` decodes back from its rendering.
pub proof fn lemma_i16_round_trip(v: i16)
    ensures
        <i16 as Editable>::spec_deserialize(num_of_int(v as int)) == Ok::<i16, EditError>(v),
{
}

/// Law: every representable `i32` decodes back from its rendering.
pub proof fn lemma_i32_round_trip(v: i32)
    ensures
        <i32 as Editable>::spec_deserialize(num_of_int(v as int)) == Ok::<i32, EditError>(v),
{
}

/// Law: every boolean decodes back from its rendering.
pub proof fn lemma_bool_round_trip(v: bool)
    ensures
        <bool as Editable>::spec_deserialize(JsonData::Bool(v)) == Ok::<bool, EditError>(v),
{
}

/// Law: every character string decodes back from its rendering.
pub proof fn lemma_string_round_trip(s: Seq<char>)
    ensures
        <String as Editable>::spec_deserialize(JsonData::Str(s)) == Ok::<Seq<char>, EditError>(s),
{
}

/// Law: a constrained decode never yields a value outside the declared
/// bounds, whatever the input.
pub proof fn lemma_constrained_stays_in_bounds(c: Constraint, d: JsonData)
    ensures
        match c.spec_deserialize(d) {
            Ok(n) => c.admits(n),
            Err(_) => true,
        },
{
}

/// Law: a value the constraint does not admit is rejected with an
/// error, never wrapped.
pub proof fn lemma_constrained_rejects_out_of_bounds(c: Constraint, d: JsonData)
    requires
        match d.as_int() {
            Some(n) => !c.admits(n),
            None => true,
        },
    ensures
        c.spec_deserialize(d) is Err,
{
}

/// Law: a range decode never yields a disordered pair, nor one outside
/// the declared bounds, whatever the input.
pub proof fn lemma_range_stays_in_bounds(b: Bounds, d: JsonData)
    ensures
        match b.spec_range_deserialize(d) {
            Ok(p) => (b.min as int) <= p.0 <= p.1 <= (b.max as int),
            Err(_) => true,
        },
{
}

/// Law: an object-level schema does not depend on the order its fields
/// were declared in: entries under distinct names commute.
pub proof fn lemma_schema_order_irrelevant(
    m: Map<Seq<char>, SettingTypeV>,
    a: Seq<char>,
    x: SettingTypeV,
    b: Seq<char>,
    y: SettingTypeV,
)
    requires
        a != b,
    ensures
        m.insert(a, x).insert(b, y) == m.insert(b, y).insert(a, x),
{
    assert(m.insert(a, x).insert(b, y) =~= m.insert(b, y).insert(a, x));
}

/// Law: a threshold node built through the erased construction carries
/// exactly the threshold its settings text decoded to.
pub proof fn lemma_threshold_construction(j: Option<JsonData>, n: ThresholdNode)
    requires
        node_made_from::<ThresholdNode>(j, n),
    ensures
        ({
            let d = <ThresholdSettings as Configurable>::spec_deserialize(j);
            d is Ok && n.threshold == d->Ok_0
        }),
{
    let s = choose|s: ThresholdSettings|
        <ThresholdSettings as Configurable>::spec_deserialize(j) == Ok::<
            u8,
            DeserializationErrorV,
        >(s@) && #[trigger] call_ensures(
            <ThresholdNode as Node>::make,
            (s,),
            Ok::<ThresholdNode, NodeError>(n),
        );
    assert(n.threshold == s.threshold);
}

/// Law: whatever a threshold node's `process` returned is the comparison
/// of the borrowed input against the configured threshold, and the node
/// itself is unchanged.
pub proof fn lemma_threshold_processing(
    m: &mut ThresholdNode,
    i: InputSingular<'_, u32>,
    r: Result<OutputSingular<bool>, NodeError>,
)
    requires
        call_ensures(<ThresholdNode as Node>::process, (m, i), r),
    ensures
        r matches Ok(o) && o.val == (*i.val > old(m).threshold as u32),
        *final(m) == *old(m),
{
}

/// Law: a one-field output erased into a map is recovered exactly by a
/// one-field input of the matching static type.
pub proof fn lemma_single_field_round_trip<T: Erased>(out: OutputSingular<T>)
    ensures
        <InputSingular<'static, T> as Input<'static>>::spec_check(out.spec_to()) is None,
        forall|inp: InputSingular<'static, T>|
            inp.obtained_from(out.spec_to()) ==> inp.val@ == out.val@,
{
    let m = out.spec_to();
    out.val.lemma_extract_erased();
    assert(m.contains_key("val"@));
    assert(m["val"@] == out.val.spec_erased());
}

} // verus!
