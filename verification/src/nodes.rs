use vstd::prelude::*;
use crate::{Configurable, DeserializationError, DeserializationErrorV, Node, NodeError};
use crate::editable::Editable;
use crate::bounded::{Bounds, Constrained, Constraint, IntKind, RangeValue};
use crate::fields::{
    constrained_field, parse_settings_object, range_field, settings_field,
    spec_constrained_field, spec_range_field, spec_settings_field, spec_settings_object,
};
use crate::input::InputSingular;
use crate::output::OutputSingular;
use crate::schema::{NameMap, SettingType, SettingTypeV};
use crate::value::JsonData;

verus! {

/// Settings of the threshold node: one byte-sized cutoff.
#[derive(Debug, Clone, Copy, PartialEq, Eq, Structural)]
pub struct ThresholdSettings {
    pub threshold: u8,
}

impl View for ThresholdSettings {
    type V = u8;

    open spec fn view(&self) -> u8 {
        self.threshold
    }
}

impl Configurable for ThresholdSettings {
    open spec fn spec_schema() -> Map<Seq<char>, SettingTypeV> {
        map!["threshold"@ => <u8 as Editable>::spec_schema()]
    }

    open spec fn spec_deserialize(j: Option<JsonData>) -> Result<u8, DeserializationErrorV> {
        match spec_settings_object(j) {
            None => Err(DeserializationErrorV::NotObject),
            Some(d) => spec_settings_field::<u8>(d, "threshold"@),
        }
    }

    fn schema() -> (r: NameMap<SettingType>) {
        let mut r = NameMap::<SettingType>::new();
        r.insert("threshold".to_owned(), u8::schema());
        proof {
            assert(r@ =~= Self::spec_schema());
        }
        r
    }

    fn deserialize(input: &str) -> (r: Result<Self, DeserializationError>) {
        let obj = match parse_settings_object(input) {
            Ok(v) => v,
            Err(e) => {
                return Err(e);
            },
        };
        match settings_field::<u8>(&obj, "threshold") {
            Ok(threshold) => Ok(ThresholdSettings { threshold }),
            Err(e) => Err(e),
        }
    }
}

/// A small worked example of the node abstraction: it reads one `u32`
/// named "val" and reports whether it exceeds the configured threshold.
#[derive(Debug, Clone, Copy, PartialEq, Eq, Structural)]
pub struct ThresholdNode {
    pub threshold: u8,
}

impl ThresholdNode {
    /// The one decision this node makes.
    pub fn exceeds(&self, val: u32) -> (r: bool)
        ensures
            r == (val > self.threshold as u32),
    {
        val > self.threshold as u32
    }
}

impl Node for ThresholdNode {
    type S = ThresholdSettings;

    type I<'a> = InputSingular<'a, u32>;

    type O = OutputSingular<bool>;

    open spec fn spec_name() -> Seq<char> {
        "Threshold"@
    }

    fn name() -> (r: String) {
        "Threshold".to_owned()
    }

    fn make(settings: ThresholdSettings) -> (r: Result<Self, NodeError>)
        ensures
            r matches Ok(n) && n.threshold == settings.threshold,
    {
        Ok(ThresholdNode { threshold: settings.threshold })
    }

    fn process(&mut self, input: Self::I<'_>) -> (r: Result<Self::O, NodeError>)
        ensures
            r matches Ok(o) && o.val == (*input.val > old(self).threshold as u32),
            *final(self) == *old(self),
    {
        Ok(OutputSingular { val: self.exceeds(*input.val) })
    }
}

/// A second worked example: a stateful node that does one unit of work
/// and reports a domain failure on every later call, showing how such
/// failures surface through the erased interface instead of panicking
/// or repeating stale output.
#[derive(Debug, Clone, Copy, PartialEq, Eq, Structural)]
pub struct OneShotNode {
    pub used: bool,
}

impl Node for OneShotNode {
    type S = ();

    type I<'a> = ();

    type O = ();

    open spec fn spec_name() -> Seq<char> {
        "OneShot"@
    }

    fn name() -> (r: String) {
        "OneShot".to_owned()
    }

    fn make(settings: ()) -> (r: Result<Self, NodeError>)
        ensures
            r matches Ok(n) && !n.used,
    {
        Ok(OneShotNode { used: false })
    }

    fn process(&mut self, input: Self::I<'_>) -> (r: Result<Self::O, NodeError>)
        ensures
            old(self).used ==> r is Err && *final(self) == *old(self),
            !old(self).used ==> r is Ok && final(self).used,
    {
        if self.used {
            Err(NodeError { message: "the node was already spent".to_owned() })
        } else {
            self.used = true;
            Ok(())
        }
    }
}

/// Model of `ClampSettings`.
pub struct ClampSettingsV {
    pub cutoff: int,
    pub window: (int, int),
    pub label: Seq<char>,
}

/// The constraint the clamp example declares for its cutoff: a byte in
/// `[0, 100]`, both ends included.
pub open spec fn spec_cutoff_constraint() -> Constraint {
    Constraint { bounds: Bounds { kind: IntKind::U8, min: 0, max: 100 }, inclusive: true }
}

/// The bounds the clamp example declares for its window: a pair of
/// sixteen-bit values within `[0, 1000]`.
pub open spec fn spec_window_bounds() -> Bounds {
    Bounds { kind: IntKind::U16, min: 0, max: 1000 }
}

fn cutoff_constraint() -> (r: Constraint)
    ensures
        r == spec_cutoff_constraint(),
{
    Constraint { bounds: Bounds { kind: IntKind::U8, min: 0, max: 100 }, inclusive: true }
}

fn window_bounds() -> (r: Bounds)
    ensures
        r == spec_window_bounds(),
{
    Bounds { kind: IntKind::U16, min: 0, max: 1000 }
}

/// A worked example of a settings struct that mixes a plain leaf with
/// the bounded numeric family: a constrained cutoff, a range window,
/// and a free-form label.
#[derive(Debug, Clone, PartialEq, Eq)]
pub struct ClampSettings {
    pub cutoff: Constrained,
    pub window: RangeValue,
    pub label: String,
}

impl View for ClampSettings {
    type V = ClampSettingsV;

    open spec fn view(&self) -> ClampSettingsV {
        ClampSettingsV {
            cutoff: self.cutoff.val as int,
            window: (self.window.min as int, self.window.max as int),
            label: self.label@,
        }
    }
}

impl Configurable for ClampSettings {
    open spec fn spec_schema() -> Map<Seq<char>, SettingTypeV> {
        map![
            "cutoff"@ => spec_cutoff_constraint().spec_schema(),
            "window"@ => spec_window_bounds().spec_range_schema(),
            "label"@ => <String as Editable>::spec_schema()
        ]
    }

    open spec fn spec_deserialize(j: Option<JsonData>) -> Result<
        ClampSettingsV,
        DeserializationErrorV,
    > {
        match spec_settings_object(j) {
            None => Err(DeserializationErrorV::NotObject),
            Some(d) => match spec_constrained_field(d, "cutoff"@, spec_cutoff_constraint()) {
                Err(e) => Err(e),
                Ok(cutoff) => match spec_range_field(d, "window"@, spec_window_bounds()) {
                    Err(e) => Err(e),
                    Ok(window) => match spec_settings_field::<String>(d, "label"@) {
                        Err(e) => Err(e),
                        Ok(label) => Ok(ClampSettingsV { cutoff, window, label }),
                    },
                },
            },
        }
    }

    fn schema() -> (r: NameMap<SettingType>) {
        proof {
            reveal_strlit("cutoff");
            reveal_strlit("window");
            reveal_strlit("label");
            assert("cutoff"@.len() != "window"@.len() || "cutoff"@[0] != "window"@[0]);
            assert("cutoff"@ != "window"@);
            assert("cutoff"@ != "label"@);
            assert("window"@ != "label"@);
        }
        let mut r = NameMap::<SettingType>::new();
        r.insert("cutoff".to_owned(), cutoff_constraint().schema());
        r.insert("window".to_owned(), window_bounds().range_schema());
        r.insert("label".to_owned(), String::schema());
        proof {
            assert(r@ =~= Self::spec_schema());
        }
        r
    }

    fn deserialize(input: &str) -> (r: Result<Self, DeserializationError>) {
        let obj = match parse_settings_object(input) {
            Ok(v) => v,
            Err(e) => {
                return Err(e);
            },
        };
        let cutoff = match constrained_field(&obj, "cutoff", &cutoff_constraint()) {
            Ok(v) => v,
            Err(e) => {
                return Err(e);
            },
        };
        let window = match range_field(&obj, "window", &window_bounds()) {
            Ok(v) => v,
            Err(e) => {
                return Err(e);
            },
        };
        let label = match settings_field::<String>(&obj, "label") {
            Ok(v) => v,
            Err(e) => {
                return Err(e);
            },
        };
        Ok(ClampSettings { cutoff, window, label })
    }
}

} // verus!
