use vstd::prelude::*;
use vstd::string::StringSliceAdditionalSpecFns;
use crate::value::{JsonData, Value};

verus! {

/// What a settings text denotes: the structured value a well-formed text
/// parses to, or `None` when the text is rejected.
pub uninterp spec fn parsed_json(s: Seq<char>) -> Option<JsonData>;

/// The longest run of consecutive decimal digits a settings text may
/// hold. The parser tracks a number's decimal exponent in sixteen bits
/// and moves it once per digit, so a run of at most 32768 digits keeps
/// the exponent within `[-32768, 32767]` on every path.
pub const DIGIT_RUN_LIMIT: usize = 32768;

/// Whether a byte is a decimal digit.
pub open spec fn is_digit_byte(b: u8) -> bool {
    48 <= b <= 57
}

/// Some byte of the window `[w, w + n]` is not a decimal digit.
pub open spec fn window_has_non_digit(bytes: Seq<u8>, w: int, n: int) -> bool {
    exists|k: int| w <= k <= w + n && !is_digit_byte(#[trigger] bytes[k])
}

/// Every run of consecutive decimal digits in `bytes` has at most `n`
/// bytes: each window of `n + 1` bytes contains a non-digit.
pub open spec fn digit_runs_at_most(bytes: Seq<u8>, n: int) -> bool {
    forall|w: int| 0 <= w && w + n < bytes.len() ==> #[trigger] window_has_non_digit(bytes, w, n)
}

/// Whether every digit run in the text is short enough for the parser.
pub(crate) fn digit_runs_bounded(s: &str) -> (r: bool)
    ensures
        r <==> digit_runs_at_most(s.spec_bytes(), DIGIT_RUN_LIMIT as int),
{
    let bytes = s.as_bytes();
    let n = bytes.len();
    let mut i: usize = 0;
    let mut run: usize = 0;
    while i < n
        invariant
            bytes@ == s.spec_bytes(),
            n == bytes@.len(),
            0 <= i <= n,
            run <= i,
            run <= DIGIT_RUN_LIMIT,
            forall|k: int| i - run <= k < i ==> is_digit_byte(bytes@[k]),
            run == i || !is_digit_byte(bytes@[i - run - 1]),
            forall|w: int|
                0 <= w && w + DIGIT_RUN_LIMIT < i ==> window_has_non_digit(
                    bytes@,
                    w,
                    DIGIT_RUN_LIMIT as int,
                ),
        decreases n - i,
    {
        let b = bytes[i];
        if 48 <= b && b <= 57 {
            if run == DIGIT_RUN_LIMIT {
                proof {
                    let w = i - DIGIT_RUN_LIMIT;
                    assert(forall|k: int| w <= k <= i ==> is_digit_byte(#[trigger] bytes@[k]));
                    assert(!digit_runs_at_most(s.spec_bytes(), DIGIT_RUN_LIMIT as int)) by {
                        if digit_runs_at_most(s.spec_bytes(), DIGIT_RUN_LIMIT as int) {
                            assert(window_has_non_digit(bytes@, w, DIGIT_RUN_LIMIT as int));
                            let k = choose|k: int|
                                w <= k <= w + DIGIT_RUN_LIMIT && !is_digit_byte(
                                    #[trigger] bytes@[k],
                                );
                            assert(is_digit_byte(bytes@[k]));
                        }
                    }
                }
                return false;
            }
            run = run + 1;
        } else {
            run = 0;
        }
        i = i + 1;
        proof {
            assert forall|w: int| 0 <= w && w + DIGIT_RUN_LIMIT < i implies window_has_non_digit(
                bytes@,
                w,
                DIGIT_RUN_LIMIT as int,
            ) by {
                if w + DIGIT_RUN_LIMIT == i - 1 {
                    if is_digit_byte(bytes@[i - 1]) {
                        assert(!is_digit_byte(bytes@[i - run - 1]));
                        assert(w <= i - run - 1 <= w + DIGIT_RUN_LIMIT);
                    } else {
                        assert(w <= i - 1 <= w + DIGIT_RUN_LIMIT);
                    }
                }
            }
        }
    }
    true
}

#[verifier::external_type_specification]
#[verifier::external_body]
pub struct ExJsonValue(json::JsonValue);

/// Relies on json::JsonValue: mirrors the parsed tree as a `Value`, one
/// variant at a time, with each number taken apart by Number::as_parts.
#[verifier::external_body]
fn convert(j: &json::JsonValue) -> Value {
    match j {
        json::JsonValue::Null => Value::Null,
        json::JsonValue::Boolean(b) => Value::Bool(*b),
        json::JsonValue::Short(s) => Value::Str(s.as_str().to_owned()),
        json::JsonValue::String(s) => Value::Str(s.clone()),
        json::JsonValue::Number(n) => {
            let (positive, mantissa, exponent) = n.as_parts();
            Value::Num { positive, mantissa, exponent }
        },
        json::JsonValue::Array(items) => Value::Arr(items.iter().map(convert).collect()),
        json::JsonValue::Object(o) => Value::Obj(
            o.iter().map(|(k, v)| (k.to_owned(), convert(v))).collect(),
        ),
    }
}

/// Relies on json::parse: turns a settings text into the structured value
/// it denotes; `None` when the parser rejects the text. The parser keeps
/// a number's decimal exponent in sixteen bits and moves it once per
/// digit of the number, unchecked on the fraction path, so a text with a
/// digit run past `DIGIT_RUN_LIMIT` could overflow it; the precondition
/// excludes such texts, and `digit_runs_bounded` tests for them.
#[verifier::external_body]
pub(crate) fn parse_json(s: &str) -> (r: Option<Value>)
    requires
        digit_runs_at_most(s.spec_bytes(), DIGIT_RUN_LIMIT as int),
    ensures
        match r {
            Some(v) => parsed_json(s@) == Some(v@),
            None => parsed_json(s@) is None,
        },
{
    match json::parse(s) {
        Ok(j) => Some(convert(&j)),
        Err(_) => None,
    }
}

} // verus!
