use vstd::prelude::*;

verus! {

broadcast use vstd::std_specs::vec::axiom_vec_index_decreases;

/// Mathematical model of a structured settings value: what a parsed
/// configuration text denotes, with numbers kept exactly as a sign,
/// a decimal mantissa and a decimal exponent.
pub enum JsonData {
    Null,
    Bool(bool),
    Num { positive: bool, mantissa: u64, exponent: i16 },
    Str(Seq<char>),
    Arr(Seq<JsonData>),
    Obj(Seq<(Seq<char>, JsonData)>),
}

/// A structured settings value, as handed back by the text parser.
/// Strings are UTF-8, numbers carry an exact decimal representation
/// (`positive * mantissa * 10^exponent`), and objects keep their
/// entries in insertion order with distinct keys.
pub enum Value {
    Null,
    Bool(bool),
    Num { positive: bool, mantissa: u64, exponent: i16 },
    Str(String),
    Arr(Vec<Value>),
    Obj(Vec<(String, Value)>),
}

/// The denotation of a `Value`.
pub open spec fn json_of(v: Value) -> JsonData
    decreases v,
    via json_of_decreases
{
    match v {
        Value::Null => JsonData::Null,
        Value::Bool(b) => JsonData::Bool(b),
        Value::Num { positive, mantissa, exponent } => JsonData::Num { positive, mantissa, exponent },
        Value::Str(s) => JsonData::Str(s@),
        Value::Arr(items) => JsonData::Arr(
            Seq::new(
                items.len() as nat,
                |i: int|
                    if 0 <= i < items.len() {
                        json_of(items[i])
                    } else {
                        JsonData::Null
                    },
            ),
        ),
        Value::Obj(entries) => JsonData::Obj(
            Seq::new(
                entries.len() as nat,
                |i: int|
                    if 0 <= i < entries.len() {
                        (entries[i].0@, json_of(entries[i].1))
                    } else {
                        (Seq::empty(), JsonData::Null)
                    },
            ),
        ),
    }
}

#[via_fn]
proof fn json_of_decreases(v: Value) {
    match v {
        Value::Arr(items) => {
            assert forall|i: int| 0 <= i < items.len() implies decreases_to!(v => items[i]) by {
                assert(decreases_to!(items => items[i]));
            }
        },
        Value::Obj(entries) => {
            assert forall|i: int| 0 <= i < entries.len() implies decreases_to!(
                v => entries[i].1,
            ) by {
                assert(decreases_to!(entries => entries[i]));
            }
        },
        _ => {},
    }
}

impl View for Value {
    type V = JsonData;

    open spec fn view(&self) -> JsonData {
        json_of(*self)
    }
}

impl JsonData {
    /// The exact integer a number denotes, if its exponent is zero.
    pub open spec fn as_int(self) -> Option<int> {
        match self {
            JsonData::Num { positive, mantissa, exponent } => if exponent == 0 {
                if positive {
                    Some(mantissa as int)
                } else {
                    Some(-(mantissa as int))
                }
            } else {
                None
            },
            _ => None,
        }
    }

    /// First entry of an object with the given key, if any.
    pub open spec fn lookup(self, key: Seq<char>) -> Option<JsonData> {
        match self {
            JsonData::Obj(entries) => lookup_entries(entries, key),
            _ => None,
        }
    }
}

/// First entry with the given key in an association sequence.
pub open spec fn lookup_entries(entries: Seq<(Seq<char>, JsonData)>, key: Seq<char>) -> Option<
    JsonData,
>
    decreases entries.len(),
{
    if entries.len() == 0 {
        None
    } else if entries[0].0 == key {
        Some(entries[0].1)
    } else {
        lookup_entries(entries.drop_first(), key)
    }
}

impl Value {
    /// The exact integer the value denotes, when there is one and it
    /// is representable in `i64`.
    pub fn as_i64(&self) -> (r: Option<i64>)
        ensures
            match r {
                Some(n) => self@.as_int() == Some(n as int),
                None => match self@.as_int() {
                    Some(n) => n < i64::MIN || n > i64::MAX,
                    None => true,
                },
            },
    {
        match self {
            Value::Num { positive, mantissa, exponent } => {
                if *exponent != 0i16 {
                    None
                } else if *positive {
                    if *mantissa <= i64::MAX as u64 {
                        Some(*mantissa as i64)
                    } else {
                        None
                    }
                } else {
                    if *mantissa <= i64::MAX as u64 {
                        Some(-(*mantissa as i64))
                    } else if *mantissa == i64::MAX as u64 + 1 {
                        Some(i64::MIN)
                    } else {
                        None
                    }
                }
            },
            _ => None,
        }
    }

    /// Whether the value is a boolean, and which.
    pub fn as_bool(&self) -> (r: Option<bool>)
        ensures
            r == (match self@ {
                JsonData::Bool(b) => Some(b),
                _ => None::<bool>,
            }),
    {
        match self {
            Value::Bool(b) => Some(*b),
            _ => None,
        }
    }

    /// Borrow the character string the value holds, if it is one.
    pub fn as_str(&self) -> (r: Option<&String>)
        ensures
            match r {
                Some(s) => self@ == JsonData::Str(s@),
                None => !(self@ is Str),
            },
    {
        match self {
            Value::Str(s) => Some(s),
            _ => None,
        }
    }

    /// First entry of an object with the given key.
    pub fn lookup<'a>(&'a self, key: &str) -> (r: Option<&'a Value>)
        ensures
            match r {
                Some(v) => self@.lookup(key@) == Some(v@),
                None => self@.lookup(key@) is None,
            },
    {
        match self {
            Value::Obj(entries) => {
                let ghost m = Seq::new(
                    entries.len() as nat,
                    |k: int| (entries[k].0@, json_of(entries[k].1)),
                );
                proof {
                    assert(m =~= self@->Obj_0);
                    assert(self@.lookup(key@) == lookup_entries(m, key@));
                    assert(m.skip(0) =~= m);
                }
                let key_string = key.to_owned();
                let n = entries.len();
                let mut i: usize = 0;
                while i < n
                    invariant
                        n == entries@.len(),
                        0 <= i <= n,
                        m == Seq::new(
                            entries.len() as nat,
                            |k: int| (entries[k].0@, json_of(entries[k].1)),
                        ),
                        self@.lookup(key@) == lookup_entries(m.skip(i as int), key@),
                        key_string@ == key@,
                    decreases n - i,
                {
                    let e = &entries[i];
                    proof {
                        assert(m.skip(i as int)[0] == m[i as int]);
                    }
                    if e.0 == key_string {
                        proof {
                            assert(lookup_entries(m.skip(i as int), key@) == Some(m[i as int].1));
                        }
                        return Some(&e.1);
                    }
                    proof {
                        assert(m.skip(i as int).drop_first() =~= m.skip(i + 1));
                    }
                    i = i + 1;
                }
                proof {
                    assert(m.skip(n as int) =~= Seq::<(Seq<char>, JsonData)>::empty());
                }
                None
            },
            _ => None,
        }
    }

    /// Whether the value is an object.
    pub fn is_object(&self) -> (r: bool)
        ensures
            r == (self@ is Obj),
    {
        match self {
            Value::Obj(_) => true,
            _ => false,
        }
    }
}

} // verus!
