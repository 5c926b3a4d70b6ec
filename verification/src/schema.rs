use vstd::prelude::*;

verus! {

/// A map from field names to schema entries or values, kept as the
/// sequence of its entries in insertion order, with distinct keys.
#[derive(Debug, Clone)]
pub struct NameMap<V> {
    entries: Vec<(String, V)>,
}

/// The map an entry sequence denotes; a later entry would win, though
/// the well-formedness invariant keeps keys distinct.
pub open spec fn map_of<V: View>(s: Seq<(String, V)>) -> Map<Seq<char>, V::V>
    decreases s.len(),
{
    if s.len() == 0 {
        Map::empty()
    } else {
        map_of(s.drop_last()).insert(s.last().0@, s.last().1@)
    }
}

/// No two entries share a key.
pub open spec fn keys_distinct<V>(s: Seq<(String, V)>) -> bool {
    forall|i: int, j: int| 0 <= i < j < s.len() ==> s[i].0@ != s[j].0@
}

proof fn lemma_map_of_domain<V: View>(s: Seq<(String, V)>, k: Seq<char>)
    ensures
        map_of(s).contains_key(k) <==> (exists|i: int| 0 <= i < s.len() && s[i].0@ == k),
    decreases s.len(),
{
    if s.len() > 0 {
        lemma_map_of_domain(s.drop_last(), k);
        if map_of(s).contains_key(k) {
            if s.last().0@ != k {
                let i = choose|i: int| 0 <= i < s.drop_last().len() && s.drop_last()[i].0@ == k;
                assert(s[i].0@ == k);
            } else {
                assert(s[s.len() - 1].0@ == k);
            }
        }
        if exists|i: int| 0 <= i < s.len() && s[i].0@ == k {
            let i = choose|i: int| 0 <= i < s.len() && s[i].0@ == k;
            if i < s.len() - 1 {
                assert(s.drop_last()[i].0@ == k);
            }
        }
    }
}

proof fn lemma_map_of_index<V: View>(s: Seq<(String, V)>, i: int)
    requires
        keys_distinct(s),
        0 <= i < s.len(),
    ensures
        map_of(s).contains_key(s[i].0@),
        map_of(s)[s[i].0@] == s[i].1@,
    decreases s.len(),
{
    if i == s.len() - 1 {
    } else {
        assert(keys_distinct(s.drop_last()));
        lemma_map_of_index(s.drop_last(), i);
        assert(s.drop_last()[i] == s[i]);
        assert(s.last().0@ != s[i].0@);
    }
}

proof fn lemma_map_of_len<V: View>(s: Seq<(String, V)>)
    requires
        keys_distinct(s),
    ensures
        map_of(s).dom().finite(),
        map_of(s).len() == s.len(),
    decreases s.len(),
{
    if s.len() > 0 {
        assert(keys_distinct(s.drop_last()));
        lemma_map_of_len(s.drop_last());
        lemma_map_of_domain(s.drop_last(), s.last().0@);
        assert(!map_of(s.drop_last()).contains_key(s.last().0@));
    }
}

impl<V: View> View for NameMap<V> {
    type V = Map<Seq<char>, V::V>;

    closed spec fn view(&self) -> Map<Seq<char>, V::V> {
        map_of(self.entries@)
    }
}

impl<V: View> NameMap<V> {
    /// Well-formedness: entry keys are distinct.
    pub closed spec fn wf(&self) -> bool {
        keys_distinct(self.entries@)
    }

    /// The empty map.
    pub fn new() -> (r: NameMap<V>)
        ensures
            r@ == Map::<Seq<char>, V::V>::empty(),
            r.wf(),
    {
        NameMap { entries: Vec::new() }
    }

    /// Add an entry under a name not yet present.
    pub fn insert(&mut self, name: String, v: V)
        requires
            old(self).wf(),
            !old(self)@.contains_key(name@),
        ensures
            final(self).wf(),
            final(self)@ == old(self)@.insert(name@, v@),
    {
        proof {
            lemma_map_of_domain(self.entries@, name@);
        }
        self.entries.push((name, v));
        proof {
            assert(self.entries@.drop_last() =~= old(self).entries@);
        }
    }

    /// Look a name up.
    pub fn get<'a>(&'a self, name: &str) -> (r: Option<&'a V>)
        requires
            self.wf(),
        ensures
            match r {
                Some(v) => self@.contains_key(name@) && v@ == self@[name@],
                None => !self@.contains_key(name@),
            },
    {
        let key = name.to_owned();
        let n = self.entries.len();
        let mut i: usize = 0;
        while i < n
            invariant
                n == self.entries@.len(),
                0 <= i <= n,
                self.wf(),
                key@ == name@,
                forall|j: int| 0 <= j < i ==> self.entries@[j].0@ != name@,
            decreases n - i,
        {
            let e = &self.entries[i];
            if e.0 == key {
                proof {
                    lemma_map_of_index(self.entries@, i as int);
                }
                return Some(&e.1);
            }
            i = i + 1;
        }
        proof {
            lemma_map_of_domain(self.entries@, name@);
        }
        None
    }

    /// How many entries the map has.
    pub fn len(&self) -> (r: usize)
        requires
            self.wf(),
        ensures
            r == self@.len(),
    {
        proof {
            lemma_map_of_len(self.entries@);
        }
        self.entries.len()
    }
}

/// A human-readable static type identifier, used purely for schema
/// display and validation by external tooling.
#[derive(Debug, Clone, PartialEq, Eq)]
pub struct Type {
    pub name: String,
}

impl View for Type {
    type V = Seq<char>;

    open spec fn view(&self) -> Seq<char> {
        self.name@
    }
}

/// Model of a `SettingType`: the kind name and its numeric parameters.
pub struct SettingTypeV {
    pub name: Seq<char>,
    pub params: Map<Seq<char>, i64>,
}

/// Describes one leaf setting's kind (for example "u8" or "ConstrainedU8")
/// plus kind-specific numeric parameters such as declared bounds.
#[derive(Debug, Clone)]
pub struct SettingType {
    pub name: String,
    pub params: NameMap<i64>,
}

impl View for SettingType {
    type V = SettingTypeV;

    open spec fn view(&self) -> SettingTypeV {
        SettingTypeV { name: self.name@, params: self.params@ }
    }
}

impl SettingType {
    /// Whether the parameter map is well formed.
    pub open spec fn wf(&self) -> bool {
        self.params.wf()
    }
}

/// Model of a `Function` schema.
pub struct FunctionV {
    pub name: Seq<char>,
    pub settings: Map<Seq<char>, SettingTypeV>,
    pub inputs: Map<Seq<char>, Seq<char>>,
    pub outputs: Map<Seq<char>, Seq<char>>,
}

/// The complete introspectable description of one node type: its name,
/// the settings schema, and the named input and output types.
#[derive(Debug, Clone)]
pub struct Function {
    pub name: String,
    pub settings: NameMap<SettingType>,
    pub inputs: NameMap<Type>,
    pub outputs: NameMap<Type>,
}

impl View for Function {
    type V = FunctionV;

    open spec fn view(&self) -> FunctionV {
        FunctionV {
            name: self.name@,
            settings: self.settings@,
            inputs: self.inputs@,
            outputs: self.outputs@,
        }
    }
}

impl Function {
    /// Whether every component map is well formed.
    pub open spec fn wf(&self) -> bool {
        self.settings.wf() && self.inputs.wf() && self.outputs.wf()
    }
}

} // verus!
