//! The blackboard: an ordered list of key/value variables, shared between the
//! triggers that record events and the scripts that read them back.
use vstd::prelude::*;
use vstd::string::*;

use crate::position::{first_position, is_first_position, key_occurs, lemma_first_position};

verus! {

/// One blackboard entry.
#[derive(Clone, Debug)]
pub struct SytterVariable {
    pub key: String,
    pub value: String,
}

impl View for SytterVariable {
    type V = (Seq<char>, Seq<char>);

    open spec fn view(&self) -> (Seq<char>, Seq<char>) {
        (self.key@, self.value@)
    }
}

/// The blackboard's entries, in the order in which their keys first appeared.
#[derive(Clone, Debug)]
pub struct State {
    pub variables: Vec<SytterVariable>,
}

/// The entries of a list of variables as key/value pairs.
pub open spec fn entries_of(vars: Seq<SytterVariable>) -> Seq<(Seq<char>, Seq<char>)> {
    vars.map_values(|v: SytterVariable| v@)
}

impl View for State {
    type V = Seq<(Seq<char>, Seq<char>)>;

    open spec fn view(&self) -> Seq<(Seq<char>, Seq<char>)> {
        entries_of(self.variables@)
    }
}

/// No key appears twice.
pub open spec fn keys_unique(vars: Seq<(Seq<char>, Seq<char>)>) -> bool {
    forall|i: int, j: int| 0 <= i < j < vars.len() ==> #[trigger] vars[i].0 != #[trigger] vars[j].0
}

/// The keys of the entries, in order.
pub open spec fn keys_of(vars: Seq<(Seq<char>, Seq<char>)>) -> Seq<Seq<char>> {
    vars.map_values(|e: (Seq<char>, Seq<char>)| e.0)
}

/// Some entry has this key.
pub open spec fn has_key(vars: Seq<(Seq<char>, Seq<char>)>, key: Seq<char>) -> bool {
    key_occurs(keys_of(vars), key)
}

/// `i` is the first position that holds `key`.
pub open spec fn is_first_key(vars: Seq<(Seq<char>, Seq<char>)>, key: Seq<char>, i: int) -> bool {
    is_first_position(keys_of(vars), key, i)
}

/// The first position that holds `key` (meaningful where `has_key` holds).
pub open spec fn first_key(vars: Seq<(Seq<char>, Seq<char>)>, key: Seq<char>) -> int {
    first_position(keys_of(vars), key)
}

/// The value of the first entry with `key`, if any.
pub open spec fn lookup(vars: Seq<(Seq<char>, Seq<char>)>, key: Seq<char>) -> Option<Seq<char>> {
    if has_key(vars, key) {
        Some(vars[first_key(vars, key)].1)
    } else {
        None
    }
}

/// Overwrite the value of the first entry with `key`, or append the entry.
pub open spec fn upsert(vars: Seq<(Seq<char>, Seq<char>)>, key: Seq<char>, value: Seq<char>) -> Seq<
    (Seq<char>, Seq<char>),
> {
    if has_key(vars, key) {
        vars.update(first_key(vars, key), (key, value))
    } else {
        vars.push((key, value))
    }
}

/// The keys are the entries' first components.
pub proof fn lemma_keys_of(vars: Seq<(Seq<char>, Seq<char>)>)
    ensures
        keys_of(vars).len() == vars.len(),
        forall|i: int| 0 <= i < vars.len() ==> #[trigger] keys_of(vars)[i] == vars[i].0,
{
}

/// Where some entry holds `key`, there is a first one, and it is the only first one.
pub proof fn lemma_first_key(vars: Seq<(Seq<char>, Seq<char>)>, key: Seq<char>)
    requires
        has_key(vars, key),
    ensures
        is_first_key(vars, key, first_key(vars, key)),
        forall|i: int| is_first_key(vars, key, i) ==> i == first_key(vars, key),
{
    lemma_first_position(keys_of(vars), key);
}

/// Upserting keeps keys unique.
pub proof fn lemma_upsert_keys_unique(vars: Seq<(Seq<char>, Seq<char>)>, key: Seq<char>, value: Seq<char>)
    requires
        keys_unique(vars),
    ensures
        keys_unique(upsert(vars, key, value)),
{
    lemma_keys_of(vars);
    lemma_keys_of(upsert(vars, key, value));
    if has_key(vars, key) {
        lemma_first_key(vars, key);
    } else {
        assert forall|i: int| 0 <= i < vars.len() implies #[trigger] vars[i].0 != key by {
            assert(keys_of(vars)[i] == vars[i].0);
        }
    }
}

/// Exactly one entry has `key`, and it holds `value`.
pub open spec fn single_entry(vars: Seq<(Seq<char>, Seq<char>)>, key: Seq<char>, value: Seq<char>) -> bool {
    exists|i: int|
        0 <= i < vars.len() && #[trigger] vars[i] == (key, value) && forall|j: int|
            0 <= j < vars.len() && j != i ==> #[trigger] vars[j].0 != key
}

/// Setting a key twice leaves exactly one entry with that key, holding the
/// second value; the second set leaves the number of entries unchanged.
pub proof fn lemma_set_twice(
    vars: Seq<(Seq<char>, Seq<char>)>,
    key: Seq<char>,
    v1: Seq<char>,
    v2: Seq<char>,
)
    requires
        keys_unique(vars),
    ensures
        upsert(upsert(vars, key, v1), key, v2).len() == upsert(vars, key, v1).len(),
        lookup(upsert(upsert(vars, key, v1), key, v2), key) == Some(v2),
        single_entry(upsert(upsert(vars, key, v1), key, v2), key, v2),
{
    let s1 = upsert(vars, key, v1);
    lemma_keys_of(vars);
    lemma_keys_of(s1);
    lemma_keys_of(upsert(s1, key, v2));
    lemma_upsert_keys_unique(vars, key, v1);
    if has_key(vars, key) {
        lemma_first_key(vars, key);
        assert(s1[first_key(vars, key)].0 == key);
    } else {
        assert(s1[s1.len() - 1].0 == key);
    }
    assert(keys_of(s1)[first_key(vars, key)] == key || keys_of(s1)[s1.len() - 1] == key);
    assert(has_key(s1, key));
    lemma_first_key(s1, key);
    let s2 = upsert(s1, key, v2);
    let f = first_key(s1, key);
    lemma_upsert_keys_unique(s1, key, v2);
    assert(has_key(s2, key)) by {
        assert(s2[f].0 == key);
        assert(keys_of(s2)[f] == key);
    }
    lemma_first_key(s2, key);
    assert(is_first_key(s2, key, f));
    assert(s2[f] == (key, v2));
}

impl State {
    /// The blackboard is well formed: no key appears twice.
    pub open spec fn wf(&self) -> bool {
        keys_unique(self@)
    }

    /// An empty blackboard.
    pub fn new() -> (r: State)
        ensures
            r@ == Seq::<(Seq<char>, Seq<char>)>::empty(),
            r.wf(),
    {
        let r = State { variables: Vec::new() };
        assert(r@ =~= Seq::<(Seq<char>, Seq<char>)>::empty());
        r
    }

    /// The position of the first entry with `key`.
    fn find_key(&self, key: &String) -> (r: Option<usize>)
        ensures
            r matches Some(i) ==> is_first_key(self@, key@, i as int),
            r is None ==> !has_key(self@, key@),
    {
        let mut i: usize = 0;
        while i < self.variables.len()
            invariant
                i <= self.variables.len(),
                forall|j: int| 0 <= j < i ==> #[trigger] self@[j].0 != key@,
            decreases self.variables.len() - i,
        {
            if self.variables[i].key == *key {
                return Some(i);
            }
            i = i + 1;
        }
        None
    }

    /// A copy of every entry, in order.
    pub fn get_variables(&self) -> (r: Vec<SytterVariable>)
        ensures
            entries_of(r@) == self@,
    {
        let mut r: Vec<SytterVariable> = Vec::new();
        let mut i: usize = 0;
        while i < self.variables.len()
            invariant
                i <= self.variables.len(),
                entries_of(r@) == self@.take(i as int),
            decreases self.variables.len() - i,
        {
            let v = SytterVariable {
                key: self.variables[i].key.clone(),
                value: self.variables[i].value.clone(),
            };
            assert(v@ == self@[i as int]);
            let ghost prev = r@;
            r.push(v);
            assert(r@ =~= prev.push(v));
            assert(entries_of(r@) =~= entries_of(prev).push(v@));
            assert(entries_of(r@) =~= self@.take(i + 1));
            i = i + 1;
        }
        assert(self@.take(i as int) =~= self@);
        r
    }

    /// The value of the first entry with `key`.
    pub fn get_variable(&self, key: &String) -> (r: Option<String>)
        ensures
            r matches Some(v) ==> lookup(self@, key@) == Some(v@),
            r is None ==> lookup(self@, key@) is None,
    {
        match self.find_key(key) {
            Some(i) => {
                proof {
                    lemma_first_key(self@, key@);
                }
                Some(self.variables[i].value.clone())
            },
            None => None,
        }
    }

    /// Overwrite the value of the first entry with the variable's key, or
    /// append the variable when no entry has that key.
    pub fn set_variable(&mut self, variable: SytterVariable)
        ensures
            final(self)@ == upsert(old(self)@, variable.key@, variable.value@),
            old(self).wf() ==> final(self).wf(),
    {
        match self.find_key(&variable.key) {
            Some(i) => {
                proof {
                    lemma_first_key(old(self)@, variable.key@);
                }
                self.variables.set(i, variable);
            },
            None => {
                self.variables.push(variable);
            },
        }
        proof {
            assert(self@ =~= upsert(old(self)@, variable.key@, variable.value@));
            if old(self).wf() {
                lemma_upsert_keys_unique(old(self)@, variable.key@, variable.value@);
            }
        }
    }
}

/// One line of the blackboard's text form: `key=value`.
pub open spec fn line_of(e: (Seq<char>, Seq<char>)) -> Seq<char> {
    e.0 + "="@ + e.1
}

/// The blackboard's text form: its lines joined by newlines.
pub open spec fn text_of(vars: Seq<(Seq<char>, Seq<char>)>) -> Seq<char>
    decreases vars.len(),
{
    if vars.len() == 0 {
        Seq::empty()
    } else if vars.len() == 1 {
        line_of(vars[0])
    } else {
        text_of(vars.drop_last()) + "\n"@ + line_of(vars.last())
    }
}

/// The variables as `key=value` lines, joined by newlines.
pub fn data_to_text(data: &Vec<SytterVariable>) -> (r: String)
    ensures
        r@ == text_of(entries_of(data@)),
{
    let mut out = String::new();
    let mut i: usize = 0;
    while i < data.len()
        invariant
            i <= data.len(),
            out@ == text_of(entries_of(data@).take(i as int)),
        decreases data.len() - i,
    {
        let ghost before = entries_of(data@).take(i as int);
        if i > 0 {
            out.append("\n");
        }
        out.append(data[i].key.as_str());
        out.append("=");
        out.append(data[i].value.as_str());
        proof {
            let after = entries_of(data@).take(i + 1);
            assert(after.drop_last() =~= before);
            assert(after.last() == data@[i as int]@);
            if i == 0 {
                assert(out@ =~= line_of(after[0]));
            } else {
                assert(out@ =~= text_of(before) + "\n"@ + line_of(after.last()));
            }
        }
        i = i + 1;
    }
    assert(entries_of(data@).take(i as int) =~= entries_of(data@));
    out
}

} // verus!
