//! A rule section as plain values: named fields holding text, integers or
//! lists. A loader turns each table of a rule document into one of these.
use vstd::prelude::*;
use vstd::string::*;

use crate::position::{first_position, is_first_position, key_occurs, lemma_first_position};
use crate::shell::shell_default_exit_codes;

verus! {

/// The value of one field of a section.
#[derive(Debug)]
pub enum SectionValue {
    Text(String),
    Integer(i64),
    List(Vec<SectionValue>),
    /// Any other kind of value (a float, a boolean, a table, a date).
    Other,
}

/// One section of a rule document: its fields in document order.
#[derive(Debug)]
pub struct Section {
    pub entries: Vec<(String, SectionValue)>,
}

/// The names of the fields, in order.
pub open spec fn field_names(entries: Seq<(String, SectionValue)>) -> Seq<Seq<char>> {
    entries.map_values(|e: (String, SectionValue)| e.0@)
}

/// `i` is the first position of a field named `key`.
pub open spec fn is_first_field(entries: Seq<(String, SectionValue)>, key: Seq<char>, i: int) -> bool {
    is_first_position(field_names(entries), key, i)
}

/// Some field is named `key`.
pub open spec fn has_field(entries: Seq<(String, SectionValue)>, key: Seq<char>) -> bool {
    key_occurs(field_names(entries), key)
}

/// Text, where the value is text.
pub open spec fn text_of_value(v: Option<SectionValue>) -> Option<Seq<char>> {
    match v {
        Some(SectionValue::Text(s)) => Some(s@),
        _ => None,
    }
}

/// Every item of the list is an integer.
pub open spec fn all_integers(items: Seq<SectionValue>) -> bool {
    forall|i: int| 0 <= i < items.len() ==> #[trigger] items[i] is Integer
}

/// The exit codes that a field gives: a list of integers, each taken to 32
/// bits; anything else gives the single code 0.
pub open spec fn exit_codes_of(v: Option<SectionValue>) -> Seq<i32> {
    match v {
        Some(SectionValue::List(items)) => if all_integers(items@) {
            items@.map_values(|x: SectionValue| x->Integer_0 as i32)
        } else {
            seq![0i32]
        },
        _ => seq![0i32],
    }
}

impl Section {
    /// The value of the first field named `key`.
    pub open spec fn spec_field(&self, key: Seq<char>) -> Option<SectionValue> {
        if has_field(self.entries@, key) {
            Some(self.entries@[first_position(field_names(self.entries@), key)].1)
        } else {
            None
        }
    }

    /// The position of the first field named `key`.
    pub fn position(&self, key: &str) -> (r: Option<usize>)
        ensures
            r matches Some(i) ==> is_first_field(self.entries@, key@, i as int),
            r is None ==> !has_field(self.entries@, key@),
            r matches Some(i) ==> self.spec_field(key@) == Some(self.entries@[i as int].1),
            r is None ==> self.spec_field(key@) is None,
    {
        let k = String::from_str(key);
        let mut i: usize = 0;
        while i < self.entries.len()
            invariant
                i <= self.entries.len(),
                k@ == key@,
                forall|j: int| 0 <= j < i ==> #[trigger] self.entries@[j].0@ != key@,
            decreases self.entries.len() - i,
        {
            if self.entries[i].0 == k {
                proof {
                    assert(is_first_field(self.entries@, key@, i as int));
                    lemma_first_position(field_names(self.entries@), key@);
                }
                return Some(i);
            }
            i = i + 1;
        }
        None
    }

    /// The text of the first field named `key`, where that field holds text.
    pub fn get_str(&self, key: &str) -> (r: Option<String>)
        ensures
            r matches Some(s) ==> text_of_value(self.spec_field(key@)) == Some(s@),
            r is None ==> text_of_value(self.spec_field(key@)) is None,
    {
        match self.position(key) {
            Some(i) => match &self.entries[i].1 {
                SectionValue::Text(s) => Some(s.clone()),
                _ => None,
            },
            None => None,
        }
    }
}

/// The integer of a value, taken to 32 bits, where the value is an integer.
pub fn i32_des(x: &SectionValue) -> (r: Option<i32>)
    ensures
        r == match *x {
            SectionValue::Integer(n) => Some(n as i32),
            _ => None::<i32>,
        },
{
    match x {
        SectionValue::Integer(n) => Some(#[verifier::truncate] (*n as i32)),
        _ => None,
    }
}

/// The exit codes that a field gives: the list's integers, each taken to 32
/// bits, where the field is a list of integers; otherwise the single code 0.
pub fn vec_i32_des(v: Option<&SectionValue>) -> (r: Vec<i32>)
    ensures
        r@ == exit_codes_of(
            match v {
                Some(x) => Some(*x),
                None => None,
            },
        ),
{
    if let Some(SectionValue::List(items)) = v {
        let mut codes: Vec<i32> = Vec::new();
        let mut i: usize = 0;
        while i < items.len()
            invariant
                i <= items.len(),
                v == Some(&SectionValue::List(*items)),
                codes@ == items@.take(i as int).map_values(|x: SectionValue| x->Integer_0 as i32),
                all_integers(items@.take(i as int)),
            decreases items.len() - i,
        {
            match i32_des(&items[i]) {
                Some(n) => {
                    codes.push(n);
                },
                None => {
                    assert(!all_integers(items@)) by {
                        assert(!(items@[i as int] is Integer));
                    }
                    return shell_default_exit_codes();
                },
            }
            proof {
                assert(items@.take(i + 1).map_values(|x: SectionValue| x->Integer_0 as i32)
                    =~= items@.take(i as int).map_values(|x: SectionValue| x->Integer_0 as i32).push(
                    items@[i as int]->Integer_0 as i32,
                ));
                assert forall|j: int| 0 <= j < i + 1 implies #[trigger] items@.take(i + 1)[j] is Integer by {
                    if j < i {
                        assert(items@.take(i as int)[j] is Integer);
                    }
                }
            }
            i = i + 1;
        }
        assert(items@.take(i as int) =~= items@);
        codes
    } else {
        shell_default_exit_codes()
    }
}

} // verus!
