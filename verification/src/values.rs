//! The opaque structured values that defaults carry through lowering. The
//! lowering pass never interprets a default; it only preserves it, with
//! `Null` marking an absent per-field default.

use vstd::prelude::*;
use vstd::seq::axiom_seq_index_decreases;
use vstd::string::StrSliceExecFns;

use crate::text::str_eq;

verus! {

/// Mathematical model of a structured value.
pub enum ValueModel {
    Null,
    Bool(bool),
    Int(int),
    Text(Seq<char>),
    Array(Seq<ValueModel>),
    Record(Seq<(Seq<char>, ValueModel)>),
}

/// A structured default value: null, a scalar, an array, or a record of
/// named entries in declaration order.
#[derive(Debug, PartialEq)]
pub enum Value {
    Null,
    Bool(bool),
    Int(i64),
    Text(String),
    Array(Vec<Value>),
    Record(Vec<(String, Value)>),
}

/// Models of the elements of an array value.
pub open spec fn array_model(items: Seq<Value>) -> Seq<ValueModel>
    decreases items,
{
    if items.len() == 0 {
        Seq::empty()
    } else {
        array_model(items.subrange(0, items.len() - 1)).push(items[items.len() - 1].model())
    }
}

/// Models of the entries of a record value.
pub open spec fn record_model(entries: Seq<(String, Value)>) -> Seq<(Seq<char>, ValueModel)>
    decreases entries,
{
    if entries.len() == 0 {
        Seq::empty()
    } else {
        record_model(entries.subrange(0, entries.len() - 1)).push(
            (entries[entries.len() - 1].0@, entries[entries.len() - 1].1.model()),
        )
    }
}

pub proof fn lemma_array_model(items: Seq<Value>)
    ensures
        array_model(items).len() == items.len(),
        forall|i: int| 0 <= i < items.len() ==> array_model(items)[i] == items[i].model(),
    decreases items.len(),
{
    if items.len() > 0 {
        lemma_array_model(items.subrange(0, items.len() - 1));
    }
}

pub proof fn lemma_record_model(entries: Seq<(String, Value)>)
    ensures
        record_model(entries).len() == entries.len(),
        forall|i: int|
            0 <= i < entries.len() ==> record_model(entries)[i] == (
                entries[i].0@,
                entries[i].1.model(),
            ),
    decreases entries.len(),
{
    if entries.len() > 0 {
        lemma_record_model(entries.subrange(0, entries.len() - 1));
    }
}

impl Value {
    pub open spec fn model(&self) -> ValueModel
        decreases self,
    {
        match self {
            Value::Null => ValueModel::Null,
            Value::Bool(b) => ValueModel::Bool(*b),
            Value::Int(i) => ValueModel::Int(*i as int),
            Value::Text(s) => ValueModel::Text(s@),
            Value::Array(items) => ValueModel::Array(array_model(self->Array_0@)),
            Value::Record(entries) => ValueModel::Record(record_model(self->Record_0@)),
        }
    }

    /// The value of the first entry named `key`, if this value is a record
    /// holding one.
    #[verifier::loop_isolation(false)]
    pub fn get(&self, key: &str) -> (r: Option<&Value>)
        ensures
            match r {
                Some(v) => {
                    &&& self.model() matches ValueModel::Record(es)
                    &&& exists|i: int|
                        {
                            &&& 0 <= i < es.len()
                            &&& es[i].0 == key@
                            &&& es[i].1 == v.model()
                            &&& forall|j: int| 0 <= j < i ==> es[j].0 != key@
                        }
                },
                None => match self.model() {
                    ValueModel::Record(es) => forall|i: int|
                        0 <= i < es.len() ==> es[i].0 != key@,
                    _ => true,
                },
            },
    {
        match self {
            Value::Record(entries) => {
                proof {
                    lemma_record_model(entries@);
                }
                let n = entries.len();
                let mut i: usize = 0;
                while i < n
                    invariant
                        i <= n,
                        n == entries@.len(),
                        forall|j: int| 0 <= j < i ==> entries@[j].0@ != key@,
                    decreases n - i,
                {
                    if str_eq(entries[i].0.as_str(), key) {
                        proof {
                            lemma_record_model(entries@);
                            assert(record_model(entries@)[i as int] == (
                                entries@[i as int].0@,
                                entries@[i as int].1.model(),
                            ));
                            let ghost ii = i as int;
                            assert({
                                &&& self.model() matches ValueModel::Record(es)
                                &&& 0 <= ii < es.len()
                                &&& es[ii].0 == key@
                                &&& es[ii].1 == entries@[ii].1.model()
                                &&& forall|j: int| 0 <= j < ii ==> es[j].0 != key@
                            });
                        }
                        return Some(&entries[i].1);
                    }
                    i = i + 1;
                }
                proof {
                    lemma_record_model(entries@);
                }
                None
            },
            _ => None,
        }
    }

    /// The character data of this value, if it is text.
    pub fn as_str(&self) -> (r: Option<&str>)
        ensures
            match r {
                Some(s) => self.model() == ValueModel::Text(s@),
                None => !(self.model() is Text),
            },
    {
        match self {
            Value::Text(s) => Some(s.as_str()),
            _ => None,
        }
    }
}

impl Clone for Value {
    /// A clone denotes the same structured value as the original.
    #[verifier::loop_isolation(false)]
    fn clone(&self) -> (res: Self)
        ensures
            res.model() == self.model(),
        decreases self,
    {
        match self {
            Value::Null => Value::Null,
            Value::Bool(b) => Value::Bool(*b),
            Value::Int(i) => Value::Int(*i),
            Value::Text(s) => Value::Text(s.clone()),
            Value::Array(items) => {
                let mut out: Vec<Value> = Vec::new();
                let n = items.len();
                let mut i: usize = 0;
                while i < n
                    invariant
                        i <= n,
                        n == items@.len(),
                        out@.len() == i,
                        forall|j: int| 0 <= j < i ==> out@[j].model() == items@[j].model(),
                    decreases n - i,
                {
                    proof {
                        axiom_seq_index_decreases(self->Array_0@, i as int);
                        assert(decreases_to!(*self => self->Array_0));
                        assert(decreases_to!(self->Array_0 => self->Array_0@));
                    }
                    out.push(items[i].clone());
                    i = i + 1;
                }
                proof {
                    lemma_array_model(out@);
                    lemma_array_model(items@);
                    assert(array_model(out@) =~= array_model(items@));
                }
                Value::Array(out)
            },
            Value::Record(entries) => {
                let mut out: Vec<(String, Value)> = Vec::new();
                let n = entries.len();
                let mut i: usize = 0;
                while i < n
                    invariant
                        i <= n,
                        n == entries@.len(),
                        out@.len() == i,
                        forall|j: int|
                            0 <= j < i ==> out@[j].0@ == entries@[j].0@ && out@[j].1.model()
                                == entries@[j].1.model(),
                    decreases n - i,
                {
                    proof {
                        axiom_seq_index_decreases(self->Record_0@, i as int);
                        assert(decreases_to!(*self => self->Record_0));
                        assert(decreases_to!(self->Record_0 => self->Record_0@));
                        assert(decreases_to!(
                            self->Record_0@[i as int] => self->Record_0@[i as int].1
                        ));
                    }
                    out.push((entries[i].0.clone(), entries[i].1.clone()));
                    i = i + 1;
                }
                proof {
                    lemma_record_model(out@);
                    lemma_record_model(entries@);
                    assert(record_model(out@) =~= record_model(entries@));
                }
                Value::Record(out)
            },
        }
    }
}

} // verus!
