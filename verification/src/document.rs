//! The document model: what a serialized descriptor looks like.
//!
//! A document is an ordered list of key/value entries. Values are the shapes
//! this library itself emits: booleans, numbers, text, positional arrays of
//! numbers. Numbers are carried as the bit pattern of
//! the external schema's double-precision values, so that the model stays
//! purely structural; rendering the bits as a decimal is left to callers.

use vstd::prelude::*;

verus! {

/// A numeric document value, carried as the IEEE 754 bit pattern of the
/// double-precision number the external schema will read.
#[derive(Clone, Copy, Debug, PartialEq, Eq, Structural)]
pub struct Number {
    pub bits: u64,
}

impl Number {
    pub fn from_bits(bits: u64) -> (r: Number)
        ensures
            r.bits == bits,
    {
        Number { bits }
    }
}

/// One value of a document entry: the shapes this library emits.
#[derive(Clone, Debug, PartialEq)]
pub enum Value {
    Bool(bool),
    Num(Number),
    Text(String),
    NumArr(Vec<Number>),
}

/// The mathematical model of a `Value`: text as a sequence of characters,
/// numeric arrays as a sequence of bit patterns.
pub enum ValueModel {
    Bool(bool),
    Num(u64),
    Text(Seq<char>),
    NumArr(Seq<u64>),
}

impl View for Value {
    type V = ValueModel;

    open spec fn view(&self) -> ValueModel {
        match self {
            Value::Bool(b) => ValueModel::Bool(*b),
            Value::Num(n) => ValueModel::Num(n.bits),
            Value::Text(s) => ValueModel::Text(s@),
            Value::NumArr(a) => ValueModel::NumArr(a@.map_values(|n: Number| n.bits)),
        }
    }
}

/// A serialized descriptor: key/value entries in emission order.
#[derive(Clone, Debug, PartialEq)]
pub struct Document {
    pub entries: Vec<(String, Value)>,
}

impl View for Document {
    type V = Seq<(Seq<char>, ValueModel)>;

    open spec fn view(&self) -> Seq<(Seq<char>, ValueModel)> {
        self.entries@.map_values(|e: (String, Value)| (e.0@, e.1@))
    }
}

/// The entries an optional field contributes to a document: none when the
/// field is absent, exactly one when it is present.
pub open spec fn opt_entry(key: Seq<char>, v: Option<ValueModel>) -> Seq<(Seq<char>, ValueModel)> {
    match v {
        Option::Some(x) => seq![(key, x)],
        Option::None => Seq::empty(),
    }
}

/// How an optional boolean field transcodes.
pub open spec fn bool_model(o: Option<bool>) -> Option<ValueModel> {
    match o {
        Option::Some(b) => Option::Some(ValueModel::Bool(b)),
        Option::None => Option::None,
    }
}

/// How an optional numeric field transcodes.
pub open spec fn num_model(o: Option<Number>) -> Option<ValueModel> {
    match o {
        Option::Some(n) => Option::Some(ValueModel::Num(n.bits)),
        Option::None => Option::None,
    }
}

/// How an optional free-form text field transcodes.
pub open spec fn text_model(o: Option<String>) -> Option<ValueModel> {
    match o {
        Option::Some(s) => Option::Some(ValueModel::Text(s@)),
        Option::None => Option::None,
    }
}

/// How an optional ordered pair transcodes: a positional two-element array,
/// first component first.
pub open spec fn pair_model(o: Option<(Number, Number)>) -> Option<ValueModel> {
    match o {
        Option::Some(p) => Option::Some(ValueModel::NumArr(seq![p.0.bits, p.1.bits])),
        Option::None => Option::None,
    }
}

/// How an optional ordered quadruple transcodes: a positional four-element
/// array in declared order.
pub open spec fn quad_model(o: Option<(Number, Number, Number, Number)>) -> Option<ValueModel> {
    match o {
        Option::Some(q) => Option::Some(
            ValueModel::NumArr(seq![q.0.bits, q.1.bits, q.2.bits, q.3.bits]),
        ),
        Option::None => Option::None,
    }
}

/// The model of an optional value that was already transcoded.
pub open spec fn value_model(o: Option<Value>) -> Option<ValueModel> {
    match o {
        Option::Some(v) => Option::Some(v@),
        Option::None => Option::None,
    }
}

impl Document {
    /// The empty document: no entries at all.
    pub fn new() -> (r: Document)
        ensures
            r@ == Seq::<(Seq<char>, ValueModel)>::empty(),
    {
        let r = Document { entries: Vec::new() };
        proof {
            assert(r@ =~= Seq::<(Seq<char>, ValueModel)>::empty());
        }
        r
    }

    /// Appends the entry an optional, already-transcoded value contributes:
    /// nothing when absent, one keyed entry when present.
    pub fn push_opt(&mut self, key: &str, v: Option<Value>)
        ensures
            final(self)@ == old(self)@ + opt_entry(key@, value_model(v)),
    {
        match v {
            Option::Some(x) => {
                self.entries.push((String::from_str(key), x));
            },
            Option::None => {},
        }
        proof {
            assert(self@ =~= old(self)@ + opt_entry(key@, value_model(v)));
        }
    }

    /// Appends the entry for an optional boolean field.
    pub fn push_bool(&mut self, key: &str, v: Option<bool>)
        ensures
            final(self)@ == old(self)@ + opt_entry(key@, bool_model(v)),
    {
        match v {
            Option::Some(b) => self.push_opt(key, Option::Some(Value::Bool(b))),
            Option::None => self.push_opt(key, Option::None),
        }
    }

    /// Appends the entry for an optional numeric field.
    pub fn push_num(&mut self, key: &str, v: Option<Number>)
        ensures
            final(self)@ == old(self)@ + opt_entry(key@, num_model(v)),
    {
        match v {
            Option::Some(n) => self.push_opt(key, Option::Some(Value::Num(n))),
            Option::None => self.push_opt(key, Option::None),
        }
    }

    /// Appends the entry for an optional free-form text field.
    pub fn push_text(&mut self, key: &str, v: Option<String>)
        ensures
            final(self)@ == old(self)@ + opt_entry(key@, text_model(v)),
    {
        match v {
            Option::Some(s) => self.push_opt(key, Option::Some(Value::Text(s))),
            Option::None => self.push_opt(key, Option::None),
        }
    }

    /// Appends the entry for an optional ordered pair, emitted as a
    /// positional array: first component, then second.
    pub fn push_pair(&mut self, key: &str, v: Option<(Number, Number)>)
        ensures
            final(self)@ == old(self)@ + opt_entry(key@, pair_model(v)),
    {
        match v {
            Option::Some(p) => {
                let mut a: Vec<Number> = Vec::new();
                a.push(p.0);
                a.push(p.1);
                proof {
                    assert(a@.map_values(|n: Number| n.bits) =~= seq![p.0.bits, p.1.bits]);
                }
                self.push_opt(key, Option::Some(Value::NumArr(a)));
            },
            Option::None => self.push_opt(key, Option::None),
        }
    }

    /// Appends the entry for an optional ordered quadruple, emitted as a
    /// positional array in declared order.
    pub fn push_quad(&mut self, key: &str, v: Option<(Number, Number, Number, Number)>)
        ensures
            final(self)@ == old(self)@ + opt_entry(key@, quad_model(v)),
    {
        match v {
            Option::Some(q) => {
                let mut a: Vec<Number> = Vec::new();
                a.push(q.0);
                a.push(q.1);
                a.push(q.2);
                a.push(q.3);
                proof {
                    assert(a@.map_values(|n: Number| n.bits) =~= seq![
                        q.0.bits,
                        q.1.bits,
                        q.2.bits,
                        q.3.bits,
                    ]);
                }
                self.push_opt(key, Option::Some(Value::NumArr(a)));
            },
            Option::None => self.push_opt(key, Option::None),
        }
    }
}

} // verus!
