//! The history state value: the library's stand-in for the engine-managed
//! value graph that scripts hand to the controller. A value the engine cannot
//! serialize (a live object such as a function) is represented by
//! [`Value::Unserializable`].

use vstd::prelude::*;

verus! {

/// A state value as scripts see it.
pub enum Value {
    Null,
    Undefined,
    Bool(bool),
    Int(i64),
    Text(String),
    Unserializable,
}

/// The mathematical model of a [`Value`].
pub ghost enum ValueView {
    Null,
    Undefined,
    Bool(bool),
    Int(i64),
    Text(Seq<char>),
    Unserializable,
}

impl View for Value {
    type V = ValueView;

    open spec fn view(&self) -> ValueView {
        match self {
            Value::Null => ValueView::Null,
            Value::Undefined => ValueView::Undefined,
            Value::Bool(b) => ValueView::Bool(*b),
            Value::Int(i) => ValueView::Int(*i),
            Value::Text(s) => ValueView::Text(s@),
            Value::Unserializable => ValueView::Unserializable,
        }
    }
}

/// The values the codec can write.
pub open spec fn serializable(v: ValueView) -> bool {
    match v {
        ValueView::Unserializable => false,
        ValueView::Text(s) => s.len() <= u64::MAX,
        _ => true,
    }
}

impl Value {
    /// A copy of this value whose model is identical.
    pub fn duplicate(&self) -> (r: Value)
        ensures
            r@ == self@,
    {
        match self {
            Value::Null => Value::Null,
            Value::Undefined => Value::Undefined,
            Value::Bool(b) => Value::Bool(*b),
            Value::Int(i) => Value::Int(*i),
            Value::Text(s) => Value::Text(s.clone()),
            Value::Unserializable => Value::Unserializable,
        }
    }
}

} // verus!
