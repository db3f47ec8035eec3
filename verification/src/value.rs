//! The typed values that an event carries.

use vstd::prelude::*;
use soroban_sdk::Address;
use crate::symbol::SymbolText;

verus! {

/// One typed value of an event's payload.
#[derive(Debug, PartialEq, Eq)]
pub enum Value {
    I128(i128),
    U128(u128),
    U64(u64),
    U32(u32),
    Bool(bool),
    Address(Address),
    Symbol(SymbolText),
    Text(String),
}

/// What a [`Value`] stands for.
pub enum ValueView {
    I128(i128),
    U128(u128),
    U64(u64),
    U32(u32),
    Bool(bool),
    Address(Address),
    Symbol(Seq<char>),
    Text(Seq<char>),
}

impl View for Value {
    type V = ValueView;

    open spec fn view(&self) -> ValueView {
        match *self {
            Value::I128(x) => ValueView::I128(x),
            Value::U128(x) => ValueView::U128(x),
            Value::U64(x) => ValueView::U64(x),
            Value::U32(x) => ValueView::U32(x),
            Value::Bool(x) => ValueView::Bool(x),
            Value::Address(x) => ValueView::Address(x),
            Value::Symbol(x) => ValueView::Symbol(x@),
            Value::Text(x) => ValueView::Text(x@),
        }
    }
}

impl Clone for Value {
    fn clone(&self) -> (copy: Self)
        ensures
            copy == *self,
    {
        match self {
            Value::I128(x) => Value::I128(*x),
            Value::U128(x) => Value::U128(*x),
            Value::U64(x) => Value::U64(*x),
            Value::U32(x) => Value::U32(*x),
            Value::Bool(x) => Value::Bool(*x),
            Value::Address(x) => Value::Address(x.clone()),
            Value::Symbol(x) => Value::Symbol(x.clone()),
            Value::Text(x) => Value::Text(x.clone()),
        }
    }
}

/// A second list holding the same values in the same order.
pub fn clone_values(values: &Vec<Value>) -> (copy: Vec<Value>)
    ensures
        copy@ == values@,
{
    let mut copy: Vec<Value> = Vec::new();
    let mut i: usize = 0;
    while i < values.len()
        invariant
            i <= values@.len(),
            copy@ == values@.subrange(0, i as int),
        decreases values@.len() - i,
    {
        copy.push(values[i].clone());
        assert(copy@ =~= values@.subrange(0, i + 1));
        i = i + 1;
    }
    assert(copy@ =~= values@);
    copy
}

/// What a sequence of values stands for, position by position.
pub open spec fn views(values: Seq<Value>) -> Seq<ValueView> {
    Seq::new(values.len(), |i: int| values[i]@)
}

} // verus!
