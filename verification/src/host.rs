//! The boundary to `soroban_sdk`: the host types that events carry, and the
//! host calls that turn an event into host values.
//!
//! Nothing in this file is proved. Each item names the SDK function it
//! stands for and states what the SDK documents of it, on two assumptions
//! that no contract here speaks of:
//!
//! - Every host value handed to one call belongs to one host. An address,
//!   a symbol, a sequence or a mapping is a handle into the host that made
//!   it; in another host the handle names another object, or none. A
//!   contract runs against a single host, so this can fail only where a
//!   process holds several, as a test may.
//! - The host grants an invocation a budget. A call that exceeds it ends
//!   the invocation.

use vstd::prelude::*;
use soroban_sdk::IntoVal;
use crate::symbol::is_symbol_text;
use crate::value::ValueView;

verus! {

/// `soroban_sdk::Env`: the handle to the host.
#[verifier::external_type_specification]
#[verifier::external_body]
pub struct ExEnv(soroban_sdk::Env);

/// `soroban_sdk::Address`: an identity on the ledger, an account or a
/// contract. The library carries addresses through and never looks inside
/// one.
#[verifier::external_type_specification]
#[verifier::external_body]
pub struct ExAddress(soroban_sdk::Address);

/// `soroban_sdk::Symbol`: a text interned by the host.
#[verifier::external_type_specification]
#[verifier::external_body]
pub struct ExSymbol(soroban_sdk::Symbol);

/// `soroban_sdk::Val`: one value in the host's own representation.
#[verifier::external_type_specification]
#[verifier::external_body]
pub struct ExVal(soroban_sdk::Val);

/// `soroban_sdk::Vec`: a sequence kept by the host.
#[verifier::external_type_specification]
#[verifier::external_body]
#[verifier::reject_recursive_types(T)]
pub struct ExVec<T>(soroban_sdk::Vec<T>);

/// `soroban_sdk::Map`: a mapping kept by the host.
#[verifier::external_type_specification]
#[verifier::external_body]
#[verifier::reject_recursive_types(K)]
#[verifier::reject_recursive_types(V)]
pub struct ExMap<K, V>(soroban_sdk::Map<K, V>);

/// A host sequence of host values.
pub type HostValues = soroban_sdk::Vec<soroban_sdk::Val>;

/// A host mapping from symbols to sequences of host values.
pub type HostEntries = soroban_sdk::Map<soroban_sdk::Symbol, soroban_sdk::Vec<soroban_sdk::Val>>;

/// What one host value stands for.
pub enum HostValue {
    /// The host's void value.
    Void,
    /// An integer, a flag, an address, a symbol or a string.
    Scalar(ValueView),
    /// A host sequence, by the values it holds.
    List(Seq<HostValue>),
    /// A host mapping, by the entries it holds.
    Entries(Map<Seq<char>, Seq<HostValue>>),
}

/// What a host mapping stands for: the values under the text of each key.
pub type EntriesView = Map<Seq<char>, Seq<HostValue>>;

/// The text that a host symbol holds.
pub uninterp spec fn symbol_text(symbol: soroban_sdk::Symbol) -> Seq<char>;

/// The values that a host sequence holds, in order.
pub uninterp spec fn vec_values(values: soroban_sdk::Vec<soroban_sdk::Val>) -> Seq<HostValue>;

/// The entries that a host mapping holds: the values under the text of each
/// key.
pub uninterp spec fn map_entries(
    entries: soroban_sdk::Map<soroban_sdk::Symbol, soroban_sdk::Vec<soroban_sdk::Val>>,
) -> Map<Seq<char>, Seq<HostValue>>;

/// `Address::clone`: the copy is the same address.
pub assume_specification[ <soroban_sdk::Address as Clone>::clone ](
    address: &soroban_sdk::Address,
) -> (copy: soroban_sdk::Address)
    ensures
        copy == *address,
;

/// `Symbol::new`: interns a text. The SDK accepts the texts of at most 32
/// characters from `a-zA-Z0-9_` and panics on any other, so those are
/// required; the symbol holds the text given.
#[verifier::external_body]
pub(crate) fn intern(env: &soroban_sdk::Env, text: &str) -> (symbol: soroban_sdk::Symbol)
    requires
        is_symbol_text(text@),
    ensures
        symbol_text(symbol) == text@,
{
    soroban_sdk::Symbol::new(env, text)
}

/// `Vec::new`: an empty host sequence.
#[verifier::external_body]
pub(crate) fn new_values(env: &soroban_sdk::Env) -> (values: HostValues)
    ensures
        vec_values(values) == Seq::<HostValue>::empty(),
{
    soroban_sdk::Vec::new(env)
}

/// `Vec::push_back` of an `i128`: the sequence grows by that value at the
/// end.
#[verifier::external_body]
pub(crate) fn push_i128(env: &soroban_sdk::Env, values: &mut HostValues, x: i128)
    ensures
        vec_values(*final(values)) == vec_values(*old(values)).push(HostValue::Scalar(ValueView::I128(x))),
{
    values.push_back(x.into_val(env))
}

/// `Vec::push_back` of a `u128`: the sequence grows by that value at the
/// end.
#[verifier::external_body]
pub(crate) fn push_u128(env: &soroban_sdk::Env, values: &mut HostValues, x: u128)
    ensures
        vec_values(*final(values)) == vec_values(*old(values)).push(HostValue::Scalar(ValueView::U128(x))),
{
    values.push_back(x.into_val(env))
}

/// `Vec::push_back` of a `u64`: the sequence grows by that value at the
/// end.
#[verifier::external_body]
pub(crate) fn push_u64(env: &soroban_sdk::Env, values: &mut HostValues, x: u64)
    ensures
        vec_values(*final(values)) == vec_values(*old(values)).push(HostValue::Scalar(ValueView::U64(x))),
{
    values.push_back(x.into_val(env))
}

/// `Vec::push_back` of a `u32`: the sequence grows by that value at the
/// end.
#[verifier::external_body]
pub(crate) fn push_u32(env: &soroban_sdk::Env, values: &mut HostValues, x: u32)
    ensures
        vec_values(*final(values)) == vec_values(*old(values)).push(HostValue::Scalar(ValueView::U32(x))),
{
    values.push_back(x.into_val(env))
}

/// `Vec::push_back` of a `bool`: the sequence grows by that value at the
/// end.
#[verifier::external_body]
pub(crate) fn push_bool(env: &soroban_sdk::Env, values: &mut HostValues, x: bool)
    ensures
        vec_values(*final(values)) == vec_values(*old(values)).push(HostValue::Scalar(ValueView::Bool(x))),
{
    values.push_back(x.into_val(env))
}

/// `Vec::push_back` of an address: the sequence grows by that address at
/// the end.
#[verifier::external_body]
pub(crate) fn push_address(values: &mut HostValues, address: &soroban_sdk::Address)
    ensures
        vec_values(*final(values)) == vec_values(*old(values)).push(HostValue::Scalar(ValueView::Address(*address))),
{
    values.push_back(address.to_val())
}

/// `Vec::push_back` of a symbol: the sequence grows by a symbol of that
/// text at the end.
#[verifier::external_body]
pub(crate) fn push_symbol(values: &mut HostValues, symbol: &soroban_sdk::Symbol)
    ensures
        vec_values(*final(values)) == vec_values(*old(values)).push(
            HostValue::Scalar(ValueView::Symbol(symbol_text(*symbol))),
        ),
{
    values.push_back(symbol.to_val())
}

/// `Vec::push_back` of a host string made by `String::from_str`: the
/// sequence grows by a string of that text at the end.
#[verifier::external_body]
pub(crate) fn push_text(env: &soroban_sdk::Env, values: &mut HostValues, text: &str)
    ensures
        vec_values(*final(values)) == vec_values(*old(values)).push(HostValue::Scalar(ValueView::Text(text@))),
{
    values.push_back(soroban_sdk::String::from_str(env, text).to_val())
}

/// `Vec::push_back` of the host's void value: the sequence grows by the
/// void value at the end.
#[verifier::external_body]
pub(crate) fn push_void(values: &mut HostValues)
    ensures
        vec_values(*final(values)) == vec_values(*old(values)).push(HostValue::Void),
{
    values.push_back(soroban_sdk::Val::VOID.to_val())
}

/// `Vec::push_back` of a host sequence: the outer sequence grows by the
/// inner one, as one value, at the end.
#[verifier::external_body]
pub(crate) fn push_list(values: &mut HostValues, list: &HostValues)
    ensures
        vec_values(*final(values)) == vec_values(*old(values)).push(HostValue::List(vec_values(*list))),
{
    values.push_back(list.to_val())
}

/// `Vec::push_back` of a host mapping: the sequence grows by the mapping,
/// as one value, at the end.
#[verifier::external_body]
pub(crate) fn push_entries(values: &mut HostValues, entries: &HostEntries)
    ensures
        vec_values(*final(values)) == vec_values(*old(values)).push(
            HostValue::Entries(map_entries(*entries)),
        ),
{
    values.push_back(entries.to_val())
}

/// `Map::new`: an empty host mapping.
#[verifier::external_body]
pub(crate) fn new_entries(env: &soroban_sdk::Env) -> (entries: HostEntries)
    ensures
        map_entries(entries) == EntriesView::empty(),
{
    soroban_sdk::Map::new(env)
}

/// `Map::set`: files the values under the key, replacing what the key held.
#[verifier::external_body]
pub(crate) fn set_entry(
    entries: &mut HostEntries,
    key: soroban_sdk::Symbol,
    values: HostValues,
)
    ensures
        map_entries(*final(entries)) == map_entries(*old(entries)).insert(
            symbol_text(key),
            vec_values(values),
        ),
{
    entries.set(key, values)
}

} // verus!
