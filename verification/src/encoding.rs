//! The events in the host's representation: what each published record
//! becomes when it is handed to the host, value by value.

use vstd::prelude::*;
use soroban_sdk::Env;
use crate::envelope::{LegacyEvent, StandardEvent, StandardEventView};
use crate::host::{
    intern, map_entries, new_entries, new_values, push_address, push_bool, push_entries, push_i128,
    push_list, push_symbol, push_text, push_u128, push_u32, push_u64, push_void, set_entry,
    vec_values, EntriesView, HostEntries, HostValue, HostValues,
};
use crate::metadata::{Metadata, MetadataView};
use crate::topics::{
    lemma_identifier_is_symbol_text, lemma_key_identifiers, lemma_root_topic_is_symbol_text,
    MetadataKey, METADATA_KEY_COUNT, ROOT_TOPIC,
};
use crate::value::{views, Value, ValueView};

verus! {

/// The values as the host holds them: each one a scalar.
pub open spec fn scalars(values: Seq<ValueView>) -> Seq<HostValue> {
    Seq::new(values.len(), |i: int| HostValue::Scalar(values[i]))
}

/// The host entries that stand for the first `count` keys of the
/// vocabulary: each present key's values under the key's identifier.
pub open spec fn host_entries(metadata: MetadataView, count: nat) -> EntriesView
    decreases count,
{
    if count == 0 {
        Map::empty()
    } else {
        let key = MetadataKey::spec_at(count - 1);
        let earlier = host_entries(metadata, (count - 1) as nat);
        if metadata.dom().contains(key) {
            earlier.insert(key.spec_identifier(), scalars(metadata[key]))
        } else {
            earlier
        }
    }
}

/// The host entries that stand for a metadata mapping.
pub open spec fn host_metadata(metadata: MetadataView) -> EntriesView {
    host_entries(metadata, METADATA_KEY_COUNT as nat)
}

/// The identities of a legacy channel as the host holds them.
pub open spec fn address_values(keys: Seq<soroban_sdk::Address>) -> Seq<HostValue> {
    Seq::new(keys.len(), |i: int| HostValue::Scalar(ValueView::Address(keys[i])))
}

/// The identity of the actor as the host holds it: the address, or the
/// void value where there is no actor.
pub open spec fn optional_address(address: Option<soroban_sdk::Address>) -> HostValue {
    match address {
        Some(a) => HostValue::Scalar(ValueView::Address(a)),
        None => HostValue::Void,
    }
}

/// The payload of a standardized event as the host holds it: emitter,
/// actor, data, metadata, timestamp and version, in this order.
pub open spec fn host_payload(event: StandardEventView) -> Seq<HostValue> {
    seq![
        HostValue::Scalar(ValueView::Address(event.contract_address)),
        optional_address(event.user_address),
        HostValue::List(scalars(event.data)),
        HostValue::Entries(host_metadata(event.metadata)),
        HostValue::Scalar(ValueView::U64(event.timestamp)),
        HostValue::Scalar(ValueView::U32(event.version)),
    ]
}

/// Appends one value to a host sequence.
fn push_value(env: &Env, out: &mut HostValues, value: &Value)
    ensures
        vec_values(*final(out)) == vec_values(*old(out)).push(HostValue::Scalar(value@)),
{
    match value {
        Value::I128(x) => push_i128(env, out, *x),
        Value::U128(x) => push_u128(env, out, *x),
        Value::U64(x) => push_u64(env, out, *x),
        Value::U32(x) => push_u32(env, out, *x),
        Value::Bool(x) => push_bool(env, out, *x),
        Value::Address(a) => push_address(out, a),
        Value::Symbol(s) => {
            let symbol = intern(env, s.as_str());
            push_symbol(out, &symbol);
        },
        Value::Text(t) => push_text(env, out, t.as_str()),
    }
}

/// One value as a host sequence of length one.
pub fn encode_value(env: &Env, value: &Value) -> (out: HostValues)
    ensures
        vec_values(out) == seq![HostValue::Scalar(value@)],
{
    let mut out = new_values(env);
    push_value(env, &mut out, value);
    assert(vec_values(out) =~= seq![HostValue::Scalar(value@)]);
    out
}

/// The values as a host sequence: the same values in the same order.
pub fn encode_values(env: &Env, values: &Vec<Value>) -> (out: HostValues)
    ensures
        vec_values(out) == scalars(views(values@)),
{
    let ghost all = scalars(views(values@));
    let mut out = new_values(env);
    let mut i: usize = 0;
    while i < values.len()
        invariant
            i <= values@.len(),
            all == scalars(views(values@)),
            vec_values(out) == all.subrange(0, i as int),
        decreases values@.len() - i,
    {
        push_value(env, &mut out, &values[i]);
        assert(all.subrange(0, i + 1) =~= all.subrange(0, i as int).push(
            HostValue::Scalar(values@[i as int]@),
        ));
        i = i + 1;
    }
    assert(all.subrange(0, i as int) =~= all);
    out
}

/// The metadata as a host mapping: the values of each present key under
/// the key's identifier.
pub fn encode_metadata(env: &Env, metadata: &Metadata) -> (out: HostEntries)
    ensures
        map_entries(out) == host_metadata(metadata@),
{
    let mut out = new_entries(env);
    let mut i: usize = 0;
    while i < METADATA_KEY_COUNT
        invariant
            i <= METADATA_KEY_COUNT,
            map_entries(out) == host_entries(metadata@, i as nat),
        decreases METADATA_KEY_COUNT - i,
    {
        if let Some(key) = MetadataKey::at(i) {
            if let Some(values) = metadata.decode(key) {
                let encoded = encode_values(env, values);
                proof {
                    lemma_key_identifiers(key, key);
                }
                let name = intern(env, key.identifier());
                set_entry(&mut out, name, encoded);
            }
        }
        i = i + 1;
    }
    out
}

/// The channel of a standardized event: the root topic, then the
/// identifier of the event's kind.
pub fn standard_channel(env: &Env, event: &StandardEvent) -> (topics: HostValues)
    ensures
        vec_values(topics) == seq![
            HostValue::Scalar(ValueView::Symbol(ROOT_TOPIC@)),
            HostValue::Scalar(ValueView::Symbol(event@.event_type.spec_identifier())),
        ],
{
    let kind = event.event_type();
    proof {
        lemma_root_topic_is_symbol_text();
        lemma_identifier_is_symbol_text(kind);
    }
    let mut topics = new_values(env);
    let root = intern(env, ROOT_TOPIC);
    push_symbol(&mut topics, &root);
    let name = intern(env, kind.identifier());
    push_symbol(&mut topics, &name);
    assert(vec_values(topics) =~= seq![
        HostValue::Scalar(ValueView::Symbol(ROOT_TOPIC@)),
        HostValue::Scalar(ValueView::Symbol(event@.event_type.spec_identifier())),
    ]);
    topics
}

/// The payload of a standardized event: emitter, actor, data, metadata,
/// timestamp and version, in this order. Where the event has no actor the
/// void value stands in the actor's place.
pub fn standard_payload(env: &Env, event: &StandardEvent) -> (payload: HostValues)
    ensures
        vec_values(payload) == host_payload(event@),
{
    let mut payload = new_values(env);
    push_address(&mut payload, event.contract_address());
    match event.user_address() {
        Some(actor) => push_address(&mut payload, actor),
        None => push_void(&mut payload),
    }
    let data = encode_values(env, event.data());
    push_list(&mut payload, &data);
    let metadata = encode_metadata(env, event.metadata());
    push_entries(&mut payload, &metadata);
    push_u64(env, &mut payload, event.timestamp());
    push_u32(env, &mut payload, event.version());
    assert(vec_values(payload) =~= host_payload(event@));
    payload
}

/// The channel of a legacy record: the identifier of its topic, then its
/// key identities in order.
pub fn legacy_channel(env: &Env, event: &LegacyEvent) -> (topics: HostValues)
    ensures
        vec_values(topics) == seq![
            HostValue::Scalar(ValueView::Symbol(event.topic.spec_identifier())),
        ] + address_values(event.keys@),
{
    proof {
        lemma_identifier_is_symbol_text(event.topic);
    }
    let mut topics = new_values(env);
    let name = intern(env, event.topic.identifier());
    push_symbol(&mut topics, &name);
    let ghost head = seq![HostValue::Scalar(ValueView::Symbol(event.topic.spec_identifier()))];
    assert(vec_values(topics) =~= head + address_values(event.keys@).subrange(0, 0));
    let mut i: usize = 0;
    while i < event.keys.len()
        invariant
            i <= event.keys@.len(),
            head == seq![HostValue::Scalar(ValueView::Symbol(event.topic.spec_identifier()))],
            vec_values(topics) == head + address_values(event.keys@).subrange(0, i as int),
        decreases event.keys@.len() - i,
    {
        push_address(&mut topics, &event.keys[i]);
        assert(head + address_values(event.keys@).subrange(0, i + 1) =~= (head + address_values(
            event.keys@,
        ).subrange(0, i as int)).push(HostValue::Scalar(ValueView::Address(event.keys@[i as int]))));
        i = i + 1;
    }
    assert(address_values(event.keys@).subrange(0, i as int) =~= address_values(event.keys@));
    topics
}

/// The host mapping of a metadata holds, under each identifier of the
/// vocabulary, exactly what the metadata holds under that key, and nothing
/// under any other text.
pub proof fn lemma_host_entries(metadata: MetadataView, key: MetadataKey, text: Seq<char>)
    ensures
        ({
            let entries = host_metadata(metadata);
            &&& entries.dom().contains(key.spec_identifier()) == metadata.dom().contains(key)
            &&& metadata.dom().contains(key) ==> entries[key.spec_identifier()] == scalars(metadata[key])
            &&& entries.dom().contains(text) ==> exists|k: MetadataKey| #[trigger]
                k.spec_identifier() == text
        }),
{
    lemma_host_entries_up_to(metadata, METADATA_KEY_COUNT as nat, key, text);
}

/// The same for the first `count` keys of the vocabulary.
proof fn lemma_host_entries_up_to(metadata: MetadataView, count: nat, key: MetadataKey, text: Seq<char>)
    requires
        count <= METADATA_KEY_COUNT,
    ensures
        ({
            let entries = host_entries(metadata, count);
            &&& entries.dom().contains(key.spec_identifier()) == (key.spec_index() < count
                && metadata.dom().contains(key))
            &&& key.spec_index() < count && metadata.dom().contains(key)
                ==> entries[key.spec_identifier()] == scalars(metadata[key])
            &&& entries.dom().contains(text) ==> exists|k: MetadataKey| #[trigger]
                k.spec_identifier() == text
        }),
    decreases count,
{
    if count > 0 {
        let last = MetadataKey::spec_at(count - 1);
        lemma_host_entries_up_to(metadata, (count - 1) as nat, key, text);
        lemma_key_identifiers(last, key);
        assert(last.spec_index() == count - 1);
        if host_entries(metadata, count).dom().contains(text) {
            if !host_entries(metadata, (count - 1) as nat).dom().contains(text) {
                assert(last.spec_identifier() == text);
            }
        }
    }
}

} // verus!
