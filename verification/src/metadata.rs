//! The metadata codec: selected fields of an event, each filed under a key
//! of the fixed vocabulary as an ordered list of values.

use vstd::prelude::*;
use crate::topics::MetadataKey;
use crate::value::{clone_values, views, Value, ValueView};

verus! {

/// What a metadata mapping stands for: each present key with its values.
pub type MetadataView = Map<MetadataKey, Seq<ValueView>>;

/// The mapping with one more field encoded. Encoding under a key that is
/// present replaces its values.
pub open spec fn spec_encode(metadata: MetadataView, key: MetadataKey, values: Seq<ValueView>) -> MetadataView {
    metadata.insert(key, values)
}

/// The values filed under `key`, if any.
pub open spec fn spec_decode(metadata: MetadataView, key: MetadataKey) -> Option<Seq<ValueView>> {
    if metadata.dom().contains(key) {
        Some(metadata[key])
    } else {
        None
    }
}

/// A mapping from metadata keys to lists of values.
#[derive(Debug, PartialEq, Eq)]
pub struct Metadata {
    amount: Option<Vec<Value>>,
    from: Option<Vec<Value>>,
    to: Option<Vec<Value>>,
    token: Option<Vec<Value>>,
    pair: Option<Vec<Value>>,
    price: Option<Vec<Value>>,
    fee: Option<Vec<Value>>,
    reason: Option<Vec<Value>>,
    proposal_id: Option<Vec<Value>>,
    vote_type: Option<Vec<Value>>,
    lock_period: Option<Vec<Value>>,
    reward_rate: Option<Vec<Value>>,
}

impl View for Metadata {
    type V = MetadataView;

    closed spec fn view(&self) -> MetadataView {
        Map::new(
            |key: MetadataKey| self.slot(key) is Some,
            |key: MetadataKey| views(self.slot(key)->Some_0@),
        )
    }
}

impl Metadata {
    /// The values held for `key`.
    spec fn slot(self, key: MetadataKey) -> Option<Vec<Value>> {
        match key {
            MetadataKey::Amount => self.amount,
            MetadataKey::From => self.from,
            MetadataKey::To => self.to,
            MetadataKey::Token => self.token,
            MetadataKey::Pair => self.pair,
            MetadataKey::Price => self.price,
            MetadataKey::Fee => self.fee,
            MetadataKey::Reason => self.reason,
            MetadataKey::ProposalId => self.proposal_id,
            MetadataKey::VoteType => self.vote_type,
            MetadataKey::LockPeriod => self.lock_period,
            MetadataKey::RewardRate => self.reward_rate,
        }
    }

    /// The empty mapping.
    pub fn new() -> (metadata: Metadata)
        ensures
            metadata@ == Map::<MetadataKey, Seq<ValueView>>::empty(),
    {
        let metadata = Metadata {
            amount: None,
            from: None,
            to: None,
            token: None,
            pair: None,
            price: None,
            fee: None,
            reason: None,
            proposal_id: None,
            vote_type: None,
            lock_period: None,
            reward_rate: None,
        };
        assert(metadata@ =~= Map::<MetadataKey, Seq<ValueView>>::empty());
        metadata
    }

    /// Files `values` under `key`, replacing what was there.
    pub fn set(&mut self, key: MetadataKey, values: Vec<Value>)
        ensures
            final(self)@ == spec_encode(old(self)@, key, views(values@)),
    {
        let ghost filed = views(values@);
        match key {
            MetadataKey::Amount => { self.amount = Some(values); },
            MetadataKey::From => { self.from = Some(values); },
            MetadataKey::To => { self.to = Some(values); },
            MetadataKey::Token => { self.token = Some(values); },
            MetadataKey::Pair => { self.pair = Some(values); },
            MetadataKey::Price => { self.price = Some(values); },
            MetadataKey::Fee => { self.fee = Some(values); },
            MetadataKey::Reason => { self.reason = Some(values); },
            MetadataKey::ProposalId => { self.proposal_id = Some(values); },
            MetadataKey::VoteType => { self.vote_type = Some(values); },
            MetadataKey::LockPeriod => { self.lock_period = Some(values); },
            MetadataKey::RewardRate => { self.reward_rate = Some(values); },
        }
        assert(self@ =~= spec_encode(old(self)@, key, filed));
    }

    /// Encodes one field: files the single value under `key`.
    pub fn encode(&mut self, key: MetadataKey, value: Value)
        ensures
            final(self)@ == spec_encode(old(self)@, key, seq![value@]),
    {
        let mut values: Vec<Value> = Vec::new();
        values.push(value);
        assert(views(values@) =~= seq![value@]);
        self.set(key, values);
    }

    /// Decodes one field: the values filed under `key`, if the key is
    /// present.
    pub fn decode(&self, key: MetadataKey) -> (found: Option<&Vec<Value>>)
        ensures
            (match found {
                Some(values) => spec_decode(self@, key) == Some(views(values@)),
                None => spec_decode(self@, key) is None,
            }),
    {
        match key {
            MetadataKey::Amount => self.amount.as_ref(),
            MetadataKey::From => self.from.as_ref(),
            MetadataKey::To => self.to.as_ref(),
            MetadataKey::Token => self.token.as_ref(),
            MetadataKey::Pair => self.pair.as_ref(),
            MetadataKey::Price => self.price.as_ref(),
            MetadataKey::Fee => self.fee.as_ref(),
            MetadataKey::Reason => self.reason.as_ref(),
            MetadataKey::ProposalId => self.proposal_id.as_ref(),
            MetadataKey::VoteType => self.vote_type.as_ref(),
            MetadataKey::LockPeriod => self.lock_period.as_ref(),
            MetadataKey::RewardRate => self.reward_rate.as_ref(),
        }
    }

    /// Whether any value is filed under `key`.
    pub fn contains_key(&self, key: MetadataKey) -> (present: bool)
        ensures
            present == self@.dom().contains(key),
    {
        self.decode(key).is_some()
    }
}

impl Default for Metadata {
    /// The empty mapping.
    fn default() -> (metadata: Self)
        ensures
            metadata@ == Map::<MetadataKey, Seq<ValueView>>::empty(),
    {
        Metadata::new()
    }
}

/// A copy of one slot.
fn clone_slot(slot: &Option<Vec<Value>>) -> (copy: Option<Vec<Value>>)
    ensures
        (match (*slot, copy) {
            (Some(values), Some(copied)) => copied@ == values@,
            (None, None) => true,
            _ => false,
        }),
{
    match slot {
        Some(values) => Some(clone_values(values)),
        None => None,
    }
}

impl Clone for Metadata {
    /// A second mapping with the same fields.
    fn clone(&self) -> (copy: Self)
        ensures
            copy@ == self@,
    {
        let copy = Metadata {
            amount: clone_slot(&self.amount),
            from: clone_slot(&self.from),
            to: clone_slot(&self.to),
            token: clone_slot(&self.token),
            pair: clone_slot(&self.pair),
            price: clone_slot(&self.price),
            fee: clone_slot(&self.fee),
            reason: clone_slot(&self.reason),
            proposal_id: clone_slot(&self.proposal_id),
            vote_type: clone_slot(&self.vote_type),
            lock_period: clone_slot(&self.lock_period),
            reward_rate: clone_slot(&self.reward_rate),
        };
        assert(copy@ =~= self@);
        copy
    }
}

} // verus!
