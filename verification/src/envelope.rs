//! The records handed to the transport: the standardized envelope, the
//! legacy record, and what each stands for.

use vstd::prelude::*;
use soroban_sdk::Address;
use crate::metadata::{Metadata, MetadataView};
use crate::records::{
    ContractPausedEvent, ContractUnpausedEvent, FeeCollectedEvent, ProposalApprovedEvent,
    ProposalCancelledEvent, ProposalCreatedEvent, ProposalExecutedEvent, ProposalRejectedEvent,
    RewardAddedEvent, RewardClaimedEvent, TradeExecutedEvent,
};
use crate::schema::CURRENT_VERSION;
use crate::topics::EventType;
use crate::value::{clone_values, views, Value, ValueView};

verus! {

/// What a [`StandardEvent`] stands for.
pub struct StandardEventView {
    pub event_type: EventType,
    pub contract_address: Address,
    pub user_address: Option<Address>,
    pub data: Seq<ValueView>,
    pub metadata: MetadataView,
    pub timestamp: u64,
    pub version: u32,
}

/// The standardized envelope of an event. Only the envelope builder makes
/// one, so its emitter, timestamp and version are never a caller's choice.
#[derive(Debug, PartialEq, Eq)]
pub struct StandardEvent {
    event_type: EventType,
    contract_address: Address,
    user_address: Option<Address>,
    data: Vec<Value>,
    metadata: Metadata,
    timestamp: u64,
    version: u32,
}

impl View for StandardEvent {
    type V = StandardEventView;

    closed spec fn view(&self) -> StandardEventView {
        StandardEventView {
            event_type: self.event_type,
            contract_address: self.contract_address,
            user_address: self.user_address,
            data: views(self.data@),
            metadata: self.metadata@,
            timestamp: self.timestamp,
            version: self.version,
        }
    }
}

impl StandardEvent {
    #[verifier::type_invariant]
    spec fn stamped(self) -> bool {
        self.version == CURRENT_VERSION
    }

    /// Assembles the envelope, stamped with the schema version in effect.
    pub(crate) fn stamp(
        event_type: EventType,
        contract_address: Address,
        user_address: Option<Address>,
        data: Vec<Value>,
        metadata: Metadata,
        timestamp: u64,
    ) -> (event: StandardEvent)
        ensures
            event@ == (StandardEventView {
                event_type,
                contract_address,
                user_address,
                data: views(data@),
                metadata: metadata@,
                timestamp,
                version: CURRENT_VERSION,
            }),
    {
        StandardEvent {
            event_type,
            contract_address,
            user_address,
            data,
            metadata,
            timestamp,
            version: CURRENT_VERSION,
        }
    }

    /// The kind of event.
    pub fn event_type(&self) -> (kind: EventType)
        ensures
            kind == self@.event_type,
    {
        self.event_type
    }

    /// The identity of the component that produced the event.
    pub fn contract_address(&self) -> (address: &Address)
        ensures
            *address == self@.contract_address,
    {
        &self.contract_address
    }

    /// The identity of the user who triggered the event, if any.
    pub fn user_address(&self) -> (address: Option<&Address>)
        ensures
            (match address {
                Some(a) => self@.user_address == Some(*a),
                None => self@.user_address is None,
            }),
    {
        self.user_address.as_ref()
    }

    /// The positional payload.
    pub fn data(&self) -> (data: &Vec<Value>)
        ensures
            views(data@) == self@.data,
    {
        &self.data
    }

    /// The keyed copy of selected fields.
    pub fn metadata(&self) -> (metadata: &Metadata)
        ensures
            metadata@ == self@.metadata,
    {
        &self.metadata
    }

    /// The clock value at emission.
    pub fn timestamp(&self) -> (timestamp: u64)
        ensures
            timestamp == self@.timestamp,
    {
        self.timestamp
    }

    /// The schema version at emission: always the version in effect.
    pub fn version(&self) -> (version: u32)
        ensures
            version == self@.version,
            version == CURRENT_VERSION,
    {
        proof {
            use_type_invariant(self);
        }
        self.version
    }
}

impl Clone for StandardEvent {
    /// A second envelope with the same fields.
    fn clone(&self) -> (copy: Self)
        ensures
            copy@ == self@,
    {
        proof {
            use_type_invariant(self);
        }
        let user_address = match &self.user_address {
            Some(address) => Some(address.clone()),
            None => None,
        };
        StandardEvent {
            event_type: self.event_type,
            contract_address: self.contract_address.clone(),
            user_address,
            data: clone_values(&self.data),
            metadata: self.metadata.clone(),
            timestamp: self.timestamp,
            version: self.version,
        }
    }
}

/// The payload of a legacy record.
#[derive(Debug, PartialEq, Eq)]
pub enum LegacyPayload {
    /// A single scalar.
    Value(Value),
    /// Several scalars in order, by convention ending in the timestamp.
    Tuple(Vec<Value>),
    TradeExecuted(TradeExecutedEvent),
    ContractPaused(ContractPausedEvent),
    ContractUnpaused(ContractUnpausedEvent),
    FeeCollected(FeeCollectedEvent),
    ProposalCreated(ProposalCreatedEvent),
    ProposalApproved(ProposalApprovedEvent),
    ProposalRejected(ProposalRejectedEvent),
    ProposalExecuted(ProposalExecutedEvent),
    ProposalCancelled(ProposalCancelledEvent),
    RewardAdded(RewardAddedEvent),
    RewardClaimed(RewardClaimedEvent),
}

/// What a [`LegacyPayload`] stands for.
pub enum LegacyPayloadView {
    Value(ValueView),
    Tuple(Seq<ValueView>),
    TradeExecuted(TradeExecutedEvent),
    ContractPaused(ContractPausedEvent),
    ContractUnpaused(ContractUnpausedEvent),
    FeeCollected(FeeCollectedEvent),
    ProposalCreated(ProposalCreatedEvent),
    ProposalApproved(ProposalApprovedEvent),
    ProposalRejected(ProposalRejectedEvent),
    ProposalExecuted(ProposalExecutedEvent),
    ProposalCancelled(ProposalCancelledEvent),
    RewardAdded(RewardAddedEvent),
    RewardClaimed(RewardClaimedEvent),
}

impl View for LegacyPayload {
    type V = LegacyPayloadView;

    open spec fn view(&self) -> LegacyPayloadView {
        match *self {
            LegacyPayload::Value(v) => LegacyPayloadView::Value(v@),
            LegacyPayload::Tuple(vs) => LegacyPayloadView::Tuple(views(vs@)),
            LegacyPayload::TradeExecuted(e) => LegacyPayloadView::TradeExecuted(e),
            LegacyPayload::ContractPaused(e) => LegacyPayloadView::ContractPaused(e),
            LegacyPayload::ContractUnpaused(e) => LegacyPayloadView::ContractUnpaused(e),
            LegacyPayload::FeeCollected(e) => LegacyPayloadView::FeeCollected(e),
            LegacyPayload::ProposalCreated(e) => LegacyPayloadView::ProposalCreated(e),
            LegacyPayload::ProposalApproved(e) => LegacyPayloadView::ProposalApproved(e),
            LegacyPayload::ProposalRejected(e) => LegacyPayloadView::ProposalRejected(e),
            LegacyPayload::ProposalExecuted(e) => LegacyPayloadView::ProposalExecuted(e),
            LegacyPayload::ProposalCancelled(e) => LegacyPayloadView::ProposalCancelled(e),
            LegacyPayload::RewardAdded(e) => LegacyPayloadView::RewardAdded(e),
            LegacyPayload::RewardClaimed(e) => LegacyPayloadView::RewardClaimed(e),
        }
    }
}

impl Clone for LegacyPayload {
    /// A second payload with the same contents.
    fn clone(&self) -> (copy: Self)
        ensures
            copy@ == self@,
    {
        match self {
            LegacyPayload::Value(v) => LegacyPayload::Value(v.clone()),
            LegacyPayload::Tuple(vs) => LegacyPayload::Tuple(clone_values(vs)),
            LegacyPayload::TradeExecuted(e) => LegacyPayload::TradeExecuted(e.clone()),
            LegacyPayload::ContractPaused(e) => LegacyPayload::ContractPaused(e.clone()),
            LegacyPayload::ContractUnpaused(e) => LegacyPayload::ContractUnpaused(e.clone()),
            LegacyPayload::FeeCollected(e) => LegacyPayload::FeeCollected(e.clone()),
            LegacyPayload::ProposalCreated(e) => LegacyPayload::ProposalCreated(e.clone()),
            LegacyPayload::ProposalApproved(e) => LegacyPayload::ProposalApproved(e.clone()),
            LegacyPayload::ProposalRejected(e) => LegacyPayload::ProposalRejected(e.clone()),
            LegacyPayload::ProposalExecuted(e) => LegacyPayload::ProposalExecuted(e.clone()),
            LegacyPayload::ProposalCancelled(e) => LegacyPayload::ProposalCancelled(e.clone()),
            LegacyPayload::RewardAdded(e) => LegacyPayload::RewardAdded(e.clone()),
            LegacyPayload::RewardClaimed(e) => LegacyPayload::RewardClaimed(e.clone()),
        }
    }
}

/// An event in the older positional format: a channel made of the topic
/// and the key identities, and a payload.
#[derive(Debug, PartialEq, Eq)]
pub struct LegacyEvent {
    /// The topic that opens the channel.
    pub topic: EventType,
    /// The identities that follow the topic in the channel.
    pub keys: Vec<Address>,
    /// What is published on the channel.
    pub payload: LegacyPayload,
}

/// What a [`LegacyEvent`] stands for.
pub struct LegacyEventView {
    pub topic: EventType,
    pub keys: Seq<Address>,
    pub payload: LegacyPayloadView,
}

impl View for LegacyEvent {
    type V = LegacyEventView;

    open spec fn view(&self) -> LegacyEventView {
        LegacyEventView { topic: self.topic, keys: self.keys@, payload: self.payload@ }
    }
}

impl Clone for LegacyEvent {
    /// A second record with the same channel and payload.
    fn clone(&self) -> (copy: Self)
        ensures
            copy@ == self@,
    {
        let mut keys: Vec<Address> = Vec::new();
        let mut i: usize = 0;
        while i < self.keys.len()
            invariant
                i <= self.keys@.len(),
                keys@ == self.keys@.subrange(0, i as int),
            decreases self.keys@.len() - i,
        {
            keys.push(self.keys[i].clone());
            assert(keys@ =~= self.keys@.subrange(0, i + 1));
            i = i + 1;
        }
        assert(keys@ =~= self.keys@);
        LegacyEvent { topic: self.topic, keys, payload: self.payload.clone() }
    }
}

/// One record handed to the transport.
#[derive(Debug, PartialEq, Eq)]
pub enum Published {
    /// Published under the root topic and the event's kind.
    Standard(StandardEvent),
    /// Published under the kind's historical channel.
    Legacy(LegacyEvent),
}

/// What a [`Published`] record stands for.
pub enum PublishedView {
    Standard(StandardEventView),
    Legacy(LegacyEventView),
}

impl View for Published {
    type V = PublishedView;

    open spec fn view(&self) -> PublishedView {
        match *self {
            Published::Standard(e) => PublishedView::Standard(e@),
            Published::Legacy(e) => PublishedView::Legacy(e@),
        }
    }
}

impl Clone for Published {
    /// A second record with the same contents.
    fn clone(&self) -> (copy: Self)
        ensures
            copy@ == self@,
    {
        match self {
            Published::Standard(e) => Published::Standard(e.clone()),
            Published::Legacy(e) => Published::Legacy(e.clone()),
        }
    }
}

} // verus!
