//! The field layout of every event kind: which values an occurrence puts
//! into the standardized envelope and into the legacy record, and in which
//! order. Consumers decode by position, so this table is the contract.

use vstd::prelude::*;
use soroban_sdk::Address;
use crate::context::ContextView;
use crate::envelope::{LegacyEventView, LegacyPayloadView, PublishedView, StandardEventView};
use crate::metadata::{spec_encode, MetadataView};
use crate::records::{FeeCollectedEvent, TradeExecutedEvent};
use crate::schema::CURRENT_VERSION;
use crate::symbol::{is_symbol_text, SymbolText};
use crate::topics::{EventType, MetadataKey};
use crate::value::ValueView;

verus! {

/// A business occurrence that is reported by a pair of events.
pub enum Occurrence {
    Transfer { from: Address, to: Address, amount: i128, token: Address },
    Approve { owner: Address, spender: Address, amount: i128, token: Address },
    Mint { to: Address, amount: i128, token: Address, reason: Option<Seq<char>> },
    Burn { from: Address, amount: i128, token: Address },
    Stake { user: Address, amount: i128, lock_period: u64, token: Address },
    Unstake { user: Address, amount: i128, rewards: i128, fee: i128, token: Address },
    RewardsClaimed { user: Address, base_rewards: i128, bonus_rewards: i128, token: Address },
    Vote { voter: Address, proposal_id: u64, vote_type: SymbolText, voting_power: u128 },
    AdminChanged { old_admin: Address, new_admin: Address },
    AuthorizationChanged { user: Address, authorized: bool },
    PoolUpdated { admin: Address, reward_rate: i128, bonus_multiplier: u32 },
    TradeExecuted {
        trader: Address,
        pair: SymbolText,
        amount: i128,
        price: i128,
        is_buy: bool,
        fee_amount: i128,
        fee_token: Address,
    },
    FeeCollected { payer: Address, recipient: Address, amount: i128, token: Address },
    ProposalCreated { proposer: Address, proposal_id: u64, title: Seq<char>, proposal_type: SymbolText },
    ProposalExecuted { executor: Address, proposal_id: u64, success: bool },
}

/// The metadata entry of one field: a single-element list under its key.
pub open spec fn field(metadata: MetadataView, key: MetadataKey, value: ValueView) -> MetadataView {
    spec_encode(metadata, key, seq![value])
}

impl Occurrence {
    /// The kind of event that reports the occurrence.
    pub open spec fn kind(self) -> EventType {
        match self {
            Occurrence::Transfer { .. } => EventType::Transfer,
            Occurrence::Approve { .. } => EventType::Approve,
            Occurrence::Mint { .. } => EventType::Mint,
            Occurrence::Burn { .. } => EventType::Burn,
            Occurrence::Stake { .. } => EventType::Stake,
            Occurrence::Unstake { .. } => EventType::Unstake,
            Occurrence::RewardsClaimed { .. } => EventType::RewardsClaimed,
            Occurrence::Vote { .. } => EventType::Vote,
            Occurrence::AdminChanged { .. } => EventType::AdminChanged,
            Occurrence::AuthorizationChanged { .. } => EventType::AuthorizationChanged,
            Occurrence::PoolUpdated { .. } => EventType::PoolUpdated,
            Occurrence::TradeExecuted { .. } => EventType::TradeExecuted,
            Occurrence::FeeCollected { .. } => EventType::FeeCollected,
            Occurrence::ProposalCreated { .. } => EventType::ProposalCreated,
            Occurrence::ProposalExecuted { .. } => EventType::ProposalExecuted,
        }
    }

    /// The user who triggered the occurrence.
    pub open spec fn actor(self) -> Address {
        match self {
            Occurrence::Transfer { from, .. } => from,
            Occurrence::Approve { owner, .. } => owner,
            Occurrence::Mint { to, .. } => to,
            Occurrence::Burn { from, .. } => from,
            Occurrence::Stake { user, .. } => user,
            Occurrence::Unstake { user, .. } => user,
            Occurrence::RewardsClaimed { user, .. } => user,
            Occurrence::Vote { voter, .. } => voter,
            Occurrence::AdminChanged { old_admin, .. } => old_admin,
            Occurrence::AuthorizationChanged { user, .. } => user,
            Occurrence::PoolUpdated { admin, .. } => admin,
            Occurrence::TradeExecuted { trader, .. } => trader,
            Occurrence::FeeCollected { payer, .. } => payer,
            Occurrence::ProposalCreated { proposer, .. } => proposer,
            Occurrence::ProposalExecuted { executor, .. } => executor,
        }
    }

    /// Whether every field can be represented: free text must be
    /// internable, and a sum must fit its type.
    pub open spec fn representable(self) -> bool {
        match self {
            Occurrence::Mint { reason, .. } => reason matches Some(text) ==> is_symbol_text(text),
            Occurrence::RewardsClaimed { base_rewards, bonus_rewards, .. } => {
                i128::MIN <= base_rewards + bonus_rewards <= i128::MAX
            },
            Occurrence::ProposalCreated { title, .. } => is_symbol_text(title),
            _ => true,
        }
    }

    /// The positional payload of the standardized event.
    pub open spec fn data(self) -> Seq<ValueView> {
        match self {
            Occurrence::Transfer { amount, token, .. } => seq![
                ValueView::I128(amount),
                ValueView::Address(token),
            ],
            Occurrence::Approve { amount, token, .. } => seq![
                ValueView::I128(amount),
                ValueView::Address(token),
            ],
            Occurrence::Mint { amount, token, reason, .. } => match reason {
                Some(text) => seq![
                    ValueView::I128(amount),
                    ValueView::Address(token),
                    ValueView::Symbol(text),
                ],
                None => seq![ValueView::I128(amount), ValueView::Address(token)],
            },
            Occurrence::Burn { amount, token, .. } => seq![
                ValueView::I128(amount),
                ValueView::Address(token),
            ],
            Occurrence::Stake { amount, lock_period, token, .. } => seq![
                ValueView::I128(amount),
                ValueView::U64(lock_period),
                ValueView::Address(token),
            ],
            Occurrence::Unstake { amount, rewards, fee, token, .. } => seq![
                ValueView::I128(amount),
                ValueView::I128(rewards),
                ValueView::I128(fee),
                ValueView::Address(token),
            ],
            Occurrence::RewardsClaimed { base_rewards, bonus_rewards, token, .. } => seq![
                ValueView::I128(base_rewards),
                ValueView::I128(bonus_rewards),
                ValueView::Address(token),
            ],
            Occurrence::Vote { proposal_id, vote_type, voting_power, .. } => seq![
                ValueView::U64(proposal_id),
                ValueView::Symbol(vote_type@),
                ValueView::U128(voting_power),
            ],
            Occurrence::AdminChanged { old_admin, new_admin } => seq![
                ValueView::Address(old_admin),
                ValueView::Address(new_admin),
            ],
            Occurrence::AuthorizationChanged { authorized, .. } => seq![ValueView::Bool(authorized)],
            Occurrence::PoolUpdated { reward_rate, bonus_multiplier, .. } => seq![
                ValueView::I128(reward_rate),
                ValueView::U32(bonus_multiplier),
            ],
            Occurrence::TradeExecuted { pair, amount, price, is_buy, fee_amount, fee_token, .. } => seq![
                ValueView::Symbol(pair@),
                ValueView::I128(amount),
                ValueView::I128(price),
                ValueView::Bool(is_buy),
                ValueView::I128(fee_amount),
                ValueView::Address(fee_token),
            ],
            Occurrence::FeeCollected { amount, token, .. } => seq![
                ValueView::I128(amount),
                ValueView::Address(token),
            ],
            Occurrence::ProposalCreated { proposal_id, title, proposal_type, .. } => seq![
                ValueView::U64(proposal_id),
                ValueView::Symbol(title),
                ValueView::Symbol(proposal_type@),
            ],
            Occurrence::ProposalExecuted { proposal_id, success, .. } => seq![
                ValueView::U64(proposal_id),
                ValueView::Bool(success),
            ],
        }
    }

    /// The fields that the standardized event repeats under metadata keys.
    pub open spec fn metadata(self) -> MetadataView {
        let none = Map::<MetadataKey, Seq<ValueView>>::empty();
        match self {
            Occurrence::Transfer { from, to, amount, token } => {
                let m = field(none, MetadataKey::From, ValueView::Address(from));
                let m = field(m, MetadataKey::To, ValueView::Address(to));
                let m = field(m, MetadataKey::Amount, ValueView::I128(amount));
                field(m, MetadataKey::Token, ValueView::Address(token))
            },
            Occurrence::Approve { owner, spender, amount, token } => {
                let m = field(none, MetadataKey::From, ValueView::Address(owner));
                let m = field(m, MetadataKey::To, ValueView::Address(spender));
                let m = field(m, MetadataKey::Amount, ValueView::I128(amount));
                field(m, MetadataKey::Token, ValueView::Address(token))
            },
            Occurrence::Mint { to, amount, token, reason } => {
                let m = field(none, MetadataKey::To, ValueView::Address(to));
                let m = field(m, MetadataKey::Amount, ValueView::I128(amount));
                let m = field(m, MetadataKey::Token, ValueView::Address(token));
                match reason {
                    Some(text) => field(m, MetadataKey::Reason, ValueView::Symbol(text)),
                    None => m,
                }
            },
            Occurrence::Burn { from, amount, token } => {
                let m = field(none, MetadataKey::From, ValueView::Address(from));
                let m = field(m, MetadataKey::Amount, ValueView::I128(amount));
                field(m, MetadataKey::Token, ValueView::Address(token))
            },
            Occurrence::Stake { amount, lock_period, token, .. } => {
                let m = field(none, MetadataKey::Amount, ValueView::I128(amount));
                let m = field(m, MetadataKey::LockPeriod, ValueView::U64(lock_period));
                field(m, MetadataKey::Token, ValueView::Address(token))
            },
            Occurrence::Unstake { amount, fee, token, .. } => {
                let m = field(none, MetadataKey::Amount, ValueView::I128(amount));
                let m = field(m, MetadataKey::Fee, ValueView::I128(fee));
                field(m, MetadataKey::Token, ValueView::Address(token))
            },
            Occurrence::RewardsClaimed { base_rewards, bonus_rewards, token, .. } => {
                let m = field(
                    none,
                    MetadataKey::Amount,
                    ValueView::I128((base_rewards + bonus_rewards) as i128),
                );
                field(m, MetadataKey::Token, ValueView::Address(token))
            },
            Occurrence::Vote { proposal_id, vote_type, .. } => {
                let m = field(none, MetadataKey::ProposalId, ValueView::U64(proposal_id));
                field(m, MetadataKey::VoteType, ValueView::Symbol(vote_type@))
            },
            Occurrence::AdminChanged { old_admin, new_admin } => {
                let m = field(none, MetadataKey::From, ValueView::Address(old_admin));
                field(m, MetadataKey::To, ValueView::Address(new_admin))
            },
            Occurrence::AuthorizationChanged { user, .. } => {
                field(none, MetadataKey::To, ValueView::Address(user))
            },
            Occurrence::PoolUpdated { reward_rate, .. } => {
                field(none, MetadataKey::RewardRate, ValueView::I128(reward_rate))
            },
            Occurrence::TradeExecuted { pair, amount, price, fee_amount, fee_token, .. } => {
                let m = field(none, MetadataKey::Pair, ValueView::Symbol(pair@));
                let m = field(m, MetadataKey::Amount, ValueView::I128(amount));
                let m = field(m, MetadataKey::Price, ValueView::I128(price));
                let m = field(m, MetadataKey::Fee, ValueView::I128(fee_amount));
                field(m, MetadataKey::Token, ValueView::Address(fee_token))
            },
            Occurrence::FeeCollected { payer, recipient, amount, token } => {
                let m = field(none, MetadataKey::From, ValueView::Address(payer));
                let m = field(m, MetadataKey::To, ValueView::Address(recipient));
                let m = field(m, MetadataKey::Amount, ValueView::I128(amount));
                field(m, MetadataKey::Token, ValueView::Address(token))
            },
            Occurrence::ProposalCreated { proposal_id, .. } => {
                field(none, MetadataKey::ProposalId, ValueView::U64(proposal_id))
            },
            Occurrence::ProposalExecuted { proposal_id, .. } => {
                field(none, MetadataKey::ProposalId, ValueView::U64(proposal_id))
            },
        }
    }

    /// The field that the standardized event files under `key`, if it files
    /// any there.
    pub open spec fn documented_field(self, key: MetadataKey) -> Option<ValueView> {
        match (self, key) {
            (Occurrence::Transfer { from, .. }, MetadataKey::From) => Some(ValueView::Address(from)),
            (Occurrence::Transfer { to, .. }, MetadataKey::To) => Some(ValueView::Address(to)),
            (Occurrence::Transfer { amount, .. }, MetadataKey::Amount) => Some(ValueView::I128(amount)),
            (Occurrence::Transfer { token, .. }, MetadataKey::Token) => Some(ValueView::Address(token)),
            (Occurrence::Approve { owner, .. }, MetadataKey::From) => Some(ValueView::Address(owner)),
            (Occurrence::Approve { spender, .. }, MetadataKey::To) => Some(ValueView::Address(spender)),
            (Occurrence::Approve { amount, .. }, MetadataKey::Amount) => Some(ValueView::I128(amount)),
            (Occurrence::Approve { token, .. }, MetadataKey::Token) => Some(ValueView::Address(token)),
            (Occurrence::Mint { to, .. }, MetadataKey::To) => Some(ValueView::Address(to)),
            (Occurrence::Mint { amount, .. }, MetadataKey::Amount) => Some(ValueView::I128(amount)),
            (Occurrence::Mint { token, .. }, MetadataKey::Token) => Some(ValueView::Address(token)),
            (Occurrence::Mint { reason: Some(text), .. }, MetadataKey::Reason) => Some(
                ValueView::Symbol(text),
            ),
            (Occurrence::Burn { from, .. }, MetadataKey::From) => Some(ValueView::Address(from)),
            (Occurrence::Burn { amount, .. }, MetadataKey::Amount) => Some(ValueView::I128(amount)),
            (Occurrence::Burn { token, .. }, MetadataKey::Token) => Some(ValueView::Address(token)),
            (Occurrence::Stake { amount, .. }, MetadataKey::Amount) => Some(ValueView::I128(amount)),
            (Occurrence::Stake { lock_period, .. }, MetadataKey::LockPeriod) => Some(
                ValueView::U64(lock_period),
            ),
            (Occurrence::Stake { token, .. }, MetadataKey::Token) => Some(ValueView::Address(token)),
            (Occurrence::Unstake { amount, .. }, MetadataKey::Amount) => Some(ValueView::I128(amount)),
            (Occurrence::Unstake { fee, .. }, MetadataKey::Fee) => Some(ValueView::I128(fee)),
            (Occurrence::Unstake { token, .. }, MetadataKey::Token) => Some(ValueView::Address(token)),
            (Occurrence::RewardsClaimed { base_rewards, bonus_rewards, .. }, MetadataKey::Amount) => Some(
                ValueView::I128((base_rewards + bonus_rewards) as i128),
            ),
            (Occurrence::RewardsClaimed { token, .. }, MetadataKey::Token) => Some(
                ValueView::Address(token),
            ),
            (Occurrence::Vote { proposal_id, .. }, MetadataKey::ProposalId) => Some(
                ValueView::U64(proposal_id),
            ),
            (Occurrence::Vote { vote_type, .. }, MetadataKey::VoteType) => Some(
                ValueView::Symbol(vote_type@),
            ),
            (Occurrence::AdminChanged { old_admin, .. }, MetadataKey::From) => Some(
                ValueView::Address(old_admin),
            ),
            (Occurrence::AdminChanged { new_admin, .. }, MetadataKey::To) => Some(
                ValueView::Address(new_admin),
            ),
            (Occurrence::AuthorizationChanged { user, .. }, MetadataKey::To) => Some(
                ValueView::Address(user),
            ),
            (Occurrence::PoolUpdated { reward_rate, .. }, MetadataKey::RewardRate) => Some(
                ValueView::I128(reward_rate),
            ),
            (Occurrence::TradeExecuted { pair, .. }, MetadataKey::Pair) => Some(ValueView::Symbol(pair@)),
            (Occurrence::TradeExecuted { amount, .. }, MetadataKey::Amount) => Some(
                ValueView::I128(amount),
            ),
            (Occurrence::TradeExecuted { price, .. }, MetadataKey::Price) => Some(ValueView::I128(price)),
            (Occurrence::TradeExecuted { fee_amount, .. }, MetadataKey::Fee) => Some(
                ValueView::I128(fee_amount),
            ),
            (Occurrence::TradeExecuted { fee_token, .. }, MetadataKey::Token) => Some(
                ValueView::Address(fee_token),
            ),
            (Occurrence::FeeCollected { payer, .. }, MetadataKey::From) => Some(ValueView::Address(payer)),
            (Occurrence::FeeCollected { recipient, .. }, MetadataKey::To) => Some(
                ValueView::Address(recipient),
            ),
            (Occurrence::FeeCollected { amount, .. }, MetadataKey::Amount) => Some(
                ValueView::I128(amount),
            ),
            (Occurrence::FeeCollected { token, .. }, MetadataKey::Token) => Some(
                ValueView::Address(token),
            ),
            (Occurrence::ProposalCreated { proposal_id, .. }, MetadataKey::ProposalId) => Some(
                ValueView::U64(proposal_id),
            ),
            (Occurrence::ProposalExecuted { proposal_id, .. }, MetadataKey::ProposalId) => Some(
                ValueView::U64(proposal_id),
            ),
            _ => None,
        }
    }

    /// The identities that follow the topic in the legacy channel.
    pub open spec fn legacy_keys(self) -> Seq<Address> {
        match self {
            Occurrence::Transfer { from, to, .. } => seq![from, to],
            Occurrence::Approve { owner, spender, .. } => seq![owner, spender],
            Occurrence::TradeExecuted { .. } => Seq::empty(),
            Occurrence::FeeCollected { .. } => Seq::empty(),
            _ => seq![self.actor()],
        }
    }

    /// The payload of the legacy record, published at clock value `time`.
    pub open spec fn legacy_payload(self, time: u64) -> LegacyPayloadView {
        match self {
            Occurrence::Transfer { amount, .. } => LegacyPayloadView::Value(ValueView::I128(amount)),
            Occurrence::Approve { amount, .. } => LegacyPayloadView::Value(ValueView::I128(amount)),
            Occurrence::Mint { amount, .. } => LegacyPayloadView::Value(ValueView::I128(amount)),
            Occurrence::Burn { amount, .. } => LegacyPayloadView::Value(ValueView::I128(amount)),
            Occurrence::Stake { amount, lock_period, .. } => LegacyPayloadView::Tuple(
                seq![ValueView::I128(amount), ValueView::U64(lock_period), ValueView::U64(time)],
            ),
            Occurrence::Unstake { amount, rewards, fee, .. } => LegacyPayloadView::Tuple(
                seq![
                    ValueView::I128(amount),
                    ValueView::I128(rewards),
                    ValueView::I128(fee),
                    ValueView::U64(time),
                ],
            ),
            Occurrence::RewardsClaimed { base_rewards, bonus_rewards, .. } => LegacyPayloadView::Tuple(
                seq![
                    ValueView::I128(base_rewards),
                    ValueView::I128(bonus_rewards),
                    ValueView::U64(time),
                ],
            ),
            Occurrence::Vote { proposal_id, vote_type, voting_power, .. } => LegacyPayloadView::Tuple(
                seq![
                    ValueView::U64(proposal_id),
                    ValueView::Symbol(vote_type@),
                    ValueView::U128(voting_power),
                    ValueView::U64(time),
                ],
            ),
            Occurrence::AdminChanged { new_admin, .. } => LegacyPayloadView::Value(
                ValueView::Address(new_admin),
            ),
            Occurrence::AuthorizationChanged { authorized, .. } => LegacyPayloadView::Value(
                ValueView::Bool(authorized),
            ),
            Occurrence::PoolUpdated { reward_rate, bonus_multiplier, .. } => LegacyPayloadView::Tuple(
                seq![
                    ValueView::I128(reward_rate),
                    ValueView::U32(bonus_multiplier),
                    ValueView::U64(time),
                ],
            ),
            Occurrence::TradeExecuted { trader, pair, amount, price, is_buy, fee_amount, fee_token } => {
                LegacyPayloadView::TradeExecuted(
                    TradeExecutedEvent {
                        trade_id: 0,
                        trader,
                        pair,
                        amount,
                        price,
                        is_buy,
                        fee_amount,
                        fee_token,
                        timestamp: time,
                    },
                )
            },
            Occurrence::FeeCollected { payer, recipient, amount, token } => {
                LegacyPayloadView::FeeCollected(
                    FeeCollectedEvent { payer, recipient, amount, token, timestamp: time },
                )
            },
            Occurrence::ProposalCreated { proposal_id, title, proposal_type, .. } => {
                LegacyPayloadView::Tuple(
                    seq![
                        ValueView::U64(proposal_id),
                        ValueView::Text(title),
                        ValueView::Symbol(proposal_type@),
                        ValueView::U64(time),
                    ],
                )
            },
            Occurrence::ProposalExecuted { proposal_id, success, .. } => LegacyPayloadView::Tuple(
                seq![ValueView::U64(proposal_id), ValueView::Bool(success), ValueView::U64(time)],
            ),
        }
    }

    /// The standardized event that reports the occurrence in `ctx`.
    pub open spec fn standard(self, ctx: ContextView) -> StandardEventView {
        envelope(ctx, self.kind(), Some(self.actor()), self.data(), self.metadata())
    }

    /// The legacy record that reports the occurrence in `ctx`.
    pub open spec fn legacy(self, ctx: ContextView) -> LegacyEventView {
        LegacyEventView {
            topic: self.kind(),
            keys: self.legacy_keys(),
            payload: self.legacy_payload(ctx.time),
        }
    }
}

/// The envelope that the builder assembles in `ctx`: emitter and timestamp
/// come from the context, the version is the one in effect.
pub open spec fn envelope(
    ctx: ContextView,
    event_type: EventType,
    user_address: Option<Address>,
    data: Seq<ValueView>,
    metadata: MetadataView,
) -> StandardEventView {
    StandardEventView {
        event_type,
        contract_address: ctx.identity,
        user_address,
        data,
        metadata,
        timestamp: ctx.time,
        version: CURRENT_VERSION,
    }
}

/// The context after the pair of events was published: the standardized
/// event, then the legacy record.
pub open spec fn dual_published(
    ctx: ContextView,
    standard: StandardEventView,
    legacy: LegacyEventView,
) -> ContextView {
    ctx.publish(PublishedView::Standard(standard)).publish(PublishedView::Legacy(legacy))
}

/// The context after `occurrence` was reported. Where a field cannot be
/// represented nothing is published.
pub open spec fn emitted(ctx: ContextView, occurrence: Occurrence) -> ContextView {
    if occurrence.representable() {
        dual_published(ctx, occurrence.standard(ctx), occurrence.legacy(ctx))
    } else {
        ctx
    }
}

} // verus!
