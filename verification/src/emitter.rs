//! The emission helpers: one per event kind. Each reports an occurrence on
//! both channels, the standardized event first and the legacy record
//! directly after it.

use vstd::prelude::*;
use soroban_sdk::Address;
use crate::context::ExecutionContext;
use crate::envelope::{
    LegacyEvent, LegacyEventView, LegacyPayload, LegacyPayloadView, Published, PublishedView,
    StandardEvent,
};
use crate::error::EventError;
use crate::layout::{emitted, envelope, Occurrence};
use crate::metadata::Metadata;
use crate::records::{
    ContractPausedEvent, ContractUnpausedEvent, FeeCollectedEvent, ProposalApprovedEvent,
    ProposalCancelledEvent, ProposalCreatedEvent, ProposalExecutedEvent, ProposalRejectedEvent,
    RewardAddedEvent, RewardClaimedEvent, TradeExecutedEvent,
};
use crate::symbol::{is_symbol_text, SymbolText};
use crate::topics::{EventType, MetadataKey};
use crate::value::{views, Value};

verus! {

/// The text of an optional free-text field.
pub open spec fn optional_text(text: Option<String>) -> Option<Seq<char>> {
    match text {
        Some(t) => Some(t@),
        None => None,
    }
}

/// The legacy record of a kind that is published as a whole record: the
/// channel is the topic alone.
pub open spec fn record_event(topic: EventType, payload: LegacyPayloadView) -> PublishedView {
    PublishedView::Legacy(LegacyEventView { topic, keys: Seq::empty(), payload })
}

/// The emission helpers.
pub struct EventEmitter;

impl EventEmitter {
    /// Builds the standardized envelope and publishes it: exactly one
    /// record, with the emitter and the timestamp taken from the context and
    /// the version in effect.
    pub fn emit_standard(
        ctx: &mut ExecutionContext,
        event_type: EventType,
        user_address: Option<Address>,
        data: Vec<Value>,
        metadata: Metadata,
    )
        ensures
            final(ctx)@ == old(ctx)@.publish(
                PublishedView::Standard(
                    envelope(old(ctx)@, event_type, user_address, views(data@), metadata@),
                ),
            ),
    {
        let emitter = ctx.current_identity().clone();
        let timestamp = ctx.current_time();
        let event = StandardEvent::stamp(event_type, emitter, user_address, data, metadata, timestamp);
        ctx.publish(Published::Standard(event));
    }

    /// Builds and publishes the standardized envelope of the kind that
    /// `identifier` names. An identifier outside the registry is refused as
    /// an unknown topic, and then nothing is published.
    pub fn emit_standard_named(
        ctx: &mut ExecutionContext,
        identifier: &str,
        user_address: Option<Address>,
        data: Vec<Value>,
        metadata: Metadata,
    ) -> (outcome: Result<(), EventError>)
        ensures
            final(ctx)@ == (match EventType::spec_resolve(identifier@) {
                Some(kind) => old(ctx)@.publish(
                    PublishedView::Standard(
                        envelope(old(ctx)@, kind, user_address, views(data@), metadata@),
                    ),
                ),
                None => old(ctx)@,
            }),
            outcome is Ok <==> EventType::spec_resolve(identifier@) is Some,
            outcome is Err ==> outcome->Err_0 == EventError::UnknownTopic,
    {
        match EventType::from_identifier(identifier) {
            Ok(kind) => {
                Self::emit_standard(ctx, kind, user_address, data, metadata);
                Ok(())
            },
            Err(e) => Err(e),
        }
    }

    /// Publishes the legacy record of an occurrence.
    fn publish_legacy(ctx: &mut ExecutionContext, topic: EventType, keys: Vec<Address>, payload: LegacyPayload)
        ensures
            final(ctx)@ == old(ctx)@.publish(
                PublishedView::Legacy((LegacyEventView { topic, keys: keys@, payload: payload@ })),
            ),
    {
        ctx.publish(Published::Legacy(LegacyEvent { topic, keys, payload }));
    }

    /// Publishes a whole record on the legacy channel of its kind.
    fn publish_record(ctx: &mut ExecutionContext, topic: EventType, payload: LegacyPayload)
        ensures
            final(ctx)@ == old(ctx)@.publish(record_event(topic, payload@)),
    {
        let keys: Vec<Address> = Vec::new();
        assert(keys@ =~= Seq::<Address>::empty());
        Self::publish_legacy(ctx, topic, keys, payload);
    }

    /// Reports a transfer of `amount` of `token` from `from` to `to`.
    pub fn transfer(ctx: &mut ExecutionContext, from: Address, to: Address, amount: i128, token: Address)
        ensures
            final(ctx)@ == emitted(old(ctx)@, (Occurrence::Transfer { from, to, amount, token })),
    {
        let mut data: Vec<Value> = Vec::new();
        data.push(Value::I128(amount));
        data.push(Value::Address(token.clone()));

        let mut metadata = Metadata::new();
        metadata.encode(MetadataKey::From, Value::Address(from.clone()));
        metadata.encode(MetadataKey::To, Value::Address(to.clone()));
        metadata.encode(MetadataKey::Amount, Value::I128(amount));
        metadata.encode(MetadataKey::Token, Value::Address(token));

        let mut keys: Vec<Address> = Vec::new();
        keys.push(from.clone());
        keys.push(to);

        proof {
            let occurrence = Occurrence::Transfer { from, to, amount, token };
            assert(views(data@) =~= occurrence.data());
            assert(keys@ =~= occurrence.legacy_keys());
        }
        Self::emit_standard(ctx, EventType::Transfer, Some(from), data, metadata);
        Self::publish_legacy(ctx, EventType::Transfer, keys, LegacyPayload::Value(Value::I128(amount)));
    }

    /// Reports that `owner` approved `spender` for `amount` of `token`.
    pub fn approve(ctx: &mut ExecutionContext, owner: Address, spender: Address, amount: i128, token: Address)
        ensures
            final(ctx)@ == emitted(old(ctx)@, (Occurrence::Approve { owner, spender, amount, token })),
    {
        let mut data: Vec<Value> = Vec::new();
        data.push(Value::I128(amount));
        data.push(Value::Address(token.clone()));

        let mut metadata = Metadata::new();
        metadata.encode(MetadataKey::From, Value::Address(owner.clone()));
        metadata.encode(MetadataKey::To, Value::Address(spender.clone()));
        metadata.encode(MetadataKey::Amount, Value::I128(amount));
        metadata.encode(MetadataKey::Token, Value::Address(token));

        let mut keys: Vec<Address> = Vec::new();
        keys.push(owner.clone());
        keys.push(spender);

        proof {
            let occurrence = Occurrence::Approve { owner, spender, amount, token };
            assert(views(data@) =~= occurrence.data());
            assert(keys@ =~= occurrence.legacy_keys());
        }
        Self::emit_standard(ctx, EventType::Approve, Some(owner), data, metadata);
        Self::publish_legacy(ctx, EventType::Approve, keys, LegacyPayload::Value(Value::I128(amount)));
    }

    /// Reports that `amount` of `token` was minted to `to`, with the reason
    /// if one is given. A reason that cannot be interned is refused, and
    /// then nothing is published; an absent reason leaves no trace in the
    /// events.
    pub fn mint(
        ctx: &mut ExecutionContext,
        to: Address,
        amount: i128,
        token: Address,
        reason: Option<String>,
    ) -> (outcome: Result<(), EventError>)
        ensures
            final(ctx)@ == emitted(
                old(ctx)@,
                (Occurrence::Mint { to, amount, token, reason: optional_text(reason) }),
            ),
            outcome is Ok <==> (Occurrence::Mint {
                to,
                amount,
                token,
                reason: optional_text(reason),
            }).representable(),
            outcome is Err ==> outcome->Err_0 == EventError::EncodingError,
    {
        let ghost occurrence = Occurrence::Mint { to, amount, token, reason: optional_text(reason) };
        let mut data: Vec<Value> = Vec::new();
        data.push(Value::I128(amount));
        data.push(Value::Address(token.clone()));

        let mut metadata = Metadata::new();
        metadata.encode(MetadataKey::To, Value::Address(to.clone()));
        metadata.encode(MetadataKey::Amount, Value::I128(amount));
        metadata.encode(MetadataKey::Token, Value::Address(token));

        match reason {
            Some(text) => {
                match SymbolText::new(text.as_str()) {
                    Ok(interned) => {
                        data.push(Value::Symbol(interned.clone()));
                        metadata.encode(MetadataKey::Reason, Value::Symbol(interned));
                    },
                    Err(e) => {
                        return Err(e);
                    },
                }
            },
            None => {},
        }

        let mut keys: Vec<Address> = Vec::new();
        keys.push(to.clone());

        proof {
            assert(views(data@) =~= occurrence.data());
            assert(keys@ =~= occurrence.legacy_keys());
        }
        Self::emit_standard(ctx, EventType::Mint, Some(to), data, metadata);
        Self::publish_legacy(ctx, EventType::Mint, keys, LegacyPayload::Value(Value::I128(amount)));
        Ok(())
    }

    /// Reports that `amount` of `token` was burned from `from`.
    pub fn burn(ctx: &mut ExecutionContext, from: Address, amount: i128, token: Address)
        ensures
            final(ctx)@ == emitted(old(ctx)@, (Occurrence::Burn { from, amount, token })),
    {
        let mut data: Vec<Value> = Vec::new();
        data.push(Value::I128(amount));
        data.push(Value::Address(token.clone()));

        let mut metadata = Metadata::new();
        metadata.encode(MetadataKey::From, Value::Address(from.clone()));
        metadata.encode(MetadataKey::Amount, Value::I128(amount));
        metadata.encode(MetadataKey::Token, Value::Address(token));

        let mut keys: Vec<Address> = Vec::new();
        keys.push(from.clone());

        proof {
            let occurrence = Occurrence::Burn { from, amount, token };
            assert(views(data@) =~= occurrence.data());
            assert(keys@ =~= occurrence.legacy_keys());
        }
        Self::emit_standard(ctx, EventType::Burn, Some(from), data, metadata);
        Self::publish_legacy(ctx, EventType::Burn, keys, LegacyPayload::Value(Value::I128(amount)));
    }

    /// Reports that `user` staked `amount` of `token` for `lock_period`.
    pub fn stake(ctx: &mut ExecutionContext, user: Address, amount: i128, lock_period: u64, token: Address)
        ensures
            final(ctx)@ == emitted(old(ctx)@, (Occurrence::Stake { user, amount, lock_period, token })),
    {
        let mut data: Vec<Value> = Vec::new();
        data.push(Value::I128(amount));
        data.push(Value::U64(lock_period));
        data.push(Value::Address(token.clone()));

        let mut metadata = Metadata::new();
        metadata.encode(MetadataKey::Amount, Value::I128(amount));
        metadata.encode(MetadataKey::LockPeriod, Value::U64(lock_period));
        metadata.encode(MetadataKey::Token, Value::Address(token));

        let mut keys: Vec<Address> = Vec::new();
        keys.push(user.clone());

        let mut payload: Vec<Value> = Vec::new();
        payload.push(Value::I128(amount));
        payload.push(Value::U64(lock_period));
        payload.push(Value::U64(ctx.current_time()));

        proof {
            let occurrence = Occurrence::Stake { user, amount, lock_period, token };
            assert(views(data@) =~= occurrence.data());
            assert(keys@ =~= occurrence.legacy_keys());
            assert(views(payload@) =~= occurrence.legacy_payload(old(ctx)@.time)->Tuple_0);
        }
        Self::emit_standard(ctx, EventType::Stake, Some(user), data, metadata);
        Self::publish_legacy(ctx, EventType::Stake, keys, LegacyPayload::Tuple(payload));
    }

    /// Reports that `user` unstaked `amount` of `token`, with the rewards
    /// paid out and the fee withheld.
    pub fn unstake(
        ctx: &mut ExecutionContext,
        user: Address,
        amount: i128,
        rewards: i128,
        fee: i128,
        token: Address,
    )
        ensures
            final(ctx)@ == emitted(old(ctx)@, (Occurrence::Unstake { user, amount, rewards, fee, token })),
    {
        let mut data: Vec<Value> = Vec::new();
        data.push(Value::I128(amount));
        data.push(Value::I128(rewards));
        data.push(Value::I128(fee));
        data.push(Value::Address(token.clone()));

        let mut metadata = Metadata::new();
        metadata.encode(MetadataKey::Amount, Value::I128(amount));
        metadata.encode(MetadataKey::Fee, Value::I128(fee));
        metadata.encode(MetadataKey::Token, Value::Address(token));

        let mut keys: Vec<Address> = Vec::new();
        keys.push(user.clone());

        let mut payload: Vec<Value> = Vec::new();
        payload.push(Value::I128(amount));
        payload.push(Value::I128(rewards));
        payload.push(Value::I128(fee));
        payload.push(Value::U64(ctx.current_time()));

        proof {
            let occurrence = Occurrence::Unstake { user, amount, rewards, fee, token };
            assert(views(data@) =~= occurrence.data());
            assert(keys@ =~= occurrence.legacy_keys());
            assert(views(payload@) =~= occurrence.legacy_payload(old(ctx)@.time)->Tuple_0);
        }
        Self::emit_standard(ctx, EventType::Unstake, Some(user), data, metadata);
        Self::publish_legacy(ctx, EventType::Unstake, keys, LegacyPayload::Tuple(payload));
    }

    /// Reports that `user` claimed base and bonus rewards in `token`. The
    /// metadata carries their sum; where the sum does not fit the amount
    /// type the call is refused and nothing is published.
    pub fn rewards_claimed(
        ctx: &mut ExecutionContext,
        user: Address,
        base_rewards: i128,
        bonus_rewards: i128,
        token: Address,
    ) -> (outcome: Result<(), EventError>)
        ensures
            final(ctx)@ == emitted(
                old(ctx)@,
                (Occurrence::RewardsClaimed { user, base_rewards, bonus_rewards, token }),
            ),
            outcome is Ok <==> i128::MIN <= base_rewards + bonus_rewards <= i128::MAX,
            outcome is Err ==> outcome->Err_0 == EventError::EncodingError,
    {
        let total: i128 = match base_rewards.checked_add(bonus_rewards) {
            Some(sum) => sum,
            None => {
                return Err(EventError::EncodingError);
            },
        };

        let mut data: Vec<Value> = Vec::new();
        data.push(Value::I128(base_rewards));
        data.push(Value::I128(bonus_rewards));
        data.push(Value::Address(token.clone()));

        let mut metadata = Metadata::new();
        metadata.encode(MetadataKey::Amount, Value::I128(total));
        metadata.encode(MetadataKey::Token, Value::Address(token));

        let mut keys: Vec<Address> = Vec::new();
        keys.push(user.clone());

        let mut payload: Vec<Value> = Vec::new();
        payload.push(Value::I128(base_rewards));
        payload.push(Value::I128(bonus_rewards));
        payload.push(Value::U64(ctx.current_time()));

        proof {
            let occurrence = Occurrence::RewardsClaimed { user, base_rewards, bonus_rewards, token };
            assert(views(data@) =~= occurrence.data());
            assert(keys@ =~= occurrence.legacy_keys());
            assert(views(payload@) =~= occurrence.legacy_payload(old(ctx)@.time)->Tuple_0);
        }
        Self::emit_standard(ctx, EventType::RewardsClaimed, Some(user), data, metadata);
        Self::publish_legacy(ctx, EventType::RewardsClaimed, keys, LegacyPayload::Tuple(payload));
        Ok(())
    }

    /// Reports that `voter` cast a vote of `vote_type` on a proposal with
    /// the given voting power.
    pub fn vote(
        ctx: &mut ExecutionContext,
        voter: Address,
        proposal_id: u64,
        vote_type: SymbolText,
        voting_power: u128,
    )
        ensures
            final(ctx)@ == emitted(
                old(ctx)@,
                (Occurrence::Vote { voter, proposal_id, vote_type, voting_power }),
            ),
    {
        let mut data: Vec<Value> = Vec::new();
        data.push(Value::U64(proposal_id));
        data.push(Value::Symbol(vote_type.clone()));
        data.push(Value::U128(voting_power));

        let mut metadata = Metadata::new();
        metadata.encode(MetadataKey::ProposalId, Value::U64(proposal_id));
        metadata.encode(MetadataKey::VoteType, Value::Symbol(vote_type.clone()));

        let mut keys: Vec<Address> = Vec::new();
        keys.push(voter.clone());

        let mut payload: Vec<Value> = Vec::new();
        payload.push(Value::U64(proposal_id));
        payload.push(Value::Symbol(vote_type));
        payload.push(Value::U128(voting_power));
        payload.push(Value::U64(ctx.current_time()));

        proof {
            let occurrence = Occurrence::Vote { voter, proposal_id, vote_type, voting_power };
            assert(views(data@) =~= occurrence.data());
            assert(keys@ =~= occurrence.legacy_keys());
            assert(views(payload@) =~= occurrence.legacy_payload(old(ctx)@.time)->Tuple_0);
        }
        Self::emit_standard(ctx, EventType::Vote, Some(voter), data, metadata);
        Self::publish_legacy(ctx, EventType::Vote, keys, LegacyPayload::Tuple(payload));
    }

    /// Reports that the administrator changed from `old_admin` to
    /// `new_admin`.
    pub fn admin_changed(ctx: &mut ExecutionContext, old_admin: Address, new_admin: Address)
        ensures
            final(ctx)@ == emitted(old(ctx)@, (Occurrence::AdminChanged { old_admin, new_admin })),
    {
        let mut data: Vec<Value> = Vec::new();
        data.push(Value::Address(old_admin.clone()));
        data.push(Value::Address(new_admin.clone()));

        let mut metadata = Metadata::new();
        metadata.encode(MetadataKey::From, Value::Address(old_admin.clone()));
        metadata.encode(MetadataKey::To, Value::Address(new_admin.clone()));

        let mut keys: Vec<Address> = Vec::new();
        keys.push(old_admin.clone());

        proof {
            let occurrence = Occurrence::AdminChanged { old_admin, new_admin };
            assert(views(data@) =~= occurrence.data());
            assert(keys@ =~= occurrence.legacy_keys());
        }
        Self::emit_standard(ctx, EventType::AdminChanged, Some(old_admin), data, metadata);
        Self::publish_legacy(
            ctx,
            EventType::AdminChanged,
            keys,
            LegacyPayload::Value(Value::Address(new_admin)),
        );
    }

    /// Reports that the authorization of `user` was granted or revoked.
    pub fn authorization_changed(ctx: &mut ExecutionContext, user: Address, authorized: bool)
        ensures
            final(ctx)@ == emitted(old(ctx)@, (Occurrence::AuthorizationChanged { user, authorized })),
    {
        let mut data: Vec<Value> = Vec::new();
        data.push(Value::Bool(authorized));

        let mut metadata = Metadata::new();
        metadata.encode(MetadataKey::To, Value::Address(user.clone()));

        let mut keys: Vec<Address> = Vec::new();
        keys.push(user.clone());

        proof {
            let occurrence = Occurrence::AuthorizationChanged { user, authorized };
            assert(views(data@) =~= occurrence.data());
            assert(keys@ =~= occurrence.legacy_keys());
        }
        Self::emit_standard(ctx, EventType::AuthorizationChanged, Some(user), data, metadata);
        Self::publish_legacy(
            ctx,
            EventType::AuthorizationChanged,
            keys,
            LegacyPayload::Value(Value::Bool(authorized)),
        );
    }

    /// Reports that `admin` set the reward rate and bonus multiplier of the
    /// staking pool.
    pub fn pool_updated(ctx: &mut ExecutionContext, admin: Address, reward_rate: i128, bonus_multiplier: u32)
        ensures
            final(ctx)@ == emitted(
                old(ctx)@,
                (Occurrence::PoolUpdated { admin, reward_rate, bonus_multiplier }),
            ),
    {
        let mut data: Vec<Value> = Vec::new();
        data.push(Value::I128(reward_rate));
        data.push(Value::U32(bonus_multiplier));

        let mut metadata = Metadata::new();
        metadata.encode(MetadataKey::RewardRate, Value::I128(reward_rate));

        let mut keys: Vec<Address> = Vec::new();
        keys.push(admin.clone());

        let mut payload: Vec<Value> = Vec::new();
        payload.push(Value::I128(reward_rate));
        payload.push(Value::U32(bonus_multiplier));
        payload.push(Value::U64(ctx.current_time()));

        proof {
            let occurrence = Occurrence::PoolUpdated { admin, reward_rate, bonus_multiplier };
            assert(views(data@) =~= occurrence.data());
            assert(keys@ =~= occurrence.legacy_keys());
            assert(views(payload@) =~= occurrence.legacy_payload(old(ctx)@.time)->Tuple_0);
        }
        Self::emit_standard(ctx, EventType::PoolUpdated, Some(admin), data, metadata);
        Self::publish_legacy(ctx, EventType::PoolUpdated, keys, LegacyPayload::Tuple(payload));
    }

    /// Reports a trade by `trader`. The legacy record carries the trade
    /// identifier 0: at this point the caller has assigned none.
    pub fn trade_executed(
        ctx: &mut ExecutionContext,
        trader: Address,
        pair: SymbolText,
        amount: i128,
        price: i128,
        is_buy: bool,
        fee_amount: i128,
        fee_token: Address,
    )
        ensures
            final(ctx)@ == emitted(
                old(ctx)@,
                (Occurrence::TradeExecuted { trader, pair, amount, price, is_buy, fee_amount, fee_token }),
            ),
    {
        let mut data: Vec<Value> = Vec::new();
        data.push(Value::Symbol(pair.clone()));
        data.push(Value::I128(amount));
        data.push(Value::I128(price));
        data.push(Value::Bool(is_buy));
        data.push(Value::I128(fee_amount));
        data.push(Value::Address(fee_token.clone()));

        let mut metadata = Metadata::new();
        metadata.encode(MetadataKey::Pair, Value::Symbol(pair.clone()));
        metadata.encode(MetadataKey::Amount, Value::I128(amount));
        metadata.encode(MetadataKey::Price, Value::I128(price));
        metadata.encode(MetadataKey::Fee, Value::I128(fee_amount));
        metadata.encode(MetadataKey::Token, Value::Address(fee_token.clone()));

        let event = TradeExecutedEvent {
            trade_id: 0,
            trader: trader.clone(),
            pair,
            amount,
            price,
            is_buy,
            fee_amount,
            fee_token,
            timestamp: ctx.current_time(),
        };

        proof {
            let occurrence = Occurrence::TradeExecuted {
                trader,
                pair,
                amount,
                price,
                is_buy,
                fee_amount,
                fee_token,
            };
            assert(views(data@) =~= occurrence.data());
        }
        Self::emit_standard(ctx, EventType::TradeExecuted, Some(trader), data, metadata);
        Self::trade_executed_legacy(ctx, event);
    }

    /// Reports that `payer` paid a fee of `amount` of `token` to
    /// `recipient`.
    pub fn fee_collected(
        ctx: &mut ExecutionContext,
        payer: Address,
        recipient: Address,
        amount: i128,
        token: Address,
    )
        ensures
            final(ctx)@ == emitted(
                old(ctx)@,
                (Occurrence::FeeCollected { payer, recipient, amount, token }),
            ),
    {
        let mut data: Vec<Value> = Vec::new();
        data.push(Value::I128(amount));
        data.push(Value::Address(token.clone()));

        let mut metadata = Metadata::new();
        metadata.encode(MetadataKey::From, Value::Address(payer.clone()));
        metadata.encode(MetadataKey::To, Value::Address(recipient.clone()));
        metadata.encode(MetadataKey::Amount, Value::I128(amount));
        metadata.encode(MetadataKey::Token, Value::Address(token.clone()));

        let event = FeeCollectedEvent {
            payer: payer.clone(),
            recipient,
            amount,
            token,
            timestamp: ctx.current_time(),
        };

        proof {
            let occurrence = Occurrence::FeeCollected { payer, recipient, amount, token };
            assert(views(data@) =~= occurrence.data());
        }
        Self::emit_standard(ctx, EventType::FeeCollected, Some(payer), data, metadata);
        Self::fee_collected_legacy(ctx, event);
    }

    /// Reports that `proposer` created a proposal. The title is interned
    /// for the standardized event and kept as text in the legacy record; a
    /// title that cannot be interned is refused, and then nothing is
    /// published.
    pub fn proposal_created(
        ctx: &mut ExecutionContext,
        proposer: Address,
        proposal_id: u64,
        title: String,
        proposal_type: SymbolText,
    ) -> (outcome: Result<(), EventError>)
        ensures
            final(ctx)@ == emitted(
                old(ctx)@,
                (Occurrence::ProposalCreated { proposer, proposal_id, title: title@, proposal_type }),
            ),
            outcome is Ok <==> is_symbol_text(title@),
            outcome is Err ==> outcome->Err_0 == EventError::EncodingError,
    {
        let interned = match SymbolText::new(title.as_str()) {
            Ok(symbol) => symbol,
            Err(e) => {
                return Err(e);
            },
        };

        let mut data: Vec<Value> = Vec::new();
        data.push(Value::U64(proposal_id));
        data.push(Value::Symbol(interned));
        data.push(Value::Symbol(proposal_type.clone()));

        let mut metadata = Metadata::new();
        metadata.encode(MetadataKey::ProposalId, Value::U64(proposal_id));

        let mut keys: Vec<Address> = Vec::new();
        keys.push(proposer.clone());

        let mut payload: Vec<Value> = Vec::new();
        payload.push(Value::U64(proposal_id));
        payload.push(Value::Text(title));
        payload.push(Value::Symbol(proposal_type));
        payload.push(Value::U64(ctx.current_time()));

        proof {
            let occurrence = Occurrence::ProposalCreated {
                proposer,
                proposal_id,
                title: title@,
                proposal_type,
            };
            assert(views(data@) =~= occurrence.data());
            assert(keys@ =~= occurrence.legacy_keys());
            assert(views(payload@) =~= occurrence.legacy_payload(old(ctx)@.time)->Tuple_0);
        }
        Self::emit_standard(ctx, EventType::ProposalCreated, Some(proposer), data, metadata);
        Self::publish_legacy(ctx, EventType::ProposalCreated, keys, LegacyPayload::Tuple(payload));
        Ok(())
    }

    /// Reports that `executor` executed a proposal, and whether that
    /// succeeded.
    pub fn proposal_executed(ctx: &mut ExecutionContext, executor: Address, proposal_id: u64, success: bool)
        ensures
            final(ctx)@ == emitted(
                old(ctx)@,
                (Occurrence::ProposalExecuted { executor, proposal_id, success }),
            ),
    {
        let mut data: Vec<Value> = Vec::new();
        data.push(Value::U64(proposal_id));
        data.push(Value::Bool(success));

        let mut metadata = Metadata::new();
        metadata.encode(MetadataKey::ProposalId, Value::U64(proposal_id));

        let mut keys: Vec<Address> = Vec::new();
        keys.push(executor.clone());

        let mut payload: Vec<Value> = Vec::new();
        payload.push(Value::U64(proposal_id));
        payload.push(Value::Bool(success));
        payload.push(Value::U64(ctx.current_time()));

        proof {
            let occurrence = Occurrence::ProposalExecuted { executor, proposal_id, success };
            assert(views(data@) =~= occurrence.data());
            assert(keys@ =~= occurrence.legacy_keys());
            assert(views(payload@) =~= occurrence.legacy_payload(old(ctx)@.time)->Tuple_0);
        }
        Self::emit_standard(ctx, EventType::ProposalExecuted, Some(executor), data, metadata);
        Self::publish_legacy(ctx, EventType::ProposalExecuted, keys, LegacyPayload::Tuple(payload));
    }

    /// Publishes a trade record on the legacy channel.
    pub fn trade_executed_legacy(ctx: &mut ExecutionContext, event: TradeExecutedEvent)
        ensures
            final(ctx)@ == old(ctx)@.publish(
                record_event(EventType::TradeExecuted, LegacyPayloadView::TradeExecuted(event)),
            ),
    {
        Self::publish_record(ctx, EventType::TradeExecuted, LegacyPayload::TradeExecuted(event));
    }

    /// Publishes a pause record on the legacy channel.
    pub fn contract_paused(ctx: &mut ExecutionContext, event: ContractPausedEvent)
        ensures
            final(ctx)@ == old(ctx)@.publish(
                record_event(EventType::ContractPaused, LegacyPayloadView::ContractPaused(event)),
            ),
    {
        Self::publish_record(ctx, EventType::ContractPaused, LegacyPayload::ContractPaused(event));
    }

    /// Publishes an unpause record on the legacy channel.
    pub fn contract_unpaused(ctx: &mut ExecutionContext, event: ContractUnpausedEvent)
        ensures
            final(ctx)@ == old(ctx)@.publish(
                record_event(EventType::ContractUnpaused, LegacyPayloadView::ContractUnpaused(event)),
            ),
    {
        Self::publish_record(ctx, EventType::ContractUnpaused, LegacyPayload::ContractUnpaused(event));
    }

    /// Publishes a fee record on the legacy channel.
    pub fn fee_collected_legacy(ctx: &mut ExecutionContext, event: FeeCollectedEvent)
        ensures
            final(ctx)@ == old(ctx)@.publish(
                record_event(EventType::FeeCollected, LegacyPayloadView::FeeCollected(event)),
            ),
    {
        Self::publish_record(ctx, EventType::FeeCollected, LegacyPayload::FeeCollected(event));
    }

    /// Publishes a proposal-created record on the legacy channel.
    pub fn proposal_created_legacy(ctx: &mut ExecutionContext, event: ProposalCreatedEvent)
        ensures
            final(ctx)@ == old(ctx)@.publish(
                record_event(EventType::ProposalCreated, LegacyPayloadView::ProposalCreated(event)),
            ),
    {
        Self::publish_record(ctx, EventType::ProposalCreated, LegacyPayload::ProposalCreated(event));
    }

    /// Publishes a proposal-approved record on the legacy channel.
    pub fn proposal_approved(ctx: &mut ExecutionContext, event: ProposalApprovedEvent)
        ensures
            final(ctx)@ == old(ctx)@.publish(
                record_event(EventType::ProposalApproved, LegacyPayloadView::ProposalApproved(event)),
            ),
    {
        Self::publish_record(ctx, EventType::ProposalApproved, LegacyPayload::ProposalApproved(event));
    }

    /// Publishes a proposal-rejected record on the legacy channel.
    pub fn proposal_rejected(ctx: &mut ExecutionContext, event: ProposalRejectedEvent)
        ensures
            final(ctx)@ == old(ctx)@.publish(
                record_event(EventType::ProposalRejected, LegacyPayloadView::ProposalRejected(event)),
            ),
    {
        Self::publish_record(ctx, EventType::ProposalRejected, LegacyPayload::ProposalRejected(event));
    }

    /// Publishes a proposal-executed record on the legacy channel.
    pub fn proposal_executed_legacy(ctx: &mut ExecutionContext, event: ProposalExecutedEvent)
        ensures
            final(ctx)@ == old(ctx)@.publish(
                record_event(EventType::ProposalExecuted, LegacyPayloadView::ProposalExecuted(event)),
            ),
    {
        Self::publish_record(ctx, EventType::ProposalExecuted, LegacyPayload::ProposalExecuted(event));
    }

    /// Publishes a proposal-cancelled record on the legacy channel.
    pub fn proposal_cancelled(ctx: &mut ExecutionContext, event: ProposalCancelledEvent)
        ensures
            final(ctx)@ == old(ctx)@.publish(
                record_event(EventType::ProposalCancelled, LegacyPayloadView::ProposalCancelled(event)),
            ),
    {
        Self::publish_record(ctx, EventType::ProposalCancelled, LegacyPayload::ProposalCancelled(event));
    }

    /// Publishes a reward-granted record on the legacy channel.
    pub fn reward_added(ctx: &mut ExecutionContext, event: RewardAddedEvent)
        ensures
            final(ctx)@ == old(ctx)@.publish(
                record_event(EventType::RewardAdded, LegacyPayloadView::RewardAdded(event)),
            ),
    {
        Self::publish_record(ctx, EventType::RewardAdded, LegacyPayload::RewardAdded(event));
    }

    /// Publishes a reward-claimed record on the legacy channel.
    pub fn reward_claimed_legacy(ctx: &mut ExecutionContext, event: RewardClaimedEvent)
        ensures
            final(ctx)@ == old(ctx)@.publish(
                record_event(EventType::RewardClaimed, LegacyPayloadView::RewardClaimed(event)),
            ),
    {
        Self::publish_record(ctx, EventType::RewardClaimed, LegacyPayload::RewardClaimed(event));
    }
}

} // verus!
