//! What holds of the library as a whole, proved from the contracts of its
//! functions.

use vstd::prelude::*;
use soroban_sdk::Address;
use crate::context::ContextView;
use crate::envelope::{LegacyEventView, LegacyPayloadView, PublishedView, StandardEventView};
use crate::layout::{emitted, envelope, Occurrence};
use crate::metadata::{spec_decode, spec_encode, MetadataView};
use crate::schema::{spec_migration_path, CURRENT_VERSION};
use crate::topics::{EventType, MetadataKey};
use crate::value::ValueView;

verus! {

/// The value as the standardized event carries it: free text is interned
/// there, every other value is carried as it is.
pub open spec fn interned(value: ValueView) -> ValueView {
    match value {
        ValueView::Text(text) => ValueView::Symbol(text),
        other => other,
    }
}

/// Whether the standardized event carries `value`: as its actor, as its
/// timestamp, at some position of its data, or under some metadata key.
pub open spec fn carries(standard: StandardEventView, value: ValueView) -> bool {
    ||| value == ValueView::U64(standard.timestamp)
    ||| (value matches ValueView::Address(a) && standard.user_address == Some(a))
    ||| standard.data.contains(interned(value))
    ||| exists|key: MetadataKey| #[trigger]
        standard.metadata.dom().contains(key) && standard.metadata[key].contains(interned(value))
}

/// The values that a legacy payload holds, in order. The trade identifier
/// of a trade record is left out: it is the caller's, not the event's.
pub open spec fn payload_values(payload: LegacyPayloadView) -> Seq<ValueView> {
    match payload {
        LegacyPayloadView::Value(v) => seq![v],
        LegacyPayloadView::Tuple(vs) => vs,
        LegacyPayloadView::TradeExecuted(e) => seq![
            ValueView::Address(e.trader),
            ValueView::Symbol(e.pair@),
            ValueView::I128(e.amount),
            ValueView::I128(e.price),
            ValueView::Bool(e.is_buy),
            ValueView::I128(e.fee_amount),
            ValueView::Address(e.fee_token),
            ValueView::U64(e.timestamp),
        ],
        LegacyPayloadView::ContractPaused(e) => seq![
            ValueView::Address(e.paused_by),
            ValueView::U64(e.timestamp),
        ],
        LegacyPayloadView::ContractUnpaused(e) => seq![
            ValueView::Address(e.unpaused_by),
            ValueView::U64(e.timestamp),
        ],
        LegacyPayloadView::FeeCollected(e) => seq![
            ValueView::Address(e.payer),
            ValueView::Address(e.recipient),
            ValueView::I128(e.amount),
            ValueView::Address(e.token),
            ValueView::U64(e.timestamp),
        ],
        LegacyPayloadView::ProposalCreated(e) => seq![
            ValueView::U64(e.proposal_id),
            ValueView::Address(e.proposer),
            ValueView::Symbol(e.new_contract_hash@),
            ValueView::Address(e.target_contract),
            ValueView::Symbol(e.description@),
            ValueView::U32(e.approval_threshold),
            ValueView::U64(e.timelock_delay),
            ValueView::U64(e.timestamp),
        ],
        LegacyPayloadView::ProposalApproved(e) => seq![
            ValueView::U64(e.proposal_id),
            ValueView::Address(e.approver),
            ValueView::U32(e.current_approvals),
            ValueView::U32(e.threshold),
            ValueView::U64(e.timestamp),
        ],
        LegacyPayloadView::ProposalRejected(e) => seq![
            ValueView::U64(e.proposal_id),
            ValueView::Address(e.rejector),
            ValueView::U64(e.timestamp),
        ],
        LegacyPayloadView::ProposalExecuted(e) => seq![
            ValueView::U64(e.proposal_id),
            ValueView::Address(e.executor),
            ValueView::Symbol(e.new_contract_hash@),
            ValueView::U64(e.timestamp),
        ],
        LegacyPayloadView::ProposalCancelled(e) => seq![
            ValueView::U64(e.proposal_id),
            ValueView::Address(e.cancelled_by),
            ValueView::U64(e.timestamp),
        ],
        LegacyPayloadView::RewardAdded(e) => seq![
            ValueView::U64(e.reward_id),
            ValueView::Address(e.user),
            ValueView::I128(e.amount),
            ValueView::Symbol(e.reward_type@),
            ValueView::Symbol(e.reason@),
            ValueView::Address(e.granted_by),
            ValueView::U64(e.timestamp),
        ],
        LegacyPayloadView::RewardClaimed(e) => seq![
            ValueView::U64(e.reward_id),
            ValueView::Address(e.user),
            ValueView::I128(e.amount),
            ValueView::U64(e.timestamp),
        ],
    }
}

/// Whether the legacy record describes the occurrence that the standardized
/// event describes: the same kind, and no identity or value that the
/// standardized event does not carry.
pub open spec fn same_occurrence(standard: StandardEventView, legacy: LegacyEventView) -> bool {
    &&& legacy.topic == standard.event_type
    &&& forall|i: int|
        0 <= i < legacy.keys.len() ==> carries(standard, ValueView::Address(#[trigger] legacy.keys[i]))
    &&& forall|i: int|
        0 <= i < payload_values(legacy.payload).len() ==> carries(
            standard,
            #[trigger] payload_values(legacy.payload)[i],
        )
}

/// Every helper publishes exactly two records after what was there: the
/// standardized event and, directly after it, one legacy record of the same
/// kind that describes the same occurrence.
pub proof fn lemma_dual_channel(ctx: ContextView, occurrence: Occurrence)
    requires
        occurrence.representable(),
    ensures
        ({
            let after = emitted(ctx, occurrence);
            let n = ctx.published.len() as int;
            &&& after.published.len() == n + 2
            &&& after.published.subrange(0, n) == ctx.published
            &&& after.published[n] == PublishedView::Standard(occurrence.standard(ctx))
            &&& after.published[n + 1] == PublishedView::Legacy(occurrence.legacy(ctx))
            &&& same_occurrence(occurrence.standard(ctx), occurrence.legacy(ctx))
        }),
{
    let after = emitted(ctx, occurrence);
    let standard = occurrence.standard(ctx);
    let legacy = occurrence.legacy(ctx);
    assert(after.published.subrange(0, ctx.published.len() as int) =~= ctx.published);
    assert forall|i: int| 0 <= i < legacy.keys.len() implies carries(
        standard,
        ValueView::Address(#[trigger] legacy.keys[i]),
    ) by {
        lemma_key_is_carried(ctx, occurrence, i);
    }
    assert forall|i: int| 0 <= i < payload_values(legacy.payload).len() implies carries(
        standard,
        #[trigger] payload_values(legacy.payload)[i],
    ) by {
        lemma_payload_value_is_carried(ctx, occurrence, i);
    }
}

/// Where the standardized event files `value` under `key`, it carries it.
proof fn lemma_filed_is_carried(standard: StandardEventView, key: MetadataKey, value: ValueView)
    requires
        standard.metadata.dom().contains(key),
        standard.metadata[key] == seq![interned(value)],
    ensures
        carries(standard, value),
{
    assert(standard.metadata[key][0] == interned(value));
}

/// Each key identity of the legacy record is carried by the standardized
/// event.
proof fn lemma_key_is_carried(ctx: ContextView, occurrence: Occurrence, i: int)
    requires
        0 <= i < occurrence.legacy_keys().len(),
    ensures
        carries(occurrence.standard(ctx), ValueView::Address(occurrence.legacy_keys()[i])),
{
    let standard = occurrence.standard(ctx);
    match occurrence {
        Occurrence::Transfer { to, .. } => {
            if i == 1 {
                lemma_filed_is_carried(standard, MetadataKey::To, ValueView::Address(to));
            }
        },
        Occurrence::Approve { spender, .. } => {
            if i == 1 {
                lemma_filed_is_carried(standard, MetadataKey::To, ValueView::Address(spender));
            }
        },
        _ => {},
    }
}

/// Each value of the legacy payload is carried by the standardized event.
proof fn lemma_payload_value_is_carried(ctx: ContextView, occurrence: Occurrence, i: int)
    requires
        0 <= i < payload_values(occurrence.legacy_payload(ctx.time)).len(),
    ensures
        carries(occurrence.standard(ctx), payload_values(occurrence.legacy_payload(ctx.time))[i]),
{
    let standard = occurrence.standard(ctx);
    let value = payload_values(occurrence.legacy_payload(ctx.time))[i];
    let data = occurrence.data();
    match occurrence {
        Occurrence::Transfer { .. }
        | Occurrence::Approve { .. }
        | Occurrence::Mint { .. }
        | Occurrence::Burn { .. } => {
            assert(data[0] == interned(value));
        },
        Occurrence::Stake { .. } => {
            if i < 2 {
                assert(data[i] == interned(value));
            }
        },
        Occurrence::Unstake { .. } => {
            if i < 3 {
                assert(data[i] == interned(value));
            }
        },
        Occurrence::RewardsClaimed { .. } => {
            if i < 2 {
                assert(data[i] == interned(value));
            }
        },
        Occurrence::Vote { .. } => {
            if i < 3 {
                assert(data[i] == interned(value));
            }
        },
        Occurrence::AdminChanged { .. } => {
            assert(data[1] == interned(value));
        },
        Occurrence::AuthorizationChanged { .. } => {
            assert(data[0] == interned(value));
        },
        Occurrence::PoolUpdated { .. } => {
            if i < 2 {
                assert(data[i] == interned(value));
            }
        },
        Occurrence::TradeExecuted { .. } => {
            if 1 <= i < 7 {
                assert(data[i - 1] == interned(value));
            }
        },
        Occurrence::FeeCollected { recipient, .. } => {
            if i == 1 {
                lemma_filed_is_carried(standard, MetadataKey::To, ValueView::Address(recipient));
            } else if i == 2 {
                assert(data[0] == interned(value));
            } else if i == 3 {
                assert(data[1] == interned(value));
            }
        },
        Occurrence::ProposalCreated { .. } => {
            if i < 3 {
                assert(data[i] == interned(value));
            }
        },
        Occurrence::ProposalExecuted { .. } => {
            if i < 2 {
                assert(data[i] == interned(value));
            }
        },
    }
}

/// Encoding a field and decoding it by the same key yields the values that
/// were encoded; every other key decodes as before.
pub proof fn lemma_metadata_round_trip(
    metadata: MetadataView,
    key: MetadataKey,
    values: Seq<ValueView>,
    other: MetadataKey,
)
    ensures
        spec_decode(spec_encode(metadata, key, values), key) == Some(values),
        other != key ==> spec_decode(spec_encode(metadata, key, values), other) == spec_decode(
            metadata,
            other,
        ),
{
}

/// For every helper, decoding its metadata by a documented key yields the
/// field that was encoded, unchanged and alone; every other key is absent.
pub proof fn lemma_helper_metadata_round_trip(occurrence: Occurrence, key: MetadataKey)
    ensures
        spec_decode(occurrence.metadata(), key) == (match occurrence.documented_field(key) {
            Some(value) => Some(seq![value]),
            None => None,
        }),
{
}

/// Two helper calls in one unit of work publish their pairs in call order:
/// the first call's standardized event and legacy record, then the second
/// call's, after everything published before.
pub proof fn lemma_emission_order(ctx: ContextView, first: Occurrence, second: Occurrence)
    requires
        first.representable(),
        second.representable(),
    ensures
        emitted(emitted(ctx, first), second).published == ctx.published + seq![
            PublishedView::Standard(first.standard(ctx)),
            PublishedView::Legacy(first.legacy(ctx)),
            PublishedView::Standard(second.standard(ctx)),
            PublishedView::Legacy(second.legacy(ctx)),
        ],
        emitted(emitted(ctx, first), second).identity == ctx.identity,
        emitted(emitted(ctx, first), second).time == ctx.time,
{
    let after_first = emitted(ctx, first);
    assert(second.standard(after_first) == second.standard(ctx));
    assert(second.legacy(after_first) == second.legacy(ctx));
    assert(emitted(after_first, second).published =~= ctx.published + seq![
        PublishedView::Standard(first.standard(ctx)),
        PublishedView::Legacy(first.legacy(ctx)),
        PublishedView::Standard(second.standard(ctx)),
        PublishedView::Legacy(second.legacy(ctx)),
    ]);
}

/// A transfer followed by an approval publishes the transfer's pair
/// strictly before the approval's pair.
pub proof fn lemma_transfer_before_approve(
    ctx: ContextView,
    from: Address,
    to: Address,
    transferred: i128,
    owner: Address,
    spender: Address,
    approved: i128,
    token: Address,
)
    ensures
        ({
            let transfer = Occurrence::Transfer { from, to, amount: transferred, token };
            let approve = Occurrence::Approve { owner, spender, amount: approved, token };
            let after = emitted(emitted(ctx, transfer), approve);
            let n = ctx.published.len() as int;
            &&& after.published.len() == n + 4
            &&& after.published.subrange(0, n) == ctx.published
            &&& after.published[n] == PublishedView::Standard(transfer.standard(ctx))
            &&& after.published[n + 1] == PublishedView::Legacy(transfer.legacy(ctx))
            &&& after.published[n + 2] == PublishedView::Standard(approve.standard(ctx))
            &&& after.published[n + 3] == PublishedView::Legacy(approve.legacy(ctx))
        }),
{
    let transfer = Occurrence::Transfer { from, to, amount: transferred, token };
    let approve = Occurrence::Approve { owner, spender, amount: approved, token };
    lemma_emission_order(ctx, transfer, approve);
    let after = emitted(emitted(ctx, transfer), approve);
    assert(after.published.subrange(0, ctx.published.len() as int) =~= ctx.published);
}

/// Granting and then revoking the authorization of one user, with the
/// clock set to `now` in between, publishes two standardized events whose
/// timestamps do not decrease, with the same actor, and which differ in
/// nothing but the authorized flag and the timestamp.
pub proof fn lemma_authorization_toggle(ctx: ContextView, user: Address, now: u64)
    ensures
        ({
            let granted = Occurrence::AuthorizationChanged { user, authorized: true };
            let revoked = Occurrence::AuthorizationChanged { user, authorized: false };
            let between = emitted(ctx, granted).advance(now);
            let after = emitted(between, revoked);
            let n = ctx.published.len() as int;
            let first = after.published[n]->Standard_0;
            let second = after.published[n + 2]->Standard_0;
            &&& after.published.len() == n + 4
            &&& after.published[n] is Standard
            &&& after.published[n + 2] is Standard
            &&& first.timestamp <= second.timestamp
            &&& first.user_address == Some(user)
            &&& second.user_address == Some(user)
            &&& first.data == seq![ValueView::Bool(true)]
            &&& second.data == seq![ValueView::Bool(false)]
            &&& second == (StandardEventView { data: second.data, timestamp: second.timestamp, ..first })
        }),
{
    let granted = Occurrence::AuthorizationChanged { user, authorized: true };
    let revoked = Occurrence::AuthorizationChanged { user, authorized: false };
    let between = emitted(ctx, granted).advance(now);
    let after = emitted(between, revoked);
    let n = ctx.published.len() as int;
    assert(after.published[n] == PublishedView::Standard(granted.standard(ctx)));
    assert(after.published[n + 2] == PublishedView::Standard(revoked.standard(between)));
}

/// Whatever is handed to the envelope builder, the envelope carries the
/// identity and the clock value of the context and the schema version in
/// effect: none of the three is the caller's choice.
pub proof fn lemma_envelope_is_stamped(
    ctx: ContextView,
    event_type: EventType,
    user_address: Option<Address>,
    data: Seq<ValueView>,
    metadata: MetadataView,
)
    ensures
        envelope(ctx, event_type, user_address, data, metadata).contract_address == ctx.identity,
        envelope(ctx, event_type, user_address, data, metadata).timestamp == ctx.time,
        envelope(ctx, event_type, user_address, data, metadata).version == CURRENT_VERSION,
{
}

/// Whether the standardized events on the channel are in the order of the
/// clock: none is stamped later than the clock stands, and none is stamped
/// earlier than one published before it.
pub open spec fn chronological(ctx: ContextView) -> bool {
    &&& forall|i: int|
        0 <= i < ctx.published.len() && #[trigger] ctx.published[i] is Standard
            ==> ctx.published[i]->Standard_0.timestamp <= ctx.time
    &&& forall|i: int, j: int|
        0 <= i <= j < ctx.published.len() && #[trigger] ctx.published[i] is Standard
            && #[trigger] ctx.published[j] is Standard
            ==> ctx.published[i]->Standard_0.timestamp <= ctx.published[j]->Standard_0.timestamp
}

/// A new context is in the order of the clock, and every step keeps it so:
/// setting the clock, building and publishing an envelope, publishing a
/// legacy record, and reporting an occurrence.
pub proof fn lemma_clock_order(
    ctx: ContextView,
    now: u64,
    event_type: EventType,
    user_address: Option<Address>,
    data: Seq<ValueView>,
    metadata: MetadataView,
    legacy: LegacyEventView,
    occurrence: Occurrence,
)
    ensures
        chronological(ContextView { published: Seq::empty(), ..ctx }),
        chronological(ctx) ==> chronological(ctx.advance(now)),
        chronological(ctx) ==> chronological(
            ctx.publish(PublishedView::Standard(envelope(ctx, event_type, user_address, data, metadata))),
        ),
        chronological(ctx) ==> chronological(ctx.publish(PublishedView::Legacy(legacy))),
        chronological(ctx) ==> chronological(emitted(ctx, occurrence)),
{
}

/// Minting without a reason leaves no reason entry at all, in the data or
/// in the metadata; minting with a reason that can be interned puts the
/// interned reason last in the data and under the reason key.
pub proof fn lemma_mint_reason(to: Address, amount: i128, token: Address, reason: Option<Seq<char>>)
    ensures
        ({
            let mint = Occurrence::Mint { to, amount, token, reason };
            match reason {
                None => {
                    &&& mint.data() == seq![ValueView::I128(amount), ValueView::Address(token)]
                    &&& spec_decode(mint.metadata(), MetadataKey::Reason) is None
                },
                Some(text) => {
                    &&& mint.data() == seq![
                        ValueView::I128(amount),
                        ValueView::Address(token),
                        ValueView::Symbol(text),
                    ]
                    &&& spec_decode(mint.metadata(), MetadataKey::Reason) == Some(
                        seq![ValueView::Symbol(text)],
                    )
                },
            }
        }),
{
}

/// A migration path exists exactly from a version to a later one, and then
/// it has at least one step.
pub proof fn lemma_migration_path_defined(from: u32, to: u32)
    ensures
        spec_migration_path(from, to) is None <==> from >= to,
        spec_migration_path(from, to) matches Some(steps) ==> steps.len() > 0,
{
}

} // verus!
