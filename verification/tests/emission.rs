use soroban_sdk::{Address, Env};
use stellara_events::context::ExecutionContext;
use stellara_events::emitter::EventEmitter;
use stellara_events::envelope::{LegacyEvent, LegacyPayload, Published, StandardEvent};
use stellara_events::error::EventError;
use stellara_events::metadata::Metadata;
use stellara_events::records::{
    ContractPausedEvent, ContractUnpausedEvent, FeeCollectedEvent, ProposalApprovedEvent,
    ProposalCancelledEvent, ProposalCreatedEvent, ProposalExecutedEvent, ProposalRejectedEvent,
    RewardAddedEvent, RewardClaimedEvent, TradeExecutedEvent,
};
use stellara_events::schema::CURRENT_VERSION;
use stellara_events::symbol::SymbolText;
use stellara_events::topics::{EventType, MetadataKey};
use stellara_events::value::Value;

const CONTRACT: &str = "CAAQCAIBAEAQCAIBAEAQCAIBAEAQCAIBAEAQCAIBAEAQCAIBAEAQC526";
const TOKEN: &str = "CABAEAQCAIBAEAQCAIBAEAQCAIBAEAQCAIBAEAQCAIBAEAQCAIBAFNSZ";
const ALICE: &str = "GAAQCAIBAEAQCAIBAEAQCAIBAEAQCAIBAEAQCAIBAEAQCAIBAEAQDZ7H";
const BOB: &str = "GABAEAQCAIBAEAQCAIBAEAQCAIBAEAQCAIBAEAQCAIBAEAQCAIBAEJXA";
const CAROL: &str = "GABQGAYDAMBQGAYDAMBQGAYDAMBQGAYDAMBQGAYDAMBQGAYDAMBQHGPC";

const NOW: u64 = 1_700_000_000;

fn address(env: &Env, strkey: &str) -> Address {
    Address::from_str(env, strkey)
}

fn context(env: &Env) -> ExecutionContext {
    ExecutionContext::new(address(env, CONTRACT), NOW)
}

fn symbol(text: &str) -> SymbolText {
    SymbolText::new(text).unwrap()
}

fn all_keys() -> Vec<MetadataKey> {
    vec![
        MetadataKey::Amount,
        MetadataKey::From,
        MetadataKey::To,
        MetadataKey::Token,
        MetadataKey::Pair,
        MetadataKey::Price,
        MetadataKey::Fee,
        MetadataKey::Reason,
        MetadataKey::ProposalId,
        MetadataKey::VoteType,
        MetadataKey::LockPeriod,
        MetadataKey::RewardRate,
    ]
}

fn standard_at(ctx: &ExecutionContext, position: usize) -> &StandardEvent {
    match &ctx.published()[position] {
        Published::Standard(event) => event,
        Published::Legacy(_) => panic!("a legacy record stands where a standardized event was expected"),
    }
}

fn legacy_at(ctx: &ExecutionContext, position: usize) -> &LegacyEvent {
    match &ctx.published()[position] {
        Published::Legacy(event) => event,
        Published::Standard(_) => panic!("a standardized event stands where a legacy record was expected"),
    }
}

/// Checks the envelope at `position` field by field; `fields` lists every
/// metadata key that must be present, each with its single value.
fn assert_standard(
    env: &Env,
    ctx: &ExecutionContext,
    position: usize,
    kind: EventType,
    actor: &str,
    data: Vec<Value>,
    fields: Vec<(MetadataKey, Value)>,
) {
    let event = standard_at(ctx, position);
    assert_eq!(event.event_type(), kind);
    assert_eq!(event.contract_address(), &address(env, CONTRACT));
    assert_eq!(event.user_address(), Some(&address(env, actor)));
    assert_eq!(event.data(), &data);
    assert_eq!(event.timestamp(), ctx.current_time());
    assert_eq!(event.version(), CURRENT_VERSION);
    for key in all_keys() {
        let expected = fields.iter().find(|(k, _)| *k == key).map(|(_, v)| vec![v.clone()]);
        assert_eq!(event.metadata().decode(key), expected.as_ref());
    }
}

fn assert_legacy(env: &Env, ctx: &ExecutionContext, position: usize, kind: EventType, keys: Vec<&str>, payload: LegacyPayload) {
    let event = legacy_at(ctx, position);
    let expected_keys: Vec<Address> = keys.into_iter().map(|k| address(env, k)).collect();
    assert_eq!(event.topic, kind);
    assert_eq!(event.keys, expected_keys);
    assert_eq!(event.payload, payload);
}

#[test]
fn a_new_context_has_published_nothing() {
    let env = Env::default();
    let ctx = context(&env);
    assert!(ctx.published().is_empty());
    assert_eq!(ctx.current_time(), NOW);
    assert_eq!(ctx.current_identity(), &address(&env, CONTRACT));
}

#[test]
fn the_clock_only_moves_forward() {
    let env = Env::default();
    let mut ctx = context(&env);
    assert!(ctx.advance_time(NOW + 5));
    assert_eq!(ctx.current_time(), NOW + 5);
    assert!(ctx.advance_time(NOW + 5));
    assert_eq!(ctx.current_time(), NOW + 5);
    assert!(!ctx.advance_time(NOW + 4));
    assert_eq!(ctx.current_time(), NOW + 5);
    assert!(!ctx.advance_time(0));
    assert_eq!(ctx.current_time(), NOW + 5);
    assert!(ctx.advance_time(u64::MAX));
    assert_eq!(ctx.current_time(), u64::MAX);
}

#[test]
fn emit_standard_publishes_one_stamped_envelope() {
    let env = Env::default();
    let mut ctx = context(&env);
    let mut metadata = Metadata::new();
    metadata.encode(MetadataKey::Price, Value::I128(12));
    EventEmitter::emit_standard(
        &mut ctx,
        EventType::OracleUpdated,
        None,
        vec![Value::U32(1), Value::Bool(false)],
        metadata,
    );
    assert_eq!(ctx.published().len(), 1);
    let event = standard_at(&ctx, 0);
    assert_eq!(event.event_type(), EventType::OracleUpdated);
    assert_eq!(event.contract_address(), &address(&env, CONTRACT));
    assert_eq!(event.user_address(), None);
    assert_eq!(event.data(), &vec![Value::U32(1), Value::Bool(false)]);
    assert_eq!(event.metadata().decode(MetadataKey::Price), Some(&vec![Value::I128(12)]));
    assert_eq!(event.metadata().decode(MetadataKey::Amount), None);
    assert_eq!(event.timestamp(), NOW);
    assert_eq!(event.version(), 1);
}

#[test]
fn emit_standard_keeps_the_actor_it_is_given() {
    let env = Env::default();
    let mut ctx = context(&env);
    EventEmitter::emit_standard(
        &mut ctx,
        EventType::EmergencyMode,
        Some(address(&env, CAROL)),
        vec![],
        Metadata::new(),
    );
    let event = standard_at(&ctx, 0);
    assert_eq!(event.user_address(), Some(&address(&env, CAROL)));
    assert_eq!(event.data(), &vec![]);
}

#[test]
fn emit_standard_named_resolves_the_identifier() {
    let env = Env::default();
    let mut ctx = context(&env);
    let outcome = EventEmitter::emit_standard_named(
        &mut ctx,
        "oracle_updated",
        Some(address(&env, CAROL)),
        vec![Value::I128(3)],
        Metadata::new(),
    );
    assert_eq!(outcome, Ok(()));
    assert_eq!(ctx.published().len(), 1);
    let event = standard_at(&ctx, 0);
    assert_eq!(event.event_type(), EventType::OracleUpdated);
    assert_eq!(event.user_address(), Some(&address(&env, CAROL)));
    assert_eq!(event.data(), &vec![Value::I128(3)]);
    assert_eq!(event.timestamp(), NOW);
    assert_eq!(event.version(), CURRENT_VERSION);
}

#[test]
fn emit_standard_named_tells_the_two_approvals_apart() {
    let env = Env::default();
    let mut ctx = context(&env);
    let outcome = EventEmitter::emit_standard_named(&mut ctx, "approve", None, vec![], Metadata::new());
    assert_eq!(outcome, Ok(()));
    let outcome = EventEmitter::emit_standard_named(&mut ctx, "prop_approved", None, vec![], Metadata::new());
    assert_eq!(outcome, Ok(()));
    assert_eq!(ctx.published().len(), 2);
    assert_eq!(standard_at(&ctx, 0).event_type(), EventType::Approve);
    assert_eq!(standard_at(&ctx, 1).event_type(), EventType::ProposalApproved);
}

#[test]
fn emit_standard_named_refuses_an_unknown_topic() {
    let env = Env::default();
    for identifier in ["teleport", "", "TRANSFER", "stellara_event", "transfer\n"] {
        let mut ctx = context(&env);
        let outcome = EventEmitter::emit_standard_named(
            &mut ctx,
            identifier,
            Some(address(&env, CAROL)),
            vec![Value::I128(3)],
            Metadata::new(),
        );
        assert_eq!(outcome, Err(EventError::UnknownTopic));
        assert!(ctx.published().is_empty());
    }
}

#[test]
fn transfer_layout() {
    let env = Env::default();
    let mut ctx = context(&env);
    EventEmitter::transfer(&mut ctx, address(&env, ALICE), address(&env, BOB), 250, address(&env, TOKEN));
    assert_eq!(ctx.published().len(), 2);
    assert_standard(
        &env,
        &ctx,
        0,
        EventType::Transfer,
        ALICE,
        vec![Value::I128(250), Value::Address(address(&env, TOKEN))],
        vec![
            (MetadataKey::Amount, Value::I128(250)),
            (MetadataKey::From, Value::Address(address(&env, ALICE))),
            (MetadataKey::To, Value::Address(address(&env, BOB))),
            (MetadataKey::Token, Value::Address(address(&env, TOKEN))),
        ],
    );
    assert_legacy(&env, &ctx, 1, EventType::Transfer, vec![ALICE, BOB], LegacyPayload::Value(Value::I128(250)));
}

#[test]
fn approve_layout() {
    let env = Env::default();
    let mut ctx = context(&env);
    EventEmitter::approve(&mut ctx, address(&env, ALICE), address(&env, BOB), -3, address(&env, TOKEN));
    assert_eq!(ctx.published().len(), 2);
    assert_standard(
        &env,
        &ctx,
        0,
        EventType::Approve,
        ALICE,
        vec![Value::I128(-3), Value::Address(address(&env, TOKEN))],
        vec![
            (MetadataKey::Amount, Value::I128(-3)),
            (MetadataKey::From, Value::Address(address(&env, ALICE))),
            (MetadataKey::To, Value::Address(address(&env, BOB))),
            (MetadataKey::Token, Value::Address(address(&env, TOKEN))),
        ],
    );
    assert_legacy(&env, &ctx, 1, EventType::Approve, vec![ALICE, BOB], LegacyPayload::Value(Value::I128(-3)));
}

#[test]
fn mint_without_a_reason_has_no_reason_entry() {
    let env = Env::default();
    let mut ctx = context(&env);
    let outcome = EventEmitter::mint(&mut ctx, address(&env, BOB), 1000, address(&env, TOKEN), None);
    assert_eq!(outcome, Ok(()));
    assert_eq!(ctx.published().len(), 2);
    assert_standard(
        &env,
        &ctx,
        0,
        EventType::Mint,
        BOB,
        vec![Value::I128(1000), Value::Address(address(&env, TOKEN))],
        vec![
            (MetadataKey::Amount, Value::I128(1000)),
            (MetadataKey::To, Value::Address(address(&env, BOB))),
            (MetadataKey::Token, Value::Address(address(&env, TOKEN))),
        ],
    );
    let event = standard_at(&ctx, 0);
    assert_eq!(event.data().len(), 2);
    assert!(!event.metadata().contains_key(MetadataKey::Reason));
    assert_eq!(event.metadata().decode(MetadataKey::Reason), None);
    assert_legacy(&env, &ctx, 1, EventType::Mint, vec![BOB], LegacyPayload::Value(Value::I128(1000)));
}

#[test]
fn mint_with_a_reason_carries_the_interned_reason() {
    let env = Env::default();
    let mut ctx = context(&env);
    let outcome = EventEmitter::mint(
        &mut ctx,
        address(&env, BOB),
        1000,
        address(&env, TOKEN),
        Some(String::from("airdrop_2024")),
    );
    assert_eq!(outcome, Ok(()));
    assert_eq!(ctx.published().len(), 2);
    assert_standard(
        &env,
        &ctx,
        0,
        EventType::Mint,
        BOB,
        vec![
            Value::I128(1000),
            Value::Address(address(&env, TOKEN)),
            Value::Symbol(symbol("airdrop_2024")),
        ],
        vec![
            (MetadataKey::Amount, Value::I128(1000)),
            (MetadataKey::To, Value::Address(address(&env, BOB))),
            (MetadataKey::Token, Value::Address(address(&env, TOKEN))),
            (MetadataKey::Reason, Value::Symbol(symbol("airdrop_2024"))),
        ],
    );
    assert_legacy(&env, &ctx, 1, EventType::Mint, vec![BOB], LegacyPayload::Value(Value::I128(1000)));
}

#[test]
fn mint_with_an_empty_reason_still_has_a_reason_entry() {
    let env = Env::default();
    let mut ctx = context(&env);
    let outcome =
        EventEmitter::mint(&mut ctx, address(&env, BOB), 1, address(&env, TOKEN), Some(String::new()));
    assert_eq!(outcome, Ok(()));
    let event = standard_at(&ctx, 0);
    assert_eq!(event.data().len(), 3);
    assert_eq!(event.data()[2], Value::Symbol(symbol("")));
    assert_eq!(event.metadata().decode(MetadataKey::Reason), Some(&vec![Value::Symbol(symbol(""))]));
}

#[test]
fn mint_refuses_a_reason_that_cannot_be_interned() {
    let env = Env::default();
    for reason in ["quarterly bonus", "x".repeat(33).as_str(), "prämie"] {
        let mut ctx = context(&env);
        let outcome = EventEmitter::mint(
            &mut ctx,
            address(&env, BOB),
            1000,
            address(&env, TOKEN),
            Some(String::from(reason)),
        );
        assert_eq!(outcome, Err(EventError::EncodingError));
        assert!(ctx.published().is_empty());
    }
}

#[test]
fn a_refused_mint_leaves_earlier_records_alone() {
    let env = Env::default();
    let mut ctx = context(&env);
    EventEmitter::burn(&mut ctx, address(&env, ALICE), 5, address(&env, TOKEN));
    let outcome = EventEmitter::mint(
        &mut ctx,
        address(&env, BOB),
        1000,
        address(&env, TOKEN),
        Some(String::from("not a symbol")),
    );
    assert_eq!(outcome, Err(EventError::EncodingError));
    assert_eq!(ctx.published().len(), 2);
    assert_eq!(standard_at(&ctx, 0).event_type(), EventType::Burn);
    assert_eq!(legacy_at(&ctx, 1).topic, EventType::Burn);
}

#[test]
fn burn_layout() {
    let env = Env::default();
    let mut ctx = context(&env);
    EventEmitter::burn(&mut ctx, address(&env, ALICE), 77, address(&env, TOKEN));
    assert_eq!(ctx.published().len(), 2);
    assert_standard(
        &env,
        &ctx,
        0,
        EventType::Burn,
        ALICE,
        vec![Value::I128(77), Value::Address(address(&env, TOKEN))],
        vec![
            (MetadataKey::Amount, Value::I128(77)),
            (MetadataKey::From, Value::Address(address(&env, ALICE))),
            (MetadataKey::Token, Value::Address(address(&env, TOKEN))),
        ],
    );
    assert_legacy(&env, &ctx, 1, EventType::Burn, vec![ALICE], LegacyPayload::Value(Value::I128(77)));
}

#[test]
fn stake_layout() {
    let env = Env::default();
    let mut ctx = context(&env);
    EventEmitter::stake(&mut ctx, address(&env, ALICE), 500, 86_400, address(&env, TOKEN));
    assert_eq!(ctx.published().len(), 2);
    assert_standard(
        &env,
        &ctx,
        0,
        EventType::Stake,
        ALICE,
        vec![Value::I128(500), Value::U64(86_400), Value::Address(address(&env, TOKEN))],
        vec![
            (MetadataKey::Amount, Value::I128(500)),
            (MetadataKey::LockPeriod, Value::U64(86_400)),
            (MetadataKey::Token, Value::Address(address(&env, TOKEN))),
        ],
    );
    assert_legacy(
        &env,
        &ctx,
        1,
        EventType::Stake,
        vec![ALICE],
        LegacyPayload::Tuple(vec![Value::I128(500), Value::U64(86_400), Value::U64(NOW)]),
    );
}

#[test]
fn unstake_layout() {
    let env = Env::default();
    let mut ctx = context(&env);
    EventEmitter::unstake(&mut ctx, address(&env, ALICE), 500, 40, 3, address(&env, TOKEN));
    assert_eq!(ctx.published().len(), 2);
    assert_standard(
        &env,
        &ctx,
        0,
        EventType::Unstake,
        ALICE,
        vec![Value::I128(500), Value::I128(40), Value::I128(3), Value::Address(address(&env, TOKEN))],
        vec![
            (MetadataKey::Amount, Value::I128(500)),
            (MetadataKey::Fee, Value::I128(3)),
            (MetadataKey::Token, Value::Address(address(&env, TOKEN))),
        ],
    );
    assert_legacy(
        &env,
        &ctx,
        1,
        EventType::Unstake,
        vec![ALICE],
        LegacyPayload::Tuple(vec![Value::I128(500), Value::I128(40), Value::I128(3), Value::U64(NOW)]),
    );
}

#[test]
fn rewards_claimed_files_the_sum_under_amount() {
    let env = Env::default();
    let mut ctx = context(&env);
    let outcome = EventEmitter::rewards_claimed(&mut ctx, address(&env, ALICE), 120, 30, address(&env, TOKEN));
    assert_eq!(outcome, Ok(()));
    assert_eq!(ctx.published().len(), 2);
    assert_standard(
        &env,
        &ctx,
        0,
        EventType::RewardsClaimed,
        ALICE,
        vec![Value::I128(120), Value::I128(30), Value::Address(address(&env, TOKEN))],
        vec![
            (MetadataKey::Amount, Value::I128(150)),
            (MetadataKey::Token, Value::Address(address(&env, TOKEN))),
        ],
    );
    assert_legacy(
        &env,
        &ctx,
        1,
        EventType::RewardsClaimed,
        vec![ALICE],
        LegacyPayload::Tuple(vec![Value::I128(120), Value::I128(30), Value::U64(NOW)]),
    );
}

#[test]
fn rewards_claimed_at_the_edge_of_the_amount_type() {
    let env = Env::default();
    let mut ctx = context(&env);
    let outcome =
        EventEmitter::rewards_claimed(&mut ctx, address(&env, ALICE), i128::MAX - 1, 1, address(&env, TOKEN));
    assert_eq!(outcome, Ok(()));
    assert_eq!(
        standard_at(&ctx, 0).metadata().decode(MetadataKey::Amount),
        Some(&vec![Value::I128(i128::MAX)])
    );
    let outcome =
        EventEmitter::rewards_claimed(&mut ctx, address(&env, ALICE), i128::MIN, 0, address(&env, TOKEN));
    assert_eq!(outcome, Ok(()));
    assert_eq!(
        standard_at(&ctx, 2).metadata().decode(MetadataKey::Amount),
        Some(&vec![Value::I128(i128::MIN)])
    );
    let outcome =
        EventEmitter::rewards_claimed(&mut ctx, address(&env, ALICE), i128::MAX, i128::MIN, address(&env, TOKEN));
    assert_eq!(outcome, Ok(()));
    assert_eq!(
        standard_at(&ctx, 4).metadata().decode(MetadataKey::Amount),
        Some(&vec![Value::I128(-1)])
    );
}

#[test]
fn rewards_claimed_refuses_a_sum_that_does_not_fit() {
    let env = Env::default();
    for (base, bonus) in [(i128::MAX, 1), (1, i128::MAX), (i128::MIN, -1), (-1, i128::MIN), (i128::MAX, i128::MAX)] {
        let mut ctx = context(&env);
        let outcome = EventEmitter::rewards_claimed(&mut ctx, address(&env, ALICE), base, bonus, address(&env, TOKEN));
        assert_eq!(outcome, Err(EventError::EncodingError));
        assert!(ctx.published().is_empty());
    }
}

#[test]
fn vote_layout() {
    let env = Env::default();
    let mut ctx = context(&env);
    EventEmitter::vote(&mut ctx, address(&env, CAROL), 42, symbol("yes"), 9_000);
    assert_eq!(ctx.published().len(), 2);
    assert_standard(
        &env,
        &ctx,
        0,
        EventType::Vote,
        CAROL,
        vec![Value::U64(42), Value::Symbol(symbol("yes")), Value::U128(9_000)],
        vec![
            (MetadataKey::ProposalId, Value::U64(42)),
            (MetadataKey::VoteType, Value::Symbol(symbol("yes"))),
        ],
    );
    assert_legacy(
        &env,
        &ctx,
        1,
        EventType::Vote,
        vec![CAROL],
        LegacyPayload::Tuple(vec![
            Value::U64(42),
            Value::Symbol(symbol("yes")),
            Value::U128(9_000),
            Value::U64(NOW),
        ]),
    );
}

#[test]
fn admin_changed_layout() {
    let env = Env::default();
    let mut ctx = context(&env);
    EventEmitter::admin_changed(&mut ctx, address(&env, ALICE), address(&env, BOB));
    assert_eq!(ctx.published().len(), 2);
    assert_standard(
        &env,
        &ctx,
        0,
        EventType::AdminChanged,
        ALICE,
        vec![Value::Address(address(&env, ALICE)), Value::Address(address(&env, BOB))],
        vec![
            (MetadataKey::From, Value::Address(address(&env, ALICE))),
            (MetadataKey::To, Value::Address(address(&env, BOB))),
        ],
    );
    assert_legacy(
        &env,
        &ctx,
        1,
        EventType::AdminChanged,
        vec![ALICE],
        LegacyPayload::Value(Value::Address(address(&env, BOB))),
    );
}

#[test]
fn authorization_changed_layout() {
    let env = Env::default();
    let mut ctx = context(&env);
    EventEmitter::authorization_changed(&mut ctx, address(&env, BOB), true);
    assert_eq!(ctx.published().len(), 2);
    assert_standard(
        &env,
        &ctx,
        0,
        EventType::AuthorizationChanged,
        BOB,
        vec![Value::Bool(true)],
        vec![(MetadataKey::To, Value::Address(address(&env, BOB)))],
    );
    assert_legacy(
        &env,
        &ctx,
        1,
        EventType::AuthorizationChanged,
        vec![BOB],
        LegacyPayload::Value(Value::Bool(true)),
    );
}

#[test]
fn pool_updated_layout() {
    let env = Env::default();
    let mut ctx = context(&env);
    EventEmitter::pool_updated(&mut ctx, address(&env, ALICE), 125, 3);
    assert_eq!(ctx.published().len(), 2);
    assert_standard(
        &env,
        &ctx,
        0,
        EventType::PoolUpdated,
        ALICE,
        vec![Value::I128(125), Value::U32(3)],
        vec![(MetadataKey::RewardRate, Value::I128(125))],
    );
    assert_legacy(
        &env,
        &ctx,
        1,
        EventType::PoolUpdated,
        vec![ALICE],
        LegacyPayload::Tuple(vec![Value::I128(125), Value::U32(3), Value::U64(NOW)]),
    );
}

#[test]
fn trade_executed_layout() {
    let env = Env::default();
    let mut ctx = context(&env);
    EventEmitter::trade_executed(
        &mut ctx,
        address(&env, ALICE),
        symbol("XLMUSDC"),
        10_000,
        125,
        true,
        30,
        address(&env, TOKEN),
    );
    assert_eq!(ctx.published().len(), 2);
    assert_standard(
        &env,
        &ctx,
        0,
        EventType::TradeExecuted,
        ALICE,
        vec![
            Value::Symbol(symbol("XLMUSDC")),
            Value::I128(10_000),
            Value::I128(125),
            Value::Bool(true),
            Value::I128(30),
            Value::Address(address(&env, TOKEN)),
        ],
        vec![
            (MetadataKey::Pair, Value::Symbol(symbol("XLMUSDC"))),
            (MetadataKey::Amount, Value::I128(10_000)),
            (MetadataKey::Price, Value::I128(125)),
            (MetadataKey::Fee, Value::I128(30)),
            (MetadataKey::Token, Value::Address(address(&env, TOKEN))),
        ],
    );
    assert_legacy(
        &env,
        &ctx,
        1,
        EventType::TradeExecuted,
        vec![],
        LegacyPayload::TradeExecuted(TradeExecutedEvent {
            trade_id: 0,
            trader: address(&env, ALICE),
            pair: symbol("XLMUSDC"),
            amount: 10_000,
            price: 125,
            is_buy: true,
            fee_amount: 30,
            fee_token: address(&env, TOKEN),
            timestamp: NOW,
        }),
    );
}

#[test]
fn fee_collected_layout() {
    let env = Env::default();
    let mut ctx = context(&env);
    EventEmitter::fee_collected(&mut ctx, address(&env, ALICE), address(&env, CAROL), 12, address(&env, TOKEN));
    assert_eq!(ctx.published().len(), 2);
    assert_standard(
        &env,
        &ctx,
        0,
        EventType::FeeCollected,
        ALICE,
        vec![Value::I128(12), Value::Address(address(&env, TOKEN))],
        vec![
            (MetadataKey::From, Value::Address(address(&env, ALICE))),
            (MetadataKey::To, Value::Address(address(&env, CAROL))),
            (MetadataKey::Amount, Value::I128(12)),
            (MetadataKey::Token, Value::Address(address(&env, TOKEN))),
        ],
    );
    assert_legacy(
        &env,
        &ctx,
        1,
        EventType::FeeCollected,
        vec![],
        LegacyPayload::FeeCollected(FeeCollectedEvent {
            payer: address(&env, ALICE),
            recipient: address(&env, CAROL),
            amount: 12,
            token: address(&env, TOKEN),
            timestamp: NOW,
        }),
    );
}

#[test]
fn proposal_created_layout() {
    let env = Env::default();
    let mut ctx = context(&env);
    let outcome = EventEmitter::proposal_created(
        &mut ctx,
        address(&env, CAROL),
        7,
        String::from("raise_fee_cap"),
        symbol("parameter"),
    );
    assert_eq!(outcome, Ok(()));
    assert_eq!(ctx.published().len(), 2);
    assert_standard(
        &env,
        &ctx,
        0,
        EventType::ProposalCreated,
        CAROL,
        vec![Value::U64(7), Value::Symbol(symbol("raise_fee_cap")), Value::Symbol(symbol("parameter"))],
        vec![(MetadataKey::ProposalId, Value::U64(7))],
    );
    assert_legacy(
        &env,
        &ctx,
        1,
        EventType::ProposalCreated,
        vec![CAROL],
        LegacyPayload::Tuple(vec![
            Value::U64(7),
            Value::Text(String::from("raise_fee_cap")),
            Value::Symbol(symbol("parameter")),
            Value::U64(NOW),
        ]),
    );
}

#[test]
fn proposal_created_refuses_a_title_that_cannot_be_interned() {
    let env = Env::default();
    for title in ["Raise the fee cap", "a-b", "t".repeat(40).as_str()] {
        let mut ctx = context(&env);
        let outcome = EventEmitter::proposal_created(
            &mut ctx,
            address(&env, CAROL),
            7,
            String::from(title),
            symbol("parameter"),
        );
        assert_eq!(outcome, Err(EventError::EncodingError));
        assert!(ctx.published().is_empty());
    }
}

#[test]
fn proposal_executed_layout() {
    let env = Env::default();
    let mut ctx = context(&env);
    EventEmitter::proposal_executed(&mut ctx, address(&env, BOB), 7, false);
    assert_eq!(ctx.published().len(), 2);
    assert_standard(
        &env,
        &ctx,
        0,
        EventType::ProposalExecuted,
        BOB,
        vec![Value::U64(7), Value::Bool(false)],
        vec![(MetadataKey::ProposalId, Value::U64(7))],
    );
    assert_legacy(
        &env,
        &ctx,
        1,
        EventType::ProposalExecuted,
        vec![BOB],
        LegacyPayload::Tuple(vec![Value::U64(7), Value::Bool(false), Value::U64(NOW)]),
    );
}

#[test]
fn legacy_timestamps_follow_the_clock() {
    let env = Env::default();
    let mut ctx = context(&env);
    assert!(ctx.advance_time(NOW + 60));
    EventEmitter::stake(&mut ctx, address(&env, ALICE), 1, 2, address(&env, TOKEN));
    assert_eq!(standard_at(&ctx, 0).timestamp(), NOW + 60);
    assert_eq!(
        legacy_at(&ctx, 1).payload,
        LegacyPayload::Tuple(vec![Value::I128(1), Value::U64(2), Value::U64(NOW + 60)])
    );
}

#[test]
fn every_helper_publishes_the_standardized_event_then_one_legacy_record() {
    let env = Env::default();
    let mut ctx = context(&env);
    let a = || address(&env, ALICE);
    let b = || address(&env, BOB);
    let t = || address(&env, TOKEN);
    EventEmitter::transfer(&mut ctx, a(), b(), 1, t());
    EventEmitter::approve(&mut ctx, a(), b(), 1, t());
    EventEmitter::mint(&mut ctx, a(), 1, t(), Some(String::from("r"))).unwrap();
    EventEmitter::burn(&mut ctx, a(), 1, t());
    EventEmitter::stake(&mut ctx, a(), 1, 2, t());
    EventEmitter::unstake(&mut ctx, a(), 1, 2, 3, t());
    EventEmitter::rewards_claimed(&mut ctx, a(), 1, 2, t()).unwrap();
    EventEmitter::vote(&mut ctx, a(), 1, symbol("no"), 2);
    EventEmitter::admin_changed(&mut ctx, a(), b());
    EventEmitter::authorization_changed(&mut ctx, a(), false);
    EventEmitter::pool_updated(&mut ctx, a(), 1, 2);
    EventEmitter::trade_executed(&mut ctx, a(), symbol("XLMUSDC"), 1, 2, false, 3, t());
    EventEmitter::fee_collected(&mut ctx, a(), b(), 1, t());
    EventEmitter::proposal_created(&mut ctx, a(), 1, String::from("title"), symbol("kind")).unwrap();
    EventEmitter::proposal_executed(&mut ctx, a(), 1, true);

    let kinds = [
        EventType::Transfer,
        EventType::Approve,
        EventType::Mint,
        EventType::Burn,
        EventType::Stake,
        EventType::Unstake,
        EventType::RewardsClaimed,
        EventType::Vote,
        EventType::AdminChanged,
        EventType::AuthorizationChanged,
        EventType::PoolUpdated,
        EventType::TradeExecuted,
        EventType::FeeCollected,
        EventType::ProposalCreated,
        EventType::ProposalExecuted,
    ];
    assert_eq!(ctx.published().len(), 2 * kinds.len());
    for (call, kind) in kinds.iter().enumerate() {
        let standard = standard_at(&ctx, 2 * call);
        let legacy = legacy_at(&ctx, 2 * call + 1);
        assert_eq!(standard.event_type(), *kind);
        assert_eq!(legacy.topic, *kind);
        assert_eq!(standard.user_address(), Some(&a()));
        assert_eq!(standard.contract_address(), &address(&env, CONTRACT));
        assert_eq!(standard.version(), CURRENT_VERSION);
        assert_eq!(standard.timestamp(), NOW);
    }
}

#[test]
fn transfer_then_approve_publishes_in_call_order() {
    let env = Env::default();
    let mut ctx = context(&env);
    EventEmitter::transfer(&mut ctx, address(&env, ALICE), address(&env, BOB), 10, address(&env, TOKEN));
    EventEmitter::approve(&mut ctx, address(&env, BOB), address(&env, CAROL), 20, address(&env, TOKEN));
    assert_eq!(ctx.published().len(), 4);
    assert_eq!(standard_at(&ctx, 0).event_type(), EventType::Transfer);
    assert_eq!(standard_at(&ctx, 0).data()[0], Value::I128(10));
    assert_legacy(&env, &ctx, 1, EventType::Transfer, vec![ALICE, BOB], LegacyPayload::Value(Value::I128(10)));
    assert_eq!(standard_at(&ctx, 2).event_type(), EventType::Approve);
    assert_eq!(standard_at(&ctx, 2).data()[0], Value::I128(20));
    assert_legacy(&env, &ctx, 3, EventType::Approve, vec![BOB, CAROL], LegacyPayload::Value(Value::I128(20)));
}

#[test]
fn authorization_granted_then_revoked() {
    let env = Env::default();
    let mut ctx = context(&env);
    EventEmitter::authorization_changed(&mut ctx, address(&env, BOB), true);
    EventEmitter::authorization_changed(&mut ctx, address(&env, BOB), false);
    assert_eq!(ctx.published().len(), 4);
    let granted = standard_at(&ctx, 0);
    let revoked = standard_at(&ctx, 2);
    assert!(granted.timestamp() <= revoked.timestamp());
    assert_eq!(granted.user_address(), revoked.user_address());
    assert_eq!(granted.user_address(), Some(&address(&env, BOB)));
    assert_eq!(granted.data(), &vec![Value::Bool(true)]);
    assert_eq!(revoked.data(), &vec![Value::Bool(false)]);
    assert_eq!(granted.event_type(), revoked.event_type());
    assert_eq!(granted.contract_address(), revoked.contract_address());
    assert_eq!(granted.metadata(), revoked.metadata());
    assert_eq!(granted.version(), revoked.version());
}

#[test]
fn authorization_toggled_across_a_clock_step() {
    let env = Env::default();
    let mut ctx = context(&env);
    EventEmitter::authorization_changed(&mut ctx, address(&env, BOB), true);
    assert!(ctx.advance_time(NOW + 1));
    assert!(!ctx.advance_time(NOW));
    EventEmitter::authorization_changed(&mut ctx, address(&env, BOB), false);
    let granted = standard_at(&ctx, 0);
    let revoked = standard_at(&ctx, 2);
    assert_eq!(granted.timestamp(), NOW);
    assert_eq!(revoked.timestamp(), NOW + 1);
    assert_eq!(granted.user_address(), revoked.user_address());
    assert_eq!(legacy_at(&ctx, 1).payload, LegacyPayload::Value(Value::Bool(true)));
    assert_eq!(legacy_at(&ctx, 3).payload, LegacyPayload::Value(Value::Bool(false)));
}

#[test]
fn legacy_records_are_published_whole() {
    let env = Env::default();
    let mut ctx = context(&env);
    let admin = || address(&env, ALICE);
    let user = || address(&env, BOB);

    let trade = TradeExecutedEvent {
        trade_id: 91,
        trader: user(),
        pair: symbol("XLMUSDC"),
        amount: 5,
        price: 6,
        is_buy: false,
        fee_amount: 1,
        fee_token: address(&env, TOKEN),
        timestamp: 11,
    };
    let paused = ContractPausedEvent { paused_by: admin(), timestamp: 12 };
    let unpaused = ContractUnpausedEvent { unpaused_by: admin(), timestamp: 13 };
    let fee = FeeCollectedEvent {
        payer: user(),
        recipient: admin(),
        amount: 2,
        token: address(&env, TOKEN),
        timestamp: 14,
    };
    let created = ProposalCreatedEvent {
        proposal_id: 3,
        proposer: user(),
        new_contract_hash: symbol("abc123"),
        target_contract: address(&env, CONTRACT),
        description: symbol("upgrade_to_v2"),
        approval_threshold: 2,
        timelock_delay: 3600,
        timestamp: 15,
    };
    let approved = ProposalApprovedEvent {
        proposal_id: 3,
        approver: admin(),
        current_approvals: 1,
        threshold: 2,
        timestamp: 16,
    };
    let rejected = ProposalRejectedEvent { proposal_id: 3, rejector: admin(), timestamp: 17 };
    let executed = ProposalExecutedEvent {
        proposal_id: 3,
        executor: admin(),
        new_contract_hash: symbol("abc123"),
        timestamp: 18,
    };
    let cancelled = ProposalCancelledEvent { proposal_id: 3, cancelled_by: admin(), timestamp: 19 };
    let added = RewardAddedEvent {
        reward_id: 8,
        user: user(),
        amount: 100,
        reward_type: symbol("referral"),
        reason: symbol("invited_a_friend"),
        granted_by: admin(),
        timestamp: 20,
    };
    let claimed = RewardClaimedEvent { reward_id: 8, user: user(), amount: 100, timestamp: 21 };

    EventEmitter::trade_executed_legacy(&mut ctx, trade.clone());
    EventEmitter::contract_paused(&mut ctx, paused.clone());
    EventEmitter::contract_unpaused(&mut ctx, unpaused.clone());
    EventEmitter::fee_collected_legacy(&mut ctx, fee.clone());
    EventEmitter::proposal_created_legacy(&mut ctx, created.clone());
    EventEmitter::proposal_approved(&mut ctx, approved.clone());
    EventEmitter::proposal_rejected(&mut ctx, rejected.clone());
    EventEmitter::proposal_executed_legacy(&mut ctx, executed.clone());
    EventEmitter::proposal_cancelled(&mut ctx, cancelled.clone());
    EventEmitter::reward_added(&mut ctx, added.clone());
    EventEmitter::reward_claimed_legacy(&mut ctx, claimed.clone());

    assert_eq!(ctx.published().len(), 11);
    assert_legacy(&env, &ctx, 0, EventType::TradeExecuted, vec![], LegacyPayload::TradeExecuted(trade));
    assert_legacy(&env, &ctx, 1, EventType::ContractPaused, vec![], LegacyPayload::ContractPaused(paused));
    assert_legacy(&env, &ctx, 2, EventType::ContractUnpaused, vec![], LegacyPayload::ContractUnpaused(unpaused));
    assert_legacy(&env, &ctx, 3, EventType::FeeCollected, vec![], LegacyPayload::FeeCollected(fee));
    assert_legacy(&env, &ctx, 4, EventType::ProposalCreated, vec![], LegacyPayload::ProposalCreated(created));
    assert_legacy(&env, &ctx, 5, EventType::ProposalApproved, vec![], LegacyPayload::ProposalApproved(approved));
    assert_legacy(&env, &ctx, 6, EventType::ProposalRejected, vec![], LegacyPayload::ProposalRejected(rejected));
    assert_legacy(&env, &ctx, 7, EventType::ProposalExecuted, vec![], LegacyPayload::ProposalExecuted(executed));
    assert_legacy(&env, &ctx, 8, EventType::ProposalCancelled, vec![], LegacyPayload::ProposalCancelled(cancelled));
    assert_legacy(&env, &ctx, 9, EventType::RewardAdded, vec![], LegacyPayload::RewardAdded(added));
    assert_legacy(&env, &ctx, 10, EventType::RewardClaimed, vec![], LegacyPayload::RewardClaimed(claimed));
}
