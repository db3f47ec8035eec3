//! The topic registry: the closed set of event kinds and metadata keys, each
//! with the stable short identifier that consumers filter on.

use vstd::prelude::*;
use vstd::string::*;
use crate::error::EventError;
use crate::symbol::is_symbol_text;

verus! {

/// The root topic under which every standardized event is published.
pub const ROOT_TOPIC: &'static str = "stellara_event";

/// The kinds of event, grouped by domain.
#[derive(Clone, Copy, Debug, PartialEq, Eq, Structural)]
pub enum EventType {
    // Core token operations
    Transfer,
    Approve,
    Mint,
    Burn,
    // Trading
    TradeExecuted,
    ContractPaused,
    ContractUnpaused,
    FeeCollected,
    // Staking
    Stake,
    Unstake,
    RewardsClaimed,
    PoolUpdated,
    // Governance
    ProposalCreated,
    ProposalApproved,
    ProposalRejected,
    ProposalExecuted,
    ProposalCancelled,
    Vote,
    // Administration and authorization
    AdminChanged,
    AuthorizationChanged,
    EmergencyMode,
    // Oracle
    OracleUpdated,
    // Upgrades
    UpgradeProposed,
    UpgradeExecuted,
    // Social rewards
    RewardAdded,
    RewardClaimed,
}

impl EventType {
    /// The identifier of each kind.
    pub open spec fn spec_identifier(self) -> Seq<char> {
        match self {
            EventType::Transfer => "transfer"@,
            EventType::Approve => "approve"@,
            EventType::Mint => "mint"@,
            EventType::Burn => "burn"@,
            EventType::TradeExecuted => "trade"@,
            EventType::ContractPaused => "paused"@,
            EventType::ContractUnpaused => "unpause"@,
            EventType::FeeCollected => "fee"@,
            EventType::Stake => "stake"@,
            EventType::Unstake => "unstake"@,
            EventType::RewardsClaimed => "rewards_claimed"@,
            EventType::PoolUpdated => "pool_updated"@,
            EventType::ProposalCreated => "propose"@,
            EventType::ProposalApproved => "prop_approved"@,
            EventType::ProposalRejected => "reject"@,
            EventType::ProposalExecuted => "execute"@,
            EventType::ProposalCancelled => "cancel"@,
            EventType::Vote => "vote"@,
            EventType::AdminChanged => "admin_changed"@,
            EventType::AuthorizationChanged => "auth_changed"@,
            EventType::EmergencyMode => "emergency_mode"@,
            EventType::OracleUpdated => "oracle_updated"@,
            EventType::UpgradeProposed => "upgrade_proposed"@,
            EventType::UpgradeExecuted => "upgrade_executed"@,
            EventType::RewardAdded => "reward"@,
            EventType::RewardClaimed => "claimed"@,
        }
    }

    /// Looks up the stable short identifier of this kind.
    pub fn identifier(self) -> (id: &'static str)
        ensures
            id@ == self.spec_identifier(),
    {
        match self {
            EventType::Transfer => "transfer",
            EventType::Approve => "approve",
            EventType::Mint => "mint",
            EventType::Burn => "burn",
            EventType::TradeExecuted => "trade",
            EventType::ContractPaused => "paused",
            EventType::ContractUnpaused => "unpause",
            EventType::FeeCollected => "fee",
            EventType::Stake => "stake",
            EventType::Unstake => "unstake",
            EventType::RewardsClaimed => "rewards_claimed",
            EventType::PoolUpdated => "pool_updated",
            EventType::ProposalCreated => "propose",
            EventType::ProposalApproved => "prop_approved",
            EventType::ProposalRejected => "reject",
            EventType::ProposalExecuted => "execute",
            EventType::ProposalCancelled => "cancel",
            EventType::Vote => "vote",
            EventType::AdminChanged => "admin_changed",
            EventType::AuthorizationChanged => "auth_changed",
            EventType::EmergencyMode => "emergency_mode",
            EventType::OracleUpdated => "oracle_updated",
            EventType::UpgradeProposed => "upgrade_proposed",
            EventType::UpgradeExecuted => "upgrade_executed",
            EventType::RewardAdded => "reward",
            EventType::RewardClaimed => "claimed",
        }
    }
}

/// Whether two texts are the same.
fn same_text(a: &str, b: &str) -> (same: bool)
    ensures
        same == (a@ == b@),
{
    let n = a.unicode_len();
    if n != b.unicode_len() {
        return false;
    }
    let mut i: usize = 0;
    while i < n
        invariant
            i <= n,
            n == a@.len(),
            n == b@.len(),
            forall|j: int| 0 <= j < i ==> a@[j] == b@[j],
        decreases n - i,
    {
        if a.get_char(i) != b.get_char(i) {
            return false;
        }
        i = i + 1;
    }
    assert(a@ =~= b@);
    true
}

impl EventType {
    /// The kind that an identifier names, if it names one.
    pub open spec fn spec_resolve(identifier: Seq<char>) -> Option<EventType> {
        if identifier == "transfer"@ {
            Some(EventType::Transfer)
        } else if identifier == "approve"@ {
            Some(EventType::Approve)
        } else if identifier == "mint"@ {
            Some(EventType::Mint)
        } else if identifier == "burn"@ {
            Some(EventType::Burn)
        } else if identifier == "trade"@ {
            Some(EventType::TradeExecuted)
        } else if identifier == "paused"@ {
            Some(EventType::ContractPaused)
        } else if identifier == "unpause"@ {
            Some(EventType::ContractUnpaused)
        } else if identifier == "fee"@ {
            Some(EventType::FeeCollected)
        } else if identifier == "stake"@ {
            Some(EventType::Stake)
        } else if identifier == "unstake"@ {
            Some(EventType::Unstake)
        } else if identifier == "rewards_claimed"@ {
            Some(EventType::RewardsClaimed)
        } else if identifier == "pool_updated"@ {
            Some(EventType::PoolUpdated)
        } else if identifier == "propose"@ {
            Some(EventType::ProposalCreated)
        } else if identifier == "prop_approved"@ {
            Some(EventType::ProposalApproved)
        } else if identifier == "reject"@ {
            Some(EventType::ProposalRejected)
        } else if identifier == "execute"@ {
            Some(EventType::ProposalExecuted)
        } else if identifier == "cancel"@ {
            Some(EventType::ProposalCancelled)
        } else if identifier == "vote"@ {
            Some(EventType::Vote)
        } else if identifier == "admin_changed"@ {
            Some(EventType::AdminChanged)
        } else if identifier == "auth_changed"@ {
            Some(EventType::AuthorizationChanged)
        } else if identifier == "emergency_mode"@ {
            Some(EventType::EmergencyMode)
        } else if identifier == "oracle_updated"@ {
            Some(EventType::OracleUpdated)
        } else if identifier == "upgrade_proposed"@ {
            Some(EventType::UpgradeProposed)
        } else if identifier == "upgrade_executed"@ {
            Some(EventType::UpgradeExecuted)
        } else if identifier == "reward"@ {
            Some(EventType::RewardAdded)
        } else if identifier == "claimed"@ {
            Some(EventType::RewardClaimed)
        } else {
            None
        }
    }

    /// Resolves an identifier to the kind it names. An identifier outside
    /// the registry is refused as an unknown topic.
    pub fn from_identifier(identifier: &str) -> (resolved: Result<EventType, EventError>)
        ensures
            (match resolved {
                Ok(kind) => EventType::spec_resolve(identifier@) == Some(kind),
                Err(e) => e == EventError::UnknownTopic && EventType::spec_resolve(identifier@) is None,
            }),
    {
        if same_text(identifier, "transfer") {
            Ok(EventType::Transfer)
        } else if same_text(identifier, "approve") {
            Ok(EventType::Approve)
        } else if same_text(identifier, "mint") {
            Ok(EventType::Mint)
        } else if same_text(identifier, "burn") {
            Ok(EventType::Burn)
        } else if same_text(identifier, "trade") {
            Ok(EventType::TradeExecuted)
        } else if same_text(identifier, "paused") {
            Ok(EventType::ContractPaused)
        } else if same_text(identifier, "unpause") {
            Ok(EventType::ContractUnpaused)
        } else if same_text(identifier, "fee") {
            Ok(EventType::FeeCollected)
        } else if same_text(identifier, "stake") {
            Ok(EventType::Stake)
        } else if same_text(identifier, "unstake") {
            Ok(EventType::Unstake)
        } else if same_text(identifier, "rewards_claimed") {
            Ok(EventType::RewardsClaimed)
        } else if same_text(identifier, "pool_updated") {
            Ok(EventType::PoolUpdated)
        } else if same_text(identifier, "propose") {
            Ok(EventType::ProposalCreated)
        } else if same_text(identifier, "prop_approved") {
            Ok(EventType::ProposalApproved)
        } else if same_text(identifier, "reject") {
            Ok(EventType::ProposalRejected)
        } else if same_text(identifier, "execute") {
            Ok(EventType::ProposalExecuted)
        } else if same_text(identifier, "cancel") {
            Ok(EventType::ProposalCancelled)
        } else if same_text(identifier, "vote") {
            Ok(EventType::Vote)
        } else if same_text(identifier, "admin_changed") {
            Ok(EventType::AdminChanged)
        } else if same_text(identifier, "auth_changed") {
            Ok(EventType::AuthorizationChanged)
        } else if same_text(identifier, "emergency_mode") {
            Ok(EventType::EmergencyMode)
        } else if same_text(identifier, "oracle_updated") {
            Ok(EventType::OracleUpdated)
        } else if same_text(identifier, "upgrade_proposed") {
            Ok(EventType::UpgradeProposed)
        } else if same_text(identifier, "upgrade_executed") {
            Ok(EventType::UpgradeExecuted)
        } else if same_text(identifier, "reward") {
            Ok(EventType::RewardAdded)
        } else if same_text(identifier, "claimed") {
            Ok(EventType::RewardClaimed)
        } else {
            Err(EventError::UnknownTopic)
        }
    }
}

/// Resolving the identifier of a kind yields that kind; what an identifier
/// resolves to carries that identifier; and an identifier resolves exactly
/// if some kind carries it.
pub proof fn lemma_resolve(kind: EventType, identifier: Seq<char>)
    ensures
        EventType::spec_resolve(kind.spec_identifier()) == Some(kind),
        EventType::spec_resolve(identifier) matches Some(found) ==> found.spec_identifier()
            == identifier,
        EventType::spec_resolve(identifier) is None ==> kind.spec_identifier() != identifier,
{
    reveal_strlit("transfer");
    reveal_strlit("approve");
    reveal_strlit("mint");
    reveal_strlit("burn");
    reveal_strlit("trade");
    reveal_strlit("paused");
    reveal_strlit("unpause");
    reveal_strlit("fee");
    reveal_strlit("stake");
    reveal_strlit("unstake");
    reveal_strlit("rewards_claimed");
    reveal_strlit("pool_updated");
    reveal_strlit("propose");
    reveal_strlit("prop_approved");
    reveal_strlit("reject");
    reveal_strlit("execute");
    reveal_strlit("cancel");
    reveal_strlit("vote");
    reveal_strlit("admin_changed");
    reveal_strlit("auth_changed");
    reveal_strlit("emergency_mode");
    reveal_strlit("oracle_updated");
    reveal_strlit("upgrade_proposed");
    reveal_strlit("upgrade_executed");
    reveal_strlit("reward");
    reveal_strlit("claimed");
    match EventType::spec_resolve(kind.spec_identifier()) {
        Some(found) => {
            lemma_identifiers_distinct(found, kind);
        },
        None => {},
    }
}

/// One identifier, one meaning: no two kinds share an identifier.
pub proof fn lemma_identifiers_distinct(a: EventType, b: EventType)
    ensures
        a.spec_identifier() == b.spec_identifier() ==> a == b,
{
    lemma_identifier_is_symbol_text(a);
    let s = a.spec_identifier();
    let t = b.spec_identifier();
    reveal_strlit("transfer");
    reveal_strlit("approve");
    reveal_strlit("mint");
    reveal_strlit("burn");
    reveal_strlit("trade");
    reveal_strlit("paused");
    reveal_strlit("unpause");
    reveal_strlit("fee");
    reveal_strlit("stake");
    reveal_strlit("unstake");
    reveal_strlit("rewards_claimed");
    reveal_strlit("pool_updated");
    reveal_strlit("propose");
    reveal_strlit("prop_approved");
    reveal_strlit("reject");
    reveal_strlit("execute");
    reveal_strlit("cancel");
    reveal_strlit("vote");
    reveal_strlit("admin_changed");
    reveal_strlit("auth_changed");
    reveal_strlit("emergency_mode");
    reveal_strlit("oracle_updated");
    reveal_strlit("upgrade_proposed");
    reveal_strlit("upgrade_executed");
    reveal_strlit("reward");
    reveal_strlit("claimed");
    if s == t {
        assert(s.len() == t.len());
        assert(s[0] == t[0]);
        assert(s[1] == t[1]);
        assert(s[2] == t[2]);
        if s.len() > 8 {
            assert(s[8] == t[8]);
        }
    }
}

/// Every identifier of the registry can be interned.
pub proof fn lemma_identifier_is_symbol_text(kind: EventType)
    ensures
        is_symbol_text(kind.spec_identifier()),
{
    reveal_strlit("transfer");
    reveal_strlit("approve");
    reveal_strlit("mint");
    reveal_strlit("burn");
    reveal_strlit("trade");
    reveal_strlit("paused");
    reveal_strlit("unpause");
    reveal_strlit("fee");
    reveal_strlit("stake");
    reveal_strlit("unstake");
    reveal_strlit("rewards_claimed");
    reveal_strlit("pool_updated");
    reveal_strlit("propose");
    reveal_strlit("prop_approved");
    reveal_strlit("reject");
    reveal_strlit("execute");
    reveal_strlit("cancel");
    reveal_strlit("vote");
    reveal_strlit("admin_changed");
    reveal_strlit("auth_changed");
    reveal_strlit("emergency_mode");
    reveal_strlit("oracle_updated");
    reveal_strlit("upgrade_proposed");
    reveal_strlit("upgrade_executed");
    reveal_strlit("reward");
    reveal_strlit("claimed");
}

/// The closed vocabulary of metadata keys.
#[derive(Clone, Copy, Debug, PartialEq, Eq, Structural)]
pub enum MetadataKey {
    Amount,
    From,
    To,
    Token,
    Pair,
    Price,
    Fee,
    Reason,
    ProposalId,
    VoteType,
    LockPeriod,
    RewardRate,
}

/// How many metadata keys there are.
pub const METADATA_KEY_COUNT: usize = 12;

impl MetadataKey {
    /// The identifier of each key.
    pub open spec fn spec_identifier(self) -> Seq<char> {
        match self {
            MetadataKey::Amount => "amount"@,
            MetadataKey::From => "from"@,
            MetadataKey::To => "to"@,
            MetadataKey::Token => "token"@,
            MetadataKey::Pair => "pair"@,
            MetadataKey::Price => "price"@,
            MetadataKey::Fee => "fee"@,
            MetadataKey::Reason => "reason"@,
            MetadataKey::ProposalId => "proposal_id"@,
            MetadataKey::VoteType => "vote_type"@,
            MetadataKey::LockPeriod => "lock_period"@,
            MetadataKey::RewardRate => "reward_rate"@,
        }
    }

    /// The identifier under which this key is published.
    pub fn identifier(self) -> (id: &'static str)
        ensures
            id@ == self.spec_identifier(),
    {
        match self {
            MetadataKey::Amount => "amount",
            MetadataKey::From => "from",
            MetadataKey::To => "to",
            MetadataKey::Token => "token",
            MetadataKey::Pair => "pair",
            MetadataKey::Price => "price",
            MetadataKey::Fee => "fee",
            MetadataKey::Reason => "reason",
            MetadataKey::ProposalId => "proposal_id",
            MetadataKey::VoteType => "vote_type",
            MetadataKey::LockPeriod => "lock_period",
            MetadataKey::RewardRate => "reward_rate",
        }
    }

    /// The position of each key in the vocabulary.
    pub open spec fn spec_index(self) -> int {
        match self {
            MetadataKey::Amount => 0,
            MetadataKey::From => 1,
            MetadataKey::To => 2,
            MetadataKey::Token => 3,
            MetadataKey::Pair => 4,
            MetadataKey::Price => 5,
            MetadataKey::Fee => 6,
            MetadataKey::Reason => 7,
            MetadataKey::ProposalId => 8,
            MetadataKey::VoteType => 9,
            MetadataKey::LockPeriod => 10,
            MetadataKey::RewardRate => 11,
        }
    }

    /// The key at each position of the vocabulary.
    pub open spec fn spec_at(index: int) -> MetadataKey {
        if index == 0 {
            MetadataKey::Amount
        } else if index == 1 {
            MetadataKey::From
        } else if index == 2 {
            MetadataKey::To
        } else if index == 3 {
            MetadataKey::Token
        } else if index == 4 {
            MetadataKey::Pair
        } else if index == 5 {
            MetadataKey::Price
        } else if index == 6 {
            MetadataKey::Fee
        } else if index == 7 {
            MetadataKey::Reason
        } else if index == 8 {
            MetadataKey::ProposalId
        } else if index == 9 {
            MetadataKey::VoteType
        } else if index == 10 {
            MetadataKey::LockPeriod
        } else {
            MetadataKey::RewardRate
        }
    }

    /// This key's position in the vocabulary.
    pub fn index(self) -> (i: usize)
        ensures
            i == self.spec_index(),
            i < METADATA_KEY_COUNT,
            MetadataKey::spec_at(i as int) == self,
    {
        match self {
            MetadataKey::Amount => 0,
            MetadataKey::From => 1,
            MetadataKey::To => 2,
            MetadataKey::Token => 3,
            MetadataKey::Pair => 4,
            MetadataKey::Price => 5,
            MetadataKey::Fee => 6,
            MetadataKey::Reason => 7,
            MetadataKey::ProposalId => 8,
            MetadataKey::VoteType => 9,
            MetadataKey::LockPeriod => 10,
            MetadataKey::RewardRate => 11,
        }
    }

    /// The key at position `index` of the vocabulary, if the vocabulary is
    /// that long.
    pub fn at(index: usize) -> (found: Option<MetadataKey>)
        ensures
            found is Some <==> index < METADATA_KEY_COUNT,
            found matches Some(key) ==> key == MetadataKey::spec_at(index as int) && key.spec_index()
                == index,
    {
        if index == 0 {
            Some(MetadataKey::Amount)
        } else if index == 1 {
            Some(MetadataKey::From)
        } else if index == 2 {
            Some(MetadataKey::To)
        } else if index == 3 {
            Some(MetadataKey::Token)
        } else if index == 4 {
            Some(MetadataKey::Pair)
        } else if index == 5 {
            Some(MetadataKey::Price)
        } else if index == 6 {
            Some(MetadataKey::Fee)
        } else if index == 7 {
            Some(MetadataKey::Reason)
        } else if index == 8 {
            Some(MetadataKey::ProposalId)
        } else if index == 9 {
            Some(MetadataKey::VoteType)
        } else if index == 10 {
            Some(MetadataKey::LockPeriod)
        } else if index == 11 {
            Some(MetadataKey::RewardRate)
        } else {
            None
        }
    }
}

/// Every metadata key can be interned, and no two keys share an identifier.
pub proof fn lemma_key_identifiers(a: MetadataKey, b: MetadataKey)
    ensures
        is_symbol_text(a.spec_identifier()),
        a.spec_identifier() == b.spec_identifier() ==> a == b,
{
    reveal_strlit("amount");
    reveal_strlit("from");
    reveal_strlit("to");
    reveal_strlit("token");
    reveal_strlit("pair");
    reveal_strlit("price");
    reveal_strlit("fee");
    reveal_strlit("reason");
    reveal_strlit("proposal_id");
    reveal_strlit("vote_type");
    reveal_strlit("lock_period");
    reveal_strlit("reward_rate");
    if a != b && a.spec_identifier() == b.spec_identifier() {
        let s = a.spec_identifier();
        let t = b.spec_identifier();
        assert(s.len() == t.len());
        assert(s[0] == t[0]);
        assert(s[1] == t[1]);
    }
}

/// The root topic can be interned.
pub proof fn lemma_root_topic_is_symbol_text()
    ensures
        is_symbol_text(ROOT_TOPIC@),
{
    reveal_strlit("stellara_event");
}

} // verus!
