//! The record-shaped payloads of the legacy channel, one per event kind
//! that older consumers read as a whole record.

use vstd::prelude::*;
use soroban_sdk::Address;
use crate::symbol::SymbolText;

verus! {

/// A trade was executed.
#[derive(Debug, PartialEq, Eq)]
pub struct TradeExecutedEvent {
    /// The identifier that the caller assigned to the trade; 0 while none
    /// is assigned.
    pub trade_id: u64,
    /// Who traded.
    pub trader: Address,
    /// The trading pair, such as `XLMUSDC`.
    pub pair: SymbolText,
    /// The amount traded.
    pub amount: i128,
    /// The price of the trade.
    pub price: i128,
    /// Whether this was a buy; a sell otherwise.
    pub is_buy: bool,
    /// The fee collected.
    pub fee_amount: i128,
    /// The token in which the fee was paid.
    pub fee_token: Address,
    /// When the trade occurred.
    pub timestamp: u64,
}

/// The contract was paused.
#[derive(Debug, PartialEq, Eq)]
pub struct ContractPausedEvent {
    /// The administrator who paused the contract.
    pub paused_by: Address,
    /// When it was paused.
    pub timestamp: u64,
}

/// The contract was unpaused.
#[derive(Debug, PartialEq, Eq)]
pub struct ContractUnpausedEvent {
    /// The administrator who unpaused the contract.
    pub unpaused_by: Address,
    /// When it was unpaused.
    pub timestamp: u64,
}

/// A fee was collected.
#[derive(Debug, PartialEq, Eq)]
pub struct FeeCollectedEvent {
    /// Who paid the fee.
    pub payer: Address,
    /// Who received the fee.
    pub recipient: Address,
    /// The amount of the fee.
    pub amount: i128,
    /// The token in which it was paid.
    pub token: Address,
    /// When it was collected.
    pub timestamp: u64,
}

/// An upgrade proposal was created.
#[derive(Debug, PartialEq, Eq)]
pub struct ProposalCreatedEvent {
    /// The identifier of the proposal.
    pub proposal_id: u64,
    /// Who created the proposal.
    pub proposer: Address,
    /// The hash of the contract to upgrade to.
    pub new_contract_hash: SymbolText,
    /// The contract to be upgraded.
    pub target_contract: Address,
    /// A description of the proposal.
    pub description: SymbolText,
    /// How many approvals execution requires.
    pub approval_threshold: u32,
    /// The delay before execution, in seconds.
    pub timelock_delay: u64,
    /// When the proposal was created.
    pub timestamp: u64,
}

/// A proposal was approved by one approver.
#[derive(Debug, PartialEq, Eq)]
pub struct ProposalApprovedEvent {
    /// The identifier of the proposal.
    pub proposal_id: u64,
    /// Who approved.
    pub approver: Address,
    /// The number of approvals, this one included.
    pub current_approvals: u32,
    /// How many approvals execution requires.
    pub threshold: u32,
    /// When the approval was given.
    pub timestamp: u64,
}

/// A proposal was rejected.
#[derive(Debug, PartialEq, Eq)]
pub struct ProposalRejectedEvent {
    /// The identifier of the proposal.
    pub proposal_id: u64,
    /// Who rejected.
    pub rejector: Address,
    /// When it was rejected.
    pub timestamp: u64,
}

/// A proposal was executed.
#[derive(Debug, PartialEq, Eq)]
pub struct ProposalExecutedEvent {
    /// The identifier of the proposal.
    pub proposal_id: u64,
    /// Who executed it.
    pub executor: Address,
    /// The hash of the contract that was deployed.
    pub new_contract_hash: SymbolText,
    /// When it was executed.
    pub timestamp: u64,
}

/// A proposal was cancelled.
#[derive(Debug, PartialEq, Eq)]
pub struct ProposalCancelledEvent {
    /// The identifier of the proposal.
    pub proposal_id: u64,
    /// The administrator who cancelled it.
    pub cancelled_by: Address,
    /// When it was cancelled.
    pub timestamp: u64,
}

/// A reward was granted to a user.
#[derive(Debug, PartialEq, Eq)]
pub struct RewardAddedEvent {
    /// The identifier of the reward.
    pub reward_id: u64,
    /// Who receives the reward.
    pub user: Address,
    /// The amount of the reward.
    pub amount: i128,
    /// The type of reward, such as `referral`.
    pub reward_type: SymbolText,
    /// The reason for the reward.
    pub reason: SymbolText,
    /// The administrator who granted it.
    pub granted_by: Address,
    /// When it was granted.
    pub timestamp: u64,
}

/// A reward was claimed.
#[derive(Debug, PartialEq, Eq)]
pub struct RewardClaimedEvent {
    /// The identifier of the reward.
    pub reward_id: u64,
    /// Who claimed it.
    pub user: Address,
    /// The amount claimed.
    pub amount: i128,
    /// When it was claimed.
    pub timestamp: u64,
}

impl Clone for TradeExecutedEvent {
    fn clone(&self) -> (copy: Self)
        ensures
            copy == *self,
    {
        TradeExecutedEvent {
            trade_id: self.trade_id,
            trader: self.trader.clone(),
            pair: self.pair.clone(),
            amount: self.amount,
            price: self.price,
            is_buy: self.is_buy,
            fee_amount: self.fee_amount,
            fee_token: self.fee_token.clone(),
            timestamp: self.timestamp,
        }
    }
}

impl Clone for ContractPausedEvent {
    fn clone(&self) -> (copy: Self)
        ensures
            copy == *self,
    {
        ContractPausedEvent {
            paused_by: self.paused_by.clone(),
            timestamp: self.timestamp,
        }
    }
}

impl Clone for ContractUnpausedEvent {
    fn clone(&self) -> (copy: Self)
        ensures
            copy == *self,
    {
        ContractUnpausedEvent {
            unpaused_by: self.unpaused_by.clone(),
            timestamp: self.timestamp,
        }
    }
}

impl Clone for FeeCollectedEvent {
    fn clone(&self) -> (copy: Self)
        ensures
            copy == *self,
    {
        FeeCollectedEvent {
            payer: self.payer.clone(),
            recipient: self.recipient.clone(),
            amount: self.amount,
            token: self.token.clone(),
            timestamp: self.timestamp,
        }
    }
}

impl Clone for ProposalCreatedEvent {
    fn clone(&self) -> (copy: Self)
        ensures
            copy == *self,
    {
        ProposalCreatedEvent {
            proposal_id: self.proposal_id,
            proposer: self.proposer.clone(),
            new_contract_hash: self.new_contract_hash.clone(),
            target_contract: self.target_contract.clone(),
            description: self.description.clone(),
            approval_threshold: self.approval_threshold,
            timelock_delay: self.timelock_delay,
            timestamp: self.timestamp,
        }
    }
}

impl Clone for ProposalApprovedEvent {
    fn clone(&self) -> (copy: Self)
        ensures
            copy == *self,
    {
        ProposalApprovedEvent {
            proposal_id: self.proposal_id,
            approver: self.approver.clone(),
            current_approvals: self.current_approvals,
            threshold: self.threshold,
            timestamp: self.timestamp,
        }
    }
}

impl Clone for ProposalRejectedEvent {
    fn clone(&self) -> (copy: Self)
        ensures
            copy == *self,
    {
        ProposalRejectedEvent {
            proposal_id: self.proposal_id,
            rejector: self.rejector.clone(),
            timestamp: self.timestamp,
        }
    }
}

impl Clone for ProposalExecutedEvent {
    fn clone(&self) -> (copy: Self)
        ensures
            copy == *self,
    {
        ProposalExecutedEvent {
            proposal_id: self.proposal_id,
            executor: self.executor.clone(),
            new_contract_hash: self.new_contract_hash.clone(),
            timestamp: self.timestamp,
        }
    }
}

impl Clone for ProposalCancelledEvent {
    fn clone(&self) -> (copy: Self)
        ensures
            copy == *self,
    {
        ProposalCancelledEvent {
            proposal_id: self.proposal_id,
            cancelled_by: self.cancelled_by.clone(),
            timestamp: self.timestamp,
        }
    }
}

impl Clone for RewardAddedEvent {
    fn clone(&self) -> (copy: Self)
        ensures
            copy == *self,
    {
        RewardAddedEvent {
            reward_id: self.reward_id,
            user: self.user.clone(),
            amount: self.amount,
            reward_type: self.reward_type.clone(),
            reason: self.reason.clone(),
            granted_by: self.granted_by.clone(),
            timestamp: self.timestamp,
        }
    }
}

impl Clone for RewardClaimedEvent {
    fn clone(&self) -> (copy: Self)
        ensures
            copy == *self,
    {
        RewardClaimedEvent {
            reward_id: self.reward_id,
            user: self.user.clone(),
            amount: self.amount,
            timestamp: self.timestamp,
        }
    }
}

} // verus!
