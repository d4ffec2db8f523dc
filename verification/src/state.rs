//! The three ledger record kinds and their companion value types.
//!
//! All fields are plain integers or fixed byte arrays, so the records are
//! their own mathematical model: contracts speak of the fields directly.

use vstd::prelude::*;

verus! {

/// A 32-byte identity: a depositor, the authority, or a destination
/// address on a target chain.
pub type Key = [u8; 32];

/// The last externally ingested multi-chain rate and valuation table,
/// wholesale-replaced on each oracle update.
#[derive(Clone, Copy, PartialEq, Eq, Debug)]
pub struct OracleData {
    pub source_chain: u8,
    pub timestamp: i64,
    pub yield_rates: [u64; 10],
    pub total_value_locked: u64,
    pub apy_data: [u64; 10],
}

/// The protocol ledger: one instance for the whole system.
#[derive(Clone, Copy, PartialEq, Eq, Debug)]
pub struct GlobalState {
    /// Identity of the privileged operator.
    pub authority: Key,
    /// Sum of all depositors' withdrawable principal.
    pub total_deposits: u64,
    /// Cumulative yield paid out across all depositors.
    pub total_yield_earned: u64,
    /// Annualized rate in basis points (1% = 100) for the first chain.
    pub solana_yield_rate: u64,
    /// Annualized rate in basis points for the second chain.
    pub ethereum_yield_rate: u64,
    /// Annualized rate in basis points for the third chain.
    pub polygon_yield_rate: u64,
    /// Timestamp of the last rate publication.
    pub last_yield_update: i64,
    /// Sum of all depositors' in-flight cross-chain reservations.
    pub pending_cross_chain_amount: u64,
    /// Cumulative amount confirmed moved to other chains.
    pub total_cross_chain_deposits: u64,
    /// Last ingested oracle record.
    pub oracle_data: OracleData,
    /// Timestamp of the last oracle ingestion.
    pub last_oracle_update: i64,
}

/// The depositor ledger: one record per depositor identity.
#[derive(Clone, Copy, PartialEq, Eq, Debug)]
pub struct UserState {
    /// The depositor identity owning this record.
    pub user: Key,
    /// Principal currently withdrawable.
    pub deposited_amount: u64,
    /// Cumulative yield this depositor has claimed.
    pub total_yield_claimed: u64,
    pub last_deposit_timestamp: i64,
    pub last_withdrawal_timestamp: i64,
    pub last_yield_claim: i64,
    /// Amount reserved for in-flight bridge requests.
    pub pending_cross_chain_transfers: u64,
    /// Amount confirmed moved to another chain.
    pub cross_chain_deposits: u64,
}

/// Lifecycle of a bridge request. `Processing` is a declared status that no
/// operation currently assigns; it is kept as an extension point.
#[derive(Clone, Copy, PartialEq, Eq, Structural, Debug)]
pub enum BridgeStatus {
    Pending,
    Processing,
    Completed,
    Failed,
}

/// One reservation of depositor funds pending cross-chain resolution,
/// created by the depositor and resolved only by the authority. The record
/// store admits at most one outstanding request per depositor.
#[derive(Clone, Copy, PartialEq, Eq, Debug)]
pub struct BridgeRequest {
    pub user: Key,
    /// Small integer chain code of the destination chain.
    pub target_chain: u8,
    pub amount: u64,
    /// Opaque destination identifier on the target chain.
    pub target_address: Key,
    pub status: BridgeStatus,
    pub created_at: i64,
    pub completed_at: i64,
}

/// Why an operation was refused. `InvalidBridgeRequest` and
/// `CrossChainTransferFailed` are declared for validation not yet wired
/// into any operation.
#[derive(Clone, Copy, PartialEq, Eq, Structural, Debug)]
pub enum ErrorCode {
    /// A withdrawal or bridge initiation exceeds the withdrawable principal.
    InsufficientBalance,
    /// The computed accrual is zero.
    NoYieldToClaim,
    /// The caller identity does not match the stored authority.
    Unauthorized,
    InvalidBridgeRequest,
    CrossChainTransferFailed,
}

/// The depositor record as the durable store hands it out on first use:
/// everything zero but the owning identity.
pub open spec fn fresh_user_state(user: Key) -> UserState {
    UserState {
        user,
        deposited_amount: 0,
        total_yield_claimed: 0,
        last_deposit_timestamp: 0,
        last_withdrawal_timestamp: 0,
        last_yield_claim: 0,
        pending_cross_chain_transfers: 0,
        cross_chain_deposits: 0,
    }
}

impl UserState {
    /// A depositor record created on first deposit, before any funds move.
    pub fn new(user: Key) -> (u: UserState)
        ensures
            u == fresh_user_state(user),
    {
        UserState {
            user,
            deposited_amount: 0,
            total_yield_claimed: 0,
            last_deposit_timestamp: 0,
            last_withdrawal_timestamp: 0,
            last_yield_claim: 0,
            pending_cross_chain_transfers: 0,
            cross_chain_deposits: 0,
        }
    }
}

} // verus!
