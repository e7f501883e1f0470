//! Structured notifications.  Each successful operation returns exactly one,
//! carrying the fields the ledger runtime publishes and the fund movements it
//! must perform.

use crate::state::AccountId;
use vstd::prelude::*;

verus! {

/// The protocol singleton was created.
#[derive(Clone, Copy, Debug, PartialEq, Eq, Structural)]
pub struct ProtocolInitialized {
    pub admin: AccountId,
    pub treasury: AccountId,
}

/// `amount` moved from the depositor into the vault.
#[derive(Clone, Copy, Debug, PartialEq, Eq, Structural)]
pub struct Deposited {
    pub depositor: AccountId,
    pub amount: u64,
    pub total_deposits: u64,
}

/// `amount` moved from the vault back to the depositor.
#[derive(Clone, Copy, Debug, PartialEq, Eq, Structural)]
pub struct Withdrawn {
    pub depositor: AccountId,
    pub amount: u64,
    pub remaining_balance: u64,
}

/// A loan was originated: `admin_fee` moved from the borrower to the admin
/// fee pool and `principal` moved from the vault to the deployment agent.
#[derive(Clone, Copy, Debug, PartialEq, Eq, Structural)]
pub struct LoanRequested {
    pub borrower: AccountId,
    pub loan_id: u64,
    pub principal: u64,
    pub duration: i64,
    pub interest_rate_bps: u16,
    pub admin_fee: u64,
}

/// The financed artifact was confirmed deployed.
#[derive(Clone, Copy, Debug, PartialEq, Eq, Structural)]
pub struct LoanDeployed {
    pub loan_id: u64,
    pub program_pubkey: AccountId,
}

/// `total_repaid` moved from the borrower into the vault.
#[derive(Clone, Copy, Debug, PartialEq, Eq, Structural)]
pub struct LoanRepaid {
    pub loan_id: u64,
    pub total_repaid: u64,
    pub interest_paid: u64,
}

/// An expired loan was recovered: `treasury_share` moved from the admin fee
/// pool to the treasury and `depositor_share` was folded into cumulative
/// yield.
#[derive(Clone, Copy, Debug, PartialEq, Eq, Structural)]
pub struct LoanRecovered {
    pub loan_id: u64,
    pub admin_fee_distributed: u64,
    pub depositor_share: u64,
    pub treasury_share: u64,
}

/// Ownership authority over the financed artifact moved to `new_authority`.
#[derive(Clone, Copy, Debug, PartialEq, Eq, Structural)]
pub struct AuthorityTransferred {
    pub program_pubkey: AccountId,
    pub new_authority: AccountId,
}

/// `amount` of reclaimed currency moved from the deployment agent's holding
/// identity back into the vault.
#[derive(Clone, Copy, Debug, PartialEq, Eq, Structural)]
pub struct SolReclaimed {
    pub loan_id: u64,
    pub amount: u64,
    pub total_reclaimed: u64,
}

/// The pause flag changed.
#[derive(Clone, Copy, Debug, PartialEq, Eq, Structural)]
pub struct ProtocolPausedChanged {
    pub is_paused: bool,
}

/// The fee and rate configuration after an `update_config` call.
#[derive(Clone, Copy, Debug, PartialEq, Eq, Structural)]
pub struct ConfigUpdated {
    pub admin_fee_split_bps: u16,
    pub default_interest_rate_bps: u16,
    pub default_admin_fee_bps: u16,
}

} // verus!
