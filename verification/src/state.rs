//! The three ledgers of the protocol: the singleton configuration with the
//! pool totals, one record per depositor, and one record per loan.

use vstd::prelude::*;

verus! {

/// Identity of an account known to the ledger runtime (an administrator, a
/// depositor, a borrower, a treasury, or a financed artifact).  The runtime
/// derives and checks these; the protocol logic only stores and compares
/// them.
pub type AccountId = u64;

/// Life cycle of a loan.
///
/// `Pending`: requested, artifact not yet confirmed deployed.
/// `Active`: artifact confirmed, interest accruing.
/// `RepaidPendingTransfer`: principal and interest paid, ownership handoff
/// not yet executed.
/// `Repaid`: terminal, ownership returned to the borrower.
/// `Recovered`: terminal, the loan expired unpaid and its admin fee was
/// distributed.
#[derive(Clone, Copy, Debug, PartialEq, Eq, Structural)]
pub enum LoanState {
    Active,
    Repaid,
    Recovered,
    Pending,
    RepaidPendingTransfer,
}

/// The process-wide singleton: identities, fee parameters, pool totals, and
/// the pause state.  Created once by `initialize`; mutated by every
/// deposit, withdrawal, and loan operation, and by the admin configuration
/// calls; never destroyed.
#[derive(Clone, Copy, Debug, PartialEq, Eq, Structural)]
pub struct ProtocolConfig {
    pub admin: AccountId,
    pub treasury: AccountId,
    pub deployer: AccountId,
    /// Share of a recovered loan's admin fee that goes to depositors rather
    /// than the treasury, in basis points (0–10000).
    pub admin_fee_split_bps: u16,
    pub default_interest_rate_bps: u16,
    pub default_admin_fee_bps: u16,
    pub total_deposits: u64,
    pub total_loans_outstanding: u64,
    pub total_yield_distributed: u64,
    /// Monotonic counter assigning the next loan's id.
    pub loan_counter: u64,
    pub is_paused: bool,
}

/// One record per depositor: contributed principal and share balance.
/// Created on first deposit, mutated by deposits and withdrawals, never
/// destroyed (the balance may fall to zero).
#[derive(Clone, Copy, Debug, PartialEq, Eq, Structural)]
pub struct DepositorRecord {
    pub owner: AccountId,
    pub deposited_amount: u64,
    /// Claim on the vault; priced 1:1 with deposited principal in this
    /// version.
    pub share_amount: u64,
    pub last_update_ts: i64,
}

/// One record per loan: its terms, its state machine, and its accrued
/// bookkeeping.  Created by `request_loan`, mutated through its state
/// machine, never destroyed (retained as an audit record).
#[derive(Clone, Copy, Debug, PartialEq, Eq, Structural)]
pub struct Loan {
    /// Unique id, assigned from the ledger's monotonic counter at request
    /// time.
    pub loan_id: u64,
    pub borrower: AccountId,
    /// Identity of the financed artifact; unset until deployment is
    /// confirmed.
    pub program_pubkey: Option<AccountId>,
    pub principal: u64,
    /// Term of the loan in seconds, fixed at origination.
    pub duration: i64,
    pub interest_rate_bps: u16,
    pub admin_fee_bps: u16,
    /// Upfront fee collected at origination, split on recovery.
    pub admin_fee_paid: u64,
    pub start_ts: i64,
    pub state: LoanState,
    pub repaid_ts: Option<i64>,
    pub recovered_ts: Option<i64>,
    pub interest_paid: Option<u64>,
    pub reclaimed_amount: Option<u64>,
    pub reclaimed_ts: Option<i64>,
}

/// Typed failure reasons.  Every operation is fail-fast: on any error the
/// transaction leaves no observable side effect.
#[derive(Clone, Copy, Debug, PartialEq, Eq, Structural)]
pub enum ErrorCode {
    /// Protocol is currently paused.
    ProtocolPaused,
    /// Invalid amount provided.
    InvalidAmount,
    /// Insufficient balance.
    InsufficientBalance,
    /// Insufficient liquidity in the vault.
    InsufficientLiquidity,
    /// Invalid duration.
    InvalidDuration,
    /// Invalid interest rate.
    InvalidInterestRate,
    /// Invalid admin fee.
    InvalidAdminFee,
    /// Loan is not in the state the operation requires.
    LoanNotActive,
    /// Unauthorized borrower.
    UnauthorizedBorrower,
    /// Loan has not expired yet.
    LoanNotExpired,
    /// Loan has not been recovered.
    LoanNotRecovered,
    /// Loan has not been repaid.
    LoanNotRepaid,
    /// Unauthorized action.
    Unauthorized,
    /// Invalid parameter.
    InvalidParameter,
    /// Unauthorized depositor.
    UnauthorizedDepositor,
    /// Invalid loan id.
    InvalidLoanId,
    /// Program already set for this loan.
    ProgramAlreadySet,
    /// Invalid program pubkey.
    InvalidProgram,
    /// The computation would overflow a 64-bit amount; the transaction
    /// aborts rather than letting the ledger wrap.
    ArithmeticOverflow,
}

/// Liquidity available for withdrawals and new loan principal: pooled
/// deposits not currently lent out.
pub open spec fn available_liquidity(c: ProtocolConfig) -> int {
    if c.total_loans_outstanding <= c.total_deposits {
        c.total_deposits - c.total_loans_outstanding
    } else {
        0
    }
}

/// Pool solvency: liabilities never exceed pooled assets.  Established by
/// `initialize` and preserved by every operation.
pub open spec fn solvent(c: ProtocolConfig) -> bool {
    c.total_loans_outstanding <= c.total_deposits
}

/// The configured fee parameters are valid basis-point values.
/// `initialize` establishes this and `update_config` preserves it.
pub open spec fn fee_params_valid(c: ProtocolConfig) -> bool {
    &&& c.admin_fee_split_bps <= 10000
    &&& c.default_interest_rate_bps <= 10000
    &&& c.default_admin_fee_bps <= 10000
}

/// A basis-point share of an amount, rounded toward zero.
pub open spec fn bps_share(amount: int, bps: int) -> int {
    (amount * bps) / 10000
}

/// Currency already reclaimed for a loan, zero while none has been returned.
pub open spec fn reclaimed_so_far(loan: Loan) -> u64 {
    match loan.reclaimed_amount {
        Some(v) => v,
        None => 0,
    }
}

/// Whether a deposit of `amount` applies to a depositor record: positive and
/// within the 64-bit balance bounds.
pub open spec fn record_deposit_applies(r: DepositorRecord, amount: u64) -> bool {
    &&& amount > 0
    &&& r.deposited_amount + amount <= u64::MAX
    &&& r.share_amount + amount <= u64::MAX
}

/// A depositor record after a deposit of `amount` is credited: both the
/// contributed principal and the share balance grow by `amount` (shares are
/// priced 1:1).
pub open spec fn record_after_deposit(
    r: DepositorRecord,
    owner: AccountId,
    amount: u64,
    now: i64,
) -> DepositorRecord {
    DepositorRecord {
        owner,
        deposited_amount: (r.deposited_amount + amount) as u64,
        share_amount: (r.share_amount + amount) as u64,
        last_update_ts: now,
    }
}

/// Whether a withdrawal of `amount` applies to a depositor record: covered
/// by the record's share balance.
pub open spec fn record_withdraw_applies(r: DepositorRecord, amount: u64) -> bool {
    amount <= r.share_amount
}

/// A depositor record after a withdrawal of `amount`: the share balance
/// falls by `amount` and the contributed principal falls with it,
/// saturating at zero.
pub open spec fn record_after_withdraw(r: DepositorRecord, amount: u64, now: i64) -> DepositorRecord {
    DepositorRecord {
        owner: r.owner,
        deposited_amount: if amount <= r.deposited_amount {
            (r.deposited_amount - amount) as u64
        } else {
            0
        },
        share_amount: (r.share_amount - amount) as u64,
        last_update_ts: now,
    }
}

} // verus!
