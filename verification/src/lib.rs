//! Accounting and lifecycle engine of a pooled-lending protocol.
//!
//! Depositors fund a shared escrow vault; borrowers draw fixed-term,
//! interest-bearing loans against that escrow; loans accrue simple interest,
//! get repaid or expire, and trigger fee splits between depositors and a
//! treasury.  This crate holds the protocol state machine itself — the
//! arithmetic of interest accrual, the liquidity and authorization invariants
//! guarding every fund movement, and the multi-step handoff of
//! artifact-ownership rights tied to loan repayment — as verified, pure state
//! transitions.  The surrounding ledger runtime (account ownership and
//! signature checks, atomic currency transfers, the clock, event delivery) is
//! an external collaborator: each operation takes the caller's identity and
//! the current time as plain values, and returns the notification describing
//! the fund movements the runtime must perform.

pub mod events;
pub mod interest;
pub mod laws;
pub mod ops;
pub mod state;

pub use events::{
    AuthorityTransferred, ConfigUpdated, Deposited, LoanDeployed, LoanRecovered, LoanRepaid,
    LoanRequested, ProtocolInitialized, ProtocolPausedChanged, SolReclaimed, Withdrawn,
};
pub use interest::{calculate_interest, SECONDS_PER_YEAR};
pub use ops::{
    deposit, distribute_yield, initialize, recover_loan, repay_loan, request_loan,
    return_reclaimed_sol, set_deployed_program, set_paused, transfer_authority_to_borrower,
    update_config, withdraw,
};
pub use state::{AccountId, DepositorRecord, ErrorCode, Loan, LoanState, ProtocolConfig};
