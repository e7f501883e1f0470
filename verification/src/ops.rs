//! The protocol operations.  Each one is the decision-and-bookkeeping core
//! of a single atomic transaction: it validates, mutates the ledgers, and
//! returns the notification describing the fund movements the runtime
//! performs — or an error, in which case nothing changed.

use crate::events::{
    AuthorityTransferred, ConfigUpdated, Deposited, LoanDeployed, LoanRecovered, LoanRepaid,
    LoanRequested, ProtocolInitialized, ProtocolPausedChanged, SolReclaimed, Withdrawn,
};
use crate::interest::{accrued_interest, interest_checked};
use crate::state::{
    available_liquidity, bps_share, fee_params_valid, reclaimed_so_far, record_after_deposit,
    record_after_withdraw, record_deposit_applies, solvent, AccountId, DepositorRecord, ErrorCode,
    Loan, LoanState, ProtocolConfig,
};
use vstd::arithmetic::div_mod::{lemma_div_by_multiple, lemma_div_is_ordered};
use vstd::prelude::*;

verus! {

/// Creates the protocol singleton with all totals zeroed and the pause flag
/// clear.  The fee parameters are basis points and must not exceed 10000.
pub fn initialize(
    admin: AccountId,
    treasury: AccountId,
    deployer: AccountId,
    admin_fee_split_bps: u16,
    default_interest_rate_bps: u16,
    default_admin_fee_bps: u16,
) -> (r: Result<(ProtocolConfig, ProtocolInitialized), ErrorCode>)
    ensures
        r is Ok <==> admin_fee_split_bps <= 10000 && default_interest_rate_bps <= 10000
            && default_admin_fee_bps <= 10000,
        r is Err ==> r == Err::<(ProtocolConfig, ProtocolInitialized), ErrorCode>(
            ErrorCode::InvalidParameter,
        ),
        r matches Ok((config, ev)) ==> {
            &&& config == (ProtocolConfig {
                admin,
                treasury,
                deployer,
                admin_fee_split_bps,
                default_interest_rate_bps,
                default_admin_fee_bps,
                total_deposits: 0,
                total_loans_outstanding: 0,
                total_yield_distributed: 0,
                loan_counter: 0,
                is_paused: false,
            })
            &&& solvent(config)
            &&& fee_params_valid(config)
            &&& ev == (ProtocolInitialized { admin, treasury })
        },
{
    if admin_fee_split_bps > 10000 || default_interest_rate_bps > 10000 || default_admin_fee_bps
        > 10000 {
        return Err(ErrorCode::InvalidParameter);
    }
    let config = ProtocolConfig {
        admin,
        treasury,
        deployer,
        admin_fee_split_bps,
        default_interest_rate_bps,
        default_admin_fee_bps,
        total_deposits: 0,
        total_loans_outstanding: 0,
        total_yield_distributed: 0,
        loan_counter: 0,
        is_paused: false,
    };
    Ok((config, ProtocolInitialized { admin, treasury }))
}

/// Credits a deposit: `amount` moves from the depositor into the vault, the
/// depositor's record grows 1:1 in principal and shares, and the pool total
/// grows by `amount`.
pub fn deposit(
    config: &mut ProtocolConfig,
    record: &mut DepositorRecord,
    depositor: AccountId,
    amount: u64,
    now: i64,
) -> (r: Result<Deposited, ErrorCode>)
    ensures
        r is Err ==> *final(config) == *old(config) && *final(record) == *old(record),
        r is Ok <==> {
            &&& !old(config).is_paused
            &&& record_deposit_applies(*old(record), amount)
            &&& old(config).total_deposits + amount <= u64::MAX
        },
        old(config).is_paused ==> r == Err::<Deposited, ErrorCode>(ErrorCode::ProtocolPaused),
        !old(config).is_paused && amount == 0 ==> r == Err::<Deposited, ErrorCode>(
            ErrorCode::InvalidAmount,
        ),
        !old(config).is_paused && amount > 0 && !(record_deposit_applies(*old(record), amount)
            && old(config).total_deposits + amount <= u64::MAX) ==> r == Err::<
            Deposited,
            ErrorCode,
        >(ErrorCode::ArithmeticOverflow),
        r is Ok ==> *final(record) == record_after_deposit(*old(record), depositor, amount, now),
        r is Ok ==> *final(config) == (ProtocolConfig {
            total_deposits: (old(config).total_deposits + amount) as u64,
            ..*old(config)
        }),
        r is Ok ==> r == Ok::<Deposited, ErrorCode>(Deposited {
            depositor,
            amount,
            total_deposits: (old(config).total_deposits + amount) as u64,
        }),
        solvent(*old(config)) ==> solvent(*final(config)),
        old(record).deposited_amount == old(record).share_amount
            ==> final(record).deposited_amount == final(record).share_amount,
{
    if config.is_paused {
        return Err(ErrorCode::ProtocolPaused);
    }
    if amount == 0 {
        return Err(ErrorCode::InvalidAmount);
    }
    let new_deposited = record.deposited_amount.checked_add(amount);
    let new_share = record.share_amount.checked_add(amount);
    let new_total = config.total_deposits.checked_add(amount);
    if new_deposited.is_none() || new_share.is_none() || new_total.is_none() {
        return Err(ErrorCode::ArithmeticOverflow);
    }
    record.owner = depositor;
    record.deposited_amount = new_deposited.unwrap();
    record.share_amount = new_share.unwrap();
    record.last_update_ts = now;
    config.total_deposits = new_total.unwrap();
    Ok(Deposited { depositor, amount, total_deposits: config.total_deposits })
}

/// Honors a withdrawal: `amount` moves from the vault back to the owning
/// depositor, the record's balances fall (saturating, never below zero), and
/// the pool total falls by `amount`.  The withdrawal must be covered both by
/// the depositor's share balance and by the pool's available liquidity.
pub fn withdraw(
    config: &mut ProtocolConfig,
    record: &mut DepositorRecord,
    depositor: AccountId,
    amount: u64,
    now: i64,
) -> (r: Result<Withdrawn, ErrorCode>)
    ensures
        r is Err ==> *final(config) == *old(config) && *final(record) == *old(record),
        r is Ok <==> {
            &&& old(record).owner == depositor
            &&& !old(config).is_paused
            &&& amount <= old(record).share_amount
            &&& amount <= available_liquidity(*old(config))
        },
        old(record).owner != depositor ==> r == Err::<Withdrawn, ErrorCode>(
            ErrorCode::UnauthorizedDepositor,
        ),
        old(record).owner == depositor && old(config).is_paused ==> r == Err::<
            Withdrawn,
            ErrorCode,
        >(ErrorCode::ProtocolPaused),
        old(record).owner == depositor && !old(config).is_paused
            && amount > old(record).share_amount
            ==> r == Err::<Withdrawn, ErrorCode>(ErrorCode::InsufficientBalance),
        old(record).owner == depositor && !old(config).is_paused
            && amount <= old(record).share_amount
            && amount > available_liquidity(*old(config))
            ==> r == Err::<Withdrawn, ErrorCode>(ErrorCode::InsufficientLiquidity),
        r is Ok ==> *final(record) == record_after_withdraw(*old(record), amount, now),
        r is Ok ==> *final(config) == (ProtocolConfig {
            total_deposits: (old(config).total_deposits - amount) as u64,
            ..*old(config)
        }),
        r is Ok ==> r == Ok::<Withdrawn, ErrorCode>(Withdrawn {
            depositor,
            amount,
            remaining_balance: (old(record).share_amount - amount) as u64,
        }),
        solvent(*old(config)) ==> solvent(*final(config)),
        old(record).deposited_amount == old(record).share_amount
            ==> final(record).deposited_amount == final(record).share_amount,
{
    if record.owner != depositor {
        return Err(ErrorCode::UnauthorizedDepositor);
    }
    if config.is_paused {
        return Err(ErrorCode::ProtocolPaused);
    }
    if amount > record.share_amount {
        return Err(ErrorCode::InsufficientBalance);
    }
    let available = config.total_deposits.saturating_sub(config.total_loans_outstanding);
    if amount > available {
        return Err(ErrorCode::InsufficientLiquidity);
    }
    record.share_amount = record.share_amount - amount;
    record.deposited_amount = record.deposited_amount.saturating_sub(amount);
    record.last_update_ts = now;
    config.total_deposits = config.total_deposits - amount;
    Ok(Withdrawn { depositor, amount, remaining_balance: record.share_amount })
}

/// Originates a loan: the upfront admin fee (a basis-point share of the
/// principal) moves from the borrower to the admin fee pool, the principal
/// moves from the vault to the deployment agent, and a `Pending` loan record
/// is created under the next loan id.  The principal must not exceed the
/// pool's available liquidity.
pub fn request_loan(
    config: &mut ProtocolConfig,
    borrower: AccountId,
    principal: u64,
    duration: i64,
    interest_rate_bps: u16,
    admin_fee_bps: u16,
    now: i64,
) -> (r: Result<(Loan, LoanRequested), ErrorCode>)
    ensures
        r is Err ==> *final(config) == *old(config),
        r is Ok <==> {
            &&& !old(config).is_paused
            &&& principal > 0
            &&& duration > 0
            &&& interest_rate_bps <= 10000
            &&& admin_fee_bps <= 10000
            &&& principal <= available_liquidity(*old(config))
            &&& old(config).loan_counter < u64::MAX
        },
        old(config).is_paused ==> r == Err::<(Loan, LoanRequested), ErrorCode>(
            ErrorCode::ProtocolPaused,
        ),
        !old(config).is_paused && principal == 0 ==> r == Err::<(Loan, LoanRequested), ErrorCode>(
            ErrorCode::InvalidAmount,
        ),
        !old(config).is_paused && principal > 0 && duration <= 0 ==> r == Err::<
            (Loan, LoanRequested),
            ErrorCode,
        >(ErrorCode::InvalidDuration),
        !old(config).is_paused && principal > 0 && duration > 0 && interest_rate_bps > 10000
            ==> r == Err::<(Loan, LoanRequested), ErrorCode>(ErrorCode::InvalidInterestRate),
        !old(config).is_paused && principal > 0 && duration > 0 && interest_rate_bps <= 10000
            && admin_fee_bps > 10000 ==> r == Err::<(Loan, LoanRequested), ErrorCode>(
            ErrorCode::InvalidAdminFee,
        ),
        !old(config).is_paused && principal > 0 && duration > 0 && interest_rate_bps <= 10000
            && admin_fee_bps <= 10000 && principal > available_liquidity(*old(config)) ==> r
            == Err::<(Loan, LoanRequested), ErrorCode>(ErrorCode::InsufficientLiquidity),
        !old(config).is_paused && principal > 0 && duration > 0 && interest_rate_bps <= 10000
            && admin_fee_bps <= 10000 && principal <= available_liquidity(*old(config)) && old(config).loan_counter == u64::MAX ==> r == Err::<(Loan, LoanRequested), ErrorCode>(
            ErrorCode::ArithmeticOverflow,
        ),
        r matches Ok((loan, ev)) ==> {
            &&& loan == (Loan {
                loan_id: old(config).loan_counter,
                borrower,
                program_pubkey: None,
                principal,
                duration,
                interest_rate_bps,
                admin_fee_bps,
                admin_fee_paid: bps_share(principal as int, admin_fee_bps as int) as u64,
                start_ts: now,
                state: LoanState::Pending,
                repaid_ts: None,
                recovered_ts: None,
                interest_paid: None,
                reclaimed_amount: None,
                reclaimed_ts: None,
            })
            &&& *final(config) == (ProtocolConfig {
                total_loans_outstanding: (old(config).total_loans_outstanding + principal) as u64,
                loan_counter: (old(config).loan_counter + 1) as u64,
                ..*old(config)
            })
            &&& ev == (LoanRequested {
                borrower,
                loan_id: old(config).loan_counter,
                principal,
                duration,
                interest_rate_bps,
                admin_fee: loan.admin_fee_paid,
            })
        },
        solvent(*old(config)) ==> solvent(*final(config)),
{
    if config.is_paused {
        return Err(ErrorCode::ProtocolPaused);
    }
    if principal == 0 {
        return Err(ErrorCode::InvalidAmount);
    }
    if duration <= 0 {
        return Err(ErrorCode::InvalidDuration);
    }
    if interest_rate_bps > 10000 {
        return Err(ErrorCode::InvalidInterestRate);
    }
    if admin_fee_bps > 10000 {
        return Err(ErrorCode::InvalidAdminFee);
    }
    let available = config.total_deposits.saturating_sub(config.total_loans_outstanding);
    if principal > available {
        return Err(ErrorCode::InsufficientLiquidity);
    }
    if config.loan_counter == u64::MAX {
        return Err(ErrorCode::ArithmeticOverflow);
    }
    proof {
        let p = principal as int;
        let f = admin_fee_bps as int;
        assert(p * f <= p * 10000) by (nonlinear_arith)
            requires
                0 <= p,
                f <= 10000,
        ;
        lemma_div_is_ordered(p * f, p * 10000, 10000);
        lemma_div_by_multiple(p, 10000);
    }
    let admin_fee: u64 = ((principal as u128) * (admin_fee_bps as u128) / 10_000u128) as u64;
    let loan = Loan {
        loan_id: config.loan_counter,
        borrower,
        program_pubkey: None,
        principal,
        duration,
        interest_rate_bps,
        admin_fee_bps,
        admin_fee_paid: admin_fee,
        start_ts: now,
        state: LoanState::Pending,
        repaid_ts: None,
        recovered_ts: None,
        interest_paid: None,
        reclaimed_amount: None,
        reclaimed_ts: None,
    };
    let ev = LoanRequested {
        borrower,
        loan_id: loan.loan_id,
        principal,
        duration,
        interest_rate_bps,
        admin_fee,
    };
    config.total_loans_outstanding = config.total_loans_outstanding + principal;
    config.loan_counter = config.loan_counter + 1;
    Ok((loan, ev))
}

/// Confirms the financed artifact as deployed: records its identity and
/// moves the loan from `Pending` to `Active`, from which interest accrues.
/// Only the administrator may confirm, and only once per loan.
pub fn set_deployed_program(
    config: &ProtocolConfig,
    loan: &mut Loan,
    caller: AccountId,
    loan_id: u64,
    program_pubkey: AccountId,
) -> (r: Result<LoanDeployed, ErrorCode>)
    ensures
        r is Err ==> *final(loan) == *old(loan),
        r is Ok <==> {
            &&& caller == config.admin
            &&& old(loan).loan_id == loan_id
            &&& old(loan).program_pubkey is None
            &&& old(loan).state is Pending
        },
        caller != config.admin ==> r == Err::<LoanDeployed, ErrorCode>(ErrorCode::Unauthorized),
        caller == config.admin && old(loan).loan_id != loan_id ==> r == Err::<
            LoanDeployed,
            ErrorCode,
        >(ErrorCode::InvalidLoanId),
        caller == config.admin && old(loan).loan_id == loan_id && old(loan).program_pubkey is Some
            ==> r == Err::<LoanDeployed, ErrorCode>(ErrorCode::ProgramAlreadySet),
        caller == config.admin && old(loan).loan_id == loan_id && old(loan).program_pubkey is None
            && !(old(loan).state is Pending) ==> r == Err::<LoanDeployed, ErrorCode>(
            ErrorCode::LoanNotActive,
        ),
        r is Ok ==> *final(loan) == (Loan {
            program_pubkey: Some(program_pubkey),
            state: LoanState::Active,
            ..*old(loan)
        }),
        r is Ok ==> r == Ok::<LoanDeployed, ErrorCode>(LoanDeployed { loan_id, program_pubkey }),
{
    if caller != config.admin {
        return Err(ErrorCode::Unauthorized);
    }
    if loan.loan_id != loan_id {
        return Err(ErrorCode::InvalidLoanId);
    }
    if loan.program_pubkey.is_some() {
        return Err(ErrorCode::ProgramAlreadySet);
    }
    if loan.state != LoanState::Pending {
        return Err(ErrorCode::LoanNotActive);
    }
    loan.program_pubkey = Some(program_pubkey);
    loan.state = LoanState::Active;
    Ok(LoanDeployed { loan_id, program_pubkey })
}

/// Settles an `Active` loan: principal plus accrued interest moves from the
/// borrower back into the vault, the interest is folded into cumulative
/// yield, the principal leaves the outstanding total, and the loan waits in
/// `RepaidPendingTransfer` for the ownership handoff.
pub fn repay_loan(
    config: &mut ProtocolConfig,
    loan: &mut Loan,
    borrower: AccountId,
    loan_id: u64,
    now: i64,
) -> (r: Result<LoanRepaid, ErrorCode>)
    ensures
        r is Err ==> *final(config) == *old(config) && *final(loan) == *old(loan),
        r is Ok <==> {
            &&& !old(config).is_paused
            &&& old(loan).state is Active
            &&& old(loan).borrower == borrower
            &&& old(loan).loan_id == loan_id
            &&& now >= old(loan).start_ts
            &&& accrued_interest(*old(loan), now) <= u64::MAX
            &&& old(loan).principal + accrued_interest(*old(loan), now) <= u64::MAX
            &&& old(loan).principal <= old(config).total_loans_outstanding
            &&& (old(config).total_deposits > 0 && accrued_interest(*old(loan), now) > 0 ==> old(config).total_yield_distributed + accrued_interest(*old(loan), now) <= u64::MAX)
        },
        old(config).is_paused ==> r == Err::<LoanRepaid, ErrorCode>(ErrorCode::ProtocolPaused),
        !old(config).is_paused && !(old(loan).state is Active) ==> r == Err::<
            LoanRepaid,
            ErrorCode,
        >(ErrorCode::LoanNotActive),
        !old(config).is_paused && old(loan).state is Active && old(loan).borrower != borrower ==> r
            == Err::<LoanRepaid, ErrorCode>(ErrorCode::UnauthorizedBorrower),
        !old(config).is_paused && old(loan).state is Active && old(loan).borrower == borrower
            && old(loan).loan_id != loan_id ==> r == Err::<LoanRepaid, ErrorCode>(
            ErrorCode::InvalidLoanId,
        ),
        !old(config).is_paused && old(loan).state is Active && old(loan).borrower == borrower
            && old(loan).loan_id == loan_id && r is Err ==> r == Err::<LoanRepaid, ErrorCode>(
            ErrorCode::ArithmeticOverflow,
        ),
        r is Ok ==> *final(loan) == (Loan {
            state: LoanState::RepaidPendingTransfer,
            repaid_ts: Some(now),
            interest_paid: Some(accrued_interest(*old(loan), now) as u64),
            ..*old(loan)
        }),
        r is Ok ==> *final(config) == (ProtocolConfig {
            total_loans_outstanding: (old(config).total_loans_outstanding - old(loan).principal) as u64,
            total_yield_distributed: if old(config).total_deposits > 0 && accrued_interest(
                *old(loan),
                now,
            ) > 0 {
                (old(config).total_yield_distributed + accrued_interest(*old(loan), now)) as u64
            } else {
                old(config).total_yield_distributed
            },
            ..*old(config)
        }),
        r is Ok ==> r == Ok::<LoanRepaid, ErrorCode>(LoanRepaid {
            loan_id: old(loan).loan_id,
            total_repaid: (old(loan).principal + accrued_interest(*old(loan), now)) as u64,
            interest_paid: accrued_interest(*old(loan), now) as u64,
        }),
        solvent(*old(config)) ==> solvent(*final(config)),
{
    if config.is_paused {
        return Err(ErrorCode::ProtocolPaused);
    }
    if loan.state != LoanState::Active {
        return Err(ErrorCode::LoanNotActive);
    }
    if loan.borrower != borrower {
        return Err(ErrorCode::UnauthorizedBorrower);
    }
    if loan.loan_id != loan_id {
        return Err(ErrorCode::InvalidLoanId);
    }
    if now < loan.start_ts {
        return Err(ErrorCode::ArithmeticOverflow);
    }
    let elapsed: u64 = ((now as i128) - (loan.start_ts as i128)) as u64;
    let maybe_interest = interest_checked(loan.principal, loan.interest_rate_bps, elapsed);
    if maybe_interest.is_none() {
        return Err(ErrorCode::ArithmeticOverflow);
    }
    let interest_amt = maybe_interest.unwrap();
    let maybe_total = loan.principal.checked_add(interest_amt);
    if maybe_total.is_none() {
        return Err(ErrorCode::ArithmeticOverflow);
    }
    let total_due = maybe_total.unwrap();
    if loan.principal > config.total_loans_outstanding {
        return Err(ErrorCode::ArithmeticOverflow);
    }
    if config.total_deposits > 0 && interest_amt > 0 {
        if config.total_yield_distributed.checked_add(interest_amt).is_none() {
            return Err(ErrorCode::ArithmeticOverflow);
        }
    }
    distribute_yield(config, interest_amt);
    config.total_loans_outstanding = config.total_loans_outstanding - loan.principal;
    loan.state = LoanState::RepaidPendingTransfer;
    loan.repaid_ts = Some(now);
    loan.interest_paid = Some(interest_amt);
    Ok(LoanRepaid { loan_id: loan.loan_id, total_repaid: total_due, interest_paid: interest_amt })
}

/// Executes the ownership handoff for a settled loan: the deployment agent
/// moves the artifact's ownership authority to the borrower, and the loan
/// reaches its terminal `Repaid` state.
pub fn transfer_authority_to_borrower(
    config: &ProtocolConfig,
    loan: &mut Loan,
    caller: AccountId,
    loan_id: u64,
) -> (r: Result<AuthorityTransferred, ErrorCode>)
    ensures
        r is Err ==> *final(loan) == *old(loan),
        r is Ok <==> {
            &&& caller == config.deployer
            &&& old(loan).state is RepaidPendingTransfer
            &&& old(loan).loan_id == loan_id
            &&& old(loan).program_pubkey is Some
        },
        caller != config.deployer ==> r == Err::<AuthorityTransferred, ErrorCode>(
            ErrorCode::Unauthorized,
        ),
        caller == config.deployer && !(old(loan).state is RepaidPendingTransfer) ==> r == Err::<
            AuthorityTransferred,
            ErrorCode,
        >(ErrorCode::LoanNotRepaid),
        caller == config.deployer && old(loan).state is RepaidPendingTransfer && old(loan).loan_id
            != loan_id ==> r == Err::<AuthorityTransferred, ErrorCode>(ErrorCode::InvalidLoanId),
        caller == config.deployer && old(loan).state is RepaidPendingTransfer && old(loan).loan_id
            == loan_id && old(loan).program_pubkey is None ==> r == Err::<
            AuthorityTransferred,
            ErrorCode,
        >(ErrorCode::InvalidProgram),
        r is Ok ==> *final(loan) == (Loan { state: LoanState::Repaid, ..*old(loan) }),
        r is Ok ==> (old(loan).program_pubkey matches Some(pk) && r == Ok::<
            AuthorityTransferred,
            ErrorCode,
        >(AuthorityTransferred { program_pubkey: pk, new_authority: old(loan).borrower })),
{
    if caller != config.deployer {
        return Err(ErrorCode::Unauthorized);
    }
    if loan.state != LoanState::RepaidPendingTransfer {
        return Err(ErrorCode::LoanNotRepaid);
    }
    if loan.loan_id != loan_id {
        return Err(ErrorCode::InvalidLoanId);
    }
    if loan.program_pubkey.is_none() {
        return Err(ErrorCode::InvalidProgram);
    }
    let pk = loan.program_pubkey.unwrap();
    loan.state = LoanState::Repaid;
    Ok(AuthorityTransferred { program_pubkey: pk, new_authority: loan.borrower })
}

/// Recovers an expired loan: the collected admin fee is split between the
/// depositors (folded into cumulative yield) and the treasury, the principal
/// leaves the outstanding total, and the loan reaches its terminal
/// `Recovered` state.  Requires both the administrator and the deployment
/// agent, and a loan past `start_ts + duration`.
pub fn recover_loan(
    config: &mut ProtocolConfig,
    loan: &mut Loan,
    admin: AccountId,
    deployer: AccountId,
    now: i64,
) -> (r: Result<LoanRecovered, ErrorCode>)
    ensures
        r is Err ==> *final(config) == *old(config) && *final(loan) == *old(loan),
        r is Ok <==> {
            &&& admin == old(config).admin
            &&& deployer == old(config).deployer
            &&& !old(config).is_paused
            &&& (old(loan).state is Active || old(loan).state is Pending)
            &&& now >= old(loan).start_ts + old(loan).duration
            &&& bps_share(old(loan).admin_fee_paid as int, old(config).admin_fee_split_bps as int)
                <= old(loan).admin_fee_paid
            &&& old(loan).principal <= old(config).total_loans_outstanding
            &&& {
                let share = bps_share(
                    old(loan).admin_fee_paid as int,
                    old(config).admin_fee_split_bps as int,
                );
                share > 0 && old(config).total_deposits > 0 ==> old(config).total_yield_distributed + share <= u64::MAX
            }
        },
        admin != old(config).admin || deployer != old(config).deployer ==> r == Err::<
            LoanRecovered,
            ErrorCode,
        >(ErrorCode::Unauthorized),
        admin == old(config).admin && deployer == old(config).deployer && old(config).is_paused
            ==> r == Err::<LoanRecovered, ErrorCode>(ErrorCode::ProtocolPaused),
        admin == old(config).admin && deployer == old(config).deployer && !old(config).is_paused
            && !(old(loan).state is Active || old(loan).state is Pending) ==> r == Err::<
            LoanRecovered,
            ErrorCode,
        >(ErrorCode::LoanNotActive),
        admin == old(config).admin && deployer == old(config).deployer && !old(config).is_paused
            && (old(loan).state is Active || old(loan).state is Pending) && now < old(loan).start_ts + old(loan).duration ==> r == Err::<LoanRecovered, ErrorCode>(
            ErrorCode::LoanNotExpired,
        ),
        admin == old(config).admin && deployer == old(config).deployer && !old(config).is_paused
            && (old(loan).state is Active || old(loan).state is Pending) && now >= old(loan).start_ts + old(loan).duration && r is Err ==> r == Err::<LoanRecovered, ErrorCode>(
            ErrorCode::ArithmeticOverflow,
        ),
        r is Ok ==> *final(loan) == (Loan {
            state: LoanState::Recovered,
            recovered_ts: Some(now),
            ..*old(loan)
        }),
        r is Ok ==> {
            let share = bps_share(
                old(loan).admin_fee_paid as int,
                old(config).admin_fee_split_bps as int,
            );
            *final(config) == (ProtocolConfig {
                total_loans_outstanding: (old(config).total_loans_outstanding - old(loan).principal) as u64,
                total_yield_distributed: if old(config).total_deposits > 0 && share > 0 {
                    (old(config).total_yield_distributed + share) as u64
                } else {
                    old(config).total_yield_distributed
                },
                ..*old(config)
            })
        },
        r is Ok ==> {
            let share = bps_share(
                old(loan).admin_fee_paid as int,
                old(config).admin_fee_split_bps as int,
            );
            r == Ok::<LoanRecovered, ErrorCode>(LoanRecovered {
                loan_id: old(loan).loan_id,
                admin_fee_distributed: old(loan).admin_fee_paid,
                depositor_share: share as u64,
                treasury_share: (old(loan).admin_fee_paid - share) as u64,
            })
        },
        solvent(*old(config)) ==> solvent(*final(config)),
{
    if admin != config.admin || deployer != config.deployer {
        return Err(ErrorCode::Unauthorized);
    }
    if config.is_paused {
        return Err(ErrorCode::ProtocolPaused);
    }
    if !(loan.state == LoanState::Active || loan.state == LoanState::Pending) {
        return Err(ErrorCode::LoanNotActive);
    }
    if (now as i128) < (loan.start_ts as i128) + (loan.duration as i128) {
        return Err(ErrorCode::LoanNotExpired);
    }
    proof {
        let a = loan.admin_fee_paid as int;
        let s = config.admin_fee_split_bps as int;
        assert(a * s <= (u64::MAX as int) * (u16::MAX as int)) by (nonlinear_arith)
            requires
                0 <= a <= u64::MAX,
                0 <= s <= u16::MAX,
        ;
    }
    let share_wide: u128 = (loan.admin_fee_paid as u128) * (config.admin_fee_split_bps as u128)
        / 10_000u128;
    if share_wide > loan.admin_fee_paid as u128 {
        return Err(ErrorCode::ArithmeticOverflow);
    }
    let depositor_share: u64 = share_wide as u64;
    let treasury_share: u64 = loan.admin_fee_paid - depositor_share;
    if loan.principal > config.total_loans_outstanding {
        return Err(ErrorCode::ArithmeticOverflow);
    }
    if config.total_deposits > 0 && depositor_share > 0 {
        if config.total_yield_distributed.checked_add(depositor_share).is_none() {
            return Err(ErrorCode::ArithmeticOverflow);
        }
    }
    if depositor_share > 0 {
        distribute_yield(config, depositor_share);
    }
    config.total_loans_outstanding = config.total_loans_outstanding - loan.principal;
    loan.state = LoanState::Recovered;
    loan.recovered_ts = Some(now);
    Ok(LoanRecovered {
        loan_id: loan.loan_id,
        admin_fee_distributed: loan.admin_fee_paid,
        depositor_share,
        treasury_share,
    })
}

/// Sets or clears the pause flag, gating deposits, withdrawals, loan
/// requests, repayments, and recoveries — but not the admin configuration
/// or artifact-confirmation calls, so the administrator retains emergency
/// control while paused.
pub fn set_paused(config: &mut ProtocolConfig, caller: AccountId, is_paused: bool) -> (r: Result<
    ProtocolPausedChanged,
    ErrorCode,
>)
    ensures
        r is Err ==> *final(config) == *old(config),
        r is Ok <==> caller == old(config).admin,
        caller != old(config).admin ==> r == Err::<ProtocolPausedChanged, ErrorCode>(
            ErrorCode::Unauthorized,
        ),
        r is Ok ==> *final(config) == (ProtocolConfig { is_paused, ..*old(config) }),
        r is Ok ==> r == Ok::<ProtocolPausedChanged, ErrorCode>(
            ProtocolPausedChanged { is_paused },
        ),
        solvent(*old(config)) ==> solvent(*final(config)),
{
    if caller != config.admin {
        return Err(ErrorCode::Unauthorized);
    }
    config.is_paused = is_paused;
    Ok(ProtocolPausedChanged { is_paused })
}

/// Returns currency reclaimed off-ledger (for example from closing an
/// abandoned deployed artifact) to the vault: a currency transfer plus a
/// bookkeeping counter on the loan, with no liquidity or loan-principal
/// re-crediting.
pub fn return_reclaimed_sol(
    config: &ProtocolConfig,
    loan: &mut Loan,
    caller: AccountId,
    amount: u64,
    now: i64,
) -> (r: Result<SolReclaimed, ErrorCode>)
    ensures
        r is Err ==> *final(loan) == *old(loan),
        r is Ok <==> {
            &&& (old(loan).state is Recovered || old(loan).state is Pending)
            &&& (caller == config.admin || caller == config.deployer)
            &&& reclaimed_so_far(*old(loan)) + amount <= u64::MAX
        },
        !(old(loan).state is Recovered || old(loan).state is Pending) ==> r == Err::<
            SolReclaimed,
            ErrorCode,
        >(ErrorCode::LoanNotRecovered),
        (old(loan).state is Recovered || old(loan).state is Pending) && !(caller == config.admin
            || caller == config.deployer) ==> r == Err::<SolReclaimed, ErrorCode>(
            ErrorCode::Unauthorized,
        ),
        (old(loan).state is Recovered || old(loan).state is Pending) && (caller == config.admin
            || caller == config.deployer) && reclaimed_so_far(*old(loan)) + amount > u64::MAX ==> r
            == Err::<SolReclaimed, ErrorCode>(ErrorCode::ArithmeticOverflow),
        r is Ok ==> *final(loan) == (Loan {
            reclaimed_amount: Some((reclaimed_so_far(*old(loan)) + amount) as u64),
            reclaimed_ts: Some(now),
            ..*old(loan)
        }),
        r is Ok ==> r == Ok::<SolReclaimed, ErrorCode>(SolReclaimed {
            loan_id: old(loan).loan_id,
            amount,
            total_reclaimed: (reclaimed_so_far(*old(loan)) + amount) as u64,
        }),
{
    if !(loan.state == LoanState::Recovered || loan.state == LoanState::Pending) {
        return Err(ErrorCode::LoanNotRecovered);
    }
    if !(caller == config.admin || caller == config.deployer) {
        return Err(ErrorCode::Unauthorized);
    }
    let prior: u64 = match loan.reclaimed_amount {
        Some(v) => v,
        None => 0,
    };
    let maybe_total = prior.checked_add(amount);
    if maybe_total.is_none() {
        return Err(ErrorCode::ArithmeticOverflow);
    }
    let total = maybe_total.unwrap();
    loan.reclaimed_amount = Some(total);
    loan.reclaimed_ts = Some(now);
    Ok(SolReclaimed { loan_id: loan.loan_id, amount, total_reclaimed: total })
}

/// The value an optional configuration update leaves in place: the update
/// when present, the current value otherwise.
pub open spec fn value_or<T>(current: T, update: Option<T>) -> T {
    match update {
        Some(v) => v,
        None => current,
    }
}

/// Whether an optional basis-point update is within bounds; an absent
/// update always is.
pub open spec fn bps_update_ok(update: Option<u16>) -> bool {
    match update {
        Some(v) => v <= 10000,
        None => true,
    }
}

/// Applies the administrator's configuration updates.  Every parameter is
/// optional; each present one is bounds-checked and applied, each absent
/// one leaves its field untouched — in particular, a call with all fields
/// absent leaves the ledger unchanged.
pub fn update_config(
    config: &mut ProtocolConfig,
    caller: AccountId,
    admin_fee_split_bps: Option<u16>,
    default_interest_rate_bps: Option<u16>,
    default_admin_fee_bps: Option<u16>,
    deployer: Option<AccountId>,
    treasury: Option<AccountId>,
) -> (r: Result<ConfigUpdated, ErrorCode>)
    ensures
        r is Err ==> *final(config) == *old(config),
        r is Ok <==> caller == old(config).admin && bps_update_ok(admin_fee_split_bps)
            && bps_update_ok(default_interest_rate_bps) && bps_update_ok(default_admin_fee_bps),
        caller != old(config).admin ==> r == Err::<ConfigUpdated, ErrorCode>(
            ErrorCode::Unauthorized,
        ),
        caller == old(config).admin && !(bps_update_ok(admin_fee_split_bps) && bps_update_ok(
            default_interest_rate_bps,
        ) && bps_update_ok(default_admin_fee_bps)) ==> r == Err::<ConfigUpdated, ErrorCode>(
            ErrorCode::InvalidParameter,
        ),
        r is Ok ==> *final(config) == (ProtocolConfig {
            admin_fee_split_bps: value_or(old(config).admin_fee_split_bps, admin_fee_split_bps),
            default_interest_rate_bps: value_or(
                old(config).default_interest_rate_bps,
                default_interest_rate_bps,
            ),
            default_admin_fee_bps: value_or(
                old(config).default_admin_fee_bps,
                default_admin_fee_bps,
            ),
            deployer: value_or(old(config).deployer, deployer),
            treasury: value_or(old(config).treasury, treasury),
            ..*old(config)
        }),
        r is Ok ==> r == Ok::<ConfigUpdated, ErrorCode>(ConfigUpdated {
            admin_fee_split_bps: value_or(old(config).admin_fee_split_bps, admin_fee_split_bps),
            default_interest_rate_bps: value_or(
                old(config).default_interest_rate_bps,
                default_interest_rate_bps,
            ),
            default_admin_fee_bps: value_or(
                old(config).default_admin_fee_bps,
                default_admin_fee_bps,
            ),
        }),
        r is Ok && admin_fee_split_bps is None && default_interest_rate_bps is None
            && default_admin_fee_bps is None && deployer is None && treasury is None ==> *final(config) == *old(config),
        fee_params_valid(*old(config)) && r is Ok ==> fee_params_valid(*final(config)),
        solvent(*old(config)) ==> solvent(*final(config)),
{
    if caller != config.admin {
        return Err(ErrorCode::Unauthorized);
    }
    let split_ok = match admin_fee_split_bps {
        Some(v) => v <= 10000,
        None => true,
    };
    let rate_ok = match default_interest_rate_bps {
        Some(v) => v <= 10000,
        None => true,
    };
    let fee_ok = match default_admin_fee_bps {
        Some(v) => v <= 10000,
        None => true,
    };
    if !split_ok || !rate_ok || !fee_ok {
        return Err(ErrorCode::InvalidParameter);
    }
    if let Some(v) = admin_fee_split_bps {
        config.admin_fee_split_bps = v;
    }
    if let Some(v) = default_interest_rate_bps {
        config.default_interest_rate_bps = v;
    }
    if let Some(v) = default_admin_fee_bps {
        config.default_admin_fee_bps = v;
    }
    if let Some(v) = deployer {
        config.deployer = v;
    }
    if let Some(v) = treasury {
        config.treasury = v;
    }
    Ok(ConfigUpdated {
        admin_fee_split_bps: config.admin_fee_split_bps,
        default_interest_rate_bps: config.default_interest_rate_bps,
        default_admin_fee_bps: config.default_admin_fee_bps,
    })
}

/// Folds realized interest or fees into the pool's cumulative yield
/// counter.  A no-op while the pool holds no deposits or when there is
/// nothing to distribute; it does not reprice individual shares.
pub fn distribute_yield(config: &mut ProtocolConfig, amount: u64)
    requires
        old(config).total_deposits > 0 && amount > 0 ==> old(config).total_yield_distributed
            + amount <= u64::MAX,
    ensures
        final(config).total_yield_distributed == if old(config).total_deposits > 0 && amount > 0 {
            old(config).total_yield_distributed + amount
        } else {
            old(config).total_yield_distributed as int
        },
        *final(config) == (ProtocolConfig {
            total_yield_distributed: final(config).total_yield_distributed,
            ..*old(config)
        }),
{
    if config.total_deposits > 0 && amount > 0 {
        config.total_yield_distributed = config.total_yield_distributed + amount;
    }
}

} // verus!
