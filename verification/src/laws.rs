//! Protocol-wide laws that relate several operations.

use crate::state::{
    record_after_deposit, record_after_withdraw, record_deposit_applies, record_withdraw_applies,
    DepositorRecord,
};
use vstd::prelude::*;

verus! {

/// One depositor's request against the pool: a deposit or a withdrawal of an
/// amount at a time.
pub enum DepositorAction {
    Deposit { amount: u64, now: i64 },
    Withdraw { amount: u64, now: i64 },
}

/// The depositor record after the pool processes one action: the transition
/// of `deposit` or `withdraw` when the action applies to the record, and the
/// record untouched when the operation is rejected.
pub open spec fn record_after_action(r: DepositorRecord, a: DepositorAction) -> DepositorRecord {
    match a {
        DepositorAction::Deposit { amount, now } => {
            if record_deposit_applies(r, amount) {
                record_after_deposit(r, r.owner, amount, now)
            } else {
                r
            }
        },
        DepositorAction::Withdraw { amount, now } => {
            if record_withdraw_applies(r, amount) {
                record_after_withdraw(r, amount, now)
            } else {
                r
            }
        },
    }
}

/// The depositor record after a whole sequence of actions, processed in
/// order.
pub open spec fn record_after_actions(r: DepositorRecord, actions: Seq<DepositorAction>) -> DepositorRecord
    decreases actions.len(),
{
    if actions.len() == 0 {
        r
    } else {
        record_after_actions(record_after_action(r, actions[0]), actions.drop_first())
    }
}

/// Share pricing is 1:1 in this version: one action by a depositor, with no
/// intervening yield event, keeps the record's contributed principal equal
/// to its share balance.
pub proof fn lemma_share_parity_step(r: DepositorRecord, a: DepositorAction)
    requires
        r.deposited_amount == r.share_amount,
    ensures
        record_after_action(r, a).deposited_amount == record_after_action(r, a).share_amount,
{
}

/// Share pricing is 1:1 in this version: any sequence of deposits and
/// withdrawals by one depositor, with no intervening yield event, keeps the
/// record's contributed principal equal to its share balance.
pub proof fn lemma_share_parity(r: DepositorRecord, actions: Seq<DepositorAction>)
    requires
        r.deposited_amount == r.share_amount,
    ensures
        record_after_actions(r, actions).deposited_amount == record_after_actions(
            r,
            actions,
        ).share_amount,
    decreases actions.len(),
{
    if actions.len() > 0 {
        lemma_share_parity_step(r, actions[0]);
        lemma_share_parity(record_after_action(r, actions[0]), actions.drop_first());
    }
}

} // verus!
