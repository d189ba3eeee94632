//! Facts about the loan transitions, proved over their outcome functions.
use vstd::prelude::*;

use crate::notification::Notification;
use crate::vault::{
    borrow_outcome, initial_vault, liquidate_outcome, repay_outcome, vault_after_borrow,
    vault_after_liquidate, vault_after_repay, Borrow, ErrorCode, Liquidate, Repay, UserVault,
};

verus! {

/// One request made against a vault.
#[derive(Clone, Copy, Debug, PartialEq, Eq)]
pub enum VaultOp {
    Borrow(u64),
    Repay(u64),
    Liquidate,
}

/// The vault after one request; a rejected request leaves it as it was.
pub open spec fn step(v: UserVault, op: VaultOp) -> UserVault {
    match op {
        VaultOp::Borrow(amount) => vault_after_borrow(v, amount),
        VaultOp::Repay(amount) => vault_after_repay(v, amount),
        VaultOp::Liquidate => vault_after_liquidate(v),
    }
}

/// The vault after the requests of `ops`, in order.
pub open spec fn run(v: UserVault, ops: Seq<VaultOp>) -> UserVault
    decreases ops.len(),
{
    if ops.len() == 0 {
        v
    } else {
        run(step(v, ops[0]), ops.drop_first())
    }
}

/// Every request keeps a well-formed vault well-formed.
pub proof fn lemma_requests_preserve_wf(v: UserVault, ops: Seq<VaultOp>)
    requires
        v.wf(),
    ensures
        run(v, ops).wf(),
    decreases ops.len(),
{
    if ops.len() > 0 {
        lemma_requests_preserve_wf(step(v, ops[0]), ops.drop_first());
    }
}

/// In every vault reachable from a fresh one, a vault without an active loan
/// owes nothing.
pub proof fn lemma_reachable_vaults_wf(ops: Seq<VaultOp>)
    ensures
        run(initial_vault(), ops).wf(),
        !run(initial_vault(), ops).is_active ==> run(initial_vault(), ops).loan_amount == 0,
{
    lemma_requests_preserve_wf(initial_vault(), ops);
}

/// A second borrow replaces the amount of the first instead of adding to it,
/// and leaves the loan active.
pub proof fn lemma_borrow_replaces(ctx: Borrow, a1: u64, a2: u64)
    ensures
        borrow_outcome(borrow_outcome(ctx, a1).0, a2).0.user_vault == (UserVault {
            loan_amount: a2,
            is_active: true,
        }),
{
}

/// Paying more than is owed on an active loan succeeds, leaves nothing owed
/// and closes the loan.
pub proof fn lemma_overpayment_settles(ctx: Repay, amount: u64)
    requires
        ctx.user_vault.is_active,
        amount > ctx.user_vault.loan_amount,
    ensures
        repay_outcome(ctx, amount).1 is Ok,
        repay_outcome(ctx, amount).0.user_vault == (UserVault { loan_amount: 0, is_active: false }),
{
}

/// A repayment that leaves something owed posts no notice; one that leaves
/// nothing owed posts exactly one `Repaid` notice, for the paying user.
pub proof fn lemma_notice_only_on_settlement(ctx: Repay, amount: u64)
    ensures
        repay_outcome(ctx, amount).1 is Ok && repay_outcome(ctx, amount).0.user_vault.loan_amount
            > 0 ==> repay_outcome(ctx, amount).1 == Ok::<Option<Notification>, ErrorCode>(None),
        repay_outcome(ctx, amount).1 is Ok && repay_outcome(ctx, amount).0.user_vault.loan_amount
            == 0 ==> repay_outcome(ctx, amount).1 == Ok::<Option<Notification>, ErrorCode>(
            Some(Notification::Repaid { user: ctx.user }),
        ),
{
}

/// Repaying or liquidating a vault without an active loan (a never-borrowed
/// one included) fails with `NoActiveLoan`, changes nothing and posts nothing.
pub proof fn lemma_inactive_vault_rejected(rc: Repay, amount: u64, lc: Liquidate)
    requires
        !rc.user_vault.is_active,
        !lc.user_vault.is_active,
    ensures
        repay_outcome(rc, amount) == (rc, Err::<Option<Notification>, ErrorCode>(
            ErrorCode::NoActiveLoan,
        )),
        liquidate_outcome(lc) == (lc, Err::<Notification, ErrorCode>(ErrorCode::NoActiveLoan)),
{
}

} // verus!
