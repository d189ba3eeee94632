//! The per-user vault and the three loan transitions: borrow, repay and
//! liquidate.
//!
//! Each transition works on the accounts of one request and hands back the
//! notice to post, if any. The caller keeps the new vault state only once that
//! notice has been posted, so that a ledger change and its notice succeed or
//! fail together.
use vstd::prelude::*;

use crate::identity::Identity;
use crate::notification::Notification;

verus! {

/// The one domain error of the ledger.
#[derive(Clone, Copy, Debug, PartialEq, Eq)]
pub enum ErrorCode {
    /// Repay or liquidate was asked of a vault that has no active loan.
    NoActiveLoan,
}

/// One user's loan record.
#[derive(Clone, Copy, Debug, PartialEq, Eq)]
pub struct UserVault {
    pub loan_amount: u64,
    pub is_active: bool,
}

impl UserVault {
    /// A vault without an active loan owes nothing.
    pub open spec fn wf(self) -> bool {
        !self.is_active ==> self.loan_amount == 0
    }

    /// A vault as it stands when first created.
    pub fn new() -> (r: UserVault)
        ensures
            r == initial_vault(),
            r.wf(),
    {
        UserVault { loan_amount: 0, is_active: false }
    }
}

/// The state of a vault that was never borrowed against.
pub open spec fn initial_vault() -> UserVault {
    UserVault { loan_amount: 0, is_active: false }
}

/// The vault after a borrow of `amount`: the amount replaces what was owed.
pub open spec fn vault_after_borrow(v: UserVault, amount: u64) -> UserVault {
    UserVault { loan_amount: amount, is_active: true }
}

/// What is still owed after paying `amount` against `owed`, never below zero.
pub open spec fn remaining(owed: u64, amount: u64) -> u64 {
    if amount >= owed {
        0
    } else {
        (owed - amount) as u64
    }
}

/// The vault after a repayment of `amount`; a vault without an active loan
/// is left as it is.
pub open spec fn vault_after_repay(v: UserVault, amount: u64) -> UserVault {
    if v.is_active {
        UserVault {
            loan_amount: remaining(v.loan_amount, amount),
            is_active: remaining(v.loan_amount, amount) > 0,
        }
    } else {
        v
    }
}

/// The vault after a liquidation; a vault without an active loan is left as
/// it is.
pub open spec fn vault_after_liquidate(v: UserVault) -> UserVault {
    if v.is_active {
        UserVault { loan_amount: 0, is_active: false }
    } else {
        v
    }
}

/// The accounts of a borrow request: the signing user and the vault kept
/// for that user (created empty if the user had none).
#[derive(Clone, Copy, Debug, PartialEq, Eq)]
pub struct Borrow {
    pub user: Identity,
    pub user_vault: UserVault,
}

/// The accounts of a repay request: the signing user and that user's vault.
#[derive(Clone, Copy, Debug, PartialEq, Eq)]
pub struct Repay {
    pub user: Identity,
    pub user_vault: UserVault,
}

/// The accounts of a liquidation: the vault and the address it is stored at.
#[derive(Clone, Copy, Debug, PartialEq, Eq)]
pub struct Liquidate {
    pub vault_id: Identity,
    pub user_vault: UserVault,
}

/// The accounts after a borrow, and the notice it posts.
pub open spec fn borrow_outcome(ctx: Borrow, amount: u64) -> (Borrow, Notification) {
    (
        Borrow { user: ctx.user, user_vault: vault_after_borrow(ctx.user_vault, amount) },
        Notification::Borrowed { user: ctx.user, amount },
    )
}

/// The accounts after a repayment, and its result: the notice to post, which
/// is there only when the loan is settled in full.
pub open spec fn repay_outcome(ctx: Repay, amount: u64) -> (
    Repay,
    Result<Option<Notification>, ErrorCode>,
) {
    if !ctx.user_vault.is_active {
        (ctx, Err(ErrorCode::NoActiveLoan))
    } else {
        let v = vault_after_repay(ctx.user_vault, amount);
        (
            Repay { user: ctx.user, user_vault: v },
            Ok(
                if v.loan_amount == 0 {
                    Some(Notification::Repaid { user: ctx.user })
                } else {
                    None
                },
            ),
        )
    }
}

/// The accounts after a liquidation, and its result: the notice to post.
pub open spec fn liquidate_outcome(ctx: Liquidate) -> (Liquidate, Result<Notification, ErrorCode>) {
    if !ctx.user_vault.is_active {
        (ctx, Err(ErrorCode::NoActiveLoan))
    } else {
        (
            Liquidate { vault_id: ctx.vault_id, user_vault: vault_after_liquidate(ctx.user_vault) },
            Ok(Notification::Liquidated { vault_id: ctx.vault_id }),
        )
    }
}

/// Opens (or replaces) the user's loan with `amount` and returns the
/// `Borrowed` notice, which every borrow posts.
pub fn borrow(ctx: &mut Borrow, amount: u64) -> (r: Notification)
    ensures
        (*final(ctx), r) == borrow_outcome(*old(ctx), amount),
        final(ctx).user_vault.wf(),
{
    ctx.user_vault.loan_amount = amount;
    ctx.user_vault.is_active = true;
    Notification::Borrowed { user: ctx.user, amount }
}

/// Pays `amount` off the user's active loan, clamping at zero. A loan paid
/// off in full is closed and its `Repaid` notice returned; a partial payment
/// returns no notice. Fails with `NoActiveLoan`, changing nothing, when the
/// vault has no active loan.
pub fn repay(ctx: &mut Repay, amount: u64) -> (r: Result<Option<Notification>, ErrorCode>)
    ensures
        (*final(ctx), r) == repay_outcome(*old(ctx), amount),
        r is Ok <==> old(ctx).user_vault.is_active,
        old(ctx).user_vault.wf() ==> final(ctx).user_vault.wf(),
{
    if !ctx.user_vault.is_active {
        return Err(ErrorCode::NoActiveLoan);
    }
    ctx.user_vault.loan_amount = ctx.user_vault.loan_amount.saturating_sub(amount);
    if ctx.user_vault.loan_amount == 0 {
        ctx.user_vault.is_active = false;
        Ok(Some(Notification::Repaid { user: ctx.user }))
    } else {
        Ok(None)
    }
}

/// Force-closes the vault's active loan, whatever is owed, and returns the
/// `Liquidated` notice naming the vault. Fails with `NoActiveLoan`, changing
/// nothing, when the vault has no active loan. No amount owed and no
/// caller identity gates a liquidation here: that policy belongs to whoever
/// may submit the request.
pub fn liquidate(ctx: &mut Liquidate) -> (r: Result<Notification, ErrorCode>)
    ensures
        (*final(ctx), r) == liquidate_outcome(*old(ctx)),
        r is Ok <==> old(ctx).user_vault.is_active,
        old(ctx).user_vault.wf() ==> final(ctx).user_vault.wf(),
{
    if !ctx.user_vault.is_active {
        return Err(ErrorCode::NoActiveLoan);
    }
    ctx.user_vault.is_active = false;
    ctx.user_vault.loan_amount = 0;
    Ok(Notification::Liquidated { vault_id: ctx.vault_id })
}

} // verus!
