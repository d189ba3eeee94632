use anchor_lang::prelude::Pubkey;
use soliver::lemmas::VaultOp;
use soliver::{
    borrow, liquidate, repay, Borrow, ErrorCode, Finality, Identity, Liquidate, Notification,
    Repay, UserVault, NOTICE_NONCE,
};

fn alice() -> Identity {
    Identity::new([7u8; 32])
}

fn bob_vault_id() -> Identity {
    let mut b = [0u8; 32];
    b[0] = 200;
    b[31] = 3;
    Identity::new(b)
}

fn text_of(id: &Identity) -> String {
    Pubkey::new_from_array(id.bytes).to_string()
}

fn payload_text(n: &Notification) -> String {
    String::from_utf8(n.payload()).unwrap()
}

fn vault(loan_amount: u64, is_active: bool) -> UserVault {
    UserVault { loan_amount, is_active }
}

#[test]
fn borrow_opens_loan_and_notifies() {
    let mut ctx = Borrow { user: alice(), user_vault: UserVault::new() };
    let n = borrow(&mut ctx, 100);
    assert_eq!(ctx.user_vault, vault(100, true));
    assert_eq!(n, Notification::Borrowed { user: alice(), amount: 100 });
    assert_eq!(payload_text(&n), format!("borrow|{}|100", text_of(&alice())));
}

#[test]
fn lifecycle_partial_then_full_repay() {
    let mut b = Borrow { user: alice(), user_vault: UserVault::new() };
    borrow(&mut b, 100);
    let mut ctx = Repay { user: alice(), user_vault: b.user_vault };
    assert_eq!(repay(&mut ctx, 40), Ok(None));
    assert_eq!(ctx.user_vault, vault(60, true));
    let r = repay(&mut ctx, 1000);
    assert_eq!(ctx.user_vault, vault(0, false));
    let n = r.unwrap().unwrap();
    assert_eq!(n, Notification::Repaid { user: alice() });
    assert_eq!(payload_text(&n), format!("repay|{}", text_of(&alice())));
}

#[test]
fn liquidate_active_vault() {
    let mut ctx = Liquidate { vault_id: bob_vault_id(), user_vault: vault(50, true) };
    let n = liquidate(&mut ctx).unwrap();
    assert_eq!(ctx.user_vault, vault(0, false));
    assert_eq!(n, Notification::Liquidated { vault_id: bob_vault_id() });
    assert_eq!(payload_text(&n), format!("liquidate|{}", text_of(&bob_vault_id())));
}

#[test]
fn repay_never_borrowed_fails() {
    let carol = Identity::new([9u8; 32]);
    let mut ctx = Repay { user: carol, user_vault: UserVault::new() };
    let before = ctx;
    assert_eq!(repay(&mut ctx, 10), Err(ErrorCode::NoActiveLoan));
    assert_eq!(ctx, before);
}

#[test]
fn liquidate_inactive_fails() {
    let mut ctx = Liquidate { vault_id: bob_vault_id(), user_vault: UserVault::new() };
    let before = ctx;
    assert_eq!(liquidate(&mut ctx), Err(ErrorCode::NoActiveLoan));
    assert_eq!(ctx, before);
}

#[test]
fn repay_closed_vault_fails() {
    let mut ctx = Repay { user: alice(), user_vault: vault(10, true) };
    repay(&mut ctx, 10).unwrap();
    let before = ctx;
    assert_eq!(repay(&mut ctx, 5), Err(ErrorCode::NoActiveLoan));
    assert_eq!(ctx, before);
}

#[test]
fn second_borrow_replaces_amount() {
    let mut ctx = Borrow { user: alice(), user_vault: UserVault::new() };
    let n1 = borrow(&mut ctx, 500);
    let n2 = borrow(&mut ctx, 30);
    assert_eq!(ctx.user_vault, vault(30, true));
    assert_eq!(n1, Notification::Borrowed { user: alice(), amount: 500 });
    assert_eq!(n2, Notification::Borrowed { user: alice(), amount: 30 });
}

#[test]
fn borrow_reuses_closed_vault() {
    let mut ctx = Borrow { user: alice(), user_vault: vault(0, false) };
    borrow(&mut ctx, 8);
    assert_eq!(ctx.user_vault, vault(8, true));
}

#[test]
fn overpayment_clamps_to_zero() {
    let mut ctx = Repay { user: alice(), user_vault: vault(5, true) };
    let r = repay(&mut ctx, u64::MAX);
    assert_eq!(ctx.user_vault, vault(0, false));
    assert_eq!(r, Ok(Some(Notification::Repaid { user: alice() })));
}

#[test]
fn exact_repay_settles() {
    let mut ctx = Repay { user: alice(), user_vault: vault(77, true) };
    let r = repay(&mut ctx, 77);
    assert_eq!(ctx.user_vault, vault(0, false));
    assert_eq!(r, Ok(Some(Notification::Repaid { user: alice() })));
}

#[test]
fn partial_repay_is_silent() {
    let mut ctx = Repay { user: alice(), user_vault: vault(77, true) };
    assert_eq!(repay(&mut ctx, 76), Ok(None));
    assert_eq!(ctx.user_vault, vault(1, true));
}

#[test]
fn repay_zero_on_zero_loan_closes() {
    let mut ctx = Borrow { user: alice(), user_vault: UserVault::new() };
    borrow(&mut ctx, 0);
    assert_eq!(ctx.user_vault, vault(0, true));
    let mut r = Repay { user: alice(), user_vault: ctx.user_vault };
    assert_eq!(repay(&mut r, 0), Ok(Some(Notification::Repaid { user: alice() })));
    assert_eq!(r.user_vault, vault(0, false));
}

#[test]
fn reachable_vaults_keep_invariant() {
    let ops = [
        VaultOp::Borrow(10),
        VaultOp::Repay(3),
        VaultOp::Liquidate,
        VaultOp::Repay(4),
        VaultOp::Borrow(9),
        VaultOp::Repay(100),
        VaultOp::Liquidate,
    ];
    let mut v = UserVault::new();
    for op in ops {
        match op {
            VaultOp::Borrow(a) => {
                let mut c = Borrow { user: alice(), user_vault: v };
                borrow(&mut c, a);
                v = c.user_vault;
            }
            VaultOp::Repay(a) => {
                let mut c = Repay { user: alice(), user_vault: v };
                let _ = repay(&mut c, a);
                v = c.user_vault;
            }
            VaultOp::Liquidate => {
                let mut c = Liquidate { vault_id: bob_vault_id(), user_vault: v };
                let _ = liquidate(&mut c);
                v = c.user_vault;
            }
        }
        assert!(v.is_active || v.loan_amount == 0);
    }
    assert_eq!(v, vault(0, false));
}

#[test]
fn zero_key_text_is_all_ones() {
    let zero = Identity::new([0u8; 32]);
    assert_eq!(zero.to_text(), vec![b'1'; 32]);
}

#[test]
fn key_text_is_base58_not_raw_bytes() {
    let id = alice();
    let t = id.to_text();
    assert_ne!(t, id.bytes.to_vec());
    assert_eq!(String::from_utf8(t).unwrap(), text_of(&id));
}

#[test]
fn payload_of_zero_and_max_amounts() {
    let zero = Identity::new([0u8; 32]);
    let n = Notification::Borrowed { user: zero, amount: 0 };
    assert_eq!(payload_text(&n), "borrow|11111111111111111111111111111111|0");
    let m = Notification::Borrowed { user: zero, amount: u64::MAX };
    assert_eq!(
        payload_text(&m),
        "borrow|11111111111111111111111111111111|18446744073709551615"
    );
    let k = Notification::Borrowed { user: zero, amount: 1020 };
    assert_eq!(payload_text(&k), "borrow|11111111111111111111111111111111|1020");
}

#[test]
fn message_uses_fixed_nonce_and_finalized() {
    let n = Notification::Repaid { user: alice() };
    let m = n.message();
    assert_eq!(m.nonce, NOTICE_NONCE);
    assert_eq!(m.nonce, 0);
    assert_eq!(m.finality, Finality::Finalized);
    assert_eq!(m.payload, n.payload());
}
