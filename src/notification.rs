//! Notices that describe ledger transitions, and their wire form.
//!
//! A payload is human-readable text: an event tag followed by its fields,
//! each introduced by `|` (`borrow|<user>|<amount>`, `repay|<user>`,
//! `liquidate|<vault>`).
use vstd::prelude::*;

use crate::identity::{key_text, Identity};

verus! {

/// The decimal digits of `n`, most significant first, with no leading zeros.
pub open spec fn decimal_text(n: nat) -> Seq<u8>
    decreases n,
{
    if n < 10 {
        seq![(48 + n) as u8]
    } else {
        decimal_text(n / 10).push((48 + n % 10) as u8)
    }
}

/// Appends the decimal digits of `n` to `out`.
fn push_decimal(out: &mut Vec<u8>, n: u64)
    ensures
        final(out)@ == old(out)@ + decimal_text(n as nat),
    decreases n,
{
    if n >= 10 {
        push_decimal(out, n / 10);
    }
    out.push(48u8 + (n % 10) as u8);
    assert(out@ =~= old(out)@ + decimal_text(n as nat));
}

/// Appends every byte of `bytes` to `out`, in order.
fn push_bytes(out: &mut Vec<u8>, bytes: &[u8])
    ensures
        final(out)@ == old(out)@ + bytes@,
{
    let mut i: usize = 0;
    while i < bytes.len()
        invariant
            i <= bytes@.len(),
            out@ == old(out)@ + bytes@.subrange(0, i as int),
        decreases bytes@.len() - i,
    {
        out.push(bytes[i]);
        i = i + 1;
        assert(out@ =~= old(out)@ + bytes@.subrange(0, i as int));
    }
    assert(bytes@.subrange(0, bytes@.len() as int) =~= bytes@);
}

/// The character `|` that introduces each field of a payload.
pub open spec fn separator() -> u8 {
    124u8
}

/// `borrow`
pub open spec fn borrow_tag() -> Seq<u8> {
    seq![98u8, 111u8, 114u8, 114u8, 111u8, 119u8]
}

/// `repay`
pub open spec fn repay_tag() -> Seq<u8> {
    seq![114u8, 101u8, 112u8, 97u8, 121u8]
}

/// `liquidate`
pub open spec fn liquidate_tag() -> Seq<u8> {
    seq![108u8, 105u8, 113u8, 117u8, 105u8, 100u8, 97u8, 116u8, 101u8]
}

/// The nonce that every notice is posted with.
pub const NOTICE_NONCE: u32 = 0;

/// How settled a posted message must be before observers act on it.
#[derive(Clone, Copy, Debug, PartialEq, Eq)]
pub enum Finality {
    Confirmed,
    Finalized,
}

/// A notice of a completed ledger transition.
#[derive(Clone, Copy, Debug, PartialEq, Eq)]
pub enum Notification {
    Borrowed { user: Identity, amount: u64 },
    Repaid { user: Identity },
    Liquidated { vault_id: Identity },
}

/// The wire form of a notice: its tag, then each field after a separator.
pub open spec fn payload_of(e: Notification) -> Seq<u8> {
    match e {
        Notification::Borrowed { user, amount } => borrow_tag().push(separator()) + key_text(
            user.bytes@,
        ).push(separator()) + decimal_text(amount as nat),
        Notification::Repaid { user } => repay_tag().push(separator()) + key_text(user.bytes@),
        Notification::Liquidated { vault_id } => liquidate_tag().push(separator()) + key_text(
            vault_id.bytes@,
        ),
    }
}

/// A message ready to be handed to the cross-chain messaging service.
#[derive(Clone, Debug, PartialEq, Eq)]
pub struct OutboundMessage {
    pub nonce: u32,
    pub payload: Vec<u8>,
    pub finality: Finality,
}

impl Notification {
    /// The payload bytes of this notice.
    pub fn payload(&self) -> (r: Vec<u8>)
        ensures
            r@ == payload_of(*self),
    {
        let mut out: Vec<u8> = Vec::new();
        match self {
            Notification::Borrowed { user, amount } => {
                let tag: [u8; 6] = [98u8, 111u8, 114u8, 114u8, 111u8, 119u8];
                push_bytes(&mut out, &tag);
                out.push(124u8);
                let mut key = user.to_text();
                out.append(&mut key);
                out.push(124u8);
                push_decimal(&mut out, *amount);
            },
            Notification::Repaid { user } => {
                let tag: [u8; 5] = [114u8, 101u8, 112u8, 97u8, 121u8];
                push_bytes(&mut out, &tag);
                out.push(124u8);
                let mut key = user.to_text();
                out.append(&mut key);
            },
            Notification::Liquidated { vault_id } => {
                let tag: [u8; 9] = [108u8, 105u8, 113u8, 117u8, 105u8, 100u8, 97u8, 116u8, 101u8];
                push_bytes(&mut out, &tag);
                out.push(124u8);
                let mut key = vault_id.to_text();
                out.append(&mut key);
            },
        }
        assert(out@ =~= payload_of(*self));
        out
    }

    /// The message that announces this notice: its payload, posted with the
    /// fixed nonce and at the strongest finality.
    pub fn message(&self) -> (r: OutboundMessage)
        ensures
            r.nonce == NOTICE_NONCE,
            r.finality == Finality::Finalized,
            r.payload@ == payload_of(*self),
    {
        OutboundMessage { nonce: NOTICE_NONCE, payload: self.payload(), finality: Finality::Finalized }
    }
}

} // verus!
