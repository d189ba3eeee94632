//! Account identities and their text form.
use vstd::prelude::*;

verus! {

/// The base58 text of a 32-byte account key, as ASCII bytes.
pub uninterp spec fn key_text(key: Seq<u8>) -> Seq<u8>;

/// A 32-byte account key: a user's identity or a vault's address.
#[derive(Clone, Copy, Debug, PartialEq, Eq)]
pub struct Identity {
    pub bytes: [u8; 32],
}

impl Identity {
    pub fn new(bytes: [u8; 32]) -> (r: Identity)
        ensures
            r.bytes@ == bytes@,
    {
        Identity { bytes }
    }

    /// The key as its text form, the way it appears in notice payloads.
    pub fn to_text(&self) -> (r: Vec<u8>)
        ensures
            r@ == key_text(self.bytes@),
    {
        pubkey_text(&self.bytes)
    }
}

/// Relies on the `Display` impl of anchor_lang's `Pubkey` (solana_program),
/// which writes the base58 encoding of the key's 32 bytes.
#[verifier::external_body]
fn pubkey_text(bytes: &[u8; 32]) -> (r: Vec<u8>)
    ensures
        r@ == key_text(bytes@),
{
    anchor_lang::prelude::Pubkey::new_from_array(*bytes).to_string().into_bytes()
}

} // verus!
