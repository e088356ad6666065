//! Public keys: 32 bytes, written as base58 text.

use std::str::FromStr;
use vstd::prelude::*;

verus! {

/// The bytes that a base58 text denotes as a public key, or `None` where the
/// text is no well-formed key.
pub uninterp spec fn decoded_key(text: Seq<char>) -> Option<Seq<u8>>;

/// The base58 text of a 32-byte public key.
pub uninterp spec fn encoded_key(bytes: Seq<u8>) -> Seq<char>;

/// An account's public key.
#[derive(Debug, Clone, Copy, PartialEq, Eq)]
pub struct PublicKey {
    /// The key's 32 bytes.
    pub bytes: [u8; 32],
}

impl View for PublicKey {
    type V = Seq<u8>;

    open spec fn view(&self) -> Seq<u8> {
        self.bytes@
    }
}

/// Calls `solana_sdk::pubkey::Pubkey::from_str` and hands out the key's
/// bytes. Trusted: the outcome is `decoded_key` of the text, `None` standing
/// for each of the parser's errors (a character outside the base58 alphabet,
/// or a text that does not denote exactly 32 bytes).
#[verifier::external_body]
fn decode_key(text: &str) -> (r: Option<[u8; 32]>)
    ensures
        match r {
            Some(bytes) => decoded_key(text@) == Some(bytes@),
            None => decoded_key(text@) is None,
        },
{
    match solana_sdk::pubkey::Pubkey::from_str(text) {
        Ok(key) => Some(key.to_bytes()),
        Err(_) => None,
    }
}

/// Calls `to_string` of `solana_sdk::pubkey::Pubkey`, which writes the key
/// in base58. Trusted: the text is `encoded_key` of the bytes.
#[verifier::external_body]
fn encode_key(bytes: &[u8; 32]) -> (r: String)
    ensures
        r@ == encoded_key(bytes@),
{
    solana_sdk::pubkey::Pubkey::new_from_array(*bytes).to_string()
}

impl PublicKey {
    /// The key that `text` denotes, if it is well formed.
    pub fn parse(text: &str) -> (r: Option<PublicKey>)
        ensures
            match r {
                Some(key) => decoded_key(text@) == Some(key@),
                None => decoded_key(text@) is None,
            },
    {
        match decode_key(text) {
            Some(bytes) => Some(PublicKey { bytes }),
            None => None,
        }
    }

    /// The key's base58 text.
    pub fn to_text(&self) -> (r: String)
        ensures
            r@ == encoded_key(self@),
    {
        encode_key(&self.bytes)
    }
}

} // verus!
