//! Private keys of the Eclipse chain.

use super::pubkey::Pubkey;
use vstd::prelude::*;

verus! {

/// The bytes that a base58 text stands for, if it is base58.
pub uninterp spec fn spec_base58_decode(text: Seq<char>) -> Option<Seq<u8>>;

/// The public key of the key pair that the bytes hold, if they hold one.
pub uninterp spec fn spec_keypair_public_key(bytes: Seq<u8>) -> Option<Seq<u8>>;

/// Decodes a base58 text.
///
/// Calls `bs58::decode(..).into_vec()` as `solana_sdk` hands it out. The
/// contract names the result: the decoded bytes, or `None` where the
/// decoder reports an error.
#[verifier::external_body]
pub(crate) fn base58_decode(text: &str) -> (bytes: Option<Vec<u8>>)
    ensures
        match bytes {
            Some(decoded) => spec_base58_decode(text@) == Some(decoded@),
            None => spec_base58_decode(text@) is None,
        },
{
    solana_sdk::bs58::decode(text).into_vec().ok()
}

/// Reads a key pair and hands out its public key.
///
/// Calls `solana_sdk::signer::keypair::Keypair::from_bytes`, which wants at
/// least 64 bytes, a secret key in the first 32 and after it the public key
/// that belongs to that secret key. The contract names the result: the
/// public key of the pair, or `None` where the bytes are refused.
#[verifier::external_body]
pub(crate) fn keypair_public_key(bytes: &[u8]) -> (key: Option<Pubkey>)
    ensures
        match key {
            Some(public) => spec_keypair_public_key(bytes@) == Some(public.bytes@),
            None => spec_keypair_public_key(bytes@) is None,
        },
{
    match solana_sdk::signer::keypair::Keypair::from_bytes(bytes) {
        Ok(keypair) => Some(Pubkey { bytes: solana_sdk::signer::Signer::pubkey(&keypair).to_bytes() }),
        Err(_) => None,
    }
}

} // verus!
