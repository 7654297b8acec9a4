//! Seed-string key derivation, trusted at the boundary to the cryptography
//! crates.
//!
//! Every derivation below is a pure function of the seed string: the seed is
//! interpreted as the derivation-path suffix `//seed` over the public
//! development phrase, so the same string always yields the same key in every
//! process and on every machine.

use vstd::prelude::*;
use sp_core::crypto::Pair as _;
use crate::account::AccountId;

verus! {

/// The 20-byte account that ECDSA derivation followed by the ledger's
/// address convention assigns to a seed string, or `None` when the string
/// cannot be parsed as a derivation path.
pub uninterp spec fn eth_account_of(seed: Seq<char>) -> Option<Seq<u8>>;

/// The 32-byte Sr25519 public key derived from a seed string, or `None`
/// when the string cannot be parsed as a derivation path.
pub uninterp spec fn sr25519_key_of(seed: Seq<char>) -> Option<Seq<u8>>;

/// The 32-byte Ed25519 public key derived from a seed string, or `None`
/// when the string cannot be parsed as a derivation path.
pub uninterp spec fn ed25519_key_of(seed: Seq<char>) -> Option<Seq<u8>>;

/// Relies on `sp_core::ecdsa::Pair::from_string` (the seed taken as the
/// suffix `//seed`), `Pair::public`, `libsecp256k1::PublicKey::parse_slice`
/// and `serialize`, and `sp_crypto_hashing::keccak_256`: the account is the
/// last 20 bytes of the keccak-256 hash of the uncompressed public key, a
/// function of the seed string alone.
#[verifier::external_body]
pub fn eth_account_from_seed(seed: &str) -> (r: Option<AccountId>)
    ensures
        r is Some <==> eth_account_of(seed@) is Some,
        r matches Some(a) ==> eth_account_of(seed@) == Some(a@),
{
    let pair = sp_core::ecdsa::Pair::from_string(&format!("//{}", seed), None).ok()?;
    let compressed: [u8; 33] = pair.public().to_raw();
    let format = Some(libsecp256k1::PublicKeyFormat::Compressed);
    let full = libsecp256k1::PublicKey::parse_slice(&compressed, format).ok()?.serialize();
    let hash = sp_crypto_hashing::keccak_256(&full[1..65]);
    let mut bytes = [0u8; 20];
    bytes.copy_from_slice(&hash[12..32]);
    Some(AccountId { bytes })
}

/// Relies on `sp_core::sr25519::Pair::from_string` (the seed taken as the
/// suffix `//seed`) and `Pair::public`: the key is a function of the seed
/// string alone.
#[verifier::external_body]
pub fn sr25519_key_from_seed(seed: &str) -> (r: Option<[u8; 32]>)
    ensures
        r is Some <==> sr25519_key_of(seed@) is Some,
        r matches Some(k) ==> sr25519_key_of(seed@) == Some(k@),
{
    match sp_core::sr25519::Pair::from_string(&format!("//{}", seed), None) {
        Ok(pair) => Some(pair.public().to_raw()),
        Err(_) => None,
    }
}

/// Relies on `sp_core::ed25519::Pair::from_string` (the seed taken as the
/// suffix `//seed`) and `Pair::public`: the key is a function of the seed
/// string alone.
#[verifier::external_body]
pub fn ed25519_key_from_seed(seed: &str) -> (r: Option<[u8; 32]>)
    ensures
        r is Some <==> ed25519_key_of(seed@) is Some,
        r matches Some(k) ==> ed25519_key_of(seed@) == Some(k@),
{
    match sp_core::ed25519::Pair::from_string(&format!("//{}", seed), None) {
        Ok(pair) => Some(pair.public().to_raw()),
        Err(_) => None,
    }
}

} // verus!
