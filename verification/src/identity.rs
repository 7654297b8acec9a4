//! Building one authority's identity record from a seed string.

use vstd::prelude::*;
use vstd::string::StringExecFns;
use crate::account::AccountId;
use crate::derive::{eth_account_from_seed, eth_account_of, sr25519_key_from_seed,
    sr25519_key_of, ed25519_key_from_seed, ed25519_key_of};
use crate::keys::{AuthorityIdentity, GrandpaKey, BabeKey, ImOnlineKey, AuthorityDiscoveryKey};

verus! {

/// The derivation library could not parse a seed string. The only seeds
/// this system accepts are build-time literals, so this is a startup-fatal
/// misconfiguration, not a recoverable error.
#[derive(Clone, Copy, Debug, PartialEq, Eq)]
pub struct InvalidSeedError;

/// The derivation string of an authority's stash account: the seed followed
/// by the hard junction `//stash`.
pub open spec fn stash_seed_of(seed: Seq<char>) -> Seq<char> {
    seed + "//stash"@
}

/// Every component of `a` is the derivation that `seed` determines: the
/// stash account from `"{seed}//stash"`, the controller account from the
/// seed itself, and the four service keys from the seed under their own
/// schemes.
pub open spec fn is_identity_of(seed: Seq<char>, a: AuthorityIdentity) -> bool {
    &&& eth_account_of(stash_seed_of(seed)) == Some(a.stash@)
    &&& eth_account_of(seed) == Some(a.controller@)
    &&& ed25519_key_of(seed) == Some(a.grandpa@)
    &&& sr25519_key_of(seed) == Some(a.babe@)
    &&& sr25519_key_of(seed) == Some(a.im_online@)
    &&& sr25519_key_of(seed) == Some(a.authority_discovery@)
}

/// All derivations that an authority identity needs succeed on `seed`.
pub open spec fn seed_derivable(seed: Seq<char>) -> bool {
    &&& eth_account_of(stash_seed_of(seed)) is Some
    &&& eth_account_of(seed) is Some
    &&& ed25519_key_of(seed) is Some
    &&& sr25519_key_of(seed) is Some
}

/// Derives an authority's full identity from a seed string. Fails exactly
/// when the derivation library rejects the seed.
pub fn authority_keys_from_seed(seed: &str) -> (r: Result<AuthorityIdentity, InvalidSeedError>)
    ensures
        r is Ok <==> seed_derivable(seed@),
        r matches Ok(a) ==> is_identity_of(seed@, a),
{
    let mut stash_seed = String::from_str(seed);
    stash_seed.append("//stash");
    let stash = match eth_account_from_seed(stash_seed.as_str()) {
        Some(a) => a,
        None => {
            return Err(InvalidSeedError);
        },
    };
    let controller = match eth_account_from_seed(seed) {
        Some(a) => a,
        None => {
            return Err(InvalidSeedError);
        },
    };
    let grandpa = match ed25519_key_from_seed(seed) {
        Some(k) => GrandpaKey { bytes: k },
        None => {
            return Err(InvalidSeedError);
        },
    };
    let babe = match sr25519_key_from_seed(seed) {
        Some(k) => BabeKey { bytes: k },
        None => {
            return Err(InvalidSeedError);
        },
    };
    let im_online = match sr25519_key_from_seed(seed) {
        Some(k) => ImOnlineKey { bytes: k },
        None => {
            return Err(InvalidSeedError);
        },
    };
    let authority_discovery = match sr25519_key_from_seed(seed) {
        Some(k) => AuthorityDiscoveryKey { bytes: k },
        None => {
            return Err(InvalidSeedError);
        },
    };
    Ok(AuthorityIdentity { stash, controller, grandpa, babe, im_online, authority_discovery })
}

/// Law: identity derivation is deterministic — any two identity records
/// derived from the same seed agree in every component.
pub proof fn lemma_identity_derivation_deterministic(
    seed: Seq<char>,
    a: AuthorityIdentity,
    b: AuthorityIdentity,
)
    requires
        is_identity_of(seed, a),
        is_identity_of(seed, b),
    ensures
        a == b,
{
    broadcast use vstd::array::group_array_axioms;

    assert(a.stash.bytes =~= b.stash.bytes);
    assert(a.controller.bytes =~= b.controller.bytes);
    assert(a.grandpa.bytes =~= b.grandpa.bytes);
    assert(a.babe.bytes =~= b.babe.bytes);
    assert(a.im_online.bytes =~= b.im_online.bytes);
    assert(a.authority_discovery.bytes =~= b.authority_discovery.bytes);
}

} // verus!
