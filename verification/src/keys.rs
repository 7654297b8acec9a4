//! Service-key identifiers and the per-authority identity record.

use vstd::prelude::*;
use crate::account::AccountId;

verus! {

/// Consensus (finality) service key: a 32-byte Ed25519 public key.
#[derive(Clone, Copy, Debug, PartialEq, Eq)]
pub struct GrandpaKey {
    pub bytes: [u8; 32],
}

impl View for GrandpaKey {
    type V = Seq<u8>;

    open spec fn view(&self) -> Seq<u8> {
        self.bytes@
    }
}

/// Block-production service key: a 32-byte Sr25519 public key.
#[derive(Clone, Copy, Debug, PartialEq, Eq)]
pub struct BabeKey {
    pub bytes: [u8; 32],
}

impl View for BabeKey {
    type V = Seq<u8>;

    open spec fn view(&self) -> Seq<u8> {
        self.bytes@
    }
}

/// Liveness-attestation service key: a 32-byte Sr25519 public key.
#[derive(Clone, Copy, Debug, PartialEq, Eq)]
pub struct ImOnlineKey {
    pub bytes: [u8; 32],
}

impl View for ImOnlineKey {
    type V = Seq<u8>;

    open spec fn view(&self) -> Seq<u8> {
        self.bytes@
    }
}

/// Peer-discovery service key: a 32-byte Sr25519 public key.
#[derive(Clone, Copy, Debug, PartialEq, Eq)]
pub struct AuthorityDiscoveryKey {
    pub bytes: [u8; 32],
}

impl View for AuthorityDiscoveryKey {
    type V = Seq<u8>;

    open spec fn view(&self) -> Seq<u8> {
        self.bytes@
    }
}

/// The session-key bundle registered for one authority.
#[derive(Clone, Copy, Debug, PartialEq, Eq)]
pub struct SessionKeys {
    pub grandpa: GrandpaKey,
    pub babe: BabeKey,
    pub im_online: ImOnlineKey,
    pub authority_discovery: AuthorityDiscoveryKey,
}

/// Builds the session-key bundle from the four service keys.
pub fn session_keys(
    grandpa: GrandpaKey,
    babe: BabeKey,
    im_online: ImOnlineKey,
    authority_discovery: AuthorityDiscoveryKey,
) -> (r: SessionKeys)
    ensures
        r == (SessionKeys { grandpa, babe, im_online, authority_discovery }),
{
    SessionKeys { grandpa, babe, im_online, authority_discovery }
}

/// One authority's full identity: the stash and controller accounts plus the
/// four service keys, all derived from a single seed string.
#[derive(Clone, Copy, Debug, PartialEq, Eq)]
pub struct AuthorityIdentity {
    /// Account holding the bonded stake, derived from `"{seed}//stash"`.
    pub stash: AccountId,
    /// Account managing the stash's staking operations, derived from the seed.
    pub controller: AccountId,
    pub grandpa: GrandpaKey,
    pub babe: BabeKey,
    pub im_online: ImOnlineKey,
    pub authority_discovery: AuthorityDiscoveryKey,
}

} // verus!
