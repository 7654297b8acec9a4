//! Assembly of the genesis document from its parts.

use vstd::prelude::*;
use crate::account::{AccountId, alith_id, default_endowed_accounts, default_endowed_ids,
    dev_root_account, ids_of};
use crate::identity::{InvalidSeedError, authority_keys_from_seed, is_identity_of,
    seed_derivable};
use crate::evm::{EvmAddress, PrefundedEvmAccount, evm_prefund_table, is_prefund_table};
use crate::keys::{AuthorityIdentity, SessionKeys, session_keys};
use crate::registry::{configure_endowed, spec_register, stashes_of};
use crate::stakers::{StakerEntry, build_stakers, stakers_shape};

verus! {

/// One whole token, at the ledger's 18-decimal precision.
pub const IPT: u128 = 1_000_000_000_000_000_000;

/// Endowment granted to every endowed account.
pub const ENDOWMENT: u128 = 1_000_000 * IPT;

/// Amount bonded by every genesis staker.
pub const STASH: u128 = ENDOWMENT / 1000;

/// Fraction of a slash paid to its reporter, in parts per billion (ten
/// percent).
pub const SLASH_REWARD_FRACTION_PPB: u32 = 100_000_000;

/// Minimum bond to become a validator.
pub const MIN_VALIDATOR_BOND: u128 = 100 * IPT;

/// Minimum bond to become a nominator.
pub const MIN_NOMINATOR_BOND: u128 = 10 * IPT;

/// Which slot-claim kinds an epoch allows.
#[derive(Clone, Copy, Debug, PartialEq, Eq)]
pub enum AllowedSlots {
    PrimarySlots,
    PrimaryAndSecondaryPlainSlots,
    PrimaryAndSecondaryVrfSlots,
}

/// The block-production epoch configuration at genesis.
#[derive(Clone, Copy, Debug, PartialEq, Eq)]
pub struct EpochConfig {
    /// Numerator of the primary-slot probability.
    pub c_numerator: u64,
    /// Denominator of the primary-slot probability.
    pub c_denominator: u64,
    pub allowed_slots: AllowedSlots,
}

/// The genesis epoch configuration: primary-slot probability 1/4, primary
/// and secondary plain slots allowed.
pub open spec fn spec_epoch_config() -> EpochConfig {
    EpochConfig {
        c_numerator: 1,
        c_denominator: 4,
        allowed_slots: AllowedSlots::PrimaryAndSecondaryPlainSlots,
    }
}

/// The epoch configuration written into every genesis document.
pub fn babe_genesis_epoch_config() -> (r: EpochConfig)
    ensures
        r == spec_epoch_config(),
{
    EpochConfig {
        c_numerator: 1,
        c_denominator: 4,
        allowed_slots: AllowedSlots::PrimaryAndSecondaryPlainSlots,
    }
}

/// The staking section of the genesis document.
#[derive(Clone, Debug, PartialEq, Eq)]
pub struct StakingConfig {
    pub validator_count: u32,
    pub minimum_validator_count: u32,
    /// Validators exempt from slashing during bootstrap: all authority
    /// stashes.
    pub invulnerables: Vec<AccountId>,
    /// Fraction of a slash paid to the reporter, in parts per billion.
    pub slash_reward_fraction_ppb: u32,
    pub stakers: Vec<StakerEntry>,
    pub min_validator_bond: u128,
    pub min_nominator_bond: u128,
}

/// The assembled genesis document.
#[derive(Clone, Debug, PartialEq, Eq)]
pub struct GenesisDocument {
    /// The designated root/administrative account.
    pub sudo_key: AccountId,
    /// Per-account endowments, in registry order.
    pub balances: Vec<(AccountId, u128)>,
    pub epoch_config: EpochConfig,
    /// One session-key bundle per authority, keyed by stash.
    pub session_keys: Vec<(AccountId, AccountId, SessionKeys)>,
    pub staking: StakingConfig,
    /// The elected-committee seed list: the first half (rounded up) of the
    /// endowed accounts, each bonded at the stash amount.
    pub elected_committee: Vec<(AccountId, u128)>,
    /// Chain identifier of the EVM-compatibility layer.
    pub evm_chain_id: u64,
    pub evm_accounts: Vec<(EvmAddress, PrefundedEvmAccount)>,
}

/// Every field of `d` is what assembly over these inputs determines; the
/// staker set is passed through unchanged.
pub open spec fn is_assembled(
    d: GenesisDocument,
    sudo_id: Seq<u8>,
    auths: Seq<AuthorityIdentity>,
    endowed_ids: Seq<Seq<u8>>,
    stakers: Seq<StakerEntry>,
    chain_id: u64,
) -> bool {
    &&& d.sudo_key@ == sudo_id
    &&& d.balances@.len() == endowed_ids.len()
    &&& forall|i: int|
        0 <= i < endowed_ids.len() ==> (#[trigger] d.balances@[i]).0@ == endowed_ids[i]
            && d.balances@[i].1 == ENDOWMENT
    &&& d.epoch_config == spec_epoch_config()
    &&& d.session_keys@.len() == auths.len()
    &&& forall|i: int|
        0 <= i < auths.len() ==> (#[trigger] d.session_keys@[i]) == (
            auths[i].stash,
            auths[i].stash,
            SessionKeys {
                grandpa: auths[i].grandpa,
                babe: auths[i].babe,
                im_online: auths[i].im_online,
                authority_discovery: auths[i].authority_discovery,
            },
        )
    &&& d.staking.validator_count as nat == auths.len()
    &&& d.staking.minimum_validator_count as nat == auths.len()
    &&& d.staking.invulnerables@.len() == auths.len()
    &&& forall|i: int|
        0 <= i < auths.len() ==> (#[trigger] d.staking.invulnerables@[i]) == auths[i].stash
    &&& d.staking.slash_reward_fraction_ppb == SLASH_REWARD_FRACTION_PPB
    &&& d.staking.stakers@ == stakers
    &&& d.staking.min_validator_bond == MIN_VALIDATOR_BOND
    &&& d.staking.min_nominator_bond == MIN_NOMINATOR_BOND
    &&& d.elected_committee@.len() == (endowed_ids.len() + 1) / 2
    &&& forall|i: int|
        0 <= i < d.elected_committee@.len() ==> (#[trigger] d.elected_committee@[i]).0@
            == endowed_ids[i] && d.elected_committee@[i].1 == STASH
    &&& d.evm_chain_id == chain_id
    &&& is_prefund_table(d.evm_accounts@)
}

/// Combines the parts into the genesis document. Deterministic: every
/// field is pinned by the inputs.
pub fn assemble_document(
    sudo_key: AccountId,
    authorities: &Vec<AuthorityIdentity>,
    endowed_accounts: &Vec<AccountId>,
    stakers: Vec<StakerEntry>,
    chain_id: u64,
) -> (d: GenesisDocument)
    requires
        authorities@.len() <= u32::MAX,
    ensures
        is_assembled(d, sudo_key@, authorities@, ids_of(endowed_accounts@), stakers@, chain_id),
{
    let mut balances: Vec<(AccountId, u128)> = Vec::new();
    let mut i: usize = 0;
    while i < endowed_accounts.len()
        invariant
            0 <= i <= endowed_accounts@.len(),
            balances@.len() == i,
            forall|k: int|
                0 <= k < i ==> (#[trigger] balances@[k]) == (endowed_accounts@[k], ENDOWMENT),
        decreases endowed_accounts@.len() - i,
    {
        balances.push((endowed_accounts[i], ENDOWMENT));
        i = i + 1;
    }
    let mut session: Vec<(AccountId, AccountId, SessionKeys)> = Vec::new();
    let mut invulnerables: Vec<AccountId> = Vec::new();
    let mut j: usize = 0;
    while j < authorities.len()
        invariant
            0 <= j <= authorities@.len(),
            session@.len() == j,
            invulnerables@.len() == j,
            forall|k: int|
                0 <= k < j ==> (#[trigger] session@[k]) == (
                    authorities@[k].stash,
                    authorities@[k].stash,
                    SessionKeys {
                        grandpa: authorities@[k].grandpa,
                        babe: authorities@[k].babe,
                        im_online: authorities@[k].im_online,
                        authority_discovery: authorities@[k].authority_discovery,
                    },
                ),
            forall|k: int| 0 <= k < j ==> (#[trigger] invulnerables@[k]) == authorities@[k].stash,
        decreases authorities@.len() - j,
    {
        let a = authorities[j];
        session.push((a.stash, a.stash, session_keys(a.grandpa, a.babe, a.im_online,
            a.authority_discovery)));
        invulnerables.push(a.stash);
        j = j + 1;
    }
    let n = endowed_accounts.len();
    let committee_len: usize = n / 2 + n % 2;
    assert(committee_len as int == (n as int + 1) / 2);
    assert(committee_len <= n);
    let mut committee: Vec<(AccountId, u128)> = Vec::new();
    let mut c: usize = 0;
    while c < committee_len
        invariant
            0 <= c <= committee_len,
            committee_len <= endowed_accounts@.len(),
            committee@.len() == c,
            forall|k: int|
                0 <= k < c ==> (#[trigger] committee@[k]) == (endowed_accounts@[k], STASH),
        decreases committee_len - c,
    {
        committee.push((endowed_accounts[c], STASH));
        c = c + 1;
    }
    let validator_count = authorities.len() as u32;
    GenesisDocument {
        sudo_key,
        balances,
        epoch_config: babe_genesis_epoch_config(),
        session_keys: session,
        staking: StakingConfig {
            validator_count,
            minimum_validator_count: validator_count,
            invulnerables,
            slash_reward_fraction_ppb: SLASH_REWARD_FRACTION_PPB,
            stakers,
            min_validator_bond: MIN_VALIDATOR_BOND,
            min_nominator_bond: MIN_NOMINATOR_BOND,
        },
        elected_committee: committee,
        evm_chain_id: chain_id,
        evm_accounts: evm_prefund_table(),
    }
}

/// The identifiers of the endowed register for the given inputs: the
/// explicit list (or the default fixture) with every authority stash and
/// every nominator registered.
pub open spec fn spec_registered_ids(
    endowed: Option<Vec<AccountId>>,
    auths: Seq<AuthorityIdentity>,
    noms: Seq<AccountId>,
) -> Seq<Seq<u8>> {
    spec_register(
        match endowed {
            Option::Some(v) => ids_of(v@),
            Option::None => default_endowed_ids(),
        },
        ids_of(stashes_of(auths)) + ids_of(noms),
    )
}

/// Registers every authority stash and nominator into the endowed set and
/// builds the staker set. Returns the endowed register, its size, and the
/// stakers.
pub fn configure_accounts(
    authorities: &Vec<AuthorityIdentity>,
    nominators: &Vec<AccountId>,
    endowed_accounts: Option<Vec<AccountId>>,
    stash_amount: u128,
) -> (r: (Vec<AccountId>, usize, Vec<StakerEntry>))
    ensures
        ids_of(r.0@) == spec_registered_ids(endowed_accounts, authorities@, nominators@),
        r.1 == r.0@.len(),
        stakers_shape(r.2@, authorities@, nominators@, stash_amount),
{
    let base = match endowed_accounts {
        Option::Some(v) => v,
        Option::None => default_endowed_accounts(),
    };
    let endowed = configure_endowed(base, authorities, nominators);
    let n = endowed.len();
    let stakers = build_stakers(authorities, nominators, stash_amount);
    (endowed, n, stakers)
}

/// Builds the whole genesis document: registers the endowed set, builds
/// the staker set, and assembles the document around them.
pub fn testnet_genesis(
    sudo_key: AccountId,
    initial_authorities: Vec<AuthorityIdentity>,
    initial_nominators: Vec<AccountId>,
    endowed_accounts: Option<Vec<AccountId>>,
    chain_id: u64,
) -> (d: GenesisDocument)
    requires
        initial_authorities@.len() <= u32::MAX,
    ensures
        is_assembled(
            d,
            sudo_key@,
            initial_authorities@,
            spec_registered_ids(endowed_accounts, initial_authorities@, initial_nominators@),
            d.staking.stakers@,
            chain_id,
        ),
        stakers_shape(d.staking.stakers@, initial_authorities@, initial_nominators@, STASH),
{
    let (endowed, _num_endowed, stakers) = configure_accounts(
        &initial_authorities,
        &initial_nominators,
        endowed_accounts,
        STASH,
    );
    assemble_document(sudo_key, &initial_authorities, &endowed, stakers, chain_id)
}

/// Total of the balance entries.
pub open spec fn sum_balances(s: Seq<(AccountId, u128)>) -> int
    decreases s.len(),
{
    if s.len() == 0 {
        0
    } else {
        sum_balances(s.drop_last()) + s.last().1
    }
}

/// Law: balance total — when every balance entry grants the fixed
/// endowment, as assembly ensures, the balances total is the endowed
/// account count times the endowment amount.
pub proof fn lemma_balance_total(s: Seq<(AccountId, u128)>)
    requires
        forall|i: int| 0 <= i < s.len() ==> (#[trigger] s[i]).1 == ENDOWMENT,
    ensures
        sum_balances(s) == s.len() * ENDOWMENT,
    decreases s.len(),
{
    if s.len() == 0 {
    } else {
        lemma_balance_total(s.drop_last());
        assert(s.len() * ENDOWMENT == (s.len() - 1) * ENDOWMENT + ENDOWMENT) by (nonlinear_arith);
    }
}

/// The two prefund tables hold the same addresses and records, field by
/// field.
pub open spec fn evm_tables_agree(
    x: Seq<(EvmAddress, PrefundedEvmAccount)>,
    y: Seq<(EvmAddress, PrefundedEvmAccount)>,
) -> bool {
    &&& x.len() == y.len()
    &&& forall|i: int|
        0 <= i < x.len() ==> (#[trigger] x[i]).0@ == y[i].0@ && x[i].1.balance == y[i].1.balance
            && x[i].1.nonce == y[i].1.nonce && x[i].1.code@ == y[i].1.code@ && x[i].1.storage@
            == y[i].1.storage@
}

/// The two documents agree in every observable field.
pub open spec fn documents_agree(a: GenesisDocument, b: GenesisDocument) -> bool {
    &&& a.sudo_key@ == b.sudo_key@
    &&& a.balances@ == b.balances@
    &&& a.epoch_config == b.epoch_config
    &&& a.session_keys@ == b.session_keys@
    &&& a.staking.validator_count == b.staking.validator_count
    &&& a.staking.minimum_validator_count == b.staking.minimum_validator_count
    &&& a.staking.invulnerables@ == b.staking.invulnerables@
    &&& a.staking.slash_reward_fraction_ppb == b.staking.slash_reward_fraction_ppb
    &&& a.staking.stakers@ == b.staking.stakers@
    &&& a.staking.min_validator_bond == b.staking.min_validator_bond
    &&& a.staking.min_nominator_bond == b.staking.min_nominator_bond
    &&& a.elected_committee@ == b.elected_committee@
    &&& a.evm_chain_id == b.evm_chain_id
    &&& evm_tables_agree(a.evm_accounts@, b.evm_accounts@)
}

/// Law: idempotence of assembly — two documents assembled from identical
/// inputs, with the same (fixed) staker set, agree in every observable
/// field.
pub proof fn lemma_assembly_idempotent(
    d1: GenesisDocument,
    d2: GenesisDocument,
    sudo_id: Seq<u8>,
    auths: Seq<AuthorityIdentity>,
    endowed_ids: Seq<Seq<u8>>,
    stakers: Seq<StakerEntry>,
    chain_id: u64,
)
    requires
        is_assembled(d1, sudo_id, auths, endowed_ids, stakers, chain_id),
        is_assembled(d2, sudo_id, auths, endowed_ids, stakers, chain_id),
    ensures
        documents_agree(d1, d2),
{
    broadcast use vstd::array::group_array_axioms;

    assert forall|i: int| 0 <= i < d1.balances@.len() implies #[trigger] d1.balances@[i]
        == d2.balances@[i] by {
        assert(d1.balances@[i].0.bytes =~= d2.balances@[i].0.bytes);
    }
    assert(d1.balances@ =~= d2.balances@);
    assert(d1.session_keys@ =~= d2.session_keys@);
    assert(d1.staking.invulnerables@ =~= d2.staking.invulnerables@);
    assert forall|i: int| 0 <= i < d1.elected_committee@.len() implies #[trigger] d1
        .elected_committee@[i] == d2.elected_committee@[i] by {
        assert(d1.elected_committee@[i].0.bytes =~= d2.elected_committee@[i].0.bytes);
    }
    assert(d1.elected_committee@ =~= d2.elected_committee@);
    assert(d1.evm_accounts@[1].1.code@ =~= d2.evm_accounts@[1].1.code@);
    assert(d1.evm_accounts@[2].1.code@ =~= d2.evm_accounts@[2].1.code@);
    assert(d1.evm_accounts@[0].1.storage@ =~= d2.evm_accounts@[0].1.storage@);
    assert(d1.evm_accounts@[1].1.storage@ =~= d2.evm_accounts@[1].1.storage@);
    assert(d1.evm_accounts@[2].1.storage@ =~= d2.evm_accounts@[2].1.storage@);
    assert forall|i: int| 0 <= i < d1.evm_accounts@.len() implies (#[trigger] d1.evm_accounts@[i]).0@
        == d2.evm_accounts@[i].0@ && d1.evm_accounts@[i].1.balance == d2.evm_accounts@[i].1.balance
        && d1.evm_accounts@[i].1.nonce == d2.evm_accounts@[i].1.nonce && d1.evm_accounts@[i].1.code@
        == d2.evm_accounts@[i].1.code@ && d1.evm_accounts@[i].1.storage@
        == d2.evm_accounts@[i].1.storage@ by {
        assert(i == 0 || i == 1 || i == 2);
    }
}

/// The development preset: the fixed root account and one authority
/// derived from the seed `"Alith"`, no nominators, the default endowed
/// fixture, chain identifier 42. Fails exactly when seed derivation fails,
/// a startup-fatal misconfiguration.
pub fn development_config_genesis() -> (r: Result<GenesisDocument, InvalidSeedError>)
    ensures
        r is Ok <==> seed_derivable("Alith"@),
        r matches Ok(d) ==> (exists|a: AuthorityIdentity|
            {
                &&& #[trigger] is_identity_of("Alith"@, a)
                &&& is_assembled(
                    d,
                    alith_id(),
                    seq![a],
                    spec_register(default_endowed_ids(), seq![a.stash@]),
                    d.staking.stakers@,
                    42,
                )
                &&& stakers_shape(d.staking.stakers@, seq![a], Seq::<AccountId>::empty(), STASH)
            }),
{
    let authority = match authority_keys_from_seed("Alith") {
        Ok(a) => a,
        Err(e) => {
            return Err(e);
        },
    };
    let mut auths: Vec<AuthorityIdentity> = Vec::new();
    auths.push(authority);
    let noms: Vec<AccountId> = Vec::new();
    let d = testnet_genesis(dev_root_account(), auths, noms, None, 42);
    proof {
        assert(ids_of(stashes_of(seq![authority])) + ids_of(Seq::<AccountId>::empty()) =~= seq![
            authority.stash@,
        ]);
    }
    Ok(d)
}

/// The local-testnet preset: the root account from the seed `"Alith"`,
/// three authorities from the seeds `"Alith"`, `"Baltathar"` and
/// `"Charleth"`, no nominators, the default endowed fixture, chain
/// identifier 42. Fails exactly when a seed derivation fails.
pub fn local_testnet_genesis() -> (r: Result<GenesisDocument, InvalidSeedError>)
    ensures
        r is Ok <==> (seed_derivable("Alith"@) && seed_derivable("Baltathar"@)
            && seed_derivable("Charleth"@)),
        r matches Ok(d) ==> (exists|a1: AuthorityIdentity, a2: AuthorityIdentity, a3: AuthorityIdentity|
            {
                &&& #[trigger] is_identity_of("Alith"@, a1)
                &&& #[trigger] is_identity_of("Baltathar"@, a2)
                &&& #[trigger] is_identity_of("Charleth"@, a3)
                &&& is_assembled(
                    d,
                    alith_id(),
                    seq![a1, a2, a3],
                    spec_register(
                        default_endowed_ids(),
                        seq![a1.stash@, a2.stash@, a3.stash@],
                    ),
                    d.staking.stakers@,
                    42,
                )
                &&& stakers_shape(
                    d.staking.stakers@,
                    seq![a1, a2, a3],
                    Seq::<AccountId>::empty(),
                    STASH,
                )
            }),
{
    let alith = match authority_keys_from_seed("Alith") {
        Ok(a) => a,
        Err(e) => {
            return Err(e);
        },
    };
    let baltathar = match authority_keys_from_seed("Baltathar") {
        Ok(a) => a,
        Err(e) => {
            return Err(e);
        },
    };
    let charleth = match authority_keys_from_seed("Charleth") {
        Ok(a) => a,
        Err(e) => {
            return Err(e);
        },
    };
    let mut auths: Vec<AuthorityIdentity> = Vec::new();
    auths.push(alith);
    auths.push(baltathar);
    auths.push(charleth);
    let noms: Vec<AccountId> = Vec::new();
    let ghost gauths = auths@;
    let ghost gnoms = noms@;
    let d = testnet_genesis(dev_root_account(), auths, noms, None, 42);
    proof {
        assert(gauths =~= seq![alith, baltathar, charleth]);
        assert(gnoms =~= Seq::<AccountId>::empty());
        assert(ids_of(stashes_of(seq![alith, baltathar, charleth])) + ids_of(
            Seq::<AccountId>::empty(),
        ) =~= seq![alith.stash@, baltathar.stash@, charleth.stash@]);
    }
    Ok(d)
}

} // verus!
