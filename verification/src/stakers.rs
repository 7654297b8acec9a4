//! The staker-set builder: validators, and nominators with quota-bounded
//! random nomination subsets.

use vstd::prelude::*;
use crate::account::{AccountId, ids_of};
use crate::keys::AuthorityIdentity;
use crate::registry::{contains_id, stashes_of, unique_ids};

verus! {

/// Protocol bound on how many targets a single nomination may reference.
pub const MAX_NOMINATIONS: u32 = 16;

/// Staking role of one genesis participant.
#[derive(Clone, Debug, PartialEq, Eq)]
pub enum StakerStatus {
    /// The participant validates.
    Validator,
    /// The participant nominates the listed validator stash accounts.
    Nominator(Vec<AccountId>),
}

/// One staker-set entry: stash, controller, bonded amount, role.
pub type StakerEntry = (AccountId, AccountId, u128, StakerStatus);

#[verifier::external_type_specification]
#[verifier::external_body]
pub struct ExThreadRng(rand::rngs::ThreadRng);

/// Relies on `rand::thread_rng`: a handle to the process-local, unseeded
/// random source. Nothing is promised of the values it yields.
#[verifier::external_body]
pub fn fresh_rng() -> rand::rngs::ThreadRng {
    rand::thread_rng()
}

/// Relies on `rand::Rng::gen` at `usize`: one machine word from the
/// generator. Nothing is promised of its value.
#[verifier::external_body]
pub fn random_usize(rng: &mut rand::rngs::ThreadRng) -> usize {
    rand::Rng::gen(rng)
}

/// Relies on `rand::seq::index::sample`: exactly `amount` distinct indices
/// drawn from `0..length`, in unspecified order. It panics only when
/// `amount > length`, which the precondition rules out.
#[verifier::external_body]
pub fn sample_indices(rng: &mut rand::rngs::ThreadRng, length: usize, amount: usize) -> (r: Vec<
    usize,
>)
    requires
        amount <= length,
    ensures
        r@.len() == amount,
        forall|k: int| 0 <= k < r@.len() ==> r@[k] < length,
        forall|k: int, l: int| 0 <= k < l < r@.len() ==> r@[k] != r@[l],
{
    rand::seq::index::sample(rng, length, amount).into_vec()
}

/// `targets` picks the stash accounts of `auths` at the pairwise-distinct
/// positions `idx`.
pub open spec fn is_distinct_selection(
    idx: Seq<int>,
    targets: Seq<AccountId>,
    auths: Seq<AuthorityIdentity>,
) -> bool {
    &&& idx.len() == targets.len()
    &&& forall|k: int|
        0 <= k < idx.len() ==> 0 <= #[trigger] idx[k] < auths.len() && targets[k]
            == auths[idx[k]].stash
    &&& forall|k: int, l: int| 0 <= k < l < idx.len() ==> idx[k] != idx[l]
}

/// Some distinct selection of authority stashes yields `targets`.
pub open spec fn nomination_of(targets: Seq<AccountId>, auths: Seq<AuthorityIdentity>) -> bool {
    exists|idx: Seq<int>| is_distinct_selection(idx, targets, auths)
}

/// The exclusive bound on a nomination count: the smaller of the protocol
/// quota and the authority count.
pub open spec fn spec_limit(n_auth: nat) -> nat {
    if (MAX_NOMINATIONS as nat) < n_auth {
        MAX_NOMINATIONS as nat
    } else {
        n_auth
    }
}

/// `e` is the staker entry of nominator `who`: bonded at `amount`, holding
/// a quota-bounded nomination drawn from the authorities' stashes. When the
/// limit is zero (no authorities) the nomination is empty.
pub open spec fn is_nominator_entry(
    e: StakerEntry,
    who: AccountId,
    auths: Seq<AuthorityIdentity>,
    amount: u128,
) -> bool {
    &&& e.0 == who
    &&& e.1 == who
    &&& e.2 == amount
    &&& (e.3 matches StakerStatus::Nominator(ts) && nomination_of(ts@, auths) && (spec_limit(
        auths.len(),
    ) == 0 ==> ts@.len() == 0) && (spec_limit(auths.len()) > 0 ==> ts@.len() < spec_limit(
        auths.len(),
    )))
}

/// Shape of the built staker set: one validator entry per authority, in
/// order, followed by one nominator entry per nominator, in order.
pub open spec fn stakers_shape(
    s: Seq<StakerEntry>,
    auths: Seq<AuthorityIdentity>,
    noms: Seq<AccountId>,
    amount: u128,
) -> bool {
    &&& s.len() == auths.len() + noms.len()
    &&& forall|i: int|
        0 <= i < auths.len() ==> #[trigger] s[i] == (
            auths[i].stash,
            auths[i].stash,
            amount,
            StakerStatus::Validator,
        )
    &&& forall|j: int|
        0 <= j < noms.len() ==> is_nominator_entry(
            #[trigger] s[auths.len() + j],
            noms[j],
            auths,
            amount,
        )
}

/// Builds the staker set: each authority becomes a validator, each
/// nominator nominates a random, quota-bounded subset of the authorities'
/// stash accounts. The nomination counts and subsets come from the
/// process-local random source, so two calls over the same inputs may
/// differ within the stated shape.
pub fn build_stakers(
    authorities: &Vec<AuthorityIdentity>,
    nominators: &Vec<AccountId>,
    stash_amount: u128,
) -> (r: Vec<StakerEntry>)
    ensures
        stakers_shape(r@, authorities@, nominators@, stash_amount),
{
    let mut r: Vec<StakerEntry> = Vec::new();
    let mut i: usize = 0;
    while i < authorities.len()
        invariant
            0 <= i <= authorities@.len(),
            r@.len() == i,
            forall|k: int|
                0 <= k < i ==> #[trigger] r@[k] == (
                    authorities@[k].stash,
                    authorities@[k].stash,
                    stash_amount,
                    StakerStatus::Validator,
                ),
        decreases authorities@.len() - i,
    {
        let stash = authorities[i].stash;
        r.push((stash, stash, stash_amount, StakerStatus::Validator));
        i = i + 1;
    }
    let mut rng = fresh_rng();
    let limit: usize = if (MAX_NOMINATIONS as usize) < authorities.len() {
        MAX_NOMINATIONS as usize
    } else {
        authorities.len()
    };
    assert(limit as nat == spec_limit(authorities@.len()));
    let mut j: usize = 0;
    while j < nominators.len()
        invariant
            0 <= j <= nominators@.len(),
            r@.len() == authorities@.len() + j,
            limit as nat == spec_limit(authorities@.len()),
            limit <= authorities@.len(),
            forall|k: int|
                0 <= k < authorities@.len() ==> #[trigger] r@[k] == (
                    authorities@[k].stash,
                    authorities@[k].stash,
                    stash_amount,
                    StakerStatus::Validator,
                ),
            forall|l: int|
                0 <= l < j ==> is_nominator_entry(
                    #[trigger] r@[authorities@.len() + l],
                    nominators@[l],
                    authorities@,
                    stash_amount,
                ),
        decreases nominators@.len() - j,
    {
        let who = nominators[j];
        let count: usize = if limit == 0 {
            0
        } else {
            random_usize(&mut rng) % limit
        };
        let idxs = sample_indices(&mut rng, authorities.len(), count);
        let mut targets: Vec<AccountId> = Vec::new();
        let mut m: usize = 0;
        while m < idxs.len()
            invariant
                0 <= m <= idxs@.len(),
                targets@.len() == m,
                forall|k: int| 0 <= k < idxs@.len() ==> #[trigger] idxs@[k] < authorities@.len(),
                forall|k: int, l: int| 0 <= k < l < idxs@.len() ==> idxs@[k] != idxs@[l],
                forall|k: int|
                    0 <= k < m ==> #[trigger] targets@[k] == authorities@[idxs@[k] as int].stash,
            decreases idxs@.len() - m,
        {
            let t = authorities[idxs[m]].stash;
            targets.push(t);
            m = m + 1;
        }
        proof {
            let sel = idxs@.map_values(|u: usize| u as int);
            assert(is_distinct_selection(sel, targets@, authorities@));
            assert(nomination_of(targets@, authorities@));
        }
        r.push((who, who, stash_amount, StakerStatus::Nominator(targets)));
        j = j + 1;
    }
    r
}

/// Law: quota bound — a nomination drawn for authorities whose stash
/// accounts are pairwise distinct holds only authority stashes and no
/// account twice. (Its size bound, below the limit or zero when the limit
/// is zero, is part of `is_nominator_entry`.)
pub proof fn lemma_quota_bound(targets: Seq<AccountId>, auths: Seq<AuthorityIdentity>)
    requires
        nomination_of(targets, auths),
        unique_ids(ids_of(stashes_of(auths))),
    ensures
        forall|k: int|
            0 <= k < targets.len() ==> contains_id(ids_of(stashes_of(auths)), #[trigger] targets[k]@),
        forall|k: int, l: int| 0 <= k < l < targets.len() ==> targets[k]@ != targets[l]@,
{
    let idx = choose|idx: Seq<int>| is_distinct_selection(idx, targets, auths);
    let stash_ids = ids_of(stashes_of(auths));
    assert forall|k: int| 0 <= k < targets.len() implies contains_id(
        stash_ids,
        #[trigger] targets[k]@,
    ) by {
        assert(stash_ids[idx[k]] == targets[k]@);
    }
    assert forall|k: int, l: int| 0 <= k < l < targets.len() implies targets[k]@ != targets[l]@ by {
        assert(stash_ids[idx[k]] == targets[k]@);
        assert(stash_ids[idx[l]] == targets[l]@);
        if idx[k] < idx[l] {
            assert(stash_ids[idx[k]] != stash_ids[idx[l]]);
        } else {
            assert(stash_ids[idx[l]] != stash_ids[idx[k]]);
        }
    }
}

/// How many entries of `s` are validator entries.
pub open spec fn count_validators(s: Seq<StakerEntry>) -> nat
    decreases s.len(),
{
    if s.len() == 0 {
        0
    } else {
        count_validators(s.drop_last()) + (if s.last().3 is Validator {
            1nat
        } else {
            0nat
        })
    }
}

/// A sequence whose first `n` entries are validator entries and whose rest
/// are not counts exactly `n` validators.
proof fn lemma_count_validators_split(s: Seq<StakerEntry>, n: int)
    requires
        0 <= n <= s.len(),
        forall|i: int| 0 <= i < n ==> (#[trigger] s[i].3) is Validator,
        forall|i: int| n <= i < s.len() ==> !((#[trigger] s[i].3) is Validator),
    ensures
        count_validators(s) == n,
    decreases s.len(),
{
    if s.len() == 0 {
    } else {
        let t = s.drop_last();
        if n == s.len() {
            lemma_count_validators_split(t, n - 1);
        } else {
            lemma_count_validators_split(t, n);
        }
    }
}

/// Law: validator completeness — a staker set of the built shape holds
/// exactly one validator entry per authority; that each such entry is the
/// authority's stash bonded at the stash amount is pinned by
/// `stakers_shape` itself.
pub proof fn lemma_validator_completeness(
    s: Seq<StakerEntry>,
    auths: Seq<AuthorityIdentity>,
    noms: Seq<AccountId>,
    amount: u128,
)
    requires
        stakers_shape(s, auths, noms, amount),
    ensures
        count_validators(s) == auths.len(),
{
    assert forall|i: int| auths.len() <= i < s.len() implies !((#[trigger] s[i].3) is Validator) by {
        let l = i - auths.len();
        assert(is_nominator_entry(s[auths.len() + l], noms[l], auths, amount));
    }
    assert forall|i: int| 0 <= i < auths.len() implies (#[trigger] s[i].3) is Validator by {
        assert(s[i] == (auths[i].stash, auths[i].stash, amount, StakerStatus::Validator));
    }
    lemma_count_validators_split(s, auths.len() as int);
}

} // verus!
