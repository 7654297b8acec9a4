//! The endowed-account registry: an ordered, duplicate-free account set.

use vstd::prelude::*;
use crate::account::{AccountId, ids_of};
use crate::keys::AuthorityIdentity;

verus! {

/// The stash accounts of a sequence of authorities, in order.
pub open spec fn stashes_of(s: Seq<AuthorityIdentity>) -> Seq<AccountId> {
    s.map_values(|a: AuthorityIdentity| a.stash)
}

/// Whether `id` occurs in `s`.
pub open spec fn contains_id(s: Seq<Seq<u8>>, id: Seq<u8>) -> bool {
    exists|k: int| 0 <= k < s.len() && s[k] == id
}

/// One registration step: append `id` unless it is already present.
pub open spec fn register_step(s: Seq<Seq<u8>>, id: Seq<u8>) -> Seq<Seq<u8>> {
    if contains_id(s, id) {
        s
    } else {
        s.push(id)
    }
}

/// The register that results from starting at `base` and registering each
/// identifier of `extra` in turn, keeping the order of first appearance.
pub open spec fn spec_register(base: Seq<Seq<u8>>, extra: Seq<Seq<u8>>) -> Seq<Seq<u8>>
    decreases extra.len(),
{
    if extra.len() == 0 {
        base
    } else {
        spec_register(register_step(base, extra[0]), extra.drop_first())
    }
}

/// Registering one more identifier at the end applies one step to the
/// finished register.
pub proof fn lemma_register_snoc(base: Seq<Seq<u8>>, extra: Seq<Seq<u8>>, id: Seq<u8>)
    ensures
        spec_register(base, extra.push(id)) == register_step(spec_register(base, extra), id),
    decreases extra.len(),
{
    reveal_with_fuel(spec_register, 2);
    if extra.len() == 0 {
        assert(extra.push(id)[0] == id);
        assert(extra.push(id).drop_first() =~= Seq::<Seq<u8>>::empty());
    } else {
        assert(extra.push(id)[0] == extra[0]);
        assert(extra.push(id).drop_first() =~= extra.drop_first().push(id));
        lemma_register_snoc(register_step(base, extra[0]), extra.drop_first(), id);
        assert(spec_register(base, extra.push(id)) == spec_register(
            register_step(base, extra[0]),
            extra.drop_first().push(id),
        ));
    }
}

/// Whether `s` holds no identifier twice.
pub open spec fn unique_ids(s: Seq<Seq<u8>>) -> bool {
    forall|i: int, j: int| 0 <= i < j < s.len() ==> s[i] != s[j]
}

/// How many times `id` occurs in `s`.
pub open spec fn count_id(s: Seq<Seq<u8>>, id: Seq<u8>) -> nat
    decreases s.len(),
{
    if s.len() == 0 {
        0
    } else {
        count_id(s.drop_last(), id) + (if s.last() == id {
            1nat
        } else {
            0nat
        })
    }
}

/// In a duplicate-free sequence an identifier occurs exactly once or not at
/// all.
pub proof fn lemma_unique_count(s: Seq<Seq<u8>>, id: Seq<u8>)
    requires
        unique_ids(s),
    ensures
        count_id(s, id) == (if contains_id(s, id) {
            1nat
        } else {
            0nat
        }),
    decreases s.len(),
{
    if s.len() == 0 {
    } else {
        let t = s.drop_last();
        assert(unique_ids(t));
        lemma_unique_count(t, id);
        if s.last() == id {
            assert(!contains_id(t, id)) by {
                if contains_id(t, id) {
                    let k = choose|k: int| 0 <= k < t.len() && t[k] == id;
                    assert(s[k] == s[s.len() - 1]);
                }
            }
            assert(s[s.len() - 1] == id);
            assert(contains_id(s, id));
        } else {
            assert(contains_id(s, id) == contains_id(t, id)) by {
                if contains_id(s, id) {
                    let k = choose|k: int| 0 <= k < s.len() && s[k] == id;
                    assert(k < s.len() - 1);
                    assert(t[k] == id);
                }
                if contains_id(t, id) {
                    let k = choose|k: int| 0 <= k < t.len() && t[k] == id;
                    assert(s[k] == id);
                }
            }
        }
    }
}

/// Membership through one registration step.
proof fn lemma_step_membership(s: Seq<Seq<u8>>, x: Seq<u8>, id: Seq<u8>)
    ensures
        contains_id(register_step(s, x), id) <==> (contains_id(s, id) || id == x),
{
    if contains_id(s, x) {
        if id == x {
            let k = choose|k: int| 0 <= k < s.len() && s[k] == x;
            assert(s[k] == id);
        }
    } else {
        let t = s.push(x);
        if contains_id(s, id) {
            let k = choose|k: int| 0 <= k < s.len() && s[k] == id;
            assert(t[k] == id);
        }
        assert(t[s.len() as int] == x);
        if contains_id(t, id) && id != x {
            let k = choose|k: int| 0 <= k < t.len() && t[k] == id;
            assert(k < s.len());
            assert(s[k] == id);
        }
    }
}

/// One registration step keeps the register duplicate-free.
proof fn lemma_step_unique(s: Seq<Seq<u8>>, x: Seq<u8>)
    requires
        unique_ids(s),
    ensures
        unique_ids(register_step(s, x)),
{
    if !contains_id(s, x) {
        let t = s.push(x);
        assert forall|i: int, j: int| 0 <= i < j < t.len() implies t[i] != t[j] by {
            if j == s.len() {
                assert(t[i] == s[i]);
                if t[i] == x {
                    assert(contains_id(s, x));
                }
            } else {
                assert(t[i] == s[i] && t[j] == s[j]);
            }
        }
    }
}

/// An identifier is in a nonempty sequence exactly when it heads it or is in
/// the rest.
proof fn lemma_contains_cons(e: Seq<Seq<u8>>, id: Seq<u8>)
    requires
        e.len() > 0,
    ensures
        contains_id(e, id) <==> (e[0] == id || contains_id(e.drop_first(), id)),
{
    if contains_id(e, id) {
        let k = choose|k: int| 0 <= k < e.len() && e[k] == id;
        if k > 0 {
            assert(e.drop_first()[k - 1] == id);
        }
    }
    if contains_id(e.drop_first(), id) {
        let k = choose|k: int| 0 <= k < e.drop_first().len() && e.drop_first()[k] == id;
        assert(e[k + 1] == id);
    }
}

/// The register holds exactly the identifiers of `base` and `extra`, and is
/// duplicate-free whenever `base` is.
pub proof fn lemma_register_membership(base: Seq<Seq<u8>>, extra: Seq<Seq<u8>>)
    ensures
        forall|id: Seq<u8>|
            #[trigger] contains_id(spec_register(base, extra), id) <==> (contains_id(base, id)
                || contains_id(extra, id)),
        unique_ids(base) ==> unique_ids(spec_register(base, extra)),
    decreases extra.len(),
{
    if extra.len() == 0 {
    } else {
        let s1 = register_step(base, extra[0]);
        lemma_register_membership(s1, extra.drop_first());
        assert forall|id: Seq<u8>|
            #[trigger] contains_id(spec_register(base, extra), id) <==> (contains_id(base, id)
                || contains_id(extra, id)) by {
            lemma_step_membership(base, extra[0], id);
            lemma_contains_cons(extra, id);
            assert(spec_register(base, extra) == spec_register(s1, extra.drop_first()));
        }
        if unique_ids(base) {
            lemma_step_unique(base, extra[0]);
        }
    }
}

/// Law: registry completeness — starting from a duplicate-free list, every
/// registered identifier (each authority stash and each nominator account)
/// occurs exactly once in the register, every identifier of the starting
/// list stays exactly once, the register holds nothing else, and it holds
/// no duplicates.
pub proof fn lemma_registry_complete(base: Seq<Seq<u8>>, extra: Seq<Seq<u8>>)
    requires
        unique_ids(base),
    ensures
        unique_ids(spec_register(base, extra)),
        forall|k: int|
            0 <= k < extra.len() ==> count_id(spec_register(base, extra), extra[k]) == 1,
        forall|k: int|
            0 <= k < base.len() ==> count_id(spec_register(base, extra), base[k]) == 1,
        forall|id: Seq<u8>|
            #[trigger] contains_id(spec_register(base, extra), id) ==> (contains_id(base, id)
                || contains_id(extra, id)),
{
    let r = spec_register(base, extra);
    lemma_register_membership(base, extra);
    assert forall|k: int| 0 <= k < extra.len() implies count_id(r, extra[k]) == 1 by {
        assert(contains_id(extra, extra[k]));
        assert(contains_id(r, extra[k]));
        lemma_unique_count(r, extra[k]);
    }
    assert forall|k: int| 0 <= k < base.len() implies count_id(r, base[k]) == 1 by {
        assert(contains_id(base, base[k]));
        assert(contains_id(r, base[k]));
        lemma_unique_count(r, base[k]);
    }
}

/// The default endowed fixture holds six pairwise-distinct accounts, so
/// the registry-completeness law applies to the presets built on it.
pub proof fn lemma_default_fixture_unique()
    ensures
        unique_ids(crate::account::default_endowed_ids()),
{
    let ids = crate::account::default_endowed_ids();
    assert forall|i: int, j: int| 0 <= i < j < ids.len() implies ids[i] != ids[j] by {
        assert(ids[i][0] != ids[j][0]);
    }
}

/// Membership test against a vector of accounts.
pub fn contains_account(v: &Vec<AccountId>, a: &AccountId) -> (r: bool)
    ensures
        r == contains_id(ids_of(v@), a@),
{
    let mut i: usize = 0;
    while i < v.len()
        invariant
            0 <= i <= v@.len(),
            forall|k: int| 0 <= k < i ==> v@[k]@ != a@,
        decreases v@.len() - i,
    {
        if v[i].equals(a) {
            assert(ids_of(v@)[i as int] == a@);
            return true;
        }
        i = i + 1;
    }
    false
}

/// Builds the endowed-account register: starting from `base`, appends each
/// authority stash and then each nominator account that is not already
/// present, preserving the order of first appearance.
pub fn configure_endowed(
    base: Vec<AccountId>,
    authorities: &Vec<AuthorityIdentity>,
    nominators: &Vec<AccountId>,
) -> (r: Vec<AccountId>)
    ensures
        ids_of(r@) == spec_register(
            ids_of(base@),
            ids_of(stashes_of(authorities@)) + ids_of(nominators@),
        ),
{
    let ghost base_ids = ids_of(base@);
    let ghost extra = ids_of(stashes_of(authorities@)) + ids_of(nominators@);
    let ghost n_auth = authorities@.len() as int;
    let mut acc = base;
    let mut i: usize = 0;
    while i < authorities.len()
        invariant
            0 <= i <= authorities@.len(),
            extra == ids_of(stashes_of(authorities@)) + ids_of(nominators@),
            n_auth == authorities@.len() as int,
            ids_of(acc@) == spec_register(base_ids, extra.take(i as int)),
        decreases authorities@.len() - i,
    {
        let stash = authorities[i].stash;
        proof {
            assert(extra.take(i + 1) =~= extra.take(i as int).push(extra[i as int]));
            assert(extra[i as int] == stash@);
            lemma_register_snoc(base_ids, extra.take(i as int), stash@);
        }
        if !contains_account(&acc, &stash) {
            acc.push(stash);
        }
        proof {
            assert(ids_of(acc@) =~= spec_register(base_ids, extra.take(i + 1)));
        }
        i = i + 1;
    }
    let mut j: usize = 0;
    while j < nominators.len()
        invariant
            0 <= j <= nominators@.len(),
            extra == ids_of(stashes_of(authorities@)) + ids_of(nominators@),
            n_auth == authorities@.len() as int,
            ids_of(acc@) == spec_register(base_ids, extra.take(n_auth + j)),
        decreases nominators@.len() - j,
    {
        let nominator = nominators[j];
        proof {
            assert(extra.take(n_auth + j + 1) =~= extra.take(n_auth + j).push(
                extra[n_auth + j],
            ));
            assert(extra[n_auth + j] == nominator@);
            lemma_register_snoc(base_ids, extra.take(n_auth + j), nominator@);
        }
        if !contains_account(&acc, &nominator) {
            acc.push(nominator);
        }
        proof {
            assert(ids_of(acc@) =~= spec_register(base_ids, extra.take(n_auth + j + 1)));
        }
        j = j + 1;
    }
    proof {
        assert(extra.take(n_auth + nominators@.len()) =~= extra);
    }
    acc
}

} // verus!
