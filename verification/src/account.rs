//! Account identifiers and the default endowed-account fixture.

use vstd::prelude::*;

verus! {

broadcast use vstd::array::group_array_axioms;

/// A 20-byte account identifier, equal to the address form of the account's
/// public key.
#[derive(Clone, Copy, Debug, PartialEq, Eq)]
pub struct AccountId {
    pub bytes: [u8; 20],
}

impl View for AccountId {
    type V = Seq<u8>;

    open spec fn view(&self) -> Seq<u8> {
        self.bytes@
    }
}

impl AccountId {
    /// Builds an account identifier from its 20 raw bytes.
    pub fn new(bytes: [u8; 20]) -> (r: AccountId)
        ensures
            r@ == bytes@,
    {
        AccountId { bytes }
    }

    /// Byte-for-byte equality of two account identifiers.
    pub fn equals(&self, other: &AccountId) -> (r: bool)
        ensures
            r <==> self@ == other@,
    {
        let mut i: usize = 0;
        while i < 20
            invariant
                0 <= i <= 20,
                forall|k: int| 0 <= k < i ==> self.bytes@[k] == other.bytes@[k],
            decreases 20 - i,
        {
            if self.bytes[i] != other.bytes[i] {
                assert(self@ != other@);
                return false;
            }
            i = i + 1;
        }
        assert(self@ =~= other@);
        true
    }
}

/// The raw identifiers of a sequence of accounts, in order.
pub open spec fn ids_of(s: Seq<AccountId>) -> Seq<Seq<u8>> {
    s.map_values(|a: AccountId| a@)
}

/// Identifier of the first default development account ("Alith"), also the
/// development root account.
pub open spec fn alith_id() -> Seq<u8> {
    seq![
        0xf2u8, 0x4f, 0xf3, 0xa9, 0xcf, 0x04, 0xc7, 0x1d, 0xbc, 0x94,
        0xd0, 0xb5, 0x66, 0xf7, 0xa2, 0x7b, 0x94, 0x56, 0x6c, 0xac,
    ]
}

/// Identifier of the second default development account ("Baltathar").
pub open spec fn baltathar_id() -> Seq<u8> {
    seq![
        0x3cu8, 0xd0, 0xa7, 0x05, 0xa2, 0xdc, 0x65, 0xe5, 0xb1, 0xe1,
        0x20, 0x58, 0x96, 0xba, 0xa2, 0xbe, 0x8a, 0x07, 0xc6, 0xe0,
    ]
}

/// Identifier of the third default development account ("Charleth").
pub open spec fn charleth_id() -> Seq<u8> {
    seq![
        0x79u8, 0x8d, 0x4b, 0xa9, 0xba, 0xf0, 0x06, 0x4e, 0xc1, 0x9e,
        0xb4, 0xf0, 0xa1, 0xa4, 0x57, 0x85, 0xae, 0x9d, 0x6d, 0xfc,
    ]
}

/// Identifier of the fourth default development account ("Dorothy").
pub open spec fn dorothy_id() -> Seq<u8> {
    seq![
        0x77u8, 0x35, 0x39, 0xd4, 0xac, 0x0e, 0x78, 0x62, 0x33, 0xd9,
        0x0a, 0x23, 0x36, 0x54, 0xcc, 0xee, 0x26, 0xa6, 0x13, 0xd9,
    ]
}

/// Identifier of the fifth default development account ("Ethan").
pub open spec fn ethan_id() -> Seq<u8> {
    seq![
        0xffu8, 0x64, 0xd3, 0xf6, 0xef, 0xe2, 0x31, 0x7e, 0xe2, 0x80,
        0x7d, 0x22, 0x3a, 0x0b, 0xdc, 0x4c, 0x0c, 0x49, 0xdf, 0xdb,
    ]
}

/// Identifier of the sixth default development account ("Faith").
pub open spec fn faith_id() -> Seq<u8> {
    seq![
        0xc0u8, 0xf0, 0xf4, 0xab, 0x32, 0x4c, 0x46, 0xe5, 0x5d, 0x02,
        0xd0, 0x03, 0x33, 0x43, 0xb4, 0xbe, 0x8a, 0x55, 0x53, 0x2d,
    ]
}

/// The identifiers of the six-account default endowed fixture, in order.
pub open spec fn default_endowed_ids() -> Seq<Seq<u8>> {
    seq![alith_id(), baltathar_id(), charleth_id(), dorothy_id(), ethan_id(), faith_id()]
}

/// The default endowed-account fixture used when no explicit list is given.
pub fn default_endowed_accounts() -> (r: Vec<AccountId>)
    ensures
        ids_of(r@) == default_endowed_ids(),
{
    let mut v: Vec<AccountId> = Vec::new();
    v.push(AccountId::new([
        0xf2, 0x4f, 0xf3, 0xa9, 0xcf, 0x04, 0xc7, 0x1d, 0xbc, 0x94,
        0xd0, 0xb5, 0x66, 0xf7, 0xa2, 0x7b, 0x94, 0x56, 0x6c, 0xac,
    ]));
    v.push(AccountId::new([
        0x3c, 0xd0, 0xa7, 0x05, 0xa2, 0xdc, 0x65, 0xe5, 0xb1, 0xe1,
        0x20, 0x58, 0x96, 0xba, 0xa2, 0xbe, 0x8a, 0x07, 0xc6, 0xe0,
    ]));
    v.push(AccountId::new([
        0x79, 0x8d, 0x4b, 0xa9, 0xba, 0xf0, 0x06, 0x4e, 0xc1, 0x9e,
        0xb4, 0xf0, 0xa1, 0xa4, 0x57, 0x85, 0xae, 0x9d, 0x6d, 0xfc,
    ]));
    v.push(AccountId::new([
        0x77, 0x35, 0x39, 0xd4, 0xac, 0x0e, 0x78, 0x62, 0x33, 0xd9,
        0x0a, 0x23, 0x36, 0x54, 0xcc, 0xee, 0x26, 0xa6, 0x13, 0xd9,
    ]));
    v.push(AccountId::new([
        0xff, 0x64, 0xd3, 0xf6, 0xef, 0xe2, 0x31, 0x7e, 0xe2, 0x80,
        0x7d, 0x22, 0x3a, 0x0b, 0xdc, 0x4c, 0x0c, 0x49, 0xdf, 0xdb,
    ]));
    v.push(AccountId::new([
        0xc0, 0xf0, 0xf4, 0xab, 0x32, 0x4c, 0x46, 0xe5, 0x5d, 0x02,
        0xd0, 0x03, 0x33, 0x43, 0xb4, 0xbe, 0x8a, 0x55, 0x53, 0x2d,
    ]));
    proof {
        assert(v@[0]@ =~= alith_id());
        assert(v@[1]@ =~= baltathar_id());
        assert(v@[2]@ =~= charleth_id());
        assert(v@[3]@ =~= dorothy_id());
        assert(v@[4]@ =~= ethan_id());
        assert(v@[5]@ =~= faith_id());
        assert(ids_of(v@) =~= default_endowed_ids());
    }
    v
}

/// The designated development root ("sudo") account.
pub fn dev_root_account() -> (r: AccountId)
    ensures
        r@ == alith_id(),
{
    let r = AccountId::new([
        0xf2, 0x4f, 0xf3, 0xa9, 0xcf, 0x04, 0xc7, 0x1d, 0xbc, 0x94,
        0xd0, 0xb5, 0x66, 0xf7, 0xa2, 0x7b, 0x94, 0x56, 0x6c, 0xac,
    ]);
    proof {
        assert(r@ =~= alith_id());
    }
    r
}

} // verus!
