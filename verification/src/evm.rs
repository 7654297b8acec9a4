//! The fixed table of pre-funded EVM accounts.

use vstd::prelude::*;

verus! {

/// A 20-byte EVM address.
#[derive(Clone, Copy, Debug, PartialEq, Eq)]
pub struct EvmAddress {
    pub bytes: [u8; 20],
}

impl View for EvmAddress {
    type V = Seq<u8>;

    open spec fn view(&self) -> Seq<u8> {
        self.bytes@
    }
}

/// One pre-funded EVM account record.
#[derive(Clone, Debug, PartialEq, Eq)]
pub struct PrefundedEvmAccount {
    pub balance: u128,
    pub nonce: u64,
    pub code: Vec<u8>,
    /// Storage cells as 32-byte key/value pairs; empty for every account in
    /// the fixed table.
    pub storage: Vec<([u8; 32], [u8; 32])>,
}

/// Balance of the two conventional development accounts: the largest value
/// a 128-bit balance can hold.
pub const PREFUND_FULL_BALANCE: u128 = 0xffffffffffffffffffffffffffffffff;

/// Balance of the benchmarking account: one million tokens at 18 decimals.
pub const BENCHMARK_BALANCE: u128 = 1_000_000_000_000_000_000_000_000;

/// Address reserved for benchmark usage.
pub open spec fn benchmark_evm_address() -> Seq<u8> {
    seq![
        0x10u8, 0x00, 0x00, 0x00, 0x00, 0x00, 0x00, 0x00, 0x00, 0x00,
        0x00, 0x00, 0x00, 0x00, 0x00, 0x00, 0x00, 0x00, 0x00, 0x01,
    ]
}

/// Address of the continuous-integration test-runner account.
pub open spec fn ci_runner_evm_address() -> Seq<u8> {
    seq![
        0x6bu8, 0xe0, 0x2d, 0x1d, 0x36, 0x65, 0x66, 0x0d, 0x22, 0xff,
        0x96, 0x24, 0xb7, 0xbe, 0x05, 0x51, 0xee, 0x1a, 0xc9, 0x1b,
    ]
}

/// Address of the conventional first development account: the first 20
/// bytes of its 32-byte public key.
pub open spec fn dev_first_evm_address() -> Seq<u8> {
    seq![
        0xd4u8, 0x35, 0x93, 0xc7, 0x15, 0xfd, 0xd3, 0x1c, 0x61, 0x14,
        0x1a, 0xbd, 0x04, 0xa9, 0x9f, 0xd6, 0x82, 0x2c, 0x85, 0x58,
    ]
}

/// `t` is exactly the fixed prefund table, in ascending address order: the
/// benchmarking account (nonce 1, one-byte placeholder code), then the CI
/// test-runner account, then the first development account.
pub open spec fn is_prefund_table(t: Seq<(EvmAddress, PrefundedEvmAccount)>) -> bool {
    &&& t.len() == 3
    &&& t[0].0@ == benchmark_evm_address()
    &&& t[0].1.balance == BENCHMARK_BALANCE
    &&& t[0].1.nonce == 1
    &&& t[0].1.code@ == seq![0x00u8]
    &&& t[0].1.storage@.len() == 0
    &&& t[1].0@ == ci_runner_evm_address()
    &&& t[1].1.balance == PREFUND_FULL_BALANCE
    &&& t[1].1.nonce == 0
    &&& t[1].1.code@.len() == 0
    &&& t[1].1.storage@.len() == 0
    &&& t[2].0@ == dev_first_evm_address()
    &&& t[2].1.balance == PREFUND_FULL_BALANCE
    &&& t[2].1.nonce == 0
    &&& t[2].1.code@.len() == 0
    &&& t[2].1.storage@.len() == 0
}

/// Builds the fixed prefund table. Independent of every other input to the
/// genesis document; the addresses, balances, nonces and code bytes are
/// consensus-relevant literals.
pub fn evm_prefund_table() -> (r: Vec<(EvmAddress, PrefundedEvmAccount)>)
    ensures
        is_prefund_table(r@),
{
    let mut r: Vec<(EvmAddress, PrefundedEvmAccount)> = Vec::new();
    let mut benchmark_code: Vec<u8> = Vec::new();
    benchmark_code.push(0x00);
    assert(benchmark_code@ =~= seq![0x00u8]);
    r.push((
        EvmAddress {
            bytes: [
                0x10, 0x00, 0x00, 0x00, 0x00, 0x00, 0x00, 0x00, 0x00, 0x00,
                0x00, 0x00, 0x00, 0x00, 0x00, 0x00, 0x00, 0x00, 0x00, 0x01,
            ],
        },
        PrefundedEvmAccount {
            balance: BENCHMARK_BALANCE,
            nonce: 1,
            code: benchmark_code,
            storage: Vec::new(),
        },
    ));
    r.push((
        EvmAddress {
            bytes: [
                0x6b, 0xe0, 0x2d, 0x1d, 0x36, 0x65, 0x66, 0x0d, 0x22, 0xff,
                0x96, 0x24, 0xb7, 0xbe, 0x05, 0x51, 0xee, 0x1a, 0xc9, 0x1b,
            ],
        },
        PrefundedEvmAccount {
            balance: PREFUND_FULL_BALANCE,
            nonce: 0,
            code: Vec::new(),
            storage: Vec::new(),
        },
    ));
    r.push((
        EvmAddress {
            bytes: [
                0xd4, 0x35, 0x93, 0xc7, 0x15, 0xfd, 0xd3, 0x1c, 0x61, 0x14,
                0x1a, 0xbd, 0x04, 0xa9, 0x9f, 0xd6, 0x82, 0x2c, 0x85, 0x58,
            ],
        },
        PrefundedEvmAccount {
            balance: PREFUND_FULL_BALANCE,
            nonce: 0,
            code: Vec::new(),
            storage: Vec::new(),
        },
    ));
    proof {
        assert(r@[0].0@ =~= benchmark_evm_address());
        assert(r@[1].0@ =~= ci_runner_evm_address());
        assert(r@[2].0@ =~= dev_first_evm_address());
    }
    r
}

} // verus!
