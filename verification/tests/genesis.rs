use genesis_composer::account::{default_endowed_accounts, dev_root_account, AccountId};
use genesis_composer::document::{
    assemble_document, configure_accounts, development_config_genesis, local_testnet_genesis,
    testnet_genesis, AllowedSlots, ENDOWMENT, STASH,
};
use genesis_composer::evm::evm_prefund_table;
use genesis_composer::identity::authority_keys_from_seed;
use genesis_composer::keys::{
    AuthorityDiscoveryKey, AuthorityIdentity, BabeKey, GrandpaKey, ImOnlineKey,
};
use genesis_composer::registry::configure_endowed;
use genesis_composer::stakers::{build_stakers, StakerStatus};

const ALITH: [u8; 20] = [
    0xf2, 0x4f, 0xf3, 0xa9, 0xcf, 0x04, 0xc7, 0x1d, 0xbc, 0x94, 0xd0, 0xb5, 0x66, 0xf7, 0xa2,
    0x7b, 0x94, 0x56, 0x6c, 0xac,
];

/// A synthetic authority whose stash holds `tag` in every byte; the service
/// keys are immaterial for registry and staker tests.
fn synthetic_authority(tag: u8) -> AuthorityIdentity {
    AuthorityIdentity {
        stash: AccountId::new([tag; 20]),
        controller: AccountId::new([tag; 20]),
        grandpa: GrandpaKey { bytes: [tag; 32] },
        babe: BabeKey { bytes: [tag; 32] },
        im_online: ImOnlineKey { bytes: [tag; 32] },
        authority_discovery: AuthorityDiscoveryKey { bytes: [tag; 32] },
    }
}

fn account(tag: u8) -> AccountId {
    AccountId::new([tag; 20])
}

#[test]
fn identity_derivation_is_deterministic() {
    let a = authority_keys_from_seed("Alith").expect("static seed derives");
    let b = authority_keys_from_seed("Alith").expect("static seed derives");
    assert_eq!(a, b);
}

#[test]
fn stash_and_controller_accounts_differ() {
    let a = authority_keys_from_seed("Alith").expect("static seed derives");
    assert_ne!(a.stash, a.controller);
}

#[test]
fn distinct_seeds_derive_distinct_accounts() {
    let a = authority_keys_from_seed("Alith").expect("static seed derives");
    let b = authority_keys_from_seed("Baltathar").expect("static seed derives");
    assert_ne!(a.controller, b.controller);
    assert_ne!(a.stash, b.stash);
    assert_ne!(a.grandpa.bytes, b.grandpa.bytes);
    assert_ne!(a.babe.bytes, b.babe.bytes);
}

#[test]
fn grandpa_key_uses_its_own_scheme() {
    let a = authority_keys_from_seed("Alith").expect("static seed derives");
    assert_ne!(a.grandpa.bytes, a.babe.bytes);
}

#[test]
fn alith_account_derivation_is_stable() {
    // Pins the derivation chain (seed string -> ECDSA public key ->
    // keccak-256 address) to its known output, so a wrapper that altered or
    // passed through its input would be caught.
    let a = authority_keys_from_seed("Alith").expect("static seed derives");
    let expected: [u8; 20] = [
        0xe4, 0xb7, 0xba, 0x4e, 0x2d, 0xca, 0x27, 0xac, 0x03, 0xc8, 0xc3, 0x16, 0xcd, 0xd9,
        0x40, 0xed, 0x6f, 0x56, 0x55, 0x09,
    ];
    assert_eq!(a.controller.bytes, expected);
    // The hardcoded endowed fixture is a distinct, literal address list: the
    // derived account is not one of its entries.
    assert_ne!(a.controller.bytes, ALITH);
}

#[test]
fn empty_seed_is_rejected() {
    // "//" alone is not a valid derivation path, so the empty seed is the
    // one literal that cannot derive an identity.
    assert!(authority_keys_from_seed("").is_err());
}

#[test]
fn registry_appends_missing_participants_once() {
    let base = vec![account(1), account(2)];
    let authorities = vec![synthetic_authority(2), synthetic_authority(3)];
    let nominators = vec![account(3), account(4)];
    let endowed = configure_endowed(base, &authorities, &nominators);
    let expected = vec![account(1), account(2), account(3), account(4)];
    assert_eq!(endowed, expected);
}

#[test]
fn registry_keeps_first_appearance_order() {
    let base = vec![account(9)];
    let authorities = vec![synthetic_authority(5)];
    let nominators = vec![account(9), account(5), account(7)];
    let endowed = configure_endowed(base, &authorities, &nominators);
    assert_eq!(endowed, vec![account(9), account(5), account(7)]);
}

#[test]
fn stakers_quota_bound_holds() {
    let authorities = vec![
        synthetic_authority(1),
        synthetic_authority(2),
        synthetic_authority(3),
    ];
    let nominators = vec![account(10), account(11), account(12), account(13)];
    let stakers = build_stakers(&authorities, &nominators, STASH);
    assert_eq!(stakers.len(), 7);
    let stash_set: Vec<AccountId> = authorities.iter().map(|a| a.stash).collect();
    for entry in stakers.iter().skip(3) {
        match &entry.3 {
            StakerStatus::Nominator(targets) => {
                // fewer targets than min(quota, authority count) = 3
                assert!(targets.len() < 3);
                for t in targets {
                    assert!(stash_set.contains(t));
                }
                for i in 0..targets.len() {
                    for j in (i + 1)..targets.len() {
                        assert_ne!(targets[i], targets[j]);
                    }
                }
            }
            StakerStatus::Validator => panic!("nominator entry must not validate"),
        }
    }
}

#[test]
fn nominations_respect_protocol_quota() {
    // With more authorities than the protocol quota of 16, the quota is the
    // binding bound.
    let authorities: Vec<AuthorityIdentity> = (1..=20).map(synthetic_authority).collect();
    let nominators = vec![account(99)];
    let stakers = build_stakers(&authorities, &nominators, STASH);
    match &stakers[20].3 {
        StakerStatus::Nominator(targets) => assert!(targets.len() < 16),
        StakerStatus::Validator => panic!("nominator entry must not validate"),
    }
}

#[test]
fn stakers_with_no_authorities_get_empty_nominations() {
    let authorities: Vec<AuthorityIdentity> = Vec::new();
    let nominators = vec![account(10)];
    let stakers = build_stakers(&authorities, &nominators, STASH);
    assert_eq!(stakers.len(), 1);
    match &stakers[0].3 {
        StakerStatus::Nominator(targets) => assert!(targets.is_empty()),
        StakerStatus::Validator => panic!("nominator entry must not validate"),
    }
}

#[test]
fn every_authority_becomes_one_validator_entry() {
    let authorities = vec![
        synthetic_authority(1),
        synthetic_authority(2),
        synthetic_authority(3),
    ];
    let stakers = build_stakers(&authorities, &Vec::new(), STASH);
    assert_eq!(stakers.len(), 3);
    for (i, entry) in stakers.iter().enumerate() {
        assert_eq!(entry.0, authorities[i].stash);
        assert_eq!(entry.1, authorities[i].stash);
        assert_eq!(entry.2, STASH);
        assert!(matches!(entry.3, StakerStatus::Validator));
    }
}

#[test]
fn balance_total_is_count_times_endowment() {
    let d = development_config_genesis().expect("static seeds derive");
    let total: u128 = d.balances.iter().map(|b| b.1).sum();
    assert_eq!(total, d.balances.len() as u128 * ENDOWMENT);
}

#[test]
fn committee_is_front_half_of_registry_rounded_up() {
    let endowed = vec![account(1), account(2), account(3), account(4), account(5)];
    let d = testnet_genesis(account(9), Vec::new(), Vec::new(), Some(endowed), 7);
    assert_eq!(d.elected_committee.len(), 3);
    for (i, (member, bond)) in d.elected_committee.iter().enumerate() {
        assert_eq!(*member, account((i + 1) as u8));
        assert_eq!(*bond, STASH);
    }
}

#[test]
fn development_preset_shape() {
    let d = development_config_genesis().expect("static seeds derive");
    assert_eq!(d.sudo_key, dev_root_account());
    assert_eq!(d.staking.stakers.len(), 1);
    assert!(matches!(d.staking.stakers[0].3, StakerStatus::Validator));
    assert_eq!(d.staking.stakers[0].2, STASH);
    assert_eq!(d.staking.invulnerables.len(), 1);
    assert_eq!(d.staking.validator_count, 1);
    // six fixture accounts plus the derived Alith stash account
    assert_eq!(d.balances.len(), 7);
    assert_eq!(d.elected_committee.len(), 4);
    assert_eq!(d.evm_chain_id, 42);
    assert_eq!(d.epoch_config.c_numerator, 1);
    assert_eq!(d.epoch_config.c_denominator, 4);
    assert_eq!(
        d.epoch_config.allowed_slots,
        AllowedSlots::PrimaryAndSecondaryPlainSlots
    );
}

#[test]
fn local_testnet_preset_shape() {
    let d = local_testnet_genesis().expect("static seeds derive");
    assert_eq!(d.staking.stakers.len(), 3);
    for entry in &d.staking.stakers {
        assert!(matches!(entry.3, StakerStatus::Validator));
    }
    assert_eq!(d.staking.validator_count, 3);
    assert_eq!(d.staking.minimum_validator_count, 3);
    assert_eq!(d.staking.invulnerables.len(), 3);
    // six fixture accounts plus three derived stash accounts
    assert_eq!(d.balances.len(), 9);
}

#[test]
fn evm_prefund_table_is_fixed() {
    let t = evm_prefund_table();
    assert_eq!(t.len(), 3);
    let benchmark: [u8; 20] = [
        0x10, 0x00, 0x00, 0x00, 0x00, 0x00, 0x00, 0x00, 0x00, 0x00, 0x00, 0x00, 0x00, 0x00,
        0x00, 0x00, 0x00, 0x00, 0x00, 0x01,
    ];
    let ci_runner: [u8; 20] = [
        0x6b, 0xe0, 0x2d, 0x1d, 0x36, 0x65, 0x66, 0x0d, 0x22, 0xff, 0x96, 0x24, 0xb7, 0xbe,
        0x05, 0x51, 0xee, 0x1a, 0xc9, 0x1b,
    ];
    let dev_first: [u8; 20] = [
        0xd4, 0x35, 0x93, 0xc7, 0x15, 0xfd, 0xd3, 0x1c, 0x61, 0x14, 0x1a, 0xbd, 0x04, 0xa9,
        0x9f, 0xd6, 0x82, 0x2c, 0x85, 0x58,
    ];
    assert_eq!(t[0].0.bytes, benchmark);
    assert_eq!(t[0].1.balance, 1_000_000_000_000_000_000_000_000u128);
    assert_eq!(t[0].1.nonce, 1);
    assert_eq!(t[0].1.code, vec![0x00]);
    assert!(t[0].1.storage.is_empty());
    assert_eq!(t[1].0.bytes, ci_runner);
    assert_eq!(t[1].1.balance, u128::MAX);
    assert_eq!(t[1].1.nonce, 0);
    assert!(t[1].1.code.is_empty());
    assert_eq!(t[2].0.bytes, dev_first);
    assert_eq!(t[2].1.balance, u128::MAX);
    assert_eq!(t[2].1.nonce, 0);
    assert!(t[2].1.code.is_empty());
}

#[test]
fn evm_accounts_do_not_depend_on_other_inputs() {
    let d1 = testnet_genesis(account(1), Vec::new(), Vec::new(), None, 1);
    let endowed = vec![account(8)];
    let d2 = testnet_genesis(
        account(2),
        vec![synthetic_authority(3)],
        vec![account(4)],
        Some(endowed),
        999,
    );
    assert_eq!(d1.evm_accounts, d2.evm_accounts);
    assert_eq!(d1.evm_accounts, evm_prefund_table());
}

#[test]
fn assembly_is_idempotent_for_fixed_stakers() {
    let authorities = vec![synthetic_authority(1), synthetic_authority(2)];
    let nominators = vec![account(10)];
    let (endowed, _n, stakers) =
        configure_accounts(&authorities, &nominators, None, STASH);
    let d1 = assemble_document(account(7), &authorities, &endowed, stakers.clone(), 42);
    let d2 = assemble_document(account(7), &authorities, &endowed, stakers, 42);
    assert_eq!(d1, d2);
}

#[test]
fn sudo_key_and_chain_id_are_recorded() {
    let d = testnet_genesis(account(5), Vec::new(), Vec::new(), None, 2023);
    assert_eq!(d.sudo_key, account(5));
    assert_eq!(d.evm_chain_id, 2023);
    assert_eq!(d.staking.slash_reward_fraction_ppb, 100_000_000);
    assert_eq!(d.staking.min_validator_bond, 100 * 1_000_000_000_000_000_000u128);
    assert_eq!(d.staking.min_nominator_bond, 10 * 1_000_000_000_000_000_000u128);
}

#[test]
fn default_fixture_holds_six_distinct_accounts() {
    let fixture = default_endowed_accounts();
    assert_eq!(fixture.len(), 6);
    for i in 0..fixture.len() {
        for j in (i + 1)..fixture.len() {
            assert_ne!(fixture[i], fixture[j]);
        }
    }
    assert_eq!(fixture[0].bytes, ALITH);
}
