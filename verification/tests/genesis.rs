#![allow(deprecated)]

use solana_account::{AccountSharedData, ReadableAccount};
use solana_vote_interface::state::VoteStateV3;
use solarium_bootstrap::accounts::{Account, AccountMap};
use solarium_bootstrap::bootstrap::{synthesize, BootstrapValidator};
use solarium_bootstrap::decimal::NumberFault;
use solarium_bootstrap::economics::{
    Rent, TickDuration, ACCOUNT_STORAGE_OVERHEAD, LAMPORTS_PER_SOL, MINIMUM_SLOTS_PER_EPOCH,
    STAKE_STATE_SIZE, VOTE_STATE_SIZE,
};
use solarium_bootstrap::genesis::{
    add_validator_accounts, build, group_validators, has_duplicate_keys, hashes_need_measurement,
    parse_cluster_type, parse_inflation, rent_exempt_check, resolve_hashes_per_tick,
    resolve_slots_per_epoch, BuildError, ClusterType, GenesisConfig, GenesisOptions, HashesFault,
    Inflation, DEFAULT_DEV_SLOTS_PER_EPOCH, DEFAULT_HASHES_PER_TICK, DEFAULT_SLOTS_PER_EPOCH,
    DEFAULT_STAKE_LAMPORTS_FLOOR, DEFAULT_TICKS_PER_SLOT, DEFAULT_VALIDATOR_LAMPORTS_FLOOR,
};
use solarium_bootstrap::keys::Pubkey;

fn key(seed: u8) -> Pubkey {
    let mut bytes = [0u8; 32];
    for (i, byte) in bytes.iter_mut().enumerate() {
        *byte = seed.wrapping_mul(31).wrapping_add(i as u8).wrapping_mul(17) ^ seed;
    }
    Pubkey::new(bytes)
}

fn keys(seeds: &[u8]) -> Vec<Pubkey> {
    seeds.iter().map(|seed| key(*seed)).collect()
}

fn outside(key: &Pubkey) -> solana_pubkey::Pubkey {
    solana_pubkey::Pubkey::new_from_array(key.to_bytes())
}

fn outside_rent(rent: &Rent) -> solana_rent::Rent {
    solana_rent::Rent {
        lamports_per_byte_year: rent.lamports_per_byte_year(),
        exemption_threshold: rent.exemption_threshold().parse::<f64>().unwrap(),
        burn_percent: rent.burn_percent(),
    }
}

/// The accounts that direct calls of the account makers give for the options.
fn direct_accounts(
    options: &GenesisOptions,
) -> std::collections::BTreeMap<solana_pubkey::Pubkey, solana_account::Account> {
    let rent = outside_rent(&options.rent);
    let mut config = solana_genesis_config::GenesisConfig::default();
    config.rent = rent.clone();
    let system = solana_sdk_ids::system_program::id();
    for triple in options.bootstrap_validators.chunks(3) {
        let identity = outside(&triple[0]);
        let vote = outside(&triple[1]);
        let stake = outside(&triple[2]);
        config.add_account(
            identity,
            AccountSharedData::new(options.bootstrap_validator_lamports, 0, &system),
        );
        let vote_account = solana_vote_program::vote_state::create_account_with_authorized(
            &identity,
            &identity,
            &identity,
            options.vote_commission_percentage,
            VoteStateV3::get_rent_exempt_reserve(&rent).max(1),
        );
        let authorized = match &options.bootstrap_stake_authorized_pubkey {
            Some(key) => outside(key),
            None => identity,
        };
        config.add_account(
            stake,
            solana_stake_program::stake_state::create_account(
                &authorized,
                &vote,
                &vote_account,
                &rent,
                options.bootstrap_validator_stake_lamports,
            ),
        );
        config.add_account(vote, vote_account);
    }
    if let (Some(faucet), Some(lamports)) = (&options.faucet_pubkey, options.faucet_lamports) {
        config.add_account(outside(faucet), AccountSharedData::new(lamports, 0, &system));
    }
    solana_stake_program::add_genesis_accounts(&mut config);
    config.accounts
}

fn assert_same_accounts(config: &GenesisConfig, options: &GenesisOptions) {
    let expected = direct_accounts(options);
    assert_eq!(config.accounts.len(), expected.len());
    for (i, (expected_key, expected_account)) in expected.iter().enumerate() {
        let (found_key, found) = config.accounts.entry(i);
        assert_eq!(found_key.to_bytes(), expected_key.to_bytes(), "key at {i}");
        assert_eq!(found.lamports, expected_account.lamports, "lamports at {i}");
        assert_eq!(found.data, expected_account.data, "data at {i}");
        assert_eq!(found.owner.to_bytes(), expected_account.owner.to_bytes(), "owner at {i}");
        assert_eq!(found.executable, expected_account.executable, "executable at {i}");
        assert_eq!(found.rent_epoch, expected_account.rent_epoch, "rent epoch at {i}");
    }
}

#[test]
fn constants_are_those_of_the_protocol() {
    assert_eq!(LAMPORTS_PER_SOL, solana_native_token::LAMPORTS_PER_SOL);
    assert_eq!(DEFAULT_TICKS_PER_SLOT, solana_clock::DEFAULT_TICKS_PER_SLOT);
    assert_eq!(DEFAULT_HASHES_PER_TICK, solana_clock::DEFAULT_HASHES_PER_TICK);
    assert_eq!(DEFAULT_DEV_SLOTS_PER_EPOCH, solana_clock::DEFAULT_DEV_SLOTS_PER_EPOCH);
    assert_eq!(DEFAULT_SLOTS_PER_EPOCH, solana_clock::DEFAULT_SLOTS_PER_EPOCH);
    assert_eq!(MINIMUM_SLOTS_PER_EPOCH, solana_epoch_schedule::MINIMUM_SLOTS_PER_EPOCH);
    assert_eq!(ACCOUNT_STORAGE_OVERHEAD, solana_rent::ACCOUNT_STORAGE_OVERHEAD);
    assert_eq!(VOTE_STATE_SIZE, VoteStateV3::size_of());
    assert_eq!(STAKE_STATE_SIZE, solana_stake_interface::state::StakeStateV2::size_of());
    assert_eq!(DEFAULT_VALIDATOR_LAMPORTS_FLOOR, 500 * solana_native_token::LAMPORTS_PER_SOL);
    assert_eq!(DEFAULT_STAKE_LAMPORTS_FLOOR, solana_native_token::LAMPORTS_PER_SOL / 2);
}

#[test]
fn defaults_follow_the_default_schedules() {
    let options = GenesisOptions::with_defaults(keys(&[1, 2, 3]));
    let fees = solana_fee_calculator::FeeRateGovernor::default();
    let rent = solana_rent::Rent::default();
    let poh = solana_poh_config::PohConfig::default();
    assert_eq!(options.target_lamports_per_signature, fees.target_lamports_per_signature);
    assert_eq!(options.target_lamports_per_signature, 10_000);
    assert_eq!(options.target_signatures_per_slot, fees.target_signatures_per_slot);
    assert_eq!(options.fee_burn_percentage, fees.burn_percent);
    assert_eq!(options.rent.lamports_per_byte_year(), rent.lamports_per_byte_year);
    assert_eq!(options.rent.lamports_per_byte_year(), 3480);
    assert_eq!(options.rent.exemption_threshold(), rent.exemption_threshold.to_string());
    assert_eq!(options.rent.exemption_threshold(), "2");
    assert_eq!(options.rent.burn_percent(), rent.burn_percent);
    assert_eq!(
        options.bootstrap_validator_lamports,
        (500 * solana_native_token::LAMPORTS_PER_SOL).max(VoteStateV3::get_rent_exempt_reserve(&rent))
    );
    assert_eq!(options.bootstrap_validator_lamports, 500_000_000_000);
    assert_eq!(
        options.bootstrap_validator_stake_lamports,
        (solana_native_token::LAMPORTS_PER_SOL / 2).max(rent.minimum_balance(200))
    );
    assert_eq!(options.bootstrap_validator_stake_lamports, 500_000_000);
    assert_eq!(options.target_tick_duration.secs, poh.target_tick_duration.as_secs());
    assert_eq!(options.target_tick_duration.subsec_nanos, poh.target_tick_duration.subsec_nanos());
    assert_eq!(options.target_tick_duration, TickDuration { secs: 0, subsec_nanos: 4_687_500 });
    assert_eq!(options.ticks_per_slot, 64);
    assert_eq!(options.vote_commission_percentage, 100);
    assert_eq!(options.hashes_per_tick, "auto");
    assert_eq!(options.cluster_type, ClusterType::MainnetBeta);
    assert_eq!(options.slots_per_epoch, None);
    assert!(!options.enable_warmup_epochs);
    assert!(options.inflation.is_none() && options.creation_time.is_none());
    assert!(options.faucet_pubkey.is_none() && options.faucet_lamports.is_none());
    assert!(options.check_limits());
}

#[test]
fn tick_duration_counts_microseconds() {
    for micros in [0u64, 1, 999_999, 1_000_000, 6_250, 1_234_567_890, u64::MAX] {
        let expected = std::time::Duration::from_micros(micros);
        let found = TickDuration::from_micros(micros);
        assert_eq!(found.secs, expected.as_secs());
        assert_eq!(found.subsec_nanos, expected.subsec_nanos());
    }
}

#[test]
fn rent_minimum_balance_is_exact() {
    let rent = Rent::new(3480, "2", 50).unwrap();
    assert_eq!(rent.minimum_balance(200), 2_282_880);
    assert_eq!(rent.minimum_balance(3762), 27_074_400);
    assert_eq!(rent.minimum_balance(0), 890_880);
    let rent = Rent::new(3480, "2.5", 50).unwrap();
    assert_eq!(rent.minimum_balance(200), 2_853_600);
    let rent = Rent::new(1000, "0", 0).unwrap();
    assert_eq!(rent.minimum_balance(200), 0);
    for (rate, threshold, len) in [(1u64, "1", 10usize), (19, "0.3", 77), (6960, "1.0", 165), (3480, "2e0", 200)] {
        let rent = Rent::new(rate, threshold, 7).unwrap();
        assert_eq!(rent.minimum_balance(len), outside_rent(&rent).minimum_balance(len));
    }
}

#[test]
fn rent_rejects_what_is_no_schedule() {
    assert!(Rent::new(3480, "two", 50).is_none());
    assert!(Rent::new(3480, "", 50).is_none());
    assert!(Rent::new(3480, "2", 101).is_none());
    assert!(Rent::new(3480, "-2", 50).is_none());
    assert!(Rent::new(3480, "-0", 50).is_none());
    assert!(Rent::new(3480, "0", 50).is_some());
    assert!(Rent::new(3480, "+2", 50).is_some());
    assert!(Rent::new(3480, "0.5", 0).is_some());
    assert!(Rent::new(3480, "2", 100).is_some());
    let rent = Rent::new(5, "1.5", 9).unwrap();
    assert_eq!(rent.lamports_per_byte_year(), 5);
    assert_eq!(rent.exemption_threshold(), "1.5");
    assert_eq!(rent.burn_percent(), 9);
    let copy = rent.duplicate();
    assert_eq!(copy.exemption_threshold(), "1.5");
}

#[test]
fn cluster_types_and_inflation_are_read_by_name() {
    assert_eq!(parse_cluster_type("mainnet-beta"), Some(ClusterType::MainnetBeta));
    assert_eq!(parse_cluster_type("devnet"), Some(ClusterType::Devnet));
    assert_eq!(parse_cluster_type("testnet"), Some(ClusterType::Testnet));
    assert_eq!(parse_cluster_type("development"), Some(ClusterType::Development));
    assert_eq!(parse_cluster_type("mainnet"), None);
    assert_eq!(parse_cluster_type(""), None);
    for name in solana_cluster_type::ClusterType::STRINGS {
        let expected = name.parse::<solana_cluster_type::ClusterType>().unwrap();
        let found = parse_cluster_type(name).unwrap();
        assert_eq!(format!("{found:?}"), format!("{expected:?}"));
    }
    assert_eq!(parse_inflation("pico"), Some(Inflation::Pico));
    assert_eq!(parse_inflation("full"), Some(Inflation::Full));
    assert_eq!(parse_inflation("none"), Some(Inflation::Disabled));
    assert_eq!(parse_inflation("disabled"), None);
}

#[test]
fn hashes_per_tick_resolution() {
    let resolve = |setting: &str, cluster: ClusterType, measured: u64| {
        resolve_hashes_per_tick(setting, cluster, measured)
    };
    assert_eq!(resolve("auto", ClusterType::Development, 1000).unwrap(), Some(500));
    assert_eq!(resolve("auto", ClusterType::Development, 1001).unwrap(), Some(500));
    assert_eq!(resolve("auto", ClusterType::Development, 0).unwrap(), Some(0));
    assert_eq!(resolve("auto", ClusterType::MainnetBeta, 1000).unwrap(), Some(62_500));
    assert_eq!(resolve("auto", ClusterType::Devnet, 1000).unwrap(), Some(62_500));
    assert_eq!(resolve("auto", ClusterType::Testnet, 1000).unwrap(), Some(62_500));
    assert_eq!(resolve("sleep", ClusterType::Development, 1000).unwrap(), None);
    assert_eq!(resolve("sleep", ClusterType::MainnetBeta, 1000).unwrap(), None);
    assert_eq!(resolve("64", ClusterType::MainnetBeta, 1000).unwrap(), Some(64));
    assert_eq!(resolve("64", ClusterType::Development, 1000).unwrap(), Some(64));
    assert!(hashes_need_measurement("auto", ClusterType::Development));
    assert!(!hashes_need_measurement("auto", ClusterType::Devnet));
    assert!(!hashes_need_measurement("sleep", ClusterType::Development));
    assert!(!hashes_need_measurement("64", ClusterType::Development));
}

#[test]
fn hashes_per_tick_that_is_no_positive_number_is_rejected() {
    match resolve_hashes_per_tick("fast", ClusterType::MainnetBeta, 0) {
        Err(error) => {
            assert!(matches!(
                &error,
                BuildError::InvalidHashesPerTick { input, fault: HashesFault::Number(NumberFault::InvalidDigit) }
                    if input == "fast"
            ));
            let cause = "fast".parse::<u64>().unwrap_err();
            assert_eq!(
                error.message(),
                format!("Error: invalid value for --hashes-per-tick: fast: {cause}")
            );
        }
        Ok(found) => panic!("unexpected {found:?}"),
    }
    assert!(matches!(
        resolve_hashes_per_tick("0", ClusterType::MainnetBeta, 0),
        Err(BuildError::InvalidHashesPerTick { fault: HashesFault::Zero, .. })
    ));
    assert!(matches!(
        resolve_hashes_per_tick("Auto", ClusterType::MainnetBeta, 0),
        Err(BuildError::InvalidHashesPerTick { .. })
    ));
    assert!(matches!(
        resolve_hashes_per_tick("18446744073709551616", ClusterType::MainnetBeta, 0),
        Err(BuildError::InvalidHashesPerTick { fault: HashesFault::Number(NumberFault::Overflow), .. })
    ));
}

#[test]
fn slots_per_epoch_default_by_cluster() {
    assert_eq!(resolve_slots_per_epoch(None, ClusterType::Development), 8192);
    assert_eq!(resolve_slots_per_epoch(None, ClusterType::MainnetBeta), 432_000);
    assert_eq!(resolve_slots_per_epoch(None, ClusterType::Devnet), 432_000);
    assert_eq!(resolve_slots_per_epoch(None, ClusterType::Testnet), 432_000);
    assert_eq!(resolve_slots_per_epoch(Some(77), ClusterType::Development), 77);
    assert_eq!(resolve_slots_per_epoch(Some(77), ClusterType::MainnetBeta), 77);
}

#[test]
fn duplicate_keys_are_detected_across_triples() {
    assert!(has_duplicate_keys(&keys(&[1, 2, 3, 1, 5, 6])));
    assert!(has_duplicate_keys(&keys(&[1, 2, 2])));
    assert!(has_duplicate_keys(&keys(&[1, 2, 3, 4, 5, 1])));
    assert!(!has_duplicate_keys(&keys(&[1, 2, 3, 4, 5, 6])));
    assert!(!has_duplicate_keys(&keys(&[])));

    let options = GenesisOptions::with_defaults(keys(&[1, 2, 3, 1, 5, 6]));
    let error = build(&options, 0, 0).unwrap_err();
    assert!(matches!(error, BuildError::DuplicatePubkey));
    assert_eq!(error.message(), "Error: --bootstrap-validator pubkeys cannot be duplicated");

    let options = GenesisOptions::with_defaults(keys(&[1, 2, 3, 4, 5, 6]));
    assert!(build(&options, 0, 0).is_ok());
}

#[test]
fn keys_must_come_in_threes() {
    for count in [1u8, 2, 4, 5, 7] {
        let seeds: Vec<u8> = (1..=count).collect();
        assert!(matches!(
            group_validators(&keys(&seeds)),
            Err(BuildError::InvalidTripleCount { count: found }) if found == usize::from(count)
        ));
        let options = GenesisOptions::with_defaults(keys(&seeds));
        assert!(matches!(build(&options, 0, 0), Err(BuildError::InvalidTripleCount { .. })));
    }
    let grouped = group_validators(&keys(&[1, 2, 3, 4, 5, 6])).unwrap();
    assert_eq!(grouped.len(), 2);
    assert_eq!(grouped[0].identity, key(1));
    assert_eq!(grouped[0].vote, key(2));
    assert_eq!(grouped[0].stake, key(3));
    assert_eq!(grouped[1].identity, key(4));
    assert_eq!(grouped[1].vote, key(5));
    assert_eq!(grouped[1].stake, key(6));
    assert!(group_validators(&keys(&[])).unwrap().is_empty());
    let error = group_validators(&keys(&[1, 2, 3, 4])).unwrap_err();
    assert_eq!(
        error.message(),
        "Error: --bootstrap-validator takes three pubkeys for each validator, provided: 4"
    );
}

#[test]
fn stake_must_reach_the_rent_exempt_minimum() {
    let rent = Rent::new(3480, "2", 50).unwrap();
    let required = rent.minimum_balance(200);
    assert_eq!(required, outside_rent(&rent).minimum_balance(200));

    match rent_exempt_check(required - 1, required) {
        Err(BuildError::InsufficientStakeForRentExemption { provided, required: needed }) => {
            assert_eq!(provided, required - 1);
            assert_eq!(needed, required);
        }
        other => panic!("unexpected {other:?}"),
    }
    assert!(rent_exempt_check(required, required).is_ok());
    assert!(rent_exempt_check(required + 1, required).is_ok());

    let mut options = GenesisOptions::with_defaults(keys(&[1, 2, 3]));
    options.bootstrap_validator_stake_lamports = required - 1;
    let error = build(&options, 0, 0).unwrap_err();
    assert!(matches!(
        error,
        BuildError::InsufficientStakeForRentExemption { provided, required: needed }
            if provided == required - 1 && needed == required
    ));
    assert_eq!(
        error.message(),
        "error: insufficient validator stake lamports: 2282879 for rent exemption, requires 2282880"
    );
    options.bootstrap_validator_stake_lamports = required;
    let config = build(&options, 0, 0).unwrap();
    assert_same_accounts(&config, &options);
}

#[test]
fn checks_come_in_their_order() {
    let mut options = GenesisOptions::with_defaults(keys(&[1, 2, 3, 1]));
    options.bootstrap_validator_stake_lamports = 0;
    options.hashes_per_tick = String::from("fast");
    assert!(matches!(build(&options, 0, 0), Err(BuildError::InvalidTripleCount { count: 4 })));
    options.bootstrap_validators = keys(&[1, 2, 3, 1, 5, 6]);
    assert!(matches!(build(&options, 0, 0), Err(BuildError::DuplicatePubkey)));
    options.bootstrap_validators = keys(&[1, 2, 3, 4, 5, 6]);
    assert!(matches!(
        build(&options, 0, 0),
        Err(BuildError::InsufficientStakeForRentExemption { .. })
    ));
    options.bootstrap_validator_stake_lamports = 10_000_000;
    assert!(matches!(build(&options, 0, 0), Err(BuildError::InvalidHashesPerTick { .. })));
    options.hashes_per_tick = String::from("sleep");
    assert!(build(&options, 0, 0).is_ok());
}

#[test]
fn synthesize_makes_three_accounts_for_each_validator_in_order() {
    let rent = Rent::new(3480, "2", 50).unwrap();
    for count in [0usize, 1, 2, 5] {
        let validators: Vec<BootstrapValidator> = (0..count)
            .map(|i| {
                let base = (i as u8) * 3 + 100;
                BootstrapValidator { identity: key(base), vote: key(base + 1), stake: key(base + 2) }
            })
            .collect();
        let entries = synthesize(&validators, 42, 3_000_000, 7, &rent, None);
        assert_eq!(entries.len(), 3 * count);
        for (i, validator) in validators.iter().enumerate() {
            assert_eq!(entries[3 * i].0, validator.identity);
            assert_eq!(entries[3 * i + 1].0, validator.stake);
            assert_eq!(entries[3 * i + 2].0, validator.vote);
            assert_eq!(entries[3 * i].1.lamports, 42);
            assert!(entries[3 * i].1.data.is_empty());
            assert_eq!(entries[3 * i].1.owner.to_bytes(), [0u8; 32]);
            assert_eq!(entries[3 * i + 1].1.lamports, 3_000_000);
            assert_eq!(entries[3 * i + 1].1.data.len(), 200);
            assert_eq!(entries[3 * i + 1].1.owner.to_bytes(), solana_sdk_ids::stake::id().to_bytes());
            assert_eq!(entries[3 * i + 2].1.lamports, 27_074_400);
            assert_eq!(entries[3 * i + 2].1.data.len(), 3762);
            assert_eq!(entries[3 * i + 2].1.owner.to_bytes(), solana_sdk_ids::vote::id().to_bytes());
        }
    }
}

#[test]
fn vote_account_holds_at_least_one_lamport() {
    let rent = Rent::new(0, "2", 50).unwrap();
    let validators = vec![BootstrapValidator { identity: key(1), vote: key(2), stake: key(3) }];
    let entries = synthesize(&validators, 5, 0, 100, &rent, Some(&key(9)));
    assert_eq!(entries[2].1.lamports, 1);
    assert_eq!(entries[1].1.lamports, 0);

    let vote_state = VoteStateV3::deserialize(&entries[2].1.data).unwrap();
    assert_eq!(vote_state.node_pubkey.to_bytes(), key(1).to_bytes());
    assert_eq!(vote_state.authorized_withdrawer.to_bytes(), key(1).to_bytes());
    assert_eq!(vote_state.commission, 100);
    let stake_account = AccountSharedData::from(solana_account::Account {
        lamports: entries[1].1.lamports,
        data: entries[1].1.data.clone(),
        owner: outside(&entries[1].1.owner),
        executable: false,
        rent_epoch: 0,
    });
    let stake_state: solana_stake_interface::state::StakeStateV2 =
        bincode_free_state(&stake_account);
    let meta = stake_state.meta().unwrap();
    assert_eq!(meta.authorized.staker.to_bytes(), key(9).to_bytes());
    assert_eq!(meta.authorized.withdrawer.to_bytes(), key(9).to_bytes());
    assert_eq!(stake_state.delegation().unwrap().voter_pubkey.to_bytes(), key(2).to_bytes());
}

fn bincode_free_state(account: &AccountSharedData) -> solana_stake_interface::state::StakeStateV2 {
    solana_account::state_traits::StateMut::state(account).unwrap()
}

#[test]
fn add_validator_accounts_leaves_the_configuration_alone_on_error() {
    let options = GenesisOptions::with_defaults(keys(&[1, 2, 3]));
    let mut config = build(&options, 0, 0).unwrap();
    let before = config.accounts.len();
    let rent = Rent::new(3480, "2", 50).unwrap();
    let validators = vec![BootstrapValidator { identity: key(7), vote: key(8), stake: key(9) }];
    let result = add_validator_accounts(&mut config, &validators, 1, 2_282_879, 0, &rent, None);
    assert!(matches!(result, Err(BuildError::InsufficientStakeForRentExemption { .. })));
    assert_eq!(config.accounts.len(), before);
    let result = add_validator_accounts(&mut config, &validators, 1, 2_282_880, 0, &rent, None);
    assert!(result.is_ok());
    assert_eq!(config.accounts.len(), before + 3);
    assert_eq!(config.accounts.get(&key(7)).unwrap().lamports, 1);
    assert_eq!(config.accounts.get(&key(9)).unwrap().lamports, 2_282_880);
}

#[test]
fn build_agrees_with_direct_calls() {
    let mut options = GenesisOptions::with_defaults(keys(&[11, 12, 13, 21, 22, 23, 31, 32, 33]));
    options.bootstrap_stake_authorized_pubkey = Some(key(99));
    options.bootstrap_validator_lamports = 123_456_789;
    options.bootstrap_validator_stake_lamports = 77_000_000;
    options.vote_commission_percentage = 42;
    options.rent = Rent::new(1234, "3.75", 10).unwrap();
    options.faucet_pubkey = Some(key(50));
    options.faucet_lamports = Some(1_000_000);
    let config = build(&options, 1_700_000_000, 0).unwrap();
    assert_same_accounts(&config, &options);
    assert_eq!(config.accounts.len(), 9 + 1 + 2);
    assert_eq!(config.accounts.get(&key(50)).unwrap().lamports, 1_000_000);
    assert_eq!(config.rent.exemption_threshold(), "3.75");
    assert_eq!(config.rent.lamports_per_byte_year(), 1234);
    assert_eq!(config.rent.burn_percent(), 10);
    assert!(config.native_instruction_processors.is_empty());
}

#[test]
fn faucet_is_added_only_with_key_and_balance() {
    let mut options = GenesisOptions::with_defaults(keys(&[1, 2, 3]));
    options.faucet_pubkey = Some(key(50));
    let config = build(&options, 0, 0).unwrap();
    assert!(config.accounts.get(&key(50)).is_none());
    assert_eq!(config.accounts.len(), 5);

    options.faucet_pubkey = None;
    options.faucet_lamports = Some(5);
    let config = build(&options, 0, 0).unwrap();
    assert_eq!(config.accounts.len(), 5);

    options.faucet_pubkey = Some(key(50));
    let config = build(&options, 0, 0).unwrap();
    let faucet = config.accounts.get(&key(50)).unwrap();
    assert_eq!(faucet.lamports, 5);
    assert!(faucet.data.is_empty());
    assert_eq!(faucet.owner.to_bytes(), solana_sdk_ids::system_program::id().to_bytes());
    assert!(!faucet.executable);
    assert_eq!(faucet.rent_epoch, 0);
    assert_same_accounts(&config, &options);

    options.faucet_pubkey = Some(key(1));
    let config = build(&options, 0, 0).unwrap();
    assert_eq!(config.accounts.get(&key(1)).unwrap().lamports, 5);
    assert_same_accounts(&config, &options);
}

#[test]
fn build_sets_the_scalar_fields() {
    let mut options = GenesisOptions::with_defaults(keys(&[1, 2, 3]));
    let config = build(&options, 1_234, 9_999).unwrap();
    assert_eq!(config.creation_time, 1_234);
    assert_eq!(config.cluster_type, ClusterType::MainnetBeta);
    assert_eq!(config.ticks_per_slot, 64);
    assert_eq!(config.poh_config.hashes_per_tick, Some(62_500));
    assert_eq!(config.poh_config.target_tick_count, None);
    assert_eq!(config.poh_config.target_tick_duration, TickDuration { secs: 0, subsec_nanos: 4_687_500 });
    assert_eq!(config.epoch_schedule.slots_per_epoch, 432_000);
    assert_eq!(config.inflation, None);

    options.creation_time = Some(-5);
    options.cluster_type = ClusterType::Development;
    options.ticks_per_slot = 8;
    options.target_tick_duration = TickDuration::from_micros(6_250);
    options.inflation = Some(Inflation::Pico);
    options.fee_burn_percentage = 33;
    let config = build(&options, 1_234, 9_999).unwrap();
    assert_eq!(config.creation_time, -5);
    assert_eq!(config.cluster_type, ClusterType::Development);
    assert_eq!(config.ticks_per_slot, 8);
    assert_eq!(config.poh_config.hashes_per_tick, Some(4_999));
    assert_eq!(config.poh_config.target_tick_duration, TickDuration { secs: 0, subsec_nanos: 6_250_000 });
    assert_eq!(config.epoch_schedule.slots_per_epoch, 8192);
    assert_eq!(config.epoch_schedule.leader_schedule_slot_offset, 8192);
    assert_eq!(config.inflation, Some(Inflation::Pico));
    assert_eq!(config.fee_rate_governor.burn_percent, 33);
}

#[test]
fn fee_schedule_agrees_with_the_fee_calculator() {
    let targets = [0u64, 1, 2, 3, 19, 20, 21, 39, 40, 41, 99, 100, 5_000, 10_000, u64::MAX / 10];
    for target in targets {
        for load in [0u64, 1, 20_000, u64::MAX] {
            let mut options = GenesisOptions::with_defaults(keys(&[1, 2, 3]));
            options.target_lamports_per_signature = target;
            options.target_signatures_per_slot = load;
            options.fee_burn_percentage = 50;
            assert!(options.check_limits());
            let found = build(&options, 0, 0).unwrap().fee_rate_governor;
            let expected = solana_fee_calculator::FeeRateGovernor::new(target, load);
            assert_eq!(found.lamports_per_signature, expected.lamports_per_signature, "{target} {load}");
            assert_eq!(found.target_lamports_per_signature, expected.target_lamports_per_signature);
            assert_eq!(found.target_signatures_per_slot, expected.target_signatures_per_slot);
            assert_eq!(found.min_lamports_per_signature, expected.min_lamports_per_signature);
            assert_eq!(found.max_lamports_per_signature, expected.max_lamports_per_signature);
            assert_eq!(found.burn_percent, expected.burn_percent);
        }
    }
    let mut options = GenesisOptions::with_defaults(keys(&[1, 2, 3]));
    options.target_lamports_per_signature = 10_000;
    let found = build(&options, 0, 0).unwrap().fee_rate_governor;
    assert_eq!(found.lamports_per_signature, 9_500);
    assert_eq!(found.min_lamports_per_signature, 5_000);
    assert_eq!(found.max_lamports_per_signature, 100_000);
}

#[test]
fn epoch_schedule_agrees_with_the_schedule_maker() {
    let slots = [32u64, 33, 63, 64, 65, 100, 1024, 8192, 432_000, 1 << 40, (1 << 62) + 1, 1 << 63];
    for slots_per_epoch in slots {
        for warmup in [false, true] {
            let mut options = GenesisOptions::with_defaults(keys(&[1, 2, 3]));
            options.slots_per_epoch = Some(slots_per_epoch);
            options.enable_warmup_epochs = warmup;
            assert!(options.check_limits());
            let found = build(&options, 0, 0).unwrap().epoch_schedule;
            let expected =
                solana_epoch_schedule::EpochSchedule::custom(slots_per_epoch, slots_per_epoch, warmup);
            assert_eq!(found.slots_per_epoch, expected.slots_per_epoch);
            assert_eq!(found.leader_schedule_slot_offset, expected.leader_schedule_slot_offset);
            assert_eq!(found.warmup, expected.warmup);
            assert_eq!(found.first_normal_epoch, expected.first_normal_epoch, "{slots_per_epoch}");
            assert_eq!(found.first_normal_slot, expected.first_normal_slot, "{slots_per_epoch}");
        }
    }
    let mut options = GenesisOptions::with_defaults(keys(&[1, 2, 3]));
    options.slots_per_epoch = Some(100);
    options.enable_warmup_epochs = true;
    let found = build(&options, 0, 0).unwrap().epoch_schedule;
    assert_eq!(found.first_normal_epoch, 2);
    assert_eq!(found.first_normal_slot, 96);
}

#[test]
fn limits_are_checked() {
    let mut options = GenesisOptions::with_defaults(keys(&[1, 2, 3]));
    options.slots_per_epoch = Some(31);
    assert!(!options.check_limits());
    options.slots_per_epoch = Some((1 << 63) + 1);
    assert!(options.check_limits());
    options.enable_warmup_epochs = true;
    assert!(!options.check_limits());
    options.slots_per_epoch = None;
    assert!(options.check_limits());
    options.target_lamports_per_signature = u64::MAX / 10 + 1;
    assert!(!options.check_limits());
    options.target_signatures_per_slot = 0;
    assert!(options.check_limits());
    options.rent = Rent::new(u64::MAX / 3890, "2", 50).unwrap();
    assert!(options.check_limits());
    options.rent = Rent::new(u64::MAX / 3890 + 1, "2", 50).unwrap();
    assert!(!options.check_limits());
}

#[test]
fn issued_lamports_are_the_sum_of_all_balances() {
    let mut options = GenesisOptions::with_defaults(keys(&[1, 2, 3, 4, 5, 6]));
    options.faucet_pubkey = Some(key(50));
    options.faucet_lamports = Some(1_000);
    let config = build(&options, 0, 0).unwrap();
    let expected: u64 = direct_accounts(&options).values().map(|account| account.lamports).sum();
    assert_eq!(config.issued_lamports(), Some(expected));

    options.faucet_lamports = Some(u64::MAX);
    let config = build(&options, 0, 0).unwrap();
    assert_eq!(config.issued_lamports(), None);
}

#[test]
fn account_table_keeps_keys_unique_and_ascending() {
    let system = Pubkey::new([0u8; 32]);
    let mut table = AccountMap::new();
    assert_eq!(table.len(), 0);
    assert_eq!(table.issued_lamports(), Some(0));
    for seed in [9u8, 3, 7, 3, 1, 9, 200] {
        table.insert(key(seed), Account::new(u64::from(seed), 2, &system));
    }
    assert_eq!(table.len(), 5);
    for i in 1..table.len() {
        assert!(table.entry(i - 1).0.to_bytes() < table.entry(i).0.to_bytes());
        assert!(table.entry(i - 1).0.less(table.entry(i).0));
        assert!(!table.entry(i).0.less(table.entry(i - 1).0));
    }
    assert_eq!(table.get(&key(3)).unwrap().lamports, 3);
    assert_eq!(table.get(&key(3)).unwrap().data, vec![0u8, 0]);
    assert!(table.get(&key(4)).is_none());
    assert_eq!(table.issued_lamports(), Some(9 + 3 + 7 + 1 + 200));

    table.insert(key(3), Account::new(1_000, 0, &system));
    assert_eq!(table.len(), 5);
    assert_eq!(table.get(&key(3)).unwrap().lamports, 1_000);

    let more = vec![
        (key(50), Account::new(1, 0, &system)),
        (key(1), Account::new(2, 0, &system)),
        (key(50), Account::new(3, 0, &system)),
    ];
    table.insert_all(&more);
    assert_eq!(table.len(), 6);
    assert_eq!(table.get(&key(50)).unwrap().lamports, 3);
    assert_eq!(table.get(&key(1)).unwrap().lamports, 2);
}

#[test]
fn fresh_accounts_agree_with_shared_account_data() {
    let owner = key(5);
    for space in [0usize, 1, 17] {
        let found = Account::new(77, space, &owner);
        let expected = AccountSharedData::new(77, space, &outside(&owner));
        assert_eq!(found.lamports, expected.lamports());
        assert_eq!(found.data, expected.data());
        assert_eq!(found.owner.to_bytes(), expected.owner().to_bytes());
        assert_eq!(found.executable, expected.executable());
        assert_eq!(found.rent_epoch, expected.rent_epoch());
        let copy = found.duplicate();
        assert_eq!(copy.data, found.data);
        assert_eq!(copy.lamports, 77);
    }
}

#[test]
fn keys_compare_as_byte_strings() {
    let low = Pubkey::new([0u8; 32]);
    let mut bytes = [0u8; 32];
    bytes[31] = 1;
    let mid = Pubkey::new(bytes);
    bytes[0] = 1;
    bytes[31] = 0;
    let high = Pubkey::new(bytes);
    assert!(low.less(&mid) && mid.less(&high) && low.less(&high));
    assert!(!mid.less(&low) && !high.less(&mid) && !low.less(&low));
    assert!(low.same(&low) && !low.same(&mid));
    assert!(outside(&low) < outside(&mid) && outside(&mid) < outside(&high));
}
