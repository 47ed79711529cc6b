//! End-to-end checks of argument validation, configuration building,
//! account generation and shutdown coordination.

use anvil::AccountGenError;
use anvil::AccountGenerator;
use anvil::AnvilEvmArgs;
use anvil::ChildIndex;
use anvil::Hardfork;
use anvil::NodeArgs;
use anvil::ShutdownAction;
use anvil::ShutdownCoordinator;
use anvil::ShutdownStage;
use anvil::TransactionOrder;
use anvil::UsageError;
use anvil::WEI_IN_ETHER;
use anvil::check_mnemonic;
use anvil::genesis_balance_wei;
use anvil::parse_derivation_path;
use anvil::shutdown_action;

fn base_args() -> NodeArgs {
    NodeArgs {
        evm_opts: AnvilEvmArgs {
            fork_url: None,
            fork_block_number: None,
            fork_retry_backoff: None,
            no_storage_caching: false,
            gas_limit: None,
            gas_price: None,
            block_base_fee_per_gas: None,
            chain_id: None,
        },
        port: 8545,
        accounts: 10,
        balance: 10000,
        mnemonic: None,
        derivation_path: None,
        silent: false,
        hardfork: Hardfork::Latest,
        block_time: None,
        config_out: None,
        no_mining: false,
        host: None,
        order: TransactionOrder::Fees,
    }
}

#[test]
fn defaults_are_the_documented_table() {
    let d = NodeArgs::default();
    assert_eq!(d, base_args());
    assert_eq!(d.validate(), Ok(()));
    let config = d.try_into_node_config().unwrap();
    assert_eq!(config.port, 8545);
    assert_eq!(config.account_generator.amount, 10);
}

#[test]
fn generate_is_deterministic() {
    let g = AccountGenerator::new(5);
    let a = g.generate().unwrap();
    let b = g.generate().unwrap();
    assert_eq!(a, b);
    assert_eq!(a.len(), 5);
}

#[test]
fn generate_substitutes_index_at_template_end() {
    let g = AccountGenerator::new(3);
    let ids = g.generate().unwrap();
    for (i, id) in ids.iter().enumerate() {
        assert_eq!(
            id.path,
            vec![
                ChildIndex::Hardened(44),
                ChildIndex::Hardened(60),
                ChildIndex::Hardened(0),
                ChildIndex::Normal(0),
                ChildIndex::Normal(i as u32),
            ]
        );
        assert_eq!(id.chain_id, 31337);
    }
}

#[test]
fn generate_zero_accounts_yields_empty_sequence() {
    let g = AccountGenerator::new(0);
    assert_eq!(g.generate().unwrap(), vec![]);
}

#[test]
fn generate_binds_custom_phrase_path_and_chain() {
    let g = AccountGenerator::new(2)
        .phrase("legal winner thank year wave sausage worth useful legal winner thank yellow".to_string())
        .derivation_path("m/0'/1".to_string())
        .chain_id(5);
    let ids = g.generate().unwrap();
    assert_eq!(ids.len(), 2);
    assert_eq!(
        ids[1].path,
        vec![ChildIndex::Hardened(0), ChildIndex::Normal(1), ChildIndex::Normal(1)]
    );
    assert_eq!(ids[0].chain_id, 5);
}

#[test]
fn generate_rejects_malformed_mnemonic() {
    let wrong_count = AccountGenerator::new(1).phrase("only three words".to_string());
    assert_eq!(wrong_count.generate(), Err(AccountGenError::InvalidMnemonic));

    let bad_chars = AccountGenerator::new(1).phrase(
        "Test test test test test test test test test test test junk".to_string(),
    );
    assert_eq!(bad_chars.generate(), Err(AccountGenError::InvalidMnemonic));

    let doubled_space = AccountGenerator::new(1).phrase(
        "test test test test test test test test test test  test junk".to_string(),
    );
    assert_eq!(doubled_space.generate(), Err(AccountGenError::InvalidMnemonic));
}

#[test]
fn generate_rejects_wrong_checksum() {
    // Twelve dictionary words whose checksum bits do not match the entropy.
    let g = AccountGenerator::new(1).phrase(
        "abandon abandon abandon abandon abandon abandon abandon abandon abandon abandon abandon abandon".to_string(),
    );
    assert_eq!(g.generate(), Err(AccountGenError::InvalidMnemonic));
}

#[test]
fn generate_rejects_word_outside_the_wordlist() {
    // Structurally fine, but the last word is in no wordlist.
    let g = AccountGenerator::new(1).phrase(
        "test test test test test test test test test test test zzzz".to_string(),
    );
    assert_eq!(g.generate(), Err(AccountGenError::InvalidMnemonic));
}

#[test]
fn generate_accepts_valid_checksum() {
    let g = AccountGenerator::new(1).phrase(
        "abandon abandon abandon abandon abandon abandon abandon abandon abandon abandon abandon about".to_string(),
    );
    assert!(g.generate().is_ok());
}

#[test]
fn generate_rejects_malformed_derivation_path() {
    let g = AccountGenerator::new(1).derivation_path("x/44'/60'".to_string());
    assert_eq!(g.generate(), Err(AccountGenError::InvalidDerivationPath));
}

#[test]
fn default_mnemonic_is_well_formed() {
    assert!(check_mnemonic(
        "test test test test test test test test test test test junk"
    ));
    assert!(!check_mnemonic(""));
    assert!(!check_mnemonic(" test"));
    assert!(!check_mnemonic("test "));
}

#[test]
fn derivation_path_parsing() {
    let parsed = parse_derivation_path("m/44'/60'/0'/0/").unwrap();
    assert_eq!(
        parsed,
        vec![
            ChildIndex::Hardened(44),
            ChildIndex::Hardened(60),
            ChildIndex::Hardened(0),
            ChildIndex::Normal(0),
        ]
    );
    // A missing trailing slash means the same template.
    assert_eq!(parse_derivation_path("m/44'/60'/0'/0"), Some(parsed));
    // The bare master marker is a valid (empty) template.
    assert_eq!(parse_derivation_path("m/"), Some(vec![]));
    assert_eq!(parse_derivation_path("m"), Some(vec![]));

    assert_eq!(parse_derivation_path(""), None);
    assert_eq!(parse_derivation_path("44'/60'"), None);
    assert_eq!(parse_derivation_path("m/x"), None);
    assert_eq!(parse_derivation_path("m//0"), None);
    assert_eq!(parse_derivation_path("m/44''"), None);
    // The child-index space is 31 bits.
    assert_eq!(parse_derivation_path("m/2147483647"), Some(vec![ChildIndex::Normal(2147483647)]));
    assert_eq!(parse_derivation_path("m/2147483648"), None);
    // Leading zeros are accepted.
    assert_eq!(parse_derivation_path("m/007"), Some(vec![ChildIndex::Normal(7)]));
}

#[test]
fn mining_flags_are_mutually_exclusive() {
    let mut both = base_args();
    both.block_time = Some(2);
    both.no_mining = true;
    assert_eq!(both.validate(), Err(UsageError::MiningConflict));

    let mut interval_only = base_args();
    interval_only.block_time = Some(2);
    assert_eq!(interval_only.validate(), Ok(()));

    let mut no_mining_only = base_args();
    no_mining_only.no_mining = true;
    assert_eq!(no_mining_only.validate(), Ok(()));
}

#[test]
fn block_time_must_be_positive() {
    let mut zero = base_args();
    zero.block_time = Some(0);
    assert_eq!(zero.validate(), Err(UsageError::NonPositiveBlockTime));
}

#[test]
fn fork_options_require_fork_url() {
    let mut block_number = base_args();
    block_number.evm_opts.fork_block_number = Some(14000000);
    assert_eq!(
        block_number.validate(),
        Err(UsageError::ForkBlockNumberRequiresForkUrl)
    );
    block_number.evm_opts.fork_url = Some("http://localhost:8545".to_string());
    assert_eq!(block_number.validate(), Ok(()));

    let mut backoff = base_args();
    backoff.evm_opts.fork_retry_backoff = Some(5);
    assert_eq!(
        backoff.validate(),
        Err(UsageError::ForkRetryBackoffRequiresForkUrl)
    );

    let mut no_cache = base_args();
    no_cache.evm_opts.no_storage_caching = true;
    assert_eq!(
        no_cache.validate(),
        Err(UsageError::NoStorageCachingRequiresForkUrl)
    );
}

#[test]
fn usage_error_messages_name_the_flags() {
    assert_eq!(
        UsageError::MiningConflict.message(),
        "--block-time conflicts with --no-mining"
    );
    assert_eq!(
        UsageError::ForkBlockNumberRequiresForkUrl.message(),
        "--fork-block-number requires a fork endpoint (--fork-url)"
    );
    assert_eq!(
        UsageError::ForkRetryBackoffRequiresForkUrl.message(),
        "--fork-retry-backoff requires a fork endpoint (--fork-url)"
    );
    assert_eq!(
        UsageError::NoStorageCachingRequiresForkUrl.message(),
        "--no-storage-caching requires a fork endpoint (--fork-url)"
    );
}

#[test]
fn balance_conversion_is_saturating() {
    assert_eq!(genesis_balance_wei(1), 1_000_000_000_000_000_000);
    assert_eq!(genesis_balance_wei(10000), 10_000_000_000_000_000_000_000);
    assert_eq!(genesis_balance_wei(u128::MAX), u128::MAX);
    assert_eq!(WEI_IN_ETHER, 1_000_000_000_000_000_000);
}

#[test]
fn config_building_is_pure() {
    let mut args = base_args();
    args.evm_opts.chain_id = Some(10);
    args.mnemonic = Some(
        "legal winner thank year wave sausage worth useful legal winner thank yellow".to_string(),
    );
    let first = args.clone().try_into_node_config().unwrap();
    let second = args.try_into_node_config().unwrap();
    assert_eq!(first, second);
}

#[test]
fn config_resolves_defaults_and_passes_fields_through() {
    let args = base_args();
    let config = args.try_into_node_config().unwrap();
    assert_eq!(config.chain_id, 31337);
    assert_eq!(config.port, 8545);
    assert_eq!(config.genesis_balance, 10_000_000_000_000_000_000_000);
    assert_eq!(config.account_generator.amount, 10);
    assert_eq!(config.account_generator.chain_id, 31337);
    assert_eq!(config.account_generator.phrase, None);
    assert_eq!(
        config.account_generator.effective_phrase(),
        "test test test test test test test test test test test junk"
    );
    assert_eq!(
        config.account_generator.effective_derivation_path(),
        "m/44'/60'/0'/0/"
    );
    assert_eq!(config.hardfork, Hardfork::Latest);
    assert_eq!(config.transaction_order, TransactionOrder::Fees);
    assert!(!config.no_mining);
    assert_eq!(config.eth_rpc_url, None);
}

#[test]
fn config_building_fails_fast_on_conflicts() {
    let mut args = base_args();
    args.block_time = Some(1);
    args.no_mining = true;
    assert_eq!(
        args.try_into_node_config().unwrap_err(),
        UsageError::MiningConflict
    );
}

#[test]
fn explicit_chain_id_reaches_config_and_generator() {
    let mut args = base_args();
    args.evm_opts.chain_id = Some(99);
    let config = args.try_into_node_config().unwrap();
    assert_eq!(config.chain_id, 99);
    assert_eq!(config.account_generator.chain_id, 99);
}

#[test]
fn hardfork_and_order_names_select_from_closed_enumerations() {
    assert_eq!(Hardfork::parse("latest"), Some(Hardfork::Latest));
    assert_eq!(Hardfork::parse("frontier"), Some(Hardfork::Frontier));
    assert_eq!(Hardfork::parse("london"), Some(Hardfork::London));
    assert_eq!(Hardfork::parse("arrowglacier"), Some(Hardfork::ArrowGlacier));
    assert_eq!(Hardfork::parse("shibuya"), None);
    assert_eq!(Hardfork::parse(""), None);

    assert_eq!(TransactionOrder::parse("fees"), Some(TransactionOrder::Fees));
    assert_eq!(TransactionOrder::parse("fifo"), Some(TransactionOrder::Fifo));
    assert_eq!(TransactionOrder::parse("random"), None);
}

#[test]
fn two_interrupts_one_cleanup() {
    let mut coordinator = ShutdownCoordinator::new();
    assert_eq!(coordinator.stage, ShutdownStage::Idle);
    let first = coordinator.observe_interrupt(true);
    let second = coordinator.observe_interrupt(true);
    assert_eq!(first, ShutdownAction::FlushForkCacheThenExit);
    assert_eq!(second, ShutdownAction::Ignore);
    assert_eq!(coordinator.stage, ShutdownStage::Cleaning);
    coordinator.complete_cleanup();
    assert_eq!(coordinator.stage, ShutdownStage::Done);
    assert_eq!(coordinator.observe_interrupt(true), ShutdownAction::Ignore);
}

#[test]
fn cleanup_skips_flush_without_fork_mode() {
    let mut coordinator = ShutdownCoordinator::new();
    assert_eq!(coordinator.observe_interrupt(false), ShutdownAction::ExitOnly);
    assert_eq!(coordinator.observe_interrupt(false), ShutdownAction::Ignore);
}

#[test]
fn shutdown_action_depends_only_on_first_observation() {
    assert_eq!(shutdown_action(0, true), ShutdownAction::FlushForkCacheThenExit);
    assert_eq!(shutdown_action(0, false), ShutdownAction::ExitOnly);
    assert_eq!(shutdown_action(1, true), ShutdownAction::Ignore);
    assert_eq!(shutdown_action(7, false), ShutdownAction::Ignore);
}
