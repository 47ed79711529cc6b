//! Startup orchestration for a local development node: validating launch
//! parameters into one immutable configuration, deterministically deriving
//! the initial set of funded accounts from a seed phrase, and coordinating
//! an idempotent shutdown.

use vstd::prelude::*;

mod accounts;
mod args;
mod config;
mod derivation;
mod mnemonic;
mod shutdown;
mod text;

pub use accounts::AccountGenError;
pub use accounts::AccountGenerator;
pub use accounts::AccountGeneratorModel;
pub use accounts::AccountIdentity;
pub use accounts::AccountIdentityModel;
pub use accounts::default_derivation_path;
pub use accounts::default_derivation_path_view;
pub use accounts::default_mnemonic;
pub use accounts::default_mnemonic_view;
pub use accounts::lemma_generate_deterministic;
pub use accounts::spec_generate;

pub use args::AnvilEvmArgs;
pub use args::Hardfork;
pub use args::NodeArgs;
pub use args::TransactionOrder;
pub use args::UsageError;
pub use args::block_time_ok;
pub use args::fork_deps_ok;
pub use args::lemma_fork_block_number_dependency;
pub use args::lemma_mining_mutual_exclusion;
pub use args::mining_ok;
pub use args::spec_args_valid;
pub use args::spec_default_args;
pub use args::spec_parse_hardfork;
pub use args::spec_parse_transaction_order;
pub use args::spec_validate;

pub use config::NodeConfig;
pub use config::NodeConfigModel;
pub use config::WEI_IN_ETHER;
pub use config::genesis_balance_wei;
pub use config::lemma_config_purity;
pub use config::lemma_genesis_balance_saturates;
pub use config::spec_account_generator;
pub use config::spec_chain_id;
pub use config::spec_genesis_balance;
pub use config::spec_node_config;

pub use derivation::ChildIndex;
pub use derivation::HARDENED_LIMIT;
pub use derivation::digit_run_len;
pub use derivation::digit_val;
pub use derivation::digits_value;
pub use derivation::is_path_digit;
pub use derivation::lemma_digit_run_len_is;
pub use derivation::lemma_digits_value_step;
pub use derivation::normalize_path;
pub use derivation::parse_derivation_path;
pub use derivation::sat_digits_value;
pub use derivation::spec_parse_path;
pub use derivation::spec_parse_segments;

pub use mnemonic::bip39_valid;
pub use mnemonic::check_mnemonic;
pub use mnemonic::is_phrase_char;
pub use mnemonic::mnemonic_well_formed;
pub use mnemonic::spec_space_count;
pub use mnemonic::valid_word_count;

pub use shutdown::ShutdownAction;
pub use shutdown::ShutdownCoordinator;
pub use shutdown::ShutdownStage;
pub use shutdown::lemma_at_most_one_cleanup;
pub use shutdown::lemma_shutdown_idempotent;
pub use shutdown::shutdown_action;
pub use shutdown::spec_observe;
pub use shutdown::spec_shutdown_action;
pub use shutdown::stage_le;

pub use text::str_eq;

verus! {

/// The default chain id a node runs with when none is given.
pub const CHAIN_ID: u64 = 31337;

} // verus!
