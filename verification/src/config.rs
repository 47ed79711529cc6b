//! The pure transform from validated launch parameters into one immutable
//! node configuration. Construction performs no I/O and touches no ambient
//! state: the result — captured by [`spec_node_config`] — is a function of
//! the arguments alone, so equal arguments always yield structurally equal
//! configurations.

use vstd::prelude::*;

use crate::accounts::AccountGenerator;
use crate::accounts::AccountGeneratorModel;
use crate::accounts::default_derivation_path_view;
use crate::accounts::default_mnemonic_view;
use crate::args::Hardfork;
use crate::args::NodeArgs;
use crate::args::TransactionOrder;
use crate::args::UsageError;
use crate::args::spec_args_valid;
use crate::args::spec_validate;
use crate::CHAIN_ID;

verus! {

/// How many minimal units one whole currency unit holds.
pub const WEI_IN_ETHER: u128 = 1_000_000_000_000_000_000;

/// A per-account balance in whole units, converted to minimal units with
/// saturation: overflow clamps to the maximum representable value.
pub open spec fn spec_genesis_balance(balance_in_units: u128) -> u128 {
    if balance_in_units * WEI_IN_ETHER > u128::MAX {
        u128::MAX
    } else {
        (balance_in_units * WEI_IN_ETHER) as u128
    }
}

/// Convert a balance in whole units to minimal units, saturating at the
/// maximum representable value rather than wrapping or aborting.
pub fn genesis_balance_wei(balance_in_units: u128) -> (r: u128)
    ensures
        r == spec_genesis_balance(balance_in_units),
{
    match balance_in_units.checked_mul(WEI_IN_ETHER) {
        Some(v) => v,
        None => u128::MAX,
    }
}

/// The immutable runtime configuration a node is started with. Fully
/// determined by the validated [`NodeArgs`]; never mutated afterwards.
#[derive(Clone, Debug, PartialEq, Eq)]
pub struct NodeConfig {
    /// The block gas limit, when overridden.
    pub gas_limit: Option<u64>,
    /// The gas price, when overridden.
    pub gas_price: Option<u64>,
    /// The base fee in a block, when overridden.
    pub base_fee: Option<u64>,
    /// The EVM hardfork in effect.
    pub hardfork: Hardfork,
    /// Interval-mining period in seconds, when interval mining is on.
    pub block_time: Option<u64>,
    /// Mine only on demand.
    pub no_mining: bool,
    /// Initial funds of every generated account, in minimal units.
    pub genesis_balance: u128,
    /// How the initial accounts are derived.
    pub account_generator: AccountGenerator,
    /// Port number the server listens on.
    pub port: u16,
    /// Remote endpoint state is forked from, when in fork mode.
    pub eth_rpc_url: Option<String>,
    /// Block number state is forked at; only with `eth_rpc_url`.
    pub fork_block_number: Option<u64>,
    /// Initial retry backoff in seconds on remote errors; only with
    /// `eth_rpc_url`.
    pub fork_retry_backoff: Option<u64>,
    /// Remote storage reads are not cached; only with `eth_rpc_url`.
    pub no_storage_caching: bool,
    /// The host the server listens on, when overridden.
    pub host: Option<String>,
    /// Print nothing on startup.
    pub silent: bool,
    /// Write the configuration in effect to this file.
    pub config_out: Option<String>,
    /// The chain id in effect.
    pub chain_id: u64,
    /// How transactions are sorted in the mempool.
    pub transaction_order: TransactionOrder,
}

/// The mathematical content of a [`NodeConfig`].
pub ghost struct NodeConfigModel {
    pub gas_limit: Option<u64>,
    pub gas_price: Option<u64>,
    pub base_fee: Option<u64>,
    pub hardfork: Hardfork,
    pub block_time: Option<u64>,
    pub no_mining: bool,
    pub genesis_balance: u128,
    pub account_generator: AccountGeneratorModel,
    pub port: u16,
    pub eth_rpc_url: Option<Seq<char>>,
    pub fork_block_number: Option<u64>,
    pub fork_retry_backoff: Option<u64>,
    pub no_storage_caching: bool,
    pub host: Option<Seq<char>>,
    pub silent: bool,
    pub config_out: Option<Seq<char>>,
    pub chain_id: u64,
    pub transaction_order: TransactionOrder,
}

impl View for NodeConfig {
    type V = NodeConfigModel;

    open spec fn view(&self) -> NodeConfigModel {
        NodeConfigModel {
            gas_limit: self.gas_limit,
            gas_price: self.gas_price,
            base_fee: self.base_fee,
            hardfork: self.hardfork,
            block_time: self.block_time,
            no_mining: self.no_mining,
            genesis_balance: self.genesis_balance,
            account_generator: self.account_generator@,
            port: self.port,
            eth_rpc_url: self.eth_rpc_url.deep_view(),
            fork_block_number: self.fork_block_number,
            fork_retry_backoff: self.fork_retry_backoff,
            no_storage_caching: self.no_storage_caching,
            host: self.host.deep_view(),
            silent: self.silent,
            config_out: self.config_out.deep_view(),
            chain_id: self.chain_id,
            transaction_order: self.transaction_order,
        }
    }
}

/// The chain id in effect for given arguments: the explicit value, or the
/// fixed default.
pub open spec fn spec_chain_id(args: NodeArgs) -> u64 {
    match args.evm_opts.chain_id {
        Option::Some(id) => id,
        Option::None => CHAIN_ID,
    }
}

/// The account-generator content assembled from the arguments: the account
/// count, the resolved chain id, and the resolved phrase and path template
/// (explicit or default).
pub open spec fn spec_account_generator(args: NodeArgs) -> AccountGeneratorModel {
    AccountGeneratorModel {
        amount: args.accounts,
        phrase: match args.mnemonic {
            Option::Some(m) => m@,
            Option::None => default_mnemonic_view(),
        },
        derivation_path: match args.derivation_path {
            Option::Some(p) => p@,
            Option::None => default_derivation_path_view(),
        },
        chain_id: spec_chain_id(args),
    }
}

/// The configuration the arguments determine: the genesis balance converted
/// with saturation, the chain id resolved, the generator assembled, and the
/// remaining fields passed through unchanged.
pub open spec fn spec_node_config(args: NodeArgs) -> NodeConfigModel {
    NodeConfigModel {
        gas_limit: args.evm_opts.gas_limit,
        gas_price: args.evm_opts.gas_price,
        base_fee: args.evm_opts.block_base_fee_per_gas,
        hardfork: args.hardfork,
        block_time: args.block_time,
        no_mining: args.no_mining,
        genesis_balance: spec_genesis_balance(args.balance),
        account_generator: spec_account_generator(args),
        port: args.port,
        eth_rpc_url: args.evm_opts.fork_url.deep_view(),
        fork_block_number: args.evm_opts.fork_block_number,
        fork_retry_backoff: args.evm_opts.fork_retry_backoff,
        no_storage_caching: args.evm_opts.no_storage_caching,
        host: args.host.deep_view(),
        silent: args.silent,
        config_out: args.config_out.deep_view(),
        chain_id: spec_chain_id(args),
        transaction_order: args.order,
    }
}

impl NodeArgs {
    /// Assemble the account generator these arguments specify: the count,
    /// the resolved chain id, and the phrase and path template, explicit or
    /// default.
    pub fn account_generator(&self) -> (g: AccountGenerator)
        ensures
            g@ == spec_account_generator(*self),
    {
        let chain_id = match self.evm_opts.chain_id {
            Some(id) => id,
            None => CHAIN_ID,
        };
        let mut g = AccountGenerator::new(self.accounts).chain_id(chain_id);
        if let Some(mnemonic) = &self.mnemonic {
            g = g.phrase(mnemonic.clone());
        }
        if let Some(derivation) = &self.derivation_path {
            g = g.derivation_path(derivation.clone());
        }
        g
    }

    /// Build the node configuration these arguments determine. Pure: the
    /// result is the value [`spec_node_config`] gives for the arguments, so
    /// two calls on equal arguments yield structurally equal configurations,
    /// and no I/O occurs. Callers validate first; the builder never observes
    /// a broken cross-field constraint.
    pub fn into_node_config(self) -> (c: NodeConfig)
        requires
            spec_args_valid(self),
        ensures
            c@ == spec_node_config(self),
    {
        let genesis_balance = genesis_balance_wei(self.balance);
        let account_generator = self.account_generator();
        NodeConfig {
            gas_limit: self.evm_opts.gas_limit,
            gas_price: self.evm_opts.gas_price,
            base_fee: self.evm_opts.block_base_fee_per_gas,
            hardfork: self.hardfork,
            block_time: self.block_time,
            no_mining: self.no_mining,
            genesis_balance,
            account_generator,
            port: self.port,
            eth_rpc_url: self.evm_opts.fork_url,
            fork_block_number: self.evm_opts.fork_block_number,
            fork_retry_backoff: self.evm_opts.fork_retry_backoff,
            no_storage_caching: self.evm_opts.no_storage_caching,
            host: self.host,
            silent: self.silent,
            config_out: self.config_out,
            chain_id: match self.evm_opts.chain_id {
                Some(id) => id,
                None => CHAIN_ID,
            },
            transaction_order: self.order,
        }
    }

    /// Validate, then build: the fail-fast path from raw arguments to a
    /// configuration. Returns the configuration exactly when every
    /// cross-field constraint holds, and the first broken constraint
    /// otherwise.
    pub fn try_into_node_config(self) -> (r: Result<NodeConfig, UsageError>)
        ensures
            r is Ok <==> spec_args_valid(self),
            r is Ok ==> r->Ok_0@ == spec_node_config(self),
            r is Err ==> spec_validate(self) == Err::<(), UsageError>(r->Err_0),
    {
        match self.validate() {
            Ok(()) => Ok(self.into_node_config()),
            Err(e) => Err(e),
        }
    }
}

/// Configuration purity: the configuration built from given arguments is a
/// function of those arguments alone — equal arguments determine equal
/// configuration content. Together with [`NodeArgs::into_node_config`]'s
/// postcondition, which pins the built value to [`spec_node_config`],
/// building twice from equal arguments yields structurally equal
/// configurations; and being a verified function, the builder performs no
/// I/O.
pub proof fn lemma_config_purity(a: NodeArgs, b: NodeArgs)
    requires
        a == b,
    ensures
        spec_node_config(a) == spec_node_config(b),
{
}

/// The saturating balance conversion is exact below the clamp and clamps at
/// the top: one whole unit is exactly `WEI_IN_ETHER` minimal units, and the
/// maximum representable unit value yields the maximum representable
/// minimal-unit value instead of wrapping.
pub proof fn lemma_genesis_balance_saturates()
    ensures
        spec_genesis_balance(1) == WEI_IN_ETHER,
        spec_genesis_balance(u128::MAX) == u128::MAX,
{
    assert(u128::MAX * WEI_IN_ETHER > u128::MAX) by (nonlinear_arith);
}

} // verus!
