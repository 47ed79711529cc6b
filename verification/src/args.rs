//! Schema and cross-field validation of the launch parameters. The raw
//! values arrive from the command line (and an environment fallback for the
//! host address) already typed; everything that relates one field to another
//! is enforced here, once, before any configuration is built.

use vstd::prelude::*;
use vstd::string::StringExecFns;

use crate::text::str_eq;

verus! {

/// The closed set of EVM hardforks a node can be pinned to.
#[derive(Clone, Copy, Debug, PartialEq, Eq, Structural)]
pub enum Hardfork {
    Frontier,
    Homestead,
    Dao,
    Tangerine,
    SpuriousDragon,
    Byzantium,
    Constantinople,
    Petersburg,
    Istanbul,
    Muirglacier,
    Berlin,
    London,
    ArrowGlacier,
    Latest,
}

/// The hardfork a name selects, if any.
pub open spec fn spec_parse_hardfork(s: Seq<char>) -> Option<Hardfork> {
    if s == "frontier"@ {
        Some(Hardfork::Frontier)
    } else if s == "homestead"@ {
        Some(Hardfork::Homestead)
    } else if s == "dao"@ {
        Some(Hardfork::Dao)
    } else if s == "tangerine"@ {
        Some(Hardfork::Tangerine)
    } else if s == "spuriousdragon"@ {
        Some(Hardfork::SpuriousDragon)
    } else if s == "byzantium"@ {
        Some(Hardfork::Byzantium)
    } else if s == "constantinople"@ {
        Some(Hardfork::Constantinople)
    } else if s == "petersburg"@ {
        Some(Hardfork::Petersburg)
    } else if s == "istanbul"@ {
        Some(Hardfork::Istanbul)
    } else if s == "muirglacier"@ {
        Some(Hardfork::Muirglacier)
    } else if s == "berlin"@ {
        Some(Hardfork::Berlin)
    } else if s == "london"@ {
        Some(Hardfork::London)
    } else if s == "arrowglacier"@ {
        Some(Hardfork::ArrowGlacier)
    } else if s == "latest"@ {
        Some(Hardfork::Latest)
    } else {
        None
    }
}

impl Hardfork {
    /// Select a hardfork from the closed enumeration by its lowercase name.
    pub fn parse(s: &str) -> (r: Option<Hardfork>)
        ensures
            r == spec_parse_hardfork(s@),
    {
        if str_eq(s, "frontier") {
            Some(Hardfork::Frontier)
        } else if str_eq(s, "homestead") {
            Some(Hardfork::Homestead)
        } else if str_eq(s, "dao") {
            Some(Hardfork::Dao)
        } else if str_eq(s, "tangerine") {
            Some(Hardfork::Tangerine)
        } else if str_eq(s, "spuriousdragon") {
            Some(Hardfork::SpuriousDragon)
        } else if str_eq(s, "byzantium") {
            Some(Hardfork::Byzantium)
        } else if str_eq(s, "constantinople") {
            Some(Hardfork::Constantinople)
        } else if str_eq(s, "petersburg") {
            Some(Hardfork::Petersburg)
        } else if str_eq(s, "istanbul") {
            Some(Hardfork::Istanbul)
        } else if str_eq(s, "muirglacier") {
            Some(Hardfork::Muirglacier)
        } else if str_eq(s, "berlin") {
            Some(Hardfork::Berlin)
        } else if str_eq(s, "london") {
            Some(Hardfork::London)
        } else if str_eq(s, "arrowglacier") {
            Some(Hardfork::ArrowGlacier)
        } else if str_eq(s, "latest") {
            Some(Hardfork::Latest)
        } else {
            None
        }
    }
}

/// The closed set of policies by which the mempool orders transactions. The
/// ordering algorithm itself lives elsewhere; only the selector is carried.
#[derive(Clone, Copy, Debug, PartialEq, Eq, Structural)]
pub enum TransactionOrder {
    /// Order by offered fees.
    Fees,
    /// First in, first out.
    Fifo,
}

/// The ordering policy a name selects, if any.
pub open spec fn spec_parse_transaction_order(s: Seq<char>) -> Option<TransactionOrder> {
    if s == "fees"@ {
        Some(TransactionOrder::Fees)
    } else if s == "fifo"@ {
        Some(TransactionOrder::Fifo)
    } else {
        None
    }
}

impl TransactionOrder {
    /// Select an ordering policy from the closed enumeration by its name.
    pub fn parse(s: &str) -> (r: Option<TransactionOrder>)
        ensures
            r == spec_parse_transaction_order(s@),
    {
        if str_eq(s, "fees") {
            Some(TransactionOrder::Fees)
        } else if str_eq(s, "fifo") {
            Some(TransactionOrder::Fifo)
        } else {
            None
        }
    }
}

/// Launch parameters that only matter to the EVM environment and to fork
/// mode. The three fork-only options are meaningful — and accepted — only
/// when `fork_url` is set.
#[derive(Clone, Debug, PartialEq, Eq)]
pub struct AnvilEvmArgs {
    /// Remote endpoint to fetch state from, instead of starting empty.
    pub fork_url: Option<String>,
    /// Block number to fetch state at; requires `fork_url`.
    pub fork_block_number: Option<u64>,
    /// Initial retry backoff, in seconds, on remote errors; requires
    /// `fork_url`.
    pub fork_retry_backoff: Option<u64>,
    /// Disable caching of remote storage reads; requires `fork_url`.
    pub no_storage_caching: bool,
    /// The block gas limit.
    pub gas_limit: Option<u64>,
    /// The gas price.
    pub gas_price: Option<u64>,
    /// The base fee in a block.
    pub block_base_fee_per_gas: Option<u64>,
    /// The chain id; a fixed default applies when absent.
    pub chain_id: Option<u64>,
}

/// All launch parameters of a node, as supplied by the user plus defaults.
/// A value of this type is validated once by [`NodeArgs::validate`] and not
/// mutated afterwards.
#[derive(Clone, Debug, PartialEq, Eq)]
pub struct NodeArgs {
    /// EVM and fork related parameters.
    pub evm_opts: AnvilEvmArgs,
    /// Port number to listen on.
    pub port: u16,
    /// Number of dev accounts to generate and configure.
    pub accounts: u64,
    /// The balance of every dev account, in whole currency units.
    pub balance: u128,
    /// Seed phrase used for generating accounts; a fixed, publicly known
    /// default applies when absent.
    pub mnemonic: Option<String>,
    /// Derivation path template of the child keys to derive; the standard
    /// path prefix applies when absent.
    pub derivation_path: Option<String>,
    /// Print nothing on startup.
    pub silent: bool,
    /// The EVM hardfork to use.
    pub hardfork: Hardfork,
    /// Block time in seconds for interval mining; must be positive.
    pub block_time: Option<u64>,
    /// Write the configuration in effect to this file.
    pub config_out: Option<String>,
    /// Disable auto and interval mining, and mine on demand instead;
    /// conflicts with `block_time`.
    pub no_mining: bool,
    /// The host the server will listen on; resolved from an environment
    /// variable when the flag is absent.
    pub host: Option<String>,
    /// How transactions are sorted in the mempool.
    pub order: TransactionOrder,
}

/// A cross-field constraint among the launch parameters was broken. Reported
/// once, before any node starts.
#[derive(Clone, Copy, Debug, PartialEq, Eq, Structural)]
pub enum UsageError {
    /// Both an interval-mining period and disabled mining were supplied.
    MiningConflict,
    /// The interval-mining period must be a positive number of seconds.
    NonPositiveBlockTime,
    /// A fork block number was supplied without a fork endpoint.
    ForkBlockNumberRequiresForkUrl,
    /// A fork retry backoff was supplied without a fork endpoint.
    ForkRetryBackoffRequiresForkUrl,
    /// Disabled storage caching was supplied without a fork endpoint.
    NoStorageCachingRequiresForkUrl,
}

impl UsageError {
    /// A human-readable description, naming the offending flags.
    pub fn message(&self) -> (r: String)
        ensures
            self is MiningConflict ==> r@ == "--block-time conflicts with --no-mining"@,
            self is NonPositiveBlockTime ==> r@ == "--block-time must be a positive number of seconds"@,
            self is ForkBlockNumberRequiresForkUrl ==> r@
                == "--fork-block-number requires a fork endpoint (--fork-url)"@,
            self is ForkRetryBackoffRequiresForkUrl ==> r@
                == "--fork-retry-backoff requires a fork endpoint (--fork-url)"@,
            self is NoStorageCachingRequiresForkUrl ==> r@
                == "--no-storage-caching requires a fork endpoint (--fork-url)"@,
    {
        match self {
            UsageError::MiningConflict => String::from_str(
                "--block-time conflicts with --no-mining",
            ),
            UsageError::NonPositiveBlockTime => String::from_str(
                "--block-time must be a positive number of seconds",
            ),
            UsageError::ForkBlockNumberRequiresForkUrl => String::from_str(
                "--fork-block-number requires a fork endpoint (--fork-url)",
            ),
            UsageError::ForkRetryBackoffRequiresForkUrl => String::from_str(
                "--fork-retry-backoff requires a fork endpoint (--fork-url)",
            ),
            UsageError::NoStorageCachingRequiresForkUrl => String::from_str(
                "--no-storage-caching requires a fork endpoint (--fork-url)",
            ),
        }
    }
}

/// The launch parameters in effect when nothing is supplied: the defaults,
/// centralized in one place.
pub open spec fn spec_default_args() -> NodeArgs {
    NodeArgs {
        evm_opts: AnvilEvmArgs {
            fork_url: Option::None,
            fork_block_number: Option::None,
            fork_retry_backoff: Option::None,
            no_storage_caching: false,
            gas_limit: Option::None,
            gas_price: Option::None,
            block_base_fee_per_gas: Option::None,
            chain_id: Option::None,
        },
        port: 8545,
        accounts: 10,
        balance: 10000,
        mnemonic: Option::None,
        derivation_path: Option::None,
        silent: false,
        hardfork: Hardfork::Latest,
        block_time: Option::None,
        config_out: Option::None,
        no_mining: false,
        host: Option::None,
        order: TransactionOrder::Fees,
    }
}

impl Default for NodeArgs {
    /// The default launch parameters, which are always valid.
    fn default() -> (r: NodeArgs)
        ensures
            r == spec_default_args(),
            spec_args_valid(r),
    {
        NodeArgs {
            evm_opts: AnvilEvmArgs {
                fork_url: None,
                fork_block_number: None,
                fork_retry_backoff: None,
                no_storage_caching: false,
                gas_limit: None,
                gas_price: None,
                block_base_fee_per_gas: None,
                chain_id: None,
            },
            port: 8545,
            accounts: 10,
            balance: 10000,
            mnemonic: None,
            derivation_path: None,
            silent: false,
            hardfork: Hardfork::Latest,
            block_time: None,
            config_out: None,
            no_mining: false,
            host: None,
            order: TransactionOrder::Fees,
        }
    }
}

/// Interval mining and disabled mining are mutually exclusive.
pub open spec fn mining_ok(args: NodeArgs) -> bool {
    !(args.block_time is Some && args.no_mining)
}

/// An interval-mining period, when given, is a positive number of seconds.
pub open spec fn block_time_ok(args: NodeArgs) -> bool {
    args.block_time is Some ==> args.block_time->0 > 0
}

/// Fork-only options are accepted only together with a fork endpoint.
pub open spec fn fork_deps_ok(args: NodeArgs) -> bool {
    &&& args.evm_opts.fork_block_number is Some ==> args.evm_opts.fork_url is Some
    &&& args.evm_opts.fork_retry_backoff is Some ==> args.evm_opts.fork_url is Some
    &&& args.evm_opts.no_storage_caching ==> args.evm_opts.fork_url is Some
}

/// All cross-field constraints together.
pub open spec fn spec_args_valid(args: NodeArgs) -> bool {
    &&& mining_ok(args)
    &&& block_time_ok(args)
    &&& fork_deps_ok(args)
}

/// The outcome of validation, with the precedence among the possible errors
/// pinned down: the mining conflict is reported first, then a non-positive
/// period, then the fork-only options in a fixed order.
pub open spec fn spec_validate(args: NodeArgs) -> Result<(), UsageError> {
    if args.block_time is Some && args.no_mining {
        Err(UsageError::MiningConflict)
    } else if args.block_time is Some && args.block_time->0 == 0 {
        Err(UsageError::NonPositiveBlockTime)
    } else if args.evm_opts.fork_block_number is Some && args.evm_opts.fork_url is None {
        Err(UsageError::ForkBlockNumberRequiresForkUrl)
    } else if args.evm_opts.fork_retry_backoff is Some && args.evm_opts.fork_url is None {
        Err(UsageError::ForkRetryBackoffRequiresForkUrl)
    } else if args.evm_opts.no_storage_caching && args.evm_opts.fork_url is None {
        Err(UsageError::NoStorageCachingRequiresForkUrl)
    } else {
        Ok(())
    }
}

impl NodeArgs {
    /// Check every cross-field constraint, returning the first broken one.
    /// Succeeds exactly on the arguments all of whose constraints hold.
    pub fn validate(&self) -> (r: Result<(), UsageError>)
        ensures
            r == spec_validate(*self),
            r is Ok <==> spec_args_valid(*self),
    {
        if self.block_time.is_some() && self.no_mining {
            Err(UsageError::MiningConflict)
        } else if matches!(self.block_time, Some(0u64)) {
            Err(UsageError::NonPositiveBlockTime)
        } else if self.evm_opts.fork_block_number.is_some() && self.evm_opts.fork_url.is_none() {
            Err(UsageError::ForkBlockNumberRequiresForkUrl)
        } else if self.evm_opts.fork_retry_backoff.is_some() && self.evm_opts.fork_url.is_none() {
            Err(UsageError::ForkRetryBackoffRequiresForkUrl)
        } else if self.evm_opts.no_storage_caching && self.evm_opts.fork_url.is_none() {
            Err(UsageError::NoStorageCachingRequiresForkUrl)
        } else {
            Ok(())
        }
    }
}

/// Mutual exclusion of mining modes: supplying both an interval-mining
/// period and disabled mining fails validation with the conflict error;
/// supplying either alone — with the remaining constraints intact — succeeds.
pub proof fn lemma_mining_mutual_exclusion(args: NodeArgs)
    ensures
        args.block_time is Some && args.no_mining ==> spec_validate(args) == Err::<
            (),
            UsageError,
        >(UsageError::MiningConflict),
        mining_ok(args) && block_time_ok(args) && fork_deps_ok(args) ==> spec_validate(args) is Ok,
{
}

/// Dependency enforcement: a fork block number without a fork endpoint fails
/// validation with the error naming that flag; together with an endpoint —
/// and the remaining constraints intact — it succeeds.
pub proof fn lemma_fork_block_number_dependency(args: NodeArgs)
    ensures
        args.evm_opts.fork_block_number is Some && args.evm_opts.fork_url is None && mining_ok(args)
            && block_time_ok(args) ==> spec_validate(args) == Err::<(), UsageError>(
            UsageError::ForkBlockNumberRequiresForkUrl,
        ),
        args.evm_opts.fork_block_number is Some && args.evm_opts.fork_url is Some && mining_ok(args)
            && block_time_ok(args) && fork_deps_ok(args) ==> spec_validate(args) is Ok,
{
}

} // verus!
