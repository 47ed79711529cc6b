//! Deterministic derivation of the node's initial account identities from a
//! seed phrase, a derivation-path template and a chain id. The generator only
//! fixes *which* keys are derived — the ordered sequence of concrete child
//! paths, bound to a chain id; materializing key bytes from the phrase is the
//! node runtime's job and happens outside this crate.

use vstd::prelude::*;
use vstd::string::StringExecFns;

use crate::derivation::ChildIndex;
use crate::derivation::HARDENED_LIMIT;
use crate::derivation::parse_derivation_path;
use crate::derivation::spec_parse_path;
use crate::mnemonic::bip39_checksum_ok;
use crate::mnemonic::bip39_valid;
use crate::mnemonic::check_mnemonic;
use crate::mnemonic::mnemonic_well_formed;
use crate::CHAIN_ID;

verus! {

/// The characters of the fixed, publicly known default seed phrase.
pub open spec fn default_mnemonic_view() -> Seq<char> {
    "test test test test test test test test test test test junk"@
}

/// The fixed, publicly known seed phrase used when none is supplied.
pub fn default_mnemonic() -> (r: String)
    ensures
        r@ == default_mnemonic_view(),
{
    String::from_str("test test test test test test test test test test test junk")
}

/// The characters of the standard derivation-path prefix.
pub open spec fn default_derivation_path_view() -> Seq<char> {
    "m/44'/60'/0'/0/"@
}

/// The standard derivation-path template used when none is supplied.
pub fn default_derivation_path() -> (r: String)
    ensures
        r@ == default_derivation_path_view(),
{
    String::from_str("m/44'/60'/0'/0/")
}

/// Why account generation failed; both cases are reported before any node
/// starts.
#[derive(Clone, Copy, Debug, PartialEq, Eq, Structural)]
pub enum AccountGenError {
    /// The seed phrase is not structurally well formed.
    InvalidMnemonic,
    /// The derivation-path template does not conform to the path grammar.
    InvalidDerivationPath,
}

impl AccountGenError {
    /// A human-readable description.
    pub fn message(&self) -> (r: String)
        ensures
            self is InvalidMnemonic ==> r@ == "invalid mnemonic phrase"@,
            self is InvalidDerivationPath ==> r@ == "invalid derivation path"@,
    {
        match self {
            AccountGenError::InvalidMnemonic => String::from_str("invalid mnemonic phrase"),
            AccountGenError::InvalidDerivationPath => String::from_str("invalid derivation path"),
        }
    }
}

/// One derived account identity: the concrete derivation path of its key —
/// the template's segments with the account index substituted at the end —
/// bound to the chain id the account will sign for.
#[derive(Clone, Debug, PartialEq, Eq)]
pub struct AccountIdentity {
    /// The concrete child path selecting this account's key.
    pub path: Vec<ChildIndex>,
    /// The chain the identity is bound to.
    pub chain_id: u64,
}

/// The mathematical content of an [`AccountIdentity`].
pub ghost struct AccountIdentityModel {
    pub path: Seq<ChildIndex>,
    pub chain_id: u64,
}

impl View for AccountIdentity {
    type V = AccountIdentityModel;

    open spec fn view(&self) -> AccountIdentityModel {
        AccountIdentityModel { path: self.path@, chain_id: self.chain_id }
    }
}

/// A specification for deriving dev accounts: how many, from which phrase,
/// along which path template, for which chain. A missing phrase or template
/// means the well-known default, which the view resolves.
#[derive(Clone, Debug, PartialEq, Eq)]
pub struct AccountGenerator {
    /// How many accounts to derive.
    pub amount: u64,
    /// The seed phrase, or the default when absent.
    pub phrase: Option<String>,
    /// The derivation-path template, or the standard prefix when absent.
    pub derivation_path: Option<String>,
    /// The chain id the derived identities are bound to.
    pub chain_id: u64,
}

/// The mathematical content of an [`AccountGenerator`], defaults resolved.
pub ghost struct AccountGeneratorModel {
    pub amount: u64,
    pub phrase: Seq<char>,
    pub derivation_path: Seq<char>,
    pub chain_id: u64,
}

impl View for AccountGenerator {
    type V = AccountGeneratorModel;

    open spec fn view(&self) -> AccountGeneratorModel {
        AccountGeneratorModel {
            amount: self.amount,
            phrase: match self.phrase {
                Option::Some(p) => p@,
                Option::None => default_mnemonic_view(),
            },
            derivation_path: match self.derivation_path {
                Option::Some(p) => p@,
                Option::None => default_derivation_path_view(),
            },
            chain_id: self.chain_id,
        }
    }
}

/// The ordered sequence of identities a generator derives: the i-th identity
/// follows the template with the index i substituted at its end. Fails with
/// the mnemonic error exactly when the phrase is not structurally well
/// formed or fails its BIP39 checksum (checked first), and with the path
/// error exactly when the template does not parse.
pub open spec fn spec_generate(g: AccountGeneratorModel) -> Result<
    Seq<AccountIdentityModel>,
    AccountGenError,
> {
    if !mnemonic_well_formed(g.phrase) || !bip39_valid(g.phrase) {
        Err(AccountGenError::InvalidMnemonic)
    } else {
        match spec_parse_path(g.derivation_path) {
            Option::None => Err(AccountGenError::InvalidDerivationPath),
            Option::Some(tpl) => Ok(
                Seq::new(
                    g.amount as nat,
                    |k: int|
                        AccountIdentityModel {
                            path: tpl.push(ChildIndex::Normal(k as u32)),
                            chain_id: g.chain_id,
                        },
                ),
            ),
        }
    }
}

impl AccountGenerator {
    /// A generator for `amount` accounts, with the default phrase, the
    /// standard path prefix, and the default chain id.
    pub fn new(amount: u64) -> (g: AccountGenerator)
        ensures
            g@ == (AccountGeneratorModel {
                amount,
                phrase: default_mnemonic_view(),
                derivation_path: default_derivation_path_view(),
                chain_id: CHAIN_ID,
            }),
    {
        AccountGenerator { amount, phrase: None, derivation_path: None, chain_id: CHAIN_ID }
    }

    /// The same generator with the phrase replaced.
    pub fn phrase(self, phrase: String) -> (g: AccountGenerator)
        ensures
            g@ == (AccountGeneratorModel { phrase: phrase@, ..self@ }),
    {
        AccountGenerator { phrase: Some(phrase), ..self }
    }

    /// The same generator with the derivation-path template replaced.
    pub fn derivation_path(self, path: String) -> (g: AccountGenerator)
        ensures
            g@ == (AccountGeneratorModel { derivation_path: path@, ..self@ }),
    {
        AccountGenerator { derivation_path: Some(path), ..self }
    }

    /// The same generator bound to another chain id.
    pub fn chain_id(self, chain_id: u64) -> (g: AccountGenerator)
        ensures
            g@ == (AccountGeneratorModel { chain_id, ..self@ }),
    {
        AccountGenerator { chain_id, ..self }
    }

    /// The phrase in effect: the supplied one, or the default.
    pub fn effective_phrase(&self) -> (r: String)
        ensures
            r@ == self@.phrase,
    {
        match &self.phrase {
            Some(p) => p.clone(),
            None => default_mnemonic(),
        }
    }

    /// The derivation-path template in effect: the supplied one, or the
    /// standard prefix.
    pub fn effective_derivation_path(&self) -> (r: String)
        ensures
            r@ == self@.derivation_path,
    {
        match &self.derivation_path {
            Some(p) => p.clone(),
            None => default_derivation_path(),
        }
    }

    /// Derive the ordered sequence of account identities this generator
    /// specifies. Deterministic: the result is a function of the generator's
    /// resolved content alone, so equal inputs always yield the identical
    /// sequence. An amount of zero yields the empty sequence. The amount must
    /// fit the 31-bit child-index space that the substituted indices live in.
    pub fn generate(&self) -> (r: Result<Vec<AccountIdentity>, AccountGenError>)
        requires
            self.amount < HARDENED_LIMIT,
        ensures
            match r {
                Ok(v) => spec_generate(self@) == Ok::<Seq<AccountIdentityModel>, AccountGenError>(
                    v@.map_values(|a: AccountIdentity| a@),
                ),
                Err(e) => spec_generate(self@) == Err::<Seq<AccountIdentityModel>, AccountGenError>(
                    e,
                ),
            },
    {
        let phrase = self.effective_phrase();
        if !check_mnemonic(phrase.as_str()) {
            return Err(AccountGenError::InvalidMnemonic);
        }
        if !bip39_checksum_ok(phrase.as_str()) {
            return Err(AccountGenError::InvalidMnemonic);
        }
        let path = self.effective_derivation_path();
        let template: Vec<ChildIndex> = match parse_derivation_path(path.as_str()) {
            Some(t) => t,
            None => {
                return Err(AccountGenError::InvalidDerivationPath);
            },
        };
        let ghost tpl: Seq<ChildIndex> = template@;
        let mut out: Vec<AccountIdentity> = Vec::new();
        let mut i: u64 = 0;
        while i < self.amount
            invariant
                0 <= i <= self.amount,
                self.amount < HARDENED_LIMIT,
                template@ == tpl,
                spec_parse_path(self@.derivation_path) == Some(tpl),
                out@.len() == i,
                forall|k: int|
                    0 <= k < i ==> #[trigger] out@[k]@ == (AccountIdentityModel {
                        path: tpl.push(ChildIndex::Normal(k as u32)),
                        chain_id: self.chain_id,
                    }),
            decreases self.amount - i,
        {
            let mut p: Vec<ChildIndex> = Vec::new();
            let mut j: usize = 0;
            while j < template.len()
                invariant
                    0 <= j <= template.len(),
                    template@ == tpl,
                    p@ == tpl.subrange(0, j as int),
                decreases template.len() - j,
            {
                p.push(template[j]);
                proof {
                    assert(tpl.subrange(0, j as int).push(tpl[j as int]) =~= tpl.subrange(
                        0,
                        j + 1,
                    ));
                }
                j = j + 1;
            }
            proof {
                assert(tpl.subrange(0, tpl.len() as int) =~= tpl);
            }
            p.push(ChildIndex::Normal(i as u32));
            out.push(AccountIdentity { path: p, chain_id: self.chain_id });
            i = i + 1;
        }
        proof {
            let models = out@.map_values(|a: AccountIdentity| a@);
            let expected = Seq::new(
                self@.amount as nat,
                |k: int|
                    AccountIdentityModel {
                        path: tpl.push(ChildIndex::Normal(k as u32)),
                        chain_id: self@.chain_id,
                    },
            );
            assert(models =~= expected);
        }
        Ok(out)
    }
}

/// Determinism of account generation: two generators with equal resolved
/// content derive equal ordered sequences of identities (or fail alike).
/// Together with [`AccountGenerator::generate`]'s postcondition, which pins
/// its result to `spec_generate` of the generator's content, two invocations
/// on identical arguments return identical sequences.
pub proof fn lemma_generate_deterministic(g1: AccountGeneratorModel, g2: AccountGeneratorModel)
    requires
        g1 == g2,
    ensures
        spec_generate(g1) == spec_generate(g2),
{
}

} // verus!
