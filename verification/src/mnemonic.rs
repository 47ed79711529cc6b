//! Validation of a seed phrase, before any node starts. The structural part
//! — a non-empty sequence of lowercase words separated by single spaces,
//! with one of the word counts that seed phrases can have — is verified
//! here. The semantic part — wordlist membership and the checksum over the
//! decoded entropy — is decided by the outside BIP39 implementation behind
//! [`bip39_checksum_ok`], whose verdict the contracts carry under the name
//! [`bip39_valid`].

use vstd::prelude::*;

verus! {

/// Whether a phrase is a valid BIP39 mnemonic — an accepted word count,
/// every word drawn from the English wordlist, and checksum bits matching
/// the digest of the decoded entropy. A function of the characters alone;
/// what it holds for is decided by the outside implementation behind
/// [`bip39_checksum_ok`].
pub uninterp spec fn bip39_valid(phrase: Seq<char>) -> bool;

/// Relies on `bip39::Mnemonic::parse_in_normalized` with the English
/// wordlist: it accepts exactly the phrases with an accepted word count,
/// every word in the wordlist, and a checksum that matches the entropy's
/// digest — a deterministic function of the characters alone.
#[verifier::external_body]
pub(crate) fn bip39_checksum_ok(s: &str) -> (r: bool)
    ensures
        r == bip39_valid(s@),
{
    bip39::Mnemonic::parse_in_normalized(bip39::Language::English, s).is_ok()
}

/// A character a seed phrase may contain: a lowercase ASCII letter or the
/// single space that separates two words.
pub open spec fn is_phrase_char(c: char) -> bool {
    (97 <= c as u32 && c as u32 <= 122) || c as u32 == 32
}

/// How many spaces a sequence of characters contains.
pub open spec fn spec_space_count(s: Seq<char>) -> nat
    decreases s.len(),
{
    if s.len() == 0 {
        0
    } else {
        spec_space_count(s.drop_last()) + if s.last() as u32 == 32 {
            1nat
        } else {
            0nat
        }
    }
}

/// The word counts a seed phrase can have.
pub open spec fn valid_word_count(n: nat) -> bool {
    n == 12 || n == 15 || n == 18 || n == 21 || n == 24
}

/// A structurally well-formed seed phrase: non-empty, only lowercase letters
/// and spaces, no leading, trailing or doubled space, and a word count drawn
/// from the accepted set.
pub open spec fn mnemonic_well_formed(s: Seq<char>) -> bool {
    &&& s.len() > 0
    &&& (forall|i: int| 0 <= i < s.len() ==> is_phrase_char(#[trigger] s[i]))
    &&& s[0] as u32 != 32
    &&& s[s.len() - 1] as u32 != 32
    &&& (forall|i: int|
        0 <= i < s.len() - 1 ==> !(s[i] as u32 == 32 && #[trigger] s[i + 1] as u32 == 32))
    &&& valid_word_count(spec_space_count(s) + 1)
}

/// Decide whether a phrase is structurally well formed.
pub fn check_mnemonic(s: &str) -> (r: bool)
    ensures
        r == mnemonic_well_formed(s@),
{
    let n: usize = s.unicode_len();
    if n == 0 {
        return false;
    }
    if s.get_char(0) as u32 == 32 {
        return false;
    }
    if s.get_char(n - 1) as u32 == 32 {
        return false;
    }
    let mut spaces: usize = 0;
    let mut i: usize = 0;
    while i < n
        invariant
            0 <= i <= n,
            n == s@.len(),
            spaces <= i,
            spaces == spec_space_count(s@.take(i as int)),
            forall|j: int| 0 <= j < i ==> is_phrase_char(#[trigger] s@[j]),
            forall|j: int| 0 <= j < i - 1 ==> !(s@[j] as u32 == 32 && #[trigger] s@[j + 1] as u32 == 32),
        decreases n - i,
    {
        let c = s.get_char(i);
        let cv = c as u32;
        if !((97 <= cv && cv <= 122) || cv == 32) {
            assert(!is_phrase_char(s@[i as int]));
            return false;
        }
        if cv == 32 && i > 0 && s.get_char(i - 1) as u32 == 32 {
            proof {
                let k = i as int - 1;
                assert(s@[k] as u32 == 32 && s@[k + 1] as u32 == 32);
            }
            return false;
        }
        if cv == 32 {
            spaces = spaces + 1;
        }
        proof {
            assert(s@.take(i + 1).drop_last() =~= s@.take(i as int));
            assert(s@.take(i + 1).last() == s@[i as int]);
        }
        i = i + 1;
    }
    proof {
        assert(s@.take(n as int) =~= s@);
    }
    spaces == 11 || spaces == 14 || spaces == 17 || spaces == 20 || spaces == 23
}

} // verus!
