//! Mnemonic phrases, read with the English word list.
use vstd::prelude::*;

verus! {

/// What a phrase holds: its entropy if it is a valid mnemonic, else the
/// reason why it is not.
pub uninterp spec fn mnemonic_entropy(phrase: Seq<char>) -> Result<Seq<u8>, Seq<char>>;

/// Calls `Mnemonic::from_phrase` of the `bip39` library with the English
/// word list, and takes the mnemonic's entropy or the error's text.
///
/// Trusted: the outcome depends on the phrase alone; [`mnemonic_entropy`]
/// names it.
#[verifier::external_body]
pub(crate) fn phrase_to_entropy(phrase: &str) -> (res: Result<Vec<u8>, String>)
    ensures
        match res {
            Ok(entropy) => mnemonic_entropy(phrase@) == Ok::<Seq<u8>, Seq<char>>(entropy@),
            Err(reason) => mnemonic_entropy(phrase@) == Err::<Seq<u8>, Seq<char>>(reason@),
        },
{
    match bip39::Mnemonic::from_phrase(phrase, bip39::Language::English) {
        Ok(mnemonic) => Ok(mnemonic.entropy().to_vec()),
        Err(kind) => Err(kind.to_string()),
    }
}

} // verus!
