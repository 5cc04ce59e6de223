//! Solana wallet keys and ed25519 signatures.

use vstd::prelude::*;

verus! {

/// What `solana_pubkey::Pubkey::from_str` makes of a text: the 32 bytes of the
/// key it names in base58, or the text of the `ParsePubkeyError` it fails with.
pub uninterp spec fn pubkey_from_base58(text: Seq<char>) -> Result<Seq<u8>, Seq<char>>;

/// Whether `solana_signature::Signature::verify` accepts this 64-byte
/// signature of the UTF-8 bytes of `message` under the 32-byte public key
/// (a strict ed25519 check).
pub uninterp spec fn ed25519_verifies(signature: Seq<u8>, pubkey: Seq<u8>, message: Seq<char>) -> bool;

/// `Pubkey::from_str`: decodes a base58 wallet address. The result is named
/// by `pubkey_from_base58`; on success it is the key's 32 bytes
/// (`Pubkey::to_bytes`), on failure the error's `Display` text, which is
/// "String is the wrong size" (`WrongSize`) or "Invalid Base58 string"
/// (`Invalid`). Which texts decode, and which error each other text gets, is
/// not stated.
#[verifier::external_body]
pub(crate) fn parse_pubkey(text: &str) -> (res: Result<Vec<u8>, String>)
    ensures
        match res {
            Ok(bytes) => pubkey_from_base58(text@) == Ok::<Seq<u8>, Seq<char>>(bytes@)
                && bytes@.len() == 32,
            Err(e) => pubkey_from_base58(text@) == Err::<Seq<u8>, Seq<char>>(e@) && (e@
                == "String is the wrong size"@ || e@ == "Invalid Base58 string"@),
        },
{
    match <solana_pubkey::Pubkey as std::str::FromStr>::from_str(text) {
        Ok(key) => Ok(key.to_bytes().to_vec()),
        Err(e) => Err(e.to_string()),
    }
}

/// `Signature::verify` on the signature made from these 64 bytes, the key's
/// bytes and the message's UTF-8 bytes. Named by `ed25519_verifies`.
#[verifier::external_body]
pub(crate) fn verify_signature(signature: &Vec<u8>, pubkey: &Vec<u8>, message: &str) -> (ok: bool)
    requires
        signature@.len() == 64,
    ensures
        ok == ed25519_verifies(signature@, pubkey@, message@),
{
    match solana_signature::Signature::try_from(signature.as_slice()) {
        Ok(sig) => sig.verify(pubkey.as_slice(), message.as_bytes()),
        Err(_) => false,
    }
}

} // verus!
