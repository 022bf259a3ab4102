//! Key material and its text encoding.

use vstd::prelude::*;

verus! {

/// Number of bytes in a secret key, and in a public key.
pub const KEY_LENGTH: usize = 32;

/// Most bytes that the stored text of one key may have: a key of 32 bytes
/// takes 52 characters of five bits each.
pub const KEY_TEXT_LENGTH: usize = 52;

/// The error of `z32::decode`, carried through unopened.
#[verifier::external_type_specification]
#[verifier::external_body]
pub struct ExZ32Error(z32::Z32Error);

/// The error of parsing an `iroh::EndpointId`, carried through unopened.
#[verifier::external_type_specification]
#[verifier::external_body]
pub struct ExKeyParsingError(iroh::KeyParsingError);

/// The z-base-32 text that `z32::encode` produces for `data`.
pub uninterp spec fn z32_text(data: Seq<u8>) -> Seq<u8>;

/// The bytes that `z32::decode` recovers from `text`, if it accepts `text`.
pub uninterp spec fn z32_bytes(text: Seq<u8>) -> Option<Seq<u8>>;

/// The public key that belongs to the secret key `secret`.
pub uninterp spec fn public_key_of(secret: Seq<u8>) -> Seq<u8>;

/// The endpoint identifier that `text` spells, if it spells one.
pub uninterp spec fn endpoint_id_of(text: Seq<char>) -> Option<Seq<u8>>;

/// Calls `z32::encode` on a 32-byte key.
///
/// Trusted: the text is the one named by [`z32_text`]. Nothing is assumed
/// of what the text looks like, nor that `z32::decode` turns it back into
/// the key: whoever needs that checks it.
#[verifier::external_body]
pub(crate) fn z32_encode(data: &[u8; 32]) -> (text: Vec<u8>)
    ensures
        text@ == z32_text(data@),
{
    z32::encode(data).into_bytes()
}

/// Calls `z32::decode`.
///
/// Trusted: the outcome is the one named by [`z32_bytes`]. The bound on the
/// length keeps the size computation inside `z32::decode` from overflowing.
#[verifier::external_body]
pub(crate) fn z32_decode(text: &[u8]) -> (data: Result<Vec<u8>, z32::Z32Error>)
    requires
        text@.len() <= KEY_TEXT_LENGTH,
    ensures
        match data {
            Ok(bytes) => z32_bytes(text@) == Some(bytes@),
            Err(_) => z32_bytes(text@) is None,
        },
{
    z32::decode(text)
}

/// Calls `iroh::SecretKey::public` on the key made by
/// `iroh::SecretKey::from_bytes`.
///
/// Trusted: the result is the public key named by [`public_key_of`].
#[verifier::external_body]
pub(crate) fn derive_public(secret: &[u8; 32]) -> (public: [u8; 32])
    ensures
        public@ == public_key_of(secret@),
{
    *iroh::SecretKey::from_bytes(secret).public().as_bytes()
}

/// Calls the `FromStr` impl of `iroh::EndpointId`.
///
/// Trusted: the outcome is the one named by [`endpoint_id_of`].
#[verifier::external_body]
pub(crate) fn parse_endpoint_id(text: &str) -> (id: Result<[u8; 32], iroh::KeyParsingError>)
    ensures
        match id {
            Ok(bytes) => endpoint_id_of(text@) == Some(bytes@),
            Err(_) => endpoint_id_of(text@) is None,
        },
{
    match text.parse::<iroh::EndpointId>() {
        Ok(id) => Ok(*id.as_bytes()),
        Err(e) => Err(e),
    }
}

/// Calls `iroh::SecretKey::generate` with the thread's random generator.
///
/// Nothing is promised of the key: it differs from call to call.
#[verifier::external_body]
pub(crate) fn random_secret() -> (secret: [u8; 32]) {
    iroh::SecretKey::generate(&mut rand::rng()).to_bytes()
}

/// A fresh secret key, drawn at random.
pub fn generate_secret() -> (secret: [u8; 32])
    ensures
        secret@.len() == KEY_LENGTH,
{
    random_secret()
}

} // verus!
