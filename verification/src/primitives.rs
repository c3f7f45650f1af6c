//! Bindings to the cryptographic crates this library builds on.
//!
//! Everything in this module is trusted: Verus takes the contracts below as
//! given and does not look into the crates. Each contract states no more than
//! the crate's source shows. Where the operating system cannot supply
//! randomness the crates panic, and no contract can rule that out.

use aes_gcm::aead::{Aead, AeadCore, KeyInit, OsRng};
use aes_gcm::{Aes256Gcm, Key, Nonce};
use rsa::pkcs8::{EncodePrivateKey, EncodePublicKey, LineEnding};
use rsa::{Pkcs1v15Encrypt, RsaPrivateKey, RsaPublicKey};
use sha2::{Digest, Sha256};
use vstd::prelude::*;

verus! {

/// Length in bytes of a symmetric key.
pub const KEY_LEN: usize = 32;

/// Length in bytes of the nonce that starts every envelope.
pub const NONCE_LEN: usize = 12;

/// Length in bytes of the authentication tag that ends every sealed body.
pub const TAG_LEN: usize = 16;

/// Longest plaintext, in bytes, that AES-GCM encrypts under one nonce (2^36).
pub const MAX_PLAINTEXT_LEN: u64 = 68719476736;

/// The SHA-256 digest of `data`.
pub uninterp spec fn sha256(data: Seq<u8>) -> Seq<u8>;

/// What AES-256-GCM makes of `plaintext` under `key` and `nonce`, with no
/// associated data: the ciphertext followed by the 16-byte tag.
pub uninterp spec fn aes256_gcm_sealed(key: Seq<u8>, nonce: Seq<u8>, plaintext: Seq<u8>) -> Seq<u8>;

/// What AES-256-GCM recovers from `sealed` under `key` and `nonce`, with no
/// associated data: the plaintext, or `None` where the tag does not verify.
pub uninterp spec fn aes256_gcm_opened(key: Seq<u8>, nonce: Seq<u8>, sealed: Seq<u8>) -> Option<
    Seq<u8>,
>;

/// The error of the `aead` crate: it carries no detail, by design.
#[verifier::external_type_specification]
#[verifier::external_body]
pub struct ExAeadError(aes_gcm::Error);

/// `Display` of the `aead` crate's error: always the same text.
#[verifier::external_body]
pub(crate) fn aead_error_text(error: &aes_gcm::Error) -> (text: String)
    ensures
        text@ == "aead::Error"@,
{
    error.to_string()
}

/// `sha2::Sha256::digest`: one SHA-256 pass over `data`. The digest depends on
/// the bytes alone and is 32 bytes long.
#[verifier::external_body]
pub(crate) fn sha256_digest(data: &[u8]) -> (digest: [u8; 32])
    ensures
        digest@ == sha256(data@),
{
    Sha256::digest(data).into()
}

/// `AeadCore::generate_nonce` on the operating system's generator: twelve
/// random bytes. Nothing is claimed of their values; in particular not that
/// two calls differ.
#[verifier::external_body]
pub(crate) fn random_nonce() -> (nonce: [u8; 12]) {
    Aes256Gcm::generate_nonce(&mut OsRng).into()
}

/// `Aead::encrypt` of `Aes256Gcm`. The call fails exactly when the plaintext
/// is longer than the cipher's limit. Otherwise the result is the ciphertext
/// with the tag appended, sixteen bytes longer than the plaintext, a function
/// of the three arguments alone, and `Aead::decrypt` under the same key and
/// nonce gives the plaintext back: it recomputes the same tag and applies the
/// same key stream.
#[verifier::external_body]
pub(crate) fn aes256_gcm_encrypt(key: &[u8; 32], nonce: &[u8; 12], plaintext: &[u8]) -> (sealed:
    Result<Vec<u8>, aes_gcm::Error>)
    ensures
        sealed is Ok <==> plaintext@.len() <= MAX_PLAINTEXT_LEN,
        sealed matches Ok(body) ==> {
            &&& body@ == aes256_gcm_sealed(key@, nonce@, plaintext@)
            &&& body@.len() == plaintext@.len() + TAG_LEN
            &&& aes256_gcm_opened(key@, nonce@, body@) == Some(plaintext@)
        },
{
    let cipher = Aes256Gcm::new(Key::<Aes256Gcm>::from_slice(key));
    cipher.encrypt(Nonce::from_slice(nonce), plaintext)
}

/// `Aead::decrypt` of `Aes256Gcm`, which takes a nonce of exactly twelve bytes.
/// The result depends on the three arguments alone. The call succeeds only on
/// an input that holds a tag, and the plaintext is then as long as the input
/// without its tag.
#[verifier::external_body]
pub(crate) fn aes256_gcm_decrypt(key: &[u8; 32], nonce: &[u8], sealed: &[u8]) -> (opened: Result<
    Vec<u8>,
    aes_gcm::Error,
>)
    requires
        nonce@.len() == NONCE_LEN,
    ensures
        match opened {
            Ok(plaintext) => aes256_gcm_opened(key@, nonce@, sealed@) == Some(plaintext@),
            Err(_) => aes256_gcm_opened(key@, nonce@, sealed@) is None,
        },
        opened matches Ok(plaintext) ==> sealed@.len() == plaintext@.len() + TAG_LEN,
{
    let cipher = Aes256Gcm::new(Key::<Aes256Gcm>::from_slice(key));
    cipher.decrypt(Nonce::from_slice(nonce), sealed)
}

/// Bytes that PKCS#1 v1.5 encryption padding adds to a message.
pub const PKCS1_PADDING_LEN: usize = 11;

/// An RSA private key of the `rsa` crate, with its public components.
#[verifier::external_type_specification]
#[verifier::external_body]
pub struct ExRsaPrivateKey(RsaPrivateKey);

/// An RSA public key of the `rsa` crate.
#[verifier::external_type_specification]
#[verifier::external_body]
pub struct ExRsaPublicKey(RsaPublicKey);

/// The error of the `rsa` crate.
#[verifier::external_type_specification]
#[verifier::external_body]
pub struct ExRsaError(rsa::Error);

/// The error of the `spki` crate, which encodes public keys.
#[verifier::external_type_specification]
#[verifier::external_body]
pub struct ExSpkiError(rsa::pkcs8::spki::Error);

/// The error of the `pkcs8` crate, which encodes private keys.
#[verifier::external_type_specification]
#[verifier::external_body]
pub struct ExPkcs8Error(rsa::pkcs8::Error);

/// Whether a private key is sound, as the keys that `RsaPrivateKey::new`
/// generates are: the modulus is the product of two distinct primes and the
/// private exponent is inverse to the public one.
pub uninterp spec fn rsa_key_is_sound(private_key: RsaPrivateKey) -> bool;

/// The public key that `RsaPublicKey::from` takes out of a private key.
pub uninterp spec fn rsa_public_half(private_key: RsaPrivateKey) -> RsaPublicKey;

/// What `PublicKeyParts::size` returns: the length of the modulus in bytes.
pub uninterp spec fn rsa_modulus_len(public_key: RsaPublicKey) -> nat;

/// What `RsaPrivateKey::decrypt` with PKCS#1 v1.5 padding recovers from
/// `wrapped`, or `None` where it fails.
pub uninterp spec fn rsa_pkcs1v15_opened(private_key: RsaPrivateKey, wrapped: Seq<u8>) -> Option<
    Seq<u8>,
>;

/// The PEM text, with LF line ends, of the key's SubjectPublicKeyInfo, or
/// `None` where the encoder fails.
pub uninterp spec fn rsa_public_pem(public_key: RsaPublicKey) -> Option<Seq<char>>;

/// The PEM text, with LF line ends, of the key's PKCS#8 document, or `None`
/// where the encoder fails.
pub uninterp spec fn rsa_private_pem(private_key: RsaPrivateKey) -> Option<Seq<char>>;

/// `private_key` is a sound key and `public_key` is its public half.
pub open spec fn rsa_key_pair(private_key: RsaPrivateKey, public_key: RsaPublicKey) -> bool {
    rsa_key_is_sound(private_key) && rsa_public_half(private_key) == public_key
}

/// `RsaPrivateKey::new` on the thread's generator, for a modulus of `bits`
/// bits. Below 64 bits the generator may refuse, panic or never end. From
/// there on it draws two distinct primes, retries until their product has
/// exactly `bits` bits, and inverts the public exponent: a key that comes
/// back is sound. Nothing else is claimed of a random key.
#[verifier::external_body]
pub(crate) fn rsa_generate(bits: usize) -> (key: Result<RsaPrivateKey, rsa::Error>)
    requires
        64 <= bits <= 4096,
    ensures
        key matches Ok(private_key) ==> {
            &&& rsa_key_is_sound(private_key)
            &&& rsa_modulus_len(rsa_public_half(private_key)) == (bits + 7) / 8
        },
{
    let mut rng = rand::thread_rng();
    RsaPrivateKey::new(&mut rng, bits)
}

/// `RsaPublicKey::from` on a private key: a copy of its modulus and public
/// exponent.
#[verifier::external_body]
pub(crate) fn rsa_public_key_of(private_key: &RsaPrivateKey) -> (public_key: RsaPublicKey)
    ensures
        public_key == rsa_public_half(*private_key),
{
    RsaPublicKey::from(private_key)
}

/// `RsaPublicKey::encrypt` with PKCS#1 v1.5 padding on the thread's
/// generator. The padding is random, so the result is not a function of the
/// arguments. A message that leaves no room for eleven bytes of padding is
/// refused. A message that fits is encrypted whenever the key is the public
/// half of a sound private key. What comes back is as long as the modulus,
/// and `RsaPrivateKey::decrypt` under a sound private key with this public
/// half recovers the message from it: decrypting raises to the inverse
/// exponent and strips the padding that encrypting put on.
#[verifier::external_body]
pub(crate) fn rsa_pkcs1v15_encrypt(public_key: &RsaPublicKey, message: &[u8]) -> (wrapped: Result<
    Vec<u8>,
    rsa::Error,
>)
    ensures
        message@.len() + PKCS1_PADDING_LEN > rsa_modulus_len(*public_key) ==> wrapped is Err,
        message@.len() + PKCS1_PADDING_LEN <= rsa_modulus_len(*public_key) && (exists|
            private_key: RsaPrivateKey,
        | #[trigger] rsa_key_pair(private_key, *public_key)) ==> wrapped is Ok,
        wrapped matches Ok(bytes) ==> {
            &&& bytes@.len() == rsa_modulus_len(*public_key)
            &&& forall|private_key: RsaPrivateKey| #[trigger]
                rsa_key_pair(private_key, *public_key) ==> rsa_pkcs1v15_opened(
                    private_key,
                    bytes@,
                ) == Some(message@)
        },
{
    let mut rng = rand::thread_rng();
    public_key.encrypt(&mut rng, Pkcs1v15Encrypt, message)
}

/// `RsaPrivateKey::decrypt` with PKCS#1 v1.5 padding. No generator is handed
/// to it, so the result depends on the key and the input alone.
#[verifier::external_body]
pub(crate) fn rsa_pkcs1v15_decrypt(private_key: &RsaPrivateKey, wrapped: &[u8]) -> (opened: Result<
    Vec<u8>,
    rsa::Error,
>)
    ensures
        match opened {
            Ok(message) => rsa_pkcs1v15_opened(*private_key, wrapped@) == Some(message@),
            Err(_) => rsa_pkcs1v15_opened(*private_key, wrapped@) is None,
        },
{
    private_key.decrypt(Pkcs1v15Encrypt, wrapped)
}

/// `EncodePublicKey::to_public_key_pem` with LF line ends. The text depends on
/// the key alone.
#[verifier::external_body]
pub(crate) fn rsa_public_key_to_pem(public_key: &RsaPublicKey) -> (pem: Result<
    String,
    rsa::pkcs8::spki::Error,
>)
    ensures
        match pem {
            Ok(text) => rsa_public_pem(*public_key) == Some(text@),
            Err(_) => rsa_public_pem(*public_key) is None,
        },
{
    public_key.to_public_key_pem(LineEnding::LF)
}

/// `EncodePrivateKey::to_pkcs8_pem` with LF line ends. The text depends on the
/// key alone.
#[verifier::external_body]
pub(crate) fn rsa_private_key_to_pem(private_key: &RsaPrivateKey) -> (pem: Result<
    String,
    rsa::pkcs8::Error,
>)
    ensures
        match pem {
            Ok(text) => rsa_private_pem(*private_key) == Some(text@),
            Err(_) => rsa_private_pem(*private_key) is None,
        },
{
    private_key.to_pkcs8_pem(LineEnding::LF).map(|pem| pem.to_string())
}

} // verus!
