//! Key derivation and the sealed-envelope format.
//!
//! An envelope is a 12-byte nonce followed by what AES-256-GCM makes of the
//! plaintext under that nonce: ciphertext and 16-byte tag. Nothing else is
//! stored, so the passphrase alone must reproduce the key.

use crate::primitives::{
    aead_error_text, aes256_gcm_decrypt, aes256_gcm_encrypt, aes256_gcm_opened,
    aes256_gcm_sealed, random_nonce, rsa_generate, rsa_key_pair, rsa_modulus_len,
    rsa_pkcs1v15_decrypt, rsa_pkcs1v15_encrypt, rsa_pkcs1v15_opened, rsa_private_key_to_pem,
    rsa_private_pem, rsa_public_half, rsa_public_key_of, rsa_public_key_to_pem, rsa_public_pem,
    sha256, sha256_digest, MAX_PLAINTEXT_LEN, NONCE_LEN, PKCS1_PADDING_LEN, TAG_LEN,
};
use rsa::{RsaPrivateKey, RsaPublicKey};
use vstd::prelude::*;
use vstd::slice::slice_subrange;
use vstd::utf8::encode_utf8;

verus! {

/// Why an envelope could not be opened.
#[derive(Clone, Copy, Debug, PartialEq, Eq, Structural)]
pub enum DecryptionFailure {
    /// The input is shorter than a nonce: it cannot be an envelope.
    Malformed,
    /// The key is wrong or the bytes were altered: the tag of an envelope, or
    /// the padding of a wrapped key, does not verify. The two causes cannot
    /// be told apart.
    AuthenticationFailed,
}

/// What can go wrong in the encryption engine.
#[derive(Debug, PartialEq, Eq)]
pub enum EncryptionError {
    /// Storage could not be read, written or deleted.
    Io(String),
    /// The cipher refused its input.
    Encryption(String),
    /// An envelope or a wrapped key could not be opened.
    Decryption(DecryptionFailure),
    /// A key pair could not be generated or serialised.
    KeyGeneration(String),
}

/// The key that a passphrase stands for: the SHA-256 digest of its UTF-8
/// bytes, unsalted.
pub open spec fn derived_key(passphrase: Seq<char>) -> Seq<u8> {
    sha256(encode_utf8(passphrase))
}

/// The envelope that sealing `plaintext` under `key` with `nonce` gives.
pub open spec fn sealed_envelope(plaintext: Seq<u8>, key: Seq<u8>, nonce: Seq<u8>) -> Seq<u8> {
    nonce + aes256_gcm_sealed(key, nonce, plaintext)
}

/// The nonce of an envelope: its first twelve bytes.
pub open spec fn envelope_nonce(envelope: Seq<u8>) -> Seq<u8> {
    envelope.subrange(0, NONCE_LEN as int)
}

/// The sealed body of an envelope: all that follows the nonce.
pub open spec fn envelope_body(envelope: Seq<u8>) -> Seq<u8> {
    envelope.subrange(NONCE_LEN as int, envelope.len() as int)
}

/// What opening `envelope` under `key` gives.
pub open spec fn opened_envelope(envelope: Seq<u8>, key: Seq<u8>) -> Result<
    Seq<u8>,
    DecryptionFailure,
> {
    if envelope.len() < NONCE_LEN {
        Err(DecryptionFailure::Malformed)
    } else {
        match aes256_gcm_opened(key, envelope_nonce(envelope), envelope_body(envelope)) {
            Some(plaintext) => Ok(plaintext),
            None => Err(DecryptionFailure::AuthenticationFailed),
        }
    }
}

/// `envelope` is a sealing of `plaintext` under `key`: its body is what the
/// cipher makes of the plaintext under the envelope's own nonce, and the
/// cipher opens that body to the plaintext again.
pub open spec fn is_sealing_of(envelope: Seq<u8>, plaintext: Seq<u8>, key: Seq<u8>) -> bool {
    &&& envelope.len() == NONCE_LEN + plaintext.len() + TAG_LEN
    &&& envelope == sealed_envelope(plaintext, key, envelope_nonce(envelope))
    &&& aes256_gcm_opened(key, envelope_nonce(envelope), envelope_body(envelope)) == Some(
        plaintext,
    )
}

/// `error` is the cipher's refusal of a plaintext: it carries the text of the
/// cipher's own error.
pub open spec fn is_cipher_refusal(error: EncryptionError) -> bool {
    error matches EncryptionError::Encryption(text) && text@ == "aead::Error"@
}

/// Whether an exec result of opening agrees with the model's.
pub open spec fn agrees_with(
    result: Result<Vec<u8>, EncryptionError>,
    model: Result<Seq<u8>, DecryptionFailure>,
) -> bool {
    match model {
        Ok(plaintext) => result matches Ok(bytes) && bytes@ == plaintext,
        Err(failure) => result == Err::<Vec<u8>, EncryptionError>(
            EncryptionError::Decryption(failure),
        ),
    }
}

/// Derives the 32-byte key of a passphrase.
pub fn generate_key_from_passphrase(passphrase: &str) -> (key: [u8; 32])
    ensures
        key@ == derived_key(passphrase@),
{
    sha256_digest(passphrase.as_bytes())
}

/// Seals `plaintext` under `key` with the given nonce. The caller answers
/// for never using a nonce twice under one key; `seal` draws a fresh one.
pub fn seal_with_nonce(plaintext: &[u8], key: &[u8; 32], nonce: &[u8; 12]) -> (sealed: Result<
    Vec<u8>,
    EncryptionError,
>)
    ensures
        sealed is Ok <==> plaintext@.len() <= MAX_PLAINTEXT_LEN,
        sealed matches Ok(envelope) ==> {
            &&& envelope@ == sealed_envelope(plaintext@, key@, nonce@)
            &&& is_sealing_of(envelope@, plaintext@, key@)
        },
        sealed matches Err(error) ==> is_cipher_refusal(error),
{
    match aes256_gcm_encrypt(key, nonce, plaintext) {
        Ok(body) => {
            let mut envelope: Vec<u8> = Vec::new();
            envelope.extend_from_slice(nonce.as_slice());
            envelope.extend_from_slice(body.as_slice());
            proof {
                assert(envelope@ =~= nonce@ + body@);
                assert(envelope_nonce(envelope@) =~= nonce@);
                assert(envelope_body(envelope@) =~= body@);
            }
            Ok(envelope)
        },
        Err(error) => Err(EncryptionError::Encryption(aead_error_text(&error))),
    }
}

/// Seals `plaintext` under `key` with a fresh random nonce.
pub fn seal(plaintext: &[u8], key: &[u8; 32]) -> (sealed: Result<Vec<u8>, EncryptionError>)
    ensures
        sealed is Ok <==> plaintext@.len() <= MAX_PLAINTEXT_LEN,
        sealed matches Ok(envelope) ==> {
            &&& is_sealing_of(envelope@, plaintext@, key@)
            &&& opened_envelope(envelope@, key@) == Ok::<Seq<u8>, DecryptionFailure>(plaintext@)
        },
        sealed matches Err(error) ==> is_cipher_refusal(error),
{
    let nonce = random_nonce();
    seal_with_nonce(plaintext, key, &nonce)
}

/// Opens `envelope` under `key`. No cipher work is done on an input that is
/// too short to hold a nonce, and no plaintext is returned unless the tag
/// verifies.
pub fn open(envelope: &[u8], key: &[u8; 32]) -> (opened: Result<Vec<u8>, EncryptionError>)
    ensures
        agrees_with(opened, opened_envelope(envelope@, key@)),
        envelope@.len() < NONCE_LEN ==> opened == Err::<Vec<u8>, EncryptionError>(
            EncryptionError::Decryption(DecryptionFailure::Malformed),
        ),
        opened matches Ok(plaintext) ==> envelope@.len() == NONCE_LEN + plaintext@.len() + TAG_LEN,
{
    if envelope.len() < NONCE_LEN {
        return Err(EncryptionError::Decryption(DecryptionFailure::Malformed));
    }
    let nonce = slice_subrange(envelope, 0, NONCE_LEN);
    let body = slice_subrange(envelope, NONCE_LEN, envelope.len());
    match aes256_gcm_decrypt(key, nonce, body) {
        Ok(plaintext) => Ok(plaintext),
        Err(_) => Err(EncryptionError::Decryption(DecryptionFailure::AuthenticationFailed)),
    }
}

/// What decrypting `envelope` with `passphrase` gives.
pub open spec fn decrypted(envelope: Seq<u8>, passphrase: Seq<char>) -> Result<
    Seq<u8>,
    DecryptionFailure,
> {
    opened_envelope(envelope, derived_key(passphrase))
}

/// Encrypts the bytes of a file under the key of `passphrase`.
pub fn encrypt_file(data: &[u8], passphrase: &str) -> (sealed: Result<Vec<u8>, EncryptionError>)
    ensures
        sealed is Ok <==> data@.len() <= MAX_PLAINTEXT_LEN,
        sealed matches Ok(envelope) ==> {
            &&& is_sealing_of(envelope@, data@, derived_key(passphrase@))
            &&& decrypted(envelope@, passphrase@) == Ok::<Seq<u8>, DecryptionFailure>(data@)
        },
        sealed matches Err(error) ==> is_cipher_refusal(error),
{
    let key = generate_key_from_passphrase(passphrase);
    seal(data, &key)
}

/// Decrypts the bytes of an encrypted file with the key of `passphrase`.
pub fn decrypt_file(envelope: &[u8], passphrase: &str) -> (opened: Result<
    Vec<u8>,
    EncryptionError,
>)
    ensures
        agrees_with(opened, decrypted(envelope@, passphrase@)),
        envelope@.len() < NONCE_LEN ==> opened == Err::<Vec<u8>, EncryptionError>(
            EncryptionError::Decryption(DecryptionFailure::Malformed),
        ),
        opened matches Ok(plaintext) ==> envelope@.len() == NONCE_LEN + plaintext@.len() + TAG_LEN,
{
    let key = generate_key_from_passphrase(passphrase);
    open(envelope, &key)
}

/// Opening inverts sealing: an envelope that seals `plaintext` under `key`
/// opens to `plaintext` under `key`.
pub proof fn lemma_open_inverts_seal(plaintext: Seq<u8>, key: Seq<u8>, envelope: Seq<u8>)
    requires
        is_sealing_of(envelope, plaintext, key),
    ensures
        opened_envelope(envelope, key) == Ok::<Seq<u8>, DecryptionFailure>(plaintext),
{
}

/// Decrypting inverts encrypting: an envelope that seals `plaintext` under
/// the key of `passphrase` decrypts to `plaintext` with that passphrase.
pub proof fn lemma_decrypt_inverts_encrypt(
    plaintext: Seq<u8>,
    passphrase: Seq<char>,
    envelope: Seq<u8>,
)
    requires
        is_sealing_of(envelope, plaintext, derived_key(passphrase)),
    ensures
        decrypted(envelope, passphrase) == Ok::<Seq<u8>, DecryptionFailure>(plaintext),
{
    lemma_open_inverts_seal(plaintext, derived_key(passphrase), envelope);
}

/// An input too short to hold a nonce is malformed under every key.
pub proof fn lemma_short_input_is_malformed(envelope: Seq<u8>, key: Seq<u8>)
    requires
        envelope.len() < NONCE_LEN,
    ensures
        opened_envelope(envelope, key) == Err::<Seq<u8>, DecryptionFailure>(
            DecryptionFailure::Malformed,
        ),
{
}

/// Bits in the modulus of a key pair of the default size.
pub const RSA_KEY_BITS: usize = 2048;

/// Bytes in the modulus of a key pair of the default size, and in every key
/// it wraps.
pub const RSA_MODULUS_LEN: usize = 256;

/// Fewest bits in the modulus of a key pair that the generator is asked for:
/// below it the generator may refuse, panic or never end.
pub const MIN_RSA_KEY_BITS: usize = 64;

/// Most bits in the modulus of a key pair that the generator is asked for:
/// the largest modulus that the `rsa` crate takes in a public key.
pub const MAX_RSA_KEY_BITS: usize = 4096;

/// `wrapped` is a wrapping of `symmetric_key` for `public_key`: it is as long
/// as the modulus, and every private key that pairs with `public_key`
/// recovers `symmetric_key` from it.
pub open spec fn is_wrapping_of(
    wrapped: Seq<u8>,
    symmetric_key: Seq<u8>,
    public_key: RsaPublicKey,
) -> bool {
    &&& wrapped.len() == rsa_modulus_len(public_key)
    &&& forall|private_key: RsaPrivateKey| #[trigger]
        rsa_key_pair(private_key, public_key) ==> rsa_pkcs1v15_opened(private_key, wrapped)
            == Some(symmetric_key)
}

/// What unwrapping `wrapped` with `private_key` gives.
pub open spec fn unwrapped_key(wrapped: Seq<u8>, private_key: RsaPrivateKey) -> Result<
    Seq<u8>,
    DecryptionFailure,
> {
    match rsa_pkcs1v15_opened(private_key, wrapped) {
        Some(symmetric_key) => Ok(symmetric_key),
        None => Err(DecryptionFailure::AuthenticationFailed),
    }
}

/// What the library makes of the generator's outcome: a key that came back
/// is handed on with its public half, and a failure becomes `KeyGeneration`.
pub fn key_pair_from(generated: Result<RsaPrivateKey, rsa::Error>) -> (pair: Result<
    (RsaPrivateKey, RsaPublicKey),
    EncryptionError,
>)
    ensures
        match generated {
            Ok(private_key) => pair matches Ok((kept, public_key)) && kept == private_key
                && public_key == rsa_public_half(private_key),
            Err(_) => pair matches Err(error) && error is KeyGeneration,
        },
{
    match generated {
        Ok(private_key) => {
            let public_key = rsa_public_key_of(&private_key);
            Ok((private_key, public_key))
        },
        Err(error) => Err(EncryptionError::KeyGeneration(error.to_string())),
    }
}

/// Generates an RSA key pair with a modulus of `bits` bits. The size is the
/// caller's to keep between `MIN_RSA_KEY_BITS` and `MAX_RSA_KEY_BITS`.
pub fn generate_rsa_keypair_with_bits(bits: usize) -> (pair: Result<
    (RsaPrivateKey, RsaPublicKey),
    EncryptionError,
>)
    requires
        MIN_RSA_KEY_BITS <= bits <= MAX_RSA_KEY_BITS,
    ensures
        pair matches Ok((private_key, public_key)) ==> {
            &&& rsa_key_pair(private_key, public_key)
            &&& rsa_modulus_len(public_key) == (bits + 7) / 8
        },
        pair matches Err(error) ==> error is KeyGeneration,
{
    key_pair_from(rsa_generate(bits))
}

/// Generates an RSA key pair of the default size.
pub fn generate_rsa_keypair() -> (pair: Result<(RsaPrivateKey, RsaPublicKey), EncryptionError>)
    ensures
        pair matches Ok((private_key, public_key)) ==> {
            &&& rsa_key_pair(private_key, public_key)
            &&& rsa_modulus_len(public_key) == RSA_MODULUS_LEN
        },
        pair matches Err(error) ==> error is KeyGeneration,
{
    generate_rsa_keypair_with_bits(RSA_KEY_BITS)
}

/// Serialises a public key as PEM text.
pub fn export_public_key(public_key: &RsaPublicKey) -> (pem: Result<String, EncryptionError>)
    ensures
        match rsa_public_pem(*public_key) {
            Some(text) => pem matches Ok(exported) && exported@ == text,
            None => pem matches Err(e) && e is KeyGeneration,
        },
{
    match rsa_public_key_to_pem(public_key) {
        Ok(text) => Ok(text),
        Err(error) => Err(EncryptionError::KeyGeneration(error.to_string())),
    }
}

/// Serialises a private key as PEM text.
pub fn export_private_key(private_key: &RsaPrivateKey) -> (pem: Result<String, EncryptionError>)
    ensures
        match rsa_private_pem(*private_key) {
            Some(text) => pem matches Ok(exported) && exported@ == text,
            None => pem matches Err(e) && e is KeyGeneration,
        },
{
    match rsa_private_key_to_pem(private_key) {
        Ok(text) => Ok(text),
        Err(error) => Err(EncryptionError::KeyGeneration(error.to_string())),
    }
}

/// Wraps a short byte string, such as a symmetric key, for the holder of the
/// private key that pairs with `public_key`.
pub fn encrypt_key_with_rsa(symmetric_key: &[u8], public_key: &RsaPublicKey) -> (wrapped: Result<
    Vec<u8>,
    EncryptionError,
>)
    ensures
        symmetric_key@.len() + PKCS1_PADDING_LEN > rsa_modulus_len(*public_key) ==> wrapped is Err,
        symmetric_key@.len() + PKCS1_PADDING_LEN <= rsa_modulus_len(*public_key) && (exists|
            private_key: RsaPrivateKey,
        | #[trigger] rsa_key_pair(private_key, *public_key)) ==> wrapped is Ok,
        wrapped matches Ok(bytes) ==> is_wrapping_of(bytes@, symmetric_key@, *public_key),
        wrapped matches Err(e) ==> e is Encryption,
{
    match rsa_pkcs1v15_encrypt(public_key, symmetric_key) {
        Ok(bytes) => Ok(bytes),
        Err(error) => Err(EncryptionError::Encryption(error.to_string())),
    }
}

/// Unwraps what `encrypt_key_with_rsa` wrapped. A wrong key and altered bytes
/// fail alike.
pub fn decrypt_key_with_rsa(encrypted_key: &[u8], private_key: &RsaPrivateKey) -> (opened: Result<
    Vec<u8>,
    EncryptionError,
>)
    ensures
        agrees_with(opened, unwrapped_key(encrypted_key@, *private_key)),
{
    match rsa_pkcs1v15_decrypt(private_key, encrypted_key) {
        Ok(symmetric_key) => Ok(symmetric_key),
        Err(_) => Err(EncryptionError::Decryption(DecryptionFailure::AuthenticationFailed)),
    }
}

/// Unwrapping inverts wrapping: a private key recovers `symmetric_key` from
/// every wrapping of it for the public key it pairs with.
pub proof fn lemma_unwrap_inverts_wrap(
    symmetric_key: Seq<u8>,
    private_key: RsaPrivateKey,
    public_key: RsaPublicKey,
    wrapped: Seq<u8>,
)
    requires
        rsa_key_pair(private_key, public_key),
        is_wrapping_of(wrapped, symmetric_key, public_key),
    ensures
        unwrapped_key(wrapped, private_key) == Ok::<Seq<u8>, DecryptionFailure>(symmetric_key),
{
}

} // verus!
