//! Keys and envelopes: key pairs and their texts, sealing for a public key and opening with the
//! secret key, signing, and the names of what is kept encrypted.

use crate::config::{S3Config, S3ConfigView};
use crate::text::{ends_with, joined, strip_suffix, text_of, without_suffix};
use rand::Rng;
use vstd::prelude::*;

verus! {

/// Bytes in a serialized secret key.
pub const SECRET_KEY_SIZE: usize = 32;

/// Bytes in a serialized, uncompressed public key.
pub const PUBLIC_KEY_SIZE: usize = 65;

/// Bytes in a message digest that can be signed.
pub const DIGEST_SIZE: usize = 32;

/// Bytes in a serialized signature.
pub const SIGNATURE_SIZE: usize = 64;

/// Bytes that an envelope holds besides the message: the ephemeral public key (65), the nonce (24)
/// and the authentication tag (16).
pub const ENVELOPE_OVERHEAD: usize = 105;

/// Bytes that `random_bytes` returns.
pub const RANDOM_BYTES: usize = 6;

/// The length from which on the cipher takes no plaintext: 64 bytes for each of its 2^32 - 1
/// blocks.
pub const PLAINTEXT_LIMIT: u64 = 274877906880;

/// The first byte of a serialized, uncompressed public key.
pub const UNCOMPRESSED_TAG: u8 = 4;

/// Whether `c` belongs to the base-58 alphabet: the ASCII digits and letters without `0`, `O`,
/// `I` and `l`.
pub open spec fn is_base58_char(c: char) -> bool {
    let n = c as u32;
    ||| 0x31 <= n <= 0x39
    ||| (0x41 <= n <= 0x5A && n != 0x49 && n != 0x4F)
    ||| (0x61 <= n <= 0x7A && n != 0x6C)
}

/// Whether every character of `text` belongs to the base-58 alphabet.
pub open spec fn is_base58(text: Seq<char>) -> bool {
    forall|i: int| 0 <= i < text.len() ==> is_base58_char(#[trigger] text[i])
}

/// The base-58 text of `bytes`.
pub uninterp spec fn base58_text(bytes: Seq<u8>) -> Seq<char>;

/// The bytes that base-58 decoding reads from `text`; it has a meaning only where
/// `is_base58(text)`.
pub uninterp spec fn base58_bytes(text: Seq<char>) -> Seq<u8>;

/// The uncompressed public key that belongs to the secret key `secret`; for bytes that are no
/// secret key it is nothing of the length of a public key.
pub uninterp spec fn secp_public_key(secret: Seq<u8>) -> Seq<u8>;

/// What the envelope `envelope` opens to under the secret key `secret`, or `None` where it does
/// not open.
pub uninterp spec fn ecies_plaintext(secret: Seq<u8>, envelope: Seq<u8>) -> Option<Seq<u8>>;

/// The signature of `digest` under `secret`, or `None` where either is not fit for signing.
pub uninterp spec fn ecdsa_signature(secret: Seq<u8>, digest: Seq<u8>) -> Option<Seq<u8>>;

/// Whether `signature` is accepted as a signature of `digest` under the public key `public`.
pub uninterp spec fn ecdsa_accepts(public: Seq<u8>, digest: Seq<u8>, signature: Seq<u8>) -> bool;

/// The words that stand for `bytes`.
pub uninterp spec fn mnemonic_text(bytes: Seq<u8>) -> Seq<char>;

/// The bytes that the words of `text` stand for, or `None` where they stand for none.
pub uninterp spec fn mnemonic_bytes(text: Seq<char>) -> Option<Seq<u8>>;

/// `text` is the base-58 form of `bytes`: decoding accepts it and gives `bytes` back.
pub open spec fn is_encoding(text: Seq<char>, bytes: Seq<u8>) -> bool {
    &&& text == base58_text(bytes)
    &&& is_base58(text)
    &&& base58_bytes(text) == bytes
    &&& bytes.len() > 0 ==> text.len() > 0
}

/// `secret` and `public` are the two halves of one key pair, each at its full length.
pub open spec fn is_keypair(secret: Seq<u8>, public: Seq<u8>) -> bool {
    &&& secret.len() == SECRET_KEY_SIZE
    &&& public.len() == PUBLIC_KEY_SIZE
    &&& public == secp_public_key(secret)
}

/// Whether every byte of `bytes` is zero.
pub open spec fn is_zero(bytes: Seq<u8>) -> bool {
    forall|i: int| 0 <= i < bytes.len() ==> #[trigger] bytes[i] == 0
}

/// `public` is the public half of some key pair.
pub open spec fn has_secret(public: Seq<u8>) -> bool {
    exists|secret: Seq<u8>| is_keypair(secret, public)
}

/// `secret` is the secret half of some key pair.
pub open spec fn has_public(secret: Seq<u8>) -> bool {
    exists|public: Seq<u8>| is_keypair(secret, public)
}

/// Whether the cipher takes a plaintext of `len` bytes.
pub open spec fn fits(len: nat) -> bool {
    len < PLAINTEXT_LIMIT
}

/// `envelope` is a sealing of `msg` for the holder of `public`: it is longer than `msg` by the
/// envelope overhead, and every secret key that `public` belongs to opens it to `msg`.
pub open spec fn is_envelope(public: Seq<u8>, msg: Seq<u8>, envelope: Seq<u8>) -> bool {
    &&& envelope.len() == msg.len() + ENVELOPE_OVERHEAD
    &&& forall|secret: Seq<u8>| #[trigger]
        secp_public_key(secret) == public ==> ecies_plaintext(secret, envelope) == Some(msg)
}

/// The bytes held by an optional buffer.
pub open spec fn held(r: Option<Vec<u8>>) -> Option<Seq<u8>> {
    match r {
        Some(v) => Some(v@),
        None => None,
    }
}

/// `bs58::decode::Error`: why the decoder turned a text down. It is handed on unread.
#[verifier::external_type_specification]
#[verifier::external_body]
pub struct ExBs58DecodeError(bs58::decode::Error);

/// `bs58::encode(..).into_string()`, with the default (Bitcoin) alphabet. Believed of it: the
/// text is a function of the bytes, is made of base-58 characters only, decodes to the same
/// bytes, and is not empty unless the bytes are.
#[verifier::external_body]
fn bs58_encode(bytes: &[u8]) -> (text: String)
    ensures
        text@ == base58_text(bytes@),
        is_encoding(text@, bytes@),
{
    bs58::encode(bytes).into_string()
}

/// `bs58::decode(..).into_vec()`, with the default (Bitcoin) alphabet. Believed of it: it fails
/// exactly when some character is outside the alphabet, what it returns is a function of the
/// text, and the text is the base-58 form of the bytes that it returns.
#[verifier::external_body]
fn bs58_decode(text: &str) -> (r: Result<Vec<u8>, bs58::decode::Error>)
    ensures
        r is Ok <==> is_base58(text@),
        r matches Ok(bytes) ==> bytes@ == base58_bytes(text@),
        r matches Ok(bytes) ==> is_encoding(text@, bytes@),
{
    bs58::decode(text).into_vec()
}

/// `ecies::utils::generate_keypair`, both keys serialized at full length. Believed of it: the
/// second key is the public key of the first and begins with the mark of an uncompressed key,
/// and the first is not all zeros. Stops the process when the system has no randomness to
/// give.
#[verifier::external_body]
fn ecies_generate_keypair() -> (pair: ([u8; 32], [u8; 65]))
    ensures
        pair.1@ == secp_public_key(pair.0@),
        pair.1@[0] == UNCOMPRESSED_TAG,
        !is_zero(pair.0@),
{
    let (secret, public) = ecies::utils::generate_keypair();
    (secret.serialize(), public.serialize())
}

/// `ecies::encrypt`, with the cipher's process-wide settings at their defaults, which this
/// library never changes. Believed of it: it succeeds for the public key of a key pair and a
/// message below the cipher's limit, and what it returns on success is an envelope of `msg` for
/// `public`. Nothing is said of which envelope it returns: each call draws fresh randomness,
/// and stops the process when the system has none to give.
#[verifier::external_body]
fn ecies_encrypt(public: &[u8], msg: &[u8]) -> (r: Option<Vec<u8>>)
    ensures
        has_secret(public@) && fits(msg@.len()) ==> r is Some,
        r matches Some(envelope) ==> is_envelope(public@, msg@, envelope@),
{
    ecies::encrypt(public, msg).ok()
}

/// `ecies::decrypt`, with the cipher's process-wide settings at their defaults, which this
/// library never changes. Believed of it: whether it succeeds, and with what, is a function of
/// the key and the envelope.
#[verifier::external_body]
fn ecies_decrypt(secret: &[u8], envelope: &[u8]) -> (r: Option<Vec<u8>>)
    ensures
        held(r) == ecies_plaintext(secret@, envelope@),
{
    ecies::decrypt(secret, envelope).ok()
}

/// `libsecp256k1::sign` on the parsed key and digest, the signature serialized. Believed of it:
/// whether it succeeds, and with what, is a function of the key and the digest; and it succeeds
/// for the secret key of a key pair and a digest of full length, since the signer takes every
/// scalar that is not zero and below the order of the curve, as the maker of key pairs does.
#[verifier::external_body]
fn secp_sign(secret: &[u8], digest: &[u8]) -> (r: Option<Vec<u8>>)
    ensures
        held(r) == ecdsa_signature(secret@, digest@),
        has_public(secret@) && digest@.len() == DIGEST_SIZE ==> r is Some,
        r matches Some(signature) ==> signature@.len() == SIGNATURE_SIZE,
{
    let key = libsecp256k1::SecretKey::parse_slice(secret).ok()?;
    let message = libsecp256k1::Message::parse_slice(digest).ok()?;
    Some(libsecp256k1::sign(&message, &key).0.serialize().to_vec())
}

/// `libsecp256k1::verify` on the parsed key, digest and signature; `false` where one of them
/// does not parse. Believed of it: the answer is a function of the three.
#[verifier::external_body]
fn secp_verify(public: &[u8], digest: &[u8], signature: &[u8]) -> (ok: bool)
    ensures
        ok == ecdsa_accepts(public@, digest@, signature@),
{
    match (
        libsecp256k1::PublicKey::parse_slice(public, None),
        libsecp256k1::Message::parse_slice(digest),
        libsecp256k1::Signature::parse_standard_slice(signature),
    ) {
        (Ok(key), Ok(message), Ok(parsed)) => libsecp256k1::verify(&message, &parsed, &key),
        _ => false,
    }
}

/// `rand::thread_rng().gen()`: one byte from the thread's generator. Nothing is believed of
/// it. Stops the process when the system has no randomness to give.
#[verifier::external_body]
fn random_byte() -> u8 {
    rand::thread_rng().gen()
}

/// `mnemonic::to_string`. Believed of it: the words are a function of the bytes.
#[verifier::external_body]
fn mnemonic_words(bytes: &[u8]) -> (text: String)
    ensures
        text@ == mnemonic_text(bytes@),
{
    mnemonic::to_string(bytes)
}

/// `mnemonic::decode` into a fresh buffer. Believed of it: whether it succeeds, and with what,
/// is a function of the text.
#[verifier::external_body]
fn mnemonic_decode(text: &str) -> (r: Option<Vec<u8>>)
    ensures
        held(r) == mnemonic_bytes(text@),
{
    let mut bytes = Vec::new();
    match mnemonic::decode(text, &mut bytes) {
        Ok(_) => Some(bytes),
        Err(_) => None,
    }
}

/// Why a pair of key texts was not read.
#[derive(Clone, Copy, Debug, PartialEq, Eq, Structural)]
pub enum DecodeError {
    /// A text holds a character outside the base-58 alphabet.
    BadAlphabet,
    /// A text decodes to another number of bytes than its key has.
    BadLength,
}

/// Why nothing was sealed.
#[derive(Clone, Copy, Debug, PartialEq, Eq, Structural)]
pub enum EncryptError {
    /// The public key does not have the length of a public key.
    KeyLength,
    /// The cipher refused the key.
    Refused,
}

/// Why an envelope was not opened.
#[derive(Clone, Copy, Debug, PartialEq, Eq, Structural)]
pub enum DecryptError {
    /// The secret key does not have the length of a secret key.
    KeyLength,
    /// The envelope is shorter than an envelope of the empty message.
    Malformed,
    /// The envelope does not open under this key: it was made for another or altered.
    AuthFailed,
}

/// Why nothing was signed.
#[derive(Clone, Copy, Debug, PartialEq, Eq, Structural)]
pub enum SignError {
    /// The secret key does not have the length of a secret key.
    KeyLength,
    /// The digest does not have the length of a digest.
    DigestLength,
    /// The signer refused the key.
    Refused,
}

/// The two keys held by the result of reading key texts.
pub open spec fn pair_view(r: Result<([u8; 32], [u8; 65]), DecodeError>) -> Result<
    (Seq<u8>, Seq<u8>),
    DecodeError,
> {
    match r {
        Ok(pair) => Ok((pair.0@, pair.1@)),
        Err(e) => Err(e),
    }
}

/// The bytes held by the result of opening an envelope.
pub open spec fn opened_view(r: Result<Vec<u8>, DecryptError>) -> Result<Seq<u8>, DecryptError> {
    match r {
        Ok(v) => Ok(v@),
        Err(e) => Err(e),
    }
}

/// The bytes held by the result of signing.
pub open spec fn signed_view(r: Result<Vec<u8>, SignError>) -> Result<Seq<u8>, SignError> {
    match r {
        Ok(v) => Ok(v@),
        Err(e) => Err(e),
    }
}

/// The keys to which two decoded texts amount: `None` stands for a text that did not decode.
pub open spec fn keys_of(secret: Option<Seq<u8>>, public: Option<Seq<u8>>) -> Result<
    (Seq<u8>, Seq<u8>),
    DecodeError,
> {
    if secret is None || public is None {
        Err(DecodeError::BadAlphabet)
    } else if secret->0.len() != SECRET_KEY_SIZE || public->0.len() != PUBLIC_KEY_SIZE {
        Err(DecodeError::BadLength)
    } else {
        Ok((secret->0, public->0))
    }
}

/// What a base-58 text decodes to, `None` where it has a character outside the alphabet.
pub open spec fn decoded(text: Seq<char>) -> Option<Seq<u8>> {
    if is_base58(text) {
        Some(base58_bytes(text))
    } else {
        None
    }
}

/// The keys that the two texts stand for.
pub open spec fn decoded_keys(secret_text: Seq<char>, public_text: Seq<char>) -> Result<
    (Seq<u8>, Seq<u8>),
    DecodeError,
> {
    keys_of(decoded(secret_text), decoded(public_text))
}

/// What opening `envelope` under `secret` gives.
pub open spec fn decrypted(secret: Seq<u8>, envelope: Seq<u8>) -> Result<Seq<u8>, DecryptError> {
    if secret.len() != SECRET_KEY_SIZE {
        Err(DecryptError::KeyLength)
    } else if envelope.len() < ENVELOPE_OVERHEAD {
        Err(DecryptError::Malformed)
    } else {
        match ecies_plaintext(secret, envelope) {
            Some(msg) => Ok(msg),
            None => Err(DecryptError::AuthFailed),
        }
    }
}

/// What signing `digest` under `secret` gives.
pub open spec fn signed(secret: Seq<u8>, digest: Seq<u8>) -> Result<Seq<u8>, SignError> {
    if secret.len() != SECRET_KEY_SIZE {
        Err(SignError::KeyLength)
    } else if digest.len() != DIGEST_SIZE {
        Err(SignError::DigestLength)
    } else {
        match ecdsa_signature(secret, digest) {
            Some(signature) => Ok(signature),
            None => Err(SignError::Refused),
        }
    }
}

/// Whether `signature` stands as a signature of `digest` under `public`: each of the three has
/// its full length, and the verifier accepts them.
pub open spec fn verified(public: Seq<u8>, digest: Seq<u8>, signature: Seq<u8>) -> bool {
    &&& public.len() == PUBLIC_KEY_SIZE
    &&& digest.len() == DIGEST_SIZE
    &&& signature.len() == SIGNATURE_SIZE
    &&& ecdsa_accepts(public, digest, signature)
}

/// The `N` bytes of `bytes` as an array.
fn array_of<const N: usize>(bytes: &Vec<u8>) -> (r: [u8; N])
    requires
        bytes@.len() == N,
    ensures
        r@ == bytes@,
{
    let mut out: [u8; N] = [0u8; N];
    let mut i: usize = 0;
    while i < N
        invariant
            i <= N,
            bytes@.len() == N,
            forall|j: int| 0 <= j < i ==> out@[j] == bytes@[j],
        decreases N - i,
    {
        out[i] = bytes[i];
        i += 1;
    }
    assert(out@ =~= bytes@);
    out
}

/// A fresh key pair: a random secret key, which is not all zeros, and the public key that
/// belongs to it, uncompressed.
pub fn generate_keys() -> (pair: ([u8; 32], [u8; 65]))
    ensures
        is_keypair(pair.0@, pair.1@),
        has_secret(pair.1@),
        pair.1@[0] == UNCOMPRESSED_TAG,
        !is_zero(pair.0@),
{
    let pair = ecies_generate_keypair();
    assert(is_keypair(pair.0@, pair.1@));
    pair
}

/// The base-58 texts of a secret and a public key.
pub fn keys_bytes_to_bs58(sk: [u8; 32], pk: [u8; 65]) -> (texts: (String, String))
    ensures
        is_encoding(texts.0@, sk@),
        is_encoding(texts.1@, pk@),
{
    (bs58_encode(sk.as_slice()), bs58_encode(pk.as_slice()))
}

/// The key pair to which two decoded texts amount: `None` stands for a text that did not
/// decode. A wrong length is an error; nothing is cut or filled.
pub fn keys_from_decoded(secret: Option<Vec<u8>>, public: Option<Vec<u8>>) -> (r: Result<
    ([u8; 32], [u8; 65]),
    DecodeError,
>)
    ensures
        pair_view(r) == keys_of(held(secret), held(public)),
{
    match (secret, public) {
        (Some(sk), Some(pk)) => {
            if sk.len() != SECRET_KEY_SIZE || pk.len() != PUBLIC_KEY_SIZE {
                Err(DecodeError::BadLength)
            } else {
                Ok((array_of::<32>(&sk), array_of::<65>(&pk)))
            }
        },
        _ => Err(DecodeError::BadAlphabet),
    }
}

/// What base-58 decoding makes of `text`.
fn decode_text(text: &str) -> (r: Option<Vec<u8>>)
    ensures
        held(r) == decoded(text@),
        r matches Some(bytes) ==> is_encoding(text@, bytes@),
{
    match bs58_decode(text) {
        Ok(bytes) => Some(bytes),
        Err(_) => None,
    }
}

/// The secret and the public key that two base-58 texts stand for. Where there are such keys,
/// the two texts are their base-58 forms, so that writing the keys as text gives the two texts
/// back.
pub fn keys_bs58_to_bytes(sk: String, pk: String) -> (r: Result<([u8; 32], [u8; 65]), DecodeError>)
    ensures
        pair_view(r) == decoded_keys(sk@, pk@),
        r matches Ok(pair) ==> is_encoding(sk@, pair.0@) && is_encoding(pk@, pair.1@),
{
    let secret = decode_text(sk.as_str());
    let public = decode_text(pk.as_str());
    keys_from_decoded(secret, public)
}

/// The base-58 texts of a fresh key pair, the secret key first.
pub fn new_keys() -> (texts: (String, String))
    ensures
        exists|sk: Seq<u8>, pk: Seq<u8>|
            is_keypair(sk, pk) && is_encoding(texts.0@, sk) && is_encoding(texts.1@, pk),
{
    let (sk, pk) = generate_keys();
    let texts = keys_bytes_to_bs58(sk, pk);
    assert(is_keypair(sk@, pk@) && is_encoding(texts.0@, sk@) && is_encoding(texts.1@, pk@));
    texts
}

/// Six random bytes.
pub fn random_bytes() -> (r: Vec<u8>)
    ensures
        r@.len() == RANDOM_BYTES,
{
    let mut out: Vec<u8> = Vec::new();
    while out.len() < RANDOM_BYTES
        invariant
            out@.len() <= RANDOM_BYTES,
        decreases RANDOM_BYTES - out@.len(),
    {
        out.push(random_byte());
    }
    out
}

/// The words that stand for `bytes`.
pub fn bytes_to_mnemonic(bytes: Vec<u8>) -> (text: String)
    ensures
        text@ == mnemonic_text(bytes@),
{
    mnemonic_words(bytes.as_slice())
}

/// The bytes that the words of `mnemonic_string` stand for, or `None` where they stand for none.
pub fn mnemonic_to_bytes(mnemonic_string: String) -> (r: Option<Vec<u8>>)
    ensures
        held(r) == mnemonic_bytes(mnemonic_string@),
{
    mnemonic_decode(mnemonic_string.as_str())
}

/// The words that stand for six random bytes.
pub fn random_mnemonic() -> (text: String)
    ensures
        exists|bytes: Seq<u8>| bytes.len() == RANDOM_BYTES && text@ == mnemonic_text(bytes),
{
    let bytes = random_bytes();
    assert(bytes@.len() == RANDOM_BYTES);
    bytes_to_mnemonic(bytes)
}

/// What the cipher's answer to sealing amounts to: `None` stands for its refusal.
pub fn sealed(answer: Option<Vec<u8>>) -> (r: Result<Vec<u8>, EncryptError>)
    ensures
        answer matches Some(envelope) ==> r == Ok::<Vec<u8>, EncryptError>(envelope),
        answer is None ==> r == Err::<Vec<u8>, EncryptError>(EncryptError::Refused),
{
    match answer {
        Some(envelope) => Ok(envelope),
        None => Err(EncryptError::Refused),
    }
}

/// What the cipher's answer to opening amounts to: `None` stands for an envelope that did not
/// open.
pub fn opened(answer: Option<Vec<u8>>) -> (r: Result<Vec<u8>, DecryptError>)
    ensures
        answer matches Some(msg) ==> r == Ok::<Vec<u8>, DecryptError>(msg),
        answer is None ==> r == Err::<Vec<u8>, DecryptError>(DecryptError::AuthFailed),
{
    match answer {
        Some(msg) => Ok(msg),
        None => Err(DecryptError::AuthFailed),
    }
}

/// Seals `plaintext` for the holder of `public_key`. A key of the wrong length is turned down
/// here. For the public key of a key pair sealing succeeds whatever the plaintext holds, the
/// empty one too, as long as it is below the cipher's limit of 256 GiB; of 65 bytes that are
/// no such key the cipher decides. What comes back on success is an envelope that the matching
/// secret key opens to `plaintext`; two calls on the same input need not give the same one.
///
/// The cipher reads process-wide settings. What is said here holds at their defaults, which
/// this library never changes; a process that changes them gets envelopes of another shape.
pub fn encrypt(public_key: &[u8], plaintext: &[u8]) -> (r: Result<Vec<u8>, EncryptError>)
    ensures
        public_key@.len() != PUBLIC_KEY_SIZE <==> r == Err::<Vec<u8>, EncryptError>(
            EncryptError::KeyLength,
        ),
        has_secret(public_key@) && fits(plaintext@.len()) ==> r is Ok,
        r matches Ok(envelope) ==> is_envelope(public_key@, plaintext@, envelope@),
{
    if public_key.len() != PUBLIC_KEY_SIZE {
        return Err(EncryptError::KeyLength);
    }
    sealed(ecies_encrypt(public_key, plaintext))
}

/// Opens `ciphertext` with `secret_key`. A key of the wrong length is turned down first, then
/// an envelope that is shorter than the envelope of the empty message. What remains is for the
/// cipher: an envelope that it does not open under this key, be it altered or made for another
/// key, fails authentication.
///
/// The cipher reads process-wide settings. What is said here holds at their defaults, which
/// this library never changes; an envelope made under other settings does not open under
/// these.
pub fn decrypt(secret_key: &[u8], ciphertext: &[u8]) -> (r: Result<Vec<u8>, DecryptError>)
    ensures
        opened_view(r) == decrypted(secret_key@, ciphertext@),
{
    if secret_key.len() != SECRET_KEY_SIZE {
        return Err(DecryptError::KeyLength);
    }
    if ciphertext.len() < ENVELOPE_OVERHEAD {
        return Err(DecryptError::Malformed);
    }
    opened(ecies_decrypt(secret_key, ciphertext))
}

/// What the signer's answer amounts to: `None` stands for its refusal.
pub fn signature_of(answer: Option<Vec<u8>>) -> (r: Result<Vec<u8>, SignError>)
    ensures
        answer matches Some(signature) ==> r == Ok::<Vec<u8>, SignError>(signature),
        answer is None ==> r == Err::<Vec<u8>, SignError>(SignError::Refused),
{
    match answer {
        Some(signature) => Ok(signature),
        None => Err(SignError::Refused),
    }
}

/// Signs the digest of a message with `secret_key`. A key or a digest of the wrong length is
/// turned down; a key of the right length that the signer refuses is reported as refused. The
/// secret key of a key pair is never refused. The same key and digest give the same signature.
pub fn sign(secret_key: &[u8], digest: &[u8]) -> (r: Result<Vec<u8>, SignError>)
    ensures
        signed_view(r) == signed(secret_key@, digest@),
        has_public(secret_key@) && digest@.len() == DIGEST_SIZE ==> r is Ok,
        r matches Ok(signature) ==> signature@.len() == SIGNATURE_SIZE,
{
    if secret_key.len() != SECRET_KEY_SIZE {
        return Err(SignError::KeyLength);
    }
    if digest.len() != DIGEST_SIZE {
        return Err(SignError::DigestLength);
    }
    signature_of(secp_sign(secret_key, digest))
}

/// Whether `signature` stands as a signature of `digest` under `public_key`. A key, digest or
/// signature of the wrong length is answered with `false`.
pub fn verify(public_key: &[u8], digest: &[u8], signature: &[u8]) -> (ok: bool)
    ensures
        ok == verified(public_key@, digest@, signature@),
{
    if public_key.len() != PUBLIC_KEY_SIZE || digest.len() != DIGEST_SIZE || signature.len()
        != SIGNATURE_SIZE {
        return false;
    }
    secp_verify(public_key, digest, signature)
}

/// Whoever holds the secret key of a pair reads what was sealed for its public key.
pub proof fn lemma_round_trip(secret: Seq<u8>, public: Seq<u8>, msg: Seq<u8>, envelope: Seq<u8>)
    requires
        is_keypair(secret, public),
        is_envelope(public, msg, envelope),
    ensures
        decrypted(secret, envelope) == Ok::<Seq<u8>, DecryptError>(msg),
{
}

/// The texts of a key pair are read back as that pair.
pub proof fn lemma_key_texts_round_trip(
    secret: Seq<u8>,
    public: Seq<u8>,
    secret_text: Seq<char>,
    public_text: Seq<char>,
)
    requires
        secret.len() == SECRET_KEY_SIZE,
        public.len() == PUBLIC_KEY_SIZE,
        is_encoding(secret_text, secret),
        is_encoding(public_text, public),
    ensures
        decoded_keys(secret_text, public_text) == Ok::<(Seq<u8>, Seq<u8>), DecodeError>(
            (secret, public),
        ),
{
}

/// Why a profile's keys did not seal, open or sign.
#[derive(Clone, Copy, Debug, PartialEq, Eq, Structural)]
pub enum CryptoError {
    /// The name lacks the suffix that marks what is encrypted.
    NotEncrypted,
    /// The profile's key texts were not read.
    Key(DecodeError),
    /// Nothing was sealed.
    Encrypt(EncryptError),
    /// The envelope was not opened.
    Decrypt(DecryptError),
    /// Nothing was signed.
    Sign(SignError),
}

/// A file to write: where, and what.
#[derive(Debug, PartialEq, Eq)]
pub struct FileWrite {
    /// Where to write.
    pub path: String,
    /// What to write.
    pub bytes: Vec<u8>,
}

/// What a trial of the whole key and cipher chain produced.
#[derive(Debug, PartialEq, Eq)]
pub struct CryptoReport {
    /// The text of the secret key that was made for the trial.
    pub sk_bs58: String,
    /// The text of its public key.
    pub pk_bs58: String,
    /// The text of the envelope in which the message was sealed.
    pub encrypted_bs58: String,
    /// The text of the signature over the first bytes of the envelope.
    pub signature_bs58: String,
    /// Whether that signature was accepted under the public key.
    pub verified: bool,
    /// What the envelope opened to.
    pub decrypted: Vec<u8>,
}

/// The suffix that marks the name of what is encrypted.
pub open spec fn encrypted_suffix() -> Seq<char> {
    ".x"@
}

/// The name under which the encrypted form of `name` is kept.
pub open spec fn encrypted_name_of(name: Seq<char>) -> Seq<char> {
    name + encrypted_suffix()
}

/// The name of which `name` marks the encrypted form, where it is so marked.
pub open spec fn plain_name_of(name: Seq<char>) -> Option<Seq<char>> {
    without_suffix(name, encrypted_suffix())
}

/// `envelope` is a sealing of `msg` under the public key of the profile.
pub open spec fn is_sealed_by(cfg: S3ConfigView, msg: Seq<u8>, envelope: Seq<u8>) -> bool {
    decoded_keys(cfg.sk_bs58, cfg.pk_bs58) matches Ok(keys) && is_envelope(keys.1, msg, envelope)
}

/// What opening `envelope` with the secret key of the profile gives.
pub open spec fn decrypted_by(cfg: S3ConfigView, envelope: Seq<u8>) -> Result<
    Seq<u8>,
    CryptoError,
> {
    match decoded_keys(cfg.sk_bs58, cfg.pk_bs58) {
        Err(e) => Err(CryptoError::Key(e)),
        Ok(keys) => match decrypted(keys.0, envelope) {
            Ok(msg) => Ok(msg),
            Err(e) => Err(CryptoError::Decrypt(e)),
        },
    }
}

/// The bytes held by the result of a profile's opening.
pub open spec fn bytes_view(r: Result<Vec<u8>, CryptoError>) -> Result<Seq<u8>, CryptoError> {
    match r {
        Ok(v) => Ok(v@),
        Err(e) => Err(e),
    }
}

/// The path and the bytes held by the result of preparing a file.
pub open spec fn file_view(r: Result<FileWrite, CryptoError>) -> Result<
    (Seq<char>, Seq<u8>),
    CryptoError,
> {
    match r {
        Ok(w) => Ok((w.path@, w.bytes@)),
        Err(e) => Err(e),
    }
}

/// The file that decrypting the file at `path` with content `content` writes.
pub open spec fn decrypted_file(cfg: S3ConfigView, path: Seq<char>, content: Seq<u8>) -> Result<
    (Seq<char>, Seq<u8>),
    CryptoError,
> {
    match plain_name_of(path) {
        None => Err(CryptoError::NotEncrypted),
        Some(plain) => match decrypted_by(cfg, content) {
            Ok(msg) => Ok((plain, msg)),
            Err(e) => Err(e),
        },
    }
}

/// The name under which the encrypted form of `name` is kept: `name` with the suffix `.x`.
pub fn encrypted_name(name: &str) -> (r: String)
    ensures
        r@ == encrypted_name_of(name@),
{
    joined(name, ".x")
}

/// Whether `name` is marked as the name of something encrypted.
pub fn is_encrypted_name(name: &str) -> (r: bool)
    ensures
        r == plain_name_of(name@) is Some,
{
    strip_suffix(name, ".x").is_some()
}

/// The name of which `name` marks the encrypted form: `name` without the suffix `.x`, or `None`
/// where it does not end so.
pub fn plain_name(name: &str) -> (r: Option<String>)
    ensures
        text_of(r) == plain_name_of(name@),
{
    strip_suffix(name, ".x")
}

/// The encrypted name of a name is marked, and marks that name.
pub proof fn lemma_encrypted_name_round_trip(name: Seq<char>)
    ensures
        ends_with(encrypted_name_of(name), encrypted_suffix()),
        plain_name_of(encrypted_name_of(name)) == Some(name),
{
    let full = encrypted_name_of(name);
    let n = encrypted_suffix().len();
    assert(full.skip(full.len() - n) =~= encrypted_suffix());
    assert(full.take(full.len() - n) =~= name);
}

/// Seals `file_content` under the public key of the profile. Both key texts of the profile
/// are read first, and an error in either is reported before anything is sealed. A profile
/// whose key texts are those of a key pair seals every content below the cipher's limit.
pub fn encrypt_bytes(cfg: &S3Config, file_content: &[u8]) -> (r: Result<Vec<u8>, CryptoError>)
    ensures
        decoded_keys(cfg@.sk_bs58, cfg@.pk_bs58) matches Err(e) ==> r == Err::<
            Vec<u8>,
            CryptoError,
        >(CryptoError::Key(e)),
        decoded_keys(cfg@.sk_bs58, cfg@.pk_bs58) is Ok ==> r is Ok || r == Err::<
            Vec<u8>,
            CryptoError,
        >(CryptoError::Encrypt(EncryptError::Refused)),
        cfg@.has_keypair() && fits(file_content@.len()) ==> r is Ok,
        r matches Ok(envelope) ==> is_sealed_by(cfg@, file_content@, envelope@),
{
    proof {
        lemma_keypair_is_read(cfg@);
    }
    match keys_bs58_to_bytes(cfg.sk_bs58.clone(), cfg.pk_bs58.clone()) {
        Err(e) => Err(CryptoError::Key(e)),
        Ok((_, pk)) => match encrypt(pk.as_slice(), file_content) {
            Ok(envelope) => Ok(envelope),
            Err(e) => Err(CryptoError::Encrypt(e)),
        },
    }
}

/// Opens `file_content` with the secret key of the profile. Both key texts of the profile are
/// read first.
pub fn decrypt_bytes(cfg: &S3Config, file_content: &[u8]) -> (r: Result<Vec<u8>, CryptoError>)
    ensures
        bytes_view(r) == decrypted_by(cfg@, file_content@),
{
    match keys_bs58_to_bytes(cfg.sk_bs58.clone(), cfg.pk_bs58.clone()) {
        Err(e) => Err(CryptoError::Key(e)),
        Ok((sk, _)) => match decrypt(sk.as_slice(), file_content) {
            Ok(msg) => Ok(msg),
            Err(e) => Err(CryptoError::Decrypt(e)),
        },
    }
}

/// The encrypted file to write beside the file at `local_path`, whose content is
/// `file_content`: its path is that of the file with the suffix `.x`. A profile whose key texts
/// are those of a key pair gives such a file for every content below the cipher's limit.
pub fn encrypt_file(cfg: &S3Config, local_path: &str, file_content: &[u8]) -> (r: Result<
    FileWrite,
    CryptoError,
>)
    ensures
        decoded_keys(cfg@.sk_bs58, cfg@.pk_bs58) matches Err(e) ==> file_view(r) == Err::<
            (Seq<char>, Seq<u8>),
            CryptoError,
        >(CryptoError::Key(e)),
        decoded_keys(cfg@.sk_bs58, cfg@.pk_bs58) is Ok ==> r is Ok || file_view(r) == Err::<
            (Seq<char>, Seq<u8>),
            CryptoError,
        >(CryptoError::Encrypt(EncryptError::Refused)),
        cfg@.has_keypair() && fits(file_content@.len()) ==> r is Ok,
        r matches Ok(w) ==> w.path@ == encrypted_name_of(local_path@) && plain_name_of(w.path@)
            == Some(local_path@) && is_sealed_by(cfg@, file_content@, w.bytes@),
{
    proof {
        lemma_encrypted_name_round_trip(local_path@);
    }
    match encrypt_bytes(cfg, file_content) {
        Ok(bytes) => Ok(FileWrite { path: encrypted_name(local_path), bytes }),
        Err(e) => Err(e),
    }
}

/// The decrypted file to write for the encrypted file at `encrypted_path`, whose content is
/// `file_content`. A path without the suffix `.x` is turned down before anything is opened;
/// the path to write is the given one without the suffix. There is a file to write only where
/// the content opened.
pub fn decrypt_file(cfg: &S3Config, encrypted_path: &str, file_content: &[u8]) -> (r: Result<
    FileWrite,
    CryptoError,
>)
    ensures
        file_view(r) == decrypted_file(cfg@, encrypted_path@, file_content@),
{
    match plain_name(encrypted_path) {
        None => Err(CryptoError::NotEncrypted),
        Some(path) => match decrypt_bytes(cfg, file_content) {
            Ok(bytes) => Ok(FileWrite { path, bytes }),
            Err(e) => Err(e),
        },
    }
}

/// The key texts of a profile that are those of a key pair are read as a key pair.
pub proof fn lemma_keypair_is_read(cfg: S3ConfigView)
    ensures
        cfg.has_keypair() ==> (decoded_keys(cfg.sk_bs58, cfg.pk_bs58) matches Ok(keys)
            && is_keypair(keys.0, keys.1) && has_secret(keys.1)),
{
    if cfg.has_keypair() {
        let (sk, pk) = choose|sk: Seq<u8>, pk: Seq<u8>|
            is_keypair(sk, pk) && is_encoding(cfg.sk_bs58, sk) && is_encoding(cfg.pk_bs58, pk);
        lemma_key_texts_round_trip(sk, pk, cfg.sk_bs58, cfg.pk_bs58);
        assert(is_keypair(sk, pk));
    }
}

/// A profile whose key texts are those of a key pair opens what was sealed under it.
pub proof fn lemma_profile_round_trip(cfg: S3ConfigView, msg: Seq<u8>, envelope: Seq<u8>)
    requires
        cfg.has_keypair(),
        is_sealed_by(cfg, msg, envelope),
    ensures
        decrypted_by(cfg, envelope) == Ok::<Seq<u8>, CryptoError>(msg),
{
    let (sk, pk) = choose|sk: Seq<u8>, pk: Seq<u8>|
        is_keypair(sk, pk) && is_encoding(cfg.sk_bs58, sk) && is_encoding(cfg.pk_bs58, pk);
    lemma_key_texts_round_trip(sk, pk, cfg.sk_bs58, cfg.pk_bs58);
    lemma_round_trip(sk, pk, msg, envelope);
}

/// Runs the whole chain once on `msg`: makes a key pair, writes both keys as text and reads
/// them back, seals `msg`, signs the first bytes of the envelope and checks the signature
/// through its text, and opens the envelope. The chain runs through for every `msg` below the
/// cipher's limit, and what was opened is `msg`.
pub fn test_crypto(msg: &[u8]) -> (r: Result<CryptoReport, CryptoError>)
    ensures
        fits(msg@.len()) ==> r is Ok,
        r matches Ok(report) ==> {
            &&& report.decrypted@ == msg@
            &&& exists|sk: Seq<u8>, pk: Seq<u8>, envelope: Seq<u8>, signature: Seq<u8>|
                {
                    &&& is_keypair(sk, pk)
                    &&& is_encoding(report.sk_bs58@, sk)
                    &&& is_encoding(report.pk_bs58@, pk)
                    &&& is_envelope(pk, msg@, envelope)
                    &&& is_encoding(report.encrypted_bs58@, envelope)
                    &&& signed(sk, envelope.take(DIGEST_SIZE as int)) == Ok::<Seq<u8>, SignError>(
                        signature,
                    )
                    &&& is_encoding(report.signature_bs58@, signature)
                    &&& report.verified == verified(
                        pk,
                        envelope.take(DIGEST_SIZE as int),
                        signature,
                    )
                }
        },
        r matches Err(e) ==> e == CryptoError::Encrypt(EncryptError::Refused),
{
    let (sk, pk) = generate_keys();
    assert(has_public(sk@));
    let (sk_bs58, pk_bs58) = keys_bytes_to_bs58(sk, pk);
    proof {
        lemma_key_texts_round_trip(sk@, pk@, sk_bs58@, pk_bs58@);
    }
    let (sk_bytes, pk_bytes) = match keys_bs58_to_bytes(sk_bs58.clone(), pk_bs58.clone()) {
        Ok(keys) => keys,
        Err(e) => {
            return Err(CryptoError::Key(e));
        },
    };
    let encrypted = match encrypt(pk_bytes.as_slice(), msg) {
        Ok(envelope) => envelope,
        Err(e) => {
            return Err(CryptoError::Encrypt(e));
        },
    };
    let encrypted_bs58 = bs58_encode(encrypted.as_slice());
    let digest = vstd::slice::slice_subrange(encrypted.as_slice(), 0, DIGEST_SIZE);
    assert(digest@ =~= encrypted@.take(DIGEST_SIZE as int));
    let signature = match sign(sk_bytes.as_slice(), digest) {
        Ok(signature) => signature,
        Err(e) => {
            return Err(CryptoError::Sign(e));
        },
    };
    let signature_bs58 = bs58_encode(signature.as_slice());
    let signature_read = match decode_text(signature_bs58.as_str()) {
        Some(bytes) => bytes,
        None => {
            return Err(CryptoError::Key(DecodeError::BadAlphabet));
        },
    };
    let verified = verify(pk_bytes.as_slice(), digest, signature_read.as_slice());
    proof {
        lemma_round_trip(sk@, pk@, msg@, encrypted@);
    }
    let decrypted = match decrypt(sk_bytes.as_slice(), encrypted.as_slice()) {
        Ok(opened) => opened,
        Err(e) => {
            return Err(CryptoError::Decrypt(e));
        },
    };
    Ok(CryptoReport { sk_bs58, pk_bs58, encrypted_bs58, signature_bs58, verified, decrypted })
}

} // verus!
