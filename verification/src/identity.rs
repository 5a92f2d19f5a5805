//! The host's RSA identity key: generation, and the two documents it is kept
//! and advertised in.
//!
//! The arithmetic is the `rsa` crate's. Its keys and errors pass through here
//! unopened; the functions below say what is asked of the crate, in which order,
//! and what becomes of each failure.
use vstd::prelude::*;

#[allow(unused_imports)]
use crate::error::{result_view, HostError, HostErrorView};
use rsa::pkcs1::EncodeRsaPublicKey;
use rsa::pkcs8::{DecodePrivateKey, EncodePrivateKey};

verus! {

/// Size of the host's identity key: RSA-2048.
pub const IDENTITY_KEY_BITS: usize = 2048;

/// An RSA private key of the `rsa` crate, carried through unopened.
#[verifier::external_type_specification]
#[verifier::external_body]
pub struct ExRsaPrivateKey(rsa::RsaPrivateKey);

/// An RSA public key of the `rsa` crate, carried through unopened.
#[verifier::external_type_specification]
#[verifier::external_body]
pub struct ExRsaPublicKey(rsa::RsaPublicKey);

/// Why the `rsa` crate could not generate a key.
#[verifier::external_type_specification]
#[verifier::external_body]
pub struct ExRsaError(rsa::Error);

/// Why a PKCS#8 document could not be written or read.
#[verifier::external_type_specification]
#[verifier::external_body]
pub struct ExPkcs8Error(rsa::pkcs8::Error);

/// Why a PKCS#1 document could not be written.
#[verifier::external_type_specification]
#[verifier::external_body]
pub struct ExPkcs1Error(rsa::pkcs1::Error);

/// The bit length of the modulus of `key`: `key.n().bits()`.
pub uninterp spec fn modulus_bits(key: rsa::RsaPrivateKey) -> nat;

/// What `EncodePrivateKey::to_pkcs8_der` gives for `key`.
pub uninterp spec fn pkcs8_of(key: rsa::RsaPrivateKey) -> Result<Seq<u8>, rsa::pkcs8::Error>;

/// What `DecodePrivateKey::from_pkcs8_der` gives for the document `pkcs8`.
pub uninterp spec fn key_of_pkcs8(pkcs8: Seq<u8>) -> Result<rsa::RsaPrivateKey, rsa::pkcs8::Error>;

/// What `RsaPrivateKey::to_public_key` gives for `key`.
pub uninterp spec fn public_half(key: rsa::RsaPrivateKey) -> rsa::RsaPublicKey;

/// What `EncodeRsaPublicKey::to_pkcs1_der` gives for `key`.
pub uninterp spec fn pkcs1_of(key: rsa::RsaPublicKey) -> Result<Seq<u8>, rsa::pkcs1::Error>;

/// The message of a key-generation error, as its `Display` writes it.
pub uninterp spec fn rsa_message(error: rsa::Error) -> Seq<char>;

/// The message of a PKCS#8 error, as its `Display` writes it.
pub uninterp spec fn pkcs8_message(error: rsa::pkcs8::Error) -> Seq<char>;

/// The message of a PKCS#1 error, as its `Display` writes it.
pub uninterp spec fn pkcs1_message(error: rsa::pkcs1::Error) -> Seq<char>;

/// `key` can be written as a PKCS#1 document, which is not empty.
pub open spec fn can_be_advertised(key: rsa::RsaPublicKey) -> bool {
    &&& pkcs1_of(key) matches Ok(der)
    &&& der.len() > 0
}

/// Calls `rsa::RsaPrivateKey::new` with `rand::thread_rng()`.
///
/// Which key comes back is chance. Claimed of every outcome: a key that is
/// returned has a modulus of exactly `bits` bits, since the generator draws again
/// until that holds; and `to_pkcs1_der` writes its public half, which it does for
/// every modulus of at most 4096 bits (see [`take_public_half`]).
///
/// Left out by `requires`: sizes under 64 bits, for which the crate estimates whether
/// enough primes exist, and sizes over the 4096 bits that the crate accepts for a
/// public key by default. Nothing is said of when an error is returned.
/// (`thread_rng` panics where the system has no entropy source.)
#[verifier::external_body]
fn generate_private_key(bits: usize) -> (generated: Result<rsa::RsaPrivateKey, rsa::Error>)
    requires
        64 <= bits <= 4096,
    ensures
        generated matches Ok(key) ==> modulus_bits(key) == bits && can_be_advertised(
            public_half(key),
        ),
{
    rsa::RsaPrivateKey::new(&mut rand::thread_rng(), bits)
}

/// Calls `EncodePrivateKey::to_pkcs8_der` and copies the document out.
///
/// Claimed: the outcome depends on the key alone, and decoding a document that
/// was written gives the key back. Every `RsaPrivateKey` was validated when it was
/// built; the document holds its modulus, exponents and two primes, from which
/// `from_pkcs8_der` builds it again with the same validation. (Two keys with the
/// same modulus, exponents and primes are one key here, as in the crate's `==`.)
#[verifier::external_body]
fn encode_private_key(key: &rsa::RsaPrivateKey) -> (encoded: Result<Vec<u8>, rsa::pkcs8::Error>)
    ensures
        match encoded {
            Ok(der) => pkcs8_of(*key) == Ok::<Seq<u8>, rsa::pkcs8::Error>(der@) && key_of_pkcs8(der@)
                == Ok::<rsa::RsaPrivateKey, rsa::pkcs8::Error>(*key),
            Err(error) => pkcs8_of(*key) == Err::<Seq<u8>, rsa::pkcs8::Error>(error),
        },
{
    key.to_pkcs8_der().map(|document| document.as_bytes().to_vec())
}

/// Calls `DecodePrivateKey::from_pkcs8_der`.
///
/// Claimed: the outcome depends on the bytes alone.
#[verifier::external_body]
fn decode_private_key(pkcs8: &[u8]) -> (decoded: Result<rsa::RsaPrivateKey, rsa::pkcs8::Error>)
    ensures
        decoded == key_of_pkcs8(pkcs8@),
{
    rsa::RsaPrivateKey::from_pkcs8_der(pkcs8)
}

/// Calls `RsaPrivateKey::to_public_key`.
///
/// Claimed: the outcome depends on the key alone, and if the modulus has at most 4096
/// bits, `to_pkcs1_der` writes the public key as a document that is not empty. Writing
/// it fails only where a number or a document is too long for a DER length (256 MiB),
/// and a key's exponent has at most 33 bits.
#[verifier::external_body]
fn take_public_half(key: &rsa::RsaPrivateKey) -> (public: rsa::RsaPublicKey)
    ensures
        public == public_half(*key),
        modulus_bits(*key) <= 4096 ==> can_be_advertised(public),
{
    key.to_public_key()
}

/// Calls `EncodeRsaPublicKey::to_pkcs1_der` and copies the document out.
///
/// Claimed: the outcome depends on the key alone, and a document is never empty: it is
/// a DER sequence, which has a tag and a length.
#[verifier::external_body]
fn encode_public_key(key: &rsa::RsaPublicKey) -> (encoded: Result<Vec<u8>, rsa::pkcs1::Error>)
    ensures
        match encoded {
            Ok(der) => pkcs1_of(*key) == Ok::<Seq<u8>, rsa::pkcs1::Error>(der@) && der@.len() > 0,
            Err(error) => pkcs1_of(*key) == Err::<Seq<u8>, rsa::pkcs1::Error>(error),
        },
{
    key.to_pkcs1_der().map(|document| document.as_bytes().to_vec())
}

/// Calls `to_string` on an `rsa::Error`.
///
/// Claimed: the text depends on the error alone.
#[verifier::external_body]
fn rsa_error_text(error: &rsa::Error) -> (text: String)
    ensures
        text@ == rsa_message(*error),
{
    error.to_string()
}

/// Calls `to_string` on an `rsa::pkcs8::Error`.
///
/// Claimed: the text depends on the error alone.
#[verifier::external_body]
fn pkcs8_error_text(error: &rsa::pkcs8::Error) -> (text: String)
    ensures
        text@ == pkcs8_message(*error),
{
    error.to_string()
}

/// Calls `to_string` on an `rsa::pkcs1::Error`.
///
/// Claimed: the text depends on the error alone.
#[verifier::external_body]
fn pkcs1_error_text(error: &rsa::pkcs1::Error) -> (text: String)
    ensures
        text@ == pkcs1_message(*error),
{
    error.to_string()
}

/// The identity document for an outcome of key generation: the PKCS#8 document of
/// the key, or a `Keygen` error with the message of whichever step failed.
pub open spec fn identity_document_spec(
    generated: Result<rsa::RsaPrivateKey, rsa::Error>,
) -> Result<Seq<u8>, HostErrorView> {
    match generated {
        Err(error) => Err(HostErrorView::Keygen(rsa_message(error))),
        Ok(key) => match pkcs8_of(key) {
            Err(error) => Err(HostErrorView::Keygen(pkcs8_message(error))),
            Ok(der) => Ok(der),
        },
    }
}

/// The public key for an outcome of decoding an identity document: the PKCS#1
/// document of the public half, or a `Keygen` error with the message of whichever
/// step failed.
pub open spec fn public_key_of_spec(
    decoded: Result<rsa::RsaPrivateKey, rsa::pkcs8::Error>,
) -> Result<Seq<u8>, HostErrorView> {
    match decoded {
        Err(error) => Err(HostErrorView::Keygen(pkcs8_message(error))),
        Ok(key) => match pkcs1_of(public_half(key)) {
            Err(error) => Err(HostErrorView::Keygen(pkcs1_message(error))),
            Ok(der) => Ok(der),
        },
    }
}

/// The public key that belongs to the identity document `pkcs8`.
pub open spec fn public_key_spec(pkcs8: Seq<u8>) -> Result<Seq<u8>, HostErrorView> {
    public_key_of_spec(key_of_pkcs8(pkcs8))
}

/// `der` is the PKCS#8 document of a key of `bits` bits, and decodes to that key, whose
/// public half can be advertised.
pub open spec fn is_key_document(der: Seq<u8>, bits: nat) -> bool {
    &&& key_of_pkcs8(der) matches Ok(key)
    &&& modulus_bits(key) == bits
    &&& can_be_advertised(public_half(key))
    &&& pkcs8_of(key) == Ok::<Seq<u8>, rsa::pkcs8::Error>(der)
}

/// `der` is the PKCS#8 document of a key of the identity size.
pub open spec fn is_identity_document(der: Seq<u8>) -> bool {
    is_key_document(der, IDENTITY_KEY_BITS as nat)
}

/// A document that was generated has a public key, which is not empty.
pub proof fn generated_document_has_a_public_key(der: Seq<u8>, bits: nat)
    requires
        is_key_document(der, bits),
    ensures
        public_key_spec(der) matches Ok(public_key_der) && public_key_der.len() > 0,
{
}

/// Writes the identity document for an outcome of key generation.
pub fn identity_document(generated: Result<rsa::RsaPrivateKey, rsa::Error>) -> (der: Result<
    Vec<u8>,
    HostError,
>)
    ensures
        result_view(der) == identity_document_spec(generated),
        generated matches Ok(key) ==> (pkcs8_of(key) matches Ok(document) ==> (
        der matches Ok(written) && written@ == document)),
        der matches Ok(document) ==> key_of_pkcs8(document@) == Ok::<
            rsa::RsaPrivateKey,
            rsa::pkcs8::Error,
        >(generated->Ok_0),
{
    match generated {
        Err(error) => Err(HostError::Keygen(rsa_error_text(&error))),
        Ok(key) => match encode_private_key(&key) {
            Err(error) => Err(HostError::Keygen(pkcs8_error_text(&error))),
            Ok(der) => Ok(der),
        },
    }
}

/// Generates a fresh RSA key of `bits` bits and returns its PKCS#8 DER document.
///
/// A document that is returned decodes to the key it was written for, and that key
/// has `bits` bits and a public half that can be advertised. A failure is always
/// [`HostError::Keygen`], with the message of whichever step failed.
pub fn generate_pkcs8_of_size(bits: usize) -> (der: Result<Vec<u8>, HostError>)
    requires
        64 <= bits <= 4096,
    ensures
        match der {
            Ok(document) => is_key_document(document@, bits as nat),
            Err(error) => error is Keygen,
        },
        exists|generated: Result<rsa::RsaPrivateKey, rsa::Error>|
            result_view(der) == #[trigger] identity_document_spec(generated),
{
    identity_document(generate_private_key(bits))
}

/// Generates a fresh RSA-2048 key and returns its PKCS#8 DER document.
///
/// A document that is returned decodes to the key it was written for, and that key
/// has 2048 bits and a public half that can be advertised. A failure is always
/// [`HostError::Keygen`], with the message of whichever step failed.
pub fn generate_pkcs8() -> (der: Result<Vec<u8>, HostError>)
    ensures
        match der {
            Ok(document) => is_identity_document(document@),
            Err(error) => error is Keygen,
        },
        exists|generated: Result<rsa::RsaPrivateKey, rsa::Error>|
            result_view(der) == #[trigger] identity_document_spec(generated),
{
    generate_pkcs8_of_size(IDENTITY_KEY_BITS)
}

/// Writes the public key for an outcome of decoding an identity document.
pub fn public_key_of(decoded: Result<rsa::RsaPrivateKey, rsa::pkcs8::Error>) -> (der: Result<
    Vec<u8>,
    HostError,
>)
    ensures
        result_view(der) == public_key_of_spec(decoded),
        decoded matches Ok(key) ==> (pkcs1_of(public_half(key)) matches Ok(document) ==> (
        der matches Ok(written) && written@ == document)),
        der matches Ok(document) ==> document@.len() > 0,
        decoded matches Ok(key) && modulus_bits(key) <= 4096 ==> der is Ok,
{
    match decoded {
        Err(error) => Err(HostError::Keygen(pkcs8_error_text(&error))),
        Ok(key) => match encode_public_key(&take_public_half(&key)) {
            Err(error) => Err(HostError::Keygen(pkcs1_error_text(&error))),
            Ok(der) => Ok(der),
        },
    }
}

/// Derives the PKCS#1 `RSAPublicKey` DER document (the form in which the key is
/// advertised, and against which signatures are checked) from a PKCS#8 private key.
pub fn public_key_pkcs1_from_pkcs8(pkcs8: &[u8]) -> (der: Result<Vec<u8>, HostError>)
    ensures
        result_view(der) == public_key_spec(pkcs8@),
        key_of_pkcs8(pkcs8@) matches Ok(key) ==> (pkcs1_of(public_half(key)) matches Ok(
            document,
        ) ==> (der matches Ok(written) && written@ == document)),
        der matches Ok(document) ==> document@.len() > 0,
        key_of_pkcs8(pkcs8@) matches Ok(key) && modulus_bits(key) <= 4096 ==> der is Ok,
{
    public_key_of(decode_private_key(pkcs8))
}

} // verus!
