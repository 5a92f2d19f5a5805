//! What holds of the identity key's two documents, over the calls that write them.
use vstd::prelude::*;

#[allow(unused_imports)]
use crate::error::HostError;
#[allow(unused_imports)]
use crate::identity::{
    generate_pkcs8, generate_pkcs8_of_size, identity_document, key_of_pkcs8, modulus_bits, pkcs1_of,
    pkcs1_message, pkcs8_message, pkcs8_of, public_half, public_key_of, public_key_pkcs1_from_pkcs8,
    rsa_message,
};

verus! {

/// The public key that is advertised for a key is exactly the PKCS#1 document of its
/// public half, of any length, and there is one whenever there is such a document.
pub proof fn public_half_is_written_whole(key: rsa::RsaPrivateKey, der: Result<Vec<u8>, HostError>)
    requires
        call_ensures(public_key_of, (Ok(key),), der),
    ensures
        match pkcs1_of(public_half(key)) {
            Ok(document) => der matches Ok(written) && written@ == document,
            Err(error) => der matches Err(HostError::Keygen(text)) && text@ == pkcs1_message(error),
        },
{
}

/// Where no key could be decoded, the error has the decoder's message.
pub proof fn decoding_failure_is_returned(
    error: rsa::pkcs8::Error,
    der: Result<Vec<u8>, HostError>,
)
    requires
        call_ensures(public_key_of, (Err(error),), der),
    ensures
        der matches Err(HostError::Keygen(text)) && text@ == pkcs8_message(error),
{
}

/// The public key of an identity document is that of the key it decodes to: the PKCS#1
/// document of the public half, byte for byte.
pub proof fn public_key_belongs_to_the_document(pkcs8: &[u8], der: Result<Vec<u8>, HostError>)
    requires
        call_ensures(public_key_pkcs1_from_pkcs8, (pkcs8,), der),
    ensures
        match key_of_pkcs8(pkcs8@) {
            Ok(key) => match pkcs1_of(public_half(key)) {
                Ok(document) => der matches Ok(written) && written@ == document,
                Err(error) => der matches Err(HostError::Keygen(text)) && text@ == pkcs1_message(
                    error,
                ),
            },
            Err(error) => der matches Err(HostError::Keygen(text)) && text@ == pkcs8_message(error),
        },
{
}

/// Deriving the public key from a document gives what deriving it from the decoded key
/// gives.
pub proof fn public_key_goes_by_the_key(
    pkcs8: &[u8],
    decoded: Result<rsa::RsaPrivateKey, rsa::pkcs8::Error>,
    by_document: Result<Vec<u8>, HostError>,
    by_key: Result<Vec<u8>, HostError>,
)
    requires
        call_ensures(public_key_pkcs1_from_pkcs8, (pkcs8,), by_document),
        call_ensures(public_key_of, (decoded,), by_key),
    ensures
        decoded == key_of_pkcs8(pkcs8@) ==> match (by_document, by_key) {
            (Ok(one), Ok(other)) => one@ == other@,
            (Err(one), Err(other)) => one@ == other@,
            _ => false,
        },
{
}

/// The identity document of a key is exactly its PKCS#8 document.
pub proof fn key_is_written_whole(
    generated: Result<rsa::RsaPrivateKey, rsa::Error>,
    der: Result<Vec<u8>, HostError>,
)
    requires
        call_ensures(identity_document, (generated,), der),
    ensures
        match generated {
            Ok(key) => match pkcs8_of(key) {
                Ok(document) => der matches Ok(written) && written@ == document,
                Err(error) => der matches Err(HostError::Keygen(text)) && text@ == pkcs8_message(
                    error,
                ),
            },
            Err(error) => der matches Err(HostError::Keygen(text)) && text@ == rsa_message(error),
        },
{
}

/// The key that an identity document was written for comes back from it, and with it the
/// public key that the key itself has.
pub proof fn key_comes_back(
    key: rsa::RsaPrivateKey,
    der: Result<Vec<u8>, HostError>,
    pkcs8: &[u8],
    by_document: Result<Vec<u8>, HostError>,
    by_key: Result<Vec<u8>, HostError>,
)
    requires
        call_ensures(identity_document, (Ok(key),), der),
        der matches Ok(written) && written@ == pkcs8@,
        call_ensures(public_key_pkcs1_from_pkcs8, (pkcs8,), by_document),
        call_ensures(public_key_of, (Ok(key),), by_key),
    ensures
        key_of_pkcs8(pkcs8@) == Ok::<rsa::RsaPrivateKey, rsa::pkcs8::Error>(key),
        match (by_document, by_key) {
            (Ok(one), Ok(other)) => one@ == other@,
            (Err(one), Err(other)) => one@ == other@,
            _ => false,
        },
{
}

/// `error` is a `Keygen` error with the message of a key that could not be generated, or
/// of one that could not be written.
pub open spec fn is_generation_failure(error: HostError) -> bool {
    error matches HostError::Keygen(text) && ((exists|e: rsa::Error| text@ == #[trigger] rsa_message(
        e,
    )) || exists|e: rsa::pkcs8::Error| text@ == #[trigger] pkcs8_message(e))
}

/// A key that is generated has the size that was asked for, and its document is whole: it
/// decodes to the key, is what writing the key gives, and has a public key. A failure has
/// the message of whichever step failed.
pub proof fn generated_key_has_the_size(bits: usize, der: Result<Vec<u8>, HostError>)
    requires
        64 <= bits <= 4096,
        call_ensures(generate_pkcs8_of_size, (bits,), der),
    ensures
        match der {
            Ok(document) => {
                &&& key_of_pkcs8(document@) matches Ok(key)
                &&& modulus_bits(key) == bits
                &&& pkcs8_of(key) == Ok::<Seq<u8>, rsa::pkcs8::Error>(document@)
                &&& pkcs1_of(public_half(key)) matches Ok(public) && public.len() > 0
            },
            Err(error) => is_generation_failure(error),
        },
{
}

/// The identity key has 2048 bits, and otherwise the same holds of it.
pub proof fn identity_key_has_the_size(der: Result<Vec<u8>, HostError>)
    requires
        call_ensures(generate_pkcs8, (), der),
    ensures
        match der {
            Ok(document) => {
                &&& key_of_pkcs8(document@) matches Ok(key)
                &&& modulus_bits(key) == 2048
                &&& pkcs8_of(key) == Ok::<Seq<u8>, rsa::pkcs8::Error>(document@)
                &&& pkcs1_of(public_half(key)) matches Ok(public) && public.len() > 0
            },
            Err(error) => is_generation_failure(error),
        },
{
}

} // verus!
