use mde_kdc_host::identity::{
    generate_pkcs8_of_size, identity_document, public_key_of, public_key_pkcs1_from_pkcs8,
    IDENTITY_KEY_BITS,
};
use mde_kdc_host::HostError;
use rsa::pkcs1::EncodeRsaPublicKey;
use rsa::pkcs8::DecodePrivateKey;
use rsa::traits::PublicKeyParts;

#[test]
fn generated_document_holds_a_key_of_the_size_asked_for() {
    assert_eq!(IDENTITY_KEY_BITS, 2048);
    let der = generate_pkcs8_of_size(512).unwrap();
    let key = rsa::RsaPrivateKey::from_pkcs8_der(&der).unwrap();
    assert_eq!(key.n().bits(), 512);
    assert_ne!(generate_pkcs8_of_size(512).unwrap(), der);
    let public = public_key_pkcs1_from_pkcs8(&der).unwrap();
    assert!(!public.is_empty());
    assert_ne!(public, der);
    assert_eq!(public, key.to_public_key().to_pkcs1_der().unwrap().as_bytes());
    // Writing the key again gives the same document.
    assert_eq!(identity_document(Ok(key)).unwrap(), der);
}

#[test]
fn generation_failure_is_a_keygen_error() {
    let failed = identity_document(Err(rsa::Error::TooFewPrimes));
    assert!(matches!(failed, Err(HostError::Keygen(text))
        if text == "too few primes of given length to generate an RSA key"));
}

#[test]
fn undecodable_document_is_a_keygen_error() {
    let failed = public_key_of(Err(rsa::pkcs8::Error::KeyMalformed));
    assert!(matches!(failed, Err(HostError::Keygen(text))
        if text == "PKCS#8 cryptographic key data malformed"));
    assert!(matches!(public_key_pkcs1_from_pkcs8(b"garbage"), Err(HostError::Keygen(_))));
}
