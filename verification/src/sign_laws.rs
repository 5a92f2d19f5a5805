//! What holds of signing a challenge, over the calls that it takes.
use vstd::prelude::*;

#[allow(unused_imports)]
use crate::error::HostError;
use crate::pairing::PairingStore;
use crate::signing::SignStep;

verus! {

/// The store asks for exactly the challenge to be signed.
pub proof fn challenge_is_asked_for_whole(store: PairingStore, message: &[u8], asked: SignStep)
    requires
        call_ensures(PairingStore::sign_challenge, (&store, message), asked),
    ensures
        asked matches SignStep::Sign { message: handed } && handed@ == message@,
{
}

/// The signature that was given is the one that is returned, byte for byte, whatever
/// was signed and however long it is.
pub proof fn signature_is_returned_whole(message: Vec<u8>, signature: Vec<u8>, end: SignStep)
    requires
        call_ensures(SignStep::next, (SignStep::Sign { message }, Ok(signature)), end),
    ensures
        end matches SignStep::Signed { signature: returned } && returned@ == signature@,
{
}

/// A challenge that could not be signed ends in a `Crypto` error with the message that
/// was given.
pub proof fn signing_failure_is_returned(message: Vec<u8>, text: String, end: SignStep)
    requires
        call_ensures(SignStep::next, (SignStep::Sign { message }, Err(text)), end),
    ensures
        end matches SignStep::Failed { error: HostError::Crypto(returned) } && returned@ == text@,
{
}

/// Once a challenge is signed, nothing that comes in changes the signature.
pub proof fn signature_is_final(
    signature: Vec<u8>,
    signed: Result<Vec<u8>, String>,
    end: SignStep,
)
    requires
        call_ensures(SignStep::next, (SignStep::Signed { signature }, signed), end),
    ensures
        end matches SignStep::Signed { signature: returned } && returned@ == signature@,
{
}

/// Once signing has failed, nothing that comes in changes the error.
pub proof fn signing_failure_is_final(
    error: HostError,
    signed: Result<Vec<u8>, String>,
    end: SignStep,
)
    requires
        call_ensures(SignStep::next, (SignStep::Failed { error }, signed), end),
    ensures
        end matches SignStep::Failed { error: returned } && returned@ == error@,
{
}

/// If what `sign` gives for a message satisfies `verify` for that message, then what
/// signing a challenge ends in satisfies `verify` for the challenge, where the message
/// that was asked for is signed with `sign`.
pub proof fn signed_challenge_verifies(
    store: PairingStore,
    message: &[u8],
    asked: SignStep,
    signature: Vec<u8>,
    end: SignStep,
    sign: spec_fn(Seq<u8>) -> Seq<u8>,
    verify: spec_fn(Seq<u8>, Seq<u8>) -> bool,
)
    requires
        forall|m: Seq<u8>| verify(m, #[trigger] sign(m)),
        call_ensures(PairingStore::sign_challenge, (&store, message), asked),
        asked matches SignStep::Sign { message: handed } ==> signature@ == sign(handed@),
        call_ensures(SignStep::next, (asked, Ok(signature)), end),
    ensures
        end matches SignStep::Signed { signature: returned } && verify(message@, returned@),
{
}

} // verus!
