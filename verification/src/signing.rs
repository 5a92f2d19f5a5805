//! Signing a handshake challenge.
use vstd::prelude::*;

#[allow(unused_imports)]
use crate::error::{HostError, HostErrorView};

verus! {

/// One step of signing a challenge: a request to perform, or the end.
#[derive(Debug)]
pub enum SignStep {
    /// Sign `message` with the key that was loaded when the store was opened.
    Sign { message: Vec<u8> },
    /// The challenge is signed.
    Signed { signature: Vec<u8> },
    /// The challenge could not be signed.
    Failed { error: HostError },
}

/// The mathematical model of a [`SignStep`].
#[verifier::ext_equal]
pub enum SignStepView {
    Sign { message: Seq<u8> },
    Signed { signature: Seq<u8> },
    Failed { error: HostErrorView },
}

impl View for SignStep {
    type V = SignStepView;

    open spec fn view(&self) -> SignStepView {
        match self {
            SignStep::Sign { message } => SignStepView::Sign { message: message@ },
            SignStep::Signed { signature } => SignStepView::Signed { signature: signature@ },
            SignStep::Failed { error } => SignStepView::Failed { error: error@ },
        }
    }
}

/// The model of a signature, or of the message that tells why there is none.
pub open spec fn signature_view(signed: Result<Vec<u8>, String>) -> Result<Seq<u8>, Seq<char>> {
    match signed {
        Ok(signature) => Ok(signature@),
        Err(text) => Err(text@),
    }
}

impl SignStepView {
    /// The step that follows once the request has given `signed`. After the end
    /// nothing changes.
    pub open spec fn next(self, signed: Result<Seq<u8>, Seq<char>>) -> SignStepView {
        match (self, signed) {
            (SignStepView::Sign { .. }, Ok(signature)) => SignStepView::Signed { signature },
            (SignStepView::Sign { .. }, Err(text)) => SignStepView::Failed {
                error: HostErrorView::Crypto(text),
            },
            _ => self,
        }
    }
}

impl SignStep {
    /// The step that follows once the request has given `signed`.
    pub fn next(self, signed: Result<Vec<u8>, String>) -> (step: SignStep)
        ensures
            step@ == self@.next(signature_view(signed)),
    {
        match (self, signed) {
            (SignStep::Sign { message: _ }, Ok(signature)) => SignStep::Signed { signature },
            (SignStep::Sign { message: _ }, Err(text)) => SignStep::Failed {
                error: HostError::Crypto(text),
            },
            (step, _) => step,
        }
    }
}

} // verus!
