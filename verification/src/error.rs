//! Errors of the host layer.
use vstd::prelude::*;

verus! {

/// What can go wrong in the host layer.
#[derive(Debug)]
pub enum HostError {
    /// Neither `XDG_CONFIG_HOME` nor `HOME` is set.
    NoConfigDir,
    /// A file-system request failed; the text is the system's message.
    Io(String),
    /// An identity key could not be generated, encoded or decoded.
    Keygen(String),
    /// The protocol's cryptography rejected a key or a message.
    Crypto(String),
    /// The trusted-peer document could not be serialised.
    Serialize(String),
    /// A packet could not be sent.
    Transport(String),
}

/// The mathematical model of a [`HostError`].
#[verifier::ext_equal]
pub enum HostErrorView {
    NoConfigDir,
    Io(Seq<char>),
    Keygen(Seq<char>),
    Crypto(Seq<char>),
    Serialize(Seq<char>),
    Transport(Seq<char>),
}

impl View for HostError {
    type V = HostErrorView;

    open spec fn view(&self) -> HostErrorView {
        match self {
            HostError::NoConfigDir => HostErrorView::NoConfigDir,
            HostError::Io(text) => HostErrorView::Io(text@),
            HostError::Keygen(text) => HostErrorView::Keygen(text@),
            HostError::Crypto(text) => HostErrorView::Crypto(text@),
            HostError::Serialize(text) => HostErrorView::Serialize(text@),
            HostError::Transport(text) => HostErrorView::Transport(text@),
        }
    }
}

/// The model of a fallible result: the model of its value, or of its error.
pub open spec fn result_view<T: View>(result: Result<T, HostError>) -> Result<
    T::V,
    HostErrorView,
> {
    match result {
        Ok(value) => Ok(value@),
        Err(error) => Err(error@),
    }
}

} // verus!
