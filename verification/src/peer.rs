//! The stable identity of a peer.
use vstd::prelude::*;

verus! {

/// The stable identity of a peer: the device id that it announces.
///
/// A thin newtype, so that peer ids are not confused with arbitrary strings.
#[derive(Debug, PartialEq, Eq, Hash)]
pub struct PeerId(pub String);

impl View for PeerId {
    type V = Seq<char>;

    open spec fn view(&self) -> Seq<char> {
        self.0@
    }
}

impl Clone for PeerId {
    fn clone(&self) -> (copy: Self)
        ensures
            copy == *self,
    {
        PeerId(self.0.clone())
    }
}

impl PeerId {
    /// Borrows the underlying device-id string.
    #[must_use]
    pub fn as_str(&self) -> (id: &str)
        ensures
            id@ == self@,
    {
        self.0.as_str()
    }

    /// The text that stands for this peer: its device id, unchanged.
    #[must_use]
    pub fn to_string(&self) -> (text: String)
        ensures
            text@ == self@,
    {
        self.0.clone()
    }
}

impl From<String> for PeerId {
    fn from(id: String) -> (peer: Self)
        ensures
            peer@ == id@,
    {
        PeerId(id)
    }
}

impl vstd::std_specs::convert::FromSpecImpl<String> for PeerId {
    open spec fn obeys_from_spec() -> bool {
        true
    }

    open spec fn from_spec(id: String) -> Self {
        PeerId(id)
    }
}

impl<'a> From<&'a str> for PeerId {
    fn from(id: &'a str) -> (peer: Self)
        ensures
            peer@ == id@,
    {
        PeerId(id.to_owned())
    }
}

impl<'a> vstd::std_specs::convert::FromSpecImpl<&'a str> for PeerId {
    open spec fn obeys_from_spec() -> bool {
        false
    }

    open spec fn from_spec(id: &'a str) -> Self {
        arbitrary()
    }
}

} // verus!
