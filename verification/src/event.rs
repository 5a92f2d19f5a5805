//! Events that the host reports to its surface.
use vstd::prelude::*;

use crate::peer::PeerId;

verus! {

/// Something that happened on a link. `P` is the protocol's packet type.
#[derive(Debug)]
pub enum HostEvent<P> {
    /// A packet came in from `peer`.
    Packet { peer: PeerId, packet: P },
    /// A link failed, with a message for the log.
    TransportError(String),
    /// The link to a peer is gone.
    Disconnected(PeerId),
}

/// The mathematical model of a [`HostEvent`].
#[verifier::ext_equal]
pub enum HostEventView<P> {
    Packet { peer: Seq<char>, packet: P },
    TransportError(Seq<char>),
    Disconnected(Seq<char>),
}

impl<P> View for HostEvent<P> {
    type V = HostEventView<P>;

    open spec fn view(&self) -> HostEventView<P> {
        match self {
            HostEvent::Packet { peer, packet } => HostEventView::Packet {
                peer: peer@,
                packet: *packet,
            },
            HostEvent::TransportError(text) => HostEventView::TransportError(text@),
            HostEvent::Disconnected(peer) => HostEventView::Disconnected(peer@),
        }
    }
}

/// The models of a list of events.
pub open spec fn event_views<P>(events: Seq<HostEvent<P>>) -> Seq<HostEventView<P>> {
    events.map_values(|event: HostEvent<P>| event@)
}

} // verus!
