//! The live link to a peer on the LAN: the read loop, and sending.
//!
//! A link is read in chunks. Each chunk goes to the frame decoder, and every frame
//! that the decoder can complete is reported before the next chunk is read. The
//! loop ends when the peer closes the stream, when reading fails, or at a frame that
//! cannot be decoded, after which a stream cannot be brought back into step. Its end
//! is the only source of [`HostEvent::Disconnected`].
use vstd::prelude::*;
#[allow(unused_imports)]
use vstd::utf8::encode_utf8;

use crate::error::HostError;
#[allow(unused_imports)]
use crate::error::HostErrorView;
use crate::event::HostEvent;
#[allow(unused_imports)]
use crate::event::{event_views, HostEventView};
use crate::peer::PeerId;
#[allow(unused_imports)]
use crate::saving::outcome_view;

verus! {

/// Size of the chunks in which a link is read. Frames are put together by the
/// decoder, so this bounds a single read and not a frame.
pub const READ_CHUNK_BYTES: usize = 8192;

/// `prefix` followed by `text`.
fn prefixed(prefix: &str, text: &String) -> (whole: String)
    ensures
        whole@ == prefix@ + text@,
{
    prefix.to_owned().concat(text.as_str())
}

/// One step of the read loop: a request to perform, or the end.
#[derive(Debug, Clone, Copy, PartialEq, Eq)]
pub enum ReadStep {
    /// Read a chunk of at most [`READ_CHUNK_BYTES`] bytes.
    Read,
    /// Hand the first `len` bytes of the chunk to the decoder.
    Feed { len: usize },
    /// Ask the decoder for its next frame.
    NextFrame,
    /// The loop has ended.
    Stopped,
}

/// The reply to the request of a [`ReadStep`].
#[derive(Debug)]
pub enum ReadReply<P> {
    /// How many bytes were read (none at the end of the stream), or why reading
    /// failed.
    Read(Result<usize, String>),
    /// The decoder has the bytes.
    Fed,
    /// The next packet, if the decoder has all of it, or why it is malformed.
    Frame(Result<Option<P>, String>),
}

/// The mathematical model of a [`ReadReply`].
#[verifier::ext_equal]
pub enum ReadReplyView<P> {
    Read(Result<usize, Seq<char>>),
    Fed,
    Frame(Result<Option<P>, Seq<char>>),
}

impl<P> View for ReadReply<P> {
    type V = ReadReplyView<P>;

    open spec fn view(&self) -> ReadReplyView<P> {
        match self {
            ReadReply::Read(Ok(len)) => ReadReplyView::Read(Ok(*len)),
            ReadReply::Read(Err(text)) => ReadReplyView::Read(Err(text@)),
            ReadReply::Fed => ReadReplyView::Fed,
            ReadReply::Frame(Ok(frame)) => ReadReplyView::Frame(Ok(*frame)),
            ReadReply::Frame(Err(text)) => ReadReplyView::Frame(Err(text@)),
        }
    }
}

/// What one reply to the read loop leads to: events to report, in order, and the
/// step that follows.
#[derive(Debug)]
pub struct ReadTurn<P> {
    pub events: Vec<HostEvent<P>>,
    pub step: ReadStep,
}

impl ReadStep {
    /// The step that follows once `reply` has come. A reply that does not answer the
    /// request changes nothing.
    pub open spec fn after<P>(self, reply: ReadReplyView<P>) -> ReadStep {
        match (self, reply) {
            (ReadStep::Read, ReadReplyView::Read(Ok(len))) => if len == 0 {
                ReadStep::Stopped
            } else {
                ReadStep::Feed { len }
            },
            (ReadStep::Read, ReadReplyView::Read(Err(_))) => ReadStep::Stopped,
            (ReadStep::Feed { .. }, ReadReplyView::Fed) => ReadStep::NextFrame,
            (ReadStep::NextFrame, ReadReplyView::Frame(Ok(Some(_)))) => ReadStep::NextFrame,
            (ReadStep::NextFrame, ReadReplyView::Frame(Ok(None))) => ReadStep::Read,
            (ReadStep::NextFrame, ReadReplyView::Frame(Err(_))) => ReadStep::Stopped,
            _ => self,
        }
    }

    /// The events that `reply` gives rise to, on the link to `peer`.
    pub open spec fn events<P>(self, peer: Seq<char>, reply: ReadReplyView<P>) -> Seq<
        HostEventView<P>,
    > {
        match (self, reply) {
            (ReadStep::Read, ReadReplyView::Read(Ok(len))) => if len == 0 {
                seq![HostEventView::Disconnected(peer)]
            } else {
                seq![]
            },
            (ReadStep::Read, ReadReplyView::Read(Err(_))) => seq![
                HostEventView::Disconnected(peer),
            ],
            (ReadStep::NextFrame, ReadReplyView::Frame(Ok(Some(packet)))) => seq![
                HostEventView::Packet { peer, packet },
            ],
            (ReadStep::NextFrame, ReadReplyView::Frame(Err(text))) => seq![
                HostEventView::TransportError("frame decode: "@ + text),
                HostEventView::Disconnected(peer),
            ],
            _ => seq![],
        }
    }
}

/// One step of sending a packet: a request to perform, or the end.
#[derive(Debug)]
pub enum SendStep<P> {
    /// Encode `packet` as a frame.
    Encode { packet: P },
    /// Write all of `bytes` to the link.
    Write { bytes: Vec<u8> },
    /// Flush the link.
    Flush,
    /// The packet is sent.
    Sent,
    /// The packet could not be sent.
    Failed { error: HostError },
}

/// The reply to the request of a [`SendStep`].
#[derive(Debug)]
pub enum SendReply {
    /// The text of the frame, or why there is none.
    Frame(Result<String, String>),
    /// What came of writing or flushing, with a message on failure.
    Done(Result<(), String>),
}

/// The mathematical model of a [`SendStep`].
#[verifier::ext_equal]
pub enum SendStepView<P> {
    Encode { packet: P },
    Write { bytes: Seq<u8> },
    Flush,
    Sent,
    Failed { error: HostErrorView },
}

/// The mathematical model of a [`SendReply`].
#[verifier::ext_equal]
pub enum SendReplyView {
    Frame(Result<Seq<char>, Seq<char>>),
    Done(Result<(), Seq<char>>),
}

impl<P> View for SendStep<P> {
    type V = SendStepView<P>;

    open spec fn view(&self) -> SendStepView<P> {
        match self {
            SendStep::Encode { packet } => SendStepView::Encode { packet: *packet },
            SendStep::Write { bytes } => SendStepView::Write { bytes: bytes@ },
            SendStep::Flush => SendStepView::Flush,
            SendStep::Sent => SendStepView::Sent,
            SendStep::Failed { error } => SendStepView::Failed { error: error@ },
        }
    }
}

impl View for SendReply {
    type V = SendReplyView;

    open spec fn view(&self) -> SendReplyView {
        match self {
            SendReply::Frame(Ok(frame)) => SendReplyView::Frame(Ok(frame@)),
            SendReply::Frame(Err(text)) => SendReplyView::Frame(Err(text@)),
            SendReply::Done(outcome) => SendReplyView::Done(outcome_view(*outcome)),
        }
    }
}

impl<P> SendStepView<P> {
    /// The step that follows once `reply` has come. A failure ends the sequence; a
    /// reply that does not answer the request changes nothing.
    pub open spec fn next(self, reply: SendReplyView) -> SendStepView<P> {
        match (self, reply) {
            (SendStepView::Encode { .. }, SendReplyView::Frame(Ok(frame))) => SendStepView::Write {
                bytes: encode_utf8(frame),
            },
            (SendStepView::Encode { .. }, SendReplyView::Frame(Err(text))) =>
                SendStepView::Failed { error: HostErrorView::Transport("encode: "@ + text) },
            (SendStepView::Write { .. }, SendReplyView::Done(Ok(()))) => SendStepView::Flush,
            (SendStepView::Write { .. }, SendReplyView::Done(Err(text))) => SendStepView::Failed {
                error: HostErrorView::Transport("write: "@ + text),
            },
            (SendStepView::Flush, SendReplyView::Done(Ok(()))) => SendStepView::Sent,
            (SendStepView::Flush, SendReplyView::Done(Err(text))) => SendStepView::Failed {
                error: HostErrorView::Transport("flush: "@ + text),
            },
            _ => self,
        }
    }
}

impl<P> SendStep<P> {
    /// The step that follows once `reply` has come.
    pub fn next(self, reply: SendReply) -> (step: SendStep<P>)
        ensures
            step@ == self@.next(reply@),
    {
        match (self, reply) {
            (SendStep::Encode { packet: _ }, SendReply::Frame(Ok(frame))) => SendStep::Write {
                bytes: frame.as_str().as_bytes_vec(),
            },
            (SendStep::Encode { packet: _ }, SendReply::Frame(Err(text))) => SendStep::Failed {
                error: HostError::Transport(prefixed("encode: ", &text)),
            },
            (SendStep::Write { bytes: _ }, SendReply::Done(Ok(()))) => SendStep::Flush,
            (SendStep::Write { bytes: _ }, SendReply::Done(Err(text))) => SendStep::Failed {
                error: HostError::Transport(prefixed("write: ", &text)),
            },
            (SendStep::Flush, SendReply::Done(Ok(()))) => SendStep::Sent,
            (SendStep::Flush, SendReply::Done(Err(text))) => SendStep::Failed {
                error: HostError::Transport(prefixed("flush: ", &text)),
            },
            (step, _) => step,
        }
    }
}

/// A live link to a peer.
#[derive(Debug)]
pub struct LanConnection {
    peer: PeerId,
}

impl View for LanConnection {
    type V = Seq<char>;

    closed spec fn view(&self) -> Seq<char> {
        self.peer@
    }
}

impl LanConnection {
    /// The link to `peer`. Its read loop starts at [`ReadStep::Read`].
    pub fn new(peer: PeerId) -> (link: Self)
        ensures
            link@ == peer@,
    {
        LanConnection { peer }
    }

    /// The peer at the other end.
    pub fn peer(&self) -> (peer: &PeerId)
        ensures
            peer@ == self@,
    {
        &self.peer
    }

    /// Goes on with the read loop: what `reply` to the request of `step` leads to.
    pub fn read_loop<P>(&self, step: ReadStep, reply: ReadReply<P>) -> (turn: ReadTurn<P>)
        ensures
            turn.step == step.after(reply@),
            event_views(turn.events@) == step.events(self@, reply@),
    {
        let mut events: Vec<HostEvent<P>> = Vec::new();
        let ghost answered = reply@;
        let next = match (step, reply) {
            (ReadStep::Read, ReadReply::Read(Ok(len))) => if len == 0 {
                events.push(HostEvent::Disconnected(self.peer.clone()));
                ReadStep::Stopped
            } else {
                ReadStep::Feed { len }
            },
            (ReadStep::Read, ReadReply::Read(Err(_))) => {
                events.push(HostEvent::Disconnected(self.peer.clone()));
                ReadStep::Stopped
            },
            (ReadStep::Feed { len: _ }, ReadReply::Fed) => ReadStep::NextFrame,
            (ReadStep::NextFrame, ReadReply::Frame(Ok(Some(packet)))) => {
                events.push(HostEvent::Packet { peer: self.peer.clone(), packet });
                ReadStep::NextFrame
            },
            (ReadStep::NextFrame, ReadReply::Frame(Ok(None))) => ReadStep::Read,
            (ReadStep::NextFrame, ReadReply::Frame(Err(text))) => {
                events.push(HostEvent::TransportError(prefixed("frame decode: ", &text)));
                events.push(HostEvent::Disconnected(self.peer.clone()));
                ReadStep::Stopped
            },
            (step, _) => step,
        };
        assert(event_views(events@) =~= step.events(self@, answered));
        ReadTurn { events, step: next }
    }

    /// Starts to send `packet`.
    pub fn send<P>(&self, packet: P) -> (step: SendStep<P>)
        ensures
            step@ == (SendStepView::Encode { packet }),
    {
        SendStep::Encode { packet }
    }
}

} // verus!
