//! What holds of a whole run of the read loop, and of sending one packet.
use vstd::prelude::*;
#[allow(unused_imports)]
use vstd::utf8::encode_utf8;

#[allow(unused_imports)]
use crate::error::HostErrorView;
#[allow(unused_imports)]
use crate::event::{event_views, HostEvent, HostEventView};
#[allow(unused_imports)]
use crate::lan::{
    LanConnection, ReadReply, ReadReplyView, ReadStep, ReadTurn, SendReplyView, SendStepView,
    READ_CHUNK_BYTES,
};
#[allow(unused_imports)]
use crate::peer::PeerId;

verus! {

/// Where the read loop stands after `replies`.
pub open spec fn loop_step<P>(replies: Seq<ReadReplyView<P>>) -> ReadStep
    decreases replies.len(),
{
    if replies.len() == 0 {
        ReadStep::Read
    } else {
        loop_step(replies.drop_last()).after(replies.last())
    }
}

/// All events that the read loop has reported after `replies`, in order.
pub open spec fn loop_events<P>(peer: Seq<char>, replies: Seq<ReadReplyView<P>>) -> Seq<
    HostEventView<P>,
>
    decreases replies.len(),
{
    if replies.len() == 0 {
        seq![]
    } else {
        loop_events(peer, replies.drop_last()) + loop_step(replies.drop_last()).events(
            peer,
            replies.last(),
        )
    }
}

/// The packets that the decoder gave when it was asked, in order.
pub open spec fn loop_packets<P>(replies: Seq<ReadReplyView<P>>) -> Seq<P>
    decreases replies.len(),
{
    if replies.len() == 0 {
        seq![]
    } else {
        let before = loop_packets(replies.drop_last());
        match (loop_step(replies.drop_last()), replies.last()) {
            (ReadStep::NextFrame, ReadReplyView::Frame(Ok(Some(packet)))) => before.push(packet),
            _ => before,
        }
    }
}

/// Why the decoder rejected a frame when it was asked for one, if it did.
pub open spec fn loop_decode_failure<P>(replies: Seq<ReadReplyView<P>>) -> Option<Seq<char>>
    decreases replies.len(),
{
    if replies.len() == 0 {
        None
    } else {
        match (loop_step(replies.drop_last()), replies.last()) {
            (ReadStep::NextFrame, ReadReplyView::Frame(Err(text))) => Some(text),
            _ => loop_decode_failure(replies.drop_last()),
        }
    }
}

/// One `Packet` event of `peer` for each of `packets`.
pub open spec fn packet_events<P>(peer: Seq<char>, packets: Seq<P>) -> Seq<HostEventView<P>> {
    packets.map_values(|packet: P| HostEventView::Packet { peer, packet })
}

/// The events at the end of a run: none while the loop goes on; then
/// `Disconnected`, after a `TransportError` if a frame was rejected.
pub open spec fn closing_events<P>(
    peer: Seq<char>,
    step: ReadStep,
    decode_failure: Option<Seq<char>>,
) -> Seq<HostEventView<P>> {
    match (step, decode_failure) {
        (ReadStep::Stopped, Some(text)) => seq![
            HostEventView::TransportError("frame decode: "@ + text),
            HostEventView::Disconnected(peer),
        ],
        (ReadStep::Stopped, None) => seq![HostEventView::Disconnected(peer)],
        _ => seq![],
    }
}

/// A rejected frame ends the loop: as long as it goes on, none was rejected.
pub proof fn decode_failure_stops<P>(replies: Seq<ReadReplyView<P>>)
    ensures
        loop_decode_failure(replies) is Some ==> loop_step(replies) == ReadStep::Stopped,
    decreases replies.len(),
{
    if replies.len() > 0 {
        decode_failure_stops(replies.drop_last());
    }
}

/// Whatever is read, the loop reports every packet that the decoder gave, once and
/// in order, and nothing else but the closing events.
pub proof fn loop_events_exact<P>(peer: Seq<char>, replies: Seq<ReadReplyView<P>>)
    ensures
        loop_events(peer, replies) == packet_events(peer, loop_packets(replies))
            + closing_events::<P>(peer, loop_step(replies), loop_decode_failure(replies)),
    decreases replies.len(),
{
    let whole = packet_events(peer, loop_packets(replies)) + closing_events::<P>(
        peer,
        loop_step(replies),
        loop_decode_failure(replies),
    );
    if replies.len() == 0 {
        assert(loop_events(peer, replies) =~= whole);
    } else {
        let front = replies.drop_last();
        loop_events_exact(peer, front);
        decode_failure_stops(front);
        assert(loop_events(peer, replies) =~= whole);
    }
}

/// `Disconnected` is reported exactly once by a loop that has ended, as its last
/// event, and not at all by one that goes on.
pub proof fn disconnected_once_and_last<P>(peer: Seq<char>, replies: Seq<ReadReplyView<P>>, i: int)
    requires
        0 <= i < loop_events(peer, replies).len(),
    ensures
        loop_events(peer, replies)[i] is Disconnected <==> loop_step(replies) == ReadStep::Stopped
            && i == loop_events(peer, replies).len() - 1,
        loop_events(peer, replies)[i] is Disconnected ==> loop_events(peer, replies)[i]
            == HostEventView::<P>::Disconnected(peer),
{
    loop_events_exact(peer, replies);
    decode_failure_stops(replies);
}

/// A loop that has ended has reported that the peer is gone.
pub proof fn end_is_reported<P>(peer: Seq<char>, replies: Seq<ReadReplyView<P>>)
    requires
        loop_step(replies) == ReadStep::Stopped,
    ensures
        loop_events(peer, replies).len() > 0,
        loop_events(peer, replies).last() == HostEventView::<P>::Disconnected(peer),
{
    loop_events_exact(peer, replies);
}

/// Once the loop has ended, nothing that comes in changes anything or is reported.
pub proof fn end_is_final<P>(
    peer: Seq<char>,
    replies: Seq<ReadReplyView<P>>,
    more: Seq<ReadReplyView<P>>,
)
    requires
        loop_step(replies) == ReadStep::Stopped,
    ensures
        loop_step(replies + more) == ReadStep::Stopped,
        loop_events(peer, replies + more) == loop_events(peer, replies),
    decreases more.len(),
{
    if more.len() == 0 {
        assert(replies + more =~= replies);
    } else {
        end_is_final(peer, replies, more.drop_last());
        assert((replies + more).drop_last() =~= replies + more.drop_last());
        assert(loop_events(peer, replies + more) =~= loop_events(peer, replies));
    }
}

/// What is reported depends on the packets that the decoder gave and on how the loop
/// ended, and on nothing else.
pub proof fn events_depend_on_packets_alone<P>(
    peer: Seq<char>,
    one: Seq<ReadReplyView<P>>,
    other: Seq<ReadReplyView<P>>,
)
    requires
        loop_packets(one) == loop_packets(other),
        loop_step(one) == loop_step(other),
        loop_decode_failure(one) == loop_decode_failure(other),
    ensures
        loop_events(peer, one) == loop_events(peer, other),
{
    loop_events_exact(peer, one);
    loop_events_exact(peer, other);
}

/// The bytes of `chunks`, one behind the other.
pub open spec fn bytes_of(chunks: Seq<Seq<u8>>) -> Seq<u8>
    decreases chunks.len(),
{
    if chunks.len() == 0 {
        seq![]
    } else {
        bytes_of(chunks.drop_last()) + chunks.last()
    }
}

/// `chunks` can each come of one read that was not at the end of the stream.
pub open spec fn can_be_read(chunks: Seq<Seq<u8>>) -> bool {
    forall|i: int|
        0 <= i < chunks.len() ==> 0 < (#[trigger] chunks[i]).len() <= READ_CHUNK_BYTES
}

/// `decode` gives the packets of all frames that are complete in the bytes so far, so
/// that more bytes only add packets.
pub open spec fn is_frame_decoding<P>(decode: spec_fn(Seq<u8>) -> Seq<P>) -> bool {
    &&& decode(seq![]) == Seq::<P>::empty()
    &&& forall|bytes: Seq<u8>, more: Seq<u8>|
        decode(bytes).is_prefix_of(#[trigger] decode(bytes + more))
}

/// How many chunks have been read after `replies`.
pub open spec fn chunks_read<P>(replies: Seq<ReadReplyView<P>>) -> nat
    decreases replies.len(),
{
    if replies.len() == 0 {
        0
    } else {
        let before = chunks_read(replies.drop_last());
        match (loop_step(replies.drop_last()), replies.last()) {
            (ReadStep::Read, ReadReplyView::Read(Ok(len))) => if len > 0 {
                before + 1
            } else {
                before
            },
            _ => before,
        }
    }
}

/// The replies tell truly how long the chunks are that are read.
pub open spec fn lengths_are_true<P>(replies: Seq<ReadReplyView<P>>, chunks: Seq<Seq<u8>>) -> bool
    decreases replies.len(),
{
    replies.len() > 0 ==> {
        let at = chunks_read(replies.drop_last());
        &&& lengths_are_true(replies.drop_last(), chunks)
        &&& match (loop_step(replies.drop_last()), replies.last()) {
            (ReadStep::Read, ReadReplyView::Read(Ok(len))) => len > 0 ==> at < chunks.len()
                && chunks[at as int].len() == len,
            _ => true,
        }
    }
}

/// The bytes that the decoder has been handed after `replies`: of each chunk, as many as
/// the loop asked for.
pub open spec fn handed_on<P>(replies: Seq<ReadReplyView<P>>, chunks: Seq<Seq<u8>>) -> Seq<u8>
    decreases replies.len(),
{
    if replies.len() == 0 {
        seq![]
    } else {
        let before = handed_on(replies.drop_last(), chunks);
        match (loop_step(replies.drop_last()), replies.last()) {
            (ReadStep::Feed { len }, ReadReplyView::Fed) => before + chunks[chunks_read(
                replies.drop_last(),
            ) - 1].take(len as int),
            _ => before,
        }
    }
}

/// Whatever comes in, malformed frames and failures too: no byte is lost between reading
/// and decoding. While a chunk is to be handed on, all before it has been, and the request
/// is for all of it; at any other time everything that was read has been handed on.
pub proof fn every_byte_is_handed_on<P>(replies: Seq<ReadReplyView<P>>, chunks: Seq<Seq<u8>>)
    requires
        lengths_are_true(replies, chunks),
    ensures
        chunks_read(replies) <= chunks.len(),
        match loop_step(replies) {
            ReadStep::Feed { len } => {
                &&& chunks_read(replies) > 0
                &&& len == chunks[chunks_read(replies) - 1].len()
                &&& handed_on(replies, chunks) == bytes_of(
                    chunks.take(chunks_read(replies) - 1),
                )
            },
            _ => handed_on(replies, chunks) == bytes_of(chunks.take(chunks_read(replies) as int)),
        },
    decreases replies.len(),
{
    if replies.len() == 0 {
        assert(chunks.take(0) =~= Seq::<Seq<u8>>::empty());
    } else {
        let front = replies.drop_last();
        every_byte_is_handed_on(front, chunks);
        let count = chunks_read(front) as int;
        match (loop_step(front), replies.last()) {
            (ReadStep::Feed { len }, ReadReplyView::Fed) => {
                let chunk = chunks[count - 1];
                assert(chunk.take(len as int) =~= chunk);
                assert(chunks.take(count).drop_last() =~= chunks.take(count - 1));
                assert(chunks.take(count).last() == chunk);
            },
            _ => {},
        }
    }
}

/// The replies of a decoder that gives `packets`.
pub open spec fn frame_replies<P>(packets: Seq<P>) -> Seq<ReadReplyView<P>> {
    packets.map_values(|packet: P| ReadReplyView::Frame(Ok(Some(packet))))
}

/// A run in which `chunks` are read: the replies to the read loop, and the bytes that the
/// decoder was handed. It is handed as many bytes of each chunk as the loop asks for, and
/// `decode` says which packets the bytes that it was handed complete.
pub open spec fn stream_run<P>(
    decode: spec_fn(Seq<u8>) -> Seq<P>,
    chunks: Seq<Seq<u8>>,
) -> (Seq<ReadReplyView<P>>, Seq<u8>)
    decreases chunks.len(),
{
    if chunks.len() == 0 {
        (seq![], seq![])
    } else {
        let (before, handed) = stream_run(decode, chunks.drop_last());
        let read = before.push(ReadReplyView::Read(Ok(chunks.last().len() as usize)));
        match loop_step(read) {
            ReadStep::Feed { len } => {
                let now = handed + chunks.last().take(len as int);
                let added = decode(now).skip(decode(handed).len() as int);
                (
                    read.push(ReadReplyView::Fed) + frame_replies(added).push(
                        ReadReplyView::Frame(Ok(None)),
                    ),
                    now,
                )
            },
            _ => (read, handed),
        }
    }
}

/// The replies to the read loop when `chunks` are read and `decode` says which packets
/// the bytes that the decoder is handed complete.
pub open spec fn stream_replies<P>(
    decode: spec_fn(Seq<u8>) -> Seq<P>,
    chunks: Seq<Seq<u8>>,
) -> Seq<ReadReplyView<P>> {
    stream_run(decode, chunks).0
}

/// The bytes that the decoder has been handed when `chunks` have been read.
pub open spec fn stream_handed<P>(
    decode: spec_fn(Seq<u8>) -> Seq<P>,
    chunks: Seq<Seq<u8>>,
) -> Seq<u8> {
    stream_run(decode, chunks).1
}

proof fn frames_are_taken_in<P>(replies: Seq<ReadReplyView<P>>, packets: Seq<P>)
    requires
        loop_step(replies) == ReadStep::NextFrame,
        loop_decode_failure(replies) is None,
    ensures
        loop_step(replies + frame_replies(packets)) == ReadStep::NextFrame,
        loop_packets(replies + frame_replies(packets)) == loop_packets(replies) + packets,
        loop_decode_failure(replies + frame_replies(packets)) is None,
    decreases packets.len(),
{
    let whole = replies + frame_replies(packets);
    if packets.len() == 0 {
        assert(whole =~= replies);
        assert(loop_packets(replies) + packets =~= loop_packets(replies));
    } else {
        frames_are_taken_in(replies, packets.drop_last());
        assert(whole.drop_last() =~= replies + frame_replies(packets.drop_last()));
        assert(loop_packets(whole) =~= loop_packets(replies) + packets);
    }
}

proof fn stream_is_taken_in<P>(decode: spec_fn(Seq<u8>) -> Seq<P>, chunks: Seq<Seq<u8>>)
    requires
        is_frame_decoding(decode),
        can_be_read(chunks),
    ensures
        stream_handed(decode, chunks) == bytes_of(chunks),
        loop_step(stream_replies(decode, chunks)) == ReadStep::Read,
        loop_packets(stream_replies(decode, chunks)) == decode(bytes_of(chunks)),
        loop_decode_failure(stream_replies(decode, chunks)) is None,
    decreases chunks.len(),
{
    if chunks.len() > 0 {
        let front = chunks.drop_last();
        assert forall|i: int| 0 <= i < front.len() implies 0 < (#[trigger] front[i]).len()
            <= READ_CHUNK_BYTES by {
            assert(front[i] == chunks[i]);
        }
        stream_is_taken_in(decode, front);
        let before = stream_replies(decode, front);
        let read = before.push(ReadReplyView::Read(Ok(chunks.last().len() as usize)));
        let fed = read.push(ReadReplyView::Fed);
        assert(chunks.last() == chunks[chunks.len() - 1]);
        assert(read.drop_last() =~= before);
        assert(fed.drop_last() =~= read);
        assert(loop_step(read) == (ReadStep::Feed { len: chunks.last().len() as usize }));
        assert(chunks.last().take(chunks.last().len() as int) =~= chunks.last());
        assert(stream_handed(decode, chunks) == bytes_of(chunks));
        assert(loop_decode_failure(read) is None && loop_packets(read) == loop_packets(before));
        assert(loop_decode_failure(fed) is None && loop_packets(fed) == loop_packets(before));
        let known = decode(bytes_of(front));
        let now = decode(bytes_of(chunks));
        assert(known.is_prefix_of(now));
        let added = now.skip(known.len() as int);
        assert(known + added =~= now);
        frames_are_taken_in(fed, added);
        let whole = stream_replies(decode, chunks);
        assert(whole.drop_last() =~= fed + frame_replies(added));
    }
}

/// The decoder is handed exactly the bytes that were read, in order, however they are cut
/// into reads.
pub proof fn stream_is_handed_on_whole<P>(
    decode: spec_fn(Seq<u8>) -> Seq<P>,
    chunks: Seq<Seq<u8>>,
)
    requires
        is_frame_decoding(decode),
        can_be_read(chunks),
    ensures
        stream_handed(decode, chunks) == bytes_of(chunks),
{
    stream_is_taken_in(decode, chunks);
}

/// A stream of well-formed frames is reported as its packets, in order, and nothing
/// else; and once it has ended, as its packets and one disconnect.
pub proof fn stream_is_reported<P>(
    peer: Seq<char>,
    decode: spec_fn(Seq<u8>) -> Seq<P>,
    chunks: Seq<Seq<u8>>,
)
    requires
        is_frame_decoding(decode),
        can_be_read(chunks),
    ensures
        loop_events(peer, stream_replies(decode, chunks)) == packet_events(
            peer,
            decode(bytes_of(chunks)),
        ),
        loop_events(peer, stream_replies(decode, chunks).push(ReadReplyView::Read(Ok(0))))
            == packet_events(peer, decode(bytes_of(chunks))).push(
            HostEventView::Disconnected(peer),
        ),
{
    let replies = stream_replies(decode, chunks);
    stream_is_taken_in(decode, chunks);
    loop_events_exact(peer, replies);
    let packets = packet_events(peer, decode(bytes_of(chunks)));
    assert(loop_events(peer, replies) =~= packets);
    let ended = replies.push(ReadReplyView::Read(Ok(0)));
    assert(ended.drop_last() =~= replies);
    assert(loop_events(peer, ended) =~= packets.push(HostEventView::Disconnected(peer)));
}

/// How the bytes of a stream of well-formed frames are cut into reads makes no
/// difference to what is reported.
pub proof fn cutting_makes_no_difference<P>(
    peer: Seq<char>,
    decode: spec_fn(Seq<u8>) -> Seq<P>,
    one: Seq<Seq<u8>>,
    other: Seq<Seq<u8>>,
)
    requires
        is_frame_decoding(decode),
        can_be_read(one),
        can_be_read(other),
        bytes_of(one) == bytes_of(other),
    ensures
        loop_events(peer, stream_replies(decode, one).push(ReadReplyView::Read(Ok(0))))
            == loop_events(peer, stream_replies(decode, other).push(ReadReplyView::Read(Ok(0)))),
{
    stream_is_reported(peer, decode, one);
    stream_is_reported(peer, decode, other);
}

/// What sending `packets` writes, where they are encoded as `frames`.
pub open spec fn sent_chunks<P>(packets: Seq<P>, frames: Seq<Seq<char>>) -> Seq<Seq<u8>> {
    Seq::new(
        packets.len(),
        |i: int|
            SendStepView::Encode { packet: packets[i] }.next(
                SendReplyView::Frame(Ok(frames[i])),
            )->bytes,
    )
}

/// Packets that were sent one after the other are reported at the other end in that
/// order, each once, however the stream is cut into reads, if the frames that they were
/// encoded as decode to them. Once the sender has closed the stream, one disconnect is
/// reported after them, and the read loop has ended.
pub proof fn sent_packets_are_received<P>(
    peer: Seq<char>,
    decode: spec_fn(Seq<u8>) -> Seq<P>,
    packets: Seq<P>,
    frames: Seq<Seq<char>>,
    chunks: Seq<Seq<u8>>,
)
    requires
        is_frame_decoding(decode),
        frames.len() == packets.len(),
        decode(bytes_of(frames.map_values(|frame: Seq<char>| encode_utf8(frame)))) == packets,
        can_be_read(chunks),
        bytes_of(chunks) == bytes_of(sent_chunks(packets, frames)),
    ensures
        loop_events(peer, stream_replies(decode, chunks)) == packet_events(peer, packets),
        loop_events(peer, stream_replies(decode, chunks).push(ReadReplyView::Read(Ok(0))))
            == packet_events(peer, packets).push(HostEventView::Disconnected(peer)),
        loop_step(stream_replies(decode, chunks).push(ReadReplyView::Read(Ok(0))))
            == ReadStep::Stopped,
{
    stream_is_taken_in(decode, chunks);
    assert(stream_replies(decode, chunks).push(ReadReplyView::Read(Ok(0))).drop_last()
        =~= stream_replies(decode, chunks));
    assert(sent_chunks(packets, frames) =~= frames.map_values(
        |frame: Seq<char>| encode_utf8(frame),
    ));
    stream_is_reported(peer, decode, chunks);
}

/// Where sending `packet` ends for the outcomes of encoding, writing and flushing.
pub open spec fn send_outcome<P>(
    packet: P,
    frame: Result<Seq<char>, Seq<char>>,
    written: Result<(), Seq<char>>,
    flushed: Result<(), Seq<char>>,
) -> SendStepView<P> {
    SendStepView::Encode { packet }.next(SendReplyView::Frame(frame)).next(
        SendReplyView::Done(written),
    ).next(SendReplyView::Done(flushed))
}

/// A packet is sent exactly if it was encoded, written and flushed. The first
/// failure is the one reported, and names what failed.
pub proof fn send_reports_first_failure<P>(
    packet: P,
    frame: Result<Seq<char>, Seq<char>>,
    written: Result<(), Seq<char>>,
    flushed: Result<(), Seq<char>>,
)
    ensures
        send_outcome(packet, frame, written, flushed) == match (frame, written, flushed) {
            (Err(text), _, _) => SendStepView::<P>::Failed {
                error: HostErrorView::Transport("encode: "@ + text),
            },
            (Ok(_), Err(text), _) => SendStepView::<P>::Failed {
                error: HostErrorView::Transport("write: "@ + text),
            },
            (Ok(_), Ok(()), Err(text)) => SendStepView::<P>::Failed {
                error: HostErrorView::Transport("flush: "@ + text),
            },
            (Ok(_), Ok(()), Ok(())) => SendStepView::<P>::Sent,
        },
{
}

/// All bytes of a chunk are to be handed to the decoder, and nothing is reported yet.
pub proof fn chunk_is_handed_on_whole<P>(link: LanConnection, len: usize, turn: ReadTurn<P>)
    requires
        len > 0,
        call_ensures(
            LanConnection::read_loop::<P>,
            (&link, ReadStep::Read, ReadReply::Read(Ok(len))),
            turn,
        ),
    ensures
        turn.step == (ReadStep::Feed { len }),
        turn.events@.len() == 0,
{
    assert(event_views(turn.events@).len() == 0);
}

/// Once the decoder has the bytes, it is asked for a frame.
pub proof fn frames_are_asked_for<P>(link: LanConnection, len: usize, turn: ReadTurn<P>)
    requires
        call_ensures(
            LanConnection::read_loop::<P>,
            (&link, ReadStep::Feed { len }, ReadReply::Fed),
            turn,
        ),
    ensures
        turn.step == ReadStep::NextFrame,
        turn.events@.len() == 0,
{
    assert(event_views(turn.events@).len() == 0);
}

/// A packet that the decoder gives is reported, as it is and with the peer of the link,
/// and the decoder is asked for the next.
pub proof fn packet_is_reported<P>(
    peer: PeerId,
    link: LanConnection,
    packet: P,
    turn: ReadTurn<P>,
)
    requires
        call_ensures(LanConnection::new, (peer,), link),
        call_ensures(
            LanConnection::read_loop::<P>,
            (&link, ReadStep::NextFrame, ReadReply::Frame(Ok(Some(packet)))),
            turn,
        ),
    ensures
        turn.step == ReadStep::NextFrame,
        turn.events@.len() == 1,
        turn.events@[0] matches HostEvent::Packet { peer: named, packet: reported } && named@
            == peer@ && reported == packet,
{
    assert(event_views(turn.events@).len() == 1);
    assert(event_views(turn.events@)[0] == turn.events@[0]@);
}

/// Once the decoder has no more frames, the next chunk is read.
pub proof fn reading_goes_on<P>(link: LanConnection, turn: ReadTurn<P>)
    requires
        call_ensures(
            LanConnection::read_loop::<P>,
            (&link, ReadStep::NextFrame, ReadReply::Frame(Ok(None))),
            turn,
        ),
    ensures
        turn.step == ReadStep::Read,
        turn.events@.len() == 0,
{
    assert(event_views(turn.events@).len() == 0);
}

/// A frame that cannot be decoded is reported with the decoder's message, and then the
/// peer of the link as gone, and the loop ends.
pub proof fn malformed_frame_is_reported<P>(
    peer: PeerId,
    link: LanConnection,
    text: String,
    turn: ReadTurn<P>,
)
    requires
        call_ensures(LanConnection::new, (peer,), link),
        call_ensures(
            LanConnection::read_loop::<P>,
            (&link, ReadStep::NextFrame, ReadReply::Frame(Err(text))),
            turn,
        ),
    ensures
        turn.step == ReadStep::Stopped,
        turn.events@.len() == 2,
        turn.events@[0] matches HostEvent::TransportError(told) && told@ == "frame decode: "@
            + text@,
        turn.events@[1] matches HostEvent::Disconnected(named) && named@ == peer@,
{
    assert(event_views(turn.events@).len() == 2);
    assert(event_views(turn.events@)[0] == turn.events@[0]@);
    assert(event_views(turn.events@)[1] == turn.events@[1]@);
}

/// At the end of the stream, and where reading fails, the peer of the link is reported as
/// gone and the loop ends.
pub proof fn stream_end_is_reported<P>(
    peer: PeerId,
    link: LanConnection,
    read: Result<usize, String>,
    turn: ReadTurn<P>,
)
    requires
        read matches Ok(len) ==> len == 0,
        call_ensures(LanConnection::new, (peer,), link),
        call_ensures(
            LanConnection::read_loop::<P>,
            (&link, ReadStep::Read, ReadReply::Read(read)),
            turn,
        ),
    ensures
        turn.step == ReadStep::Stopped,
        turn.events@.len() == 1,
        turn.events@[0] matches HostEvent::Disconnected(named) && named@ == peer@,
{
    assert(event_views(turn.events@).len() == 1);
    assert(event_views(turn.events@)[0] == turn.events@[0]@);
}

/// A reply that does not answer the request of the step, and any reply once the loop has
/// ended, changes nothing and is not reported.
pub proof fn unasked_reply_is_ignored<P>(
    link: LanConnection,
    step: ReadStep,
    reply: ReadReply<P>,
    turn: ReadTurn<P>,
)
    requires
        match step {
            ReadStep::Read => !(reply is Read),
            ReadStep::Feed { .. } => !(reply is Fed),
            ReadStep::NextFrame => !(reply is Frame),
            ReadStep::Stopped => true,
        },
        call_ensures(LanConnection::read_loop::<P>, (&link, step, reply), turn),
    ensures
        turn.step == step,
        turn.events@.len() == 0,
{
    assert(event_views(turn.events@).len() == 0);
}

/// A link names the peer that it was made for.
pub proof fn link_names_its_peer(peer: PeerId, link: LanConnection, named: &PeerId)
    requires
        call_ensures(LanConnection::new, (peer,), link),
        call_ensures(LanConnection::peer, (&link,), named),
    ensures
        named@ == peer@,
{
}

/// A read gives up to eight kibibytes, and at least one byte before the end of the stream.
pub proof fn chunks_are_bounded(chunk: Seq<u8>)
    ensures
        can_be_read(seq![chunk]) <==> 0 < chunk.len() <= 8 * 1024,
{
    assert(seq![chunk][0] == chunk);
}

} // verus!
