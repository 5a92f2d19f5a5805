//! What holds of sending a packet, over the calls that it takes and over whole runs.
use vstd::prelude::*;
#[allow(unused_imports)]
use vstd::utf8::encode_utf8;

#[allow(unused_imports)]
use crate::error::{HostError, HostErrorView};
#[allow(unused_imports)]
use crate::lan::{LanConnection, SendReply, SendReplyView, SendStep, SendStepView};

verus! {

/// `reply` answers the request of `step`.
pub open spec fn answers<P>(step: SendStepView<P>, reply: SendReplyView) -> bool {
    match step {
        SendStepView::Encode { .. } => reply is Frame,
        SendStepView::Write { .. } => reply is Done,
        SendStepView::Flush => reply is Done,
        SendStepView::Sent => false,
        SendStepView::Failed { .. } => false,
    }
}

/// Where sending `packet` stands after `replies`.
pub open spec fn send_after<P>(packet: P, replies: Seq<SendReplyView>) -> SendStepView<P>
    decreases replies.len(),
{
    if replies.len() == 0 {
        SendStepView::Encode { packet }
    } else {
        send_after(packet, replies.drop_last()).next(replies.last())
    }
}

/// The requests that have been answered after `replies`, in order.
pub open spec fn send_requests<P>(packet: P, replies: Seq<SendReplyView>) -> Seq<SendStepView<P>>
    decreases replies.len(),
{
    if replies.len() == 0 {
        seq![]
    } else {
        let before = send_requests(packet, replies.drop_last());
        let step = send_after(packet, replies.drop_last());
        if answers(step, replies.last()) {
            before.push(step)
        } else {
            before
        }
    }
}

/// The first outcome of encoding among `replies`, if there is one.
pub open spec fn encoded_as(replies: Seq<SendReplyView>) -> Option<Result<Seq<char>, Seq<char>>>
    decreases replies.len(),
{
    if replies.len() == 0 {
        None
    } else {
        match (encoded_as(replies.drop_last()), replies.last()) {
            (None, SendReplyView::Frame(frame)) => Some(frame),
            (known, _) => known,
        }
    }
}

/// Whatever is replied, a packet is sent only by three requests in this order: to encode
/// the packet, to write all bytes of the frame it was encoded as, and to flush the link.
/// No step is left out, repeated or asked for with anything else.
pub proof fn requests_are_in_order<P>(packet: P, replies: Seq<SendReplyView>)
    ensures
        ({
            let asked = send_requests(packet, replies);
            let frame = encoded_as(replies)->0->Ok_0;
            let encode = SendStepView::Encode { packet };
            let write = SendStepView::<P>::Write { bytes: encode_utf8(frame) };
            match send_after(packet, replies) {
                SendStepView::Encode { packet: p } => p == packet && asked == Seq::<
                    SendStepView<P>,
                >::empty() && encoded_as(replies) is None,
                SendStepView::Write { bytes } => bytes == encode_utf8(frame) && asked == seq![
                    encode,
                ] && encoded_as(replies) matches Some(Ok(_)),
                SendStepView::Flush => asked == seq![encode, write] && encoded_as(
                    replies,
                ) matches Some(Ok(_)),
                SendStepView::Sent => asked == seq![encode, write, SendStepView::Flush]
                    && encoded_as(replies) matches Some(Ok(_)),
                SendStepView::Failed { .. } => match encoded_as(replies) {
                    None => false,
                    Some(Err(_)) => asked == seq![encode],
                    Some(Ok(_)) => asked == seq![encode, write] || asked == seq![
                        encode,
                        write,
                        SendStepView::Flush,
                    ],
                },
            }
        }),
    decreases replies.len(),
{
    if replies.len() > 0 {
        let front = replies.drop_last();
        requests_are_in_order(packet, front);
        let asked = send_requests(packet, replies);
        let encode = SendStepView::Encode { packet };
        let write = SendStepView::<P>::Write { bytes: encode_utf8(encoded_as(replies)->0->Ok_0) };
        let step = send_after(packet, front);
        if answers(step, replies.last()) {
            match step {
                SendStepView::Encode { .. } => {
                    assert(asked =~= seq![encode]);
                },
                SendStepView::Write { .. } => {
                    assert(asked =~= seq![encode, write]);
                },
                SendStepView::Flush => {
                    assert(asked =~= seq![encode, write, SendStepView::Flush]);
                },
                _ => {},
            }
        } else {
            assert(asked == send_requests(packet, front));
        }
    }
}

/// Once a packet is sent, or could not be, nothing that comes in changes that.
pub proof fn end_of_sending_is_final<P>(
    packet: P,
    replies: Seq<SendReplyView>,
    more: Seq<SendReplyView>,
)
    requires
        send_after(packet, replies) is Sent || send_after(packet, replies) is Failed,
    ensures
        send_after(packet, replies + more) == send_after(packet, replies),
        send_requests(packet, replies + more) == send_requests(packet, replies),
    decreases more.len(),
{
    if more.len() == 0 {
        assert(replies + more =~= replies);
    } else {
        end_of_sending_is_final(packet, replies, more.drop_last());
        assert((replies + more).drop_last() =~= replies + more.drop_last());
    }
}

/// Sending begins with a request to encode the packet.
pub proof fn sending_begins_with_encoding<P>(link: LanConnection, packet: P, step: SendStep<P>)
    requires
        call_ensures(LanConnection::send::<P>, (&link, packet), step),
    ensures
        step matches SendStep::Encode { packet: asked } && asked == packet,
{
}

/// All bytes of the frame are to be written.
pub proof fn frame_is_written_whole<P>(packet: P, frame: String, step: SendStep<P>)
    requires
        call_ensures(
            SendStep::<P>::next,
            (SendStep::Encode { packet }, SendReply::Frame(Ok(frame))),
            step,
        ),
    ensures
        step matches SendStep::Write { bytes } && bytes@ == encode_utf8(frame@),
{
}

/// Whatever was written, the link is to be flushed next.
pub proof fn write_is_flushed<P>(bytes: Vec<u8>, step: SendStep<P>)
    requires
        call_ensures(
            SendStep::<P>::next,
            (SendStep::Write { bytes }, SendReply::Done(Ok(()))),
            step,
        ),
    ensures
        step is Flush,
{
}

/// Once the link is flushed, the packet is sent.
pub proof fn flush_ends_the_sending<P>(step: SendStep<P>)
    requires
        call_ensures(
            SendStep::<P>::next,
            (SendStep::Flush, SendReply::Done(Ok(()))),
            step,
        ),
    ensures
        step is Sent,
{
}

/// A packet that cannot be encoded is not sent, and the error says so, with the message.
pub proof fn encoding_failure_is_returned<P>(packet: P, text: String, step: SendStep<P>)
    requires
        call_ensures(
            SendStep::<P>::next,
            (SendStep::Encode { packet }, SendReply::Frame(Err(text))),
            step,
        ),
    ensures
        step matches SendStep::Failed { error: HostError::Transport(told) } && told@ == "encode: "@
            + text@,
{
}

/// A frame that cannot be written is not sent, and the error says so, with the message.
pub proof fn write_failure_is_returned<P>(bytes: Vec<u8>, text: String, step: SendStep<P>)
    requires
        call_ensures(
            SendStep::<P>::next,
            (SendStep::Write { bytes }, SendReply::Done(Err(text))),
            step,
        ),
    ensures
        step matches SendStep::Failed { error: HostError::Transport(told) } && told@ == "write: "@
            + text@,
{
}

/// A frame that cannot be flushed is not sent, and the error says so, with the message.
pub proof fn flush_failure_is_returned<P>(text: String, step: SendStep<P>)
    requires
        call_ensures(
            SendStep::<P>::next,
            (SendStep::Flush, SendReply::Done(Err(text))),
            step,
        ),
    ensures
        step matches SendStep::Failed { error: HostError::Transport(told) } && told@ == "flush: "@
            + text@,
{
}

/// A reply that does not answer the request of the step, and any reply at the end, changes
/// nothing.
pub proof fn unasked_reply_changes_nothing<P>(
    step: SendStep<P>,
    reply: SendReply,
    after: SendStep<P>,
)
    requires
        match step {
            SendStep::Encode { .. } => reply is Done,
            SendStep::Write { .. } => reply is Frame,
            SendStep::Flush => reply is Frame,
            SendStep::Sent => true,
            SendStep::Failed { .. } => true,
        },
        call_ensures(SendStep::<P>::next, (step, reply), after),
    ensures
        match step {
            SendStep::Encode { packet } => after matches SendStep::Encode { packet: same } && same
                == packet,
            SendStep::Write { bytes } => after matches SendStep::Write { bytes: same } && same@
                == bytes@,
            SendStep::Flush => after is Flush,
            SendStep::Sent => after is Sent,
            SendStep::Failed { error } => after matches SendStep::Failed { error: same } && same@
                == error@,
        },
{
}

} // verus!
