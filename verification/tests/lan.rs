use mde_kdc_host::lan::{ReadReply, ReadStep, SendReply, SendStep, READ_CHUNK_BYTES};
use mde_kdc_host::{HostError, HostEvent, LanConnection, PeerId};

/// Plays `replies` to the read loop and returns what it reports and where it stands.
fn play(peer: &str, replies: Vec<ReadReply<u32>>) -> (Vec<HostEvent<u32>>, ReadStep) {
    let link = LanConnection::new(PeerId::from(peer));
    let mut step = ReadStep::Read;
    let mut events = Vec::new();
    for reply in replies {
        let turn = link.read_loop(step, reply);
        events.extend(turn.events);
        step = turn.step;
    }
    (events, step)
}

fn is_packet(event: &HostEvent<u32>, from: &str, number: u32) -> bool {
    matches!(event, HostEvent::Packet { peer, packet } if peer.as_str() == from && *packet == number)
}

fn is_disconnected(event: &HostEvent<u32>, from: &str) -> bool {
    matches!(event, HostEvent::Disconnected(peer) if peer.as_str() == from)
}

#[test]
fn read_loop_emits_disconnected_on_eof() {
    let (events, step) = play("peer", vec![ReadReply::Read(Ok(0))]);
    assert_eq!(events.len(), 1);
    assert!(matches!(&events[0], HostEvent::Disconnected(p) if p.as_str() == "peer"));
    assert_eq!(step, ReadStep::Stopped);
}

#[test]
fn read_loop_emits_disconnected_on_error() {
    let (events, step) = play("peer", vec![ReadReply::Read(Err("reset".into()))]);
    assert_eq!(events.len(), 1);
    assert!(is_disconnected(&events[0], "peer"));
    assert_eq!(step, ReadStep::Stopped);
}

#[test]
fn read_loop_drains_every_frame_before_it_reads_on() {
    let link = LanConnection::new(PeerId::from("client"));
    assert_eq!(link.peer().as_str(), "client");
    let fed = link.read_loop::<u32>(ReadStep::Read, ReadReply::Read(Ok(40)));
    assert_eq!(fed.step, ReadStep::Feed { len: 40 });
    let (events, step) = play(
        "client",
        vec![
            ReadReply::Read(Ok(READ_CHUNK_BYTES)),
            ReadReply::Fed,
            ReadReply::Frame(Ok(Some(777))),
            ReadReply::Frame(Ok(Some(778))),
            ReadReply::Frame(Ok(None)),
        ],
    );
    assert_eq!(step, ReadStep::Read);
    assert_eq!(events.len(), 2);
    assert!(is_packet(&events[0], "client", 777));
    assert!(is_packet(&events[1], "client", 778));
}

#[test]
fn closed_stream_reports_every_packet_and_then_one_disconnect() {
    let (events, step) = play(
        "client",
        vec![
            ReadReply::Read(Ok(2)),
            ReadReply::Fed,
            ReadReply::Frame(Ok(None)),
            ReadReply::Read(Ok(9)),
            ReadReply::Fed,
            ReadReply::Frame(Ok(Some(1))),
            ReadReply::Frame(Ok(Some(2))),
            ReadReply::Frame(Ok(None)),
            ReadReply::Read(Ok(0)),
            // Nothing is reported once the stream has ended.
            ReadReply::Read(Ok(5)),
            ReadReply::Frame(Ok(Some(3))),
        ],
    );
    assert_eq!(step, ReadStep::Stopped);
    assert_eq!(events.len(), 3);
    assert!(is_packet(&events[0], "client", 1));
    assert!(is_packet(&events[1], "client", 2));
    assert!(is_disconnected(&events[2], "client"));
}

#[test]
fn malformed_frame_tears_the_link_down() {
    let (events, step) = play(
        "client",
        vec![
            ReadReply::Read(Ok(3)),
            ReadReply::Fed,
            ReadReply::Frame(Ok(Some(1))),
            ReadReply::Frame(Err("bad json".into())),
            // Nothing is reported once the loop has ended.
            ReadReply::Frame(Ok(Some(2))),
            ReadReply::Read(Ok(0)),
        ],
    );
    assert_eq!(step, ReadStep::Stopped);
    assert_eq!(events.len(), 3);
    assert!(is_packet(&events[0], "client", 1));
    assert!(matches!(&events[1], HostEvent::TransportError(t) if t == "frame decode: bad json"));
    assert!(is_disconnected(&events[2], "client"));
}

#[test]
fn send_encodes_writes_and_flushes() {
    let link = LanConnection::new(PeerId::from("server"));
    let step = link.send(777u32);
    assert!(matches!(step, SendStep::Encode { packet: 777 }));
    let step = step.next(SendReply::Frame(Ok("é\n".into())));
    assert!(matches!(&step, SendStep::Write { bytes } if bytes == &[0xc3, 0xa9, 0x0a]));
    let step = step.next(SendReply::Done(Ok(())));
    assert!(matches!(step, SendStep::Flush));
    assert!(matches!(step.next(SendReply::Done(Ok(()))), SendStep::Sent));
}

#[test]
fn send_reports_each_failure() {
    let encode = || SendStep::Encode { packet: 1u32 };
    let write = || encode().next(SendReply::Frame(Ok("x".into())));
    let flush = || write().next(SendReply::Done(Ok(())));
    let message = |step: SendStep<u32>| match step {
        SendStep::Failed { error: HostError::Transport(text) } => text,
        _ => panic!("expected a transport error"),
    };
    assert_eq!(message(encode().next(SendReply::Frame(Err("a".into())))), "encode: a");
    assert_eq!(message(write().next(SendReply::Done(Err("b".into())))), "write: b");
    assert_eq!(message(flush().next(SendReply::Done(Err("c".into())))), "flush: c");
}

#[test]
fn cutting_the_stream_makes_no_difference() {
    let whole = play(
        "client",
        vec![
            ReadReply::Read(Ok(20)),
            ReadReply::Fed,
            ReadReply::Frame(Ok(Some(1))),
            ReadReply::Frame(Ok(Some(2))),
            ReadReply::Frame(Ok(None)),
            ReadReply::Read(Ok(0)),
        ],
    );
    let cut = play(
        "client",
        vec![
            ReadReply::Read(Ok(5)),
            ReadReply::Fed,
            ReadReply::Frame(Ok(None)),
            ReadReply::Read(Ok(6)),
            ReadReply::Fed,
            ReadReply::Frame(Ok(Some(1))),
            ReadReply::Frame(Ok(None)),
            ReadReply::Read(Ok(9)),
            ReadReply::Fed,
            ReadReply::Frame(Ok(Some(2))),
            ReadReply::Frame(Ok(None)),
            ReadReply::Read(Ok(0)),
        ],
    );
    for (events, step) in [whole, cut] {
        assert_eq!(step, ReadStep::Stopped);
        assert_eq!(events.len(), 3);
        assert!(is_packet(&events[0], "client", 1));
        assert!(is_packet(&events[1], "client", 2));
        assert!(is_disconnected(&events[2], "client"));
    }
}
