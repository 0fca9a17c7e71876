use fuse_session::create_reply_channel;
use fuse_session::error::Errno;
use fuse_session::messages::reply::{Operation as ReplyOperation, Read, Reply};
use fuse_session::messages::request::Operation;
use fuse_session::session::{new_buffer, Action, Event, Inner, Phase, Sources};
use fuse_session::SIZE_BUFFER;
use tokio_util::sync::CancellationToken;

fn inner() -> Inner {
    let (reply_tx, _reply_rx) = create_reply_channel();
    Inner::new(reply_tx, CancellationToken::new())
}

fn frame(opcode: u32, unique: u64, body: &[u8]) -> Vec<u8> {
    let mut f = Vec::new();
    f.extend(((40 + body.len()) as u32).to_le_bytes());
    f.extend(opcode.to_le_bytes());
    f.extend(unique.to_le_bytes());
    f.extend([0u8; 24]);
    f.extend(body);
    f
}

fn load(buffer: &mut [u8], frame: &[u8]) -> usize {
    buffer[..frame.len()].copy_from_slice(frame);
    frame.len()
}

#[test]
fn requests_get_a_sender_of_the_reply_channel() {
    let (reply_tx, mut reply_rx) = create_reply_channel();
    let mut inner = Inner::new(reply_tx.clone(), CancellationToken::new());
    assert!(inner.inbound_fs_reply_tx().same_channel(&reply_tx));
    let mut buffer = vec![0u8; 64];
    let n = load(&mut buffer, &frame(17, 8, b""));
    match inner.on_read(&mut buffer, Ok(n)) {
        Action::Forward(request) => {
            request.reply_to.try_send(request.ok_reply()).expect("send");
        }
        _ => panic!("not forwarded"),
    }
    assert_eq!(reply_rx.try_recv().expect("reply").header.unique, 8);
}

#[test]
fn buffer_has_the_size_of_the_largest_frame() {
    assert_eq!(SIZE_BUFFER, 16 * 1024 * 1024);
    let buffer = new_buffer();
    assert_eq!(buffer.len(), SIZE_BUFFER);
    assert!(buffer.iter().all(|b| *b == 0));
}

#[test]
fn enodev_on_read_drains_the_session() {
    let (reply_tx, _reply_rx) = create_reply_channel();
    let token = CancellationToken::new();
    let mut inner = Inner::new(reply_tx, token.clone());
    let mut buffer = vec![0u8; 64];
    assert_eq!(inner.phase(true), Phase::Running);
    assert_eq!(inner.phase(false), Phase::Running);
    assert!(inner.is_running(false));
    assert!(!token.is_cancelled());

    let action = inner.on_read(&mut buffer, Err(Some(libc::ENODEV)));
    assert!(matches!(action, Action::Continue));
    assert!(inner.is_cancelled());
    // cancellation was requested of every holder of the token
    assert!(token.is_cancelled());
    assert!(inner.cancellation_token().is_cancelled());
    // replies are still under way
    assert_eq!(inner.phase(true), Phase::Draining);
    assert!(inner.is_running(true));
    assert_eq!(inner.sources(), Sources { cancellation: false, replies: true, device: false });
    // a reply that is still under way is written
    let reply = Reply::new(3, 0, None);
    assert!(matches!(inner.on_fs_reply(&mut buffer, Some(reply)), Action::Write(16)));
    assert!(inner.is_cancelled());
    // the channel is closed and empty
    assert_eq!(inner.phase(false), Phase::Terminated);
    assert!(!inner.is_running(false));
}

#[test]
fn transient_read_errors_are_passed_over() {
    for code in [libc::ENOENT, libc::EINTR, libc::EAGAIN] {
        let mut inner = inner();
        let mut buffer = vec![7u8; 64];
        let action = inner.on_read(&mut buffer, Err(Some(code)));
        assert!(matches!(action, Action::Continue));
        assert!(!inner.is_cancelled());
        assert!(!inner.cancellation_token().is_cancelled());
        assert_eq!(buffer, vec![7u8; 64]);
        assert_eq!(inner.sources(), Sources { cancellation: true, replies: true, device: true });
    }
}

#[test]
fn other_read_errors_end_the_session() {
    let mut inner = inner();
    let mut buffer = vec![7u8; 64];
    assert!(matches!(
        inner.on_read(&mut buffer, Err(Some(libc::EBADF))),
        Action::Fail(Errno::EBADF)
    ));
    assert!(matches!(inner.on_read(&mut buffer, Err(Some(libc::EIO))), Action::Fail(Errno::EIO)));
    assert!(matches!(inner.on_read(&mut buffer, Err(Some(100_000))), Action::Fail(Errno::EIO)));
    assert!(matches!(inner.on_read(&mut buffer, Err(Some(0))), Action::Fail(Errno::EIO)));
    assert!(matches!(inner.on_read(&mut buffer, Err(None)), Action::Fail(Errno::EIO)));
    assert!(!inner.is_cancelled());
    assert_eq!(buffer, vec![7u8; 64]);
}

#[test]
fn a_frame_is_forwarded_as_a_request() {
    let mut inner = inner();
    let mut buffer = vec![0u8; 128];
    let n = load(&mut buffer, &frame(1, 42, b"name\0"));
    // what lies behind the frame is not part of it
    buffer[n] = b'x';
    match inner.on_read(&mut buffer, Ok(n)) {
        Action::Forward(request) => {
            assert_eq!(request.header.unique, 42);
            assert_eq!(request.header.opcode, 1);
            match request.operation {
                Operation::Lookup(x) => assert_eq!(x.name, "name"),
                _ => panic!("not lookup"),
            }
        }
        _ => panic!("not forwarded"),
    }
    assert!(!inner.is_cancelled());
}

#[test]
fn a_frame_that_does_not_parse_is_answered_with_eio() {
    let mut inner = inner();
    let mut buffer = vec![0xccu8; 128];
    // a name that does not end
    let n = load(&mut buffer, &frame(1, 0x1122334455667788, b"name"));
    match inner.on_read(&mut buffer, Ok(n)) {
        Action::Write(count) => {
            assert_eq!(count, 16);
            assert_eq!(buffer[0..4], 16u32.to_le_bytes());
            assert_eq!(buffer[4..8], (-libc::EIO).to_le_bytes());
            assert_eq!(buffer[8..16], 0x1122334455667788u64.to_le_bytes());
        }
        _ => panic!("not answered"),
    }
    // an opcode that is not known
    let n = load(&mut buffer, &frame(7, 5, b""));
    match inner.on_read(&mut buffer, Ok(n)) {
        Action::Write(16) => {
            assert_eq!(buffer[4..8], (-5i32).to_le_bytes());
            assert_eq!(buffer[8..16], 5u64.to_le_bytes());
        }
        _ => panic!("not answered"),
    }
}

#[test]
fn an_oversize_write_is_answered_with_eio() {
    let mut inner = inner();
    let mut buffer = vec![0u8; 256];
    let mut body = vec![0u8; 40];
    // the argument announces more data than the buffer could hold
    body[16..20].copy_from_slice(&((256 - 40 - 40 + 1) as u32).to_le_bytes());
    body.extend([1u8; 8]);
    let n = load(&mut buffer, &frame(16, 0xabcdef, &body));
    match inner.on_read(&mut buffer, Ok(n)) {
        Action::Write(16) => {
            assert_eq!(buffer[0..4], 16u32.to_le_bytes());
            assert_eq!(buffer[4..8], (-5i32).to_le_bytes());
            assert_eq!(buffer[8..16], 0xabcdefu64.to_le_bytes());
        }
        _ => panic!("not answered"),
    }
}

#[test]
fn a_frame_without_a_header_is_dropped() {
    let mut inner = inner();
    let mut buffer = vec![0x33u8; 64];
    assert!(matches!(inner.on_read(&mut buffer, Ok(39)), Action::Continue));
    assert!(matches!(inner.on_read(&mut buffer, Ok(0)), Action::Continue));
    assert_eq!(buffer, vec![0x33u8; 64]);
}

#[test]
fn a_read_of_more_than_the_buffer_ends_the_session() {
    let mut inner = inner();
    let mut buffer = vec![0u8; 64];
    assert!(matches!(inner.on_read(&mut buffer, Ok(65)), Action::Fail(Errno::EIO)));
}

#[test]
fn out_of_order_replies_are_written_as_they_come() {
    let mut inner = inner();
    let mut buffer = vec![0u8; 128];
    let mut device: Vec<u8> = Vec::new();

    let n = load(&mut buffer, &frame(15, 1, &[0u8; 40]));
    let a = match inner.on_read(&mut buffer, Ok(n)) {
        Action::Forward(request) => request,
        _ => panic!("not forwarded"),
    };
    let n = load(&mut buffer, &frame(15, 2, &[0u8; 40]));
    let b = match inner.on_read(&mut buffer, Ok(n)) {
        Action::Forward(request) => request,
        _ => panic!("not forwarded"),
    };

    let reply_b = Reply::new(
        b.header.unique,
        0,
        Some(ReplyOperation::Read(Read { data: b"second".to_vec() })),
    );
    let reply_a = a.ok_reply();
    for reply in [reply_b, reply_a] {
        match inner.on_fs_reply(&mut buffer, Some(reply)) {
            Action::Write(count) => {
                device.extend(&buffer[..count]);
                assert!(matches!(inner.on_written(count, Ok(count)), Action::Continue));
            }
            _ => panic!("not written"),
        }
    }
    assert_eq!(device.len(), 22 + 16);
    assert_eq!(device[0..4], 22u32.to_le_bytes());
    assert_eq!(device[8..16], 2u64.to_le_bytes());
    assert_eq!(device[16..22], *b"second");
    assert_eq!(device[22..26], 16u32.to_le_bytes());
    assert_eq!(device[30..38], 1u64.to_le_bytes());
}

#[test]
fn a_reply_that_does_not_fit_is_answered_with_eio() {
    let mut inner = inner();
    let mut buffer = vec![0u8; 32];
    let reply = Reply::new(9, 0, Some(ReplyOperation::Read(Read { data: vec![1u8; 17] })));
    match inner.on_fs_reply(&mut buffer, Some(reply)) {
        Action::Write(16) => {
            assert_eq!(buffer[0..4], 16u32.to_le_bytes());
            assert_eq!(buffer[4..8], (-5i32).to_le_bytes());
            assert_eq!(buffer[8..16], 9u64.to_le_bytes());
            assert_eq!(buffer[16..], [0u8; 16]);
        }
        _ => panic!("not answered"),
    }
    let reply = Reply::new(9, 0, Some(ReplyOperation::Read(Read { data: vec![1u8; 16] })));
    assert!(matches!(inner.on_fs_reply(&mut buffer, Some(reply)), Action::Write(32)));
    assert_eq!(buffer[0..4], 32u32.to_le_bytes());
}

#[test]
fn a_buffer_without_room_for_a_header_ends_the_session() {
    let mut inner = inner();
    let mut buffer = vec![6u8; 15];
    let reply = Reply::new(9, 0, None);
    assert!(matches!(inner.on_fs_reply(&mut buffer, Some(reply)), Action::Fail(Errno::EIO)));
    assert_eq!(buffer, vec![6u8; 15]);
    assert!(matches!(inner.on_read(&mut buffer, Ok(15)), Action::Continue));
    assert!(matches!(inner.on_read(&mut buffer, Ok(16)), Action::Fail(Errno::EIO)));
    let mut empty: Vec<u8> = Vec::new();
    assert!(matches!(inner.on_read(&mut empty, Ok(0)), Action::Continue));
    assert!(matches!(inner.on_read(&mut empty, Err(Some(libc::EINTR))), Action::Continue));
}

#[test]
fn a_closed_reply_channel_ends_the_session() {
    let mut inner = inner();
    let mut buffer = vec![4u8; 32];
    assert!(matches!(inner.on_fs_reply(&mut buffer, None), Action::Fail(Errno::EIO)));
    assert_eq!(buffer, vec![4u8; 32]);
}

#[test]
fn a_short_write_ends_the_session() {
    let inner = inner();
    assert!(matches!(inner.on_written(16, Ok(16)), Action::Continue));
    assert!(matches!(inner.on_written(16, Ok(15)), Action::Fail(Errno::EIO)));
    assert!(matches!(inner.on_written(16, Ok(0)), Action::Fail(Errno::EIO)));
    assert!(matches!(inner.on_written(16, Err(Some(libc::ENODEV))), Action::Fail(Errno::ENODEV)));
    assert!(matches!(inner.on_written(16, Err(None)), Action::Fail(Errno::EIO)));
}

#[test]
fn a_request_that_is_not_taken_ends_the_session() {
    let inner = inner();
    assert!(matches!(inner.on_forwarded(true), Action::Continue));
    assert!(matches!(inner.on_forwarded(false), Action::Fail(Errno::EIO)));
}

#[test]
fn cancel_is_idempotent_and_sticky() {
    let mut inner = inner();
    let mut buffer = vec![0u8; 64];
    assert!(!inner.is_cancelled());
    inner.cancel();
    assert!(inner.is_cancelled());
    assert!(inner.cancellation_token().is_cancelled());
    inner.cancel();
    assert!(inner.is_cancelled());
    assert!(inner.cancellation_token().is_cancelled());
    // nothing that happens afterwards takes it back
    let _ = inner.on_read(&mut buffer, Err(Some(libc::EINTR)));
    assert!(inner.is_cancelled());
    let _ = inner.on_read(&mut buffer, Ok(0));
    assert!(inner.is_cancelled());
    let _ = inner.on_fs_reply(&mut buffer, Some(Reply::new(1, 0, None)));
    assert!(inner.is_cancelled());
    let _ = inner.on_fs_reply(&mut buffer, None);
    assert!(inner.is_cancelled());
    let _ = inner.step(&mut buffer, Event::Cancelled);
    assert!(inner.is_cancelled());
    let _ = inner.step(&mut buffer, Event::Forwarded(true));
    assert!(inner.is_cancelled());
}

#[test]
fn step_goes_by_the_event() {
    let mut inner = inner();
    let mut buffer = vec![0u8; 128];

    let n = load(&mut buffer, &frame(26, 11, &[0u8; 16]));
    assert!(matches!(inner.step(&mut buffer, Event::Read(Ok(n))), Action::Forward(_)));
    assert!(matches!(inner.step(&mut buffer, Event::Forwarded(true)), Action::Continue));
    assert!(matches!(
        inner.step(&mut buffer, Event::Forwarded(false)),
        Action::Fail(Errno::EIO)
    ));
    assert!(matches!(
        inner.step(&mut buffer, Event::Reply(Some(Reply::new(11, 0, None)))),
        Action::Write(16)
    ));
    assert_eq!(buffer[8..16], 11u64.to_le_bytes());
    assert!(matches!(
        inner.step(&mut buffer, Event::Written { count: 16, result: Ok(16) }),
        Action::Continue
    ));
    assert!(matches!(
        inner.step(&mut buffer, Event::Written { count: 16, result: Ok(8) }),
        Action::Fail(Errno::EIO)
    ));
    assert!(matches!(inner.step(&mut buffer, Event::Reply(None)), Action::Fail(Errno::EIO)));
    assert!(matches!(
        inner.step(&mut buffer, Event::Read(Err(Some(libc::EAGAIN)))),
        Action::Continue
    ));
    assert!(!inner.is_cancelled());
    assert!(matches!(inner.step(&mut buffer, Event::Cancelled), Action::Continue));
    assert!(inner.is_cancelled());

    let mut other = self::inner();
    assert!(matches!(
        other.step(&mut buffer, Event::Read(Err(Some(libc::ENODEV)))),
        Action::Continue
    ));
    assert!(other.is_cancelled());
    assert!(other.cancellation_token().is_cancelled());
}
