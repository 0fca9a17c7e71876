use fuse_session::create_reply_channel;
use fuse_session::error::Errno;
use fuse_session::messages::argument::{get_string, get_vec};
use fuse_session::messages::reply::{IWrite, Reply};
use fuse_session::messages::request::{Forget, Operation, ReadLink, Request, Version};

fn frame(opcode: u32, unique: u64, nodeid: u64, body: &[u8]) -> Vec<u8> {
    let mut f = Vec::new();
    f.extend(((40 + body.len()) as u32).to_le_bytes());
    f.extend(opcode.to_le_bytes());
    f.extend(unique.to_le_bytes());
    f.extend(nodeid.to_le_bytes());
    f.extend(1000u32.to_le_bytes());
    f.extend(1001u32.to_le_bytes());
    f.extend(4242u32.to_le_bytes());
    f.extend(0u32.to_le_bytes());
    f.extend(body);
    f
}

fn parse(mut f: Vec<u8>) -> Result<Request, Errno> {
    let (reply_tx, _reply_rx) = create_reply_channel();
    let before = f.clone();
    let r = Request::parse(&mut f, &reply_tx);
    assert_eq!(f, before);
    r
}

fn operation(opcode: u32, body: &[u8]) -> Operation {
    let request = parse(frame(opcode, 77, 5, body)).expect("parse");
    assert_eq!(request.header.opcode, opcode);
    assert_eq!(request.header.unique, 77);
    assert_eq!(request.header.nodeid, 5);
    assert_eq!(request.header.uid, 1000);
    assert_eq!(request.header.gid, 1001);
    assert_eq!(request.header.pid, 4242);
    assert_eq!(request.header.len as usize, 40 + body.len());
    assert_eq!(request.operation.get_opcode(), opcode);
    request.operation
}

fn is_eio(r: Result<Request, Errno>) -> bool {
    matches!(r, Err(Errno::EIO))
}

#[test]
fn mknod_name_is_read() {
    let mut body = Vec::new();
    body.extend(0o644u32.to_le_bytes());
    body.extend(0u32.to_le_bytes());
    body.extend(0o755u32.to_le_bytes());
    body.extend(999u32.to_le_bytes());
    body.extend(b"foo.txt\0");
    match operation(8, &body) {
        Operation::MkNod(x) => {
            assert_eq!(x.arg.mode, 0o644);
            assert_eq!(x.arg.rdev, 0);
            assert_eq!(x.arg.umask, 0o755);
            assert_eq!(x.arg.padding, 999);
            assert_eq!(x.name, "foo.txt");
        }
        _ => panic!("not mknod"),
    }
}

#[test]
fn lookup_reads_the_name_up_to_the_first_nul() {
    match operation(1, b"hello\0world\0") {
        Operation::Lookup(x) => assert_eq!(x.name, "hello"),
        _ => panic!("not lookup"),
    }
    match operation(1, b"\0") {
        Operation::Lookup(x) => assert_eq!(x.name, ""),
        _ => panic!("not lookup"),
    }
}

#[test]
fn name_without_nul_is_refused() {
    assert!(is_eio(parse(frame(1, 1, 1, b"hello"))));
    assert!(is_eio(parse(frame(1, 1, 1, b""))));
    assert!(is_eio(parse(frame(10, 1, 1, b"abc"))));
    assert!(is_eio(parse(frame(6, 1, 1, b"name\0target"))));
}

#[test]
fn name_with_invalid_utf8_is_read_lossily() {
    match operation(10, &[b'a', 0xff, b'b', 0]) {
        Operation::Unlink(x) => assert_eq!(x.name, "a\u{fffd}b"),
        _ => panic!("not unlink"),
    }
    match operation(11, &[0xe2, 0x82, 0xac, 0]) {
        Operation::RmDir(x) => assert_eq!(x.name, "\u{20ac}"),
        _ => panic!("not rmdir"),
    }
}

#[test]
fn symlink_reads_two_names() {
    match operation(6, b"link\0/the/target\0") {
        Operation::SymLink(x) => {
            assert_eq!(x.name, "link");
            assert_eq!(x.target, "/the/target");
        }
        _ => panic!("not symlink"),
    }
}

#[test]
fn rename_reads_argument_and_two_names() {
    let mut body = Vec::new();
    body.extend(0x0102030405060708u64.to_le_bytes());
    body.extend(b"old\0new\0");
    match operation(12, &body) {
        Operation::Rename(x) => {
            assert_eq!(x.arg.newdir, 0x0102030405060708);
            assert_eq!(x.name, "old");
            assert_eq!(x.newname, "new");
        }
        _ => panic!("not rename"),
    }
    assert!(is_eio(parse(frame(12, 1, 1, &body[..body.len() - 1]))));
    assert!(is_eio(parse(frame(12, 1, 1, &body[..7]))));
}

#[test]
fn rename2_captures_the_old_parent() {
    let mut body = Vec::new();
    body.extend(9u64.to_le_bytes());
    body.extend(2u32.to_le_bytes());
    body.extend(0u32.to_le_bytes());
    body.extend(b"a\0b\0");
    match operation(45, &body) {
        Operation::Rename2(x) => {
            assert_eq!(x.arg.newdir, 9);
            assert_eq!(x.arg.flags, 2);
            assert_eq!(x.name, "a");
            assert_eq!(x.newname, "b");
            assert_eq!(x.old_parent, 5);
        }
        _ => panic!("not rename2"),
    }
}

#[test]
fn forget_reads_its_argument_behind_the_header() {
    match operation(2, &0x1122334455667788u64.to_le_bytes()) {
        Operation::Forget(Forget { arg }) => assert_eq!(arg.nlookup, 0x1122334455667788),
        _ => panic!("not forget"),
    }
    assert!(is_eio(parse(frame(2, 1, 1, &[0u8; 7]))));
}

fn write_body(size: u32, data: &[u8]) -> Vec<u8> {
    let mut body = Vec::new();
    body.extend(3u64.to_le_bytes());
    body.extend((-2i64).to_le_bytes());
    body.extend(size.to_le_bytes());
    body.extend(1u32.to_le_bytes());
    body.extend(7u64.to_le_bytes());
    body.extend((-3i32).to_le_bytes());
    body.extend(0u32.to_le_bytes());
    body.extend(data);
    body
}

#[test]
fn write_takes_size_bytes_of_data() {
    match operation(16, &write_body(4, b"datamore")) {
        Operation::Write(x) => {
            assert_eq!(x.arg.fh, 3);
            assert_eq!(x.arg.offset, -2);
            assert_eq!(x.arg.size, 4);
            assert_eq!(x.arg.write_flags, 1);
            assert_eq!(x.arg.lock_owner, 7);
            assert_eq!(x.arg.flags, -3);
            assert_eq!(*x.data, b"data".to_vec());
        }
        _ => panic!("not write"),
    }
    match operation(16, &write_body(0, b"")) {
        Operation::Write(x) => assert!(x.data.is_empty()),
        _ => panic!("not write"),
    }
}

#[test]
fn oversize_write_is_refused() {
    assert!(is_eio(parse(frame(16, 1, 1, &write_body(9, b"datamore")))));
    assert!(is_eio(parse(frame(16, 1, 1, &write_body(u32::MAX, b"datamore")))));
    assert!(parse(frame(16, 1, 1, &write_body(8, b"datamore"))).is_ok());
    assert!(is_eio(parse(frame(16, 1, 1, &[0u8; 39]))));
}

#[test]
fn setxattr_reads_name_and_value() {
    let mut body = Vec::new();
    body.extend(3u32.to_le_bytes());
    body.extend((-1i32).to_le_bytes());
    body.extend(b"user.k\0abcd");
    match operation(21, &body) {
        Operation::SetXAttr(x) => {
            assert_eq!(x.arg.size, 3);
            assert_eq!(x.arg.flags, -1);
            assert_eq!(x.name, "user.k");
            assert_eq!(*x.value, b"abc".to_vec());
        }
        _ => panic!("not setxattr"),
    }
    let mut long = body.clone();
    long[0] = 5;
    assert!(is_eio(parse(frame(21, 1, 1, &long))));
}

#[test]
fn ioctl_takes_the_rest() {
    let mut body = vec![0u8; 32];
    body[0] = 4;
    body[12] = 6;
    body.extend(b"rest of it");
    match operation(39, &body) {
        Operation::IoCtl(x) => {
            assert_eq!(x.arg.fh, 4);
            assert_eq!(x.arg.cmd, 6);
            assert_eq!(x.data, b"rest of it".to_vec());
        }
        _ => panic!("not ioctl"),
    }
}

#[test]
fn batch_forget_reads_count_records() {
    let mut body = Vec::new();
    body.extend(2u32.to_le_bytes());
    body.extend(0u32.to_le_bytes());
    for (node, n) in [(10u64, 1u64), (11, 2), (12, 3)] {
        body.extend(node.to_le_bytes());
        body.extend(n.to_le_bytes());
    }
    match operation(42, &body) {
        Operation::BatchForget(x) => {
            assert_eq!(x.arg.count, 2);
            assert_eq!(x.nodes.len(), 2);
            assert_eq!((x.nodes[0].nodeid, x.nodes[0].nlookup), (10, 1));
            assert_eq!((x.nodes[1].nodeid, x.nodes[1].nlookup), (11, 2));
        }
        _ => panic!("not batch forget"),
    }
    body[0] = 4;
    assert!(is_eio(parse(frame(42, 1, 1, &body))));
    body[0] = 0xff;
    body[1] = 0xff;
    body[2] = 0xff;
    body[3] = 0xff;
    assert!(is_eio(parse(frame(42, 1, 1, &body))));
}

#[test]
fn requests_without_a_body() {
    assert!(matches!(operation(5, b""), Operation::ReadLink(ReadLink {})));
    assert!(matches!(operation(17, b"ignored"), Operation::StatFs(_)));
    assert!(matches!(operation(38, b""), Operation::Destroy(_)));
    assert!(matches!(operation(41, b""), Operation::NotifyReply(_)));
}

#[test]
fn requests_that_are_handed_on_with_a_zero_argument() {
    match operation(50, &[1u8; 8]) {
        Operation::SyncFs(x) => assert_eq!(x.arg.padding, 0),
        _ => panic!("not syncfs"),
    }
    match operation(51, &[1u8; 24]) {
        Operation::TmpFile(x) => assert_eq!((x.arg.flags, x.arg.mode, x.arg.umask), (0, 0, 0)),
        _ => panic!("not tmpfile"),
    }
    match operation(52, b"") {
        Operation::StatX(x) => assert_eq!((x.arg.fh, x.arg.sx_mask), (0, 0)),
        _ => panic!("not statx"),
    }
}

#[test]
fn mappings_read_their_argument() {
    let mut body = Vec::new();
    for v in 1u64..=5 {
        body.extend(v.to_le_bytes());
    }
    match operation(48, &body) {
        Operation::SetupMapping(x) => {
            assert_eq!((x.arg.fh, x.arg.foffset, x.arg.len), (1, 2, 3));
            assert_eq!((x.arg.flags, x.arg.moffset), (4, 5));
        }
        _ => panic!("not setupmapping"),
    }
    match operation(49, &[3, 0, 0, 0, 9, 9]) {
        Operation::RemoveMapping(x) => {
            assert_eq!(x.arg.count, 3);
            assert!(x.mappings.is_empty());
        }
        _ => panic!("not removemapping"),
    }
    assert!(is_eio(parse(frame(48, 1, 1, &body[..39]))));
}

#[test]
fn fixed_arguments_are_read_field_by_field() {
    let mut body = Vec::new();
    body.extend(1u64.to_le_bytes());
    body.extend(i64::MIN.to_le_bytes());
    body.extend(4096u32.to_le_bytes());
    body.extend(2u32.to_le_bytes());
    body.extend(u64::MAX.to_le_bytes());
    body.extend(i32::MIN.to_le_bytes());
    body.extend(5u32.to_le_bytes());
    match operation(15, &body) {
        Operation::Read(x) => {
            assert_eq!(x.arg.fh, 1);
            assert_eq!(x.arg.offset, i64::MIN);
            assert_eq!(x.arg.size, 4096);
            assert_eq!(x.arg.read_flags, 2);
            assert_eq!(x.arg.lock_owner, u64::MAX);
            assert_eq!(x.arg.flags, i32::MIN);
            assert_eq!(x.arg.padding, 5);
        }
        _ => panic!("not read"),
    }
    let mut lk = Vec::new();
    lk.extend(1u64.to_le_bytes());
    lk.extend(2u64.to_le_bytes());
    lk.extend(3u64.to_le_bytes());
    lk.extend(4u64.to_le_bytes());
    lk.extend((-5i32).to_le_bytes());
    lk.extend(6u32.to_le_bytes());
    lk.extend(7u32.to_le_bytes());
    lk.extend(8u32.to_le_bytes());
    match operation(33, &lk) {
        Operation::SetLkW(x) => {
            assert_eq!((x.arg.fh, x.arg.owner), (1, 2));
            assert_eq!((x.arg.lk.start, x.arg.lk.end, x.arg.lk.typ, x.arg.lk.pid), (3, 4, -5, 6));
            assert_eq!((x.arg.lk_flags, x.arg.padding), (7, 8));
        }
        _ => panic!("not setlkw"),
    }
    assert!(is_eio(parse(frame(33, 1, 1, &lk[..47]))));
}

#[test]
fn setattr_flags_for_times() {
    let mut body = vec![0u8; 88];
    body[0] = 0x80;
    match operation(4, &body) {
        Operation::SetAttr(x) => {
            assert!(x.arg.atime_now());
            assert!(!x.arg.mtime_now());
        }
        _ => panic!("not setattr"),
    }
    body[0] = 0x00;
    body[1] = 0x01;
    match operation(4, &body) {
        Operation::SetAttr(x) => {
            assert!(!x.arg.atime_now());
            assert!(x.arg.mtime_now());
        }
        _ => panic!("not setattr"),
    }
}

#[test]
fn cuse_init_is_read() {
    let mut body = Vec::new();
    for v in [7u32, 31, 0, 1] {
        body.extend(v.to_le_bytes());
    }
    let mut f = frame(4096, 1, 0, &body);
    let (reply_tx, _reply_rx) = create_reply_channel();
    match Request::parse(&mut f, &reply_tx).expect("parse").operation {
        Operation::CuseInit(x) => assert_eq!((x.arg.major, x.arg.minor, x.arg.flags), (7, 31, 1)),
        _ => panic!("not cuse init"),
    }
}

#[test]
fn unknown_opcodes_are_refused() {
    for opcode in [0u32, 7, 19, 53, 61, 62, 63, 4095, 4097, u32::MAX] {
        assert!(is_eio(parse(frame(opcode, 1, 1, &[0u8; 64]))));
    }
}

#[test]
fn frames_with_a_wrong_length_are_refused() {
    let good = frame(26, 1, 1, &[0u8; 16]);
    assert!(parse(good.clone()).is_ok());
    // shorter than a header
    assert!(is_eio(parse(good[..39].to_vec())));
    assert!(is_eio(parse(Vec::new())));
    // the header says more than there is
    let mut long = good.clone();
    long[0] = 57;
    assert!(is_eio(parse(long)));
    // the header says less than a header
    let mut short = good.clone();
    short[0] = 39;
    assert!(is_eio(parse(short)));
    // the argument does not fit into what the header says
    let mut cut = good.clone();
    cut[0] = 55;
    assert!(is_eio(parse(cut)));
}

#[test]
fn bytes_behind_the_frame_are_not_read() {
    let mut f = frame(1, 1, 1, b"name");
    f.extend(b"\0");
    // the NUL lies behind what the header says
    assert!(is_eio(parse(f)));
    let mut g = frame(1, 1, 1, b"ab\0");
    g.extend(b"cd\0");
    match parse(g).expect("parse").operation {
        Operation::Lookup(x) => assert_eq!(x.name, "ab"),
        _ => panic!("not lookup"),
    }
}

#[test]
fn from_op_sets_the_opcode_only() {
    let (reply_tx, _reply_rx) = create_reply_channel();
    let request = Request::from_op(Operation::ReadLink(ReadLink {}), &reply_tx);
    assert_eq!(request.header.opcode, 5);
    assert_eq!(request.header.len, 0);
    assert_eq!(request.header.unique, 0);
    assert_eq!(request.header.nodeid, 0);
    assert_eq!((request.header.uid, request.header.gid, request.header.pid), (0, 0, 0));
    assert!(matches!(request.operation, Operation::ReadLink(_)));
}

#[test]
fn opcodes_of_operations() {
    let expected = [
        1u32, 2, 3, 4, 5, 6, 8, 9, 10, 11, 12, 13, 14, 15, 16, 17, 18, 20, 21, 22, 23, 24, 25, 26,
        27, 28, 29, 30, 31, 32, 33, 34, 35, 36, 37, 38, 39, 40, 41, 42, 43, 44, 45, 46, 47, 48,
        49, 50, 51, 52,
    ];
    for opcode in expected {
        let mut body = vec![0u8; 128];
        body[100] = 1;
        match parse(frame(opcode, 1, 1, &body)) {
            Ok(request) => assert_eq!(request.operation.get_opcode(), opcode),
            Err(_) => panic!("opcode {} refused", opcode),
        }
    }
}

#[test]
fn replies_carry_the_unique_of_the_request() {
    let request = parse(frame(26, 0xdead_beef_baad_f00d, 1, &[0u8; 16])).expect("parse");

    let ok = request.ok_reply();
    assert_eq!(ok.header.unique, 0xdead_beef_baad_f00d);
    assert_eq!(ok.header.error, 0);
    assert_eq!(ok.header.len, 0);
    assert!(ok.operation.is_none());

    let same = Reply::from(&request);
    assert_eq!(same.header.unique, 0xdead_beef_baad_f00d);
    assert_eq!(same.header.error, 0);
    assert!(same.operation.is_none());

    let mut failed = request.error_reply(Errno::ENOENT);
    assert_eq!(failed.header.unique, 0xdead_beef_baad_f00d);
    assert_eq!(failed.header.error, -2);
    assert!(failed.operation.is_none());

    let mut buffer = [0u8; 16];
    assert_eq!(failed.write(&mut buffer), 16);
    assert_eq!(buffer[8..16], [0x0d, 0xf0, 0xad, 0xba, 0xef, 0xbe, 0xad, 0xde]);
    assert_eq!(buffer[0..4], [16, 0, 0, 0]);
    assert_eq!(buffer[4..8], [0xfe, 0xff, 0xff, 0xff]);
}

#[test]
fn replies_reach_the_channel_of_the_sender_given() {
    let (reply_tx, mut reply_rx) = create_reply_channel();
    let (other_tx, mut other_rx) = create_reply_channel();
    let mut f = frame(26, 99, 1, &[0u8; 16]);
    let request = Request::parse(&mut f, &reply_tx).expect("parse");
    assert!(request.reply_to.same_channel(&reply_tx));
    assert!(!request.reply_to.same_channel(&other_tx));
    assert_eq!(request.reply_to.max_capacity(), 32);
    request.reply_to.try_send(request.ok_reply()).expect("send");
    let reply = reply_rx.try_recv().expect("reply");
    assert_eq!(reply.header.unique, 99);
    assert!(other_rx.try_recv().is_err());

    let made = Request::from_op(Operation::ReadLink(ReadLink {}), &other_tx);
    assert!(made.reply_to.same_channel(&other_tx));
    made.reply_to.try_send(made.error_reply(Errno::ENOSYS)).expect("send");
    assert_eq!(other_rx.try_recv().expect("reply").header.error, -38);
}

#[test]
fn get_string_splits_at_the_first_nul() {
    let (name, rest) = get_string(b"abc\0def\0").expect("nul");
    assert_eq!(name, "abc");
    assert_eq!(rest, b"def\0");
    let (name, rest) = get_string(b"\0").expect("nul");
    assert_eq!(name, "");
    assert!(rest.is_empty());
    assert!(get_string(b"abc").is_none());
    assert!(get_string(b"").is_none());
    let (name, rest) = get_string(&[0xc3, 0x28, 0, 1]).expect("nul");
    assert_eq!(name, "\u{fffd}(");
    assert_eq!(rest, [1]);
}

#[test]
fn get_vec_takes_a_prefix() {
    assert_eq!(get_vec(b"abcdef", 4), Some(b"abcd".to_vec()));
    assert_eq!(get_vec(b"abcdef", 6), Some(b"abcdef".to_vec()));
    assert_eq!(get_vec(b"abcdef", 0), Some(Vec::new()));
    assert_eq!(get_vec(b"abcdef", 7), None);
}

#[test]
fn version_parts() {
    let v = Version(7, 31);
    assert_eq!(v.major(), 7);
    assert_eq!(v.minor(), 31);
    assert!(Version(7, 8) < Version(7, 31));
    assert!(Version(6, 99) < Version(7, 0));
    assert_eq!(Version(7, 8), Version(7, 8));
}

#[test]
fn version_as_text() {
    assert_eq!(Version(7, 31).to_string(), "7.31");
    assert_eq!(Version(0, 0).to_string(), "0.0");
    assert_eq!(Version(10, 9).to_string(), "10.9");
    assert_eq!(Version(u32::MAX, 100).to_string(), "4294967295.100");
}
