use fuse_session::create_reply_channel;
use fuse_session::messages::request::{Operation, Request};

const INIT_REQUEST: [u8; 56] = [
    0x38, 0x00, 0x00, 0x00, 0x1a, 0x00, 0x00, 0x00, // len, opcode
    0x0d, 0xf0, 0xad, 0xba, 0xef, 0xbe, 0xad, 0xde, // unique
    0x88, 0x77, 0x66, 0x55, 0x44, 0x33, 0x22, 0x11, // nodeid
    0x0d, 0xd0, 0x01, 0xc0, 0xfe, 0xca, 0x01, 0xc0, // uid, gid
    0x5e, 0xba, 0xde, 0xc0, 0x00, 0x00, 0x00, 0x00, // pid, padding
    0x07, 0x00, 0x00, 0x00, 0x08, 0x00, 0x00, 0x00, // major, minor
    0x00, 0x10, 0x00, 0x00, 0x00, 0x00, 0x00, 0x00, // max_readahead, flags
];

const MKNOD_REQUEST: [u8; 64] = [
    0x40, 0x00, 0x00, 0x00, 0x08, 0x00, 0x00, 0x00, // len, opcode
    0x0d, 0xf0, 0xad, 0xba, 0xef, 0xbe, 0xad, 0xde, // unique
    0x88, 0x77, 0x66, 0x55, 0x44, 0x33, 0x22, 0x11, // nodeid
    0x0d, 0xd0, 0x01, 0xc0, 0xfe, 0xca, 0x01, 0xc0, // uid, gid
    0x5e, 0xba, 0xde, 0xc0, 0x00, 0x00, 0x00, 0x00, // pid, padding
    0xa4, 0x01, 0x00, 0x00, 0x00, 0x00, 0x00, 0x00, // mode, rdev
    0xed, 0x01, 0x00, 0x00, 0xe7, 0x03, 0x00, 0x00, // umask, padding
    0x66, 0x6f, 0x6f, 0x2e, 0x74, 0x78, 0x74, 0x00, // name
];

#[test]
fn init() {
    let (reply_tx, _reply_rx) = create_reply_channel();
    let mut frame = INIT_REQUEST;
    let request = Request::parse(&mut frame, &reply_tx).expect("parse");
    assert_eq!(request.header.len, 56);
    assert_eq!(request.header.len, 56);
    assert_eq!(request.header.opcode, 26);
    assert_eq!(request.header.unique, 0xdead_beef_baad_f00d);
    assert_eq!(request.header.nodeid, 0x1122_3344_5566_7788);
    assert_eq!(request.header.uid, 0xc001_d00d);
    assert_eq!(request.header.gid, 0xc001_cafe);
    assert_eq!(request.header.pid, 0xc0de_ba5e);
    match request.operation {
        Operation::Init(init) => {
            assert_eq!(init.arg.major, 7);
            assert_eq!(init.arg.minor, 8);
            assert_eq!(init.arg.max_readahead, 4096);
        }
        _ => panic!("not init"),
    }
}

#[test]
fn mknod() {
    let (reply_tx, _reply_rx) = create_reply_channel();
    let mut frame = MKNOD_REQUEST;
    let request = Request::parse(&mut frame, &reply_tx).expect("parse");
    assert_eq!(request.header.len, 64);
    assert_eq!(request.header.opcode, 8);
    assert_eq!(request.header.unique, 0xdead_beef_baad_f00d);
    assert_eq!(request.header.nodeid, 0x1122_3344_5566_7788);
    assert_eq!(request.header.uid, 0xc001_d00d);
    assert_eq!(request.header.gid, 0xc001_cafe);
    assert_eq!(request.header.pid, 0xc0de_ba5e);
    match request.operation {
        Operation::MkNod(x) => {
            assert_eq!(x.arg.mode, 0o644);
            assert_eq!(x.arg.umask, 0o755);
        }
        _ => panic!("Unexpected request operation"),
    }
}
