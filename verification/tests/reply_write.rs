use fuse_session::error::Errno;
use fuse_session::messages::fuse_abi::{
    fuse_attr, fuse_bmap_out, fuse_create_out, fuse_dirent, fuse_direntplus, fuse_entry_out,
    fuse_getxattr_out, fuse_init_out, fuse_kstatfs, fuse_open_out, fuse_statfs_out,
    fuse_write_out,
};
use fuse_session::messages::reply::{
    BMap, Create, DirectoryEntry, DirectoryEntryPlus, FSync, GetXAttr, IWrite, Init, ListXAttr,
    Lookup, Open, Operation, Read, ReadDir, ReadDirPlus, ReadLink, Reply, StatFs, Write,
};

const S_IFDIR: u32 = libc::S_IFDIR;
const S_IFREG: u32 = libc::S_IFREG;

fn written(reply: &mut Reply) -> Vec<u8> {
    let mut buffer = vec![0xa5u8; 4096];
    let count = reply.write(&mut buffer);
    assert!(buffer[count..].iter().all(|b| *b == 0xa5));
    buffer.truncate(count);
    buffer
}

fn sample_attr(blksize: u32) -> fuse_attr {
    fuse_attr {
        nlink: 0x55,
        size: 0x22,
        blocks: 0x33,
        atime: 0x1234,
        mtime: 0x1234,
        ctime: 0x1234,
        mode: 0o644 | S_IFREG,
        uid: 0x66,
        gid: 0x77,
        rdev: 0x88,
        blksize,
        atimensec: 0x5678,
        ctimensec: 0x5678,
        mtimensec: 0x5678,
        ino: 0x11,
        padding: 0,
    }
}

fn sample_entry(blksize: u32) -> fuse_entry_out {
    fuse_entry_out {
        nodeid: 0x11,
        generation: 0xaa,
        entry_valid: 0x8765,
        attr_valid: 0x8765,
        entry_valid_nsec: 0x4321,
        attr_valid_nsec: 0x4321,
        attr: sample_attr(blksize),
    }
}

#[test]
fn reply_error() {
    let mut r = Reply::new(0xdeadbeef, -libc::EREMOTE, Some(Operation::FSync(FSync {})));
    assert_eq!(
        written(&mut r),
        vec![
            0x10, 0x00, 0x00, 0x00, 0xbe, 0xff, 0xff, 0xff, 0xef, 0xbe, 0xad, 0xde, 0x00, 0x00,
            0x00, 0x00,
        ],
    );
}

#[test]
fn reply_error_drops_payload() {
    let data = vec![1u8, 2, 3, 4, 5];
    let mut r = Reply::new(7, -libc::ENOENT, Some(Operation::Read(Read { data })));
    let bytes = written(&mut r);
    assert_eq!(bytes.len(), 16);
    assert_eq!(bytes[0..4], [16, 0, 0, 0]);
    assert_eq!(bytes[4..8], (-2i32).to_le_bytes());
    assert_eq!(bytes[8..16], 7u64.to_le_bytes());
    assert_eq!(r.wire_len(), 16);
}

#[test]
fn reply_read() {
    let data = [0xde, 0xad, 0xbe, 0xef];
    let mut r = Reply::new(0xdeadbeef, 0, Some(Operation::Read(Read { data: data.to_vec() })));
    assert_eq!(
        written(&mut r),
        vec![
            0x14, 0x00, 0x00, 0x00, 0x00, 0x00, 0x00, 0x00, 0xef, 0xbe, 0xad, 0xde, 0x00, 0x00,
            0x00, 0x00, 0xde, 0xad, 0xbe, 0xef,
        ],
    );
}

#[test]
fn reply_without_operation() {
    let mut r = Reply::new(0x0102030405060708, 0, None);
    assert_eq!(
        written(&mut r),
        vec![16, 0, 0, 0, 0, 0, 0, 0, 0x08, 0x07, 0x06, 0x05, 0x04, 0x03, 0x02, 0x01],
    );
}

#[test]
fn reply_entry() {
    let mut expected = vec![
        0x88, 0x00, 0x00, 0x00, 0x00, 0x00, 0x00, 0x00, 0xef, 0xbe, 0xad, 0xde, 0x00, 0x00, 0x00,
        0x00, 0x11, 0x00, 0x00, 0x00, 0x00, 0x00, 0x00, 0x00, 0xaa, 0x00, 0x00, 0x00, 0x00, 0x00,
        0x00, 0x00, 0x65, 0x87, 0x00, 0x00, 0x00, 0x00, 0x00, 0x00, 0x65, 0x87, 0x00, 0x00, 0x00,
        0x00, 0x00, 0x00, 0x21, 0x43, 0x00, 0x00, 0x21, 0x43, 0x00, 0x00, 0x11, 0x00, 0x00, 0x00,
        0x00, 0x00, 0x00, 0x00, 0x22, 0x00, 0x00, 0x00, 0x00, 0x00, 0x00, 0x00, 0x33, 0x00, 0x00,
        0x00, 0x00, 0x00, 0x00, 0x00, 0x34, 0x12, 0x00, 0x00, 0x00, 0x00, 0x00, 0x00, 0x34, 0x12,
        0x00, 0x00, 0x00, 0x00, 0x00, 0x00, 0x34, 0x12, 0x00, 0x00, 0x00, 0x00, 0x00, 0x00, 0x78,
        0x56, 0x00, 0x00, 0x78, 0x56, 0x00, 0x00, 0x78, 0x56, 0x00, 0x00, 0xa4, 0x81, 0x00, 0x00,
        0x55, 0x00, 0x00, 0x00, 0x66, 0x00, 0x00, 0x00, 0x77, 0x00, 0x00, 0x00, 0x88, 0x00, 0x00,
        0x00,
    ];
    expected.extend(vec![0xbb, 0x00, 0x00, 0x00, 0x00, 0x00, 0x00, 0x00]);
    expected[0] = (expected.len()) as u8;

    let entry = Lookup { arg: sample_entry(0xbb) };
    let operation = Operation::Lookup(entry);
    let mut reply = Reply::new(0xdeadbeef, 0, Some(operation));

    let buffer = written(&mut reply);
    assert_eq!(expected.len(), 16 + 128);
    assert_eq!(expected, buffer);
}

#[test]
fn reply_open() {
    let expected = vec![
        0x20, 0x00, 0x00, 0x00, 0x00, 0x00, 0x00, 0x00, 0xef, 0xbe, 0xad, 0xde, 0x00, 0x00, 0x00,
        0x00, 0x22, 0x11, 0x00, 0x00, 0x00, 0x00, 0x00, 0x00, 0x33, 0x00, 0x00, 0x00, 0x00, 0x00,
        0x00, 0x00,
    ];

    let operation =
        Operation::Open(Open { arg: fuse_open_out { fh: 0x1122, open_flags: 0x33, padding: 0 } });
    let mut reply = Reply::new(0xdeadbeef, 0, Some(operation));
    assert_eq!(expected, written(&mut reply));
}

#[test]
fn reply_create() {
    let mut expected = vec![
        0x98, 0x00, 0x00, 0x00, 0x00, 0x00, 0x00, 0x00, 0xef, 0xbe, 0xad, 0xde, 0x00, 0x00, 0x00,
        0x00, 0x11, 0x00, 0x00, 0x00, 0x00, 0x00, 0x00, 0x00, 0xaa, 0x00, 0x00, 0x00, 0x00, 0x00,
        0x00, 0x00, 0x65, 0x87, 0x00, 0x00, 0x00, 0x00, 0x00, 0x00, 0x65, 0x87, 0x00, 0x00, 0x00,
        0x00, 0x00, 0x00, 0x21, 0x43, 0x00, 0x00, 0x21, 0x43, 0x00, 0x00, 0x11, 0x00, 0x00, 0x00,
        0x00, 0x00, 0x00, 0x00, 0x22, 0x00, 0x00, 0x00, 0x00, 0x00, 0x00, 0x00, 0x33, 0x00, 0x00,
        0x00, 0x00, 0x00, 0x00, 0x00, 0x34, 0x12, 0x00, 0x00, 0x00, 0x00, 0x00, 0x00, 0x34, 0x12,
        0x00, 0x00, 0x00, 0x00, 0x00, 0x00, 0x34, 0x12, 0x00, 0x00, 0x00, 0x00, 0x00, 0x00, 0x78,
        0x56, 0x00, 0x00, 0x78, 0x56, 0x00, 0x00, 0x78, 0x56, 0x00, 0x00, 0xa4, 0x81, 0x00, 0x00,
        0x55, 0x00, 0x00, 0x00, 0x66, 0x00, 0x00, 0x00, 0x77, 0x00, 0x00, 0x00, 0x88, 0x00, 0x00,
        0x00, 0xbb, 0x00, 0x00, 0x00, 0x00, 0x00, 0x00, 0x00, 0xcc, 0x00, 0x00, 0x00, 0x00, 0x00,
        0x00, 0x00,
    ];
    let insert_at = expected.len() - 16;
    expected.splice(insert_at..insert_at, vec![0xdd, 0x00, 0x00, 0x00, 0x00, 0x00, 0x00, 0x00]);
    expected[0] = (expected.len()) as u8;

    let operation = Operation::Create(Create {
        arg: fuse_create_out {
            entry: sample_entry(0xdd),
            open: fuse_open_out { fh: 0xbb, open_flags: 0xcc, padding: 0 },
        },
    });

    let mut reply = Reply::new(0xdeadbeef, 0, Some(operation));
    let buffer = written(&mut reply);
    assert_eq!(expected.len(), 16 + 144);
    assert_eq!(expected, buffer);
}

#[test]
fn reply_directory() {
    let expected = vec![
        0x50, 0x00, 0x00, 0x00, 0x00, 0x00, 0x00, 0x00, 0xef, 0xbe, 0xad, 0xde, 0x00, 0x00, 0x00,
        0x00, 0xbb, 0xaa, 0x00, 0x00, 0x00, 0x00, 0x00, 0x00, 0x01, 0x00, 0x00, 0x00, 0x00, 0x00,
        0x00, 0x00, 0x05, 0x00, 0x00, 0x00, 0x04, 0x00, 0x00, 0x00, 0x68, 0x65, 0x6c, 0x6c, 0x6f,
        0x00, 0x00, 0x00, 0xdd, 0xcc, 0x00, 0x00, 0x00, 0x00, 0x00, 0x00, 0x02, 0x00, 0x00, 0x00,
        0x00, 0x00, 0x00, 0x00, 0x08, 0x00, 0x00, 0x00, 0x08, 0x00, 0x00, 0x00, 0x77, 0x6f, 0x72,
        0x6c, 0x64, 0x2e, 0x72, 0x73,
    ];

    let n1 = String::from("hello");

    let e1 = DirectoryEntry {
        entry: fuse_dirent { ino: 0xaabb, off: 1, typ: S_IFDIR >> 12, namelen: n1.len() as u32 },
        name: n1,
    };

    let n2 = String::from("world.rs");
    let e2 = DirectoryEntry {
        entry: fuse_dirent { ino: 0xccdd, off: 2, typ: S_IFREG >> 12, namelen: n2.len() as u32 },
        name: n2,
    };

    let operation = Operation::ReadDir(ReadDir { entries: vec![e1, e2] });

    let mut reply = Reply::new(0xdeadbeef, 0, Some(operation));
    assert_eq!(expected, written(&mut reply));
}

#[test]
fn readdir_packing_lengths() {
    // 24 bytes of fuse_dirent, 5 of the name and 3 of padding; then 24 and 8 and none
    let mut e1 = DirectoryEntry {
        entry: fuse_dirent { ino: 0xaabb, off: 1, typ: 0, namelen: 0 },
        name: String::from("hello"),
    };
    e1.entry.set_type(S_IFDIR);
    let mut e2 = DirectoryEntry {
        entry: fuse_dirent { ino: 0xccdd, off: 2, typ: 0, namelen: 0 },
        name: String::from("world.rs"),
    };
    e2.entry.set_type(S_IFREG);
    assert_eq!(e1.entry.typ, 4);
    assert_eq!(e2.entry.typ, 8);
    assert_eq!(e1.wire_len(), 32);
    assert_eq!(e2.wire_len(), 32);

    let mut dir = ReadDir { entries: vec![e1, e2] };
    assert_eq!(dir.wire_len(), 64);
    let mut buffer = vec![0xffu8; 100];
    assert_eq!(dir.write(&mut buffer), 64);
    // writing sets the length of the names
    assert_eq!(dir.entries[0].entry.namelen, 5);
    assert_eq!(dir.entries[1].entry.namelen, 8);
    let first = &dir.entries[0].entry;
    assert_eq!((first.ino, first.off, first.typ), (0xaabb, 1, 4));
    assert_eq!(dir.entries[1].name, "world.rs");
    assert_eq!(buffer[29..32], [0, 0, 0]);
    assert_eq!(buffer[0..8], 0xaabbu64.to_le_bytes());
    assert_eq!(buffer[32..40], 0xccddu64.to_le_bytes());
    assert_eq!(buffer[16..20], 5u32.to_le_bytes());
    assert_eq!(buffer[48..52], 8u32.to_le_bytes());
    assert_eq!(buffer[64..], [0xffu8; 36]);

    let mut reply = Reply::new(9, 0, Some(Operation::ReadDir(dir)));
    assert_eq!(reply.wire_len(), 80);
    assert_eq!(written(&mut reply).len(), 80);
}

#[test]
fn directory_entry_write_sets_namelen() {
    let mut e = DirectoryEntry {
        entry: fuse_dirent { ino: 3, off: -1, typ: 10, namelen: 99 },
        name: String::from("caf\u{e9}"),
    };
    let mut buffer = vec![0xeeu8; 40];
    let n = e.write(&mut buffer);
    assert_eq!(n, 32);
    assert_eq!(e.entry.namelen, 5);
    assert_eq!(e.entry.ino, 3);
    assert_eq!(e.entry.off, -1);
    assert_eq!(e.entry.typ, 10);
    assert_eq!(buffer[0..8], 3u64.to_le_bytes());
    assert_eq!(buffer[8..16], [0xff; 8]);
    assert_eq!(buffer[16..20], 5u32.to_le_bytes());
    assert_eq!(buffer[20..24], 10u32.to_le_bytes());
    assert_eq!(buffer[24..29], [b'c', b'a', b'f', 0xc3, 0xa9]);
    assert_eq!(buffer[29..32], [0, 0, 0]);
    assert_eq!(buffer[32..], [0xee; 8]);
}

#[test]
fn directory_entry_empty_and_aligned_names() {
    let mut e = DirectoryEntry {
        entry: fuse_dirent { ino: 1, off: 1, typ: 1, namelen: 0 },
        name: String::new(),
    };
    assert_eq!(e.wire_len(), 24);
    let mut buffer = vec![1u8; 24];
    assert_eq!(e.write(&mut buffer), 24);

    for len in 1..=17usize {
        let mut e = DirectoryEntry {
            entry: fuse_dirent { ino: 1, off: 1, typ: 1, namelen: 0 },
            name: "x".repeat(len),
        };
        let expected = (24 + len + 7) / 8 * 8;
        assert_eq!(e.wire_len(), expected as u64);
        let mut buffer = vec![1u8; 64];
        assert_eq!(e.write(&mut buffer), expected);
        assert!(buffer[24 + len..expected].iter().all(|b| *b == 0));
        assert!(buffer[expected..].iter().all(|b| *b == 1));
    }
}

#[test]
fn readdirplus_packing() {
    let entry = fuse_direntplus {
        entry_out: sample_entry(0),
        dirent: fuse_dirent { ino: 0x11, off: 5, typ: 8, namelen: 0 },
    };
    let mut e = DirectoryEntryPlus { entry, name: b"abc".to_vec() };
    assert_eq!(e.wire_len(), 160);
    let mut buffer = vec![0x77u8; 200];
    assert_eq!(e.write(&mut buffer), 160);
    assert_eq!(e.entry.dirent.namelen, 3);
    assert_eq!(buffer[0..8], 0x11u64.to_le_bytes());
    assert_eq!(buffer[128..136], 0x11u64.to_le_bytes());
    assert_eq!(buffer[136..144], 5u64.to_le_bytes());
    assert_eq!(buffer[144..148], 3u32.to_le_bytes());
    assert_eq!(buffer[148..152], 8u32.to_le_bytes());
    assert_eq!(buffer[152..155], *b"abc");
    assert_eq!(buffer[155..160], [0u8; 5]);
    assert_eq!(buffer[160..], [0x77u8; 40]);

    let mut dir = ReadDirPlus {
        entries: vec![
            DirectoryEntryPlus { entry, name: b"abc".to_vec() },
            DirectoryEntryPlus { entry, name: b"12345678".to_vec() },
        ],
    };
    assert_eq!(dir.wire_len(), 320);
    let mut buffer = vec![0u8; 320];
    assert_eq!(dir.write(&mut buffer), 320);
    assert_eq!(dir.entries[0].entry.dirent.namelen, 3);
    assert_eq!(dir.entries[1].entry.dirent.namelen, 8);
    assert_eq!(buffer[160 + 152..], *b"12345678");
}

#[test]
fn reply_bmap() {
    let expected = vec![
        0x18, 0x00, 0x00, 0x00, 0x00, 0x00, 0x00, 0x00, 0xef, 0xbe, 0xad, 0xde, 0x00, 0x00, 0x00,
        0x00, 0x34, 0x12, 0x00, 0x00, 0x00, 0x00, 0x00, 0x00,
    ];

    let operation = Operation::BMap(BMap { arg: fuse_bmap_out { block: 0x1234 } });
    let mut reply = Reply::new(0xdeadbeef, 0, Some(operation));
    assert_eq!(expected, written(&mut reply));
}

#[test]
fn reply_write() {
    let expected = vec![
        0x18, 0x00, 0x00, 0x00, 0x00, 0x00, 0x00, 0x00, 0xef, 0xbe, 0xad, 0xde, 0x00, 0x00, 0x00,
        0x00, 0x22, 0x11, 0x00, 0x00, 0x00, 0x00, 0x00, 0x00,
    ];

    let operation = Operation::Write(Write { arg: fuse_write_out { size: 0x1122, padding: 0 } });
    let mut reply = Reply::new(0xdeadbeef, 0, Some(operation));
    assert_eq!(expected, written(&mut reply));
}

#[test]
fn reply_init_echo() {
    let arg = fuse_init_out {
        major: 7,
        minor: 8,
        max_readahead: 4096,
        flags: 0,
        max_background: 0x0102,
        congestion_threshold: 0x0304,
        max_write: 0x0010_0000,
        time_gran: 1,
        max_pages: 0x0506,
        unused2: 0,
        reserved: [0, 0, 0, 0, 0, 0, 0, 0x0a0b_0c0d],
    };
    let mut reply = Reply::new(0xdead_beef_baad_f00d, 0, Some(Operation::Init(Init { arg })));
    assert_eq!(reply.wire_len(), 80);
    let bytes = written(&mut reply);
    assert_eq!(bytes.len(), 16 + 64);
    assert_eq!(bytes[0..4], 80u32.to_le_bytes());
    assert_eq!(bytes[4..8], [0, 0, 0, 0]);
    assert_eq!(bytes[8..16], [0x0d, 0xf0, 0xad, 0xba, 0xef, 0xbe, 0xad, 0xde]);
    assert_eq!(bytes[16..20], 7u32.to_le_bytes());
    assert_eq!(bytes[20..24], 8u32.to_le_bytes());
    assert_eq!(bytes[24..28], 4096u32.to_le_bytes());
    assert_eq!(bytes[28..32], 0u32.to_le_bytes());
    assert_eq!(bytes[32..34], [0x02, 0x01]);
    assert_eq!(bytes[34..36], [0x04, 0x03]);
    assert_eq!(bytes[36..40], [0x00, 0x00, 0x10, 0x00]);
    assert_eq!(bytes[40..44], 1u32.to_le_bytes());
    assert_eq!(bytes[44..46], [0x06, 0x05]);
    assert_eq!(bytes[46..48], [0, 0]);
    assert_eq!(bytes[48..76], [0u8; 28]);
    assert_eq!(bytes[76..80], [0x0d, 0x0c, 0x0b, 0x0a]);
    // the reply keeps the length that it was made with
    assert_eq!(reply.header.len, 0);
}

#[test]
fn reply_statfs() {
    let st = fuse_kstatfs {
        blocks: 1,
        bfree: 2,
        bavail: 3,
        files: 4,
        ffree: 5,
        bsize: 6,
        namelen: 7,
        frsize: 8,
        padding: 9,
        spare: [10, 11, 12, 13, 14, 15],
    };
    let mut reply =
        Reply::new(1, 0, Some(Operation::StatFs(StatFs { arg: fuse_statfs_out { st } })));
    let bytes = written(&mut reply);
    assert_eq!(bytes.len(), 96);
    let mut expected = Vec::new();
    for v in 1u64..=5 {
        expected.extend(v.to_le_bytes());
    }
    for v in 6u32..=15 {
        expected.extend(v.to_le_bytes());
    }
    assert_eq!(bytes[16..], expected[..]);
}

#[test]
fn reply_getxattr_and_listxattr() {
    let mut get = GetXAttr {
        arg: fuse_getxattr_out { size: 0x0a0b, padding: 0x0c },
        data: vec![1, 2, 3],
    };
    assert_eq!(get.wire_len(), 11);
    let mut buffer = vec![0x55u8; 16];
    assert_eq!(get.write(&mut buffer), 11);
    assert_eq!(
        buffer,
        vec![0x0b, 0x0a, 0, 0, 0x0c, 0, 0, 0, 1, 2, 3, 0x55, 0x55, 0x55, 0x55, 0x55]
    );

    let mut list = ListXAttr { data: b"user.a\0user.b\0".to_vec() };
    assert_eq!(list.wire_len(), 22);
    let mut buffer = vec![0x55u8; 24];
    assert_eq!(list.write(&mut buffer), 22);
    assert_eq!(buffer[0..4], 14u32.to_le_bytes());
    assert_eq!(buffer[4..8], [0, 0, 0, 0]);
    assert_eq!(buffer[8..22], *b"user.a\0user.b\0");
    assert_eq!(buffer[22..], [0x55, 0x55]);
}

#[test]
fn reply_readlink() {
    let mut link = ReadLink { data: String::from("/tmp/\u{20ac}") };
    assert_eq!(link.wire_len(), 8);
    let mut reply = Reply::new(2, 0, Some(Operation::ReadLink(link)));
    let bytes = written(&mut reply);
    assert_eq!(bytes[0..4], 24u32.to_le_bytes());
    assert_eq!(bytes[16..], [b'/', b't', b'm', b'p', b'/', 0xe2, 0x82, 0xac]);
    link = ReadLink { data: String::new() };
    let mut buffer = [3u8; 4];
    assert_eq!(link.write(&mut buffer), 0);
    assert_eq!(buffer, [3u8; 4]);
}

#[test]
fn try_write_refuses_what_does_not_fit() {
    let mut reply = Reply::new(5, 0, Some(Operation::Read(Read { data: vec![9u8; 10] })));
    assert_eq!(reply.wire_len(), 26);
    let mut small = vec![0x11u8; 25];
    assert_eq!(reply.try_write(&mut small), None);
    assert_eq!(small, vec![0x11u8; 25]);
    let mut exact = vec![0x11u8; 26];
    assert_eq!(reply.try_write(&mut exact), Some(26));
    assert_eq!(exact[0..4], 26u32.to_le_bytes());
    assert_eq!(exact[16..], [9u8; 10]);
    let mut tiny = vec![0x11u8; 15];
    let mut bare = Reply::new(5, 0, None);
    assert_eq!(bare.try_write(&mut tiny), None);
    assert_eq!(tiny, vec![0x11u8; 15]);
}

#[test]
fn reply_set_error_negates() {
    let mut reply = Reply::new(5, 0, Some(Operation::Read(Read { data: vec![9u8; 10] })));
    reply.set_error(Errno::ENOSYS);
    assert_eq!(reply.header.error, -38);
    assert_eq!(reply.header.unique, 5);
    assert!(reply.operation.is_some());
    let bytes = written(&mut reply);
    assert_eq!(bytes.len(), 16);
    assert_eq!(bytes[4..8], (-38i32).to_le_bytes());
}

#[test]
fn operation_write_leaves_the_rest_of_the_buffer() {
    let mut op = Operation::Open(Open { arg: fuse_open_out { fh: 1, open_flags: 2, padding: 3 } });
    assert_eq!(op.wire_len(), 16);
    let mut buffer = vec![0xabu8; 20];
    assert_eq!(op.write(&mut buffer), 16);
    assert_eq!(buffer[0..8], 1u64.to_le_bytes());
    assert_eq!(buffer[8..12], 2u32.to_le_bytes());
    assert_eq!(buffer[12..16], 3u32.to_le_bytes());
    assert_eq!(buffer[16..], [0xab; 4]);
    let mut nothing = Operation::FSync(FSync {});
    assert_eq!(nothing.wire_len(), 0);
    assert_eq!(nothing.write(&mut buffer), 0);
    assert_eq!(buffer[0..8], 1u64.to_le_bytes());
}
