use fuse_session::constants::{S_IFDIR, S_IFIFO, S_IFLNK, S_IFMT, S_IFREG, S_IFSOCK};
use fuse_session::error::Errno;
use fuse_session::messages::codec::{
    get_i32, get_i64, get_u32, get_u64, put_bytes, put_i32, put_i64, put_u16, put_u32, put_u64,
    put_zeros,
};
use fuse_session::messages::fuse_abi::{
    fuse_attr, fuse_dirent, fuse_file_lock, fuse_in_header, fuse_mknod_in, fuse_notify_code,
    fuse_opcode, fuse_out_header, fuse_setattr_in, fuse_statx, fuse_statx_out, fuse_sx_time,
    FUSE_KERNEL_MINOR_VERSION, FUSE_KERNEL_VERSION, FUSE_ROOT_ID,
};
use fuse_session::{supported_init_flags, INIT_FLAGS, MEBI, SIZE_BUFFER, SIZE_CHANNEL};

#[test]
fn integers_are_written_little_endian() {
    let mut buffer = [0xeeu8; 12];
    assert_eq!(put_u32(&mut buffer, 2, 0x0403_0201), 6);
    assert_eq!(buffer, [0xee, 0xee, 1, 2, 3, 4, 0xee, 0xee, 0xee, 0xee, 0xee, 0xee]);
    assert_eq!(put_u16(&mut buffer, 0, 0x0a0b), 2);
    assert_eq!(buffer[0..2], [0x0b, 0x0a]);
    assert_eq!(put_u64(&mut buffer, 4, 0x0807_0605_0403_0201), 12);
    assert_eq!(buffer[4..12], [1, 2, 3, 4, 5, 6, 7, 8]);
    assert_eq!(buffer[2..4], [1, 2]);
    assert_eq!(put_u32(&mut buffer, 8, u32::MAX), 12);
    assert_eq!(buffer[8..12], [0xff; 4]);
    assert_eq!(put_u64(&mut buffer, 0, 0), 8);
    assert_eq!(buffer[0..8], [0; 8]);
}

#[test]
fn signed_integers_are_written_in_twos_complement() {
    let mut buffer = [0u8; 8];
    assert_eq!(put_i32(&mut buffer, 0, -1), 4);
    assert_eq!(buffer, [0xff, 0xff, 0xff, 0xff, 0, 0, 0, 0]);
    assert_eq!(put_i32(&mut buffer, 4, -66), 8);
    assert_eq!(buffer[4..8], [0xbe, 0xff, 0xff, 0xff]);
    assert_eq!(put_i32(&mut buffer, 0, i32::MIN), 4);
    assert_eq!(buffer[0..4], [0, 0, 0, 0x80]);
    assert_eq!(put_i32(&mut buffer, 0, i32::MAX), 4);
    assert_eq!(buffer[0..4], [0xff, 0xff, 0xff, 0x7f]);
    assert_eq!(put_i64(&mut buffer, 0, -2), 8);
    assert_eq!(buffer, [0xfe, 0xff, 0xff, 0xff, 0xff, 0xff, 0xff, 0xff]);
    assert_eq!(put_i64(&mut buffer, 0, i64::MIN), 8);
    assert_eq!(buffer, [0, 0, 0, 0, 0, 0, 0, 0x80]);
    assert_eq!(put_i64(&mut buffer, 0, 0x0102), 8);
    assert_eq!(buffer, [2, 1, 0, 0, 0, 0, 0, 0]);
}

#[test]
fn integers_are_read_little_endian() {
    let bytes = [0x0du8, 0xf0, 0xad, 0xba, 0xef, 0xbe, 0xad, 0xde, 0x38, 0, 0, 0, 0xff];
    assert_eq!(get_u64(&bytes, 0), 0xdead_beef_baad_f00d);
    assert_eq!(get_u32(&bytes, 0), 0xbaad_f00d);
    assert_eq!(get_u32(&bytes, 8), 56);
    assert_eq!(get_u32(&bytes, 9), 0xff00_0000);
    assert_eq!(get_i32(&bytes, 9), -16_777_216);
    assert_eq!(get_i32(&bytes, 8), 56);
    assert_eq!(get_i64(&bytes, 0), 0xdead_beef_baad_f00du64 as i64);
    assert_eq!(get_i64(&bytes, 5), 0xff00_0000_38de_adbeu64 as i64);
}

#[test]
fn integers_round_trip() {
    let mut buffer = [0u8; 8];
    for x in [0u32, 1, 255, 256, 0xffff, 0x1_0000, 0x0102_0304, 0x7fff_ffff, 0x8000_0000, u32::MAX]
    {
        put_u32(&mut buffer, 3, x);
        assert_eq!(get_u32(&buffer, 3), x);
        assert_eq!(buffer[3..7], x.to_le_bytes());
    }
    for x in [0u64, 1, 0xff, 0x1_0000_0000, 0x0102_0304_0506_0708, 1 << 63, u64::MAX] {
        put_u64(&mut buffer, 0, x);
        assert_eq!(get_u64(&buffer, 0), x);
        assert_eq!(buffer, x.to_le_bytes());
    }
    for x in [0i32, 1, -1, 127, -128, i32::MAX, i32::MIN, -5, 0x0102_0304] {
        put_i32(&mut buffer, 1, x);
        assert_eq!(get_i32(&buffer, 1), x);
        assert_eq!(buffer[1..5], x.to_le_bytes());
    }
    for x in [0i64, 1, -1, i64::MAX, i64::MIN, -0x1234_5678_9abc, 0x7654_3210] {
        put_i64(&mut buffer, 0, x);
        assert_eq!(get_i64(&buffer, 0), x);
        assert_eq!(buffer, x.to_le_bytes());
    }
    for x in [0u16, 1, 0x00ff, 0x0100, 0xabcd, u16::MAX] {
        put_u16(&mut buffer, 6, x);
        assert_eq!(buffer[6..8], x.to_le_bytes());
    }
}

#[test]
fn bytes_and_zeros_leave_the_rest() {
    let mut buffer = [9u8; 8];
    assert_eq!(put_bytes(&mut buffer, 1, b"abc"), 4);
    assert_eq!(buffer, [9, b'a', b'b', b'c', 9, 9, 9, 9]);
    assert_eq!(put_zeros(&mut buffer, 5, 2), 7);
    assert_eq!(buffer, [9, b'a', b'b', b'c', 9, 0, 0, 9]);
    assert_eq!(put_bytes(&mut buffer, 8, b""), 8);
    assert_eq!(put_zeros(&mut buffer, 0, 0), 0);
    assert_eq!(buffer, [9, b'a', b'b', b'c', 9, 0, 0, 9]);
}

#[test]
fn records_round_trip() {
    let header = fuse_in_header {
        len: 56,
        opcode: 26,
        unique: 0xdead_beef_baad_f00d,
        nodeid: 0x1122_3344_5566_7788,
        uid: 0xc001_d00d,
        gid: 0xc001_cafe,
        pid: 0xc0de_ba5e,
        padding: 0,
    };
    let mut buffer = [0x5au8; 48];
    assert_eq!(header.write_at(&mut buffer, 4), 44);
    assert_eq!(
        buffer[4..44],
        [
            0x38, 0x00, 0x00, 0x00, 0x1a, 0x00, 0x00, 0x00, // len, opcode
            0x0d, 0xf0, 0xad, 0xba, 0xef, 0xbe, 0xad, 0xde, // unique
            0x88, 0x77, 0x66, 0x55, 0x44, 0x33, 0x22, 0x11, // nodeid
            0x0d, 0xd0, 0x01, 0xc0, 0xfe, 0xca, 0x01, 0xc0, // uid, gid
            0x5e, 0xba, 0xde, 0xc0, 0x00, 0x00, 0x00, 0x00, // pid, padding
        ]
    );
    assert_eq!(buffer[0..4], [0x5a; 4]);
    assert_eq!(buffer[44..], [0x5a; 4]);
    let back = fuse_in_header::read_at(&buffer, 4);
    assert_eq!(back.len, 56);
    assert_eq!(back.opcode, 26);
    assert_eq!(back.unique, header.unique);
    assert_eq!(back.nodeid, header.nodeid);
    assert_eq!((back.uid, back.gid), (header.uid, header.gid));
    assert_eq!((back.pid, back.padding), (header.pid, 0));

    let lock = fuse_file_lock { start: 1, end: u64::MAX, typ: -2, pid: 77 };
    let mut buffer = [0u8; 24];
    assert_eq!(lock.write_at(&mut buffer, 0), 24);
    let back = fuse_file_lock::read_at(&buffer, 0);
    assert_eq!((back.start, back.end, back.typ, back.pid), (1, u64::MAX, -2, 77));

    let mknod = fuse_mknod_in { mode: 0o644, rdev: 3, umask: 0o755, padding: 999 };
    let mut buffer = [0u8; 16];
    assert_eq!(mknod.write_at(&mut buffer, 0), 16);
    assert_eq!(buffer, [0xa4, 1, 0, 0, 3, 0, 0, 0, 0xed, 1, 0, 0, 0xe7, 3, 0, 0]);

    let out = fuse_out_header { len: 16, error: -5, unique: 3 };
    let mut buffer = [0u8; 16];
    assert_eq!(out.write_at(&mut buffer, 0), 16);
    let back = fuse_out_header::read_at(&buffer, 0);
    assert_eq!((back.len, back.error, back.unique), (16, -5, 3));
}

#[test]
fn record_sizes() {
    assert_eq!(fuse_in_header::SIZE, 40);
    assert_eq!(fuse_out_header::SIZE, 16);
    assert_eq!(fuse_attr::SIZE, 88);
    assert_eq!(fuse_dirent::SIZE, 24);
    assert_eq!(fuse_setattr_in::SIZE, 88);
    assert_eq!(fuse_mknod_in::SIZE, 16);
    assert_eq!(fuse_statx::SIZE, 256);
    assert_eq!(fuse_statx_out::SIZE, 288);
}

#[test]
fn statx_is_written_whole() {
    let time = |s: i64| fuse_sx_time { tv_sec: s, tv_nsec: 7, __reserved: -1 };
    let mut spare = [0u64; 14];
    spare[13] = 0x0102;
    let stat = fuse_statx {
        mask: 1,
        blksize: 2,
        attributes: 3,
        nlink: 4,
        uid: 5,
        gid: 6,
        mode: 0x81a4,
        __spare0: [0x0b0c],
        ino: 8,
        size: 9,
        blocks: 10,
        attributes_mask: 11,
        atime: time(12),
        btime: time(13),
        ctime: time(-14),
        mtime: time(15),
        rdev_major: 16,
        rdev_minor: 17,
        dev_major: 18,
        dev_minor: 19,
        __spare2: spare,
    };
    let out =
        fuse_statx_out { attr_valid: 20, attr_valid_nsec: 21, flags: 22, spare: [23, 24], stat };
    let mut buffer = vec![0xffu8; 300];
    assert_eq!(out.write_at(&mut buffer, 6), 294);
    assert_eq!(buffer[..6], [0xff; 6]);
    assert_eq!(buffer[294..], [0xff; 6]);
    let b = &buffer[6..294];
    assert_eq!(b[0..8], 20u64.to_le_bytes());
    assert_eq!(b[8..12], 21u32.to_le_bytes());
    assert_eq!(b[12..16], 22u32.to_le_bytes());
    assert_eq!(b[16..24], 23u64.to_le_bytes());
    assert_eq!(b[24..32], 24u64.to_le_bytes());
    let s = &b[32..];
    assert_eq!(s[0..4], 1u32.to_le_bytes());
    assert_eq!(s[28..30], [0xa4, 0x81]);
    assert_eq!(s[30..32], [0x0c, 0x0b]);
    assert_eq!(s[32..40], 8u64.to_le_bytes());
    assert_eq!(s[64..72], 12i64.to_le_bytes());
    assert_eq!(s[72..76], 7u32.to_le_bytes());
    assert_eq!(s[76..80], [0xff; 4]);
    assert_eq!(s[96..104], (-14i64).to_le_bytes());
    assert_eq!(s[128..132], 16u32.to_le_bytes());
    assert_eq!(s[140..144], 19u32.to_le_bytes());
    assert_eq!(s[144..248], [0u8; 104]);
    assert_eq!(s[248..256], 0x0102u64.to_le_bytes());
}

#[test]
fn opcodes_by_number() {
    let known = [
        1u32, 2, 3, 4, 5, 6, 8, 9, 10, 11, 12, 13, 14, 15, 16, 17, 18, 20, 21, 22, 23, 24, 25, 26,
        27, 28, 29, 30, 31, 32, 33, 34, 35, 36, 37, 38, 39, 40, 41, 42, 43, 44, 45, 46, 47, 48,
        49, 50, 51, 52, 4096,
    ];
    for n in 0u32..5000 {
        assert_eq!(fuse_opcode::try_from(n).is_ok(), known.contains(&n), "opcode {}", n);
    }
    assert!(matches!(fuse_opcode::try_from(1), Ok(fuse_opcode::FUSE_LOOKUP)));
    assert!(matches!(fuse_opcode::try_from(8), Ok(fuse_opcode::FUSE_MKNOD)));
    assert!(matches!(fuse_opcode::try_from(26), Ok(fuse_opcode::FUSE_INIT)));
    assert!(matches!(fuse_opcode::try_from(52), Ok(fuse_opcode::FUSE_STATX)));
    assert!(matches!(fuse_opcode::try_from(4096), Ok(fuse_opcode::CUSE_INIT)));
    assert!(fuse_opcode::try_from(7).is_err());
    assert!(fuse_opcode::try_from(u32::MAX).is_err());
}

#[test]
fn notify_codes_by_number() {
    assert!(matches!(fuse_notify_code::try_from(1), Ok(fuse_notify_code::FUSE_POLL)));
    assert!(matches!(fuse_notify_code::try_from(2), Ok(fuse_notify_code::FUSE_NOTIFY_INVAL_INODE)));
    assert!(matches!(fuse_notify_code::try_from(3), Ok(fuse_notify_code::FUSE_NOTIFY_INVAL_ENTRY)));
    assert!(matches!(fuse_notify_code::try_from(4), Ok(fuse_notify_code::FUSE_NOTIFY_STORE)));
    assert!(matches!(fuse_notify_code::try_from(5), Ok(fuse_notify_code::FUSE_NOTIFY_RETRIEVE)));
    assert!(matches!(fuse_notify_code::try_from(6), Ok(fuse_notify_code::FUSE_NOTIFY_DELETE)));
    assert!(fuse_notify_code::try_from(0).is_err());
    assert!(fuse_notify_code::try_from(7).is_err());
}

#[test]
fn out_header_from_in_header() {
    let header = fuse_in_header {
        len: 56,
        opcode: 26,
        unique: 0xdead_beef,
        nodeid: 1,
        uid: 2,
        gid: 3,
        pid: 4,
        padding: 5,
    };
    let mut out = fuse_out_header::from(header);
    assert_eq!((out.len, out.error, out.unique), (0, 0, 0xdead_beef));
    out.set_error(Errno::EIO);
    assert_eq!((out.len, out.error, out.unique), (0, -5, 0xdead_beef));
    out.set_error(Errno::ENOTSUP);
    assert_eq!(out.error, -95);
}

#[test]
fn dirent_type_from_mode() {
    let mut dirent = fuse_dirent { ino: 1, off: 2, namelen: 3, typ: 0 };
    for (kind, typ) in [
        (S_IFDIR, 4u32),
        (S_IFREG, 8),
        (S_IFLNK, 10),
        (S_IFSOCK, 12),
        (S_IFIFO, 1),
        (S_IFREG | 0o644, 8),
        (S_IFDIR | 0o7777, 4),
        (0o644, 0),
        (0xffff_0000 | S_IFDIR, 4),
    ] {
        dirent.set_type(kind);
        assert_eq!(dirent.typ, typ);
        assert_eq!(dirent.typ, (kind & S_IFMT) >> 12);
    }
    assert_eq!((dirent.ino, dirent.off, dirent.namelen), (1, 2, 3));
    assert_eq!(S_IFDIR, libc::S_IFDIR);
    assert_eq!(S_IFREG, libc::S_IFREG);
    assert_eq!(S_IFMT, libc::S_IFMT);
}

#[test]
fn init_flags() {
    assert_eq!(INIT_FLAGS, 0x803d);
    assert_eq!(supported_init_flags(), 0x0040_847d);
    assert_eq!(supported_init_flags() & INIT_FLAGS, INIT_FLAGS);
    // what the later versions of the interface added
    assert_eq!(supported_init_flags() & !INIT_FLAGS, (1 << 6) | (1 << 10) | (1 << 22));
}

#[test]
fn constants_of_the_interface() {
    assert_eq!(FUSE_KERNEL_VERSION, 7);
    assert_eq!(FUSE_KERNEL_MINOR_VERSION, 31);
    assert_eq!(FUSE_ROOT_ID, 1);
    assert_eq!(MEBI, 1 << 20);
    assert_eq!(SIZE_BUFFER as u64, 16 * MEBI);
    assert_eq!(SIZE_CHANNEL, 32);
}

#[test]
fn errno_numbers_are_those_of_the_system() {
    let table = [
        (Errno::EPERM, libc::EPERM),
        (Errno::ENOENT, libc::ENOENT),
        (Errno::ESRCH, libc::ESRCH),
        (Errno::EINTR, libc::EINTR),
        (Errno::EIO, libc::EIO),
        (Errno::ENXIO, libc::ENXIO),
        (Errno::E2BIG, libc::E2BIG),
        (Errno::ENOEXEC, libc::ENOEXEC),
        (Errno::EBADF, libc::EBADF),
        (Errno::ECHILD, libc::ECHILD),
        (Errno::EAGAIN, libc::EAGAIN),
        (Errno::ENOMEM, libc::ENOMEM),
        (Errno::EACCES, libc::EACCES),
        (Errno::EFAULT, libc::EFAULT),
        (Errno::ENOTBLK, libc::ENOTBLK),
        (Errno::EBUSY, libc::EBUSY),
        (Errno::EEXIST, libc::EEXIST),
        (Errno::EXDEV, libc::EXDEV),
        (Errno::ENODEV, libc::ENODEV),
        (Errno::ENOTDIR, libc::ENOTDIR),
        (Errno::EISDIR, libc::EISDIR),
        (Errno::EINVAL, libc::EINVAL),
        (Errno::ENFILE, libc::ENFILE),
        (Errno::EMFILE, libc::EMFILE),
        (Errno::ENOTTY, libc::ENOTTY),
        (Errno::ETXTBSY, libc::ETXTBSY),
        (Errno::EFBIG, libc::EFBIG),
        (Errno::ENOSPC, libc::ENOSPC),
        (Errno::ESPIPE, libc::ESPIPE),
        (Errno::EROFS, libc::EROFS),
        (Errno::EMLINK, libc::EMLINK),
        (Errno::EPIPE, libc::EPIPE),
        (Errno::EDOM, libc::EDOM),
        (Errno::ERANGE, libc::ERANGE),
        (Errno::EDEADLK, libc::EDEADLK),
        (Errno::ENAMETOOLONG, libc::ENAMETOOLONG),
        (Errno::ENOLCK, libc::ENOLCK),
        (Errno::ENOSYS, libc::ENOSYS),
        (Errno::ENOTEMPTY, libc::ENOTEMPTY),
        (Errno::ELOOP, libc::ELOOP),
        (Errno::ENODATA, libc::ENODATA),
        (Errno::EREMOTE, libc::EREMOTE),
        (Errno::EPROTO, libc::EPROTO),
        (Errno::EOVERFLOW, libc::EOVERFLOW),
        (Errno::ENOTSUP, libc::ENOTSUP),
        (Errno::ETIMEDOUT, libc::ETIMEDOUT),
        (Errno::ESTALE, libc::ESTALE),
        (Errno::EDQUOT, libc::EDQUOT),
        (Errno::ECANCELED, libc::ECANCELED),
    ];
    for (errno, code) in table {
        assert_eq!(errno.code(), code);
        assert_eq!(errno.to_wire(), -code);
        assert_eq!(Errno::from_code(code), Some(errno));
        assert_eq!(Errno::from_raw_os_error(Some(code)), errno);
    }
    for code in [0, -1, -5, 41, 60, 4095, i32::MAX, i32::MIN] {
        assert_eq!(Errno::from_code(code), None);
        assert_eq!(Errno::from_raw_os_error(Some(code)), Errno::EIO);
    }
    assert_eq!(Errno::from_raw_os_error(None), Errno::EIO);
}
