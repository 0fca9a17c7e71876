//! FUSE kernel interface.
//!
//! Types and definitions used for communication between the kernel driver and
//! the userspace part of a FUSE filesystem. The kernel driver may be installed
//! independently, so the interface is versioned, and capabilities are exchanged
//! when a filesystem is mounted.
//!
//! The records here have the layout of ABI 7.39 on Linux. A record has the
//! layout of the C struct of the same name: the fields in order, without
//! padding between them, each integer in little-endian byte order. `wire`
//! states that layout, and `decode` states what is read from bytes that are
//! laid out so; for a record that is read, the two are shown to undo each
//! other.
//!
//! The version that is announced to the kernel is 7.31: of what the interface
//! gained later, the records and opcodes are here, and no behaviour.
#![allow(non_camel_case_types)]

use crate::constants::{FATTR_ATIME_NOW, FATTR_MTIME_NOW, S_IFMT};
use crate::error::Errno;
use crate::messages::codec::{
    get_i32, get_i64, get_u32, get_u64, group_le_len, i32_at, i64_at, le_i32, le_i64, le_u16,
    le_u32, le_u64, lemma_i32_at, lemma_i32_bytes_round_trip, lemma_i64_at,
    lemma_i64_bytes_round_trip, lemma_subrange_of_subrange, lemma_u32_at,
    lemma_u32_bytes_round_trip, lemma_u64_at, lemma_u64_bytes_round_trip, splice, u32_at, u64_at,
    Cursor,
};
use vstd::prelude::*;

verus! {

broadcast use group_le_len;

/// Major version of the kernel interface.
pub const FUSE_KERNEL_VERSION: u32 = 7;

/// Minor version of the kernel interface, as it is announced to the kernel.
pub const FUSE_KERNEL_MINOR_VERSION: u32 = 31;

/// Node id of the root of a filesystem.
pub const FUSE_ROOT_ID: u64 = 1;

/// Attributes of an inode, as `stat` reports them.
///
/// The three times are signed, to match `stat`: a negative time lies before the
/// epoch.
#[derive(Debug, Clone, Copy)]
pub struct fuse_attr {
    /// Inode number
    pub ino: u64,
    /// Size of the object in bytes
    pub size: u64,
    /// Number of 512-byte blocks allocated
    pub blocks: u64,
    /// Time of last access, seconds
    pub atime: i64,
    /// Time of last modification, seconds
    pub mtime: i64,
    /// Time of last status change, seconds
    pub ctime: i64,
    pub atimensec: u32,
    pub mtimensec: u32,
    pub ctimensec: u32,
    /// File type and permissions, as in `st_mode`
    pub mode: u32,
    /// Number of hard links
    pub nlink: u32,
    pub uid: u32,
    pub gid: u32,
    /// Device ID, if the inode is a special file
    pub rdev: u32,
    pub blksize: u32,
    pub padding: u32,
}

impl fuse_attr {
    /// Number of bytes that the record takes on the wire.
    pub const SIZE: usize = 88;

    /// The record on the wire: its fields in order, each little-endian.
    pub open spec fn wire(self) -> Seq<u8> {
        le_u64(self.ino) + le_u64(self.size) + le_u64(self.blocks) + le_i64(self.atime)
        + le_i64(self.mtime) + le_i64(self.ctime) + le_u32(self.atimensec)
        + le_u32(self.mtimensec) + le_u32(self.ctimensec) + le_u32(self.mode)
        + le_u32(self.nlink) + le_u32(self.uid) + le_u32(self.gid) + le_u32(self.rdev)
        + le_u32(self.blksize) + le_u32(self.padding)
    }

    /// Writes the record into `buffer` at `at` and returns the offset behind it.
    pub fn write_at(&self, buffer: &mut [u8], at: usize) -> (end: usize)
        requires
            at + 88 <= old(buffer)@.len(),
        ensures
            end == at + 88,
            self.wire().len() == 88,
            final(buffer)@.len() == old(buffer)@.len(),
            final(buffer)@ == splice(old(buffer)@, at as int, self.wire()),
    {
        let mut c = Cursor::begin(buffer, at);
        c.put_u64(buffer, self.ino);
        c.put_u64(buffer, self.size);
        c.put_u64(buffer, self.blocks);
        c.put_i64(buffer, self.atime);
        c.put_i64(buffer, self.mtime);
        c.put_i64(buffer, self.ctime);
        c.put_u32(buffer, self.atimensec);
        c.put_u32(buffer, self.mtimensec);
        c.put_u32(buffer, self.ctimensec);
        c.put_u32(buffer, self.mode);
        c.put_u32(buffer, self.nlink);
        c.put_u32(buffer, self.uid);
        c.put_u32(buffer, self.gid);
        c.put_u32(buffer, self.rdev);
        c.put_u32(buffer, self.blksize);
        c.put_u32(buffer, self.padding);
        c.pos
    }

    /// Writes the record at the cursor `c`.
    pub fn emit(&self, c: &mut Cursor, buffer: &mut [u8])
        requires
            old(c).tracks(old(buffer)@),
            old(c).pos + 88 <= old(buffer)@.len(),
        ensures
            final(c).tracks(final(buffer)@),
            old(c).extends(*final(c), self.wire()),
            self.wire().len() == 88,
    {
        let ghost before = buffer@;
        let end = self.write_at(buffer, c.pos);
        c.advance(buffer, end, Ghost(before), Ghost(self.wire()));
    }
}

/// Filesystem statistics, as `statfs` reports them.
#[derive(Debug, Clone, Copy)]
pub struct fuse_kstatfs {
    /// Total number of blocks, in units of `frsize`
    pub blocks: u64,
    /// Free blocks
    pub bfree: u64,
    /// Free blocks for unprivileged users
    pub bavail: u64,
    /// Total allocated inodes
    pub files: u64,
    /// Number of free inodes
    pub ffree: u64,
    /// Filesystem block size
    pub bsize: u32,
    /// Maximum filename length
    pub namelen: u32,
    /// Fragment size: the fundamental block size of the filesystem
    pub frsize: u32,
    pub padding: u32,
    pub spare: [u32; 6],
}

impl fuse_kstatfs {
    /// Number of bytes that the record takes on the wire.
    pub const SIZE: usize = 80;

    /// The record on the wire: its fields in order, each little-endian.
    pub open spec fn wire(self) -> Seq<u8> {
        le_u64(self.blocks) + le_u64(self.bfree) + le_u64(self.bavail) + le_u64(self.files)
        + le_u64(self.ffree) + le_u32(self.bsize) + le_u32(self.namelen) + le_u32(self.frsize)
        + le_u32(self.padding) + le_u32(self.spare[0]) + le_u32(self.spare[1])
        + le_u32(self.spare[2]) + le_u32(self.spare[3]) + le_u32(self.spare[4])
        + le_u32(self.spare[5])
    }

    /// Writes the record into `buffer` at `at` and returns the offset behind it.
    pub fn write_at(&self, buffer: &mut [u8], at: usize) -> (end: usize)
        requires
            at + 80 <= old(buffer)@.len(),
        ensures
            end == at + 80,
            self.wire().len() == 80,
            final(buffer)@.len() == old(buffer)@.len(),
            final(buffer)@ == splice(old(buffer)@, at as int, self.wire()),
    {
        let mut c = Cursor::begin(buffer, at);
        c.put_u64(buffer, self.blocks);
        c.put_u64(buffer, self.bfree);
        c.put_u64(buffer, self.bavail);
        c.put_u64(buffer, self.files);
        c.put_u64(buffer, self.ffree);
        c.put_u32(buffer, self.bsize);
        c.put_u32(buffer, self.namelen);
        c.put_u32(buffer, self.frsize);
        c.put_u32(buffer, self.padding);
        c.put_u32(buffer, self.spare[0]);
        c.put_u32(buffer, self.spare[1]);
        c.put_u32(buffer, self.spare[2]);
        c.put_u32(buffer, self.spare[3]);
        c.put_u32(buffer, self.spare[4]);
        c.put_u32(buffer, self.spare[5]);
        c.pos
    }

    /// Writes the record at the cursor `c`.
    pub fn emit(&self, c: &mut Cursor, buffer: &mut [u8])
        requires
            old(c).tracks(old(buffer)@),
            old(c).pos + 80 <= old(buffer)@.len(),
        ensures
            final(c).tracks(final(buffer)@),
            old(c).extends(*final(c), self.wire()),
            self.wire().len() == 80,
    {
        let ghost before = buffer@;
        let end = self.write_at(buffer, c.pos);
        c.advance(buffer, end, Ghost(before), Ghost(self.wire()));
    }
}

/// A POSIX byte-range lock.
#[derive(Debug, Clone, Copy)]
pub struct fuse_file_lock {
    pub start: u64,
    pub end: u64,
    /// Lock type; signed, as `fcntl` has it
    pub typ: i32,
    pub pid: u32,
}

impl fuse_file_lock {
    /// Number of bytes that the record takes on the wire.
    pub const SIZE: usize = 24;

    /// The record on the wire: its fields in order, each little-endian.
    pub open spec fn wire(self) -> Seq<u8> {
        le_u64(self.start) + le_u64(self.end) + le_i32(self.typ) + le_u32(self.pid)
    }

    /// Writes the record into `buffer` at `at` and returns the offset behind it.
    pub fn write_at(&self, buffer: &mut [u8], at: usize) -> (end: usize)
        requires
            at + 24 <= old(buffer)@.len(),
        ensures
            end == at + 24,
            self.wire().len() == 24,
            final(buffer)@.len() == old(buffer)@.len(),
            final(buffer)@ == splice(old(buffer)@, at as int, self.wire()),
    {
        let mut c = Cursor::begin(buffer, at);
        c.put_u64(buffer, self.start);
        c.put_u64(buffer, self.end);
        c.put_i32(buffer, self.typ);
        c.put_u32(buffer, self.pid);
        c.pos
    }

    /// Writes the record at the cursor `c`.
    pub fn emit(&self, c: &mut Cursor, buffer: &mut [u8])
        requires
            old(c).tracks(old(buffer)@),
            old(c).pos + 24 <= old(buffer)@.len(),
        ensures
            final(c).tracks(final(buffer)@),
            old(c).extends(*final(c), self.wire()),
            self.wire().len() == 24,
    {
        let ghost before = buffer@;
        let end = self.write_at(buffer, c.pos);
        c.advance(buffer, end, Ghost(before), Ghost(self.wire()));
    }

    /// The record whose bytes start at `b[at]`.
    pub open spec fn decode(b: Seq<u8>, at: int) -> Self {
        fuse_file_lock {
            start: u64_at(b, at),
            end: u64_at(b, at + 8),
            typ: i32_at(b, at + 16),
            pid: u32_at(b, at + 20),
        }
    }

    /// Reads the record whose bytes start at `bytes[at]`.
    pub fn read_at(bytes: &[u8], at: usize) -> (r: Self)
        requires
            at + 24 <= bytes.len(),
        ensures
            r == Self::decode(bytes@, at as int),
    {
        fuse_file_lock {
            start: get_u64(bytes, at),
            end: get_u64(bytes, at + 8),
            typ: get_i32(bytes, at + 16),
            pid: get_u32(bytes, at + 20),
        }
    }

    /// The record is read back from wherever its bytes stand.
    pub proof fn lemma_decode_wire(self, b: Seq<u8>, at: int)
        requires
            0 <= at,
            at + 24 <= b.len(),
            b.subrange(at, at + 24) == self.wire(),
        ensures
            Self::decode(b, at) == self,
    {
        assert(self.wire().subrange(0, 8) =~= le_u64(self.start));
        lemma_subrange_of_subrange(b, at, 24, 0, 8);
        lemma_u64_at(b, at, self.start);
        assert(self.wire().subrange(8, 16) =~= le_u64(self.end));
        lemma_subrange_of_subrange(b, at, 24, 8, 16);
        lemma_u64_at(b, at + 8, self.end);
        assert(self.wire().subrange(16, 20) =~= le_i32(self.typ));
        lemma_subrange_of_subrange(b, at, 24, 16, 20);
        lemma_i32_at(b, at + 16, self.typ);
        assert(self.wire().subrange(20, 24) =~= le_u32(self.pid));
        lemma_subrange_of_subrange(b, at, 24, 20, 24);
        lemma_u32_at(b, at + 20, self.pid);
    }

    /// What is read takes up the bytes that it is read from, and no others:
    /// writing it gives them again.
    pub proof fn lemma_wire_decode(b: Seq<u8>, at: int)
        requires
            0 <= at,
            at + 24 <= b.len(),
        ensures
            Self::decode(b, at).wire() == b.subrange(at, at + 24),
    {
        lemma_u64_bytes_round_trip(b, at);
        lemma_u64_bytes_round_trip(b, at + 8);
        lemma_i32_bytes_round_trip(b, at + 16);
        lemma_u32_bytes_round_trip(b, at + 20);
        assert(Self::decode(b, at).wire() =~= b.subrange(at, at + 24));
    }
}

/// Invalid opcode error.
#[derive(Debug)]
pub struct InvalidOpcodeError;

/// The kinds of request that the kernel sends.
#[derive(Debug)]
pub enum fuse_opcode {
    FUSE_LOOKUP,
    FUSE_FORGET,
    FUSE_GETATTR,
    FUSE_SETATTR,
    FUSE_READLINK,
    FUSE_SYMLINK,
    FUSE_MKNOD,
    FUSE_MKDIR,
    FUSE_UNLINK,
    FUSE_RMDIR,
    FUSE_RENAME,
    FUSE_LINK,
    FUSE_OPEN,
    FUSE_READ,
    FUSE_WRITE,
    FUSE_STATFS,
    FUSE_RELEASE,
    FUSE_FSYNC,
    FUSE_SETXATTR,
    FUSE_GETXATTR,
    FUSE_LISTXATTR,
    FUSE_REMOVEXATTR,
    FUSE_FLUSH,
    FUSE_INIT,
    FUSE_OPENDIR,
    FUSE_READDIR,
    FUSE_RELEASEDIR,
    FUSE_FSYNCDIR,
    FUSE_GETLK,
    FUSE_SETLK,
    FUSE_SETLKW,
    FUSE_ACCESS,
    FUSE_CREATE,
    FUSE_INTERRUPT,
    FUSE_BMAP,
    FUSE_DESTROY,
    FUSE_IOCTL,
    FUSE_POLL,
    FUSE_NOTIFY_REPLY,
    FUSE_BATCH_FORGET,
    FUSE_FALLOCATE,
    FUSE_READDIRPLUS,
    FUSE_RENAME2,
    FUSE_LSEEK,
    FUSE_COPY_FILE_RANGE,
    FUSE_SETUPMAPPING,
    FUSE_REMOVEMAPPING,
    FUSE_SYNCFS,
    FUSE_TMPFILE,
    FUSE_STATX,
    CUSE_INIT,
}

impl fuse_opcode {
    /// The number that stands for the opcode in a request header.
    pub open spec fn number(self) -> u32 {
        match self {
            fuse_opcode::FUSE_LOOKUP => 1,
            fuse_opcode::FUSE_FORGET => 2,
            fuse_opcode::FUSE_GETATTR => 3,
            fuse_opcode::FUSE_SETATTR => 4,
            fuse_opcode::FUSE_READLINK => 5,
            fuse_opcode::FUSE_SYMLINK => 6,
            fuse_opcode::FUSE_MKNOD => 8,
            fuse_opcode::FUSE_MKDIR => 9,
            fuse_opcode::FUSE_UNLINK => 10,
            fuse_opcode::FUSE_RMDIR => 11,
            fuse_opcode::FUSE_RENAME => 12,
            fuse_opcode::FUSE_LINK => 13,
            fuse_opcode::FUSE_OPEN => 14,
            fuse_opcode::FUSE_READ => 15,
            fuse_opcode::FUSE_WRITE => 16,
            fuse_opcode::FUSE_STATFS => 17,
            fuse_opcode::FUSE_RELEASE => 18,
            fuse_opcode::FUSE_FSYNC => 20,
            fuse_opcode::FUSE_SETXATTR => 21,
            fuse_opcode::FUSE_GETXATTR => 22,
            fuse_opcode::FUSE_LISTXATTR => 23,
            fuse_opcode::FUSE_REMOVEXATTR => 24,
            fuse_opcode::FUSE_FLUSH => 25,
            fuse_opcode::FUSE_INIT => 26,
            fuse_opcode::FUSE_OPENDIR => 27,
            fuse_opcode::FUSE_READDIR => 28,
            fuse_opcode::FUSE_RELEASEDIR => 29,
            fuse_opcode::FUSE_FSYNCDIR => 30,
            fuse_opcode::FUSE_GETLK => 31,
            fuse_opcode::FUSE_SETLK => 32,
            fuse_opcode::FUSE_SETLKW => 33,
            fuse_opcode::FUSE_ACCESS => 34,
            fuse_opcode::FUSE_CREATE => 35,
            fuse_opcode::FUSE_INTERRUPT => 36,
            fuse_opcode::FUSE_BMAP => 37,
            fuse_opcode::FUSE_DESTROY => 38,
            fuse_opcode::FUSE_IOCTL => 39,
            fuse_opcode::FUSE_POLL => 40,
            fuse_opcode::FUSE_NOTIFY_REPLY => 41,
            fuse_opcode::FUSE_BATCH_FORGET => 42,
            fuse_opcode::FUSE_FALLOCATE => 43,
            fuse_opcode::FUSE_READDIRPLUS => 44,
            fuse_opcode::FUSE_RENAME2 => 45,
            fuse_opcode::FUSE_LSEEK => 46,
            fuse_opcode::FUSE_COPY_FILE_RANGE => 47,
            fuse_opcode::FUSE_SETUPMAPPING => 48,
            fuse_opcode::FUSE_REMOVEMAPPING => 49,
            fuse_opcode::FUSE_SYNCFS => 50,
            fuse_opcode::FUSE_TMPFILE => 51,
            fuse_opcode::FUSE_STATX => 52,
            fuse_opcode::CUSE_INIT => 4096,
        }
    }
}

impl TryFrom<u32> for fuse_opcode {
    type Error = InvalidOpcodeError;

    /// The code with the number `n`, or an error where no code has it.
    fn try_from(n: u32) -> (r: Result<Self, Self::Error>)
        ensures
            r matches Ok(code) ==> code.number() == n,
            r is Err <==> forall|code: fuse_opcode| code.number() != n,
    {
        match n {
            1 => Ok(fuse_opcode::FUSE_LOOKUP),
            2 => Ok(fuse_opcode::FUSE_FORGET),
            3 => Ok(fuse_opcode::FUSE_GETATTR),
            4 => Ok(fuse_opcode::FUSE_SETATTR),
            5 => Ok(fuse_opcode::FUSE_READLINK),
            6 => Ok(fuse_opcode::FUSE_SYMLINK),
            8 => Ok(fuse_opcode::FUSE_MKNOD),
            9 => Ok(fuse_opcode::FUSE_MKDIR),
            10 => Ok(fuse_opcode::FUSE_UNLINK),
            11 => Ok(fuse_opcode::FUSE_RMDIR),
            12 => Ok(fuse_opcode::FUSE_RENAME),
            13 => Ok(fuse_opcode::FUSE_LINK),
            14 => Ok(fuse_opcode::FUSE_OPEN),
            15 => Ok(fuse_opcode::FUSE_READ),
            16 => Ok(fuse_opcode::FUSE_WRITE),
            17 => Ok(fuse_opcode::FUSE_STATFS),
            18 => Ok(fuse_opcode::FUSE_RELEASE),
            20 => Ok(fuse_opcode::FUSE_FSYNC),
            21 => Ok(fuse_opcode::FUSE_SETXATTR),
            22 => Ok(fuse_opcode::FUSE_GETXATTR),
            23 => Ok(fuse_opcode::FUSE_LISTXATTR),
            24 => Ok(fuse_opcode::FUSE_REMOVEXATTR),
            25 => Ok(fuse_opcode::FUSE_FLUSH),
            26 => Ok(fuse_opcode::FUSE_INIT),
            27 => Ok(fuse_opcode::FUSE_OPENDIR),
            28 => Ok(fuse_opcode::FUSE_READDIR),
            29 => Ok(fuse_opcode::FUSE_RELEASEDIR),
            30 => Ok(fuse_opcode::FUSE_FSYNCDIR),
            31 => Ok(fuse_opcode::FUSE_GETLK),
            32 => Ok(fuse_opcode::FUSE_SETLK),
            33 => Ok(fuse_opcode::FUSE_SETLKW),
            34 => Ok(fuse_opcode::FUSE_ACCESS),
            35 => Ok(fuse_opcode::FUSE_CREATE),
            36 => Ok(fuse_opcode::FUSE_INTERRUPT),
            37 => Ok(fuse_opcode::FUSE_BMAP),
            38 => Ok(fuse_opcode::FUSE_DESTROY),
            39 => Ok(fuse_opcode::FUSE_IOCTL),
            40 => Ok(fuse_opcode::FUSE_POLL),
            41 => Ok(fuse_opcode::FUSE_NOTIFY_REPLY),
            42 => Ok(fuse_opcode::FUSE_BATCH_FORGET),
            43 => Ok(fuse_opcode::FUSE_FALLOCATE),
            44 => Ok(fuse_opcode::FUSE_READDIRPLUS),
            45 => Ok(fuse_opcode::FUSE_RENAME2),
            46 => Ok(fuse_opcode::FUSE_LSEEK),
            47 => Ok(fuse_opcode::FUSE_COPY_FILE_RANGE),
            48 => Ok(fuse_opcode::FUSE_SETUPMAPPING),
            49 => Ok(fuse_opcode::FUSE_REMOVEMAPPING),
            50 => Ok(fuse_opcode::FUSE_SYNCFS),
            51 => Ok(fuse_opcode::FUSE_TMPFILE),
            52 => Ok(fuse_opcode::FUSE_STATX),
            4096 => Ok(fuse_opcode::CUSE_INIT),
            _ => Err(InvalidOpcodeError),
        }
    }
}

impl vstd::std_specs::convert::TryFromSpecImpl<u32> for fuse_opcode {
    open spec fn obeys_try_from_spec() -> bool {
        true
    }

    open spec fn try_from_spec(n: u32) -> Result<Self, Self::Error> {
        match n {
            1 => Ok(fuse_opcode::FUSE_LOOKUP),
            2 => Ok(fuse_opcode::FUSE_FORGET),
            3 => Ok(fuse_opcode::FUSE_GETATTR),
            4 => Ok(fuse_opcode::FUSE_SETATTR),
            5 => Ok(fuse_opcode::FUSE_READLINK),
            6 => Ok(fuse_opcode::FUSE_SYMLINK),
            8 => Ok(fuse_opcode::FUSE_MKNOD),
            9 => Ok(fuse_opcode::FUSE_MKDIR),
            10 => Ok(fuse_opcode::FUSE_UNLINK),
            11 => Ok(fuse_opcode::FUSE_RMDIR),
            12 => Ok(fuse_opcode::FUSE_RENAME),
            13 => Ok(fuse_opcode::FUSE_LINK),
            14 => Ok(fuse_opcode::FUSE_OPEN),
            15 => Ok(fuse_opcode::FUSE_READ),
            16 => Ok(fuse_opcode::FUSE_WRITE),
            17 => Ok(fuse_opcode::FUSE_STATFS),
            18 => Ok(fuse_opcode::FUSE_RELEASE),
            20 => Ok(fuse_opcode::FUSE_FSYNC),
            21 => Ok(fuse_opcode::FUSE_SETXATTR),
            22 => Ok(fuse_opcode::FUSE_GETXATTR),
            23 => Ok(fuse_opcode::FUSE_LISTXATTR),
            24 => Ok(fuse_opcode::FUSE_REMOVEXATTR),
            25 => Ok(fuse_opcode::FUSE_FLUSH),
            26 => Ok(fuse_opcode::FUSE_INIT),
            27 => Ok(fuse_opcode::FUSE_OPENDIR),
            28 => Ok(fuse_opcode::FUSE_READDIR),
            29 => Ok(fuse_opcode::FUSE_RELEASEDIR),
            30 => Ok(fuse_opcode::FUSE_FSYNCDIR),
            31 => Ok(fuse_opcode::FUSE_GETLK),
            32 => Ok(fuse_opcode::FUSE_SETLK),
            33 => Ok(fuse_opcode::FUSE_SETLKW),
            34 => Ok(fuse_opcode::FUSE_ACCESS),
            35 => Ok(fuse_opcode::FUSE_CREATE),
            36 => Ok(fuse_opcode::FUSE_INTERRUPT),
            37 => Ok(fuse_opcode::FUSE_BMAP),
            38 => Ok(fuse_opcode::FUSE_DESTROY),
            39 => Ok(fuse_opcode::FUSE_IOCTL),
            40 => Ok(fuse_opcode::FUSE_POLL),
            41 => Ok(fuse_opcode::FUSE_NOTIFY_REPLY),
            42 => Ok(fuse_opcode::FUSE_BATCH_FORGET),
            43 => Ok(fuse_opcode::FUSE_FALLOCATE),
            44 => Ok(fuse_opcode::FUSE_READDIRPLUS),
            45 => Ok(fuse_opcode::FUSE_RENAME2),
            46 => Ok(fuse_opcode::FUSE_LSEEK),
            47 => Ok(fuse_opcode::FUSE_COPY_FILE_RANGE),
            48 => Ok(fuse_opcode::FUSE_SETUPMAPPING),
            49 => Ok(fuse_opcode::FUSE_REMOVEMAPPING),
            50 => Ok(fuse_opcode::FUSE_SYNCFS),
            51 => Ok(fuse_opcode::FUSE_TMPFILE),
            52 => Ok(fuse_opcode::FUSE_STATX),
            4096 => Ok(fuse_opcode::CUSE_INIT),
            _ => Err(InvalidOpcodeError),
        }
    }
}

/// Invalid notify code error.
#[derive(Debug)]
pub struct InvalidNotifyCodeError;

/// The kinds of notification that a filesystem sends to the kernel unasked.
#[derive(Debug)]
pub enum fuse_notify_code {
    FUSE_POLL,
    FUSE_NOTIFY_INVAL_INODE,
    FUSE_NOTIFY_INVAL_ENTRY,
    FUSE_NOTIFY_STORE,
    FUSE_NOTIFY_RETRIEVE,
    FUSE_NOTIFY_DELETE,
}

impl fuse_notify_code {
    /// The number that stands for the code on the wire.
    pub open spec fn number(self) -> u32 {
        match self {
            fuse_notify_code::FUSE_POLL => 1,
            fuse_notify_code::FUSE_NOTIFY_INVAL_INODE => 2,
            fuse_notify_code::FUSE_NOTIFY_INVAL_ENTRY => 3,
            fuse_notify_code::FUSE_NOTIFY_STORE => 4,
            fuse_notify_code::FUSE_NOTIFY_RETRIEVE => 5,
            fuse_notify_code::FUSE_NOTIFY_DELETE => 6,
        }
    }
}

impl TryFrom<u32> for fuse_notify_code {
    type Error = InvalidNotifyCodeError;

    /// The code with the number `n`, or an error where no code has it.
    fn try_from(n: u32) -> (r: Result<Self, Self::Error>)
        ensures
            r matches Ok(code) ==> code.number() == n,
            r is Err <==> forall|code: fuse_notify_code| code.number() != n,
    {
        match n {
            1 => Ok(fuse_notify_code::FUSE_POLL),
            2 => Ok(fuse_notify_code::FUSE_NOTIFY_INVAL_INODE),
            3 => Ok(fuse_notify_code::FUSE_NOTIFY_INVAL_ENTRY),
            4 => Ok(fuse_notify_code::FUSE_NOTIFY_STORE),
            5 => Ok(fuse_notify_code::FUSE_NOTIFY_RETRIEVE),
            6 => Ok(fuse_notify_code::FUSE_NOTIFY_DELETE),
            _ => Err(InvalidNotifyCodeError),
        }
    }
}

impl vstd::std_specs::convert::TryFromSpecImpl<u32> for fuse_notify_code {
    open spec fn obeys_try_from_spec() -> bool {
        true
    }

    open spec fn try_from_spec(n: u32) -> Result<Self, Self::Error> {
        match n {
            1 => Ok(fuse_notify_code::FUSE_POLL),
            2 => Ok(fuse_notify_code::FUSE_NOTIFY_INVAL_INODE),
            3 => Ok(fuse_notify_code::FUSE_NOTIFY_INVAL_ENTRY),
            4 => Ok(fuse_notify_code::FUSE_NOTIFY_STORE),
            5 => Ok(fuse_notify_code::FUSE_NOTIFY_RETRIEVE),
            6 => Ok(fuse_notify_code::FUSE_NOTIFY_DELETE),
            _ => Err(InvalidNotifyCodeError),
        }
    }
}

/// A directory entry handed to the kernel, with the attributes of its inode.
#[derive(Debug, Clone, Copy)]
pub struct fuse_entry_out {
    /// Reference into the inode table
    pub nodeid: u64,
    pub generation: u64,
    pub entry_valid: u64,
    pub attr_valid: u64,
    pub entry_valid_nsec: u32,
    pub attr_valid_nsec: u32,
    pub attr: fuse_attr,
}

impl fuse_entry_out {
    /// Number of bytes that the record takes on the wire.
    pub const SIZE: usize = 128;

    /// The record on the wire: its fields in order, each little-endian.
    pub open spec fn wire(self) -> Seq<u8> {
        le_u64(self.nodeid) + le_u64(self.generation) + le_u64(self.entry_valid)
        + le_u64(self.attr_valid) + le_u32(self.entry_valid_nsec) + le_u32(self.attr_valid_nsec)
        + self.attr.wire()
    }

    /// Writes the record into `buffer` at `at` and returns the offset behind it.
    pub fn write_at(&self, buffer: &mut [u8], at: usize) -> (end: usize)
        requires
            at + 128 <= old(buffer)@.len(),
        ensures
            end == at + 128,
            self.wire().len() == 128,
            final(buffer)@.len() == old(buffer)@.len(),
            final(buffer)@ == splice(old(buffer)@, at as int, self.wire()),
    {
        let mut c = Cursor::begin(buffer, at);
        c.put_u64(buffer, self.nodeid);
        c.put_u64(buffer, self.generation);
        c.put_u64(buffer, self.entry_valid);
        c.put_u64(buffer, self.attr_valid);
        c.put_u32(buffer, self.entry_valid_nsec);
        c.put_u32(buffer, self.attr_valid_nsec);
        self.attr.emit(&mut c, buffer);
        c.pos
    }

    /// Writes the record at the cursor `c`.
    pub fn emit(&self, c: &mut Cursor, buffer: &mut [u8])
        requires
            old(c).tracks(old(buffer)@),
            old(c).pos + 128 <= old(buffer)@.len(),
        ensures
            final(c).tracks(final(buffer)@),
            old(c).extends(*final(c), self.wire()),
            self.wire().len() == 128,
    {
        let ghost before = buffer@;
        let end = self.write_at(buffer, c.pos);
        c.advance(buffer, end, Ghost(before), Ghost(self.wire()));
    }
}

/// Argument of `FORGET`: the number of lookups to take back.
#[derive(Debug, Copy, Clone)]
pub struct fuse_forget_in {
    pub nlookup: u64,
}

impl fuse_forget_in {
    /// Number of bytes that the record takes on the wire.
    pub const SIZE: usize = 8;

    /// The record on the wire: its fields in order, each little-endian.
    pub open spec fn wire(self) -> Seq<u8> {
        le_u64(self.nlookup)
    }

    /// The record whose bytes start at `b[at]`.
    pub open spec fn decode(b: Seq<u8>, at: int) -> Self {
        fuse_forget_in {
            nlookup: u64_at(b, at),
        }
    }

    /// Reads the record whose bytes start at `bytes[at]`.
    pub fn read_at(bytes: &[u8], at: usize) -> (r: Self)
        requires
            at + 8 <= bytes.len(),
        ensures
            r == Self::decode(bytes@, at as int),
    {
        fuse_forget_in {
            nlookup: get_u64(bytes, at),
        }
    }

    /// The record is read back from wherever its bytes stand.
    pub proof fn lemma_decode_wire(self, b: Seq<u8>, at: int)
        requires
            0 <= at,
            at + 8 <= b.len(),
            b.subrange(at, at + 8) == self.wire(),
        ensures
            Self::decode(b, at) == self,
    {
        assert(self.wire().subrange(0, 8) =~= le_u64(self.nlookup));
        lemma_subrange_of_subrange(b, at, 8, 0, 8);
        lemma_u64_at(b, at, self.nlookup);
    }

    /// What is read takes up the bytes that it is read from, and no others:
    /// writing it gives them again.
    pub proof fn lemma_wire_decode(b: Seq<u8>, at: int)
        requires
            0 <= at,
            at + 8 <= b.len(),
        ensures
            Self::decode(b, at).wire() == b.subrange(at, at + 8),
    {
        lemma_u64_bytes_round_trip(b, at);
        assert(Self::decode(b, at).wire() =~= b.subrange(at, at + 8));
    }
}

/// One inode of `BATCH_FORGET`, and the number of lookups to take back.
#[derive(Debug, Copy, Clone)]
pub struct fuse_forget_one {
    pub nodeid: u64,
    pub nlookup: u64,
}

impl fuse_forget_one {
    /// Number of bytes that the record takes on the wire.
    pub const SIZE: usize = 16;

    /// The record on the wire: its fields in order, each little-endian.
    pub open spec fn wire(self) -> Seq<u8> {
        le_u64(self.nodeid) + le_u64(self.nlookup)
    }

    /// The record whose bytes start at `b[at]`.
    pub open spec fn decode(b: Seq<u8>, at: int) -> Self {
        fuse_forget_one {
            nodeid: u64_at(b, at),
            nlookup: u64_at(b, at + 8),
        }
    }

    /// Reads the record whose bytes start at `bytes[at]`.
    pub fn read_at(bytes: &[u8], at: usize) -> (r: Self)
        requires
            at + 16 <= bytes.len(),
        ensures
            r == Self::decode(bytes@, at as int),
    {
        fuse_forget_one {
            nodeid: get_u64(bytes, at),
            nlookup: get_u64(bytes, at + 8),
        }
    }

    /// The record is read back from wherever its bytes stand.
    pub proof fn lemma_decode_wire(self, b: Seq<u8>, at: int)
        requires
            0 <= at,
            at + 16 <= b.len(),
            b.subrange(at, at + 16) == self.wire(),
        ensures
            Self::decode(b, at) == self,
    {
        assert(self.wire().subrange(0, 8) =~= le_u64(self.nodeid));
        lemma_subrange_of_subrange(b, at, 16, 0, 8);
        lemma_u64_at(b, at, self.nodeid);
        assert(self.wire().subrange(8, 16) =~= le_u64(self.nlookup));
        lemma_subrange_of_subrange(b, at, 16, 8, 16);
        lemma_u64_at(b, at + 8, self.nlookup);
    }

    /// What is read takes up the bytes that it is read from, and no others:
    /// writing it gives them again.
    pub proof fn lemma_wire_decode(b: Seq<u8>, at: int)
        requires
            0 <= at,
            at + 16 <= b.len(),
        ensures
            Self::decode(b, at).wire() == b.subrange(at, at + 16),
    {
        lemma_u64_bytes_round_trip(b, at);
        lemma_u64_bytes_round_trip(b, at + 8);
        assert(Self::decode(b, at).wire() =~= b.subrange(at, at + 16));
    }
}

/// Argument of `BATCH_FORGET`: `count` records of [`fuse_forget_one`] follow
/// it.
#[derive(Debug, Clone, Copy)]
pub struct fuse_batch_forget_in {
    pub count: u32,
    pub dummy: u32,
}

impl fuse_batch_forget_in {
    /// Number of bytes that the record takes on the wire.
    pub const SIZE: usize = 8;

    /// The record on the wire: its fields in order, each little-endian.
    pub open spec fn wire(self) -> Seq<u8> {
        le_u32(self.count) + le_u32(self.dummy)
    }

    /// The record whose bytes start at `b[at]`.
    pub open spec fn decode(b: Seq<u8>, at: int) -> Self {
        fuse_batch_forget_in {
            count: u32_at(b, at),
            dummy: u32_at(b, at + 4),
        }
    }

    /// Reads the record whose bytes start at `bytes[at]`.
    pub fn read_at(bytes: &[u8], at: usize) -> (r: Self)
        requires
            at + 8 <= bytes.len(),
        ensures
            r == Self::decode(bytes@, at as int),
    {
        fuse_batch_forget_in {
            count: get_u32(bytes, at),
            dummy: get_u32(bytes, at + 4),
        }
    }

    /// The record is read back from wherever its bytes stand.
    pub proof fn lemma_decode_wire(self, b: Seq<u8>, at: int)
        requires
            0 <= at,
            at + 8 <= b.len(),
            b.subrange(at, at + 8) == self.wire(),
        ensures
            Self::decode(b, at) == self,
    {
        assert(self.wire().subrange(0, 4) =~= le_u32(self.count));
        lemma_subrange_of_subrange(b, at, 8, 0, 4);
        lemma_u32_at(b, at, self.count);
        assert(self.wire().subrange(4, 8) =~= le_u32(self.dummy));
        lemma_subrange_of_subrange(b, at, 8, 4, 8);
        lemma_u32_at(b, at + 4, self.dummy);
    }

    /// What is read takes up the bytes that it is read from, and no others:
    /// writing it gives them again.
    pub proof fn lemma_wire_decode(b: Seq<u8>, at: int)
        requires
            0 <= at,
            at + 8 <= b.len(),
        ensures
            Self::decode(b, at).wire() == b.subrange(at, at + 8),
    {
        lemma_u32_bytes_round_trip(b, at);
        lemma_u32_bytes_round_trip(b, at + 4);
        assert(Self::decode(b, at).wire() =~= b.subrange(at, at + 8));
    }
}

/// Argument of `GETATTR`.
#[derive(Debug, Clone, Copy)]
pub struct fuse_getattr_in {
    pub getattr_flags: u32,
    pub dummy: u32,
    pub fh: u64,
}

impl fuse_getattr_in {
    /// Number of bytes that the record takes on the wire.
    pub const SIZE: usize = 16;

    /// The record on the wire: its fields in order, each little-endian.
    pub open spec fn wire(self) -> Seq<u8> {
        le_u32(self.getattr_flags) + le_u32(self.dummy) + le_u64(self.fh)
    }

    /// The record whose bytes start at `b[at]`.
    pub open spec fn decode(b: Seq<u8>, at: int) -> Self {
        fuse_getattr_in {
            getattr_flags: u32_at(b, at),
            dummy: u32_at(b, at + 4),
            fh: u64_at(b, at + 8),
        }
    }

    /// Reads the record whose bytes start at `bytes[at]`.
    pub fn read_at(bytes: &[u8], at: usize) -> (r: Self)
        requires
            at + 16 <= bytes.len(),
        ensures
            r == Self::decode(bytes@, at as int),
    {
        fuse_getattr_in {
            getattr_flags: get_u32(bytes, at),
            dummy: get_u32(bytes, at + 4),
            fh: get_u64(bytes, at + 8),
        }
    }

    /// The record is read back from wherever its bytes stand.
    pub proof fn lemma_decode_wire(self, b: Seq<u8>, at: int)
        requires
            0 <= at,
            at + 16 <= b.len(),
            b.subrange(at, at + 16) == self.wire(),
        ensures
            Self::decode(b, at) == self,
    {
        assert(self.wire().subrange(0, 4) =~= le_u32(self.getattr_flags));
        lemma_subrange_of_subrange(b, at, 16, 0, 4);
        lemma_u32_at(b, at, self.getattr_flags);
        assert(self.wire().subrange(4, 8) =~= le_u32(self.dummy));
        lemma_subrange_of_subrange(b, at, 16, 4, 8);
        lemma_u32_at(b, at + 4, self.dummy);
        assert(self.wire().subrange(8, 16) =~= le_u64(self.fh));
        lemma_subrange_of_subrange(b, at, 16, 8, 16);
        lemma_u64_at(b, at + 8, self.fh);
    }

    /// What is read takes up the bytes that it is read from, and no others:
    /// writing it gives them again.
    pub proof fn lemma_wire_decode(b: Seq<u8>, at: int)
        requires
            0 <= at,
            at + 16 <= b.len(),
        ensures
            Self::decode(b, at).wire() == b.subrange(at, at + 16),
    {
        lemma_u32_bytes_round_trip(b, at);
        lemma_u32_bytes_round_trip(b, at + 4);
        lemma_u64_bytes_round_trip(b, at + 8);
        assert(Self::decode(b, at).wire() =~= b.subrange(at, at + 16));
    }
}

/// Attributes of an inode, and how long the kernel may keep them.
#[derive(Debug, Copy, Clone)]
pub struct fuse_attr_out {
    pub attr_valid: u64,
    pub attr_valid_nsec: u32,
    pub dummy: u32,
    pub attr: fuse_attr,
}

impl fuse_attr_out {
    /// Number of bytes that the record takes on the wire.
    pub const SIZE: usize = 104;

    /// The record on the wire: its fields in order, each little-endian.
    pub open spec fn wire(self) -> Seq<u8> {
        le_u64(self.attr_valid) + le_u32(self.attr_valid_nsec) + le_u32(self.dummy)
        + self.attr.wire()
    }

    /// Writes the record into `buffer` at `at` and returns the offset behind it.
    pub fn write_at(&self, buffer: &mut [u8], at: usize) -> (end: usize)
        requires
            at + 104 <= old(buffer)@.len(),
        ensures
            end == at + 104,
            self.wire().len() == 104,
            final(buffer)@.len() == old(buffer)@.len(),
            final(buffer)@ == splice(old(buffer)@, at as int, self.wire()),
    {
        let mut c = Cursor::begin(buffer, at);
        c.put_u64(buffer, self.attr_valid);
        c.put_u32(buffer, self.attr_valid_nsec);
        c.put_u32(buffer, self.dummy);
        self.attr.emit(&mut c, buffer);
        c.pos
    }
}

/// Arguments of `mknod`.
#[derive(Debug, Clone, Copy)]
pub struct fuse_mknod_in {
    /// `mode` and `umask` together (`mode & !umask`) give the file mode
    pub mode: u32,
    /// Major and minor numbers of the new device special file, where the file
    /// type is `S_IFCHR` or `S_IFBLK`
    pub rdev: u32,
    pub umask: u32,
    pub padding: u32,
}

impl fuse_mknod_in {
    /// Number of bytes that the record takes on the wire.
    pub const SIZE: usize = 16;

    /// The record on the wire: its fields in order, each little-endian.
    pub open spec fn wire(self) -> Seq<u8> {
        le_u32(self.mode) + le_u32(self.rdev) + le_u32(self.umask) + le_u32(self.padding)
    }

    /// Writes the record into `buffer` at `at` and returns the offset behind it.
    pub fn write_at(&self, buffer: &mut [u8], at: usize) -> (end: usize)
        requires
            at + 16 <= old(buffer)@.len(),
        ensures
            end == at + 16,
            self.wire().len() == 16,
            final(buffer)@.len() == old(buffer)@.len(),
            final(buffer)@ == splice(old(buffer)@, at as int, self.wire()),
    {
        let mut c = Cursor::begin(buffer, at);
        c.put_u32(buffer, self.mode);
        c.put_u32(buffer, self.rdev);
        c.put_u32(buffer, self.umask);
        c.put_u32(buffer, self.padding);
        c.pos
    }

    /// The record whose bytes start at `b[at]`.
    pub open spec fn decode(b: Seq<u8>, at: int) -> Self {
        fuse_mknod_in {
            mode: u32_at(b, at),
            rdev: u32_at(b, at + 4),
            umask: u32_at(b, at + 8),
            padding: u32_at(b, at + 12),
        }
    }

    /// Reads the record whose bytes start at `bytes[at]`.
    pub fn read_at(bytes: &[u8], at: usize) -> (r: Self)
        requires
            at + 16 <= bytes.len(),
        ensures
            r == Self::decode(bytes@, at as int),
    {
        fuse_mknod_in {
            mode: get_u32(bytes, at),
            rdev: get_u32(bytes, at + 4),
            umask: get_u32(bytes, at + 8),
            padding: get_u32(bytes, at + 12),
        }
    }

    /// The record is read back from wherever its bytes stand.
    pub proof fn lemma_decode_wire(self, b: Seq<u8>, at: int)
        requires
            0 <= at,
            at + 16 <= b.len(),
            b.subrange(at, at + 16) == self.wire(),
        ensures
            Self::decode(b, at) == self,
    {
        assert(self.wire().subrange(0, 4) =~= le_u32(self.mode));
        lemma_subrange_of_subrange(b, at, 16, 0, 4);
        lemma_u32_at(b, at, self.mode);
        assert(self.wire().subrange(4, 8) =~= le_u32(self.rdev));
        lemma_subrange_of_subrange(b, at, 16, 4, 8);
        lemma_u32_at(b, at + 4, self.rdev);
        assert(self.wire().subrange(8, 12) =~= le_u32(self.umask));
        lemma_subrange_of_subrange(b, at, 16, 8, 12);
        lemma_u32_at(b, at + 8, self.umask);
        assert(self.wire().subrange(12, 16) =~= le_u32(self.padding));
        lemma_subrange_of_subrange(b, at, 16, 12, 16);
        lemma_u32_at(b, at + 12, self.padding);
    }

    /// What is read takes up the bytes that it is read from, and no others:
    /// writing it gives them again.
    pub proof fn lemma_wire_decode(b: Seq<u8>, at: int)
        requires
            0 <= at,
            at + 16 <= b.len(),
        ensures
            Self::decode(b, at).wire() == b.subrange(at, at + 16),
    {
        lemma_u32_bytes_round_trip(b, at);
        lemma_u32_bytes_round_trip(b, at + 4);
        lemma_u32_bytes_round_trip(b, at + 8);
        lemma_u32_bytes_round_trip(b, at + 12);
        assert(Self::decode(b, at).wire() =~= b.subrange(at, at + 16));
    }
}

/// Argument of `MKDIR`; the name follows it.
#[derive(Debug, Clone, Copy)]
pub struct fuse_mkdir_in {
    pub mode: u32,
    pub umask: u32,
}

impl fuse_mkdir_in {
    /// Number of bytes that the record takes on the wire.
    pub const SIZE: usize = 8;

    /// The record on the wire: its fields in order, each little-endian.
    pub open spec fn wire(self) -> Seq<u8> {
        le_u32(self.mode) + le_u32(self.umask)
    }

    /// Writes the record into `buffer` at `at` and returns the offset behind it.
    pub fn write_at(&self, buffer: &mut [u8], at: usize) -> (end: usize)
        requires
            at + 8 <= old(buffer)@.len(),
        ensures
            end == at + 8,
            self.wire().len() == 8,
            final(buffer)@.len() == old(buffer)@.len(),
            final(buffer)@ == splice(old(buffer)@, at as int, self.wire()),
    {
        let mut c = Cursor::begin(buffer, at);
        c.put_u32(buffer, self.mode);
        c.put_u32(buffer, self.umask);
        c.pos
    }

    /// The record whose bytes start at `b[at]`.
    pub open spec fn decode(b: Seq<u8>, at: int) -> Self {
        fuse_mkdir_in {
            mode: u32_at(b, at),
            umask: u32_at(b, at + 4),
        }
    }

    /// Reads the record whose bytes start at `bytes[at]`.
    pub fn read_at(bytes: &[u8], at: usize) -> (r: Self)
        requires
            at + 8 <= bytes.len(),
        ensures
            r == Self::decode(bytes@, at as int),
    {
        fuse_mkdir_in {
            mode: get_u32(bytes, at),
            umask: get_u32(bytes, at + 4),
        }
    }

    /// The record is read back from wherever its bytes stand.
    pub proof fn lemma_decode_wire(self, b: Seq<u8>, at: int)
        requires
            0 <= at,
            at + 8 <= b.len(),
            b.subrange(at, at + 8) == self.wire(),
        ensures
            Self::decode(b, at) == self,
    {
        assert(self.wire().subrange(0, 4) =~= le_u32(self.mode));
        lemma_subrange_of_subrange(b, at, 8, 0, 4);
        lemma_u32_at(b, at, self.mode);
        assert(self.wire().subrange(4, 8) =~= le_u32(self.umask));
        lemma_subrange_of_subrange(b, at, 8, 4, 8);
        lemma_u32_at(b, at + 4, self.umask);
    }

    /// What is read takes up the bytes that it is read from, and no others:
    /// writing it gives them again.
    pub proof fn lemma_wire_decode(b: Seq<u8>, at: int)
        requires
            0 <= at,
            at + 8 <= b.len(),
        ensures
            Self::decode(b, at).wire() == b.subrange(at, at + 8),
    {
        lemma_u32_bytes_round_trip(b, at);
        lemma_u32_bytes_round_trip(b, at + 4);
        assert(Self::decode(b, at).wire() =~= b.subrange(at, at + 8));
    }
}

/// Argument of `RENAME`; the old and the new name follow it.
#[derive(Debug, Clone, Copy)]
pub struct fuse_rename_in {
    pub newdir: u64,
}

impl fuse_rename_in {
    /// Number of bytes that the record takes on the wire.
    pub const SIZE: usize = 8;

    /// The record on the wire: its fields in order, each little-endian.
    pub open spec fn wire(self) -> Seq<u8> {
        le_u64(self.newdir)
    }

    /// Writes the record into `buffer` at `at` and returns the offset behind it.
    pub fn write_at(&self, buffer: &mut [u8], at: usize) -> (end: usize)
        requires
            at + 8 <= old(buffer)@.len(),
        ensures
            end == at + 8,
            self.wire().len() == 8,
            final(buffer)@.len() == old(buffer)@.len(),
            final(buffer)@ == splice(old(buffer)@, at as int, self.wire()),
    {
        let mut c = Cursor::begin(buffer, at);
        c.put_u64(buffer, self.newdir);
        c.pos
    }

    /// The record whose bytes start at `b[at]`.
    pub open spec fn decode(b: Seq<u8>, at: int) -> Self {
        fuse_rename_in {
            newdir: u64_at(b, at),
        }
    }

    /// Reads the record whose bytes start at `bytes[at]`.
    pub fn read_at(bytes: &[u8], at: usize) -> (r: Self)
        requires
            at + 8 <= bytes.len(),
        ensures
            r == Self::decode(bytes@, at as int),
    {
        fuse_rename_in {
            newdir: get_u64(bytes, at),
        }
    }

    /// The record is read back from wherever its bytes stand.
    pub proof fn lemma_decode_wire(self, b: Seq<u8>, at: int)
        requires
            0 <= at,
            at + 8 <= b.len(),
            b.subrange(at, at + 8) == self.wire(),
        ensures
            Self::decode(b, at) == self,
    {
        assert(self.wire().subrange(0, 8) =~= le_u64(self.newdir));
        lemma_subrange_of_subrange(b, at, 8, 0, 8);
        lemma_u64_at(b, at, self.newdir);
    }

    /// What is read takes up the bytes that it is read from, and no others:
    /// writing it gives them again.
    pub proof fn lemma_wire_decode(b: Seq<u8>, at: int)
        requires
            0 <= at,
            at + 8 <= b.len(),
        ensures
            Self::decode(b, at).wire() == b.subrange(at, at + 8),
    {
        lemma_u64_bytes_round_trip(b, at);
        assert(Self::decode(b, at).wire() =~= b.subrange(at, at + 8));
    }
}

/// Argument of `RENAME2`; the old and the new name follow it.
#[derive(Debug, Clone, Copy)]
pub struct fuse_rename2_in {
    pub newdir: u64,
    pub flags: u32,
    pub padding: u32,
}

impl fuse_rename2_in {
    /// Number of bytes that the record takes on the wire.
    pub const SIZE: usize = 16;

    /// The record on the wire: its fields in order, each little-endian.
    pub open spec fn wire(self) -> Seq<u8> {
        le_u64(self.newdir) + le_u32(self.flags) + le_u32(self.padding)
    }

    /// Writes the record into `buffer` at `at` and returns the offset behind it.
    pub fn write_at(&self, buffer: &mut [u8], at: usize) -> (end: usize)
        requires
            at + 16 <= old(buffer)@.len(),
        ensures
            end == at + 16,
            self.wire().len() == 16,
            final(buffer)@.len() == old(buffer)@.len(),
            final(buffer)@ == splice(old(buffer)@, at as int, self.wire()),
    {
        let mut c = Cursor::begin(buffer, at);
        c.put_u64(buffer, self.newdir);
        c.put_u32(buffer, self.flags);
        c.put_u32(buffer, self.padding);
        c.pos
    }

    /// The record whose bytes start at `b[at]`.
    pub open spec fn decode(b: Seq<u8>, at: int) -> Self {
        fuse_rename2_in {
            newdir: u64_at(b, at),
            flags: u32_at(b, at + 8),
            padding: u32_at(b, at + 12),
        }
    }

    /// Reads the record whose bytes start at `bytes[at]`.
    pub fn read_at(bytes: &[u8], at: usize) -> (r: Self)
        requires
            at + 16 <= bytes.len(),
        ensures
            r == Self::decode(bytes@, at as int),
    {
        fuse_rename2_in {
            newdir: get_u64(bytes, at),
            flags: get_u32(bytes, at + 8),
            padding: get_u32(bytes, at + 12),
        }
    }

    /// The record is read back from wherever its bytes stand.
    pub proof fn lemma_decode_wire(self, b: Seq<u8>, at: int)
        requires
            0 <= at,
            at + 16 <= b.len(),
            b.subrange(at, at + 16) == self.wire(),
        ensures
            Self::decode(b, at) == self,
    {
        assert(self.wire().subrange(0, 8) =~= le_u64(self.newdir));
        lemma_subrange_of_subrange(b, at, 16, 0, 8);
        lemma_u64_at(b, at, self.newdir);
        assert(self.wire().subrange(8, 12) =~= le_u32(self.flags));
        lemma_subrange_of_subrange(b, at, 16, 8, 12);
        lemma_u32_at(b, at + 8, self.flags);
        assert(self.wire().subrange(12, 16) =~= le_u32(self.padding));
        lemma_subrange_of_subrange(b, at, 16, 12, 16);
        lemma_u32_at(b, at + 12, self.padding);
    }

    /// What is read takes up the bytes that it is read from, and no others:
    /// writing it gives them again.
    pub proof fn lemma_wire_decode(b: Seq<u8>, at: int)
        requires
            0 <= at,
            at + 16 <= b.len(),
        ensures
            Self::decode(b, at).wire() == b.subrange(at, at + 16),
    {
        lemma_u64_bytes_round_trip(b, at);
        lemma_u32_bytes_round_trip(b, at + 8);
        lemma_u32_bytes_round_trip(b, at + 12);
        assert(Self::decode(b, at).wire() =~= b.subrange(at, at + 16));
    }
}

/// Argument of `LINK`; the name of the link follows it.
#[derive(Debug, Clone, Copy)]
pub struct fuse_link_in {
    pub oldnodeid: u64,
}

impl fuse_link_in {
    /// Number of bytes that the record takes on the wire.
    pub const SIZE: usize = 8;

    /// The record on the wire: its fields in order, each little-endian.
    pub open spec fn wire(self) -> Seq<u8> {
        le_u64(self.oldnodeid)
    }

    /// Writes the record into `buffer` at `at` and returns the offset behind it.
    pub fn write_at(&self, buffer: &mut [u8], at: usize) -> (end: usize)
        requires
            at + 8 <= old(buffer)@.len(),
        ensures
            end == at + 8,
            self.wire().len() == 8,
            final(buffer)@.len() == old(buffer)@.len(),
            final(buffer)@ == splice(old(buffer)@, at as int, self.wire()),
    {
        let mut c = Cursor::begin(buffer, at);
        c.put_u64(buffer, self.oldnodeid);
        c.pos
    }

    /// The record whose bytes start at `b[at]`.
    pub open spec fn decode(b: Seq<u8>, at: int) -> Self {
        fuse_link_in {
            oldnodeid: u64_at(b, at),
        }
    }

    /// Reads the record whose bytes start at `bytes[at]`.
    pub fn read_at(bytes: &[u8], at: usize) -> (r: Self)
        requires
            at + 8 <= bytes.len(),
        ensures
            r == Self::decode(bytes@, at as int),
    {
        fuse_link_in {
            oldnodeid: get_u64(bytes, at),
        }
    }

    /// The record is read back from wherever its bytes stand.
    pub proof fn lemma_decode_wire(self, b: Seq<u8>, at: int)
        requires
            0 <= at,
            at + 8 <= b.len(),
            b.subrange(at, at + 8) == self.wire(),
        ensures
            Self::decode(b, at) == self,
    {
        assert(self.wire().subrange(0, 8) =~= le_u64(self.oldnodeid));
        lemma_subrange_of_subrange(b, at, 8, 0, 8);
        lemma_u64_at(b, at, self.oldnodeid);
    }

    /// What is read takes up the bytes that it is read from, and no others:
    /// writing it gives them again.
    pub proof fn lemma_wire_decode(b: Seq<u8>, at: int)
        requires
            0 <= at,
            at + 8 <= b.len(),
        ensures
            Self::decode(b, at).wire() == b.subrange(at, at + 8),
    {
        lemma_u64_bytes_round_trip(b, at);
        assert(Self::decode(b, at).wire() =~= b.subrange(at, at + 8));
    }
}

/// Arguments of `setattr`. `valid` says which of the fields are meant.
#[derive(Debug, Clone, Copy)]
pub struct fuse_setattr_in {
    pub valid: u32,
    pub padding: u32,
    pub fh: u64,
    pub size: u64,
    pub lock_owner: u64,
    pub atime: i64,
    pub mtime: i64,
    pub ctime: i64,
    pub atimensec: u32,
    pub mtimensec: u32,
    pub ctimensec: u32,
    pub mode: u32,
    pub unused4: u32,
    pub uid: u32,
    pub gid: u32,
    pub unused5: u32,
}

impl fuse_setattr_in {
    /// Number of bytes that the record takes on the wire.
    pub const SIZE: usize = 88;

    /// The record on the wire: its fields in order, each little-endian.
    pub open spec fn wire(self) -> Seq<u8> {
        le_u32(self.valid) + le_u32(self.padding) + le_u64(self.fh) + le_u64(self.size)
        + le_u64(self.lock_owner) + le_i64(self.atime) + le_i64(self.mtime) + le_i64(self.ctime)
        + le_u32(self.atimensec) + le_u32(self.mtimensec) + le_u32(self.ctimensec)
        + le_u32(self.mode) + le_u32(self.unused4) + le_u32(self.uid) + le_u32(self.gid)
        + le_u32(self.unused5)
    }

    /// The record whose bytes start at `b[at]`.
    pub open spec fn decode(b: Seq<u8>, at: int) -> Self {
        fuse_setattr_in {
            valid: u32_at(b, at),
            padding: u32_at(b, at + 4),
            fh: u64_at(b, at + 8),
            size: u64_at(b, at + 16),
            lock_owner: u64_at(b, at + 24),
            atime: i64_at(b, at + 32),
            mtime: i64_at(b, at + 40),
            ctime: i64_at(b, at + 48),
            atimensec: u32_at(b, at + 56),
            mtimensec: u32_at(b, at + 60),
            ctimensec: u32_at(b, at + 64),
            mode: u32_at(b, at + 68),
            unused4: u32_at(b, at + 72),
            uid: u32_at(b, at + 76),
            gid: u32_at(b, at + 80),
            unused5: u32_at(b, at + 84),
        }
    }

    /// Reads the record whose bytes start at `bytes[at]`.
    pub fn read_at(bytes: &[u8], at: usize) -> (r: Self)
        requires
            at + 88 <= bytes.len(),
        ensures
            r == Self::decode(bytes@, at as int),
    {
        fuse_setattr_in {
            valid: get_u32(bytes, at),
            padding: get_u32(bytes, at + 4),
            fh: get_u64(bytes, at + 8),
            size: get_u64(bytes, at + 16),
            lock_owner: get_u64(bytes, at + 24),
            atime: get_i64(bytes, at + 32),
            mtime: get_i64(bytes, at + 40),
            ctime: get_i64(bytes, at + 48),
            atimensec: get_u32(bytes, at + 56),
            mtimensec: get_u32(bytes, at + 60),
            ctimensec: get_u32(bytes, at + 64),
            mode: get_u32(bytes, at + 68),
            unused4: get_u32(bytes, at + 72),
            uid: get_u32(bytes, at + 76),
            gid: get_u32(bytes, at + 80),
            unused5: get_u32(bytes, at + 84),
        }
    }

    /// The record is read back from wherever its bytes stand.
    pub proof fn lemma_decode_wire(self, b: Seq<u8>, at: int)
        requires
            0 <= at,
            at + 88 <= b.len(),
            b.subrange(at, at + 88) == self.wire(),
        ensures
            Self::decode(b, at) == self,
    {
        assert(self.wire().subrange(0, 4) =~= le_u32(self.valid));
        lemma_subrange_of_subrange(b, at, 88, 0, 4);
        lemma_u32_at(b, at, self.valid);
        assert(self.wire().subrange(4, 8) =~= le_u32(self.padding));
        lemma_subrange_of_subrange(b, at, 88, 4, 8);
        lemma_u32_at(b, at + 4, self.padding);
        assert(self.wire().subrange(8, 16) =~= le_u64(self.fh));
        lemma_subrange_of_subrange(b, at, 88, 8, 16);
        lemma_u64_at(b, at + 8, self.fh);
        assert(self.wire().subrange(16, 24) =~= le_u64(self.size));
        lemma_subrange_of_subrange(b, at, 88, 16, 24);
        lemma_u64_at(b, at + 16, self.size);
        assert(self.wire().subrange(24, 32) =~= le_u64(self.lock_owner));
        lemma_subrange_of_subrange(b, at, 88, 24, 32);
        lemma_u64_at(b, at + 24, self.lock_owner);
        assert(self.wire().subrange(32, 40) =~= le_i64(self.atime));
        lemma_subrange_of_subrange(b, at, 88, 32, 40);
        lemma_i64_at(b, at + 32, self.atime);
        assert(self.wire().subrange(40, 48) =~= le_i64(self.mtime));
        lemma_subrange_of_subrange(b, at, 88, 40, 48);
        lemma_i64_at(b, at + 40, self.mtime);
        assert(self.wire().subrange(48, 56) =~= le_i64(self.ctime));
        lemma_subrange_of_subrange(b, at, 88, 48, 56);
        lemma_i64_at(b, at + 48, self.ctime);
        assert(self.wire().subrange(56, 60) =~= le_u32(self.atimensec));
        lemma_subrange_of_subrange(b, at, 88, 56, 60);
        lemma_u32_at(b, at + 56, self.atimensec);
        assert(self.wire().subrange(60, 64) =~= le_u32(self.mtimensec));
        lemma_subrange_of_subrange(b, at, 88, 60, 64);
        lemma_u32_at(b, at + 60, self.mtimensec);
        assert(self.wire().subrange(64, 68) =~= le_u32(self.ctimensec));
        lemma_subrange_of_subrange(b, at, 88, 64, 68);
        lemma_u32_at(b, at + 64, self.ctimensec);
        assert(self.wire().subrange(68, 72) =~= le_u32(self.mode));
        lemma_subrange_of_subrange(b, at, 88, 68, 72);
        lemma_u32_at(b, at + 68, self.mode);
        assert(self.wire().subrange(72, 76) =~= le_u32(self.unused4));
        lemma_subrange_of_subrange(b, at, 88, 72, 76);
        lemma_u32_at(b, at + 72, self.unused4);
        assert(self.wire().subrange(76, 80) =~= le_u32(self.uid));
        lemma_subrange_of_subrange(b, at, 88, 76, 80);
        lemma_u32_at(b, at + 76, self.uid);
        assert(self.wire().subrange(80, 84) =~= le_u32(self.gid));
        lemma_subrange_of_subrange(b, at, 88, 80, 84);
        lemma_u32_at(b, at + 80, self.gid);
        assert(self.wire().subrange(84, 88) =~= le_u32(self.unused5));
        lemma_subrange_of_subrange(b, at, 88, 84, 88);
        lemma_u32_at(b, at + 84, self.unused5);
    }

    /// What is read takes up the bytes that it is read from, and no others:
    /// writing it gives them again.
    pub proof fn lemma_wire_decode(b: Seq<u8>, at: int)
        requires
            0 <= at,
            at + 88 <= b.len(),
        ensures
            Self::decode(b, at).wire() == b.subrange(at, at + 88),
    {
        lemma_u32_bytes_round_trip(b, at);
        lemma_u32_bytes_round_trip(b, at + 4);
        lemma_u64_bytes_round_trip(b, at + 8);
        lemma_u64_bytes_round_trip(b, at + 16);
        lemma_u64_bytes_round_trip(b, at + 24);
        lemma_i64_bytes_round_trip(b, at + 32);
        lemma_i64_bytes_round_trip(b, at + 40);
        lemma_i64_bytes_round_trip(b, at + 48);
        lemma_u32_bytes_round_trip(b, at + 56);
        lemma_u32_bytes_round_trip(b, at + 60);
        lemma_u32_bytes_round_trip(b, at + 64);
        lemma_u32_bytes_round_trip(b, at + 68);
        lemma_u32_bytes_round_trip(b, at + 72);
        lemma_u32_bytes_round_trip(b, at + 76);
        lemma_u32_bytes_round_trip(b, at + 80);
        lemma_u32_bytes_round_trip(b, at + 84);
        assert(Self::decode(b, at).wire() =~= b.subrange(at, at + 88));
    }

    /// Whether the access time is to be set to the current time.
    pub fn atime_now(&self) -> (now: bool)
        ensures
            now == (self.valid & FATTR_ATIME_NOW != 0),
    {
        self.valid & FATTR_ATIME_NOW != 0
    }

    /// Whether the modification time is to be set to the current time.
    pub fn mtime_now(&self) -> (now: bool)
        ensures
            now == (self.valid & FATTR_MTIME_NOW != 0),
    {
        self.valid & FATTR_MTIME_NOW != 0
    }
}

/// Argument of `OPEN` and `OPENDIR`.
#[derive(Debug, Clone, Copy)]
pub struct fuse_open_in {
    /// Open flags; signed, as the `open` system call has them
    pub flags: i32,
    pub unused: u32,
}

impl fuse_open_in {
    /// Number of bytes that the record takes on the wire.
    pub const SIZE: usize = 8;

    /// The record on the wire: its fields in order, each little-endian.
    pub open spec fn wire(self) -> Seq<u8> {
        le_i32(self.flags) + le_u32(self.unused)
    }

    /// The record whose bytes start at `b[at]`.
    pub open spec fn decode(b: Seq<u8>, at: int) -> Self {
        fuse_open_in {
            flags: i32_at(b, at),
            unused: u32_at(b, at + 4),
        }
    }

    /// Reads the record whose bytes start at `bytes[at]`.
    pub fn read_at(bytes: &[u8], at: usize) -> (r: Self)
        requires
            at + 8 <= bytes.len(),
        ensures
            r == Self::decode(bytes@, at as int),
    {
        fuse_open_in {
            flags: get_i32(bytes, at),
            unused: get_u32(bytes, at + 4),
        }
    }

    /// The record is read back from wherever its bytes stand.
    pub proof fn lemma_decode_wire(self, b: Seq<u8>, at: int)
        requires
            0 <= at,
            at + 8 <= b.len(),
            b.subrange(at, at + 8) == self.wire(),
        ensures
            Self::decode(b, at) == self,
    {
        assert(self.wire().subrange(0, 4) =~= le_i32(self.flags));
        lemma_subrange_of_subrange(b, at, 8, 0, 4);
        lemma_i32_at(b, at, self.flags);
        assert(self.wire().subrange(4, 8) =~= le_u32(self.unused));
        lemma_subrange_of_subrange(b, at, 8, 4, 8);
        lemma_u32_at(b, at + 4, self.unused);
    }

    /// What is read takes up the bytes that it is read from, and no others:
    /// writing it gives them again.
    pub proof fn lemma_wire_decode(b: Seq<u8>, at: int)
        requires
            0 <= at,
            at + 8 <= b.len(),
        ensures
            Self::decode(b, at).wire() == b.subrange(at, at + 8),
    {
        lemma_i32_bytes_round_trip(b, at);
        lemma_u32_bytes_round_trip(b, at + 4);
        assert(Self::decode(b, at).wire() =~= b.subrange(at, at + 8));
    }
}

/// Argument of `CREATE`; the name follows it.
#[derive(Debug, Clone, Copy)]
pub struct fuse_create_in {
    /// Open flags, as the `open` system call has them
    pub flags: i32,
    /// File type and permissions
    pub mode: u32,
    /// Permissions that the creating process must not be given
    pub umask: u32,
    pub padding: u32,
}

impl fuse_create_in {
    /// Number of bytes that the record takes on the wire.
    pub const SIZE: usize = 16;

    /// The record on the wire: its fields in order, each little-endian.
    pub open spec fn wire(self) -> Seq<u8> {
        le_i32(self.flags) + le_u32(self.mode) + le_u32(self.umask) + le_u32(self.padding)
    }

    /// Writes the record into `buffer` at `at` and returns the offset behind it.
    pub fn write_at(&self, buffer: &mut [u8], at: usize) -> (end: usize)
        requires
            at + 16 <= old(buffer)@.len(),
        ensures
            end == at + 16,
            self.wire().len() == 16,
            final(buffer)@.len() == old(buffer)@.len(),
            final(buffer)@ == splice(old(buffer)@, at as int, self.wire()),
    {
        let mut c = Cursor::begin(buffer, at);
        c.put_i32(buffer, self.flags);
        c.put_u32(buffer, self.mode);
        c.put_u32(buffer, self.umask);
        c.put_u32(buffer, self.padding);
        c.pos
    }

    /// The record whose bytes start at `b[at]`.
    pub open spec fn decode(b: Seq<u8>, at: int) -> Self {
        fuse_create_in {
            flags: i32_at(b, at),
            mode: u32_at(b, at + 4),
            umask: u32_at(b, at + 8),
            padding: u32_at(b, at + 12),
        }
    }

    /// Reads the record whose bytes start at `bytes[at]`.
    pub fn read_at(bytes: &[u8], at: usize) -> (r: Self)
        requires
            at + 16 <= bytes.len(),
        ensures
            r == Self::decode(bytes@, at as int),
    {
        fuse_create_in {
            flags: get_i32(bytes, at),
            mode: get_u32(bytes, at + 4),
            umask: get_u32(bytes, at + 8),
            padding: get_u32(bytes, at + 12),
        }
    }

    /// The record is read back from wherever its bytes stand.
    pub proof fn lemma_decode_wire(self, b: Seq<u8>, at: int)
        requires
            0 <= at,
            at + 16 <= b.len(),
            b.subrange(at, at + 16) == self.wire(),
        ensures
            Self::decode(b, at) == self,
    {
        assert(self.wire().subrange(0, 4) =~= le_i32(self.flags));
        lemma_subrange_of_subrange(b, at, 16, 0, 4);
        lemma_i32_at(b, at, self.flags);
        assert(self.wire().subrange(4, 8) =~= le_u32(self.mode));
        lemma_subrange_of_subrange(b, at, 16, 4, 8);
        lemma_u32_at(b, at + 4, self.mode);
        assert(self.wire().subrange(8, 12) =~= le_u32(self.umask));
        lemma_subrange_of_subrange(b, at, 16, 8, 12);
        lemma_u32_at(b, at + 8, self.umask);
        assert(self.wire().subrange(12, 16) =~= le_u32(self.padding));
        lemma_subrange_of_subrange(b, at, 16, 12, 16);
        lemma_u32_at(b, at + 12, self.padding);
    }

    /// What is read takes up the bytes that it is read from, and no others:
    /// writing it gives them again.
    pub proof fn lemma_wire_decode(b: Seq<u8>, at: int)
        requires
            0 <= at,
            at + 16 <= b.len(),
        ensures
            Self::decode(b, at).wire() == b.subrange(at, at + 16),
    {
        lemma_i32_bytes_round_trip(b, at);
        lemma_u32_bytes_round_trip(b, at + 4);
        lemma_u32_bytes_round_trip(b, at + 8);
        lemma_u32_bytes_round_trip(b, at + 12);
        assert(Self::decode(b, at).wire() =~= b.subrange(at, at + 16));
    }

    /// The record with every field zero.
    pub open spec fn zero() -> Self {
        fuse_create_in { flags: 0, mode: 0, umask: 0, padding: 0 }
    }
}

impl Default for fuse_create_in {
    /// Every field zero.
    fn default() -> (r: Self)
        ensures
            r == Self::zero(),
    {
        fuse_create_in { flags: 0, mode: 0, umask: 0, padding: 0 }
    }
}

/// An open file, as `OPEN` and `OPENDIR` hand it back.
#[derive(Debug, Clone, Copy)]
pub struct fuse_open_out {
    /// File handle
    pub fh: u64,
    /// Flags of the `FOPEN_` family
    pub open_flags: u32,
    pub padding: u32,
}

impl fuse_open_out {
    /// Number of bytes that the record takes on the wire.
    pub const SIZE: usize = 16;

    /// The record on the wire: its fields in order, each little-endian.
    pub open spec fn wire(self) -> Seq<u8> {
        le_u64(self.fh) + le_u32(self.open_flags) + le_u32(self.padding)
    }

    /// Writes the record into `buffer` at `at` and returns the offset behind it.
    pub fn write_at(&self, buffer: &mut [u8], at: usize) -> (end: usize)
        requires
            at + 16 <= old(buffer)@.len(),
        ensures
            end == at + 16,
            self.wire().len() == 16,
            final(buffer)@.len() == old(buffer)@.len(),
            final(buffer)@ == splice(old(buffer)@, at as int, self.wire()),
    {
        let mut c = Cursor::begin(buffer, at);
        c.put_u64(buffer, self.fh);
        c.put_u32(buffer, self.open_flags);
        c.put_u32(buffer, self.padding);
        c.pos
    }

    /// Writes the record at the cursor `c`.
    pub fn emit(&self, c: &mut Cursor, buffer: &mut [u8])
        requires
            old(c).tracks(old(buffer)@),
            old(c).pos + 16 <= old(buffer)@.len(),
        ensures
            final(c).tracks(final(buffer)@),
            old(c).extends(*final(c), self.wire()),
            self.wire().len() == 16,
    {
        let ghost before = buffer@;
        let end = self.write_at(buffer, c.pos);
        c.advance(buffer, end, Ghost(before), Ghost(self.wire()));
    }
}

/// The file that `CREATE` made, and the handle on it.
#[derive(Debug, Clone, Copy)]
pub struct fuse_create_out {
    pub entry: fuse_entry_out,
    pub open: fuse_open_out,
}

impl fuse_create_out {
    /// Number of bytes that the record takes on the wire.
    pub const SIZE: usize = 144;

    /// The record on the wire: its fields in order, each little-endian.
    pub open spec fn wire(self) -> Seq<u8> {
        self.entry.wire() + self.open.wire()
    }

    /// Writes the record into `buffer` at `at` and returns the offset behind it.
    pub fn write_at(&self, buffer: &mut [u8], at: usize) -> (end: usize)
        requires
            at + 144 <= old(buffer)@.len(),
        ensures
            end == at + 144,
            self.wire().len() == 144,
            final(buffer)@.len() == old(buffer)@.len(),
            final(buffer)@ == splice(old(buffer)@, at as int, self.wire()),
    {
        let mut c = Cursor::begin(buffer, at);
        self.entry.emit(&mut c, buffer);
        self.open.emit(&mut c, buffer);
        c.pos
    }
}

/// Argument of `RELEASE` and `RELEASEDIR`.
#[derive(Debug, Clone, Copy)]
pub struct fuse_release_in {
    pub fh: u64,
    pub flags: i32,
    pub release_flags: u32,
    pub lock_owner: u64,
}

impl fuse_release_in {
    /// Number of bytes that the record takes on the wire.
    pub const SIZE: usize = 24;

    /// The record on the wire: its fields in order, each little-endian.
    pub open spec fn wire(self) -> Seq<u8> {
        le_u64(self.fh) + le_i32(self.flags) + le_u32(self.release_flags)
        + le_u64(self.lock_owner)
    }

    /// The record whose bytes start at `b[at]`.
    pub open spec fn decode(b: Seq<u8>, at: int) -> Self {
        fuse_release_in {
            fh: u64_at(b, at),
            flags: i32_at(b, at + 8),
            release_flags: u32_at(b, at + 12),
            lock_owner: u64_at(b, at + 16),
        }
    }

    /// Reads the record whose bytes start at `bytes[at]`.
    pub fn read_at(bytes: &[u8], at: usize) -> (r: Self)
        requires
            at + 24 <= bytes.len(),
        ensures
            r == Self::decode(bytes@, at as int),
    {
        fuse_release_in {
            fh: get_u64(bytes, at),
            flags: get_i32(bytes, at + 8),
            release_flags: get_u32(bytes, at + 12),
            lock_owner: get_u64(bytes, at + 16),
        }
    }

    /// The record is read back from wherever its bytes stand.
    pub proof fn lemma_decode_wire(self, b: Seq<u8>, at: int)
        requires
            0 <= at,
            at + 24 <= b.len(),
            b.subrange(at, at + 24) == self.wire(),
        ensures
            Self::decode(b, at) == self,
    {
        assert(self.wire().subrange(0, 8) =~= le_u64(self.fh));
        lemma_subrange_of_subrange(b, at, 24, 0, 8);
        lemma_u64_at(b, at, self.fh);
        assert(self.wire().subrange(8, 12) =~= le_i32(self.flags));
        lemma_subrange_of_subrange(b, at, 24, 8, 12);
        lemma_i32_at(b, at + 8, self.flags);
        assert(self.wire().subrange(12, 16) =~= le_u32(self.release_flags));
        lemma_subrange_of_subrange(b, at, 24, 12, 16);
        lemma_u32_at(b, at + 12, self.release_flags);
        assert(self.wire().subrange(16, 24) =~= le_u64(self.lock_owner));
        lemma_subrange_of_subrange(b, at, 24, 16, 24);
        lemma_u64_at(b, at + 16, self.lock_owner);
    }

    /// What is read takes up the bytes that it is read from, and no others:
    /// writing it gives them again.
    pub proof fn lemma_wire_decode(b: Seq<u8>, at: int)
        requires
            0 <= at,
            at + 24 <= b.len(),
        ensures
            Self::decode(b, at).wire() == b.subrange(at, at + 24),
    {
        lemma_u64_bytes_round_trip(b, at);
        lemma_i32_bytes_round_trip(b, at + 8);
        lemma_u32_bytes_round_trip(b, at + 12);
        lemma_u64_bytes_round_trip(b, at + 16);
        assert(Self::decode(b, at).wire() =~= b.subrange(at, at + 24));
    }
}

/// Argument of `FLUSH`.
#[derive(Debug, Clone, Copy)]
pub struct fuse_flush_in {
    pub fh: u64,
    pub unused: u32,
    pub padding: u32,
    pub lock_owner: u64,
}

impl fuse_flush_in {
    /// Number of bytes that the record takes on the wire.
    pub const SIZE: usize = 24;

    /// The record on the wire: its fields in order, each little-endian.
    pub open spec fn wire(self) -> Seq<u8> {
        le_u64(self.fh) + le_u32(self.unused) + le_u32(self.padding) + le_u64(self.lock_owner)
    }

    /// The record whose bytes start at `b[at]`.
    pub open spec fn decode(b: Seq<u8>, at: int) -> Self {
        fuse_flush_in {
            fh: u64_at(b, at),
            unused: u32_at(b, at + 8),
            padding: u32_at(b, at + 12),
            lock_owner: u64_at(b, at + 16),
        }
    }

    /// Reads the record whose bytes start at `bytes[at]`.
    pub fn read_at(bytes: &[u8], at: usize) -> (r: Self)
        requires
            at + 24 <= bytes.len(),
        ensures
            r == Self::decode(bytes@, at as int),
    {
        fuse_flush_in {
            fh: get_u64(bytes, at),
            unused: get_u32(bytes, at + 8),
            padding: get_u32(bytes, at + 12),
            lock_owner: get_u64(bytes, at + 16),
        }
    }

    /// The record is read back from wherever its bytes stand.
    pub proof fn lemma_decode_wire(self, b: Seq<u8>, at: int)
        requires
            0 <= at,
            at + 24 <= b.len(),
            b.subrange(at, at + 24) == self.wire(),
        ensures
            Self::decode(b, at) == self,
    {
        assert(self.wire().subrange(0, 8) =~= le_u64(self.fh));
        lemma_subrange_of_subrange(b, at, 24, 0, 8);
        lemma_u64_at(b, at, self.fh);
        assert(self.wire().subrange(8, 12) =~= le_u32(self.unused));
        lemma_subrange_of_subrange(b, at, 24, 8, 12);
        lemma_u32_at(b, at + 8, self.unused);
        assert(self.wire().subrange(12, 16) =~= le_u32(self.padding));
        lemma_subrange_of_subrange(b, at, 24, 12, 16);
        lemma_u32_at(b, at + 12, self.padding);
        assert(self.wire().subrange(16, 24) =~= le_u64(self.lock_owner));
        lemma_subrange_of_subrange(b, at, 24, 16, 24);
        lemma_u64_at(b, at + 16, self.lock_owner);
    }

    /// What is read takes up the bytes that it is read from, and no others:
    /// writing it gives them again.
    pub proof fn lemma_wire_decode(b: Seq<u8>, at: int)
        requires
            0 <= at,
            at + 24 <= b.len(),
        ensures
            Self::decode(b, at).wire() == b.subrange(at, at + 24),
    {
        lemma_u64_bytes_round_trip(b, at);
        lemma_u32_bytes_round_trip(b, at + 8);
        lemma_u32_bytes_round_trip(b, at + 12);
        lemma_u64_bytes_round_trip(b, at + 16);
        assert(Self::decode(b, at).wire() =~= b.subrange(at, at + 24));
    }
}

/// Argument of `READ`, `READDIR` and `READDIRPLUS`.
#[derive(Debug, Clone, Copy)]
pub struct fuse_read_in {
    pub fh: u64,
    /// Signed, as the filesystem is handed it
    pub offset: i64,
    pub size: u32,
    pub read_flags: u32,
    pub lock_owner: u64,
    pub flags: i32,
    pub padding: u32,
}

impl fuse_read_in {
    /// Number of bytes that the record takes on the wire.
    pub const SIZE: usize = 40;

    /// The record on the wire: its fields in order, each little-endian.
    pub open spec fn wire(self) -> Seq<u8> {
        le_u64(self.fh) + le_i64(self.offset) + le_u32(self.size) + le_u32(self.read_flags)
        + le_u64(self.lock_owner) + le_i32(self.flags) + le_u32(self.padding)
    }

    /// The record whose bytes start at `b[at]`.
    pub open spec fn decode(b: Seq<u8>, at: int) -> Self {
        fuse_read_in {
            fh: u64_at(b, at),
            offset: i64_at(b, at + 8),
            size: u32_at(b, at + 16),
            read_flags: u32_at(b, at + 20),
            lock_owner: u64_at(b, at + 24),
            flags: i32_at(b, at + 32),
            padding: u32_at(b, at + 36),
        }
    }

    /// Reads the record whose bytes start at `bytes[at]`.
    pub fn read_at(bytes: &[u8], at: usize) -> (r: Self)
        requires
            at + 40 <= bytes.len(),
        ensures
            r == Self::decode(bytes@, at as int),
    {
        fuse_read_in {
            fh: get_u64(bytes, at),
            offset: get_i64(bytes, at + 8),
            size: get_u32(bytes, at + 16),
            read_flags: get_u32(bytes, at + 20),
            lock_owner: get_u64(bytes, at + 24),
            flags: get_i32(bytes, at + 32),
            padding: get_u32(bytes, at + 36),
        }
    }

    /// The record is read back from wherever its bytes stand.
    pub proof fn lemma_decode_wire(self, b: Seq<u8>, at: int)
        requires
            0 <= at,
            at + 40 <= b.len(),
            b.subrange(at, at + 40) == self.wire(),
        ensures
            Self::decode(b, at) == self,
    {
        assert(self.wire().subrange(0, 8) =~= le_u64(self.fh));
        lemma_subrange_of_subrange(b, at, 40, 0, 8);
        lemma_u64_at(b, at, self.fh);
        assert(self.wire().subrange(8, 16) =~= le_i64(self.offset));
        lemma_subrange_of_subrange(b, at, 40, 8, 16);
        lemma_i64_at(b, at + 8, self.offset);
        assert(self.wire().subrange(16, 20) =~= le_u32(self.size));
        lemma_subrange_of_subrange(b, at, 40, 16, 20);
        lemma_u32_at(b, at + 16, self.size);
        assert(self.wire().subrange(20, 24) =~= le_u32(self.read_flags));
        lemma_subrange_of_subrange(b, at, 40, 20, 24);
        lemma_u32_at(b, at + 20, self.read_flags);
        assert(self.wire().subrange(24, 32) =~= le_u64(self.lock_owner));
        lemma_subrange_of_subrange(b, at, 40, 24, 32);
        lemma_u64_at(b, at + 24, self.lock_owner);
        assert(self.wire().subrange(32, 36) =~= le_i32(self.flags));
        lemma_subrange_of_subrange(b, at, 40, 32, 36);
        lemma_i32_at(b, at + 32, self.flags);
        assert(self.wire().subrange(36, 40) =~= le_u32(self.padding));
        lemma_subrange_of_subrange(b, at, 40, 36, 40);
        lemma_u32_at(b, at + 36, self.padding);
    }

    /// What is read takes up the bytes that it is read from, and no others:
    /// writing it gives them again.
    pub proof fn lemma_wire_decode(b: Seq<u8>, at: int)
        requires
            0 <= at,
            at + 40 <= b.len(),
        ensures
            Self::decode(b, at).wire() == b.subrange(at, at + 40),
    {
        lemma_u64_bytes_round_trip(b, at);
        lemma_i64_bytes_round_trip(b, at + 8);
        lemma_u32_bytes_round_trip(b, at + 16);
        lemma_u32_bytes_round_trip(b, at + 20);
        lemma_u64_bytes_round_trip(b, at + 24);
        lemma_i32_bytes_round_trip(b, at + 32);
        lemma_u32_bytes_round_trip(b, at + 36);
        assert(Self::decode(b, at).wire() =~= b.subrange(at, at + 40));
    }
}

/// Argument of `WRITE`; `size` bytes of data follow it.
#[derive(Debug, Clone, Copy)]
pub struct fuse_write_in {
    pub fh: u64,
    /// Signed, as the filesystem is handed it
    pub offset: i64,
    /// Number of bytes of data that follow the record
    pub size: u32,
    pub write_flags: u32,
    pub lock_owner: u64,
    pub flags: i32,
    pub padding: u32,
}

impl fuse_write_in {
    /// Number of bytes that the record takes on the wire.
    pub const SIZE: usize = 40;

    /// The record on the wire: its fields in order, each little-endian.
    pub open spec fn wire(self) -> Seq<u8> {
        le_u64(self.fh) + le_i64(self.offset) + le_u32(self.size) + le_u32(self.write_flags)
        + le_u64(self.lock_owner) + le_i32(self.flags) + le_u32(self.padding)
    }

    /// The record whose bytes start at `b[at]`.
    pub open spec fn decode(b: Seq<u8>, at: int) -> Self {
        fuse_write_in {
            fh: u64_at(b, at),
            offset: i64_at(b, at + 8),
            size: u32_at(b, at + 16),
            write_flags: u32_at(b, at + 20),
            lock_owner: u64_at(b, at + 24),
            flags: i32_at(b, at + 32),
            padding: u32_at(b, at + 36),
        }
    }

    /// Reads the record whose bytes start at `bytes[at]`.
    pub fn read_at(bytes: &[u8], at: usize) -> (r: Self)
        requires
            at + 40 <= bytes.len(),
        ensures
            r == Self::decode(bytes@, at as int),
    {
        fuse_write_in {
            fh: get_u64(bytes, at),
            offset: get_i64(bytes, at + 8),
            size: get_u32(bytes, at + 16),
            write_flags: get_u32(bytes, at + 20),
            lock_owner: get_u64(bytes, at + 24),
            flags: get_i32(bytes, at + 32),
            padding: get_u32(bytes, at + 36),
        }
    }

    /// The record is read back from wherever its bytes stand.
    pub proof fn lemma_decode_wire(self, b: Seq<u8>, at: int)
        requires
            0 <= at,
            at + 40 <= b.len(),
            b.subrange(at, at + 40) == self.wire(),
        ensures
            Self::decode(b, at) == self,
    {
        assert(self.wire().subrange(0, 8) =~= le_u64(self.fh));
        lemma_subrange_of_subrange(b, at, 40, 0, 8);
        lemma_u64_at(b, at, self.fh);
        assert(self.wire().subrange(8, 16) =~= le_i64(self.offset));
        lemma_subrange_of_subrange(b, at, 40, 8, 16);
        lemma_i64_at(b, at + 8, self.offset);
        assert(self.wire().subrange(16, 20) =~= le_u32(self.size));
        lemma_subrange_of_subrange(b, at, 40, 16, 20);
        lemma_u32_at(b, at + 16, self.size);
        assert(self.wire().subrange(20, 24) =~= le_u32(self.write_flags));
        lemma_subrange_of_subrange(b, at, 40, 20, 24);
        lemma_u32_at(b, at + 20, self.write_flags);
        assert(self.wire().subrange(24, 32) =~= le_u64(self.lock_owner));
        lemma_subrange_of_subrange(b, at, 40, 24, 32);
        lemma_u64_at(b, at + 24, self.lock_owner);
        assert(self.wire().subrange(32, 36) =~= le_i32(self.flags));
        lemma_subrange_of_subrange(b, at, 40, 32, 36);
        lemma_i32_at(b, at + 32, self.flags);
        assert(self.wire().subrange(36, 40) =~= le_u32(self.padding));
        lemma_subrange_of_subrange(b, at, 40, 36, 40);
        lemma_u32_at(b, at + 36, self.padding);
    }

    /// What is read takes up the bytes that it is read from, and no others:
    /// writing it gives them again.
    pub proof fn lemma_wire_decode(b: Seq<u8>, at: int)
        requires
            0 <= at,
            at + 40 <= b.len(),
        ensures
            Self::decode(b, at).wire() == b.subrange(at, at + 40),
    {
        lemma_u64_bytes_round_trip(b, at);
        lemma_i64_bytes_round_trip(b, at + 8);
        lemma_u32_bytes_round_trip(b, at + 16);
        lemma_u32_bytes_round_trip(b, at + 20);
        lemma_u64_bytes_round_trip(b, at + 24);
        lemma_i32_bytes_round_trip(b, at + 32);
        lemma_u32_bytes_round_trip(b, at + 36);
        assert(Self::decode(b, at).wire() =~= b.subrange(at, at + 40));
    }
}

/// The number of bytes that `WRITE` took.
#[derive(Debug, Clone, Copy)]
pub struct fuse_write_out {
    pub size: u32,
    pub padding: u32,
}

impl fuse_write_out {
    /// Number of bytes that the record takes on the wire.
    pub const SIZE: usize = 8;

    /// The record on the wire: its fields in order, each little-endian.
    pub open spec fn wire(self) -> Seq<u8> {
        le_u32(self.size) + le_u32(self.padding)
    }

    /// Writes the record into `buffer` at `at` and returns the offset behind it.
    pub fn write_at(&self, buffer: &mut [u8], at: usize) -> (end: usize)
        requires
            at + 8 <= old(buffer)@.len(),
        ensures
            end == at + 8,
            self.wire().len() == 8,
            final(buffer)@.len() == old(buffer)@.len(),
            final(buffer)@ == splice(old(buffer)@, at as int, self.wire()),
    {
        let mut c = Cursor::begin(buffer, at);
        c.put_u32(buffer, self.size);
        c.put_u32(buffer, self.padding);
        c.pos
    }
}

/// What `STATFS` hands back.
#[derive(Debug, Clone, Copy)]
pub struct fuse_statfs_out {
    pub st: fuse_kstatfs,
}

impl fuse_statfs_out {
    /// Number of bytes that the record takes on the wire.
    pub const SIZE: usize = 80;

    /// The record on the wire: its fields in order, each little-endian.
    pub open spec fn wire(self) -> Seq<u8> {
        self.st.wire()
    }

    /// Writes the record into `buffer` at `at` and returns the offset behind it.
    pub fn write_at(&self, buffer: &mut [u8], at: usize) -> (end: usize)
        requires
            at + 80 <= old(buffer)@.len(),
        ensures
            end == at + 80,
            self.wire().len() == 80,
            final(buffer)@.len() == old(buffer)@.len(),
            final(buffer)@ == splice(old(buffer)@, at as int, self.wire()),
    {
        let mut c = Cursor::begin(buffer, at);
        self.st.emit(&mut c, buffer);
        c.pos
    }
}

/// Argument of `FSYNC` and `FSYNCDIR`.
#[derive(Debug, Clone, Copy)]
pub struct fuse_fsync_in {
    pub fh: u64,
    pub fsync_flags: u32,
    pub padding: u32,
}

impl fuse_fsync_in {
    /// Number of bytes that the record takes on the wire.
    pub const SIZE: usize = 16;

    /// The record on the wire: its fields in order, each little-endian.
    pub open spec fn wire(self) -> Seq<u8> {
        le_u64(self.fh) + le_u32(self.fsync_flags) + le_u32(self.padding)
    }

    /// The record whose bytes start at `b[at]`.
    pub open spec fn decode(b: Seq<u8>, at: int) -> Self {
        fuse_fsync_in {
            fh: u64_at(b, at),
            fsync_flags: u32_at(b, at + 8),
            padding: u32_at(b, at + 12),
        }
    }

    /// Reads the record whose bytes start at `bytes[at]`.
    pub fn read_at(bytes: &[u8], at: usize) -> (r: Self)
        requires
            at + 16 <= bytes.len(),
        ensures
            r == Self::decode(bytes@, at as int),
    {
        fuse_fsync_in {
            fh: get_u64(bytes, at),
            fsync_flags: get_u32(bytes, at + 8),
            padding: get_u32(bytes, at + 12),
        }
    }

    /// The record is read back from wherever its bytes stand.
    pub proof fn lemma_decode_wire(self, b: Seq<u8>, at: int)
        requires
            0 <= at,
            at + 16 <= b.len(),
            b.subrange(at, at + 16) == self.wire(),
        ensures
            Self::decode(b, at) == self,
    {
        assert(self.wire().subrange(0, 8) =~= le_u64(self.fh));
        lemma_subrange_of_subrange(b, at, 16, 0, 8);
        lemma_u64_at(b, at, self.fh);
        assert(self.wire().subrange(8, 12) =~= le_u32(self.fsync_flags));
        lemma_subrange_of_subrange(b, at, 16, 8, 12);
        lemma_u32_at(b, at + 8, self.fsync_flags);
        assert(self.wire().subrange(12, 16) =~= le_u32(self.padding));
        lemma_subrange_of_subrange(b, at, 16, 12, 16);
        lemma_u32_at(b, at + 12, self.padding);
    }

    /// What is read takes up the bytes that it is read from, and no others:
    /// writing it gives them again.
    pub proof fn lemma_wire_decode(b: Seq<u8>, at: int)
        requires
            0 <= at,
            at + 16 <= b.len(),
        ensures
            Self::decode(b, at).wire() == b.subrange(at, at + 16),
    {
        lemma_u64_bytes_round_trip(b, at);
        lemma_u32_bytes_round_trip(b, at + 8);
        lemma_u32_bytes_round_trip(b, at + 12);
        assert(Self::decode(b, at).wire() =~= b.subrange(at, at + 16));
    }
}

/// Argument of `SETXATTR`; the name of the attribute follows it, and its value.
#[derive(Debug, Clone, Copy)]
pub struct fuse_setxattr_in {
    /// Number of bytes of the value, which follows the name
    pub size: u32,
    pub flags: i32,
}

impl fuse_setxattr_in {
    /// Number of bytes that the record takes on the wire.
    pub const SIZE: usize = 8;

    /// The record on the wire: its fields in order, each little-endian.
    pub open spec fn wire(self) -> Seq<u8> {
        le_u32(self.size) + le_i32(self.flags)
    }

    /// Writes the record into `buffer` at `at` and returns the offset behind it.
    pub fn write_at(&self, buffer: &mut [u8], at: usize) -> (end: usize)
        requires
            at + 8 <= old(buffer)@.len(),
        ensures
            end == at + 8,
            self.wire().len() == 8,
            final(buffer)@.len() == old(buffer)@.len(),
            final(buffer)@ == splice(old(buffer)@, at as int, self.wire()),
    {
        let mut c = Cursor::begin(buffer, at);
        c.put_u32(buffer, self.size);
        c.put_i32(buffer, self.flags);
        c.pos
    }

    /// The record whose bytes start at `b[at]`.
    pub open spec fn decode(b: Seq<u8>, at: int) -> Self {
        fuse_setxattr_in {
            size: u32_at(b, at),
            flags: i32_at(b, at + 4),
        }
    }

    /// Reads the record whose bytes start at `bytes[at]`.
    pub fn read_at(bytes: &[u8], at: usize) -> (r: Self)
        requires
            at + 8 <= bytes.len(),
        ensures
            r == Self::decode(bytes@, at as int),
    {
        fuse_setxattr_in {
            size: get_u32(bytes, at),
            flags: get_i32(bytes, at + 4),
        }
    }

    /// The record is read back from wherever its bytes stand.
    pub proof fn lemma_decode_wire(self, b: Seq<u8>, at: int)
        requires
            0 <= at,
            at + 8 <= b.len(),
            b.subrange(at, at + 8) == self.wire(),
        ensures
            Self::decode(b, at) == self,
    {
        assert(self.wire().subrange(0, 4) =~= le_u32(self.size));
        lemma_subrange_of_subrange(b, at, 8, 0, 4);
        lemma_u32_at(b, at, self.size);
        assert(self.wire().subrange(4, 8) =~= le_i32(self.flags));
        lemma_subrange_of_subrange(b, at, 8, 4, 8);
        lemma_i32_at(b, at + 4, self.flags);
    }

    /// What is read takes up the bytes that it is read from, and no others:
    /// writing it gives them again.
    pub proof fn lemma_wire_decode(b: Seq<u8>, at: int)
        requires
            0 <= at,
            at + 8 <= b.len(),
        ensures
            Self::decode(b, at).wire() == b.subrange(at, at + 8),
    {
        lemma_u32_bytes_round_trip(b, at);
        lemma_i32_bytes_round_trip(b, at + 4);
        assert(Self::decode(b, at).wire() =~= b.subrange(at, at + 8));
    }
}

/// Argument of `GETXATTR` and `LISTXATTR`: the room that the caller has.
#[derive(Debug, Clone, Copy)]
pub struct fuse_getxattr_in {
    pub size: u32,
    pub padding: u32,
}

impl fuse_getxattr_in {
    /// Number of bytes that the record takes on the wire.
    pub const SIZE: usize = 8;

    /// The record on the wire: its fields in order, each little-endian.
    pub open spec fn wire(self) -> Seq<u8> {
        le_u32(self.size) + le_u32(self.padding)
    }

    /// Writes the record into `buffer` at `at` and returns the offset behind it.
    pub fn write_at(&self, buffer: &mut [u8], at: usize) -> (end: usize)
        requires
            at + 8 <= old(buffer)@.len(),
        ensures
            end == at + 8,
            self.wire().len() == 8,
            final(buffer)@.len() == old(buffer)@.len(),
            final(buffer)@ == splice(old(buffer)@, at as int, self.wire()),
    {
        let mut c = Cursor::begin(buffer, at);
        c.put_u32(buffer, self.size);
        c.put_u32(buffer, self.padding);
        c.pos
    }

    /// The record whose bytes start at `b[at]`.
    pub open spec fn decode(b: Seq<u8>, at: int) -> Self {
        fuse_getxattr_in {
            size: u32_at(b, at),
            padding: u32_at(b, at + 4),
        }
    }

    /// Reads the record whose bytes start at `bytes[at]`.
    pub fn read_at(bytes: &[u8], at: usize) -> (r: Self)
        requires
            at + 8 <= bytes.len(),
        ensures
            r == Self::decode(bytes@, at as int),
    {
        fuse_getxattr_in {
            size: get_u32(bytes, at),
            padding: get_u32(bytes, at + 4),
        }
    }

    /// The record is read back from wherever its bytes stand.
    pub proof fn lemma_decode_wire(self, b: Seq<u8>, at: int)
        requires
            0 <= at,
            at + 8 <= b.len(),
            b.subrange(at, at + 8) == self.wire(),
        ensures
            Self::decode(b, at) == self,
    {
        assert(self.wire().subrange(0, 4) =~= le_u32(self.size));
        lemma_subrange_of_subrange(b, at, 8, 0, 4);
        lemma_u32_at(b, at, self.size);
        assert(self.wire().subrange(4, 8) =~= le_u32(self.padding));
        lemma_subrange_of_subrange(b, at, 8, 4, 8);
        lemma_u32_at(b, at + 4, self.padding);
    }

    /// What is read takes up the bytes that it is read from, and no others:
    /// writing it gives them again.
    pub proof fn lemma_wire_decode(b: Seq<u8>, at: int)
        requires
            0 <= at,
            at + 8 <= b.len(),
        ensures
            Self::decode(b, at).wire() == b.subrange(at, at + 8),
    {
        lemma_u32_bytes_round_trip(b, at);
        lemma_u32_bytes_round_trip(b, at + 4);
        assert(Self::decode(b, at).wire() =~= b.subrange(at, at + 8));
    }
}

/// The size of the value of an extended attribute, or of the list of names.
#[derive(Debug, Clone, Copy)]
pub struct fuse_getxattr_out {
    pub size: u32,
    pub padding: u32,
}

impl fuse_getxattr_out {
    /// Number of bytes that the record takes on the wire.
    pub const SIZE: usize = 8;

    /// The record on the wire: its fields in order, each little-endian.
    pub open spec fn wire(self) -> Seq<u8> {
        le_u32(self.size) + le_u32(self.padding)
    }

    /// Writes the record into `buffer` at `at` and returns the offset behind it.
    pub fn write_at(&self, buffer: &mut [u8], at: usize) -> (end: usize)
        requires
            at + 8 <= old(buffer)@.len(),
        ensures
            end == at + 8,
            self.wire().len() == 8,
            final(buffer)@.len() == old(buffer)@.len(),
            final(buffer)@ == splice(old(buffer)@, at as int, self.wire()),
    {
        let mut c = Cursor::begin(buffer, at);
        c.put_u32(buffer, self.size);
        c.put_u32(buffer, self.padding);
        c.pos
    }
}

/// Argument of `GETLK`, `SETLK` and `SETLKW`.
#[derive(Debug, Clone, Copy)]
pub struct fuse_lk_in {
    pub fh: u64,
    pub owner: u64,
    pub lk: fuse_file_lock,
    pub lk_flags: u32,
    pub padding: u32,
}

impl fuse_lk_in {
    /// Number of bytes that the record takes on the wire.
    pub const SIZE: usize = 48;

    /// The record on the wire: its fields in order, each little-endian.
    pub open spec fn wire(self) -> Seq<u8> {
        le_u64(self.fh) + le_u64(self.owner) + self.lk.wire() + le_u32(self.lk_flags)
        + le_u32(self.padding)
    }

    /// The record whose bytes start at `b[at]`.
    pub open spec fn decode(b: Seq<u8>, at: int) -> Self {
        fuse_lk_in {
            fh: u64_at(b, at),
            owner: u64_at(b, at + 8),
            lk: fuse_file_lock::decode(b, at + 16),
            lk_flags: u32_at(b, at + 40),
            padding: u32_at(b, at + 44),
        }
    }

    /// Reads the record whose bytes start at `bytes[at]`.
    pub fn read_at(bytes: &[u8], at: usize) -> (r: Self)
        requires
            at + 48 <= bytes.len(),
        ensures
            r == Self::decode(bytes@, at as int),
    {
        fuse_lk_in {
            fh: get_u64(bytes, at),
            owner: get_u64(bytes, at + 8),
            lk: fuse_file_lock::read_at(bytes, at + 16),
            lk_flags: get_u32(bytes, at + 40),
            padding: get_u32(bytes, at + 44),
        }
    }

    /// The record is read back from wherever its bytes stand.
    pub proof fn lemma_decode_wire(self, b: Seq<u8>, at: int)
        requires
            0 <= at,
            at + 48 <= b.len(),
            b.subrange(at, at + 48) == self.wire(),
        ensures
            Self::decode(b, at) == self,
    {
        assert(self.wire().subrange(0, 8) =~= le_u64(self.fh));
        lemma_subrange_of_subrange(b, at, 48, 0, 8);
        lemma_u64_at(b, at, self.fh);
        assert(self.wire().subrange(8, 16) =~= le_u64(self.owner));
        lemma_subrange_of_subrange(b, at, 48, 8, 16);
        lemma_u64_at(b, at + 8, self.owner);
        assert(self.wire().subrange(16, 40) =~= self.lk.wire());
        lemma_subrange_of_subrange(b, at, 48, 16, 40);
        self.lk.lemma_decode_wire(b, at + 16);
        assert(self.wire().subrange(40, 44) =~= le_u32(self.lk_flags));
        lemma_subrange_of_subrange(b, at, 48, 40, 44);
        lemma_u32_at(b, at + 40, self.lk_flags);
        assert(self.wire().subrange(44, 48) =~= le_u32(self.padding));
        lemma_subrange_of_subrange(b, at, 48, 44, 48);
        lemma_u32_at(b, at + 44, self.padding);
    }

    /// What is read takes up the bytes that it is read from, and no others:
    /// writing it gives them again.
    pub proof fn lemma_wire_decode(b: Seq<u8>, at: int)
        requires
            0 <= at,
            at + 48 <= b.len(),
        ensures
            Self::decode(b, at).wire() == b.subrange(at, at + 48),
    {
        lemma_u64_bytes_round_trip(b, at);
        lemma_u64_bytes_round_trip(b, at + 8);
        fuse_file_lock::lemma_wire_decode(b, at + 16);
        lemma_u32_bytes_round_trip(b, at + 40);
        lemma_u32_bytes_round_trip(b, at + 44);
        assert(Self::decode(b, at).wire() =~= b.subrange(at, at + 48));
    }
}

/// The lock that `GETLK` found.
#[derive(Debug, Clone, Copy)]
pub struct fuse_lk_out {
    pub lk: fuse_file_lock,
}

impl fuse_lk_out {
    /// Number of bytes that the record takes on the wire.
    pub const SIZE: usize = 24;

    /// The record on the wire: its fields in order, each little-endian.
    pub open spec fn wire(self) -> Seq<u8> {
        self.lk.wire()
    }

    /// Writes the record into `buffer` at `at` and returns the offset behind it.
    pub fn write_at(&self, buffer: &mut [u8], at: usize) -> (end: usize)
        requires
            at + 24 <= old(buffer)@.len(),
        ensures
            end == at + 24,
            self.wire().len() == 24,
            final(buffer)@.len() == old(buffer)@.len(),
            final(buffer)@ == splice(old(buffer)@, at as int, self.wire()),
    {
        let mut c = Cursor::begin(buffer, at);
        self.lk.emit(&mut c, buffer);
        c.pos
    }
}

/// Argument of `ACCESS`.
#[derive(Debug, Clone, Copy)]
pub struct fuse_access_in {
    pub mask: i32,
    pub padding: u32,
}

impl fuse_access_in {
    /// Number of bytes that the record takes on the wire.
    pub const SIZE: usize = 8;

    /// The record on the wire: its fields in order, each little-endian.
    pub open spec fn wire(self) -> Seq<u8> {
        le_i32(self.mask) + le_u32(self.padding)
    }

    /// The record whose bytes start at `b[at]`.
    pub open spec fn decode(b: Seq<u8>, at: int) -> Self {
        fuse_access_in {
            mask: i32_at(b, at),
            padding: u32_at(b, at + 4),
        }
    }

    /// Reads the record whose bytes start at `bytes[at]`.
    pub fn read_at(bytes: &[u8], at: usize) -> (r: Self)
        requires
            at + 8 <= bytes.len(),
        ensures
            r == Self::decode(bytes@, at as int),
    {
        fuse_access_in {
            mask: get_i32(bytes, at),
            padding: get_u32(bytes, at + 4),
        }
    }

    /// The record is read back from wherever its bytes stand.
    pub proof fn lemma_decode_wire(self, b: Seq<u8>, at: int)
        requires
            0 <= at,
            at + 8 <= b.len(),
            b.subrange(at, at + 8) == self.wire(),
        ensures
            Self::decode(b, at) == self,
    {
        assert(self.wire().subrange(0, 4) =~= le_i32(self.mask));
        lemma_subrange_of_subrange(b, at, 8, 0, 4);
        lemma_i32_at(b, at, self.mask);
        assert(self.wire().subrange(4, 8) =~= le_u32(self.padding));
        lemma_subrange_of_subrange(b, at, 8, 4, 8);
        lemma_u32_at(b, at + 4, self.padding);
    }

    /// What is read takes up the bytes that it is read from, and no others:
    /// writing it gives them again.
    pub proof fn lemma_wire_decode(b: Seq<u8>, at: int)
        requires
            0 <= at,
            at + 8 <= b.len(),
        ensures
            Self::decode(b, at).wire() == b.subrange(at, at + 8),
    {
        lemma_i32_bytes_round_trip(b, at);
        lemma_u32_bytes_round_trip(b, at + 4);
        assert(Self::decode(b, at).wire() =~= b.subrange(at, at + 8));
    }
}

/// Argument of `INIT`: the version that the kernel speaks, and what it offers.
#[derive(Debug, Clone, Copy)]
pub struct fuse_init_in {
    pub major: u32,
    pub minor: u32,
    pub max_readahead: u32,
    pub flags: u32,
}

impl fuse_init_in {
    /// Number of bytes that the record takes on the wire.
    pub const SIZE: usize = 16;

    /// The record on the wire: its fields in order, each little-endian.
    pub open spec fn wire(self) -> Seq<u8> {
        le_u32(self.major) + le_u32(self.minor) + le_u32(self.max_readahead)
        + le_u32(self.flags)
    }

    /// The record whose bytes start at `b[at]`.
    pub open spec fn decode(b: Seq<u8>, at: int) -> Self {
        fuse_init_in {
            major: u32_at(b, at),
            minor: u32_at(b, at + 4),
            max_readahead: u32_at(b, at + 8),
            flags: u32_at(b, at + 12),
        }
    }

    /// Reads the record whose bytes start at `bytes[at]`.
    pub fn read_at(bytes: &[u8], at: usize) -> (r: Self)
        requires
            at + 16 <= bytes.len(),
        ensures
            r == Self::decode(bytes@, at as int),
    {
        fuse_init_in {
            major: get_u32(bytes, at),
            minor: get_u32(bytes, at + 4),
            max_readahead: get_u32(bytes, at + 8),
            flags: get_u32(bytes, at + 12),
        }
    }

    /// The record is read back from wherever its bytes stand.
    pub proof fn lemma_decode_wire(self, b: Seq<u8>, at: int)
        requires
            0 <= at,
            at + 16 <= b.len(),
            b.subrange(at, at + 16) == self.wire(),
        ensures
            Self::decode(b, at) == self,
    {
        assert(self.wire().subrange(0, 4) =~= le_u32(self.major));
        lemma_subrange_of_subrange(b, at, 16, 0, 4);
        lemma_u32_at(b, at, self.major);
        assert(self.wire().subrange(4, 8) =~= le_u32(self.minor));
        lemma_subrange_of_subrange(b, at, 16, 4, 8);
        lemma_u32_at(b, at + 4, self.minor);
        assert(self.wire().subrange(8, 12) =~= le_u32(self.max_readahead));
        lemma_subrange_of_subrange(b, at, 16, 8, 12);
        lemma_u32_at(b, at + 8, self.max_readahead);
        assert(self.wire().subrange(12, 16) =~= le_u32(self.flags));
        lemma_subrange_of_subrange(b, at, 16, 12, 16);
        lemma_u32_at(b, at + 12, self.flags);
    }

    /// What is read takes up the bytes that it is read from, and no others:
    /// writing it gives them again.
    pub proof fn lemma_wire_decode(b: Seq<u8>, at: int)
        requires
            0 <= at,
            at + 16 <= b.len(),
        ensures
            Self::decode(b, at).wire() == b.subrange(at, at + 16),
    {
        lemma_u32_bytes_round_trip(b, at);
        lemma_u32_bytes_round_trip(b, at + 4);
        lemma_u32_bytes_round_trip(b, at + 8);
        lemma_u32_bytes_round_trip(b, at + 12);
        assert(Self::decode(b, at).wire() =~= b.subrange(at, at + 16));
    }
}

/// What the filesystem answers to `INIT`: the version it speaks and its limits.
#[derive(Debug)]
pub struct fuse_init_out {
    /// ABI version, major
    pub major: u32,
    /// ABI version, minor
    pub minor: u32,
    pub max_readahead: u32,
    /// Capabilities taken up, of the `FUSE_` init flags
    pub flags: u32,
    /// Maximum number of pending background requests
    pub max_background: u16,
    pub congestion_threshold: u16,
    /// Maximum number of bytes in a single write
    pub max_write: u32,
    /// Supported time granularity
    pub time_gran: u32,
    /// Maximum number of pages in a single request
    pub max_pages: u16,
    pub unused2: u16,
    pub reserved: [u32; 8],
}

impl fuse_init_out {
    /// Number of bytes that the record takes on the wire.
    pub const SIZE: usize = 64;

    /// The record on the wire: its fields in order, each little-endian.
    pub open spec fn wire(self) -> Seq<u8> {
        le_u32(self.major) + le_u32(self.minor) + le_u32(self.max_readahead)
        + le_u32(self.flags) + le_u16(self.max_background) + le_u16(self.congestion_threshold)
        + le_u32(self.max_write) + le_u32(self.time_gran) + le_u16(self.max_pages)
        + le_u16(self.unused2) + le_u32(self.reserved[0]) + le_u32(self.reserved[1])
        + le_u32(self.reserved[2]) + le_u32(self.reserved[3]) + le_u32(self.reserved[4])
        + le_u32(self.reserved[5]) + le_u32(self.reserved[6]) + le_u32(self.reserved[7])
    }

    /// Writes the record into `buffer` at `at` and returns the offset behind it.
    pub fn write_at(&self, buffer: &mut [u8], at: usize) -> (end: usize)
        requires
            at + 64 <= old(buffer)@.len(),
        ensures
            end == at + 64,
            self.wire().len() == 64,
            final(buffer)@.len() == old(buffer)@.len(),
            final(buffer)@ == splice(old(buffer)@, at as int, self.wire()),
    {
        let mut c = Cursor::begin(buffer, at);
        c.put_u32(buffer, self.major);
        c.put_u32(buffer, self.minor);
        c.put_u32(buffer, self.max_readahead);
        c.put_u32(buffer, self.flags);
        c.put_u16(buffer, self.max_background);
        c.put_u16(buffer, self.congestion_threshold);
        c.put_u32(buffer, self.max_write);
        c.put_u32(buffer, self.time_gran);
        c.put_u16(buffer, self.max_pages);
        c.put_u16(buffer, self.unused2);
        c.put_u32(buffer, self.reserved[0]);
        c.put_u32(buffer, self.reserved[1]);
        c.put_u32(buffer, self.reserved[2]);
        c.put_u32(buffer, self.reserved[3]);
        c.put_u32(buffer, self.reserved[4]);
        c.put_u32(buffer, self.reserved[5]);
        c.put_u32(buffer, self.reserved[6]);
        c.put_u32(buffer, self.reserved[7]);
        c.pos
    }
}

/// Argument of `CUSE_INIT`.
#[derive(Debug)]
pub struct cuse_init_in {
    pub major: u32,
    pub minor: u32,
    pub unused: u32,
    pub flags: u32,
}

impl cuse_init_in {
    /// Number of bytes that the record takes on the wire.
    pub const SIZE: usize = 16;

    /// The record on the wire: its fields in order, each little-endian.
    pub open spec fn wire(self) -> Seq<u8> {
        le_u32(self.major) + le_u32(self.minor) + le_u32(self.unused) + le_u32(self.flags)
    }

    /// The record whose bytes start at `b[at]`.
    pub open spec fn decode(b: Seq<u8>, at: int) -> Self {
        cuse_init_in {
            major: u32_at(b, at),
            minor: u32_at(b, at + 4),
            unused: u32_at(b, at + 8),
            flags: u32_at(b, at + 12),
        }
    }

    /// Reads the record whose bytes start at `bytes[at]`.
    pub fn read_at(bytes: &[u8], at: usize) -> (r: Self)
        requires
            at + 16 <= bytes.len(),
        ensures
            r == Self::decode(bytes@, at as int),
    {
        cuse_init_in {
            major: get_u32(bytes, at),
            minor: get_u32(bytes, at + 4),
            unused: get_u32(bytes, at + 8),
            flags: get_u32(bytes, at + 12),
        }
    }

    /// The record is read back from wherever its bytes stand.
    pub proof fn lemma_decode_wire(self, b: Seq<u8>, at: int)
        requires
            0 <= at,
            at + 16 <= b.len(),
            b.subrange(at, at + 16) == self.wire(),
        ensures
            Self::decode(b, at) == self,
    {
        assert(self.wire().subrange(0, 4) =~= le_u32(self.major));
        lemma_subrange_of_subrange(b, at, 16, 0, 4);
        lemma_u32_at(b, at, self.major);
        assert(self.wire().subrange(4, 8) =~= le_u32(self.minor));
        lemma_subrange_of_subrange(b, at, 16, 4, 8);
        lemma_u32_at(b, at + 4, self.minor);
        assert(self.wire().subrange(8, 12) =~= le_u32(self.unused));
        lemma_subrange_of_subrange(b, at, 16, 8, 12);
        lemma_u32_at(b, at + 8, self.unused);
        assert(self.wire().subrange(12, 16) =~= le_u32(self.flags));
        lemma_subrange_of_subrange(b, at, 16, 12, 16);
        lemma_u32_at(b, at + 12, self.flags);
    }

    /// What is read takes up the bytes that it is read from, and no others:
    /// writing it gives them again.
    pub proof fn lemma_wire_decode(b: Seq<u8>, at: int)
        requires
            0 <= at,
            at + 16 <= b.len(),
        ensures
            Self::decode(b, at).wire() == b.subrange(at, at + 16),
    {
        lemma_u32_bytes_round_trip(b, at);
        lemma_u32_bytes_round_trip(b, at + 4);
        lemma_u32_bytes_round_trip(b, at + 8);
        lemma_u32_bytes_round_trip(b, at + 12);
        assert(Self::decode(b, at).wire() =~= b.subrange(at, at + 16));
    }
}

/// What a character device in userspace answers to `CUSE_INIT`.
#[derive(Debug)]
pub struct cuse_init_out {
    pub major: u32,
    pub minor: u32,
    pub unused: u32,
    pub flags: u32,
    pub max_read: u32,
    pub max_write: u32,
    /// Major number of the character device
    pub dev_major: u32,
    /// Minor number of the character device
    pub dev_minor: u32,
    pub spare: [u32; 10],
}

/// Argument of `INTERRUPT`: the request that was interrupted.
#[derive(Debug, Clone, Copy)]
pub struct fuse_interrupt_in {
    pub unique: u64,
}

impl fuse_interrupt_in {
    /// Number of bytes that the record takes on the wire.
    pub const SIZE: usize = 8;

    /// The record on the wire: its fields in order, each little-endian.
    pub open spec fn wire(self) -> Seq<u8> {
        le_u64(self.unique)
    }

    /// The record whose bytes start at `b[at]`.
    pub open spec fn decode(b: Seq<u8>, at: int) -> Self {
        fuse_interrupt_in {
            unique: u64_at(b, at),
        }
    }

    /// Reads the record whose bytes start at `bytes[at]`.
    pub fn read_at(bytes: &[u8], at: usize) -> (r: Self)
        requires
            at + 8 <= bytes.len(),
        ensures
            r == Self::decode(bytes@, at as int),
    {
        fuse_interrupt_in {
            unique: get_u64(bytes, at),
        }
    }

    /// The record is read back from wherever its bytes stand.
    pub proof fn lemma_decode_wire(self, b: Seq<u8>, at: int)
        requires
            0 <= at,
            at + 8 <= b.len(),
            b.subrange(at, at + 8) == self.wire(),
        ensures
            Self::decode(b, at) == self,
    {
        assert(self.wire().subrange(0, 8) =~= le_u64(self.unique));
        lemma_subrange_of_subrange(b, at, 8, 0, 8);
        lemma_u64_at(b, at, self.unique);
    }

    /// What is read takes up the bytes that it is read from, and no others:
    /// writing it gives them again.
    pub proof fn lemma_wire_decode(b: Seq<u8>, at: int)
        requires
            0 <= at,
            at + 8 <= b.len(),
        ensures
            Self::decode(b, at).wire() == b.subrange(at, at + 8),
    {
        lemma_u64_bytes_round_trip(b, at);
        assert(Self::decode(b, at).wire() =~= b.subrange(at, at + 8));
    }
}

/// Argument of `BMAP`.
#[derive(Debug, Clone, Copy)]
pub struct fuse_bmap_in {
    pub block: u64,
    pub blocksize: u32,
    pub padding: u32,
}

impl fuse_bmap_in {
    /// Number of bytes that the record takes on the wire.
    pub const SIZE: usize = 16;

    /// The record on the wire: its fields in order, each little-endian.
    pub open spec fn wire(self) -> Seq<u8> {
        le_u64(self.block) + le_u32(self.blocksize) + le_u32(self.padding)
    }

    /// The record whose bytes start at `b[at]`.
    pub open spec fn decode(b: Seq<u8>, at: int) -> Self {
        fuse_bmap_in {
            block: u64_at(b, at),
            blocksize: u32_at(b, at + 8),
            padding: u32_at(b, at + 12),
        }
    }

    /// Reads the record whose bytes start at `bytes[at]`.
    pub fn read_at(bytes: &[u8], at: usize) -> (r: Self)
        requires
            at + 16 <= bytes.len(),
        ensures
            r == Self::decode(bytes@, at as int),
    {
        fuse_bmap_in {
            block: get_u64(bytes, at),
            blocksize: get_u32(bytes, at + 8),
            padding: get_u32(bytes, at + 12),
        }
    }

    /// The record is read back from wherever its bytes stand.
    pub proof fn lemma_decode_wire(self, b: Seq<u8>, at: int)
        requires
            0 <= at,
            at + 16 <= b.len(),
            b.subrange(at, at + 16) == self.wire(),
        ensures
            Self::decode(b, at) == self,
    {
        assert(self.wire().subrange(0, 8) =~= le_u64(self.block));
        lemma_subrange_of_subrange(b, at, 16, 0, 8);
        lemma_u64_at(b, at, self.block);
        assert(self.wire().subrange(8, 12) =~= le_u32(self.blocksize));
        lemma_subrange_of_subrange(b, at, 16, 8, 12);
        lemma_u32_at(b, at + 8, self.blocksize);
        assert(self.wire().subrange(12, 16) =~= le_u32(self.padding));
        lemma_subrange_of_subrange(b, at, 16, 12, 16);
        lemma_u32_at(b, at + 12, self.padding);
    }

    /// What is read takes up the bytes that it is read from, and no others:
    /// writing it gives them again.
    pub proof fn lemma_wire_decode(b: Seq<u8>, at: int)
        requires
            0 <= at,
            at + 16 <= b.len(),
        ensures
            Self::decode(b, at).wire() == b.subrange(at, at + 16),
    {
        lemma_u64_bytes_round_trip(b, at);
        lemma_u32_bytes_round_trip(b, at + 8);
        lemma_u32_bytes_round_trip(b, at + 12);
        assert(Self::decode(b, at).wire() =~= b.subrange(at, at + 16));
    }
}

/// What `BMAP` hands back.
#[derive(Debug, Clone, Copy)]
pub struct fuse_bmap_out {
    pub block: u64,
}

impl fuse_bmap_out {
    /// Number of bytes that the record takes on the wire.
    pub const SIZE: usize = 8;

    /// The record on the wire: its fields in order, each little-endian.
    pub open spec fn wire(self) -> Seq<u8> {
        le_u64(self.block)
    }

    /// Writes the record into `buffer` at `at` and returns the offset behind it.
    pub fn write_at(&self, buffer: &mut [u8], at: usize) -> (end: usize)
        requires
            at + 8 <= old(buffer)@.len(),
        ensures
            end == at + 8,
            self.wire().len() == 8,
            final(buffer)@.len() == old(buffer)@.len(),
            final(buffer)@ == splice(old(buffer)@, at as int, self.wire()),
    {
        let mut c = Cursor::begin(buffer, at);
        c.put_u64(buffer, self.block);
        c.pos
    }
}

/// Argument of `IOCTL`; the data of the call follow it.
#[derive(Debug, Clone, Copy)]
pub struct fuse_ioctl_in {
    pub fh: u64,
    pub flags: u32,
    pub cmd: u32,
    pub arg: u64,
    pub in_size: u32,
    pub out_size: u32,
}

impl fuse_ioctl_in {
    /// Number of bytes that the record takes on the wire.
    pub const SIZE: usize = 32;

    /// The record on the wire: its fields in order, each little-endian.
    pub open spec fn wire(self) -> Seq<u8> {
        le_u64(self.fh) + le_u32(self.flags) + le_u32(self.cmd) + le_u64(self.arg)
        + le_u32(self.in_size) + le_u32(self.out_size)
    }

    /// The record whose bytes start at `b[at]`.
    pub open spec fn decode(b: Seq<u8>, at: int) -> Self {
        fuse_ioctl_in {
            fh: u64_at(b, at),
            flags: u32_at(b, at + 8),
            cmd: u32_at(b, at + 12),
            arg: u64_at(b, at + 16),
            in_size: u32_at(b, at + 24),
            out_size: u32_at(b, at + 28),
        }
    }

    /// Reads the record whose bytes start at `bytes[at]`.
    pub fn read_at(bytes: &[u8], at: usize) -> (r: Self)
        requires
            at + 32 <= bytes.len(),
        ensures
            r == Self::decode(bytes@, at as int),
    {
        fuse_ioctl_in {
            fh: get_u64(bytes, at),
            flags: get_u32(bytes, at + 8),
            cmd: get_u32(bytes, at + 12),
            arg: get_u64(bytes, at + 16),
            in_size: get_u32(bytes, at + 24),
            out_size: get_u32(bytes, at + 28),
        }
    }

    /// The record is read back from wherever its bytes stand.
    pub proof fn lemma_decode_wire(self, b: Seq<u8>, at: int)
        requires
            0 <= at,
            at + 32 <= b.len(),
            b.subrange(at, at + 32) == self.wire(),
        ensures
            Self::decode(b, at) == self,
    {
        assert(self.wire().subrange(0, 8) =~= le_u64(self.fh));
        lemma_subrange_of_subrange(b, at, 32, 0, 8);
        lemma_u64_at(b, at, self.fh);
        assert(self.wire().subrange(8, 12) =~= le_u32(self.flags));
        lemma_subrange_of_subrange(b, at, 32, 8, 12);
        lemma_u32_at(b, at + 8, self.flags);
        assert(self.wire().subrange(12, 16) =~= le_u32(self.cmd));
        lemma_subrange_of_subrange(b, at, 32, 12, 16);
        lemma_u32_at(b, at + 12, self.cmd);
        assert(self.wire().subrange(16, 24) =~= le_u64(self.arg));
        lemma_subrange_of_subrange(b, at, 32, 16, 24);
        lemma_u64_at(b, at + 16, self.arg);
        assert(self.wire().subrange(24, 28) =~= le_u32(self.in_size));
        lemma_subrange_of_subrange(b, at, 32, 24, 28);
        lemma_u32_at(b, at + 24, self.in_size);
        assert(self.wire().subrange(28, 32) =~= le_u32(self.out_size));
        lemma_subrange_of_subrange(b, at, 32, 28, 32);
        lemma_u32_at(b, at + 28, self.out_size);
    }

    /// What is read takes up the bytes that it is read from, and no others:
    /// writing it gives them again.
    pub proof fn lemma_wire_decode(b: Seq<u8>, at: int)
        requires
            0 <= at,
            at + 32 <= b.len(),
        ensures
            Self::decode(b, at).wire() == b.subrange(at, at + 32),
    {
        lemma_u64_bytes_round_trip(b, at);
        lemma_u32_bytes_round_trip(b, at + 8);
        lemma_u32_bytes_round_trip(b, at + 12);
        lemma_u64_bytes_round_trip(b, at + 16);
        lemma_u32_bytes_round_trip(b, at + 24);
        lemma_u32_bytes_round_trip(b, at + 28);
        assert(Self::decode(b, at).wire() =~= b.subrange(at, at + 32));
    }
}

/// A stretch of memory that an `IOCTL` is to be retried with.
#[derive(Debug, Clone, Copy)]
pub struct fuse_ioctl_iovec {
    pub base: u64,
    pub len: u64,
}

/// What `IOCTL` hands back.
#[derive(Debug, Clone, Copy)]
pub struct fuse_ioctl_out {
    pub result: i32,
    pub flags: u32,
    pub in_iovs: u32,
    pub out_iovs: u32,
}

impl fuse_ioctl_out {
    /// Number of bytes that the record takes on the wire.
    pub const SIZE: usize = 16;

    /// The record on the wire: its fields in order, each little-endian.
    pub open spec fn wire(self) -> Seq<u8> {
        le_i32(self.result) + le_u32(self.flags) + le_u32(self.in_iovs) + le_u32(self.out_iovs)
    }

    /// Writes the record into `buffer` at `at` and returns the offset behind it.
    pub fn write_at(&self, buffer: &mut [u8], at: usize) -> (end: usize)
        requires
            at + 16 <= old(buffer)@.len(),
        ensures
            end == at + 16,
            self.wire().len() == 16,
            final(buffer)@.len() == old(buffer)@.len(),
            final(buffer)@ == splice(old(buffer)@, at as int, self.wire()),
    {
        let mut c = Cursor::begin(buffer, at);
        c.put_i32(buffer, self.result);
        c.put_u32(buffer, self.flags);
        c.put_u32(buffer, self.in_iovs);
        c.put_u32(buffer, self.out_iovs);
        c.pos
    }
}

/// Argument of `POLL`.
#[derive(Debug, Clone, Copy)]
pub struct fuse_poll_in {
    pub fh: u64,
    pub kh: u64,
    pub flags: u32,
    pub events: u32,
}

impl fuse_poll_in {
    /// Number of bytes that the record takes on the wire.
    pub const SIZE: usize = 24;

    /// The record on the wire: its fields in order, each little-endian.
    pub open spec fn wire(self) -> Seq<u8> {
        le_u64(self.fh) + le_u64(self.kh) + le_u32(self.flags) + le_u32(self.events)
    }

    /// The record whose bytes start at `b[at]`.
    pub open spec fn decode(b: Seq<u8>, at: int) -> Self {
        fuse_poll_in {
            fh: u64_at(b, at),
            kh: u64_at(b, at + 8),
            flags: u32_at(b, at + 16),
            events: u32_at(b, at + 20),
        }
    }

    /// Reads the record whose bytes start at `bytes[at]`.
    pub fn read_at(bytes: &[u8], at: usize) -> (r: Self)
        requires
            at + 24 <= bytes.len(),
        ensures
            r == Self::decode(bytes@, at as int),
    {
        fuse_poll_in {
            fh: get_u64(bytes, at),
            kh: get_u64(bytes, at + 8),
            flags: get_u32(bytes, at + 16),
            events: get_u32(bytes, at + 20),
        }
    }

    /// The record is read back from wherever its bytes stand.
    pub proof fn lemma_decode_wire(self, b: Seq<u8>, at: int)
        requires
            0 <= at,
            at + 24 <= b.len(),
            b.subrange(at, at + 24) == self.wire(),
        ensures
            Self::decode(b, at) == self,
    {
        assert(self.wire().subrange(0, 8) =~= le_u64(self.fh));
        lemma_subrange_of_subrange(b, at, 24, 0, 8);
        lemma_u64_at(b, at, self.fh);
        assert(self.wire().subrange(8, 16) =~= le_u64(self.kh));
        lemma_subrange_of_subrange(b, at, 24, 8, 16);
        lemma_u64_at(b, at + 8, self.kh);
        assert(self.wire().subrange(16, 20) =~= le_u32(self.flags));
        lemma_subrange_of_subrange(b, at, 24, 16, 20);
        lemma_u32_at(b, at + 16, self.flags);
        assert(self.wire().subrange(20, 24) =~= le_u32(self.events));
        lemma_subrange_of_subrange(b, at, 24, 20, 24);
        lemma_u32_at(b, at + 20, self.events);
    }

    /// What is read takes up the bytes that it is read from, and no others:
    /// writing it gives them again.
    pub proof fn lemma_wire_decode(b: Seq<u8>, at: int)
        requires
            0 <= at,
            at + 24 <= b.len(),
        ensures
            Self::decode(b, at).wire() == b.subrange(at, at + 24),
    {
        lemma_u64_bytes_round_trip(b, at);
        lemma_u64_bytes_round_trip(b, at + 8);
        lemma_u32_bytes_round_trip(b, at + 16);
        lemma_u32_bytes_round_trip(b, at + 20);
        assert(Self::decode(b, at).wire() =~= b.subrange(at, at + 24));
    }
}

/// What `POLL` hands back.
#[derive(Debug, Clone, Copy)]
pub struct fuse_poll_out {
    pub revents: u32,
    pub padding: u32,
}

impl fuse_poll_out {
    /// Number of bytes that the record takes on the wire.
    pub const SIZE: usize = 8;

    /// The record on the wire: its fields in order, each little-endian.
    pub open spec fn wire(self) -> Seq<u8> {
        le_u32(self.revents) + le_u32(self.padding)
    }

    /// Writes the record into `buffer` at `at` and returns the offset behind it.
    pub fn write_at(&self, buffer: &mut [u8], at: usize) -> (end: usize)
        requires
            at + 8 <= old(buffer)@.len(),
        ensures
            end == at + 8,
            self.wire().len() == 8,
            final(buffer)@.len() == old(buffer)@.len(),
            final(buffer)@ == splice(old(buffer)@, at as int, self.wire()),
    {
        let mut c = Cursor::begin(buffer, at);
        c.put_u32(buffer, self.revents);
        c.put_u32(buffer, self.padding);
        c.pos
    }
}

/// Notification that a polled file is ready.
#[derive(Debug, Clone, Copy)]
pub struct fuse_notify_poll_wakeup_out {
    pub kh: u64,
}

impl fuse_notify_poll_wakeup_out {
    /// Number of bytes that the record takes on the wire.
    pub const SIZE: usize = 8;

    /// The record on the wire: its fields in order, each little-endian.
    pub open spec fn wire(self) -> Seq<u8> {
        le_u64(self.kh)
    }

    /// Writes the record into `buffer` at `at` and returns the offset behind it.
    pub fn write_at(&self, buffer: &mut [u8], at: usize) -> (end: usize)
        requires
            at + 8 <= old(buffer)@.len(),
        ensures
            end == at + 8,
            self.wire().len() == 8,
            final(buffer)@.len() == old(buffer)@.len(),
            final(buffer)@ == splice(old(buffer)@, at as int, self.wire()),
    {
        let mut c = Cursor::begin(buffer, at);
        c.put_u64(buffer, self.kh);
        c.pos
    }
}

/// Argument of `FALLOCATE`.
#[derive(Debug, Clone, Copy)]
pub struct fuse_fallocate_in {
    pub fh: u64,
    pub offset: i64,
    pub length: i64,
    pub mode: i32,
    pub padding: u32,
}

impl fuse_fallocate_in {
    /// Number of bytes that the record takes on the wire.
    pub const SIZE: usize = 32;

    /// The record on the wire: its fields in order, each little-endian.
    pub open spec fn wire(self) -> Seq<u8> {
        le_u64(self.fh) + le_i64(self.offset) + le_i64(self.length) + le_i32(self.mode)
        + le_u32(self.padding)
    }

    /// The record whose bytes start at `b[at]`.
    pub open spec fn decode(b: Seq<u8>, at: int) -> Self {
        fuse_fallocate_in {
            fh: u64_at(b, at),
            offset: i64_at(b, at + 8),
            length: i64_at(b, at + 16),
            mode: i32_at(b, at + 24),
            padding: u32_at(b, at + 28),
        }
    }

    /// Reads the record whose bytes start at `bytes[at]`.
    pub fn read_at(bytes: &[u8], at: usize) -> (r: Self)
        requires
            at + 32 <= bytes.len(),
        ensures
            r == Self::decode(bytes@, at as int),
    {
        fuse_fallocate_in {
            fh: get_u64(bytes, at),
            offset: get_i64(bytes, at + 8),
            length: get_i64(bytes, at + 16),
            mode: get_i32(bytes, at + 24),
            padding: get_u32(bytes, at + 28),
        }
    }

    /// The record is read back from wherever its bytes stand.
    pub proof fn lemma_decode_wire(self, b: Seq<u8>, at: int)
        requires
            0 <= at,
            at + 32 <= b.len(),
            b.subrange(at, at + 32) == self.wire(),
        ensures
            Self::decode(b, at) == self,
    {
        assert(self.wire().subrange(0, 8) =~= le_u64(self.fh));
        lemma_subrange_of_subrange(b, at, 32, 0, 8);
        lemma_u64_at(b, at, self.fh);
        assert(self.wire().subrange(8, 16) =~= le_i64(self.offset));
        lemma_subrange_of_subrange(b, at, 32, 8, 16);
        lemma_i64_at(b, at + 8, self.offset);
        assert(self.wire().subrange(16, 24) =~= le_i64(self.length));
        lemma_subrange_of_subrange(b, at, 32, 16, 24);
        lemma_i64_at(b, at + 16, self.length);
        assert(self.wire().subrange(24, 28) =~= le_i32(self.mode));
        lemma_subrange_of_subrange(b, at, 32, 24, 28);
        lemma_i32_at(b, at + 24, self.mode);
        assert(self.wire().subrange(28, 32) =~= le_u32(self.padding));
        lemma_subrange_of_subrange(b, at, 32, 28, 32);
        lemma_u32_at(b, at + 28, self.padding);
    }

    /// What is read takes up the bytes that it is read from, and no others:
    /// writing it gives them again.
    pub proof fn lemma_wire_decode(b: Seq<u8>, at: int)
        requires
            0 <= at,
            at + 32 <= b.len(),
        ensures
            Self::decode(b, at).wire() == b.subrange(at, at + 32),
    {
        lemma_u64_bytes_round_trip(b, at);
        lemma_i64_bytes_round_trip(b, at + 8);
        lemma_i64_bytes_round_trip(b, at + 16);
        lemma_i32_bytes_round_trip(b, at + 24);
        lemma_u32_bytes_round_trip(b, at + 28);
        assert(Self::decode(b, at).wire() =~= b.subrange(at, at + 32));
    }
}

/// The header that every request from the kernel starts with.
#[derive(Debug, Clone, Copy)]
pub struct fuse_in_header {
    /// Length of the whole request, this header included
    pub len: u32,
    pub opcode: u32,
    /// Identifier of the request; the reply has to carry the same
    pub unique: u64,
    pub nodeid: u64,
    pub uid: u32,
    pub gid: u32,
    pub pid: u32,
    pub padding: u32,
}

impl fuse_in_header {
    /// Number of bytes that the record takes on the wire.
    pub const SIZE: usize = 40;

    /// The record on the wire: its fields in order, each little-endian.
    pub open spec fn wire(self) -> Seq<u8> {
        le_u32(self.len) + le_u32(self.opcode) + le_u64(self.unique) + le_u64(self.nodeid)
        + le_u32(self.uid) + le_u32(self.gid) + le_u32(self.pid) + le_u32(self.padding)
    }

    /// Writes the record into `buffer` at `at` and returns the offset behind it.
    pub fn write_at(&self, buffer: &mut [u8], at: usize) -> (end: usize)
        requires
            at + 40 <= old(buffer)@.len(),
        ensures
            end == at + 40,
            self.wire().len() == 40,
            final(buffer)@.len() == old(buffer)@.len(),
            final(buffer)@ == splice(old(buffer)@, at as int, self.wire()),
    {
        let mut c = Cursor::begin(buffer, at);
        c.put_u32(buffer, self.len);
        c.put_u32(buffer, self.opcode);
        c.put_u64(buffer, self.unique);
        c.put_u64(buffer, self.nodeid);
        c.put_u32(buffer, self.uid);
        c.put_u32(buffer, self.gid);
        c.put_u32(buffer, self.pid);
        c.put_u32(buffer, self.padding);
        c.pos
    }

    /// The record whose bytes start at `b[at]`.
    pub open spec fn decode(b: Seq<u8>, at: int) -> Self {
        fuse_in_header {
            len: u32_at(b, at),
            opcode: u32_at(b, at + 4),
            unique: u64_at(b, at + 8),
            nodeid: u64_at(b, at + 16),
            uid: u32_at(b, at + 24),
            gid: u32_at(b, at + 28),
            pid: u32_at(b, at + 32),
            padding: u32_at(b, at + 36),
        }
    }

    /// Reads the record whose bytes start at `bytes[at]`.
    pub fn read_at(bytes: &[u8], at: usize) -> (r: Self)
        requires
            at + 40 <= bytes.len(),
        ensures
            r == Self::decode(bytes@, at as int),
    {
        fuse_in_header {
            len: get_u32(bytes, at),
            opcode: get_u32(bytes, at + 4),
            unique: get_u64(bytes, at + 8),
            nodeid: get_u64(bytes, at + 16),
            uid: get_u32(bytes, at + 24),
            gid: get_u32(bytes, at + 28),
            pid: get_u32(bytes, at + 32),
            padding: get_u32(bytes, at + 36),
        }
    }

    /// The record is read back from wherever its bytes stand.
    pub proof fn lemma_decode_wire(self, b: Seq<u8>, at: int)
        requires
            0 <= at,
            at + 40 <= b.len(),
            b.subrange(at, at + 40) == self.wire(),
        ensures
            Self::decode(b, at) == self,
    {
        assert(self.wire().subrange(0, 4) =~= le_u32(self.len));
        lemma_subrange_of_subrange(b, at, 40, 0, 4);
        lemma_u32_at(b, at, self.len);
        assert(self.wire().subrange(4, 8) =~= le_u32(self.opcode));
        lemma_subrange_of_subrange(b, at, 40, 4, 8);
        lemma_u32_at(b, at + 4, self.opcode);
        assert(self.wire().subrange(8, 16) =~= le_u64(self.unique));
        lemma_subrange_of_subrange(b, at, 40, 8, 16);
        lemma_u64_at(b, at + 8, self.unique);
        assert(self.wire().subrange(16, 24) =~= le_u64(self.nodeid));
        lemma_subrange_of_subrange(b, at, 40, 16, 24);
        lemma_u64_at(b, at + 16, self.nodeid);
        assert(self.wire().subrange(24, 28) =~= le_u32(self.uid));
        lemma_subrange_of_subrange(b, at, 40, 24, 28);
        lemma_u32_at(b, at + 24, self.uid);
        assert(self.wire().subrange(28, 32) =~= le_u32(self.gid));
        lemma_subrange_of_subrange(b, at, 40, 28, 32);
        lemma_u32_at(b, at + 28, self.gid);
        assert(self.wire().subrange(32, 36) =~= le_u32(self.pid));
        lemma_subrange_of_subrange(b, at, 40, 32, 36);
        lemma_u32_at(b, at + 32, self.pid);
        assert(self.wire().subrange(36, 40) =~= le_u32(self.padding));
        lemma_subrange_of_subrange(b, at, 40, 36, 40);
        lemma_u32_at(b, at + 36, self.padding);
    }

    /// What is read takes up the bytes that it is read from, and no others:
    /// writing it gives them again.
    pub proof fn lemma_wire_decode(b: Seq<u8>, at: int)
        requires
            0 <= at,
            at + 40 <= b.len(),
        ensures
            Self::decode(b, at).wire() == b.subrange(at, at + 40),
    {
        lemma_u32_bytes_round_trip(b, at);
        lemma_u32_bytes_round_trip(b, at + 4);
        lemma_u64_bytes_round_trip(b, at + 8);
        lemma_u64_bytes_round_trip(b, at + 16);
        lemma_u32_bytes_round_trip(b, at + 24);
        lemma_u32_bytes_round_trip(b, at + 28);
        lemma_u32_bytes_round_trip(b, at + 32);
        lemma_u32_bytes_round_trip(b, at + 36);
        assert(Self::decode(b, at).wire() =~= b.subrange(at, at + 40));
    }
}

/// The header that every reply to the kernel starts with.
#[derive(Debug, Clone, Copy)]
pub struct fuse_out_header {
    /// Length of the whole message, this header included. [`Reply`] computes it
    /// when it is written.
    ///
    /// [`Reply`]: crate::messages::reply::Reply
    pub len: u32,
    /// Zero, or the negative of an errno value: `-5` for `EIO`
    pub error: i32,
    /// Identifier of the request that is answered. See [`fuse_in_header`]
    pub unique: u64,
}

impl fuse_out_header {
    /// Number of bytes that the record takes on the wire.
    pub const SIZE: usize = 16;

    /// The record on the wire: its fields in order, each little-endian.
    pub open spec fn wire(self) -> Seq<u8> {
        le_u32(self.len) + le_i32(self.error) + le_u64(self.unique)
    }

    /// Writes the record into `buffer` at `at` and returns the offset behind it.
    pub fn write_at(&self, buffer: &mut [u8], at: usize) -> (end: usize)
        requires
            at + 16 <= old(buffer)@.len(),
        ensures
            end == at + 16,
            self.wire().len() == 16,
            final(buffer)@.len() == old(buffer)@.len(),
            final(buffer)@ == splice(old(buffer)@, at as int, self.wire()),
    {
        let mut c = Cursor::begin(buffer, at);
        c.put_u32(buffer, self.len);
        c.put_i32(buffer, self.error);
        c.put_u64(buffer, self.unique);
        c.pos
    }

    /// The record whose bytes start at `b[at]`.
    pub open spec fn decode(b: Seq<u8>, at: int) -> Self {
        fuse_out_header {
            len: u32_at(b, at),
            error: i32_at(b, at + 4),
            unique: u64_at(b, at + 8),
        }
    }

    /// Reads the record whose bytes start at `bytes[at]`.
    pub fn read_at(bytes: &[u8], at: usize) -> (r: Self)
        requires
            at + 16 <= bytes.len(),
        ensures
            r == Self::decode(bytes@, at as int),
    {
        fuse_out_header {
            len: get_u32(bytes, at),
            error: get_i32(bytes, at + 4),
            unique: get_u64(bytes, at + 8),
        }
    }

    /// The record is read back from wherever its bytes stand.
    pub proof fn lemma_decode_wire(self, b: Seq<u8>, at: int)
        requires
            0 <= at,
            at + 16 <= b.len(),
            b.subrange(at, at + 16) == self.wire(),
        ensures
            Self::decode(b, at) == self,
    {
        assert(self.wire().subrange(0, 4) =~= le_u32(self.len));
        lemma_subrange_of_subrange(b, at, 16, 0, 4);
        lemma_u32_at(b, at, self.len);
        assert(self.wire().subrange(4, 8) =~= le_i32(self.error));
        lemma_subrange_of_subrange(b, at, 16, 4, 8);
        lemma_i32_at(b, at + 4, self.error);
        assert(self.wire().subrange(8, 16) =~= le_u64(self.unique));
        lemma_subrange_of_subrange(b, at, 16, 8, 16);
        lemma_u64_at(b, at + 8, self.unique);
    }

    /// What is read takes up the bytes that it is read from, and no others:
    /// writing it gives them again.
    pub proof fn lemma_wire_decode(b: Seq<u8>, at: int)
        requires
            0 <= at,
            at + 16 <= b.len(),
        ensures
            Self::decode(b, at).wire() == b.subrange(at, at + 16),
    {
        lemma_u32_bytes_round_trip(b, at);
        lemma_i32_bytes_round_trip(b, at + 4);
        lemma_u64_bytes_round_trip(b, at + 8);
        assert(Self::decode(b, at).wire() =~= b.subrange(at, at + 16));
    }

    /// Stores `error` as the kernel expects it: negated.
    pub fn set_error(&mut self, error: Errno)
        ensures
            final(self).error == -error.code(),
            final(self).len == old(self).len,
            final(self).unique == old(self).unique,
    {
        self.error = error.to_wire();
    }
}

impl From<fuse_in_header> for fuse_out_header {
    /// The header of a successful reply to the request that `value` heads.
    fn from(value: fuse_in_header) -> (r: Self) {
        fuse_out_header { len: 0, unique: value.unique, error: 0 }
    }
}

impl vstd::std_specs::convert::FromSpecImpl<fuse_in_header> for fuse_out_header {
    open spec fn obeys_from_spec() -> bool {
        true
    }

    open spec fn from_spec(value: fuse_in_header) -> Self {
        fuse_out_header { len: 0, unique: value.unique, error: 0 }
    }
}

/// The fixed part of a directory entry; the name follows it.
#[derive(Debug, Clone, Copy)]
pub struct fuse_dirent {
    pub ino: u64,
    pub off: i64,
    pub namelen: u32,
    /// The file type alone, without the permissions: the type bits of `st_mode`,
    /// shifted down by 12. [`fuse_dirent::set_type`] sets it from a mode
    pub typ: u32,
}

impl fuse_dirent {
    /// Number of bytes that the record takes on the wire.
    pub const SIZE: usize = 24;

    /// The record on the wire: its fields in order, each little-endian.
    pub open spec fn wire(self) -> Seq<u8> {
        le_u64(self.ino) + le_i64(self.off) + le_u32(self.namelen) + le_u32(self.typ)
    }

    /// Writes the record into `buffer` at `at` and returns the offset behind it.
    pub fn write_at(&self, buffer: &mut [u8], at: usize) -> (end: usize)
        requires
            at + 24 <= old(buffer)@.len(),
        ensures
            end == at + 24,
            self.wire().len() == 24,
            final(buffer)@.len() == old(buffer)@.len(),
            final(buffer)@ == splice(old(buffer)@, at as int, self.wire()),
    {
        let mut c = Cursor::begin(buffer, at);
        c.put_u64(buffer, self.ino);
        c.put_i64(buffer, self.off);
        c.put_u32(buffer, self.namelen);
        c.put_u32(buffer, self.typ);
        c.pos
    }

    /// Writes the record at the cursor `c`.
    pub fn emit(&self, c: &mut Cursor, buffer: &mut [u8])
        requires
            old(c).tracks(old(buffer)@),
            old(c).pos + 24 <= old(buffer)@.len(),
        ensures
            final(c).tracks(final(buffer)@),
            old(c).extends(*final(c), self.wire()),
            self.wire().len() == 24,
    {
        let ghost before = buffer@;
        let end = self.write_at(buffer, c.pos);
        c.advance(buffer, end, Ghost(before), Ghost(self.wire()));
    }

    /// Sets the type from `kind`, a file mode such as `S_IFREG`: its
    /// type bits, shifted down by 12.
    pub fn set_type(&mut self, kind: u32)
        ensures
            final(self).typ == (kind & S_IFMT) >> 12,
            final(self).typ <= 15,
            final(self).ino == old(self).ino,
            final(self).off == old(self).off,
            final(self).namelen == old(self).namelen,
    {
        assert((kind & 0o170000) >> 12 <= 15) by (bit_vector);
        self.typ = (kind & S_IFMT) >> 12;
    }
}

/// The fixed part of a directory entry with attributes; the name follows it.
#[derive(Debug, Clone, Copy)]
pub struct fuse_direntplus {
    pub entry_out: fuse_entry_out,
    pub dirent: fuse_dirent,
}

impl fuse_direntplus {
    /// Number of bytes that the record takes on the wire.
    pub const SIZE: usize = 152;

    /// The record on the wire: its fields in order, each little-endian.
    pub open spec fn wire(self) -> Seq<u8> {
        self.entry_out.wire() + self.dirent.wire()
    }

    /// Writes the record into `buffer` at `at` and returns the offset behind it.
    pub fn write_at(&self, buffer: &mut [u8], at: usize) -> (end: usize)
        requires
            at + 152 <= old(buffer)@.len(),
        ensures
            end == at + 152,
            self.wire().len() == 152,
            final(buffer)@.len() == old(buffer)@.len(),
            final(buffer)@ == splice(old(buffer)@, at as int, self.wire()),
    {
        let mut c = Cursor::begin(buffer, at);
        self.entry_out.emit(&mut c, buffer);
        self.dirent.emit(&mut c, buffer);
        c.pos
    }
}

/// Notification that cached data of an inode are stale.
#[derive(Debug, Clone, Copy)]
pub struct fuse_notify_inval_inode_out {
    pub ino: u64,
    pub off: i64,
    pub len: i64,
}

impl fuse_notify_inval_inode_out {
    /// Number of bytes that the record takes on the wire.
    pub const SIZE: usize = 24;

    /// The record on the wire: its fields in order, each little-endian.
    pub open spec fn wire(self) -> Seq<u8> {
        le_u64(self.ino) + le_i64(self.off) + le_i64(self.len)
    }

    /// Writes the record into `buffer` at `at` and returns the offset behind it.
    pub fn write_at(&self, buffer: &mut [u8], at: usize) -> (end: usize)
        requires
            at + 24 <= old(buffer)@.len(),
        ensures
            end == at + 24,
            self.wire().len() == 24,
            final(buffer)@.len() == old(buffer)@.len(),
            final(buffer)@ == splice(old(buffer)@, at as int, self.wire()),
    {
        let mut c = Cursor::begin(buffer, at);
        c.put_u64(buffer, self.ino);
        c.put_i64(buffer, self.off);
        c.put_i64(buffer, self.len);
        c.pos
    }
}

/// Notification that a cached directory entry is stale; the name follows it.
#[derive(Debug, Clone, Copy)]
pub struct fuse_notify_inval_entry_out {
    pub parent: u64,
    pub namelen: u32,
    pub padding: u32,
}

impl fuse_notify_inval_entry_out {
    /// Number of bytes that the record takes on the wire.
    pub const SIZE: usize = 16;

    /// The record on the wire: its fields in order, each little-endian.
    pub open spec fn wire(self) -> Seq<u8> {
        le_u64(self.parent) + le_u32(self.namelen) + le_u32(self.padding)
    }

    /// Writes the record into `buffer` at `at` and returns the offset behind it.
    pub fn write_at(&self, buffer: &mut [u8], at: usize) -> (end: usize)
        requires
            at + 16 <= old(buffer)@.len(),
        ensures
            end == at + 16,
            self.wire().len() == 16,
            final(buffer)@.len() == old(buffer)@.len(),
            final(buffer)@ == splice(old(buffer)@, at as int, self.wire()),
    {
        let mut c = Cursor::begin(buffer, at);
        c.put_u64(buffer, self.parent);
        c.put_u32(buffer, self.namelen);
        c.put_u32(buffer, self.padding);
        c.pos
    }
}

/// Notification that a directory entry is gone; the name follows it.
#[derive(Debug, Clone, Copy)]
pub struct fuse_notify_delete_out {
    pub parent: u64,
    pub child: u64,
    pub namelen: u32,
    pub padding: u32,
}

impl fuse_notify_delete_out {
    /// Number of bytes that the record takes on the wire.
    pub const SIZE: usize = 24;

    /// The record on the wire: its fields in order, each little-endian.
    pub open spec fn wire(self) -> Seq<u8> {
        le_u64(self.parent) + le_u64(self.child) + le_u32(self.namelen) + le_u32(self.padding)
    }

    /// Writes the record into `buffer` at `at` and returns the offset behind it.
    pub fn write_at(&self, buffer: &mut [u8], at: usize) -> (end: usize)
        requires
            at + 24 <= old(buffer)@.len(),
        ensures
            end == at + 24,
            self.wire().len() == 24,
            final(buffer)@.len() == old(buffer)@.len(),
            final(buffer)@ == splice(old(buffer)@, at as int, self.wire()),
    {
        let mut c = Cursor::begin(buffer, at);
        c.put_u64(buffer, self.parent);
        c.put_u64(buffer, self.child);
        c.put_u32(buffer, self.namelen);
        c.put_u32(buffer, self.padding);
        c.pos
    }
}

/// Notification that carries data for the cache of an inode.
#[derive(Debug, Clone, Copy)]
pub struct fuse_notify_store_out {
    pub nodeid: u64,
    pub offset: u64,
    pub size: u32,
    pub padding: u32,
}

impl fuse_notify_store_out {
    /// Number of bytes that the record takes on the wire.
    pub const SIZE: usize = 24;

    /// The record on the wire: its fields in order, each little-endian.
    pub open spec fn wire(self) -> Seq<u8> {
        le_u64(self.nodeid) + le_u64(self.offset) + le_u32(self.size) + le_u32(self.padding)
    }

    /// Writes the record into `buffer` at `at` and returns the offset behind it.
    pub fn write_at(&self, buffer: &mut [u8], at: usize) -> (end: usize)
        requires
            at + 24 <= old(buffer)@.len(),
        ensures
            end == at + 24,
            self.wire().len() == 24,
            final(buffer)@.len() == old(buffer)@.len(),
            final(buffer)@ == splice(old(buffer)@, at as int, self.wire()),
    {
        let mut c = Cursor::begin(buffer, at);
        c.put_u64(buffer, self.nodeid);
        c.put_u64(buffer, self.offset);
        c.put_u32(buffer, self.size);
        c.put_u32(buffer, self.padding);
        c.pos
    }
}

/// Notification that asks the kernel for cached data of an inode.
#[derive(Debug, Clone, Copy)]
pub struct fuse_notify_retrieve_out {
    pub notify_unique: u64,
    pub nodeid: u64,
    pub offset: u64,
    pub size: u32,
    pub padding: u32,
}

/// Laid out like [`fuse_write_in`].
#[derive(Debug, Clone, Copy)]
pub struct fuse_notify_retrieve_in {
    pub dummy1: u64,
    pub offset: u64,
    pub size: u32,
    pub dummy2: u32,
    pub dummy3: u64,
    pub dummy4: u64,
}

impl fuse_notify_retrieve_in {
    /// Number of bytes that the record takes on the wire.
    pub const SIZE: usize = 40;

    /// The record on the wire: its fields in order, each little-endian.
    pub open spec fn wire(self) -> Seq<u8> {
        le_u64(self.dummy1) + le_u64(self.offset) + le_u32(self.size) + le_u32(self.dummy2)
        + le_u64(self.dummy3) + le_u64(self.dummy4)
    }

    /// The record whose bytes start at `b[at]`.
    pub open spec fn decode(b: Seq<u8>, at: int) -> Self {
        fuse_notify_retrieve_in {
            dummy1: u64_at(b, at),
            offset: u64_at(b, at + 8),
            size: u32_at(b, at + 16),
            dummy2: u32_at(b, at + 20),
            dummy3: u64_at(b, at + 24),
            dummy4: u64_at(b, at + 32),
        }
    }

    /// Reads the record whose bytes start at `bytes[at]`.
    pub fn read_at(bytes: &[u8], at: usize) -> (r: Self)
        requires
            at + 40 <= bytes.len(),
        ensures
            r == Self::decode(bytes@, at as int),
    {
        fuse_notify_retrieve_in {
            dummy1: get_u64(bytes, at),
            offset: get_u64(bytes, at + 8),
            size: get_u32(bytes, at + 16),
            dummy2: get_u32(bytes, at + 20),
            dummy3: get_u64(bytes, at + 24),
            dummy4: get_u64(bytes, at + 32),
        }
    }

    /// The record is read back from wherever its bytes stand.
    pub proof fn lemma_decode_wire(self, b: Seq<u8>, at: int)
        requires
            0 <= at,
            at + 40 <= b.len(),
            b.subrange(at, at + 40) == self.wire(),
        ensures
            Self::decode(b, at) == self,
    {
        assert(self.wire().subrange(0, 8) =~= le_u64(self.dummy1));
        lemma_subrange_of_subrange(b, at, 40, 0, 8);
        lemma_u64_at(b, at, self.dummy1);
        assert(self.wire().subrange(8, 16) =~= le_u64(self.offset));
        lemma_subrange_of_subrange(b, at, 40, 8, 16);
        lemma_u64_at(b, at + 8, self.offset);
        assert(self.wire().subrange(16, 20) =~= le_u32(self.size));
        lemma_subrange_of_subrange(b, at, 40, 16, 20);
        lemma_u32_at(b, at + 16, self.size);
        assert(self.wire().subrange(20, 24) =~= le_u32(self.dummy2));
        lemma_subrange_of_subrange(b, at, 40, 20, 24);
        lemma_u32_at(b, at + 20, self.dummy2);
        assert(self.wire().subrange(24, 32) =~= le_u64(self.dummy3));
        lemma_subrange_of_subrange(b, at, 40, 24, 32);
        lemma_u64_at(b, at + 24, self.dummy3);
        assert(self.wire().subrange(32, 40) =~= le_u64(self.dummy4));
        lemma_subrange_of_subrange(b, at, 40, 32, 40);
        lemma_u64_at(b, at + 32, self.dummy4);
    }

    /// What is read takes up the bytes that it is read from, and no others:
    /// writing it gives them again.
    pub proof fn lemma_wire_decode(b: Seq<u8>, at: int)
        requires
            0 <= at,
            at + 40 <= b.len(),
        ensures
            Self::decode(b, at).wire() == b.subrange(at, at + 40),
    {
        lemma_u64_bytes_round_trip(b, at);
        lemma_u64_bytes_round_trip(b, at + 8);
        lemma_u32_bytes_round_trip(b, at + 16);
        lemma_u32_bytes_round_trip(b, at + 20);
        lemma_u64_bytes_round_trip(b, at + 24);
        lemma_u64_bytes_round_trip(b, at + 32);
        assert(Self::decode(b, at).wire() =~= b.subrange(at, at + 40));
    }
}

/// Argument of `LSEEK`.
#[derive(Debug, Clone, Copy)]
pub struct fuse_lseek_in {
    pub fh: u64,
    pub offset: u64,
    pub whence: u32,
    pub padding: u32,
}

impl fuse_lseek_in {
    /// Number of bytes that the record takes on the wire.
    pub const SIZE: usize = 24;

    /// The record on the wire: its fields in order, each little-endian.
    pub open spec fn wire(self) -> Seq<u8> {
        le_u64(self.fh) + le_u64(self.offset) + le_u32(self.whence) + le_u32(self.padding)
    }

    /// The record whose bytes start at `b[at]`.
    pub open spec fn decode(b: Seq<u8>, at: int) -> Self {
        fuse_lseek_in {
            fh: u64_at(b, at),
            offset: u64_at(b, at + 8),
            whence: u32_at(b, at + 16),
            padding: u32_at(b, at + 20),
        }
    }

    /// Reads the record whose bytes start at `bytes[at]`.
    pub fn read_at(bytes: &[u8], at: usize) -> (r: Self)
        requires
            at + 24 <= bytes.len(),
        ensures
            r == Self::decode(bytes@, at as int),
    {
        fuse_lseek_in {
            fh: get_u64(bytes, at),
            offset: get_u64(bytes, at + 8),
            whence: get_u32(bytes, at + 16),
            padding: get_u32(bytes, at + 20),
        }
    }

    /// The record is read back from wherever its bytes stand.
    pub proof fn lemma_decode_wire(self, b: Seq<u8>, at: int)
        requires
            0 <= at,
            at + 24 <= b.len(),
            b.subrange(at, at + 24) == self.wire(),
        ensures
            Self::decode(b, at) == self,
    {
        assert(self.wire().subrange(0, 8) =~= le_u64(self.fh));
        lemma_subrange_of_subrange(b, at, 24, 0, 8);
        lemma_u64_at(b, at, self.fh);
        assert(self.wire().subrange(8, 16) =~= le_u64(self.offset));
        lemma_subrange_of_subrange(b, at, 24, 8, 16);
        lemma_u64_at(b, at + 8, self.offset);
        assert(self.wire().subrange(16, 20) =~= le_u32(self.whence));
        lemma_subrange_of_subrange(b, at, 24, 16, 20);
        lemma_u32_at(b, at + 16, self.whence);
        assert(self.wire().subrange(20, 24) =~= le_u32(self.padding));
        lemma_subrange_of_subrange(b, at, 24, 20, 24);
        lemma_u32_at(b, at + 20, self.padding);
    }

    /// What is read takes up the bytes that it is read from, and no others:
    /// writing it gives them again.
    pub proof fn lemma_wire_decode(b: Seq<u8>, at: int)
        requires
            0 <= at,
            at + 24 <= b.len(),
        ensures
            Self::decode(b, at).wire() == b.subrange(at, at + 24),
    {
        lemma_u64_bytes_round_trip(b, at);
        lemma_u64_bytes_round_trip(b, at + 8);
        lemma_u32_bytes_round_trip(b, at + 16);
        lemma_u32_bytes_round_trip(b, at + 20);
        assert(Self::decode(b, at).wire() =~= b.subrange(at, at + 24));
    }
}

/// What `LSEEK` hands back.
#[derive(Debug, Clone, Copy)]
pub struct fuse_lseek_out {
    pub offset: u64,
}

impl fuse_lseek_out {
    /// Number of bytes that the record takes on the wire.
    pub const SIZE: usize = 8;

    /// The record on the wire: its fields in order, each little-endian.
    pub open spec fn wire(self) -> Seq<u8> {
        le_u64(self.offset)
    }

    /// Writes the record into `buffer` at `at` and returns the offset behind it.
    pub fn write_at(&self, buffer: &mut [u8], at: usize) -> (end: usize)
        requires
            at + 8 <= old(buffer)@.len(),
        ensures
            end == at + 8,
            self.wire().len() == 8,
            final(buffer)@.len() == old(buffer)@.len(),
            final(buffer)@ == splice(old(buffer)@, at as int, self.wire()),
    {
        let mut c = Cursor::begin(buffer, at);
        c.put_u64(buffer, self.offset);
        c.pos
    }
}

/// Argument of `COPY_FILE_RANGE`.
#[derive(Debug, Clone, Copy)]
pub struct fuse_copy_file_range_in {
    pub fh_in: u64,
    pub off_in: i64,
    pub nodeid_out: u64,
    pub fh_out: u64,
    pub off_out: i64,
    pub len: u64,
    pub flags: u64,
}

impl fuse_copy_file_range_in {
    /// Number of bytes that the record takes on the wire.
    pub const SIZE: usize = 56;

    /// The record on the wire: its fields in order, each little-endian.
    pub open spec fn wire(self) -> Seq<u8> {
        le_u64(self.fh_in) + le_i64(self.off_in) + le_u64(self.nodeid_out) + le_u64(self.fh_out)
        + le_i64(self.off_out) + le_u64(self.len) + le_u64(self.flags)
    }

    /// The record whose bytes start at `b[at]`.
    pub open spec fn decode(b: Seq<u8>, at: int) -> Self {
        fuse_copy_file_range_in {
            fh_in: u64_at(b, at),
            off_in: i64_at(b, at + 8),
            nodeid_out: u64_at(b, at + 16),
            fh_out: u64_at(b, at + 24),
            off_out: i64_at(b, at + 32),
            len: u64_at(b, at + 40),
            flags: u64_at(b, at + 48),
        }
    }

    /// Reads the record whose bytes start at `bytes[at]`.
    pub fn read_at(bytes: &[u8], at: usize) -> (r: Self)
        requires
            at + 56 <= bytes.len(),
        ensures
            r == Self::decode(bytes@, at as int),
    {
        fuse_copy_file_range_in {
            fh_in: get_u64(bytes, at),
            off_in: get_i64(bytes, at + 8),
            nodeid_out: get_u64(bytes, at + 16),
            fh_out: get_u64(bytes, at + 24),
            off_out: get_i64(bytes, at + 32),
            len: get_u64(bytes, at + 40),
            flags: get_u64(bytes, at + 48),
        }
    }

    /// The record is read back from wherever its bytes stand.
    pub proof fn lemma_decode_wire(self, b: Seq<u8>, at: int)
        requires
            0 <= at,
            at + 56 <= b.len(),
            b.subrange(at, at + 56) == self.wire(),
        ensures
            Self::decode(b, at) == self,
    {
        assert(self.wire().subrange(0, 8) =~= le_u64(self.fh_in));
        lemma_subrange_of_subrange(b, at, 56, 0, 8);
        lemma_u64_at(b, at, self.fh_in);
        assert(self.wire().subrange(8, 16) =~= le_i64(self.off_in));
        lemma_subrange_of_subrange(b, at, 56, 8, 16);
        lemma_i64_at(b, at + 8, self.off_in);
        assert(self.wire().subrange(16, 24) =~= le_u64(self.nodeid_out));
        lemma_subrange_of_subrange(b, at, 56, 16, 24);
        lemma_u64_at(b, at + 16, self.nodeid_out);
        assert(self.wire().subrange(24, 32) =~= le_u64(self.fh_out));
        lemma_subrange_of_subrange(b, at, 56, 24, 32);
        lemma_u64_at(b, at + 24, self.fh_out);
        assert(self.wire().subrange(32, 40) =~= le_i64(self.off_out));
        lemma_subrange_of_subrange(b, at, 56, 32, 40);
        lemma_i64_at(b, at + 32, self.off_out);
        assert(self.wire().subrange(40, 48) =~= le_u64(self.len));
        lemma_subrange_of_subrange(b, at, 56, 40, 48);
        lemma_u64_at(b, at + 40, self.len);
        assert(self.wire().subrange(48, 56) =~= le_u64(self.flags));
        lemma_subrange_of_subrange(b, at, 56, 48, 56);
        lemma_u64_at(b, at + 48, self.flags);
    }

    /// What is read takes up the bytes that it is read from, and no others:
    /// writing it gives them again.
    pub proof fn lemma_wire_decode(b: Seq<u8>, at: int)
        requires
            0 <= at,
            at + 56 <= b.len(),
        ensures
            Self::decode(b, at).wire() == b.subrange(at, at + 56),
    {
        lemma_u64_bytes_round_trip(b, at);
        lemma_i64_bytes_round_trip(b, at + 8);
        lemma_u64_bytes_round_trip(b, at + 16);
        lemma_u64_bytes_round_trip(b, at + 24);
        lemma_i64_bytes_round_trip(b, at + 32);
        lemma_u64_bytes_round_trip(b, at + 40);
        lemma_u64_bytes_round_trip(b, at + 48);
        assert(Self::decode(b, at).wire() =~= b.subrange(at, at + 56));
    }
}

/// Argument of `SETUPMAPPING`.
#[derive(Debug, Clone, Copy)]
pub struct fuse_setupmapping_in {
    pub fh: u64,
    pub foffset: u64,
    pub len: u64,
    pub flags: u64,
    pub moffset: u64,
}

impl fuse_setupmapping_in {
    /// Number of bytes that the record takes on the wire.
    pub const SIZE: usize = 40;

    /// The record on the wire: its fields in order, each little-endian.
    pub open spec fn wire(self) -> Seq<u8> {
        le_u64(self.fh) + le_u64(self.foffset) + le_u64(self.len) + le_u64(self.flags)
        + le_u64(self.moffset)
    }

    /// The record whose bytes start at `b[at]`.
    pub open spec fn decode(b: Seq<u8>, at: int) -> Self {
        fuse_setupmapping_in {
            fh: u64_at(b, at),
            foffset: u64_at(b, at + 8),
            len: u64_at(b, at + 16),
            flags: u64_at(b, at + 24),
            moffset: u64_at(b, at + 32),
        }
    }

    /// Reads the record whose bytes start at `bytes[at]`.
    pub fn read_at(bytes: &[u8], at: usize) -> (r: Self)
        requires
            at + 40 <= bytes.len(),
        ensures
            r == Self::decode(bytes@, at as int),
    {
        fuse_setupmapping_in {
            fh: get_u64(bytes, at),
            foffset: get_u64(bytes, at + 8),
            len: get_u64(bytes, at + 16),
            flags: get_u64(bytes, at + 24),
            moffset: get_u64(bytes, at + 32),
        }
    }

    /// The record is read back from wherever its bytes stand.
    pub proof fn lemma_decode_wire(self, b: Seq<u8>, at: int)
        requires
            0 <= at,
            at + 40 <= b.len(),
            b.subrange(at, at + 40) == self.wire(),
        ensures
            Self::decode(b, at) == self,
    {
        assert(self.wire().subrange(0, 8) =~= le_u64(self.fh));
        lemma_subrange_of_subrange(b, at, 40, 0, 8);
        lemma_u64_at(b, at, self.fh);
        assert(self.wire().subrange(8, 16) =~= le_u64(self.foffset));
        lemma_subrange_of_subrange(b, at, 40, 8, 16);
        lemma_u64_at(b, at + 8, self.foffset);
        assert(self.wire().subrange(16, 24) =~= le_u64(self.len));
        lemma_subrange_of_subrange(b, at, 40, 16, 24);
        lemma_u64_at(b, at + 16, self.len);
        assert(self.wire().subrange(24, 32) =~= le_u64(self.flags));
        lemma_subrange_of_subrange(b, at, 40, 24, 32);
        lemma_u64_at(b, at + 24, self.flags);
        assert(self.wire().subrange(32, 40) =~= le_u64(self.moffset));
        lemma_subrange_of_subrange(b, at, 40, 32, 40);
        lemma_u64_at(b, at + 32, self.moffset);
    }

    /// What is read takes up the bytes that it is read from, and no others:
    /// writing it gives them again.
    pub proof fn lemma_wire_decode(b: Seq<u8>, at: int)
        requires
            0 <= at,
            at + 40 <= b.len(),
        ensures
            Self::decode(b, at).wire() == b.subrange(at, at + 40),
    {
        lemma_u64_bytes_round_trip(b, at);
        lemma_u64_bytes_round_trip(b, at + 8);
        lemma_u64_bytes_round_trip(b, at + 16);
        lemma_u64_bytes_round_trip(b, at + 24);
        lemma_u64_bytes_round_trip(b, at + 32);
        assert(Self::decode(b, at).wire() =~= b.subrange(at, at + 40));
    }

    /// The record with every field zero.
    pub open spec fn zero() -> Self {
        fuse_setupmapping_in { fh: 0, foffset: 0, len: 0, flags: 0, moffset: 0 }
    }
}

impl Default for fuse_setupmapping_in {
    /// Every field zero.
    fn default() -> (r: Self)
        ensures
            r == Self::zero(),
    {
        fuse_setupmapping_in { fh: 0, foffset: 0, len: 0, flags: 0, moffset: 0 }
    }
}

/// Argument of `REMOVEMAPPING`.
#[derive(Debug, Clone, Copy)]
pub struct fuse_removemapping_in {
    pub count: u32,
}

impl fuse_removemapping_in {
    /// Number of bytes that the record takes on the wire.
    pub const SIZE: usize = 4;

    /// The record on the wire: its fields in order, each little-endian.
    pub open spec fn wire(self) -> Seq<u8> {
        le_u32(self.count)
    }

    /// The record whose bytes start at `b[at]`.
    pub open spec fn decode(b: Seq<u8>, at: int) -> Self {
        fuse_removemapping_in {
            count: u32_at(b, at),
        }
    }

    /// Reads the record whose bytes start at `bytes[at]`.
    pub fn read_at(bytes: &[u8], at: usize) -> (r: Self)
        requires
            at + 4 <= bytes.len(),
        ensures
            r == Self::decode(bytes@, at as int),
    {
        fuse_removemapping_in {
            count: get_u32(bytes, at),
        }
    }

    /// The record is read back from wherever its bytes stand.
    pub proof fn lemma_decode_wire(self, b: Seq<u8>, at: int)
        requires
            0 <= at,
            at + 4 <= b.len(),
            b.subrange(at, at + 4) == self.wire(),
        ensures
            Self::decode(b, at) == self,
    {
        assert(self.wire().subrange(0, 4) =~= le_u32(self.count));
        lemma_subrange_of_subrange(b, at, 4, 0, 4);
        lemma_u32_at(b, at, self.count);
    }

    /// What is read takes up the bytes that it is read from, and no others:
    /// writing it gives them again.
    pub proof fn lemma_wire_decode(b: Seq<u8>, at: int)
        requires
            0 <= at,
            at + 4 <= b.len(),
        ensures
            Self::decode(b, at).wire() == b.subrange(at, at + 4),
    {
        lemma_u32_bytes_round_trip(b, at);
        assert(Self::decode(b, at).wire() =~= b.subrange(at, at + 4));
    }

    /// The record with every field zero.
    pub open spec fn zero() -> Self {
        fuse_removemapping_in { count: 0 }
    }
}

impl Default for fuse_removemapping_in {
    /// Every field zero.
    fn default() -> (r: Self)
        ensures
            r == Self::zero(),
    {
        fuse_removemapping_in { count: 0 }
    }
}

/// One mapping of `REMOVEMAPPING`.
#[derive(Debug, Clone, Copy)]
pub struct fuse_removemapping_one {
    pub moffset: u64,
    pub len: u64,
}

impl fuse_removemapping_one {
    /// Number of bytes that the record takes on the wire.
    pub const SIZE: usize = 16;

    /// The record on the wire: its fields in order, each little-endian.
    pub open spec fn wire(self) -> Seq<u8> {
        le_u64(self.moffset) + le_u64(self.len)
    }

    /// The record whose bytes start at `b[at]`.
    pub open spec fn decode(b: Seq<u8>, at: int) -> Self {
        fuse_removemapping_one {
            moffset: u64_at(b, at),
            len: u64_at(b, at + 8),
        }
    }

    /// Reads the record whose bytes start at `bytes[at]`.
    pub fn read_at(bytes: &[u8], at: usize) -> (r: Self)
        requires
            at + 16 <= bytes.len(),
        ensures
            r == Self::decode(bytes@, at as int),
    {
        fuse_removemapping_one {
            moffset: get_u64(bytes, at),
            len: get_u64(bytes, at + 8),
        }
    }

    /// The record is read back from wherever its bytes stand.
    pub proof fn lemma_decode_wire(self, b: Seq<u8>, at: int)
        requires
            0 <= at,
            at + 16 <= b.len(),
            b.subrange(at, at + 16) == self.wire(),
        ensures
            Self::decode(b, at) == self,
    {
        assert(self.wire().subrange(0, 8) =~= le_u64(self.moffset));
        lemma_subrange_of_subrange(b, at, 16, 0, 8);
        lemma_u64_at(b, at, self.moffset);
        assert(self.wire().subrange(8, 16) =~= le_u64(self.len));
        lemma_subrange_of_subrange(b, at, 16, 8, 16);
        lemma_u64_at(b, at + 8, self.len);
    }

    /// What is read takes up the bytes that it is read from, and no others:
    /// writing it gives them again.
    pub proof fn lemma_wire_decode(b: Seq<u8>, at: int)
        requires
            0 <= at,
            at + 16 <= b.len(),
        ensures
            Self::decode(b, at).wire() == b.subrange(at, at + 16),
    {
        lemma_u64_bytes_round_trip(b, at);
        lemma_u64_bytes_round_trip(b, at + 8);
        assert(Self::decode(b, at).wire() =~= b.subrange(at, at + 16));
    }
}

/// Argument of `SYNCFS`.
#[derive(Debug, Clone, Copy)]
pub struct fuse_syncfs_in {
    pub padding: u64,
}

impl fuse_syncfs_in {
    /// Number of bytes that the record takes on the wire.
    pub const SIZE: usize = 8;

    /// The record on the wire: its fields in order, each little-endian.
    pub open spec fn wire(self) -> Seq<u8> {
        le_u64(self.padding)
    }

    /// The record whose bytes start at `b[at]`.
    pub open spec fn decode(b: Seq<u8>, at: int) -> Self {
        fuse_syncfs_in {
            padding: u64_at(b, at),
        }
    }

    /// Reads the record whose bytes start at `bytes[at]`.
    pub fn read_at(bytes: &[u8], at: usize) -> (r: Self)
        requires
            at + 8 <= bytes.len(),
        ensures
            r == Self::decode(bytes@, at as int),
    {
        fuse_syncfs_in {
            padding: get_u64(bytes, at),
        }
    }

    /// The record is read back from wherever its bytes stand.
    pub proof fn lemma_decode_wire(self, b: Seq<u8>, at: int)
        requires
            0 <= at,
            at + 8 <= b.len(),
            b.subrange(at, at + 8) == self.wire(),
        ensures
            Self::decode(b, at) == self,
    {
        assert(self.wire().subrange(0, 8) =~= le_u64(self.padding));
        lemma_subrange_of_subrange(b, at, 8, 0, 8);
        lemma_u64_at(b, at, self.padding);
    }

    /// What is read takes up the bytes that it is read from, and no others:
    /// writing it gives them again.
    pub proof fn lemma_wire_decode(b: Seq<u8>, at: int)
        requires
            0 <= at,
            at + 8 <= b.len(),
        ensures
            Self::decode(b, at).wire() == b.subrange(at, at + 8),
    {
        lemma_u64_bytes_round_trip(b, at);
        assert(Self::decode(b, at).wire() =~= b.subrange(at, at + 8));
    }

    /// The record with every field zero.
    pub open spec fn zero() -> Self {
        fuse_syncfs_in { padding: 0 }
    }
}

impl Default for fuse_syncfs_in {
    /// Every field zero.
    fn default() -> (r: Self)
        ensures
            r == Self::zero(),
    {
        fuse_syncfs_in { padding: 0 }
    }
}

/// A point in time, as `statx` reports it.
#[derive(Debug, Clone, Copy)]
pub struct fuse_sx_time {
    pub tv_sec: i64,
    pub tv_nsec: u32,
    pub __reserved: i32,
}

impl fuse_sx_time {
    /// Number of bytes that the record takes on the wire.
    pub const SIZE: usize = 16;

    /// The record on the wire: its fields in order, each little-endian.
    pub open spec fn wire(self) -> Seq<u8> {
        le_i64(self.tv_sec) + le_u32(self.tv_nsec) + le_i32(self.__reserved)
    }

    /// Writes the record into `buffer` at `at` and returns the offset behind it.
    pub fn write_at(&self, buffer: &mut [u8], at: usize) -> (end: usize)
        requires
            at + 16 <= old(buffer)@.len(),
        ensures
            end == at + 16,
            self.wire().len() == 16,
            final(buffer)@.len() == old(buffer)@.len(),
            final(buffer)@ == splice(old(buffer)@, at as int, self.wire()),
    {
        let mut c = Cursor::begin(buffer, at);
        c.put_i64(buffer, self.tv_sec);
        c.put_u32(buffer, self.tv_nsec);
        c.put_i32(buffer, self.__reserved);
        c.pos
    }

    /// Writes the record at the cursor `c`.
    pub fn emit(&self, c: &mut Cursor, buffer: &mut [u8])
        requires
            old(c).tracks(old(buffer)@),
            old(c).pos + 16 <= old(buffer)@.len(),
        ensures
            final(c).tracks(final(buffer)@),
            old(c).extends(*final(c), self.wire()),
            self.wire().len() == 16,
    {
        let ghost before = buffer@;
        let end = self.write_at(buffer, c.pos);
        c.advance(buffer, end, Ghost(before), Ghost(self.wire()));
    }

    /// The record whose bytes start at `b[at]`.
    pub open spec fn decode(b: Seq<u8>, at: int) -> Self {
        fuse_sx_time {
            tv_sec: i64_at(b, at),
            tv_nsec: u32_at(b, at + 8),
            __reserved: i32_at(b, at + 12),
        }
    }

    /// Reads the record whose bytes start at `bytes[at]`.
    pub fn read_at(bytes: &[u8], at: usize) -> (r: Self)
        requires
            at + 16 <= bytes.len(),
        ensures
            r == Self::decode(bytes@, at as int),
    {
        fuse_sx_time {
            tv_sec: get_i64(bytes, at),
            tv_nsec: get_u32(bytes, at + 8),
            __reserved: get_i32(bytes, at + 12),
        }
    }

    /// The record is read back from wherever its bytes stand.
    pub proof fn lemma_decode_wire(self, b: Seq<u8>, at: int)
        requires
            0 <= at,
            at + 16 <= b.len(),
            b.subrange(at, at + 16) == self.wire(),
        ensures
            Self::decode(b, at) == self,
    {
        assert(self.wire().subrange(0, 8) =~= le_i64(self.tv_sec));
        lemma_subrange_of_subrange(b, at, 16, 0, 8);
        lemma_i64_at(b, at, self.tv_sec);
        assert(self.wire().subrange(8, 12) =~= le_u32(self.tv_nsec));
        lemma_subrange_of_subrange(b, at, 16, 8, 12);
        lemma_u32_at(b, at + 8, self.tv_nsec);
        assert(self.wire().subrange(12, 16) =~= le_i32(self.__reserved));
        lemma_subrange_of_subrange(b, at, 16, 12, 16);
        lemma_i32_at(b, at + 12, self.__reserved);
    }

    /// What is read takes up the bytes that it is read from, and no others:
    /// writing it gives them again.
    pub proof fn lemma_wire_decode(b: Seq<u8>, at: int)
        requires
            0 <= at,
            at + 16 <= b.len(),
        ensures
            Self::decode(b, at).wire() == b.subrange(at, at + 16),
    {
        lemma_i64_bytes_round_trip(b, at);
        lemma_u32_bytes_round_trip(b, at + 8);
        lemma_i32_bytes_round_trip(b, at + 12);
        assert(Self::decode(b, at).wire() =~= b.subrange(at, at + 16));
    }
}

/// Attributes of an inode, as `statx` reports them.
#[derive(Debug, Clone, Copy)]
pub struct fuse_statx {
    pub mask: u32,
    pub blksize: u32,
    pub attributes: u64,
    pub nlink: u32,
    pub uid: u32,
    pub gid: u32,
    pub mode: u16,
    pub __spare0: [u16; 1],
    pub ino: u64,
    pub size: u64,
    pub blocks: u64,
    pub attributes_mask: u64,
    pub atime: fuse_sx_time,
    pub btime: fuse_sx_time,
    pub ctime: fuse_sx_time,
    pub mtime: fuse_sx_time,
    pub rdev_major: u32,
    pub rdev_minor: u32,
    pub dev_major: u32,
    pub dev_minor: u32,
    pub __spare2: [u64; 14],
}

impl fuse_statx {
    /// Number of bytes that the record takes on the wire.
    pub const SIZE: usize = 256;

    /// The record on the wire: its fields in order, each little-endian.
    pub open spec fn wire(self) -> Seq<u8> {
        le_u32(self.mask) + le_u32(self.blksize) + le_u64(self.attributes) + le_u32(self.nlink)
        + le_u32(self.uid) + le_u32(self.gid) + le_u16(self.mode) + le_u16(self.__spare0[0])
        + le_u64(self.ino) + le_u64(self.size) + le_u64(self.blocks)
        + le_u64(self.attributes_mask) + self.atime.wire() + self.btime.wire()
        + self.ctime.wire() + self.mtime.wire() + le_u32(self.rdev_major)
        + le_u32(self.rdev_minor) + le_u32(self.dev_major) + le_u32(self.dev_minor)
        + le_u64(self.__spare2[0]) + le_u64(self.__spare2[1]) + le_u64(self.__spare2[2])
        + le_u64(self.__spare2[3]) + le_u64(self.__spare2[4]) + le_u64(self.__spare2[5])
        + le_u64(self.__spare2[6]) + le_u64(self.__spare2[7]) + le_u64(self.__spare2[8])
        + le_u64(self.__spare2[9]) + le_u64(self.__spare2[10]) + le_u64(self.__spare2[11])
        + le_u64(self.__spare2[12]) + le_u64(self.__spare2[13])
    }

    /// Writes the record into `buffer` at `at` and returns the offset behind it.
    pub fn write_at(&self, buffer: &mut [u8], at: usize) -> (end: usize)
        requires
            at + 256 <= old(buffer)@.len(),
        ensures
            end == at + 256,
            self.wire().len() == 256,
            final(buffer)@.len() == old(buffer)@.len(),
            final(buffer)@ == splice(old(buffer)@, at as int, self.wire()),
    {
        let mut c = Cursor::begin(buffer, at);
        c.put_u32(buffer, self.mask);
        c.put_u32(buffer, self.blksize);
        c.put_u64(buffer, self.attributes);
        c.put_u32(buffer, self.nlink);
        c.put_u32(buffer, self.uid);
        c.put_u32(buffer, self.gid);
        c.put_u16(buffer, self.mode);
        c.put_u16(buffer, self.__spare0[0]);
        c.put_u64(buffer, self.ino);
        c.put_u64(buffer, self.size);
        c.put_u64(buffer, self.blocks);
        c.put_u64(buffer, self.attributes_mask);
        self.atime.emit(&mut c, buffer);
        self.btime.emit(&mut c, buffer);
        self.ctime.emit(&mut c, buffer);
        self.mtime.emit(&mut c, buffer);
        c.put_u32(buffer, self.rdev_major);
        c.put_u32(buffer, self.rdev_minor);
        c.put_u32(buffer, self.dev_major);
        c.put_u32(buffer, self.dev_minor);
        c.put_u64(buffer, self.__spare2[0]);
        c.put_u64(buffer, self.__spare2[1]);
        c.put_u64(buffer, self.__spare2[2]);
        c.put_u64(buffer, self.__spare2[3]);
        c.put_u64(buffer, self.__spare2[4]);
        c.put_u64(buffer, self.__spare2[5]);
        c.put_u64(buffer, self.__spare2[6]);
        c.put_u64(buffer, self.__spare2[7]);
        c.put_u64(buffer, self.__spare2[8]);
        c.put_u64(buffer, self.__spare2[9]);
        c.put_u64(buffer, self.__spare2[10]);
        c.put_u64(buffer, self.__spare2[11]);
        c.put_u64(buffer, self.__spare2[12]);
        c.put_u64(buffer, self.__spare2[13]);
        c.pos
    }

    /// Writes the record at the cursor `c`.
    pub fn emit(&self, c: &mut Cursor, buffer: &mut [u8])
        requires
            old(c).tracks(old(buffer)@),
            old(c).pos + 256 <= old(buffer)@.len(),
        ensures
            final(c).tracks(final(buffer)@),
            old(c).extends(*final(c), self.wire()),
            self.wire().len() == 256,
    {
        let ghost before = buffer@;
        let end = self.write_at(buffer, c.pos);
        c.advance(buffer, end, Ghost(before), Ghost(self.wire()));
    }
}

/// Argument of `STATX`.
#[derive(Debug, Clone, Copy)]
pub struct fuse_statx_in {
    pub getattr_flags: u32,
    pub reserved: u32,
    pub fh: u64,
    pub sx_flags: u32,
    pub sx_mask: u32,
}

impl fuse_statx_in {
    /// Number of bytes that the record takes on the wire.
    pub const SIZE: usize = 24;

    /// The record on the wire: its fields in order, each little-endian.
    pub open spec fn wire(self) -> Seq<u8> {
        le_u32(self.getattr_flags) + le_u32(self.reserved) + le_u64(self.fh)
        + le_u32(self.sx_flags) + le_u32(self.sx_mask)
    }

    /// Writes the record into `buffer` at `at` and returns the offset behind it.
    pub fn write_at(&self, buffer: &mut [u8], at: usize) -> (end: usize)
        requires
            at + 24 <= old(buffer)@.len(),
        ensures
            end == at + 24,
            self.wire().len() == 24,
            final(buffer)@.len() == old(buffer)@.len(),
            final(buffer)@ == splice(old(buffer)@, at as int, self.wire()),
    {
        let mut c = Cursor::begin(buffer, at);
        c.put_u32(buffer, self.getattr_flags);
        c.put_u32(buffer, self.reserved);
        c.put_u64(buffer, self.fh);
        c.put_u32(buffer, self.sx_flags);
        c.put_u32(buffer, self.sx_mask);
        c.pos
    }

    /// The record whose bytes start at `b[at]`.
    pub open spec fn decode(b: Seq<u8>, at: int) -> Self {
        fuse_statx_in {
            getattr_flags: u32_at(b, at),
            reserved: u32_at(b, at + 4),
            fh: u64_at(b, at + 8),
            sx_flags: u32_at(b, at + 16),
            sx_mask: u32_at(b, at + 20),
        }
    }

    /// Reads the record whose bytes start at `bytes[at]`.
    pub fn read_at(bytes: &[u8], at: usize) -> (r: Self)
        requires
            at + 24 <= bytes.len(),
        ensures
            r == Self::decode(bytes@, at as int),
    {
        fuse_statx_in {
            getattr_flags: get_u32(bytes, at),
            reserved: get_u32(bytes, at + 4),
            fh: get_u64(bytes, at + 8),
            sx_flags: get_u32(bytes, at + 16),
            sx_mask: get_u32(bytes, at + 20),
        }
    }

    /// The record is read back from wherever its bytes stand.
    pub proof fn lemma_decode_wire(self, b: Seq<u8>, at: int)
        requires
            0 <= at,
            at + 24 <= b.len(),
            b.subrange(at, at + 24) == self.wire(),
        ensures
            Self::decode(b, at) == self,
    {
        assert(self.wire().subrange(0, 4) =~= le_u32(self.getattr_flags));
        lemma_subrange_of_subrange(b, at, 24, 0, 4);
        lemma_u32_at(b, at, self.getattr_flags);
        assert(self.wire().subrange(4, 8) =~= le_u32(self.reserved));
        lemma_subrange_of_subrange(b, at, 24, 4, 8);
        lemma_u32_at(b, at + 4, self.reserved);
        assert(self.wire().subrange(8, 16) =~= le_u64(self.fh));
        lemma_subrange_of_subrange(b, at, 24, 8, 16);
        lemma_u64_at(b, at + 8, self.fh);
        assert(self.wire().subrange(16, 20) =~= le_u32(self.sx_flags));
        lemma_subrange_of_subrange(b, at, 24, 16, 20);
        lemma_u32_at(b, at + 16, self.sx_flags);
        assert(self.wire().subrange(20, 24) =~= le_u32(self.sx_mask));
        lemma_subrange_of_subrange(b, at, 24, 20, 24);
        lemma_u32_at(b, at + 20, self.sx_mask);
    }

    /// What is read takes up the bytes that it is read from, and no others:
    /// writing it gives them again.
    pub proof fn lemma_wire_decode(b: Seq<u8>, at: int)
        requires
            0 <= at,
            at + 24 <= b.len(),
        ensures
            Self::decode(b, at).wire() == b.subrange(at, at + 24),
    {
        lemma_u32_bytes_round_trip(b, at);
        lemma_u32_bytes_round_trip(b, at + 4);
        lemma_u64_bytes_round_trip(b, at + 8);
        lemma_u32_bytes_round_trip(b, at + 16);
        lemma_u32_bytes_round_trip(b, at + 20);
        assert(Self::decode(b, at).wire() =~= b.subrange(at, at + 24));
    }

    /// The record with every field zero.
    pub open spec fn zero() -> Self {
        fuse_statx_in { getattr_flags: 0, reserved: 0, fh: 0, sx_flags: 0, sx_mask: 0 }
    }
}

impl Default for fuse_statx_in {
    /// Every field zero.
    fn default() -> (r: Self)
        ensures
            r == Self::zero(),
    {
        fuse_statx_in { getattr_flags: 0, reserved: 0, fh: 0, sx_flags: 0, sx_mask: 0 }
    }
}

/// What `STATX` hands back.
#[derive(Debug, Clone, Copy)]
pub struct fuse_statx_out {
    pub attr_valid: u64,
    pub attr_valid_nsec: u32,
    pub flags: u32,
    pub spare: [u64; 2],
    pub stat: fuse_statx,
}

impl fuse_statx_out {
    /// Number of bytes that the record takes on the wire.
    pub const SIZE: usize = 288;

    /// The record on the wire: its fields in order, each little-endian.
    pub open spec fn wire(self) -> Seq<u8> {
        le_u64(self.attr_valid) + le_u32(self.attr_valid_nsec) + le_u32(self.flags)
        + le_u64(self.spare[0]) + le_u64(self.spare[1]) + self.stat.wire()
    }

    /// Writes the record into `buffer` at `at` and returns the offset behind it.
    pub fn write_at(&self, buffer: &mut [u8], at: usize) -> (end: usize)
        requires
            at + 288 <= old(buffer)@.len(),
        ensures
            end == at + 288,
            self.wire().len() == 288,
            final(buffer)@.len() == old(buffer)@.len(),
            final(buffer)@ == splice(old(buffer)@, at as int, self.wire()),
    {
        let mut c = Cursor::begin(buffer, at);
        c.put_u64(buffer, self.attr_valid);
        c.put_u32(buffer, self.attr_valid_nsec);
        c.put_u32(buffer, self.flags);
        c.put_u64(buffer, self.spare[0]);
        c.put_u64(buffer, self.spare[1]);
        self.stat.emit(&mut c, buffer);
        c.pos
    }
}

} // verus!
