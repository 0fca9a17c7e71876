//! Flags and masks of the kernel interface.
use vstd::prelude::*;

verus! {

// Capabilities that kernel and filesystem agree on in `INIT`.
/// Asynchronous read requests
pub const FUSE_ASYNC_READ: u32 = 0x0000_0001;

/// Remote locking for POSIX file locks
pub const FUSE_POSIX_LOCKS: u32 = 0x0000_0002;

/// The kernel sends the file handle for `fstat` and the like
pub const FUSE_FILE_OPS: u32 = 0x0000_0004;

/// The filesystem handles `O_TRUNC` in `open`
pub const FUSE_ATOMIC_O_TRUNC: u32 = 0x0000_0008;

/// The filesystem handles lookups of `.` and `..`
pub const FUSE_EXPORT_SUPPORT: u32 = 0x0000_0010;

/// The filesystem takes writes of more than 4 KiB
pub const FUSE_BIG_WRITES: u32 = 0x0000_0020;

/// The kernel does not apply the umask to file modes on create operations
pub const FUSE_DONT_MASK: u32 = 0x0000_0040;

/// The kernel may splice written data
pub const FUSE_SPLICE_WRITE: u32 = 0x0000_0080;

/// The kernel may move spliced data
pub const FUSE_SPLICE_MOVE: u32 = 0x0000_0100;

/// The kernel may splice read data
pub const FUSE_SPLICE_READ: u32 = 0x0000_0200;

/// Remote locking for BSD style file locks
pub const FUSE_FLOCK_LOCKS: u32 = 0x0000_0400;

/// The kernel supports ioctl on directories
pub const FUSE_HAS_IOCTL_DIR: u32 = 0x0000_0800;

/// The kernel invalidates cached pages by itself
pub const FUSE_AUTO_INVAL_DATA: u32 = 0x0000_1000;

/// `READDIRPLUS` in place of `READDIR`
pub const FUSE_DO_READDIRPLUS: u32 = 0x0000_2000;

/// `READDIRPLUS` where the kernel sees fit
pub const FUSE_READDIRPLUS_AUTO: u32 = 0x0000_4000;

/// Asynchronous direct I/O
pub const FUSE_ASYNC_DIO: u32 = 0x0000_8000;

/// Writeback cache for buffered writes
pub const FUSE_WRITEBACK_CACHE: u32 = 0x0001_0000;

/// The kernel can do without `open`
pub const FUSE_NO_OPEN_SUPPORT: u32 = 0x0002_0000;

/// Parallel lookups and readdir
pub const FUSE_PARALLEL_DIROPS: u32 = 0x0004_0000;

/// The filesystem clears setuid, setgid and capabilities on write and the like
pub const FUSE_HANDLE_KILLPRIV: u32 = 0x0008_0000;

/// The filesystem supports POSIX access control lists
pub const FUSE_POSIX_ACL: u32 = 0x0010_0000;

/// Reading the device after an abort returns `ECONNABORTED`
pub const FUSE_ABORT_ERROR: u32 = 0x0020_0000;

/// `max_pages` of the `INIT` reply is meant
pub const FUSE_MAX_PAGES: u32 = 0x0040_0000;

/// The kernel caches the answers to `READLINK`
pub const FUSE_CACHE_SYMLINKS: u32 = 0x0080_0000;

// Flags of `FSYNC`.
/// Only the data is to be synchronised, not the metadata
pub const FUSE_FSYNC_FDATASYNC: u32 = 0x0000_0001;

// Bits of `valid` in `SETATTR`: the fields that are meant.
pub const FATTR_MODE: u32 = 0x0000_0001;

pub const FATTR_UID: u32 = 0x0000_0002;

pub const FATTR_GID: u32 = 0x0000_0004;

pub const FATTR_SIZE: u32 = 0x0000_0008;

pub const FATTR_ATIME: u32 = 0x0000_0010;

pub const FATTR_MTIME: u32 = 0x0000_0020;

pub const FATTR_FH: u32 = 0x0000_0040;

/// The access time is to be set to the current time
pub const FATTR_ATIME_NOW: u32 = 0x0000_0080;

/// The modification time is to be set to the current time
pub const FATTR_MTIME_NOW: u32 = 0x0000_0100;

pub const FATTR_LOCKOWNER: u32 = 0x0000_0200;

pub const FATTR_CTIME: u32 = 0x0000_0400;

// File types, as `st_mode` holds them.
/// Mask of the file type bits of a mode
pub const S_IFMT: u32 = 0o170000;

/// Socket
pub const S_IFSOCK: u32 = 0o140000;

/// Symbolic link
pub const S_IFLNK: u32 = 0o120000;

/// Regular file
pub const S_IFREG: u32 = 0o100000;

/// Block device
pub const S_IFBLK: u32 = 0o060000;

/// Directory
pub const S_IFDIR: u32 = 0o040000;

/// Character device
pub const S_IFCHR: u32 = 0o020000;

/// FIFO
pub const S_IFIFO: u32 = 0o010000;

} // verus!
