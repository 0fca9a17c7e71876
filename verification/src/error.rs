//! The errors that the kernel understands.
//!
//! [`Errno`] mirrors the POSIX error numbers, with the values that Linux gives
//! them. In a reply the kernel expects the negative of the number; a parse
//! failure and a closed channel are reported as `EIO`.
use vstd::prelude::*;

verus! {

/// A POSIX error number.
#[derive(Debug, Clone, Copy, PartialEq, Eq, Hash, Structural)]
pub enum Errno {
    /// Operation not permitted
    EPERM,
    /// No such file or directory
    ENOENT,
    /// No such process
    ESRCH,
    /// Interrupted system call
    EINTR,
    /// Input/output error
    EIO,
    /// No such device or address
    ENXIO,
    /// Argument list too long
    E2BIG,
    /// Exec format error
    ENOEXEC,
    /// Bad file descriptor
    EBADF,
    /// No child processes
    ECHILD,
    /// Resource temporarily unavailable
    EAGAIN,
    /// Cannot allocate memory
    ENOMEM,
    /// Permission denied
    EACCES,
    /// Bad address
    EFAULT,
    /// Block device required
    ENOTBLK,
    /// Device or resource busy
    EBUSY,
    /// File exists
    EEXIST,
    /// Invalid cross-device link
    EXDEV,
    /// No such device
    ENODEV,
    /// Not a directory
    ENOTDIR,
    /// Is a directory
    EISDIR,
    /// Invalid argument
    EINVAL,
    /// Too many open files in system
    ENFILE,
    /// Too many open files
    EMFILE,
    /// Inappropriate ioctl for device
    ENOTTY,
    /// Text file busy
    ETXTBSY,
    /// File too large
    EFBIG,
    /// No space left on device
    ENOSPC,
    /// Illegal seek
    ESPIPE,
    /// Read-only file system
    EROFS,
    /// Too many links
    EMLINK,
    /// Broken pipe
    EPIPE,
    /// Numerical argument out of domain
    EDOM,
    /// Numerical result out of range
    ERANGE,
    /// Resource deadlock avoided
    EDEADLK,
    /// File name too long
    ENAMETOOLONG,
    /// No locks available
    ENOLCK,
    /// Function not implemented
    ENOSYS,
    /// Directory not empty
    ENOTEMPTY,
    /// Too many levels of symbolic links
    ELOOP,
    /// No data available
    ENODATA,
    /// Object is remote
    EREMOTE,
    /// Protocol error
    EPROTO,
    /// Value too large for defined data type
    EOVERFLOW,
    /// Operation not supported
    ENOTSUP,
    /// Connection timed out
    ETIMEDOUT,
    /// Stale file handle
    ESTALE,
    /// Disk quota exceeded
    EDQUOT,
    /// Operation canceled
    ECANCELED,
}

impl Errno {
    /// The error number, as `errno` holds it: positive.
    pub open spec fn spec_code(self) -> i32 {
        match self {
            Errno::EPERM => 1,
            Errno::ENOENT => 2,
            Errno::ESRCH => 3,
            Errno::EINTR => 4,
            Errno::EIO => 5,
            Errno::ENXIO => 6,
            Errno::E2BIG => 7,
            Errno::ENOEXEC => 8,
            Errno::EBADF => 9,
            Errno::ECHILD => 10,
            Errno::EAGAIN => 11,
            Errno::ENOMEM => 12,
            Errno::EACCES => 13,
            Errno::EFAULT => 14,
            Errno::ENOTBLK => 15,
            Errno::EBUSY => 16,
            Errno::EEXIST => 17,
            Errno::EXDEV => 18,
            Errno::ENODEV => 19,
            Errno::ENOTDIR => 20,
            Errno::EISDIR => 21,
            Errno::EINVAL => 22,
            Errno::ENFILE => 23,
            Errno::EMFILE => 24,
            Errno::ENOTTY => 25,
            Errno::ETXTBSY => 26,
            Errno::EFBIG => 27,
            Errno::ENOSPC => 28,
            Errno::ESPIPE => 29,
            Errno::EROFS => 30,
            Errno::EMLINK => 31,
            Errno::EPIPE => 32,
            Errno::EDOM => 33,
            Errno::ERANGE => 34,
            Errno::EDEADLK => 35,
            Errno::ENAMETOOLONG => 36,
            Errno::ENOLCK => 37,
            Errno::ENOSYS => 38,
            Errno::ENOTEMPTY => 39,
            Errno::ELOOP => 40,
            Errno::ENODATA => 61,
            Errno::EREMOTE => 66,
            Errno::EPROTO => 71,
            Errno::EOVERFLOW => 75,
            Errno::ENOTSUP => 95,
            Errno::ETIMEDOUT => 110,
            Errno::ESTALE => 116,
            Errno::EDQUOT => 122,
            Errno::ECANCELED => 125,
        }
    }

    /// The error with the number `code`, where there is one.
    pub open spec fn spec_from_code(code: i32) -> Option<Errno> {
        match code {
            1 => Some(Errno::EPERM),
            2 => Some(Errno::ENOENT),
            3 => Some(Errno::ESRCH),
            4 => Some(Errno::EINTR),
            5 => Some(Errno::EIO),
            6 => Some(Errno::ENXIO),
            7 => Some(Errno::E2BIG),
            8 => Some(Errno::ENOEXEC),
            9 => Some(Errno::EBADF),
            10 => Some(Errno::ECHILD),
            11 => Some(Errno::EAGAIN),
            12 => Some(Errno::ENOMEM),
            13 => Some(Errno::EACCES),
            14 => Some(Errno::EFAULT),
            15 => Some(Errno::ENOTBLK),
            16 => Some(Errno::EBUSY),
            17 => Some(Errno::EEXIST),
            18 => Some(Errno::EXDEV),
            19 => Some(Errno::ENODEV),
            20 => Some(Errno::ENOTDIR),
            21 => Some(Errno::EISDIR),
            22 => Some(Errno::EINVAL),
            23 => Some(Errno::ENFILE),
            24 => Some(Errno::EMFILE),
            25 => Some(Errno::ENOTTY),
            26 => Some(Errno::ETXTBSY),
            27 => Some(Errno::EFBIG),
            28 => Some(Errno::ENOSPC),
            29 => Some(Errno::ESPIPE),
            30 => Some(Errno::EROFS),
            31 => Some(Errno::EMLINK),
            32 => Some(Errno::EPIPE),
            33 => Some(Errno::EDOM),
            34 => Some(Errno::ERANGE),
            35 => Some(Errno::EDEADLK),
            36 => Some(Errno::ENAMETOOLONG),
            37 => Some(Errno::ENOLCK),
            38 => Some(Errno::ENOSYS),
            39 => Some(Errno::ENOTEMPTY),
            40 => Some(Errno::ELOOP),
            61 => Some(Errno::ENODATA),
            66 => Some(Errno::EREMOTE),
            71 => Some(Errno::EPROTO),
            75 => Some(Errno::EOVERFLOW),
            95 => Some(Errno::ENOTSUP),
            110 => Some(Errno::ETIMEDOUT),
            116 => Some(Errno::ESTALE),
            122 => Some(Errno::EDQUOT),
            125 => Some(Errno::ECANCELED),
            _ => None,
        }
    }

    /// The error number, as `errno` holds it: positive.
    #[verifier::when_used_as_spec(spec_code)]
    pub fn code(self) -> (code: i32)
        ensures
            code == self.spec_code(),
            0 < code < 4096,
    {
        match self {
            Errno::EPERM => 1,
            Errno::ENOENT => 2,
            Errno::ESRCH => 3,
            Errno::EINTR => 4,
            Errno::EIO => 5,
            Errno::ENXIO => 6,
            Errno::E2BIG => 7,
            Errno::ENOEXEC => 8,
            Errno::EBADF => 9,
            Errno::ECHILD => 10,
            Errno::EAGAIN => 11,
            Errno::ENOMEM => 12,
            Errno::EACCES => 13,
            Errno::EFAULT => 14,
            Errno::ENOTBLK => 15,
            Errno::EBUSY => 16,
            Errno::EEXIST => 17,
            Errno::EXDEV => 18,
            Errno::ENODEV => 19,
            Errno::ENOTDIR => 20,
            Errno::EISDIR => 21,
            Errno::EINVAL => 22,
            Errno::ENFILE => 23,
            Errno::EMFILE => 24,
            Errno::ENOTTY => 25,
            Errno::ETXTBSY => 26,
            Errno::EFBIG => 27,
            Errno::ENOSPC => 28,
            Errno::ESPIPE => 29,
            Errno::EROFS => 30,
            Errno::EMLINK => 31,
            Errno::EPIPE => 32,
            Errno::EDOM => 33,
            Errno::ERANGE => 34,
            Errno::EDEADLK => 35,
            Errno::ENAMETOOLONG => 36,
            Errno::ENOLCK => 37,
            Errno::ENOSYS => 38,
            Errno::ENOTEMPTY => 39,
            Errno::ELOOP => 40,
            Errno::ENODATA => 61,
            Errno::EREMOTE => 66,
            Errno::EPROTO => 71,
            Errno::EOVERFLOW => 75,
            Errno::ENOTSUP => 95,
            Errno::ETIMEDOUT => 110,
            Errno::ESTALE => 116,
            Errno::EDQUOT => 122,
            Errno::ECANCELED => 125,
        }
    }

    /// The error with the number `code`, or `None` where no error has it.
    pub fn from_code(code: i32) -> (r: Option<Errno>)
        ensures
            r == Errno::spec_from_code(code),
            r matches Some(e) ==> e.code() == code,
            r is None <==> forall|e: Errno| e.code() != code,
    {
        match code {
            1 => Some(Errno::EPERM),
            2 => Some(Errno::ENOENT),
            3 => Some(Errno::ESRCH),
            4 => Some(Errno::EINTR),
            5 => Some(Errno::EIO),
            6 => Some(Errno::ENXIO),
            7 => Some(Errno::E2BIG),
            8 => Some(Errno::ENOEXEC),
            9 => Some(Errno::EBADF),
            10 => Some(Errno::ECHILD),
            11 => Some(Errno::EAGAIN),
            12 => Some(Errno::ENOMEM),
            13 => Some(Errno::EACCES),
            14 => Some(Errno::EFAULT),
            15 => Some(Errno::ENOTBLK),
            16 => Some(Errno::EBUSY),
            17 => Some(Errno::EEXIST),
            18 => Some(Errno::EXDEV),
            19 => Some(Errno::ENODEV),
            20 => Some(Errno::ENOTDIR),
            21 => Some(Errno::EISDIR),
            22 => Some(Errno::EINVAL),
            23 => Some(Errno::ENFILE),
            24 => Some(Errno::EMFILE),
            25 => Some(Errno::ENOTTY),
            26 => Some(Errno::ETXTBSY),
            27 => Some(Errno::EFBIG),
            28 => Some(Errno::ENOSPC),
            29 => Some(Errno::ESPIPE),
            30 => Some(Errno::EROFS),
            31 => Some(Errno::EMLINK),
            32 => Some(Errno::EPIPE),
            33 => Some(Errno::EDOM),
            34 => Some(Errno::ERANGE),
            35 => Some(Errno::EDEADLK),
            36 => Some(Errno::ENAMETOOLONG),
            37 => Some(Errno::ENOLCK),
            38 => Some(Errno::ENOSYS),
            39 => Some(Errno::ENOTEMPTY),
            40 => Some(Errno::ELOOP),
            61 => Some(Errno::ENODATA),
            66 => Some(Errno::EREMOTE),
            71 => Some(Errno::EPROTO),
            75 => Some(Errno::EOVERFLOW),
            95 => Some(Errno::ENOTSUP),
            110 => Some(Errno::ETIMEDOUT),
            116 => Some(Errno::ESTALE),
            122 => Some(Errno::EDQUOT),
            125 => Some(Errno::ECANCELED),
            _ => None,
        }
    }

    /// The value of the `error` field of a reply that reports this error: the
    /// negative of the error number.
    pub fn to_wire(self) -> (error: i32)
        ensures
            error == -self.code(),
            error < 0,
    {
        -self.code()
    }

    /// The error with the number `raw`, where there is a number and an error
    /// has it: `raw` is the `raw_os_error` of an I/O error.
    pub fn from_raw(raw: Option<i32>) -> (r: Option<Errno>)
        ensures
            r == match raw {
                Some(code) => Errno::spec_from_code(code),
                None => None,
            },
    {
        match raw {
            Some(code) => Errno::from_code(code),
            None => None,
        }
    }

    /// The error that an I/O error of the operating system stands for:
    /// `raw` is its `raw_os_error`. An error without a number, or with a
    /// number that is not known here, is reported as `EIO`.
    pub open spec fn spec_from_raw_os_error(raw: Option<i32>) -> Errno {
        match raw {
            Some(code) => match Errno::spec_from_code(code) {
                Some(known) => known,
                None => Errno::EIO,
            },
            None => Errno::EIO,
        }
    }

    /// The error that an I/O error of the operating system stands for:
    /// `raw` is its `raw_os_error`. An error without a number, or with a
    /// number that is not known here, is reported as `EIO`.
    #[verifier::when_used_as_spec(spec_from_raw_os_error)]
    pub fn from_raw_os_error(raw: Option<i32>) -> (e: Errno)
        ensures
            e == Errno::spec_from_raw_os_error(raw),
    {
        match raw {
            Some(code) => match Errno::from_code(code) {
                Some(known) => known,
                None => Errno::EIO,
            },
            None => Errno::EIO,
        }
    }
}

/// An error is found again from its number.
pub proof fn lemma_code_round_trip(e: Errno)
    ensures
        Errno::spec_from_code(e.code()) == Some(e),
{
}

/// Two errors with the same number are the same error.
pub proof fn lemma_code_injective(a: Errno, b: Errno)
    requires
        a.code() == b.code(),
    ensures
        a == b,
{
}

} // verus!
