//! The core of a user-space filesystem session: the bridge between the FUSE
//! kernel driver and a filesystem.
//!
//! The kernel hands requests over a character device, as frames in a binary
//! format. This library parses a frame into a typed [`Request`], which carries
//! the sender on which the filesystem answers it; it writes a typed [`Reply`]
//! back as a frame; and it decides, event by event, what the loop that ferries
//! the two does next.
//!
//! [`Request`]: messages::request::Request
//! [`Reply`]: messages::reply::Reply
use crate::constants::{
    FUSE_ASYNC_DIO, FUSE_ASYNC_READ, FUSE_ATOMIC_O_TRUNC, FUSE_BIG_WRITES, FUSE_DONT_MASK,
    FUSE_EXPORT_SUPPORT, FUSE_FILE_OPS, FUSE_FLOCK_LOCKS, FUSE_FSYNC_FDATASYNC, FUSE_MAX_PAGES,
};
use crate::messages::reply::Reply;
use crate::messages::request::Request;
use vstd::prelude::*;

pub mod builder;
pub mod constants;
pub mod error;
pub mod messages;
pub mod mount;
pub mod session;

verus! {

/// Two to the power of twenty.
pub const MEBI: u64 = 0x10_0000;

/// Number of messages that a channel between session and filesystem holds.
pub const SIZE_CHANNEL: usize = 32;

/// Size of the buffer that a frame is read into and written from: 16 MiB,
/// which is enough for the largest write that the kernel sends.
pub const SIZE_BUFFER: usize = 0x100_0000;

/// `tokio::sync::mpsc::Sender`, the sending end of a bounded channel. It is
/// carried through as it is: nothing of what it holds is seen here.
#[verifier::external_type_specification]
#[verifier::external_body]
#[verifier::reject_recursive_types(T)]
pub struct ExSender<T>(tokio::sync::mpsc::Sender<T>);

/// `tokio::sync::mpsc::Receiver`, the receiving end of a bounded channel. It
/// is carried through as it is: nothing of what it holds is seen here.
#[verifier::external_type_specification]
#[verifier::external_body]
#[verifier::reject_recursive_types(T)]
pub struct ExReceiver<T>(tokio::sync::mpsc::Receiver<T>);

/// `Sender::clone` of `tokio::sync::mpsc`: another sender of the same channel.
/// Nothing is claimed of it here.
pub assume_specification<T>[ <tokio::sync::mpsc::Sender<T> as Clone>::clone ](
    sender: &tokio::sync::mpsc::Sender<T>,
) -> (other: tokio::sync::mpsc::Sender<T>)
;

/// The end of the channel of requests at which the session hands them in.
pub type RequestTx = tokio::sync::mpsc::Sender<Request>;

/// The end of the channel of requests at which the filesystem takes them.
pub type RequestRx = tokio::sync::mpsc::Receiver<Request>;

/// The end of the channel of replies at which the filesystem hands them in.
pub type ReplyTx = tokio::sync::mpsc::Sender<Reply>;

/// The end of the channel of replies at which the session takes them.
pub type ReplyRx = tokio::sync::mpsc::Receiver<Reply>;

/// `tokio::sync::mpsc::channel` with room for [`SIZE_CHANNEL`] requests. The
/// call panics on a capacity of zero only. Nothing is claimed of the two ends.
#[verifier::external_body]
pub fn create_request_channel() -> (RequestTx, RequestRx) {
    tokio::sync::mpsc::channel::<Request>(SIZE_CHANNEL)
}

/// `tokio::sync::mpsc::channel` with room for [`SIZE_CHANNEL`] replies. The
/// call panics on a capacity of zero only. Nothing is claimed of the two ends.
#[verifier::external_body]
pub fn create_reply_channel() -> (ReplyTx, ReplyRx) {
    tokio::sync::mpsc::channel::<Reply>(SIZE_CHANNEL)
}

/// The capabilities that are offered to every kernel.
pub const INIT_FLAGS: u32 = FUSE_ASYNC_READ | FUSE_BIG_WRITES | FUSE_ASYNC_DIO
    | FUSE_FSYNC_FDATASYNC | FUSE_FILE_OPS | FUSE_ATOMIC_O_TRUNC | FUSE_EXPORT_SUPPORT
    | FUSE_BIG_WRITES;

/// The capabilities that this library takes up where the kernel offers them.
pub open spec fn spec_supported_init_flags() -> u32 {
    INIT_FLAGS | FUSE_DONT_MASK | FUSE_FLOCK_LOCKS | FUSE_MAX_PAGES
}

/// The capabilities that this library takes up where the kernel offers them:
/// [`INIT_FLAGS`], and what the later versions of the interface added.
#[verifier::when_used_as_spec(spec_supported_init_flags)]
pub fn supported_init_flags() -> (flags: u32)
    ensures
        flags == spec_supported_init_flags(),
        flags == 0x0040_847d,
{
    let mut init = INIT_FLAGS;
    init |= FUSE_DONT_MASK;
    init |= FUSE_FLOCK_LOCKS;
    init |= FUSE_MAX_PAGES;
    assert(INIT_FLAGS | FUSE_DONT_MASK | FUSE_FLOCK_LOCKS | FUSE_MAX_PAGES == 0x0040_847d)
        by (bit_vector);
    init
}

} // verus!
