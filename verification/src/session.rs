//! The loop of a session, as the decisions that it makes.
//!
//! A session ferries requests from the kernel to the filesystem and replies
//! from the filesystem to the kernel. Its loop awaits three things at once:
//! that cancellation is requested, that the filesystem hands a reply, and that
//! a read from the device ends. The waiting, the reading and the writing are
//! the caller's; [`Inner`] says, for each thing that happened, what is to be
//! done next. [`Session`] is the handle that the application keeps.
//!
//! Requests reach the filesystem in the order in which the kernel sent them.
//! Replies reach the kernel in the order in which the filesystem handed them
//! in, which need not be that of the requests: the kernel finds the request
//! of a reply by its `unique`.
use crate::error::Errno;
use crate::messages::codec::{group_le_len, splice, zeros};
use crate::messages::fuse_abi::{fuse_in_header, fuse_out_header};
use crate::messages::reply::{IWrite, Reply};
use crate::messages::request::Request;
use crate::{ReplyTx, RequestTx, SIZE_BUFFER};
use tokio_util::sync::CancellationToken;
use vstd::prelude::*;

verus! {

/// `tokio_util::sync::CancellationToken`: a flag that is shared by all the
/// clones of a token and that, once set, stays set. It is carried through as
/// it is: nothing of what it holds is seen here.
#[verifier::external_type_specification]
#[verifier::external_body]
pub struct ExCancellationToken(CancellationToken);

/// `CancellationToken::new`: a token of its own. Nothing is claimed of it.
pub assume_specification[ CancellationToken::new ]() -> (token: CancellationToken)
;

/// `CancellationToken::clone`: a token that shares the flag of `token`, so
/// that each is cancelled whenever the other is. As a value here a token is
/// the flag that it stands for, and the clone is the same value: the clone
/// points to what `token` points to, and the crate's own `eq`, which compares
/// just that, holds of the two.
pub assume_specification[ <CancellationToken as Clone>::clone ](
    token: &CancellationToken,
) -> (other: CancellationToken)
    ensures
        other == *token,
;

/// `CancellationToken::cancel`: sets the flag. The token is shared, so
/// nothing is claimed.
pub assume_specification[ CancellationToken::cancel ](token: &CancellationToken)
;

/// `CancellationToken::is_cancelled`: whether the flag is set, by whatever
/// holder of the token. Nothing is claimed of the answer.
pub assume_specification[ CancellationToken::is_cancelled ](
    token: &CancellationToken,
) -> (cancelled: bool)
;

/// Represents a single session between the kernel and a filesystem.
///
/// This is a simple struct holding what an application might be interested in
/// having about the long-running loop: the channel on which the requests of
/// the kernel reach the filesystem, and the token that stops the loop.
pub struct Session {
    cancellation_token: CancellationToken,
    outbound_fs_request_tx: RequestTx,
    /// Whether cancellation was requested through this handle
    cancel_requested: bool,
}

impl Session {
    /// Whether cancellation was requested through this handle.
    pub closed spec fn cancel_requested(&self) -> bool {
        self.cancel_requested
    }

    /// The channel on which the requests reach the filesystem.
    pub closed spec fn request_tx(&self) -> RequestTx {
        self.outbound_fs_request_tx
    }

    /// The token that stops the loop.
    pub closed spec fn token(&self) -> CancellationToken {
        self.cancellation_token
    }

    /// The handle of a session that is stopped by `cancellation_token` and
    /// forwards requests on `outbound_fs_request_tx`.
    pub fn new(
        cancellation_token: CancellationToken,
        outbound_fs_request_tx: RequestTx,
    ) -> (session: Self)
        ensures
            !session.cancel_requested(),
            session.token() == cancellation_token,
            session.request_tx() == outbound_fs_request_tx,
    {
        Session { cancellation_token, outbound_fs_request_tx, cancel_requested: false }
    }

    /// Requests cancellation. The loop reads no more requests, writes the
    /// replies that are still under way, and ends.
    pub fn cancel(&mut self)
        ensures
            final(self).cancel_requested(),
            final(self).token() == old(self).token(),
            final(self).request_tx() == old(self).request_tx(),
    {
        self.cancellation_token.cancel();
        self.cancel_requested = true;
    }

    /// Whether cancellation was requested, where `by_token` is what the
    /// token says of it: through this handle, or, as the token knows, by
    /// any holder of the token.
    pub fn is_cancelled_given(&self, by_token: bool) -> (cancelled: bool)
        ensures
            cancelled == (self.cancel_requested() || by_token),
    {
        self.cancel_requested || by_token
    }

    /// Whether cancellation was requested, through this handle or by another
    /// holder of the token. After [`Session::cancel`] the answer is `true`,
    /// and stays so; before, it is what the token says, which any holder of
    /// the token may change at any time.
    pub fn is_cancelled(&self) -> (cancelled: bool)
        ensures
            self.cancel_requested() ==> cancelled,
    {
        let by_token = self.cancellation_token.is_cancelled();
        self.is_cancelled_given(by_token)
    }

    /// The channel on which the requests reach the filesystem.
    pub fn get_outbound_fs_request_tx(&self) -> (tx: &RequestTx)
        ensures
            *tx == self.request_tx(),
    {
        &self.outbound_fs_request_tx
    }

    /// The token that stops the loop.
    pub fn get_cancellation_token(&self) -> (token: &CancellationToken)
        ensures
            *token == self.token(),
    {
        &self.cancellation_token
    }
}

/// Where a session stands.
#[derive(Debug, Clone, Copy, PartialEq, Eq, Structural)]
pub enum Phase {
    /// Requests are read and replies are written
    Running,
    /// Cancellation was requested: nothing is read any more, and the replies
    /// that are still under way are written
    Draining,
    /// Cancellation was requested, and no reply can come any more
    Terminated,
}

/// The things that the loop awaits, and whether it awaits each of them now.
#[derive(Debug, Clone, Copy, PartialEq, Eq, Structural)]
pub struct Sources {
    /// That cancellation is requested
    pub cancellation: bool,
    /// That the filesystem hands a reply
    pub replies: bool,
    /// That a read from the device ends
    pub device: bool,
}

/// What happened.
pub enum Event {
    /// Cancellation was requested
    Cancelled,
    /// The filesystem handed a reply, or, with `None`, the channel of the
    /// replies is closed and empty
    Reply(Option<Reply>),
    /// A read from the device into the buffer ended: with the number of bytes
    /// read, or with an error and its `raw_os_error`
    Read(Result<usize, Option<i32>>),
    /// A request was handed to the channel of the filesystem, or, with `false`,
    /// the channel did not take it
    Forwarded(bool),
    /// A write of the first `count` bytes of the buffer to the device ended:
    /// with the number of bytes written, or with an error and its
    /// `raw_os_error`
    Written { count: usize, result: Result<usize, Option<i32>> },
}

/// What is to be done next.
pub enum Action {
    /// Nothing: go on with the loop
    Continue,
    /// Hand the request to the channel of the filesystem, and wait until it
    /// is taken
    Forward(Request),
    /// Write the first `count` bytes of the buffer to the device, in one write
    Write(usize),
    /// Give up: the session ends with this error
    Fail(Errno),
}

/// An error of a read from the device that is no reason to stop: the read was
/// interrupted (`EINTR`), is to be tried again (`EAGAIN`), or met a request
/// that was taken back (`ENOENT`).
pub open spec fn is_transient(raw: Option<i32>) -> bool {
    ||| raw == Some(Errno::EINTR.code())
    ||| raw == Some(Errno::EAGAIN.code())
    ||| raw == Some(Errno::ENOENT.code())
}

/// The error of a read from a device whose mount is gone: `ENODEV`.
pub open spec fn is_unmounted(raw: Option<i32>) -> bool {
    raw == Some(Errno::ENODEV.code())
}

/// The reply that reports `error` for the request `unique`, as it is written:
/// a header and nothing else.
pub open spec fn error_frame(unique: u64, error: Errno) -> Seq<u8> {
    (fuse_out_header { len: 16, error: (-error.code()) as i32, unique }).wire()
}

/// A buffer of the size that a session reads and writes with, filled with
/// zeros.
pub fn new_buffer() -> (buffer: Vec<u8>)
    ensures
        buffer@ == zeros(SIZE_BUFFER as nat),
{
    let buffer = vec![0u8; SIZE_BUFFER];
    assert(buffer@ =~= zeros(SIZE_BUFFER as nat));
    buffer
}

/// The state of the loop of a session.
pub struct Inner {
    /// Whether the loop knows that cancellation was requested
    cancelled: bool,
    /// Sender of the channel on which the replies come in; every request
    /// that is parsed gets one of its own
    inbound_fs_reply_tx: ReplyTx,
    /// The token that stops the loop
    cancellation_token: CancellationToken,
}

impl Inner {
    /// Whether cancellation was requested. Once it was, it stays so.
    pub closed spec fn cancelled(&self) -> bool {
        self.cancelled
    }

    /// The sender of the channel on which the replies come in.
    pub closed spec fn reply_tx(&self) -> ReplyTx {
        self.inbound_fs_reply_tx
    }

    /// The token that stops the loop.
    pub closed spec fn token(&self) -> CancellationToken {
        self.cancellation_token
    }

    /// Where the session stands. `busy` says whether a reply can still come:
    /// whether the channel of the replies is open, or holds one.
    pub open spec fn spec_phase(&self, busy: bool) -> Phase {
        if !self.cancelled() {
            Phase::Running
        } else if busy {
            Phase::Draining
        } else {
            Phase::Terminated
        }
    }

    /// The state at the start of a session: the loop knows of no
    /// cancellation.
    pub fn new(
        inbound_fs_reply_tx: ReplyTx,
        cancellation_token: CancellationToken,
    ) -> (inner: Self)
        ensures
            !inner.cancelled(),
            inner.reply_tx() == inbound_fs_reply_tx,
            inner.token() == cancellation_token,
    {
        Inner { cancelled: false, inbound_fs_reply_tx, cancellation_token }
    }

    /// The token that stops the loop.
    pub fn cancellation_token(&self) -> (token: &CancellationToken)
        ensures
            *token == self.token(),
    {
        &self.cancellation_token
    }

    /// The sender of the channel on which the replies come in.
    pub fn inbound_fs_reply_tx(&self) -> (tx: &ReplyTx)
        ensures
            *tx == self.reply_tx(),
    {
        &self.inbound_fs_reply_tx
    }

    /// Requests cancellation, and takes note of it. Where cancellation was
    /// requested before, nothing changes.
    pub fn cancel(&mut self)
        ensures
            final(self).cancelled(),
            final(self).reply_tx() == old(self).reply_tx(),
            final(self).token() == old(self).token(),
    {
        self.cancellation_token.cancel();
        self.cancelled = true;
    }

    /// Whether cancellation was requested.
    #[verifier::when_used_as_spec(cancelled)]
    pub fn is_cancelled(&self) -> (cancelled: bool)
        ensures
            cancelled == self.cancelled(),
    {
        self.cancelled
    }

    /// Where the session stands.
    #[verifier::when_used_as_spec(spec_phase)]
    pub fn phase(&self, busy: bool) -> (phase: Phase)
        ensures
            phase == self.spec_phase(busy),
    {
        if !self.cancelled {
            Phase::Running
        } else if busy {
            Phase::Draining
        } else {
            Phase::Terminated
        }
    }

    /// Whether the loop goes on: until cancellation was requested and no
    /// reply can come any more.
    pub fn is_running(&self, busy: bool) -> (running: bool)
        ensures
            running == (self.phase(busy) != Phase::Terminated),
            running == (!self.cancelled() || busy),
    {
        !self.cancelled || busy
    }

    /// What the loop awaits now. Replies are awaited always; once
    /// cancellation was requested, nothing else is, so that no new request
    /// is read.
    pub fn sources(&self) -> (sources: Sources)
        ensures
            sources == (Sources {
                cancellation: !self.cancelled(),
                replies: true,
                device: !self.cancelled(),
            }),
    {
        Sources { cancellation: !self.cancelled, replies: true, device: !self.cancelled }
    }

    /// Writes into `buffer` the reply that reports `error` for the request
    /// `unique`.
    fn write_error(buffer: &mut [u8], unique: u64, error: Errno) -> (action: Action)
        requires
            old(buffer)@.len() >= 16,
        ensures
            action == Action::Write(16),
            final(buffer)@.len() == old(buffer)@.len(),
            final(buffer)@ == splice(old(buffer)@, 0, error_frame(unique, error)),
            fuse_out_header::decode(final(buffer)@, 0) == (fuse_out_header {
                len: 16,
                error: (-error.code()) as i32,
                unique,
            }),
    {
        broadcast use group_le_len;

        let mut reply = Reply::new(unique, error.to_wire(), None);
        proof {
            reply.lemma_wire_header();
        }
        let count = reply.write(buffer);
        Action::Write(count)
    }

    /// What [`Inner::on_read`] does: `pre` and `before` are the state and the
    /// buffer at the start, `post` and `after` at the end.
    pub open spec fn read_handled(
        pre: Inner,
        post: Inner,
        before: Seq<u8>,
        after: Seq<u8>,
        read_result: Result<usize, Option<i32>>,
        action: Action,
    ) -> bool {
        &&& post.reply_tx() == pre.reply_tx()
        &&& post.token() == pre.token()
        &&& match read_result {
            Err(raw) => {
                &&& after == before
                &&& post.cancelled() == (pre.cancelled() || is_unmounted(raw))
                &&& action == if is_transient(raw) || is_unmounted(raw) {
                    Action::Continue
                } else {
                    Action::Fail(Errno::from_raw_os_error(raw))
                }
            },
            Ok(n) => {
                let frame = before.take(n as int);
                &&& post.cancelled() == pre.cancelled()
                &&& if n > before.len() {
                    // more than the buffer holds cannot have been read
                    &&& action == Action::Fail(Errno::EIO)
                    &&& after == before
                } else if Request::well_formed(frame) {
                    &&& after == before
                    &&& action matches Action::Forward(request)
                    &&& request.header == Request::header_of(frame)
                    &&& request.operation.parsed_from(request.header, Request::body_of(frame))
                } else if n >= 40 {
                    // a buffer that holds a request header holds a reply header
                    &&& action == Action::Write(16)
                    &&& after == splice(
                        before,
                        0,
                        error_frame(Request::header_of(frame).unique, Errno::EIO),
                    )
                    &&& fuse_out_header::decode(after, 0) == (fuse_out_header {
                        len: 16,
                        error: -5i32,
                        unique: Request::header_of(frame).unique,
                    })
                } else {
                    &&& action == Action::Continue
                    &&& after == before
                }
            },
        }
    }

    /// What [`Inner::on_fs_reply`] does: `before` is the buffer at the start,
    /// `after` at the end.
    pub open spec fn reply_handled(
        before: Seq<u8>,
        after: Seq<u8>,
        reply: Option<Reply>,
        action: Action,
    ) -> bool {
        match reply {
            None => action == Action::Fail(Errno::EIO) && after == before,
            Some(reply) => if reply.wire().len() <= before.len() && reply.wire().len()
                <= u32::MAX {
                &&& action == Action::Write(reply.wire().len() as usize)
                &&& after == splice(before, 0, reply.wire())
                &&& fuse_out_header::decode(after, 0) == reply.wire_header()
                &&& fuse_out_header::decode(after, 0).len == reply.wire().len()
            } else if before.len() >= 16 {
                &&& action == Action::Write(16)
                &&& after == splice(before, 0, error_frame(reply.header.unique, Errno::EIO))
                &&& fuse_out_header::decode(after, 0) == (fuse_out_header {
                    len: 16,
                    error: -5i32,
                    unique: reply.header.unique,
                })
            } else {
                // there is no room even for the header of a reply
                &&& action == Action::Fail(Errno::EIO)
                &&& after == before
            },
        }
    }

    /// What is to be done after a read from the device into `buffer` ended.
    ///
    /// Where the read failed: nothing is to be done for an error that is no
    /// reason to stop; where the mount is gone, cancellation is requested,
    /// so that the session drains; every other error ends the session.
    ///
    /// Where `n` bytes were read, they are one frame. A frame that is well
    /// formed is forwarded as a request. One that is not is answered with
    /// `EIO`, where it is long enough to hold a header, whose `unique` says
    /// which request it was; a shorter one is dropped.
    pub fn on_read(
        &mut self,
        buffer: &mut [u8],
        read_result: Result<usize, Option<i32>>,
    ) -> (action: Action)
        ensures
            final(buffer)@.len() == old(buffer)@.len(),
            Self::read_handled(
                *old(self),
                *final(self),
                old(buffer)@,
                final(buffer)@,
                read_result,
                action,
            ),
    {
        match read_result {
            Err(raw) => {
                match Errno::from_raw(raw) {
                    // The request was taken back before it was read
                    Some(Errno::ENOENT) => Action::Continue,
                    // Interrupted by syscall, retry
                    Some(Errno::EINTR) => Action::Continue,
                    // Explicit "try again"
                    Some(Errno::EAGAIN) => Action::Continue,
                    // Unmounted
                    Some(Errno::ENODEV) => {
                        self.cancel();
                        Action::Continue
                    },
                    // Unhandled
                    Some(e) => Action::Fail(e),
                    None => Action::Fail(Errno::EIO),
                }
            },
            Ok(n) => {
                if n > buffer.len() {
                    return Action::Fail(Errno::EIO);
                }
                let ghost before = buffer@;
                let (frame, _rest) = buffer.split_at_mut(n);
                let parsed = Request::parse(frame, &self.inbound_fs_reply_tx);
                proof {
                    assert(buffer@ =~= before);
                    assert(before.subrange(0, n as int) == before.take(n as int));
                }
                match parsed {
                    Ok(request) => Action::Forward(request),
                    Err(_e) => {
                        if n < 40 {
                            return Action::Continue;
                        }
                        let header = fuse_in_header::read_at(buffer, 0);
                        proof {
                            assert(fuse_in_header::decode(before, 0) == fuse_in_header::decode(
                                before.take(n as int),
                                0,
                            ));
                        }
                        Self::write_error(buffer, header.unique, Errno::EIO)
                    },
                }
            },
        }
    }

    /// What is to be done after the filesystem handed a reply, or, with
    /// `None`, after the channel of the replies was found closed.
    ///
    /// A reply is written into `buffer`, and is then to be written to the
    /// device. A reply that does not fit into `buffer`, or is longer than a
    /// reply can say of itself, is not written: in its place the request is
    /// answered with `EIO`, or, where `buffer` has no room for that either, the
    /// session ends. A closed channel ends the session with `EIO`.
    pub fn on_fs_reply(&mut self, buffer: &mut [u8], reply: Option<Reply>) -> (action: Action)
        ensures
            final(buffer)@.len() == old(buffer)@.len(),
            final(self).cancelled() == old(self).cancelled(),
            final(self).reply_tx() == old(self).reply_tx(),
            final(self).token() == old(self).token(),
            Self::reply_handled(old(buffer)@, final(buffer)@, reply, action),
    {
        match reply {
            None => Action::Fail(Errno::EIO),
            Some(mut reply) => {
                let needed = reply.wire_len();
                if needed <= u32::MAX as u64 && needed <= buffer.len() as u64 {
                    let count = reply.write(buffer);
                    Action::Write(count)
                } else if buffer.len() >= 16 {
                    Self::write_error(buffer, reply.header.unique, Errno::EIO)
                } else {
                    Action::Fail(Errno::EIO)
                }
            },
        }
    }

    /// What is to be done after a request was handed to the channel of the
    /// filesystem: nothing, or, where the channel did not take it, the end
    /// of the session with `EIO`.
    pub open spec fn after_forwarding(delivered: bool) -> Action {
        if delivered {
            Action::Continue
        } else {
            Action::Fail(Errno::EIO)
        }
    }

    /// What is to be done after a write of `count` bytes to the device ended.
    /// The device takes a reply in one piece: a write that took fewer bytes,
    /// or failed, ends the session.
    pub open spec fn after_writing(count: usize, result: Result<usize, Option<i32>>) -> Action {
        match result {
            Ok(written) => if written == count {
                Action::Continue
            } else {
                Action::Fail(Errno::EIO)
            },
            Err(raw) => Action::Fail(Errno::from_raw_os_error(raw)),
        }
    }

    /// What is to be done after a request was handed to the channel of the
    /// filesystem.
    pub fn on_forwarded(&self, delivered: bool) -> (action: Action)
        ensures
            action == Self::after_forwarding(delivered),
    {
        if delivered {
            Action::Continue
        } else {
            Action::Fail(Errno::EIO)
        }
    }

    /// What is to be done after a write of `count` bytes to the device ended.
    pub fn on_written(&self, count: usize, result: Result<usize, Option<i32>>) -> (action: Action)
        ensures
            action == Self::after_writing(count, result),
    {
        match result {
            Ok(written) => {
                if written == count {
                    Action::Continue
                } else {
                    Action::Fail(Errno::EIO)
                }
            },
            Err(raw) => Action::Fail(Errno::from_raw_os_error(raw)),
        }
    }

    /// What is to be done after `event`: the state moves on, and the action
    /// is the one that the function for the kind of event names.
    pub fn step(&mut self, buffer: &mut [u8], event: Event) -> (action: Action)
        ensures
            final(buffer)@.len() == old(buffer)@.len(),
            old(self).cancelled() ==> final(self).cancelled(),
            final(self).reply_tx() == old(self).reply_tx(),
            final(self).token() == old(self).token(),
            action matches Action::Write(count) ==> {
                &&& count <= final(buffer)@.len()
                &&& fuse_out_header::decode(final(buffer)@, 0).len == count
            },
            match event {
                Event::Cancelled => {
                    &&& action == Action::Continue
                    &&& final(self).cancelled()
                    &&& final(buffer)@ == old(buffer)@
                },
                Event::Reply(reply) => {
                    &&& final(self).cancelled() == old(self).cancelled()
                    &&& Self::reply_handled(old(buffer)@, final(buffer)@, reply, action)
                },
                Event::Read(read_result) => Self::read_handled(
                    *old(self),
                    *final(self),
                    old(buffer)@,
                    final(buffer)@,
                    read_result,
                    action,
                ),
                Event::Forwarded(delivered) => {
                    &&& final(self).cancelled() == old(self).cancelled()
                    &&& final(buffer)@ == old(buffer)@
                    &&& action == Self::after_forwarding(delivered)
                },
                Event::Written { count, result } => {
                    &&& final(self).cancelled() == old(self).cancelled()
                    &&& final(buffer)@ == old(buffer)@
                    &&& action == Self::after_writing(count, result)
                },
            },
    {
        match event {
            Event::Cancelled => {
                self.cancel();
                Action::Continue
            },
            Event::Reply(reply) => self.on_fs_reply(buffer, reply),
            Event::Read(read_result) => self.on_read(buffer, read_result),
            Event::Forwarded(delivered) => self.on_forwarded(delivered),
            Event::Written { count, result } => self.on_written(count, result),
        }
    }
}

} // verus!
