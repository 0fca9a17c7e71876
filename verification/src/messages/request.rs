//! The requests of the kernel, and the parser that reads them from a frame.
//!
//! A frame is a [`fuse_in_header`] and a body. By the opcode in the header the
//! body holds the argument record of the operation, then what has no fixed
//! length: names, each ended by a NUL, or bytes whose number the argument
//! states. For each operation `accepts` says which bodies are read, and
//! `parsed_from` what is read from one.
use crate::error::Errno;
use crate::messages::argument::{after_c_str, get_string, get_vec, has_nul, name_of};
use crate::messages::codec::{group_le_len, le_u64, lemma_u64_bytes_round_trip};
use crate::messages::fuse_abi::{
    fuse_access_in, fuse_batch_forget_in, fuse_bmap_in, fuse_copy_file_range_in, fuse_create_in,
    fuse_fallocate_in, fuse_flush_in, fuse_forget_in, fuse_forget_one, fuse_fsync_in,
    fuse_getattr_in, fuse_getxattr_in, fuse_in_header, fuse_init_in, fuse_interrupt_in,
    fuse_ioctl_in, fuse_link_in, fuse_lk_in, fuse_lseek_in, fuse_mkdir_in, fuse_mknod_in,
    fuse_opcode, fuse_open_in, fuse_out_header, fuse_poll_in, fuse_read_in, fuse_release_in,
    fuse_removemapping_in, fuse_removemapping_one, fuse_rename2_in, fuse_rename_in,
    fuse_setattr_in, fuse_setupmapping_in, fuse_setxattr_in, fuse_statx_in, fuse_syncfs_in,
    fuse_write_in,
};
use crate::messages::reply::{IWrite, NotifyReply, Reply};
use crate::ReplyTx;
use std::sync::Arc;
use vstd::prelude::*;
use vstd::slice::{slice_subrange, slice_to_vec};

verus! {

/// A request of the kernel: its header, the operation that it asks for, and
/// the sender on which the reply goes back to the session that read it.
pub struct Request {
    pub header: fuse_in_header,
    pub operation: Operation,
    pub reply_to: ReplyTx,
}

impl Request {
    /// A request for `op` that no kernel sent: all of its header is zero but
    /// the opcode.
    pub fn from_op(op: Operation, reply_to: &ReplyTx) -> (request: Self)
        ensures
            request.operation == op,
            request.header == (fuse_in_header {
                len: 0,
                opcode: op.opcode(),
                unique: 0,
                nodeid: 0,
                uid: 0,
                gid: 0,
                pid: 0,
                padding: 0,
            }),
    {
        Self {
            header: fuse_in_header {
                uid: 0,
                gid: 0,
                pid: 0,
                len: 0,
                nodeid: 0,
                unique: 0,
                padding: 0,
                opcode: op.get_opcode(),
            },
            operation: op,
            reply_to: reply_to.clone(),
        }
    }

    /// The header that a frame starts with.
    pub open spec fn header_of(frame: Seq<u8>) -> fuse_in_header {
        fuse_in_header::decode(frame, 0)
    }

    /// The body of a frame: what stands between the header and the end that
    /// the header states.
    pub open spec fn body_of(frame: Seq<u8>) -> Seq<u8> {
        frame.subrange(40, Self::header_of(frame).len as int)
    }

    /// The frames that are parsed: a whole header, whose length takes in the
    /// header and does not go beyond the frame, with an opcode that is known,
    /// and a body that the operation accepts.
    pub open spec fn well_formed(frame: Seq<u8>) -> bool {
        &&& frame.len() >= 40
        &&& 40 <= Self::header_of(frame).len <= frame.len()
        &&& Operation::accepts(Self::header_of(frame).opcode, Self::body_of(frame))
    }

    /// Reads a request from `buffer`, which holds one frame as the kernel
    /// handed it over, and attaches a sender of the channel of `reply_to`.
    ///
    /// Every frame that is not well formed is refused with `EIO`. The buffer
    /// is left as it is.
    pub fn parse(buffer: &mut [u8], reply_to: &ReplyTx) -> (r: Result<Self, Errno>)
        ensures
            final(buffer)@ == old(buffer)@,
            r is Ok <==> Self::well_formed(old(buffer)@),
            r matches Ok(request) ==> {
                &&& request.header == Self::header_of(old(buffer)@)
                &&& request.operation.parsed_from(request.header, Self::body_of(old(buffer)@))
            },
            r matches Err(e) ==> e == Errno::EIO,
    {
        let frame: &[u8] = buffer;
        if frame.len() < 40 {
            return Err(Errno::EIO);
        }
        let header = fuse_in_header::read_at(frame, 0);
        let len = header.len as usize;
        if len < 40 || len > frame.len() {
            return Err(Errno::EIO);
        }
        let body = slice_subrange(frame, 40, len);
        match Operation::parse(&header, body) {
            None => Err(Errno::EIO),
            Some(operation) => Ok(Request { header, operation, reply_to: reply_to.clone() }),
        }
    }

    /// The reply that tells the kernel that the request failed with `error`.
    pub fn error_reply(&self, error: Errno) -> (reply: Reply)
        ensures
            reply.header.len == 0,
            reply.header.error == -error.code(),
            reply.header.unique == self.header.unique,
            reply.operation is None,
    {
        Reply {
            header: fuse_out_header { error: error.to_wire(), len: 0, unique: self.header.unique },
            operation: None,
        }
    }

    /// The reply that tells the kernel that the request succeeded, and hands
    /// nothing back.
    pub fn ok_reply(&self) -> (reply: Reply)
        ensures
            reply.header == (fuse_out_header { len: 0, error: 0, unique: self.header.unique }),
            reply.operation is None,
    {
        Reply::from(self)
    }
}

/// Look up a directory entry by name and get its attributes
pub struct Lookup {
    pub name: String,
}

impl Lookup {
    /// The body holds a NUL terminated name.
    pub open spec fn accepts(body: Seq<u8>) -> bool {
        has_nul(body)
    }

    /// The name is the one that the body starts with.
    pub open spec fn parsed_from(&self, body: Seq<u8>) -> bool {
        self.name@ == name_of(body)
    }

    /// Reads the request from the body of a frame.
    pub fn parse(body: &[u8]) -> (r: Option<Self>)
        ensures
            r is Some <==> Self::accepts(body@),
            r matches Some(op) ==> op.parsed_from(body@),
    {
        let (name, _rest) = get_string(body)?;
        Some(Lookup { name })
    }
}

/// Forget about an inode.
///
/// `nlookup` is the number of lookups that were made on the inode. A filesystem
/// that gives its inodes a lifetime counts a reference for each lookup and takes
/// them back on each forget; one that does not may ignore the request.
///
/// On unmount, not every referenced inode is sure to be forgotten.
pub struct Forget {
    pub arg: fuse_forget_in,
}

impl Forget {
    /// The body is long enough for the argument.
    pub open spec fn accepts(body: Seq<u8>) -> bool {
        body.len() >= 8
    }

    /// The argument is what the body starts with.
    pub open spec fn parsed_from(&self, body: Seq<u8>) -> bool {
        self.arg == fuse_forget_in::decode(body, 0)
    }

    /// Reads the request from the body of a frame.
    pub fn parse(body: &[u8]) -> (r: Option<Self>)
        ensures
            r is Some <==> Self::accepts(body@),
            r matches Some(op) ==> op.parsed_from(body@),
    {
        if body.len() < 8 {
            return None;
        }
        Some(Forget { arg: fuse_forget_in::read_at(body, 0) })
    }

    /// The argument that was read is the start of the body, byte for byte.
    pub proof fn lemma_parse_exact(&self, body: Seq<u8>)
        requires
            Self::accepts(body),
            self.parsed_from(body),
        ensures
            self.arg.wire() == body.subrange(0, 8),
    {
        fuse_forget_in::lemma_wire_decode(body, 0);
    }
}

/// Get attributes for an inode
pub struct GetAttr {
    pub arg: fuse_getattr_in,
}

impl GetAttr {
    /// The body is long enough for the argument.
    pub open spec fn accepts(body: Seq<u8>) -> bool {
        body.len() >= 16
    }

    /// The argument is what the body starts with.
    pub open spec fn parsed_from(&self, body: Seq<u8>) -> bool {
        self.arg == fuse_getattr_in::decode(body, 0)
    }

    /// Reads the request from the body of a frame.
    pub fn parse(body: &[u8]) -> (r: Option<Self>)
        ensures
            r is Some <==> Self::accepts(body@),
            r matches Some(op) ==> op.parsed_from(body@),
    {
        if body.len() < 16 {
            return None;
        }
        Some(GetAttr { arg: fuse_getattr_in::read_at(body, 0) })
    }

    /// The argument that was read is the start of the body, byte for byte.
    pub proof fn lemma_parse_exact(&self, body: Seq<u8>)
        requires
            Self::accepts(body),
            self.parsed_from(body),
        ensures
            self.arg.wire() == body.subrange(0, 16),
    {
        fuse_getattr_in::lemma_wire_decode(body, 0);
    }
}

/// Set attributes for an inode
pub struct SetAttr {
    pub arg: fuse_setattr_in,
}

impl SetAttr {
    /// The body is long enough for the argument.
    pub open spec fn accepts(body: Seq<u8>) -> bool {
        body.len() >= 88
    }

    /// The argument is what the body starts with.
    pub open spec fn parsed_from(&self, body: Seq<u8>) -> bool {
        self.arg == fuse_setattr_in::decode(body, 0)
    }

    /// Reads the request from the body of a frame.
    pub fn parse(body: &[u8]) -> (r: Option<Self>)
        ensures
            r is Some <==> Self::accepts(body@),
            r matches Some(op) ==> op.parsed_from(body@),
    {
        if body.len() < 88 {
            return None;
        }
        Some(SetAttr { arg: fuse_setattr_in::read_at(body, 0) })
    }

    /// The argument that was read is the start of the body, byte for byte.
    pub proof fn lemma_parse_exact(&self, body: Seq<u8>)
        requires
            Self::accepts(body),
            self.parsed_from(body),
        ensures
            self.arg.wire() == body.subrange(0, 88),
    {
        fuse_setattr_in::lemma_wire_decode(body, 0);
    }
}

/// Read a symbolic link
pub struct ReadLink {}

/// Create a symbolic link
#[derive(Debug)]
pub struct SymLink {
    pub name: String,
    pub target: String,
}

impl SymLink {
    /// The body holds two NUL terminated names, one behind the other.
    pub open spec fn accepts(body: Seq<u8>) -> bool {
        has_nul(body) && has_nul(after_c_str(body))
    }

    /// The name is the first of the two, the target the second.
    pub open spec fn parsed_from(&self, body: Seq<u8>) -> bool {
        &&& self.name@ == name_of(body)
        &&& self.target@ == name_of(after_c_str(body))
    }

    /// Reads the request from the body of a frame.
    pub fn parse(body: &[u8]) -> (r: Option<Self>)
        ensures
            r is Some <==> Self::accepts(body@),
            r matches Some(op) ==> op.parsed_from(body@),
    {
        let (name, rest) = get_string(body)?;
        let (target, _rest) = get_string(rest)?;
        Some(SymLink { name, target })
    }
}

/// Create a regular file, block device, fifo, or socket node
pub struct MkNod {
    pub arg: fuse_mknod_in,
    pub name: String,
}

impl MkNod {
    /// The body is long enough for the argument, and a NUL terminated name
    /// follows it.
    pub open spec fn accepts(body: Seq<u8>) -> bool {
        body.len() >= 16 && has_nul(body.skip(16))
    }

    /// The argument is what the body starts with, and the name is the one
    /// that follows it.
    pub open spec fn parsed_from(&self, body: Seq<u8>) -> bool {
        &&& self.arg == fuse_mknod_in::decode(body, 0)
        &&& self.name@ == name_of(body.skip(16))
    }

    /// Reads the request from the body of a frame.
    pub fn parse(body: &[u8]) -> (r: Option<Self>)
        ensures
            r is Some <==> Self::accepts(body@),
            r matches Some(op) ==> op.parsed_from(body@),
    {
        if body.len() < 16 {
            return None;
        }
        let arg = fuse_mknod_in::read_at(body, 0);
        let rest = slice_subrange(body, 16, body.len());
        let (name, _rest) = get_string(rest)?;
        Some(MkNod { arg, name })
    }
}

/// Make a directory
pub struct MkDir {
    pub arg: fuse_mkdir_in,
    pub name: String,
}

impl MkDir {
    /// The body is long enough for the argument, and a NUL terminated name
    /// follows it.
    pub open spec fn accepts(body: Seq<u8>) -> bool {
        body.len() >= 8 && has_nul(body.skip(8))
    }

    /// The argument is what the body starts with, and the name is the one
    /// that follows it.
    pub open spec fn parsed_from(&self, body: Seq<u8>) -> bool {
        &&& self.arg == fuse_mkdir_in::decode(body, 0)
        &&& self.name@ == name_of(body.skip(8))
    }

    /// Reads the request from the body of a frame.
    pub fn parse(body: &[u8]) -> (r: Option<Self>)
        ensures
            r is Some <==> Self::accepts(body@),
            r matches Some(op) ==> op.parsed_from(body@),
    {
        if body.len() < 8 {
            return None;
        }
        let arg = fuse_mkdir_in::read_at(body, 0);
        let rest = slice_subrange(body, 8, body.len());
        let (name, _rest) = get_string(rest)?;
        Some(MkDir { arg, name })
    }
}

/// Remove a file
pub struct Unlink {
    pub name: String,
}

impl Unlink {
    /// The body holds a NUL terminated name.
    pub open spec fn accepts(body: Seq<u8>) -> bool {
        has_nul(body)
    }

    /// The name is the one that the body starts with.
    pub open spec fn parsed_from(&self, body: Seq<u8>) -> bool {
        self.name@ == name_of(body)
    }

    /// Reads the request from the body of a frame.
    pub fn parse(body: &[u8]) -> (r: Option<Self>)
        ensures
            r is Some <==> Self::accepts(body@),
            r matches Some(op) ==> op.parsed_from(body@),
    {
        let (name, _rest) = get_string(body)?;
        Some(Unlink { name })
    }
}

/// Remove a directory
pub struct RmDir {
    pub name: String,
}

impl RmDir {
    /// The body holds a NUL terminated name.
    pub open spec fn accepts(body: Seq<u8>) -> bool {
        has_nul(body)
    }

    /// The name is the one that the body starts with.
    pub open spec fn parsed_from(&self, body: Seq<u8>) -> bool {
        self.name@ == name_of(body)
    }

    /// Reads the request from the body of a frame.
    pub fn parse(body: &[u8]) -> (r: Option<Self>)
        ensures
            r is Some <==> Self::accepts(body@),
            r matches Some(op) ==> op.parsed_from(body@),
    {
        let (name, _rest) = get_string(body)?;
        Some(RmDir { name })
    }
}

/// Rename a file or directory
pub struct Rename {
    pub arg: fuse_rename_in,
    pub name: String,
    pub newname: String,
}

impl Rename {
    /// The body is long enough for the argument, and two NUL terminated
    /// names follow it.
    pub open spec fn accepts(body: Seq<u8>) -> bool {
        &&& body.len() >= 8
        &&& has_nul(body.skip(8))
        &&& has_nul(after_c_str(body.skip(8)))
    }

    /// The argument is what the body starts with; the name is the first of
    /// the two names that follow, the new name the second.
    pub open spec fn parsed_from(&self, body: Seq<u8>) -> bool {
        &&& self.arg == fuse_rename_in::decode(body, 0)
        &&& self.name@ == name_of(body.skip(8))
        &&& self.newname@ == name_of(after_c_str(body.skip(8)))
    }

    /// Reads the request from the body of a frame.
    pub fn parse(body: &[u8]) -> (r: Option<Self>)
        ensures
            r is Some <==> Self::accepts(body@),
            r matches Some(op) ==> op.parsed_from(body@),
    {
        if body.len() < 8 {
            return None;
        }
        let arg = fuse_rename_in::read_at(body, 0);
        let rest = slice_subrange(body, 8, body.len());
        let (name, rest) = get_string(rest)?;
        let (newname, _rest) = get_string(rest)?;
        Some(Rename { arg, name, newname })
    }
}

/// Create a hard link
pub struct Link {
    pub arg: fuse_link_in,
    pub name: String,
}

impl Link {
    /// The body is long enough for the argument, and a NUL terminated name
    /// follows it.
    pub open spec fn accepts(body: Seq<u8>) -> bool {
        body.len() >= 8 && has_nul(body.skip(8))
    }

    /// The argument is what the body starts with, and the name is the one
    /// that follows it.
    pub open spec fn parsed_from(&self, body: Seq<u8>) -> bool {
        &&& self.arg == fuse_link_in::decode(body, 0)
        &&& self.name@ == name_of(body.skip(8))
    }

    /// Reads the request from the body of a frame.
    pub fn parse(body: &[u8]) -> (r: Option<Self>)
        ensures
            r is Some <==> Self::accepts(body@),
            r matches Some(op) ==> op.parsed_from(body@),
    {
        if body.len() < 8 {
            return None;
        }
        let arg = fuse_link_in::read_at(body, 0);
        let rest = slice_subrange(body, 8, body.len());
        let (name, _rest) = get_string(rest)?;
        Some(Link { arg, name })
    }
}

/// Open a file
pub struct Open {
    pub arg: fuse_open_in,
}

impl Open {
    /// The body is long enough for the argument.
    pub open spec fn accepts(body: Seq<u8>) -> bool {
        body.len() >= 8
    }

    /// The argument is what the body starts with.
    pub open spec fn parsed_from(&self, body: Seq<u8>) -> bool {
        self.arg == fuse_open_in::decode(body, 0)
    }

    /// Reads the request from the body of a frame.
    pub fn parse(body: &[u8]) -> (r: Option<Self>)
        ensures
            r is Some <==> Self::accepts(body@),
            r matches Some(op) ==> op.parsed_from(body@),
    {
        if body.len() < 8 {
            return None;
        }
        Some(Open { arg: fuse_open_in::read_at(body, 0) })
    }

    /// The argument that was read is the start of the body, byte for byte.
    pub proof fn lemma_parse_exact(&self, body: Seq<u8>)
        requires
            Self::accepts(body),
            self.parsed_from(body),
        ensures
            self.arg.wire() == body.subrange(0, 8),
    {
        fuse_open_in::lemma_wire_decode(body, 0);
    }
}

/// Read bytes from a file
pub struct Read {
    pub arg: fuse_read_in,
}

impl Read {
    /// The body is long enough for the argument.
    pub open spec fn accepts(body: Seq<u8>) -> bool {
        body.len() >= 40
    }

    /// The argument is what the body starts with.
    pub open spec fn parsed_from(&self, body: Seq<u8>) -> bool {
        self.arg == fuse_read_in::decode(body, 0)
    }

    /// Reads the request from the body of a frame.
    pub fn parse(body: &[u8]) -> (r: Option<Self>)
        ensures
            r is Some <==> Self::accepts(body@),
            r matches Some(op) ==> op.parsed_from(body@),
    {
        if body.len() < 40 {
            return None;
        }
        Some(Read { arg: fuse_read_in::read_at(body, 0) })
    }

    /// The argument that was read is the start of the body, byte for byte.
    pub proof fn lemma_parse_exact(&self, body: Seq<u8>)
        requires
            Self::accepts(body),
            self.parsed_from(body),
        ensures
            self.arg.wire() == body.subrange(0, 40),
    {
        fuse_read_in::lemma_wire_decode(body, 0);
    }
}

/// Write bytes to a file
pub struct Write {
    pub arg: fuse_write_in,
    /// The bytes to write. They are shared, so that the filesystem can hand
    /// them from task to task without copying them.
    pub data: Arc<Vec<u8>>,
}

impl Write {
    /// The body is long enough for the argument and for the `size` bytes of
    /// data that the argument announces.
    pub open spec fn accepts(body: Seq<u8>) -> bool {
        &&& body.len() >= 40
        &&& fuse_write_in::decode(body, 0).size <= body.len() - 40
    }

    /// The argument is what the body starts with, and the data are the
    /// `size` bytes that follow it.
    pub open spec fn parsed_from(&self, body: Seq<u8>) -> bool {
        &&& self.arg == fuse_write_in::decode(body, 0)
        &&& self.data@ == body.subrange(40, 40 + self.arg.size)
    }

    /// Reads the request from the body of a frame.
    pub fn parse(body: &[u8]) -> (r: Option<Self>)
        ensures
            r is Some <==> Self::accepts(body@),
            r matches Some(op) ==> op.parsed_from(body@),
    {
        if body.len() < 40 {
            return None;
        }
        let arg = fuse_write_in::read_at(body, 0);
        let rest = slice_subrange(body, 40, body.len());
        let data = get_vec(rest, arg.size as usize)?;
        proof {
            assert(rest@.take(arg.size as int) =~= body@.subrange(40, 40 + arg.size));
        }
        Some(Write { arg, data: Arc::new(data) })
    }
}

/// Get filesystem statistics
pub struct StatFs {}

/// Release an open file
pub struct Release {
    pub arg: fuse_release_in,
}

impl Release {
    /// The body is long enough for the argument.
    pub open spec fn accepts(body: Seq<u8>) -> bool {
        body.len() >= 24
    }

    /// The argument is what the body starts with.
    pub open spec fn parsed_from(&self, body: Seq<u8>) -> bool {
        self.arg == fuse_release_in::decode(body, 0)
    }

    /// Reads the request from the body of a frame.
    pub fn parse(body: &[u8]) -> (r: Option<Self>)
        ensures
            r is Some <==> Self::accepts(body@),
            r matches Some(op) ==> op.parsed_from(body@),
    {
        if body.len() < 24 {
            return None;
        }
        Some(Release { arg: fuse_release_in::read_at(body, 0) })
    }

    /// The argument that was read is the start of the body, byte for byte.
    pub proof fn lemma_parse_exact(&self, body: Seq<u8>)
        requires
            Self::accepts(body),
            self.parsed_from(body),
        ensures
            self.arg.wire() == body.subrange(0, 24),
    {
        fuse_release_in::lemma_wire_decode(body, 0);
    }
}

/// Synchronize file contents
pub struct FSync {
    pub arg: fuse_fsync_in,
}

impl FSync {
    /// The body is long enough for the argument.
    pub open spec fn accepts(body: Seq<u8>) -> bool {
        body.len() >= 16
    }

    /// The argument is what the body starts with.
    pub open spec fn parsed_from(&self, body: Seq<u8>) -> bool {
        self.arg == fuse_fsync_in::decode(body, 0)
    }

    /// Reads the request from the body of a frame.
    pub fn parse(body: &[u8]) -> (r: Option<Self>)
        ensures
            r is Some <==> Self::accepts(body@),
            r matches Some(op) ==> op.parsed_from(body@),
    {
        if body.len() < 16 {
            return None;
        }
        Some(FSync { arg: fuse_fsync_in::read_at(body, 0) })
    }

    /// The argument that was read is the start of the body, byte for byte.
    pub proof fn lemma_parse_exact(&self, body: Seq<u8>)
        requires
            Self::accepts(body),
            self.parsed_from(body),
        ensures
            self.arg.wire() == body.subrange(0, 16),
    {
        fuse_fsync_in::lemma_wire_decode(body, 0);
    }
}

/// Set an extended attribute
pub struct SetXAttr {
    pub arg: fuse_setxattr_in,
    pub name: String,
    /// The value. It is shared, so that the filesystem can hand it from task
    /// to task without copying it.
    pub value: Arc<Vec<u8>>,
}

impl SetXAttr {
    /// The body is long enough for the argument; a NUL terminated name
    /// follows it, and then the `size` bytes of the value that the argument
    /// announces.
    pub open spec fn accepts(body: Seq<u8>) -> bool {
        &&& body.len() >= 8
        &&& has_nul(body.skip(8))
        &&& fuse_setxattr_in::decode(body, 0).size <= after_c_str(body.skip(8)).len()
    }

    /// The argument is what the body starts with, the name follows it, and
    /// the value are the `size` bytes behind the name.
    pub open spec fn parsed_from(&self, body: Seq<u8>) -> bool {
        &&& self.arg == fuse_setxattr_in::decode(body, 0)
        &&& self.name@ == name_of(body.skip(8))
        &&& self.value@ == after_c_str(body.skip(8)).take(self.arg.size as int)
    }

    /// Reads the request from the body of a frame.
    pub fn parse(body: &[u8]) -> (r: Option<Self>)
        ensures
            r is Some <==> Self::accepts(body@),
            r matches Some(op) ==> op.parsed_from(body@),
    {
        if body.len() < 8 {
            return None;
        }
        let arg = fuse_setxattr_in::read_at(body, 0);
        let rest = slice_subrange(body, 8, body.len());
        let (name, rest) = get_string(rest)?;
        let value = get_vec(rest, arg.size as usize)?;
        Some(SetXAttr { arg, name, value: Arc::new(value) })
    }
}

/// Get an extended attribute
pub struct GetXAttr {
    pub arg: fuse_getxattr_in,
    pub name: String,
}

impl GetXAttr {
    /// The body is long enough for the argument, and a NUL terminated name
    /// follows it.
    pub open spec fn accepts(body: Seq<u8>) -> bool {
        body.len() >= 8 && has_nul(body.skip(8))
    }

    /// The argument is what the body starts with, and the name is the one
    /// that follows it.
    pub open spec fn parsed_from(&self, body: Seq<u8>) -> bool {
        &&& self.arg == fuse_getxattr_in::decode(body, 0)
        &&& self.name@ == name_of(body.skip(8))
    }

    /// Reads the request from the body of a frame.
    pub fn parse(body: &[u8]) -> (r: Option<Self>)
        ensures
            r is Some <==> Self::accepts(body@),
            r matches Some(op) ==> op.parsed_from(body@),
    {
        if body.len() < 8 {
            return None;
        }
        let arg = fuse_getxattr_in::read_at(body, 0);
        let rest = slice_subrange(body, 8, body.len());
        let (name, _rest) = get_string(rest)?;
        Some(GetXAttr { arg, name })
    }
}

/// List extended attribute names
pub struct ListXAttr {
    pub arg: fuse_getxattr_in,
}

impl ListXAttr {
    /// The body is long enough for the argument.
    pub open spec fn accepts(body: Seq<u8>) -> bool {
        body.len() >= 8
    }

    /// The argument is what the body starts with.
    pub open spec fn parsed_from(&self, body: Seq<u8>) -> bool {
        self.arg == fuse_getxattr_in::decode(body, 0)
    }

    /// Reads the request from the body of a frame.
    pub fn parse(body: &[u8]) -> (r: Option<Self>)
        ensures
            r is Some <==> Self::accepts(body@),
            r matches Some(op) ==> op.parsed_from(body@),
    {
        if body.len() < 8 {
            return None;
        }
        Some(ListXAttr { arg: fuse_getxattr_in::read_at(body, 0) })
    }

    /// The argument that was read is the start of the body, byte for byte.
    pub proof fn lemma_parse_exact(&self, body: Seq<u8>)
        requires
            Self::accepts(body),
            self.parsed_from(body),
        ensures
            self.arg.wire() == body.subrange(0, 8),
    {
        fuse_getxattr_in::lemma_wire_decode(body, 0);
    }
}

/// Remove an extended attribute
pub struct RemoveXAttr {
    pub name: String,
}

impl RemoveXAttr {
    /// The body holds a NUL terminated name.
    pub open spec fn accepts(body: Seq<u8>) -> bool {
        has_nul(body)
    }

    /// The name is the one that the body starts with.
    pub open spec fn parsed_from(&self, body: Seq<u8>) -> bool {
        self.name@ == name_of(body)
    }

    /// Reads the request from the body of a frame.
    pub fn parse(body: &[u8]) -> (r: Option<Self>)
        ensures
            r is Some <==> Self::accepts(body@),
            r matches Some(op) ==> op.parsed_from(body@),
    {
        let (name, _rest) = get_string(body)?;
        Some(RemoveXAttr { name })
    }
}

/// Flush a file to disk
pub struct Flush {
    pub arg: fuse_flush_in,
}

impl Flush {
    /// The body is long enough for the argument.
    pub open spec fn accepts(body: Seq<u8>) -> bool {
        body.len() >= 24
    }

    /// The argument is what the body starts with.
    pub open spec fn parsed_from(&self, body: Seq<u8>) -> bool {
        self.arg == fuse_flush_in::decode(body, 0)
    }

    /// Reads the request from the body of a frame.
    pub fn parse(body: &[u8]) -> (r: Option<Self>)
        ensures
            r is Some <==> Self::accepts(body@),
            r matches Some(op) ==> op.parsed_from(body@),
    {
        if body.len() < 24 {
            return None;
        }
        Some(Flush { arg: fuse_flush_in::read_at(body, 0) })
    }

    /// The argument that was read is the start of the body, byte for byte.
    pub proof fn lemma_parse_exact(&self, body: Seq<u8>)
        requires
            Self::accepts(body),
            self.parsed_from(body),
        ensures
            self.arg.wire() == body.subrange(0, 24),
    {
        fuse_flush_in::lemma_wire_decode(body, 0);
    }
}

/// Initialize a filesystem
pub struct Init {
    pub arg: fuse_init_in,
}

impl Init {
    /// The body is long enough for the argument.
    pub open spec fn accepts(body: Seq<u8>) -> bool {
        body.len() >= 16
    }

    /// The argument is what the body starts with.
    pub open spec fn parsed_from(&self, body: Seq<u8>) -> bool {
        self.arg == fuse_init_in::decode(body, 0)
    }

    /// Reads the request from the body of a frame.
    pub fn parse(body: &[u8]) -> (r: Option<Self>)
        ensures
            r is Some <==> Self::accepts(body@),
            r matches Some(op) ==> op.parsed_from(body@),
    {
        if body.len() < 16 {
            return None;
        }
        Some(Init { arg: fuse_init_in::read_at(body, 0) })
    }

    /// The argument that was read is the start of the body, byte for byte.
    pub proof fn lemma_parse_exact(&self, body: Seq<u8>)
        requires
            Self::accepts(body),
            self.parsed_from(body),
        ensures
            self.arg.wire() == body.subrange(0, 16),
    {
        fuse_init_in::lemma_wire_decode(body, 0);
    }
}

/// Open a directory
pub struct OpenDir {
    pub arg: fuse_open_in,
}

impl OpenDir {
    /// The body is long enough for the argument.
    pub open spec fn accepts(body: Seq<u8>) -> bool {
        body.len() >= 8
    }

    /// The argument is what the body starts with.
    pub open spec fn parsed_from(&self, body: Seq<u8>) -> bool {
        self.arg == fuse_open_in::decode(body, 0)
    }

    /// Reads the request from the body of a frame.
    pub fn parse(body: &[u8]) -> (r: Option<Self>)
        ensures
            r is Some <==> Self::accepts(body@),
            r matches Some(op) ==> op.parsed_from(body@),
    {
        if body.len() < 8 {
            return None;
        }
        Some(OpenDir { arg: fuse_open_in::read_at(body, 0) })
    }

    /// The argument that was read is the start of the body, byte for byte.
    pub proof fn lemma_parse_exact(&self, body: Seq<u8>)
        requires
            Self::accepts(body),
            self.parsed_from(body),
        ensures
            self.arg.wire() == body.subrange(0, 8),
    {
        fuse_open_in::lemma_wire_decode(body, 0);
    }
}

/// Read a directory
pub struct ReadDir {
    pub arg: fuse_read_in,
}

impl ReadDir {
    /// The body is long enough for the argument.
    pub open spec fn accepts(body: Seq<u8>) -> bool {
        body.len() >= 40
    }

    /// The argument is what the body starts with.
    pub open spec fn parsed_from(&self, body: Seq<u8>) -> bool {
        self.arg == fuse_read_in::decode(body, 0)
    }

    /// Reads the request from the body of a frame.
    pub fn parse(body: &[u8]) -> (r: Option<Self>)
        ensures
            r is Some <==> Self::accepts(body@),
            r matches Some(op) ==> op.parsed_from(body@),
    {
        if body.len() < 40 {
            return None;
        }
        Some(ReadDir { arg: fuse_read_in::read_at(body, 0) })
    }

    /// The argument that was read is the start of the body, byte for byte.
    pub proof fn lemma_parse_exact(&self, body: Seq<u8>)
        requires
            Self::accepts(body),
            self.parsed_from(body),
        ensures
            self.arg.wire() == body.subrange(0, 40),
    {
        fuse_read_in::lemma_wire_decode(body, 0);
    }
}

/// Release an open directory
///
/// For every [`OpenDir`] there is one [`ReleaseDir`]
pub struct ReleaseDir {
    pub arg: fuse_release_in,
}

impl ReleaseDir {
    /// The body is long enough for the argument.
    pub open spec fn accepts(body: Seq<u8>) -> bool {
        body.len() >= 24
    }

    /// The argument is what the body starts with.
    pub open spec fn parsed_from(&self, body: Seq<u8>) -> bool {
        self.arg == fuse_release_in::decode(body, 0)
    }

    /// Reads the request from the body of a frame.
    pub fn parse(body: &[u8]) -> (r: Option<Self>)
        ensures
            r is Some <==> Self::accepts(body@),
            r matches Some(op) ==> op.parsed_from(body@),
    {
        if body.len() < 24 {
            return None;
        }
        Some(ReleaseDir { arg: fuse_release_in::read_at(body, 0) })
    }

    /// The argument that was read is the start of the body, byte for byte.
    pub proof fn lemma_parse_exact(&self, body: Seq<u8>)
        requires
            Self::accepts(body),
            self.parsed_from(body),
        ensures
            self.arg.wire() == body.subrange(0, 24),
    {
        fuse_release_in::lemma_wire_decode(body, 0);
    }
}

/// Synchronize directory contents
pub struct FSyncDir {
    pub arg: fuse_fsync_in,
}

impl FSyncDir {
    /// The body is long enough for the argument.
    pub open spec fn accepts(body: Seq<u8>) -> bool {
        body.len() >= 16
    }

    /// The argument is what the body starts with.
    pub open spec fn parsed_from(&self, body: Seq<u8>) -> bool {
        self.arg == fuse_fsync_in::decode(body, 0)
    }

    /// Reads the request from the body of a frame.
    pub fn parse(body: &[u8]) -> (r: Option<Self>)
        ensures
            r is Some <==> Self::accepts(body@),
            r matches Some(op) ==> op.parsed_from(body@),
    {
        if body.len() < 16 {
            return None;
        }
        Some(FSyncDir { arg: fuse_fsync_in::read_at(body, 0) })
    }

    /// The argument that was read is the start of the body, byte for byte.
    pub proof fn lemma_parse_exact(&self, body: Seq<u8>)
        requires
            Self::accepts(body),
            self.parsed_from(body),
        ensures
            self.arg.wire() == body.subrange(0, 16),
    {
        fuse_fsync_in::lemma_wire_decode(body, 0);
    }
}

/// Test for a POSIX lock
pub struct GetLk {
    pub arg: fuse_lk_in,
}

impl GetLk {
    /// The body is long enough for the argument.
    pub open spec fn accepts(body: Seq<u8>) -> bool {
        body.len() >= 48
    }

    /// The argument is what the body starts with.
    pub open spec fn parsed_from(&self, body: Seq<u8>) -> bool {
        self.arg == fuse_lk_in::decode(body, 0)
    }

    /// Reads the request from the body of a frame.
    pub fn parse(body: &[u8]) -> (r: Option<Self>)
        ensures
            r is Some <==> Self::accepts(body@),
            r matches Some(op) ==> op.parsed_from(body@),
    {
        if body.len() < 48 {
            return None;
        }
        Some(GetLk { arg: fuse_lk_in::read_at(body, 0) })
    }

    /// The argument that was read is the start of the body, byte for byte.
    pub proof fn lemma_parse_exact(&self, body: Seq<u8>)
        requires
            Self::accepts(body),
            self.parsed_from(body),
        ensures
            self.arg.wire() == body.subrange(0, 48),
    {
        fuse_lk_in::lemma_wire_decode(body, 0);
    }
}

/// Acquire, modify or release a POSIX lock
pub struct SetLk {
    pub arg: fuse_lk_in,
}

impl SetLk {
    /// The body is long enough for the argument.
    pub open spec fn accepts(body: Seq<u8>) -> bool {
        body.len() >= 48
    }

    /// The argument is what the body starts with.
    pub open spec fn parsed_from(&self, body: Seq<u8>) -> bool {
        self.arg == fuse_lk_in::decode(body, 0)
    }

    /// Reads the request from the body of a frame.
    pub fn parse(body: &[u8]) -> (r: Option<Self>)
        ensures
            r is Some <==> Self::accepts(body@),
            r matches Some(op) ==> op.parsed_from(body@),
    {
        if body.len() < 48 {
            return None;
        }
        Some(SetLk { arg: fuse_lk_in::read_at(body, 0) })
    }

    /// The argument that was read is the start of the body, byte for byte.
    pub proof fn lemma_parse_exact(&self, body: Seq<u8>)
        requires
            Self::accepts(body),
            self.parsed_from(body),
        ensures
            self.arg.wire() == body.subrange(0, 48),
    {
        fuse_lk_in::lemma_wire_decode(body, 0);
    }
}

/// Acquire, modify or release a POSIX lock, and wait for it
pub struct SetLkW {
    pub arg: fuse_lk_in,
}

impl SetLkW {
    /// The body is long enough for the argument.
    pub open spec fn accepts(body: Seq<u8>) -> bool {
        body.len() >= 48
    }

    /// The argument is what the body starts with.
    pub open spec fn parsed_from(&self, body: Seq<u8>) -> bool {
        self.arg == fuse_lk_in::decode(body, 0)
    }

    /// Reads the request from the body of a frame.
    pub fn parse(body: &[u8]) -> (r: Option<Self>)
        ensures
            r is Some <==> Self::accepts(body@),
            r matches Some(op) ==> op.parsed_from(body@),
    {
        if body.len() < 48 {
            return None;
        }
        Some(SetLkW { arg: fuse_lk_in::read_at(body, 0) })
    }

    /// The argument that was read is the start of the body, byte for byte.
    pub proof fn lemma_parse_exact(&self, body: Seq<u8>)
        requires
            Self::accepts(body),
            self.parsed_from(body),
        ensures
            self.arg.wire() == body.subrange(0, 48),
    {
        fuse_lk_in::lemma_wire_decode(body, 0);
    }
}

/// Check file access permissions
pub struct Access {
    pub arg: fuse_access_in,
}

impl Access {
    /// The body is long enough for the argument.
    pub open spec fn accepts(body: Seq<u8>) -> bool {
        body.len() >= 8
    }

    /// The argument is what the body starts with.
    pub open spec fn parsed_from(&self, body: Seq<u8>) -> bool {
        self.arg == fuse_access_in::decode(body, 0)
    }

    /// Reads the request from the body of a frame.
    pub fn parse(body: &[u8]) -> (r: Option<Self>)
        ensures
            r is Some <==> Self::accepts(body@),
            r matches Some(op) ==> op.parsed_from(body@),
    {
        if body.len() < 8 {
            return None;
        }
        Some(Access { arg: fuse_access_in::read_at(body, 0) })
    }

    /// The argument that was read is the start of the body, byte for byte.
    pub proof fn lemma_parse_exact(&self, body: Seq<u8>)
        requires
            Self::accepts(body),
            self.parsed_from(body),
        ensures
            self.arg.wire() == body.subrange(0, 8),
    {
        fuse_access_in::lemma_wire_decode(body, 0);
    }
}

/// Create and open a file
#[derive(Debug)]
pub struct Create {
    pub arg: fuse_create_in,
    pub name: String,
}

impl Create {
    /// The body is long enough for the argument, and a NUL terminated name
    /// follows it.
    pub open spec fn accepts(body: Seq<u8>) -> bool {
        body.len() >= 16 && has_nul(body.skip(16))
    }

    /// The argument is what the body starts with, and the name is the one
    /// that follows it.
    pub open spec fn parsed_from(&self, body: Seq<u8>) -> bool {
        &&& self.arg == fuse_create_in::decode(body, 0)
        &&& self.name@ == name_of(body.skip(16))
    }

    /// Reads the request from the body of a frame.
    pub fn parse(body: &[u8]) -> (r: Option<Self>)
        ensures
            r is Some <==> Self::accepts(body@),
            r matches Some(op) ==> op.parsed_from(body@),
    {
        if body.len() < 16 {
            return None;
        }
        let arg = fuse_create_in::read_at(body, 0);
        let rest = slice_subrange(body, 16, body.len());
        let (name, _rest) = get_string(rest)?;
        Some(Create { arg, name })
    }
}

/// A request was interrupted: `unique` names it.
///
/// The filesystem may ignore the interrupt, or honour it by answering the
/// request that was interrupted with `EINTR`. Where it cannot find that request,
/// it should wait for a while, or for some more requests, and then answer the
/// interrupt with `EAGAIN`: the kernel then sends it again, if the request is
/// still waiting.
pub struct Interrupt {
    pub arg: fuse_interrupt_in,
}

impl Interrupt {
    /// The body is long enough for the argument.
    pub open spec fn accepts(body: Seq<u8>) -> bool {
        body.len() >= 8
    }

    /// The argument is what the body starts with.
    pub open spec fn parsed_from(&self, body: Seq<u8>) -> bool {
        self.arg == fuse_interrupt_in::decode(body, 0)
    }

    /// Reads the request from the body of a frame.
    pub fn parse(body: &[u8]) -> (r: Option<Self>)
        ensures
            r is Some <==> Self::accepts(body@),
            r matches Some(op) ==> op.parsed_from(body@),
    {
        if body.len() < 8 {
            return None;
        }
        Some(Interrupt { arg: fuse_interrupt_in::read_at(body, 0) })
    }

    /// The argument that was read is the start of the body, byte for byte.
    pub proof fn lemma_parse_exact(&self, body: Seq<u8>)
        requires
            Self::accepts(body),
            self.parsed_from(body),
        ensures
            self.arg.wire() == body.subrange(0, 8),
    {
        fuse_interrupt_in::lemma_wire_decode(body, 0);
    }
}

/// Map the block index within file to block index within the device.
///
/// This makes sense only for filesystems that a block device backs.
pub struct BMap {
    pub arg: fuse_bmap_in,
}

impl BMap {
    /// The body is long enough for the argument.
    pub open spec fn accepts(body: Seq<u8>) -> bool {
        body.len() >= 16
    }

    /// The argument is what the body starts with.
    pub open spec fn parsed_from(&self, body: Seq<u8>) -> bool {
        self.arg == fuse_bmap_in::decode(body, 0)
    }

    /// Reads the request from the body of a frame.
    pub fn parse(body: &[u8]) -> (r: Option<Self>)
        ensures
            r is Some <==> Self::accepts(body@),
            r matches Some(op) ==> op.parsed_from(body@),
    {
        if body.len() < 16 {
            return None;
        }
        Some(BMap { arg: fuse_bmap_in::read_at(body, 0) })
    }

    /// The argument that was read is the start of the body, byte for byte.
    pub proof fn lemma_parse_exact(&self, body: Seq<u8>)
        requires
            Self::accepts(body),
            self.parsed_from(body),
        ensures
            self.arg.wire() == body.subrange(0, 16),
    {
        fuse_bmap_in::lemma_wire_decode(body, 0);
    }
}

/// Clean up the filesystem
pub struct Destroy {}

/// Control the device
pub struct IoCtl {
    pub arg: fuse_ioctl_in,
    pub data: Vec<u8>,
}

impl IoCtl {
    /// The body is long enough for the argument.
    pub open spec fn accepts(body: Seq<u8>) -> bool {
        body.len() >= 32
    }

    /// The argument is what the body starts with, and the data are all that
    /// follows it.
    pub open spec fn parsed_from(&self, body: Seq<u8>) -> bool {
        &&& self.arg == fuse_ioctl_in::decode(body, 0)
        &&& self.data@ == body.skip(32)
    }

    /// Reads the request from the body of a frame.
    pub fn parse(body: &[u8]) -> (r: Option<Self>)
        ensures
            r is Some <==> Self::accepts(body@),
            r matches Some(op) ==> op.parsed_from(body@),
    {
        if body.len() < 32 {
            return None;
        }
        let arg = fuse_ioctl_in::read_at(body, 0);
        let data = slice_to_vec(slice_subrange(body, 32, body.len()));
        Some(IoCtl { arg, data })
    }
}

/// Poll the filesystem for change to the file
pub struct Poll {
    pub arg: fuse_poll_in,
}

impl Poll {
    /// The body is long enough for the argument.
    pub open spec fn accepts(body: Seq<u8>) -> bool {
        body.len() >= 24
    }

    /// The argument is what the body starts with.
    pub open spec fn parsed_from(&self, body: Seq<u8>) -> bool {
        self.arg == fuse_poll_in::decode(body, 0)
    }

    /// Reads the request from the body of a frame.
    pub fn parse(body: &[u8]) -> (r: Option<Self>)
        ensures
            r is Some <==> Self::accepts(body@),
            r matches Some(op) ==> op.parsed_from(body@),
    {
        if body.len() < 24 {
            return None;
        }
        Some(Poll { arg: fuse_poll_in::read_at(body, 0) })
    }

    /// The argument that was read is the start of the body, byte for byte.
    pub proof fn lemma_parse_exact(&self, body: Seq<u8>)
        requires
            Self::accepts(body),
            self.parsed_from(body),
        ensures
            self.arg.wire() == body.subrange(0, 24),
    {
        fuse_poll_in::lemma_wire_decode(body, 0);
    }
}

/// Batch forget
pub struct BatchForget {
    pub arg: fuse_batch_forget_in,
    pub nodes: Vec<fuse_forget_one>,
}

impl BatchForget {
    /// The body is long enough for the argument and for the `count` records
    /// that the argument announces.
    pub open spec fn accepts(body: Seq<u8>) -> bool {
        &&& body.len() >= 8
        &&& 8 + 16 * fuse_batch_forget_in::decode(body, 0).count <= body.len()
    }

    /// The argument is what the body starts with, and the nodes are the
    /// `count` records that follow it, in their order.
    pub open spec fn parsed_from(&self, body: Seq<u8>) -> bool {
        &&& self.arg == fuse_batch_forget_in::decode(body, 0)
        &&& self.nodes@.len() == self.arg.count
        &&& forall|i: int|
            0 <= i < self.nodes@.len() ==> #[trigger] self.nodes@[i] == fuse_forget_one::decode(
                body,
                8 + 16 * i,
            )
    }

    /// Reads the request from the body of a frame.
    pub fn parse(body: &[u8]) -> (r: Option<Self>)
        ensures
            r is Some <==> Self::accepts(body@),
            r matches Some(op) ==> op.parsed_from(body@),
    {
        let len = body.len();
        if len < 8 {
            return None;
        }
        let arg = fuse_batch_forget_in::read_at(body, 0);
        let count = arg.count as usize;
        if count > (len - 8) / 16 {
            return None;
        }
        let mut nodes: Vec<fuse_forget_one> = Vec::new();
        let mut i: usize = 0;
        while i < count
            invariant
                i <= count,
                len == body@.len(),
                8 + 16 * count <= len,
                nodes@.len() == i,
                forall|k: int|
                    0 <= k < i ==> #[trigger] nodes@[k] == fuse_forget_one::decode(
                        body@,
                        8 + 16 * k,
                    ),
            decreases count - i,
        {
            nodes.push(fuse_forget_one::read_at(body, 8 + 16 * i));
            i += 1;
        }
        Some(BatchForget { arg, nodes })
    }
}

/// Pre-allocate or deallocate space to a file
pub struct FAllocate {
    pub arg: fuse_fallocate_in,
}

impl FAllocate {
    /// The body is long enough for the argument.
    pub open spec fn accepts(body: Seq<u8>) -> bool {
        body.len() >= 32
    }

    /// The argument is what the body starts with.
    pub open spec fn parsed_from(&self, body: Seq<u8>) -> bool {
        self.arg == fuse_fallocate_in::decode(body, 0)
    }

    /// Reads the request from the body of a frame.
    pub fn parse(body: &[u8]) -> (r: Option<Self>)
        ensures
            r is Some <==> Self::accepts(body@),
            r matches Some(op) ==> op.parsed_from(body@),
    {
        if body.len() < 32 {
            return None;
        }
        Some(FAllocate { arg: fuse_fallocate_in::read_at(body, 0) })
    }

    /// The argument that was read is the start of the body, byte for byte.
    pub proof fn lemma_parse_exact(&self, body: Seq<u8>)
        requires
            Self::accepts(body),
            self.parsed_from(body),
        ensures
            self.arg.wire() == body.subrange(0, 32),
    {
        fuse_fallocate_in::lemma_wire_decode(body, 0);
    }
}

/// Read directory
pub struct ReadDirPlus {
    pub arg: fuse_read_in,
}

impl ReadDirPlus {
    /// The body is long enough for the argument.
    pub open spec fn accepts(body: Seq<u8>) -> bool {
        body.len() >= 40
    }

    /// The argument is what the body starts with.
    pub open spec fn parsed_from(&self, body: Seq<u8>) -> bool {
        self.arg == fuse_read_in::decode(body, 0)
    }

    /// Reads the request from the body of a frame.
    pub fn parse(body: &[u8]) -> (r: Option<Self>)
        ensures
            r is Some <==> Self::accepts(body@),
            r matches Some(op) ==> op.parsed_from(body@),
    {
        if body.len() < 40 {
            return None;
        }
        Some(ReadDirPlus { arg: fuse_read_in::read_at(body, 0) })
    }

    /// The argument that was read is the start of the body, byte for byte.
    pub proof fn lemma_parse_exact(&self, body: Seq<u8>)
        requires
            Self::accepts(body),
            self.parsed_from(body),
        ensures
            self.arg.wire() == body.subrange(0, 40),
    {
        fuse_read_in::lemma_wire_decode(body, 0);
    }
}

/// Rename a file
pub struct Rename2 {
    pub arg: fuse_rename2_in,
    pub name: String,
    pub newname: String,
    pub old_parent: u64,
}

impl Rename2 {
    /// The body is long enough for the argument, and two NUL terminated
    /// names follow it.
    pub open spec fn accepts(body: Seq<u8>) -> bool {
        &&& body.len() >= 16
        &&& has_nul(body.skip(16))
        &&& has_nul(after_c_str(body.skip(16)))
    }

    /// The argument is what the body starts with; the name is the first of
    /// the two names that follow, the new name the second. The old parent is the node that
    /// the request is about.
    pub open spec fn parsed_from(&self, body: Seq<u8>, old_parent: u64) -> bool {
        &&& self.arg == fuse_rename2_in::decode(body, 0)
        &&& self.name@ == name_of(body.skip(16))
        &&& self.newname@ == name_of(after_c_str(body.skip(16)))
        &&& self.old_parent == old_parent
    }

    /// Reads the request from the body of a frame.
    pub fn parse(body: &[u8], old_parent: u64) -> (r: Option<Self>)
        ensures
            r is Some <==> Self::accepts(body@),
            r matches Some(op) ==> op.parsed_from(body@, old_parent),
    {
        if body.len() < 16 {
            return None;
        }
        let arg = fuse_rename2_in::read_at(body, 0);
        let rest = slice_subrange(body, 16, body.len());
        let (name, rest) = get_string(rest)?;
        let (newname, _rest) = get_string(rest)?;
        Some(Rename2 { arg, name, newname, old_parent })
    }
}

/// Reposition read/write file offset
pub struct LSeek {
    pub arg: fuse_lseek_in,
}

impl LSeek {
    /// The body is long enough for the argument.
    pub open spec fn accepts(body: Seq<u8>) -> bool {
        body.len() >= 24
    }

    /// The argument is what the body starts with.
    pub open spec fn parsed_from(&self, body: Seq<u8>) -> bool {
        self.arg == fuse_lseek_in::decode(body, 0)
    }

    /// Reads the request from the body of a frame.
    pub fn parse(body: &[u8]) -> (r: Option<Self>)
        ensures
            r is Some <==> Self::accepts(body@),
            r matches Some(op) ==> op.parsed_from(body@),
    {
        if body.len() < 24 {
            return None;
        }
        Some(LSeek { arg: fuse_lseek_in::read_at(body, 0) })
    }

    /// The argument that was read is the start of the body, byte for byte.
    pub proof fn lemma_parse_exact(&self, body: Seq<u8>)
        requires
            Self::accepts(body),
            self.parsed_from(body),
        ensures
            self.arg.wire() == body.subrange(0, 24),
    {
        fuse_lseek_in::lemma_wire_decode(body, 0);
    }
}

/// Copy the specified range from the source inode to the destination inode
pub struct CopyFileRange {
    pub arg: fuse_copy_file_range_in,
}

impl CopyFileRange {
    /// The body is long enough for the argument.
    pub open spec fn accepts(body: Seq<u8>) -> bool {
        body.len() >= 56
    }

    /// The argument is what the body starts with.
    pub open spec fn parsed_from(&self, body: Seq<u8>) -> bool {
        self.arg == fuse_copy_file_range_in::decode(body, 0)
    }

    /// Reads the request from the body of a frame.
    pub fn parse(body: &[u8]) -> (r: Option<Self>)
        ensures
            r is Some <==> Self::accepts(body@),
            r matches Some(op) ==> op.parsed_from(body@),
    {
        if body.len() < 56 {
            return None;
        }
        Some(CopyFileRange { arg: fuse_copy_file_range_in::read_at(body, 0) })
    }

    /// The argument that was read is the start of the body, byte for byte.
    pub proof fn lemma_parse_exact(&self, body: Seq<u8>)
        requires
            Self::accepts(body),
            self.parsed_from(body),
        ensures
            self.arg.wire() == body.subrange(0, 56),
    {
        fuse_copy_file_range_in::lemma_wire_decode(body, 0);
    }
}

/// Map a range of a file into memory
pub struct SetupMapping {
    pub arg: fuse_setupmapping_in,
}

impl SetupMapping {
    /// The body is long enough for the argument.
    pub open spec fn accepts(body: Seq<u8>) -> bool {
        body.len() >= 40
    }

    /// The argument is what the body starts with.
    pub open spec fn parsed_from(&self, body: Seq<u8>) -> bool {
        self.arg == fuse_setupmapping_in::decode(body, 0)
    }

    /// Reads the request from the body of a frame.
    pub fn parse(body: &[u8]) -> (r: Option<Self>)
        ensures
            r is Some <==> Self::accepts(body@),
            r matches Some(op) ==> op.parsed_from(body@),
    {
        if body.len() < 40 {
            return None;
        }
        Some(SetupMapping { arg: fuse_setupmapping_in::read_at(body, 0) })
    }

    /// The argument that was read is the start of the body, byte for byte.
    pub proof fn lemma_parse_exact(&self, body: Seq<u8>)
        requires
            Self::accepts(body),
            self.parsed_from(body),
        ensures
            self.arg.wire() == body.subrange(0, 40),
    {
        fuse_setupmapping_in::lemma_wire_decode(body, 0);
    }
}

impl Default for SetupMapping {
    /// Every field zero.
    fn default() -> (r: Self)
        ensures
            r.arg == fuse_setupmapping_in::zero(),
    {
        SetupMapping { arg: fuse_setupmapping_in::default() }
    }
}

/// Remove mappings of a file
pub struct RemoveMapping {
    pub arg: fuse_removemapping_in,
    pub mappings: Vec<fuse_removemapping_one>,
}

impl RemoveMapping {
    /// The body is long enough for the argument.
    pub open spec fn accepts(body: Seq<u8>) -> bool {
        body.len() >= 4
    }

    /// The argument is what the body starts with. The mappings are not read
    /// from the frame: the list is empty.
    pub open spec fn parsed_from(&self, body: Seq<u8>) -> bool {
        &&& self.arg == fuse_removemapping_in::decode(body, 0)
        &&& self.mappings@.len() == 0
    }

    /// Reads the request from the body of a frame.
    pub fn parse(body: &[u8]) -> (r: Option<Self>)
        ensures
            r is Some <==> Self::accepts(body@),
            r matches Some(op) ==> op.parsed_from(body@),
    {
        if body.len() < 4 {
            return None;
        }
        Some(RemoveMapping { arg: fuse_removemapping_in::read_at(body, 0), mappings: Vec::new() })
    }
}

impl Default for RemoveMapping {
    /// No mappings, and a count of zero.
    fn default() -> (r: Self)
        ensures
            r.arg == fuse_removemapping_in::zero(),
            r.mappings@.len() == 0,
    {
        RemoveMapping { arg: fuse_removemapping_in::default(), mappings: Vec::new() }
    }
}

/// Synchronize the filesystem
pub struct SyncFs {
    pub arg: fuse_syncfs_in,
}

impl SyncFs {
    /// The request as it is handed on: its argument is not read from the
    /// frame, and every field of it is zero.
    pub open spec fn parsed_from(&self, body: Seq<u8>) -> bool {
        self.arg == fuse_syncfs_in::zero()
    }
}

impl Default for SyncFs {
    /// Every field zero.
    fn default() -> (r: Self)
        ensures
            r.arg == fuse_syncfs_in::zero(),
    {
        SyncFs { arg: fuse_syncfs_in::default() }
    }
}

/// Create an unnamed temporary file
pub struct TmpFile {
    pub arg: fuse_create_in,
}

impl TmpFile {
    /// The request as it is handed on: its argument is not read from the
    /// frame, and every field of it is zero.
    pub open spec fn parsed_from(&self, body: Seq<u8>) -> bool {
        self.arg == fuse_create_in::zero()
    }
}

impl Default for TmpFile {
    /// Every field zero.
    fn default() -> (r: Self)
        ensures
            r.arg == fuse_create_in::zero(),
    {
        TmpFile { arg: fuse_create_in::default() }
    }
}

/// Get attributes for an inode, as `statx` reports them
pub struct StatX {
    pub arg: fuse_statx_in,
}

impl StatX {
    /// The request as it is handed on: its argument is not read from the
    /// frame, and every field of it is zero.
    pub open spec fn parsed_from(&self, body: Seq<u8>) -> bool {
        self.arg == fuse_statx_in::zero()
    }
}

impl Default for StatX {
    /// Every field zero.
    fn default() -> (r: Self)
        ensures
            r.arg == fuse_statx_in::zero(),
    {
        StatX { arg: fuse_statx_in::default() }
    }
}

/// Initialize a character device in userspace
#[derive(Debug)]
pub struct CuseInit {
    pub arg: fuse_init_in,
}

impl CuseInit {
    /// The body is long enough for the argument.
    pub open spec fn accepts(body: Seq<u8>) -> bool {
        body.len() >= 16
    }

    /// The argument is what the body starts with.
    pub open spec fn parsed_from(&self, body: Seq<u8>) -> bool {
        self.arg == fuse_init_in::decode(body, 0)
    }

    /// Reads the request from the body of a frame.
    pub fn parse(body: &[u8]) -> (r: Option<Self>)
        ensures
            r is Some <==> Self::accepts(body@),
            r matches Some(op) ==> op.parsed_from(body@),
    {
        if body.len() < 16 {
            return None;
        }
        Some(CuseInit { arg: fuse_init_in::read_at(body, 0) })
    }

    /// The argument that was read is the start of the body, byte for byte.
    pub proof fn lemma_parse_exact(&self, body: Seq<u8>)
        requires
            Self::accepts(body),
            self.parsed_from(body),
        ensures
            self.arg.wire() == body.subrange(0, 16),
    {
        fuse_init_in::lemma_wire_decode(body, 0);
    }
}

/// What a request asks for, by its kind.
pub enum Operation {
    Lookup(Lookup),
    Forget(Forget),
    GetAttr(GetAttr),
    SetAttr(SetAttr),
    ReadLink(ReadLink),
    SymLink(SymLink),
    /// Create special or ordinary file
    MkNod(MkNod),
    MkDir(MkDir),
    Unlink(Unlink),
    RmDir(RmDir),
    Rename(Rename),
    Link(Link),
    Open(Open),
    Read(Read),
    Write(Write),
    StatFs(StatFs),
    Release(Release),
    FSync(FSync),
    SetXAttr(SetXAttr),
    GetXAttr(GetXAttr),
    ListXAttr(ListXAttr),
    RemoveXAttr(RemoveXAttr),
    Flush(Flush),
    Init(Init),
    OpenDir(OpenDir),
    ReadDir(ReadDir),
    ReleaseDir(ReleaseDir),
    FSyncDir(FSyncDir),
    GetLk(GetLk),
    SetLk(SetLk),
    SetLkW(SetLkW),
    Access(Access),
    Create(Create),
    Interrupt(Interrupt),
    BMap(BMap),
    Destroy(Destroy),
    IoCtl(IoCtl),
    Poll(Poll),
    NotifyReply(NotifyReply),
    BatchForget(BatchForget),
    FAllocate(FAllocate),
    ReadDirPlus(ReadDirPlus),
    Rename2(Rename2),
    LSeek(LSeek),
    CopyFileRange(CopyFileRange),
    SetupMapping(SetupMapping),
    RemoveMapping(RemoveMapping),
    SyncFs(SyncFs),
    TmpFile(TmpFile),
    StatX(StatX),
    CuseInit(CuseInit),
}

impl Operation {
    /// The number that stands for the operation in a request header.
    pub open spec fn opcode(&self) -> u32 {
        match self {
            Operation::Lookup(_) => 1,
            Operation::Forget(_) => 2,
            Operation::GetAttr(_) => 3,
            Operation::SetAttr(_) => 4,
            Operation::ReadLink(_) => 5,
            Operation::SymLink(_) => 6,
            Operation::MkNod(_) => 8,
            Operation::MkDir(_) => 9,
            Operation::Unlink(_) => 10,
            Operation::RmDir(_) => 11,
            Operation::Rename(_) => 12,
            Operation::Link(_) => 13,
            Operation::Open(_) => 14,
            Operation::Read(_) => 15,
            Operation::Write(_) => 16,
            Operation::StatFs(_) => 17,
            Operation::Release(_) => 18,
            Operation::FSync(_) => 20,
            Operation::SetXAttr(_) => 21,
            Operation::GetXAttr(_) => 22,
            Operation::ListXAttr(_) => 23,
            Operation::RemoveXAttr(_) => 24,
            Operation::Flush(_) => 25,
            Operation::Init(_) => 26,
            Operation::OpenDir(_) => 27,
            Operation::ReadDir(_) => 28,
            Operation::ReleaseDir(_) => 29,
            Operation::FSyncDir(_) => 30,
            Operation::GetLk(_) => 31,
            Operation::SetLk(_) => 32,
            Operation::SetLkW(_) => 33,
            Operation::Access(_) => 34,
            Operation::Create(_) => 35,
            Operation::Interrupt(_) => 36,
            Operation::BMap(_) => 37,
            Operation::Destroy(_) => 38,
            Operation::IoCtl(_) => 39,
            Operation::Poll(_) => 40,
            Operation::NotifyReply(_) => 41,
            Operation::BatchForget(_) => 42,
            Operation::FAllocate(_) => 43,
            Operation::ReadDirPlus(_) => 44,
            Operation::Rename2(_) => 45,
            Operation::LSeek(_) => 46,
            Operation::CopyFileRange(_) => 47,
            Operation::SetupMapping(_) => 48,
            Operation::RemoveMapping(_) => 49,
            Operation::SyncFs(_) => 50,
            Operation::TmpFile(_) => 51,
            Operation::StatX(_) => 52,
            Operation::CuseInit(_) => 4096,
        }
    }

    /// The number that stands for the operation in a request header.
    pub fn get_opcode(&self) -> (opcode: u32)
        ensures
            opcode == self.opcode(),
    {
        match self {
            Operation::Lookup(_) => 1,
            Operation::Forget(_) => 2,
            Operation::GetAttr(_) => 3,
            Operation::SetAttr(_) => 4,
            Operation::ReadLink(_) => 5,
            Operation::SymLink(_) => 6,
            Operation::MkNod(_) => 8,
            Operation::MkDir(_) => 9,
            Operation::Unlink(_) => 10,
            Operation::RmDir(_) => 11,
            Operation::Rename(_) => 12,
            Operation::Link(_) => 13,
            Operation::Open(_) => 14,
            Operation::Read(_) => 15,
            Operation::Write(_) => 16,
            Operation::StatFs(_) => 17,
            Operation::Release(_) => 18,
            Operation::FSync(_) => 20,
            Operation::SetXAttr(_) => 21,
            Operation::GetXAttr(_) => 22,
            Operation::ListXAttr(_) => 23,
            Operation::RemoveXAttr(_) => 24,
            Operation::Flush(_) => 25,
            Operation::Init(_) => 26,
            Operation::OpenDir(_) => 27,
            Operation::ReadDir(_) => 28,
            Operation::ReleaseDir(_) => 29,
            Operation::FSyncDir(_) => 30,
            Operation::GetLk(_) => 31,
            Operation::SetLk(_) => 32,
            Operation::SetLkW(_) => 33,
            Operation::Access(_) => 34,
            Operation::Create(_) => 35,
            Operation::Interrupt(_) => 36,
            Operation::BMap(_) => 37,
            Operation::Destroy(_) => 38,
            Operation::IoCtl(_) => 39,
            Operation::Poll(_) => 40,
            Operation::NotifyReply(_) => 41,
            Operation::BatchForget(_) => 42,
            Operation::FAllocate(_) => 43,
            Operation::ReadDirPlus(_) => 44,
            Operation::Rename2(_) => 45,
            Operation::LSeek(_) => 46,
            Operation::CopyFileRange(_) => 47,
            Operation::SetupMapping(_) => 48,
            Operation::RemoveMapping(_) => 49,
            Operation::SyncFs(_) => 50,
            Operation::TmpFile(_) => 51,
            Operation::StatX(_) => 52,
            Operation::CuseInit(_) => 4096,
        }
    }

    /// The bodies that are read for a request with the number `opcode`. None
    /// is, where the number stands for no operation.
    pub open spec fn accepts(opcode: u32, body: Seq<u8>) -> bool {
        match opcode {
            1 => Lookup::accepts(body),
            2 => Forget::accepts(body),
            3 => GetAttr::accepts(body),
            4 => SetAttr::accepts(body),
            5 => true,
            6 => SymLink::accepts(body),
            8 => MkNod::accepts(body),
            9 => MkDir::accepts(body),
            10 => Unlink::accepts(body),
            11 => RmDir::accepts(body),
            12 => Rename::accepts(body),
            13 => Link::accepts(body),
            14 => Open::accepts(body),
            15 => Read::accepts(body),
            16 => Write::accepts(body),
            17 => true,
            18 => Release::accepts(body),
            20 => FSync::accepts(body),
            21 => SetXAttr::accepts(body),
            22 => GetXAttr::accepts(body),
            23 => ListXAttr::accepts(body),
            24 => RemoveXAttr::accepts(body),
            25 => Flush::accepts(body),
            26 => Init::accepts(body),
            27 => OpenDir::accepts(body),
            28 => ReadDir::accepts(body),
            29 => ReleaseDir::accepts(body),
            30 => FSyncDir::accepts(body),
            31 => GetLk::accepts(body),
            32 => SetLk::accepts(body),
            33 => SetLkW::accepts(body),
            34 => Access::accepts(body),
            35 => Create::accepts(body),
            36 => Interrupt::accepts(body),
            37 => BMap::accepts(body),
            38 => true,
            39 => IoCtl::accepts(body),
            40 => Poll::accepts(body),
            41 => true,
            42 => BatchForget::accepts(body),
            43 => FAllocate::accepts(body),
            44 => ReadDirPlus::accepts(body),
            45 => Rename2::accepts(body),
            46 => LSeek::accepts(body),
            47 => CopyFileRange::accepts(body),
            48 => SetupMapping::accepts(body),
            49 => RemoveMapping::accepts(body),
            50 => true,
            51 => true,
            52 => true,
            4096 => CuseInit::accepts(body),
            _ => false,
        }
    }

    /// The operation is what is read from `body` for a request with the
    /// header `header`.
    pub open spec fn parsed_from(&self, header: fuse_in_header, body: Seq<u8>) -> bool {
        &&& self.opcode() == header.opcode
        &&& match self {
            Operation::Lookup(op) => op.parsed_from(body),
            Operation::Forget(op) => op.parsed_from(body),
            Operation::GetAttr(op) => op.parsed_from(body),
            Operation::SetAttr(op) => op.parsed_from(body),
            Operation::ReadLink(_) => true,
            Operation::SymLink(op) => op.parsed_from(body),
            Operation::MkNod(op) => op.parsed_from(body),
            Operation::MkDir(op) => op.parsed_from(body),
            Operation::Unlink(op) => op.parsed_from(body),
            Operation::RmDir(op) => op.parsed_from(body),
            Operation::Rename(op) => op.parsed_from(body),
            Operation::Link(op) => op.parsed_from(body),
            Operation::Open(op) => op.parsed_from(body),
            Operation::Read(op) => op.parsed_from(body),
            Operation::Write(op) => op.parsed_from(body),
            Operation::StatFs(_) => true,
            Operation::Release(op) => op.parsed_from(body),
            Operation::FSync(op) => op.parsed_from(body),
            Operation::SetXAttr(op) => op.parsed_from(body),
            Operation::GetXAttr(op) => op.parsed_from(body),
            Operation::ListXAttr(op) => op.parsed_from(body),
            Operation::RemoveXAttr(op) => op.parsed_from(body),
            Operation::Flush(op) => op.parsed_from(body),
            Operation::Init(op) => op.parsed_from(body),
            Operation::OpenDir(op) => op.parsed_from(body),
            Operation::ReadDir(op) => op.parsed_from(body),
            Operation::ReleaseDir(op) => op.parsed_from(body),
            Operation::FSyncDir(op) => op.parsed_from(body),
            Operation::GetLk(op) => op.parsed_from(body),
            Operation::SetLk(op) => op.parsed_from(body),
            Operation::SetLkW(op) => op.parsed_from(body),
            Operation::Access(op) => op.parsed_from(body),
            Operation::Create(op) => op.parsed_from(body),
            Operation::Interrupt(op) => op.parsed_from(body),
            Operation::BMap(op) => op.parsed_from(body),
            Operation::Destroy(_) => true,
            Operation::IoCtl(op) => op.parsed_from(body),
            Operation::Poll(op) => op.parsed_from(body),
            Operation::NotifyReply(_) => true,
            Operation::BatchForget(op) => op.parsed_from(body),
            Operation::FAllocate(op) => op.parsed_from(body),
            Operation::ReadDirPlus(op) => op.parsed_from(body),
            Operation::Rename2(op) => op.parsed_from(body, header.nodeid),
            Operation::LSeek(op) => op.parsed_from(body),
            Operation::CopyFileRange(op) => op.parsed_from(body),
            Operation::SetupMapping(op) => op.parsed_from(body),
            Operation::RemoveMapping(op) => op.parsed_from(body),
            Operation::SyncFs(op) => op.parsed_from(body),
            Operation::TmpFile(op) => op.parsed_from(body),
            Operation::StatX(op) => op.parsed_from(body),
            Operation::CuseInit(op) => op.parsed_from(body),
        }
    }

    /// Reads the operation of a request from the body of its frame.
    pub fn parse(header: &fuse_in_header, body: &[u8]) -> (r: Option<Self>)
        ensures
            r is Some <==> Self::accepts(header.opcode, body@),
            r matches Some(op) ==> op.parsed_from(*header, body@),
    {
        let opcode = match fuse_opcode::try_from(header.opcode) {
            Err(_e) => {
                return None;
            },
            Ok(opcode) => opcode,
        };
        Some(
            match opcode {
                fuse_opcode::FUSE_LOOKUP => Operation::Lookup(Lookup::parse(body)?),
                fuse_opcode::FUSE_FORGET => Operation::Forget(Forget::parse(body)?),
                fuse_opcode::FUSE_GETATTR => Operation::GetAttr(GetAttr::parse(body)?),
                fuse_opcode::FUSE_SETATTR => Operation::SetAttr(SetAttr::parse(body)?),
                fuse_opcode::FUSE_READLINK => Operation::ReadLink(ReadLink {}),
                fuse_opcode::FUSE_SYMLINK => Operation::SymLink(SymLink::parse(body)?),
                fuse_opcode::FUSE_MKNOD => Operation::MkNod(MkNod::parse(body)?),
                fuse_opcode::FUSE_MKDIR => Operation::MkDir(MkDir::parse(body)?),
                fuse_opcode::FUSE_UNLINK => Operation::Unlink(Unlink::parse(body)?),
                fuse_opcode::FUSE_RMDIR => Operation::RmDir(RmDir::parse(body)?),
                fuse_opcode::FUSE_RENAME => Operation::Rename(Rename::parse(body)?),
                fuse_opcode::FUSE_LINK => Operation::Link(Link::parse(body)?),
                fuse_opcode::FUSE_OPEN => Operation::Open(Open::parse(body)?),
                fuse_opcode::FUSE_READ => Operation::Read(Read::parse(body)?),
                fuse_opcode::FUSE_WRITE => Operation::Write(Write::parse(body)?),
                fuse_opcode::FUSE_STATFS => Operation::StatFs(StatFs {}),
                fuse_opcode::FUSE_RELEASE => Operation::Release(Release::parse(body)?),
                fuse_opcode::FUSE_FSYNC => Operation::FSync(FSync::parse(body)?),
                fuse_opcode::FUSE_SETXATTR => Operation::SetXAttr(SetXAttr::parse(body)?),
                fuse_opcode::FUSE_GETXATTR => Operation::GetXAttr(GetXAttr::parse(body)?),
                fuse_opcode::FUSE_LISTXATTR => Operation::ListXAttr(ListXAttr::parse(body)?),
                fuse_opcode::FUSE_REMOVEXATTR => Operation::RemoveXAttr(RemoveXAttr::parse(body)?),
                fuse_opcode::FUSE_FLUSH => Operation::Flush(Flush::parse(body)?),
                fuse_opcode::FUSE_INIT => Operation::Init(Init::parse(body)?),
                fuse_opcode::FUSE_OPENDIR => Operation::OpenDir(OpenDir::parse(body)?),
                fuse_opcode::FUSE_READDIR => Operation::ReadDir(ReadDir::parse(body)?),
                fuse_opcode::FUSE_RELEASEDIR => Operation::ReleaseDir(ReleaseDir::parse(body)?),
                fuse_opcode::FUSE_FSYNCDIR => Operation::FSyncDir(FSyncDir::parse(body)?),
                fuse_opcode::FUSE_GETLK => Operation::GetLk(GetLk::parse(body)?),
                fuse_opcode::FUSE_SETLK => Operation::SetLk(SetLk::parse(body)?),
                fuse_opcode::FUSE_SETLKW => Operation::SetLkW(SetLkW::parse(body)?),
                fuse_opcode::FUSE_ACCESS => Operation::Access(Access::parse(body)?),
                fuse_opcode::FUSE_CREATE => Operation::Create(Create::parse(body)?),
                fuse_opcode::FUSE_INTERRUPT => Operation::Interrupt(Interrupt::parse(body)?),
                fuse_opcode::FUSE_BMAP => Operation::BMap(BMap::parse(body)?),
                fuse_opcode::FUSE_DESTROY => Operation::Destroy(Destroy {}),
                fuse_opcode::FUSE_IOCTL => Operation::IoCtl(IoCtl::parse(body)?),
                fuse_opcode::FUSE_POLL => Operation::Poll(Poll::parse(body)?),
                fuse_opcode::FUSE_NOTIFY_REPLY => Operation::NotifyReply(NotifyReply {}),
                fuse_opcode::FUSE_BATCH_FORGET => {
                    Operation::BatchForget(BatchForget::parse(body)?)
                },
                fuse_opcode::FUSE_FALLOCATE => Operation::FAllocate(FAllocate::parse(body)?),
                fuse_opcode::FUSE_READDIRPLUS => Operation::ReadDirPlus(ReadDirPlus::parse(body)?),
                fuse_opcode::FUSE_RENAME2 => {
                    Operation::Rename2(Rename2::parse(body, header.nodeid)?)
                },
                fuse_opcode::FUSE_LSEEK => Operation::LSeek(LSeek::parse(body)?),
                fuse_opcode::FUSE_COPY_FILE_RANGE => {
                    Operation::CopyFileRange(CopyFileRange::parse(body)?)
                },
                fuse_opcode::FUSE_SETUPMAPPING => {
                    Operation::SetupMapping(SetupMapping::parse(body)?)
                },
                fuse_opcode::FUSE_REMOVEMAPPING => {
                    Operation::RemoveMapping(RemoveMapping::parse(body)?)
                },
                fuse_opcode::FUSE_SYNCFS => Operation::SyncFs(SyncFs::default()),
                fuse_opcode::FUSE_TMPFILE => Operation::TmpFile(TmpFile::default()),
                fuse_opcode::FUSE_STATX => Operation::StatX(StatX::default()),
                fuse_opcode::CUSE_INIT => Operation::CuseInit(CuseInit::parse(body)?),
            },
        )
    }
}

/// The header that was read is the start of the frame, byte for byte.
pub proof fn lemma_header_exact(frame: Seq<u8>)
    requires
        frame.len() >= 40,
    ensures
        Request::header_of(frame).wire() == frame.subrange(0, 40),
{
    fuse_in_header::lemma_wire_decode(frame, 0);
}

/// A reply carries the identifier of its request, byte for byte.
///
/// Let `request` be parsed from `frame`, and let `reply` be made for it: by
/// [`Request::ok_reply`], by [`Request::error_reply`], or with the request's
/// `unique` in its header. Then the eight bytes in which the written reply
/// holds its `unique` are the eight bytes in which the frame holds it, and the
/// header that is read back from the written reply names the request.
pub proof fn lemma_reply_echoes_unique(frame: Seq<u8>, request: Request, reply: Reply)
    requires
        Request::well_formed(frame),
        request.header == Request::header_of(frame),
        reply.header.unique == request.header.unique,
        reply.wire().len() <= u32::MAX,
    ensures
        fuse_out_header::decode(reply.wire(), 0).unique == request.header.unique,
        reply.wire().subrange(8, 16) == frame.subrange(8, 16),
{
    broadcast use group_le_len;

    reply.lemma_wire_header();
    lemma_u64_bytes_round_trip(frame, 8);
    assert(reply.wire().subrange(8, 16) =~= le_u64(reply.header.unique));
}

/// The character that stands for the digit `d`.
pub open spec fn digit(d: nat) -> char {
    if d == 0 {
        '0'
    } else if d == 1 {
        '1'
    } else if d == 2 {
        '2'
    } else if d == 3 {
        '3'
    } else if d == 4 {
        '4'
    } else if d == 5 {
        '5'
    } else if d == 6 {
        '6'
    } else if d == 7 {
        '7'
    } else if d == 8 {
        '8'
    } else {
        '9'
    }
}

/// The digits of `n` in decimal, without zeros in front; `0` for zero.
pub open spec fn decimal(n: nat) -> Seq<char>
    decreases n,
{
    if n < 10 {
        seq![digit(n)]
    } else {
        decimal(n / 10).push(digit(n % 10))
    }
}

/// `format!("{}.{}", major, minor)`: the two numbers as `Display` writes a
/// `u32`, in decimal and without zeros in front, with a dot between them.
#[verifier::external_body]
fn format_version(major: u32, minor: u32) -> (text: String)
    ensures
        text@ == decimal(major as nat) + seq!['.'] + decimal(minor as nat),
{
    format!("{}.{}", major, minor)
}

/// ABI version
#[derive(Debug, Clone, Copy, PartialEq, Eq, PartialOrd, Ord)]
pub struct Version(pub u32, pub u32);

impl Version {
    /// The version as text: major and minor in decimal, with a dot between
    /// them.
    pub fn to_string(&self) -> (text: String)
        ensures
            text@ == decimal(self.0 as nat) + seq!['.'] + decimal(self.1 as nat),
    {
        format_version(self.0, self.1)
    }

    pub fn major(&self) -> (major: u32)
        ensures
            major == self.0,
    {
        self.0
    }

    pub fn minor(&self) -> (minor: u32)
        ensures
            minor == self.1,
    {
        self.1
    }
}

} // verus!
