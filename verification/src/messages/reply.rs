//! Reply message, interior operations, and serializers.
//!
//! A reply is the header [`fuse_out_header`] and, where the request succeeded
//! and has something to hand back, the payload of the operation. [`IWrite`]
//! is what all of them share: `wire` says which bytes stand for a value, and
//! `write` lays them down at the start of a buffer.
use crate::error::Errno;
use crate::messages::codec::{
    group_le_len, join, lemma_splice_empty, lemma_splice_parts, lemma_splice_two_parts,
    saturated, splice, zeros, Cursor,
};
use crate::messages::fuse_abi::{
    fuse_attr_out, fuse_bmap_out, fuse_create_out, fuse_dirent, fuse_direntplus, fuse_entry_out,
    fuse_getxattr_out, fuse_init_out, fuse_ioctl_out, fuse_lk_out, fuse_lseek_out, fuse_open_out,
    fuse_out_header, fuse_poll_out, fuse_statfs_out, fuse_statx_out, fuse_write_out,
};
use crate::messages::request::Request;
use vstd::prelude::*;
use vstd::utf8::encode_utf8;

verus! {

broadcast use group_le_len;

/// For values that can write themselves into a buffer of bytes.
pub trait IWrite {
    /// The bytes that stand for the value on the wire.
    spec fn wire(&self) -> Seq<u8>;

    /// The number of bytes that `write` takes, as far as a `u64` can hold it.
    fn wire_len(&self) -> (n: u64)
        ensures
            n == saturated(self.wire().len()),
    ;

    /// Writes the value at the start of `buffer` and returns the number of
    /// bytes written. What `buffer` holds behind them stays as it is.
    ///
    /// The value has to fit into the buffer, and into the 32 bits in which a
    /// reply states its length.
    fn write(&mut self, buffer: &mut [u8]) -> (count: usize)
        requires
            old(self).wire().len() <= old(buffer)@.len(),
            old(self).wire().len() <= u32::MAX,
        ensures
            count == old(self).wire().len(),
            final(buffer)@.len() == old(buffer)@.len(),
            final(buffer)@ == splice(old(buffer)@, 0, old(self).wire()),
            final(self).wire() == old(self).wire(),
    ;
}

/// Number of zero bytes that bring `len` up to a multiple of eight.
pub open spec fn pad_len(len: nat) -> nat {
    ((8 - len % 8) % 8) as nat
}

/// `fixed` bytes of a record and `name` bytes of a name, padded to the next
/// multiple of eight: the length of a directory entry.
fn padded_len(fixed: u64, name: usize) -> (n: u64)
    requires
        fixed <= 0x1000,
    ensures
        n == saturated((fixed + name) as nat + pad_len((fixed + name) as nat)),
{
    let len = fixed.saturating_add(name as u64);
    if len > u64::MAX - 7 {
        u64::MAX
    } else {
        let r = len % 8;
        if r > 0 {
            len + (8 - r)
        } else {
            len
        }
    }
}

/// One entry of the answer to `READDIR`.
///
/// On the wire an entry is a [`fuse_dirent`], whose `namelen` is the length of
/// the name, then the bytes of the name, then zero bytes up to the next
/// multiple of eight.
#[derive(Debug)]
pub struct DirectoryEntry {
    pub entry: fuse_dirent,
    /// Serialized as an array of bytes
    pub name: String,
}

impl DirectoryEntry {
    /// The fixed part as it is written: with the length of the name in it.
    pub open spec fn fixed(&self) -> fuse_dirent {
        fuse_dirent {
            ino: self.entry.ino,
            off: self.entry.off,
            namelen: encode_utf8(self.name@).len() as u32,
            typ: self.entry.typ,
        }
    }

    /// The entry on the wire.
    pub open spec fn spec_wire(&self) -> Seq<u8> {
        self.fixed().wire() + encode_utf8(self.name@) + zeros(
            pad_len(24 + encode_utf8(self.name@).len()),
        )
    }

    /// Writes the entry into `buffer` at `at` and returns the offset behind it.
    pub fn write_at(&self, buffer: &mut [u8], at: usize) -> (end: usize)
        requires
            at + self.spec_wire().len() <= old(buffer)@.len(),
            self.spec_wire().len() <= u32::MAX,
        ensures
            end == at + self.spec_wire().len(),
            end % 8 == at % 8,
            final(buffer)@.len() == old(buffer)@.len(),
            final(buffer)@ == splice(old(buffer)@, at as int, self.spec_wire()),
    {
        let name = self.name.as_str().as_bytes();
        let fixed = fuse_dirent {
            ino: self.entry.ino,
            off: self.entry.off,
            namelen: name.len() as u32,
            typ: self.entry.typ,
        };
        let mut c = Cursor::begin(buffer, at);
        fixed.emit(&mut c, buffer);
        c.put_bytes(buffer, name);
        // Align the output to 8 byte boundary
        let r = (24 + name.len()) % 8;
        let pad: usize = if r > 0 {
            8 - r
        } else {
            0
        };
        c.put_zeros(buffer, pad);
        c.pos
    }

    /// Writes the entry at the cursor `c`.
    pub fn emit(&self, c: &mut Cursor, buffer: &mut [u8])
        requires
            old(c).tracks(old(buffer)@),
            old(c).pos + self.spec_wire().len() <= old(buffer)@.len(),
            self.spec_wire().len() <= u32::MAX,
        ensures
            final(c).tracks(final(buffer)@),
            old(c).extends(*final(c), self.spec_wire()),
    {
        let ghost before = buffer@;
        let end = self.write_at(buffer, c.pos);
        c.advance(buffer, end, Ghost(before), Ghost(self.spec_wire()));
    }

    /// An entry takes the 24 bytes of its fixed part and the bytes of its
    /// name, and as many more as bring it to a multiple of eight.
    pub proof fn lemma_wire_len(&self)
        ensures
            self.spec_wire().len() == 24 + encode_utf8(self.name@).len() + pad_len(
                24 + encode_utf8(self.name@).len(),
            ),
            self.spec_wire().len() % 8 == 0,
            self.spec_wire().len() < 24 + encode_utf8(self.name@).len() + 8,
    {
    }

    /// Sets `namelen` to the length of the name.
    pub fn set_name_length(&mut self)
        requires
            old(self).spec_wire().len() <= u32::MAX,
        ensures
            *final(self) == (DirectoryEntry { entry: old(self).fixed(), name: old(self).name }),
            final(self).spec_wire() == old(self).spec_wire(),
    {
        self.entry.namelen = self.name.as_str().as_bytes().len() as u32;
    }
}

impl IWrite for DirectoryEntry {
    open spec fn wire(&self) -> Seq<u8> {
        self.spec_wire()
    }

    fn wire_len(&self) -> (n: u64) {
        padded_len(24, self.name.as_str().as_bytes().len())
    }

    /// Sets `namelen` to the length of the name and writes the entry.
    fn write(&mut self, buffer: &mut [u8]) -> (count: usize)
        ensures
            *final(self) == (DirectoryEntry { entry: old(self).fixed(), name: old(self).name }),
    {
        self.set_name_length();
        self.write_at(buffer, 0)
    }
}

/// One entry of the answer to `READDIRPLUS`: an entry with the attributes of
/// its inode.
///
/// On the wire an entry is a [`fuse_direntplus`], whose `namelen` is the
/// length of the name, then the bytes of the name, then zero bytes up to the
/// next multiple of eight.
pub struct DirectoryEntryPlus {
    pub entry: fuse_direntplus,
    /// The name, as the bytes that the filesystem keeps it in
    pub name: Vec<u8>,
}

impl DirectoryEntryPlus {
    /// The fixed part as it is written: with the length of the name in it.
    pub open spec fn fixed(&self) -> fuse_direntplus {
        fuse_direntplus {
            entry_out: self.entry.entry_out,
            dirent: fuse_dirent {
                ino: self.entry.dirent.ino,
                off: self.entry.dirent.off,
                namelen: self.name@.len() as u32,
                typ: self.entry.dirent.typ,
            },
        }
    }

    /// The entry on the wire.
    pub open spec fn spec_wire(&self) -> Seq<u8> {
        self.fixed().wire() + self.name@ + zeros(pad_len(152 + self.name@.len()))
    }

    /// Writes the entry into `buffer` at `at` and returns the offset behind it.
    pub fn write_at(&self, buffer: &mut [u8], at: usize) -> (end: usize)
        requires
            at + self.spec_wire().len() <= old(buffer)@.len(),
            self.spec_wire().len() <= u32::MAX,
        ensures
            end == at + self.spec_wire().len(),
            end % 8 == at % 8,
            final(buffer)@.len() == old(buffer)@.len(),
            final(buffer)@ == splice(old(buffer)@, at as int, self.spec_wire()),
    {
        let fixed = fuse_direntplus {
            entry_out: self.entry.entry_out,
            dirent: fuse_dirent {
                ino: self.entry.dirent.ino,
                off: self.entry.dirent.off,
                namelen: self.name.len() as u32,
                typ: self.entry.dirent.typ,
            },
        };
        let mut c = Cursor::begin(buffer, at);
        let ghost before = buffer@;
        let end = fixed.write_at(buffer, c.pos);
        c.advance(buffer, end, Ghost(before), Ghost(fixed.wire()));
        c.put_bytes(buffer, self.name.as_slice());
        // Align the output to 8 byte boundary
        let r = (152 + self.name.len()) % 8;
        let pad: usize = if r > 0 {
            8 - r
        } else {
            0
        };
        c.put_zeros(buffer, pad);
        c.pos
    }

    /// Writes the entry at the cursor `c`.
    pub fn emit(&self, c: &mut Cursor, buffer: &mut [u8])
        requires
            old(c).tracks(old(buffer)@),
            old(c).pos + self.spec_wire().len() <= old(buffer)@.len(),
            self.spec_wire().len() <= u32::MAX,
        ensures
            final(c).tracks(final(buffer)@),
            old(c).extends(*final(c), self.spec_wire()),
    {
        let ghost before = buffer@;
        let end = self.write_at(buffer, c.pos);
        c.advance(buffer, end, Ghost(before), Ghost(self.spec_wire()));
    }

    /// An entry takes the 152 bytes of its fixed part and the bytes of its
    /// name, and as many more as bring it to a multiple of eight.
    pub proof fn lemma_wire_len(&self)
        ensures
            self.spec_wire().len() == 152 + self.name@.len() + pad_len(152 + self.name@.len()),
            self.spec_wire().len() % 8 == 0,
            self.spec_wire().len() < 152 + self.name@.len() + 8,
    {
    }

    /// Sets `namelen` to the length of the name.
    pub fn set_name_length(&mut self)
        requires
            old(self).spec_wire().len() <= u32::MAX,
        ensures
            *final(self) == (DirectoryEntryPlus { entry: old(self).fixed(), name: old(self).name }),
            final(self).spec_wire() == old(self).spec_wire(),
    {
        self.entry.dirent.namelen = self.name.len() as u32;
    }
}

impl IWrite for DirectoryEntryPlus {
    open spec fn wire(&self) -> Seq<u8> {
        self.spec_wire()
    }

    fn wire_len(&self) -> (n: u64) {
        padded_len(152, self.name.len())
    }

    /// Sets `namelen` to the length of the name and writes the entry.
    fn write(&mut self, buffer: &mut [u8]) -> (count: usize)
        ensures
            *final(self) == (DirectoryEntryPlus { entry: old(self).fixed(), name: old(self).name }),
    {
        self.set_name_length();
        self.write_at(buffer, 0)
    }
}

/// The entry that was looked up.
#[derive(Debug)]
pub struct Lookup {
    pub arg: fuse_entry_out,
}

impl IWrite for Lookup {
    open spec fn wire(&self) -> Seq<u8> {
        self.arg.wire()
    }

    fn wire_len(&self) -> (n: u64) {
        128
    }

    fn write(&mut self, buffer: &mut [u8]) -> (count: usize)
        ensures
            *final(self) == *old(self),
    {
        self.arg.write_at(buffer, 0)
    }
}

/// Nothing is handed back beyond the header.
pub struct Forget {}

impl IWrite for Forget {
    open spec fn wire(&self) -> Seq<u8> {
        Seq::empty()
    }

    fn wire_len(&self) -> (n: u64) {
        0
    }

    fn write(&mut self, buffer: &mut [u8]) -> (count: usize)
        ensures
            *final(self) == *old(self),
    {
        proof {
            lemma_splice_empty(buffer@, 0);
        }
        0
    }
}

/// The attributes that were asked for.
#[derive(Debug)]
pub struct GetAttr {
    pub arg: fuse_attr_out,
}

impl IWrite for GetAttr {
    open spec fn wire(&self) -> Seq<u8> {
        self.arg.wire()
    }

    fn wire_len(&self) -> (n: u64) {
        104
    }

    fn write(&mut self, buffer: &mut [u8]) -> (count: usize)
        ensures
            *final(self) == *old(self),
    {
        self.arg.write_at(buffer, 0)
    }
}

/// The attributes as they are after the change.
pub struct SetAttr {
    pub arg: fuse_attr_out,
}

impl IWrite for SetAttr {
    open spec fn wire(&self) -> Seq<u8> {
        self.arg.wire()
    }

    fn wire_len(&self) -> (n: u64) {
        104
    }

    fn write(&mut self, buffer: &mut [u8]) -> (count: usize)
        ensures
            *final(self) == *old(self),
    {
        self.arg.write_at(buffer, 0)
    }
}

/// The target of the link.
pub struct ReadLink {
    pub data: String,
}

impl IWrite for ReadLink {
    /// The text in UTF-8, and nothing else.
    open spec fn wire(&self) -> Seq<u8> {
        encode_utf8(self.data@)
    }

    fn wire_len(&self) -> (n: u64) {
        self.data.as_str().as_bytes().len() as u64
    }

    fn write(&mut self, buffer: &mut [u8]) -> (count: usize)
        ensures
            *final(self) == *old(self),
    {
        let mut c = Cursor::begin(buffer, 0);
        c.put_bytes(buffer, self.data.as_str().as_bytes());
        c.pos
    }
}

/// The link that was made.
pub struct SymLink {
    pub arg: fuse_entry_out,
}

impl IWrite for SymLink {
    open spec fn wire(&self) -> Seq<u8> {
        self.arg.wire()
    }

    fn wire_len(&self) -> (n: u64) {
        128
    }

    fn write(&mut self, buffer: &mut [u8]) -> (count: usize)
        ensures
            *final(self) == *old(self),
    {
        self.arg.write_at(buffer, 0)
    }
}

/// Nothing is handed back beyond the header.
pub struct MkNod {}

impl IWrite for MkNod {
    open spec fn wire(&self) -> Seq<u8> {
        Seq::empty()
    }

    fn wire_len(&self) -> (n: u64) {
        0
    }

    fn write(&mut self, buffer: &mut [u8]) -> (count: usize)
        ensures
            *final(self) == *old(self),
    {
        proof {
            lemma_splice_empty(buffer@, 0);
        }
        0
    }
}

/// The directory that was made.
pub struct MkDir {
    pub arg: fuse_entry_out,
}

impl IWrite for MkDir {
    open spec fn wire(&self) -> Seq<u8> {
        self.arg.wire()
    }

    fn wire_len(&self) -> (n: u64) {
        128
    }

    fn write(&mut self, buffer: &mut [u8]) -> (count: usize)
        ensures
            *final(self) == *old(self),
    {
        self.arg.write_at(buffer, 0)
    }
}

/// Nothing is handed back beyond the header.
pub struct Unlink {}

impl IWrite for Unlink {
    open spec fn wire(&self) -> Seq<u8> {
        Seq::empty()
    }

    fn wire_len(&self) -> (n: u64) {
        0
    }

    fn write(&mut self, buffer: &mut [u8]) -> (count: usize)
        ensures
            *final(self) == *old(self),
    {
        proof {
            lemma_splice_empty(buffer@, 0);
        }
        0
    }
}

/// Nothing is handed back beyond the header.
pub struct RmDir {}

impl IWrite for RmDir {
    open spec fn wire(&self) -> Seq<u8> {
        Seq::empty()
    }

    fn wire_len(&self) -> (n: u64) {
        0
    }

    fn write(&mut self, buffer: &mut [u8]) -> (count: usize)
        ensures
            *final(self) == *old(self),
    {
        proof {
            lemma_splice_empty(buffer@, 0);
        }
        0
    }
}

/// Nothing is handed back beyond the header.
pub struct Rename {}

impl IWrite for Rename {
    open spec fn wire(&self) -> Seq<u8> {
        Seq::empty()
    }

    fn wire_len(&self) -> (n: u64) {
        0
    }

    fn write(&mut self, buffer: &mut [u8]) -> (count: usize)
        ensures
            *final(self) == *old(self),
    {
        proof {
            lemma_splice_empty(buffer@, 0);
        }
        0
    }
}

/// The link that was made.
pub struct Link {
    pub arg: fuse_entry_out,
}

impl IWrite for Link {
    open spec fn wire(&self) -> Seq<u8> {
        self.arg.wire()
    }

    fn wire_len(&self) -> (n: u64) {
        128
    }

    fn write(&mut self, buffer: &mut [u8]) -> (count: usize)
        ensures
            *final(self) == *old(self),
    {
        self.arg.write_at(buffer, 0)
    }
}

/// The handle of the file that was opened.
pub struct Open {
    pub arg: fuse_open_out,
}

impl IWrite for Open {
    open spec fn wire(&self) -> Seq<u8> {
        self.arg.wire()
    }

    fn wire_len(&self) -> (n: u64) {
        16
    }

    fn write(&mut self, buffer: &mut [u8]) -> (count: usize)
        ensures
            *final(self) == *old(self),
    {
        self.arg.write_at(buffer, 0)
    }
}

/// The bytes that were read.
pub struct Read {
    pub data: Vec<u8>,
}

impl IWrite for Read {
    /// The bytes, and nothing else.
    open spec fn wire(&self) -> Seq<u8> {
        self.data@
    }

    fn wire_len(&self) -> (n: u64) {
        self.data.len() as u64
    }

    fn write(&mut self, buffer: &mut [u8]) -> (count: usize)
        ensures
            *final(self) == *old(self),
    {
        let mut c = Cursor::begin(buffer, 0);
        c.put_bytes(buffer, self.data.as_slice());
        c.pos
    }
}

/// The number of bytes that were written.
pub struct Write {
    pub arg: fuse_write_out,
}

impl IWrite for Write {
    open spec fn wire(&self) -> Seq<u8> {
        self.arg.wire()
    }

    fn wire_len(&self) -> (n: u64) {
        8
    }

    fn write(&mut self, buffer: &mut [u8]) -> (count: usize)
        ensures
            *final(self) == *old(self),
    {
        self.arg.write_at(buffer, 0)
    }
}

/// Statistics of the filesystem, as `statfs` reports them.
#[derive(Debug)]
pub struct StatFs {
    pub arg: fuse_statfs_out,
}

impl IWrite for StatFs {
    open spec fn wire(&self) -> Seq<u8> {
        self.arg.wire()
    }

    fn wire_len(&self) -> (n: u64) {
        80
    }

    fn write(&mut self, buffer: &mut [u8]) -> (count: usize)
        ensures
            *final(self) == *old(self),
    {
        self.arg.write_at(buffer, 0)
    }
}

/// Nothing is handed back beyond the header.
pub struct Release {}

impl IWrite for Release {
    open spec fn wire(&self) -> Seq<u8> {
        Seq::empty()
    }

    fn wire_len(&self) -> (n: u64) {
        0
    }

    fn write(&mut self, buffer: &mut [u8]) -> (count: usize)
        ensures
            *final(self) == *old(self),
    {
        proof {
            lemma_splice_empty(buffer@, 0);
        }
        0
    }
}

/// Nothing is handed back beyond the header.
pub struct FSync {}

impl IWrite for FSync {
    open spec fn wire(&self) -> Seq<u8> {
        Seq::empty()
    }

    fn wire_len(&self) -> (n: u64) {
        0
    }

    fn write(&mut self, buffer: &mut [u8]) -> (count: usize)
        ensures
            *final(self) == *old(self),
    {
        proof {
            lemma_splice_empty(buffer@, 0);
        }
        0
    }
}

/// Nothing is handed back beyond the header.
pub struct SetXAttr {}

impl IWrite for SetXAttr {
    open spec fn wire(&self) -> Seq<u8> {
        Seq::empty()
    }

    fn wire_len(&self) -> (n: u64) {
        0
    }

    fn write(&mut self, buffer: &mut [u8]) -> (count: usize)
        ensures
            *final(self) == *old(self),
    {
        proof {
            lemma_splice_empty(buffer@, 0);
        }
        0
    }
}

/// The value of an extended attribute, or its size.
pub struct GetXAttr {
    pub arg: fuse_getxattr_out,
    pub data: Vec<u8>,
}

impl IWrite for GetXAttr {
    /// The fixed part, then the bytes of the value.
    open spec fn wire(&self) -> Seq<u8> {
        self.arg.wire() + self.data@
    }

    fn wire_len(&self) -> (n: u64) {
        (self.data.len() as u64).saturating_add(8)
    }

    fn write(&mut self, buffer: &mut [u8]) -> (count: usize)
        ensures
            *final(self) == *old(self),
    {
        let mut c = Cursor::begin(buffer, 0);
        c.put_u32(buffer, self.arg.size);
        c.put_u32(buffer, self.arg.padding);
        c.put_bytes(buffer, self.data.as_slice());
        c.pos
    }
}

/// The names of the extended attributes, each with its NUL.
pub struct ListXAttr {
    pub data: Vec<u8>,
}

impl ListXAttr {
    /// The fixed part that goes before the names: it states their length.
    pub open spec fn prefix(&self) -> fuse_getxattr_out {
        fuse_getxattr_out { size: self.data@.len() as u32, padding: 0 }
    }
}

impl IWrite for ListXAttr {
    /// A [`fuse_getxattr_out`] that holds the length of the names, then the
    /// names.
    open spec fn wire(&self) -> Seq<u8> {
        self.prefix().wire() + self.data@
    }

    fn wire_len(&self) -> (n: u64) {
        (self.data.len() as u64).saturating_add(8)
    }

    fn write(&mut self, buffer: &mut [u8]) -> (count: usize)
        ensures
            *final(self) == *old(self),
    {
        let mut c = Cursor::begin(buffer, 0);
        c.put_u32(buffer, self.data.len() as u32);
        c.put_u32(buffer, 0);
        c.put_bytes(buffer, self.data.as_slice());
        c.pos
    }
}

/// Nothing is handed back beyond the header.
pub struct RemoveXAttr {}

impl IWrite for RemoveXAttr {
    open spec fn wire(&self) -> Seq<u8> {
        Seq::empty()
    }

    fn wire_len(&self) -> (n: u64) {
        0
    }

    fn write(&mut self, buffer: &mut [u8]) -> (count: usize)
        ensures
            *final(self) == *old(self),
    {
        proof {
            lemma_splice_empty(buffer@, 0);
        }
        0
    }
}

/// Nothing is handed back beyond the header.
pub struct Flush {}

impl IWrite for Flush {
    open spec fn wire(&self) -> Seq<u8> {
        Seq::empty()
    }

    fn wire_len(&self) -> (n: u64) {
        0
    }

    fn write(&mut self, buffer: &mut [u8]) -> (count: usize)
        ensures
            *final(self) == *old(self),
    {
        proof {
            lemma_splice_empty(buffer@, 0);
        }
        0
    }
}

/// The version and the limits that the filesystem settles on.
pub struct Init {
    pub arg: fuse_init_out,
}

impl IWrite for Init {
    open spec fn wire(&self) -> Seq<u8> {
        self.arg.wire()
    }

    fn wire_len(&self) -> (n: u64) {
        64
    }

    fn write(&mut self, buffer: &mut [u8]) -> (count: usize)
        ensures
            *final(self) == *old(self),
    {
        self.arg.write_at(buffer, 0)
    }
}

/// The handle of the directory that was opened.
pub struct OpenDir {
    pub arg: fuse_open_out,
}

impl IWrite for OpenDir {
    open spec fn wire(&self) -> Seq<u8> {
        self.arg.wire()
    }

    fn wire_len(&self) -> (n: u64) {
        16
    }

    fn write(&mut self, buffer: &mut [u8]) -> (count: usize)
        ensures
            *final(self) == *old(self),
    {
        self.arg.write_at(buffer, 0)
    }
}

/// The entries of a directory, from the offset that was asked for.
pub struct ReadDir {
    /// list of directory entry names
    ///
    /// Their `namelen` is set when they are written
    pub entries: Vec<DirectoryEntry>,
}

impl ReadDir {
    /// The entries on the wire, one behind the other.
    pub open spec fn entries_wire(entries: Seq<DirectoryEntry>) -> Seq<u8>
        decreases entries.len(),
    {
        if entries.len() == 0 {
            Seq::empty()
        } else {
            join(Self::entries_wire(entries.drop_last()), entries.last().spec_wire())
        }
    }

    /// The length of the entries on the wire: the sum of their lengths.
    pub open spec fn entries_len(entries: Seq<DirectoryEntry>) -> nat
        decreases entries.len(),
    {
        if entries.len() == 0 {
            0
        } else {
            Self::entries_len(entries.drop_last()) + entries.last().spec_wire().len()
        }
    }

    /// The packed entries are as long as the entries together, which is a
    /// multiple of eight, and no prefix of them takes more room than the
    /// whole.
    pub proof fn lemma_entries_len(entries: Seq<DirectoryEntry>, k: int)
        requires
            0 <= k <= entries.len(),
        ensures
            Self::entries_wire(entries).len() == Self::entries_len(entries),
            Self::entries_len(entries) % 8 == 0,
            Self::entries_len(entries.take(k)) <= Self::entries_len(entries),
        decreases entries.len(),
    {
        if entries.len() > 0 {
            let front = entries.drop_last();
            entries.last().lemma_wire_len();
            if k == entries.len() {
                assert(entries.take(k) =~= entries);
                Self::lemma_entries_len(front, 0);
            } else {
                assert(entries.take(k) =~= front.take(k));
                Self::lemma_entries_len(front, k);
            }
        } else {
            assert(entries.take(k) =~= entries);
        }
    }

    /// Entries that are written alike, one by one, are written alike
    /// together.
    pub proof fn lemma_entries_wire_alike(a: Seq<DirectoryEntry>, b: Seq<DirectoryEntry>)
        requires
            a.len() == b.len(),
            forall|i: int| 0 <= i < a.len() ==> a[i].spec_wire() == b[i].spec_wire(),
        ensures
            Self::entries_wire(a) == Self::entries_wire(b),
        decreases a.len(),
    {
        if a.len() > 0 {
            Self::lemma_entries_wire_alike(a.drop_last(), b.drop_last());
        }
    }
}

impl IWrite for ReadDir {
    /// The entries, one behind the other; each ends on a multiple of eight.
    open spec fn wire(&self) -> Seq<u8> {
        Self::entries_wire(self.entries@)
    }

    fn wire_len(&self) -> (n: u64) {
        let mut total: u64 = 0;
        let mut i: usize = 0;
        while i < self.entries.len()
            invariant
                i <= self.entries@.len(),
                total == saturated(Self::entries_len(self.entries@.take(i as int))),
            decreases self.entries@.len() - i,
        {
            let len = self.entries[i].wire_len();
            proof {
                assert(self.entries@.take(i + 1).drop_last() =~= self.entries@.take(i as int));
            }
            total = total.saturating_add(len);
            i += 1;
        }
        proof {
            assert(self.entries@.take(i as int) =~= self.entries@);
            Self::lemma_entries_len(self.entries@, 0);
        }
        total
    }

    /// Sets the `namelen` of every entry to the length of its name, and
    /// writes the entries.
    fn write(&mut self, buffer: &mut [u8]) -> (count: usize)
        ensures
            final(self).entries@.len() == old(self).entries@.len(),
            forall|i: int|
                0 <= i < old(self).entries@.len() ==> #[trigger] final(self).entries@[i] == (
                DirectoryEntry {
                    entry: old(self).entries@[i].fixed(),
                    name: old(self).entries@[i].name,
                }),
    {
        let ghost entries = self.entries@;
        let mut c = Cursor::begin(buffer, 0);
        let mut i: usize = 0;
        proof {
            Self::lemma_entries_len(entries, 0);
        }
        while i < self.entries.len()
            invariant
                i <= entries.len(),
                entries == old(self).entries@,
                self.entries@.len() == entries.len(),
                forall|k: int|
                    0 <= k < i ==> #[trigger] self.entries@[k] == (DirectoryEntry {
                        entry: entries[k].fixed(),
                        name: entries[k].name,
                    }),
                forall|k: int| i <= k < entries.len() ==> #[trigger] self.entries@[k] == entries[k],
                c.tracks(buffer@),
                c.start == 0,
                c.base@ == old(buffer)@,
                c.written@ == Self::entries_wire(entries.take(i as int)),
                Self::entries_len(entries) <= old(buffer)@.len(),
                Self::entries_len(entries) <= u32::MAX,
            decreases entries.len() - i,
        {
            proof {
                assert(entries.take(i + 1).drop_last() =~= entries.take(i as int));
                Self::lemma_entries_len(entries, i as int);
                Self::lemma_entries_len(entries, i + 1);
                Self::lemma_entries_len(entries.take(i as int), 0);
            }
            let entry = &mut self.entries[i];
            entry.set_name_length();
            self.entries[i].emit(&mut c, buffer);
            i += 1;
        }
        proof {
            assert(entries.take(i as int) =~= entries);
            Self::lemma_entries_wire_alike(self.entries@, entries);
        }
        c.pos
    }
}

/// Nothing is handed back beyond the header.
pub struct ReleaseDir {}

impl IWrite for ReleaseDir {
    open spec fn wire(&self) -> Seq<u8> {
        Seq::empty()
    }

    fn wire_len(&self) -> (n: u64) {
        0
    }

    fn write(&mut self, buffer: &mut [u8]) -> (count: usize)
        ensures
            *final(self) == *old(self),
    {
        proof {
            lemma_splice_empty(buffer@, 0);
        }
        0
    }
}

/// Nothing is handed back beyond the header.
pub struct FSyncDir {}

impl IWrite for FSyncDir {
    open spec fn wire(&self) -> Seq<u8> {
        Seq::empty()
    }

    fn wire_len(&self) -> (n: u64) {
        0
    }

    fn write(&mut self, buffer: &mut [u8]) -> (count: usize)
        ensures
            *final(self) == *old(self),
    {
        proof {
            lemma_splice_empty(buffer@, 0);
        }
        0
    }
}

/// The lock that stands in the way, if any.
pub struct GetLk {
    pub arg: fuse_lk_out,
}

impl IWrite for GetLk {
    open spec fn wire(&self) -> Seq<u8> {
        self.arg.wire()
    }

    fn wire_len(&self) -> (n: u64) {
        24
    }

    fn write(&mut self, buffer: &mut [u8]) -> (count: usize)
        ensures
            *final(self) == *old(self),
    {
        self.arg.write_at(buffer, 0)
    }
}

pub struct SetLk {
    pub arg: fuse_lk_out,
}

impl IWrite for SetLk {
    open spec fn wire(&self) -> Seq<u8> {
        self.arg.wire()
    }

    fn wire_len(&self) -> (n: u64) {
        24
    }

    fn write(&mut self, buffer: &mut [u8]) -> (count: usize)
        ensures
            *final(self) == *old(self),
    {
        self.arg.write_at(buffer, 0)
    }
}

/// Nothing is handed back beyond the header.
pub struct Access {}

impl IWrite for Access {
    open spec fn wire(&self) -> Seq<u8> {
        Seq::empty()
    }

    fn wire_len(&self) -> (n: u64) {
        0
    }

    fn write(&mut self, buffer: &mut [u8]) -> (count: usize)
        ensures
            *final(self) == *old(self),
    {
        proof {
            lemma_splice_empty(buffer@, 0);
        }
        0
    }
}

/// The file that was made, and its handle.
pub struct Create {
    pub arg: fuse_create_out,
}

impl IWrite for Create {
    open spec fn wire(&self) -> Seq<u8> {
        self.arg.wire()
    }

    fn wire_len(&self) -> (n: u64) {
        144
    }

    fn write(&mut self, buffer: &mut [u8]) -> (count: usize)
        ensures
            *final(self) == *old(self),
    {
        self.arg.write_at(buffer, 0)
    }
}

/// Nothing is handed back beyond the header.
pub struct Interrupt {}

impl IWrite for Interrupt {
    open spec fn wire(&self) -> Seq<u8> {
        Seq::empty()
    }

    fn wire_len(&self) -> (n: u64) {
        0
    }

    fn write(&mut self, buffer: &mut [u8]) -> (count: usize)
        ensures
            *final(self) == *old(self),
    {
        proof {
            lemma_splice_empty(buffer@, 0);
        }
        0
    }
}

/// The block of the device that the block of the file lies in.
pub struct BMap {
    pub arg: fuse_bmap_out,
}

impl IWrite for BMap {
    open spec fn wire(&self) -> Seq<u8> {
        self.arg.wire()
    }

    fn wire_len(&self) -> (n: u64) {
        8
    }

    fn write(&mut self, buffer: &mut [u8]) -> (count: usize)
        ensures
            *final(self) == *old(self),
    {
        self.arg.write_at(buffer, 0)
    }
}

/// Nothing is handed back beyond the header.
pub struct Destroy {}

impl IWrite for Destroy {
    open spec fn wire(&self) -> Seq<u8> {
        Seq::empty()
    }

    fn wire_len(&self) -> (n: u64) {
        0
    }

    fn write(&mut self, buffer: &mut [u8]) -> (count: usize)
        ensures
            *final(self) == *old(self),
    {
        proof {
            lemma_splice_empty(buffer@, 0);
        }
        0
    }
}

pub struct IoCtl {
    pub arg: fuse_ioctl_out,
}

impl IWrite for IoCtl {
    open spec fn wire(&self) -> Seq<u8> {
        self.arg.wire()
    }

    fn wire_len(&self) -> (n: u64) {
        16
    }

    fn write(&mut self, buffer: &mut [u8]) -> (count: usize)
        ensures
            *final(self) == *old(self),
    {
        self.arg.write_at(buffer, 0)
    }
}

pub struct Poll {
    pub arg: fuse_poll_out,
}

impl IWrite for Poll {
    open spec fn wire(&self) -> Seq<u8> {
        self.arg.wire()
    }

    fn wire_len(&self) -> (n: u64) {
        8
    }

    fn write(&mut self, buffer: &mut [u8]) -> (count: usize)
        ensures
            *final(self) == *old(self),
    {
        self.arg.write_at(buffer, 0)
    }
}

/// Nothing is handed back beyond the header.
pub struct NotifyReply {}

impl IWrite for NotifyReply {
    open spec fn wire(&self) -> Seq<u8> {
        Seq::empty()
    }

    fn wire_len(&self) -> (n: u64) {
        0
    }

    fn write(&mut self, buffer: &mut [u8]) -> (count: usize)
        ensures
            *final(self) == *old(self),
    {
        proof {
            lemma_splice_empty(buffer@, 0);
        }
        0
    }
}

/// Nothing is handed back beyond the header.
pub struct BatchForget {}

impl IWrite for BatchForget {
    open spec fn wire(&self) -> Seq<u8> {
        Seq::empty()
    }

    fn wire_len(&self) -> (n: u64) {
        0
    }

    fn write(&mut self, buffer: &mut [u8]) -> (count: usize)
        ensures
            *final(self) == *old(self),
    {
        proof {
            lemma_splice_empty(buffer@, 0);
        }
        0
    }
}

/// Nothing is handed back beyond the header.
pub struct FAllocate {}

impl IWrite for FAllocate {
    open spec fn wire(&self) -> Seq<u8> {
        Seq::empty()
    }

    fn wire_len(&self) -> (n: u64) {
        0
    }

    fn write(&mut self, buffer: &mut [u8]) -> (count: usize)
        ensures
            *final(self) == *old(self),
    {
        proof {
            lemma_splice_empty(buffer@, 0);
        }
        0
    }
}

/// The entries of a directory with the attributes of their inodes, from the
/// offset that was asked for.
pub struct ReadDirPlus {
    /// Their `namelen` is set when they are written
    pub entries: Vec<DirectoryEntryPlus>,
}

impl ReadDirPlus {
    /// The entries on the wire, one behind the other.
    pub open spec fn entries_wire(entries: Seq<DirectoryEntryPlus>) -> Seq<u8>
        decreases entries.len(),
    {
        if entries.len() == 0 {
            Seq::empty()
        } else {
            join(Self::entries_wire(entries.drop_last()), entries.last().spec_wire())
        }
    }

    /// The length of the entries on the wire: the sum of their lengths.
    pub open spec fn entries_len(entries: Seq<DirectoryEntryPlus>) -> nat
        decreases entries.len(),
    {
        if entries.len() == 0 {
            0
        } else {
            Self::entries_len(entries.drop_last()) + entries.last().spec_wire().len()
        }
    }

    /// The packed entries are as long as the entries together, which is a
    /// multiple of eight, and no prefix of them takes more room than the
    /// whole.
    pub proof fn lemma_entries_len(entries: Seq<DirectoryEntryPlus>, k: int)
        requires
            0 <= k <= entries.len(),
        ensures
            Self::entries_wire(entries).len() == Self::entries_len(entries),
            Self::entries_len(entries) % 8 == 0,
            Self::entries_len(entries.take(k)) <= Self::entries_len(entries),
        decreases entries.len(),
    {
        if entries.len() > 0 {
            let front = entries.drop_last();
            entries.last().lemma_wire_len();
            if k == entries.len() {
                assert(entries.take(k) =~= entries);
                Self::lemma_entries_len(front, 0);
            } else {
                assert(entries.take(k) =~= front.take(k));
                Self::lemma_entries_len(front, k);
            }
        } else {
            assert(entries.take(k) =~= entries);
        }
    }

    /// Entries that are written alike, one by one, are written alike
    /// together.
    pub proof fn lemma_entries_wire_alike(a: Seq<DirectoryEntryPlus>, b: Seq<DirectoryEntryPlus>)
        requires
            a.len() == b.len(),
            forall|i: int| 0 <= i < a.len() ==> a[i].spec_wire() == b[i].spec_wire(),
        ensures
            Self::entries_wire(a) == Self::entries_wire(b),
        decreases a.len(),
    {
        if a.len() > 0 {
            Self::lemma_entries_wire_alike(a.drop_last(), b.drop_last());
        }
    }
}

impl IWrite for ReadDirPlus {
    /// The entries, one behind the other; each ends on a multiple of eight.
    open spec fn wire(&self) -> Seq<u8> {
        Self::entries_wire(self.entries@)
    }

    fn wire_len(&self) -> (n: u64) {
        let mut total: u64 = 0;
        let mut i: usize = 0;
        while i < self.entries.len()
            invariant
                i <= self.entries@.len(),
                total == saturated(Self::entries_len(self.entries@.take(i as int))),
            decreases self.entries@.len() - i,
        {
            let len = self.entries[i].wire_len();
            proof {
                assert(self.entries@.take(i + 1).drop_last() =~= self.entries@.take(i as int));
            }
            total = total.saturating_add(len);
            i += 1;
        }
        proof {
            assert(self.entries@.take(i as int) =~= self.entries@);
            Self::lemma_entries_len(self.entries@, 0);
        }
        total
    }

    /// Sets the `namelen` of every entry to the length of its name, and
    /// writes the entries.
    fn write(&mut self, buffer: &mut [u8]) -> (count: usize)
        ensures
            final(self).entries@.len() == old(self).entries@.len(),
            forall|i: int|
                0 <= i < old(self).entries@.len() ==> #[trigger] final(self).entries@[i] == (
                DirectoryEntryPlus {
                    entry: old(self).entries@[i].fixed(),
                    name: old(self).entries@[i].name,
                }),
    {
        let ghost entries = self.entries@;
        let mut c = Cursor::begin(buffer, 0);
        let mut i: usize = 0;
        proof {
            Self::lemma_entries_len(entries, 0);
        }
        while i < self.entries.len()
            invariant
                i <= entries.len(),
                entries == old(self).entries@,
                self.entries@.len() == entries.len(),
                forall|k: int|
                    0 <= k < i ==> #[trigger] self.entries@[k] == (DirectoryEntryPlus {
                        entry: entries[k].fixed(),
                        name: entries[k].name,
                    }),
                forall|k: int| i <= k < entries.len() ==> #[trigger] self.entries@[k] == entries[k],
                c.tracks(buffer@),
                c.start == 0,
                c.base@ == old(buffer)@,
                c.written@ == Self::entries_wire(entries.take(i as int)),
                Self::entries_len(entries) <= old(buffer)@.len(),
                Self::entries_len(entries) <= u32::MAX,
            decreases entries.len() - i,
        {
            proof {
                assert(entries.take(i + 1).drop_last() =~= entries.take(i as int));
                Self::lemma_entries_len(entries, i as int);
                Self::lemma_entries_len(entries, i + 1);
                Self::lemma_entries_len(entries.take(i as int), 0);
            }
            let entry = &mut self.entries[i];
            entry.set_name_length();
            self.entries[i].emit(&mut c, buffer);
            i += 1;
        }
        proof {
            assert(entries.take(i as int) =~= entries);
            Self::lemma_entries_wire_alike(self.entries@, entries);
        }
        c.pos
    }
}

/// Nothing is handed back beyond the header.
pub struct Rename2 {}

impl IWrite for Rename2 {
    open spec fn wire(&self) -> Seq<u8> {
        Seq::empty()
    }

    fn wire_len(&self) -> (n: u64) {
        0
    }

    fn write(&mut self, buffer: &mut [u8]) -> (count: usize)
        ensures
            *final(self) == *old(self),
    {
        proof {
            lemma_splice_empty(buffer@, 0);
        }
        0
    }
}

/// The offset that was found.
pub struct Lseek {
    pub arg: fuse_lseek_out,
}

impl IWrite for Lseek {
    open spec fn wire(&self) -> Seq<u8> {
        self.arg.wire()
    }

    fn wire_len(&self) -> (n: u64) {
        8
    }

    fn write(&mut self, buffer: &mut [u8]) -> (count: usize)
        ensures
            *final(self) == *old(self),
    {
        self.arg.write_at(buffer, 0)
    }
}

/// The number of bytes that were copied.
pub struct CopyFileRange {
    pub arg: fuse_write_out,
}

impl IWrite for CopyFileRange {
    open spec fn wire(&self) -> Seq<u8> {
        self.arg.wire()
    }

    fn wire_len(&self) -> (n: u64) {
        8
    }

    fn write(&mut self, buffer: &mut [u8]) -> (count: usize)
        ensures
            *final(self) == *old(self),
    {
        self.arg.write_at(buffer, 0)
    }
}

/// Nothing is handed back beyond the header.
pub struct SetVolName {}

impl IWrite for SetVolName {
    open spec fn wire(&self) -> Seq<u8> {
        Seq::empty()
    }

    fn wire_len(&self) -> (n: u64) {
        0
    }

    fn write(&mut self, buffer: &mut [u8]) -> (count: usize)
        ensures
            *final(self) == *old(self),
    {
        proof {
            lemma_splice_empty(buffer@, 0);
        }
        0
    }
}

/// Nothing is handed back beyond the header.
pub struct Exchange {}

impl IWrite for Exchange {
    open spec fn wire(&self) -> Seq<u8> {
        Seq::empty()
    }

    fn wire_len(&self) -> (n: u64) {
        0
    }

    fn write(&mut self, buffer: &mut [u8]) -> (count: usize)
        ensures
            *final(self) == *old(self),
    {
        proof {
            lemma_splice_empty(buffer@, 0);
        }
        0
    }
}

/// Nothing is handed back beyond the header.
pub struct SetupMapping {}

impl IWrite for SetupMapping {
    open spec fn wire(&self) -> Seq<u8> {
        Seq::empty()
    }

    fn wire_len(&self) -> (n: u64) {
        0
    }

    fn write(&mut self, buffer: &mut [u8]) -> (count: usize)
        ensures
            *final(self) == *old(self),
    {
        proof {
            lemma_splice_empty(buffer@, 0);
        }
        0
    }
}

/// Nothing is handed back beyond the header.
pub struct RemoveMapping {}

impl IWrite for RemoveMapping {
    open spec fn wire(&self) -> Seq<u8> {
        Seq::empty()
    }

    fn wire_len(&self) -> (n: u64) {
        0
    }

    fn write(&mut self, buffer: &mut [u8]) -> (count: usize)
        ensures
            *final(self) == *old(self),
    {
        proof {
            lemma_splice_empty(buffer@, 0);
        }
        0
    }
}

/// Nothing is handed back beyond the header.
pub struct SyncFs {}

impl IWrite for SyncFs {
    open spec fn wire(&self) -> Seq<u8> {
        Seq::empty()
    }

    fn wire_len(&self) -> (n: u64) {
        0
    }

    fn write(&mut self, buffer: &mut [u8]) -> (count: usize)
        ensures
            *final(self) == *old(self),
    {
        proof {
            lemma_splice_empty(buffer@, 0);
        }
        0
    }
}

/// Nothing is handed back beyond the header.
pub struct TmpFile {}

impl IWrite for TmpFile {
    open spec fn wire(&self) -> Seq<u8> {
        Seq::empty()
    }

    fn wire_len(&self) -> (n: u64) {
        0
    }

    fn write(&mut self, buffer: &mut [u8]) -> (count: usize)
        ensures
            *final(self) == *old(self),
    {
        proof {
            lemma_splice_empty(buffer@, 0);
        }
        0
    }
}

/// The attributes that were asked for, as `statx` reports them.
pub struct StatX {
    pub arg: fuse_statx_out,
}

impl IWrite for StatX {
    open spec fn wire(&self) -> Seq<u8> {
        self.arg.wire()
    }

    fn wire_len(&self) -> (n: u64) {
        288
    }

    fn write(&mut self, buffer: &mut [u8]) -> (count: usize)
        ensures
            *final(self) == *old(self),
    {
        self.arg.write_at(buffer, 0)
    }
}

/// Nothing is handed back beyond the header.
pub struct CuseInit {}

impl IWrite for CuseInit {
    open spec fn wire(&self) -> Seq<u8> {
        Seq::empty()
    }

    fn wire_len(&self) -> (n: u64) {
        0
    }

    fn write(&mut self, buffer: &mut [u8]) -> (count: usize)
        ensures
            *final(self) == *old(self),
    {
        proof {
            lemma_splice_empty(buffer@, 0);
        }
        0
    }
}

/// What a reply hands back, by the kind of request that it answers.
pub enum Operation {
    Lookup(Lookup),
    Forget(Forget),
    GetAttr(GetAttr),
    SetAttr(SetAttr),
    ReadLink(ReadLink),
    SymLink(SymLink),
    MkNod(MkNod),
    MkDir(MkDir),
    Unlink(Unlink),
    RmDir(RmDir),
    Rename(Rename),
    Link(Link),
    Open(Open),
    Read(Read),
    Write(Write),
    StatFs(StatFs),
    Release(Release),
    FSync(FSync),
    SetXAttr(SetXAttr),
    GetXAttr(GetXAttr),
    ListXAttr(ListXAttr),
    RemoveXAttr(RemoveXAttr),
    Flush(Flush),
    Init(Init),
    OpenDir(OpenDir),
    ReadDir(ReadDir),
    ReleaseDir(ReleaseDir),
    FSyncDir(FSyncDir),
    GetLk(GetLk),
    SetLk(SetLk),
    Access(Access),
    Create(Create),
    Interrupt(Interrupt),
    BMap(BMap),
    Destroy(Destroy),
    IoCtl(IoCtl),
    Poll(Poll),
    NotifyReply(NotifyReply),
    BatchForget(BatchForget),
    FAllocate(FAllocate),
    ReadDirPlus(ReadDirPlus),
    Rename2(Rename2),
    Lseek(Lseek),
    CopyFileRange(CopyFileRange),
    SetupMapping(SetupMapping),
    RemoveMapping(RemoveMapping),
    SyncFs(SyncFs),
    TmpFile(TmpFile),
    StatX(StatX),
    CuseInit(CuseInit),
}

impl Operation {
    /// The number of the kind of request that the operation answers.
    pub open spec fn opcode(&self) -> u32 {
        match self {
            Operation::Lookup(_) => 1,
            Operation::Forget(_) => 2,
            Operation::GetAttr(_) => 3,
            Operation::SetAttr(_) => 4,
            Operation::ReadLink(_) => 5,
            Operation::SymLink(_) => 6,
            Operation::MkNod(_) => 8,
            Operation::MkDir(_) => 9,
            Operation::Unlink(_) => 10,
            Operation::RmDir(_) => 11,
            Operation::Rename(_) => 12,
            Operation::Link(_) => 13,
            Operation::Open(_) => 14,
            Operation::Read(_) => 15,
            Operation::Write(_) => 16,
            Operation::StatFs(_) => 17,
            Operation::Release(_) => 18,
            Operation::FSync(_) => 20,
            Operation::SetXAttr(_) => 21,
            Operation::GetXAttr(_) => 22,
            Operation::ListXAttr(_) => 23,
            Operation::RemoveXAttr(_) => 24,
            Operation::Flush(_) => 25,
            Operation::Init(_) => 26,
            Operation::OpenDir(_) => 27,
            Operation::ReadDir(_) => 28,
            Operation::ReleaseDir(_) => 29,
            Operation::FSyncDir(_) => 30,
            Operation::GetLk(_) => 31,
            Operation::SetLk(_) => 32,
            Operation::Access(_) => 34,
            Operation::Create(_) => 35,
            Operation::Interrupt(_) => 36,
            Operation::BMap(_) => 37,
            Operation::Destroy(_) => 38,
            Operation::IoCtl(_) => 39,
            Operation::Poll(_) => 40,
            Operation::NotifyReply(_) => 41,
            Operation::BatchForget(_) => 42,
            Operation::FAllocate(_) => 43,
            Operation::ReadDirPlus(_) => 44,
            Operation::Rename2(_) => 45,
            Operation::Lseek(_) => 46,
            Operation::CopyFileRange(_) => 47,
            Operation::SetupMapping(_) => 48,
            Operation::RemoveMapping(_) => 49,
            Operation::SyncFs(_) => 50,
            Operation::TmpFile(_) => 51,
            Operation::StatX(_) => 52,
            Operation::CuseInit(_) => 4096,
        }
    }
}

impl IWrite for Operation {
    /// The bytes of the operation that the value holds.
    open spec fn wire(&self) -> Seq<u8> {
        match self {
            Operation::Lookup(op) => op.wire(),
            Operation::Forget(op) => op.wire(),
            Operation::GetAttr(op) => op.wire(),
            Operation::SetAttr(op) => op.wire(),
            Operation::ReadLink(op) => op.wire(),
            Operation::SymLink(op) => op.wire(),
            Operation::MkNod(op) => op.wire(),
            Operation::MkDir(op) => op.wire(),
            Operation::Unlink(op) => op.wire(),
            Operation::RmDir(op) => op.wire(),
            Operation::Rename(op) => op.wire(),
            Operation::Link(op) => op.wire(),
            Operation::Open(op) => op.wire(),
            Operation::Read(op) => op.wire(),
            Operation::Write(op) => op.wire(),
            Operation::StatFs(op) => op.wire(),
            Operation::Release(op) => op.wire(),
            Operation::FSync(op) => op.wire(),
            Operation::SetXAttr(op) => op.wire(),
            Operation::GetXAttr(op) => op.wire(),
            Operation::ListXAttr(op) => op.wire(),
            Operation::RemoveXAttr(op) => op.wire(),
            Operation::Flush(op) => op.wire(),
            Operation::Init(op) => op.wire(),
            Operation::OpenDir(op) => op.wire(),
            Operation::ReadDir(op) => op.wire(),
            Operation::ReleaseDir(op) => op.wire(),
            Operation::FSyncDir(op) => op.wire(),
            Operation::GetLk(op) => op.wire(),
            Operation::SetLk(op) => op.wire(),
            Operation::Access(op) => op.wire(),
            Operation::Create(op) => op.wire(),
            Operation::Interrupt(op) => op.wire(),
            Operation::BMap(op) => op.wire(),
            Operation::Destroy(op) => op.wire(),
            Operation::IoCtl(op) => op.wire(),
            Operation::Poll(op) => op.wire(),
            Operation::NotifyReply(op) => op.wire(),
            Operation::BatchForget(op) => op.wire(),
            Operation::FAllocate(op) => op.wire(),
            Operation::ReadDirPlus(op) => op.wire(),
            Operation::Rename2(op) => op.wire(),
            Operation::Lseek(op) => op.wire(),
            Operation::CopyFileRange(op) => op.wire(),
            Operation::SetupMapping(op) => op.wire(),
            Operation::RemoveMapping(op) => op.wire(),
            Operation::SyncFs(op) => op.wire(),
            Operation::TmpFile(op) => op.wire(),
            Operation::StatX(op) => op.wire(),
            Operation::CuseInit(op) => op.wire(),
        }
    }

    fn wire_len(&self) -> (n: u64) {
        match self {
            Operation::Lookup(op) => op.wire_len(),
            Operation::Forget(op) => op.wire_len(),
            Operation::GetAttr(op) => op.wire_len(),
            Operation::SetAttr(op) => op.wire_len(),
            Operation::ReadLink(op) => op.wire_len(),
            Operation::SymLink(op) => op.wire_len(),
            Operation::MkNod(op) => op.wire_len(),
            Operation::MkDir(op) => op.wire_len(),
            Operation::Unlink(op) => op.wire_len(),
            Operation::RmDir(op) => op.wire_len(),
            Operation::Rename(op) => op.wire_len(),
            Operation::Link(op) => op.wire_len(),
            Operation::Open(op) => op.wire_len(),
            Operation::Read(op) => op.wire_len(),
            Operation::Write(op) => op.wire_len(),
            Operation::StatFs(op) => op.wire_len(),
            Operation::Release(op) => op.wire_len(),
            Operation::FSync(op) => op.wire_len(),
            Operation::SetXAttr(op) => op.wire_len(),
            Operation::GetXAttr(op) => op.wire_len(),
            Operation::ListXAttr(op) => op.wire_len(),
            Operation::RemoveXAttr(op) => op.wire_len(),
            Operation::Flush(op) => op.wire_len(),
            Operation::Init(op) => op.wire_len(),
            Operation::OpenDir(op) => op.wire_len(),
            Operation::ReadDir(op) => op.wire_len(),
            Operation::ReleaseDir(op) => op.wire_len(),
            Operation::FSyncDir(op) => op.wire_len(),
            Operation::GetLk(op) => op.wire_len(),
            Operation::SetLk(op) => op.wire_len(),
            Operation::Access(op) => op.wire_len(),
            Operation::Create(op) => op.wire_len(),
            Operation::Interrupt(op) => op.wire_len(),
            Operation::BMap(op) => op.wire_len(),
            Operation::Destroy(op) => op.wire_len(),
            Operation::IoCtl(op) => op.wire_len(),
            Operation::Poll(op) => op.wire_len(),
            Operation::NotifyReply(op) => op.wire_len(),
            Operation::BatchForget(op) => op.wire_len(),
            Operation::FAllocate(op) => op.wire_len(),
            Operation::ReadDirPlus(op) => op.wire_len(),
            Operation::Rename2(op) => op.wire_len(),
            Operation::Lseek(op) => op.wire_len(),
            Operation::CopyFileRange(op) => op.wire_len(),
            Operation::SetupMapping(op) => op.wire_len(),
            Operation::RemoveMapping(op) => op.wire_len(),
            Operation::SyncFs(op) => op.wire_len(),
            Operation::TmpFile(op) => op.wire_len(),
            Operation::StatX(op) => op.wire_len(),
            Operation::CuseInit(op) => op.wire_len(),
        }
    }

    fn write(&mut self, buffer: &mut [u8]) -> (count: usize)
        ensures
            final(self).opcode() == old(self).opcode(),
    {
        match self {
            Operation::Lookup(op) => op.write(buffer),
            Operation::Forget(op) => op.write(buffer),
            Operation::GetAttr(op) => op.write(buffer),
            Operation::SetAttr(op) => op.write(buffer),
            Operation::ReadLink(op) => op.write(buffer),
            Operation::SymLink(op) => op.write(buffer),
            Operation::MkNod(op) => op.write(buffer),
            Operation::MkDir(op) => op.write(buffer),
            Operation::Unlink(op) => op.write(buffer),
            Operation::RmDir(op) => op.write(buffer),
            Operation::Rename(op) => op.write(buffer),
            Operation::Link(op) => op.write(buffer),
            Operation::Open(op) => op.write(buffer),
            Operation::Read(op) => op.write(buffer),
            Operation::Write(op) => op.write(buffer),
            Operation::StatFs(op) => op.write(buffer),
            Operation::Release(op) => op.write(buffer),
            Operation::FSync(op) => op.write(buffer),
            Operation::SetXAttr(op) => op.write(buffer),
            Operation::GetXAttr(op) => op.write(buffer),
            Operation::ListXAttr(op) => op.write(buffer),
            Operation::RemoveXAttr(op) => op.write(buffer),
            Operation::Flush(op) => op.write(buffer),
            Operation::Init(op) => op.write(buffer),
            Operation::OpenDir(op) => op.write(buffer),
            Operation::ReadDir(op) => op.write(buffer),
            Operation::ReleaseDir(op) => op.write(buffer),
            Operation::FSyncDir(op) => op.write(buffer),
            Operation::GetLk(op) => op.write(buffer),
            Operation::SetLk(op) => op.write(buffer),
            Operation::Access(op) => op.write(buffer),
            Operation::Create(op) => op.write(buffer),
            Operation::Interrupt(op) => op.write(buffer),
            Operation::BMap(op) => op.write(buffer),
            Operation::Destroy(op) => op.write(buffer),
            Operation::IoCtl(op) => op.write(buffer),
            Operation::Poll(op) => op.write(buffer),
            Operation::NotifyReply(op) => op.write(buffer),
            Operation::BatchForget(op) => op.write(buffer),
            Operation::FAllocate(op) => op.write(buffer),
            Operation::ReadDirPlus(op) => op.write(buffer),
            Operation::Rename2(op) => op.write(buffer),
            Operation::Lseek(op) => op.write(buffer),
            Operation::CopyFileRange(op) => op.write(buffer),
            Operation::SetupMapping(op) => op.write(buffer),
            Operation::RemoveMapping(op) => op.write(buffer),
            Operation::SyncFs(op) => op.write(buffer),
            Operation::TmpFile(op) => op.write(buffer),
            Operation::StatX(op) => op.write(buffer),
            Operation::CuseInit(op) => op.write(buffer),
        }
    }
}

/// Reply to a request of the filesystem.
pub struct Reply {
    /// Common header for all operations
    pub header: fuse_out_header,
    /// Operations by type
    pub operation: Option<Operation>,
}

impl Reply {
    /// A reply to the request `unique`. `error` is zero, or the negative of an
    /// error number; the length in the header is filled in when the reply is
    /// written.
    pub fn new(unique: u64, error: i32, operation: Option<Operation>) -> (reply: Self)
        ensures
            reply.header == (fuse_out_header { len: 0, error, unique }),
            reply.operation == operation,
    {
        let header: fuse_out_header = fuse_out_header { error, len: 0, unique };

        Self { header, operation }
    }

    /// Makes the reply report `error`.
    pub fn set_error(&mut self, error: Errno)
        ensures
            final(self).header.error == -error.code(),
            final(self).header.len == old(self).header.len,
            final(self).header.unique == old(self).header.unique,
            final(self).operation == old(self).operation,
    {
        self.header.error = error.to_wire()
    }

    /// What follows the header: the operation, where the reply reports
    /// success and holds one. A reply that reports an error has no payload,
    /// whatever operation it holds.
    pub open spec fn payload(&self) -> Seq<u8> {
        match self.operation {
            Some(op) if self.header.error == 0 => op.wire(),
            _ => Seq::empty(),
        }
    }

    /// The header as it is written: with the length of the whole reply.
    pub open spec fn wire_header(&self) -> fuse_out_header {
        fuse_out_header {
            len: (16 + self.payload().len()) as u32,
            error: self.header.error,
            unique: self.header.unique,
        }
    }

    /// The header that the bytes of a written reply start with is the
    /// reply's own, with the number of bytes written as its length.
    pub proof fn lemma_wire_header(&self)
        requires
            self.wire().len() <= u32::MAX,
        ensures
            self.wire().len() == 16 + self.payload().len(),
            fuse_out_header::decode(self.wire(), 0) == self.wire_header(),
            fuse_out_header::decode(self.wire(), 0).len == self.wire().len(),
            fuse_out_header::decode(self.wire(), 0).unique == self.header.unique,
            fuse_out_header::decode(self.wire(), 0).error == self.header.error,
    {
        assert(self.wire().subrange(0, 16) =~= self.wire_header().wire());
        self.wire_header().lemma_decode_wire(self.wire(), 0);
    }

    /// Writes the reply at the start of `buffer` where it fits, and returns
    /// the number of bytes written. Where the reply is longer than `buffer`,
    /// or than a reply can say of itself in 32 bits, nothing is written.
    pub fn try_write(&mut self, buffer: &mut [u8]) -> (r: Option<usize>)
        ensures
            r is Some <==> old(self).wire().len() <= old(buffer)@.len() && old(self).wire().len()
                <= u32::MAX,
            r matches Some(count) ==> {
                &&& count == old(self).wire().len()
                &&& final(buffer)@ == splice(old(buffer)@, 0, old(self).wire())
            },
            r is None ==> final(buffer)@ == old(buffer)@,
            final(buffer)@.len() == old(buffer)@.len(),
            final(self).wire() == old(self).wire(),
    {
        let needed = self.wire_len();
        if needed <= u32::MAX as u64 && needed <= buffer.len() as u64 {
            Some(self.write(buffer))
        } else {
            None
        }
    }
}

impl From<&Request> for Reply {
    /// The reply that reports success of `request` and hands nothing back.
    fn from(request: &Request) -> (reply: Self) {
        Self {
            header: fuse_out_header { error: 0, len: 0, unique: request.header.unique },
            operation: None,
        }
    }
}

impl vstd::std_specs::convert::FromSpecImpl<&Request> for Reply {
    open spec fn obeys_from_spec() -> bool {
        true
    }

    open spec fn from_spec(request: &Request) -> Self {
        Reply {
            header: fuse_out_header { error: 0, len: 0, unique: request.header.unique },
            operation: None,
        }
    }
}

impl IWrite for Reply {
    /// The header, with the length of the whole in it, then the payload.
    open spec fn wire(&self) -> Seq<u8> {
        self.wire_header().wire() + self.payload()
    }

    fn wire_len(&self) -> (n: u64) {
        match &self.operation {
            Some(op) if self.header.error == 0 => op.wire_len().saturating_add(16),
            _ => 16,
        }
    }

    /// Writes the header and the payload, with the number of bytes written
    /// as the header's `len`. The reply itself keeps the `len` it has.
    fn write(&mut self, buffer: &mut [u8]) -> (count: usize)
        ensures
            fuse_out_header::decode(final(buffer)@, 0) == old(self).wire_header(),
            fuse_out_header::decode(final(buffer)@, 0).len == count,
            final(self).header == old(self).header,
    {
        let ghost before = buffer@;
        let ghost payload = self.payload();
        let (head, body) = buffer.split_at_mut(16);
        let mut count: usize = 16;
        if self.header.error == 0 {
            match &mut self.operation {
                Some(op) => {
                    count += op.write(body);
                },
                None => {
                    proof {
                        lemma_splice_empty(body@, 0);
                    }
                },
            }
        } else {
            proof {
                lemma_splice_empty(body@, 0);
            }
        }
        // The header goes in last: only now is the length known
        let header = fuse_out_header {
            len: count as u32,
            error: self.header.error,
            unique: self.header.unique,
        };
        header.write_at(head, 0);
        proof {
            lemma_splice_two_parts(before, 16, header.wire(), payload);
            old(self).lemma_wire_header();
            lemma_splice_parts(before, 0, old(self).wire());
            assert(buffer@.subrange(0, old(self).wire().len() as int) == old(self).wire());
        }
        count
    }
}

} // verus!
