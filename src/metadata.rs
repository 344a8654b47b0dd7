use vstd::prelude::*;

verus! {

/// The write bits of a mode: owner, group and other.
pub const WRITE_BITS: u32 = 0o222;

/// The file-type bits of a mode.
pub const TYPE_BITS: u32 = 0o170000;

/// The file-type bits of a directory.
pub const DIR_TYPE: u32 = 0o040000;

/// The file-type bits of a regular file.
pub const FILE_TYPE: u32 = 0o100000;

/// The kind of entry a path names.
#[derive(Clone, Copy, Debug, PartialEq, Eq, Structural)]
pub enum EntryKind {
    Dir,
    File,
    /// Anything else: a symbolic link, a device, a pipe, a socket.
    Other,
}

/// The kind of entry that a raw mode's file-type bits name.
pub open spec fn kind_of_mode(mode: u32) -> EntryKind {
    if mode & TYPE_BITS == DIR_TYPE {
        EntryKind::Dir
    } else if mode & TYPE_BITS == FILE_TYPE {
        EntryKind::File
    } else {
        EntryKind::Other
    }
}

/// The classification of a file or of a directory entry.
#[derive(Clone, Copy, Debug, PartialEq, Eq, Structural)]
pub struct FileType {
    kind: EntryKind,
}

impl View for FileType {
    type V = EntryKind;

    closed spec fn view(&self) -> EntryKind {
        self.kind
    }
}

impl FileType {
    pub fn new(kind: EntryKind) -> (r: FileType)
        ensures
            r@ == kind,
    {
        FileType { kind }
    }

    /// Classifies an entry by the file-type bits of its raw mode.
    pub fn from_mode(mode: u32) -> (r: FileType)
        ensures
            r@ == kind_of_mode(mode),
    {
        let bits = mode & TYPE_BITS;
        let kind = if bits == DIR_TYPE {
            EntryKind::Dir
        } else if bits == FILE_TYPE {
            EntryKind::File
        } else {
            EntryKind::Other
        };
        FileType { kind }
    }

    pub fn kind(&self) -> (r: EntryKind)
        ensures
            r == self@,
    {
        self.kind
    }

    pub fn is_dir(&self) -> (r: bool)
        ensures
            r == (self@ == EntryKind::Dir),
    {
        match self.kind {
            EntryKind::Dir => true,
            _ => false,
        }
    }

    pub fn is_file(&self) -> (r: bool)
        ensures
            r == (self@ == EntryKind::File),
    {
        match self.kind {
            EntryKind::File => true,
            _ => false,
        }
    }
}

/// What a metadata query reports of a path or an open file. `kind` is the one
/// that the file-type bits of `mode` name.
pub struct MetadataView {
    pub kind: EntryKind,
    pub len: u64,
    pub mode: u32,
}

/// A snapshot of a path's status, taken when it was queried; later changes on
/// disk do not reach it. Its kind is the one its raw mode's file-type bits
/// name.
#[derive(Clone, Copy, Debug)]
pub struct Metadata {
    len: u64,
    mode: u32,
}

impl View for Metadata {
    type V = MetadataView;

    closed spec fn view(&self) -> MetadataView {
        MetadataView { kind: kind_of_mode(self.mode), len: self.len, mode: self.mode }
    }
}

impl Metadata {
    /// A snapshot of an entry of the given size in bytes and raw mode bits,
    /// file-type bits included; its kind is read from those bits.
    pub fn from_stat(len: u64, mode: u32) -> (r: Metadata)
        ensures
            r@ == (MetadataView { kind: kind_of_mode(mode), len, mode }),
            r@.kind == EntryKind::Dir <==> mode & TYPE_BITS == DIR_TYPE,
            r@.kind == EntryKind::File <==> mode & TYPE_BITS == FILE_TYPE,
    {
        Metadata { len, mode }
    }

    pub fn file_type(&self) -> (r: FileType)
        ensures
            r@ == self@.kind,
    {
        FileType::from_mode(self.mode)
    }

    pub fn is_dir(&self) -> (r: bool)
        ensures
            r == (self@.kind == EntryKind::Dir),
    {
        self.mode & TYPE_BITS == DIR_TYPE
    }

    pub fn is_file(&self) -> (r: bool)
        ensures
            r == (self@.kind == EntryKind::File),
    {
        self.mode & TYPE_BITS == FILE_TYPE
    }

    /// The size in bytes.
    pub fn len(&self) -> (r: u64)
        ensures
            r == self@.len,
    {
        self.len
    }

    /// The raw mode bits, file-type bits included, passed on uninterpreted.
    pub fn permissions(&self) -> (r: u32)
        ensures
            r == self@.mode,
    {
        self.mode
    }
}

/// Whether a mode grants no write access to anyone.
pub open spec fn mode_is_readonly(mode: u32) -> bool {
    mode & WRITE_BITS == 0
}

/// A mode with its write bits cleared when `readonly` holds, and all set when
/// it does not; the other bits are kept.
pub open spec fn mode_with_readonly(mode: u32, readonly: bool) -> u32 {
    if readonly {
        mode & !WRITE_BITS
    } else {
        mode | WRITE_BITS
    }
}

/// A permission-bits value. Changing it changes this copy only; applying it to
/// a path is the caller's business.
#[derive(Clone, Copy, Debug, PartialEq, Eq, Structural)]
pub struct Permissions {
    mode: u32,
}

impl View for Permissions {
    type V = u32;

    closed spec fn view(&self) -> u32 {
        self.mode
    }
}

impl Permissions {
    pub fn from_mode(mode: u32) -> (r: Permissions)
        ensures
            r@ == mode,
    {
        Permissions { mode }
    }

    pub fn mode(&self) -> (r: u32)
        ensures
            r == self@,
    {
        self.mode
    }

    /// Whether no one may write.
    pub fn readonly(&self) -> (r: bool)
        ensures
            r == mode_is_readonly(self@),
    {
        self.mode & WRITE_BITS == 0
    }

    /// Clears every write bit, or sets every write bit; the other bits are
    /// kept.
    pub fn set_readonly(&mut self, readonly: bool)
        ensures
            final(self)@ == mode_with_readonly(old(self)@, readonly),
            mode_is_readonly(final(self)@) == readonly,
            final(self)@ & !WRITE_BITS == old(self)@ & !WRITE_BITS,
    {
        let old_mode = self.mode;
        if readonly {
            self.mode = old_mode & !WRITE_BITS;
            assert((old_mode & !0o222u32) & 0o222u32 == 0) by (bit_vector);
            assert((old_mode & !0o222u32) & !0o222u32 == old_mode & !0o222u32) by (bit_vector);
        } else {
            self.mode = old_mode | WRITE_BITS;
            assert((old_mode | 0o222u32) & 0o222u32 != 0) by (bit_vector);
            assert((old_mode | 0o222u32) & !0o222u32 == old_mode & !0o222u32) by (bit_vector);
        }
    }
}

} // verus!
