//! Result envelopes: one closed variant type per operation family,
//! carrying either the operation's success value or a protocol error
//! code, and the argument shapes the handlers receive.

use vstd::prelude::*;

use crate::attrs::FileAttr;
use crate::attrs::InodeKind;

verus! {

/// Attribute result: attributes, or a protocol error code.
pub enum FileAttrOrErr {
    Attr(FileAttr),
    ErrCode(i32),
}

/// Pending attribute changes handed to the attribute-update handler.
#[derive(Clone, Copy, Debug, PartialEq, Eq, Structural)]
pub struct AttrChanges {
    pub mode: Option<u32>,
    pub uid: Option<u32>,
    pub gid: Option<u32>,
    pub flags: Option<u32>,
}

/// What an open handler returns on success: an opaque file handle and
/// the open-reply flag bits it chose.
#[derive(Clone, Copy, Debug, PartialEq, Eq, Structural)]
pub struct ParamsOfOpened {
    pub fh: i64,
    pub flags: u32,
}

/// Open result: opened-handle parameters, or a protocol error code.
#[derive(Clone, Copy, Debug, PartialEq, Eq, Structural)]
pub enum ParamsOfOpenedOrErr {
    Params(ParamsOfOpened),
    ErrCode(i32),
}

/// Raw-byte result: a byte buffer, or a protocol error code.
pub enum BufferOrErr {
    Data(Vec<u8>),
    ErrCode(i32),
}

/// Arguments of one read call beyond the node and handle.
#[derive(Clone, Copy, Debug, PartialEq, Eq, Structural)]
pub struct ReadArgs {
    pub offset: i64,
    pub size: u32,
    pub flags: i32,
    pub lock_owner: Option<i64>,
}

/// Arguments of one release call beyond the node and handle.
#[derive(Clone, Copy, Debug, PartialEq, Eq, Structural)]
pub struct ReleaseArgs {
    pub flags: i32,
    pub lock_owner: Option<i64>,
    pub flush: bool,
}

/// Extended-attribute result: the attribute bytes, the size a zero-size
/// query asked for, or a protocol error code.
pub enum XAttrBytesOrErr {
    Data(Vec<u8>),
    Size(u32),
    ErrCode(i32),
}

/// One directory entry as the listing handler reports it.  The offset
/// is an opaque cursor token, not a position in the listing.
#[derive(Clone, Debug, PartialEq, Eq)]
pub struct DirEntry {
    pub ino: i64,
    pub offset: i64,
    pub kind: InodeKind,
    pub name: String,
}

/// Directory-listing result: the entries in handler order, or a
/// protocol error code.
pub enum DirListing {
    Lst(Vec<DirEntry>),
    ErrCode(i32),
}

/// A directory entry without its node id.
#[derive(Clone, Debug, PartialEq, Eq)]
pub struct DirEntryPlus {
    pub offset: i64,
    pub kind: InodeKind,
    pub name: String,
}

/// What a node-creation handler returns on success.
#[derive(Clone, Copy, Debug, PartialEq, Eq, Structural)]
pub struct MkNodResult {
    pub ttl: i64,
    pub attr: FileAttr,
    pub generation: i64,
}

/// New-entry result: a created entry, or a protocol error code.
#[derive(Clone, Copy, Debug, PartialEq, Eq, Structural)]
pub enum NewEntryOrErr {
    Entry(MkNodResult),
    ErrCode(i32),
}

} // verus!
