//! File attributes as the handlers report them, and their translation
//! into the protocol's attribute shape.

use vstd::prelude::*;

verus! {

/// Size of a filesystem block.  The derived attribute fields (block
/// count, preferred block size) are computed from this constant at
/// translation time; it is also what the filesystem-statistics reply
/// reports.
pub const BLOCK_SIZE: u64 = 4096;

/// Kind of a filesystem node.
#[derive(Clone, Copy, Debug, PartialEq, Eq, Structural)]
pub enum InodeKind {
    Directory,
    File,
    SymLink,
}

/// File attributes as a handler reports them: timestamps are
/// milliseconds since the Unix epoch, sizes and ids are plain integers.
#[derive(Clone, Copy, Debug, PartialEq, Eq, Structural)]
pub struct FileAttr {
    pub ino: i64,
    pub size: i64,
    pub mtime: i64,
    pub ctime: i64,
    pub btime: i64,
    pub kind: InodeKind,
    /// Permissions
    pub perm: u16,
    /// User id
    pub uid: u32,
    /// Group id
    pub gid: u32,
    /// Rdev
    pub rdev: u32,
    /// Platform-specific flag bits
    pub flags: u32,
}

/// File attributes in the shape the protocol reply carries: sizes
/// unsigned, the derived fields (block count, preferred block size,
/// link count) filled in, and the four timestamps still as milliseconds
/// since the Unix epoch - turning them into the protocol's absolute
/// times is the boundary's one remaining step.
#[derive(Clone, Copy, Debug, PartialEq, Eq, Structural)]
pub struct FuseFileAttr {
    pub ino: u64,
    pub size: u64,
    pub blocks: u64,
    pub atime_ms: i64,
    pub mtime_ms: i64,
    pub ctime_ms: i64,
    pub crtime_ms: i64,
    pub kind: InodeKind,
    pub perm: u16,
    pub nlink: u32,
    pub uid: u32,
    pub gid: u32,
    pub rdev: u32,
    pub blksize: u32,
    pub flags: u32,
}

/// Number of `BLOCK_SIZE`-sized blocks needed to hold `size` bytes:
/// `size / BLOCK_SIZE`, rounded up.
pub open spec fn spec_blocks_in(size: u64) -> int {
    if size % 4096 == 0 {
        size as int / 4096
    } else {
        size as int / 4096 + 1
    }
}

/// Block count backing a reported file size.
pub fn blocks_in(size: u64) -> (r: u64)
    ensures
        r == spec_blocks_in(size),
{
    let d = size / BLOCK_SIZE;
    let m = size % BLOCK_SIZE;
    if m > 0 {
        d + 1
    } else {
        d
    }
}

/// How a translated attribute struct relates to the attributes the
/// handler reported: every field is pinned - ids and size carried over
/// (truncated into the protocol's unsigned shape where the handler's
/// type is wider), the modification, change and creation times
/// verbatim, the access time aliasing the modification time, one hard
/// link, and the block fields derived from the size.
pub open spec fn attr_translated(a: FileAttr, r: FuseFileAttr) -> bool {
    &&& r.ino == a.ino as u64
    &&& r.size == a.size as u64
    &&& r.blocks == spec_blocks_in(a.size as u64)
    &&& r.mtime_ms == a.mtime
    &&& r.atime_ms == r.mtime_ms
    &&& r.ctime_ms == a.ctime
    &&& r.crtime_ms == a.btime
    &&& r.kind == a.kind
    &&& r.perm == a.perm
    &&& r.nlink == 1
    &&& r.uid == a.uid
    &&& r.gid == a.gid
    &&& r.rdev == a.rdev
    &&& r.blksize == BLOCK_SIZE as u32
    &&& r.flags == a.flags
}

impl FileAttr {
    /// Translate into the protocol's attribute shape.  The derived
    /// fields are computed here, not stored: the block count from the
    /// size, the preferred block size from `BLOCK_SIZE`, a link count
    /// of one, and an access time equal to the modification time.
    pub fn into_fuse(&self) -> (r: FuseFileAttr)
        ensures
            attr_translated(*self, r),
    {
        let size = self.size as u64;
        FuseFileAttr {
            atime_ms: self.mtime,
            crtime_ms: self.btime,
            ctime_ms: self.ctime,
            flags: self.flags,
            gid: self.gid,
            uid: self.uid,
            ino: self.ino as u64,
            kind: self.kind,
            mtime_ms: self.mtime,
            nlink: 1,
            perm: self.perm,
            rdev: self.rdev,
            size,
            blksize: BLOCK_SIZE as u32,
            blocks: blocks_in(size),
        }
    }
}

/// The attribute translation is a function of the reported attributes
/// alone: any two translated structs of the same attributes are equal,
/// field for field.
pub proof fn lemma_attr_translation_deterministic(a: FileAttr, r1: FuseFileAttr, r2: FuseFileAttr)
    requires
        attr_translated(a, r1),
        attr_translated(a, r2),
    ensures
        r1 == r2,
{
}

} // verus!
