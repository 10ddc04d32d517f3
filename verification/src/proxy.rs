//! The dispatch proxy's translation logic: every protocol operation
//! shapes its arguments for the handler, runs one bridged call, and maps
//! the resulting envelope onto the operation's own reply.

use vstd::prelude::*;

use crate::attrs::attr_translated;
use crate::attrs::BLOCK_SIZE;
use crate::bridge::BridgeOutcome;
use crate::envelope::BufferOrErr;
use crate::envelope::FileAttrOrErr;
use crate::envelope::ParamsOfOpenedOrErr;
use crate::envelope::XAttrBytesOrErr;

verus! {

/// The node id of the filesystem root, announced to the lifecycle
/// handler when a session starts.
pub const ROOT_INO: u64 = 1;

/// Platform error number for "input/output error": the uniform reply
/// when the asynchronous side produced no value.
pub const EIO: i32 = 5;

/// Platform error number for "function not implemented": the fixed
/// reply of unsupported operations.
pub const ENOSYS: i32 = 38;

/// Seconds an entry or attribute reply stays valid for the caller.
pub const TTL_SECS: u64 = 1;

/// Entry reply: a translated attribute struct with its validity and
/// generation, or a numeric error.
#[derive(Debug, PartialEq)]
pub enum EntryReply {
    Entry { attr: crate::attrs::FuseFileAttr, ttl_secs: u64, generation: u64 },
    Error(i32),
}

/// Lookup: the handler's attributes become an entry reply with the
/// fixed one-second validity and generation zero; an explicit handler
/// error code passes through unchanged; a bridge failure is the generic
/// input/output error.
pub fn lookup_reply(o: BridgeOutcome<FileAttrOrErr>) -> (r: EntryReply)
    ensures
        (o matches BridgeOutcome::Value(FileAttrOrErr::Attr(a)) ==> (r matches EntryReply::Entry {
            attr,
            ttl_secs,
            generation,
        } && attr_translated(a, attr) && ttl_secs == TTL_SECS && generation == 0)),
        (o matches BridgeOutcome::Value(FileAttrOrErr::ErrCode(c)) ==> r == EntryReply::Error(c)),
        (o is Failure ==> r == EntryReply::Error(EIO)),
{
    match o {
        BridgeOutcome::Value(FileAttrOrErr::Attr(a)) => EntryReply::Entry {
            attr: a.into_fuse(),
            ttl_secs: TTL_SECS,
            generation: 0,
        },
        BridgeOutcome::Value(FileAttrOrErr::ErrCode(code)) => EntryReply::Error(code),
        BridgeOutcome::Failure => EntryReply::Error(EIO),
    }
}

/// Attribute reply: a translated attribute struct with its validity, or
/// a numeric error.
#[derive(Debug, PartialEq)]
pub enum AttrReply {
    Attr { attr: crate::attrs::FuseFileAttr, ttl_secs: u64 },
    Error(i32),
}

/// Attribute query and attribute update: the handler's attributes
/// become an attribute reply with the fixed one-second validity; an
/// explicit handler error code passes through unchanged; a bridge
/// failure is the generic input/output error.
pub fn attr_reply(o: BridgeOutcome<FileAttrOrErr>) -> (r: AttrReply)
    ensures
        (o matches BridgeOutcome::Value(FileAttrOrErr::Attr(a)) ==> (r matches AttrReply::Attr {
            attr,
            ttl_secs,
        } && attr_translated(a, attr) && ttl_secs == TTL_SECS)),
        (o matches BridgeOutcome::Value(FileAttrOrErr::ErrCode(c)) ==> r == AttrReply::Error(c)),
        (o is Failure ==> r == AttrReply::Error(EIO)),
{
    match o {
        BridgeOutcome::Value(FileAttrOrErr::Attr(a)) => AttrReply::Attr {
            attr: a.into_fuse(),
            ttl_secs: TTL_SECS,
        },
        BridgeOutcome::Value(FileAttrOrErr::ErrCode(code)) => AttrReply::Error(code),
        BridgeOutcome::Failure => AttrReply::Error(EIO),
    }
}

/// The open-reply flag bits the protocol defines on this platform: the
/// low eight bits.
pub open spec fn fopen_bits_defined(bits: u32) -> bool {
    bits & 0xFF == bits
}

/// Relies on fuser's FopenFlags::from_bits: it accepts exactly the flag
/// bits that FopenFlags defines.  On Linux, the platform this crate is
/// built and verified for, those are exactly the low eight bits; other
/// operating systems define further bits, where this contract would be
/// too narrow.
#[verifier::external_body]
fn fopen_flags_valid(bits: u32) -> (r: bool)
    ensures
        r == fopen_bits_defined(bits),
{
    fuser::FopenFlags::from_bits(bits).is_some()
}

/// Open reply: an opaque handle with the reconciled flag bits, or a
/// numeric error.
#[derive(Clone, Copy, Debug, PartialEq, Eq, Structural)]
pub enum OpenReply {
    Opened { fh: u64, flags: u32 },
    Error(i32),
}

/// Open and open-directory: the handler's handle and flags pass into
/// the opened reply, provided the flag bits are ones the protocol
/// defines - undefined bits are answered with the generic input/output
/// error, as is a bridge failure; an explicit handler error code passes
/// through unchanged.
pub fn open_reply(o: BridgeOutcome<ParamsOfOpenedOrErr>) -> (r: OpenReply)
    ensures
        (o matches BridgeOutcome::Value(ParamsOfOpenedOrErr::Params(p)) ==> (if fopen_bits_defined(
            p.flags,
        ) {
            r == (OpenReply::Opened { fh: p.fh as u64, flags: p.flags })
        } else {
            r == OpenReply::Error(EIO)
        })),
        (o matches BridgeOutcome::Value(ParamsOfOpenedOrErr::ErrCode(c)) ==> r == OpenReply::Error(
            c,
        )),
        (o is Failure ==> r == OpenReply::Error(EIO)),
{
    match o {
        BridgeOutcome::Value(ParamsOfOpenedOrErr::Params(p)) => {
            if fopen_flags_valid(p.flags) {
                OpenReply::Opened { fh: p.fh as u64, flags: p.flags }
            } else {
                OpenReply::Error(EIO)
            }
        },
        BridgeOutcome::Value(ParamsOfOpenedOrErr::ErrCode(code)) => OpenReply::Error(code),
        BridgeOutcome::Failure => OpenReply::Error(EIO),
    }
}

/// Raw-data reply: a byte payload, or a numeric error.
#[derive(Debug, PartialEq, Eq)]
pub enum DataReply {
    Data(Vec<u8>),
    Error(i32),
}

/// What a raw-data reply amounts to: its byte payload, or its error
/// code.
pub open spec fn data_reply_view(r: DataReply) -> Result<Seq<u8>, i32> {
    match r {
        DataReply::Data(d) => Result::Ok(d@),
        DataReply::Error(e) => Result::Err(e),
    }
}

/// The one raw-data reply a read envelope is owed: the handler's bytes
/// verbatim, an explicit handler error code unchanged, and the generic
/// input/output error for a bridge failure.
pub open spec fn spec_read_reply(o: BridgeOutcome<BufferOrErr>) -> Result<Seq<u8>, i32> {
    match o {
        BridgeOutcome::Value(BufferOrErr::Data(b)) => Result::Ok(b@),
        BridgeOutcome::Value(BufferOrErr::ErrCode(c)) => Result::Err(c),
        BridgeOutcome::Failure => Result::Err(EIO),
    }
}

/// Read: the reply is `spec_read_reply` of the envelope - the handler's
/// bytes pass through verbatim, an explicit handler error code passes
/// through unchanged, and a bridge failure is the generic input/output
/// error.
pub fn read_reply(o: BridgeOutcome<BufferOrErr>) -> (r: DataReply)
    ensures
        data_reply_view(r) == spec_read_reply(o),
{
    match o {
        BridgeOutcome::Value(BufferOrErr::Data(data)) => DataReply::Data(data),
        BridgeOutcome::Value(BufferOrErr::ErrCode(code)) => DataReply::Error(code),
        BridgeOutcome::Failure => DataReply::Error(EIO),
    }
}

/// Idempotence of reading: the reply is a mathematical function of the
/// envelope alone, so two read calls whose deterministic handler
/// produced the same envelope are answered with the same byte payload.
pub proof fn lemma_read_reply_idempotent(
    o1: BridgeOutcome<BufferOrErr>,
    o2: BridgeOutcome<BufferOrErr>,
)
    requires
        o1 == o2,
    ensures
        spec_read_reply(o1) == spec_read_reply(o2),
{
}

/// Bare status reply: plain success, or a numeric error.
#[derive(Clone, Copy, Debug, PartialEq, Eq, Structural)]
pub enum EmptyReply {
    Done,
    Error(i32),
}

/// Release and release-directory: best-effort - any value the handler
/// resolved with, its status code included, is answered as plain
/// success; only a bridge failure is surfaced, as the generic
/// input/output error.
pub fn release_reply(o: BridgeOutcome<i32>) -> (r: EmptyReply)
    ensures
        (o is Value ==> r == EmptyReply::Done),
        (o is Failure ==> r == EmptyReply::Error(EIO)),
{
    match o {
        BridgeOutcome::Value(_) => EmptyReply::Done,
        BridgeOutcome::Failure => EmptyReply::Error(EIO),
    }
}

/// Access check: the handler's code is a status, not a payload - the
/// "no error" sentinel zero is answered as plain success, any other
/// code as that error; a bridge failure is the generic input/output
/// error.
pub fn access_reply(o: BridgeOutcome<i32>) -> (r: EmptyReply)
    ensures
        (o matches BridgeOutcome::Value(c) ==> (if c == 0 {
            r == EmptyReply::Done
        } else {
            r == EmptyReply::Error(c)
        })),
        (o is Failure ==> r == EmptyReply::Error(EIO)),
{
    match o {
        BridgeOutcome::Value(code) => {
            if code == 0 {
                EmptyReply::Done
            } else {
                EmptyReply::Error(code)
            }
        },
        BridgeOutcome::Failure => EmptyReply::Error(EIO),
    }
}

/// Extended-attribute reply: the attribute bytes, the required size, or
/// a numeric error.
#[derive(Debug, PartialEq, Eq)]
pub enum XattrReply {
    Data(Vec<u8>),
    Size(u32),
    Error(i32),
}

/// Map an extended-attribute envelope onto its reply: each variant
/// passes through verbatim - in particular, a size answer to a
/// zero-size query stays a size, never bytes.
pub fn send_xattr(xattr: XAttrBytesOrErr) -> (r: XattrReply)
    ensures
        (xattr matches XAttrBytesOrErr::Data(b) ==> (r matches XattrReply::Data(d) && d@ == b@)),
        (xattr matches XAttrBytesOrErr::Size(s) ==> r == XattrReply::Size(s)),
        (xattr matches XAttrBytesOrErr::ErrCode(c) ==> r == XattrReply::Error(c)),
{
    match xattr {
        XAttrBytesOrErr::Data(data) => XattrReply::Data(data),
        XAttrBytesOrErr::Size(size) => XattrReply::Size(size),
        XAttrBytesOrErr::ErrCode(code) => XattrReply::Error(code),
    }
}

/// Extended-attribute query and listing: the handler's envelope passes
/// through `send_xattr`; a bridge failure is the generic input/output
/// error.
pub fn xattr_reply(o: BridgeOutcome<XAttrBytesOrErr>) -> (r: XattrReply)
    ensures
        (o matches BridgeOutcome::Value(XAttrBytesOrErr::Data(b)) ==> (r matches XattrReply::Data(
            d,
        ) && d@ == b@)),
        (o matches BridgeOutcome::Value(XAttrBytesOrErr::Size(s)) ==> r == XattrReply::Size(s)),
        (o matches BridgeOutcome::Value(XAttrBytesOrErr::ErrCode(c)) ==> r == XattrReply::Error(
            c,
        )),
        (o is Failure ==> r == XattrReply::Error(EIO)),
{
    match o {
        BridgeOutcome::Value(xattr) => send_xattr(xattr),
        BridgeOutcome::Failure => XattrReply::Error(EIO),
    }
}

/// Reading the target of a symbolic link has no handler: it is answered
/// immediately with the fixed "not implemented" error, without any call
/// reaching the handler registry - this function consumes no envelope
/// at all.
pub fn readlink_reply() -> (r: DataReply)
    ensures
        r == DataReply::Error(ENOSYS),
{
    DataReply::Error(ENOSYS)
}

/// Filesystem-statistics reply: the fixed per-field values.
#[derive(Clone, Copy, Debug, PartialEq, Eq, Structural)]
pub struct StatfsReply {
    pub blocks: u64,
    pub bfree: u64,
    pub bavail: u64,
    pub files: u64,
    pub ffree: u64,
    pub bsize: u32,
    pub namelen: u32,
    pub frsize: u32,
}

/// Filesystem statistics have no handler: the reply is fixed - empty
/// counts, the block size, and a 255-byte name limit.
pub fn statfs_reply() -> (r: StatfsReply)
    ensures
        r.blocks == 0 && r.bfree == 0 && r.bavail == 0 && r.files == 0 && r.ffree == 0,
        r.bsize == BLOCK_SIZE as u32,
        r.namelen == 255,
        r.frsize == BLOCK_SIZE as u32,
{
    StatfsReply {
        blocks: 0,
        bfree: 0,
        bavail: 0,
        files: 0,
        ffree: 0,
        bsize: BLOCK_SIZE as u32,
        namelen: 255,
        frsize: BLOCK_SIZE as u32,
    }
}

/// An optional file handle, shaped into the plain integer form the
/// handlers receive.
pub fn fh_opt_i64(x: Option<u64>) -> (r: Option<i64>)
    ensures
        r == match x {
            Option::Some(n) => Option::Some(n as i64),
            Option::None => Option::None::<i64>,
        },
{
    match x {
        Option::Some(n) => Option::Some(n as i64),
        Option::None => Option::None,
    }
}

/// An optional lock owner, shaped into the plain integer form the
/// handlers receive.
pub fn lo_opt_i64(x: Option<u64>) -> (r: Option<i64>)
    ensures
        r == match x {
            Option::Some(n) => Option::Some(n as i64),
            Option::None => Option::None::<i64>,
        },
{
    match x {
        Option::Some(n) => Option::Some(n as i64),
        Option::None => Option::None,
    }
}

/// Shape a read call's arguments for the handler.
pub fn read_call_args(offset: u64, size: u32, flags: i32, lock_owner: Option<u64>) -> (a:
    crate::envelope::ReadArgs)
    ensures
        a.offset == offset as i64,
        a.size == size,
        a.flags == flags,
        a.lock_owner == match lock_owner {
            Option::Some(n) => Option::Some(n as i64),
            Option::None => Option::None::<i64>,
        },
{
    crate::envelope::ReadArgs { offset: offset as i64, size, flags, lock_owner: lo_opt_i64(lock_owner) }
}

/// Shape an attribute update's pending changes for the handler: the
/// mode, owner, group and platform flag bits, each only where the
/// caller asked for a change.  The protocol's size and time arguments
/// have no handler-side counterpart and are not forwarded.
pub fn setattr_changes(
    mode: Option<u32>,
    uid: Option<u32>,
    gid: Option<u32>,
    flags: Option<u32>,
) -> (c: crate::envelope::AttrChanges)
    ensures
        c.mode == mode,
        c.uid == uid,
        c.gid == gid,
        c.flags == flags,
{
    crate::envelope::AttrChanges { mode, uid, gid, flags }
}

/// Shape a release call's arguments for the handler.
pub fn release_call_args(flags: i32, flush: bool, lock_owner: Option<u64>) -> (a:
    crate::envelope::ReleaseArgs)
    ensures
        a.flags == flags,
        a.flush == flush,
        a.lock_owner == match lock_owner {
            Option::Some(n) => Option::Some(n as i64),
            Option::None => Option::None::<i64>,
        },
{
    crate::envelope::ReleaseArgs { flags, flush, lock_owner: lo_opt_i64(lock_owner) }
}

} // verus!
