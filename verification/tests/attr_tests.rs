use fsbridge::attrs::blocks_in;
use fsbridge::attrs::FileAttr;
use fsbridge::attrs::InodeKind;
use fsbridge::attrs::BLOCK_SIZE;
use fsbridge::bridge::BridgeOutcome;
use fsbridge::envelope::FileAttrOrErr;
use fsbridge::proxy::attr_reply;
use fsbridge::proxy::lookup_reply;
use fsbridge::proxy::AttrReply;
use fsbridge::proxy::EntryReply;
use fsbridge::proxy::EIO;

fn sample_attr() -> FileAttr {
    FileAttr {
        ino: 42,
        size: 1024,
        mtime: 1_000,
        ctime: 2_000,
        btime: 3_000,
        kind: InodeKind::File,
        perm: 0o644,
        uid: 1000,
        gid: 100,
        rdev: 0,
        flags: 0,
    }
}

#[test]
fn blocks_in_rounds_up() {
    assert_eq!(blocks_in(0), 0);
    assert_eq!(blocks_in(1), 1);
    assert_eq!(blocks_in(4095), 1);
    assert_eq!(blocks_in(4096), 1);
    assert_eq!(blocks_in(4097), 2);
    assert_eq!(blocks_in(u64::MAX), u64::MAX / BLOCK_SIZE + 1);
}

#[test]
fn translation_fills_derived_fields() {
    let t = sample_attr().into_fuse();
    assert_eq!(t.ino, 42);
    assert_eq!(t.size, 1024);
    assert_eq!(t.blocks, 1);
    assert_eq!(t.blksize, 4096);
    assert_eq!(t.nlink, 1);
    assert_eq!(t.kind, InodeKind::File);
    assert_eq!(t.perm, 0o644);
    assert_eq!(t.uid, 1000);
    assert_eq!(t.gid, 100);
    assert_eq!(t.rdev, 0);
    assert_eq!(t.flags, 0);
}

#[test]
fn translation_times_pass_verbatim() {
    let t = sample_attr().into_fuse();
    assert_eq!(t.mtime_ms, 1_000);
    assert_eq!(t.atime_ms, t.mtime_ms);
    assert_eq!(t.ctime_ms, 2_000);
    assert_eq!(t.crtime_ms, 3_000);
}

#[test]
fn translation_repeats_identically() {
    let a = sample_attr();
    assert_eq!(a.into_fuse(), a.into_fuse());
}

#[test]
fn lookup_reflects_attributes_verbatim() {
    let r = lookup_reply(BridgeOutcome::Value(FileAttrOrErr::Attr(sample_attr())));
    match r {
        EntryReply::Entry { attr, ttl_secs, generation } => {
            assert_eq!(attr.ino, 42);
            assert_eq!(attr.size, 1024);
            assert_eq!(attr.kind, InodeKind::File);
            assert_eq!(ttl_secs, 1);
            assert_eq!(generation, 0);
        }
        EntryReply::Error(_) => panic!("attributes must become an entry reply"),
    }
}

#[test]
fn lookup_passes_error_code_unchanged() {
    let r = lookup_reply(BridgeOutcome::Value(FileAttrOrErr::ErrCode(2)));
    assert_eq!(r, EntryReply::Error(2));
}

#[test]
fn lookup_failure_is_generic_io_error() {
    assert_eq!(lookup_reply(BridgeOutcome::Failure), EntryReply::Error(EIO));
    assert_eq!(EIO, 5);
}

#[test]
fn getattr_reflects_attributes_with_validity() {
    let r = attr_reply(BridgeOutcome::Value(FileAttrOrErr::Attr(sample_attr())));
    match r {
        AttrReply::Attr { attr, ttl_secs } => {
            assert_eq!(attr.ino, 42);
            assert_eq!(attr.size, 1024);
            assert_eq!(ttl_secs, 1);
        }
        AttrReply::Error(_) => panic!("attributes must become an attribute reply"),
    }
}

#[test]
fn setattr_error_passes_unchanged() {
    assert_eq!(
        attr_reply(BridgeOutcome::Value(FileAttrOrErr::ErrCode(13))),
        AttrReply::Error(13)
    );
    assert_eq!(attr_reply(BridgeOutcome::Failure), AttrReply::Error(EIO));
}
