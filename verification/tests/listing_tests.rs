use fsbridge::attrs::InodeKind;
use fsbridge::bridge::BridgeOutcome;
use fsbridge::dir::readdir_reply;
use fsbridge::dir::DirBuffer;
use fsbridge::envelope::DirEntry;
use fsbridge::envelope::DirListing;
use fsbridge::proxy::EmptyReply;
use fsbridge::proxy::EIO;

fn entry(name: &str, offset: i64) -> DirEntry {
    DirEntry { ino: 7, offset, kind: InodeKind::File, name: name.to_string() }
}

#[test]
fn listing_cut_short_after_two_appends() {
    let listing = DirListing::Lst(vec![entry("a", 1), entry("b", 2), entry("c", 3)]);
    let mut buf = DirBuffer::new(2);
    let r = readdir_reply(BridgeOutcome::Value(listing), &mut buf);
    assert_eq!(r, EmptyReply::Done);
    let sent = buf.into_slots();
    assert_eq!(sent.len(), 2);
    assert_eq!(sent[0].name, "a");
    assert_eq!(sent[0].offset, 1);
    assert_eq!(sent[0].ino, 7);
    assert_eq!(sent[1].name, "b");
    assert_eq!(sent[1].offset, 2);
}

#[test]
fn listing_that_fits_is_sent_whole_in_order() {
    let listing = DirListing::Lst(vec![entry("x", 10), entry("y", 20)]);
    let mut buf = DirBuffer::new(16);
    let r = readdir_reply(BridgeOutcome::Value(listing), &mut buf);
    assert_eq!(r, EmptyReply::Done);
    let sent = buf.into_slots();
    assert_eq!(sent.len(), 2);
    assert_eq!(sent[0].name, "x");
    assert_eq!(sent[1].name, "y");
    assert_eq!(sent[0].kind, InodeKind::File);
}

#[test]
fn empty_listing_is_terminal_ok_alone() {
    let mut buf = DirBuffer::new(4);
    let r = readdir_reply(BridgeOutcome::Value(DirListing::Lst(vec![])), &mut buf);
    assert_eq!(r, EmptyReply::Done);
    assert_eq!(buf.into_slots().len(), 0);
}

#[test]
fn full_buffer_accepts_nothing() {
    let mut buf = DirBuffer::new(0);
    let full = buf.add(1, 1, InodeKind::Directory, "z".to_string());
    assert!(full);
    let listing = DirListing::Lst(vec![entry("a", 1)]);
    let r = readdir_reply(BridgeOutcome::Value(listing), &mut buf);
    assert_eq!(r, EmptyReply::Done);
    assert_eq!(buf.into_slots().len(), 0);
}

#[test]
fn partly_filled_buffer_takes_the_remainder() {
    let mut buf = DirBuffer::new(2);
    let full = buf.add(1, 1, InodeKind::File, "old".to_string());
    assert!(!full);
    let listing = DirListing::Lst(vec![entry("a", 1), entry("b", 2), entry("c", 3)]);
    let r = readdir_reply(BridgeOutcome::Value(listing), &mut buf);
    assert_eq!(r, EmptyReply::Done);
    let sent = buf.into_slots();
    assert_eq!(sent.len(), 2);
    assert_eq!(sent[0].name, "old");
    assert_eq!(sent[1].name, "a");
}

#[test]
fn listing_error_passes_unchanged_and_sends_nothing() {
    let mut buf = DirBuffer::new(4);
    let r = readdir_reply(BridgeOutcome::Value(DirListing::ErrCode(20)), &mut buf);
    assert_eq!(r, EmptyReply::Error(20));
    assert_eq!(buf.into_slots().len(), 0);
}

#[test]
fn listing_bridge_failure_is_generic_io_error() {
    let mut buf = DirBuffer::new(4);
    let r = readdir_reply(BridgeOutcome::Failure, &mut buf);
    assert_eq!(r, EmptyReply::Error(EIO));
    assert_eq!(buf.into_slots().len(), 0);
}

#[test]
fn entries_keep_their_own_inode() {
    let listing = DirListing::Lst(vec![DirEntry {
        ino: 99,
        offset: 5,
        kind: InodeKind::SymLink,
        name: "link".to_string(),
    }]);
    let mut buf = DirBuffer::new(8);
    readdir_reply(BridgeOutcome::Value(listing), &mut buf);
    let sent = buf.into_slots();
    assert_eq!(sent[0].ino, 99);
    assert_eq!(sent[0].kind, InodeKind::SymLink);
}
