//! Directory-listing translation: the handler's entries are appended,
//! in order, to the protocol's outgoing buffer until it reports "full",
//! and the terminal "ok" signal is then sent exactly once.

use vstd::prelude::*;

use crate::attrs::InodeKind;
use crate::bridge::BridgeOutcome;
use crate::envelope::DirEntry;
use crate::envelope::DirListing;
use crate::proxy::EmptyReply;
use crate::proxy::EIO;

verus! {

/// One entry as it sits in the outgoing directory buffer: the child
/// node's id, the entry's cursor token, kind and name.
#[derive(Clone, Debug, PartialEq, Eq)]
pub struct DirSlot {
    pub ino: u64,
    pub offset: u64,
    pub kind: InodeKind,
    pub name: String,
}

/// How a handler-reported entry appears in the buffer: its own child
/// inode, its cursor token, kind and name, the integers in the
/// protocol's unsigned shape.
pub open spec fn dir_slot_of(e: DirEntry) -> DirSlot {
    DirSlot { ino: e.ino as u64, offset: e.offset as u64, kind: e.kind, name: e.name }
}

/// The protocol's outgoing directory buffer, seen through its
/// interface: it accepts appended entries until it is full, and reports
/// "full" instead of accepting more.  The real buffer measures fullness
/// in accumulated bytes; this realization counts entries - the
/// interface, append until the full signal, is the same.
pub struct DirBuffer {
    cap: usize,
    slots: Vec<DirSlot>,
}

impl DirBuffer {
    /// How many entries the buffer accepts in all.
    pub closed spec fn capacity(&self) -> nat {
        self.cap as nat
    }

    /// The entries accepted so far, oldest first.
    pub closed spec fn contents(&self) -> Seq<DirSlot> {
        self.slots@
    }

    /// An empty buffer that accepts `cap` entries.
    pub fn new(cap: usize) -> (b: DirBuffer)
        ensures
            b.capacity() == cap,
            b.contents() == Seq::<DirSlot>::empty(),
    {
        DirBuffer { cap, slots: Vec::new() }
    }

    /// Append one entry, or report "full" and leave the buffer as it
    /// was.
    pub fn add(&mut self, ino: u64, offset: u64, kind: InodeKind, name: String) -> (full: bool)
        ensures
            final(self).capacity() == old(self).capacity(),
            full <==> old(self).contents().len() >= old(self).capacity(),
            full ==> final(self).contents() == old(self).contents(),
            !full ==> final(self).contents() == old(self).contents().push(
                (DirSlot { ino, offset, kind, name }),
            ),
    {
        if self.slots.len() >= self.cap {
            true
        } else {
            self.slots.push(DirSlot { ino, offset, kind, name });
            false
        }
    }

    /// Hand the accepted entries out, consuming the buffer.
    pub fn into_slots(self) -> (v: Vec<DirSlot>)
        ensures
            v@ == self.contents(),
    {
        self.slots
    }
}

/// How many of `n` offered entries a buffer with capacity `cap` and
/// `have` entries already in it accepts.
pub open spec fn fill_count(cap: nat, have: nat, n: nat) -> nat {
    if have >= cap {
        0
    } else if n <= cap - have {
        n
    } else {
        (cap - have) as nat
    }
}

/// Append the handler's entries to the buffer, in order, each under its
/// own child inode, stopping at the first "full" report; the entries
/// past that point are simply not sent in this call.
pub fn fill_dir_buffer(entries: &Vec<DirEntry>, buf: &mut DirBuffer)
    ensures
        final(buf).capacity() == old(buf).capacity(),
        ({
            let k = fill_count(old(buf).capacity(), old(buf).contents().len(), entries@.len());
            &&& final(buf).contents().len() == old(buf).contents().len() + k
            &&& (forall|j: int|
                0 <= j < old(buf).contents().len() ==> final(buf).contents()[j] == old(
                    buf,
                ).contents()[j])
            &&& (forall|j: int|
                0 <= j < k ==> final(buf).contents()[old(buf).contents().len() + j] == dir_slot_of(
                    entries@[j],
                ))
        }),
{
    let ghost cap = buf.capacity();
    let ghost have = buf.contents();
    let ghost k = fill_count(cap, have.len(), entries@.len());
    let mut i: usize = 0;
    while i < entries.len()
        invariant_except_break
            i <= entries@.len(),
            i <= k,
            buf.capacity() == cap,
            buf.contents().len() == have.len() + i,
            have.len() + i <= cap || i == 0,
            forall|j: int| 0 <= j < have.len() ==> buf.contents()[j] == have[j],
            forall|j: int| 0 <= j < i ==> buf.contents()[have.len() + j] == dir_slot_of(
                entries@[j],
            ),
            k == fill_count(cap, have.len(), entries@.len()),
        ensures
            buf.capacity() == cap,
            buf.contents().len() == have.len() + k,
            forall|j: int| 0 <= j < have.len() ==> buf.contents()[j] == have[j],
            forall|j: int| 0 <= j < k ==> buf.contents()[have.len() + j] == dir_slot_of(
                entries@[j],
            ),
        decreases entries@.len() - i,
    {
        let e = &entries[i];
        let full = buf.add(e.ino as u64, e.offset as u64, e.kind, e.name.clone());
        if full {
            break;
        }
        i = i + 1;
    }
}

/// Directory listing: the handler's entries are appended in order, each
/// under its own child inode, until the buffer reports "full", and the
/// terminal "ok" signal is then sent - exactly once, whether or not the
/// listing was cut short, and never on an error path.  An explicit
/// handler error code passes through unchanged; a bridge failure is the
/// generic input/output error; on either error the buffer is left
/// untouched.
pub fn readdir_reply(o: BridgeOutcome<DirListing>, buf: &mut DirBuffer) -> (r: EmptyReply)
    ensures
        final(buf).capacity() == old(buf).capacity(),
        (o matches BridgeOutcome::Value(DirListing::Lst(l)) ==> ({
            let k = fill_count(old(buf).capacity(), old(buf).contents().len(), l@.len());
            &&& r == EmptyReply::Done
            &&& final(buf).contents().len() == old(buf).contents().len() + k
            &&& (forall|j: int|
                0 <= j < old(buf).contents().len() ==> final(buf).contents()[j] == old(
                    buf,
                ).contents()[j])
            &&& (forall|j: int|
                0 <= j < k ==> final(buf).contents()[old(buf).contents().len() + j] == dir_slot_of(
                    l@[j],
                ))
        })),
        (o matches BridgeOutcome::Value(DirListing::ErrCode(c)) ==> r == EmptyReply::Error(c)
            && final(buf).contents() == old(buf).contents()),
        (o is Failure ==> r == EmptyReply::Error(EIO) && final(buf).contents() == old(
            buf,
        ).contents()),
{
    match o {
        BridgeOutcome::Value(DirListing::Lst(lst)) => {
            fill_dir_buffer(&lst, buf);
            EmptyReply::Done
        },
        BridgeOutcome::Value(DirListing::ErrCode(code)) => EmptyReply::Error(code),
        BridgeOutcome::Failure => EmptyReply::Error(EIO),
    }
}

} // verus!
