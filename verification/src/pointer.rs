use crate::heap::{HeapId, MIN_TRAILING_ZEROS};
use crate::offset::{LogOffset, Lsn, TruncatedLogOffset, OFFSET_LIMIT};
use crate::resident::{
    node_lids, opt_lid_seq, Guard, LogAndHeap, PersistedCounter, PersistedMeta, PersistedNode,
    ResidentRecord, ResidentStore,
};
use crate::size_class::SizeClass;
use vstd::arithmetic::power2::pow2;
use vstd::pervasive::unreached;
use vstd::prelude::*;

verus! {

/// The five meaningful values of a pointer's kind byte, plus the sentinel
/// that a page-table slot holds before any pointer has been installed.
#[derive(Clone, Copy, Debug, PartialEq, Eq, Structural)]
pub enum PointerKind {
    InMemory,
    Heap,
    Log,
    LogAndHeap,
    Free,
    Unassigned,
}

/// The byte value that encodes each kind in the pointer's last byte.
pub open spec fn kind_tag(k: PointerKind) -> u64 {
    match k {
        PointerKind::InMemory => 0,
        PointerKind::Heap => 1,
        PointerKind::Log => 2,
        PointerKind::LogAndHeap => 3,
        PointerKind::Free => 4,
        PointerKind::Unassigned => 5,
    }
}

/// A pointer to a page that may be in memory or paged out, packed into a
/// single 8-byte value so that an external page table can load and
/// compare-and-swap it atomically.
///
/// Taking byte 0 as the first byte of the little-endian representation of
/// the packed integer, the layout is:
///
/// | bytes 0-5 | byte 6              | byte 7            |
/// |-----------|---------------------|-------------------|
/// | payload   | size-class exponent | kind discriminant |
///
/// Equivalently, over the packed integer: the payload is the low 48 bits,
/// the size-class exponent is bits 48-55, and the kind is bits 56-63.
/// The payload holds, depending on the kind: the 48-bit handle of a
/// resident record (`InMemory`, `LogAndHeap`), a 32-bit heap-slot index in
/// its low 4 bytes (`Heap`), or a 48-bit log offset (`Log`, `Free`).
#[derive(Clone, Copy, Debug, PartialEq, Eq, Structural)]
pub struct PagePointer {
    bits: u64,
}

impl View for PagePointer {
    type V = u64;

    closed spec fn view(&self) -> u64 {
        self.bits
    }
}

/// Packing a kind tag, a size-class exponent, and a 48-bit payload into one
/// 8-byte value.
pub closed spec fn pack(tag: u64, size: u8, payload: u64) -> PagePointer {
    PagePointer { bits: payload | ((size as u64) << 48) | (tag << 56) }
}

/// The bits of an `InMemory` pointer to the resident record at `addr`.
pub open spec fn spec_new_in_memory(size_po2: u8, addr: u64) -> PagePointer {
    pack(kind_tag(PointerKind::InMemory), size_po2, addr)
}

/// The bits of a `Heap` pointer to the given slab coordinates.
pub open spec fn spec_new_heap(heap_id: HeapId) -> PagePointer {
    pack(
        kind_tag(PointerKind::Heap),
        (heap_id.slab + MIN_TRAILING_ZEROS) as u8,
        heap_id.index as u64,
    )
}

/// The bits of a log-located pointer (`Log` or `LogAndHeap` tag) at the
/// given offset.
pub open spec fn spec_new_log(size_class: SizeClass, at: u64, kind: PointerKind) -> PagePointer {
    pack(kind_tag(kind), size_class.exp_spec(), at)
}

/// The bits of a `Free` pointer marking a reclaimed log position.
pub open spec fn spec_new_free(at: u64) -> PagePointer {
    pack(kind_tag(PointerKind::Free), 0, at)
}

impl PagePointer {
    /// The kind discriminant: the last byte of the value.
    pub open spec fn kind_byte(self) -> u64 {
        self@ >> 56
    }

    /// The size-class exponent: the second-to-last byte of the value.
    pub open spec fn size_exp(self) -> u8 {
        ((self@ >> 48) & 0xff) as u8
    }

    /// The kind-dependent payload: the low 6 bytes of the value.
    pub open spec fn payload(self) -> u64 {
        self@ & 0xffff_ffff_ffff
    }

    /// The low 4 bytes of the payload, read by `Heap`-kind pointers as a
    /// slot index.
    pub open spec fn heap_index(self) -> u32 {
        (self@ & 0xffff_ffff) as u32
    }

    /// The kind denoted by the kind byte; every byte outside the five
    /// meaningful tags is treated as the unassigned sentinel.
    pub open spec fn spec_kind(self) -> PointerKind {
        if self.kind_byte() == 0 {
            PointerKind::InMemory
        } else if self.kind_byte() == 1 {
            PointerKind::Heap
        } else if self.kind_byte() == 2 {
            PointerKind::Log
        } else if self.kind_byte() == 3 {
            PointerKind::LogAndHeap
        } else if self.kind_byte() == 4 {
            PointerKind::Free
        } else {
            PointerKind::Unassigned
        }
    }

    /// The log offset a pointer embeds, if its kind embeds one: `Log` and
    /// `Free` pointers carry an offset as their payload; no other kind does.
    pub open spec fn spec_lid(self) -> Option<LogOffset> {
        if self.spec_kind() == PointerKind::Log || self.spec_kind() == PointerKind::Free {
            Some(self.payload())
        } else {
            None
        }
    }

    /// The packed form, for an atomic load or compare-and-swap in the
    /// external page table.
    pub fn to_u64(&self) -> (r: u64)
        ensures
            r == self@,
    {
        self.bits
    }

    /// Rebuild a pointer from its packed form.
    pub fn from_u64(u: u64) -> (r: PagePointer)
        ensures
            r@ == u,
    {
        PagePointer { bits: u }
    }

    /// Pack an `InMemory` pointer.  `addr` is the 48-bit handle of the
    /// resident record the pointer addresses; handles of 2^48 or more are
    /// rejected up front (the address-space assumption of the byte layout).
    pub fn new_in_memory(size_po2: u8, addr: u64) -> (r: PagePointer)
        requires
            addr < OFFSET_LIMIT,
        ensures
            r == spec_new_in_memory(size_po2, addr),
            r.spec_kind() == PointerKind::InMemory,
            r.size_exp() == size_po2,
            r.payload() == addr,
    {
        let bits: u64 = addr | ((size_po2 as u64) << 48);
        proof {
            assert((addr | ((size_po2 as u64) << 48) | (0u64 << 56)) == (addr | ((size_po2
                as u64) << 48)) && (bits >> 56) == 0 && ((bits >> 48) & 0xff) == size_po2 && (bits
                & 0xffff_ffff_ffff) == addr) by (bit_vector)
                requires
                    addr < 0x1_0000_0000_0000,
                    bits == addr | ((size_po2 as u64) << 48),
            ;
        }
        PagePointer { bits }
    }

    /// Pack a `Heap` pointer from slab coordinates: the slot index becomes
    /// the low 4 payload bytes and the slab index, shifted up by the slab
    /// floor, becomes the size-class byte.
    pub fn new_heap(heap_id: HeapId) -> (r: PagePointer)
        requires
            heap_id.slab + MIN_TRAILING_ZEROS <= u8::MAX,
        ensures
            r == spec_new_heap(heap_id),
            r.spec_kind() == PointerKind::Heap,
            r.size_exp() == heap_id.slab + MIN_TRAILING_ZEROS,
            r.heap_index() == heap_id.index,
            r.payload() == heap_id.index,
    {
        let size_po2: u8 = heap_id.slab + MIN_TRAILING_ZEROS;
        let index: u32 = heap_id.index;
        let bits: u64 = (index as u64) | ((size_po2 as u64) << 48) | (1u64 << 56);
        proof {
            assert((bits >> 56) == 1 && ((bits >> 48) & 0xff) == size_po2 && (bits
                & 0xffff_ffff_ffff) == index && ((bits & 0xffff_ffff) as u32) == index)
                by (bit_vector)
                requires
                    bits == (index as u64) | ((size_po2 as u64) << 48) | (1u64 << 56),
            ;
        }
        PagePointer { bits }
    }

    /// Pack a pointer whose payload is a log offset.  The kind is an
    /// explicit parameter restricted to the two log-carrying tags: a plain
    /// `Log` pointer for data living solely in the log, or a `LogAndHeap`
    /// tag where a caller deliberately keeps the pre-compaction marking.
    pub fn new_log(size_class: SizeClass, at: LogOffset, kind: PointerKind) -> (r: PagePointer)
        requires
            at < OFFSET_LIMIT,
            kind == PointerKind::Log || kind == PointerKind::LogAndHeap,
        ensures
            r == spec_new_log(size_class, at, kind),
            r.spec_kind() == kind,
            r.size_exp() == size_class.exp_spec(),
            r.payload() == at,
    {
        let truncated = TruncatedLogOffset::from_u64(at);
        let off: u64 = truncated.to_lid();
        let exp: u8 = size_class.exp();
        let tag: u64 = if matches!(kind, PointerKind::Log) {
            2
        } else {
            3
        };
        let bits: u64 = off | ((exp as u64) << 48) | (tag << 56);
        proof {
            assert((bits >> 56) == tag && ((bits >> 48) & 0xff) == exp && (bits
                & 0xffff_ffff_ffff) == off) by (bit_vector)
                requires
                    off < 0x1_0000_0000_0000,
                    tag == 2 || tag == 3,
                    bits == off | ((exp as u64) << 48) | (tag << 56),
            ;
        }
        PagePointer { bits }
    }

    /// Pack a `Free` pointer marking a reclaimed log position; the
    /// size-class byte of a free pointer is always zero.
    pub fn new_free(at: LogOffset) -> (r: PagePointer)
        requires
            at < OFFSET_LIMIT,
        ensures
            r == spec_new_free(at),
            r.spec_kind() == PointerKind::Free,
            r.size_exp() == 0,
            r.payload() == at,
            r.spec_lid() == Some(at),
    {
        let truncated = TruncatedLogOffset::from_u64(at);
        let off: u64 = truncated.to_lid();
        let bits: u64 = off | (4u64 << 56);
        proof {
            assert((off | (0u64 << 48) | (4u64 << 56)) == (off | (4u64 << 56)) && (bits >> 56) == 4
                && ((bits >> 48) & 0xff) == 0 && (bits & 0xffff_ffff_ffff) == off) by (bit_vector)
                requires
                    off < 0x1_0000_0000_0000,
                    bits == off | (4u64 << 56),
            ;
        }
        PagePointer { bits }
    }

    /// Decode the pointer into a strongly typed view of its payload.  The
    /// decoding is total: a kind byte outside the five meaningful tags
    /// (including the default sentinel) decodes to `Unassigned` instead of
    /// being treated as unreachable.
    pub fn read(&self) -> (r: PointerRead)
        ensures
            r.matches_pointer(*self),
    {
        let bits = self.bits;
        let tag: u64 = bits >> 56;
        let exp: u8 = ((bits >> 48) & 0xff) as u8;
        let size_po2 = SizeClass::from_exp(exp);
        let payload: u64 = bits & 0xffff_ffff_ffff;
        proof {
            assert((bits & 0xffff_ffff_ffff) < 0x1_0000_0000_0000 && ((bits & 0xffff_ffff_ffff)
                & 0xffff_ffff) == (bits & 0xffff_ffff)) by (bit_vector);
        }
        if tag == 0 {
            PointerRead::InMemory { size_po2, addr: payload }
        } else if tag == 1 {
            let heap_index: u32 = (payload & 0xffff_ffff) as u32;
            PointerRead::Heap { size_po2, heap_index }
        } else if tag == 2 {
            PointerRead::Log { size_po2, base: TruncatedLogOffset::from_u64(payload) }
        } else if tag == 3 {
            PointerRead::LogAndHeap { size_po2, addr: payload }
        } else if tag == 4 {
            PointerRead::Free { base: TruncatedLogOffset::from_u64(payload) }
        } else {
            PointerRead::Unassigned
        }
    }

    /// The embedded log offset of a `Log` or `Free` pointer; other kinds
    /// embed none.
    pub fn lid(&self) -> (r: Option<LogOffset>)
        ensures
            r == self.spec_lid(),
    {
        let tag: u64 = self.bits >> 56;
        if tag == 2 || tag == 4 {
            Some(self.bits & 0xffff_ffff_ffff)
        } else {
            None
        }
    }

    /// Whether the payload addresses the heap store, alone (`Heap`) or
    /// alongside a log copy (`LogAndHeap`).
    pub fn is_heap_item(&self) -> (r: bool)
        ensures
            r == (self.spec_kind() == PointerKind::LogAndHeap || self.spec_kind()
                == PointerKind::Heap),
    {
        let tag: u64 = self.bits >> 56;
        tag == 3 || tag == 1
    }

    /// The slab coordinates of a `Heap` pointer.  Calling this on any other
    /// kind is a contract violation, so the kind is required up front; the
    /// size-class byte must also be at least the slab floor, as every
    /// packed heap pointer's is.
    pub fn heap_id(&self) -> (r: HeapId)
        requires
            self.spec_kind() == PointerKind::Heap,
            self.size_exp() >= MIN_TRAILING_ZEROS,
        ensures
            r.slab == self.size_exp() - MIN_TRAILING_ZEROS,
            r.index == self.heap_index(),
    {
        let size_po2: u8 = ((self.bits >> 48) & 0xff) as u8;
        let index: u32 = (self.bits & 0xffff_ffff) as u32;
        HeapId { slab: size_po2 - MIN_TRAILING_ZEROS, index }
    }

    /// Whether the page still lives in both the log and the heap store,
    /// awaiting compaction.
    pub fn is_lone_log_and_heap(&self) -> (r: bool)
        ensures
            r == (self.spec_kind() == PointerKind::LogAndHeap),
    {
        let tag: u64 = self.bits >> 56;
        tag == 3
    }

    /// Whether the page's data lives inline in the log.
    pub fn is_inline(&self) -> (r: bool)
        ensures
            r == (self.spec_kind() == PointerKind::Log),
    {
        let tag: u64 = self.bits >> 56;
        tag == 2
    }

    /// Whether a snapshot may safely embed this pointer's location as-is:
    /// every kind but the transient `LogAndHeap` marking is already
    /// consolidated.
    pub fn is_merged_into_snapshot(&self) -> (r: bool)
        ensures
            r == (self.spec_kind() != PointerKind::LogAndHeap),
    {
        let tag: u64 = self.bits >> 56;
        tag != 3
    }

    /// Pack a `LogAndHeap` pointer for a page that, pre-compaction, lives
    /// both at `lid` in the log and at `heap_id` in the heap store: the
    /// combined record is placed in the resident store and the pointer
    /// carries its handle.  The record must eventually be handed to
    /// deferred destruction when the pointer is superseded.
    pub fn new_log_and_heap(
        size: SizeClass,
        lid: LogOffset,
        heap_id: HeapId,
        lsn: Lsn,
        store: &mut ResidentStore,
    ) -> (r: PagePointer)
        requires
            lid < OFFSET_LIMIT,
            old(store)@.len() < OFFSET_LIMIT,
        ensures
            r.spec_kind() == PointerKind::LogAndHeap,
            r.size_exp() == size.exp_spec(),
            r.payload() == old(store)@.len(),
            final(store)@.len() == old(store)@.len() + 1,
            forall|i: int| 0 <= i < old(store)@.len() ==> final(store)@[i] == old(store)@[i],
            final(store)@[r.payload() as int] matches ResidentRecord::LogAndHeap { rec }
                && rec.log_offset@ == lid && rec.heap_id == heap_id && rec.log_lsn == lsn,
    {
        let rec = LogAndHeap { log_offset: TruncatedLogOffset::from_u64(lid), heap_id, log_lsn: lsn };
        let addr = store.insert(ResidentRecord::LogAndHeap { rec });
        let exp: u8 = size.exp();
        let bits: u64 = addr | ((exp as u64) << 48) | (3u64 << 56);
        proof {
            assert((bits >> 56) == 3 && ((bits >> 48) & 0xff) == exp && (bits
                & 0xffff_ffff_ffff) == addr) by (bit_vector)
                requires
                    addr < 0x1_0000_0000_0000,
                    bits == addr | ((exp as u64) << 48) | (3u64 << 56),
            ;
        }
        PagePointer { bits }
    }

    /// Collapse a `LogAndHeap` pointer down to the plain `Heap` pointer of
    /// its record's slab coordinates, once the log copy is no longer needed
    /// after compaction; any other kind is left untouched.
    pub fn forget_heap_log_coordinates(&mut self, store: &ResidentStore)
        requires
            old(self).spec_kind() == PointerKind::LogAndHeap ==> resolves_log_and_heap(
                store@,
                old(self).payload(),
            ) && store@[old(self).payload() as int]->rec.heap_id.slab + MIN_TRAILING_ZEROS
                <= u8::MAX,
        ensures
            *final(self) == spec_forget(*old(self), store@),
            old(self).spec_kind() != PointerKind::LogAndHeap ==> *final(self) == *old(self),
    {
        let tag: u64 = self.bits >> 56;
        if tag == 3 {
            let addr: u64 = self.bits & 0xffff_ffff_ffff;
            match store.get(addr) {
                ResidentRecord::LogAndHeap { rec } => {
                    *self = PagePointer::new_heap(rec.heap_id);
                },
                _ => unreached(),
            }
        }
    }
}

/// Whether `addr` resolves in the store to the combined record of a
/// `LogAndHeap` pointer.
pub open spec fn resolves_log_and_heap(records: Seq<ResidentRecord>, addr: u64) -> bool {
    addr < records.len() && records[addr as int] is LogAndHeap
}

/// What collapsing the heap/log coordinates leaves behind: a `LogAndHeap`
/// pointer becomes the `Heap` pointer of its record's coordinates, every
/// other pointer is unchanged.
pub open spec fn spec_forget(p: PagePointer, records: Seq<ResidentRecord>) -> PagePointer {
    if p.spec_kind() == PointerKind::LogAndHeap {
        spec_new_heap(records[p.payload() as int]->rec.heap_id)
    } else {
        p
    }
}

/// Collapsing heap/log coordinates is idempotent: a second application
/// leaves the `Heap` pointer the first one produced.
pub proof fn lemma_forget_idempotent(p: PagePointer, records: Seq<ResidentRecord>)
    ensures
        spec_forget(spec_forget(p, records), records) == spec_forget(p, records),
{
    if p.spec_kind() == PointerKind::LogAndHeap {
        let hid = records[p.payload() as int]->rec.heap_id;
        let sz: u8 = (hid.slab + MIN_TRAILING_ZEROS) as u8;
        let idx: u64 = hid.index as u64;
        assert(((idx | ((sz as u64) << 48) | (1u64 << 56)) >> 56) == 1) by (bit_vector)
            requires
                idx < 0x1_0000_0000,
        ;
        assert(spec_forget(p, records).spec_kind() == PointerKind::Heap);
    }
}

impl Default for PagePointer {
    /// A page-table slot starts out as the all-zero-payload `Unassigned`
    /// sentinel.
    fn default() -> (r: PagePointer)
        ensures
            r.spec_kind() == PointerKind::Unassigned,
            r.payload() == 0,
            r.size_exp() == 0,
    {
        proof {
            assert((0x0500_0000_0000_0000u64 >> 56) == 5 && ((0x0500_0000_0000_0000u64 >> 48)
                & 0xff) == 0 && (0x0500_0000_0000_0000u64 & 0xffff_ffff_ffff) == 0)
                by (bit_vector);
        }
        PagePointer { bits: 0x0500_0000_0000_0000 }
    }
}

/// A read-only, strongly typed decomposition of a [`PagePointer`]: one
/// variant per kind, holding that kind's decoded payload as plain data.
#[derive(Clone, Copy, Debug, PartialEq, Eq, Structural)]
pub enum PointerRead {
    Log { size_po2: SizeClass, base: TruncatedLogOffset },
    Free { base: TruncatedLogOffset },
    LogAndHeap { size_po2: SizeClass, addr: u64 },
    Heap { size_po2: SizeClass, heap_index: u32 },
    InMemory { size_po2: SizeClass, addr: u64 },
    Unassigned,
}

impl PointerRead {
    /// What it means for this decomposition to be the decoding of `p`: the
    /// variant corresponds to `p`'s kind and each field holds the matching
    /// slice of `p`'s payload.
    pub open spec fn matches_pointer(self, p: PagePointer) -> bool {
        match self {
            PointerRead::Log { size_po2, base } => p.spec_kind() == PointerKind::Log
                && size_po2.exp_spec() == p.size_exp() && base@ == p.payload(),
            PointerRead::Free { base } => p.spec_kind() == PointerKind::Free && base@
                == p.payload(),
            PointerRead::LogAndHeap { size_po2, addr } => p.spec_kind() == PointerKind::LogAndHeap
                && size_po2.exp_spec() == p.size_exp() && addr == p.payload(),
            PointerRead::Heap { size_po2, heap_index } => p.spec_kind() == PointerKind::Heap
                && size_po2.exp_spec() == p.size_exp() && heap_index == p.heap_index(),
            PointerRead::InMemory { size_po2, addr } => p.spec_kind() == PointerKind::InMemory
                && size_po2.exp_spec() == p.size_exp() && addr == p.payload(),
            PointerRead::Unassigned => p.spec_kind() == PointerKind::Unassigned,
        }
    }

    /// Whether this decoding marks a reclaimed page.
    pub fn is_free(&self) -> (r: bool)
        ensures
            r == (*self is Free),
    {
        matches!(self, PointerRead::Free { .. })
    }

    /// What resolving this decoding against the resident store requires of
    /// the store, given the page id the pointer was read through: a
    /// `LogAndHeap` handle must address a combined record, and an
    /// `InMemory` handle must address the record variant the page id
    /// dictates (id 0 the metadata page, id 1 the counter, any other id a
    /// node).  Kinds whose payload is self-contained require nothing.
    pub open spec fn resolves(self, pid: u64, records: Seq<ResidentRecord>) -> bool {
        match self {
            PointerRead::LogAndHeap { addr, .. } => addr < records.len() && records[addr as int]
                is LogAndHeap,
            PointerRead::InMemory { addr, .. } => addr < records.len() && (if pid == 0 {
                records[addr as int] is Meta
            } else if pid == 1 {
                records[addr as int] is Counter
            } else {
                records[addr as int] is Node
            }),
            _ => true,
        }
    }

    /// Every log offset reachable from this decoding: none from a heap or
    /// unassigned pointer, the embedded offset of a free or log pointer,
    /// the combined record's offset of a `LogAndHeap` pointer, and — for a
    /// resident page — the offsets of the record the page id dictates.
    pub open spec fn spec_iter_lids(self, pid: u64, records: Seq<ResidentRecord>) -> Seq<
        LogOffset,
    > {
        match self {
            PointerRead::Heap { .. } => Seq::empty(),
            PointerRead::Unassigned => Seq::empty(),
            PointerRead::Free { base } => seq![base@],
            PointerRead::Log { base, .. } => seq![base@],
            PointerRead::LogAndHeap { addr, .. } => seq![records[addr as int]->rec.log_offset@],
            PointerRead::InMemory { addr, .. } => if pid == 0 {
                opt_lid_seq(records[addr as int]->meta.base.spec_lid())
            } else if pid == 1 {
                opt_lid_seq(records[addr as int]->counter.base.spec_lid())
            } else {
                node_lids(records[addr as int]->node)
            },
        }
    }

    /// Collect every log offset reachable from this decoding, for
    /// log-segment liveness analysis; the sequence is rebuilt fresh on each
    /// call.
    pub fn iter_lids(&self, pid: u64, store: &ResidentStore) -> (r: Vec<LogOffset>)
        requires
            self.resolves(pid, store@),
        ensures
            r@ == self.spec_iter_lids(pid, store@),
    {
        match self {
            PointerRead::Heap { .. } | PointerRead::Unassigned => Vec::new(),
            PointerRead::Free { base } | PointerRead::Log { base, .. } => {
                let mut r: Vec<LogOffset> = Vec::new();
                r.push(base.to_lid());
                proof {
                    assert(r@ =~= seq![base@]);
                }
                r
            },
            PointerRead::LogAndHeap { addr, .. } => {
                match store.get(*addr) {
                    ResidentRecord::LogAndHeap { rec } => {
                        let mut r: Vec<LogOffset> = Vec::new();
                        r.push(rec.lid());
                        proof {
                            assert(r@ =~= seq![store@[*addr as int]->rec.log_offset@]);
                        }
                        r
                    },
                    _ => unreached(),
                }
            },
            PointerRead::InMemory { addr, .. } => {
                if pid == 0 {
                    match store.get(*addr) {
                        ResidentRecord::Meta { meta } => {
                            let mut r: Vec<LogOffset> = Vec::new();
                            match meta.base.lid() {
                                Some(l) => r.push(l),
                                None => (),
                            }
                            proof {
                                assert(r@ =~= opt_lid_seq(
                                    store@[*addr as int]->meta.base.spec_lid(),
                                ));
                            }
                            r
                        },
                        _ => unreached(),
                    }
                } else if pid == 1 {
                    match store.get(*addr) {
                        ResidentRecord::Counter { counter } => {
                            let mut r: Vec<LogOffset> = Vec::new();
                            match counter.base.lid() {
                                Some(l) => r.push(l),
                                None => (),
                            }
                            proof {
                                assert(r@ =~= opt_lid_seq(
                                    store@[*addr as int]->counter.base.spec_lid(),
                                ));
                            }
                            r
                        },
                        _ => unreached(),
                    }
                } else {
                    match store.get(*addr) {
                        ResidentRecord::Node { node } => node.iter_lids(),
                        _ => unreached(),
                    }
                }
            },
        }
    }

    /// Whether any log offset reachable from this decoding falls on the
    /// log segment addressed by `segment`: offsets land on the same
    /// segment exactly when they agree after division by the segment size.
    pub fn exists_on_segment(
        &self,
        segment: LogOffset,
        segment_size: u64,
        pid: u64,
        store: &ResidentStore,
    ) -> (r: bool)
        requires
            segment_size > 0,
            self.resolves(pid, store@),
        ensures
            r == exists|j: int|
                0 <= j < self.spec_iter_lids(pid, store@).len() && #[trigger] self.spec_iter_lids(
                    pid,
                    store@,
                )[j] / segment_size == segment / segment_size,
    {
        let lids = self.iter_lids(pid, store);
        let sid: u64 = segment / segment_size;
        let ghost glids = self.spec_iter_lids(pid, store@);
        let mut i: usize = 0;
        while i < lids.len()
            invariant
                i <= lids.len(),
                lids@ == glids,
                glids == self.spec_iter_lids(pid, store@),
                segment_size > 0,
                sid == segment / segment_size,
                forall|j: int|
                    0 <= j < i ==> #[trigger] glids[j] / segment_size != segment / segment_size,
            decreases lids.len() - i,
        {
            if lids[i] / segment_size == sid {
                assert(self.spec_iter_lids(pid, store@)[i as int] / segment_size == segment
                    / segment_size);
                return true;
            }
            i = i + 1;
        }
        false
    }

    /// Hand the addressed record over for deferred destruction: the record
    /// of an `InMemory` or `LogAndHeap` pointer is recorded with the
    /// guard, and nothing happens for the kinds that own no record.  To be
    /// called exactly once per superseded pointer value, by whichever
    /// thread's compare-and-swap replaced it.
    pub fn defer_destroy(self, guard: &mut Guard)
        ensures
            self matches PointerRead::InMemory { addr, .. } ==> final(guard)@ == old(
                guard,
            )@.push(addr),
            self matches PointerRead::LogAndHeap { addr, .. } ==> final(guard)@ == old(
                guard,
            )@.push(addr),
            !(self is InMemory) && !(self is LogAndHeap) ==> final(guard)@ == old(guard)@,
    {
        match self {
            PointerRead::InMemory { addr, .. } => guard.defer(addr),
            PointerRead::LogAndHeap { addr, .. } => guard.defer(addr),
            _ => (),
        }
    }

    /// Whether every size-class exponent this decoding carries is small
    /// enough for its bucket size to be computed on this platform.
    pub open spec fn size_in_range(self) -> bool {
        match self {
            PointerRead::Log { size_po2, .. } => size_po2.exp_spec() < usize::BITS,
            PointerRead::LogAndHeap { size_po2, .. } => size_po2.exp_spec() < usize::BITS,
            PointerRead::Heap { size_po2, .. } => size_po2.exp_spec() < usize::BITS,
            PointerRead::InMemory { size_po2, .. } => size_po2.exp_spec() < usize::BITS,
            _ => true,
        }
    }

    /// The number of bytes this location is encoded in: the size class's
    /// power-of-two bucket, or zero for a reclaimed or unassigned slot.
    pub open spec fn spec_log_size(self) -> nat {
        match self {
            PointerRead::Log { size_po2, .. } => pow2(size_po2.exp_spec() as nat),
            PointerRead::LogAndHeap { size_po2, .. } => pow2(size_po2.exp_spec() as nat),
            PointerRead::Heap { size_po2, .. } => pow2(size_po2.exp_spec() as nat),
            PointerRead::InMemory { size_po2, .. } => pow2(size_po2.exp_spec() as nat),
            PointerRead::Free { .. } => 0,
            PointerRead::Unassigned => 0,
        }
    }

    /// The bucket size of this location's size class, or zero where no
    /// size is encoded.
    pub fn log_size(&self) -> (r: u64)
        requires
            self.size_in_range(),
        ensures
            r == self.spec_log_size(),
    {
        match self {
            PointerRead::Log { size_po2, .. }
            | PointerRead::LogAndHeap { size_po2, .. }
            | PointerRead::Heap { size_po2, .. }
            | PointerRead::InMemory { size_po2, .. } => size_po2.size() as u64,
            _ => 0,
        }
    }

    /// The combined record of a `LogAndHeap` decoding; any other variant
    /// is a contract violation.
    pub fn as_log_and_heap<'a>(&self, store: &'a ResidentStore) -> (r: &'a LogAndHeap)
        requires
            self matches PointerRead::LogAndHeap { addr, .. } && addr < store@.len()
                && store@[addr as int] is LogAndHeap,
        ensures
            self matches PointerRead::LogAndHeap { addr, .. } ==> *r == store@[addr as int]->rec,
    {
        match self {
            PointerRead::LogAndHeap { addr, .. } => match store.get(*addr) {
                ResidentRecord::LogAndHeap { rec } => rec,
                _ => unreached(),
            },
            _ => unreached(),
        }
    }

    /// The node record of an `InMemory` decoding read through an ordinary
    /// page id; any other combination is a contract violation.
    pub fn as_node<'a>(&self, store: &'a ResidentStore) -> (r: &'a PersistedNode)
        requires
            self matches PointerRead::InMemory { addr, .. } && addr < store@.len()
                && store@[addr as int] is Node,
        ensures
            self matches PointerRead::InMemory { addr, .. } ==> *r == store@[addr as int]->node,
    {
        match self {
            PointerRead::InMemory { addr, .. } => match store.get(*addr) {
                ResidentRecord::Node { node } => node,
                _ => unreached(),
            },
            _ => unreached(),
        }
    }

    /// The metadata record of an `InMemory` decoding read through page id
    /// 0; any other combination is a contract violation.
    pub fn as_meta<'a>(&self, store: &'a ResidentStore) -> (r: &'a PersistedMeta)
        requires
            self matches PointerRead::InMemory { addr, .. } && addr < store@.len()
                && store@[addr as int] is Meta,
        ensures
            self matches PointerRead::InMemory { addr, .. } ==> *r == store@[addr as int]->meta,
    {
        match self {
            PointerRead::InMemory { addr, .. } => match store.get(*addr) {
                ResidentRecord::Meta { meta } => meta,
                _ => unreached(),
            },
            _ => unreached(),
        }
    }

    /// The counter record of an `InMemory` decoding read through page id
    /// 1; any other combination is a contract violation.
    pub fn as_counter<'a>(&self, store: &'a ResidentStore) -> (r: &'a PersistedCounter)
        requires
            self matches PointerRead::InMemory { addr, .. } && addr < store@.len()
                && store@[addr as int] is Counter,
        ensures
            self matches PointerRead::InMemory { addr, .. } ==> *r == store@[addr as int]
                ->counter,
    {
        match self {
            PointerRead::InMemory { addr, .. } => match store.get(*addr) {
                ResidentRecord::Counter { counter } => counter,
                _ => unreached(),
            },
            _ => unreached(),
        }
    }
}

/// Rebuilding a pointer from its packed bits is exact: two pointers with
/// the same bits are the same pointer, byte for byte.
pub proof fn lemma_bits_round_trip(p: PagePointer, q: PagePointer)
    requires
        p@ == q@,
    ensures
        p == q,
{
}

/// Kind isolation: a decoding that matches a pointer is in the variant of
/// that pointer's kind and of no other, so `read` on the result of each
/// constructor yields exactly that constructor's variant.
pub proof fn lemma_read_determines_kind(p: PagePointer, r: PointerRead)
    requires
        r.matches_pointer(p),
    ensures
        (r is InMemory) <==> p.spec_kind() == PointerKind::InMemory,
        (r is Heap) <==> p.spec_kind() == PointerKind::Heap,
        (r is Log) <==> p.spec_kind() == PointerKind::Log,
        (r is LogAndHeap) <==> p.spec_kind() == PointerKind::LogAndHeap,
        (r is Free) <==> p.spec_kind() == PointerKind::Free,
        (r is Unassigned) <==> p.spec_kind() == PointerKind::Unassigned,
{
}

} // verus!

