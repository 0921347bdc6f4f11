use crate::heap::{HeapId, MIN_TRAILING_ZEROS};
use crate::offset::{LogOffset, Lsn, TruncatedLogOffset, OFFSET_LIMIT};
use crate::pointer::{PagePointer, PointerKind};
use crate::size_class::{lemma_class_exp_unique, SizeClass};
use vstd::arithmetic::power2::{
    lemma2_to64, lemma2_to64_rest, lemma_pow2_pos, lemma_pow2_strictly_increases, pow2,
};
use vstd::prelude::*;

verus! {

/// Page contents as the node layer sees them; the location core never
/// interprets them, only the provenance recorded next to them.
pub struct Node {}

/// The engine's metadata page contents; opaque to the location core.
pub struct Meta {}

/// The resident record behind page id 0: the metadata page plus the pointer
/// it was materialized from.
pub struct PersistedMeta {
    pub meta: Meta,
    pub base: PagePointer,
}

/// The resident record behind page id 1: the monotonic counter plus the
/// pointer it was materialized from.
pub struct PersistedCounter {
    pub counter: u64,
    pub base: PagePointer,
}

/// The resident record behind any ordinary page id: the node, the pointer
/// it was originally materialized from, and the not-yet-merged delta
/// pointers applied on top, in insertion order.
pub struct PersistedNode {
    pub node: Node,
    pub base: PagePointer,
    pub frags: Vec<PagePointer>,
    pub ts: u64,
}

/// The transient dual-location record addressed by a `LogAndHeap` pointer
/// while a page's data exists both in the log and in the heap store.
pub struct LogAndHeap {
    pub log_offset: TruncatedLogOffset,
    pub heap_id: HeapId,
    pub log_lsn: Lsn,
}

/// Marker wrapping a reclaimed pointer.
pub struct PersistedFree {
    pub page_pointer: PagePointer,
}

/// A resident, heap-managed record, tagged with what it is.  The tag is
/// recovered from the page id a pointer was read through (id 0 is the
/// metadata page, id 1 the counter, any other id a node), so interpreting a
/// record never relies on reinterpreting raw memory.
pub enum ResidentRecord {
    Meta { meta: PersistedMeta },
    Counter { counter: PersistedCounter },
    Node { node: PersistedNode },
    LogAndHeap { rec: LogAndHeap },
}

/// The resident records that `InMemory` and `LogAndHeap` pointers address,
/// held behind 48-bit handles.  This stands for the reclaimed heap: a
/// pointer's payload is a handle into it, and a record stays resolvable for
/// as long as a reader could still observe some pointer to it.
pub struct ResidentStore {
    records: Vec<ResidentRecord>,
}

impl View for ResidentStore {
    type V = Seq<ResidentRecord>;

    closed spec fn view(&self) -> Seq<ResidentRecord> {
        self.records@
    }
}

impl ResidentStore {
    /// An empty store.
    pub fn new() -> (r: ResidentStore)
        ensures
            r@ == Seq::<ResidentRecord>::empty(),
    {
        ResidentStore { records: Vec::new() }
    }

    /// Place a record in the store, yielding the 48-bit handle a pointer's
    /// payload will carry.
    pub fn insert(&mut self, rec: ResidentRecord) -> (addr: u64)
        requires
            old(self)@.len() < OFFSET_LIMIT,
        ensures
            final(self)@ == old(self)@.push(rec),
            addr == old(self)@.len(),
            addr < OFFSET_LIMIT,
    {
        let addr = self.records.len() as u64;
        self.records.push(rec);
        addr
    }

    /// Resolve a handle to the record it addresses.
    pub fn get(&self, addr: u64) -> (r: &ResidentRecord)
        requires
            addr < self@.len(),
        ensures
            *r == self@[addr as int],
    {
        let n = self.records.len();
        assert(addr < n as u64);
        &self.records[addr as usize]
    }
}

/// A token standing for a pinned reclamation epoch.  A superseded pointer's
/// record may not be destroyed while any reader that could have observed the
/// pointer still holds such a token, so destruction requests are only
/// recorded here — as the handles handed over — for the reclamation
/// subsystem to act on after every such token is released.
pub struct Guard {
    deferred: Vec<u64>,
}

impl View for Guard {
    type V = Seq<u64>;

    closed spec fn view(&self) -> Seq<u64> {
        self.deferred@
    }
}

impl Guard {
    /// Pin an epoch: a fresh token with no destruction requests yet.
    pub fn pin() -> (r: Guard)
        ensures
            r@ == Seq::<u64>::empty(),
    {
        Guard { deferred: Vec::new() }
    }

    /// Record the handle of a record whose destruction is to happen once no
    /// active reader could still observe it.
    pub fn defer(&mut self, addr: u64)
        ensures
            final(self)@ == old(self)@.push(addr),
    {
        self.deferred.push(addr);
    }

    /// The handles handed over for deferred destruction, in order.
    pub fn deferred(&self) -> (r: &Vec<u64>)
        ensures
            r@ == self@,
    {
        &self.deferred
    }
}

impl LogAndHeap {
    /// The full log offset of the record's log copy.
    pub fn lid(&self) -> (r: LogOffset)
        ensures
            r == self.log_offset@,
            r < OFFSET_LIMIT,
    {
        self.log_offset.to_lid()
    }

    /// A plain `Log` pointer to the record's log copy, sized by its slab's
    /// bucket.
    pub fn page_pointer(&self) -> (r: PagePointer)
        requires
            self.heap_id.slab + MIN_TRAILING_ZEROS < 64,
        ensures
            r.spec_kind() == PointerKind::Log,
            r.size_exp() == self.heap_id.slab + MIN_TRAILING_ZEROS,
            r.payload() == self.log_offset@,
            r.spec_lid() == Some(self.log_offset@),
    {
        let slab_size = self.heap_id.slab_size();
        proof {
            let e = (self.heap_id.slab + MIN_TRAILING_ZEROS) as nat;
            lemma2_to64();
            lemma2_to64_rest();
            lemma_pow2_pos(e);
            if e > 0 {
                lemma_pow2_pos((e - 1) as nat);
                lemma_pow2_strictly_increases((e - 1) as nat, e);
            }
            if e < 63 {
                lemma_pow2_strictly_increases(e, 63);
            }
            lemma_class_exp_unique(pow2(e) as int, e);
        }
        let size = SizeClass::from(slab_size);
        PagePointer::new_log(size, self.lid(), PointerKind::Log)
    }
}

/// The sequence a present offset contributes and an absent one does not.
pub open spec fn opt_lid_seq(o: Option<LogOffset>) -> Seq<LogOffset> {
    match o {
        Some(l) => seq![l],
        None => Seq::empty(),
    }
}

/// The log offsets embedded in a run of fragment pointers, in order;
/// fragments without a log offset (heap-only ones, say) contribute nothing.
pub open spec fn frag_lids(frags: Seq<PagePointer>) -> Seq<LogOffset>
    decreases frags.len(),
{
    if frags.len() == 0 {
        Seq::empty()
    } else {
        opt_lid_seq(frags[0].spec_lid()) + frag_lids(frags.skip(1))
    }
}

/// Every log offset reachable from a resident node: its base pointer's
/// offset first, then each fragment's, in insertion order.
pub open spec fn node_lids(n: PersistedNode) -> Seq<LogOffset> {
    opt_lid_seq(n.base.spec_lid()) + frag_lids(n.frags@)
}

/// Appending a fragment appends exactly its contribution.
pub proof fn lemma_frag_lids_push(frags: Seq<PagePointer>, p: PagePointer)
    ensures
        frag_lids(frags.push(p)) == frag_lids(frags) + opt_lid_seq(p.spec_lid()),
    decreases frags.len(),
{
    if frags.len() == 0 {
        assert(frags.push(p)[frags.len() as int] == p);
        assert(frags.push(p).skip(1) =~= Seq::<PagePointer>::empty());
        assert(frag_lids(frags.push(p)) == opt_lid_seq(p.spec_lid()) + frag_lids(
            Seq::<PagePointer>::empty(),
        ));
        assert(frag_lids(frags.push(p)) =~= frag_lids(frags) + opt_lid_seq(p.spec_lid()));
    } else {
        assert(frags.push(p)[0] == frags[0]);
        assert(frags.push(p).skip(1) =~= frags.skip(1).push(p));
        lemma_frag_lids_push(frags.skip(1), p);
        assert(frag_lids(frags.push(p)) =~= frag_lids(frags) + opt_lid_seq(p.spec_lid()));
    }
}

impl PersistedNode {
    /// Collect every log offset reachable from this node: the base
    /// pointer's offset (when it has one) followed by each fragment's, in
    /// insertion order.
    pub fn iter_lids(&self) -> (r: Vec<LogOffset>)
        ensures
            r@ == node_lids(*self),
    {
        let mut r: Vec<LogOffset> = Vec::new();
        match self.base.lid() {
            Some(l) => r.push(l),
            None => (),
        }
        proof {
            assert(self.frags@.take(0) =~= Seq::<PagePointer>::empty());
            assert(r@ =~= opt_lid_seq(self.base.spec_lid()) + frag_lids(self.frags@.take(0)));
        }
        let mut i: usize = 0;
        while i < self.frags.len()
            invariant
                i <= self.frags.len(),
                r@ == opt_lid_seq(self.base.spec_lid()) + frag_lids(self.frags@.take(i as int)),
            decreases self.frags.len() - i,
        {
            proof {
                assert(self.frags@.take(i as int).push(self.frags@[i as int]) =~= self.frags@.take(
                    i + 1,
                ));
                lemma_frag_lids_push(self.frags@.take(i as int), self.frags@[i as int]);
            }
            match self.frags[i].lid() {
                Some(l) => r.push(l),
                None => (),
            }
            proof {
                assert(r@ =~= opt_lid_seq(self.base.spec_lid()) + frag_lids(
                    self.frags@.take(i + 1),
                ));
            }
            i = i + 1;
        }
        proof {
            assert(self.frags@.take(self.frags@.len() as int) =~= self.frags@);
        }
        r
    }
}

} // verus!
