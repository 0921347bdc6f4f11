use pagecache::heap::{HeapId, MIN_TRAILING_ZEROS};
use pagecache::offset::TruncatedLogOffset;
use pagecache::pointer::{PagePointer, PointerKind, PointerRead};
use pagecache::resident::{
    Guard, Meta, Node, PersistedCounter, PersistedMeta, PersistedNode, ResidentRecord,
    ResidentStore,
};
use pagecache::size_class::SizeClass;

#[test]
fn bits_round_trip() {
    let pointers = vec![
        PagePointer::new_free(4096),
        PagePointer::new_log(SizeClass::from(64), 100, PointerKind::Log),
        PagePointer::new_heap(HeapId { slab: 2, index: 7 }),
        PagePointer::new_in_memory(6, 0xdead),
        PagePointer::default(),
    ];
    for p in pointers {
        assert_eq!(PagePointer::from_u64(p.to_u64()), p);
    }
}

#[test]
fn size_class_tight_bounds() {
    assert_eq!(SizeClass::from(0).size(), 1);
    assert_eq!(SizeClass::from(1).size(), 1);
    assert_eq!(SizeClass::from(2).size(), 2);
    assert_eq!(SizeClass::from(3).size(), 4);
    assert_eq!(SizeClass::from(64).size(), 64);
    assert_eq!(SizeClass::from(65).size(), 128);
    assert_eq!(SizeClass::from(1024).size(), 1024);
    assert_eq!(SizeClass::from(1025).size(), 2048);
    for n in [0u64, 1, 2, 3, 5, 100, 4097] {
        let size = SizeClass::from(n).size() as u64;
        assert!(size >= n);
        if n > 0 {
            assert!(size < 2 * n);
        }
    }
}

#[test]
fn size_class_monotonic() {
    let samples = [0u64, 1, 2, 3, 4, 7, 8, 9, 1000, 1024, 1025, 1 << 20];
    for (i, &n1) in samples.iter().enumerate() {
        for &n2 in &samples[i..] {
            assert!(SizeClass::from(n1).size() <= SizeClass::from(n2).size());
        }
    }
}

#[test]
fn offset_round_trip() {
    for n in [0u64, 1, 4096, (1 << 48) - 1] {
        assert_eq!(TruncatedLogOffset::from_u64(n).to_lid(), n);
    }
}

#[test]
fn kind_isolation() {
    let store = ResidentStore::new();
    let free = PagePointer::new_free(512);
    assert!(matches!(free.read(), PointerRead::Free { .. }));
    assert!(!free.is_heap_item());
    assert!(!free.is_inline());
    assert!(!free.is_lone_log_and_heap());

    let log = PagePointer::new_log(SizeClass::from(64), 512, PointerKind::Log);
    assert!(matches!(log.read(), PointerRead::Log { .. }));
    assert!(log.is_inline());
    assert!(!log.is_heap_item());

    let heap = PagePointer::new_heap(HeapId { slab: 0, index: 3 });
    assert!(matches!(heap.read(), PointerRead::Heap { .. }));
    assert!(heap.is_heap_item());
    assert!(!heap.is_lone_log_and_heap());

    let in_memory = PagePointer::new_in_memory(6, 42);
    assert!(matches!(in_memory.read(), PointerRead::InMemory { .. }));
    assert!(!in_memory.is_heap_item());
    assert!(!in_memory.read().is_free());

    let mut store = store;
    let combined = PagePointer::new_log_and_heap(
        SizeClass::from(128),
        900,
        HeapId { slab: 1, index: 8 },
        77,
        &mut store,
    );
    assert!(matches!(combined.read(), PointerRead::LogAndHeap { .. }));
    assert!(combined.is_lone_log_and_heap());
    assert!(combined.is_heap_item());
    assert!(!combined.is_merged_into_snapshot());
}

#[test]
fn forget_heap_log_coordinates_idempotent() {
    let mut store = ResidentStore::new();
    let heap_id = HeapId { slab: 3, index: 21 };
    let mut p =
        PagePointer::new_log_and_heap(SizeClass::from(1000), 12345, heap_id, 9, &mut store);
    assert!(p.is_lone_log_and_heap());

    p.forget_heap_log_coordinates(&store);
    let once = p;
    assert!(!once.is_lone_log_and_heap());
    assert!(once.is_heap_item());
    assert_eq!(once, PagePointer::new_heap(heap_id));

    p.forget_heap_log_coordinates(&store);
    assert_eq!(p, once);
}

#[test]
fn node_lid_enumeration() {
    let o1 = 100u64;
    let o2 = 2048u64;
    let o3 = 3072u64;
    let node = PersistedNode {
        node: Node {},
        base: PagePointer::new_log(SizeClass::from(64), o1, PointerKind::Log),
        frags: vec![
            PagePointer::new_log(SizeClass::from(64), o2, PointerKind::Log),
            PagePointer::new_heap(HeapId { slab: 0, index: 5 }),
            PagePointer::new_free(o3),
        ],
        ts: 1,
    };
    assert_eq!(node.iter_lids(), vec![o1, o2, o3]);

    let mut store = ResidentStore::new();
    let addr = store.insert(ResidentRecord::Node { node });
    let p = PagePointer::new_in_memory(6, addr);
    let read = p.read();
    assert_eq!(read.iter_lids(2, &store), vec![o1, o2, o3]);
    // offsets 2048 and 3072 share a 1024-byte segment with nothing else
    assert!(read.exists_on_segment(2048, 1024, 2, &store));
    assert!(read.exists_on_segment(3500, 1024, 2, &store));
    assert!(read.exists_on_segment(0, 1024, 2, &store));
    assert!(!read.exists_on_segment(1024, 1024, 2, &store));
    assert!(!read.exists_on_segment(4096, 1024, 2, &store));
}

#[test]
fn segment_membership() {
    let store = ResidentStore::new();
    let p = PagePointer::new_log(SizeClass::from(64), 2048, PointerKind::Log);
    let read = p.read();
    assert!(read.exists_on_segment(2048, 1024, 7, &store));
    assert!(!read.exists_on_segment(1024, 1024, 7, &store));
}

#[test]
fn heap_pointer_round_trip() {
    let heap_id = HeapId { slab: 2, index: 7 };
    let p = PagePointer::new_heap(heap_id);
    assert_eq!(p.heap_id(), heap_id);
    assert_eq!(p.read().log_size(), 1 << (2 + MIN_TRAILING_ZEROS));
    assert_eq!(p.read().log_size(), 256);
}

#[test]
fn free_then_reuse() {
    let p = PagePointer::new_free(4096);
    assert!(p.read().is_free());
    assert_eq!(p.lid(), Some(4096));
    assert_eq!(p.read().log_size(), 0);
}

#[test]
fn log_and_heap_record() {
    let mut store = ResidentStore::new();
    let heap_id = HeapId { slab: 1, index: 17 };
    let p = PagePointer::new_log_and_heap(SizeClass::from(128), 5000, heap_id, 33, &mut store);

    let read = p.read();
    let rec = read.as_log_and_heap(&store);
    assert_eq!(rec.lid(), 5000);
    assert_eq!(rec.heap_id, heap_id);
    assert_eq!(rec.log_lsn, 33);

    let log_pointer = rec.page_pointer();
    assert!(log_pointer.is_inline());
    assert_eq!(log_pointer.lid(), Some(5000));

    assert_eq!(read.iter_lids(9, &store), vec![5000]);
}

#[test]
fn defer_destroy_owning_kinds() {
    let mut store = ResidentStore::new();
    let node_addr = store.insert(ResidentRecord::Node {
        node: PersistedNode {
            node: Node {},
            base: PagePointer::new_free(64),
            frags: vec![],
            ts: 0,
        },
    });
    let combined =
        PagePointer::new_log_and_heap(SizeClass::from(64), 128, HeapId { slab: 0, index: 1 }, 5, &mut store);
    let resident = PagePointer::new_in_memory(6, node_addr);

    let mut guard = Guard::pin();
    resident.read().defer_destroy(&mut guard);
    combined.read().defer_destroy(&mut guard);
    PagePointer::new_free(256).read().defer_destroy(&mut guard);
    PagePointer::new_heap(HeapId { slab: 0, index: 2 }).read().defer_destroy(&mut guard);

    assert_eq!(guard.deferred().len(), 2);
    assert_eq!(guard.deferred()[0], node_addr);
    assert_eq!(guard.deferred()[1], combined.to_u64() & 0xffff_ffff_ffff);
}

#[test]
fn meta_and_counter_pages() {
    let mut store = ResidentStore::new();
    let meta_addr = store.insert(ResidentRecord::Meta {
        meta: PersistedMeta { meta: Meta {}, base: PagePointer::new_free(700) },
    });
    let counter_addr = store.insert(ResidentRecord::Counter {
        counter: PersistedCounter { counter: 41, base: PagePointer::new_heap(HeapId {
            slab: 0,
            index: 11,
        }) },
    });

    let meta_pointer = PagePointer::new_in_memory(6, meta_addr);
    let meta_read = meta_pointer.read();
    assert_eq!(meta_read.as_meta(&store).base.lid(), Some(700));
    assert_eq!(meta_read.iter_lids(0, &store), vec![700]);

    let counter_pointer = PagePointer::new_in_memory(6, counter_addr);
    let counter_read = counter_pointer.read();
    assert_eq!(counter_read.as_counter(&store).counter, 41);
    // the counter's base is heap-resident, so no log offset is reachable
    assert_eq!(counter_read.iter_lids(1, &store), Vec::<u64>::new());
}

#[test]
fn unassigned_default() {
    let p = PagePointer::default();
    let store = ResidentStore::new();
    let read = p.read();
    assert!(matches!(read, PointerRead::Unassigned));
    assert!(!read.is_free());
    assert_eq!(read.log_size(), 0);
    assert_eq!(read.iter_lids(3, &store), Vec::<u64>::new());
    assert!(!read.exists_on_segment(0, 1024, 3, &store));
    assert_eq!(p.lid(), None);
    assert!(p.is_merged_into_snapshot());
}

#[test]
fn explicit_log_and_heap_tagging() {
    // the log-offset constructor takes the tag explicitly: the same offset
    // can be marked still-unconsolidated
    let p = PagePointer::new_log(SizeClass::from(64), 640, PointerKind::LogAndHeap);
    assert!(p.is_lone_log_and_heap());
    assert!(!p.is_inline());
    assert!(!p.is_merged_into_snapshot());
    assert_eq!(p.lid(), None);
}
