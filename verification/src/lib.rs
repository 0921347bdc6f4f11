//! Page-location core of a log-structured page cache.
//!
//! A logical page may be resident in memory, spilled to a size-classed heap
//! store, appended to the write-ahead log, present in both log and heap store
//! before compaction, or reclaimed.  The [`pointer::PagePointer`] type packs
//! "where is this page right now" into a single 8-byte value that an external
//! page table can load and compare-and-swap atomically; decoding it yields a
//! [`pointer::PointerRead`] that interprets the payload according to the kind
//! tag.

pub mod heap;
pub mod offset;
pub mod pointer;
pub mod resident;
pub mod size_class;
