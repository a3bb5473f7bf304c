//! The heap allocator: the memory regions it allocates from, and its
//! statistics (the usage of the heap, its peak, and the bytes allocated and
//! freed since it was set up).
//!
//! The regions' memory is managed by `linked_list_allocator::Heap`, which
//! the allocator carries but does not look into.
use vstd::prelude::*;
use linked_list_allocator::Heap;

verus! {

/// The properties of a memory region.
#[derive(Debug, Clone, Copy, PartialEq, Eq, Structural)]
pub enum MemoryCapability {
    /// Internal memory, which stays when the flash or SPI RAM cache is
    /// switched off.
    Internal,
    /// Memory in SPI RAM.
    External,
}

/// A set of memory capabilities.
#[derive(Debug, Clone, Copy, PartialEq, Eq, Structural)]
pub struct Capabilities {
    /// Whether [`MemoryCapability::Internal`] is in the set.
    pub internal: bool,
    /// Whether [`MemoryCapability::External`] is in the set.
    pub external: bool,
}

/// A heap of `linked_list_allocator`, carried as it is.
#[verifier::external_type_specification]
#[verifier::external_body]
pub struct ExHeap(linked_list_allocator::Heap);

/// A memory region to be used as heap memory.
pub struct HeapRegion {
    /// The allocator of the region's memory.
    pub heap: Heap,
    /// What the region's memory offers.
    pub capabilities: Capabilities,
}

impl HeapRegion {
    /// A region of the memory that `heap` manages, with the given
    /// capabilities.
    pub fn new(heap: Heap, capabilities: Capabilities) -> (r: Self)
        ensures
            r.capabilities == capabilities,
    {
        HeapRegion { heap, capabilities }
    }
}

/// The number of regions an allocator takes.
pub const MAX_REGIONS: usize = 3;

/// A memory allocator over up to [`MAX_REGIONS`] regions, allocating from
/// the first suitable region first.
pub struct EspHeap {
    /// The regions, slot by slot.
    pub heap: Vec<Option<HeapRegion>>,
}

/// Whether slot `k` is the first free one.
pub open spec fn first_free(regions: Seq<Option<Capabilities>>, k: int) -> bool {
    &&& 0 <= k < regions.len()
    &&& regions[k] is None
    &&& forall|j: int| 0 <= j < k ==> regions[j] is Some
}

impl EspHeap {
    /// The capabilities of the regions, slot by slot; `None` for a free slot.
    pub open spec fn regions(&self) -> Seq<Option<Capabilities>> {
        self.heap@.map_values(|r: Option<HeapRegion>| match r {
            Some(region) => Some(region.capabilities),
            None => None,
        })
    }

    /// The allocator has its slots.
    pub open spec fn wf(&self) -> bool {
        self.heap@.len() == MAX_REGIONS
    }

    /// An allocator with no region yet.
    pub fn empty() -> (r: Self)
        ensures
            r.wf(),
            r.regions() == seq![None::<Capabilities>, None, None],
    {
        let r = EspHeap { heap: vec![None, None, None] };
        assert(r.regions() =~= seq![None::<Capabilities>, None, None]);
        r
    }

    /// Whether a slot is still free.
    pub open spec fn has_free_slot(&self) -> bool {
        exists|k: int| 0 <= k < self.regions().len() && self.regions()[k] is None
    }

    /// Adds a memory region: it takes the first free slot.
    pub fn add_region(&mut self, region: HeapRegion)
        requires
            old(self).wf(),
            old(self).has_free_slot(),
        ensures
            final(self).wf(),
            exists|k: int|
                #[trigger] first_free(old(self).regions(), k)
                    && final(self).heap@ == old(self).heap@.update(k, Some(region))
                    && final(self).regions() == old(self).regions().update(k, Some(region.capabilities)),
    {
        let mut k: usize = 0;
        while k < self.heap.len() && self.heap[k].is_some()
            invariant
                k <= self.heap@.len(),
                self.heap@ == old(self).heap@,
                forall|j: int| 0 <= j < k ==> (#[trigger] self.heap@[j]) is Some,
            decreases self.heap@.len() - k,
        {
            k = k + 1;
        }
        proof {
            if k >= self.heap@.len() {
                let w = choose|w: int| 0 <= w < old(self).regions().len() && old(self).regions()[w] is None;
                assert(self.heap@[w] is Some);
            }
        }
        let ghost before = self.heap@;
        let caps = region.capabilities;
        let ghost given = region;
        self.heap.set(k, Some(region));
        proof {
            assert forall|j: int| 0 <= j < k implies old(self).regions()[j] is Some by {
                assert(before[j] is Some);
            }
            assert(self.regions() =~= old(self).regions().update(k as int, Some(caps)));
            assert(old(self).regions()[k as int] is None);
            let kk = k as int;
            assert(first_free(old(self).regions(), kk));
            assert(self.heap@ == old(self).heap@.update(kk, Some(given)));
        }
    }
}

/// Whether a heap spanning the addresses `bottom..=top` owns `address`, so
/// that freeing it goes to that heap; a pointer outside is left alone.
pub fn heap_owns(bottom: usize, top: usize, address: usize) -> (r: bool)
    ensures
        r == (bottom <= address && address <= top),
{
    bottom <= address && top >= address
}

/// Statistics of a heap.
#[derive(Debug, Clone, Copy, PartialEq, Eq, Structural)]
pub struct HeapStats {
    /// The size of the heap in bytes.
    pub size: usize,
    /// The bytes in use.
    pub current_usage: usize,
    /// The most bytes in use at once, as far as allocations saw it.
    pub max_usage: usize,
    /// The bytes allocated since the heap was set up.
    pub total_allocated: usize,
    /// The bytes freed since the heap was set up.
    pub total_freed: usize,
}

/// What the allocator counts as it allocates and frees.
#[derive(Debug, Clone, Copy, PartialEq, Eq, Structural)]
pub struct InternalHeapStats {
    pub max_usage: usize,
    pub total_allocated: usize,
    pub total_freed: usize,
}

/// The counts after an allocation took the usage from `before` to `used`.
pub open spec fn alloc_counted(s: InternalHeapStats, before: usize, used: usize) -> InternalHeapStats {
    InternalHeapStats {
        total_allocated: (s.total_allocated + (used - before)) as usize,
        max_usage: if s.max_usage < used { used } else { s.max_usage },
        ..s
    }
}

/// The counts after a deallocation took the usage from `before` to `used`.
pub open spec fn dealloc_counted(s: InternalHeapStats, before: usize, used: usize) -> InternalHeapStats {
    InternalHeapStats { total_freed: (s.total_freed + (before - used)) as usize, ..s }
}

impl InternalHeapStats {
    /// Nothing counted yet.
    pub fn new() -> (r: Self)
        ensures
            r.max_usage == 0,
            r.total_allocated == 0,
            r.total_freed == 0,
    {
        InternalHeapStats { max_usage: 0, total_allocated: 0, total_freed: 0 }
    }

    /// Counts an allocation that took the heap's usage from `before` to
    /// `used`.
    pub fn record_alloc(&mut self, before: usize, used: usize)
        requires
            before <= used,
            old(self).total_allocated + (used - before) <= usize::MAX,
        ensures
            *final(self) == alloc_counted(*old(self), before, used),
    {
        self.total_allocated = self.total_allocated + (used - before);
        self.max_usage = if self.max_usage < used { used } else { self.max_usage };
    }

    /// Counts a deallocation that took the heap's usage from `before` to
    /// `used`.
    pub fn record_dealloc(&mut self, before: usize, used: usize)
        requires
            used <= before,
            old(self).total_freed + (before - used) <= usize::MAX,
        ensures
            *final(self) == dealloc_counted(*old(self), before, used),
    {
        self.total_freed = self.total_freed + (before - used);
    }

    /// The statistics of a heap with `used` bytes in use and `free` bytes
    /// free.
    pub fn stats(&self, used: usize, free: usize) -> (r: HeapStats)
        requires
            used + free <= usize::MAX,
        ensures
            r == (HeapStats {
                size: (free + used) as usize,
                current_usage: used,
                max_usage: self.max_usage,
                total_allocated: self.total_allocated,
                total_freed: self.total_freed,
            }),
    {
        HeapStats {
            size: free + used,
            current_usage: used,
            max_usage: self.max_usage,
            total_allocated: self.total_allocated,
            total_freed: self.total_freed,
        }
    }
}

/// Counting keeps the books: when every change of the usage is counted,
/// the bytes in use are those allocated less those freed, and never above
/// the peak.
pub open spec fn books_kept(s: InternalHeapStats, used: usize) -> bool {
    &&& s.total_allocated - s.total_freed == used
    &&& used <= s.max_usage
}

/// An allocation counted on kept books keeps them.
pub proof fn lemma_alloc_keeps_books(s: InternalHeapStats, before: usize, used: usize)
    requires
        books_kept(s, before),
        before <= used,
        s.total_allocated + (used - before) <= usize::MAX,
    ensures
        books_kept(alloc_counted(s, before, used), used),
{
}

/// Counting an allocation never lowers the recorded peak: the peak after it
/// is the larger of the peak before and the usage the allocation left, so
/// that it is the most ever in use after an allocation. The total allocated
/// grows by what the allocation took, and the total freed is unchanged.
pub proof fn lemma_alloc_keeps_the_peak(s: InternalHeapStats, before: usize, used: usize)
    requires
        before <= used,
        s.total_allocated + (used - before) <= usize::MAX,
    ensures
        alloc_counted(s, before, used).max_usage >= s.max_usage,
        alloc_counted(s, before, used).max_usage >= used,
        alloc_counted(s, before, used).max_usage == s.max_usage || alloc_counted(s, before, used).max_usage == used,
        alloc_counted(s, before, used).total_allocated == s.total_allocated + (used - before),
        alloc_counted(s, before, used).total_freed == s.total_freed,
{
}

/// Counting a deallocation leaves the peak and the total allocated as they
/// were, and adds what was freed to the total freed.
pub proof fn lemma_dealloc_keeps_the_peak(s: InternalHeapStats, before: usize, used: usize)
    requires
        used <= before,
        s.total_freed + (before - used) <= usize::MAX,
    ensures
        dealloc_counted(s, before, used).max_usage == s.max_usage,
        dealloc_counted(s, before, used).total_allocated == s.total_allocated,
        dealloc_counted(s, before, used).total_freed == s.total_freed + (before - used),
{
}

/// A deallocation counted on kept books keeps them.
pub proof fn lemma_dealloc_keeps_books(s: InternalHeapStats, before: usize, used: usize)
    requires
        books_kept(s, before),
        used <= before,
        s.total_freed + (before - used) <= usize::MAX,
    ensures
        books_kept(dealloc_counted(s, before, used), used),
{
}

} // verus!
