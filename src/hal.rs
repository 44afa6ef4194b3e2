//! The hardware-abstraction bridge the ring driver calls back into: DMA
//! page requests to the kernel's page allocator, and translation between
//! physical and virtual addresses through the kernel's linear mapping.
//!
//! The allocator itself is the caller's: `dma_alloc_request` says what to
//! ask of it, and `dma_alloc_result` turns its answer into what the ring
//! driver receives.
use vstd::prelude::*;

verus! {

/// The page size and alignment of DMA allocations.
pub const PAGE_SIZE: usize = 4096;

/// The pointer handed out with the null physical address when an
/// allocation fails; it must not be dereferenced.
pub const DANGLING_VADDR: usize = 1;

/// A request to the kernel's page allocator.
#[derive(Debug, Clone, Copy, PartialEq, Eq, Structural)]
pub struct PageRequest {
    /// The virtual address of the first page (for a release), or 0.
    pub vaddr: usize,
    /// The number of contiguous pages.
    pub pages: usize,
    /// The alignment in bytes.
    pub align: usize,
}

/// The number of pages that hold `size` bytes.
pub open spec fn pages_for(size: usize) -> usize {
    (size / PAGE_SIZE + if size % PAGE_SIZE == 0 { 0usize } else { 1usize }) as usize
}

/// The allocation that holds `size` bytes of DMA memory.
pub open spec fn alloc_request(size: usize) -> PageRequest {
    PageRequest { vaddr: 0, pages: pages_for(size), align: PAGE_SIZE }
}

/// The release of the allocation at `vaddr` that holds `size` bytes.
pub open spec fn dealloc_request(vaddr: usize, size: usize) -> PageRequest {
    PageRequest { vaddr, pages: pages_for(size), align: PAGE_SIZE }
}

/// The bridge's view of the kernel's linear mapping: virtual address =
/// physical address + `phys_virt_offset`.
#[derive(Debug, Clone, Copy, PartialEq, Eq, Structural)]
pub struct IxgbeHalImpl {
    /// The offset of the linear mapping.
    pub phys_virt_offset: usize,
}

impl IxgbeHalImpl {
    /// What `dma_alloc` hands the ring driver, given what the allocator
    /// returned: the physical and virtual address of the pages, or the null
    /// physical address and a dangling pointer when the allocator failed or
    /// returned an address whose physical address would not be above 0.
    pub open spec fn spec_dma_alloc_result(self, allocated: Option<usize>) -> (usize, usize) {
        match allocated {
            Some(v) if v > self.phys_virt_offset => ((v - self.phys_virt_offset) as usize, v),
            _ => (0usize, DANGLING_VADDR),
        }
    }

    /// The pages to ask of the allocator for `size` bytes of DMA memory.
    pub fn dma_alloc_request(&self, size: usize) -> (r: PageRequest)
        ensures
            r == alloc_request(size),
    {
        let pages: usize = size / PAGE_SIZE + if size % PAGE_SIZE == 0 { 0 } else { 1 };
        PageRequest { vaddr: 0, pages, align: PAGE_SIZE }
    }

    /// The physical address and pointer `dma_alloc` returns, given the
    /// virtual address the allocator returned (`None` on failure).
    pub fn dma_alloc_result(&self, allocated: Option<usize>) -> (r: (usize, usize))
        ensures
            r == self.spec_dma_alloc_result(allocated),
    {
        match allocated {
            Some(v) if v > self.phys_virt_offset => (v - self.phys_virt_offset, v),
            _ => (0, DANGLING_VADDR),
        }
    }

    /// The release to make right away after a `size`-byte allocation that
    /// `dma_alloc_result` turned away: the allocator returned pages whose
    /// physical address is not above 0. `None` when there is nothing to give
    /// back.
    pub fn rejected_allocation(&self, allocated: Option<usize>, size: usize) -> (r: Option<PageRequest>)
        ensures
            r == (match allocated {
                Some(v) if v <= self.phys_virt_offset => Some(dealloc_request(v, size)),
                _ => None,
            }),
    {
        match allocated {
            Some(v) if v <= self.phys_virt_offset => Some(self.dma_dealloc_request(0, v, size)),
            _ => None,
        }
    }

    /// The release to make for `dma_dealloc(paddr, vaddr, size)`: the pages
    /// at `vaddr` that hold `size` bytes.
    pub fn dma_dealloc_request(&self, paddr: usize, vaddr: usize, size: usize) -> (r: PageRequest)
        ensures
            r == dealloc_request(vaddr, size),
    {
        let pages: usize = size / PAGE_SIZE + if size % PAGE_SIZE == 0 { 0 } else { 1 };
        PageRequest { vaddr, pages, align: PAGE_SIZE }
    }

    /// The virtual address of a mapped register window.
    pub fn mmio_phys_to_virt(&self, paddr: usize, size: usize) -> (r: usize)
        requires
            paddr + self.phys_virt_offset <= usize::MAX,
        ensures
            r == paddr + self.phys_virt_offset,
    {
        paddr + self.phys_virt_offset
    }

    /// The physical address of a mapped register window.
    pub fn mmio_virt_to_phys(&self, vaddr: usize, size: usize) -> (r: usize)
        requires
            vaddr >= self.phys_virt_offset,
        ensures
            r == vaddr - self.phys_virt_offset,
    {
        vaddr - self.phys_virt_offset
    }
}

/// A successful DMA allocation released with the addresses and size it
/// returned gives the allocator back what it took: the release names the
/// very pages handed out, in the same number and alignment as requested,
/// so an allocator with `free_pages` free pages before the pair has as many
/// after it.
pub proof fn lemma_dma_round_trip(hal: IxgbeHalImpl, size: usize, allocated: usize, free_pages: nat)
    requires
        allocated > hal.phys_virt_offset,
        free_pages >= pages_for(size),
    ensures
        ({
            let taken = alloc_request(size);
            let (paddr, vaddr) = hal.spec_dma_alloc_result(Some(allocated));
            let released = dealloc_request(vaddr, size);
            &&& vaddr == allocated
            &&& paddr == allocated - hal.phys_virt_offset
            &&& paddr != 0
            &&& released.pages == taken.pages
            &&& released.align == taken.align
            &&& (free_pages - taken.pages) + released.pages == free_pages
        }),
{
}

} // verus!
