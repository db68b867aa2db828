//! Address types, the page size, the address-space layout and the page table.
use crate::memory::virt::ProtectionMode;
use std::collections::HashMap;
use vstd::prelude::*;

verus! {

/// A physical address.
pub type PAddr = u64;

/// A virtual address.
pub type VAddr = u64;

/// Size in bytes of one page of virtual or physical address space.
pub const PAGE_SIZE: usize = 0x1000;

/// Number of the last page, virtual or physical, that a 64-bit address reaches.
pub const LAST_PAGE: u64 = 0x000F_FFFF_FFFF_FFFF;

/// Number of the page that holds `addr`.
pub open spec fn page_of(addr: u64) -> u64 {
    addr / (PAGE_SIZE as u64)
}

/// Offset of `addr` within its page.
pub open spec fn page_offset(addr: u64) -> u64 {
    addr % (PAGE_SIZE as u64)
}

/// Computes the number of the page that holds `addr`.
pub fn page_number(addr: u64) -> (page: u64)
    ensures
        page == page_of(addr),
        page <= LAST_PAGE,
{
    assert(addr / 0x1000u64 <= 0x000F_FFFF_FFFF_FFFFu64) by (bit_vector);
    addr / (PAGE_SIZE as u64)
}

/// Boundaries of the virtual address space that the architecture defines: where
/// the global region starts, and the hardware sub-region inside it.
#[derive(Clone, Copy, Debug)]
pub struct Layout {
    global_base: u64,
    hardware_base: u64,
    hardware_end: u64,
}

/// Whether three boundaries describe a page-aligned hardware sub-region inside
/// the global region.
pub open spec fn valid_boundaries(global_base: u64, hardware_base: u64, hardware_end: u64) -> bool {
    &&& global_base <= hardware_base <= hardware_end
    &&& hardware_base % (PAGE_SIZE as u64) == 0
    &&& hardware_end % (PAGE_SIZE as u64) == 0
}

impl Layout {
    /// First address of the global region; everything below is user space.
    pub closed spec fn global_base(self) -> u64 {
        self.global_base
    }

    /// First address of the hardware sub-region.
    pub closed spec fn hardware_base(self) -> u64 {
        self.hardware_base
    }

    /// First address past the hardware sub-region.
    pub closed spec fn hardware_end(self) -> u64 {
        self.hardware_end
    }

    /// The hardware sub-region is a page-aligned range inside the global region.
    #[verifier::type_invariant]
    pub open spec fn wf(self) -> bool {
        valid_boundaries(self.global_base(), self.hardware_base(), self.hardware_end())
    }

    /// Whether `addr` lies in the global region.
    pub open spec fn is_global_spec(self, addr: u64) -> bool {
        addr >= self.global_base()
    }

    /// Number of the first page of the hardware sub-region.
    pub open spec fn hardware_first_page(self) -> u64 {
        page_of(self.hardware_base())
    }

    /// Number of the first page past the hardware sub-region.
    pub open spec fn hardware_end_page(self) -> u64 {
        page_of(self.hardware_end())
    }

    /// Number of pages in the hardware sub-region.
    pub open spec fn hardware_pages(self) -> int {
        self.hardware_end_page() - self.hardware_first_page()
    }

    /// A layout with the given boundaries, if they are usable.
    pub fn new(global_base: u64, hardware_base: u64, hardware_end: u64) -> (layout: Option<Layout>)
        ensures
            layout.is_some() == valid_boundaries(global_base, hardware_base, hardware_end),
            layout matches Some(l) ==> {
                &&& l.wf()
                &&& l.global_base() == global_base
                &&& l.hardware_base() == hardware_base
                &&& l.hardware_end() == hardware_end
            },
    {
        if global_base <= hardware_base && hardware_base <= hardware_end && hardware_base % (
        PAGE_SIZE as u64) == 0 && hardware_end % (PAGE_SIZE as u64) == 0 {
            Some(Layout { global_base, hardware_base, hardware_end })
        } else {
            None
        }
    }

    /// The higher-half layout used on amd64.
    pub fn amd64() -> (layout: Layout)
        ensures
            layout.wf(),
            layout.global_base() == 0xFFFF_8000_0000_0000u64,
            layout.hardware_base() == 0xFFFF_B000_0000_0000u64,
            layout.hardware_end() == 0xFFFF_C000_0000_0000u64,
    {
        assert(0xFFFF_B000_0000_0000u64 % 0x1000u64 == 0) by (bit_vector);
        assert(0xFFFF_C000_0000_0000u64 % 0x1000u64 == 0) by (bit_vector);
        Layout {
            global_base: 0xFFFF_8000_0000_0000,
            hardware_base: 0xFFFF_B000_0000_0000,
            hardware_end: 0xFFFF_C000_0000_0000,
        }
    }

    /// Tells whether `addr` lies in the global region.
    pub fn is_global(&self, addr: u64) -> (global: bool)
        ensures
            global == self.is_global_spec(addr),
    {
        addr >= self.global_base
    }

    /// First address of the hardware sub-region.
    pub fn hardware_start(&self) -> (addr: u64)
        ensures
            addr == self.hardware_base(),
            self.wf(),
    {
        proof {
            use_type_invariant(self);
        }
        self.hardware_base
    }

    /// First address past the hardware sub-region.
    pub fn hardware_limit(&self) -> (addr: u64)
        ensures
            addr == self.hardware_end(),
            self.wf(),
    {
        proof {
            use_type_invariant(self);
        }
        self.hardware_end
    }

    /// Number of pages in the hardware sub-region.
    pub fn hardware_capacity(&self) -> (pages: u64)
        ensures
            pages == self.hardware_pages(),
    {
        proof {
            use_type_invariant(self);
        }
        (self.hardware_end - self.hardware_base) / (PAGE_SIZE as u64)
    }
}

/// What the page table records for one reserved virtual page.
#[derive(Clone, Copy, Debug)]
pub struct PageEntry {
    frame: u64,
    mode: ProtectionMode,
}

impl PageEntry {
    /// Number of the physical frame behind the page.
    pub closed spec fn frame(self) -> u64 {
        self.frame
    }

    /// Access policy of the page.
    pub closed spec fn mode(self) -> ProtectionMode {
        self.mode
    }

    /// The entry that points at frame `frame` with policy `mode`.
    pub closed spec fn of(frame: u64, mode: ProtectionMode) -> PageEntry {
        PageEntry { frame, mode }
    }

    /// The frame lies within physical address space.
    #[verifier::type_invariant]
    pub open spec fn wf(self) -> bool {
        self.frame() <= LAST_PAGE
    }

    /// An entry is what its frame and its policy are.
    pub broadcast proof fn lemma_of(frame: u64, mode: ProtectionMode)
        ensures
            (#[trigger] PageEntry::of(frame, mode)).frame() == frame,
            PageEntry::of(frame, mode).mode() == mode,
    {
    }

    /// The entry that points at the frame that holds `phys` with policy `mode`.
    pub fn new(phys: u64, mode: ProtectionMode) -> (entry: PageEntry)
        ensures
            entry == PageEntry::of(page_of(phys), mode),
    {
        PageEntry { frame: page_number(phys), mode }
    }

    /// Number of the physical frame behind the page.
    pub fn frame_number(&self) -> (frame: u64)
        ensures
            frame == self.frame(),
            frame <= LAST_PAGE,
    {
        proof {
            use_type_invariant(self);
        }
        self.frame
    }

    /// Access policy of the page.
    pub fn protection(&self) -> (mode: ProtectionMode)
        ensures
            mode == self.mode(),
    {
        self.mode
    }
}

/// The page table: which virtual pages are reserved, and what stands behind each.
pub struct PageTable {
    entries: HashMap<u64, PageEntry>,
}

impl View for PageTable {
    type V = Map<u64, PageEntry>;

    /// The reserved pages, by page number.
    closed spec fn view(&self) -> Map<u64, PageEntry> {
        self.entries@
    }
}

impl PageTable {
    /// A table in which no page is reserved.
    pub fn new() -> (table: PageTable)
        ensures
            table@ == Map::<u64, PageEntry>::empty(),
    {
        PageTable { entries: HashMap::new() }
    }

    /// Tells whether the page that holds `addr` is reserved.
    pub fn is_reserved(&self, addr: u64) -> (reserved: bool)
        ensures
            reserved == self@.contains_key(page_of(addr)),
    {
        broadcast use vstd::std_specs::hash::group_hash_axioms;

        let page = page_number(addr);
        self.entries.contains_key(&page)
    }

    /// Looks up the entry of the page that holds `addr`.
    pub fn lookup(&self, addr: u64) -> (entry: Option<PageEntry>)
        ensures
            entry == (if self@.contains_key(page_of(addr)) {
                Some(self@[page_of(addr)])
            } else {
                None
            }),
    {
        broadcast use vstd::std_specs::hash::group_hash_axioms;

        let page = page_number(addr);
        match self.entries.get(&page) {
            Some(e) => Some(*e),
            None => None,
        }
    }

    /// Points the page that holds `addr` at the frame that holds `phys`,
    /// replacing whatever the page stood for.
    pub fn map(&mut self, addr: u64, phys: u64, mode: ProtectionMode)
        ensures
            final(self)@ == old(self)@.insert(
                page_of(addr),
                PageEntry::of(page_of(phys), mode),
            ),
    {
        broadcast use vstd::std_specs::hash::group_hash_axioms;

        let page = page_number(addr);
        self.entries.insert(page, PageEntry::new(phys, mode));
    }

    /// Releases the page that holds `addr`; an unreserved page stays so.
    pub fn unmap(&mut self, addr: u64)
        ensures
            final(self)@ == old(self)@.remove(page_of(addr)),
    {
        broadcast use vstd::std_specs::hash::group_hash_axioms;

        let page = page_number(addr);
        self.entries.remove(&page);
    }
}

} // verus!
