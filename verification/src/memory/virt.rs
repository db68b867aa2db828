//! Virtual memory manager.
pub mod access;

pub use self::access::{
    byte_readable, byte_writable, loaded, phys_of, range_readable, range_writable, stored,
    TypedView, ViewError,
};
use crate::arch::memory::{
    page_of, Layout, PAddr, PageEntry, PageTable, VAddr, LAST_PAGE, PAGE_SIZE,
};
use crate::memory::phys::{FrameAllocator, PhysicalMemory};
use vstd::prelude::*;

verus! {

/// Access policy carried by a mapped page.
///
/// No variant is writable and executable at once.
#[derive(PartialEq, Eq, Structural, Clone, Copy, Debug)]
pub enum ProtectionMode {
    /// Inaccessible.
    Unmapped,
    /// Kernel read-only.
    KernelRO,
    /// Kernel read-write.
    KernelRW,
    /// Kernel read-execute.
    KernelRX,
    /// User read-only.
    UserRO,
    /// User read-write.
    UserRW,
    /// User read-execute.
    UserRX,
}

impl ProtectionMode {
    /// Whether data may be read through a page carrying this mode.
    pub open spec fn is_readable(self) -> bool {
        self != ProtectionMode::Unmapped
    }

    /// Whether data may be written through a page carrying this mode.
    pub open spec fn is_writable(self) -> bool {
        self == ProtectionMode::KernelRW || self == ProtectionMode::UserRW
    }

    /// Whether code may be executed from a page carrying this mode.
    pub open spec fn is_executable(self) -> bool {
        self == ProtectionMode::KernelRX || self == ProtectionMode::UserRX
    }

    /// The variant's name as a sequence of characters.
    pub open spec fn name_spec(self) -> Seq<char> {
        match self {
            ProtectionMode::Unmapped => "Unmapped"@,
            ProtectionMode::KernelRO => "KernelRO"@,
            ProtectionMode::KernelRW => "KernelRW"@,
            ProtectionMode::KernelRX => "KernelRX"@,
            ProtectionMode::UserRO => "UserRO"@,
            ProtectionMode::UserRW => "UserRW"@,
            ProtectionMode::UserRX => "UserRX"@,
        }
    }

    /// Human-readable rendering: the variant's name.
    pub fn name(&self) -> (s: &'static str)
        ensures
            s@ == self.name_spec(),
    {
        match self {
            ProtectionMode::Unmapped => "Unmapped",
            ProtectionMode::KernelRO => "KernelRO",
            ProtectionMode::KernelRW => "KernelRW",
            ProtectionMode::KernelRX => "KernelRX",
            ProtectionMode::UserRO => "UserRO",
            ProtectionMode::UserRW => "UserRW",
            ProtectionMode::UserRX => "UserRX",
        }
    }

    /// Tells whether data may be read through a page carrying this mode.
    pub fn readable(&self) -> (r: bool)
        ensures
            r == self.is_readable(),
    {
        !matches!(self, ProtectionMode::Unmapped)
    }

    /// Tells whether data may be written through a page carrying this mode.
    pub fn writable(&self) -> (r: bool)
        ensures
            r == self.is_writable(),
    {
        matches!(self, ProtectionMode::KernelRW | ProtectionMode::UserRW)
    }
}

/// No protection mode is both writable and executable.
pub proof fn lemma_never_writable_and_executable(mode: ProtectionMode)
    ensures
        !(mode.is_writable() && mode.is_executable()),
{
}

/// The two locks that serialise changes to the address space: one for the
/// global region, one for the user region.
#[derive(PartialEq, Eq, Structural, Clone, Copy, Debug)]
pub enum RegionLock {
    /// Guards every change to the global region.
    Kernel,
    /// Guards every change to the user region.
    User,
}

/// Which of the two region locks are held.
///
/// A lock is held by at most one holder: it is granted only while it is
/// free, and it is not free again before it is released.
#[derive(PartialEq, Eq, Structural, Clone, Copy, Debug)]
pub struct RegionLocks {
    /// Whether the lock of the global region is held.
    pub kernel: bool,
    /// Whether the lock of the user region is held.
    pub user: bool,
}

impl RegionLocks {
    /// Whether `lock` is held.
    pub open spec fn held(self, lock: RegionLock) -> bool {
        match lock {
            RegionLock::Kernel => self.kernel,
            RegionLock::User => self.user,
        }
    }

    /// The locks with `lock` held or free as `held` says, and the other one
    /// as it is.
    pub open spec fn with(self, lock: RegionLock, held: bool) -> RegionLocks {
        match lock {
            RegionLock::Kernel => RegionLocks { kernel: held, ..self },
            RegionLock::User => RegionLocks { user: held, ..self },
        }
    }

    /// Both locks free.
    pub fn new() -> (locks: RegionLocks)
        ensures
            !locks.kernel,
            !locks.user,
    {
        RegionLocks { kernel: false, user: false }
    }

    /// Tells whether `lock` is held.
    pub fn is_held(&self, lock: RegionLock) -> (held: bool)
        ensures
            held == self.held(lock),
    {
        match lock {
            RegionLock::Kernel => self.kernel,
            RegionLock::User => self.user,
        }
    }

    /// Takes `lock` if it is free, and tells whether it was taken. A lock
    /// that is held stays with its holder.
    pub fn try_acquire(&mut self, lock: RegionLock) -> (granted: bool)
        ensures
            granted == !old(self).held(lock),
            *final(self) == old(self).with(lock, true),
    {
        match lock {
            RegionLock::Kernel => {
                let granted = !self.kernel;
                self.kernel = true;
                granted
            },
            RegionLock::User => {
                let granted = !self.user;
                self.user = true;
                granted
            },
        }
    }

    /// Gives `lock` back, and tells whether it was held.
    pub fn release(&mut self, lock: RegionLock) -> (was_held: bool)
        ensures
            was_held == old(self).held(lock),
            *final(self) == old(self).with(lock, false),
    {
        match lock {
            RegionLock::Kernel => {
                let was_held = self.kernel;
                self.kernel = false;
                was_held
            },
            RegionLock::User => {
                let was_held = self.user;
                self.user = false;
                was_held
            },
        }
    }
}

/// How an attempt to install a mapping ended.
#[derive(PartialEq, Eq, Structural, Clone, Copy, Debug)]
pub enum MapOutcome {
    /// The page was free and now carries the mapping.
    Installed,
    /// The page was reserved already; the existing mapping was left alone.
    Collision,
}

/// Why a hardware mapping could not be made.
#[derive(PartialEq, Eq, Structural, Clone, Copy, Debug)]
pub enum AllocationError {
    /// The hardware sub-region holds no free run of the requested length.
    NoSpace,
}

/// Whether page `p` is one of the `n` pages that start at page `first`.
pub open spec fn in_run(p: u64, first: u64, n: int) -> bool {
    first <= p < first + n
}

/// Whether none of the `n` pages that start at page `first` is reserved.
pub open spec fn run_is_free(pages: Map<u64, PageEntry>, first: u64, n: int) -> bool {
    forall|p: u64| in_run(p, first, n) ==> !#[trigger] pages.contains_key(p)
}

/// Whether all of the `n` pages that start at page `first` are reserved.
pub open spec fn run_is_reserved(pages: Map<u64, PageEntry>, first: u64, n: int) -> bool {
    forall|p: u64| in_run(p, first, n) ==> #[trigger] pages.contains_key(p)
}

/// Whether `k` is the number of free pages at the start of the run of `n`
/// pages from page `first`: that many are free, and the next one, if the run
/// goes on, is reserved.
pub open spec fn is_free_prefix(pages: Map<u64, PageEntry>, first: u64, n: int, k: int) -> bool {
    &&& 0 <= k <= n
    &&& run_is_free(pages, first, k)
    &&& k < n ==> pages.contains_key((first + k) as u64)
}

/// The page table after the `n` pages from page `first` were pointed at the
/// frames from frame `frame0` on, in order, with policy `mode`. A page that
/// was reserved before keeps what it had.
pub open spec fn with_run(
    pages: Map<u64, PageEntry>,
    first: u64,
    n: int,
    frame0: int,
    mode: ProtectionMode,
) -> Map<u64, PageEntry> {
    Map::new(
        |p: u64| pages.contains_key(p) || in_run(p, first, n),
        |p: u64|
            if pages.contains_key(p) {
                pages[p]
            } else {
                PageEntry::of((frame0 + (p - first)) as u64, mode)
            },
    )
}

/// The page table after the `n` pages from page `first` were released.
pub open spec fn without_run(pages: Map<u64, PageEntry>, first: u64, n: int) -> Map<
    u64,
    PageEntry,
> {
    Map::new(|p: u64| pages.contains_key(p) && !in_run(p, first, n), |p: u64| pages[p])
}

/// Whether the `n` pages that start at page `first` lie inside the hardware
/// sub-region and are all free.
pub open spec fn fits(pages: Map<u64, PageEntry>, layout: Layout, first: u64, n: int) -> bool {
    &&& layout.hardware_first_page() <= first
    &&& first + n <= layout.hardware_end_page()
    &&& run_is_free(pages, first, n)
}

/// Whether page `first` is the lowest page of the hardware sub-region at
/// which a free run of `n` pages starts.
pub open spec fn is_first_fit(
    pages: Map<u64, PageEntry>,
    layout: Layout,
    first: u64,
    n: int,
) -> bool {
    &&& fits(pages, layout, first, n)
    &&& forall|q: u64| q < first ==> !#[trigger] fits(pages, layout, q, n)
}

/// Whether the hardware sub-region holds no free run of `n` pages.
pub open spec fn no_fit(pages: Map<u64, PageEntry>, layout: Layout, n: int) -> bool {
    forall|q: u64| !#[trigger] fits(pages, layout, q, n)
}

/// What an address space is to its users.
pub struct SpaceView {
    /// The boundaries of the address space.
    pub layout: Layout,
    /// The reserved virtual pages, by page number.
    pub pages: Map<u64, PageEntry>,
    /// Number of the frame that the next allocation takes.
    pub next_frame: int,
    /// Number of frames that can still be allocated.
    pub free_frames: int,
    /// The byte at every physical address.
    pub memory: Map<u64, u8>,
    /// Which region locks are held.
    pub locks: RegionLocks,
}

/// The memory-manager context: the page table, the frame supply, the
/// contents of physical memory and the two region locks, within one layout.
pub struct AddressSpace {
    layout: Layout,
    table: PageTable,
    frames: FrameAllocator,
    memory: PhysicalMemory,
    locks: RegionLocks,
}

impl View for AddressSpace {
    type V = SpaceView;

    closed spec fn view(&self) -> SpaceView {
        SpaceView {
            layout: self.layout,
            pages: self.table@,
            next_frame: self.frames.next_frame() as int,
            free_frames: self.frames.available(),
            memory: self.memory@,
            locks: self.locks,
        }
    }
}

impl AddressSpace {
    /// The boundaries of the address space.
    pub fn layout(&self) -> (layout: Layout)
        ensures
            layout == self@.layout,
            layout.wf(),
    {
        let layout = self.layout;
        let _ = layout.hardware_start();
        layout
    }

    /// Tells whether the page that holds `addr` is reserved.
    pub fn is_reserved(&self, addr: u64) -> (reserved: bool)
        ensures
            reserved == self@.pages.contains_key(page_of(addr)),
    {
        self.table.is_reserved(addr)
    }

    /// Looks up the entry of the page that holds `addr`.
    pub fn lookup(&self, addr: u64) -> (entry: Option<PageEntry>)
        ensures
            entry == (if self@.pages.contains_key(page_of(addr)) {
                Some(self@.pages[page_of(addr)])
            } else {
                None
            }),
    {
        self.table.lookup(addr)
    }

    /// Tells whether `lock` is held.
    pub fn is_locked(&self, lock: RegionLock) -> (held: bool)
        ensures
            held == self@.locks.held(lock),
    {
        self.locks.is_held(lock)
    }

    /// Takes `lock` if it is free, and tells whether it was taken. Whoever
    /// has taken a lock holds it until `unlock`.
    pub fn try_lock(&mut self, lock: RegionLock) -> (granted: bool)
        ensures
            granted == !old(self)@.locks.held(lock),
            final(self)@ == (SpaceView { locks: old(self)@.locks.with(lock, true), ..old(self)@ }),
    {
        self.locks.try_acquire(lock)
    }

    /// Gives `lock` back, and tells whether it was held.
    pub fn unlock(&mut self, lock: RegionLock) -> (was_held: bool)
        ensures
            was_held == old(self)@.locks.held(lock),
            final(self)@ == (SpaceView { locks: old(self)@.locks.with(lock, false), ..old(self)@ }),
    {
        self.locks.release(lock)
    }

    /// Number of frames that can still be allocated.
    pub fn free_frames(&self) -> (n: u64)
        ensures
            n == self@.free_frames,
    {
        self.frames.remaining()
    }
}

/// Sets up the memory-manager context: no page reserved, memory zeroed, and
/// the given frame supply.
pub fn init(layout: Layout, frames: FrameAllocator) -> (space: AddressSpace)
    ensures
        space@ == (SpaceView {
            layout,
            pages: Map::empty(),
            next_frame: frames.next_frame() as int,
            free_frames: frames.available(),
            memory: crate::memory::phys::zeroed(),
            locks: RegionLocks { kernel: false, user: false },
        }),
{
    AddressSpace {
        layout,
        table: PageTable::new(),
        frames,
        memory: PhysicalMemory::new(),
        locks: RegionLocks::new(),
    }
}

/// The lock that guards the region in which `addr` lies.
pub open spec fn lock_for(layout: Layout, addr: u64) -> RegionLock {
    if layout.is_global_spec(addr) {
        RegionLock::Kernel
    } else {
        RegionLock::User
    }
}

/// Selects the lock that guards the region in which `addr` lies.
pub fn select_lock(space: &AddressSpace, addr: VAddr) -> (lock: RegionLock)
    ensures
        lock == lock_for(space@.layout, addr),
{
    if space.layout.is_global(addr) {
        RegionLock::Kernel
    } else {
        RegionLock::User
    }
}

/// Stepping `i` pages on from `addr` stays inside the address space and lands
/// `i` pages further, as long as that page exists.
proof fn lemma_page_step(addr: u64, i: int)
    requires
        0 <= i,
        page_of(addr) + i <= LAST_PAGE,
    ensures
        addr + i * PAGE_SIZE <= u64::MAX,
        page_of((addr + i * PAGE_SIZE) as u64) == page_of(addr) + i,
        (addr + i * PAGE_SIZE) % (PAGE_SIZE as int) == addr % (PAGE_SIZE as u64),
{
    let p = addr as int / 4096;
    let r = addr as int % 4096;
    assert(PAGE_SIZE == 4096);
    assert(addr == 4096 * p + r);
    assert(addr + i * PAGE_SIZE == 4096 * (p + i) + r);
    assert(LAST_PAGE == 0x000F_FFFF_FFFF_FFFF);
    assert(4096 * (p + i) + r <= u64::MAX);
    assert((4096 * (p + i) + r) / 4096 == p + i);
    assert((4096 * (p + i) + r) % 4096 == r);
}

/// The protection mode of memory that backs an address on demand: read-write,
/// for the kernel in the global region and for the user below it.
pub open spec fn backing_mode(layout: Layout, addr: u64) -> ProtectionMode {
    if layout.is_global_spec(addr) {
        ProtectionMode::KernelRW
    } else {
        ProtectionMode::UserRW
    }
}

/// Ensures that the `page_count` pages from the one holding `addr` on are
/// backed by memory.
///
/// One frame is taken from the frame supply for every page of the range, in
/// order, and installed behind the page unless the page is reserved already;
/// such a page keeps its mapping. The result tells whether every page of the
/// range was free.
///
/// The lock of the region in which `addr` lies is taken for the whole of it,
/// so the caller must not hold that lock.
pub fn allocate(space: &mut AddressSpace, addr: VAddr, page_count: usize) -> (fresh: bool)
    requires
        page_of(addr) + page_count <= LAST_PAGE + 1,
        page_count <= old(space)@.free_frames,
        !old(space)@.locks.held(lock_for(old(space)@.layout, addr)),
    ensures
        fresh == run_is_free(old(space)@.pages, page_of(addr), page_count as int),
        final(space)@ == (SpaceView {
            pages: with_run(
                old(space)@.pages,
                page_of(addr),
                page_count as int,
                old(space)@.next_frame,
                backing_mode(old(space)@.layout, addr),
            ),
            next_frame: old(space)@.next_frame + page_count,
            free_frames: old(space)@.free_frames - page_count,
            ..old(space)@
        }),
{
    // 1. Lock
    let lock = select_lock(space, addr);
    space.try_lock(lock);
    let fresh = back_pages(space, addr, page_count);
    space.unlock(lock);
    assert(space@.locks == old(space)@.locks);
    fresh
}

/// Backs the pages of a range while the caller holds the region's lock.
fn back_pages(space: &mut AddressSpace, addr: VAddr, page_count: usize) -> (fresh: bool)
    requires
        page_of(addr) + page_count <= LAST_PAGE + 1,
        page_count <= old(space)@.free_frames,
    ensures
        fresh == run_is_free(old(space)@.pages, page_of(addr), page_count as int),
        final(space)@ == (SpaceView {
            pages: with_run(
                old(space)@.pages,
                page_of(addr),
                page_count as int,
                old(space)@.next_frame,
                backing_mode(old(space)@.layout, addr),
            ),
            next_frame: old(space)@.next_frame + page_count,
            free_frames: old(space)@.free_frames - page_count,
            ..old(space)@
        }),
{
    let pagenum: u64 = addr / (PAGE_SIZE as u64);
    let mode = if space.layout.is_global(addr) {
        ProtectionMode::KernelRW
    } else {
        ProtectionMode::UserRW
    };
    let ghost pages = space@.pages;
    let ghost frame0 = space@.next_frame;
    // 2. See whether the range is free
    let mut fresh = true;
    let mut i: usize = 0;
    while i < page_count
        invariant
            i <= page_count,
            pagenum == page_of(addr),
            pagenum + page_count <= LAST_PAGE + 1,
            pages == space@.pages,
            fresh == run_is_free(pages, pagenum, i as int),
        decreases page_count - i,
    {
        let pg: u64 = pagenum + i as u64;
        assert(page_of((pg * PAGE_SIZE) as u64) == pg);
        if space.table.is_reserved(pg * (PAGE_SIZE as u64)) {
            assert(in_run(pg, pagenum, i + 1));
            fresh = false;
        }
        i = i + 1;
    }
    // 3. Back every page with a frame of its own
    assert(pages =~= with_run(pages, pagenum, 0, frame0, mode));
    let mut i: usize = 0;
    while i < page_count
        invariant
            i <= page_count,
            pagenum == page_of(addr),
            pagenum + page_count <= LAST_PAGE + 1,
            pages == old(space)@.pages,
            frame0 == old(space)@.next_frame,
            page_count <= old(space)@.free_frames,
            space@ == (SpaceView {
                pages: with_run(pages, pagenum, i as int, frame0, mode),
                next_frame: frame0 + i,
                free_frames: old(space)@.free_frames - i,
                ..old(space)@
            }),
        decreases page_count - i,
    {
        let pg: u64 = pagenum + i as u64;
        let frame = space.frames.allocate_frame();
        assert(page_of((pg * PAGE_SIZE) as u64) == pg);
        assert(page_of((frame * PAGE_SIZE) as u64) == frame);
        map(space, pg * (PAGE_SIZE as u64), frame * (PAGE_SIZE as u64), mode);
        assert(space@.pages =~= with_run(pages, pagenum, i + 1, frame0, mode));
        i = i + 1;
    }
    fresh
}

/// Installs a mapping from the page that holds `addr` to the frame that holds
/// `phys`, unless the page is reserved already: an existing mapping is never
/// overwritten, and the outcome tells which of the two happened.
///
/// No lock is taken: a caller for whom the look at the page and the
/// installation have to be one step takes the region's lock around the call.
pub fn map(space: &mut AddressSpace, addr: VAddr, phys: PAddr, prot: ProtectionMode) -> (outcome:
    MapOutcome)
    ensures
        outcome == if old(space)@.pages.contains_key(page_of(addr)) {
            MapOutcome::Collision
        } else {
            MapOutcome::Installed
        },
        final(space)@ == (SpaceView {
            pages: if old(space)@.pages.contains_key(page_of(addr)) {
                old(space)@.pages
            } else {
                old(space)@.pages.insert(page_of(addr), PageEntry::of(page_of(phys), prot))
            },
            ..old(space)@
        }),
{
    if space.table.is_reserved(addr) {
        MapOutcome::Collision
    } else {
        space.table.map(addr, phys, prot);
        MapOutcome::Installed
    }
}

/// Counts the free pages at the start of the run of `count` pages that begins
/// with the page holding `addr`, up to the first reserved one.
pub fn count_free_in_range(space: &AddressSpace, addr: VAddr, count: usize) -> (free: usize)
    requires
        page_of(addr) + count <= LAST_PAGE + 1,
    ensures
        is_free_prefix(space@.pages, page_of(addr), count as int, free as int),
{
    let mut i: usize = 0;
    while i < count
        invariant
            i <= count,
            page_of(addr) + count <= LAST_PAGE + 1,
            run_is_free(space@.pages, page_of(addr), i as int),
        decreases count - i,
    {
        proof {
            lemma_page_step(addr, i as int);
        }
        let pg: u64 = addr + (i as u64) * (PAGE_SIZE as u64);
        if space.table.is_reserved(pg) {
            return i;
        }
        i = i + 1;
    }
    count
}

/// The protection mode of a hardware mapping.
pub open spec fn hardware_mode(readonly: bool) -> ProtectionMode {
    if readonly {
        ProtectionMode::KernelRO
    } else {
        ProtectionMode::KernelRW
    }
}

/// Creates a long-standing read-only mapping of `count` pages of hardware
/// memory that starts at physical address `phys`, for the module named.
pub fn map_hw_ro(space: &mut AddressSpace, phys: PAddr, count: usize, module: &str) -> (result:
    Result<AllocHandle, AllocationError>)
    requires
        phys + count * PAGE_SIZE <= u64::MAX,
        !old(space)@.locks.held(RegionLock::Kernel),
    ensures
        hardware_mapping_made(old(space)@, final(space)@, phys, count, true, result),
{
    map_hw(space, phys, count, true, module)
}

/// Creates a long-standing read-write mapping of `count` pages of hardware
/// memory that starts at physical address `phys`, for the module named.
pub fn map_hw_rw(space: &mut AddressSpace, phys: PAddr, count: usize, module: &str) -> (result:
    Result<AllocHandle, AllocationError>)
    requires
        phys + count * PAGE_SIZE <= u64::MAX,
        !old(space)@.locks.held(RegionLock::Kernel),
    ensures
        hardware_mapping_made(old(space)@, final(space)@, phys, count, false, result),
{
    map_hw(space, phys, count, false, module)
}

/// What a request for a hardware mapping of `count` pages at physical address
/// `phys` does to the address space, and what it returns.
///
/// It succeeds exactly when the hardware sub-region holds a free run of
/// `count` pages. The handle then owns the lowest such run, whose pages now
/// point at the frames from the one holding `phys` on, in order. On failure
/// nothing has changed.
pub open spec fn hardware_mapping_made(
    before: SpaceView,
    after: SpaceView,
    phys: u64,
    count: usize,
    readonly: bool,
    result: Result<AllocHandle, AllocationError>,
) -> bool {
    match result {
        Ok(handle) => {
            &&& is_first_fit(before.pages, before.layout, handle.first_page(), count as int)
            &&& handle.wf()
            &&& handle.count() == count
            &&& handle.mode() == hardware_mode(readonly)
            &&& after == (SpaceView {
                pages: with_run(
                    before.pages,
                    handle.first_page(),
                    count as int,
                    page_of(phys) as int,
                    hardware_mode(readonly),
                ),
                ..before
            })
            &&& run_is_reserved(after.pages, handle.first_page(), count as int)
            &&& handle.mapped_in(after.pages)
        },
        Err(e) => {
            &&& e == AllocationError::NoSpace
            &&& no_fit(before.pages, before.layout, count as int)
            &&& after == before
        },
    }
}

/// Creates a long-standing mapping of `count` pages of hardware memory that
/// starts at physical address `phys`, read-only or read-write.
///
/// The hardware sub-region is searched from its base for the first free run
/// that is long enough. The kernel region lock is taken for the search and
/// the mapping together, so the caller must not hold it.
pub fn map_hw(
    space: &mut AddressSpace,
    phys: PAddr,
    count: usize,
    readonly: bool,
    _module: &str,
) -> (result: Result<AllocHandle, AllocationError>)
    requires
        phys + count * PAGE_SIZE <= u64::MAX,
        !old(space)@.locks.held(RegionLock::Kernel),
    ensures
        hardware_mapping_made(old(space)@, final(space)@, phys, count, readonly, result),
{
    space.try_lock(RegionLock::Kernel);
    let result = find_and_map(space, phys, count, readonly);
    space.unlock(RegionLock::Kernel);
    assert(space@.locks == old(space)@.locks);
    result
}

/// Finds the first free run of the hardware sub-region that is long enough
/// and maps it, while the caller holds the kernel region lock.
fn find_and_map(space: &mut AddressSpace, phys: PAddr, count: usize, readonly: bool) -> (result:
    Result<AllocHandle, AllocationError>)
    requires
        phys + count * PAGE_SIZE <= u64::MAX,
    ensures
        hardware_mapping_made(old(space)@, final(space)@, phys, count, readonly, result),
{
    let mode = if readonly {
        ProtectionMode::KernelRO
    } else {
        ProtectionMode::KernelRW
    };
    let layout = space.layout();
    let end = layout.hardware_limit();
    let ghost pages = space@.pages;
    // 1. Locate an area
    let mut pos: u64 = layout.hardware_start();
    loop
        invariant_except_break
            forall|q: u64| q < page_of(pos) ==> !#[trigger] fits(pages, layout, q, count as int),
        invariant
            layout.wf(),
            layout == space@.layout,
            pages == space@.pages,
            space@ == old(space)@,
            end == layout.hardware_end(),
            layout.hardware_base() <= pos <= end,
            pos % (PAGE_SIZE as u64) == 0,
        ensures
            is_first_fit(pages, layout, page_of(pos), count as int),
        decreases end - pos,
    {
        if (end - pos) / (PAGE_SIZE as u64) < count as u64 {
            assert forall|q: u64| !#[trigger] fits(pages, layout, q, count as int) by {
                if q >= page_of(pos) {
                    assert(q + count > layout.hardware_end_page());
                }
            }
            return Err(AllocationError::NoSpace);
        }
        let free = count_free_in_range(space, pos, count);
        if free == count {
            break ;
        }
        let ghost reserved: u64 = (page_of(pos) + free) as u64;
        assert(pages.contains_key(reserved));
        assert forall|q: u64| q < page_of(pos) + free + 1 implies !#[trigger] fits(
            pages,
            layout,
            q,
            count as int,
        ) by {
            if q >= page_of(pos) {
                assert(in_run(reserved, q, count as int));
            }
        }
        pos = pos + (free as u64 + 1) * (PAGE_SIZE as u64);
    }
    // 2. Map
    let ghost first = page_of(pos);
    let ghost frame0 = page_of(phys) as int;
    assert(pages =~= with_run(pages, first, 0, frame0, mode));
    let mut i: usize = 0;
    while i < count
        invariant
            i <= count,
            first == page_of(pos),
            frame0 == page_of(phys),
            pos % (PAGE_SIZE as u64) == 0,
            first + count <= LAST_PAGE + 1,
            phys + count * PAGE_SIZE <= u64::MAX,
            pages == old(space)@.pages,
            run_is_free(pages, first, count as int),
            space@ == (SpaceView {
                pages: with_run(pages, first, i as int, frame0, mode),
                ..old(space)@
            }),
        decreases count - i,
    {
        proof {
            lemma_page_step(pos, i as int);
            lemma_page_step(phys, i as int);
        }
        let va: u64 = pos + (i as u64) * (PAGE_SIZE as u64);
        let pa: u64 = phys + (i as u64) * (PAGE_SIZE as u64);
        assert(!pages.contains_key(page_of(va))) by {
            assert(in_run(page_of(va), first, count as int));
        }
        map(space, va, pa, mode);
        assert(space@.pages =~= with_run(pages, first, i + 1, frame0, mode));
        i = i + 1;
    }
    // 3. Return a handle representing this area
    let handle = AllocHandle { addr: pos, count, mode };
    proof {
        broadcast use PageEntry::lemma_of;

        assert(handle.mapped_in(space@.pages));
    }
    Ok(handle)
}

/// Releases the `count` pages that start at `addr`, which must be the start
/// of a page. Only a handle that goes out of use releases pages.
///
/// The kernel region lock is taken for it, whichever region the pages lie
/// in, so the caller must not hold that lock.
fn unmap(space: &mut AddressSpace, addr: VAddr, count: usize)
    requires
        addr % (PAGE_SIZE as u64) == 0,
        page_of(addr) + count <= LAST_PAGE + 1,
        !old(space)@.locks.held(RegionLock::Kernel),
    ensures
        final(space)@ == (SpaceView {
            pages: without_run(old(space)@.pages, page_of(addr), count as int),
            ..old(space)@
        }),
{
    space.try_lock(RegionLock::Kernel);
    release_pages(space, addr, count);
    space.unlock(RegionLock::Kernel);
    assert(space@.locks == old(space)@.locks);
}

/// Releases the pages of a run while the caller holds the kernel region lock.
fn release_pages(space: &mut AddressSpace, addr: VAddr, count: usize)
    requires
        addr % (PAGE_SIZE as u64) == 0,
        page_of(addr) + count <= LAST_PAGE + 1,
    ensures
        final(space)@ == (SpaceView {
            pages: without_run(old(space)@.pages, page_of(addr), count as int),
            ..old(space)@
        }),
{
    assert(space@.pages =~= without_run(space@.pages, page_of(addr), 0));
    let mut i: usize = 0;
    while i < count
        invariant
            i <= count,
            addr % (PAGE_SIZE as u64) == 0,
            page_of(addr) + count <= LAST_PAGE + 1,
            space@ == (SpaceView {
                pages: without_run(old(space)@.pages, page_of(addr), i as int),
                ..old(space)@
            }),
        decreases count - i,
    {
        proof {
            lemma_page_step(addr, i as int);
        }
        let pg: u64 = addr + (i as u64) * (PAGE_SIZE as u64);
        space.table.unmap(pg);
        assert(space@.pages =~= without_run(old(space)@.pages, page_of(addr), i + 1));
        i = i + 1;
    }
}

/// Owning handle over a run of contiguous mapped pages.
///
/// A handle that counts no pages owns nothing.
pub struct AllocHandle {
    addr: u64,
    count: usize,
    mode: ProtectionMode,
}

impl AllocHandle {
    /// Address of the first page.
    pub closed spec fn addr(self) -> u64 {
        self.addr
    }

    /// Number of pages owned.
    pub closed spec fn count(self) -> usize {
        self.count
    }

    /// Protection mode that the pages were mapped with.
    pub closed spec fn mode(self) -> ProtectionMode {
        self.mode
    }

    /// Number of the first page.
    pub open spec fn first_page(self) -> u64 {
        page_of(self.addr())
    }

    /// Number of bytes that the handle spans.
    pub open spec fn capacity(self) -> int {
        self.count() * PAGE_SIZE
    }

    /// Whether every page of the handle is reserved in `pages` with the
    /// handle's mode.
    pub open spec fn mapped_in(self, pages: Map<u64, PageEntry>) -> bool {
        forall|p: u64|
            in_run(p, self.first_page(), self.count() as int) ==> #[trigger] pages.contains_key(p)
                && pages[p].mode() == self.mode()
    }

    /// The run starts on a page boundary and ends inside the address space.
    #[verifier::type_invariant]
    pub open spec fn wf(self) -> bool {
        &&& self.addr() % (PAGE_SIZE as u64) == 0
        &&& self.addr() + self.count() * PAGE_SIZE <= u64::MAX
    }

    /// Address of the first page.
    pub fn base(&self) -> (addr: u64)
        ensures
            addr == self.addr(),
            self.wf(),
    {
        proof {
            use_type_invariant(self);
        }
        self.addr
    }

    /// Number of pages owned.
    pub fn page_count(&self) -> (count: usize)
        ensures
            count == self.count(),
    {
        self.count
    }

    /// Protection mode that the pages were mapped with.
    pub fn protection(&self) -> (mode: ProtectionMode)
        ensures
            mode == self.mode(),
    {
        self.mode
    }

    /// Ends the handle's life: the pages it owns are released, under the
    /// kernel region lock. A handle that owns nothing leaves the address
    /// space as it is and takes no lock.
    pub fn release(self, space: &mut AddressSpace)
        requires
            self.count() > 0 ==> !old(space)@.locks.held(RegionLock::Kernel),
        ensures
            final(space)@ == (SpaceView {
                pages: without_run(old(space)@.pages, self.first_page(), self.count() as int),
                ..old(space)@
            }),
            self.count() == 0 ==> final(space)@ == old(space)@,
            run_is_free(final(space)@.pages, self.first_page(), self.count() as int),
    {
        proof {
            use_type_invariant(&self);
            assert(old(space)@.pages =~= without_run(old(space)@.pages, self.first_page(), 0));
        }
        if self.count > 0 {
            unmap(space, self.addr, self.count);
        }
    }
}

} // verus!
