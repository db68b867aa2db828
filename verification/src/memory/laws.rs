//! What holds of the virtual memory manager whatever state it is in.
use crate::arch::memory::{page_of, page_offset, Layout, PageEntry, LAST_PAGE, PAGE_SIZE};
use crate::endian::{le_u32, u32_to_le};
use crate::memory::virt::{
    byte_readable, byte_writable, fits, in_run, is_first_fit, loaded, lock_for, no_fit, phys_of,
    range_readable, range_writable, run_is_free, run_is_reserved, stored, with_run, without_run,
    AllocHandle, ProtectionMode, RegionLock, RegionLocks, SpaceView, ViewError,
};
use vstd::prelude::*;

verus! {

/// A lock that was taken is held, whoever asks next is refused, and once it
/// is given back it is free; the other lock is as it was throughout.
pub proof fn lemma_locks_exclude_and_do_not_interfere(
    locks: RegionLocks,
    lock: RegionLock,
    other: RegionLock,
)
    requires
        other != lock,
    ensures
        locks.with(lock, true).held(lock),
        !locks.with(lock, false).held(lock),
        locks.with(lock, true).with(lock, true) == locks.with(lock, true),
        locks.with(lock, true).held(other) == locks.held(other),
        locks.with(lock, false).held(other) == locks.held(other),
        !locks.held(lock) ==> locks.with(lock, true).with(lock, false) == locks,
{
}

/// Every address has exactly one lock: the kernel lock from the base of the
/// global region on, the user lock below it.
pub proof fn lemma_regions_partition_the_address_space(layout: Layout, addr: u64)
    ensures
        lock_for(layout, addr) == RegionLock::Kernel <==> addr >= layout.global_base(),
        lock_for(layout, addr) == RegionLock::User <==> addr < layout.global_base(),
        layout.wf() && layout.hardware_base() <= addr ==> lock_for(layout, addr)
            == RegionLock::Kernel,
{
}

/// Every page of a run that was just mapped is reserved, whatever the table
/// held before.
pub proof fn lemma_mapped_run_is_reserved(
    pages: Map<u64, PageEntry>,
    first: u64,
    n: int,
    frame0: int,
    mode: ProtectionMode,
)
    ensures
        run_is_reserved(with_run(pages, first, n, frame0, mode), first, n),
{
}

/// Mapping a run changes no page outside the run, and no page that was
/// reserved before.
pub proof fn lemma_mapping_keeps_the_rest(
    pages: Map<u64, PageEntry>,
    first: u64,
    n: int,
    frame0: int,
    mode: ProtectionMode,
    p: u64,
)
    requires
        pages.contains_key(p) || !in_run(p, first, n),
    ensures
        with_run(pages, first, n, frame0, mode).contains_key(p) == pages.contains_key(p),
        pages.contains_key(p) ==> with_run(pages, first, n, frame0, mode)[p] == pages[p],
{
}

/// A free page of a mapped run points at the frame as far from the first
/// frame as the page is from the first page, with the mode asked for.
pub proof fn lemma_mapped_run_is_contiguous(
    pages: Map<u64, PageEntry>,
    first: u64,
    n: int,
    frame0: int,
    mode: ProtectionMode,
    p: u64,
)
    requires
        in_run(p, first, n),
        !pages.contains_key(p),
        0 <= frame0,
        frame0 + n <= u64::MAX,
    ensures
        with_run(pages, first, n, frame0, mode)[p].frame() == frame0 + (p - first),
        with_run(pages, first, n, frame0, mode)[p].mode() == mode,
{
    broadcast use PageEntry::lemma_of;

}

/// After a handle's pages were released, every one of them is unreserved,
/// and every other page is as it was.
pub proof fn lemma_released_run_is_free(pages: Map<u64, PageEntry>, first: u64, n: int, p: u64)
    ensures
        run_is_free(without_run(pages, first, n), first, n),
        !in_run(p, first, n) ==> without_run(pages, first, n).contains_key(p)
            == pages.contains_key(p),
        !in_run(p, first, n) && pages.contains_key(p) ==> without_run(pages, first, n)[p]
            == pages[p],
{
}

/// Releasing a run that was mapped onto free pages brings the page table
/// back to what it was before the mapping.
pub proof fn lemma_release_undoes_mapping(
    pages: Map<u64, PageEntry>,
    first: u64,
    n: int,
    frame0: int,
    mode: ProtectionMode,
)
    requires
        run_is_free(pages, first, n),
    ensures
        without_run(with_run(pages, first, n, frame0, mode), first, n) == pages,
{
    assert(without_run(with_run(pages, first, n, frame0, mode), first, n) =~= pages);
}

/// Releasing a handle that owns no page leaves every mapping unchanged.
pub proof fn lemma_releasing_nothing_changes_nothing(pages: Map<u64, PageEntry>, first: u64)
    ensures
        without_run(pages, first, 0) == pages,
{
    assert(without_run(pages, first, 0) =~= pages);
}

/// Memory seen through a handle that was made static stays readable, with the
/// same contents, when the handle itself is released afterwards: the handle
/// owns no page by then.
pub proof fn lemma_static_memory_outlives_handle(
    space: SpaceView,
    handle_after: AllocHandle,
    addr: u64,
    size: int,
)
    requires
        handle_after.count() == 0,
        range_readable(space.pages, addr, size),
    ensures
        range_readable(
            without_run(space.pages, handle_after.first_page(), handle_after.count() as int),
            addr,
            size,
        ),
        loaded(
            SpaceView {
                pages: without_run(
                    space.pages,
                    handle_after.first_page(),
                    handle_after.count() as int,
                ),
                ..space
            },
            addr,
            size,
        ) == loaded(space, addr, size),
{
    lemma_releasing_nothing_changes_nothing(space.pages, handle_after.first_page());
}

/// Whatever lies within the pages of a handle that is mapped with a readable
/// mode can be read, and with a writable mode written.
pub proof fn lemma_mapped_handle_is_accessible(
    handle: AllocHandle,
    pages: Map<u64, PageEntry>,
    ofs: int,
    size: int,
)
    requires
        handle.wf(),
        handle.mapped_in(pages),
        0 <= ofs,
        0 <= size,
        ofs + size <= handle.capacity(),
    ensures
        handle.mode().is_readable() ==> range_readable(pages, (handle.addr() + ofs) as u64, size),
        handle.mode().is_writable() ==> range_writable(pages, (handle.addr() + ofs) as u64, size),
{
    let start = (handle.addr() + ofs) as u64;
    assert forall|a: u64| start <= a < start + size implies (handle.mode().is_readable()
        ==> #[trigger] byte_readable(pages, a)) && (handle.mode().is_writable() ==> byte_writable(
        pages,
        a,
    )) by {
        let p = page_of(a);
        let k = p - handle.first_page();
        assert(handle.addr() == handle.first_page() * 4096);
        assert(a < handle.addr() + handle.count() * 4096);
        assert(in_run(p, handle.first_page(), handle.count() as int));
        assert(pages.contains_key(p));
    }
}

/// What can be written can be read, and so can every part of it.
pub proof fn lemma_writable_part_is_readable(
    pages: Map<u64, PageEntry>,
    addr: u64,
    size: int,
    part: u64,
    part_size: int,
)
    requires
        range_writable(pages, addr, size),
        addr <= part,
        part + part_size <= addr + size,
    ensures
        range_readable(pages, part, part_size),
        range_writable(pages, part, part_size),
{
    assert forall|a: u64| part <= a < part + part_size implies #[trigger] byte_readable(
        pages,
        a,
    ) by {
        assert(byte_writable(pages, a));
    }
    assert forall|a: u64| part <= a < part + part_size implies #[trigger] byte_writable(
        pages,
        a,
    ) by {
        assert(byte_writable(pages, a));
    }
}

/// At most one page is the first fit for a request.
pub proof fn lemma_first_fit_is_unique(
    pages: Map<u64, PageEntry>,
    layout: Layout,
    n: int,
    a: u64,
    b: u64,
)
    requires
        is_first_fit(pages, layout, a, n),
        is_first_fit(pages, layout, b, n),
    ensures
        a == b,
{
    if a < b {
        assert(!fits(pages, layout, a, n));
    } else if b < a {
        assert(!fits(pages, layout, b, n));
    }
}

/// A request either has a first fit or has no fit at all, never both.
pub proof fn lemma_fit_excludes_failure(
    pages: Map<u64, PageEntry>,
    layout: Layout,
    n: int,
    a: u64,
)
    requires
        is_first_fit(pages, layout, a, n),
    ensures
        !no_fit(pages, layout, n),
{
    assert(fits(pages, layout, a, n));
}

/// With the hardware sub-region empty, two single-page reservations made one
/// after the other get adjacent pages: the first gets the region's first
/// page, the second the page right after it.
pub proof fn lemma_sequential_single_pages_are_adjacent(
    pages: Map<u64, PageEntry>,
    layout: Layout,
    first: u64,
    frame: int,
    mode: ProtectionMode,
    second: u64,
)
    requires
        layout.wf(),
        run_is_free(pages, layout.hardware_first_page(), layout.hardware_pages()),
        is_first_fit(pages, layout, first, 1),
        is_first_fit(with_run(pages, first, 1, frame, mode), layout, second, 1),
    ensures
        first == layout.hardware_first_page(),
        second == first + 1,
{
    let base = layout.hardware_first_page();
    let after = with_run(pages, first, 1, frame, mode);
    if first != base {
        assert(fits(pages, layout, base, 1)) by {
            assert forall|p: u64| in_run(p, base, 1) implies !#[trigger] pages.contains_key(p) by {
                assert(in_run(p, base, layout.hardware_pages()));
            }
        }
    }
    assert(after.contains_key(first));
    assert(in_run(second, second, 1));
    assert(second != first);
    if second != first + 1 {
        let next = (first + 1) as u64;
        assert(fits(after, layout, next, 1)) by {
            assert forall|p: u64| in_run(p, next, 1) implies !#[trigger] after.contains_key(p) by {
                assert(in_run(p, base, layout.hardware_pages()));
                assert(!pages.contains_key(p));
            }
        }
    }
}

/// A request for more pages than lie between a page and the end of the
/// hardware sub-region does not fit at that page.
pub proof fn lemma_run_past_the_end_does_not_fit(
    pages: Map<u64, PageEntry>,
    layout: Layout,
    q: u64,
    n: int,
)
    requires
        n > layout.hardware_end_page() - q,
    ensures
        !fits(pages, layout, q, n),
{
}

/// A request for more pages than the hardware sub-region has fits nowhere,
/// whatever the region holds.
pub proof fn lemma_oversized_request_has_no_fit(pages: Map<u64, PageEntry>, layout: Layout, n: int)
    requires
        n > layout.hardware_pages(),
    ensures
        no_fit(pages, layout, n),
{
}

/// Two runs granted one after the other share no page: what the first owns
/// is not free for the second.
pub proof fn lemma_granted_runs_do_not_overlap(
    pages: Map<u64, PageEntry>,
    layout: Layout,
    first: u64,
    n: int,
    frame: int,
    mode: ProtectionMode,
    second: u64,
    m: int,
    p: u64,
)
    requires
        is_first_fit(pages, layout, first, n),
        is_first_fit(with_run(pages, first, n, frame, mode), layout, second, m),
    ensures
        !(in_run(p, first, n) && in_run(p, second, m)),
{
    if in_run(p, first, n) && in_run(p, second, m) {
        assert(with_run(pages, first, n, frame, mode).contains_key(p));
    }
}

/// Physical address of the byte `i` bytes on from virtual address `addr`.
pub open spec fn phys_at(pages: Map<u64, PageEntry>, addr: u64, i: int) -> u64 {
    phys_of(pages, (addr + i) as u64)
}

/// Whether the `size` bytes from virtual address `addr` on stand at `size`
/// different physical addresses.
pub open spec fn bytes_are_distinct(pages: Map<u64, PageEntry>, addr: u64, size: int) -> bool {
    forall|j: int, k: int|
        0 <= j < k < size ==> #[trigger] phys_at(pages, addr, j) != #[trigger] phys_at(
            pages,
            addr,
            k,
        )
}

/// Bytes written through a range of distinct bytes are read back through it
/// as they were written.
pub proof fn lemma_stored_bytes_read_back(
    memory: Map<u64, u8>,
    pages: Map<u64, PageEntry>,
    addr: u64,
    data: Seq<u8>,
    i: int,
)
    requires
        bytes_are_distinct(pages, addr, data.len() as int),
        0 <= i < data.len(),
    ensures
        stored(memory, pages, addr, data).dom().contains(phys_at(pages, addr, i)),
        stored(memory, pages, addr, data)[phys_at(pages, addr, i)] == data[i],
    decreases data.len(),
{
    let last = data.len() - 1;
    let rest = data.drop_last();
    assert(phys_of(pages, (addr + data.len() - 1) as u64) == phys_at(pages, addr, last));
    if i < last {
        assert(phys_at(pages, addr, i) != phys_at(pages, addr, last));
        assert(bytes_are_distinct(pages, addr, rest.len() as int)) by {
            assert forall|j: int, k: int| 0 <= j < k < rest.len() implies #[trigger] phys_at(
                pages,
                addr,
                j,
            ) != #[trigger] phys_at(pages, addr, k) by {}
        }
        lemma_stored_bytes_read_back(memory, pages, addr, rest, i);
    }
}

/// A store changes no byte of memory but the ones written to.
pub proof fn lemma_store_leaves_the_rest(
    memory: Map<u64, u8>,
    pages: Map<u64, PageEntry>,
    addr: u64,
    data: Seq<u8>,
    pa: u64,
)
    requires
        forall|i: int| 0 <= i < data.len() ==> #[trigger] phys_at(pages, addr, i) != pa,
    ensures
        stored(memory, pages, addr, data).dom().contains(pa) == memory.dom().contains(pa),
        stored(memory, pages, addr, data)[pa] == memory[pa],
    decreases data.len(),
{
    if data.len() > 0 {
        let last = data.len() - 1;
        assert(phys_of(pages, (addr + data.len() - 1) as u64) == phys_at(pages, addr, last));
        assert(phys_at(pages, addr, last) != pa);
        lemma_store_leaves_the_rest(memory, pages, addr, data.drop_last(), pa);
    }
}

/// What is read through a range of distinct bytes right after a store through
/// the same range is what was stored.
pub proof fn lemma_load_after_store(space: SpaceView, addr: u64, data: Seq<u8>)
    requires
        bytes_are_distinct(space.pages, addr, data.len() as int),
    ensures
        loaded(
            SpaceView { memory: stored(space.memory, space.pages, addr, data), ..space },
            addr,
            data.len() as int,
        ) == data,
{
    let after = SpaceView { memory: stored(space.memory, space.pages, addr, data), ..space };
    assert forall|i: int| 0 <= i < data.len() implies loaded(after, addr, data.len() as int)[i]
        == data[i] by {
        lemma_stored_bytes_read_back(space.memory, space.pages, addr, data, i);
    }
    assert(loaded(after, addr, data.len() as int) =~= data);
}

/// A number stored through four distinct bytes is read back through them.
pub proof fn lemma_word_reads_back(space: SpaceView, addr: u64, value: u32)
    requires
        bytes_are_distinct(space.pages, addr, 4),
    ensures
        le_u32(
            loaded(
                SpaceView {
                    memory: stored(space.memory, space.pages, addr, u32_to_le(value)),
                    ..space
                },
                addr,
                4,
            ),
            0,
        ) == value,
{
    lemma_load_after_store(space, addr, u32_to_le(value));
    crate::endian::lemma_u32_round_trip(value);
}

/// The bytes within a run of free pages that was mapped to frames in a row
/// stand at different physical addresses: no two of them share memory.
pub proof fn lemma_mapped_run_has_distinct_bytes(
    pages: Map<u64, PageEntry>,
    first: u64,
    n: int,
    frame0: int,
    mode: ProtectionMode,
    addr: u64,
    size: int,
)
    requires
        run_is_free(pages, first, n),
        0 <= frame0,
        frame0 + n <= LAST_PAGE + 1,
        first + n <= LAST_PAGE + 1,
        first * PAGE_SIZE <= addr,
        addr + size <= (first + n) * PAGE_SIZE,
    ensures
        bytes_are_distinct(with_run(pages, first, n, frame0, mode), addr, size),
{
    broadcast use PageEntry::lemma_of;

    let after = with_run(pages, first, n, frame0, mode);
    assert forall|j: int, k: int| 0 <= j < k < size implies #[trigger] phys_at(after, addr, j)
        != #[trigger] phys_at(after, addr, k) by {
        let a = (addr + j) as u64;
        let b = (addr + k) as u64;
        let p = page_of(a);
        let q = page_of(b);
        assert(in_run(p, first, n) && in_run(q, first, n));
        assert(!pages.contains_key(p) && !pages.contains_key(q));
        assert(after[p].frame() == frame0 + (p - first));
        assert(after[q].frame() == frame0 + (q - first));
        assert(a == p * 4096 + page_offset(a));
        assert(b == q * 4096 + page_offset(b));
        assert(phys_of(after, a) == after[p].frame() * 4096 + page_offset(a));
        assert(phys_of(after, b) == after[q].frame() * 4096 + page_offset(b));
    }
}

/// A slice view at an offset that is not a multiple of the element's
/// alignment is refused as misaligned, read-only or mutable, whatever the
/// bounds.
pub proof fn lemma_misaligned_slice_is_refused<T>(handle: AllocHandle, ofs: usize, count: usize)
    requires
        !AllocHandle::aligned_for::<T>(ofs),
    ensures
        handle.slice_verdict::<T>(ofs, count) == Err::<(), ViewError>(ViewError::Misaligned),
        handle.mut_slice_verdict::<T>(ofs, count).is_err(),
{
}

/// A mutable slice view is refused for every handle whose mode is not kernel
/// read-write, whatever the offset and the length.
pub proof fn lemma_mutable_slice_needs_kernel_rw<T>(handle: AllocHandle, ofs: usize, count: usize)
    requires
        handle.mode() != ProtectionMode::KernelRW,
    ensures
        handle.mut_slice_verdict::<T>(ofs, count) == Err::<(), ViewError>(ViewError::NotWritable),
{
}

/// A view is accepted exactly when nothing stands in its way: the verdicts'
/// `Ok` is the accessors' precondition.
pub proof fn lemma_verdicts_match_preconditions<T>(handle: AllocHandle, ofs: usize, count: usize)
    ensures
        handle.ref_verdict::<T>(ofs).is_ok() == handle.ref_fits::<T>(ofs),
        handle.slice_verdict::<T>(ofs, count).is_ok() == (AllocHandle::aligned_for::<T>(ofs)
            && handle.slice_fits::<T>(ofs, count)),
        handle.mut_slice_verdict::<T>(ofs, count).is_ok() == (handle.mode()
            == ProtectionMode::KernelRW && AllocHandle::aligned_for::<T>(ofs)
            && handle.slice_fits::<T>(ofs, count)),
{
}

/// The first page of a handle, times the page size, is the handle's address.
pub proof fn lemma_handle_starts_on_its_first_page(handle: AllocHandle)
    requires
        handle.wf(),
    ensures
        handle.addr() == handle.first_page() * PAGE_SIZE,
        page_of(handle.addr()) == handle.first_page(),
{
}

} // verus!
