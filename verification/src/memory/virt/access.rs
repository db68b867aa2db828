//! Checked views into the memory of a mapping handle, and what is read and
//! written through them.
use crate::arch::memory::{page_of, page_offset, PageEntry, PAGE_SIZE};
use crate::endian::{le_u32, read_u32, u32_bytes, u32_to_le};
use crate::memory::virt::{AddressSpace, AllocHandle, ProtectionMode, SpaceView};
use vstd::layout::{align_of, size_of};
use vstd::prelude::*;

verus! {

/// Whether the byte at virtual address `a` can be read: its page is reserved
/// with a mode that allows reading.
pub open spec fn byte_readable(pages: Map<u64, PageEntry>, a: u64) -> bool {
    pages.contains_key(page_of(a)) && pages[page_of(a)].mode().is_readable()
}

/// Whether the byte at virtual address `a` can be written: its page is
/// reserved with a mode that allows writing.
pub open spec fn byte_writable(pages: Map<u64, PageEntry>, a: u64) -> bool {
    pages.contains_key(page_of(a)) && pages[page_of(a)].mode().is_writable()
}

/// Whether each of the `size` bytes from virtual address `addr` on can be read.
pub open spec fn range_readable(pages: Map<u64, PageEntry>, addr: u64, size: int) -> bool {
    forall|a: u64| addr <= a < addr + size ==> #[trigger] byte_readable(pages, a)
}

/// Whether each of the `size` bytes from virtual address `addr` on can be
/// written.
pub open spec fn range_writable(pages: Map<u64, PageEntry>, addr: u64, size: int) -> bool {
    forall|a: u64| addr <= a < addr + size ==> #[trigger] byte_writable(pages, a)
}

/// The physical address that stands behind virtual address `a`.
pub open spec fn phys_of(pages: Map<u64, PageEntry>, a: u64) -> u64 {
    (pages[page_of(a)].frame() * PAGE_SIZE + page_offset(a)) as u64
}

/// The `size` bytes of memory that are seen from virtual address `addr` on.
pub open spec fn loaded(space: SpaceView, addr: u64, size: int) -> Seq<u8> {
    Seq::new(size as nat, |i: int| space.memory[phys_of(space.pages, (addr + i) as u64)])
}

/// Physical memory after the bytes `data` were written, first to last,
/// through the virtual addresses from `addr` on.
pub open spec fn stored(
    memory: Map<u64, u8>,
    pages: Map<u64, PageEntry>,
    addr: u64,
    data: Seq<u8>,
) -> Map<u64, u8>
    decreases data.len(),
{
    if data.len() == 0 {
        memory
    } else {
        stored(memory, pages, addr, data.drop_last()).insert(
            phys_of(pages, (addr + data.len() - 1) as u64),
            data.last(),
        )
    }
}

/// Why a typed view into a handle's memory is refused.
#[derive(PartialEq, Eq, Structural, Clone, Copy, Debug)]
pub enum ViewError {
    /// The handle's pages are not mapped kernel read-write.
    NotWritable,
    /// The offset is not a multiple of the element's alignment.
    Misaligned,
    /// The view would reach past the end of the handle's pages.
    OutOfBounds,
}

/// A checked window into mapped memory: `len` elements that take up `size`
/// bytes from address `addr` on.
#[derive(Clone, Copy, Debug)]
pub struct TypedView {
    addr: u64,
    size: u64,
    len: usize,
    writable: bool,
}

impl TypedView {
    /// Address of the first byte.
    pub closed spec fn addr(self) -> u64 {
        self.addr
    }

    /// Number of bytes.
    pub closed spec fn size(self) -> u64 {
        self.size
    }

    /// Number of elements.
    pub closed spec fn len(self) -> usize {
        self.len
    }

    /// Whether memory may be changed through the view.
    pub closed spec fn writable(self) -> bool {
        self.writable
    }

    /// The window with the given start, size, length and mutability.
    pub closed spec fn of(addr: u64, size: u64, len: usize, writable: bool) -> TypedView {
        TypedView { addr, size, len, writable }
    }

    /// The window ends inside the address space.
    #[verifier::type_invariant]
    pub open spec fn wf(self) -> bool {
        self.addr() + self.size() <= u64::MAX
    }

    /// A window is what its start, size, length and mutability are.
    pub broadcast proof fn lemma_of(addr: u64, size: u64, len: usize, writable: bool)
        ensures
            (#[trigger] TypedView::of(addr, size, len, writable)).addr() == addr,
            TypedView::of(addr, size, len, writable).size() == size,
            TypedView::of(addr, size, len, writable).len() == len,
            TypedView::of(addr, size, len, writable).writable() == writable,
    {
    }

    /// Address of the first byte.
    pub fn start(&self) -> (addr: u64)
        ensures
            addr == self.addr(),
            self.wf(),
    {
        proof {
            use_type_invariant(self);
        }
        self.addr
    }

    /// Number of bytes.
    pub fn byte_len(&self) -> (size: u64)
        ensures
            size == self.size(),
    {
        self.size
    }

    /// Number of elements.
    pub fn element_count(&self) -> (len: usize)
        ensures
            len == self.len(),
    {
        self.len
    }

    /// Tells whether memory may be changed through the view.
    pub fn is_writable(&self) -> (writable: bool)
        ensures
            writable == self.writable(),
    {
        self.writable
    }
}

/// More items than fit: with `count` above the quotient, `count` items of
/// `size` bytes need more than `room` bytes.
proof fn lemma_too_many(count: int, size: int, room: int)
    requires
        size > 0,
        room >= 0,
        count > room / size,
    ensures
        count * size > room,
{
    assert(room == size * (room / size) + room % size && 0 <= room % size < size) by {
        vstd::arithmetic::div_mod::lemma_fundamental_div_mod(room, size);
    }
    assert(count * size >= (room / size + 1) * size) by (nonlinear_arith)
        requires
            count >= room / size + 1,
            size > 0,
    ;
    assert((room / size + 1) * size == size * (room / size) + size) by (nonlinear_arith);
}

/// Few enough items: with `count` at most the quotient, `count` items of
/// `size` bytes fit in `room` bytes.
proof fn lemma_few_enough(count: int, size: int, room: int)
    requires
        size > 0,
        room >= 0,
        0 <= count <= room / size,
    ensures
        count * size <= room,
{
    assert(room == size * (room / size) + room % size && 0 <= room % size < size) by {
        vstd::arithmetic::div_mod::lemma_fundamental_div_mod(room, size);
    }
    assert(count * size <= (room / size) * size) by (nonlinear_arith)
        requires
            0 <= count <= room / size,
            size > 0,
    ;
    assert((room / size) * size == size * (room / size)) by (nonlinear_arith);
}

impl AllocHandle {
    /// Whether a value of type `T` at byte offset `ofs` lies within the
    /// handle's pages.
    pub open spec fn ref_fits<T>(self, ofs: usize) -> bool {
        ofs + size_of::<T>() <= self.capacity()
    }

    /// Whether `count` values of type `T` from byte offset `ofs` on lie within
    /// the handle's pages.
    pub open spec fn slice_fits<T>(self, ofs: usize, count: usize) -> bool {
        &&& ofs <= self.capacity()
        &&& ofs + count * size_of::<T>() <= self.capacity()
    }

    /// Whether byte offset `ofs` is a multiple of the alignment of `T`.
    pub open spec fn aligned_for<T>(ofs: usize) -> bool {
        ofs as int % align_of::<T>() as int == 0
    }

    /// What stands in the way of a view of one `T` at byte offset `ofs`, if
    /// anything. Alignment is not looked at.
    pub open spec fn ref_verdict<T>(self, ofs: usize) -> Result<(), ViewError> {
        if self.ref_fits::<T>(ofs) {
            Ok(())
        } else {
            Err(ViewError::OutOfBounds)
        }
    }

    /// What stands in the way of a view of `count` values of type `T` from
    /// byte offset `ofs` on, if anything: alignment is looked at first, then
    /// the bounds.
    pub open spec fn slice_verdict<T>(self, ofs: usize, count: usize) -> Result<(), ViewError> {
        if !Self::aligned_for::<T>(ofs) {
            Err(ViewError::Misaligned)
        } else if !self.slice_fits::<T>(ofs, count) {
            Err(ViewError::OutOfBounds)
        } else {
            Ok(())
        }
    }

    /// What stands in the way of a mutable view of `count` values of type `T`
    /// from byte offset `ofs` on, if anything: the mode is looked at first.
    pub open spec fn mut_slice_verdict<T>(self, ofs: usize, count: usize) -> Result<
        (),
        ViewError,
    > {
        if self.mode() != ProtectionMode::KernelRW {
            Err(ViewError::NotWritable)
        } else {
            self.slice_verdict::<T>(ofs, count)
        }
    }

    /// Number of bytes that the handle spans.
    pub fn byte_capacity(&self) -> (bytes: u64)
        ensures
            bytes == self.capacity(),
            self.wf(),
    {
        proof {
            use_type_invariant(self);
        }
        (self.count as u64) * (PAGE_SIZE as u64)
    }

    /// Checks whether `as_ref`, `as_mut` or `make_static` accepts `ofs` for `T`.
    pub fn check_ref<T>(&self, ofs: usize) -> (verdict: Result<(), ViewError>)
        ensures
            verdict == self.ref_verdict::<T>(ofs),
    {
        let cap = self.byte_capacity();
        let size = core::mem::size_of::<T>() as u64;
        if ofs as u64 <= cap && size <= cap - ofs as u64 {
            Ok(())
        } else {
            Err(ViewError::OutOfBounds)
        }
    }

    /// Checks whether `as_slice` accepts `ofs` and `count` for `T`.
    pub fn check_slice<T>(&self, ofs: usize, count: usize) -> (verdict: Result<(), ViewError>)
        ensures
            verdict == self.slice_verdict::<T>(ofs, count),
    {
        broadcast use vstd::layout::align_nonzero;

        let cap = self.byte_capacity();
        let size = core::mem::size_of::<T>() as u64;
        let align = core::mem::align_of::<T>();
        assert(align_of::<T>() > 0);
        if ofs % align != 0 {
            return Err(ViewError::Misaligned);
        }
        if ofs as u64 > cap {
            return Err(ViewError::OutOfBounds);
        }
        let room = cap - ofs as u64;
        if size != 0 && count as u64 > room / size {
            proof {
                lemma_too_many(count as int, size as int, room as int);
            }
            return Err(ViewError::OutOfBounds);
        }
        proof {
            if size != 0 {
                lemma_few_enough(count as int, size as int, room as int);
            }
        }
        Ok(())
    }

    /// Checks whether `as_mut_slice` accepts `ofs` and `count` for `T`.
    pub fn check_mut_slice<T>(&self, ofs: usize, count: usize) -> (verdict: Result<
        (),
        ViewError,
    >)
        ensures
            verdict == self.mut_slice_verdict::<T>(ofs, count),
    {
        if !matches!(self.mode, ProtectionMode::KernelRW) {
            return Err(ViewError::NotWritable);
        }
        self.check_slice::<T>(ofs, count)
    }

    /// A read-only view of the `T` at byte offset `ofs`. The offset need not
    /// be aligned.
    pub fn as_ref<T>(&self, ofs: usize) -> (view: TypedView)
        requires
            self.ref_fits::<T>(ofs),
        ensures
            view == TypedView::of((self.addr() + ofs) as u64, size_of::<T>() as u64, 1, false),
            view.wf(),
    {
        proof {
            use_type_invariant(self);
        }
        TypedView {
            addr: self.addr + ofs as u64,
            size: core::mem::size_of::<T>() as u64,
            len: 1,
            writable: false,
        }
    }

    /// A mutable view of the `T` at byte offset `ofs`. The offset need not be
    /// aligned, and the handle's mode is not looked at.
    pub fn as_mut<T>(&self, ofs: usize) -> (view: TypedView)
        requires
            self.ref_fits::<T>(ofs),
        ensures
            view == TypedView::of((self.addr() + ofs) as u64, size_of::<T>() as u64, 1, true),
            view.wf(),
    {
        proof {
            use_type_invariant(self);
        }
        TypedView {
            addr: self.addr + ofs as u64,
            size: core::mem::size_of::<T>() as u64,
            len: 1,
            writable: true,
        }
    }

    /// Gives up the pages without releasing them, and returns a mutable view
    /// of the `T` at byte offset `ofs` that no handle bounds any more. The
    /// handle owns nothing afterwards.
    pub fn make_static<T>(&mut self, ofs: usize) -> (view: TypedView)
        requires
            old(self).ref_fits::<T>(ofs),
        ensures
            view == TypedView::of(
                (old(self).addr() + ofs) as u64,
                size_of::<T>() as u64,
                1,
                true,
            ),
            view.wf(),
            final(self).count() == 0,
            final(self).addr() == old(self).addr(),
            final(self).mode() == old(self).mode(),
    {
        proof {
            use_type_invariant(&*self);
        }
        let view = TypedView {
            addr: self.addr + ofs as u64,
            size: core::mem::size_of::<T>() as u64,
            len: 1,
            writable: true,
        };
        self.count = 0;
        view
    }

    /// A read-only view of `count` values of type `T` from byte offset `ofs`
    /// on.
    pub fn as_slice<T>(&self, ofs: usize, count: usize) -> (view: TypedView)
        requires
            Self::aligned_for::<T>(ofs),
            self.slice_fits::<T>(ofs, count),
        ensures
            view == TypedView::of(
                (self.addr() + ofs) as u64,
                (count * size_of::<T>()) as u64,
                count,
                false,
            ),
            view.wf(),
    {
        proof {
            use_type_invariant(self);
        }
        let size = core::mem::size_of::<T>() as u64;
        TypedView {
            addr: self.addr + ofs as u64,
            size: (count as u64) * size,
            len: count,
            writable: false,
        }
    }

    /// A mutable view of `count` values of type `T` from byte offset `ofs`
    /// on. Only a handle mapped kernel read-write gives one.
    pub fn as_mut_slice<T>(&mut self, ofs: usize, count: usize) -> (view: TypedView)
        requires
            old(self).mode() == ProtectionMode::KernelRW,
            Self::aligned_for::<T>(ofs),
            old(self).slice_fits::<T>(ofs, count),
        ensures
            view == TypedView::of(
                (old(self).addr() + ofs) as u64,
                (count * size_of::<T>()) as u64,
                count,
                true,
            ),
            view.wf(),
            *final(self) == *old(self),
    {
        proof {
            use_type_invariant(&*self);
        }
        let size = core::mem::size_of::<T>() as u64;
        TypedView {
            addr: self.addr + ofs as u64,
            size: (count as u64) * size,
            len: count,
            writable: true,
        }
    }
}

impl AddressSpace {
    /// Reads the bytes that `view` covers. Nothing is read unless every byte
    /// lies on a reserved page whose mode allows reading.
    pub fn load(&self, view: &TypedView) -> (bytes: Option<Vec<u8>>)
        ensures
            bytes.is_some() == range_readable(self@.pages, view.addr(), view.size() as int),
            bytes matches Some(v) ==> v@ == loaded(self@, view.addr(), view.size() as int),
    {
        let addr = view.start();
        let size = view.byte_len();
        let mut out: Vec<u8> = Vec::new();
        let mut i: u64 = 0;
        while i < size
            invariant
                i <= size,
                addr + size <= u64::MAX,
                addr == view.addr(),
                size == view.size(),
                range_readable(self@.pages, addr, i as int),
                out@ == loaded(self@, addr, i as int),
            decreases size - i,
        {
            let a: u64 = addr + i;
            match self.table.lookup(a) {
                None => {
                    assert(!byte_readable(self@.pages, a));
                    return None;
                },
                Some(entry) => {
                    if !entry.protection().readable() {
                        assert(!byte_readable(self@.pages, a));
                        return None;
                    }
                    let pa: u64 = entry.frame_number() * (PAGE_SIZE as u64) + a % (
                    PAGE_SIZE as u64);
                    let value = self.memory.read(pa);
                    out.push(value);
                    assert(byte_readable(self@.pages, a));
                    assert(out@ =~= loaded(self@, addr, i + 1));
                },
            }
            i = i + 1;
        }
        Some(out)
    }

    /// Tells whether every byte that `view` covers lies on a reserved page
    /// whose mode allows writing.
    pub fn can_write(&self, view: &TypedView) -> (ok: bool)
        ensures
            ok == range_writable(self@.pages, view.addr(), view.size() as int),
    {
        let addr = view.start();
        let size = view.byte_len();
        let mut i: u64 = 0;
        while i < size
            invariant
                i <= size,
                addr + size <= u64::MAX,
                addr == view.addr(),
                size == view.size(),
                range_writable(self@.pages, addr, i as int),
            decreases size - i,
        {
            let a: u64 = addr + i;
            match self.table.lookup(a) {
                None => {
                    assert(!byte_writable(self@.pages, a));
                    return false;
                },
                Some(entry) => {
                    if !entry.protection().writable() {
                        assert(!byte_writable(self@.pages, a));
                        return false;
                    }
                    assert(byte_writable(self@.pages, a));
                },
            }
            i = i + 1;
        }
        true
    }

    /// Writes `data` to the bytes that `view` covers, first to last. Nothing
    /// is written unless the view is mutable, `data` has the view's size, and
    /// every byte lies on a reserved page whose mode allows writing.
    pub fn store(&mut self, view: &TypedView, data: &[u8]) -> (done: bool)
        ensures
            done == (view.writable() && data@.len() == view.size() && range_writable(
                old(self)@.pages,
                view.addr(),
                view.size() as int,
            )),
            final(self)@ == if done {
                SpaceView {
                    memory: stored(old(self)@.memory, old(self)@.pages, view.addr(), data@),
                    ..old(self)@
                }
            } else {
                old(self)@
            },
    {
        let addr = view.start();
        let size = view.byte_len();
        if !view.is_writable() || data.len() as u64 != size || !self.can_write(view) {
            return false;
        }
        let mut i: usize = 0;
        assert(data@.take(0) =~= Seq::<u8>::empty());
        while i < data.len()
            invariant
                i <= data@.len(),
                data@.len() == size,
                addr + size <= u64::MAX,
                range_writable(old(self)@.pages, addr, size as int),
                self@ == (SpaceView {
                    memory: stored(
                        old(self)@.memory,
                        old(self)@.pages,
                        addr,
                        data@.take(i as int),
                    ),
                    ..old(self)@
                }),
            decreases data@.len() - i,
        {
            let a: u64 = addr + i as u64;
            assert(byte_writable(self@.pages, a));
            match self.table.lookup(a) {
                None => {},
                Some(entry) => {
                    let pa: u64 = entry.frame_number() * (PAGE_SIZE as u64) + a % (
                    PAGE_SIZE as u64);
                    self.memory.write(pa, data[i]);
                },
            }
            assert(data@.take(i + 1).drop_last() =~= data@.take(i as int));
            assert(data@.take(i + 1).last() == data@[i as int]);
            i = i + 1;
        }
        assert(data@.take(data@.len() as int) =~= data@);
        true
    }

    /// Reads the 32-bit number, stored least significant byte first, that
    /// `view` covers. The view must span four bytes, all of them readable.
    pub fn load_u32(&self, view: &TypedView) -> (value: Option<u32>)
        ensures
            value.is_some() == (view.size() == 4 && range_readable(self@.pages, view.addr(), 4)),
            value matches Some(v) ==> v == le_u32(loaded(self@, view.addr(), 4), 0),
    {
        if view.byte_len() != 4 {
            return None;
        }
        match self.load(view) {
            None => None,
            Some(b) => Some(read_u32(b.as_slice(), 0)),
        }
    }

    /// Writes the 32-bit number `value`, least significant byte first, to the
    /// bytes that `view` covers. The view must be mutable and span four
    /// bytes, all of them writable.
    pub fn store_u32(&mut self, view: &TypedView, value: u32) -> (done: bool)
        ensures
            done == (view.writable() && view.size() == 4 && range_writable(
                old(self)@.pages,
                view.addr(),
                4,
            )),
            final(self)@ == if done {
                SpaceView {
                    memory: stored(
                        old(self)@.memory,
                        old(self)@.pages,
                        view.addr(),
                        u32_to_le(value),
                    ),
                    ..old(self)@
                }
            } else {
                old(self)@
            },
    {
        let bytes = u32_bytes(value);
        self.store(view, bytes.as_slice())
    }
}

} // verus!
