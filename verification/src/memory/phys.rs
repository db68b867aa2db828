//! Physical memory: the frame supply and the contents of the frames.
use crate::arch::memory::LAST_PAGE;
use std::collections::HashMap;
use vstd::prelude::*;

verus! {

/// Hands out physical frames, lowest number first, from a fixed range.
pub struct FrameAllocator {
    next: u64,
    end: u64,
}

impl FrameAllocator {
    /// The allocator never runs past the end of its range.
    #[verifier::type_invariant]
    spec fn inv(self) -> bool {
        self.next <= self.end <= LAST_PAGE + 1
    }

    /// Number of the frame that the next allocation returns.
    pub closed spec fn next_frame(self) -> u64 {
        self.next
    }

    /// Number of frames that can still be handed out.
    pub closed spec fn available(self) -> int {
        self.end - self.next
    }

    /// An allocator over the `count` frames that start at frame `first`. The
    /// range is cut short where it would leave physical address space, and
    /// holds no frame where it starts outside.
    pub fn new(first: u64, count: u64) -> (frames: FrameAllocator)
        ensures
            frames.next_frame() == if first <= LAST_PAGE {
                first
            } else {
                (LAST_PAGE + 1) as u64
            },
            frames.available() == if first + count <= LAST_PAGE + 1 {
                count as int
            } else if first <= LAST_PAGE {
                LAST_PAGE + 1 - first
            } else {
                0
            },
    {
        let next = if first <= LAST_PAGE {
            first
        } else {
            LAST_PAGE + 1
        };
        let end = if count <= LAST_PAGE + 1 - next {
            next + count
        } else {
            LAST_PAGE + 1
        };
        FrameAllocator { next, end }
    }

    /// Number of frames that can still be handed out.
    pub fn remaining(&self) -> (n: u64)
        ensures
            n == self.available(),
    {
        proof {
            use_type_invariant(self);
        }
        self.end - self.next
    }

    /// Takes the next free frame and returns its number.
    pub fn allocate_frame(&mut self) -> (frame: u64)
        requires
            old(self).available() > 0,
        ensures
            frame == old(self).next_frame(),
            final(self).next_frame() == old(self).next_frame() + 1,
            final(self).available() == old(self).available() - 1,
            frame <= LAST_PAGE,
    {
        proof {
            use_type_invariant(&*self);
        }
        let frame = self.next;
        self.next = self.next + 1;
        frame
    }
}

/// Contents of physical memory, byte by byte. Memory that was never written
/// reads as zero.
pub struct PhysicalMemory {
    bytes: HashMap<u64, u8>,
}

impl View for PhysicalMemory {
    type V = Map<u64, u8>;

    /// The byte at every physical address.
    closed spec fn view(&self) -> Map<u64, u8> {
        Map::total(
            |a: u64|
                if self.bytes@.contains_key(a) {
                    self.bytes@[a]
                } else {
                    0u8
                },
        )
    }
}

/// Memory that reads as zero everywhere.
pub open spec fn zeroed() -> Map<u64, u8> {
    Map::total(|a: u64| 0u8)
}

impl PhysicalMemory {
    /// Memory that reads as zero everywhere.
    pub fn new() -> (mem: PhysicalMemory)
        ensures
            mem@ == zeroed(),
    {
        let mem = PhysicalMemory { bytes: HashMap::new() };
        assert(mem@ =~= zeroed());
        mem
    }

    /// Reads the byte at physical address `paddr`.
    pub fn read(&self, paddr: u64) -> (value: u8)
        ensures
            value == self@[paddr],
            self@.dom().contains(paddr),
    {
        broadcast use vstd::std_specs::hash::group_hash_axioms;

        match self.bytes.get(&paddr) {
            Some(b) => *b,
            None => 0,
        }
    }

    /// Stores `value` at physical address `paddr`.
    pub fn write(&mut self, paddr: u64, value: u8)
        ensures
            final(self)@ == old(self)@.insert(paddr, value),
    {
        broadcast use vstd::std_specs::hash::group_hash_axioms;

        self.bytes.insert(paddr, value);
        assert(self@ =~= old(self)@.insert(paddr, value));
    }
}

} // verus!
