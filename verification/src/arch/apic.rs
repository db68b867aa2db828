//! The local APIC and the I/O APIC as seen through their register windows.
//!
//! Both controllers are reached through a page of device registers mapped
//! into the hardware sub-region. A register takes sixteen bytes, of which
//! the first four hold its value.
use crate::arch::memory::PAGE_SIZE;
use crate::endian::{le_u32, u32_to_le};
use crate::memory::laws::{lemma_mapped_handle_is_accessible, lemma_writable_part_is_readable};
use crate::memory::virt::{
    hardware_mapping_made, loaded, map_hw_rw, range_writable, stored, AddressSpace, AllocHandle,
    AllocationError, ProtectionMode, RegionLock, SpaceView, TypedView,
};
use vstd::layout::layout_of_primitives;
use vstd::prelude::*;

verus! {

/// The interrupt vector of the local APIC's timer.
pub const TIMER_VEC: u8 = 0x7E;

/// Local APIC register: identification.
pub const APIC_REG_LAPIC_ID: usize = 0x2;

/// Local APIC register: version.
pub const APIC_REG_LAPIC_VER: usize = 0x3;

/// Local APIC register: task priority.
pub const APIC_REG_TPR: usize = 0x8;

/// Local APIC register: end of interrupt.
pub const APIC_REG_EOI: usize = 0xB;

/// Local APIC register: spurious interrupt vector.
pub const APIC_REG_SIR: usize = 0xF;

/// Local APIC register: in service, the first of eight.
pub const APIC_REG_IN_SERVICE: usize = 0x10;

/// Local APIC register: trigger mode, the first of eight.
pub const APIC_REG_TMR: usize = 0x18;

/// Local APIC register: interrupt request, the first of eight.
pub const APIC_REG_IRR: usize = 0x20;

/// Local APIC register: error status.
pub const APIC_REG_ERR_STATUS: usize = 0x28;

/// Local APIC register: timer entry of the local vector table.
pub const APIC_REG_LVT_TIMER: usize = 0x32;

/// Local APIC register: thermal sensor entry of the local vector table.
pub const APIC_REG_LVT_THERMAL_SENSOR: usize = 0x33;

/// Local APIC register: performance counter entry of the local vector table.
pub const APIC_REG_LVT_PERF_COUNTERS: usize = 0x34;

/// Local APIC register: LINT0 entry of the local vector table.
pub const APIC_REG_LVT_LINT0: usize = 0x35;

/// Local APIC register: LINT1 entry of the local vector table.
pub const APIC_REG_LVT_LINT1: usize = 0x36;

/// Local APIC register: error entry of the local vector table.
pub const APIC_REG_LVT_ERROR: usize = 0x37;

/// Local APIC register: initial count of the timer.
pub const APIC_REG_INIT_COUNT: usize = 0x38;

/// Local APIC register: current count of the timer.
pub const APIC_REG_CUR_COUNT: usize = 0x39;

/// Local APIC register: divider of the timer.
pub const APIC_REG_TMR_DIVIDE: usize = 0x3E;

/// Number of registers in the local APIC's window.
pub const LAPIC_REGISTERS: usize = 64;

/// Number of bytes that a register takes in a window.
pub const REGISTER_STRIDE: usize = 16;

/// I/O APIC: index of the first redirection register.
pub const IOAPIC_REDIRECTION_BASE: usize = 0x10;

/// How an interrupt line signals.
#[allow(dead_code)]
#[derive(PartialEq, Eq, Structural, Clone, Copy, Debug)]
pub enum TriggerMode {
    /// Level-triggered, active high.
    TriggerLevelHi,
    /// Level-triggered, active low.
    TriggerLevelLow,
    /// Edge-triggered, active high.
    TriggerEdgeHi,
    /// Edge-triggered, active low.
    TriggerEdgeLow,
}

/// Address of register `idx` in the window that starts at `base`.
pub open spec fn reg_addr(base: u64, idx: int) -> u64 {
    (base + idx * REGISTER_STRIDE) as u64
}

/// The value that register `idx` of the window at `base` holds.
pub open spec fn reg_value(space: SpaceView, base: u64, idx: int) -> u32 {
    le_u32(loaded(space, reg_addr(base, idx), 4), 0)
}

/// The address space after `value` was written to register `idx` of the
/// window at `base`.
pub open spec fn reg_written(space: SpaceView, base: u64, idx: int, value: u32) -> SpaceView {
    SpaceView {
        memory: stored(space.memory, space.pages, reg_addr(base, idx), u32_to_le(value)),
        ..space
    }
}

/// The address space after the `writes`, each a register index and a value,
/// were made to the window at `base`, first to last.
pub open spec fn regs_written(space: SpaceView, base: u64, writes: Seq<(usize, u32)>) -> SpaceView
    decreases writes.len(),
{
    if writes.len() == 0 {
        space
    } else {
        reg_written(
            regs_written(space, base, writes.drop_last()),
            base,
            writes.last().0 as int,
            writes.last().1,
        )
    }
}

/// Whether the first `bytes` bytes of the window at `base` can be read and
/// written.
pub open spec fn window_mapped(space: SpaceView, base: u64, bytes: int) -> bool {
    &&& base + bytes <= u64::MAX
    &&& range_writable(space.pages, base, bytes)
}

/// Whether bit `bit` of `word` is set.
pub open spec fn bit_set(word: u32, bit: u32) -> bool {
    word & (1u32 << bit) != 0
}

/// The flags in the low word of a redirection entry for a trigger mode: bit
/// 13 for active low, bit 15 for level-triggered.
pub open spec fn trigger_flags(mode: TriggerMode) -> u32 {
    match mode {
        TriggerMode::TriggerEdgeHi => 0,
        TriggerMode::TriggerEdgeLow => 0x2000,
        TriggerMode::TriggerLevelHi => 0x8000,
        TriggerMode::TriggerLevelLow => 0xA000,
    }
}

/// The high word of a redirection entry: the low eight bits of the
/// destination APIC's number in the top byte.
pub open spec fn destination_word(apic: usize) -> u32 {
    ((apic % 0x100) * 0x100_0000) as u32
}

/// The low word of a redirection entry that is masked.
pub const REDIRECTION_MASKED: u32 = 0x1_0000;

/// The writes that bring up a local APIC: it is enabled with spurious vector
/// 127, the timer is started with divider 16 on the timer vector, every other
/// local interrupt is cleared, and a pending interrupt is acknowledged.
pub open spec fn lapic_init_writes() -> Seq<(usize, u32)> {
    seq![
        (APIC_REG_SIR, 0x17Fu32),
        (APIC_REG_INIT_COUNT, 0x10_0000u32),
        (APIC_REG_TMR_DIVIDE, 3u32),
        (APIC_REG_LVT_TIMER, TIMER_VEC as u32),
        (APIC_REG_LVT_THERMAL_SENSOR, 0u32),
        (APIC_REG_LVT_PERF_COUNTERS, 0u32),
        (APIC_REG_LVT_LINT0, 0u32),
        (APIC_REG_LVT_LINT1, 0u32),
        (APIC_REG_LVT_ERROR, 0u32),
        (APIC_REG_EOI, 0u32),
    ]
}

/// The value of the APIC base register that enables the local APIC at
/// physical address `paddr`: the address, bit 11, and bit 8 as it was in
/// `old`.
pub open spec fn apic_base_value(paddr: u64, old: u64) -> u64 {
    paddr | (old & 0x100) | 0x800
}

/// Computes the flags of a redirection entry for a trigger mode.
pub fn flags_for(mode: TriggerMode) -> (flags: u32)
    ensures
        flags == trigger_flags(mode),
{
    match mode {
        TriggerMode::TriggerEdgeHi => 0,
        TriggerMode::TriggerEdgeLow => 0x2000,
        TriggerMode::TriggerLevelHi => 0x8000,
        TriggerMode::TriggerLevelLow => 0xA000,
    }
}

/// The flags are the two bits that the trigger mode stands for, and never
/// reach into the vector.
pub proof fn lemma_trigger_flags(mode: TriggerMode)
    ensures
        bit_set(trigger_flags(mode), 13) == (mode == TriggerMode::TriggerEdgeLow || mode
            == TriggerMode::TriggerLevelLow),
        bit_set(trigger_flags(mode), 15) == (mode == TriggerMode::TriggerLevelHi || mode
            == TriggerMode::TriggerLevelLow),
        trigger_flags(mode) % 0x100 == 0,
{
    assert(0u32 & (1u32 << 13u32) == 0 && 0u32 & (1u32 << 15u32) == 0) by (bit_vector);
    assert(0x2000u32 & (1u32 << 13u32) != 0 && 0x2000u32 & (1u32 << 15u32) == 0) by (bit_vector);
    assert(0x8000u32 & (1u32 << 13u32) == 0 && 0x8000u32 & (1u32 << 15u32) != 0) by (bit_vector);
    assert(0xA000u32 & (1u32 << 13u32) != 0 && 0xA000u32 & (1u32 << 15u32) != 0) by (bit_vector);
}

/// The APIC base value enables the APIC, keeps the address, and keeps the
/// bootstrap-processor flag as it was.
pub proof fn lemma_apic_base_value(paddr: u64, old: u64)
    ensures
        apic_base_value(paddr, old) & 0x800 == 0x800,
        apic_base_value(paddr, old) & paddr == paddr,
        paddr & 0x100 == 0 ==> apic_base_value(paddr, old) & 0x100 == old & 0x100,
{
    assert((paddr | (old & 0x100) | 0x800) & 0x800 == 0x800) by (bit_vector);
    assert((paddr | (old & 0x100) | 0x800) & paddr == paddr) by (bit_vector);
    assert(paddr & 0x100 == 0 ==> (paddr | (old & 0x100) | 0x800) & 0x100 == old & 0x100)
        by (bit_vector);
}

/// The window of a controller: one page of mapped registers.
pub struct RegisterWindow {
    mapping: AllocHandle,
}

impl RegisterWindow {
    /// The handle that owns the window's page.
    pub closed spec fn mapping(self) -> AllocHandle {
        self.mapping
    }

    /// Address of the window.
    pub open spec fn base(self) -> u64 {
        self.mapping().addr()
    }

    /// The window is a page mapped kernel read-write.
    #[verifier::type_invariant]
    pub open spec fn wf(self) -> bool {
        &&& self.mapping().wf()
        &&& self.mapping().count() >= 1
        &&& self.mapping().mode() == ProtectionMode::KernelRW
    }

    /// Whether the window's page can be read and written.
    pub open spec fn usable(self, space: SpaceView) -> bool {
        range_writable(space.pages, self.base(), PAGE_SIZE as int)
    }

    /// Maps the page of registers at physical address `paddr` for the module
    /// named.
    pub fn new(space: &mut AddressSpace, paddr: u64, module: &str) -> (result: Result<
        RegisterWindow,
        AllocationError,
    >)
        requires
            paddr + PAGE_SIZE <= u64::MAX,
            !old(space)@.locks.held(RegionLock::Kernel),
        ensures
            hardware_mapping_made(
                old(space)@,
                final(space)@,
                paddr,
                1,
                false,
                match result {
                    Ok(w) => Ok(w.mapping()),
                    Err(e) => Err(e),
                },
            ),
            result matches Ok(w) ==> w.wf() && w.usable(final(space)@),
    {
        match map_hw_rw(space, paddr, 1, module) {
            Ok(mapping) => {
                proof {
                    lemma_mapped_handle_is_accessible(mapping, space@.pages, 0, PAGE_SIZE as int);
                }
                Ok(RegisterWindow { mapping })
            },
            Err(e) => Err(e),
        }
    }

    /// Address of the window.
    pub fn address(&self) -> (addr: u64)
        ensures
            addr == self.base(),
    {
        self.mapping.base()
    }

    /// Tells whether the window's page can be read and written.
    pub fn is_usable(&self, space: &AddressSpace) -> (ok: bool)
        ensures
            ok == self.usable(space@),
    {
        broadcast use layout_of_primitives, vstd::layout::align_nonzero, TypedView::lemma_of;

        proof {
            use_type_invariant(self);
        }
        let view = self.mapping.as_slice::<u8>(0, PAGE_SIZE);
        space.can_write(&view)
    }

    /// Reads register `idx`.
    pub fn read(&self, space: &AddressSpace, idx: usize) -> (value: u32)
        requires
            (idx + 1) * REGISTER_STRIDE <= PAGE_SIZE,
            self.usable(space@),
        ensures
            value == reg_value(space@, self.base(), idx as int),
    {
        broadcast use layout_of_primitives, TypedView::lemma_of;

        proof {
            use_type_invariant(self);
            lemma_writable_part_is_readable(
                space@.pages,
                self.base(),
                PAGE_SIZE as int,
                reg_addr(self.base(), idx as int),
                4,
            );
        }
        let view = self.mapping.as_ref::<u32>(idx * REGISTER_STRIDE);
        match space.load_u32(&view) {
            Some(value) => value,
            None => 0,
        }
    }

    /// Writes `value` to register `idx`.
    pub fn write(&self, space: &mut AddressSpace, idx: usize, value: u32)
        requires
            (idx + 1) * REGISTER_STRIDE <= PAGE_SIZE,
            self.usable(old(space)@),
        ensures
            final(space)@ == reg_written(old(space)@, self.base(), idx as int, value),
            self.usable(final(space)@),
    {
        broadcast use layout_of_primitives, TypedView::lemma_of;

        proof {
            use_type_invariant(self);
            lemma_writable_part_is_readable(
                space@.pages,
                self.base(),
                PAGE_SIZE as int,
                reg_addr(self.base(), idx as int),
                4,
            );
        }
        let view = self.mapping.as_mut::<u32>(idx * REGISTER_STRIDE);
        space.store_u32(&view, value);
    }

    /// Makes the `writes`, each a register index and a value, first to last.
    pub fn write_all(&self, space: &mut AddressSpace, writes: &[(usize, u32)])
        requires
            forall|i: int|
                0 <= i < writes@.len() ==> (#[trigger] writes@[i]).0 < PAGE_SIZE
                    / REGISTER_STRIDE,
            self.usable(old(space)@),
        ensures
            final(space)@ == regs_written(old(space)@, self.base(), writes@),
            self.usable(final(space)@),
    {
        let mut i: usize = 0;
        assert(writes@.take(0) =~= Seq::<(usize, u32)>::empty());
        while i < writes.len()
            invariant
                i <= writes@.len(),
                forall|i: int|
                    0 <= i < writes@.len() ==> (#[trigger] writes@[i]).0 < PAGE_SIZE
                        / REGISTER_STRIDE,
                self.usable(space@),
                space@ == regs_written(old(space)@, self.base(), writes@.take(i as int)),
            decreases writes@.len() - i,
        {
            let (idx, value) = writes[i];
            self.write(space, idx, value);
            assert(writes@.take(i + 1).drop_last() =~= writes@.take(i as int));
            assert(writes@.take(i + 1).last() == writes@[i as int]);
            i = i + 1;
        }
        assert(writes@.take(writes@.len() as int) =~= writes@);
    }

    /// Gives the window's page up without releasing it.
    pub fn into_mapping(self) -> (mapping: AllocHandle)
        ensures
            mapping == self.mapping(),
    {
        self.mapping
    }
}

/// The local APIC of a processor.
pub struct LAPIC {
    paddr: u64,
    window: RegisterWindow,
}

impl LAPIC {
    /// Physical address of the registers.
    pub closed spec fn paddr(self) -> u64 {
        self.paddr
    }

    /// The register window.
    pub closed spec fn window(self) -> RegisterWindow {
        self.window
    }

    /// Maps the registers of the local APIC at physical address `paddr`.
    pub fn new(space: &mut AddressSpace, paddr: u64) -> (result: Result<LAPIC, AllocationError>)
        requires
            paddr + PAGE_SIZE <= u64::MAX,
            !old(space)@.locks.held(RegionLock::Kernel),
        ensures
            hardware_mapping_made(
                old(space)@,
                final(space)@,
                paddr,
                1,
                false,
                match result {
                    Ok(l) => Ok(l.window().mapping()),
                    Err(e) => Err(e),
                },
            ),
            result matches Ok(l) ==> l.paddr() == paddr && l.window().wf() && l.window().usable(
                final(space)@,
            ),
    {
        match RegisterWindow::new(space, paddr, "APIC") {
            Ok(window) => Ok(LAPIC { paddr, window }),
            Err(e) => Err(e),
        }
    }

    /// Physical address of the registers.
    pub fn physical_address(&self) -> (paddr: u64)
        ensures
            paddr == self.paddr(),
    {
        self.paddr
    }

    /// The register window.
    pub fn registers(&self) -> (window: &RegisterWindow)
        ensures
            *window == self.window(),
    {
        &self.window
    }

    /// Initialises the local APIC of this processor: the writes of
    /// `lapic_init_writes` are made, and the value to load into the APIC base
    /// register is returned. `old_base` is what that register held.
    pub fn init(&self, space: &mut AddressSpace, old_base: u64) -> (new_base: u64)
        requires
            self.window().usable(old(space)@),
        ensures
            final(space)@ == regs_written(
                old(space)@,
                self.window().base(),
                lapic_init_writes(),
            ),
            self.window().usable(final(space)@),
            new_base == apic_base_value(self.paddr(), old_base),
    {
        let is_bsp = old_base & 0x100;
        let writes: [(usize, u32); 10] = [
            (APIC_REG_SIR, 0x7F | (1 << 8)),
            (APIC_REG_INIT_COUNT, 0x10_0000),
            (APIC_REG_TMR_DIVIDE, 3),
            (APIC_REG_LVT_TIMER, TIMER_VEC as u32),
            (APIC_REG_LVT_THERMAL_SENSOR, 0),
            (APIC_REG_LVT_PERF_COUNTERS, 0),
            (APIC_REG_LVT_LINT0, 0),
            (APIC_REG_LVT_LINT1, 0),
            (APIC_REG_LVT_ERROR, 0),
            (APIC_REG_EOI, 0),
        ];
        assert(0x7Fu32 | (1u32 << 8u32) == 0x17Fu32) by (bit_vector);
        assert(writes@ =~= lapic_init_writes());
        self.window.write_all(space, writes.as_slice());
        self.paddr | is_bsp | 0x800
    }

    /// Signals the end of the interrupt numbered `num`.
    pub fn eoi(&self, space: &mut AddressSpace, num: usize)
        requires
            self.window().usable(old(space)@),
        ensures
            final(space)@ == reg_written(
                old(space)@,
                self.window().base(),
                APIC_REG_EOI as int,
                num as u32,
            ),
            self.window().usable(final(space)@),
    {
        self.write_reg(space, APIC_REG_EOI, #[verifier::truncate] (num as u32));
    }

    /// Reads register `idx`.
    pub fn read_reg(&self, space: &AddressSpace, idx: usize) -> (value: u32)
        requires
            idx < LAPIC_REGISTERS,
            self.window().usable(space@),
        ensures
            value == reg_value(space@, self.window().base(), idx as int),
    {
        self.window.read(space, idx)
    }

    /// Writes `value` to register `idx`.
    pub fn write_reg(&self, space: &mut AddressSpace, idx: usize, value: u32)
        requires
            idx < LAPIC_REGISTERS,
            self.window().usable(old(space)@),
        ensures
            final(space)@ == reg_written(old(space)@, self.window().base(), idx as int, value),
            self.window().usable(final(space)@),
    {
        self.window.write(space, idx, value);
    }

    /// The state of interrupt vector `idx`: whether it is in service, whether
    /// it is level-triggered, whether it is requested, and the error status.
    pub fn get_vec_status(&self, space: &AddressSpace, idx: usize) -> (status: (
        bool,
        bool,
        bool,
        u32,
    ))
        requires
            idx < 1024,
            self.window().usable(space@),
        ensures
            status.0 == bit_set(
                reg_value(space@, self.window().base(), APIC_REG_IN_SERVICE + idx / 32),
                (idx % 32) as u32,
            ),
            status.1 == bit_set(
                reg_value(space@, self.window().base(), APIC_REG_TMR + idx / 32),
                (idx % 32) as u32,
            ),
            status.2 == bit_set(
                reg_value(space@, self.window().base(), APIC_REG_IRR + idx / 32),
                (idx % 32) as u32,
            ),
            status.3 == reg_value(space@, self.window().base(), APIC_REG_ERR_STATUS as int),
    {
        let reg = idx / 32;
        let bit = (idx % 32) as u32;
        let mask: u32 = 1u32 << bit;
        let in_svc = self.read_reg(space, APIC_REG_IN_SERVICE + reg) & mask != 0;
        let mode = self.read_reg(space, APIC_REG_TMR + reg) & mask != 0;
        let in_req = self.read_reg(space, APIC_REG_IRR + reg) & mask != 0;
        let err = self.read_reg(space, APIC_REG_ERR_STATUS);
        (in_svc, mode, in_req, err)
    }

    /// What the timer interrupt does: it signals the end of interrupt `isr`.
    pub fn local_timer(&self, space: &mut AddressSpace, isr: usize)
        requires
            self.window().usable(old(space)@),
        ensures
            final(space)@ == reg_written(
                old(space)@,
                self.window().base(),
                APIC_REG_EOI as int,
                isr as u32,
            ),
            self.window().usable(final(space)@),
    {
        self.eoi(space, isr);
    }
}

/// The address space after register `idx` of the I/O APIC at `base` was
/// selected: the register's index stands in the select register.
pub open spec fn ioapic_selected(space: SpaceView, base: u64, idx: usize) -> SpaceView {
    reg_written(space, base, IOAPIC_SELECT as int, idx as u32)
}

/// The address space after `data` was written to register `idx` of the I/O
/// APIC at `base`: the register was selected, and the data stands in the
/// window register.
pub open spec fn ioapic_written(space: SpaceView, base: u64, idx: usize, data: u32) -> SpaceView {
    reg_written(ioapic_selected(space, base, idx), base, IOAPIC_WINDOW as int, data)
}

/// Number of interrupt lines that an I/O APIC with version register `version`
/// has: one more than bits 16 to 23 say.
pub open spec fn line_count(version: u32) -> usize {
    ((version / 0x1_0000) % 0x100 + 1) as usize
}

/// Index of the low redirection register of line `idx`.
pub open spec fn redirection_index(idx: usize) -> int {
    IOAPIC_REDIRECTION_BASE + idx * 2
}

/// I/O APIC: index in the window of the register that selects.
pub const IOAPIC_SELECT: usize = 0;

/// I/O APIC: index in the window of the register that holds the data.
pub const IOAPIC_WINDOW: usize = 1;

/// I/O APIC register: version and number of lines.
pub const IOAPIC_REG_VERSION: usize = 1;

/// The registers of an I/O APIC, reached through a select register and a
/// data window.
pub struct IOAPICRegs {
    window: RegisterWindow,
}

impl IOAPICRegs {
    /// The register window.
    pub closed spec fn window(self) -> RegisterWindow {
        self.window
    }

    /// Address of the window.
    pub open spec fn base(self) -> u64 {
        self.window().base()
    }

    /// Whether the window's page is still mapped as it was made.
    pub open spec fn usable(self, space: SpaceView) -> bool {
        self.window().usable(space)
    }

    /// Maps the registers of the I/O APIC at physical address `paddr`.
    pub fn new(space: &mut AddressSpace, paddr: u64) -> (result: Result<
        IOAPICRegs,
        AllocationError,
    >)
        requires
            paddr + PAGE_SIZE <= u64::MAX,
            !old(space)@.locks.held(RegionLock::Kernel),
        ensures
            hardware_mapping_made(
                old(space)@,
                final(space)@,
                paddr,
                1,
                false,
                match result {
                    Ok(r) => Ok(r.window().mapping()),
                    Err(e) => Err(e),
                },
            ),
            result matches Ok(r) ==> r.window().wf() && r.usable(final(space)@),
    {
        match RegisterWindow::new(space, paddr, "IOAPIC") {
            Ok(window) => Ok(IOAPICRegs { window }),
            Err(e) => Err(e),
        }
    }

    /// Reads register `idx`: selects it, then reads the window.
    pub fn read(&self, space: &mut AddressSpace, idx: usize) -> (value: u32)
        requires
            self.usable(old(space)@),
        ensures
            final(space)@ == ioapic_selected(old(space)@, self.base(), idx),
            value == reg_value(final(space)@, self.base(), IOAPIC_WINDOW as int),
            self.usable(final(space)@),
    {
        self.window.write(space, IOAPIC_SELECT, #[verifier::truncate] (idx as u32));
        self.window.read(space, IOAPIC_WINDOW)
    }

    /// Writes `data` to register `idx`: selects it, then writes the window.
    pub fn write(&self, space: &mut AddressSpace, idx: usize, data: u32)
        requires
            self.usable(old(space)@),
        ensures
            final(space)@ == ioapic_written(old(space)@, self.base(), idx, data),
            self.usable(final(space)@),
    {
        self.window.write(space, IOAPIC_SELECT, #[verifier::truncate] (idx as u32));
        self.window.write(space, IOAPIC_WINDOW, data);
    }
}

/// An I/O APIC: its registers, its interrupt lines and the handler bound to
/// each line.
pub struct IOAPIC<H> {
    regs: IOAPICRegs,
    num_lines: usize,
    first_irq: usize,
    handlers: Vec<Option<H>>,
}

impl<H: Copy> IOAPIC<H> {
    /// The registers.
    pub closed spec fn regs(self) -> IOAPICRegs {
        self.regs
    }

    /// Number of interrupt lines.
    pub closed spec fn num_lines(self) -> usize {
        self.num_lines
    }

    /// Number of the global interrupt that line 0 stands for.
    pub closed spec fn first_irq(self) -> usize {
        self.first_irq
    }

    /// The handler bound to each line, if any.
    pub closed spec fn handlers(self) -> Seq<Option<H>> {
        self.handlers@
    }

    /// Every line has a slot for its handler.
    pub open spec fn wf(self) -> bool {
        &&& self.handlers().len() == self.num_lines()
        &&& 1 <= self.num_lines() <= 256
        &&& self.regs().window().wf()
    }

    /// Whether the global interrupt `gsi` is one of this controller's lines.
    pub open spec fn contains_spec(self, gsi: usize) -> bool {
        self.first_irq() <= gsi < self.first_irq() + self.num_lines()
    }

    /// Maps the registers of the I/O APIC at physical address `paddr`, whose
    /// line 0 stands for global interrupt `base`, and reads off the number of
    /// lines. No line has a handler yet.
    pub fn new(space: &mut AddressSpace, paddr: u64, base: usize) -> (result: Result<
        IOAPIC<H>,
        AllocationError,
    >)
        requires
            paddr + PAGE_SIZE <= u64::MAX,
            !old(space)@.locks.held(RegionLock::Kernel),
        ensures
            match result {
                Ok(io) => {
                    &&& exists|mapped: SpaceView|
                        {
                            &&& hardware_mapping_made(
                                old(space)@,
                                mapped,
                                paddr,
                                1,
                                false,
                                Ok(io.regs().window().mapping()),
                            )
                            &&& final(space)@ == ioapic_selected(
                                mapped,
                                io.regs().base(),
                                IOAPIC_REG_VERSION,
                            )
                        }
                    &&& io.num_lines() == line_count(
                        reg_value(final(space)@, io.regs().base(), IOAPIC_WINDOW as int),
                    )
                    &&& io.wf()
                    &&& io.regs().usable(final(space)@)
                    &&& io.first_irq() == base
                    &&& io.handlers() == Seq::new(io.num_lines() as nat, |i: int| None::<H>)
                },
                Err(e) => hardware_mapping_made(
                    old(space)@,
                    final(space)@,
                    paddr,
                    1,
                    false,
                    Err(e),
                ),
            },
    {
        let regs = match IOAPICRegs::new(space, paddr) {
            Ok(regs) => regs,
            Err(e) => {
                return Err(e);
            },
        };
        let ghost mapped = space@;
        let v = regs.read(space, IOAPIC_REG_VERSION);
        let num_lines = ((v / 0x1_0000) % 0x100) as usize + 1;
        let mut handlers: Vec<Option<H>> = Vec::new();
        let mut i: usize = 0;
        while i < num_lines
            invariant
                i <= num_lines,
                handlers@ == Seq::new(i as nat, |i: int| None::<H>),
            decreases num_lines - i,
        {
            handlers.push(None);
            assert(handlers@ =~= Seq::new((i + 1) as nat, |i: int| None::<H>));
            i = i + 1;
        }
        Ok(IOAPIC { regs, num_lines, first_irq: base, handlers })
    }

    /// Tells whether the global interrupt `gsi` is one of this controller's
    /// lines.
    pub fn contains(&self, gsi: usize) -> (yes: bool)
        ensures
            yes == self.contains_spec(gsi),
    {
        self.first_irq <= gsi && gsi - self.first_irq < self.num_lines
    }

    /// Number of the global interrupt that line 0 stands for.
    pub fn first(&self) -> (irq: usize)
        ensures
            irq == self.first_irq(),
    {
        self.first_irq
    }

    /// Number of interrupt lines.
    pub fn line_total(&self) -> (lines: usize)
        ensures
            lines == self.num_lines(),
    {
        self.num_lines
    }

    /// The handler bound to line `idx`.
    pub fn get_callback(&self, idx: usize) -> (handler: H)
        requires
            self.wf(),
            idx < self.num_lines(),
            self.handlers()[idx as int] is Some,
        ensures
            self.handlers()[idx as int] == Some(handler),
    {
        self.handlers[idx].unwrap()
    }

    /// Tells whether line `idx` exists and has a handler.
    pub fn has_callback(&self, idx: usize) -> (bound: bool)
        requires
            self.wf(),
        ensures
            bound == (idx < self.num_lines() && self.handlers()[idx as int] is Some),
    {
        idx < self.num_lines && self.handlers[idx].is_some()
    }

    /// Signals the end of the interrupt on line `_idx`. The controller needs
    /// nothing for it.
    pub fn eoi(&mut self, _idx: usize)
        ensures
            *final(self) == *old(self),
    {
    }

    /// Routes line `idx` to vector `vector` of the processor whose APIC is
    /// numbered `apic`, with trigger mode `mode`, and binds `cb` to the line.
    /// The high word of the line's redirection entry is written first, then
    /// the low word, which unmasks the line.
    pub fn set_irq(
        &mut self,
        space: &mut AddressSpace,
        idx: usize,
        vector: u8,
        apic: usize,
        mode: TriggerMode,
        cb: H,
    )
        requires
            old(self).wf(),
            idx < old(self).num_lines(),
            old(self).regs().usable(old(space)@),
        ensures
            final(self).wf(),
            final(self).regs() == old(self).regs(),
            final(self).num_lines() == old(self).num_lines(),
            final(self).first_irq() == old(self).first_irq(),
            final(self).handlers() == old(self).handlers().update(idx as int, Some(cb)),
            final(space)@ == ioapic_written(
                ioapic_written(
                    old(space)@,
                    old(self).regs().base(),
                    (redirection_index(idx) + 1) as usize,
                    destination_word(apic),
                ),
                old(self).regs().base(),
                redirection_index(idx) as usize,
                (trigger_flags(mode) + vector) as u32,
            ),
            final(self).regs().usable(final(space)@),
    {
        self.handlers.set(idx, Some(cb));
        let flags: u32 = flags_for(mode);
        let reg = IOAPIC_REDIRECTION_BASE + idx * 2;
        self.regs.write(space, reg + 1, ((apic % 0x100) as u32) * 0x100_0000);
        self.regs.write(space, reg, flags + vector as u32);
    }

    /// Masks line `idx`.
    pub fn disable_irq(&mut self, space: &mut AddressSpace, idx: usize)
        requires
            redirection_index(idx) <= usize::MAX,
            old(self).regs().usable(old(space)@),
        ensures
            *final(self) == *old(self),
            final(space)@ == ioapic_written(
                old(space)@,
                old(self).regs().base(),
                redirection_index(idx) as usize,
                REDIRECTION_MASKED,
            ),
            final(self).regs().usable(final(space)@),
    {
        self.regs.write(space, IOAPIC_REDIRECTION_BASE + idx * 2, REDIRECTION_MASKED);
    }

    /// Reads the redirection entry of line `idx`: the low word is read, then
    /// the high word, and the two are put together.
    pub fn get_irq_reg(&mut self, space: &mut AddressSpace, idx: usize) -> (entry: u64)
        requires
            redirection_index(idx) + 1 <= usize::MAX,
            old(self).regs().usable(old(space)@),
        ensures
            *final(self) == *old(self),
            final(space)@ == ioapic_selected(
                ioapic_selected(
                    old(space)@,
                    old(self).regs().base(),
                    redirection_index(idx) as usize,
                ),
                old(self).regs().base(),
                (redirection_index(idx) + 1) as usize,
            ),
            entry == reg_value(
                ioapic_selected(
                    old(space)@,
                    old(self).regs().base(),
                    redirection_index(idx) as usize,
                ),
                old(self).regs().base(),
                IOAPIC_WINDOW as int,
            ) + reg_value(final(space)@, old(self).regs().base(), IOAPIC_WINDOW as int)
                * 0x1_0000_0000,
            final(self).regs().usable(final(space)@),
    {
        let reg = IOAPIC_REDIRECTION_BASE + idx * 2;
        let low = self.regs.read(space, reg) as u64;
        let high = self.regs.read(space, reg + 1) as u64;
        low + high * 0x1_0000_0000
    }
}

} // verus!
