//! The local APIC of a processor: the registers that the kernel uses in
//! the controller's memory-mapped window, and the values it puts in them.

use vstd::prelude::*;
use crate::frame_allocator::FrameAllocator;
use crate::mem::{Frame, Page, PhysicalAddress, VirtualAddress};
use crate::page_table::{PageSize, PageTable};

verus! {

/// The offset in the window of the register that holds the APIC's id.
pub const APIC_ID_OFFSET: usize = 0x020;

/// The offset of the end-of-interrupt register.
pub const EOI_OFFSET: usize = 0x0b0;

/// The offset of the low half of the interrupt command register.
pub const ICR_LOW_OFFSET: usize = 0x300;

/// The offset of the timer's entry in the local vector table.
pub const LVT_TIMER_OFFSET: usize = 0x320;

/// The offset of the timer's initial count.
pub const TIMER_INITIAL_COUNT_OFFSET: usize = 0x380;

/// The page of real-mode memory, as a vector number, at which a started
/// processor begins to run: address 0x2000.
pub const STARTUP_VECTOR: u32 = 0x2;

/// How the APIC timer counts.
#[derive(Clone, Copy, PartialEq, Eq, Structural, Debug)]
pub enum TimerMode {
    OneShot,
    Periodic,
    TSCDecline,
}

impl TimerMode {
    /// The number of the mode in the timer's entry.
    pub open spec fn code(self) -> u32 {
        match self {
            TimerMode::OneShot => 0,
            TimerMode::Periodic => 1,
            TimerMode::TSCDecline => 2,
        }
    }
}

/// A write of 32 bits to a register of the window, for the caller to
/// carry out.
#[derive(Clone, Copy, PartialEq, Eq, Structural, Debug)]
pub struct RegisterWrite {
    /// The address to write to.
    pub address: usize,
    pub value: u32,
}

/// The timer's entry in the local vector table: the vector in bits 0 to
/// 7, the mask in bit 16, the mode in bits 17 and 18.
pub open spec fn lvt_timer_entry(mode: TimerMode, masked: bool, vector: u8) -> u32 {
    (mode.code() << 17) | ((if masked {
        1u32
    } else {
        0u32
    }) << 16) | (vector as u32)
}

/// The command that starts the other processors: the start-up vector in
/// bits 0 to 7, delivery mode "start up" (6) in bits 8 to 10, level
/// "assert" in bit 14, and "all but self" (3) in bits 18 and 19.
pub open spec fn startup_ipi_command() -> u32 {
    0x000c_4602
}

/// The fields of a timer entry can be read back from it, and the entry
/// is the sum of its fields, each at its place.
pub proof fn lemma_lvt_timer_entry(mode: TimerMode, masked: bool, vector: u8)
    ensures
        lvt_timer_entry(mode, masked, vector) & 0xff == vector,
        (lvt_timer_entry(mode, masked, vector) >> 16) & 0x1 == if masked {
            1u32
        } else {
            0u32
        },
        (lvt_timer_entry(mode, masked, vector) >> 17) & 0x3 == mode.code(),
        lvt_timer_entry(mode, masked, vector) == mode.code() * 0x2_0000 + (if masked {
            0x1_0000int
        } else {
            0int
        }) + vector,
{
    let code = mode.code();
    let mask = if masked {
        1u32
    } else {
        0u32
    };
    let wide = vector as u32;
    let entry = (code << 17) | (mask << 16) | wide;
    assert(entry & 0xff == wide && (entry >> 16) & 0x1 == mask && (entry >> 17) & 0x3 == code
        && entry == code * 0x2_0000 + mask * 0x1_0000 + wide) by (bit_vector)
        requires
            entry == (code << 17) | (mask << 16) | wide,
            code <= 2,
            mask <= 1,
            wide <= 0xff,
    ;
}

/// The fields of the start-up command, each at its place.
pub proof fn lemma_startup_ipi_command()
    ensures
        startup_ipi_command() == (STARTUP_VECTOR << 0) | (0b110u32 << 8) | (0b1u32 << 14) | (0b11u32
            << 18),
{
    assert(0x000c_4602u32 == (0x2u32 << 0) | (0b110u32 << 8) | (0b1u32 << 14) | (0b11u32 << 18))
        by (bit_vector);
}

/// What the registers of the window hold.
pub struct LapicView {
    /// The address of the window.
    pub ptr: usize,
    pub apic_id: u32,
    pub lvt_timer: u32,
    pub timer_initial_count: u32,
    pub icr_low: u32,
}

/// The registers of a local APIC that the kernel uses, as they stand
/// after the kernel's writes.
pub struct LapicRegisters {
    ptr: usize,
    apic_id: u32,
    lvt_timer: u32,
    timer_initial_count: u32,
    icr_low: u32,
}

impl LapicRegisters {
    /// What the registers hold.
    pub closed spec fn view(&self) -> LapicView {
        LapicView {
            ptr: self.ptr,
            apic_id: self.apic_id,
            lvt_timer: self.lvt_timer,
            timer_initial_count: self.timer_initial_count,
            icr_low: self.icr_low,
        }
    }

    /// What the registers of the window at `ptr` hold before the kernel
    /// has written any of them.
    pub open spec fn fresh(ptr: usize) -> LapicView {
        LapicView { ptr, apic_id: 0, lvt_timer: 0, timer_initial_count: 0, icr_low: 0 }
    }

    /// The registers of the window at address `ptr`, before the kernel
    /// has written any of them.
    pub fn new(ptr: usize) -> (result: Self)
        ensures
            result@ == LapicRegisters::fresh(ptr),
    {
        LapicRegisters { ptr, apic_id: 0, lvt_timer: 0, timer_initial_count: 0, icr_low: 0 }
    }

    /// The address of the window.
    pub fn ptr(&self) -> (result: usize)
        ensures
            result == self@.ptr,
    {
        self.ptr
    }

    /// Maps the page of the window to the frame of the same number, so
    /// that the window is found at its physical address.
    pub fn page_in(&self, page_table: &mut PageTable, frame_allocator: &mut FrameAllocator)
        requires
            old(page_table).wf(),
            !old(page_table).collides(Page { page: self@.ptr / 0x1000 }, PageSize::FourKb),
            old(frame_allocator).cursor() + 3 <= usize::MAX,
        ensures
            final(page_table).wf(),
            final(page_table).root_address() == old(page_table).root_address(),
            final(page_table).mapped(
                old(page_table),
                Frame { frame: self@.ptr / 0x1000 },
                Page { page: self@.ptr / 0x1000 },
                PageSize::FourKb,
            ),
            final(frame_allocator).cursor() == old(frame_allocator).cursor() + old(
                page_table,
            ).tables_needed(Page { page: self@.ptr / 0x1000 }, PageSize::FourKb),
    {
        let frame: Frame = PhysicalAddress::new(self.ptr).into();
        let page: Page = VirtualAddress::new(self.ptr).into();
        page_table.insert_page(frame_allocator, frame, page, PageSize::FourKb);
    }

    /// Starts the other processors: puts the start-up command in the
    /// interrupt command register.
    pub fn send_startup_ipi(&mut self) -> (write: RegisterWrite)
        requires
            old(self)@.ptr + ICR_LOW_OFFSET <= usize::MAX,
        ensures
            final(self)@ == (LapicView { icr_low: startup_ipi_command(), ..old(self)@ }),
            write == (RegisterWrite {
                address: (old(self)@.ptr + ICR_LOW_OFFSET) as usize,
                value: startup_ipi_command(),
            }),
    {
        let vector: u32 = STARTUP_VECTOR;
        let delivery_mode: u32 = 0b110;
        let level: u32 = 0b1;
        let destination_shorthand: u32 = 0b11;
        let icr_low: u32 = (vector << 0) | (delivery_mode << 8) | (level << 14) | (
        destination_shorthand << 18);
        proof {
            lemma_startup_ipi_command();
        }
        self.icr_low = icr_low;
        RegisterWrite { address: self.ptr + ICR_LOW_OFFSET, value: icr_low }
    }

    /// Tells the APIC that the interrupt at hand is dealt with: a write
    /// of zero to the end-of-interrupt register.
    pub fn eoi(&mut self) -> (write: RegisterWrite)
        requires
            old(self)@.ptr + EOI_OFFSET <= usize::MAX,
        ensures
            final(self)@ == old(self)@,
            write == (RegisterWrite { address: (old(self)@.ptr + EOI_OFFSET) as usize, value: 0 }),
    {
        RegisterWrite { address: self.ptr + EOI_OFFSET, value: 0 }
    }

    pub fn get_lvt_timer_register(&self) -> (result: u32)
        ensures
            result == self@.lvt_timer,
    {
        self.lvt_timer
    }

    /// Sets the timer's entry in the local vector table. The vector must
    /// be above those of the processor's own exceptions.
    pub fn set_lvt_timer_register(&mut self, mode: TimerMode, masked: bool, vector: u8) -> (write:
        RegisterWrite)
        requires
            vector > 31,
            old(self)@.ptr + LVT_TIMER_OFFSET <= usize::MAX,
        ensures
            final(self)@ == (LapicView {
                lvt_timer: lvt_timer_entry(mode, masked, vector),
                ..old(self)@
            }),
            write == (RegisterWrite {
                address: (old(self)@.ptr + LVT_TIMER_OFFSET) as usize,
                value: lvt_timer_entry(mode, masked, vector),
            }),
    {
        let code: u32 = match mode {
            TimerMode::OneShot => 0,
            TimerMode::Periodic => 1,
            TimerMode::TSCDecline => 2,
        };
        let mask: u32 = if masked {
            1
        } else {
            0
        };
        let result: u32 = (code << 17) | (mask << 16) | (vector as u32);
        self.lvt_timer = result;
        RegisterWrite { address: self.ptr + LVT_TIMER_OFFSET, value: result }
    }

    pub fn get_timer_initial_count_register(&self) -> (result: u32)
        ensures
            result == self@.timer_initial_count,
    {
        self.timer_initial_count
    }

    /// Sets the count from which the timer counts down. A count other
    /// than zero starts the timer.
    pub fn set_timer_initial_count_register(&mut self, count: u32) -> (write: RegisterWrite)
        requires
            old(self)@.ptr + TIMER_INITIAL_COUNT_OFFSET <= usize::MAX,
        ensures
            final(self)@ == (LapicView { timer_initial_count: count, ..old(self)@ }),
            write == (RegisterWrite {
                address: (old(self)@.ptr + TIMER_INITIAL_COUNT_OFFSET) as usize,
                value: count,
            }),
    {
        self.timer_initial_count = count;
        RegisterWrite { address: self.ptr + TIMER_INITIAL_COUNT_OFFSET, value: count }
    }

    pub fn get_apic_id_register(&self) -> (result: u32)
        ensures
            result == self@.apic_id,
    {
        self.apic_id
    }

    /// Takes note of what the APIC's id register was read to hold.
    pub fn set_apic_id_register(&mut self, apic_id: u32)
        ensures
            final(self)@ == (LapicView { apic_id, ..old(self)@ }),
    {
        self.apic_id = apic_id;
    }
}

} // verus!
