//! One descriptor of the interrupt descriptor table, as its four 32-bit words.

use vstd::prelude::*;
use crate::loader::interrupt::{SystemDescriptorTypes, INTR_CNT};

verus! {

/// A descriptor: the address of a routine in three pieces, the selector of the
/// routine's code segment, the kind of descriptor, and whether the descriptor is
/// there.
///
/// Word 0 holds bits 0 to 15 of the address and, above them, the
/// selector; word 1 the kind in bits 8 to 11, the present flag in bit
/// 15, and bits 16 to 31 of the address above them; word 2 the upper
/// half of the address.
#[derive(Clone, Copy, Debug)]
pub struct InterruptDescriptor {
    data: [u32; 4],
}

/// The address of the routine that the words of a descriptor name.
pub open spec fn gate_offset(data: Seq<u32>) -> u64 {
    ((data[0] & 0xffff) as u64) | (((data[1] >> 16) as u64) << 16) | ((data[2] as u64) << 32)
}

/// The selector that the words of a descriptor name.
pub open spec fn gate_selector(data: Seq<u32>) -> u32 {
    data[0] >> 16
}

/// The number of the kind of descriptor.
pub open spec fn gate_type(data: Seq<u32>) -> u32 {
    (data[1] >> 8) & 0xf
}

/// Whether the descriptor is there.
pub open spec fn gate_present(data: Seq<u32>) -> bool {
    (data[1] >> 15) & 0x1 == 1
}

/// The words of the descriptor that `make_intr_gate` makes for the routine at
/// `handler`, in the code segment `selector`.
pub open spec fn interrupt_gate(handler: u64, selector: u16) -> Seq<u32> {
    seq![
        ((handler & 0xffff) as u32) | ((selector as u32) << 16),
        (14u32 << 8) | (1u32 << 15) | ((((handler >> 16) & 0xffff) as u32) << 16),
        (handler >> 32) as u32,
        0u32,
    ]
}

/// The parts of an interrupt descriptor can be read back from it.
pub proof fn lemma_interrupt_gate(handler: u64, selector: u16)
    ensures
        gate_offset(interrupt_gate(handler, selector)) == handler,
        gate_selector(interrupt_gate(handler, selector)) == selector,
        gate_type(interrupt_gate(handler, selector)) == 14,
        gate_present(interrupt_gate(handler, selector)),
{
    let w0 = ((handler & 0xffff) as u32) | ((selector as u32) << 16);
    let w1 = (14u32 << 8) | (1u32 << 15) | ((((handler >> 16) & 0xffff) as u32) << 16);
    let w2 = (handler >> 32) as u32;
    assert(interrupt_gate(handler, selector)[0] == w0);
    assert(interrupt_gate(handler, selector)[1] == w1);
    assert(interrupt_gate(handler, selector)[2] == w2);
    assert((((w0 & 0xffff) as u64) | (((w1 >> 16) as u64) << 16) | ((w2 as u64) << 32)) == handler
        && w0 >> 16 == selector as u32 && (w1 >> 8) & 0xf == 14 && (w1 >> 15) & 0x1 == 1)
        by (bit_vector)
        requires
            w0 == ((handler & 0xffff) as u32) | ((selector as u32) << 16),
            w1 == (14u32 << 8) | (1u32 << 15) | ((((handler >> 16) & 0xffff) as u32) << 16),
            w2 == (handler >> 32) as u32,
    ;
}

impl InterruptDescriptor {
    /// The four words of the descriptor.
    pub closed spec fn view(&self) -> Seq<u32> {
        self.data@
    }

    pub fn new(data: [u32; 4]) -> (result: InterruptDescriptor)
        ensures
            result@ == data@,
            result@.len() == 4,
    {
        InterruptDescriptor { data }
    }

    /// The four words of the descriptor.
    pub fn words(&self) -> (result: [u32; 4])
        ensures
            result@ == self@,
    {
        self.data
    }

    /// Sets bits 0 to 15 of the address.
    pub fn set_offset_low(&mut self, value: u16)
        ensures
            final(self)@ == old(self)@.update(0, (old(self)@[0] & 0xffff_0000) | (value as u32)),
    {
        let word = (self.data[0] & 0xffff_0000) | (value as u32);
        self.data[0] = word;
    }

    /// Sets bits 16 to 31 of the address.
    pub fn set_offset_med(&mut self, value: u16)
        ensures
            final(self)@ == old(self)@.update(
                1,
                (old(self)@[1] & 0x0000_ffff) | ((value as u32) << 16),
            ),
    {
        let word = (self.data[1] & 0x0000_ffff) | ((value as u32) << 16);
        self.data[1] = word;
    }

    /// Sets the upper half of the address.
    pub fn set_offset_high(&mut self, value: u32)
        ensures
            final(self)@ == old(self)@.update(2, value),
    {
        self.data[2] = value;
    }

    /// Sets or clears the present flag.
    pub fn set_present_flag(&mut self, value: bool)
        ensures
            final(self)@ == old(self)@.update(
                1,
                if value {
                    old(self)@[1] | (1u32 << 15)
                } else {
                    old(self)@[1] & !(1u32 << 15)
                },
            ),
    {
        if value {
            let word = self.data[1] | (1u32 << 15);
            self.data[1] = word;
        } else {
            let word = self.data[1] & !(1u32 << 15);
            self.data[1] = word;
        }
    }

    /// Sets the kind of descriptor.
    pub fn set_gate_type(&mut self, value: SystemDescriptorTypes)
        ensures
            final(self)@ == old(self)@.update(
                1,
                (old(self)@[1] & 0xffff_f0ff) | (value.spec_code() << 8),
            ),
    {
        let word = (self.data[1] & 0xffff_f0ff) | (value.code() << 8);
        self.data[1] = word;
    }

    /// Sets the selector of the routine's code segment.
    pub fn set_segment_selector(&mut self, value: u16)
        ensures
            final(self)@ == old(self)@.update(
                0,
                (old(self)@[0] & 0x0000_ffff) | ((value as u32) << 16),
            ),
    {
        let word = (self.data[0] & 0x0000_ffff) | ((value as u32) << 16);
        self.data[0] = word;
    }
}

/// The descriptor that leads to the routine at address `f`: an interrupt descriptor,
/// present, in the code segment with the selector `selector`.
pub fn make_intr_gate(f: u64, selector: u16) -> (result: InterruptDescriptor)
    ensures
        result@ == interrupt_gate(f, selector),
{
    let mut result = InterruptDescriptor::new([0; 4]);
    result.set_offset_high(((f & 0xffff_ffff_0000_0000) >> 32) as u32);
    result.set_offset_med(((f & 0x0000_0000_ffff_0000) >> 16) as u16);
    result.set_offset_low(((f & 0x0000_0000_0000_ffff) >> 0) as u16);
    result.set_present_flag(true);
    result.set_gate_type(SystemDescriptorTypes::InterruptGate);
    result.set_segment_selector(selector);
    proof {
        let high = ((f & 0xffff_ffff_0000_0000) >> 32) as u32;
        let med = ((f & 0x0000_0000_ffff_0000) >> 16) as u16;
        let low = ((f & 0x0000_0000_0000_ffff) >> 0) as u16;
        let w0 = (((0u32 & 0xffff_0000) | (low as u32)) & 0x0000_ffff) | ((selector as u32) << 16);
        let w1 = ((((0u32 & 0x0000_ffff) | ((med as u32) << 16)) | (1u32 << 15)) & 0xffff_f0ff) | (
        14u32 << 8);
        assert(w0 == ((f & 0xffff) as u32) | ((selector as u32) << 16) && w1 == (14u32 << 8) | (1u32
            << 15) | ((((f >> 16) & 0xffff) as u32) << 16) && high == (f >> 32) as u32)
            by (bit_vector)
            requires
                high == ((f & 0xffff_ffff_0000_0000) >> 32) as u32,
                med == ((f & 0x0000_0000_ffff_0000) >> 16) as u16,
                low == ((f & 0x0000_0000_0000_ffff) >> 0) as u16,
                w0 == (((0u32 & 0xffff_0000) | (low as u32)) & 0x0000_ffff) | ((selector as u32)
                    << 16),
                w1 == ((((0u32 & 0x0000_ffff) | ((med as u32) << 16)) | (1u32 << 15))
                    & 0xffff_f0ff) | (14u32 << 8),
        ;
        assert(result@ =~= interrupt_gate(f, selector));
    }
    result
}

/// The interrupt descriptor table and, beside each descriptor, the address of
/// the routine that was installed there.
pub struct InterruptTable {
    idt: Vec<InterruptDescriptor>,
    handlers: Vec<Option<u64>>,
}

impl InterruptTable {
    /// The descriptors of the table, each as its four words.
    pub closed spec fn gates(&self) -> Seq<Seq<u32>> {
        Seq::new(self.idt@.len(), |i: int| self.idt@[i]@)
    }

    /// The routine installed at each vector, if one was.
    pub closed spec fn handlers(&self) -> Seq<Option<u64>> {
        self.handlers@
    }

    /// The table has its 256 descriptors.
    pub open spec fn wf(&self) -> bool {
        self.gates().len() == INTR_CNT && self.handlers().len() == INTR_CNT
    }

    /// A table of 256 descriptors of all zeros, with no routine installed.
    pub fn new() -> (result: Self)
        ensures
            result.wf(),
            forall|i: int| 0 <= i < INTR_CNT ==> (#[trigger] result.gates()[i]) == seq![0u32, 0, 0, 0],
            forall|i: int| 0 <= i < INTR_CNT ==> (#[trigger] result.handlers()[i]) is None,
    {
        let mut idt: Vec<InterruptDescriptor> = Vec::new();
        let mut handlers: Vec<Option<u64>> = Vec::new();
        while idt.len() < INTR_CNT
            invariant
                idt.len() <= INTR_CNT,
                handlers.len() == idt.len(),
                forall|i: int| 0 <= i < idt.len() ==> (#[trigger] idt@[i])@ == seq![0u32, 0, 0, 0],
                forall|i: int| 0 <= i < handlers.len() ==> (#[trigger] handlers@[i]) is None,
            decreases INTR_CNT - idt.len(),
        {
            let gate = InterruptDescriptor::new([0; 4]);
            assert(gate@ =~= seq![0u32, 0, 0, 0]);
            idt.push(gate);
            handlers.push(None);
        }
        InterruptTable { idt, handlers }
    }

    /// Puts the descriptor for the routine at address `f` at vector
    /// `interrupt`, and takes note of the routine.
    pub fn install_handler(&mut self, f: u64, interrupt: usize, selector: u16)
        requires
            old(self).wf(),
            interrupt < INTR_CNT,
        ensures
            final(self).wf(),
            final(self).gates() == old(self).gates().update(
                interrupt as int,
                interrupt_gate(f, selector),
            ),
            final(self).handlers() == old(self).handlers().update(interrupt as int, Some(f)),
    {
        let descriptor = make_intr_gate(f, selector);
        self.handlers[interrupt] = Some(f);
        self.idt[interrupt] = descriptor;
        assert(final(self).gates() =~= old(self).gates().update(
            interrupt as int,
            interrupt_gate(f, selector),
        ));
    }

    /// The descriptor at vector `interrupt`.
    pub fn gate(&self, interrupt: usize) -> (result: InterruptDescriptor)
        requires
            self.wf(),
            interrupt < INTR_CNT,
        ensures
            result@ == self.gates()[interrupt as int],
    {
        self.idt[interrupt]
    }

    /// The limit that goes with the table's address into the
    /// processor's register: the bytes of the table, less one.
    pub fn install_idt(&self) -> (limit: u16)
        ensures
            limit == INTR_CNT * 16 - 1,
    {
        (INTR_CNT * 16 - 1) as u16
    }
}

} // verus!
