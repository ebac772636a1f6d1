//! Bringing a processor up, and the timer interrupt that drives the
//! scheduler.

use vstd::prelude::*;
use crate::apic::{
    lvt_timer_entry, startup_ipi_command, LapicRegisters, LapicView, RegisterWrite, TimerMode,
    EOI_OFFSET, ICR_LOW_OFFSET, LVT_TIMER_OFFSET, TIMER_INITIAL_COUNT_OFFSET,
};
use crate::frame_allocator::FrameAllocator;
use crate::interrupts::{InterruptGuard, SingleExecution};
use crate::mem::{Frame, Page, PAGE_BYTES};
use crate::page_table::{
    lemma_covers, lemma_leaf_target, lemma_overlaps, share_memory, PageSize, PageTable,
};
use crate::per_cpu::{PerCpuData, ProcessorId};
use crate::threads::{
    new_thread, Dispatch, ReadyQueue, Status, Thread, ThreadView, MAX_TICKS, READY_QUEUE_CAPACITY,
    THREAD_BYTES,
};

verus! {

/// The vector of the timer interrupt.
pub const TIMER_VECTOR: u8 = 0x20;

/// The vector of the APIC's spurious interrupt.
pub const SPURIOUS_VECTOR: u8 = 0xdf;

/// The exceptions that the processor defines itself: vectors 0 to 20.
pub const EXCEPTIONS: u8 = 21;

/// The entries of an interrupt descriptor table.
pub const VECTORS: usize = 256;

/// A timer interrupt leads to a switch only if the stack pointer that it
/// interrupted is above this address: below it lie the stacks on which
/// the processors start, which belong to no thread.
pub const PREEMPTION_FLOOR: u64 = 0x80_0000_0000;

/// The physical address of the word in which a starting processor finds
/// the address of the page table's level 4 map.
pub const AP_PAGE_TABLE_SLOT: usize = 0x3100;

/// The physical address of the word in which a starting processor finds
/// the address of its entry routine.
pub const AP_ENTRY_SLOT: usize = 0x3200;

/// The number of the page of the idle thread of the processor that
/// starts the machine.
pub const BSP_IDLE_PAGE: usize = 0x80_0040_0;

/// The number of the page of the idle thread of the second processor.
pub const AP_IDLE_PAGE: usize = 0x80_0020_0;

/// The number of the page of the thread that the processor that starts
/// the machine runs first.
pub const FIRST_THREAD_PAGE: usize = 0x80_0010_0;

/// The number of the page of the second thread that does work.
pub const SECOND_THREAD_PAGE: usize = 0x80_0030_0;

/// The number of the page of the third thread that does work.
pub const THIRD_THREAD_PAGE: usize = 0x80_0050_0;

/// The count from which the timer counts down between two ticks.
pub const TIMER_COUNT: u32 = 80000000;

/// The routine that an interrupt vector leads to.
#[derive(Clone, Copy, PartialEq, Eq, Structural, Debug)]
pub enum Handler {
    /// The vector is one of the processor's own exceptions. With some of
    /// them the processor pushes an error code.
    Exception { vector: u8, error_code: bool },
    /// The timer tick.
    Timer,
    /// The APIC's spurious interrupt.
    Spurious,
    /// Nothing is expected at the vector; the routine only reports it.
    Default,
}

/// Whether the processor pushes an error code with the exception at
/// `vector`: double fault, invalid TSS, segment not present, stack
/// fault, general protection, page fault and alignment check.
pub open spec fn pushes_error_code(vector: u8) -> bool {
    vector == 8 || (10 <= vector <= 14) || vector == 17
}

/// The routine that `vector` leads to.
pub open spec fn handler_of(vector: u8) -> Handler {
    if vector < EXCEPTIONS {
        Handler::Exception { vector, error_code: pushes_error_code(vector) }
    } else if vector == TIMER_VECTOR {
        Handler::Timer
    } else if vector == SPURIOUS_VECTOR {
        Handler::Spurious
    } else {
        Handler::Default
    }
}

/// The routine that `vector` leads to.
pub fn handler_for(vector: u8) -> (result: Handler)
    ensures
        result == handler_of(vector),
{
    if vector < EXCEPTIONS {
        let error_code = vector == 8 || (10 <= vector && vector <= 14) || vector == 17;
        Handler::Exception { vector, error_code }
    } else if vector == TIMER_VECTOR {
        Handler::Timer
    } else if vector == SPURIOUS_VECTOR {
        Handler::Spurious
    } else {
        Handler::Default
    }
}

/// The interrupt descriptor table, as the routine of each of its 256
/// vectors. The caller makes the table from it and keeps it where it
/// can be loaded from.
pub fn initialize_idt(single_execution: &SingleExecution) -> (result: Vec<Handler>)
    ensures
        result@.len() == VECTORS,
        forall|vector: u8| (#[trigger] result@[vector as int]) == handler_of(vector),
{
    let mut table: Vec<Handler> = Vec::new();
    let mut vector: usize = 0;
    while vector < VECTORS
        invariant
            vector <= VECTORS,
            table@.len() == vector,
            forall|v: u8| v < vector ==> (#[trigger] table@[v as int]) == handler_of(v),
        decreases VECTORS - vector,
    {
        table.push(handler_for(vector as u8));
        vector += 1;
    }
    table
}

/// A segment of the flat memory model.
#[derive(Clone, Copy, PartialEq, Eq, Structural, Debug)]
pub enum Segment {
    /// The descriptor of all zeros, which names no segment.
    Null,
    KernelCode,
    KernelData,
    UserCode,
    UserData,
}

/// The descriptor of a segment: present, of the segment's privilege
/// level, a 64-bit code segment that can be read or a data segment that
/// can be written, with base and limit left at zero.
pub open spec fn segment_descriptor(segment: Segment) -> u64 {
    match segment {
        Segment::Null => 0,
        Segment::KernelCode => 0x0020_9a00_0000_0000,
        Segment::KernelData => 0x0080_9200_0000_0000,
        Segment::UserCode => 0x0020_fa00_0000_0000,
        Segment::UserData => 0x0080_f200_0000_0000,
    }
}

/// The six descriptors of the global descriptor table, in their order.
pub open spec fn gdt_layout() -> Seq<Segment> {
    seq![
        Segment::Null,
        Segment::Null,
        Segment::KernelCode,
        Segment::KernelData,
        Segment::UserCode,
        Segment::UserData,
    ]
}

/// What the descriptors of code and data segments have in their bits:
/// the present bit 47, the privilege level in bits 45 and 46, bit 43 for
/// code, and for code the 64-bit flag in bit 53.
pub proof fn lemma_segment_descriptors()
    ensures
        forall|segment: Segment|
            segment !is Null ==> (#[trigger] segment_descriptor(segment) >> 47) & 0x1 == 1,
        (segment_descriptor(Segment::KernelCode) >> 45) & 0x3 == 0,
        (segment_descriptor(Segment::KernelData) >> 45) & 0x3 == 0,
        (segment_descriptor(Segment::UserCode) >> 45) & 0x3 == 3,
        (segment_descriptor(Segment::UserData) >> 45) & 0x3 == 3,
        (segment_descriptor(Segment::KernelCode) >> 43) & 0x1 == 1,
        (segment_descriptor(Segment::UserCode) >> 43) & 0x1 == 1,
        (segment_descriptor(Segment::KernelData) >> 43) & 0x1 == 0,
        (segment_descriptor(Segment::UserData) >> 43) & 0x1 == 0,
        (segment_descriptor(Segment::KernelCode) >> 53) & 0x1 == 1,
        (segment_descriptor(Segment::UserCode) >> 53) & 0x1 == 1,
{
    assert((0x0020_9a00_0000_0000u64 >> 47) & 0x1 == 1 && (0x0080_9200_0000_0000u64 >> 47) & 0x1
        == 1 && (0x0020_fa00_0000_0000u64 >> 47) & 0x1 == 1 && (0x0080_f200_0000_0000u64 >> 47)
        & 0x1 == 1 && (0x0020_9a00_0000_0000u64 >> 45) & 0x3 == 0 && (0x0080_9200_0000_0000u64
        >> 45) & 0x3 == 0 && (0x0020_fa00_0000_0000u64 >> 45) & 0x3 == 3 && (
    0x0080_f200_0000_0000u64 >> 45) & 0x3 == 3 && (0x0020_9a00_0000_0000u64 >> 43) & 0x1 == 1 && (
    0x0020_fa00_0000_0000u64 >> 43) & 0x1 == 1 && (0x0080_9200_0000_0000u64 >> 43) & 0x1 == 0 && (
    0x0080_f200_0000_0000u64 >> 43) & 0x1 == 0 && (0x0020_9a00_0000_0000u64 >> 53) & 0x1 == 1 && (
    0x0020_fa00_0000_0000u64 >> 53) & 0x1 == 1) by (bit_vector);
}

/// The descriptor of `segment`.
pub fn descriptor_for(segment: Segment) -> (result: u64)
    ensures
        result == segment_descriptor(segment),
{
    match segment {
        Segment::Null => 0,
        Segment::KernelCode => 0x0020_9a00_0000_0000,
        Segment::KernelData => 0x0080_9200_0000_0000,
        Segment::UserCode => 0x0020_fa00_0000_0000,
        Segment::UserData => 0x0080_f200_0000_0000,
    }
}

/// The global descriptor table: two null descriptors, then kernel code,
/// kernel data, user code and user data. With it the selector of the
/// kernel's code is 0x10.
pub fn gdt_descriptors() -> (result: Vec<u64>)
    ensures
        result@.len() == 6,
        forall|i: int| 0 <= i < 6 ==> (#[trigger] result@[i]) == segment_descriptor(gdt_layout()[i]),
{
    let mut table: Vec<u64> = Vec::new();
    table.push(descriptor_for(Segment::Null));
    table.push(descriptor_for(Segment::Null));
    table.push(descriptor_for(Segment::KernelCode));
    table.push(descriptor_for(Segment::KernelData));
    table.push(descriptor_for(Segment::UserCode));
    table.push(descriptor_for(Segment::UserData));
    table
}

/// The selector of the kernel's code segment: the third descriptor of
/// the global descriptor table.
pub const KERNEL_CODE_SELECTOR: u16 = 0x10;

/// The global descriptor table and where it goes.
pub struct GlobalDescriptorTable {
    /// The frame that the table is put in.
    pub frame: Frame,
    /// The descriptors of the table.
    pub descriptors: Vec<u64>,
    /// The limit that goes with the table's address into the
    /// processor's register: the bytes of the table, less one.
    pub limit: u16,
    /// The selector of the code segment to go on in once the table is
    /// loaded.
    pub code_selector: u16,
}

/// The limit of the pointer that
/// `x86::dtables::DescriptorTablePointer::new_from_slice` makes for a
/// table of the descriptors `descriptors`. That function takes the length
/// of the slice times the size of an element, here 8 bytes, less one,
/// and stops the program unless this is below 0x10000; the contract
/// leaves out the tables for which it stops, and claims that number.
#[verifier::external_body]
fn descriptor_table_limit(descriptors: &[u64]) -> (limit: u16)
    requires
        0 < descriptors@.len() * 8 <= 0x1_0000,
    ensures
        limit == descriptors@.len() * 8 - 1,
{
    x86::dtables::DescriptorTablePointer::new_from_slice(descriptors).limit
}

/// Prepares the global descriptor table: takes a frame for it and makes
/// its descriptors. The caller writes them to the frame, loads the
/// table, goes over to the code segment, and clears the data segment
/// registers.
pub fn install_gdt(frame_allocator: &mut FrameAllocator) -> (result: GlobalDescriptorTable)
    requires
        old(frame_allocator).cursor() < usize::MAX,
    ensures
        result.frame.number() == old(frame_allocator).cursor(),
        final(frame_allocator).cursor() == old(frame_allocator).cursor() + 1,
        result.code_selector == KERNEL_CODE_SELECTOR,
        result.limit == 47,
        result.descriptors@.len() == 6,
        forall|i: int|
            0 <= i < 6 ==> (#[trigger] result.descriptors@[i]) == segment_descriptor(
                gdt_layout()[i],
            ),
        gdt_layout()[KERNEL_CODE_SELECTOR as int / 8] == Segment::KernelCode,
{
    let frame = frame_allocator.get_frame();
    let descriptors = gdt_descriptors();
    let limit = descriptor_table_limit(descriptors.as_slice());
    GlobalDescriptorTable { frame, descriptors, limit, code_selector: KERNEL_CODE_SELECTOR }
}

/// What the processor that starts the machine leaves for the others and
/// sends them.
#[derive(Clone, Copy, PartialEq, Eq, Structural, Debug)]
pub struct StartupHandshake {
    /// The low 32 bits of the address of the page table's level 4 map,
    /// for the 4 bytes at `AP_PAGE_TABLE_SLOT`.
    pub page_table: u32,
    /// The address of the entry routine, for the 8 bytes at
    /// `AP_ENTRY_SLOT`.
    pub entry: u64,
    /// The write to the APIC that starts the other processors, to be
    /// carried out after the two words are in place.
    pub ipi: RegisterWrite,
}

/// Prepares the start of the other processors: the two words that they
/// read on their way up, and the start-up command.
pub fn start_processors(page_table: &PageTable, entry: u64, lapic: &mut LapicRegisters) -> (result:
    StartupHandshake)
    requires
        old(lapic)@.ptr + ICR_LOW_OFFSET <= usize::MAX,
    ensures
        result.page_table == page_table.root_address() as int % 0x1_0000_0000,
        result.entry == entry,
        result.ipi == (RegisterWrite {
            address: (old(lapic)@.ptr + ICR_LOW_OFFSET) as usize,
            value: startup_ipi_command(),
        }),
        final(lapic)@ == (LapicView { icr_low: startup_ipi_command(), ..old(lapic)@ }),
{
    let root = page_table.physical_address();
    let ipi = lapic.send_startup_ipi();
    StartupHandshake { page_table: root, entry, ipi }
}

/// Arms the timer of a processor: periodic, not masked, at the timer's
/// vector, and counting down from `count`. The results are the two
/// writes, in the order in which they are to be carried out.
pub fn arm_timer(lapic: &mut LapicRegisters, count: u32) -> (result: (RegisterWrite, RegisterWrite))
    requires
        old(lapic)@.ptr + TIMER_INITIAL_COUNT_OFFSET <= usize::MAX,
    ensures
        final(lapic)@ == (LapicView {
            lvt_timer: lvt_timer_entry(TimerMode::Periodic, false, TIMER_VECTOR),
            timer_initial_count: count,
            ..old(lapic)@
        }),
        result.0 == (RegisterWrite {
            address: (old(lapic)@.ptr + LVT_TIMER_OFFSET) as usize,
            value: lvt_timer_entry(TimerMode::Periodic, false, TIMER_VECTOR),
        }),
        result.1 == (RegisterWrite {
            address: (old(lapic)@.ptr + TIMER_INITIAL_COUNT_OFFSET) as usize,
            value: count,
        }),
{
    let entry = lapic.set_lvt_timer_register(TimerMode::Periodic, false, TIMER_VECTOR);
    let initial_count = lapic.set_timer_initial_count_register(count);
    (entry, initial_count)
}

/// Gives a processor its id: the number of processors that got one
/// before it. The caller puts the id in the processor's own register.
pub fn assign_processor_id(processor_counter: &mut usize) -> (result: ProcessorId)
    requires
        *old(processor_counter) < usize::MAX,
    ensures
        result.value() == *old(processor_counter),
        *final(processor_counter) == *old(processor_counter) + 1,
{
    let processor_id = *processor_counter;
    *processor_counter = processor_id + 1;
    ProcessorId::new(processor_id as u64)
}

/// Makes a thread in the page `page`: takes a frame, maps the page to
/// it, and sets up the control block and the stack as
/// `Thread::new_in_place_no_insert` does.
pub fn create_thread(
    page: Page,
    is_idle: bool,
    fn_ptr: u64,
    entry: u64,
    frame_allocator: &mut FrameAllocator,
    page_table: &mut PageTable,
) -> (result: Thread)
    requires
        old(page_table).wf(),
        !old(page_table).collides(page, PageSize::FourKb),
        old(frame_allocator).cursor() + 4 <= usize::MAX,
        page.number() * PAGE_BYTES + THREAD_BYTES <= u64::MAX,
    ensures
        result.wf(),
        result@ == new_thread((page.number() * PAGE_BYTES) as u64, is_idle, fn_ptr, entry),
        final(page_table).wf(),
        final(page_table).root_address() == old(page_table).root_address(),
        final(page_table).mapped(
            old(page_table),
            Frame { frame: old(frame_allocator).cursor() },
            page,
            PageSize::FourKb,
        ),
        final(frame_allocator).cursor() == old(frame_allocator).cursor() + 1 + old(
            page_table,
        ).tables_needed(page, PageSize::FourKb),
{
    let frame = frame_allocator.get_frame();
    page_table.insert_page(frame_allocator, frame, page, PageSize::FourKb);
    let number: usize = page.into();
    let address: u64 = (number as u64) * (PAGE_BYTES as u64);
    Thread::new_in_place_no_insert(address, is_idle, fn_ptr, entry)
}

/// Makes the idle thread of a processor in the page `page`, and enters
/// it in the processor's data. `fn_ptr` is the address of the idle loop,
/// `entry` that of the entry routine.
pub fn initialize_idle_thread(
    page: Page,
    single_execution: &SingleExecution,
    interrupt_guard: &InterruptGuard,
    fn_ptr: u64,
    entry: u64,
    frame_allocator: &mut FrameAllocator,
    page_table: &mut PageTable,
    per_cpu: &mut PerCpuData,
) -> (result: Thread)
    requires
        old(page_table).wf(),
        !old(page_table).collides(page, PageSize::FourKb),
        old(frame_allocator).cursor() + 4 <= usize::MAX,
        page.number() * PAGE_BYTES + THREAD_BYTES <= u64::MAX,
        old(per_cpu).idle_thread() is None,
    ensures
        result.wf(),
        result@ == new_thread((page.number() * PAGE_BYTES) as u64, true, fn_ptr, entry),
        final(per_cpu).idle_thread() == Some((page.number() * PAGE_BYTES) as u64),
        final(page_table).wf(),
        final(page_table).root_address() == old(page_table).root_address(),
        final(page_table).mapped(
            old(page_table),
            Frame { frame: old(frame_allocator).cursor() },
            page,
            PageSize::FourKb,
        ),
        final(frame_allocator).cursor() == old(frame_allocator).cursor() + 1 + old(
            page_table,
        ).tables_needed(page, PageSize::FourKb),
{
    let thread = create_thread(page, true, fn_ptr, entry, frame_allocator, page_table);
    per_cpu.set_idle_thread(single_execution, thread.address());
    thread
}

/// Makes the idle thread of the processor that starts the machine, in
/// its page, and enters it in the processor's data.
pub fn bsp_initialize_thread(
    single_execution: &SingleExecution,
    interrupt_guard: &InterruptGuard,
    fn_ptr: u64,
    entry: u64,
    frame_allocator: &mut FrameAllocator,
    page_table: &mut PageTable,
    per_cpu: &mut PerCpuData,
) -> (result: Thread)
    requires
        old(page_table).wf(),
        !old(page_table).collides(Page { page: BSP_IDLE_PAGE }, PageSize::FourKb),
        old(frame_allocator).cursor() + 4 <= usize::MAX,
        old(per_cpu).idle_thread() is None,
    ensures
        result.wf(),
        result@ == new_thread((BSP_IDLE_PAGE * PAGE_BYTES) as u64, true, fn_ptr, entry),
        final(per_cpu).idle_thread() == Some((BSP_IDLE_PAGE * PAGE_BYTES) as u64),
        final(page_table).wf(),
        final(page_table).root_address() == old(page_table).root_address(),
        final(page_table).mapped(
            old(page_table),
            Frame { frame: old(frame_allocator).cursor() },
            Page { page: BSP_IDLE_PAGE },
            PageSize::FourKb,
        ),
        final(frame_allocator).cursor() == old(frame_allocator).cursor() + 1 + old(
            page_table,
        ).tables_needed(Page { page: BSP_IDLE_PAGE }, PageSize::FourKb),
{
    initialize_idle_thread(
        Page::new(BSP_IDLE_PAGE),
        single_execution,
        interrupt_guard,
        fn_ptr,
        entry,
        frame_allocator,
        page_table,
        per_cpu,
    )
}

/// Makes the idle thread of the second processor, in its page, and
/// enters it in the processor's data.
pub fn ap_initialize_thread(
    single_execution: &SingleExecution,
    interrupt_guard: &InterruptGuard,
    fn_ptr: u64,
    entry: u64,
    frame_allocator: &mut FrameAllocator,
    page_table: &mut PageTable,
    per_cpu: &mut PerCpuData,
) -> (result: Thread)
    requires
        old(page_table).wf(),
        !old(page_table).collides(Page { page: AP_IDLE_PAGE }, PageSize::FourKb),
        old(frame_allocator).cursor() + 4 <= usize::MAX,
        old(per_cpu).idle_thread() is None,
    ensures
        result.wf(),
        result@ == new_thread((AP_IDLE_PAGE * PAGE_BYTES) as u64, true, fn_ptr, entry),
        final(per_cpu).idle_thread() == Some((AP_IDLE_PAGE * PAGE_BYTES) as u64),
        final(page_table).wf(),
        final(page_table).root_address() == old(page_table).root_address(),
        final(page_table).mapped(
            old(page_table),
            Frame { frame: old(frame_allocator).cursor() },
            Page { page: AP_IDLE_PAGE },
            PageSize::FourKb,
        ),
        final(frame_allocator).cursor() == old(frame_allocator).cursor() + 1 + old(
            page_table,
        ).tables_needed(Page { page: AP_IDLE_PAGE }, PageSize::FourKb),
{
    initialize_idle_thread(
        Page::new(AP_IDLE_PAGE),
        single_execution,
        interrupt_guard,
        fn_ptr,
        entry,
        frame_allocator,
        page_table,
        per_cpu,
    )
}

/// The threads that do the work of the machine.
pub struct InitialThreads {
    /// The thread that the processor that starts the machine runs first.
    /// It is not in the ready queue.
    pub first: Thread,
    /// The two threads that wait in the ready queue.
    pub second: Thread,
    pub third: Thread,
}

/// Whether `address` lies in the page numbered `page`.
pub open spec fn in_page(address: u64, page: usize) -> bool {
    address / 0x1000 == page
}

/// Whether `address` lies in the page of one of the three threads that
/// do the work.
pub open spec fn in_initial_thread_page(address: u64) -> bool {
    in_page(address, FIRST_THREAD_PAGE) || in_page(address, SECOND_THREAD_PAGE) || in_page(
        address,
        THIRD_THREAD_PAGE,
    )
}

/// Whether the page of `size` that holds page number `page` has memory
/// in common with the page of one of the three threads that do the
/// work.
pub open spec fn shares_initial_thread_page(page: int, size: PageSize) -> bool {
    share_memory(FIRST_THREAD_PAGE as int, PageSize::FourKb, page, size) || share_memory(
        SECOND_THREAD_PAGE as int,
        PageSize::FourKb,
        page,
        size,
    ) || share_memory(THIRD_THREAD_PAGE as int, PageSize::FourKb, page, size)
}

/// Makes the three threads that do the work, each in its page and each
/// page mapped to a new frame: the thread that runs first, and two more,
/// which join the ready queue. `bodies` are the addresses of the
/// threads' bodies, `entry` is that of the entry routine.
pub fn create_threads(
    bodies: [u64; 3],
    entry: u64,
    frame_allocator: &mut FrameAllocator,
    page_table: &mut PageTable,
    queue: &mut ReadyQueue,
) -> (result: InitialThreads)
    requires
        old(page_table).wf(),
        !old(page_table).collides(Page { page: FIRST_THREAD_PAGE }, PageSize::FourKb),
        !old(page_table).collides(Page { page: SECOND_THREAD_PAGE }, PageSize::FourKb),
        !old(page_table).collides(Page { page: THIRD_THREAD_PAGE }, PageSize::FourKb),
        old(frame_allocator).cursor() + 12 <= 0x100_0000_0000,
        old(frame_allocator).cursor() + 12 <= usize::MAX,
        old(queue).wf(),
        old(queue)@.len() + 2 <= READY_QUEUE_CAPACITY,
    ensures
        result.first.wf() && result.second.wf() && result.third.wf(),
        result.first@ == new_thread(
            (FIRST_THREAD_PAGE * PAGE_BYTES) as u64,
            false,
            bodies[0],
            entry,
        ),
        result.second@ == new_thread(
            (SECOND_THREAD_PAGE * PAGE_BYTES) as u64,
            false,
            bodies[1],
            entry,
        ),
        result.third@ == new_thread(
            (THIRD_THREAD_PAGE * PAGE_BYTES) as u64,
            false,
            bodies[2],
            entry,
        ),
        final(queue).wf(),
        final(queue)@ == old(queue)@.push((SECOND_THREAD_PAGE * PAGE_BYTES) as u64).push(
            (THIRD_THREAD_PAGE * PAGE_BYTES) as u64,
        ),
        final(page_table).wf(),
        final(page_table).root_address() == old(page_table).root_address(),
        old(frame_allocator).cursor() + 3 <= final(frame_allocator).cursor() <= old(
            frame_allocator,
        ).cursor() + 12,
        forall|address: u64|
            address < 0x1_0000_0000_0000 && !in_initial_thread_page(address) ==> #[trigger] final(page_table).translate(address) == old(page_table).translate(address),
        forall|address: u64|
            address < 0x1_0000_0000_0000 && in_initial_thread_page(address) ==> {
                &&& (#[trigger] final(page_table).translate(address)) matches Some(target)
                &&& target % 0x1000 == address % 0x1000
                &&& old(frame_allocator).cursor() <= target / 0x1000 < final(frame_allocator).cursor()
            },
        forall|other: Page, size: PageSize|
            other.number() < 0x10_0000_0000 ==> #[trigger] final(page_table).collides(other, size)
                == (old(page_table).collides(other, size) || shares_initial_thread_page(
                other.number() as int,
                size,
            )),
{
    let ghost table0 = *page_table;
    let ghost cursor0 = frame_allocator.cursor();
    let first_page = Page::new(FIRST_THREAD_PAGE);
    let second_page = Page::new(SECOND_THREAD_PAGE);
    let third_page = Page::new(THIRD_THREAD_PAGE);
    proof {
        lemma_overlaps(
            FIRST_THREAD_PAGE as u64,
            PageSize::FourKb,
            SECOND_THREAD_PAGE as u64,
            PageSize::FourKb,
        );
        lemma_overlaps(
            FIRST_THREAD_PAGE as u64,
            PageSize::FourKb,
            THIRD_THREAD_PAGE as u64,
            PageSize::FourKb,
        );
        lemma_overlaps(
            SECOND_THREAD_PAGE as u64,
            PageSize::FourKb,
            THIRD_THREAD_PAGE as u64,
            PageSize::FourKb,
        );
    }

    let first = create_thread(first_page, false, bodies[0], entry, frame_allocator, page_table);
    let ghost table1 = *page_table;
    let ghost cursor1 = frame_allocator.cursor();

    let second = create_thread(second_page, false, bodies[1], entry, frame_allocator, page_table);
    let _ = queue.enqueue(second.address());
    let ghost table2 = *page_table;
    let ghost cursor2 = frame_allocator.cursor();

    let third = create_thread(third_page, false, bodies[2], entry, frame_allocator, page_table);
    let _ = queue.enqueue(third.address());

    proof {
        let table3 = *page_table;
        assert forall|address: u64| address < 0x1_0000_0000_0000 implies {
            &&& !in_initial_thread_page(address) ==> #[trigger] table3.translate(address)
                == table0.translate(address)
            &&& in_initial_thread_page(address) ==> {
                &&& table3.translate(address) matches Some(target)
                &&& target % 0x1000 == address % 0x1000
                &&& cursor0 <= target / 0x1000 < frame_allocator.cursor()
            }
        } by {
            lemma_covers(FIRST_THREAD_PAGE as u64, PageSize::FourKb, address);
            lemma_covers(SECOND_THREAD_PAGE as u64, PageSize::FourKb, address);
            lemma_covers(THIRD_THREAD_PAGE as u64, PageSize::FourKb, address);
            lemma_leaf_target(cursor0 as u64, PageSize::FourKb, address);
            lemma_leaf_target(cursor1 as u64, PageSize::FourKb, address);
            lemma_leaf_target(cursor2 as u64, PageSize::FourKb, address);
        }
        assert forall|other: Page, size: PageSize|
            other.number() < 0x10_0000_0000 implies #[trigger] table3.collides(other, size) == (
        table0.collides(other, size) || shares_initial_thread_page(other.number() as int, size)) by {
            lemma_overlaps(FIRST_THREAD_PAGE as u64, PageSize::FourKb, other.number() as u64, size);
            lemma_overlaps(SECOND_THREAD_PAGE as u64, PageSize::FourKb, other.number() as u64, size);
            lemma_overlaps(THIRD_THREAD_PAGE as u64, PageSize::FourKb, other.number() as u64, size);
        }
    }
    InitialThreads { first, second, third }
}

/// Which of the machine's processors is coming up.
#[derive(Clone, Copy, PartialEq, Eq, Structural, Debug)]
pub enum Processor {
    /// The processor that the firmware started.
    Bootstrap,
    /// A processor that the bootstrap processor started.
    Application,
}

/// The steps by which a processor comes up.
#[derive(Clone, Copy, PartialEq, Eq, Structural, Debug)]
pub enum BootStep {
    /// Put the global descriptor table in a new frame and load it.
    InstallGdt,
    /// Make the interrupt descriptor table and keep it.
    BuildIdt,
    /// Load the interrupt descriptor table.
    LoadIdt,
    /// Find the local APIC and map its window.
    MapApic,
    /// Leave the two words for the other processors and start them.
    StartProcessors,
    /// Arm the timer.
    ArmTimer,
    /// Take a processor id.
    AssignProcessorId,
    /// Make the processor's idle thread.
    CreateIdleThread,
    /// Make the threads that do the work.
    CreateThreads,
    /// Leave the set-up and run the first thread.
    StartFirstThread,
}

/// The steps of `processor`, in their order. A processor that was
/// started by another finds the tables made and the APIC mapped; it
/// loads the interrupt descriptor table, arms its timer, takes its id,
/// makes its idle thread and runs it.
pub open spec fn boot_sequence(processor: Processor) -> Seq<BootStep> {
    match processor {
        Processor::Bootstrap => seq![
            BootStep::InstallGdt,
            BootStep::BuildIdt,
            BootStep::LoadIdt,
            BootStep::MapApic,
            BootStep::StartProcessors,
            BootStep::ArmTimer,
            BootStep::AssignProcessorId,
            BootStep::CreateIdleThread,
            BootStep::CreateThreads,
            BootStep::StartFirstThread,
        ],
        Processor::Application => seq![
            BootStep::LoadIdt,
            BootStep::ArmTimer,
            BootStep::AssignProcessorId,
            BootStep::CreateIdleThread,
            BootStep::StartFirstThread,
        ],
    }
}

/// The step with which `processor` begins.
pub fn first_step(processor: Processor) -> (result: BootStep)
    ensures
        result == boot_sequence(processor)[0],
{
    match processor {
        Processor::Bootstrap => BootStep::InstallGdt,
        Processor::Application => BootStep::LoadIdt,
    }
}

/// The step that follows `step` for `processor`, or nothing after the
/// last step and for a step that is none of the processor's.
pub fn next_step(processor: Processor, step: BootStep) -> (result: Option<BootStep>)
    ensures
        match result {
            Some(next) => exists|i: int|
                0 <= i < boot_sequence(processor).len() - 1 && boot_sequence(processor)[i] == step
                    && #[trigger] boot_sequence(processor)[i + 1] == next,
            None => forall|i: int|
                0 <= i < boot_sequence(processor).len() - 1 ==> #[trigger] boot_sequence(
                    processor,
                )[i] != step,
        },
{
    match (processor, step) {
        (Processor::Bootstrap, BootStep::InstallGdt) => {
            assert(boot_sequence(processor)[0int + 1] == BootStep::BuildIdt);
            Some(BootStep::BuildIdt)
        },
        (Processor::Bootstrap, BootStep::BuildIdt) => {
            assert(boot_sequence(processor)[1int + 1] == BootStep::LoadIdt);
            Some(BootStep::LoadIdt)
        },
        (Processor::Bootstrap, BootStep::LoadIdt) => {
            assert(boot_sequence(processor)[2int + 1] == BootStep::MapApic);
            Some(BootStep::MapApic)
        },
        (Processor::Bootstrap, BootStep::MapApic) => {
            assert(boot_sequence(processor)[3int + 1] == BootStep::StartProcessors);
            Some(BootStep::StartProcessors)
        },
        (Processor::Bootstrap, BootStep::StartProcessors) => {
            assert(boot_sequence(processor)[4int + 1] == BootStep::ArmTimer);
            Some(BootStep::ArmTimer)
        },
        (Processor::Bootstrap, BootStep::ArmTimer) => {
            assert(boot_sequence(processor)[5int + 1] == BootStep::AssignProcessorId);
            Some(BootStep::AssignProcessorId)
        },
        (Processor::Bootstrap, BootStep::AssignProcessorId) => {
            assert(boot_sequence(processor)[6int + 1] == BootStep::CreateIdleThread);
            Some(BootStep::CreateIdleThread)
        },
        (Processor::Bootstrap, BootStep::CreateIdleThread) => {
            assert(boot_sequence(processor)[7int + 1] == BootStep::CreateThreads);
            Some(BootStep::CreateThreads)
        },
        (Processor::Bootstrap, BootStep::CreateThreads) => {
            assert(boot_sequence(processor)[8int + 1] == BootStep::StartFirstThread);
            Some(BootStep::StartFirstThread)
        },
        (Processor::Application, BootStep::LoadIdt) => {
            assert(boot_sequence(processor)[0int + 1] == BootStep::ArmTimer);
            Some(BootStep::ArmTimer)
        },
        (Processor::Application, BootStep::ArmTimer) => {
            assert(boot_sequence(processor)[1int + 1] == BootStep::AssignProcessorId);
            Some(BootStep::AssignProcessorId)
        },
        (Processor::Application, BootStep::AssignProcessorId) => {
            assert(boot_sequence(processor)[2int + 1] == BootStep::CreateIdleThread);
            Some(BootStep::CreateIdleThread)
        },
        (Processor::Application, BootStep::CreateIdleThread) => {
            assert(boot_sequence(processor)[3int + 1] == BootStep::StartFirstThread);
            Some(BootStep::StartFirstThread)
        },
        _ => None,
    }
}

/// A processor that was started by another never starts processors
/// itself.
pub proof fn lemma_application_processor_starts_none()
    ensures
        !boot_sequence(Processor::Application).contains(BootStep::StartProcessors),
{
}

/// What the timer's interrupt routine has the caller do.
#[derive(Clone, Copy, PartialEq, Eq, Structural, Debug)]
pub struct TimerOutcome {
    /// The write that tells the APIC that the tick is dealt with. It is
    /// carried out first.
    pub eoi: RegisterWrite,
    /// What the scheduler decided, if the thread's time was up.
    pub dispatch: Option<Dispatch>,
}

/// Whether a tick that interrupted a stack pointer of `stack_pointer`,
/// in a thread with `ticks` ticks left, ends the thread's turn: the
/// stack is a thread's and the tick was the thread's last.
pub open spec fn should_schedule(stack_pointer: u64, ticks: u64) -> bool {
    stack_pointer > PREEMPTION_FLOOR && ticks == 1
}

/// The timer interrupt on a processor that runs `thread` and was
/// interrupted at `stack_pointer`. Above the floor the tick is counted
/// against the thread, and if none is left the scheduler is asked, with
/// the thread to be ready. Either way the APIC is told that the tick is
/// dealt with.
pub fn timer_handler(
    thread: &mut Thread,
    stack_pointer: u64,
    interrupt_guard: &InterruptGuard,
    lapic: &mut LapicRegisters,
    queue: &mut ReadyQueue,
    per_cpu: &PerCpuData,
) -> (result: TimerOutcome)
    requires
        old(thread).wf(),
        old(queue).wf(),
        old(lapic)@.ptr + EOI_OFFSET <= usize::MAX,
        stack_pointer > PREEMPTION_FLOOR ==> old(thread)@.ticks > 0,
        should_schedule(stack_pointer, old(thread)@.ticks) ==> {
            &&& old(thread)@.status != Status::Ready
            &&& old(queue)@.len() == 0 && old(thread)@.status != Status::Running
                ==> per_cpu.idle_thread() is Some
        },
    ensures
        final(thread).wf(),
        final(queue).wf(),
        final(lapic)@ == old(lapic)@,
        result.eoi == (RegisterWrite { address: (old(lapic)@.ptr + EOI_OFFSET) as usize, value: 0 }),
        result.dispatch is Some <==> should_schedule(stack_pointer, old(thread)@.ticks),
        stack_pointer <= PREEMPTION_FLOOR ==> final(thread)@ == old(thread)@ && final(queue)@
            == old(queue)@,
        stack_pointer > PREEMPTION_FLOOR && old(thread)@.ticks != 1 ==> final(thread)@ == old(
            thread,
        )@.ticked() && final(queue)@ == old(queue)@,
        should_schedule(stack_pointer, old(thread)@.ticks) ==> {
            let next = Thread::next_thread(
                old(thread)@.base,
                old(thread)@.status,
                old(queue)@,
                per_cpu.idle_thread(),
            );
            &&& final(queue)@ == if old(queue)@.len() > 0 {
                old(queue)@.drop_first()
            } else {
                old(queue)@
            }
            &&& if next == old(thread)@.base {
                &&& result.dispatch == Some(Dispatch::Continue)
                &&& final(thread)@ == (ThreadView {
                    ticks: MAX_TICKS,
                    status: Status::Running,
                    ..old(thread)@
                })
            } else {
                &&& result.dispatch == Some(Dispatch::SwitchTo(next))
                &&& final(thread)@ == old(thread)@.ticked()
            }
        },
{
    let should_schedule = stack_pointer > PREEMPTION_FLOOR && thread.tick() == 0;
    let eoi = lapic.eoi();
    let dispatch = if should_schedule {
        Some(thread.schedule(interrupt_guard, Status::Ready, queue, per_cpu))
    } else {
        None
    };
    TimerOutcome { eoi, dispatch }
}

/// A timer tick asks for the scheduler exactly when it interrupted a
/// thread's stack and `tick` returned zero; and of a full allowance,
/// that is the fifth tick.
pub proof fn lemma_preemption_at_zero(view: ThreadView, stack_pointer: u64, n: nat)
    requires
        view.ticks == MAX_TICKS,
        1 <= n <= MAX_TICKS,
        stack_pointer > PREEMPTION_FLOOR,
    ensures
        view.ticked_times(n).ticks == MAX_TICKS - n,
        should_schedule(stack_pointer, view.ticked_times((n - 1) as nat).ticks) <==> view.ticked_times(
            n,
        ).ticks == 0,
        should_schedule(stack_pointer, view.ticked_times((n - 1) as nat).ticks) <==> n == MAX_TICKS,
{
    crate::threads::lemma_ticks_count_down(view, n);
    crate::threads::lemma_ticks_count_down(view, (n - 1) as nat);
}

} // verus!
