use ferros::apic::{LapicRegisters, RegisterWrite, TimerMode};
use ferros::asm_routines::{
    apic_base_fits, cpuid_lapic_enabled, cpuid_lapic_present, cpuid_x2apic_enabled,
};
use ferros::frame_allocator::FrameAllocator;
use ferros::initialize_once::InitializeOnce;
use ferros::interrupts::{InterruptGuard, InterruptState, SingleExecution};
use ferros::kernel::{
    ap_initialize_thread, arm_timer, assign_processor_id, bsp_initialize_thread, create_thread,
    create_threads, descriptor_for, initialize_idle_thread, install_gdt,
    first_step, gdt_descriptors, handler_for, initialize_idt, next_step, start_processors,
    timer_handler, BootStep, Handler, Processor, Segment,
};
use ferros::mem::{Frame, Page};
use ferros::page_table::{PageSize, PageTable};
use ferros::palloc::{get_contiguous_array, PageAllocator, PallocArray};
use ferros::per_cpu::{initialize_per_cpu, retrieve_per_cpu, GlobalPerCpu, PerCpuData, ProcessorId};
use ferros::pit::{pit_configure_channel, PortWrite};
use ferros::threads::{Dispatch, ReadyQueue, Status, Thread};

const LAPIC: usize = 0xfee0_0000;

fn guard() -> InterruptGuard {
    InterruptGuard::new(InterruptState::Disabled)
}

#[test]
fn lvt_timer_round_trip() {
    let mut lapic = LapicRegisters::new(LAPIC);
    let write = lapic.set_lvt_timer_register(TimerMode::Periodic, false, 0x20);
    let value = lapic.get_lvt_timer_register();
    assert_eq!(value & 0xff, 0x20);
    assert_eq!((value >> 16) & 1, 0);
    assert_eq!((value >> 17) & 3, 0b01);
    assert_eq!(value, 0x0002_0020);
    assert_eq!(write, RegisterWrite { address: LAPIC + 0x320, value: 0x0002_0020 });
}

#[test]
fn lvt_timer_entry_holds_mode_mask_and_vector() {
    let mut lapic = LapicRegisters::new(LAPIC);
    lapic.set_lvt_timer_register(TimerMode::OneShot, true, 0xff);
    assert_eq!(lapic.get_lvt_timer_register(), 0x0001_00ff);
    lapic.set_lvt_timer_register(TimerMode::TSCDecline, false, 32);
    assert_eq!(lapic.get_lvt_timer_register(), 0x0004_0020);
    lapic.set_lvt_timer_register(TimerMode::TSCDecline, true, 0x80);
    assert_eq!(lapic.get_lvt_timer_register(), 0x0005_0080);
}

#[test]
fn apic_registers_take_their_writes() {
    let mut lapic = LapicRegisters::new(LAPIC);
    assert_eq!(lapic.ptr(), LAPIC);
    assert_eq!(lapic.get_timer_initial_count_register(), 0);
    let write = lapic.set_timer_initial_count_register(8000000);
    assert_eq!(write, RegisterWrite { address: LAPIC + 0x380, value: 8000000 });
    assert_eq!(lapic.get_timer_initial_count_register(), 8000000);
    assert_eq!(lapic.eoi(), RegisterWrite { address: LAPIC + 0xb0, value: 0 });
    assert_eq!(
        lapic.send_startup_ipi(),
        RegisterWrite { address: LAPIC + 0x300, value: 0x000c_4602 }
    );
    assert_eq!(lapic.get_apic_id_register(), 0);
    lapic.set_apic_id_register(0x0100_0000);
    assert_eq!(lapic.get_apic_id_register(), 0x0100_0000);
    assert_eq!(lapic.get_timer_initial_count_register(), 8000000);
}

#[test]
fn startup_command_has_its_fields() {
    let mut lapic = LapicRegisters::new(LAPIC);
    let value = lapic.send_startup_ipi().value;
    assert_eq!(value & 0xff, 0x02);
    assert_eq!((value >> 8) & 0x7, 0b110);
    assert_eq!((value >> 14) & 0x1, 1);
    assert_eq!((value >> 18) & 0x3, 0b11);
}

#[test]
fn apic_window_is_mapped_onto_itself() {
    let lapic = LapicRegisters::new(LAPIC);
    let mut table = PageTable::new(Frame::new(1));
    let mut allocator = FrameAllocator::new();
    lapic.page_in(&mut table, &mut allocator);
    assert_eq!(table.walk(0xfee0_0000), Some(0xfee0_0000));
    assert_eq!(table.walk(0xfee0_0320), Some(0xfee0_0320));
    assert_eq!(table.walk(0xfee0_1000), None);
}

#[test]
fn cpu_features_are_read_off_their_bits() {
    assert!(cpuid_lapic_present(1 << 9));
    assert!(!cpuid_lapic_present(!(1 << 9)));
    assert!(cpuid_x2apic_enabled(1 << 21));
    assert!(!cpuid_x2apic_enabled(!(1 << 21)));
}

#[test]
fn apic_base_register_is_taken_apart() {
    assert!(apic_base_fits(0, 0xfee0_0900));
    let (lapic, bootstrap, enabled, extended) = cpuid_lapic_enabled(0, 0xfee0_0900);
    assert_eq!(lapic.ptr(), 0xfee0_0000);
    assert!(bootstrap);
    assert!(enabled);
    assert!(!extended);
    let (lapic, bootstrap, enabled, extended) = cpuid_lapic_enabled(0xffff_fff3, 0x1234_5400);
    assert_eq!(lapic.ptr(), 0x3_1234_5000);
    assert!(!bootstrap);
    assert!(!enabled);
    assert!(extended);
}

#[test]
fn vectors_lead_to_their_handlers() {
    assert_eq!(handler_for(0), Handler::Exception { vector: 0, error_code: false });
    assert_eq!(handler_for(8), Handler::Exception { vector: 8, error_code: true });
    assert_eq!(handler_for(9), Handler::Exception { vector: 9, error_code: false });
    for vector in 10..=14 {
        assert_eq!(handler_for(vector), Handler::Exception { vector, error_code: true });
    }
    assert_eq!(handler_for(17), Handler::Exception { vector: 17, error_code: true });
    assert_eq!(handler_for(20), Handler::Exception { vector: 20, error_code: false });
    assert_eq!(handler_for(21), Handler::Default);
    assert_eq!(handler_for(0x1f), Handler::Default);
    assert_eq!(handler_for(0x20), Handler::Timer);
    assert_eq!(handler_for(0x21), Handler::Default);
    assert_eq!(handler_for(0xdf), Handler::Spurious);
    assert_eq!(handler_for(0xff), Handler::Default);
}

#[test]
fn interrupt_table_has_a_handler_for_each_vector() {
    let table = initialize_idt(&SingleExecution::new());
    assert_eq!(table.len(), 256);
    for vector in 0..=255u8 {
        assert_eq!(table[vector as usize], handler_for(vector));
    }
    assert_eq!(table.iter().filter(|handler| matches!(handler, Handler::Exception { .. })).count(), 21);
    assert_eq!(table.iter().filter(|handler| **handler == Handler::Timer).count(), 1);
    assert_eq!(table.iter().filter(|handler| **handler == Handler::Spurious).count(), 1);
}

#[test]
fn descriptor_table_has_its_six_segments() {
    assert_eq!(
        gdt_descriptors(),
        vec![
            0,
            0,
            0x0020_9a00_0000_0000,
            0x0080_9200_0000_0000,
            0x0020_fa00_0000_0000,
            0x0080_f200_0000_0000,
        ]
    );
    assert_eq!(descriptor_for(Segment::Null), 0);
    assert_eq!(descriptor_for(Segment::KernelCode), 0x0020_9a00_0000_0000);
    assert_eq!(descriptor_for(Segment::UserData), 0x0080_f200_0000_0000);
}

#[test]
fn other_processors_are_started_with_the_table_and_the_entry() {
    let table = PageTable::new(Frame::new(0x1234));
    let mut lapic = LapicRegisters::new(LAPIC);
    let handshake = start_processors(&table, 0xffff_8000_0012_3456, &mut lapic);
    assert_eq!(handshake.page_table, 0x123_4000);
    assert_eq!(handshake.entry, 0xffff_8000_0012_3456);
    assert_eq!(handshake.ipi, RegisterWrite { address: LAPIC + 0x300, value: 0x000c_4602 });
    assert_eq!(handshake.ipi.value & 0xff, 0x02);
}

#[test]
fn timer_is_armed_periodic_at_vector_0x20() {
    let mut lapic = LapicRegisters::new(LAPIC);
    let (entry, count) = arm_timer(&mut lapic, 80000000);
    assert_eq!(entry, RegisterWrite { address: LAPIC + 0x320, value: 0x0002_0020 });
    assert_eq!(count, RegisterWrite { address: LAPIC + 0x380, value: 80000000 });
    assert_eq!(lapic.get_lvt_timer_register(), 0x0002_0020);
    assert_eq!(lapic.get_timer_initial_count_register(), 80000000);
}

#[test]
fn processors_get_their_ids_in_turn() {
    let mut counter = 0usize;
    assert_eq!(assign_processor_id(&mut counter), ProcessorId::new(0));
    assert_eq!(assign_processor_id(&mut counter), ProcessorId::new(1));
    assert_eq!(counter, 2);
    assert_eq!(ProcessorId::new(7).id(), 7);
}

#[test]
fn boot_steps_follow_each_other() {
    let mut steps = vec![first_step(Processor::Bootstrap)];
    while let Some(step) = next_step(Processor::Bootstrap, *steps.last().unwrap()) {
        steps.push(step);
    }
    assert_eq!(
        steps,
        vec![
            BootStep::InstallGdt,
            BootStep::BuildIdt,
            BootStep::LoadIdt,
            BootStep::MapApic,
            BootStep::StartProcessors,
            BootStep::ArmTimer,
            BootStep::AssignProcessorId,
            BootStep::CreateIdleThread,
            BootStep::CreateThreads,
            BootStep::StartFirstThread,
        ]
    );
    let mut steps = vec![first_step(Processor::Application)];
    while let Some(step) = next_step(Processor::Application, *steps.last().unwrap()) {
        steps.push(step);
    }
    assert_eq!(
        steps,
        vec![
            BootStep::LoadIdt,
            BootStep::ArmTimer,
            BootStep::AssignProcessorId,
            BootStep::CreateIdleThread,
            BootStep::StartFirstThread,
        ]
    );
    assert!(!steps.contains(&BootStep::StartProcessors));
    assert_eq!(next_step(Processor::Application, BootStep::StartProcessors), None);
    assert_eq!(next_step(Processor::Application, BootStep::InstallGdt), None);
}

#[test]
fn thread_is_made_in_a_mapped_page() {
    let mut table = PageTable::new(Frame::new(1));
    let mut allocator = FrameAllocator::new();
    let thread = create_thread(Page::new(0x800_0100), false, 0x1111, 0x2222, &mut allocator, &mut table);
    assert_eq!(thread.address(), 0x80_0010_0000);
    assert_eq!(thread.stack(), 0x80_0010_0ff0);
    assert_eq!(thread.word(0xfd8), 0x1111);
    assert_eq!(thread.word(0xff0), 0x2222);
    assert_eq!(table.walk(0x80_0010_0ff0), Some(0x5ff0));
    assert_eq!(allocator.get_frame(), Frame::new(9));
}

#[test]
fn second_processor_gets_its_idle_thread() {
    let mut table = PageTable::new(Frame::new(1));
    let mut allocator = FrameAllocator::new();
    let mut per_cpu = PerCpuData::new();
    assert!(!per_cpu.has_idle_thread());
    let thread = ap_initialize_thread(
        &SingleExecution::new(),
        &guard(),
        0x1111,
        0x2222,
        &mut allocator,
        &mut table,
        &mut per_cpu,
    );
    assert!(thread.is_idle());
    assert_eq!(thread.address(), 0x80_0020_0000);
    assert!(per_cpu.has_idle_thread());
    assert_eq!(*per_cpu.get_idle_thread(), 0x80_0020_0000);
    assert_eq!(table.walk(0x80_0020_0000), Some(0x5000));
}

#[test]
fn timer_tick_that_uses_up_the_quantum_asks_the_scheduler() {
    let mut thread = Thread::new_in_place_no_insert(0x80_0010_0000, false, 1, 2);
    thread.start_first_thread(SingleExecution::new());
    for _ in 0..4 {
        thread.tick();
    }
    assert_eq!(thread.ticks(), 1);
    let mut lapic = LapicRegisters::new(LAPIC);
    let mut queue = ReadyQueue::new();
    queue.enqueue_spin(0x80_0030_0000);
    let per_cpu = PerCpuData::new();
    let outcome = timer_handler(&mut thread, 0x80_0010_0f00, &guard(), &mut lapic, &mut queue, &per_cpu);
    assert_eq!(outcome.eoi, RegisterWrite { address: LAPIC + 0xb0, value: 0 });
    assert_eq!(outcome.dispatch, Some(Dispatch::SwitchTo(0x80_0030_0000)));
    assert_eq!(thread.ticks(), 0);
    assert_eq!(thread.status(), Status::Running);
}

#[test]
fn timer_tick_with_nothing_waiting_lets_the_thread_go_on() {
    let mut thread = Thread::new_in_place_no_insert(0x80_0010_0000, false, 1, 2);
    thread.start_first_thread(SingleExecution::new());
    for _ in 0..4 {
        thread.tick();
    }
    let mut lapic = LapicRegisters::new(LAPIC);
    let mut queue = ReadyQueue::new();
    let per_cpu = PerCpuData::new();
    let outcome = timer_handler(&mut thread, 0x80_0010_0f00, &guard(), &mut lapic, &mut queue, &per_cpu);
    assert_eq!(outcome.dispatch, Some(Dispatch::Continue));
    assert_eq!(thread.ticks(), 5);
    assert_eq!(thread.status(), Status::Running);
}

#[test]
fn timer_tick_before_the_quantum_ends_only_counts() {
    let mut thread = Thread::new_in_place_no_insert(0x80_0010_0000, false, 1, 2);
    thread.start_first_thread(SingleExecution::new());
    let mut lapic = LapicRegisters::new(LAPIC);
    let mut queue = ReadyQueue::new();
    queue.enqueue_spin(0x80_0030_0000);
    let per_cpu = PerCpuData::new();
    for left in [4u64, 3, 2, 1] {
        let outcome =
            timer_handler(&mut thread, 0x80_0010_0f00, &guard(), &mut lapic, &mut queue, &per_cpu);
        assert_eq!(outcome.eoi.value, 0);
        assert_eq!(outcome.dispatch, None);
        assert_eq!(thread.ticks(), left);
    }
    assert_eq!(queue.len(), 1);
}

#[test]
fn timer_tick_on_a_boot_stack_counts_nothing() {
    let mut thread = Thread::new_in_place_no_insert(0x1000, false, 1, 2);
    thread.start_first_thread(SingleExecution::new());
    for _ in 0..4 {
        thread.tick();
    }
    let mut lapic = LapicRegisters::new(LAPIC);
    let mut queue = ReadyQueue::new();
    let per_cpu = PerCpuData::new();
    for stack_pointer in [0x1f00u64, 0x80_0000_0000] {
        let outcome =
            timer_handler(&mut thread, stack_pointer, &guard(), &mut lapic, &mut queue, &per_cpu);
        assert_eq!(outcome.eoi, RegisterWrite { address: LAPIC + 0xb0, value: 0 });
        assert_eq!(outcome.dispatch, None);
        assert_eq!(thread.ticks(), 1);
    }
    let outcome =
        timer_handler(&mut thread, 0x80_0000_0001, &guard(), &mut lapic, &mut queue, &per_cpu);
    assert_eq!(outcome.dispatch, Some(Dispatch::Continue));
}

#[test]
fn cell_is_written_once() {
    let mut cell: InitializeOnce<u32> = InitializeOnce::new();
    assert!(!cell.is_initialized());
    cell.initialize(&SingleExecution::new(), 42);
    assert!(cell.is_initialized());
    assert_eq!(*cell.deref(), 42);
    *cell.deref_mut() = 43;
    assert_eq!(*cell.deref(), 43);
}

#[test]
fn kernel_pages_come_mapped() {
    let mut table = PageTable::new(Frame::new(1));
    let mut frames = FrameAllocator::new();
    let mut pages = PageAllocator::new();
    let page = pages.get_page(&mut frames, &mut table);
    assert_eq!(page.page(), Page::new(0x810_0000));
    assert_eq!(table.walk(0x81_0000_0abc), Some(0x5abc));
    let run = pages.get_multiple_pages(3, &mut frames, &mut table);
    // Frames 6 to 8 held the page maps of the first page.
    assert_eq!(table.walk(0x81_0000_1000), Some(0x9000));
    assert_eq!(table.walk(0x81_0000_2fff), Some(0xafff));
    assert_eq!(table.walk(0x81_0000_3123), Some(0xb123));
    assert_eq!(table.walk(0x81_0000_4000), None);
    assert_eq!(run.into_unique(), (0x81_0000_1000, 3));
    assert!(table.is_taken(Page::new(0x810_0003), PageSize::FourKb));
    assert!(!table.is_taken(Page::new(0x810_0004), PageSize::FourKb));
    assert_eq!(frames.get_frame(), Frame::new(12));
    let next = pages.get_page(&mut frames, &mut table);
    assert_eq!(next.page(), Page::new(0x810_0004));
}

#[test]
fn arrays_have_one_element_per_page() {
    let mut table = PageTable::new(Frame::new(1));
    let mut frames = FrameAllocator::new();
    let mut pages = PageAllocator::new();
    let mut array = get_contiguous_array(3, || 7u32, &mut pages, &mut frames, &mut table);
    assert_eq!(array.len(), 3);
    assert_eq!(array.count(), 3);
    assert_eq!(*array.index(2), 7);
    *array.index_mut(1) = 9;
    assert_eq!(*array.index(1), 9);
    assert_eq!(*array.index(0), 7);
    let mut addresses = array.iter_mut();
    assert_eq!(addresses.next(), Some(0x81_0000_0000u64));
    assert_eq!(addresses.next(), Some(0x81_0000_1000));
    assert_eq!(addresses.next(), Some(0x81_0000_2000));
    assert_eq!(addresses.next(), None);
    assert_eq!(addresses.next(), None);
    assert_eq!(table.walk(0x81_0000_2000), Some(0x7000));

    let run = pages.get_multiple_pages(2, &mut frames, &mut table);
    let mut empty: PallocArray<u8> = PallocArray::new(run);
    assert_eq!(empty.len(), 2);
    assert_eq!(empty.count(), 0);
    empty.push(1);
    assert_eq!(*empty.index(0), 1);
}

#[test]
fn each_processor_finds_its_own_data() {
    let mut table = PageTable::new(Frame::new(1));
    let mut frames = FrameAllocator::new();
    let mut pages = PageAllocator::new();
    let mut per_cpu = GlobalPerCpu::new();
    assert!(!per_cpu.is_initialized());
    let single = SingleExecution::new();
    initialize_per_cpu(&single, 2, &mut per_cpu, &mut pages, &mut frames, &mut table);
    assert!(per_cpu.is_initialized());
    assert_eq!(per_cpu.processors(), 2);
    let guard = guard();
    per_cpu.get_per_cpu_mut(&guard, ProcessorId::new(1)).set_idle_thread(&single, 0x80_0020_0000);
    assert!(!retrieve_per_cpu(&guard, &per_cpu, ProcessorId::new(0)).has_idle_thread());
    assert!(per_cpu.get_per_cpu(&guard, ProcessorId::new(1)).has_idle_thread());
    assert_eq!(
        *retrieve_per_cpu(&guard, &per_cpu, ProcessorId::new(1)).get_idle_thread(),
        0x80_0020_0000
    );
}

#[test]
fn pit_is_set_up_with_three_bytes() {
    // 1193180 / 100, rounded, is 11932 = 0x2e9c.
    assert_eq!(
        pit_configure_channel(0, 2, 100),
        [
            PortWrite { port: 0x43, value: 0x34 },
            PortWrite { port: 0x40, value: 0x9c },
            PortWrite { port: 0x40, value: 0x2e },
        ]
    );
    assert_eq!(
        pit_configure_channel(2, 3, 440),
        [
            PortWrite { port: 0x43, value: 0xb6 },
            PortWrite { port: 0x42, value: 0x98 },
            PortWrite { port: 0x42, value: 0x0a },
        ]
    );
    let slow = pit_configure_channel(0, 2, 18);
    assert_eq!((slow[1].value, slow[2].value), (0, 0));
    let slowest_exact = pit_configure_channel(0, 2, 19);
    assert_eq!((slowest_exact[1].value, slowest_exact[2].value), (0x4f, 0xf5));
    let fast = pit_configure_channel(0, 2, 1193181);
    assert_eq!((fast[1].value, fast[2].value), (2, 0));
    let fastest_exact = pit_configure_channel(0, 2, 1193180);
    assert_eq!((fastest_exact[1].value, fastest_exact[2].value), (1, 0));
}

#[test]
fn first_processor_makes_its_threads() {
    let mut table = PageTable::new(Frame::new(1));
    let mut frames = FrameAllocator::new();
    let mut per_cpu = PerCpuData::new();
    let mut queue = ReadyQueue::new();
    let idle = bsp_initialize_thread(
        &SingleExecution::new(),
        &guard(),
        0x10,
        0x50,
        &mut frames,
        &mut table,
        &mut per_cpu,
    );
    assert_eq!(idle.address(), 0x80_0040_0000);
    assert!(idle.is_idle());
    assert_eq!(idle.word(0xfd8), 0x10);
    assert_eq!(*per_cpu.get_idle_thread(), 0x80_0040_0000);
    assert!(queue.is_empty());

    let threads = create_threads([0x20, 0x30, 0x40], 0x50, &mut frames, &mut table, &mut queue);
    assert_eq!(threads.first.address(), 0x80_0010_0000);
    assert_eq!(threads.first.word(0xfd8), 0x20);
    assert_eq!(threads.first.word(0xff0), 0x50);
    assert!(!threads.first.is_idle());
    assert_eq!(threads.second.address(), 0x80_0030_0000);
    assert_eq!(threads.second.word(0xfd8), 0x30);
    assert_eq!(threads.third.address(), 0x80_0050_0000);
    assert_eq!(threads.third.word(0xfd8), 0x40);
    assert_eq!(queue.len(), 2);
    assert_eq!(queue.dequeue(), Some(0x80_0030_0000));
    assert_eq!(queue.dequeue(), Some(0x80_0050_0000));
    // Frames 5, 9, 11 and 13 hold the threads; those between, page maps.
    assert_eq!(table.walk(0x80_0040_0000), Some(0x5000));
    assert_eq!(table.walk(0x80_0010_0ff0), Some(0x9ff0));
    assert_eq!(table.walk(0x80_0030_0008), Some(0xb008));
    assert_eq!(table.walk(0x80_0050_0fff), Some(0xdfff));
    assert_eq!(table.walk(0x80_0020_0000), None);
    assert_eq!(frames.get_frame(), Frame::new(14));
}

#[test]
fn descriptor_table_gets_a_frame_of_its_own() {
    let mut frames = FrameAllocator::new();
    let table = install_gdt(&mut frames);
    assert_eq!(table.frame, Frame::new(5));
    assert_eq!(table.descriptors, gdt_descriptors());
    assert_eq!(table.code_selector, 0x10);
    assert_eq!(table.limit, 47);
    assert_eq!(table.descriptors[(table.code_selector / 8) as usize], 0x0020_9a00_0000_0000);
    assert_eq!(frames.get_frame(), Frame::new(6));
}

#[test]
fn idle_thread_can_live_in_any_page() {
    let mut table = PageTable::new(Frame::new(1));
    let mut frames = FrameAllocator::new();
    let mut per_cpu = PerCpuData::new();
    let idle = initialize_idle_thread(
        Page::new(0x900_0000),
        &SingleExecution::new(),
        &guard(),
        1,
        2,
        &mut frames,
        &mut table,
        &mut per_cpu,
    );
    assert!(idle.is_idle());
    assert_eq!(*per_cpu.get_idle_thread(), 0x90_0000_0000);
    assert_eq!(table.walk(0x90_0000_0000), Some(0x5000));
}
