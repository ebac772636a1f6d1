use ferros::interrupts::{InterruptGuard, InterruptState, SingleExecution};
use ferros::per_cpu::PerCpuData;
use ferros::threads::{
    current_thread_ptr, kernel_thread_entry, Dispatch, Finished, QueueError, ReadyQueue, Status,
    Thread, MAX_TICKS, READY_QUEUE_CAPACITY, THREAD_MAGIC,
};

const P: u64 = 0x80_0010_0000;
const BODY: u64 = 0xffff_8000_0010_2030;
const ENTRY: u64 = 0xffff_8000_0040_5060;

fn guard() -> InterruptGuard {
    InterruptGuard::new(InterruptState::Disabled)
}

fn running(address: u64) -> Thread {
    let mut thread = Thread::new_in_place_no_insert(address, false, BODY, ENTRY);
    let stack = thread.start_first_thread(SingleExecution::new());
    assert_eq!(stack, address + 0xff0);
    thread
}

fn per_cpu_with_idle(idle: u64) -> PerCpuData {
    let mut per_cpu = PerCpuData::new();
    per_cpu.set_idle_thread(&SingleExecution::new(), idle);
    per_cpu
}

#[test]
fn new_thread_has_its_stack_set_up() {
    let thread = Thread::new_in_place_no_insert(P, false, BODY, ENTRY);
    assert_eq!(thread.word(0xfd8), BODY);
    assert_eq!(thread.word(0xff0), ENTRY);
    assert_eq!(thread.word(0xff8), 0);
    assert_eq!(thread.stack(), P + 0xff0);
    assert_eq!(thread.magic(), 0xDEADBEEF);
    assert_eq!(thread.magic(), THREAD_MAGIC);
    assert_eq!(thread.ticks(), 5);
    assert_eq!(thread.status(), Status::Ready);
    assert_eq!(thread.address(), P);
    assert!(!thread.is_idle());
    let mut offset = 0x30;
    while offset < 0x1000 {
        if offset != 0xfd8 && offset != 0xff0 {
            assert_eq!(thread.word(offset), 0, "offset {:x}", offset);
        }
        offset += 8;
    }
}

#[test]
fn new_idle_thread_is_marked_idle() {
    let thread = Thread::new_in_place_no_insert(P, true, BODY, ENTRY);
    assert!(thread.is_idle());
    assert_eq!(thread.status(), Status::Ready);
}

#[test]
fn new_thread_joins_the_ready_queue() {
    let mut queue = ReadyQueue::new();
    let thread = Thread::new_in_place(P, BODY, ENTRY, &mut queue);
    assert_eq!(thread.address(), P);
    assert_eq!(thread.word(0xfd8), BODY);
    assert_eq!(queue.len(), 1);
    assert_eq!(queue.dequeue(), Some(P));
}

#[test]
fn new_thread_is_left_out_of_a_full_queue() {
    let mut queue = ReadyQueue::new();
    for i in 0..READY_QUEUE_CAPACITY as u64 {
        assert_eq!(queue.enqueue(0x1000 * (i + 1)), Ok(()));
    }
    let thread = Thread::new_in_place(P, BODY, ENTRY, &mut queue);
    assert_eq!(thread.status(), Status::Ready);
    assert_eq!(queue.len(), READY_QUEUE_CAPACITY);
    for i in 0..READY_QUEUE_CAPACITY as u64 {
        assert_eq!(queue.dequeue(), Some(0x1000 * (i + 1)));
    }
    assert_eq!(queue.dequeue(), None);
}

#[test]
fn current_thread_is_the_page_of_the_stack_pointer() {
    for offset in [0u64, 8, 0x30, 0xf00, 0xff0, 0xfff] {
        assert_eq!(current_thread_ptr(P + offset), P);
    }
    assert_eq!(current_thread_ptr(P + 0x1000), P + 0x1000);
    assert_eq!(current_thread_ptr(P - 1), P - 0x1000);
    assert_eq!(current_thread_ptr(0), 0);
}

#[test]
fn ticks_count_down_from_five() {
    let mut thread = running(P);
    for n in 1..=5u64 {
        assert_eq!(thread.tick(), 5 - n);
        assert_eq!(thread.ticks(), 5 - n);
    }
    thread.reset_ticks();
    assert_eq!(thread.ticks(), MAX_TICKS);
    assert_eq!(thread.tick(), 4);
}

#[test]
fn ready_queue_respects_its_capacity() {
    let mut queue = ReadyQueue::new();
    assert!(queue.is_empty());
    assert_eq!(queue.dequeue(), None);
    for i in 0..6usize {
        assert!(!queue.is_full());
        assert_eq!(queue.enqueue(100 + i as u64), Ok(()));
        assert_eq!(queue.len(), i + 1);
    }
    assert!(queue.is_full());
    assert_eq!(queue.enqueue(999), Err(QueueError::Full));
    assert_eq!(queue.len(), 6);
    for i in 0..6u64 {
        assert_eq!(queue.dequeue(), Some(100 + i));
    }
    assert_eq!(queue.dequeue(), None);
    assert!(queue.is_empty());
}

#[test]
fn ready_queue_wraps_around() {
    let mut queue = ReadyQueue::new();
    let mut next_in = 0u64;
    let mut next_out = 0u64;
    for round in 0..20 {
        let burst = 1 + round % 4;
        for _ in 0..burst {
            if queue.len() < READY_QUEUE_CAPACITY {
                queue.enqueue_spin(next_in);
                next_in += 1;
            }
        }
        for _ in 0..(1 + round % 3) {
            if let Some(thread) = queue.dequeue() {
                assert_eq!(thread, next_out);
                next_out += 1;
            }
        }
    }
    while let Some(thread) = queue.dequeue() {
        assert_eq!(thread, next_out);
        next_out += 1;
    }
    assert_eq!(next_in, next_out);
}

#[test]
fn scheduler_keeps_a_running_thread_when_none_waits() {
    let mut thread = running(P);
    assert_eq!(thread.tick(), 4);
    let mut queue = ReadyQueue::new();
    let per_cpu = PerCpuData::new();
    let dispatch = thread.schedule(&guard(), Status::Ready, &mut queue, &per_cpu);
    assert_eq!(dispatch, Dispatch::Continue);
    assert_eq!(thread.ticks(), 5);
    assert_eq!(thread.status(), Status::Running);
    assert!(queue.is_empty());
}

#[test]
fn scheduler_switches_to_the_thread_that_waits_longest() {
    let mut thread = running(P);
    assert_eq!(thread.tick(), 4);
    let mut queue = ReadyQueue::new();
    queue.enqueue_spin(0x80_0030_0000);
    queue.enqueue_spin(0x80_0050_0000);
    let per_cpu = PerCpuData::new();
    let dispatch = thread.schedule(&guard(), Status::Ready, &mut queue, &per_cpu);
    assert_eq!(dispatch, Dispatch::SwitchTo(0x80_0030_0000));
    // The thread is left as it was until it is switched back to.
    assert_eq!(thread.ticks(), 4);
    assert_eq!(thread.status(), Status::Running);
    assert_eq!(queue.len(), 1);
    assert_eq!(queue.dequeue(), Some(0x80_0050_0000));
}

#[test]
fn dying_thread_gives_way_to_the_idle_thread() {
    let idle = 0x80_0040_0000;
    let mut thread = running(P);
    let mut queue = ReadyQueue::new();
    let per_cpu = per_cpu_with_idle(idle);
    let dispatch = thread.exit(&guard(), &mut queue, &per_cpu);
    assert_eq!(dispatch, Dispatch::SwitchTo(idle));
    assert_eq!(thread.status(), Status::Dying);

    let mut idle_thread = Thread::new_in_place_no_insert(idle, true, BODY, ENTRY);
    let finished = kernel_thread_entry(&mut idle_thread, Some(&mut thread), &mut queue);
    assert_eq!(finished, Some(Finished::Exited(P)));
    assert_eq!(idle_thread.status(), Status::Running);
    assert_eq!(thread.status(), Status::Dying);
    assert!(queue.is_empty());
}

#[test]
fn dying_thread_gives_way_to_a_waiting_thread() {
    let mut thread = running(P);
    let mut queue = ReadyQueue::new();
    queue.enqueue_spin(0x80_0030_0000);
    let per_cpu = PerCpuData::new();
    let dispatch = thread.exit(&guard(), &mut queue, &per_cpu);
    assert_eq!(dispatch, Dispatch::SwitchTo(0x80_0030_0000));
    assert_eq!(thread.status(), Status::Dying);
    assert_eq!(thread.finish_switching(&mut queue), Finished::Exited(P));
    assert!(queue.is_empty());
}

#[test]
fn thread_that_was_left_joins_the_queue() {
    let mut left = running(P);
    let mut queue = ReadyQueue::new();
    assert_eq!(left.finish_switching(&mut queue), Finished::Requeued);
    assert_eq!(left.status(), Status::Ready);
    assert_eq!(queue.len(), 1);
    assert_eq!(left.finish_switching(&mut queue), Finished::Untouched);
    assert_eq!(queue.len(), 1);
    assert_eq!(queue.dequeue(), Some(P));
}

#[test]
fn idle_thread_that_was_left_stays_out_of_the_queue() {
    let mut idle = Thread::new_in_place_no_insert(P, true, BODY, ENTRY);
    idle.start_first_thread(SingleExecution::new());
    let mut queue = ReadyQueue::new();
    assert_eq!(idle.finish_switching(&mut queue), Finished::Parked);
    assert_eq!(idle.status(), Status::Ready);
    assert!(queue.is_empty());
}

#[test]
fn thread_that_comes_back_settles_the_last_one() {
    let mut first = running(P);
    for _ in 0..5 {
        first.tick();
    }
    let mut second = Thread::new_in_place_no_insert(P + 0x1000, false, BODY, ENTRY);
    let mut queue = ReadyQueue::new();

    // The first switch to a thread comes out in the entry routine.
    let (stack, last) = second.switch_to_thread(&mut first, P + 0xe00);
    assert_eq!(stack, P + 0x1000 + 0xff0);
    assert_eq!(last, P);
    assert_eq!(first.stack(), P + 0xe00);
    assert_eq!(kernel_thread_entry(&mut second, Some(&mut first), &mut queue), Some(Finished::Requeued));
    assert_eq!(second.status(), Status::Running);
    assert_eq!(first.status(), Status::Ready);

    // Later switches come out behind the call to the scheduler.
    let per_cpu = PerCpuData::new();
    assert_eq!(
        second.schedule(&guard(), Status::Ready, &mut queue, &per_cpu),
        Dispatch::SwitchTo(P)
    );
    let (stack, last) = first.switch_to_thread(&mut second, P + 0x1000 + 0xd00);
    assert_eq!(stack, P + 0xe00);
    assert_eq!(last, P + 0x1000);
    assert_eq!(first.after_switch(&mut second, &mut queue), Finished::Requeued);
    assert_eq!(first.status(), Status::Running);
    assert_eq!(first.ticks(), 5);
    assert_eq!(second.status(), Status::Ready);
    assert_eq!(queue.dequeue(), Some(P + 0x1000));
}

#[test]
fn first_thread_enters_without_a_last_one() {
    let mut thread = Thread::new_in_place_no_insert(P, false, BODY, ENTRY);
    let mut queue = ReadyQueue::new();
    assert_eq!(kernel_thread_entry(&mut thread, None, &mut queue), None);
    assert_eq!(thread.status(), Status::Running);
    assert_eq!(thread.ticks(), 5);
    assert!(queue.is_empty());
}

#[test]
fn interrupt_guard_turns_interrupts_back_on_only_if_they_were_on() {
    assert!(InterruptGuard::new(InterruptState::Enabled).release());
    assert!(!InterruptGuard::new(InterruptState::Disabled).release());
    assert!(ferros::interrupts::disable(0x202).release());
    assert!(!ferros::interrupts::disable(0x002).release());
    assert_eq!(ferros::interrupts::get_interrupts_level(0x200), InterruptState::Enabled);
    assert_eq!(ferros::interrupts::get_interrupts_level(0xfdff), InterruptState::Disabled);
}
