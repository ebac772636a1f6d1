//! The thread core: thread control blocks, the ready queue, and the
//! decisions of the scheduler.
//!
//! A thread is one 4 KiB page. Its control block stands at the low end
//! of the page and its stack grows down from the high end, so that the
//! page of any stack pointer of the thread is the thread itself.

use vstd::prelude::*;
use crate::interrupts::{InterruptGuard, SingleExecution};
use crate::per_cpu::PerCpuData;

verus! {

/// The timer ticks that a thread runs for before it gives way.
pub const MAX_TICKS: u64 = 0x5;

/// The bytes of a thread's page.
pub const THREAD_BYTES: u64 = 0x1000;

/// The bytes of the six fields at the low end of a thread's page.
pub const HEADER_BYTES: usize = 6 * 0x8;

/// The bytes of a thread's page that are left for its stack.
pub const DATA_SIZE: usize = 0x1000 - (6 * 0x8);

/// The 8-byte words of a thread's stack.
pub const DATA_WORDS: usize = DATA_SIZE / 8;

/// The value that stands behind the fields of a control block and is
/// overwritten when the stack grows into them.
pub const THREAD_MAGIC: u64 = 0xDEADBEEF;

/// The threads that the ready queue has room for.
pub const READY_QUEUE_CAPACITY: usize = 6;

/// The offset in a thread's page of the word that holds the address of
/// the thread's body.
pub const BODY_SLOT: usize = 0x1000 - 0x28;

/// The offset in a thread's page of the word to which the first switch
/// to the thread returns.
pub const ENTRY_SLOT: usize = 0x1000 - 0x10;

/// The offset in a thread's page of the word above the entry address,
/// which holds zero.
pub const RETURN_SLOT: usize = 0x1000 - 0x8;

/// The identifier of a thread.
#[derive(Clone, Copy, PartialEq, Eq, Structural, Debug)]
pub struct Tid(pub u64);

/// Where a thread stands: waiting for a processor, on one, or done.
#[derive(Clone, Copy, PartialEq, Eq, Structural, Debug)]
pub enum Status {
    Ready,
    Running,
    Dying,
}

/// The threads that wait for a processor, oldest first: a ring of
/// `READY_QUEUE_CAPACITY` slots that hold the addresses of their pages.
pub struct ReadyQueue {
    slots: Vec<u64>,
    head: usize,
    len: usize,
}

/// Why a thread could not be put in the ready queue.
#[derive(Clone, Copy, PartialEq, Eq, Structural, Debug)]
pub enum QueueError {
    /// Every slot is taken.
    Full,
}

impl ReadyQueue {
    /// The waiting threads, the one that waits longest first.
    pub closed spec fn view(&self) -> Seq<u64> {
        Seq::new(
            self.len as nat,
            |i: int| self.slots@[(self.head + i) % (READY_QUEUE_CAPACITY as int)],
        )
    }

    /// The ring is sound: it has its slots, and head and length are in
    /// range.
    pub closed spec fn wf(&self) -> bool {
        &&& self.slots@.len() == READY_QUEUE_CAPACITY
        &&& self.head < READY_QUEUE_CAPACITY
        &&& self.len <= READY_QUEUE_CAPACITY
    }

    /// A sound queue never holds more threads than it has room for.
    pub proof fn lemma_capacity(&self)
        requires
            self.wf(),
        ensures
            self@.len() <= READY_QUEUE_CAPACITY,
    {
    }

    /// An empty queue.
    pub fn new() -> (result: Self)
        ensures
            result.wf(),
            result@ == Seq::<u64>::empty(),
    {
        let mut slots: Vec<u64> = Vec::new();
        while slots.len() < READY_QUEUE_CAPACITY
            invariant
                slots.len() <= READY_QUEUE_CAPACITY,
            decreases READY_QUEUE_CAPACITY - slots.len(),
        {
            slots.push(0);
        }
        let result = ReadyQueue { slots, head: 0, len: 0 };
        assert(result@ =~= Seq::<u64>::empty());
        result
    }

    /// The number of waiting threads.
    pub fn len(&self) -> (result: usize)
        requires
            self.wf(),
        ensures
            result == self@.len(),
            result <= READY_QUEUE_CAPACITY,
    {
        self.len
    }

    pub fn is_empty(&self) -> (result: bool)
        requires
            self.wf(),
        ensures
            result == (self@.len() == 0),
    {
        self.len == 0
    }

    pub fn is_full(&self) -> (result: bool)
        requires
            self.wf(),
        ensures
            result == (self@.len() == READY_QUEUE_CAPACITY),
    {
        self.len == READY_QUEUE_CAPACITY
    }

    /// Puts `thread` behind the waiting threads, or fails and changes
    /// nothing if the queue is full.
    pub fn enqueue(&mut self, thread: u64) -> (result: Result<(), QueueError>)
        requires
            old(self).wf(),
        ensures
            final(self).wf(),
            old(self)@.len() < READY_QUEUE_CAPACITY ==> result is Ok && final(self)@ == old(
                self,
            )@.push(thread),
            old(self)@.len() == READY_QUEUE_CAPACITY ==> result == Err::<(), QueueError>(
                QueueError::Full,
            ) && final(self)@ == old(self)@,
    {
        if self.len == READY_QUEUE_CAPACITY {
            return Err(QueueError::Full);
        }
        let tail = (self.head + self.len) % READY_QUEUE_CAPACITY;
        self.slots[tail] = thread;
        self.len = self.len + 1;
        assert(final(self)@ =~= old(self)@.push(thread));
        Ok(())
    }

    /// Puts `thread` behind the waiting threads of a queue that has
    /// room. (With several processors this is the operation that waits
    /// for room; one caller alone would wait for ever.)
    pub fn enqueue_spin(&mut self, thread: u64)
        requires
            old(self).wf(),
            old(self)@.len() < READY_QUEUE_CAPACITY,
        ensures
            final(self).wf(),
            final(self)@ == old(self)@.push(thread),
    {
        let _ = self.enqueue(thread);
    }

    /// Takes out the thread that waits longest, or yields nothing if no
    /// thread waits.
    pub fn dequeue(&mut self) -> (result: Option<u64>)
        requires
            old(self).wf(),
        ensures
            final(self).wf(),
            old(self)@.len() == 0 ==> result is None && final(self)@ == old(self)@,
            old(self)@.len() > 0 ==> result == Some(old(self)@[0]) && final(self)@ == old(
                self,
            )@.subrange(1, old(self)@.len() as int),
    {
        if self.len == 0 {
            return None;
        }
        let thread = self.slots[self.head];
        self.head = (self.head + 1) % READY_QUEUE_CAPACITY;
        self.len = self.len - 1;
        assert(final(self)@ =~= old(self)@.subrange(1, old(self)@.len() as int)) by {
            assert forall|i: int| 0 <= i < final(self)@.len() implies final(self)@[i] == old(
                self,
            )@[i + 1] by {
                assert((final(self).head + i) % (READY_QUEUE_CAPACITY as int) == (old(self).head + (i
                    + 1)) % (READY_QUEUE_CAPACITY as int));
            }
        }
        Some(thread)
    }
}

/// What a thread control block holds.
pub struct ThreadView {
    /// The address of the thread's page, by which the thread is known.
    pub base: u64,
    pub tid: Tid,
    /// The timer ticks that the thread has left before it gives way.
    pub ticks: u64,
    pub status: Status,
    /// Whether this is the thread that a processor runs when no other is
    /// ready. Such a thread never stands in the ready queue.
    pub is_idle: bool,
    /// The stack pointer of the thread as it was when the thread last
    /// stopped running.
    pub stack: u64,
    pub magic: u64,
    /// The stack, as the 8-byte words above the fields, lowest first.
    pub data: Seq<u64>,
}

impl ThreadView {
    /// The control block after one timer tick was counted against the
    /// thread.
    pub open spec fn ticked(self) -> ThreadView {
        ThreadView { ticks: (self.ticks - 1) as u64, ..self }
    }

    /// The control block after `n` timer ticks were counted against the
    /// thread.
    pub open spec fn ticked_times(self, n: nat) -> ThreadView
        decreases n,
    {
        if n == 0 {
            self
        } else {
            self.ticked_times((n - 1) as nat).ticked()
        }
    }
}

/// After `n` ticks a thread has `n` ticks less, as long as it had that
/// many: of a full allowance of five, `5 - n` are left.
pub proof fn lemma_ticks_count_down(view: ThreadView, n: nat)
    requires
        n <= view.ticks,
    ensures
        view.ticked_times(n) == (ThreadView { ticks: (view.ticks - n) as u64, ..view }),
        view.ticks == MAX_TICKS ==> view.ticked_times(n).ticks == 5 - n,
    decreases n,
{
    if n > 0 {
        lemma_ticks_count_down(view, (n - 1) as nat);
    }
}

/// The stack of a thread that has not run yet: all zeros but for the
/// address of the thread's body and, two words above it, the address of
/// the entry routine, to which the first switch to the thread returns.
pub open spec fn initial_stack(body: u64, entry: u64) -> Seq<u64> {
    Seq::new(
        DATA_WORDS as nat,
        |i: int|
            if i == DATA_WORDS - 5 {
                body
            } else if i == DATA_WORDS - 2 {
                entry
            } else {
                0u64
            },
    )
}

/// The control block that `new_in_place_no_insert` makes.
pub open spec fn new_thread(ptr: u64, is_idle: bool, body: u64, entry: u64) -> ThreadView {
    ThreadView {
        base: ptr,
        tid: Tid(0),
        ticks: MAX_TICKS,
        status: Status::Ready,
        is_idle,
        stack: (ptr + ENTRY_SLOT) as u64,
        magic: THREAD_MAGIC,
        data: initial_stack(body, entry),
    }
}

/// A thread control block together with the thread's stack: the contents
/// of the thread's page.
pub struct Thread {
    base: u64,
    tid: Tid,
    ticks: u64,
    status: Status,
    is_idle: bool,
    stack: u64,
    magic: u64,
    data: Vec<u64>,
}

/// What the scheduler decided.
#[derive(Clone, Copy, PartialEq, Eq, Structural, Debug)]
pub enum Dispatch {
    /// The thread that asked keeps the processor.
    Continue,
    /// The processor goes to the thread at this address.
    SwitchTo(u64),
}

/// What became of the thread that a processor has just left.
#[derive(Clone, Copy, PartialEq, Eq, Structural, Debug)]
pub enum Finished {
    /// The thread was done. Its page is not taken back; the caller
    /// reports the thread at this address as exited.
    Exited(u64),
    /// The thread was running, is ready now, and waits in the queue.
    Requeued,
    /// The thread was running and is ready now, but is an idle thread
    /// and so waits outside the queue.
    Parked,
    /// The thread was ready already; nothing was done.
    Untouched,
}

/// The address of the control block of the thread whose stack pointer is
/// `stack_pointer`: the start of the 4 KiB page that the pointer is in.
pub fn current_thread_ptr(stack_pointer: u64) -> (result: u64)
    ensures
        result == stack_pointer - stack_pointer % THREAD_BYTES,
        result % THREAD_BYTES == 0,
        result <= stack_pointer < result + THREAD_BYTES,
{
    stack_pointer - stack_pointer % THREAD_BYTES
}

/// From any stack pointer within a thread's page, the thread is found.
pub proof fn lemma_current_thread_within_page(base: u64, stack_pointer: u64)
    requires
        base % THREAD_BYTES == 0,
        base <= stack_pointer < base + THREAD_BYTES,
    ensures
        stack_pointer - stack_pointer % THREAD_BYTES == base,
{
}

/// A thread that the scheduler takes out of the ready queue is in the
/// queue no longer, as long as no thread stood in it twice: a thread is
/// held by the queue or by a processor, never by both.
pub proof fn lemma_dequeued_thread_leaves_queue(waiting: Seq<u64>)
    requires
        waiting.no_duplicates(),
        waiting.len() > 0,
    ensures
        !waiting.drop_first().contains(waiting[0]),
        waiting.drop_first().no_duplicates(),
{
    assert forall|i: int| 0 <= i < waiting.drop_first().len() implies waiting.drop_first()[i]
        != waiting[0] by {
        assert(waiting.drop_first()[i] == waiting[i + 1]);
    }
}

/// A thread that was left and joins the ready queue stands in it once,
/// as long as it was not in the queue while it ran.
pub proof fn lemma_requeued_thread_stands_once(waiting: Seq<u64>, thread: u64)
    requires
        waiting.no_duplicates(),
        !waiting.contains(thread),
    ensures
        waiting.push(thread).no_duplicates(),
        waiting.push(thread).contains(thread),
{
    assert(waiting.push(thread)[waiting.len() as int] == thread);
}

impl Thread {
    /// What the control block holds.
    pub closed spec fn view(&self) -> ThreadView {
        ThreadView {
            base: self.base,
            tid: self.tid,
            ticks: self.ticks,
            status: self.status,
            is_idle: self.is_idle,
            stack: self.stack,
            magic: self.magic,
            data: self.data@,
        }
    }

    /// The stack has its words and the value behind the fields is intact.
    pub open spec fn wf(&self) -> bool {
        &&& self@.data.len() == DATA_WORDS
        &&& self@.magic == THREAD_MAGIC
    }

    /// The word of the stack at `offset` bytes from the start of the
    /// thread's page.
    pub open spec fn word_at(&self, offset: int) -> u64 {
        self@.data[(offset - HEADER_BYTES) / 8]
    }

    /// Makes the control block and the stack of a new thread in the page
    /// at `ptr`, and puts the thread in the ready queue if that has room.
    /// `fn_ptr` is the address of the thread's body, `entry` that of the
    /// entry routine.
    pub fn new_in_place(ptr: u64, fn_ptr: u64, entry: u64, queue: &mut ReadyQueue) -> (result:
        Thread)
        requires
            ptr + THREAD_BYTES <= u64::MAX,
            old(queue).wf(),
        ensures
            result.wf(),
            result@ == new_thread(ptr, false, fn_ptr, entry),
            final(queue).wf(),
            final(queue)@ == if old(queue)@.len() < READY_QUEUE_CAPACITY {
                old(queue)@.push(ptr)
            } else {
                old(queue)@
            },
    {
        let thread = Thread::new_in_place_no_insert(ptr, false, fn_ptr, entry);
        let _ = queue.enqueue(ptr);
        thread
    }

    /// Makes the control block and the stack of a new thread in the page
    /// at `ptr`: ready, with a full allowance of ticks, and with a stack
    /// from which the first switch to the thread returns into the entry
    /// routine, which finds the address of the body three words below.
    pub fn new_in_place_no_insert(ptr: u64, is_idle: bool, fn_ptr: u64, entry: u64) -> (result:
        Thread)
        requires
            ptr + THREAD_BYTES <= u64::MAX,
        ensures
            result.wf(),
            result@ == new_thread(ptr, is_idle, fn_ptr, entry),
            result.word_at(BODY_SLOT as int) == fn_ptr,
            result.word_at(ENTRY_SLOT as int) == entry,
            result.word_at(RETURN_SLOT as int) == 0,
    {
        let mut data: Vec<u64> = Vec::new();
        while data.len() < DATA_WORDS
            invariant
                data.len() <= DATA_WORDS,
                forall|i: int| 0 <= i < data.len() ==> data[i] == 0,
            decreases DATA_WORDS - data.len(),
        {
            data.push(0);
        }
        data[DATA_WORDS - 5] = fn_ptr;
        data[DATA_WORDS - 2] = entry;
        data[DATA_WORDS - 1] = 0;
        let result = Thread {
            base: ptr,
            tid: Tid(0),
            ticks: MAX_TICKS,
            status: Status::Ready,
            is_idle,
            stack: ptr + ENTRY_SLOT as u64,
            magic: THREAD_MAGIC,
            data,
        };
        assert(result@.data =~= initial_stack(fn_ptr, entry));
        result
    }

    /// The address of the thread's page.
    pub fn address(&self) -> (result: u64)
        ensures
            result == self@.base,
    {
        self.base
    }

    pub fn status(&self) -> (result: Status)
        ensures
            result == self@.status,
    {
        self.status
    }

    pub fn ticks(&self) -> (result: u64)
        ensures
            result == self@.ticks,
    {
        self.ticks
    }

    pub fn is_idle(&self) -> (result: bool)
        ensures
            result == self@.is_idle,
    {
        self.is_idle
    }

    /// The stack pointer that the thread stopped with.
    pub fn stack(&self) -> (result: u64)
        ensures
            result == self@.stack,
    {
        self.stack
    }

    pub fn magic(&self) -> (result: u64)
        ensures
            result == self@.magic,
    {
        self.magic
    }

    /// The word of the stack at `offset` bytes from the start of the
    /// thread's page.
    pub fn word(&self, offset: usize) -> (result: u64)
        requires
            self.wf(),
            HEADER_BYTES <= offset < THREAD_BYTES,
            offset % 8 == 0,
        ensures
            result == self.word_at(offset as int),
    {
        self.data[(offset - HEADER_BYTES) / 8]
    }

    /// Makes this thread the first that its processor runs: the thread
    /// is running from now on, and the result is the stack pointer to go
    /// on with. The token of the set-up ends here.
    pub fn start_first_thread(&mut self, single_execution: SingleExecution) -> (stack_pointer:
        u64)
        ensures
            final(self)@ == (ThreadView { status: Status::Running, ..old(self)@ }),
            stack_pointer == old(self)@.stack,
    {
        self.status = Status::Running;
        let _ = single_execution;
        self.stack
    }

    /// Hands the processor from `outgoing`, which runs and has just
    /// pushed its registers and return address and so stands at
    /// `stack_pointer`, to this thread. `outgoing` keeps its stack
    /// pointer; the result is the stack pointer to go on with, which is
    /// this thread's, and the address of `outgoing`, which this thread
    /// is told as the thread that ran last.
    pub fn switch_to_thread(&self, outgoing: &mut Thread, stack_pointer: u64) -> (result: (
        u64,
        u64,
    ))
        ensures
            final(outgoing)@ == (ThreadView { stack: stack_pointer, ..old(outgoing)@ }),
            result.0 == self@.stack,
            result.1 == old(outgoing)@.base,
    {
        outgoing.stack = stack_pointer;
        (self.stack, outgoing.base)
    }

    /// Counts one timer tick against the thread, which must have ticks
    /// left, and returns how many are left now.
    pub fn tick(&mut self) -> (result: u64)
        requires
            old(self)@.ticks > 0,
        ensures
            final(self)@ == old(self)@.ticked(),
            result == old(self)@.ticks - 1,
    {
        self.ticks -= 1;
        self.ticks
    }

    /// Gives the thread its full allowance of ticks.
    pub fn reset_ticks(&mut self)
        ensures
            final(self)@ == (ThreadView { ticks: MAX_TICKS, ..old(self)@ }),
    {
        self.ticks = MAX_TICKS;
    }

    /// The thread that the scheduler picks when this thread, which has
    /// the processor and whose status is `status`, asks: the thread that
    /// waits longest; if none waits, this thread itself if it is running,
    /// else the idle thread.
    pub open spec fn next_thread(
        base: u64,
        status: Status,
        waiting: Seq<u64>,
        idle_thread: Option<u64>,
    ) -> u64 {
        if waiting.len() > 0 {
            waiting[0]
        } else if status is Running {
            base
        } else {
            idle_thread.unwrap()
        }
    }

    /// Ends the thread: marks it as done and lets the scheduler pick the
    /// thread that runs next. The caller has turned interrupts off.
    pub fn exit(
        &mut self,
        interrupt_guard: &InterruptGuard,
        queue: &mut ReadyQueue,
        per_cpu: &PerCpuData,
    ) -> (result: Dispatch)
        requires
            old(self).wf(),
            old(queue).wf(),
            old(queue)@.len() == 0 ==> per_cpu.idle_thread() is Some,
        ensures
            final(self).wf(),
            final(queue).wf(),
            final(queue)@ == if old(queue)@.len() > 0 {
                old(queue)@.drop_first()
            } else {
                old(queue)@
            },
            ({
                let next = Thread::next_thread(
                    old(self)@.base,
                    Status::Dying,
                    old(queue)@,
                    per_cpu.idle_thread(),
                );
                if next == old(self)@.base {
                    &&& result == Dispatch::Continue
                    &&& final(self)@ == (ThreadView {
                        ticks: MAX_TICKS,
                        status: Status::Running,
                        ..old(self)@
                    })
                } else {
                    &&& result == Dispatch::SwitchTo(next)
                    &&& final(self)@ == (ThreadView { status: Status::Dying, ..old(self)@ })
                }
            }),
    {
        self.status = Status::Dying;
        self.schedule(interrupt_guard, Status::Ready, queue, per_cpu)
    }

    /// Picks the thread that runs next on the processor of this thread,
    /// which has the processor and is not ready. Where the choice is this
    /// thread itself it keeps the processor, running and with a full
    /// allowance of ticks. Else the caller switches to the chosen thread;
    /// this thread is left as it is until it is switched back to (see
    /// `after_switch`). `status` is not looked at.
    pub fn schedule(
        &mut self,
        interrupt_guard: &InterruptGuard,
        status: Status,
        queue: &mut ReadyQueue,
        per_cpu: &PerCpuData,
    ) -> (result: Dispatch)
        requires
            old(self).wf(),
            old(self)@.status != Status::Ready,
            old(queue).wf(),
            old(queue)@.len() == 0 && old(self)@.status != Status::Running
                ==> per_cpu.idle_thread() is Some,
        ensures
            final(self).wf(),
            final(queue).wf(),
            final(queue)@ == if old(queue)@.len() > 0 {
                old(queue)@.drop_first()
            } else {
                old(queue)@
            },
            ({
                let next = Thread::next_thread(
                    old(self)@.base,
                    old(self)@.status,
                    old(queue)@,
                    per_cpu.idle_thread(),
                );
                if next == old(self)@.base {
                    &&& result == Dispatch::Continue
                    &&& final(self)@ == (ThreadView {
                        ticks: MAX_TICKS,
                        status: Status::Running,
                        ..old(self)@
                    })
                } else {
                    &&& result == Dispatch::SwitchTo(next)
                    &&& final(self)@ == old(self)@
                }
            }),
    {
        let next_thread = match queue.dequeue() {
            Some(thread) => thread,
            None => {
                if self.status == Status::Running {
                    self.base
                } else {
                    *per_cpu.get_idle_thread()
                }
            },
        };
        if next_thread != self.base {
            return Dispatch::SwitchTo(next_thread);
        }
        self.reset_ticks();
        self.status = Status::Running;
        Dispatch::Continue
    }

    /// What this thread does when a switch brings it back to the
    /// processor: it settles `last`, the thread that ran before it, and
    /// runs on with a full allowance of ticks.
    pub fn after_switch(&mut self, last: &mut Thread, queue: &mut ReadyQueue) -> (result: Finished)
        requires
            old(queue).wf(),
            old(last)@.status is Running && !old(last)@.is_idle ==> old(queue)@.len()
                < READY_QUEUE_CAPACITY,
        ensures
            final(queue).wf(),
            result == old(last).settled(),
            final(last)@ == old(last).settled_view(),
            final(queue)@ == old(last).settled_queue(old(queue)@),
            final(self)@ == (ThreadView {
                ticks: MAX_TICKS,
                status: Status::Running,
                ..old(self)@
            }),
    {
        let result = last.finish_switching(queue);
        self.reset_ticks();
        self.status = Status::Running;
        result
    }

    /// What `finish_switching` reports of this thread.
    pub open spec fn settled(&self) -> Finished {
        match self@.status {
            Status::Dying => Finished::Exited(self@.base),
            Status::Running => if self@.is_idle {
                Finished::Parked
            } else {
                Finished::Requeued
            },
            Status::Ready => Finished::Untouched,
        }
    }

    /// The control block after `finish_switching`: a running thread is
    /// ready, and nothing else has changed.
    pub open spec fn settled_view(&self) -> ThreadView {
        if self@.status is Running {
            ThreadView { status: Status::Ready, ..self@ }
        } else {
            self@
        }
    }

    /// The ready queue after `finish_switching`: a thread that ran and is
    /// no idle thread stands last in it, and nothing else has changed.
    pub open spec fn settled_queue(&self, waiting: Seq<u64>) -> Seq<u64> {
        if self@.status is Running && !self@.is_idle {
            waiting.push(self@.base)
        } else {
            waiting
        }
    }

    /// Settles this thread, which a processor has just left. A thread
    /// that is done stays as it is and is reported; its page is never
    /// taken back. A thread that was running becomes ready and, unless it
    /// is an idle thread, joins the ready queue, which must have room.
    pub fn finish_switching(&mut self, queue: &mut ReadyQueue) -> (result: Finished)
        requires
            old(queue).wf(),
            old(self)@.status is Running && !old(self)@.is_idle ==> old(queue)@.len()
                < READY_QUEUE_CAPACITY,
        ensures
            final(queue).wf(),
            result == old(self).settled(),
            final(self)@ == old(self).settled_view(),
            final(queue)@ == old(self).settled_queue(old(queue)@),
    {
        if self.status == Status::Dying {
            return Finished::Exited(self.base);
        }
        if self.status == Status::Running {
            self.status = Status::Ready;
            if !self.is_idle {
                queue.enqueue_spin(self.base);
                return Finished::Requeued;
            }
            return Finished::Parked;
        }
        Finished::Untouched
    }
}

/// What a new thread does when the first switch to it returns into the
/// entry routine: it settles `last_thread`, the thread that ran before it
/// if there was one, and is running from now on. The caller then turns
/// interrupts on, runs the body, and ends the thread with `exit`.
pub fn kernel_thread_entry(
    thread: &mut Thread,
    last_thread: Option<&mut Thread>,
    queue: &mut ReadyQueue,
) -> (result: Option<Finished>)
    requires
        old(queue).wf(),
        match last_thread {
            Some(last) => last@.status is Running && !last@.is_idle ==> old(queue)@.len()
                < READY_QUEUE_CAPACITY,
            None => true,
        },
    ensures
        final(queue).wf(),
        final(thread)@ == (ThreadView { status: Status::Running, ..old(thread)@ }),
        match last_thread {
            Some(last) => {
                &&& result == Some(last.settled())
                &&& final(last)@ == last.settled_view()
                &&& final(queue)@ == last.settled_queue(old(queue)@)
            },
            None => result is None && final(queue)@ == old(queue)@,
        },
{
    let result = match last_thread {
        Some(last) => Some(last.finish_switching(queue)),
        None => None,
    };
    thread.status = Status::Running;
    result
}

} // verus!
