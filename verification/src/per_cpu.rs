//! What each processor keeps for itself, found by the processor's id.

use vstd::prelude::*;
use crate::frame_allocator::FrameAllocator;
use crate::initialize_once::InitializeOnce;
use crate::interrupts::{InterruptGuard, SingleExecution};
use crate::mem::Page;
use crate::page_table::{PageSize, PageTable};
use crate::palloc::{get_contiguous_array, PageAllocator, PallocArray};

verus! {

/// The number that a processor is given when it starts, and by which its
/// own data is found.
#[derive(Clone, Copy, PartialEq, Eq, Structural, Debug)]
pub struct ProcessorId {
    id: u64,
}

impl ProcessorId {
    /// The number of the processor.
    pub closed spec fn value(self) -> u64 {
        self.id
    }

    pub fn new(id: u64) -> (result: Self)
        ensures
            result.value() == id,
    {
        ProcessorId { id }
    }

    /// The number of the processor.
    pub fn id(&self) -> (result: u64)
        ensures
            result == self.value(),
    {
        self.id
    }
}

/// The data of one processor: the address of its idle thread, set once.
pub struct PerCpuData {
    idle_thread: InitializeOnce<u64>,
}

impl PerCpuData {
    /// The address of the processor's idle thread, once it is set.
    pub closed spec fn idle_thread(&self) -> Option<u64> {
        self.idle_thread@
    }

    /// The data of a processor that has no idle thread yet.
    pub fn new() -> (result: Self)
        ensures
            result.idle_thread() is None,
    {
        PerCpuData { idle_thread: InitializeOnce::new() }
    }

    /// Whether the idle thread was set.
    pub fn has_idle_thread(&self) -> (result: bool)
        ensures
            result == self.idle_thread() is Some,
    {
        self.idle_thread.is_initialized()
    }

    /// Sets the idle thread, which must not have been set before.
    pub fn set_idle_thread(&mut self, single: &SingleExecution, idle_thread: u64)
        requires
            old(self).idle_thread() is None,
        ensures
            final(self).idle_thread() == Some(idle_thread),
    {
        self.idle_thread.initialize(single, idle_thread);
    }

    /// The address of the idle thread, which must have been set.
    pub fn get_idle_thread(&self) -> (result: &u64)
        requires
            self.idle_thread() is Some,
        ensures
            self.idle_thread() == Some(*result),
    {
        self.idle_thread.deref()
    }
}

/// The data of all processors: an array with one element for each,
/// which is set once.
pub struct GlobalPerCpu {
    ptr: InitializeOnce<PallocArray<PerCpuData>>,
}

impl GlobalPerCpu {
    /// The data of the processors, by processor id, once the array is
    /// set.
    pub closed spec fn blocks(&self) -> Option<Seq<PerCpuData>> {
        match self.ptr@ {
            Some(array) => Some(array@),
            None => None,
        }
    }

    /// The data of no processor: the array is not set.
    pub fn new() -> (result: Self)
        ensures
            result.blocks() is None,
    {
        GlobalPerCpu { ptr: InitializeOnce::new() }
    }

    /// Whether the array is set.
    pub fn is_initialized(&self) -> (result: bool)
        ensures
            result == self.blocks() is Some,
    {
        self.ptr.is_initialized()
    }

    /// The number of processors that the array has data for.
    pub fn processors(&self) -> (result: usize)
        requires
            self.blocks() is Some,
        ensures
            result == self.blocks().unwrap().len(),
    {
        let array = self.ptr.deref();
        proof {
            assert(array@.len() <= usize::MAX) by {
                array.lemma_len();
            }
        }
        array.count()
    }

    /// Sets the array, which must not have been set before.
    pub fn initialize(&mut self, single_execution: &SingleExecution, ptr: PallocArray<PerCpuData>)
        requires
            old(self).blocks() is None,
        ensures
            final(self).blocks() == Some(ptr@),
    {
        self.ptr.initialize(single_execution, ptr);
    }

    /// The data of the processor with the id `processor_id`. The guard
    /// shows that interrupts are off, so that the thread at hand stays
    /// on its processor while it uses the data.
    pub fn get_per_cpu<'a>(&'a self, _guard: &'a InterruptGuard, processor_id: ProcessorId) -> (result:
        &'a PerCpuData)
        requires
            self.blocks() is Some,
            processor_id.value() < self.blocks().unwrap().len(),
        ensures
            *result == self.blocks().unwrap()[processor_id.value() as int],
    {
        let per_cpu_block = self.ptr.deref();
        proof {
            per_cpu_block.lemma_len();
        }
        per_cpu_block.index(processor_id.id as usize)
    }

    /// The data of the processor with the id `processor_id`, to be
    /// changed in place.
    pub fn get_per_cpu_mut<'a>(
        &'a mut self,
        _guard: &'a InterruptGuard,
        processor_id: ProcessorId,
    ) -> (result: &'a mut PerCpuData)
        requires
            old(self).blocks() is Some,
            processor_id.value() < old(self).blocks().unwrap().len(),
        ensures
            *result == old(self).blocks().unwrap()[processor_id.value() as int],
            final(self).blocks() == Some(
                old(self).blocks().unwrap().update(processor_id.value() as int, *final(result)),
            ),
    {
        let per_cpu_block = self.ptr.deref_mut();
        proof {
            per_cpu_block.lemma_len();
        }
        per_cpu_block.index_mut(processor_id.id as usize)
    }
}

/// Makes the data of `num_cores` processors, each in a page of its own
/// and without an idle thread, and sets `per_cpu` to it. Can be done
/// once only.
pub fn initialize_per_cpu(
    single_execution: &SingleExecution,
    num_cores: usize,
    per_cpu: &mut GlobalPerCpu,
    page_allocator: &mut PageAllocator,
    frame_allocator: &mut FrameAllocator,
    page_table: &mut PageTable,
)
    requires
        old(per_cpu).blocks() is None,
        num_cores <= isize::MAX,
        old(page_allocator).cursor() + num_cores <= 0x10_0000_0000,
        old(page_allocator).cursor() + num_cores <= usize::MAX,
        old(frame_allocator).cursor() + 4 * num_cores <= 0x100_0000_0000,
        old(frame_allocator).cursor() + 4 * num_cores <= usize::MAX,
        old(page_table).wf(),
        forall|page: Page|
            old(page_allocator).cursor() <= page.number() < old(page_allocator).cursor()
                + num_cores ==> !(#[trigger] old(page_table).collides(page, PageSize::FourKb)),
    ensures
        final(per_cpu).blocks() is Some,
        final(per_cpu).blocks().unwrap().len() == num_cores,
        forall|i: int|
            0 <= i < num_cores ==> (#[trigger] final(per_cpu).blocks().unwrap()[i]).idle_thread()
                is None,
        final(page_allocator).cursor() == old(page_allocator).cursor() + num_cores,
        final(page_table).wf(),
        final(page_table).root_address() == old(page_table).root_address(),
        old(frame_allocator).cursor() + num_cores <= final(frame_allocator).cursor() <= old(
            frame_allocator,
        ).cursor() + 4 * num_cores,
        forall|address: u64|
            address < 0x1_0000_0000_0000 ==> #[trigger] final(page_table).translate(address)
                == if old(page_allocator).cursor() <= address / 0x1000 < old(
                page_allocator,
            ).cursor() + num_cores {
                Some(
                    ((old(frame_allocator).cursor() + (address / 0x1000 - old(
                        page_allocator,
                    ).cursor())) * 0x1000 + address % 0x1000) as u64,
                )
            } else {
                old(page_table).translate(address)
            },
{
    let per_cpu_block = get_contiguous_array(
        num_cores,
        PerCpuData::new,
        page_allocator,
        frame_allocator,
        page_table,
    );
    per_cpu.initialize(single_execution, per_cpu_block);
}

/// The data of the processor with the id `processor_id`. The guard shows
/// that interrupts are off.
pub fn retrieve_per_cpu<'a>(
    guard: &'a InterruptGuard,
    per_cpu: &'a GlobalPerCpu,
    processor_id: ProcessorId,
) -> (result: &'a PerCpuData)
    requires
        per_cpu.blocks() is Some,
        processor_id.value() < per_cpu.blocks().unwrap().len(),
    ensures
        *result == per_cpu.blocks().unwrap()[processor_id.value() as int],
{
    per_cpu.get_per_cpu(guard, processor_id)
}

} // verus!
