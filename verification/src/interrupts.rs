//! Whether interrupts are on, and the tokens that stand for "interrupts
//! are off" and for "nothing else runs yet".

use vstd::prelude::*;

verus! {

/// The interrupt-enable bit of the flags register.
pub const FLAG_IF: usize = 0x0000_0200;

/// The token of the one flow of control that sets the kernel up. Whoever
/// holds it may write to the cells that are written once.
pub struct SingleExecution {
    _private_value: (),
}

impl SingleExecution {
    pub fn new() -> (result: Self) {
        SingleExecution { _private_value: () }
    }
}

/// Whether the processor takes interrupts.
#[derive(Clone, Copy, PartialEq, Eq, Structural, Debug)]
pub enum InterruptState {
    Enabled,
    Disabled,
}

/// Stands for a stretch of code that runs with interrupts off, and
/// remembers whether they were on before.
pub struct InterruptGuard {
    previous_interrupts: InterruptState,
}

impl InterruptGuard {
    /// Whether interrupts were on when the guard was made.
    pub closed spec fn previous(&self) -> InterruptState {
        self.previous_interrupts
    }

    pub fn new(previous_interrupts: InterruptState) -> (result: InterruptGuard)
        ensures
            result.previous() == previous_interrupts,
    {
        InterruptGuard { previous_interrupts }
    }

    /// Ends the stretch: says whether interrupts are to be turned on
    /// again, which is so exactly if they were on before it.
    pub fn release(self) -> (enable: bool)
        ensures
            enable <==> self.previous() is Enabled,
    {
        self.previous_interrupts == InterruptState::Enabled
    }
}

/// Whether the flags register `flags` has interrupts on.
pub open spec fn interrupts_enabled(flags: usize) -> bool {
    flags & FLAG_IF == FLAG_IF
}

/// The interrupt state that the flags register `flags` shows.
pub fn get_interrupts_level(flags: usize) -> (result: InterruptState)
    ensures
        result is Enabled <==> interrupts_enabled(flags),
{
    if flags & FLAG_IF == FLAG_IF {
        InterruptState::Enabled
    } else {
        InterruptState::Disabled
    }
}

/// The guard for a stretch that starts now, when the flags register
/// holds `flags`. The caller turns interrupts off.
pub fn disable(flags: usize) -> (result: InterruptGuard)
    ensures
        result.previous() is Enabled <==> interrupts_enabled(flags),
{
    let previous_interrupts = get_interrupts_level(flags);
    InterruptGuard { previous_interrupts }
}

} // verus!
