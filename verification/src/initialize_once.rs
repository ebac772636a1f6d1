//! A cell that is written once and read only after that.

use vstd::prelude::*;
use crate::interrupts::SingleExecution;

verus! {

enum InitializeData<T> {
    Uninitialized,
    Initialized(T),
}

/// A cell that starts empty, takes one value, and keeps it.
pub struct InitializeOnce<T> {
    value: InitializeData<T>,
}

impl<T> InitializeOnce<T> {
    /// What the cell holds, if it was written.
    pub closed spec fn view(&self) -> Option<T> {
        match self.value {
            InitializeData::Uninitialized => None,
            InitializeData::Initialized(value) => Some(value),
        }
    }

    /// An empty cell.
    pub fn new() -> (result: Self)
        ensures
            result@ is None,
    {
        InitializeOnce { value: InitializeData::Uninitialized }
    }

    /// Whether the cell was written.
    pub fn is_initialized(&self) -> (result: bool)
        ensures
            result == self@ is Some,
    {
        match &self.value {
            InitializeData::Uninitialized => false,
            InitializeData::Initialized(_) => true,
        }
    }

    /// Writes the cell, which must be empty. The token shows that no
    /// second writer can be under way.
    pub fn initialize(&mut self, _single_execution: &SingleExecution, value: T)
        requires
            old(self)@ is None,
        ensures
            final(self)@ == Some(value),
    {
        self.value = InitializeData::Initialized(value);
    }

    /// The value in the cell, which must have been written, to be
    /// changed in place.
    pub fn deref_mut(&mut self) -> (result: &mut T)
        requires
            old(self)@ is Some,
        ensures
            old(self)@ == Some(*result),
            final(self)@ == Some(*final(result)),
    {
        match &mut self.value {
            InitializeData::Initialized(value) => value,
            InitializeData::Uninitialized => vstd::pervasive::unreached(),
        }
    }

    /// The value in the cell, which must have been written.
    pub fn deref(&self) -> (result: &T)
        requires
            self@ is Some,
        ensures
            self@ == Some(*result),
    {
        match &self.value {
            InitializeData::Initialized(value) => value,
            InitializeData::Uninitialized => vstd::pervasive::unreached(),
        }
    }
}

} // verus!
