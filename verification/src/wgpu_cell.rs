//! The processor's side of a single value that lives in a GPU buffer.

use vstd::prelude::*;

verus! {

/// A value and whether the GPU buffer still has to learn of its last
/// change.
pub struct WgpuCell<T> {
    value: T,
    outdated: bool,
}

impl<T> WgpuCell<T> {
    /// The value.
    pub closed spec fn value(&self) -> T {
        self.value
    }

    /// The value may differ from what the GPU buffer holds.
    pub closed spec fn outdated(&self) -> bool {
        self.outdated
    }

    /// A cell whose GPU buffer is made with the value in it.
    pub fn new(value: T) -> (cell: Self)
        ensures
            cell.value() == value,
            !cell.outdated(),
    {
        Self { value, outdated: false }
    }

    /// The value.
    pub fn get(&self) -> (value: &T)
        ensures
            *value == self.value(),
    {
        &self.value
    }

    /// Whether the value may differ from what the GPU buffer holds.
    pub fn is_outdated(&self) -> (outdated: bool)
        ensures
            outdated == self.outdated(),
    {
        self.outdated
    }

    /// The value, to be changed. The GPU buffer learns of the change with
    /// the next `flush`.
    pub fn as_mut(&mut self) -> (value: &mut T)
        ensures
            *value == old(self).value(),
            final(self).value() == *final(value),
            final(self).outdated(),
    {
        self.outdated = true;
        &mut self.value
    }

    /// Says whether the value has to be copied to the GPU buffer, and
    /// counts it as copied.
    pub fn flush(&mut self) -> (copy: bool)
        ensures
            copy == old(self).outdated(),
            !final(self).outdated(),
            final(self).value() == old(self).value(),
    {
        let copy = self.outdated;
        self.outdated = false;
        copy
    }
}

} // verus!
