//! The processor's side of a growable GPU buffer: the items to upload and
//! the capacity that the GPU buffer must have for them.

use vstd::prelude::*;

verus! {

/// Capacity of the GPU buffer behind a new vector, in items.
pub const INITIAL_CAPACITY: usize = 256;

/// Twice the capacity, or the largest `usize` where that does not fit.
pub open spec fn doubled(capacity: int) -> int {
    if 2 * capacity <= usize::MAX {
        2 * capacity
    } else {
        usize::MAX as int
    }
}

/// Items that do not fit a buffer of `capacity` when there are `len`.
pub open spec fn shortfall(capacity: int, len: int) -> int {
    if len > capacity {
        len - capacity
    } else {
        0
    }
}

/// The capacity after doubling `capacity` until it holds `len` items or
/// cannot grow any more.
pub open spec fn grown(capacity: int, len: int) -> int
    decreases shortfall(capacity, len),
{
    if capacity >= len || capacity <= 0 || capacity >= usize::MAX {
        capacity
    } else {
        grown(doubled(capacity), len)
    }
}

/// Growing never lowers the capacity, and the grown capacity holds the
/// items.
pub proof fn lemma_grown(capacity: int, len: int)
    requires
        0 < capacity <= usize::MAX,
        len <= usize::MAX,
    ensures
        capacity <= grown(capacity, len) <= usize::MAX,
        len <= grown(capacity, len),
        capacity >= len ==> grown(capacity, len) == capacity,
    decreases shortfall(capacity, len),
{
    if capacity < len {
        lemma_grown(doubled(capacity), len);
    }
}

/// What a write to the GPU asks of the program that owns the GPU buffer.
#[derive(Clone, Copy, Debug, PartialEq, Eq, Structural)]
pub enum GpuWrite {
    /// The buffer is large enough: copy the items into it.
    Reuse,
    /// Replace the buffer by one of this capacity, then copy the items.
    Reallocate { capacity: usize },
}

/// The items of a GPU buffer, kept on the processor's side, and the
/// capacity of the GPU buffer that receives them.
pub struct WgpuVec<T> {
    cpu_buffer: Vec<T>,
    inner_cap: usize,
}

impl<T> WgpuVec<T> {
    /// The items, in order.
    pub closed spec fn items(&self) -> Seq<T> {
        self.cpu_buffer@
    }

    /// Capacity of the GPU buffer, in items.
    pub closed spec fn capacity(&self) -> int {
        self.inner_cap as int
    }

    /// The GPU buffer holds at least one item.
    pub open spec fn wf(&self) -> bool {
        self.capacity() > 0
    }

    /// The number of items and the capacity fit a `usize`.
    pub proof fn lemma_fits(&self)
        ensures
            self.items().len() <= usize::MAX,
            self.capacity() <= usize::MAX,
    {
        assert(self.cpu_buffer.len() == self.cpu_buffer@.len());
    }

    /// An empty vector with a GPU buffer of the initial capacity.
    pub fn new() -> (vec: Self)
        ensures
            vec.wf(),
            vec.items() == Seq::<T>::empty(),
            vec.capacity() == INITIAL_CAPACITY,
    {
        Self::with_capacity(INITIAL_CAPACITY)
    }

    /// An empty vector with a GPU buffer of the given capacity; a capacity
    /// of zero counts as one.
    pub fn with_capacity(capacity: usize) -> (vec: Self)
        ensures
            vec.wf(),
            vec.items() == Seq::<T>::empty(),
            vec.capacity() == if capacity == 0 {
                1
            } else {
                capacity as int
            },
    {
        let capacity = if capacity == 0 {
            1
        } else {
            capacity
        };
        Self { cpu_buffer: Vec::with_capacity(capacity), inner_cap: capacity }
    }

    /// Number of items.
    pub fn len(&self) -> (len: usize)
        ensures
            len == self.items().len(),
    {
        self.cpu_buffer.len()
    }

    /// Capacity of the GPU buffer, in items.
    pub fn gpu_capacity(&self) -> (capacity: usize)
        ensures
            capacity == self.capacity(),
    {
        self.inner_cap
    }

    /// The items.
    pub fn cpu_buffer(&self) -> (items: &[T])
        ensures
            items@ == self.items(),
    {
        self.cpu_buffer.as_slice()
    }

    /// The items, to be changed. The GPU buffer learns of the change with
    /// the next `write`.
    pub fn cpu_buffer_mut(&mut self) -> (items: &mut Vec<T>)
        ensures
            items@ == old(self).items(),
            final(self).items() == final(items)@,
            final(self).capacity() == old(self).capacity(),
    {
        &mut self.cpu_buffer
    }

    /// Removes all items. The GPU buffer keeps its capacity.
    pub fn clear(&mut self)
        ensures
            final(self).items() == Seq::<T>::empty(),
            final(self).capacity() == old(self).capacity(),
    {
        self.cpu_buffer.clear();
    }

    /// Appends an item. The GPU buffer keeps its capacity until the next
    /// `write`.
    pub fn push(&mut self, item: T)
        ensures
            final(self).items() == old(self).items().push(item),
            final(self).capacity() == old(self).capacity(),
    {
        self.cpu_buffer.push(item);
    }

    /// Prepares the upload of the items: where the GPU buffer is too small
    /// for them, its capacity is doubled until it is not, and the buffer is
    /// to be replaced.
    pub fn write(&mut self) -> (upload: GpuWrite)
        requires
            old(self).wf(),
        ensures
            final(self).wf(),
            final(self).items() == old(self).items(),
            final(self).capacity() == grown(old(self).capacity(), old(self).items().len() as int),
            final(self).capacity() >= old(self).capacity(),
            final(self).capacity() >= final(self).items().len(),
            upload == if old(self).capacity() < old(self).items().len() {
                GpuWrite::Reallocate { capacity: final(self).capacity() as usize }
            } else {
                GpuWrite::Reuse
            },
    {
        let len = self.cpu_buffer.len();
        proof {
            lemma_grown(self.inner_cap as int, len as int);
        }
        if self.inner_cap < len {
            while self.inner_cap < len
                invariant
                    0 < self.inner_cap,
                    len == self.cpu_buffer.len(),
                    self.cpu_buffer@ == old(self).cpu_buffer@,
                    grown(self.inner_cap as int, len as int) == grown(
                        old(self).inner_cap as int,
                        len as int,
                    ),
                decreases shortfall(self.inner_cap as int, len as int),
            {
                self.inner_cap = if self.inner_cap <= usize::MAX / 2 {
                    self.inner_cap * 2
                } else {
                    usize::MAX
                };
            }
            GpuWrite::Reallocate { capacity: self.inner_cap }
        } else {
            GpuWrite::Reuse
        }
    }
}

} // verus!
