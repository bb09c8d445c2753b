use vstd::prelude::*;

verus! {

/// Capacity after asking a buffer of capacity `cap` for room for `target`
/// instances: unchanged when it already fits, otherwise doubled (saturating at
/// the address-space limit) or raised straight to `target`, whichever is
/// larger. Growth never shrinks and never under-allocates.
pub open spec fn grown_capacity(cap: int, target: int) -> int {
    let doubled = if cap <= usize::MAX as int / 2 {
        2 * cap
    } else {
        usize::MAX as int
    };
    if target <= cap {
        cap
    } else if doubled > target {
        doubled
    } else {
        target
    }
}

/// Model of one kind's growable device-side instance buffer: an arena with an
/// explicit capacity and the logically written contents. Growing and writing
/// are the two separate operations the device object exposes; the scoped
/// transfer that carries the written contents to the device is performed by
/// the unverified device glue, which replays exactly this state.
#[derive(Debug)]
pub struct Buffer<T> {
    items: Vec<T>,
    size: usize,
}

impl<T> View for Buffer<T> {
    type V = Seq<T>;

    /// A buffer is abstractly the sequence of instances last written to it.
    closed spec fn view(&self) -> Seq<T> {
        self.items@
    }
}

impl<T> Buffer<T> {
    /// Instance capacity of the device allocation backing this buffer.
    pub closed spec fn spec_capacity(&self) -> nat {
        self.size as nat
    }

    /// Creates a buffer with room for `capacity` instances and nothing
    /// written yet.
    pub fn new(capacity: usize) -> (r: Self)
        ensures
            r@ == Seq::<T>::empty(),
            r.spec_capacity() == capacity as int,
    {
        let r = Buffer { items: Vec::new(), size: capacity };
        assert(r.items@ =~= Seq::<T>::empty());
        r
    }

    /// Number of instances currently written.
    pub fn len(&self) -> (r: usize)
        ensures
            r == self@.len(),
    {
        self.items.len()
    }

    /// Current instance capacity.
    pub fn capacity(&self) -> (r: usize)
        ensures
            r as int == self.spec_capacity(),
    {
        self.size
    }

    /// The instance at position `i` of the written contents.
    pub fn get(&self, i: usize) -> (r: &T)
        requires
            i < self@.len(),
        ensures
            *r == self@[i as int],
    {
        &self.items[i]
    }

    /// Grows the buffer so that at least `target` instances fit, amortizing
    /// future growth by doubling; never shrinks and leaves the written
    /// contents untouched. Returns whether a new allocation was needed.
    pub fn resize(&mut self, target: usize) -> (grew: bool)
        ensures
            final(self)@ == old(self)@,
            final(self).spec_capacity() == grown_capacity(old(self).spec_capacity() as int, target as int),
            final(self).spec_capacity() >= target as int,
            final(self).spec_capacity() >= old(self).spec_capacity(),
            grew == (target as int > old(self).spec_capacity()),
    {
        if target <= self.size {
            return false;
        }
        let doubled = if self.size <= usize::MAX / 2 {
            self.size * 2
        } else {
            usize::MAX
        };
        self.size = if doubled > target {
            doubled
        } else {
            target
        };
        true
    }

    /// Replaces the written contents with `items`, which must fit the current
    /// capacity. The capacity is left untouched.
    pub fn write(&mut self, items: Vec<T>)
        requires
            items@.len() <= old(self).spec_capacity(),
        ensures
            final(self)@ == items@,
            final(self).spec_capacity() == old(self).spec_capacity(),
    {
        self.items = items;
    }
}

} // verus!
