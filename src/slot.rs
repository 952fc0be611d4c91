use vstd::prelude::*;

verus! {

/// The place where the live worker's handle is kept: empty, or exactly one
/// handle. Callers reach the handle only by `store` and `take`.
pub struct RuntimeSlot<H> {
    handle: Option<H>,
}

impl<H> View for RuntimeSlot<H> {
    type V = Option<H>;

    closed spec fn view(&self) -> Option<H> {
        self.handle
    }
}

impl<H> RuntimeSlot<H> {
    pub fn new() -> (r: RuntimeSlot<H>)
        ensures
            r@ is None,
    {
        RuntimeSlot { handle: None }
    }

    /// Whether a handle is held.
    pub fn peek(&self) -> (r: bool)
        ensures
            r == self@ is Some,
    {
        self.handle.is_some()
    }

    /// Puts a handle into the empty slot.
    pub fn store(&mut self, h: H)
        requires
            old(self)@ is None,
        ensures
            final(self)@ == Some(h),
    {
        self.handle = Some(h);
    }

    /// Removes and returns the handle, leaving the slot empty.
    pub fn take(&mut self) -> (r: Option<H>)
        ensures
            r == old(self)@,
            final(self)@ is None,
    {
        self.handle.take()
    }
}

} // verus!
