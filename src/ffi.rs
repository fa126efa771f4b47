use vstd::prelude::*;

verus! {

/// Gives a native call one place to write an out-parameter into: the slot
/// that a handle, a count or a value lands in.
pub trait AsFFIPtr {
    type Target;

    /// The value in the slot.
    spec fn slot(&self) -> Self::Target;

    /// A reference to the slot; what is written through it becomes the
    /// slot's value.
    fn as_ffi_ptr(&mut self) -> (r: &mut Self::Target)
        ensures
            *r == old(self).slot(),
            final(self).slot() == *final(r),
    ;
}

impl AsFFIPtr for i32 {
    type Target = i32;

    open spec fn slot(&self) -> i32 {
        *self
    }

    fn as_ffi_ptr(&mut self) -> (r: &mut i32) {
        self
    }
}

impl AsFFIPtr for isize {
    type Target = isize;

    open spec fn slot(&self) -> isize {
        *self
    }

    fn as_ffi_ptr(&mut self) -> (r: &mut isize) {
        self
    }
}

impl AsFFIPtr for u32 {
    type Target = u32;

    open spec fn slot(&self) -> u32 {
        *self
    }

    fn as_ffi_ptr(&mut self) -> (r: &mut u32) {
        self
    }
}

impl AsFFIPtr for u64 {
    type Target = u64;

    open spec fn slot(&self) -> u64 {
        *self
    }

    fn as_ffi_ptr(&mut self) -> (r: &mut u64) {
        self
    }
}

impl AsFFIPtr for usize {
    type Target = usize;

    open spec fn slot(&self) -> usize {
        *self
    }

    fn as_ffi_ptr(&mut self) -> (r: &mut usize) {
        self
    }
}

/// The slot that a creating native call writes a new object's handle into,
/// as an address; zero stands for null.
#[derive(Debug)]
pub struct HandleSlot {
    pub token: usize,
}

impl HandleSlot {
    /// An empty slot, holding null.
    pub fn new() -> (r: HandleSlot)
        ensures
            r.token == 0,
    {
        HandleSlot { token: 0 }
    }
}

impl AsFFIPtr for HandleSlot {
    type Target = usize;

    open spec fn slot(&self) -> usize {
        self.token
    }

    fn as_ffi_ptr(&mut self) -> (r: &mut usize) {
        &mut self.token
    }
}

} // verus!
