//! A run-once deferred action: a callable captured now, invoked exactly
//! once later, or dropped without ever running.
//!
//! [`Deferred`] owns its captured state and gives it up only to `call`,
//! which consumes the whole value — ownership makes a second invocation
//! impossible, and a drop without a call still releases the capture.
//!
//! The type-erased form of this idea keeps every action behind one
//! uniform handle: a fixed inline byte buffer holding either the capture
//! itself, when it fits, or the handle of its heap allocation. Erasure
//! works by reading the capture back out of raw bytes, which verified
//! code cannot do; what stands here is the buffer geometry and the
//! placement rule that decides between the inline and the heap path.

use vstd::prelude::*;

verus! {

/// Size in bytes of the inline buffer of the type-erased form.
pub const DATA_SIZE: usize = 12;

/// Alignment of that buffer: a plain byte array, so one.
pub const DATA_ALIGN: usize = 1;

/// The placement rule, decided once per captured type: a capture is
/// stored inline exactly when its size fits the buffer — zero-sized and
/// exactly buffer-sized captures included — and its alignment does not
/// exceed the buffer's. A capture whose size fits but whose alignment is
/// stricter must take the heap path.
pub fn fits_inline(size: usize, align: usize) -> (r: bool)
    ensures
        r == (size <= DATA_SIZE && align <= DATA_ALIGN),
{
    size <= DATA_SIZE && align <= DATA_ALIGN
}

/// A run-once deferred action capturing the callable `F`.
pub struct Deferred<F: FnOnce()> {
    f: F,
}

impl<F: FnOnce()> Deferred<F> {
    /// The captured callable, with whatever state it closed over.
    pub closed spec fn action(self) -> F {
        self.f
    }

    /// Capture a callable, to be invoked at most once, later.
    pub fn new(f: F) -> (r: Self)
        ensures
            r.action() == f,
    {
        Deferred { f }
    }

    /// Invoke the captured callable, exactly once, with exactly the
    /// captured state: consuming `self` is what rules a second call out.
    pub fn call(self)
        requires
            call_requires(self.action(), ()),
        ensures
            call_ensures(self.action(), (), ()),
    {
        let Deferred { f } = self;
        f()
    }
}

} // verus!
