use std::ops::Range;
use std::task::{Context, Waker};
use vstd::prelude::*;

verus! {

#[verifier::external_type_specification]
#[verifier::external_body]
pub struct ExWaker(Waker);

#[verifier::external_type_specification]
#[verifier::external_body]
pub struct ExContext<'a>(Context<'a>);

/// Relies on `Context::waker`: hands out the waker of the task being polled.
pub assume_specification<'a>[ Context::<'a>::waker ](cx: &Context<'a>) -> &'a Waker;

/// Relies on `Waker::clone`: a second handle on the same task.
pub assume_specification[ <Waker as Clone>::clone ](w: &Waker) -> Waker;

/// Relies on `Waker::wake_by_ref`: schedules the task, leaving the waker usable.
pub assume_specification[ Waker::wake_by_ref ](w: &Waker);

/// A byte queue with one slot for a task to wake when bytes are added.
pub struct AsyncBuffer {
    buffer: Vec<u8>,
    waker: Option<Waker>,
}

impl AsyncBuffer {
    /// The bytes queued, oldest first.
    pub closed spec fn contents(&self) -> Seq<u8> {
        self.buffer@
    }

    /// Whether a task is registered to be woken.
    pub closed spec fn has_waiter(&self) -> bool {
        self.waker is Some
    }

    /// An empty queue with no task registered.
    pub fn new() -> (r: AsyncBuffer)
        ensures
            r.contents() == Seq::<u8>::empty(),
            !r.has_waiter(),
    {
        AsyncBuffer { buffer: Vec::new(), waker: None }
    }

    /// The bytes queued.
    pub fn as_ref(&mut self) -> (r: &Vec<u8>)
        ensures
            r@ == old(self).contents(),
            *final(self) == *old(self),
    {
        &self.buffer
    }

    /// Removes the bytes at positions `range.start` up to `range.end`.
    pub fn drain(&mut self, range: Range<usize>)
        requires
            range.start <= range.end <= old(self).contents().len(),
        ensures
            final(self).contents() == old(self).contents().take(range.start as int)
                + old(self).contents().skip(range.end as int),
            final(self).has_waiter() == old(self).has_waiter(),
    {
        let mut tail = self.buffer.split_off(range.end);
        self.buffer.truncate(range.start);
        self.buffer.append(&mut tail);
        proof {
            assert(self.buffer@ =~= old(self).contents().take(range.start as int)
                + old(self).contents().skip(range.end as int));
        }
    }

    /// Appends `vec` and wakes the registered task, if any, which is then forgotten.
    pub fn extend(&mut self, vec: Vec<u8>)
        ensures
            final(self).contents() == old(self).contents() + vec@,
            !final(self).has_waiter(),
    {
        let mut vec = vec;
        self.buffer.append(&mut vec);
        self.wake();
    }

    /// Wakes the registered task, if any, and forgets it.
    pub fn wake(&mut self)
        ensures
            final(self).contents() == old(self).contents(),
            !final(self).has_waiter(),
    {
        if let Some(waker) = &self.waker {
            waker.wake_by_ref();
        }
        self.waker = None;
    }

    /// Registers the task being polled in `cx`, replacing any earlier one.
    pub fn set_waker(&mut self, cx: &mut Context<'_>)
        ensures
            final(self).contents() == old(self).contents(),
            final(self).has_waiter(),
    {
        self.waker = Some(cx.waker().clone());
    }
}

impl Default for AsyncBuffer {
    fn default() -> (r: AsyncBuffer)
        ensures
            r.contents() == Seq::<u8>::empty(),
            !r.has_waiter(),
    {
        AsyncBuffer::new()
    }
}

} // verus!
