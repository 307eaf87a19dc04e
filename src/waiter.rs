use vstd::prelude::*;

verus! {

/// What a [`Waiter`] holds, as its contracts see it.
pub struct WaiterModel<T> {
    /// `wake` has been called at least once.
    pub completed: bool,
    /// The suspended side has left a wake handle that has not been used yet.
    pub waiting: bool,
    /// The value handed to `wake` that no poll has taken yet.
    pub value: Option<T>,
}

impl<T> WaiterModel<T> {
    /// A fresh cell: nobody has woken it and nobody waits on it.
    pub open spec fn pending() -> Self {
        WaiterModel { completed: false, waiting: false, value: None }
    }

    /// A value is present only once the cell completed, and a completed cell
    /// keeps no wake handle.
    pub open spec fn wf(self) -> bool {
        &&& (self.value is Some ==> self.completed)
        &&& (self.completed ==> !self.waiting)
    }

    /// The delivered value has been taken: polling again is a misuse.
    pub open spec fn consumed(self) -> bool {
        self.completed && self.value is None
    }

    /// The cell after `wake(v)`: completed, holding `v`, its handle used up.
    pub open spec fn woken(self, v: T) -> Self {
        WaiterModel { completed: true, waiting: false, value: Some(v) }
    }

    /// The cell after one poll: a completed cell gives up its value, a
    /// pending one keeps the poller's wake handle.
    pub open spec fn polled(self) -> Self {
        if self.completed {
            WaiterModel { value: None, ..self }
        } else {
            WaiterModel { waiting: true, ..self }
        }
    }

    /// What one poll hands back: the delivered value, or nothing yet.
    pub open spec fn poll_result(self) -> Option<T> {
        if self.completed {
            self.value
        } else {
            None
        }
    }
}

/// A one-shot resumption cell: `wake` stores a value, and the suspended
/// side's next poll takes it.
pub struct Waiter<T> {
    completed: bool,
    callback: Option<std::task::Waker>,
    value: Option<T>,
}

impl<T> View for Waiter<T> {
    type V = WaiterModel<T>;

    closed spec fn view(&self) -> WaiterModel<T> {
        WaiterModel { completed: self.completed, waiting: self.callback is Some, value: self.value }
    }
}

impl<T> Waiter<T> {
    /// Creates a pending waiter.
    pub fn new() -> (r: Self)
        ensures
            r@ == WaiterModel::<T>::pending(),
    {
        Waiter { completed: false, callback: None, value: None }
    }

    /// Completes the waiter with `v`, replacing any earlier value, and
    /// invokes the stored wake handle, if there is one, exactly once.
    pub fn wake(&mut self, v: T)
        ensures
            final(self)@ == old(self)@.woken(v),
    {
        self.completed = true;
        self.value = Some(v);
        let callback = self.callback.take();
        if let Some(waker) = callback {
            waker.wake();
        }
    }

    /// One poll by the suspended side. A completed waiter hands over its
    /// value; a pending one keeps a clone of `waker` (dropping any handle it
    /// held) and returns `None`.
    pub fn poll(&mut self, waker: &std::task::Waker) -> (r: Option<T>)
        requires
            !old(self)@.consumed(),
        ensures
            r == old(self)@.poll_result(),
            final(self)@ == old(self)@.polled(),
    {
        if self.completed {
            self.value.take()
        } else {
            self.callback = Some(waker.clone());
            None
        }
    }

    /// Whether the value has already been taken by a poll.
    pub fn is_consumed(&self) -> (r: bool)
        ensures
            r == self@.consumed(),
    {
        self.completed && self.value.is_none()
    }
}

impl<T> Default for Waiter<T> {
    fn default() -> (r: Self)
        ensures
            r@ == WaiterModel::<T>::pending(),
    {
        Self::new()
    }
}

} // verus!
