use vstd::prelude::*;
use crate::waiter::{Waiter, WaiterModel};

verus! {

/// What an [`Event`] holds, as its contracts see it.
pub struct EventModel {
    /// The signal is set.
    pub signaled: bool,
    /// Every waiter ever registered, in registration order.
    pub waiters: Seq<WaiterModel<()>>,
}

impl EventModel {
    /// A fresh event: unset, with an empty registry.
    pub open spec fn initial() -> Self {
        EventModel { signaled: false, waiters: Seq::empty() }
    }

    /// Every registered waiter is well formed.
    pub open spec fn wf(self) -> bool {
        forall|i: int| 0 <= i < self.waiters.len() ==> (#[trigger] self.waiters[i]).wf()
    }

    /// The event after `set`: signaled, and every registered waiter woken
    /// with the unit value.
    pub open spec fn after_set(self) -> Self {
        EventModel {
            signaled: true,
            waiters: self.waiters.map_values(|w: WaiterModel<()>| w.woken(())),
        }
    }

    /// The event after `clear`: unset, its registry untouched.
    pub open spec fn after_clear(self) -> Self {
        EventModel { signaled: false, ..self }
    }

    /// The event after a task starts waiting: a set event is left as it is;
    /// an unset one registers a fresh pending waiter at the end.
    pub open spec fn after_register(self) -> Self {
        if self.signaled {
            self
        } else {
            EventModel { waiters: self.waiters.push(WaiterModel::pending()), ..self }
        }
    }

    /// The ticket that a task starting to wait is handed: none when the event
    /// is already set, else the index of its new waiter.
    pub open spec fn register_result(self) -> Option<int> {
        if self.signaled {
            None
        } else {
            Some(self.waiters.len() as int)
        }
    }

    /// The ticket may be polled: it names a waiter whose value is not taken.
    pub open spec fn can_poll(self, ticket: int) -> bool {
        0 <= ticket < self.waiters.len() && !self.waiters[ticket].consumed()
    }

    /// The event after the task holding `ticket` polls its waiter.
    pub open spec fn after_poll(self, ticket: int) -> Self {
        EventModel { waiters: self.waiters.update(ticket, self.waiters[ticket].polled()), ..self }
    }

    /// Whether that poll finds the wait over.
    pub open spec fn poll_ready(self, ticket: int) -> bool {
        self.waiters[ticket].poll_result() is Some
    }
}

/// A re-armable broadcast signal. Tasks that wait while it is unset are
/// registered as waiters; `set` wakes every one of them.
pub struct Event {
    signaled: bool,
    waiters: Vec<Waiter<()>>,
}

impl View for Event {
    type V = EventModel;

    closed spec fn view(&self) -> EventModel {
        EventModel {
            signaled: self.signaled,
            waiters: self.waiters@.map_values(|w: Waiter<()>| w@),
        }
    }
}

impl Event {
    /// Creates an unset event with no waiters.
    pub fn new() -> (r: Self)
        ensures
            r@ == EventModel::initial(),
    {
        let r = Event { signaled: false, waiters: Vec::new() };
        assert(r@.waiters =~= Seq::<WaiterModel<()>>::empty());
        r
    }

    /// Sets the event and wakes every registered waiter, in registration
    /// order, with the unit value.
    pub fn set(&mut self)
        ensures
            final(self)@ == old(self)@.after_set(),
    {
        self.signaled = true;
        let n = self.waiters.len();
        let mut i: usize = 0;
        while i < n
            invariant
                self.signaled,
                n == self.waiters@.len(),
                n == old(self).waiters@.len(),
                i <= n,
                forall|j: int| 0 <= j < i ==> #[trigger] self.waiters@[j]@
                    == old(self).waiters@[j]@.woken(()),
                forall|j: int| i <= j < n ==> #[trigger] self.waiters@[j]@
                    == old(self).waiters@[j]@,
            decreases n - i,
        {
            self.waiters[i].wake(());
            i += 1;
        }
        assert(self@.waiters =~= old(self)@.after_set().waiters);
    }

    /// Unsets the event. Registered waiters stay in the registry.
    pub fn clear(&mut self)
        ensures
            final(self)@ == old(self)@.after_clear(),
    {
        self.signaled = false;
    }

    /// Whether the event is set.
    pub fn is_set(&self) -> (r: bool)
        ensures
            r == self@.signaled,
    {
        self.signaled
    }

    /// First step of a wait. On a set event it returns `None`: the wait is
    /// over at once. Otherwise it registers a fresh waiter and returns its
    /// ticket, which the waiting task then polls with [`Event::poll_wait`].
    pub fn register_wait(&mut self) -> (r: Option<usize>)
        ensures
            final(self)@ == old(self)@.after_register(),
            r matches Some(t) ==> old(self)@.register_result() == Some(t as int),
            r is None ==> old(self)@.register_result() is None,
    {
        if self.signaled {
            None
        } else {
            let ticket = self.waiters.len();
            self.waiters.push(Waiter::new());
            assert(self@.waiters =~= old(self)@.after_register().waiters);
            Some(ticket)
        }
    }

    /// Whether `ticket` may be polled: it was handed out by this event and
    /// its wait has not already finished.
    pub fn can_poll(&self, ticket: usize) -> (r: bool)
        ensures
            r == self@.can_poll(ticket as int),
    {
        ticket < self.waiters.len() && !self.waiters[ticket].is_consumed()
    }

    /// One poll of the wait holding `ticket`. Returns `true` once the event
    /// has woken that waiter; until then keeps a clone of `waker` to be
    /// invoked by the next `set`, and returns `false`.
    pub fn poll_wait(&mut self, ticket: usize, waker: &std::task::Waker) -> (r: bool)
        requires
            old(self)@.can_poll(ticket as int),
        ensures
            final(self)@ == old(self)@.after_poll(ticket as int),
            r == old(self)@.poll_ready(ticket as int),
    {
        let got = self.waiters[ticket].poll(waker);
        assert(self@.waiters =~= old(self)@.after_poll(ticket as int).waiters);
        got.is_some()
    }
}

impl Default for Event {
    fn default() -> (r: Self)
        ensures
            r@ == EventModel::initial(),
    {
        Self::new()
    }
}

} // verus!
