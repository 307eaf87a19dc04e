//! Properties that hold across several operations, proved over the models.

use vstd::prelude::*;
use crate::event::EventModel;
use crate::waiter::WaiterModel;

verus! {

/// Every operation keeps a waiter well formed: a fresh cell is, waking
/// yields one, and so does polling a well-formed cell.
pub proof fn lemma_waiter_operations_keep_wf<T>(w: WaiterModel<T>, v: T)
    ensures
        WaiterModel::<T>::pending().wf(),
        w.woken(v).wf(),
        w.wf() ==> w.polled().wf(),
{
}

/// Every operation keeps an event well formed: registering, polling,
/// setting and clearing never leave a waiter in an ill-formed state.
pub proof fn lemma_event_operations_keep_wf(m: EventModel, ticket: int)
    requires
        m.wf(),
    ensures
        EventModel::initial().wf(),
        m.after_set().wf(),
        m.after_clear().wf(),
        m.after_register().wf(),
        m.can_poll(ticket) ==> m.after_poll(ticket).wf(),
{
    assert forall|i: int| 0 <= i < m.after_register().waiters.len() implies
        (#[trigger] m.after_register().waiters[i]).wf() by {
        if !m.signaled && i == m.waiters.len() {
        } else {
            assert(m.waiters[i].wf());
        }
    }
    if m.can_poll(ticket) {
        assert forall|i: int| 0 <= i < m.after_poll(ticket).waiters.len() implies
            (#[trigger] m.after_poll(ticket).waiters[i]).wf() by {
            assert(m.waiters[i].wf());
        }
    }
}

/// The flag follows the last operation: unset when new, set after `set`,
/// unset after `clear`.
pub proof fn lemma_flag_follows_last_operation(m: EventModel)
    ensures
        !EventModel::initial().signaled,
        m.after_set().signaled,
        !m.after_clear().signaled,
{
}

/// Waiting on a set event ends at once: no ticket is handed out and nothing
/// is registered.
pub proof fn lemma_wait_on_set_event_is_immediate(m: EventModel)
    requires
        m.signaled,
    ensures
        m.register_result() is None,
        m.after_register() == m,
{
}

/// One `set` releases every registered wait: each ticket may be polled, the
/// poll finds the wait over, and no waiter keeps an unused wake handle.
pub proof fn lemma_set_releases_every_waiter(m: EventModel)
    ensures
        forall|t: int|
            0 <= t < m.waiters.len() ==> {
                &&& #[trigger] m.after_set().can_poll(t)
                &&& m.after_set().poll_ready(t)
                &&& !m.after_set().waiters[t].waiting
            },
{
}

/// `clear` re-arms a set event: a wait that starts afterwards registers a
/// fresh waiter, and polling it suspends with the poller's wake handle kept.
pub proof fn lemma_clear_rearms(m: EventModel)
    ensures
        ({
            let c = m.after_set().after_clear();
            let t = m.waiters.len() as int;
            &&& c.register_result() == Some(t)
            &&& c.after_register().can_poll(t)
            &&& !c.after_register().poll_ready(t)
            &&& c.after_register().after_poll(t).waiters[t].waiting
        }),
{
}

/// A waiter delivers once. Two wakes before the suspended side resumes use
/// the wake handle only on the first (the second finds none), the next poll
/// hands over the last value, and after that poll the cell is consumed, so it
/// cannot be polled for a second delivery.
pub proof fn lemma_waiter_delivers_once<T>(w: WaiterModel<T>, v1: T, v2: T)
    requires
        w.wf(),
        !w.completed,
    ensures
        !w.woken(v1).waiting,
        w.woken(v1).woken(v2).poll_result() == Some(v2),
        w.woken(v1).woken(v2).polled().consumed(),
{
}

} // verus!
