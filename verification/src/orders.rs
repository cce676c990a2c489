//! The order-lifecycle tracker: the two-state record of the in-flight or last
//! order, and the transitions between "pending" and "idle".

use vstd::prelude::*;
use vstd::string::StringExecFns;

verus! {

/// The record of the most recent hop order: the cross-rate price it was
/// submitted at, and whether the exchange has finished filling it.
#[derive(Clone, Copy, PartialEq, Eq, Structural, Debug)]
pub struct OrderRecord {
    pub price: u64,
    pub completed: bool,
}

/// Owns the current order record (possibly still pending) and the snapshot of
/// the last completed order, used to roll back on a manual cancellation.
#[derive(Clone, Copy, PartialEq, Eq, Structural, Debug)]
pub struct OrderTracker {
    pub last_order: OrderRecord,
    pub last_completed_order: OrderRecord,
}

/// The fill transition: the pending record completes and is copied into
/// the last-completed snapshot.
pub open spec fn spec_fill_transition(t: OrderTracker) -> OrderTracker {
    let filled = OrderRecord { price: t.last_order.price, completed: true };
    OrderTracker { last_order: filled, last_completed_order: filled }
}

/// The manual-revert transition: the pending record is discarded and the
/// last-completed snapshot restored as current.
pub open spec fn spec_revert_transition(t: OrderTracker) -> OrderTracker {
    OrderTracker { last_order: t.last_completed_order, last_completed_order: t.last_completed_order }
}

/// Law: the poll-driven completion and the manual revert tolerate racing
/// each other.  Either transition leaves the tracker idle (the current
/// record completed), and once one of them has happened the other no
/// longer changes the state, so any interleaving converges on the state of
/// whichever transition won.
pub proof fn lemma_fill_and_revert_converge(t: OrderTracker)
    requires
        t.last_completed_order.completed,
    ensures
        spec_fill_transition(t).last_order.completed,
        spec_revert_transition(t).last_order.completed,
        spec_revert_transition(spec_fill_transition(t)) == spec_fill_transition(t),
        spec_fill_transition(spec_revert_transition(t)) == spec_revert_transition(t),
{
}

impl OrderTracker {
    /// Builds a tracker from the two records loaded from durable storage.
    pub fn new(last_order: OrderRecord, last_completed_order: OrderRecord) -> (t: OrderTracker)
        ensures
            t.last_order == last_order,
            t.last_completed_order == last_completed_order,
    {
        OrderTracker { last_order, last_completed_order }
    }

    /// The tracker is in the "pending" state exactly while the current order
    /// has not completed; no price-driven decisions may be made then.
    pub fn is_waiting_order_resolution(&self) -> (waiting: bool)
        ensures
            waiting == !self.last_order.completed,
    {
        !self.last_order.completed
    }

    /// The reference price and completion flag of the current order.
    pub fn get_last_trade(&self) -> (r: (u64, bool))
        ensures
            r.0 == self.last_order.price,
            r.1 == self.last_order.completed,
    {
        (self.last_order.price, self.last_order.completed)
    }

    /// Records a freshly submitted order: the current record takes the
    /// submitted price and becomes pending.
    pub fn update_last_order(&mut self, price: u64)
        ensures
            final(self).last_order == (OrderRecord { price, completed: false }),
            final(self).last_completed_order == old(self).last_completed_order,
    {
        self.last_order.price = price;
        self.last_order.completed = false;
    }

    /// Marks the current order as filled: the completion flag flips and the
    /// completed record is copied into the last-completed snapshot.
    pub fn complete_last_order(&mut self)
        ensures
            *final(self) == spec_fill_transition(*old(self)),
            final(self).last_order == (OrderRecord {
                price: old(self).last_order.price,
                completed: true,
            }),
            final(self).last_completed_order == final(self).last_order,
    {
        self.last_order.completed = true;
        self.last_completed_order = self.last_order;
    }

    /// Discards the current record and restores the last-completed snapshot
    /// as current; the rollback half of a manual cancellation.
    pub fn load_previous_order(&mut self)
        ensures
            *final(self) == spec_revert_transition(*old(self)),
            final(self).last_order == old(self).last_completed_order,
            final(self).last_completed_order == old(self).last_completed_order,
    {
        self.last_order = self.last_completed_order;
    }

    /// The manual revert path: given whether the cancel-all request succeeded,
    /// either rolls the current record back to the last-completed snapshot or
    /// leaves everything unchanged, and reports the outcome as a message.
    pub fn abort_order(&mut self, cancel_succeeded: bool) -> (msg: String)
        ensures
            cancel_succeeded ==> {
                &&& final(self).last_order == old(self).last_completed_order
                &&& final(self).last_completed_order == old(self).last_completed_order
                &&& msg@ == "Successfully reverted order!"@
            },
            !cancel_succeeded ==> {
                &&& final(self).last_order == old(self).last_order
                &&& final(self).last_completed_order == old(self).last_completed_order
                &&& msg@ == "Could not cancel order"@
            },
    {
        if cancel_succeeded {
            self.load_previous_order();
            String::from_str("Successfully reverted order!")
        } else {
            String::from_str("Could not cancel order")
        }
    }
}

} // verus!
