//! The queue of actions: what goes in first comes out first.

use std::collections::VecDeque;
use vstd::prelude::*;
use crate::action::{views, Action, ActionView};

verus! {

/// The actions that wait for the dispatch loop, the one that waits longest
/// at the front.
#[derive(Debug)]
pub struct ActionQueue {
    items: VecDeque<Action>,
}

impl View for ActionQueue {
    type V = Seq<ActionView>;

    closed spec fn view(&self) -> Seq<ActionView> {
        views(self.items@)
    }
}

/// The queue `queue` after `actions` have joined it, in their order.
pub open spec fn enqueued(queue: Seq<ActionView>, actions: Seq<ActionView>) -> Seq<ActionView> {
    queue + actions
}

/// The action that leaves the queue after `served` others have left it.
pub open spec fn served_at(queue: Seq<ActionView>, served: int) -> ActionView {
    queue.skip(served)[0]
}

/// Actions that join a queue in some order leave it in that order, after
/// those that waited before them: the action that joined as number `k` leaves
/// when the actions that waited and the `k` that joined before it have left.
pub proof fn lemma_first_in_first_out(queue: Seq<ActionView>, actions: Seq<ActionView>, k: int)
    requires
        0 <= k < actions.len(),
    ensures
        served_at(enqueued(queue, actions), queue.len() + k) == actions[k],
        forall|i: int| 0 <= i < queue.len() ==> served_at(enqueued(queue, actions), i) == queue[i],
{
}

impl ActionQueue {
    /// A queue in which nothing waits.
    pub fn new() -> (queue: ActionQueue)
        ensures
            queue@ == Seq::<ActionView>::empty(),
    {
        let queue = ActionQueue { items: VecDeque::new() };
        queue
    }

    /// Puts `action` at the back.
    pub fn push(&mut self, action: Action)
        ensures
            final(self)@ == old(self)@.push(action@),
    {
        self.items.push_back(action);
    }

    /// Puts `actions` at the back, in their order.
    pub fn extend(&mut self, actions: &Vec<Action>)
        ensures
            final(self)@ == enqueued(old(self)@, views(actions@)),
    {
        let mut k: usize = 0;
        while k < actions.len()
            invariant
                k <= actions.len(),
                self@ == old(self)@ + views(actions@).take(k as int),
            decreases actions.len() - k,
        {
            self.push(actions[k].clone());
            k += 1;
        }
    }

    /// Takes the action at the front; none if nothing waits.
    pub fn pop(&mut self) -> (r: Option<Action>)
        ensures
            match r {
                Some(action) => old(self)@.len() > 0 && action@ == old(self)@[0] && final(self)@
                    == old(self)@.drop_first(),
                None => old(self)@.len() == 0 && final(self)@ == old(self)@,
            },
    {
        let r = self.items.pop_front();
        r
    }

    /// The number of actions that wait.
    pub fn len(&self) -> (n: usize)
        ensures
            n == self@.len(),
    {
        self.items.len()
    }

    /// Whether nothing waits.
    pub fn is_empty(&self) -> (r: bool)
        ensures
            r == (self@.len() == 0),
    {
        self.items.len() == 0
    }
}

} // verus!
