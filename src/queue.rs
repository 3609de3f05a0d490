use vstd::prelude::*;

use crate::challenge::Challenge;

verus! {

/// The challenges of the current batch that have not been taken yet, in the
/// order the service sent them.
pub struct ChallengeQueue {
    items: Vec<Challenge>,
}

impl View for ChallengeQueue {
    type V = Seq<Challenge>;

    closed spec fn view(&self) -> Seq<Challenge> {
        self.items@
    }
}

impl ChallengeQueue {
    /// An empty queue.
    pub fn new() -> (r: ChallengeQueue)
        ensures
            r@ == Seq::<Challenge>::empty(),
    {
        ChallengeQueue { items: Vec::new() }
    }

    /// Replaces the whole queue with `batch`; whatever was left is dropped.
    pub fn refill(&mut self, batch: Vec<Challenge>)
        ensures
            final(self)@ == batch@,
    {
        self.items = batch;
    }

    /// Removes and returns the head, or `None` when nothing is left.
    pub fn take_next(&mut self) -> (r: Option<Challenge>)
        ensures
            old(self)@.len() == 0 ==> r is None && final(self)@ == old(self)@,
            old(self)@.len() > 0 ==> r == Some(old(self)@[0]) && final(self)@
                == old(self)@.drop_first(),
    {
        if self.items.len() == 0 {
            None
        } else {
            let c = self.items.remove(0);
            proof {
                assert(self.items@ =~= old(self)@.drop_first());
            }
            Some(c)
        }
    }

    /// How many challenges are left.
    pub fn remaining(&self) -> (r: usize)
        ensures
            r == self@.len(),
    {
        self.items.len()
    }

    /// Whether nothing is left.
    pub fn is_empty(&self) -> (r: bool)
        ensures
            r == (self@.len() == 0),
    {
        self.items.len() == 0
    }
}

} // verus!
