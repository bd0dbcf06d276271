//! A first-in, first-out queue of events.

use std::collections::VecDeque;
use vstd::prelude::*;

verus! {

/// A queue of events: what is added first comes out first.
pub struct Events<T> {
    events: VecDeque<T>,
}

impl<T> View for Events<T> {
    type V = Seq<T>;

    /// The waiting events, oldest first.
    closed spec fn view(&self) -> Seq<T> {
        self.events@
    }
}

impl<T> Default for Events<T> {
    fn default() -> (queue: Self)
        ensures
            queue@ == Seq::<T>::empty(),
    {
        Self { events: VecDeque::new() }
    }
}

impl<T> Events<T> {
    /// Puts `event` behind the waiting events.
    pub fn add_event(&mut self, event: T)
        ensures
            final(self)@ == old(self)@.push(event),
    {
        self.events.push_back(event);
    }

    /// Takes the oldest waiting event, if there is one.
    pub fn get_event(&mut self) -> (event: Option<T>)
        ensures
            old(self)@.len() == 0 ==> event is None && final(self)@ == old(self)@,
            old(self)@.len() > 0 ==> event == Some(old(self)@[0]) && final(self)@ == old(self)@.drop_first(),
    {
        let event = self.events.pop_front();
        proof {
            if old(self)@.len() > 0 {
                assert(self@ =~= old(self)@.drop_first());
            }
        }
        event
    }

    /// Drops every waiting event.
    pub fn clear(&mut self)
        ensures
            final(self)@ == Seq::<T>::empty(),
    {
        self.events.clear();
    }

    /// Takes all the waiting events, oldest first, and leaves the queue
    /// empty.
    pub fn get_all(&mut self) -> (data: VecDeque<T>)
        ensures
            data@ == old(self)@,
            final(self)@ == Seq::<T>::empty(),
    {
        let mut data = VecDeque::with_capacity(self.events.len());
        while self.events.len() > 0
            invariant
                data@ + self.events@ == old(self)@,
            decreases self.events@.len(),
        {
            let ghost before = self.events@;
            if let Some(e) = self.events.pop_front() {
                data.push_back(e);
                assert(data@ + self.events@ =~= old(self)@) by {
                    assert(self.events@ =~= before.drop_first());
                }
            }
        }
        assert(self.events@ =~= Seq::<T>::empty());
        assert(data@ =~= old(self)@);
        data
    }
}

/// First in, first out: of two events added one after the other, the first
/// stands before the second among the drained events, and both stand behind
/// what waited before.
pub proof fn law_fifo<T>(waiting: Seq<T>, first: T, second: T)
    ensures
        waiting.push(first).push(second) == waiting + seq![first, second],
        waiting.push(first).push(second)[waiting.len() as int] == first,
        waiting.push(first).push(second)[waiting.len() as int + 1] == second,
{
    assert(waiting.push(first).push(second) =~= waiting + seq![first, second]);
}

} // verus!
