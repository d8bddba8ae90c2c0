//! The event notifier: an in-process FIFO of human-readable progress
//! messages.
//!
//! The orchestrator publishes one message per settlement attempt as it starts
//! charging; a polling stream drains messages one at a time and never blocks.
//! Callers that share one notifier across tasks guard it with mutual
//! exclusion; the queue itself is plain sequential state.

use std::collections::VecDeque;
use vstd::prelude::*;

verus! {

/// A FIFO queue of progress messages, viewed as the sequence of pending
/// message contents, oldest first.
#[derive(Debug)]
pub struct EventNotifier {
    queue: VecDeque<String>,
}

impl View for EventNotifier {
    type V = Seq<Seq<char>>;

    closed spec fn view(&self) -> Seq<Seq<char>> {
        self.queue@.map_values(|m: String| m@)
    }
}

impl EventNotifier {
    /// A notifier with no pending messages.
    pub fn new() -> (n: EventNotifier)
        ensures
            n@ == Seq::<Seq<char>>::empty(),
    {
        let n = EventNotifier { queue: VecDeque::new() };
        proof {
            assert(n@ =~= Seq::<Seq<char>>::empty());
        }
        n
    }

    /// The number of pending messages.
    pub fn len(&self) -> (l: usize)
        ensures
            l == self@.len(),
    {
        self.queue.len()
    }

    /// Appends `message` behind every pending message.  Non-blocking and
    /// bounded only by memory.
    pub fn publish(&mut self, message: String)
        ensures
            final(self)@ == old(self)@.push(message@),
    {
        let ghost before = self.queue@;
        self.queue.push_back(message);
        proof {
            assert(final(self)@ =~= old(self)@.push(message@));
        }
    }

    /// Removes and returns the oldest pending message, or `None` when the
    /// queue is empty; never blocks either way.
    pub fn drain_one(&mut self) -> (r: Option<String>)
        ensures
            old(self)@.len() == 0 ==> r is None && final(self)@ == old(self)@,
            old(self)@.len() > 0 ==> (r matches Some(m) && m@ == old(self)@[0] && final(self)@
                == old(self)@.drop_first()),
    {
        let r = self.queue.pop_front();
        proof {
            if old(self)@.len() > 0 {
                assert(final(self)@ =~= old(self)@.drop_first());
            }
        }
        r
    }
}

/// The messages handed out by `n` successive drains of a queue whose pending
/// contents are `q`: per `drain_one`'s contract, each drain yields the front
/// and leaves the rest.
pub open spec fn spec_drained(q: Seq<Seq<char>>, n: nat) -> Seq<Seq<char>>
    decreases n,
{
    if n == 0 || q.len() == 0 {
        Seq::empty()
    } else {
        seq![q[0]] + spec_drained(q.drop_first(), (n - 1) as nat)
    }
}

/// The FIFO delivery law: publishing `msgs` onto an empty notifier leaves the
/// queue holding exactly `msgs`, and draining as many times as there are
/// messages yields exactly `msgs`, in publish order, each exactly once.
pub proof fn lemma_fifo_order(msgs: Seq<Seq<char>>)
    ensures
        spec_drained(msgs, msgs.len()) == msgs,
    decreases msgs.len(),
{
    if msgs.len() == 0 {
        assert(spec_drained(msgs, msgs.len()) =~= msgs);
    } else {
        lemma_fifo_order(msgs.drop_first());
        assert(spec_drained(msgs, msgs.len()) =~= msgs);
    }
}

/// Draining an empty queue yields nothing, however often it is tried.
pub proof fn lemma_drain_empty(n: nat)
    ensures
        spec_drained(Seq::<Seq<char>>::empty(), n) == Seq::<Seq<char>>::empty(),
{
}

} // verus!
