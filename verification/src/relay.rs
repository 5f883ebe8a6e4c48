//! The in-process conduit from the streaming listener to the consumer:
//! an ordered queue that never drops a delivered message and whose closing
//! ends the consumer's reads instead of failing them.
use vstd::prelude::*;
use crate::model::{Message, MessageView};

verus! {

/// The relay: messages leave in exactly the order they were pushed, none
/// is dropped, and there is no capacity bound — unbounded growth is the
/// accepted tradeoff over losing data.
pub struct Relay {
    queue: Vec<Message>,
    closed: bool,
}

impl View for Relay {
    type V = Seq<MessageView>;

    closed spec fn view(&self) -> Seq<MessageView> {
        self.queue@.map_values(|m: Message| m@)
    }
}

impl Relay {
    /// Whether the relay was closed.
    pub closed spec fn spec_closed(&self) -> bool {
        self.closed
    }

    /// A fresh, open, empty relay: one is made per connection.
    pub fn new() -> (r: Relay)
        ensures
            r@ == Seq::<MessageView>::empty(),
            !r.spec_closed(),
    {
        let r = Relay { queue: Vec::new(), closed: false };
        proof {
            assert(r@ =~= Seq::<MessageView>::empty());
        }
        r
    }

    /// Appends one decoded message at the back; everything already queued
    /// keeps its place.
    pub fn push(&mut self, m: Message)
        requires
            !old(self).spec_closed(),
        ensures
            final(self)@ == old(self)@.push(m@),
            !final(self).spec_closed(),
    {
        self.queue.push(m);
        proof {
            assert(self@ =~= old(self)@.push(m@));
        }
    }

    /// Takes the oldest queued message; nothing where the queue is empty.
    pub fn pop(&mut self) -> (r: Option<Message>)
        ensures
            final(self).spec_closed() == old(self).spec_closed(),
            match r {
                Some(m) => old(self)@.len() > 0 && m@ == old(self)@[0] && final(self)@ == old(
                    self,
                )@.drop_first(),
                None => old(self)@.len() == 0 && final(self)@ == old(self)@,
            },
    {
        if self.queue.len() == 0 {
            None
        } else {
            let m = self.queue.remove(0);
            proof {
                assert(self@ =~= old(self)@.drop_first());
            }
            Some(m)
        }
    }

    /// Closes the relay on disconnect; the queued backlog stays readable,
    /// so the consumer drains and then ends gracefully.
    pub fn close(&mut self)
        ensures
            final(self)@ == old(self)@,
            final(self).spec_closed(),
    {
        self.closed = true;
    }

    /// Whether reads past the backlog would end.
    pub fn is_closed(&self) -> (r: bool)
        ensures
            r == self.spec_closed(),
    {
        self.closed
    }

    /// How many messages wait in the queue.
    pub fn len(&self) -> (r: usize)
        ensures
            r == self@.len(),
    {
        self.queue.len()
    }
}

} // verus!
