//! The command-queue half of the actor pattern both services share: one
//! owner, one ordered bounded queue, one reply per command.
//!
//! An actor owns its backend client exclusively and takes work from a queue,
//! so access to the shared connection is serialized structurally — no lock,
//! no interleaved exchanges.  The queue below is that queue's model: bounded
//! (submission fails once the capacity is reached, the system's backpressure
//! point) and strictly first-in, first-out (commands leave in the order they
//! entered, never reordered).

use vstd::prelude::*;

verus! {

/// Why a submission was refused: the actor no longer accepts work — its
/// queue stands at capacity, or the actor has terminated.
#[derive(Clone, Copy, Debug, PartialEq, Eq, Structural)]
pub enum SubmitError {
    QueueClosed,
}

/// A bounded, ordered, multi-producer/single-consumer command queue.  Its
/// view is the sequence of queued commands, oldest first; `capacity` is the
/// bound fixed at construction.
pub struct CommandQueue<T> {
    items: Vec<T>,
    capacity: usize,
}

impl<T> View for CommandQueue<T> {
    type V = Seq<T>;

    closed spec fn view(&self) -> Seq<T> {
        self.items@
    }
}

impl<T> CommandQueue<T> {
    /// The bound fixed at construction: how many commands the queue holds at
    /// most.
    pub closed spec fn cap(&self) -> usize {
        self.capacity
    }

    /// An empty queue that will hold at most `capacity` commands.
    pub fn new(capacity: usize) -> (r: CommandQueue<T>)
        ensures
            r@ == Seq::<T>::empty(),
            r.cap() == capacity,
    {
        CommandQueue { items: Vec::new(), capacity }
    }

    /// How many commands are waiting.
    pub fn len(&self) -> (r: usize)
        ensures
            r == self@.len(),
    {
        self.items.len()
    }

    /// Enqueue a command behind all earlier ones.  Fails, leaving the queue
    /// unchanged, when the queue already stands at capacity: the submitter is
    /// pushed back rather than the queue grown without bound.
    pub fn submit(&mut self, cmd: T) -> (r: Result<(), SubmitError>)
        ensures
            old(self)@.len() < old(self).cap() ==> (r matches Ok(u) && final(self)@ == old(
                self,
            )@.push(cmd)),
            old(self)@.len() >= old(self).cap() ==> (r matches Err(e) && e
                == SubmitError::QueueClosed && final(self)@ == old(self)@),
            final(self).cap() == old(self).cap(),
    {
        if self.items.len() < self.capacity {
            self.items.push(cmd);
            Ok(())
        } else {
            Err(SubmitError::QueueClosed)
        }
    }

    /// Dequeue the oldest command, or nothing when the queue is empty: the
    /// consumer sees commands exactly in submission order.
    pub fn recv(&mut self) -> (r: Option<T>)
        ensures
            old(self)@.len() == 0 ==> r is None && final(self)@ == old(self)@,
            old(self)@.len() > 0 ==> (r matches Some(c) && c == old(self)@[0] && final(self)@
                == old(self)@.drop_first()),
            final(self).cap() == old(self).cap(),
    {
        if self.items.len() == 0 {
            None
        } else {
            let c = self.items.remove(0);
            proof {
                assert(self.items@ =~= old(self)@.drop_first());
            }
            Some(c)
        }
    }
}

} // verus!
