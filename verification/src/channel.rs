//! The work channel: one first-in-first-out queue of pending jobs with a
//! writable end that can be closed.
use vstd::prelude::*;
use std::collections::VecDeque;

verus! {

/// What a worker learns from one look at the channel.
#[derive(Clone, Copy, Debug, PartialEq, Eq, Structural)]
pub enum Received {
    /// The job that was at the head of the queue; it has been removed.
    Job(u64),
    /// The queue is empty but still open: a real worker would keep waiting.
    Empty,
    /// The queue is empty and closed: no job will ever arrive.
    Closed,
}

/// The job that `send` could not enqueue because the channel was closed.
#[derive(Clone, Copy, Debug, PartialEq, Eq, Structural)]
pub struct SendError(pub u64);

/// The mathematical content of a channel.
pub struct ChannelView {
    /// Jobs that were sent and not yet received, oldest first.
    pub pending: Seq<u64>,
    /// Whether the writable end still exists.
    pub open: bool,
}

/// An unbounded FIFO queue of job identifiers with a closable writable end.
pub struct Channel {
    queue: VecDeque<u64>,
    open: bool,
}

impl View for Channel {
    type V = ChannelView;

    closed spec fn view(&self) -> ChannelView {
        ChannelView { pending: self.queue@, open: self.open }
    }
}

/// What `receive` reports on a channel with the given content.
pub open spec fn spec_receive(c: ChannelView) -> Received {
    if c.pending.len() > 0 {
        Received::Job(c.pending[0])
    } else if c.open {
        Received::Empty
    } else {
        Received::Closed
    }
}

/// The content that `receive` leaves behind: the head is gone, if there was one.
pub open spec fn spec_after_receive(c: ChannelView) -> ChannelView {
    if c.pending.len() > 0 {
        ChannelView { pending: c.pending.drop_first(), open: c.open }
    } else {
        c
    }
}

impl Channel {
    /// An open channel with nothing queued.
    pub fn new() -> (c: Channel)
        ensures
            c@.pending == Seq::<u64>::empty(),
            c@.open,
    {
        Channel { queue: VecDeque::new(), open: true }
    }

    /// Whether the writable end still exists.
    pub fn is_open(&self) -> (b: bool)
        ensures
            b == self@.open,
    {
        self.open
    }

    /// The number of jobs waiting to be received.
    pub fn len(&self) -> (n: usize)
        ensures
            n == self@.pending.len(),
    {
        self.queue.len()
    }

    /// Enqueues `job` at the tail. Fails exactly when the channel is closed,
    /// and then hands the job back and changes nothing.
    pub fn send(&mut self, job: u64) -> (r: Result<(), SendError>)
        ensures
            old(self)@.open ==> r == Ok::<(), SendError>(()) && final(self)@ == (ChannelView {
                pending: old(self)@.pending.push(job),
                open: true,
            }),
            !old(self)@.open ==> r == Err::<(), SendError>(SendError(job)) && final(self)@
                == old(self)@,
    {
        if self.open {
            self.queue.push_back(job);
            Ok(())
        } else {
            Err(SendError(job))
        }
    }

    /// Removes and returns the head of the queue. On an empty queue nothing
    /// changes and the answer tells whether more jobs may still arrive.
    pub fn receive(&mut self) -> (r: Received)
        ensures
            r == spec_receive(old(self)@),
            final(self)@ == spec_after_receive(old(self)@),
    {
        match self.queue.pop_front() {
            Some(job) => {
                assert(self.queue@ =~= old(self).queue@.drop_first());
                Received::Job(job)
            },
            None => {
                if self.open {
                    Received::Empty
                } else {
                    Received::Closed
                }
            },
        }
    }

    /// Closes the writable end. Jobs already queued stay receivable.
    pub fn close(&mut self)
        ensures
            final(self)@ == (ChannelView { pending: old(self)@.pending, open: false }),
    {
        self.open = false;
    }
}

} // verus!
