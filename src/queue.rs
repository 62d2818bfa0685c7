use std::collections::VecDeque;
use vstd::prelude::*;

verus! {

/// The error of a submission to a queue that has been closed.
#[derive(Debug, Clone, Copy, PartialEq, Eq, Structural)]
pub struct QueueClosed;

/// What a consumer gets when it asks the queue for work.
pub enum Received<T> {
    /// The oldest queued task, now owned by this consumer alone.
    Task(T),
    /// Nothing is queued, but more may come: the consumer should wait.
    Empty,
    /// The queue is closed and drained: no task will ever come.
    EndOfStream,
}

/// An ordered channel of tasks that can be closed to new submissions.
///
/// Tasks already queued when it is closed stay deliverable until drained.
pub struct WorkQueue<T> {
    items: VecDeque<T>,
    closed: bool,
}

impl<T> WorkQueue<T> {
    /// The queued tasks, oldest first.
    pub closed spec fn pending(&self) -> Seq<T> {
        self.items@
    }

    /// Whether the queue refuses new submissions.
    pub closed spec fn is_closed(&self) -> bool {
        self.closed
    }

    /// An open, empty queue.
    pub fn new() -> (q: WorkQueue<T>)
        ensures
            q.pending() == Seq::<T>::empty(),
            !q.is_closed(),
    {
        WorkQueue { items: VecDeque::new(), closed: false }
    }

    /// Appends `task` behind every queued task, unless the queue is closed.
    pub fn submit(&mut self, task: T) -> (r: Result<(), QueueClosed>)
        ensures
            r is Ok <==> !old(self).is_closed(),
            final(self).is_closed() == old(self).is_closed(),
            old(self).is_closed() ==> final(self).pending() == old(self).pending(),
            !old(self).is_closed() ==> final(self).pending() == old(self).pending().push(task),
    {
        if self.closed {
            Err(QueueClosed)
        } else {
            self.items.push_back(task);
            Ok(())
        }
    }

    /// Refuses every later submission; queued tasks are kept. Closing twice is
    /// the same as closing once.
    pub fn close(&mut self)
        ensures
            final(self).is_closed(),
            final(self).pending() == old(self).pending(),
    {
        self.closed = true;
    }

    /// Whether the queue refuses new submissions.
    pub fn closed(&self) -> (r: bool)
        ensures
            r == self.is_closed(),
    {
        self.closed
    }

    /// The number of queued tasks.
    pub fn len(&self) -> (r: usize)
        ensures
            r == self.pending().len(),
    {
        self.items.len()
    }

    /// Takes the oldest task; with none queued, says whether to wait for more
    /// or to stop for good.
    pub fn receive(&mut self) -> (r: Received<T>)
        ensures
            final(self).is_closed() == old(self).is_closed(),
            old(self).pending().len() > 0 ==> r == Received::Task(old(self).pending()[0])
                && final(self).pending() == old(self).pending().drop_first(),
            old(self).pending().len() == 0 ==> final(self).pending() == old(self).pending(),
            old(self).pending().len() == 0 && old(self).is_closed() ==> r is EndOfStream,
            old(self).pending().len() == 0 && !old(self).is_closed() ==> r is Empty,
    {
        match self.items.pop_front() {
            Some(task) => Received::Task(task),
            None => {
                if self.closed {
                    Received::EndOfStream
                } else {
                    Received::Empty
                }
            },
        }
    }
}

} // verus!
