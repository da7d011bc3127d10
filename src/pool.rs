use vstd::prelude::*;

verus! {

/// Hands out the objects of a transfer, by index, to at most `sync_threads`
/// workers at a time. Each index leaves the queue once, in increasing order.
#[derive(Clone, Copy, Debug)]
pub struct WorkerPool {
    pub total: usize,
    pub sync_threads: usize,
    /// The next index to hand out; those below it have left the queue.
    pub next: usize,
    pub in_flight: usize,
    pub finished: usize,
}

impl WorkerPool {
    pub open spec fn wf(self) -> bool {
        &&& self.sync_threads >= 1
        &&& self.next <= self.total
        &&& self.in_flight <= self.sync_threads
        &&& self.finished + self.in_flight == self.next
    }

    pub fn new(total: usize, sync_threads: usize) -> (r: WorkerPool)
        requires
            sync_threads >= 1,
        ensures
            r.wf(),
            r.total == total,
            r.sync_threads == sync_threads,
            r.next == 0,
            r.in_flight == 0,
            r.finished == 0,
    {
        WorkerPool { total, sync_threads, next: 0, in_flight: 0, finished: 0 }
    }

    /// The next object for a free worker: none while every worker is busy or
    /// when the queue is empty.
    pub fn try_start(&mut self) -> (r: Option<usize>)
        requires
            old(self).wf(),
        ensures
            final(self).wf(),
            final(self).total == old(self).total,
            final(self).sync_threads == old(self).sync_threads,
            final(self).finished == old(self).finished,
            old(self).in_flight < old(self).sync_threads && old(self).next < old(self).total ==> {
                &&& r == Some(old(self).next)
                &&& final(self).next == old(self).next + 1
                &&& final(self).in_flight == old(self).in_flight + 1
            },
            !(old(self).in_flight < old(self).sync_threads && old(self).next < old(self).total)
                ==> r.is_none() && *final(self) == *old(self),
    {
        if self.in_flight < self.sync_threads && self.next < self.total {
            let i = self.next;
            self.next = self.next + 1;
            self.in_flight = self.in_flight + 1;
            Some(i)
        } else {
            None
        }
    }

    /// A worker is done with its object.
    pub fn finish(&mut self)
        requires
            old(self).wf(),
            old(self).in_flight > 0,
        ensures
            final(self).wf(),
            final(self).total == old(self).total,
            final(self).sync_threads == old(self).sync_threads,
            final(self).next == old(self).next,
            final(self).in_flight == old(self).in_flight - 1,
            final(self).finished == old(self).finished + 1,
    {
        self.in_flight = self.in_flight - 1;
        self.finished = self.finished + 1;
    }

    /// Every object has been handed out and its worker is done.
    pub fn is_done(&self) -> (r: bool)
        requires
            self.wf(),
        ensures
            r == (self.finished == self.total),
            r ==> self.next == self.total && self.in_flight == 0,
    {
        self.finished == self.total
    }
}

} // verus!
