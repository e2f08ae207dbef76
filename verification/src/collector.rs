//! The result collector of the matcher: a queue of batches of matching files.

use crate::tree::{paths_of, File};
use crossbeam::sync::SegQueue;
use vstd::prelude::*;

verus! {

/// `crossbeam::sync::SegQueue`, a queue for many producers and consumers,
/// as an opaque type.
#[verifier::external_type_specification]
#[verifier::external_body]
#[verifier::reject_recursive_types(T)]
pub struct ExSegQueue<T>(SegQueue<T>);

/// The batches that wait in a queue, oldest first, each batch given by the
/// paths of its files.
pub uninterp spec fn queued_batches(queue: SegQueue<Vec<File>>) -> Seq<Seq<Seq<char>>>;

/// Calls `SegQueue::new`, which makes an empty queue.
#[verifier::external_body]
fn seg_queue_new() -> (queue: SegQueue<Vec<File>>)
    ensures
        queued_batches(queue) == Seq::<Seq<Seq<char>>>::empty(),
{
    SegQueue::new()
}

/// Calls `SegQueue::push`, which adds the batch at the back of the queue.
#[verifier::external_body]
fn seg_queue_push(queue: &mut SegQueue<Vec<File>>, batch: Vec<File>)
    ensures
        queued_batches(*final(queue)) == queued_batches(*old(queue)).push(paths_of(batch@)),
{
    queue.push(batch)
}

/// Calls `SegQueue::try_pop`, which takes the batch at the front of the
/// queue, or returns `None` when it finds the queue empty. The queue is held
/// by `&mut` here, so nobody else fills or empties it meanwhile.
#[verifier::external_body]
fn seg_queue_try_pop(queue: &mut SegQueue<Vec<File>>) -> (popped: Option<Vec<File>>)
    ensures
        match popped {
            Some(batch) => {
                &&& queued_batches(*old(queue)).len() > 0
                &&& paths_of(batch@) == queued_batches(*old(queue)).first()
                &&& queued_batches(*final(queue)) == queued_batches(*old(queue)).drop_first()
            },
            None => {
                &&& queued_batches(*old(queue)).len() == 0
                &&& queued_batches(*final(queue)) == queued_batches(*old(queue))
            },
        },
{
    queue.try_pop()
}

/// The collector into which a walk hands its batches. Its view is the
/// batches that wait in it, oldest first.
pub struct Collector {
    queue: SegQueue<Vec<File>>,
}

impl View for Collector {
    type V = Seq<Seq<Seq<char>>>;

    closed spec fn view(&self) -> Seq<Seq<Seq<char>>> {
        queued_batches(self.queue)
    }
}

impl Collector {
    /// An empty collector.
    pub fn new() -> (collector: Collector)
        ensures
            collector@ == Seq::<Seq<Seq<char>>>::empty(),
    {
        Collector { queue: seg_queue_new() }
    }

    /// Hands a batch to the collector.
    pub fn push(&mut self, batch: Vec<File>)
        ensures
            final(self)@ == old(self)@.push(paths_of(batch@)),
    {
        seg_queue_push(&mut self.queue, batch)
    }

    /// Takes the oldest batch out, if there is one.
    pub fn try_pop(&mut self) -> (popped: Option<Vec<File>>)
        ensures
            match popped {
                Some(batch) => {
                    &&& old(self)@.len() > 0
                    &&& paths_of(batch@) == old(self)@.first()
                    &&& final(self)@ == old(self)@.drop_first()
                },
                None => old(self)@.len() == 0 && final(self)@ == old(self)@,
            },
    {
        seg_queue_try_pop(&mut self.queue)
    }

    /// Empties the collector into `merged`: every waiting batch is appended,
    /// oldest first.
    pub fn drain_into(&mut self, merged: &mut Vec<File>)
        ensures
            final(self)@.len() == 0,
            paths_of(final(merged)@) == paths_of(old(merged)@) + old(self)@.flatten(),
    {
        let ghost before = paths_of(merged@);
        let ghost waiting = self@;
        let mut done = false;
        while !done
            invariant
                before + waiting.flatten() == paths_of(merged@) + self@.flatten(),
                done ==> self@.len() == 0,
            decreases self@.len() + if done { 0int } else { 1int },
        {
            match self.try_pop() {
                Some(mut batch) => {
                    merged.append(&mut batch);
                },
                None => {
                    done = true;
                },
            }
        }
    }
}

} // verus!
