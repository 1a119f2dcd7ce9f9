//! The first-in, first-out queue that hands samples and errors from the
//! workers to the log consumer.

use crate::metric::cpu::CpuInfo;
use crate::metric::io::IOInfo;
use crate::metric::memory::MemoryInfo;
use std::collections::VecDeque;
use vstd::prelude::*;

verus! {

/// The message of a sample that could not be taken.
#[derive(Debug, PartialEq, Eq)]
pub struct ErrInfo {
    pub error: String,
}

impl ErrInfo {
    pub fn new(error: String) -> (e: ErrInfo)
        ensures
            e.error == error,
    {
        ErrInfo { error }
    }

    /// The line that shows this error.
    pub open spec fn text(self) -> Seq<char> {
        "ErrInfo: "@ + self.error@ + "\n"@
    }

    pub fn render(&self) -> (s: String)
        ensures
            s@ == self.text(),
    {
        let mut s = String::from_str("ErrInfo: ");
        s.append(self.error.as_str());
        s.append("\n");
        s
    }
}

/// What a worker puts on the queue: one sample of its kind, or an error.
#[derive(Debug, PartialEq, Eq)]
pub enum QueueItem {
    CPU(CpuInfo),
    Memory(MemoryInfo),
    IO(IOInfo),
    Error(ErrInfo),
}

/// The queue. Its view is what it holds, oldest first.
pub struct Queue {
    queue: VecDeque<QueueItem>,
}

impl View for Queue {
    type V = Seq<QueueItem>;

    closed spec fn view(&self) -> Seq<QueueItem> {
        self.queue@
    }
}

/// What a queue holds after `items` were enqueued one by one, in order.
pub open spec fn enqueue_all(q: Seq<QueueItem>, items: Seq<QueueItem>) -> Seq<QueueItem>
    decreases items.len(),
{
    if items.len() == 0 {
        q
    } else {
        enqueue_all(q.push(items[0]), items.drop_first())
    }
}

/// What `n` dequeues hand out, one by one, from a queue that holds at
/// least `n` items.
pub open spec fn dequeue_n(q: Seq<QueueItem>, n: nat) -> Seq<QueueItem>
    decreases n,
{
    if n == 0 || q.len() == 0 {
        Seq::empty()
    } else {
        seq![q[0]] + dequeue_n(q.drop_first(), (n - 1) as nat)
    }
}

/// Enqueuing one by one appends the items in their order.
pub proof fn lemma_enqueue_all(q: Seq<QueueItem>, items: Seq<QueueItem>)
    ensures
        enqueue_all(q, items) == q + items,
    decreases items.len(),
{
    if items.len() == 0 {
        assert(q + items =~= q);
    } else {
        lemma_enqueue_all(q.push(items[0]), items.drop_first());
        assert(q.push(items[0]) + items.drop_first() =~= q + items);
    }
}

/// Dequeuing one by one hands out the oldest items, oldest first.
pub proof fn lemma_dequeue_n(q: Seq<QueueItem>, n: nat)
    requires
        n <= q.len(),
    ensures
        dequeue_n(q, n) == q.take(n as int),
    decreases n,
{
    if n == 0 {
        assert(q.take(0) =~= Seq::<QueueItem>::empty());
    } else {
        lemma_dequeue_n(q.drop_first(), (n - 1) as nat);
        assert(seq![q[0]] + q.drop_first().take(n - 1) =~= q.take(n as int));
    }
}

/// Items are dequeued in the order in which they were enqueued: after the
/// items that the queue held before, the dequeues hand out `items` as they
/// were enqueued.
pub proof fn law_fifo(q: Seq<QueueItem>, items: Seq<QueueItem>)
    ensures
        dequeue_n(enqueue_all(q, items), q.len() + items.len()) == q + items,
        dequeue_n(enqueue_all(Seq::empty(), items), items.len()) == items,
{
    lemma_enqueue_all(q, items);
    lemma_dequeue_n(q + items, q.len() + items.len());
    assert((q + items).take((q.len() + items.len()) as int) =~= q + items);
    lemma_enqueue_all(Seq::empty(), items);
    assert(Seq::<QueueItem>::empty() + items =~= items);
    lemma_dequeue_n(items, items.len());
    assert(items.take(items.len() as int) =~= items);
}

/// However the enqueues of several producers interleave, the items of any
/// one producer leave the queue in the order in which that producer
/// enqueued them: `mine` tells the items of one producer from the others.
pub proof fn law_fifo_per_producer(items: Seq<QueueItem>, mine: spec_fn(QueueItem) -> bool)
    ensures
        dequeue_n(enqueue_all(Seq::empty(), items), items.len()).filter(mine) == items.filter(
            mine,
        ),
{
    law_fifo(Seq::empty(), items);
}

impl Queue {
    pub fn new() -> (q: Self)
        ensures
            q@ == Seq::<QueueItem>::empty(),
    {
        Queue { queue: VecDeque::new() }
    }

    /// Appends `item` behind everything that the queue holds.
    pub fn enqueue(&mut self, item: QueueItem)
        ensures
            final(self)@ == old(self)@.push(item),
    {
        self.queue.push_back(item);
    }

    /// Takes the oldest item off the queue; `None` where it is empty.
    pub fn dequeue(&mut self) -> (item: Option<QueueItem>)
        ensures
            old(self)@.len() == 0 ==> item is None && final(self)@ == old(self)@,
            old(self)@.len() > 0 ==> item == Some(old(self)@[0]) && final(self)@ == old(
                self,
            )@.drop_first(),
    {
        let item = self.queue.pop_front();
        proof {
            if old(self)@.len() > 0 {
                assert(self.queue@ =~= old(self)@.drop_first());
            }
        }
        item
    }

    pub fn is_empty(&self) -> (b: bool)
        ensures
            b == (self@.len() == 0),
    {
        self.queue.len() == 0
    }
}

} // verus!
