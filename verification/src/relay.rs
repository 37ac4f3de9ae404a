use vstd::prelude::*;

verus! {

/// The capacity the bridge gives its relay: at most one command is in flight,
/// so successive sends are strictly ordered.
pub const RELAY_CAPACITY: usize = 1;

/// What a non-suspending send observed.
#[derive(Debug)]
pub enum SendResult {
    /// The item was enqueued.
    Sent,
    /// The queue is full: the producer must wait for a receive and retry with
    /// the item handed back here. This is the backpressure mechanism.
    WouldBlock(String),
    /// The receiving side is gone; the item comes back with the rejection.
    Closed(String),
}

/// What a non-suspending receive observed.
#[derive(Debug)]
pub enum RecvResult {
    /// The oldest queued item.
    Item(String),
    /// The queue is empty but the sender is alive: the consumer must wait.
    Empty,
    /// The queue is empty and the sender is gone: end of stream.
    Disconnected,
}

/// The bounded relay channel: a single-producer, single-consumer FIFO queue
/// of in-flight command text with a fixed capacity. A full queue makes the
/// producer wait instead of buffering without bound; a closed end is observed
/// by the other side. This is the sequential model of the channel that the
/// asynchronous runtime drives; suspension shows up as the `WouldBlock` and
/// `Empty` outcomes.
pub struct Relay {
    items: Vec<String>,
    capacity: usize,
    sender_open: bool,
    receiver_open: bool,
}

impl Relay {
    /// The queued items, oldest first.
    pub closed spec fn queue(self) -> Seq<Seq<char>> {
        Seq::new(self.items@.len(), |i: int| self.items@[i]@)
    }

    /// The fixed capacity the relay was created with.
    pub closed spec fn capacity(self) -> nat {
        self.capacity as nat
    }

    /// Whether the producing side is still alive.
    pub closed spec fn sender_open(self) -> bool {
        self.sender_open
    }

    /// Whether the consuming side is still alive.
    pub closed spec fn receiver_open(self) -> bool {
        self.receiver_open
    }

    /// Well-formedness: the queue never outgrows the capacity, and the
    /// capacity is at least one.
    pub open spec fn wf(self) -> bool {
        self.queue().len() <= self.capacity() && self.capacity() >= 1
    }

    /// A send finds room: the receiver is alive and a slot is free.
    pub open spec fn send_ok(self) -> bool {
        self.receiver_open() && self.queue().len() < self.capacity()
    }

    /// A send must wait: the receiver is alive but every slot is taken.
    pub open spec fn send_would_block(self) -> bool {
        self.receiver_open() && self.queue().len() >= self.capacity()
    }

    /// A send is rejected: the receiver is gone.
    pub open spec fn send_closed(self) -> bool {
        !self.receiver_open()
    }

    /// Creates an empty relay with both ends alive.
    pub fn new(capacity: usize) -> (r: Relay)
        requires
            capacity >= 1,
        ensures
            r.wf(),
            r.queue() == Seq::<Seq<char>>::empty(),
            r.capacity() == capacity as nat,
            r.sender_open(),
            r.receiver_open(),
    {
        let r = Relay { items: Vec::new(), capacity, sender_open: true, receiver_open: true };
        proof {
            assert(r.queue() =~= Seq::<Seq<char>>::empty());
        }
        r
    }

    /// Attempts to enqueue `item` without suspending. Enqueues exactly when
    /// the receiver is alive and the queue has room; a full queue hands the
    /// item back as `WouldBlock`, a closed channel as `Closed`. The queue
    /// changes only by appending the accepted item, so items leave in the
    /// order they entered.
    pub fn try_send(&mut self, item: String) -> (r: SendResult)
        ensures
            final(self).capacity() == old(self).capacity(),
            final(self).sender_open() == old(self).sender_open(),
            final(self).receiver_open() == old(self).receiver_open(),
            old(self).send_closed() ==> (r matches SendResult::Closed(m) && m@ == item@
                && final(self).queue() == old(self).queue()),
            old(self).send_would_block() ==> (r matches SendResult::WouldBlock(m) && m@ == item@
                && final(self).queue() == old(self).queue()),
            old(self).send_ok() ==> (r matches SendResult::Sent && final(self).queue()
                == old(self).queue().push(item@)),
            old(self).wf() ==> final(self).wf(),
    {
        if !self.receiver_open {
            SendResult::Closed(item)
        } else if self.items.len() >= self.capacity {
            SendResult::WouldBlock(item)
        } else {
            self.items.push(item);
            proof {
                assert(self.queue() =~= old(self).queue().push(item@));
            }
            SendResult::Sent
        }
    }

    /// Attempts to dequeue without suspending. Returns the oldest queued item
    /// whenever one exists — items already queued are still delivered after
    /// the sender is gone — and otherwise reports whether the consumer must
    /// wait (`Empty`) or the stream has ended (`Disconnected`).
    pub fn try_recv(&mut self) -> (r: RecvResult)
        ensures
            final(self).capacity() == old(self).capacity(),
            final(self).sender_open() == old(self).sender_open(),
            final(self).receiver_open() == old(self).receiver_open(),
            old(self).queue().len() > 0 ==> (r matches RecvResult::Item(m) && m@
                == old(self).queue()[0] && final(self).queue() == old(self).queue().drop_first()),
            old(self).queue().len() == 0 && old(self).sender_open() ==> (r matches RecvResult::Empty
                && final(self).queue() == old(self).queue()),
            old(self).queue().len() == 0 && !old(self).sender_open() ==> (r
                matches RecvResult::Disconnected && final(self).queue() == old(self).queue()),
            old(self).wf() ==> final(self).wf(),
    {
        if self.items.len() > 0 {
            let item = self.items.remove(0);
            proof {
                assert(self.queue() =~= old(self).queue().drop_first());
            }
            RecvResult::Item(item)
        } else if self.sender_open {
            RecvResult::Empty
        } else {
            RecvResult::Disconnected
        }
    }

    /// The producing side goes away. Items already queued stay deliverable.
    pub fn drop_sender(&mut self)
        ensures
            final(self).capacity() == old(self).capacity(),
            final(self).queue() == old(self).queue(),
            final(self).receiver_open() == old(self).receiver_open(),
            !final(self).sender_open(),
            old(self).wf() ==> final(self).wf(),
    {
        self.sender_open = false;
    }

    /// The consuming side goes away: every later send is rejected as closed.
    pub fn drop_receiver(&mut self)
        ensures
            final(self).capacity() == old(self).capacity(),
            final(self).queue() == old(self).queue(),
            final(self).sender_open() == old(self).sender_open(),
            !final(self).receiver_open(),
            old(self).wf() ==> final(self).wf(),
    {
        self.receiver_open = false;
    }

    /// How many items are in flight.
    pub fn queue_len(&self) -> (n: usize)
        ensures
            n == self.queue().len(),
    {
        self.items.len()
    }
}

/// Backpressure law: a full relay with a live receiver accepts no further
/// item — the producer must wait — and one receive frees exactly one slot,
/// after which a send is accepted again.
pub proof fn lemma_backpressure(before: Relay, after_recv: Relay)
    requires
        before.wf(),
        before.receiver_open(),
        before.queue().len() == before.capacity(),
        after_recv.receiver_open(),
        after_recv.capacity() == before.capacity(),
        after_recv.queue() == before.queue().drop_first(),
    ensures
        before.send_would_block(),
        !before.send_ok(),
        after_recv.send_ok(),
{
}

/// Closed-channel law: once the receiver is gone a send is rejected at once —
/// it neither blocks nor enqueues.
pub proof fn lemma_closed_rejects(r: Relay)
    requires
        !r.receiver_open(),
    ensures
        r.send_closed(),
        !r.send_would_block(),
        !r.send_ok(),
{
}

/// Order law: an accepted send leaves every queued item in place and puts the
/// new item behind them, so no item overtakes an earlier one.
pub proof fn lemma_fifo_order(q: Seq<Seq<char>>, item: Seq<char>, k: int)
    requires
        0 <= k < q.len(),
    ensures
        q.push(item)[k] == q[k],
        q.push(item)[q.len() as int] == item,
{
}

} // verus!
