use vstd::prelude::*;

use crate::command::Command;

verus! {

/// What a non-blocking poll of the queue finds.
pub enum Poll {
    /// The oldest pending command, now handed to the consumer.
    Received(Command),
    /// Nothing pending yet; the producer may still send.
    Empty,
    /// Nothing pending and the producer is gone: no more commands will arrive.
    Closed,
}

/// Why a send was refused.
#[derive(Clone, Copy, PartialEq, Eq, Structural, Debug)]
pub enum SendError {
    /// The consumer has gone away.
    ConsumerGone,
    /// The producer side was already closed.
    ProducerClosed,
}

/// An ordered, unbounded queue of commands from one producer to one consumer.
pub struct CommandQueue {
    items: std::collections::VecDeque<Command>,
    producer_open: bool,
    consumer_open: bool,
}

impl CommandQueue {
    /// The commands sent and not yet received, oldest first.
    pub closed spec fn pending(&self) -> Seq<Command> {
        self.items@
    }

    pub closed spec fn producer_open(&self) -> bool {
        self.producer_open
    }

    pub closed spec fn consumer_open(&self) -> bool {
        self.consumer_open
    }

    pub fn new() -> (r: CommandQueue)
        ensures
            r.pending() == Seq::<Command>::empty(),
            r.producer_open(),
            r.consumer_open(),
    {
        CommandQueue {
            items: std::collections::VecDeque::new(),
            producer_open: true,
            consumer_open: true,
        }
    }

    /// Appends a command; never blocks, since the queue has no bound.
    pub fn send(&mut self, command: Command) -> (r: Result<(), SendError>)
        ensures
            final(self).producer_open() == old(self).producer_open(),
            final(self).consumer_open() == old(self).consumer_open(),
            !old(self).producer_open() ==> r == Err::<(), SendError>(SendError::ProducerClosed)
                && final(self).pending() == old(self).pending(),
            old(self).producer_open() && !old(self).consumer_open() ==> r == Err::<(), SendError>(
                SendError::ConsumerGone,
            ) && final(self).pending() == old(self).pending(),
            old(self).producer_open() && old(self).consumer_open() ==> r == Ok::<(), SendError>(())
                && final(self).pending() == old(self).pending().push(command),
    {
        if !self.producer_open {
            Err(SendError::ProducerClosed)
        } else if !self.consumer_open {
            Err(SendError::ConsumerGone)
        } else {
            self.items.push_back(command);
            Ok(())
        }
    }

    /// Takes the oldest pending command without waiting.
    pub fn try_recv(&mut self) -> (r: Poll)
        ensures
            final(self).producer_open() == old(self).producer_open(),
            final(self).consumer_open() == old(self).consumer_open(),
            old(self).pending().len() > 0 ==> r == Poll::Received(old(self).pending()[0])
                && final(self).pending() == old(self).pending().drop_first(),
            old(self).pending().len() == 0 ==> final(self).pending() == old(self).pending() && r == (
            if old(self).producer_open() {
                Poll::Empty
            } else {
                Poll::Closed
            }),
    {
        match self.items.pop_front() {
            Some(command) => Poll::Received(command),
            None => {
                if self.producer_open {
                    Poll::Empty
                } else {
                    Poll::Closed
                }
            },
        }
    }

    /// Takes every pending command, oldest first.
    pub fn drain(&mut self) -> (r: Vec<Command>)
        ensures
            r@ == old(self).pending(),
            final(self).pending() == Seq::<Command>::empty(),
            final(self).producer_open() == old(self).producer_open(),
            final(self).consumer_open() == old(self).consumer_open(),
    {
        let mut out: Vec<Command> = Vec::new();
        let ghost all = self.items@;
        while self.items.len() > 0
            invariant
                out@ + self.items@ == all,
                self.producer_open == old(self).producer_open,
                self.consumer_open == old(self).consumer_open,
                all == old(self).items@,
            decreases self.items@.len(),
        {
            match self.items.pop_front() {
                Some(command) => {
                    out.push(command);
                    assert(out@ + self.items@ =~= all);
                },
                None => {},
            }
        }
        assert(out@ =~= all);
        out
    }

    /// The producer is gone; what is pending can still be received.
    pub fn close_producer(&mut self)
        ensures
            final(self).pending() == old(self).pending(),
            !final(self).producer_open(),
            final(self).consumer_open() == old(self).consumer_open(),
    {
        self.producer_open = false;
    }

    /// The consumer is gone; later sends are refused.
    pub fn close_consumer(&mut self)
        ensures
            final(self).pending() == old(self).pending(),
            final(self).producer_open() == old(self).producer_open(),
            !final(self).consumer_open(),
    {
        self.consumer_open = false;
    }
}

/// One operation on a queue whose two ends are both open.
pub ghost enum QueueOp {
    Send(Command),
    Poll,
}

/// The commands that a run of operations sends, in program order.
pub open spec fn sent_by(ops: Seq<QueueOp>) -> Seq<Command>
    decreases ops.len(),
{
    if ops.len() == 0 {
        Seq::empty()
    } else {
        match ops[0] {
            QueueOp::Send(c) => seq![c] + sent_by(ops.drop_first()),
            QueueOp::Poll => sent_by(ops.drop_first()),
        }
    }
}

/// Replays operations as `send` and `try_recv` perform them, from the pending
/// commands `pending`: what is still pending at the end, and what the polls received.
pub open spec fn replay(pending: Seq<Command>, ops: Seq<QueueOp>) -> (Seq<Command>, Seq<Command>)
    decreases ops.len(),
{
    if ops.len() == 0 {
        (pending, Seq::empty())
    } else {
        match ops[0] {
            QueueOp::Send(c) => replay(pending.push(c), ops.drop_first()),
            QueueOp::Poll => if pending.len() > 0 {
                let (rest, got) = replay(pending.drop_first(), ops.drop_first());
                (rest, seq![pending[0]] + got)
            } else {
                replay(pending, ops.drop_first())
            },
        }
    }
}

/// However sends and polls interleave, what the consumer has received followed
/// by what is still pending is exactly what was pending before, followed by what
/// was sent, in the order sent: nothing is lost, duplicated or reordered.
pub proof fn lemma_delivery_in_order(pending: Seq<Command>, ops: Seq<QueueOp>)
    ensures
        replay(pending, ops).1 + replay(pending, ops).0 == pending + sent_by(ops),
    decreases ops.len(),
{
    if ops.len() > 0 {
        let rest = ops.drop_first();
        match ops[0] {
            QueueOp::Send(c) => {
                lemma_delivery_in_order(pending.push(c), rest);
                assert(pending.push(c) + sent_by(rest) =~= pending + (seq![c] + sent_by(rest)));
            },
            QueueOp::Poll => {
                if pending.len() > 0 {
                    lemma_delivery_in_order(pending.drop_first(), rest);
                    let (left, got) = replay(pending.drop_first(), rest);
                    assert((seq![pending[0]] + got) + left =~= seq![pending[0]] + (got + left));
                    assert(seq![pending[0]] + pending.drop_first() =~= pending);
                    assert(seq![pending[0]] + (pending.drop_first() + sent_by(rest)) =~= pending
                        + sent_by(rest));
                } else {
                    lemma_delivery_in_order(pending, rest);
                }
            },
        }
    } else {
        assert(pending + Seq::<Command>::empty() =~= pending);
        assert(Seq::<Command>::empty() + pending =~= pending);
    }
}

/// From an empty queue, once every sent command has been received, the
/// consumer has observed exactly the commands sent, in the order sent.
pub proof fn lemma_drained_receives_all_sent(ops: Seq<QueueOp>)
    requires
        replay(Seq::empty(), ops).0.len() == 0,
    ensures
        replay(Seq::empty(), ops).1 == sent_by(ops),
{
    lemma_delivery_in_order(Seq::empty(), ops);
    assert(replay(Seq::empty(), ops).1 =~= replay(Seq::empty(), ops).1 + replay(Seq::empty(), ops).0);
    assert(Seq::<Command>::empty() + sent_by(ops) =~= sent_by(ops));
}

} // verus!
