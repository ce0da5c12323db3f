//! The handoff channel: a single-producer/single-consumer queue carrying raw
//! buffers from the real-time capture callback to the consumer thread.
//!
//! The producer side never blocks and never retries: a delivery is either
//! accepted at once or refused because the consumer dropped its end. The
//! consumer side takes buffers strictly in delivery order; when nothing is
//! pending it either reports that the stream has terminated (a stop was
//! requested and everything in flight has been drained) or that it would
//! have to wait for the producer.
//!
//! The channel keeps, as ghost state, the full history of buffers it has
//! accepted and delivered. Its invariant — delivered history plus pending
//! queue equals accepted history — is what makes loss and reordering
//! impossible.

use vstd::prelude::*;

verus! {

/// Returned by `send` when the consumer has dropped its end of the channel:
/// the buffer was refused and the producer should cease capturing.
#[derive(Clone, Copy, Debug, PartialEq, Eq, Structural)]
pub struct Disconnected;

/// The outcome of one `receive` attempt by the consumer.
#[derive(Debug)]
pub enum ReceiveOutcome {
    /// The oldest pending buffer, in hardware delivery order.
    Received(Vec<i32>),
    /// A stop was requested and every in-flight buffer has been drained:
    /// the stream has ended and no further buffer will ever arrive.
    Terminated,
    /// Nothing is pending but the producer may still deliver; a blocking
    /// consumer waits and tries again.
    WouldBlock,
}

/// A queue carrying raw sample buffers from exactly one producer (the
/// subsystem's real-time callback) to exactly one consumer (the application
/// thread draining the frame stream).
pub struct HandoffChannel {
    pending: Vec<Vec<i32>>,
    consumer_open: bool,
    stop_requested: bool,
    accepted: Ghost<Seq<Seq<i32>>>,
    delivered: Ghost<Seq<Seq<i32>>>,
}

impl HandoffChannel {
    /// Every buffer the channel has accepted from the producer, in send order.
    pub closed spec fn accepted_buffers(self) -> Seq<Seq<i32>> {
        self.accepted@
    }

    /// Every buffer the channel has handed to the consumer, in receive order.
    pub closed spec fn delivered_buffers(self) -> Seq<Seq<i32>> {
        self.delivered@
    }

    /// The buffers accepted but not yet delivered, oldest first.
    pub closed spec fn pending_buffers(self) -> Seq<Seq<i32>> {
        self.pending@.map_values(|b: Vec<i32>| b@)
    }

    /// Whether the consumer still holds its end of the channel.
    pub closed spec fn consumer_is_open(self) -> bool {
        self.consumer_open
    }

    /// Whether the producer has been asked to stop delivering.
    pub closed spec fn stop_is_requested(self) -> bool {
        self.stop_requested
    }

    /// The channel invariant: what was delivered, followed by what is still
    /// pending, is exactly what was accepted. Every operation preserves it.
    pub closed spec fn wf(self) -> bool {
        self.delivered@ + self.pending_buffers() == self.accepted@
    }

    /// A fresh channel: nothing accepted, nothing delivered, consumer open,
    /// no stop requested.
    pub fn new() -> (ch: HandoffChannel)
        ensures
            ch.wf(),
            ch.accepted_buffers() == Seq::<Seq<i32>>::empty(),
            ch.delivered_buffers() == Seq::<Seq<i32>>::empty(),
            ch.pending_buffers() == Seq::<Seq<i32>>::empty(),
            ch.consumer_is_open(),
            !ch.stop_is_requested(),
    {
        let ch = HandoffChannel {
            pending: Vec::new(),
            consumer_open: true,
            stop_requested: false,
            accepted: Ghost(Seq::empty()),
            delivered: Ghost(Seq::empty()),
        };
        proof {
            assert(ch.pending_buffers() =~= Seq::<Seq<i32>>::empty());
            assert(ch.delivered@ + ch.pending_buffers() =~= ch.accepted@);
        }
        ch
    }

    /// Whether the producer has been asked to stop delivering.
    pub fn is_stop_requested(&self) -> (b: bool)
        ensures
            b == self.stop_is_requested(),
    {
        self.stop_requested
    }

    /// Whether the consumer still holds its end of the channel.
    pub fn is_consumer_open(&self) -> (b: bool)
        ensures
            b == self.consumer_is_open(),
    {
        self.consumer_open
    }

    /// How many buffers are accepted but not yet delivered.
    pub fn pending_count(&self) -> (n: usize)
        ensures
            n == self.pending_buffers().len(),
    {
        self.pending.len()
    }

    /// Producer side: hand one raw buffer over. Never blocks, never retries,
    /// and copies nothing beyond the buffer itself. The buffer is accepted
    /// exactly when the consumer still holds its end; a refused send leaves
    /// the channel unchanged.
    pub fn send(&mut self, buf: Vec<i32>) -> (r: Result<(), Disconnected>)
        requires
            old(self).wf(),
        ensures
            final(self).wf(),
            r is Ok <==> old(self).consumer_is_open(),
            old(self).consumer_is_open() ==> final(self).accepted_buffers() == old(self).accepted_buffers().push(buf@),
            old(self).consumer_is_open() ==> final(self).pending_buffers() == old(self).pending_buffers().push(buf@),
            !old(self).consumer_is_open() ==> *final(self) == *old(self),
            final(self).delivered_buffers() == old(self).delivered_buffers(),
            final(self).consumer_is_open() == old(self).consumer_is_open(),
            final(self).stop_is_requested() == old(self).stop_is_requested(),
    {
        if !self.consumer_open {
            return Err(Disconnected);
        }
        let ghost b = buf@;
        self.pending.push(buf);
        self.accepted = Ghost(self.accepted@.push(b));
        proof {
            assert(self.pending_buffers() =~= old(self).pending_buffers().push(b));
            assert(self.delivered@ + self.pending_buffers() =~= self.accepted@);
        }
        Ok(())
    }

    /// Consumer side: take the oldest pending buffer. When one is pending it
    /// is delivered, and it is exactly the next accepted buffer the consumer
    /// has not yet seen — buffers arrive in the order the producer sent
    /// them, none skipped. When nothing is pending the channel is left
    /// unchanged and the outcome says whether the stream has terminated
    /// (stop requested) or the consumer would have to wait.
    pub fn receive(&mut self) -> (r: ReceiveOutcome)
        requires
            old(self).wf(),
        ensures
            final(self).wf(),
            final(self).accepted_buffers() == old(self).accepted_buffers(),
            final(self).consumer_is_open() == old(self).consumer_is_open(),
            final(self).stop_is_requested() == old(self).stop_is_requested(),
            old(self).pending_buffers().len() > 0 ==> (r matches ReceiveOutcome::Received(buf)
                && buf@ == old(self).pending_buffers()[0]
                && buf@ == old(self).accepted_buffers()[old(self).delivered_buffers().len() as int]
                && final(self).pending_buffers() == old(self).pending_buffers().skip(1)
                && final(self).delivered_buffers() == old(self).delivered_buffers().push(buf@)),
            old(self).pending_buffers().len() == 0 ==> *final(self) == *old(self),
            (old(self).pending_buffers().len() == 0 && old(self).stop_is_requested()) ==> r
                matches ReceiveOutcome::Terminated,
            (old(self).pending_buffers().len() == 0 && !old(self).stop_is_requested()) ==> r
                matches ReceiveOutcome::WouldBlock,
    {
        if self.pending.len() > 0 {
            let buf = self.pending.remove(0);
            self.delivered = Ghost(self.delivered@.push(buf@));
            proof {
                assert(self.pending_buffers() =~= old(self).pending_buffers().skip(1));
                assert(old(self).delivered@ + old(self).pending_buffers()
                    == old(self).accepted_buffers());
                assert(buf@ == old(self).accepted_buffers()[old(self).delivered_buffers().len() as int]);
                assert(self.delivered@ + self.pending_buffers() =~= self.accepted@);
            }
            ReceiveOutcome::Received(buf)
        } else if self.stop_requested {
            ReceiveOutcome::Terminated
        } else {
            ReceiveOutcome::WouldBlock
        }
    }

    /// Ask the producer to stop delivering. The request only marks the
    /// channel: already-pending buffers stay and can still be drained.
    pub fn request_stop(&mut self)
        requires
            old(self).wf(),
        ensures
            final(self).wf(),
            final(self).stop_is_requested(),
            final(self).accepted_buffers() == old(self).accepted_buffers(),
            final(self).delivered_buffers() == old(self).delivered_buffers(),
            final(self).pending_buffers() == old(self).pending_buffers(),
            final(self).consumer_is_open() == old(self).consumer_is_open(),
    {
        self.stop_requested = true;
    }

    /// The consumer abandons the stream. Every later `send` is refused, so
    /// the producer can observe the disconnection and halt cleanly.
    pub fn drop_consumer(&mut self)
        requires
            old(self).wf(),
        ensures
            final(self).wf(),
            !final(self).consumer_is_open(),
            final(self).accepted_buffers() == old(self).accepted_buffers(),
            final(self).delivered_buffers() == old(self).delivered_buffers(),
            final(self).pending_buffers() == old(self).pending_buffers(),
            final(self).stop_is_requested() == old(self).stop_is_requested(),
    {
        self.consumer_open = false;
    }

    /// Drain after a stop request: pull until the channel reports
    /// termination. This terminates after exactly one pull per in-flight
    /// buffer — it cannot hang — and yields those buffers in delivery
    /// order; afterwards the consumer has observed every accepted buffer.
    pub fn drain(&mut self) -> (bufs: Vec<Vec<i32>>)
        requires
            old(self).wf(),
            old(self).stop_is_requested(),
        ensures
            final(self).wf(),
            bufs@.map_values(|b: Vec<i32>| b@) == old(self).pending_buffers(),
            final(self).pending_buffers().len() == 0,
            final(self).delivered_buffers() == old(self).accepted_buffers(),
            final(self).accepted_buffers() == old(self).accepted_buffers(),
            final(self).stop_is_requested(),
    {
        let mut bufs: Vec<Vec<i32>> = Vec::new();
        let n: usize = self.pending.len();
        let mut k: usize = 0;
        while k < n
            invariant
                self.wf(),
                self.stop_is_requested(),
                k <= n,
                self.pending_buffers().len() == n - k,
                self.accepted_buffers() == old(self).accepted_buffers(),
                bufs@.map_values(|b: Vec<i32>| b@) + self.pending_buffers() == old(self).pending_buffers(),
                bufs@.len() == k,
            decreases n - k,
        {
            let ghost bufs0 = bufs@;
            match self.receive() {
                ReceiveOutcome::Received(buf) => {
                    let ghost b = buf@;
                    bufs.push(buf);
                    proof {
                        assert(bufs@.map_values(|b: Vec<i32>| b@) =~= bufs0.map_values(
                            |b: Vec<i32>| b@,
                        ).push(b));
                        assert(bufs@.map_values(|b: Vec<i32>| b@) + self.pending_buffers() =~= old(self).pending_buffers());
                    }
                },
                ReceiveOutcome::Terminated => {
                    proof {
                        assert(false);
                    }
                },
                ReceiveOutcome::WouldBlock => {
                    proof {
                        assert(false);
                    }
                },
            }
            k = k + 1;
        }
        proof {
            assert(bufs@.map_values(|b: Vec<i32>| b@) =~= old(self).pending_buffers());
            assert(self.delivered@ + self.pending_buffers() == self.accepted@);
            assert(self.delivered_buffers() =~= old(self).accepted_buffers());
        }
        bufs
    }
}

/// No loss, no reordering: in any well-formed channel the buffers delivered
/// so far are exactly the first accepted buffers, in send order, and once
/// nothing is pending the consumer has observed every accepted buffer.
pub proof fn lemma_fifo_delivery(ch: HandoffChannel)
    requires
        ch.wf(),
    ensures
        ch.delivered_buffers() == ch.accepted_buffers().take(ch.delivered_buffers().len() as int),
        ch.pending_buffers().len() == 0 ==> ch.delivered_buffers() == ch.accepted_buffers(),
{
    assert(ch.delivered_buffers() =~= ch.accepted_buffers().take(
        ch.delivered_buffers().len() as int,
    ));
    if ch.pending_buffers().len() == 0 {
        assert(ch.delivered_buffers() =~= ch.accepted_buffers());
    }
}

} // verus!
