//! The byte relay between a channel and its upstream TCP connection: the
//! pump that turns each read of the upstream connection into one channel
//! message, and the writer that hands inbound channel messages to the
//! upstream connection one at a time, in the order they arrived.

use bytes::Bytes;
use std::collections::VecDeque;
use vstd::prelude::*;
use vstd::slice::slice_subrange;

verus! {

/// Size of the buffer each read of the upstream connection goes into.
pub const RELAY_BUFFER_SIZE: usize = 1024;

#[verifier::external_type_specification]
#[verifier::external_body]
pub struct ExBytes(Bytes);

/// The bytes a `Bytes` buffer holds.
pub uninterp spec fn bytes_content(b: Bytes) -> Seq<u8>;

/// Relies on `bytes::Bytes::copy_from_slice`: the new buffer holds a copy
/// of the slice.
#[verifier::external_body]
fn copy_to_bytes(data: &[u8]) -> (r: Bytes)
    ensures
        bytes_content(r) == data@,
{
    Bytes::copy_from_slice(data)
}

/// The messages `msgs` joined end to end.
pub open spec fn concat(msgs: Seq<Seq<u8>>) -> Seq<u8>
    decreases msgs.len(),
{
    if msgs.len() == 0 {
        Seq::empty()
    } else {
        msgs[0] + concat(msgs.drop_first())
    }
}

proof fn lemma_concat_push(msgs: Seq<Seq<u8>>, m: Seq<u8>)
    ensures
        concat(msgs.push(m)) == concat(msgs) + m,
    decreases msgs.len(),
{
    if msgs.len() == 0 {
        assert(msgs.push(m).drop_first() =~= Seq::<Seq<u8>>::empty());
        assert(concat(msgs.push(m).drop_first()) == Seq::<u8>::empty());
        assert(msgs.push(m)[0] == m);
        assert(concat(msgs.push(m)) =~= m);
    } else {
        lemma_concat_push(msgs.drop_first(), m);
        assert(msgs.push(m).drop_first() =~= msgs.drop_first().push(m));
        assert(concat(msgs.push(m)) =~= concat(msgs) + m);
    }
}

/// Why the upstream-to-channel pump stopped.
#[derive(Clone, Copy, PartialEq, Eq, Structural, Debug)]
pub enum PumpStop {
    /// Reading the upstream connection failed.
    ReadFailed,
    /// The upstream service closed its side of the connection.
    UpstreamClosed,
    /// The pump had already stopped.
    AlreadyStopped,
}

/// What the pump does with one read of the upstream connection.
pub enum PumpStep {
    /// Send these bytes as one channel message.
    Send(Bytes),
    /// Stop pumping.
    Stop(PumpStop),
}

/// The pump that forwards what the upstream service sends to the channel.
pub struct DownstreamPump {
    stopped: bool,
    read: Ghost<Seq<u8>>,
    sent: Ghost<Seq<u8>>,
}

impl DownstreamPump {
    /// Whether the pump has stopped.
    pub closed spec fn is_stopped(&self) -> bool {
        self.stopped
    }

    /// Every byte read from the upstream connection so far, in order.
    pub closed spec fn bytes_read(&self) -> Seq<u8> {
        self.read@
    }

    /// Every byte handed to the channel so far, in order.
    pub closed spec fn bytes_sent(&self) -> Seq<u8> {
        self.sent@
    }

    /// The pump hands the channel exactly the bytes it read, in order.
    pub closed spec fn wf(&self) -> bool {
        self.sent@ == self.read@
    }

    /// A running pump that has read nothing.
    pub fn new() -> (r: DownstreamPump)
        ensures
            r.wf(),
            !r.is_stopped(),
            r.bytes_read() == Seq::<u8>::empty(),
    {
        DownstreamPump { stopped: false, read: Ghost(Seq::empty()), sent: Ghost(Seq::empty()) }
    }

    /// Takes one read of the upstream connection into `buf`: `Some(n)` when
    /// it filled the first `n` bytes, `None` when it failed. A read of at
    /// least one byte becomes one message holding exactly those bytes; an
    /// empty read or a failure stops the pump.
    pub fn on_read(&mut self, buf: &[u8], read: Option<usize>) -> (r: PumpStep)
        requires
            old(self).wf(),
            read matches Some(n) ==> n <= buf@.len(),
        ensures
            final(self).wf(),
            old(self).is_stopped() ==> r == PumpStep::Stop(PumpStop::AlreadyStopped)
                && *final(self) == *old(self),
            !old(self).is_stopped() ==> match read {
                None => r == PumpStep::Stop(PumpStop::ReadFailed) && final(self).is_stopped()
                    && final(self).bytes_read() == old(self).bytes_read(),
                Some(n) => if n == 0 {
                    r == PumpStep::Stop(PumpStop::UpstreamClosed) && final(self).is_stopped()
                        && final(self).bytes_read() == old(self).bytes_read()
                } else {
                    &&& r is Send
                    &&& bytes_content(r->Send_0) == buf@.subrange(0, n as int)
                    &&& !final(self).is_stopped()
                    &&& final(self).bytes_read() == old(self).bytes_read() + buf@.subrange(
                        0,
                        n as int,
                    )
                },
            },
    {
        if self.stopped {
            return PumpStep::Stop(PumpStop::AlreadyStopped);
        }
        match read {
            None => {
                self.stopped = true;
                PumpStep::Stop(PumpStop::ReadFailed)
            },
            Some(n) => {
                if n == 0 {
                    self.stopped = true;
                    PumpStep::Stop(PumpStop::UpstreamClosed)
                } else {
                    let chunk = slice_subrange(buf, 0, n);
                    let msg = copy_to_bytes(chunk);
                    self.read = Ghost(self.read@ + chunk@);
                    self.sent = Ghost(self.sent@ + bytes_content(msg));
                    PumpStep::Send(msg)
                }
            },
        }
    }
}

/// The channel receives exactly the bytes the pump read from the upstream
/// service, unchanged and in order, however the reads cut them into
/// messages.
pub proof fn lemma_downstream_bytes_preserved(p: DownstreamPump)
    requires
        p.wf(),
    ensures
        p.bytes_sent() == p.bytes_read(),
{
}

/// The writer that owns the upstream connection's write side: messages
/// that arrive on the channel queue up in arrival order and are written
/// one at a time.
pub struct UpstreamWriter {
    pending: VecDeque<Bytes>,
    received: Ghost<Seq<u8>>,
    written: Ghost<Seq<u8>>,
}

impl UpstreamWriter {
    /// The messages waiting to be written, oldest first.
    pub closed spec fn pending(&self) -> Seq<Seq<u8>> {
        self.pending@.map_values(|b: Bytes| bytes_content(b))
    }

    /// Every byte received from the channel so far, in arrival order.
    pub closed spec fn bytes_received(&self) -> Seq<u8> {
        self.received@
    }

    /// Every byte handed out for writing so far, in order.
    pub closed spec fn bytes_written(&self) -> Seq<u8> {
        self.written@
    }

    /// What was received is what was written followed by what waits.
    pub closed spec fn wf(&self) -> bool {
        self.received@ == self.written@ + concat(self.pending())
    }

    /// A writer that has received nothing.
    pub fn new() -> (r: UpstreamWriter)
        ensures
            r.wf(),
            r.pending() == Seq::<Seq<u8>>::empty(),
            r.bytes_received() == Seq::<u8>::empty(),
            r.bytes_written() == Seq::<u8>::empty(),
    {
        let r = UpstreamWriter {
            pending: VecDeque::new(),
            received: Ghost(Seq::empty()),
            written: Ghost(Seq::empty()),
        };
        proof {
            assert(r.pending() =~= Seq::<Seq<u8>>::empty());
        }
        r
    }

    /// Queues a message that arrived on the channel.
    pub fn accept(&mut self, msg: Bytes)
        requires
            old(self).wf(),
        ensures
            final(self).wf(),
            final(self).pending() == old(self).pending().push(bytes_content(msg)),
            final(self).bytes_received() == old(self).bytes_received() + bytes_content(msg),
            final(self).bytes_written() == old(self).bytes_written(),
    {
        let ghost before = self.pending();
        self.pending.push_back(msg);
        self.received = Ghost(self.received@ + bytes_content(msg));
        proof {
            assert(self.pending() =~= before.push(bytes_content(msg)));
            lemma_concat_push(before, bytes_content(msg));
            assert(self.received@ =~= self.written@ + concat(self.pending()));
        }
    }

    /// The oldest waiting message, to be written next; `None` when nothing waits.
    pub fn next_write(&mut self) -> (r: Option<Bytes>)
        requires
            old(self).wf(),
        ensures
            final(self).wf(),
            final(self).bytes_received() == old(self).bytes_received(),
            match r {
                None => old(self).pending().len() == 0 && final(self).pending() == old(
                    self,
                ).pending() && final(self).bytes_written() == old(self).bytes_written(),
                Some(b) => old(self).pending().len() > 0 && bytes_content(b) == old(
                    self,
                ).pending()[0] && final(self).pending() == old(self).pending().drop_first()
                    && final(self).bytes_written() == old(self).bytes_written() + bytes_content(b),
            },
    {
        let ghost before = self.pending();
        let r = self.pending.pop_front();
        match r {
            Some(b) => {
                self.written = Ghost(self.written@ + bytes_content(b));
                proof {
                    assert(self.pending() =~= before.drop_first());
                    assert(self.received@ =~= self.written@ + concat(self.pending()));
                }
                Some(b)
            },
            None => None,
        }
    }
}

/// The upstream service receives the channel's bytes in the order they
/// arrived, whatever the message boundaries: what was written is a prefix
/// of what was received, and all of it once nothing waits.
pub proof fn lemma_upstream_order_preserved(w: UpstreamWriter)
    requires
        w.wf(),
    ensures
        w.bytes_written().is_prefix_of(w.bytes_received()),
        w.pending().len() == 0 ==> w.bytes_written() == w.bytes_received(),
{
    assert(w.bytes_received() == w.bytes_written() + concat(w.pending()));
    if w.pending().len() == 0 {
        assert(w.bytes_received() =~= w.bytes_written());
    }
    assert(w.bytes_received().subrange(0, w.bytes_written().len() as int) =~= w.bytes_written());
}

} // verus!
