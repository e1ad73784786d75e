//! Stream-muxer adapter over a peer connection that offers data channels.
//!
//! The adapter owns the synchronous scaffolding of one connection: the
//! bounded queue of incoming data channels, the read-buffer hint that every
//! new substream inherits, and the two single-occupancy slots for the
//! outbound-open and close operations. The asynchronous work itself — opening
//! a data channel, closing the connection, detaching a channel once it
//! signals open — runs outside; its outcomes enter here as plain values, and
//! every decision the adapter takes is a function of its own state and that
//! value. The state transitions are the `spec_` functions below; each
//! `poll`-style method is proved to follow them exactly.
//!
//! State machine of one connection: `Open`, then `Closing` once a close
//! operation is in flight, then `Closed` once it resolved successfully. In
//! `Closing` incoming channels are still absorbed; in `Closed` they are
//! refused, and [`Connection::poll_inbound`] reports an error as soon as the
//! queued channels are drained.

use vstd::prelude::*;

verus! {

/// Capacity of the inbound data-channel queue.
pub const MAX_DATA_CHANNELS_IN_FLIGHT: usize = 10;

/// Outcome of a non-blocking poll: a result, or not yet.
#[derive(Clone, Copy, Debug, PartialEq, Eq, Structural)]
pub enum Poll<T> {
    Ready(T),
    Pending,
}

/// Failure of a muxer operation.
#[derive(Clone, Debug, PartialEq, Eq)]
pub enum Error {
    /// Failure reported by the peer-connection library, carried as text.
    WebRTC(String),
    /// Invariant violation inside the adapter: the inbound queue is closed,
    /// or a completion signal was dropped before it fired.
    InternalError(String),
}

/// A byte-stream view over a single detached data channel, together with the
/// read-buffer capacity hint it was created with.
///
/// The channel is message-oriented; the scratch buffer smooths its messages
/// into a byte stream. A read first drains buffered bytes; only with an
/// empty buffer does the caller await the channel's next message and hand
/// it to [`Substream::push_bytes`]. Writing, flushing and closing act on
/// the channel directly and close only this stream, not its parent
/// connection.
#[derive(Clone, Debug, PartialEq, Eq)]
pub struct Substream<C> {
    /// The detached data channel that carries the bytes.
    pub channel: C,
    /// Capacity of the scratch buffer; it bounds how many bytes a single
    /// message read may hand over. The library default applies when absent.
    pub read_buf_capacity: Option<usize>,
    /// Bytes received from the channel and not yet handed to the reader,
    /// oldest first.
    pub read_buf: Vec<u8>,
}

impl<C> Substream<C> {
    /// Hand bytes received from the channel to the stream: they are served
    /// to the reader after everything already buffered.
    pub fn push_bytes(&mut self, bytes: &[u8])
        ensures
            final(self).read_buf@ == old(self).read_buf@ + bytes@,
            final(self).channel == old(self).channel,
            final(self).read_buf_capacity == old(self).read_buf_capacity,
    {
        append_bytes(&mut self.read_buf, bytes);
    }

    /// Serve up to `max` buffered bytes, oldest first. Nothing is buffered
    /// exactly when nothing is returned — the caller must then await the
    /// channel's next message. The bytes served and the bytes kept together
    /// make up exactly what was buffered: the stream neither loses,
    /// invents, nor reorders a byte.
    pub fn read_buffered(&mut self, max: usize) -> (r: Option<Vec<u8>>)
        ensures
            final(self).channel == old(self).channel,
            final(self).read_buf_capacity == old(self).read_buf_capacity,
            old(self).read_buf@.len() == 0 ==> r is None && final(self).read_buf@ == old(
                self,
            ).read_buf@,
            old(self).read_buf@.len() > 0 && max == 0 ==> r is None && final(self).read_buf@
                == old(self).read_buf@,
            old(self).read_buf@.len() > 0 && max > 0 ==> {
                let served = if max < old(self).read_buf@.len() {
                    max as int
                } else {
                    old(self).read_buf@.len() as int
                };
                &&& (r matches Some(bytes) && bytes@ == old(self).read_buf@.take(served)
                    && bytes@ + final(self).read_buf@ == old(self).read_buf@)
                &&& final(self).read_buf@ == old(self).read_buf@.skip(served)
            },
    {
        if self.read_buf.len() == 0 || max == 0 {
            return None;
        }
        let served: usize = if max < self.read_buf.len() {
            max
        } else {
            self.read_buf.len()
        };
        let mut bytes: Vec<u8> = Vec::new();
        let mut i: usize = 0;
        while i < served
            invariant
                i <= served,
                served <= self.read_buf@.len(),
                self.read_buf@ == old(self).read_buf@,
                bytes@ == old(self).read_buf@.take(i as int),
            decreases served - i,
        {
            bytes.push(self.read_buf[i]);
            proof {
                assert(bytes@ =~= old(self).read_buf@.take(i + 1));
            }
            i += 1;
        }
        let mut kept: Vec<u8> = Vec::new();
        let mut j: usize = served;
        while j < self.read_buf.len()
            invariant
                served <= j <= self.read_buf@.len(),
                self.read_buf@ == old(self).read_buf@,
                kept@ == old(self).read_buf@.subrange(served as int, j as int),
            decreases self.read_buf@.len() - j,
        {
            kept.push(self.read_buf[j]);
            proof {
                assert(kept@ =~= old(self).read_buf@.subrange(served as int, j + 1));
            }
            j += 1;
        }
        self.read_buf = kept;
        proof {
            assert(self.read_buf@ =~= old(self).read_buf@.skip(served as int));
            assert(bytes@ + self.read_buf@ =~= old(self).read_buf@);
        }
        Some(bytes)
    }
}

/// Append the bytes of a slice to a buffer.
fn append_bytes(dst: &mut Vec<u8>, src: &[u8])
    ensures
        final(dst)@ == old(dst)@ + src@,
{
    let mut i: usize = 0;
    while i < src.len()
        invariant
            i <= src@.len(),
            dst@ == old(dst)@ + src@.take(i as int),
        decreases src@.len() - i,
    {
        dst.push(src[i]);
        proof {
            assert(dst@ =~= old(dst)@ + src@.take(i + 1));
        }
        i += 1;
    }
    proof {
        assert(dst@ =~= old(dst)@ + src@);
    }
}

/// Abstract state of a [`Connection`].
pub ghost struct ConnectionView<C> {
    /// Queued incoming data channels, oldest first.
    pub inbound: Seq<C>,
    /// Whether the queue stopped accepting new channels (close succeeded).
    pub closed: bool,
    /// Read-buffer capacity applied to every substream produced afterwards.
    pub read_buf_capacity: Option<usize>,
    /// Whether an outbound-open operation is in flight.
    pub outbound_in_flight: bool,
    /// Whether a close operation is in flight.
    pub close_in_flight: bool,
}

/// What `poll_inbound` decides: deliver a queued channel, report the queue
/// closed, or wait.
pub ghost enum InboundDecision<C> {
    Deliver(C),
    Closed,
    Pending,
}

/// What `poll_close` finds on entry.
#[derive(Clone, Copy, Debug, PartialEq, Eq, Structural)]
pub enum CloseProgress {
    /// The connection is already closed; report success again.
    AlreadyClosed,
    /// No close operation was in flight; one must be started now.
    Begin,
    /// A close operation is already in flight; keep waiting on it.
    InFlight,
}

/// The inbound queue never holds more channels than its capacity.
pub open spec fn conn_wf<C>(s: ConnectionView<C>) -> bool {
    s.inbound.len() <= MAX_DATA_CHANNELS_IN_FLIGHT
}

/// State of a fresh connection: empty queue, no hint, nothing in flight.
pub open spec fn conn_init<C>(s: ConnectionView<C>) -> bool {
    &&& s.inbound == Seq::<C>::empty()
    &&& !s.closed
    &&& s.read_buf_capacity is None
    &&& !s.outbound_in_flight
    &&& !s.close_in_flight
}

/// Transition of the incoming-channel callback: the channel is queued when
/// the connection is open and the queue has room, and refused otherwise.
pub open spec fn spec_on_incoming<C>(s: ConnectionView<C>, channel: C) -> (
    ConnectionView<C>,
    bool,
) {
    if !s.closed && s.inbound.len() < MAX_DATA_CHANNELS_IN_FLIGHT {
        (ConnectionView { inbound: s.inbound.push(channel), ..s }, true)
    } else {
        (s, false)
    }
}

/// Transition of `poll_inbound`: drain the oldest queued channel; once the
/// connection is closed and the queue is drained, the closed error; before
/// close, an empty queue means not-yet.
pub open spec fn spec_poll_inbound<C>(s: ConnectionView<C>) -> (
    ConnectionView<C>,
    InboundDecision<C>,
) {
    if s.inbound.len() > 0 {
        (
            ConnectionView { inbound: s.inbound.remove(0), ..s },
            InboundDecision::Deliver(s.inbound[0]),
        )
    } else if s.closed {
        (s, InboundDecision::Closed)
    } else {
        (s, InboundDecision::Pending)
    }
}

/// Transition of `poll_outbound` on entry: occupy the single outbound slot;
/// the returned flag says whether a new open operation must be started.
pub open spec fn spec_begin_outbound<C>(s: ConnectionView<C>) -> (ConnectionView<C>, bool) {
    (ConnectionView { outbound_in_flight: true, ..s }, !s.outbound_in_flight)
}

/// Transition of an outbound-open completion: the slot is freed.
pub open spec fn spec_complete_outbound<C>(s: ConnectionView<C>) -> ConnectionView<C> {
    ConnectionView { outbound_in_flight: false, ..s }
}

/// Transition of `poll_close` on entry.
pub open spec fn spec_begin_close<C>(s: ConnectionView<C>) -> (ConnectionView<C>, CloseProgress) {
    if s.closed {
        (s, CloseProgress::AlreadyClosed)
    } else if s.close_in_flight {
        (s, CloseProgress::InFlight)
    } else {
        (ConnectionView { close_in_flight: true, ..s }, CloseProgress::Begin)
    }
}

/// Transition of a close completion: the slot is freed; on success the
/// connection is closed for good.
pub open spec fn spec_complete_close<C>(s: ConnectionView<C>, success: bool) -> ConnectionView<C> {
    if success {
        ConnectionView { close_in_flight: false, closed: true, ..s }
    } else {
        ConnectionView { close_in_flight: false, ..s }
    }
}

/// The muxer adapter: scaffolding state of one peer connection.
pub struct Connection<C> {
    inbound: Vec<C>,
    closed: bool,
    read_buf_cap: Option<usize>,
    outbound_in_flight: bool,
    close_in_flight: bool,
}

impl<C> View for Connection<C> {
    type V = ConnectionView<C>;

    closed spec fn view(&self) -> ConnectionView<C> {
        ConnectionView {
            inbound: self.inbound@,
            closed: self.closed,
            read_buf_capacity: self.read_buf_cap,
            outbound_in_flight: self.outbound_in_flight,
            close_in_flight: self.close_in_flight,
        }
    }
}

impl<C> Connection<C> {
    /// A fresh adapter for one peer connection. The caller must register the
    /// connection's data-channel callback so that every incoming channel that
    /// reaches open state and detaches is offered to
    /// [`Connection::on_incoming_data_channel`].
    pub fn new() -> (c: Connection<C>)
        ensures
            conn_init(c@),
            conn_wf(c@),
    {
        Connection {
            inbound: Vec::new(),
            closed: false,
            read_buf_cap: None,
            outbound_in_flight: false,
            close_in_flight: false,
        }
    }

    /// Record the read-buffer capacity applied to every substream produced
    /// afterwards; previously produced substreams are unaffected.
    pub fn set_data_channels_read_buf_capacity(&mut self, cap: usize)
        ensures
            final(self)@ == (ConnectionView { read_buf_capacity: Some(cap), ..old(self)@ }),
    {
        self.read_buf_cap = Some(cap);
    }

    /// Decision of the data-channel callback for a channel that reached open
    /// state and was detached: queue it for later delivery, or refuse it.
    /// Refusal means the caller must close the channel — the queue is full or
    /// the connection is closed, and backpressure is expressed by closing.
    pub fn on_incoming_data_channel(&mut self, channel: C) -> (accepted: bool)
        ensures
            accepted == spec_on_incoming(old(self)@, channel).1,
            final(self)@ == spec_on_incoming(old(self)@, channel).0,
            conn_wf(old(self)@) ==> conn_wf(final(self)@),
    {
        if !self.closed && self.inbound.len() < MAX_DATA_CHANNELS_IN_FLIGHT {
            self.inbound.push(channel);
            true
        } else {
            false
        }
    }

    /// Drain one element from the inbound queue: the oldest queued channel,
    /// wrapped as a substream with the current read-buffer hint.
    pub fn poll_inbound(&mut self) -> (r: Poll<Result<Substream<C>, Error>>)
        ensures
            final(self)@ == spec_poll_inbound(old(self)@).0,
            (match spec_poll_inbound(old(self)@).1 {
                InboundDecision::Deliver(c) => r matches Poll::Ready(Ok(s)) && s.channel == c
                    && s.read_buf_capacity == old(self)@.read_buf_capacity && s.read_buf@
                    == Seq::<u8>::empty(),
                InboundDecision::Closed => r matches Poll::Ready(Err(e)) && e is InternalError,
                InboundDecision::Pending => r is Pending,
            }),
            conn_wf(old(self)@) ==> conn_wf(final(self)@),
    {
        if self.inbound.len() > 0 {
            let channel = self.inbound.remove(0);
            Poll::Ready(Ok(Substream { channel, read_buf_capacity: self.read_buf_cap, read_buf: Vec::new() }))
        } else if self.closed {
            Poll::Ready(Err(Error::InternalError(
                "inbound queue is closed (no channels left)".to_owned(),
            )))
        } else {
            Poll::Pending
        }
    }

    /// The adapter never produces address changes.
    pub fn poll_address_change(&self) -> (r: Poll<Result<String, Error>>)
        ensures
            r is Pending,
    {
        Poll::Pending
    }

    /// Decision of `poll_outbound` on entry: whether a new outbound-open
    /// operation must be started. At most one is in flight at a time; a
    /// second caller finds the slot occupied and keeps waiting.
    pub fn begin_outbound(&mut self) -> (started: bool)
        ensures
            started == spec_begin_outbound(old(self)@).1,
            final(self)@ == spec_begin_outbound(old(self)@).0,
    {
        let started = !self.outbound_in_flight;
        self.outbound_in_flight = true;
        started
    }

    /// Completion of the outbound-open operation. The slot is freed either
    /// way; on success the new channel is wrapped as a substream with the
    /// current read-buffer hint, and on failure the error passes through.
    pub fn complete_outbound(&mut self, result: Result<C, Error>) -> (r: Result<
        Substream<C>,
        Error,
    >)
        requires
            old(self)@.outbound_in_flight,
        ensures
            final(self)@ == spec_complete_outbound(old(self)@),
            result matches Ok(c) ==> r matches Ok(s) && s.channel == c && s.read_buf_capacity
                == old(self)@.read_buf_capacity && s.read_buf@ == Seq::<u8>::empty(),
            result matches Err(e) ==> r == Err::<Substream<C>, Error>(e),
    {
        self.outbound_in_flight = false;
        match result {
            Ok(channel) => Ok(Substream { channel, read_buf_capacity: self.read_buf_cap, read_buf: Vec::new() }),
            Err(e) => Err(e),
        }
    }

    /// Decision of `poll_close` on entry. Success is reported again once the
    /// connection is closed; otherwise at most one close operation is in
    /// flight at a time.
    pub fn begin_close(&mut self) -> (r: CloseProgress)
        ensures
            r == spec_begin_close(old(self)@).1,
            final(self)@ == spec_begin_close(old(self)@).0,
    {
        if self.closed {
            CloseProgress::AlreadyClosed
        } else if self.close_in_flight {
            CloseProgress::InFlight
        } else {
            self.close_in_flight = true;
            CloseProgress::Begin
        }
    }

    /// Completion of the close operation. On success the connection is
    /// closed: the inbound queue stops accepting channels, and once drained
    /// `poll_inbound` reports an error. On failure the slot is freed so that
    /// close can be retried.
    pub fn complete_close(&mut self, result: Result<(), Error>) -> (r: Result<(), Error>)
        requires
            old(self)@.close_in_flight,
            !old(self)@.closed,
        ensures
            final(self)@ == spec_complete_close(old(self)@, result is Ok),
            r is Ok <==> result is Ok,
            result matches Err(e) ==> r == Err::<(), Error>(e),
    {
        self.close_in_flight = false;
        match result {
            Ok(()) => {
                self.closed = true;
                Ok(())
            },
            Err(e) => Err(e),
        }
    }
}

/// An incoming channel is either queued for in-order delivery or refused —
/// never both. It is queued exactly when the connection is open and the
/// queue has room; a refused channel is closed by the callback, and the
/// adapter's state does not change.
pub proof fn lemma_incoming_delivered_or_refused<C>(s: ConnectionView<C>, channel: C)
    ensures
        spec_on_incoming(s, channel).1 <==> (!s.closed && s.inbound.len()
            < MAX_DATA_CHANNELS_IN_FLIGHT),
        spec_on_incoming(s, channel).1 ==> spec_on_incoming(s, channel).0.inbound == s.inbound.push(
            channel,
        ),
        !spec_on_incoming(s, channel).1 ==> spec_on_incoming(s, channel).0 == s,
{
}

/// Queued channels come out in the order they were queued: the poll that
/// follows `n` earlier polls delivers the `n`-th queued channel. Together
/// with [`lemma_incoming_delivered_or_refused`] this makes the delivery
/// dichotomy: every channel the callback accepted is delivered in order,
/// and every other one was closed at acceptance time.
pub proof fn lemma_inbound_delivery_in_order<C>(s: ConnectionView<C>, n: int)
    requires
        0 <= n < s.inbound.len(),
    ensures
        spec_poll_inbound(spec_polls(s, n as nat)).1 == InboundDecision::Deliver(s.inbound[n]),
{
    lemma_polls_keep_tail(s, n as nat);
    assert(s.inbound.skip(n)[0] == s.inbound[n]);
}

/// After `n` polls with at least `n` channels queued, the first `n` have
/// been drained and the rest wait, still in order.
proof fn lemma_polls_keep_tail<C>(s: ConnectionView<C>, n: nat)
    requires
        n <= s.inbound.len(),
    ensures
        spec_polls(s, n) == (ConnectionView { inbound: s.inbound.skip(n as int), ..s }),
    decreases n,
{
    if n == 0 {
        assert(s.inbound.skip(0) =~= s.inbound);
    } else {
        lemma_polls_keep_tail(s, (n - 1) as nat);
        let prev = spec_polls(s, (n - 1) as nat);
        assert(prev.inbound.len() == s.inbound.len() - (n - 1));
        assert(prev.inbound.remove(0) =~= s.inbound.skip(n as int));
    }
}

/// At most one outbound-open operation is in flight at a time: once a poll
/// has started one, every further poll finds the slot occupied and starts
/// nothing until the operation completes.
pub proof fn lemma_single_outbound_in_flight<C>(s: ConnectionView<C>)
    ensures
        !spec_begin_outbound(spec_begin_outbound(s).0).1,
        spec_begin_outbound(spec_complete_outbound(spec_begin_outbound(s).0)).1,
{
}

/// At most one close operation is in flight at a time: once a poll has
/// started one — or the connection is already closed — every further poll
/// finds nothing to start.
pub proof fn lemma_single_close_in_flight<C>(s: ConnectionView<C>)
    ensures
        spec_begin_close(spec_begin_close(s).0).1 != CloseProgress::Begin,
{
}

/// Iterated `poll_inbound` state: the state after `n` polls.
pub open spec fn spec_polls<C>(s: ConnectionView<C>, n: nat) -> ConnectionView<C>
    decreases n,
{
    if n == 0 {
        s
    } else {
        spec_poll_inbound(spec_polls(s, (n - 1) as nat)).0
    }
}

/// After close has succeeded, the inbound queue only shrinks, and an error
/// is reported in finite time: no new channel is accepted any more, and once
/// the channels that were already queued are drained — after exactly as many
/// polls as there were queued channels — every further poll reports the
/// queue closed.
pub proof fn lemma_closed_inbound_terminates<C>(s: ConnectionView<C>, channel: C)
    requires
        s.closed,
    ensures
        !spec_on_incoming(s, channel).1,
        spec_poll_inbound(spec_polls(s, s.inbound.len())).1 == InboundDecision::Closed::<C>,
    decreases s.inbound.len(),
{
    if s.inbound.len() == 0 {
    } else {
        let s1 = spec_poll_inbound(s).0;
        assert(s1.inbound =~= s.inbound.remove(0));
        lemma_closed_inbound_terminates(s1, channel);
        lemma_polls_shift(s, s.inbound.len());
    }
}

/// Unrolling `spec_polls` from the front: `n + 1` polls are one poll
/// followed by `n` polls.
proof fn lemma_polls_shift<C>(s: ConnectionView<C>, n: nat)
    requires
        n >= 1,
    ensures
        spec_polls(s, n) == spec_polls(spec_poll_inbound(s).0, (n - 1) as nat),
    decreases n,
{
    if n == 1 {
        assert(spec_polls(s, 1) == spec_poll_inbound(spec_polls(s, 0)).0);
    } else {
        lemma_polls_shift(s, (n - 1) as nat);
        assert(spec_polls(s, n) == spec_poll_inbound(spec_polls(s, (n - 1) as nat)).0);
        assert(spec_polls(spec_poll_inbound(s).0, (n - 1) as nat) == spec_poll_inbound(
            spec_polls(spec_poll_inbound(s).0, (n - 2) as nat),
        ).0);
    }
}

/// Close is idempotent: on a closed connection, polling close reports
/// success again and changes nothing; in particular a second `poll_close`
/// directly after a successful completion is such a no-op.
pub proof fn lemma_close_idempotent<C>(s: ConnectionView<C>)
    ensures
        s.closed ==> spec_begin_close(s) == (s, CloseProgress::AlreadyClosed),
        spec_begin_close(spec_complete_close(s, true)) == (
            spec_complete_close(s, true),
            CloseProgress::AlreadyClosed,
        ),
{
}

/// The inbound queue has capacity exactly [`MAX_DATA_CHANNELS_IN_FLIGHT`]:
/// on an open connection, a channel is accepted exactly as long as fewer
/// than that many are waiting, so the next channel beyond the capacity is
/// refused and closed.
pub proof fn lemma_queue_capacity<C>(s: ConnectionView<C>, channel: C)
    requires
        !s.closed,
    ensures
        s.inbound.len() < MAX_DATA_CHANNELS_IN_FLIGHT ==> spec_on_incoming(s, channel).1,
        s.inbound.len() >= MAX_DATA_CHANNELS_IN_FLIGHT ==> !spec_on_incoming(s, channel).1,
{
}

} // verus!
