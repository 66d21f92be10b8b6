//! The per-connection worker protocol, and the channel facade over TCP.
//!
//! A connection is served by two workers: the inbound worker reads frames and
//! publishes decoded values, the outbound worker drains queued sends and
//! writes frames.  The loops themselves sit at the transport edge; what they
//! decide at each step is pure and lives here, as step functions from an
//! observed event to the action the worker must take.  Replaying a whole
//! event sequence through [`drive_connection`] gives the connection's
//! delivered messages and terminal state, and shows that messages are
//! delivered in arrival order and that the outcome depends on that
//! connection's events alone.

use vstd::prelude::*;
use vstd::slice::slice_index_get;

use crate::queue::{
    Inbox, PendingResult, PendingSend, Publisher, SendQueue, WorkQueue, oneshot, recv_queue,
    send_queue,
};
use crate::{ReceiverError, SenderError, WireValue};

verus! {

/// The sending end of a client channel: hands values to the connection's
/// outbound worker.
#[derive(Clone)]
#[verifier::reject_recursive_types(T)]
pub struct ClientSender<T: WireValue>(SendQueue<T>);

impl<T: WireValue> crate::Sender<T> for ClientSender<T> {
    /// Queue a value and return its pending result at once.  If the
    /// outbound worker is gone, the pending result resolves to
    /// [`SenderError::Closed`]; nothing panics and nothing is silently
    /// dropped.
    fn send(&mut self, t: T) -> PendingResult {
        let (slot, pending) = oneshot();
        match self.0.enqueue(PendingSend { value: t, slot }) {
            Ok(()) => pending,
            Err(back) => {
                back.slot.fulfill(Err(SenderError::Closed));
                pending
            },
        }
    }
}

/// The receiving end of a client channel: yields what the connection's
/// inbound worker published.
#[verifier::reject_recursive_types(S)]
pub struct ClientReceiver<S: WireValue>(Inbox<S>);

impl<S: WireValue> crate::Receiver<S> for ClientReceiver<S> {
    /// The next published outcome.  Once the inbound worker is gone and the
    /// queue is drained, every further call reports
    /// [`ReceiverError::Disconnected`].
    fn try_recv(&mut self) -> Result<S, ReceiverError> {
        match self.0.next_published() {
            Some(outcome) => outcome,
            None => Err(ReceiverError::Disconnected),
        }
    }
}

/// A fresh outbound leg: the caller's sender and the work queue its
/// outbound worker will drain.
pub fn sender_channel<T: WireValue>() -> (ClientSender<T>, WorkQueue<T>) {
    let (sq, wq) = send_queue();
    (ClientSender(sq), wq)
}

/// A fresh inbound leg: the publisher its inbound worker will feed and the
/// caller's receiver.
pub fn receiver_channel<S: WireValue>() -> (Publisher<S>, ClientReceiver<S>) {
    let (p, inbox) = recv_queue();
    (p, ClientReceiver(inbox))
}

/// What one poll of a connection's read side observed.
pub enum ReadEvent {
    /// A complete frame arrived; this is its payload.
    Frame(Vec<u8>),
    /// The poll timeout elapsed with no data: not an error.
    TimedOut,
    /// The peer closed the stream cleanly before a new frame began.
    Closed,
    /// The transport failed.
    Failed,
}

/// What the server's inbound worker must do after one read.
pub enum ServerConnAction<S> {
    /// Hand the decoded message to the message handler and write the
    /// handler's response back on this same connection.
    Deliver(S),
    /// No data yet: poll again.
    Retry,
    /// Graceful end of stream: free the client's id, fire the disconnect
    /// callback, stop this worker.
    Disconnect,
    /// Connection-fatal error: surface it, then free the id, fire the
    /// disconnect callback and stop.  Only this connection is affected.
    FailDisconnect(ReceiverError),
}

/// The decision table of the server's per-connection read loop.
///
/// A frame that does not decode is connection-fatal on the server side: a
/// misframed stream cannot be resynchronized.  A timeout merely retries; a
/// clean close disconnects gracefully; a transport error disconnects with
/// the error surfaced.
pub fn server_conn_step<S: WireValue>(event: &ReadEvent) -> (a: ServerConnAction<S>)
    ensures
        match *event {
            ReadEvent::Frame(b) => match S::wire_dec(b@) {
                Some(v) => a matches ServerConnAction::Deliver(m) && m@ == v,
                None => a matches ServerConnAction::FailDisconnect(e) && e is Decoding,
            },
            ReadEvent::TimedOut => a is Retry,
            ReadEvent::Closed => a is Disconnect,
            ReadEvent::Failed => a matches ServerConnAction::FailDisconnect(e) && e is Io,
        },
{
    match event {
        ReadEvent::Frame(b) => match crate::frame::read_item::<S>(b.as_slice()) {
            Ok(m) => ServerConnAction::Deliver(m),
            Err(e) => ServerConnAction::FailDisconnect(e),
        },
        ReadEvent::TimedOut => ServerConnAction::Retry,
        ReadEvent::Closed => ServerConnAction::Disconnect,
        ReadEvent::Failed => ServerConnAction::FailDisconnect(ReceiverError::Io),
    }
}

/// What the client's inbound worker must do after one read.
pub enum ClientReadAction<S> {
    /// Publish this outcome to the receiver's queue and keep reading.
    Publish(Result<S, ReceiverError>),
    /// No data yet: poll again.
    Retry,
    /// Graceful end of stream: stop the worker; the receiver then reports
    /// [`ReceiverError::Disconnected`].
    Stop,
}

/// The decision table of the client's read loop.
///
/// Unlike the server, the client survives errors on its single connection:
/// transport and decoding errors are published to the receiving caller and
/// the loop goes on; only a clean close stops it.
pub fn client_read_step<S: WireValue>(event: &ReadEvent) -> (a: ClientReadAction<S>)
    ensures
        match *event {
            ReadEvent::Frame(b) => match S::wire_dec(b@) {
                Some(v) => a matches ClientReadAction::Publish(r) && r matches Ok(resp)
                    && resp@ == v,
                None => a matches ClientReadAction::Publish(r) && r matches Err(e)
                    && e is Decoding,
            },
            ReadEvent::TimedOut => a is Retry,
            ReadEvent::Closed => a is Stop,
            ReadEvent::Failed => a matches ClientReadAction::Publish(r) && r matches Err(e)
                && e is Io,
        },
{
    match event {
        ReadEvent::Frame(b) => ClientReadAction::Publish(
            crate::frame::read_item::<S>(b.as_slice()),
        ),
        ReadEvent::TimedOut => ClientReadAction::Retry,
        ReadEvent::Closed => ClientReadAction::Stop,
        ReadEvent::Failed => ClientReadAction::Publish(Err(ReceiverError::Io)),
    }
}

/// What the accept loop observed when it asked for the next connection.
pub enum AcceptEvent {
    /// A new inbound connection is ready.
    Incoming,
    /// The listener reached a clean end of stream.
    ListenerClosed,
    /// The listener failed.
    ListenerFailed,
}

/// What the accept loop must do next.
pub enum AcceptAction {
    /// Register the client (assign an id, fire the connect callback, spawn
    /// its workers) and accept again.
    HandleNew,
    /// Stop accepting and report success.
    StopAccepting,
    /// Stop accepting and surface the listener error to the caller that
    /// started the server.
    FailServer,
}

/// The decision table of the server's accept loop: a clean end of the
/// listening stream ends the server successfully, any other listener error
/// is fatal and surfaced; a connection's own failure never reaches here.
pub fn server_accept_step(event: &AcceptEvent) -> (a: AcceptAction)
    ensures
        match *event {
            AcceptEvent::Incoming => a is HandleNew,
            AcceptEvent::ListenerClosed => a is StopAccepting,
            AcceptEvent::ListenerFailed => a is FailServer,
        },
{
    match event {
        AcceptEvent::Incoming => AcceptAction::HandleNew,
        AcceptEvent::ListenerClosed => AcceptAction::StopAccepting,
        AcceptEvent::ListenerFailed => AcceptAction::FailServer,
    }
}

/// How a replayed connection ended.
#[derive(Clone, Copy, Debug, PartialEq, Eq, Structural)]
pub enum ConnEnd {
    /// The event sequence ran out with the connection still up.
    StillOpen,
    /// The peer closed cleanly; the disconnect callback fires once.
    Graceful,
    /// A connection-fatal error (transport, or an undecodable frame); the
    /// disconnect callback fires once, after the error is surfaced.
    Faulted,
}

/// The messages a server-side connection delivers to the message handler,
/// in arrival order, when it observes `events`: every decoded frame up to
/// the first terminal event.
pub open spec fn spec_deliveries<S: WireValue>(events: Seq<ReadEvent>) -> Seq<S::V>
    decreases events.len(),
{
    if events.len() == 0 {
        Seq::empty()
    } else {
        match events[0] {
            ReadEvent::Frame(b) => match S::wire_dec(b@) {
                Some(v) => seq![v] + spec_deliveries::<S>(events.drop_first()),
                None => Seq::empty(),
            },
            ReadEvent::TimedOut => spec_deliveries::<S>(events.drop_first()),
            ReadEvent::Closed => Seq::empty(),
            ReadEvent::Failed => Seq::empty(),
        }
    }
}

/// How a server-side connection that observes `events` ends.
pub open spec fn spec_conn_end<S: WireValue>(events: Seq<ReadEvent>) -> ConnEnd
    decreases events.len(),
{
    if events.len() == 0 {
        ConnEnd::StillOpen
    } else {
        match events[0] {
            ReadEvent::Frame(b) => if S::wire_dec(b@) is Some {
                spec_conn_end::<S>(events.drop_first())
            } else {
                ConnEnd::Faulted
            },
            ReadEvent::TimedOut => spec_conn_end::<S>(events.drop_first()),
            ReadEvent::Closed => ConnEnd::Graceful,
            ReadEvent::Failed => ConnEnd::Faulted,
        }
    }
}

/// What a correct replay of one connection looks like: the delivered
/// values are exactly the decoded frames in arrival order, and the end
/// state is the one the events dictate — both functions of `events` alone.
pub open spec fn conn_replay_ok<S: WireValue>(r: (Vec<S>, ConnEnd), events: Seq<ReadEvent>) -> bool {
    &&& r.0@.len() == spec_deliveries::<S>(events).len()
    &&& (forall|k: int|
        0 <= k < r.0@.len() ==> #[trigger] r.0@[k]@ == spec_deliveries::<S>(events)[k])
    &&& r.1 == spec_conn_end::<S>(events)
}

/// Replay one server-side connection over a recorded event sequence.
///
/// The result is exactly what the worker loop built around
/// [`server_conn_step`] does with those events: the messages handed to the
/// handler, in order, and how the connection ended.  Both are functions of
/// this connection's events alone, so no connection's outcome can depend on
/// what another connection saw.
pub fn drive_connection<S: WireValue>(events: &Vec<ReadEvent>) -> (r: (Vec<S>, ConnEnd))
    ensures
        conn_replay_ok::<S>(r, events@),
{
    let ghost orig = events@;
    let mut delivered: Vec<S> = Vec::new();
    let n = events.len();
    let mut idx: usize = 0;
    proof {
        assert(orig.skip(0) =~= orig);
    }
    while idx < n
        invariant
            n == orig.len(),
            events@ == orig,
            0 <= idx <= n,
            spec_deliveries::<S>(orig.skip(idx as int)).len() + delivered@.len()
                == spec_deliveries::<S>(orig).len(),
            forall|k: int|
                0 <= k < delivered@.len() ==> #[trigger] delivered@[k]@
                    == spec_deliveries::<S>(orig)[k],
            forall|k: int|
                0 <= k < spec_deliveries::<S>(orig.skip(idx as int)).len()
                    ==> #[trigger] spec_deliveries::<S>(orig.skip(idx as int))[k]
                    == spec_deliveries::<S>(orig)[delivered@.len() + k],
            spec_conn_end::<S>(orig.skip(idx as int)) == spec_conn_end::<S>(orig),
        decreases n - idx,
    {
        let ghost rest = orig.skip(idx as int);
        proof {
            assert(rest.len() > 0);
            assert(rest[0] == orig[idx as int]);
            assert(rest.drop_first() =~= orig.skip(idx as int + 1));
        }
        let event = slice_index_get(events.as_slice(), idx);
        match server_conn_step::<S>(event) {
            ServerConnAction::Deliver(m) => {
                proof {
                    assert(spec_deliveries::<S>(rest) == seq![m@] + spec_deliveries::<S>(
                        rest.drop_first(),
                    ));
                    assert(spec_deliveries::<S>(rest)[0] == m@);
                    assert(spec_deliveries::<S>(orig)[delivered@.len() as int] == m@);
                }
                delivered.push(m);
                proof {
                    assert forall|k: int|
                        0 <= k < spec_deliveries::<S>(orig.skip(idx as int + 1)).len()
                            implies #[trigger] spec_deliveries::<S>(orig.skip(idx as int + 1))[k]
                            == spec_deliveries::<S>(orig)[delivered@.len() + k] by {
                        assert(spec_deliveries::<S>(rest.drop_first())[k] == spec_deliveries::<S>(
                            rest,
                        )[k + 1]);
                    }
                }
            },
            ServerConnAction::Retry => {
                proof {
                    assert(spec_deliveries::<S>(rest) == spec_deliveries::<S>(rest.drop_first()));
                    assert(spec_conn_end::<S>(rest) == spec_conn_end::<S>(rest.drop_first()));
                }
            },
            ServerConnAction::Disconnect => {
                proof {
                    assert(spec_deliveries::<S>(rest) =~= Seq::<S::V>::empty());
                    assert(spec_conn_end::<S>(rest) == ConnEnd::Graceful);
                }
                return (delivered, ConnEnd::Graceful);
            },
            ServerConnAction::FailDisconnect(_) => {
                proof {
                    assert(spec_deliveries::<S>(rest) =~= Seq::<S::V>::empty());
                    assert(spec_conn_end::<S>(rest) == ConnEnd::Faulted);
                }
                return (delivered, ConnEnd::Faulted);
            },
        }
        idx = idx + 1;
    }
    proof {
        assert(orig.skip(n as int) =~= Seq::<ReadEvent>::empty());
    }
    (delivered, ConnEnd::StillOpen)
}

/// Replay several connections side by side: independence of concurrent
/// clients.
///
/// Each entry of the result is pinned to the matching connection's events
/// alone — connection `i`'s outcome satisfies [`conn_replay_ok`] against
/// `conns[i]`, whatever any other connection saw.  No client observes
/// another client's messages or replies; a server only interleaves these
/// independent runs.
pub fn drive_connections<S: WireValue>(conns: &Vec<Vec<ReadEvent>>) -> (r: Vec<
    (Vec<S>, ConnEnd),
>)
    ensures
        r@.len() == conns@.len(),
        forall|i: int|
            0 <= i < r@.len() ==> #[trigger] conn_replay_ok::<S>(r@[i], conns@[i]@),
{
    let mut r: Vec<(Vec<S>, ConnEnd)> = Vec::new();
    let n = conns.len();
    let mut i: usize = 0;
    while i < n
        invariant
            n == conns@.len(),
            r@.len() == i,
            0 <= i <= n,
            forall|j: int|
                0 <= j < r@.len() ==> #[trigger] conn_replay_ok::<S>(r@[j], conns@[j]@),
        decreases n - i,
    {
        let events = slice_index_get(conns.as_slice(), i);
        let outcome = drive_connection::<S>(events);
        let ghost prev = r@;
        let ghost snap = outcome;
        r.push(outcome);
        proof {
            assert forall|j: int|
                0 <= j < r@.len() implies #[trigger] conn_replay_ok::<S>(r@[j], conns@[j]@) by {
                if j < prev.len() {
                    assert(r@[j] == prev[j]);
                } else {
                    assert(r@[j] == snap);
                    assert(conns@[j] == *events);
                }
            }
        }
        i = i + 1;
    }
    r
}

/// The phases of an outbound worker's life.
#[derive(Clone, Copy, Debug, PartialEq, Eq, Structural)]
pub enum OutboundPhase {
    /// Taking pending sends from the queue and writing them.
    Running,
    /// The queue has closed while a write was in flight; that write is
    /// finished (and its slot fulfilled) before the worker stops.
    Draining,
    /// No more work will be done.
    Stopped,
}

/// What an outbound worker observed.
pub enum OutboundEvent {
    /// A pending send was taken from the queue.
    Dequeued,
    /// The queue is closed and drained: the sender side is torn down.
    QueueClosed,
    /// The in-flight frame write completed.
    WroteOk,
    /// The in-flight frame write failed; the connection is broken.
    WroteErr,
}

/// What an outbound worker must do next.
pub enum OutboundAction {
    /// Encode the taken value and write its frame, then report the result.
    WriteFrame,
    /// Fulfill the in-flight send's slot with success.
    FulfillOk,
    /// Fulfill the in-flight send's slot with this failure.
    FulfillErr(SenderError),
    /// Nothing to write or fulfill.
    Idle,
}

/// The outbound worker's state machine.
///
/// While running, the worker takes pending sends one at a time, writes each
/// as a frame and fulfills its slot with the outcome.  The queue closing
/// moves it to draining (if a write is in flight) and then to stopped.  On
/// this strict point-to-point channel a write failure is fatal to the
/// connection: the failing send's slot takes [`SenderError::Io`] and every
/// later send is rejected at once with the same error, without touching the
/// transport.
pub struct OutboundWorker {
    phase: OutboundPhase,
    writing: bool,
    broken: bool,
}

impl OutboundWorker {
    /// Which phase the worker is in.
    pub closed spec fn phase(&self) -> OutboundPhase {
        self.phase
    }

    /// Whether a frame write is in flight.
    pub closed spec fn writing(&self) -> bool {
        self.writing
    }

    /// Whether the connection has seen a fatal write failure.
    pub closed spec fn broken(&self) -> bool {
        self.broken
    }

    /// A fresh worker for a fresh connection: running, idle, intact.
    pub fn new() -> (w: OutboundWorker)
        ensures
            w.phase() == OutboundPhase::Running,
            !w.writing(),
            !w.broken(),
    {
        OutboundWorker { phase: OutboundPhase::Running, writing: false, broken: false }
    }

    /// Advance the machine by one observed event.
    ///
    /// The queue is only polled while the worker runs with no write in
    /// flight, and a write result only arrives while one is; the
    /// preconditions state exactly that protocol.
    pub fn step(&mut self, event: &OutboundEvent) -> (a: OutboundAction)
        requires
            match *event {
                OutboundEvent::Dequeued => old(self).phase() == OutboundPhase::Running && !old(
                    self,
                ).writing(),
                OutboundEvent::QueueClosed => old(self).phase() == OutboundPhase::Running,
                OutboundEvent::WroteOk => old(self).writing(),
                OutboundEvent::WroteErr => old(self).writing(),
            },
        ensures
            final(self).broken() == (old(self).broken() || *event is WroteErr),
            match *event {
                OutboundEvent::Dequeued => if old(self).broken() {
                    &&& a matches OutboundAction::FulfillErr(e) && e is Io
                    &&& final(self).phase() == old(self).phase()
                    &&& !final(self).writing()
                } else {
                    &&& a is WriteFrame
                    &&& final(self).phase() == old(self).phase()
                    &&& final(self).writing()
                },
                OutboundEvent::QueueClosed => {
                    &&& a is Idle
                    &&& final(self).writing() == old(self).writing()
                    &&& final(self).phase() == (if old(self).writing() {
                        OutboundPhase::Draining
                    } else {
                        OutboundPhase::Stopped
                    })
                },
                OutboundEvent::WroteOk => {
                    &&& a is FulfillOk
                    &&& !final(self).writing()
                    &&& final(self).phase() == (if old(self).phase() == OutboundPhase::Draining {
                        OutboundPhase::Stopped
                    } else {
                        old(self).phase()
                    })
                },
                OutboundEvent::WroteErr => {
                    &&& a matches OutboundAction::FulfillErr(e) && e is Io
                    &&& !final(self).writing()
                    &&& final(self).phase() == (if old(self).phase() == OutboundPhase::Draining {
                        OutboundPhase::Stopped
                    } else {
                        old(self).phase()
                    })
                },
            },
    {
        match event {
            OutboundEvent::Dequeued => {
                if self.broken {
                    OutboundAction::FulfillErr(SenderError::Io)
                } else {
                    self.writing = true;
                    OutboundAction::WriteFrame
                }
            },
            OutboundEvent::QueueClosed => {
                if self.writing {
                    self.phase = OutboundPhase::Draining;
                } else {
                    self.phase = OutboundPhase::Stopped;
                }
                OutboundAction::Idle
            },
            OutboundEvent::WroteOk => {
                self.writing = false;
                if self.phase == OutboundPhase::Draining {
                    self.phase = OutboundPhase::Stopped;
                }
                OutboundAction::FulfillOk
            },
            OutboundEvent::WroteErr => {
                self.writing = false;
                self.broken = true;
                if self.phase == OutboundPhase::Draining {
                    self.phase = OutboundPhase::Stopped;
                }
                OutboundAction::FulfillErr(SenderError::Io)
            },
        }
    }
}

/// Ordering per connection: when a connection's events are exactly the
/// frames of the messages `msgs`, in that order, the handler sees exactly
/// `msgs`, in that order — the k-th message sent is the k-th delivered.
pub proof fn lemma_ordering_per_connection<S: WireValue>(events: Seq<ReadEvent>, msgs: Seq<S::V>)
    requires
        events.len() == msgs.len(),
        forall|k: int|
            0 <= k < events.len() ==> (#[trigger] events[k] matches ReadEvent::Frame(b)
                && b@ == S::wire_enc(msgs[k])),
    ensures
        spec_deliveries::<S>(events) == msgs,
    decreases events.len(),
{
    if events.len() == 0 {
        assert(spec_deliveries::<S>(events) =~= msgs);
    } else {
        assert(events[0] matches ReadEvent::Frame(b) && b@ == S::wire_enc(
            msgs[0],
        ));
        S::wire_round_trip(msgs[0]);
        assert forall|k: int|
            0 <= k < events.drop_first().len() implies (#[trigger] events.drop_first()[k]
            matches ReadEvent::Frame(b)
            && b@ == S::wire_enc(msgs.drop_first()[k])) by {
            assert(events.drop_first()[k] == events[k + 1]);
            assert(events[k + 1] matches ReadEvent::Frame(b) && b@
                == S::wire_enc(msgs[k + 1]));
        }
        lemma_ordering_per_connection::<S>(events.drop_first(), msgs.drop_first());
        assert(spec_deliveries::<S>(events) =~= msgs);
    }
}

} // verus!
