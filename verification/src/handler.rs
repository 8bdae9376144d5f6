//! The per-connection handler lifecycle and the bounded pool of handler
//! slots.
//!
//! A handler owns one connection end to end: it waits for a request to
//! start, reads it, dispatches it, writes the response, and either loops
//! (keep-alive) or closes. The embedding program performs the reads,
//! writes and timer waits; it reports each outcome as a [`ConnEvent`]
//! and advances the handler with [`step`]. Every decision of the
//! lifecycle therefore lives here, as a pure function on plain values.
//!
//! Handlers are independent: each has its own state and buffers, and
//! they share nothing but the actuator state. [`lemma_pool_step_isolated`]
//! records that advancing one handler leaves every other handler's state
//! untouched.

use vstd::prelude::*;

verus! {

/// Where a connection handler stands in its lifecycle.
#[derive(Clone, Copy, PartialEq, Eq, Structural, Debug)]
pub enum HandlerState {
    /// Waiting for the first byte of the next request.
    AwaitRequestStart,
    /// A request has started arriving and is being read.
    ReadingRequest,
    /// A complete request is being dispatched through the router.
    Dispatching,
    /// The response is being written.
    WritingResponse,
    /// Terminal: a timeout expired and the connection was closed.
    TimedOutClose,
    /// Terminal: the request exceeded the fixed buffer capacity and the
    /// connection was closed.
    OversizeClose,
    /// Terminal: the connection was closed (end of exchange, peer close,
    /// or transport error).
    Closed,
}

/// The outcome of one step of outside work on a connection, as the
/// embedding program reports it.
#[derive(Clone, Copy, PartialEq, Eq, Structural, Debug)]
pub enum ConnEvent {
    /// The first byte of a request arrived in time.
    BytesArrived,
    /// No byte arrived before the start-read-request deadline.
    StartTimeout,
    /// A complete request was framed within the buffer capacity.
    RequestComplete,
    /// The rest of the request did not arrive before the read deadline.
    ReadTimeout,
    /// The request did not fit in the fixed read buffer.
    BufferOverflow,
    /// The router produced a response.
    ResponseReady,
    /// The response was fully written in time.
    WriteComplete,
    /// The response was not fully written before the write deadline.
    WriteTimeout,
    /// A transport read or write failed.
    TransportError,
    /// The peer closed the connection.
    PeerClosed,
}

/// Whether a handler state is terminal: the connection is closed and no
/// event moves the handler again.
pub open spec fn is_terminal(s: HandlerState) -> bool {
    match s {
        HandlerState::TimedOutClose => true,
        HandlerState::OversizeClose => true,
        HandlerState::Closed => true,
        _ => false,
    }
}

/// The transition function of the handler lifecycle.
///
/// A transport error or a peer close ends any non-terminal state. A
/// timeout ends the phase it bounds. After a fully written response the
/// handler waits for the next request exactly when `keep_alive` is set,
/// and closes otherwise. An event that does not apply to the current
/// state leaves it unchanged, and a terminal state absorbs every event.
pub open spec fn spec_step(s: HandlerState, e: ConnEvent, keep_alive: bool) -> HandlerState {
    if is_terminal(s) {
        s
    } else if e == ConnEvent::TransportError || e == ConnEvent::PeerClosed {
        HandlerState::Closed
    } else {
        match s {
            HandlerState::AwaitRequestStart => match e {
                ConnEvent::BytesArrived => HandlerState::ReadingRequest,
                ConnEvent::StartTimeout => HandlerState::TimedOutClose,
                _ => s,
            },
            HandlerState::ReadingRequest => match e {
                ConnEvent::RequestComplete => HandlerState::Dispatching,
                ConnEvent::ReadTimeout => HandlerState::TimedOutClose,
                ConnEvent::BufferOverflow => HandlerState::OversizeClose,
                _ => s,
            },
            HandlerState::Dispatching => match e {
                ConnEvent::ResponseReady => HandlerState::WritingResponse,
                _ => s,
            },
            HandlerState::WritingResponse => match e {
                ConnEvent::WriteComplete => if keep_alive {
                    HandlerState::AwaitRequestStart
                } else {
                    HandlerState::Closed
                },
                ConnEvent::WriteTimeout => HandlerState::TimedOutClose,
                _ => s,
            },
            _ => s,
        }
    }
}

/// Advance a handler by one reported event.
pub fn step(s: HandlerState, e: ConnEvent, keep_alive: bool) -> (r: HandlerState)
    ensures
        r == spec_step(s, e, keep_alive),
{
    if matches!(s, HandlerState::TimedOutClose | HandlerState::OversizeClose | HandlerState::Closed) {
        s
    } else if matches!(e, ConnEvent::TransportError | ConnEvent::PeerClosed) {
        HandlerState::Closed
    } else {
        match s {
            HandlerState::AwaitRequestStart => match e {
                ConnEvent::BytesArrived => HandlerState::ReadingRequest,
                ConnEvent::StartTimeout => HandlerState::TimedOutClose,
                _ => s,
            },
            HandlerState::ReadingRequest => match e {
                ConnEvent::RequestComplete => HandlerState::Dispatching,
                ConnEvent::ReadTimeout => HandlerState::TimedOutClose,
                ConnEvent::BufferOverflow => HandlerState::OversizeClose,
                _ => s,
            },
            HandlerState::Dispatching => match e {
                ConnEvent::ResponseReady => HandlerState::WritingResponse,
                _ => s,
            },
            HandlerState::WritingResponse => match e {
                ConnEvent::WriteComplete => if keep_alive {
                    HandlerState::AwaitRequestStart
                } else {
                    HandlerState::Closed
                },
                ConnEvent::WriteTimeout => HandlerState::TimedOutClose,
                _ => s,
            },
            _ => s,
        }
    }
}

/// A connection on which no byte arrives before the start-read-request
/// deadline is closed for good: the start timeout leads to a terminal
/// state, and no later event reopens it.
pub proof fn lemma_start_timeout_closes(e: ConnEvent, keep_alive: bool)
    ensures
        spec_step(HandlerState::AwaitRequestStart, ConnEvent::StartTimeout, keep_alive)
            == HandlerState::TimedOutClose,
        is_terminal(spec_step(HandlerState::AwaitRequestStart, ConnEvent::StartTimeout, keep_alive)),
        spec_step(HandlerState::TimedOutClose, e, keep_alive) == HandlerState::TimedOutClose,
{
}

/// The joint state of a pool of handlers, one entry per slot.
pub open spec fn pool_step(
    pool: Seq<HandlerState>,
    i: int,
    e: ConnEvent,
    keep_alive: bool,
) -> Seq<HandlerState> {
    pool.update(i, spec_step(pool[i], e, keep_alive))
}

/// Advancing one handler leaves every other handler exactly where it
/// was: an event on one connection, a timeout included, never affects a
/// concurrently served connection.
pub proof fn lemma_pool_step_isolated(
    pool: Seq<HandlerState>,
    i: int,
    e: ConnEvent,
    keep_alive: bool,
)
    requires
        0 <= i < pool.len(),
    ensures
        pool_step(pool, i, e, keep_alive).len() == pool.len(),
        forall|j: int|
            0 <= j < pool.len() && j != i ==> pool_step(pool, i, e, keep_alive)[j] == pool[j],
        pool_step(pool, i, e, keep_alive)[i] == spec_step(pool[i], e, keep_alive),
{
}

/// The bounded pool of handler slots: a fixed number of slots, each
/// either free or busy with one connection. The listener acquires a free
/// slot for each accepted connection and blocks while all are busy, so
/// at most `len` connections are served concurrently.
pub struct HandlerPool {
    busy: Vec<bool>,
}

impl View for HandlerPool {
    type V = Seq<bool>;

    closed spec fn view(&self) -> Seq<bool> {
        self.busy@
    }
}

impl HandlerPool {
    /// Create a pool of `n` free slots.
    pub fn new(n: usize) -> (p: HandlerPool)
        requires
            n >= 1,
        ensures
            p@.len() == n,
            forall|j: int| 0 <= j < n ==> p@[j] == false,
    {
        let mut busy: Vec<bool> = Vec::new();
        let mut i: usize = 0;
        while i < n
            invariant
                i <= n,
                busy@.len() == i,
                forall|j: int| 0 <= j < i ==> busy@[j] == false,
            decreases n - i,
        {
            busy.push(false);
            i = i + 1;
        }
        HandlerPool { busy }
    }

    /// Number of slots.
    pub fn size(&self) -> (n: usize)
        ensures
            n == self@.len(),
    {
        self.busy.len()
    }

    /// Mark the first free slot busy and return its index; return `None`,
    /// changing nothing, when every slot is busy.
    pub fn acquire(&mut self) -> (r: Option<usize>)
        ensures
            final(self)@.len() == old(self)@.len(),
            r is Some ==> {
                let i = r->Some_0 as int;
                &&& 0 <= i < old(self)@.len()
                &&& old(self)@[i] == false
                &&& forall|j: int| 0 <= j < i ==> old(self)@[j] == true
                &&& final(self)@ == old(self)@.update(i, true)
            },
            r is None ==> {
                &&& forall|j: int| 0 <= j < old(self)@.len() ==> old(self)@[j] == true
                &&& final(self)@ == old(self)@
            },
    {
        let n = self.busy.len();
        let mut i: usize = 0;
        while i < n
            invariant
                n == self.busy@.len(),
                i <= n,
                *self == *old(self),
                forall|j: int| 0 <= j < i ==> self.busy@[j] == true,
            decreases n - i,
        {
            if !self.busy[i] {
                self.busy.set(i, true);
                assert(final(self)@ =~= old(self)@.update(i as int, true));
                return Some(i);
            }
            i = i + 1;
        }
        None
    }

    /// Mark slot `i` free again once its connection has ended.
    pub fn release(&mut self, i: usize)
        requires
            i < old(self)@.len(),
        ensures
            final(self)@ == old(self)@.update(i as int, false),
    {
        self.busy.set(i, false);
    }
}

} // verus!
