//! The handshake driver: one step of the engine at a time.
//!
//! Each time the task is polled, its caller runs the engine's handshake step
//! through the bridge and hands the driver what the step reported. The driver
//! decides what the poll returns and what state is left behind. It owns the
//! engine's session and the bridge, and so the transport, until the handshake
//! is complete; then it hands both on as the encrypted stream. A driver that
//! fails, or is dropped, drops them with it.

use crate::bridge::{Bridge, Direction};
use crate::error::{Error, HandshakeError, TransportError};
use vstd::prelude::*;

verus! {

/// What one handshake step of the engine reported.
#[derive(Clone, Debug, PartialEq, Eq)]
pub enum EngineStep {
    /// The handshake is complete.
    Complete,
    /// The step could not go on without blocking, in the given direction.
    WouldBlock(Direction),
    /// The transport failed under the step.
    TransportFailed(TransportError),
    /// The engine refuses the peer: a protocol, cryptographic or certificate
    /// failure.
    Rejected(HandshakeError),
}

impl EngineStep {
    /// The direction that a blocked step waits for on a bridge: the one that
    /// the bridge is blocked on, and reading where the bridge holds no
    /// registration at all.
    pub open spec fn waits_for<S>(bridge: Bridge<S>) -> Direction {
        if bridge.wakes(Direction::Write) {
            Direction::Write
        } else {
            Direction::Read
        }
    }

    /// The report of a step that would block, for the engine that ran it over
    /// this bridge.
    pub fn blocked<S>(bridge: &Bridge<S>) -> (step: EngineStep)
        ensures
            step == EngineStep::WouldBlock(EngineStep::waits_for(*bridge)),
    {
        match bridge.blocked_on() {
            Some(direction) => EngineStep::WouldBlock(direction),
            None => EngineStep::WouldBlock(Direction::Read),
        }
    }
}

/// An engine's session over a bridge: during the handshake the driver holds
/// it, and after the handshake it is the encrypted stream.
#[derive(Debug)]
pub struct TlsStream<E, S> {
    /// The state of the engine for this connection.
    pub session: E,
    /// The transport of this connection.
    pub bridge: Bridge<S>,
}

impl<E, S> TlsStream<E, S> {
    /// A session over a new bridge that wraps `transport`.
    pub open spec fn is_fresh(self, session: E, transport: S) -> bool {
        &&& self.session == session
        &&& self.bridge.transport() == transport
        &&& forall|direction: Direction| !self.bridge.wakes(direction)
    }

    /// Puts a session over a new bridge that wraps `transport`.
    pub fn new(session: E, transport: S) -> (stream: Self)
        ensures
            stream.is_fresh(session, transport),
    {
        TlsStream { session, bridge: Bridge::new(transport) }
    }

    /// The transport under the stream.
    pub fn get_ref(&self) -> (transport: &S)
        ensures
            *transport == self.bridge.transport(),
    {
        self.bridge.peek_transport()
    }

    /// The transport under the stream, to change it. The session and the
    /// wake registrations stay as they are.
    pub fn get_mut(&mut self) -> (transport: &mut S)
        ensures
            *transport == old(self).bridge.transport(),
            final(self).bridge.transport() == *final(transport),
            forall|direction: Direction|
                final(self).bridge.wakes(direction) == old(self).bridge.wakes(direction),
            final(self).session == old(self).session,
    {
        self.bridge.transport_mut()
    }
}

/// What a poll of the driver returns.
#[derive(Debug)]
pub enum HandshakePoll<E, S> {
    /// The handshake is not complete. The task must be resumed when the
    /// transport is ready in the given direction.
    Pending(Direction),
    /// The handshake is complete: the session and the bridge, as the
    /// encrypted stream.
    Ready(TlsStream<E, S>),
    /// The handshake failed, for good.
    Failed(Error),
    /// The driver has no handshake in progress.
    Idle,
}

/// The state of one handshake.
#[derive(Debug)]
pub enum HandshakeDriver<E, S> {
    /// The engine has no session for the connection yet.
    NotStarted(Bridge<S>),
    /// The engine is in the middle of the handshake.
    MidHandshake(TlsStream<E, S>),
    /// The handshake was completed, and the session and the bridge handed on.
    Done,
    /// The handshake failed, and the session and the bridge were dropped.
    Failed,
}

impl<E, S> HandshakeDriver<E, S> {
    /// The state and the result of a poll in which the engine's step reported
    /// `step`.
    pub open spec fn next(self, step: EngineStep) -> (Self, HandshakePoll<E, S>) {
        match self {
            HandshakeDriver::MidHandshake(stream) => match step {
                EngineStep::Complete => (HandshakeDriver::Done, HandshakePoll::Ready(stream)),
                EngineStep::WouldBlock(direction) => (
                    HandshakeDriver::MidHandshake(stream),
                    HandshakePoll::Pending(direction),
                ),
                EngineStep::TransportFailed(error) => (
                    HandshakeDriver::Failed,
                    HandshakePoll::Failed(Error::Transport(error)),
                ),
                EngineStep::Rejected(error) => (
                    HandshakeDriver::Failed,
                    HandshakePoll::Failed(Error::Handshake(error)),
                ),
            },
            other => (other, HandshakePoll::Idle),
        }
    }

    /// The state after a run of polls, one for each step.
    pub open spec fn after(self, steps: Seq<EngineStep>) -> Self
        decreases steps.len(),
    {
        if steps.len() == 0 {
            self
        } else {
            self.after(steps.drop_last()).next(steps.last()).0
        }
    }

    /// What the last poll of a run of polls returns.
    pub open spec fn report(self, steps: Seq<EngineStep>) -> HandshakePoll<E, S>
        recommends
            steps.len() > 0,
    {
        self.after(steps.drop_last()).next(steps.last()).1
    }

    /// A driver as `connect` and `accept` make it: in the middle of the
    /// handshake, with `session` over a new bridge that wraps `transport`.
    pub open spec fn is_fresh(self, session: E, transport: S) -> bool {
        self matches HandshakeDriver::MidHandshake(stream) && stream.is_fresh(session, transport)
    }

    /// Whether the handshake has ended, well or badly.
    pub open spec fn is_resolved(self) -> bool {
        self is Done || self is Failed
    }

    /// A driver for a connection for which the engine has no session yet.
    pub fn new(bridge: Bridge<S>) -> (driver: Self)
        ensures
            driver == HandshakeDriver::<E, S>::NotStarted(bridge),
    {
        HandshakeDriver::NotStarted(bridge)
    }

    /// A driver for a connection whose session stands ready.
    pub fn started(stream: TlsStream<E, S>) -> (driver: Self)
        ensures
            driver == HandshakeDriver::MidHandshake(stream),
    {
        HandshakeDriver::MidHandshake(stream)
    }

    /// Begins the handshake with the session that the engine has made. In any
    /// other state than `NotStarted` nothing changes, and the session is
    /// dropped.
    pub fn begin(&mut self, session: E)
        ensures
            *final(self) == match *old(self) {
                HandshakeDriver::NotStarted(bridge) => HandshakeDriver::MidHandshake(
                    TlsStream { session, bridge },
                ),
                other => other,
            },
    {
        let mut prior = HandshakeDriver::Done;
        core::mem::swap(self, &mut prior);
        *self = match prior {
            HandshakeDriver::NotStarted(bridge) => HandshakeDriver::MidHandshake(
                TlsStream { session, bridge },
            ),
            other => other,
        };
    }

    /// Whether the handshake has ended, well or badly.
    pub fn resolved(&self) -> (ended: bool)
        ensures
            ended == self.is_resolved(),
    {
        match self {
            HandshakeDriver::Done => true,
            HandshakeDriver::Failed => true,
            _ => false,
        }
    }

    /// The bridge, while the driver holds one.
    pub fn bridge(&self) -> (bridge: Option<&Bridge<S>>)
        ensures
            match *self {
                HandshakeDriver::NotStarted(held) => bridge == Some(&held),
                HandshakeDriver::MidHandshake(stream) => bridge == Some(&stream.bridge),
                _ => bridge is None,
            },
    {
        match self {
            HandshakeDriver::NotStarted(held) => Some(held),
            HandshakeDriver::MidHandshake(stream) => Some(&stream.bridge),
            _ => None,
        }
    }

    /// The session and the bridge in the middle of a handshake, for the
    /// engine's next step. The state stays `MidHandshake`, around the two as
    /// the step leaves them.
    pub fn stream_mut(&mut self) -> (stream: Option<&mut TlsStream<E, S>>)
        ensures
            match *old(self) {
                HandshakeDriver::MidHandshake(held) => stream matches Some(lent) && *lent == held
                    && *final(self) == HandshakeDriver::MidHandshake(*final(lent)),
                other => stream is None && *final(self) == other,
            },
    {
        match self {
            HandshakeDriver::MidHandshake(held) => Some(held),
            _ => None,
        }
    }

    /// One poll: takes what the engine's handshake step reported and decides.
    ///
    /// In the middle of a handshake, a complete step ends it and hands the
    /// session and the bridge on; a step that would block leaves everything
    /// as it is and asks to be resumed; a failure ends it and drops the two.
    /// In any other state nothing happens.
    pub fn advance(&mut self, step: EngineStep) -> (poll: HandshakePoll<E, S>)
        ensures
            *final(self) == old(self).next(step).0,
            poll == old(self).next(step).1,
    {
        let mut prior = HandshakeDriver::Done;
        core::mem::swap(self, &mut prior);
        match prior {
            HandshakeDriver::MidHandshake(stream) => match step {
                EngineStep::Complete => HandshakePoll::Ready(stream),
                EngineStep::WouldBlock(direction) => {
                    *self = HandshakeDriver::MidHandshake(stream);
                    HandshakePoll::Pending(direction)
                },
                EngineStep::TransportFailed(error) => {
                    *self = HandshakeDriver::Failed;
                    HandshakePoll::Failed(Error::Transport(error))
                },
                EngineStep::Rejected(error) => {
                    *self = HandshakeDriver::Failed;
                    HandshakePoll::Failed(Error::Handshake(error))
                },
            },
            other => {
                *self = other;
                HandshakePoll::Idle
            },
        }
    }
}

/// The steps of a handshake over a transport that is not ready for a number
/// of turns, one direction for each turn, and then lets the engine finish.
pub open spec fn delayed_steps(waits: Seq<Direction>) -> Seq<EngineStep> {
    waits.map_values(|direction: Direction| EngineStep::WouldBlock(direction)).push(
        EngineStep::Complete,
    )
}

/// A handshake whose transport is late for N turns takes N + 1 polls.
///
/// Each of the first N polls returns `Pending`, for the direction that
/// blocked, and leaves the driver in the middle of the handshake with its
/// session and its bridge. The poll after them returns the two as the stream
/// and leaves the driver done.
pub proof fn lemma_delayed_handshake_takes_one_more_poll<E, S>(
    stream: TlsStream<E, S>,
    waits: Seq<Direction>,
)
    ensures
        forall|k: int|
            0 <= k <= waits.len() ==> #[trigger] HandshakeDriver::MidHandshake(stream).after(
                delayed_steps(waits).take(k),
            ) == HandshakeDriver::MidHandshake(stream),
        forall|k: int|
            1 <= k <= waits.len() ==> #[trigger] HandshakeDriver::MidHandshake(stream).report(
                delayed_steps(waits).take(k),
            ) == HandshakePoll::<E, S>::Pending(waits[k - 1]),
        HandshakeDriver::MidHandshake(stream).report(delayed_steps(waits)) == HandshakePoll::Ready(
            stream,
        ),
        HandshakeDriver::MidHandshake(stream).after(delayed_steps(waits)) == HandshakeDriver::<
            E,
            S,
        >::Done,
{
    let start = HandshakeDriver::MidHandshake(stream);
    let steps = delayed_steps(waits);
    assert forall|k: int| 0 <= k <= waits.len() implies #[trigger] start.after(steps.take(k))
        == start by {
        lemma_waiting_keeps_state(stream, waits, k);
    }
    assert forall|k: int| 1 <= k <= waits.len() implies #[trigger] start.report(steps.take(k))
        == HandshakePoll::<E, S>::Pending(waits[k - 1]) by {
        lemma_waiting_keeps_state(stream, waits, k - 1);
        assert(steps.take(k).drop_last() =~= steps.take(k - 1));
        assert(steps.take(k).last() == EngineStep::WouldBlock(waits[k - 1]));
    }
    lemma_waiting_keeps_state(stream, waits, waits.len() as int);
    assert(steps.drop_last() =~= steps.take(waits.len() as int));
    assert(steps.last() == EngineStep::Complete);
}

/// As long as every step would block, the driver stays where it is.
proof fn lemma_waiting_keeps_state<E, S>(stream: TlsStream<E, S>, waits: Seq<Direction>, k: int)
    requires
        0 <= k <= waits.len(),
    ensures
        HandshakeDriver::MidHandshake(stream).after(delayed_steps(waits).take(k))
            == HandshakeDriver::MidHandshake(stream),
    decreases k,
{
    let steps = delayed_steps(waits);
    if k > 0 {
        lemma_waiting_keeps_state(stream, waits, k - 1);
        assert(steps.take(k).drop_last() =~= steps.take(k - 1));
        assert(steps.take(k).last() == EngineStep::WouldBlock(waits[k - 1]));
    }
}

} // verus!
