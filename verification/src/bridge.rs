//! The bridge between an asynchronous transport and an engine that reads and
//! writes synchronously.
//!
//! The engine asks for bytes as if the transport could block. The bridge owns
//! the transport, lets its caller poll it once without blocking, and turns
//! what the poll reported into what the engine is told. A poll that is not
//! ready becomes "would block", and the bridge then holds a wake registration
//! for that direction, so that the task is resumed when the transport is
//! ready.

use crate::error::TransportError;
use vstd::prelude::*;

verus! {

/// The direction of an operation on the transport.
#[derive(Clone, Copy, Debug, PartialEq, Eq, Structural)]
pub enum Direction {
    Read,
    Write,
}

/// What one non-blocking poll of the transport reported.
#[derive(Clone, Debug, PartialEq, Eq)]
pub enum Readiness<T> {
    /// The operation was done. For a read or a write the value is the number
    /// of bytes moved; a read of no bytes is the end of the stream.
    Ready(T),
    /// The transport is not ready, and will wake the task when it is.
    Pending,
    /// The transport failed.
    Failed(TransportError),
}

/// What a synchronous operation tells the engine.
#[derive(Clone, Debug, PartialEq, Eq)]
pub enum IoOutcome<T> {
    /// The operation was done, with the value that the transport reported.
    Done(T),
    /// The operation cannot be done now without blocking.
    WouldBlock,
    /// The transport failed; its error is handed on unchanged.
    Failed(TransportError),
}

impl<T> Readiness<T> {
    /// What the engine is told for this poll.
    pub open spec fn outcome(self) -> IoOutcome<T> {
        match self {
            Readiness::Ready(value) => IoOutcome::Done(value),
            Readiness::Pending => IoOutcome::WouldBlock,
            Readiness::Failed(error) => IoOutcome::Failed(error),
        }
    }
}

/// One connection's transport, with the wake registrations that are pending
/// on it.
#[derive(Debug)]
pub struct Bridge<S> {
    transport: S,
    wake_on_read: bool,
    wake_on_write: bool,
}

impl<S> Bridge<S> {
    /// The transport that the bridge owns.
    pub closed spec fn transport(&self) -> S {
        self.transport
    }

    /// Whether a wake registration is pending for a direction.
    pub closed spec fn wakes(&self, direction: Direction) -> bool {
        match direction {
            Direction::Read => self.wake_on_read,
            Direction::Write => self.wake_on_write,
        }
    }

    /// The bridge after an operation in one direction got `polled`: a
    /// registration is pending for that direction exactly if the poll was not
    /// ready, and nothing else has changed.
    pub open spec fn follows<T>(&self, before: Self, direction: Direction, polled: Readiness<T>) -> bool {
        &&& self.transport() == before.transport()
        &&& self.wakes(direction) == (polled is Pending)
        &&& forall|other: Direction|
            other != direction ==> self.wakes(other) == before.wakes(other)
    }

    /// Wraps a transport. No wake registration is pending.
    pub fn new(transport: S) -> (bridge: Self)
        ensures
            bridge.transport() == transport,
            forall|direction: Direction| !bridge.wakes(direction),
    {
        Bridge { transport, wake_on_read: false, wake_on_write: false }
    }

    /// The wrapped transport.
    pub fn peek_transport(&self) -> (transport: &S)
        ensures
            *transport == self.transport(),
    {
        &self.transport
    }

    /// The wrapped transport, to poll it. The registrations stay as they are.
    pub fn transport_mut(&mut self) -> (transport: &mut S)
        ensures
            *transport == old(self).transport(),
            final(self).transport() == *final(transport),
            forall|direction: Direction| final(self).wakes(direction) == old(self).wakes(direction),
    {
        &mut self.transport
    }

    /// Gives the transport up, at the end of the connection.
    pub fn into_transport(self) -> (transport: S)
        ensures
            transport == self.transport(),
    {
        self.transport
    }

    /// Whether a wake registration is pending for a direction.
    pub fn wake_registered(&self, direction: Direction) -> (pending: bool)
        ensures
            pending == self.wakes(direction),
    {
        match direction {
            Direction::Read => self.wake_on_read,
            Direction::Write => self.wake_on_write,
        }
    }

    /// The direction that a step of the engine is blocked on, if any of its
    /// operations would block. The engine writes what it has before it reads,
    /// so a write that waits is what holds the step up.
    pub fn blocked_on(&self) -> (direction: Option<Direction>)
        ensures
            direction == if self.wakes(Direction::Write) {
                Some(Direction::Write)
            } else if self.wakes(Direction::Read) {
                Some(Direction::Read)
            } else {
                None
            },
    {
        if self.wake_on_write {
            Some(Direction::Write)
        } else if self.wake_on_read {
            Some(Direction::Read)
        } else {
            None
        }
    }

    /// Finishes a synchronous read, given what one poll of the transport for
    /// reading reported.
    pub fn read(&mut self, polled: Readiness<usize>) -> (outcome: IoOutcome<usize>)
        ensures
            outcome == polled.outcome(),
            outcome is WouldBlock ==> final(self).wakes(Direction::Read),
            final(self).follows(*old(self), Direction::Read, polled),
    {
        self.settle(Direction::Read, polled)
    }

    /// Finishes a synchronous write, given what one poll of the transport for
    /// writing reported.
    pub fn write(&mut self, polled: Readiness<usize>) -> (outcome: IoOutcome<usize>)
        ensures
            outcome == polled.outcome(),
            outcome is WouldBlock ==> final(self).wakes(Direction::Write),
            final(self).follows(*old(self), Direction::Write, polled),
    {
        self.settle(Direction::Write, polled)
    }

    /// Finishes a synchronous flush, given what one poll of the transport for
    /// flushing reported.
    pub fn flush(&mut self, polled: Readiness<()>) -> (outcome: IoOutcome<()>)
        ensures
            outcome == polled.outcome(),
            outcome is WouldBlock ==> final(self).wakes(Direction::Write),
            final(self).follows(*old(self), Direction::Write, polled),
    {
        self.settle(Direction::Write, polled)
    }

    /// Records whether the operation has to wait, and turns the poll into
    /// what the engine is told.
    fn settle<T>(&mut self, direction: Direction, polled: Readiness<T>) -> (outcome: IoOutcome<T>)
        ensures
            outcome == polled.outcome(),
            final(self).follows(*old(self), direction, polled),
    {
        let (waits, outcome) = match polled {
            Readiness::Ready(value) => (false, IoOutcome::Done(value)),
            Readiness::Pending => (true, IoOutcome::WouldBlock),
            Readiness::Failed(error) => (false, IoOutcome::Failed(error)),
        };
        match direction {
            Direction::Read => {
                self.wake_on_read = waits;
            },
            Direction::Write => {
                self.wake_on_write = waits;
            },
        }
        outcome
    }
}

} // verus!
