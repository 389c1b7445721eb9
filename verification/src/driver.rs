//! The transfer protocol driver: a strictly sequential state machine that
//! walks one transfer through token synchronisation, the acknowledged header
//! exchange and the chunked payload, phase by phase.
//!
//! The machine owns no transport. Each state names the operation that is due
//! (`action_of`); the surrounding binary performs it against the serial line
//! and feeds the outcome back in as an [`Event`]. Every transition is fixed
//! by [`next_state`].

use vstd::prelude::*;

use crate::arch::Arch;
use crate::codec;

verus! {

/// Read timeout applied before the handshake, in milliseconds.
pub const TIMEOUT_MILLIS: u64 = 10000;

/// The acknowledgment checkpoint a read belongs to.
#[derive(Clone, Copy, PartialEq, Eq, Debug)]
pub enum Phase {
    Token,
    Header,
    Payload,
}

/// Why a transfer failed. Every failure aborts the transfer; nothing is
/// retried.
#[derive(Clone, Copy, PartialEq, Eq, Debug)]
pub enum TransferError {
    /// The line settings could not be applied to the opened transport.
    PortConfig,
    /// A read did not complete within the configured window.
    Timeout,
    /// An acknowledgment checkpoint was not matched: the target answered
    /// `got` where exactly `ACK` was required.
    Protocol { phase: Phase, got: (u8, u8, u8) },
    /// A write or read failed at the transport layer outside of
    /// acknowledgment waiting.
    Io,
}

/// Where the driver stands. Each non-terminal state names the one operation
/// that is due before the machine can move on.
#[derive(Clone, Copy, PartialEq, Eq, Debug)]
pub enum State {
    /// Apply the line settings.
    Configure,
    /// Discard stale bytes left over from a previous session.
    Drain,
    /// Set the read timeout.
    SetTimeout,
    /// Write the synchronisation token.
    SendToken,
    /// Read 3 bytes and hold them against `ACK`.
    WaitAck { phase: Phase },
    /// Write the 5-byte transfer header.
    SendHeader,
    /// Write payload chunk `index`.
    SendPayload { index: usize },
    /// The transfer succeeded; mirror mode may begin.
    Complete,
    /// The transfer failed; nothing further may be sent.
    Failed { error: TransferError },
}

/// The outcome of the operation the driver asked for, reported back by the
/// caller.
#[derive(Clone, Copy, PartialEq, Eq, Debug)]
pub enum Event {
    ConfigureOk,
    ConfigureFailed,
    Drained,
    TimeoutSetOk,
    TimeoutSetFailed,
    WriteOk,
    WriteFailed,
    /// Exactly 3 bytes were read while waiting for an acknowledgment.
    AckBytes { b0: u8, b1: u8, b2: u8 },
    ReadTimedOut,
    ReadFailed,
}

/// The operation the caller must perform next against the transport.
#[derive(Clone, Copy, PartialEq, Eq, Debug)]
pub enum Action {
    /// Apply 115200 baud, 8 data bits, no parity, 1 stop bit, no flow
    /// control.
    Configure,
    /// Read single bytes until a read fails, discarding them all.
    DrainGarbage,
    /// Set the read timeout to `millis` milliseconds.
    SetReadTimeout { millis: u64 },
    /// Write the synchronisation token.
    WriteToken,
    /// Write the transfer header.
    WriteHeader,
    /// Write payload chunk `index`.
    WriteChunk { index: usize },
    /// Read exactly 3 bytes.
    ReadAck,
    /// The transfer is complete: echo target output from now on.
    EnterMirror,
    /// The transfer failed: report the error and stop.
    Abort,
}

/// The operation due in state `s`.
pub open spec fn action_of(s: State) -> Action {
    match s {
        State::Configure => Action::Configure,
        State::Drain => Action::DrainGarbage,
        State::SetTimeout => Action::SetReadTimeout { millis: TIMEOUT_MILLIS },
        State::SendToken => Action::WriteToken,
        State::WaitAck { .. } => Action::ReadAck,
        State::SendHeader => Action::WriteHeader,
        State::SendPayload { index } => Action::WriteChunk { index },
        State::Complete => Action::EnterMirror,
        State::Failed { .. } => Action::Abort,
    }
}

/// Which events answer the operation due in state `s`. Terminal states
/// accept none.
pub open spec fn accepts(s: State, e: Event) -> bool {
    match s {
        State::Configure => e is ConfigureOk || e is ConfigureFailed,
        State::Drain => e is Drained,
        State::SetTimeout => e is TimeoutSetOk || e is TimeoutSetFailed,
        State::SendToken => e is WriteOk || e is WriteFailed,
        State::WaitAck { .. } => e is AckBytes || e is ReadTimedOut || e is ReadFailed,
        State::SendHeader => e is WriteOk || e is WriteFailed,
        State::SendPayload { .. } => e is WriteOk || e is WriteFailed,
        State::Complete => false,
        State::Failed { .. } => false,
    }
}

/// The transition relation: the state after event `e` arrives in state `s`,
/// for a payload of `chunks` chunks. No phase is entered before the previous
/// phase's acknowledgment was consumed, and any failure is terminal.
pub open spec fn next_state(s: State, chunks: nat, e: Event) -> State {
    match s {
        State::Configure => match e {
            Event::ConfigureOk => State::Drain,
            _ => State::Failed { error: TransferError::PortConfig },
        },
        State::Drain => State::SetTimeout,
        State::SetTimeout => match e {
            Event::TimeoutSetOk => State::SendToken,
            _ => State::Failed { error: TransferError::Io },
        },
        State::SendToken => match e {
            Event::WriteOk => State::WaitAck { phase: Phase::Token },
            _ => State::Failed { error: TransferError::Io },
        },
        State::WaitAck { phase } => match e {
            Event::AckBytes { b0, b1, b2 } => if codec::is_ack_spec(b0, b1, b2) {
                match phase {
                    Phase::Token => State::SendHeader,
                    Phase::Header => if chunks == 0 {
                        State::WaitAck { phase: Phase::Payload }
                    } else {
                        State::SendPayload { index: 0 }
                    },
                    Phase::Payload => State::Complete,
                }
            } else {
                State::Failed { error: TransferError::Protocol { phase, got: (b0, b1, b2) } }
            },
            Event::ReadTimedOut => State::Failed { error: TransferError::Timeout },
            _ => State::Failed { error: TransferError::Io },
        },
        State::SendHeader => match e {
            Event::WriteOk => State::WaitAck { phase: Phase::Header },
            _ => State::Failed { error: TransferError::Io },
        },
        State::SendPayload { index } => match e {
            Event::WriteOk => if index + 1 < chunks {
                State::SendPayload { index: (index + 1) as usize }
            } else {
                State::WaitAck { phase: Phase::Payload }
            },
            _ => State::Failed { error: TransferError::Io },
        },
        State::Complete => s,
        State::Failed { .. } => s,
    }
}

/// Whether an event reports that the exact 3-byte acknowledgment arrived.
pub open spec fn event_is_ack(e: Event) -> bool {
    match e {
        Event::AckBytes { b0, b1, b2 } => codec::is_ack_spec(b0, b1, b2),
        _ => false,
    }
}

/// Acknowledgment gating: the header is sent only after the token was
/// answered with the exact acknowledgment, the first payload chunk only
/// after the header was, and the transfer completes only after the payload
/// was. A mismatched or missing acknowledgment can never lead into the next
/// phase.
pub proof fn lemma_ack_gates_phases(s: State, chunks: nat, e: Event)
    requires
        accepts(s, e),
        chunks <= usize::MAX,
        s matches State::SendPayload { index } ==> (index as nat) < chunks,
    ensures
        next_state(s, chunks, e) == State::SendHeader ==> s == (State::WaitAck {
            phase: Phase::Token,
        }) && event_is_ack(e),
        next_state(s, chunks, e) == (State::SendPayload { index: 0 }) ==> s == (State::WaitAck {
            phase: Phase::Header,
        }) && event_is_ack(e),
        next_state(s, chunks, e) == State::Complete ==> s == (State::WaitAck {
            phase: Phase::Payload,
        }) && event_is_ack(e),
{
}

/// One transfer in flight: the payload, the architecture it announces, and
/// where the handshake stands.
#[derive(Debug)]
pub struct Driver {
    pub payload: Vec<u8>,
    pub arch: Arch,
    pub state: State,
}

impl Driver {
    /// How many chunks this payload is sent in.
    pub open spec fn chunks(self) -> nat {
        codec::chunk_count(self.payload@.len())
    }

    /// Well-formedness: the announced length fits the 4-byte header field,
    /// and a chunk index in flight stays inside the payload.
    pub open spec fn wf(self) -> bool {
        &&& self.payload@.len() <= 0xFFFF_FFFF
        &&& match self.state {
            State::SendPayload { index } => (index as nat) < self.chunks(),
            _ => true,
        }
    }

    /// A fresh driver for one transfer, standing before line configuration.
    pub fn new(payload: Vec<u8>, arch: Arch) -> (d: Driver)
        requires
            payload@.len() <= 0xFFFF_FFFF,
        ensures
            d.wf(),
            d.payload@ == payload@,
            d.arch == arch,
            d.state == State::Configure,
    {
        Driver { payload, arch, state: State::Configure }
    }

    /// The operation due in the current state.
    pub fn current_action(&self) -> (a: Action)
        ensures
            a == action_of(self.state),
    {
        match self.state {
            State::Configure => Action::Configure,
            State::Drain => Action::DrainGarbage,
            State::SetTimeout => Action::SetReadTimeout { millis: TIMEOUT_MILLIS },
            State::SendToken => Action::WriteToken,
            State::WaitAck { .. } => Action::ReadAck,
            State::SendHeader => Action::WriteHeader,
            State::SendPayload { index } => Action::WriteChunk { index },
            State::Complete => Action::EnterMirror,
            State::Failed { .. } => Action::Abort,
        }
    }

    /// Consumes the outcome of the operation just performed and moves to the
    /// next state, exactly as [`next_state`] fixes it; returns the operation
    /// now due.
    pub fn step(&mut self, e: Event) -> (a: Action)
        requires
            old(self).wf(),
            accepts(old(self).state, e),
        ensures
            final(self).wf(),
            final(self).payload@ == old(self).payload@,
            final(self).arch == old(self).arch,
            final(self).state == next_state(old(self).state, old(self).chunks(), e),
            a == action_of(final(self).state),
    {
        let total: usize = codec::chunk_count_exec(self.payload.len());
        let next = match self.state {
            State::Configure => match e {
                Event::ConfigureOk => State::Drain,
                _ => State::Failed { error: TransferError::PortConfig },
            },
            State::Drain => State::SetTimeout,
            State::SetTimeout => match e {
                Event::TimeoutSetOk => State::SendToken,
                _ => State::Failed { error: TransferError::Io },
            },
            State::SendToken => match e {
                Event::WriteOk => State::WaitAck { phase: Phase::Token },
                _ => State::Failed { error: TransferError::Io },
            },
            State::WaitAck { phase } => match e {
                Event::AckBytes { b0, b1, b2 } => if codec::is_ack(b0, b1, b2) {
                    match phase {
                        Phase::Token => State::SendHeader,
                        Phase::Header => if total == 0 {
                            State::WaitAck { phase: Phase::Payload }
                        } else {
                            State::SendPayload { index: 0 }
                        },
                        Phase::Payload => State::Complete,
                    }
                } else {
                    State::Failed {
                        error: TransferError::Protocol { phase, got: (b0, b1, b2) },
                    }
                },
                Event::ReadTimedOut => State::Failed { error: TransferError::Timeout },
                _ => State::Failed { error: TransferError::Io },
            },
            State::SendHeader => match e {
                Event::WriteOk => State::WaitAck { phase: Phase::Header },
                _ => State::Failed { error: TransferError::Io },
            },
            State::SendPayload { index } => match e {
                Event::WriteOk => if index + 1 < total {
                    State::SendPayload { index: index + 1 }
                } else {
                    State::WaitAck { phase: Phase::Payload }
                },
                _ => State::Failed { error: TransferError::Io },
            },
            State::Complete => self.state,
            State::Failed { .. } => self.state,
        };
        self.state = next;
        self.current_action()
    }
}

} // verus!
