//! A whole transfer run against a simulated target: the driver is stepped
//! through every phase, writes go to a trace instead of a serial line, and
//! the target's three acknowledgment replies are given up front.
//!
//! The contract pins the complete outcome: which bytes are on the wire and
//! which result the caller sees, for every combination of replies.

use vstd::prelude::*;

use crate::arch::Arch;
use crate::codec;
use crate::driver::Driver;
use crate::driver::Event;
use crate::driver::Phase;
use crate::driver::State;
use crate::driver::TransferError;

verus! {

/// What a simulated target hands back for one 3-byte acknowledgment read.
#[derive(Clone, Copy, PartialEq, Eq, Debug)]
pub enum ReadOutcome {
    /// Three bytes arrived.
    Bytes { b0: u8, b1: u8, b2: u8 },
    /// Nothing arrived within the timeout window.
    TimedOut,
    /// The read failed at the transport layer.
    Failed,
}

/// Whether a reply is exactly the acknowledgment `ACK`.
pub open spec fn reply_is_ack(r: ReadOutcome) -> bool {
    match r {
        ReadOutcome::Bytes { b0, b1, b2 } => codec::is_ack_spec(b0, b1, b2),
        _ => false,
    }
}

/// The error a non-`ACK` reply at checkpoint `phase` turns into.
pub open spec fn failure_of(phase: Phase, r: ReadOutcome) -> TransferError {
    match r {
        ReadOutcome::Bytes { b0, b1, b2 } => TransferError::Protocol { phase, got: (b0, b1, b2) },
        ReadOutcome::TimedOut => TransferError::Timeout,
        ReadOutcome::Failed => TransferError::Io,
    }
}

/// The event a reply raises in the driver.
pub open spec fn event_of_reply(r: ReadOutcome) -> Event {
    match r {
        ReadOutcome::Bytes { b0, b1, b2 } => Event::AckBytes { b0, b1, b2 },
        ReadOutcome::TimedOut => Event::ReadTimedOut,
        ReadOutcome::Failed => Event::ReadFailed,
    }
}

/// The payload's chunks as separate writes, in order.
pub open spec fn chunk_writes(data: Seq<u8>) -> Seq<Seq<u8>> {
    Seq::new(codec::chunk_count(data.len()), |i: int| codec::chunk_spec(data, i))
}

/// The complete wire sequence of a successful transfer: the token, then the
/// header, then every chunk in order.
pub open spec fn full_wire(data: Seq<u8>, arch: Arch) -> Seq<Seq<u8>> {
    seq![codec::token_spec(), codec::header_spec(data.len() as u32, arch)] + chunk_writes(data)
}

/// Everything a simulated run leaves behind: each write that reached the
/// wire, in order, and the result the caller is given.
#[derive(Debug)]
pub struct SessionTrace {
    pub writes: Vec<Vec<u8>>,
    pub outcome: Result<(), TransferError>,
}

fn event_of_reply_exec(r: ReadOutcome) -> (e: Event)
    ensures
        e == event_of_reply(r),
{
    match r {
        ReadOutcome::Bytes { b0, b1, b2 } => Event::AckBytes { b0, b1, b2 },
        ReadOutcome::TimedOut => Event::ReadTimedOut,
        ReadOutcome::Failed => Event::ReadFailed,
    }
}

/// Runs one whole transfer against a simulated target whose transport always
/// configures and writes cleanly and whose three acknowledgment replies are
/// `token_reply`, `header_reply` and `payload_reply` in that order.
///
/// The contract fixes the run exactly. A target that acknowledges every
/// phase sees the full wire sequence and the run succeeds. The first
/// checkpoint that is not acknowledged fails the run with that checkpoint's
/// error, and nothing past that checkpoint's phase is written: a rejected
/// token leaves the token as the only write, a rejected header leaves token
/// and header, and a rejected payload still follows the full wire sequence.
pub fn run_simulated(
    payload: Vec<u8>,
    arch: Arch,
    token_reply: ReadOutcome,
    header_reply: ReadOutcome,
    payload_reply: ReadOutcome,
) -> (t: SessionTrace)
    requires
        payload@.len() <= 0xFFFF_FFFF,
    ensures
        !reply_is_ack(token_reply) ==> t.outcome == Err::<(), TransferError>(
            failure_of(Phase::Token, token_reply),
        ) && t.writes.deep_view() == seq![codec::token_spec()],
        reply_is_ack(token_reply) && !reply_is_ack(header_reply) ==> t.outcome == Err::<
            (),
            TransferError,
        >(failure_of(Phase::Header, header_reply)) && t.writes.deep_view() == seq![
            codec::token_spec(),
            codec::header_spec(payload@.len() as u32, arch),
        ],
        reply_is_ack(token_reply) && reply_is_ack(header_reply) && !reply_is_ack(payload_reply)
            ==> t.outcome == Err::<(), TransferError>(failure_of(Phase::Payload, payload_reply))
            && t.writes.deep_view() == full_wire(payload@, arch),
        reply_is_ack(token_reply) && reply_is_ack(header_reply) && reply_is_ack(payload_reply)
            ==> t.outcome == Ok::<(), TransferError>(()) && t.writes.deep_view() == full_wire(
            payload@,
            arch,
        ),
{
    let ghost data: Seq<u8> = payload@;
    let len: usize = payload.len();
    let mut writes: Vec<Vec<u8>> = Vec::new();
    let mut d = Driver::new(payload, arch);

    d.step(Event::ConfigureOk);
    d.step(Event::Drained);
    d.step(Event::TimeoutSetOk);
    assert(d.state == State::SendToken);

    writes.push(codec::token_bytes());
    d.step(Event::WriteOk);
    assert(d.state == (State::WaitAck { phase: Phase::Token }));

    d.step(event_of_reply_exec(token_reply));
    if let State::Failed { error } = d.state {
        proof {
            assert(writes.deep_view() =~~= seq![codec::token_spec()]);
        }
        return SessionTrace { writes, outcome: Err(error) };
    }
    assert(d.state == State::SendHeader);

    writes.push(codec::encode_header(len as u32, d.arch));
    d.step(Event::WriteOk);
    assert(d.state == (State::WaitAck { phase: Phase::Header }));

    d.step(event_of_reply_exec(header_reply));
    if let State::Failed { error } = d.state {
        proof {
            assert(writes.deep_view() =~~= seq![
                codec::token_spec(),
                codec::header_spec(data.len() as u32, arch),
            ]);
        }
        return SessionTrace { writes, outcome: Err(error) };
    }

    let total: usize = codec::chunk_count_exec(len);
    let mut sent: usize = 0;
    proof {
        assert(writes.deep_view() =~~= seq![
            codec::token_spec(),
            codec::header_spec(data.len() as u32, arch),
        ] + chunk_writes(data).take(0));
    }
    while sent < total
        invariant
            0 <= sent <= total,
            d.wf(),
            d.arch == arch,
            d.payload@ == data,
            data.len() <= 0xFFFF_FFFF,
            total == codec::chunk_count(data.len()),
            d.state == if sent < total {
                State::SendPayload { index: sent }
            } else {
                State::WaitAck { phase: Phase::Payload }
            },
            writes.deep_view() =~~= seq![
                codec::token_spec(),
                codec::header_spec(data.len() as u32, arch),
            ] + chunk_writes(data).take(sent as int),
        decreases total - sent,
    {
        let ghost prev: Seq<Seq<u8>> = writes.deep_view();
        writes.push(codec::chunk_at(&d.payload, sent));
        d.step(Event::WriteOk);
        sent = sent + 1;
        proof {
            assert(writes.deep_view() =~~= prev + seq![codec::chunk_spec(data, sent as int - 1)]);
            assert(chunk_writes(data).take(sent as int) =~= chunk_writes(data).take(
                sent as int - 1,
            ) + seq![codec::chunk_spec(data, sent as int - 1)]);
        }
    }
    assert(d.state == (State::WaitAck { phase: Phase::Payload }));
    proof {
        assert(chunk_writes(data).take(total as int) =~= chunk_writes(data));
        assert(writes.deep_view() =~~= full_wire(data, arch));
    }

    d.step(event_of_reply_exec(payload_reply));
    match d.state {
        State::Failed { error } => SessionTrace { writes, outcome: Err(error) },
        _ => SessionTrace { writes, outcome: Ok(()) },
    }
}

} // verus!
