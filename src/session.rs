//! One polling exchange with a bench, as decisions on values: the frame to
//! send, and what a reply (or a transport failure) does to the bench.
use vstd::prelude::*;

use crate::bench::{BatteryBench, BenchView};
use crate::codec::{decode_frame, frame_of, DecodeError};
use crate::command::{Command, RequestDataPayload};

verus! {

/// How an exchange with the transport failed.
#[derive(Clone, Copy, Debug, PartialEq, Eq, Structural)]
pub enum TransportError {
    /// No reply came within the timeout.
    TransportTimeout,
    /// Writing or reading failed.
    TransportIOFailure,
}

/// Why a polling exchange did not update a bench.
#[derive(Clone, Copy, Debug, PartialEq, Eq, Structural)]
pub enum PollError {
    Transport(TransportError),
    Decode(DecodeError),
    /// The reply decoded to a command other than `RequestData`.
    UnexpectedReply,
}

/// The `RequestData` command sent to ask a bench for telemetry.
pub open spec fn telemetry_request() -> Command {
    Command::RequestData(
        RequestDataPayload {
            battery_temperature: 0,
            bench_temperature: 0,
            load_temperature: 0,
            voltage: 0,
            current: 0,
        },
    )
}

/// The telemetry that a reply carries, or why it carries none.
pub open spec fn reply_telemetry(reply: Result<Seq<u8>, TransportError>) -> Result<
    RequestDataPayload,
    PollError,
> {
    match reply {
        Err(e) => Err(PollError::Transport(e)),
        Ok(bytes) => match decode_frame(bytes) {
            Err(e) => Err(PollError::Decode(e)),
            Ok(Command::RequestData(t)) => Ok(t),
            Ok(_) => Err(PollError::UnexpectedReply),
        },
    }
}

pub open spec fn reply_view(reply: &Result<Vec<u8>, TransportError>) -> Result<
    Seq<u8>,
    TransportError,
> {
    match reply {
        Ok(v) => Ok(v@),
        Err(e) => Err(*e),
    }
}

/// The frame to hand to the transport at the start of a polling exchange.
pub fn request_frame() -> (r: Vec<u8>)
    ensures
        r@ == frame_of(telemetry_request()),
{
    let c = Command::RequestData(
        RequestDataPayload {
            battery_temperature: 0,
            bench_temperature: 0,
            load_temperature: 0,
            voltage: 0,
            current: 0,
        },
    );
    c.encode()
}

/// Finishes a polling exchange with what the transport returned. A reply that
/// decodes to `RequestData` overwrites the bench's telemetry and nothing else;
/// on any transport or decode failure the bench is left exactly as it was and
/// the failure is returned.
pub fn apply_reply(bench: &mut BatteryBench, reply: Result<Vec<u8>, TransportError>) -> (r: Result<
    (),
    PollError,
>)
    ensures
        match reply_telemetry(reply_view(&reply)) {
            Ok(t) => r == Ok::<(), PollError>(()) && final(bench)@ == (BenchView {
                telemetry: t,
                ..old(bench)@
            }),
            Err(e) => r == Err::<(), PollError>(e) && final(bench)@ == old(bench)@,
        },
        old(bench).wf() ==> final(bench).wf(),
{
    match reply {
        Err(e) => Err(PollError::Transport(e)),
        Ok(bytes) => match Command::decode(bytes) {
            Err(e) => Err(PollError::Decode(e)),
            Ok(Command::RequestData(t)) => {
                bench.update_telemetry(t);
                Ok(())
            },
            Ok(_) => Err(PollError::UnexpectedReply),
        },
    }
}

} // verus!
