//! The closed set of commands exchanged with a bench, their identifiers and
//! payload layouts.
use vstd::prelude::*;

verus! {

/// First byte of every frame.
pub const DELIMITER: u8 = 0xB3;

#[derive(Clone, Copy, Debug, PartialEq, Eq, Structural)]
pub struct PingPayload {
    pub identification: u8,
}

#[derive(Clone, Copy, Debug, PartialEq, Eq, Structural)]
pub struct AssignIDPayload {
    pub new_id: u8,
}

/// Telemetry carried by a `RequestData` reply, each field big-endian on the wire.
#[derive(Clone, Copy, Debug, PartialEq, Eq, Structural)]
pub struct RequestDataPayload {
    pub battery_temperature: u16,
    pub bench_temperature: u16,
    pub load_temperature: u16,
    pub voltage: u16,
    pub current: u16,
}

#[derive(Clone, Copy, Debug, PartialEq, Eq, Structural)]
pub struct AnnounceCompletionPayload {
    pub flag: u8,
}

#[derive(Clone, Copy, Debug, PartialEq, Eq, Structural)]
pub enum Command {
    Ping(PingPayload),
    AssignID(AssignIDPayload),
    RequestData(RequestDataPayload),
    SetStandby,
    SetDischarge,
    SetCharge,
    AnnounceCompletion(AnnounceCompletionPayload),
}

/// The identifier byte of each command; 0x03 is left unassigned.
pub open spec fn command_id(c: Command) -> u8 {
    match c {
        Command::Ping(_) => 0x00,
        Command::AssignID(_) => 0x01,
        Command::RequestData(_) => 0x02,
        Command::SetStandby => 0x04,
        Command::SetDischarge => 0x05,
        Command::SetCharge => 0x06,
        Command::AnnounceCompletion(_) => 0x07,
    }
}

/// Number of payload bytes that follow an identifier, or `None` for an unknown one.
pub open spec fn payload_width(id: u8) -> Option<nat> {
    if id == 0x00 || id == 0x01 || id == 0x07 {
        Some(1)
    } else if id == 0x02 {
        Some(10)
    } else if id == 0x04 || id == 0x05 || id == 0x06 {
        Some(0)
    } else {
        None
    }
}

/// A 16-bit value as two bytes, high byte first.
pub open spec fn be16(v: u16) -> Seq<u8> {
    seq![(v / 256) as u8, (v % 256) as u8]
}

/// The 16-bit value whose big-endian bytes start at `p[i]`.
pub open spec fn be16_at(p: Seq<u8>, i: int) -> u16 {
    (p[i] as u16 * 256 + p[i + 1] as u16) as u16
}

/// The payload bytes of a command, fields in declaration order.
pub open spec fn payload_bytes(c: Command) -> Seq<u8> {
    match c {
        Command::Ping(p) => seq![p.identification],
        Command::AssignID(p) => seq![p.new_id],
        Command::RequestData(p) => be16(p.battery_temperature) + be16(p.bench_temperature)
            + be16(p.load_temperature) + be16(p.voltage) + be16(p.current),
        Command::AnnounceCompletion(p) => seq![p.flag],
        _ => Seq::empty(),
    }
}

/// The command with identifier `id` whose payload is `p`.
pub open spec fn command_from(id: u8, p: Seq<u8>) -> Command
    recommends
        payload_width(id) == Some(p.len()),
{
    if id == 0x00 {
        Command::Ping(PingPayload { identification: p[0] })
    } else if id == 0x01 {
        Command::AssignID(AssignIDPayload { new_id: p[0] })
    } else if id == 0x02 {
        Command::RequestData(
            RequestDataPayload {
                battery_temperature: be16_at(p, 0),
                bench_temperature: be16_at(p, 2),
                load_temperature: be16_at(p, 4),
                voltage: be16_at(p, 6),
                current: be16_at(p, 8),
            },
        )
    } else if id == 0x04 {
        Command::SetStandby
    } else if id == 0x05 {
        Command::SetDischarge
    } else if id == 0x06 {
        Command::SetCharge
    } else {
        Command::AnnounceCompletion(AnnounceCompletionPayload { flag: p[0] })
    }
}

/// Reading back the big-endian bytes of a value gives the value.
pub proof fn lemma_be16_round_trip(v: u16)
    ensures
        be16_at(be16(v), 0) == v,
{
    let hi = (v / 256) as u8;
    let lo = (v % 256) as u8;
    assert(hi as u16 * 256 + lo as u16 == v) by (nonlinear_arith)
        requires
            hi == v / 256,
            lo == v % 256,
    ;
}

/// Every command's payload has the width that its identifier calls for, and
/// rebuilding a command from its identifier and payload gives it back.
pub proof fn lemma_payload_round_trip(c: Command)
    ensures
        payload_width(command_id(c)) == Some(payload_bytes(c).len()),
        command_from(command_id(c), payload_bytes(c)) == c,
{
    if let Command::RequestData(p) = c {
        let s = payload_bytes(c);
        lemma_be16_round_trip(p.battery_temperature);
        lemma_be16_round_trip(p.bench_temperature);
        lemma_be16_round_trip(p.load_temperature);
        lemma_be16_round_trip(p.voltage);
        lemma_be16_round_trip(p.current);
        assert(s.subrange(0, 2) == be16(p.battery_temperature));
        assert(be16_at(s, 0) == be16_at(be16(p.battery_temperature), 0));
        assert(be16_at(s, 2) == be16_at(be16(p.bench_temperature), 0));
        assert(be16_at(s, 4) == be16_at(be16(p.load_temperature), 0));
        assert(be16_at(s, 6) == be16_at(be16(p.voltage), 0));
        assert(be16_at(s, 8) == be16_at(be16(p.current), 0));
    }
}

impl Command {
    /// The identifier byte of this command.
    #[allow(non_snake_case)]
    pub fn getId(&self) -> (r: u8)
        ensures
            r == command_id(*self),
    {
        match self {
            Command::Ping(_) => 0x00,
            Command::AssignID(_) => 0x01,
            Command::RequestData(_) => 0x02,
            Command::SetStandby => 0x04,
            Command::SetDischarge => 0x05,
            Command::SetCharge => 0x06,
            Command::AnnounceCompletion(_) => 0x07,
        }
    }

    /// Number of payload bytes that a command with identifier `id` carries,
    /// or `None` when no command has that identifier.
    pub fn payload_len(id: u8) -> (r: Option<usize>)
        ensures
            match payload_width(id) {
                Some(n) => r == Some(n as usize),
                None => r is None,
            },
    {
        if id == 0x00 || id == 0x01 || id == 0x07 {
            Some(1)
        } else if id == 0x02 {
            Some(10)
        } else if id == 0x04 || id == 0x05 || id == 0x06 {
            Some(0)
        } else {
            None
        }
    }

    /// The payload bytes of this command, multi-byte fields high byte first.
    pub fn payload(&self) -> (r: Vec<u8>)
        ensures
            r@ == payload_bytes(*self),
    {
        let mut out: Vec<u8> = Vec::new();
        match self {
            Command::Ping(p) => out.push(p.identification),
            Command::AssignID(p) => out.push(p.new_id),
            Command::RequestData(p) => {
                push_be16(&mut out, p.battery_temperature);
                push_be16(&mut out, p.bench_temperature);
                push_be16(&mut out, p.load_temperature);
                push_be16(&mut out, p.voltage);
                push_be16(&mut out, p.current);
            },
            Command::AnnounceCompletion(p) => out.push(p.flag),
            _ => {},
        }
        proof {
            assert(out@ == payload_bytes(*self));
        }
        out
    }

    /// The command with identifier `id` whose payload starts at `bytes[start]`.
    pub fn from_parts(id: u8, bytes: &Vec<u8>, start: usize) -> (r: Command)
        requires
            payload_width(id) is Some,
            start + payload_width(id)->0 <= bytes@.len(),
        ensures
            r == command_from(id, bytes@.subrange(start as int, start + payload_width(id)->0)),
    {
        let ghost p = bytes@.subrange(start as int, start + payload_width(id)->0);
        // The payload ends within the vector, so offsets into it fit in a usize.
        let len = bytes.len();
        assert(start + payload_width(id)->0 <= len);
        if id == 0x00 {
            Command::Ping(PingPayload { identification: bytes[start] })
        } else if id == 0x01 {
            Command::AssignID(AssignIDPayload { new_id: bytes[start] })
        } else if id == 0x02 {
            let r = Command::RequestData(
                RequestDataPayload {
                    battery_temperature: read_be16(bytes, start),
                    bench_temperature: read_be16(bytes, start + 2),
                    load_temperature: read_be16(bytes, start + 4),
                    voltage: read_be16(bytes, start + 6),
                    current: read_be16(bytes, start + 8),
                },
            );
            assert(be16_at(p, 0) == be16_at(bytes@, start as int));
            assert(be16_at(p, 2) == be16_at(bytes@, start + 2));
            assert(be16_at(p, 4) == be16_at(bytes@, start + 4));
            assert(be16_at(p, 6) == be16_at(bytes@, start + 6));
            assert(be16_at(p, 8) == be16_at(bytes@, start + 8));
            r
        } else if id == 0x04 {
            Command::SetStandby
        } else if id == 0x05 {
            Command::SetDischarge
        } else if id == 0x06 {
            Command::SetCharge
        } else {
            Command::AnnounceCompletion(AnnounceCompletionPayload { flag: bytes[start] })
        }
    }
}

/// Appends the two big-endian bytes of `v`.
fn push_be16(out: &mut Vec<u8>, v: u16)
    ensures
        final(out)@ == old(out)@ + be16(v),
{
    out.push((v / 256) as u8);
    out.push((v % 256) as u8);
    assert(final(out)@ == old(out)@ + be16(v));
}

/// The big-endian 16-bit value at `bytes[i]` and `bytes[i + 1]`.
fn read_be16(bytes: &Vec<u8>, i: usize) -> (r: u16)
    requires
        i + 1 < bytes@.len(),
    ensures
        r == be16_at(bytes@, i as int),
{
    let len = bytes.len();
    assert(i + 1 < len);
    let hi = bytes[i] as u16;
    let lo = bytes[i + 1] as u16;
    assert(hi * 256 + lo <= 0xffff) by (nonlinear_arith)
        requires
            hi <= 255,
            lo <= 255,
    ;
    hi * 256 + lo
}

} // verus!
