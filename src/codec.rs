//! Frames: `delimiter | id | payload | checksum`, where the checksum is the
//! XOR of every byte before it.
use vstd::prelude::*;

use crate::command::{
    command_from, command_id, payload_bytes, payload_width, Command, DELIMITER,
    lemma_payload_round_trip,
};

verus! {

/// Why a byte sequence is not a frame of a known command.
#[derive(Clone, Copy, Debug, PartialEq, Eq, Structural)]
pub enum DecodeError {
    /// Fewer than two bytes.
    TooShort,
    /// The last byte is not the XOR of the bytes before it.
    InvalidChecksum,
    /// The byte after the delimiter is no command's identifier.
    UnknownCommand,
    /// The bytes between identifier and checksum are not the identified
    /// command's payload (or there is no identifier at all).
    MalformedPayload,
}

/// XOR of all bytes of `s`, taken left to right from zero.
pub open spec fn xor_fold(s: Seq<u8>) -> u8
    decreases s.len(),
{
    if s.len() == 0 {
        0
    } else {
        xor_fold(s.drop_last()) ^ s.last()
    }
}

/// Delimiter, identifier and payload of a command's frame.
pub open spec fn frame_body(c: Command) -> Seq<u8> {
    seq![DELIMITER, command_id(c)] + payload_bytes(c)
}

/// The complete frame of a command: its body followed by the checksum.
pub open spec fn frame_of(c: Command) -> Seq<u8> {
    frame_body(c).push(xor_fold(frame_body(c)))
}

/// The outcome of decoding `s`.
pub open spec fn decode_frame(s: Seq<u8>) -> Result<Command, DecodeError> {
    if s.len() < 2 {
        Err(DecodeError::TooShort)
    } else if xor_fold(s.drop_last()) != s.last() {
        Err(DecodeError::InvalidChecksum)
    } else if s.len() < 3 {
        Err(DecodeError::MalformedPayload)
    } else {
        match payload_width(s[1]) {
            None => Err(DecodeError::UnknownCommand),
            Some(w) => if s.len() != w + 3 {
                Err(DecodeError::MalformedPayload)
            } else {
                Ok(command_from(s[1], s.subrange(2, s.len() - 1)))
            },
        }
    }
}

/// XOR of the first `n` bytes of `bytes`.
pub fn checksum(bytes: &Vec<u8>, n: usize) -> (r: u8)
    requires
        n <= bytes@.len(),
    ensures
        r == xor_fold(bytes@.subrange(0, n as int)),
{
    let mut acc: u8 = 0;
    let mut i: usize = 0;
    while i < n
        invariant
            i <= n,
            n <= bytes@.len(),
            acc == xor_fold(bytes@.subrange(0, i as int)),
        decreases n - i,
    {
        assert(bytes@.subrange(0, i + 1).drop_last() == bytes@.subrange(0, i as int));
        acc = acc ^ bytes[i];
        i = i + 1;
    }
    acc
}

impl Command {
    /// The frame of this command: delimiter, identifier, big-endian payload
    /// and the XOR checksum of all of them.
    pub fn encode(&self) -> (r: Vec<u8>)
        ensures
            r@ == frame_of(*self),
    {
        let mut out: Vec<u8> = Vec::new();
        out.push(DELIMITER);
        out.push(self.getId());
        let mut payload = self.payload();
        out.append(&mut payload);
        assert(out@ == frame_body(*self));
        let n = out.len();
        let cs = checksum(&out, n);
        assert(out@.subrange(0, n as int) == out@);
        out.push(cs);
        out
    }

    /// Reads a frame back into the command it carries. The checks come in
    /// this order: length, checksum, identifier, payload width.
    pub fn decode(encoded: Vec<u8>) -> (r: Result<Command, DecodeError>)
        ensures
            r == decode_frame(encoded@),
    {
        let n = encoded.len();
        if n < 2 {
            return Err(DecodeError::TooShort);
        }
        let cs = checksum(&encoded, n - 1);
        assert(encoded@.subrange(0, n - 1) == encoded@.drop_last());
        if cs != encoded[n - 1] {
            return Err(DecodeError::InvalidChecksum);
        }
        if n < 3 {
            return Err(DecodeError::MalformedPayload);
        }
        let id = encoded[1];
        match Command::payload_len(id) {
            None => Err(DecodeError::UnknownCommand),
            Some(w) => {
                if n - 3 != w {
                    Err(DecodeError::MalformedPayload)
                } else {
                    Ok(Command::from_parts(id, &encoded, 2))
                }
            },
        }
    }
}

/// Changing one byte of a sequence by XOR with `d` changes its XOR fold by `d`.
pub proof fn lemma_xor_fold_update(s: Seq<u8>, i: int, d: u8)
    requires
        0 <= i < s.len(),
    ensures
        xor_fold(s.update(i, s[i] ^ d)) == xor_fold(s) ^ d,
    decreases s.len(),
{
    let t = s.update(i, s[i] ^ d);
    let x = xor_fold(s.drop_last());
    let l = s.last();
    if i == s.len() - 1 {
        assert(t.drop_last() == s.drop_last());
        assert(x ^ (l ^ d) == (x ^ l) ^ d) by (bit_vector);
    } else {
        assert(t.drop_last() == s.drop_last().update(i, s[i] ^ d));
        lemma_xor_fold_update(s.drop_last(), i, d);
        assert((x ^ d) ^ l == (x ^ l) ^ d) by (bit_vector);
    }
}

/// Decoding the frame of any command gives the command back.
pub proof fn lemma_round_trip(c: Command)
    ensures
        decode_frame(frame_of(c)) == Ok::<Command, DecodeError>(c),
{
    let s = frame_of(c);
    lemma_payload_round_trip(c);
    assert(s.drop_last() == frame_body(c));
    assert(s[1] == command_id(c));
    assert(s.subrange(2, s.len() - 1) == payload_bytes(c));
}

/// Flipping any one bit of any byte of a command's frame makes decoding fail
/// with `InvalidChecksum`.
pub proof fn lemma_bit_flip_detected(c: Command, i: int, bit: u8)
    requires
        0 <= i < frame_of(c).len(),
        bit < 8,
    ensures
        decode_frame(frame_of(c).update(i, frame_of(c)[i] ^ (1u8 << bit))) == Err::<
            Command,
            DecodeError,
        >(DecodeError::InvalidChecksum),
{
    let s = frame_of(c);
    let d: u8 = 1u8 << bit;
    assert(d != 0) by (bit_vector)
        requires
            d == 1u8 << bit,
            bit < 8,
    ;
    let t = s.update(i, s[i] ^ d);
    let b = frame_body(c);
    assert(s.drop_last() == b);
    if i == s.len() - 1 {
        assert(t.drop_last() == b);
        let x = xor_fold(b);
        assert(x ^ d != x) by (bit_vector)
            requires
                d != 0,
        ;
    } else {
        assert(t.drop_last() == b.update(i, b[i] ^ d));
        lemma_xor_fold_update(b, i, d);
        let x = xor_fold(b);
        assert(x ^ d != x) by (bit_vector)
            requires
                d != 0,
        ;
    }
}

/// Any input of fewer than two bytes fails with `TooShort`.
pub proof fn lemma_too_short(s: Seq<u8>)
    requires
        s.len() < 2,
    ensures
        decode_frame(s) == Err::<Command, DecodeError>(DecodeError::TooShort),
{
}

/// A frame with a valid checksum whose identifier byte is the unassigned
/// 0x03 fails with `UnknownCommand`.
pub proof fn lemma_reserved_id_unknown(s: Seq<u8>)
    requires
        s.len() >= 3,
        s[1] == 0x03,
        xor_fold(s.drop_last()) == s.last(),
    ensures
        decode_frame(s) == Err::<Command, DecodeError>(DecodeError::UnknownCommand),
{
}

} // verus!
