use vstd::prelude::*;

verus! {

use crate::command::Command;
use vstd::pervasive::unreached;

/// Wire tag of `Command::SetThrust`.
pub const TAG_SET_THRUST: u8 = 0;

/// Wire tag of `Command::Heartbeat`.
pub const TAG_HEARTBEAT: u8 = 1;

/// Why a byte sequence failed to decode.
#[derive(Clone, Copy, Debug, PartialEq, Eq, Structural)]
pub enum DecodeError {
    /// The input ends before the tag or the payload is complete.
    Truncated,
    /// The leading tag byte names no declared variant.
    UnknownTag,
    /// Bytes follow a complete command.
    TrailingBytes,
}

/// The four bytes of `x`, least significant first.
pub open spec fn le_bytes(x: u32) -> Seq<u8> {
    seq![
        (x & 0xff) as u8,
        ((x >> 8) & 0xff) as u8,
        ((x >> 16) & 0xff) as u8,
        ((x >> 24) & 0xff) as u8,
    ]
}

/// The 32-bit value whose bytes, least significant first, are `b0 b1 b2 b3`.
pub open spec fn u32_from_le(b0: u8, b1: u8, b2: u8, b3: u8) -> u32 {
    (b0 as u32) | ((b1 as u32) << 8) | ((b2 as u32) << 16) | ((b3 as u32) << 24)
}

/// The wire encoding of `c`: a one-byte variant tag followed by the payload.
pub open spec fn spec_encode(c: Command) -> Seq<u8> {
    match c {
        Command::SetThrust { thrust_bits } => seq![TAG_SET_THRUST] + le_bytes(thrust_bits),
        Command::Heartbeat => seq![TAG_HEARTBEAT],
    }
}

/// The decoding of `s`: the unique command whose encoding is `s`, or the
/// error that rules `s` out.
pub open spec fn spec_decode(s: Seq<u8>) -> Result<Command, DecodeError> {
    if s.len() == 0 {
        Err(DecodeError::Truncated)
    } else if s[0] == TAG_SET_THRUST {
        if s.len() < 5 {
            Err(DecodeError::Truncated)
        } else if s.len() > 5 {
            Err(DecodeError::TrailingBytes)
        } else {
            Ok(Command::SetThrust { thrust_bits: u32_from_le(s[1], s[2], s[3], s[4]) })
        }
    } else if s[0] == TAG_HEARTBEAT {
        if s.len() > 1 {
            Err(DecodeError::TrailingBytes)
        } else {
            Ok(Command::Heartbeat)
        }
    } else {
        Err(DecodeError::UnknownTag)
    }
}

/// Reassembling a value from its four little-endian bytes gives the value back.
proof fn lemma_le_round_trip(x: u32)
    ensures
        u32_from_le(
            (x & 0xff) as u8,
            ((x >> 8) & 0xff) as u8,
            ((x >> 16) & 0xff) as u8,
            ((x >> 24) & 0xff) as u8,
        ) == x,
{
    assert((((x & 0xff) as u8) as u32) | (((((x >> 8) & 0xff) as u8) as u32) << 8)
        | (((((x >> 16) & 0xff) as u8) as u32) << 16) | (((((x >> 24) & 0xff) as u8) as u32) << 24)
        == x) by (bit_vector);
}

/// Splitting a value assembled from four bytes gives those bytes back.
proof fn lemma_le_split(b0: u8, b1: u8, b2: u8, b3: u8)
    ensures
        le_bytes(u32_from_le(b0, b1, b2, b3)) =~= seq![b0, b1, b2, b3],
{
    let x = u32_from_le(b0, b1, b2, b3);
    assert(x == (b0 as u32) | ((b1 as u32) << 8) | ((b2 as u32) << 16) | ((b3 as u32) << 24));
    assert({
        let y = (b0 as u32) | ((b1 as u32) << 8) | ((b2 as u32) << 16) | ((b3 as u32) << 24);
        (y & 0xff) as u8 == b0 && ((y >> 8) & 0xff) as u8 == b1 && ((y >> 16) & 0xff) as u8 == b2
            && ((y >> 24) & 0xff) as u8 == b3
    }) by (bit_vector);
}

/// Round-trip law: decoding the encoding of any command yields that command.
pub proof fn lemma_codec_round_trip(c: Command)
    ensures
        spec_decode(spec_encode(c)) == Ok::<Command, DecodeError>(c),
{
    match c {
        Command::SetThrust { thrust_bits } => {
            let s = spec_encode(c);
            assert(s.len() == 5);
            assert(s[0] == TAG_SET_THRUST);
            assert(s[1] == (thrust_bits & 0xff) as u8);
            assert(s[2] == ((thrust_bits >> 8) & 0xff) as u8);
            assert(s[3] == ((thrust_bits >> 16) & 0xff) as u8);
            assert(s[4] == ((thrust_bits >> 24) & 0xff) as u8);
            lemma_le_round_trip(thrust_bits);
        },
        Command::Heartbeat => {
            assert(spec_encode(c).len() == 1);
        },
    }
}

/// Encoding is the exact left inverse of decoding: a byte sequence decodes to
/// `c` only if it is, byte for byte, the encoding of `c`.
pub proof fn lemma_decode_exact(s: Seq<u8>, c: Command)
    requires
        spec_decode(s) == Ok::<Command, DecodeError>(c),
    ensures
        spec_encode(c) == s,
{
    if s[0] == TAG_SET_THRUST {
        lemma_le_split(s[1], s[2], s[3], s[4]);
        assert(spec_encode(c) =~= s);
    } else {
        assert(spec_encode(c) =~= s);
    }
}

/// An input shorter than the one-byte tag never decodes: it fails with
/// `DecodeError::Truncated`.
pub proof fn lemma_decode_short_input(s: Seq<u8>)
    requires
        s.len() == 0,
    ensures
        spec_decode(s) == Err::<Command, DecodeError>(DecodeError::Truncated),
{
}

/// An input whose leading tag names no declared variant never decodes: it
/// fails with `DecodeError::UnknownTag`.
pub proof fn lemma_decode_unknown_tag(s: Seq<u8>)
    requires
        s.len() >= 1,
        s[0] != TAG_SET_THRUST,
        s[0] != TAG_HEARTBEAT,
    ensures
        spec_decode(s) == Err::<Command, DecodeError>(DecodeError::UnknownTag),
{
}

/// Encodes `c` for the wire: deterministic and total, one tag byte followed
/// by the payload bytes.
pub fn encode(c: &Command) -> (r: Vec<u8>)
    ensures
        r@ == spec_encode(*c),
{
    match c {
        Command::SetThrust { thrust_bits } => {
            let bits: u32 = *thrust_bits;
            let mut v: Vec<u8> = Vec::new();
            v.push(TAG_SET_THRUST);
            v.push((bits & 0xff) as u8);
            v.push(((bits >> 8) & 0xff) as u8);
            v.push(((bits >> 16) & 0xff) as u8);
            v.push(((bits >> 24) & 0xff) as u8);
            proof {
                assert(v@ =~= spec_encode(*c));
            }
            v
        },
        Command::Heartbeat => {
            let mut v: Vec<u8> = Vec::new();
            v.push(TAG_HEARTBEAT);
            proof {
                assert(v@ =~= spec_encode(*c));
            }
            v
        },
    }
}

/// Decodes wire bytes into a command. Rejects a truncated input, an unknown
/// variant tag, and trailing bytes after a complete command; accepts exactly
/// the byte sequences produced by `encode`.
pub fn decode(bytes: &[u8]) -> (r: Result<Command, DecodeError>)
    ensures
        r == spec_decode(bytes@),
{
    if bytes.len() == 0 {
        Err(DecodeError::Truncated)
    } else {
        let tag: u8 = bytes[0];
        if tag == TAG_SET_THRUST {
            if bytes.len() < 5 {
                Err(DecodeError::Truncated)
            } else if bytes.len() > 5 {
                Err(DecodeError::TrailingBytes)
            } else {
                let bits: u32 = (bytes[1] as u32) | ((bytes[2] as u32) << 8) | ((bytes[3]
                    as u32) << 16) | ((bytes[4] as u32) << 24);
                Ok(Command::SetThrust { thrust_bits: bits })
            }
        } else if tag == TAG_HEARTBEAT {
            if bytes.len() > 1 {
                Err(DecodeError::TrailingBytes)
            } else {
                Ok(Command::Heartbeat)
            }
        } else {
            Err(DecodeError::UnknownTag)
        }
    }
}

/// Encodes `c` and decodes the result back, returning the wire bytes together
/// with the decoded command; by the round-trip law the decoded command always
/// equals the input.
pub fn encode_decode(c: &Command) -> (r: (Vec<u8>, Command))
    ensures
        r.0@ == spec_encode(*c),
        r.1 == *c,
{
    let data = encode(c);
    proof {
        lemma_codec_round_trip(*c);
    }
    let decoded = decode(data.as_slice());
    match decoded {
        Ok(cmd) => (data, cmd),
        Err(_) => unreached(),
    }
}

} // verus!
