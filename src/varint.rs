use vstd::prelude::*;

verus! {

/// What reading a variable-length `u32` from the front of a byte slice can
/// fail with.
#[derive(Debug, Clone, Copy, PartialEq, Eq)]
pub enum VarintFault {
    /// The bytes end before the integer is complete.
    UnexpectedEnd,
    /// The first byte announces a width that a `u32` cannot have.
    InvalidWidth,
}

/// Little-endian value of the bytes `s[lo..hi]`.
pub open spec fn le_value(s: Seq<u8>, lo: int, hi: int) -> nat
    decreases hi - lo,
{
    if hi <= lo {
        0
    } else {
        (s[lo] as nat) + 256 * le_value(s, lo + 1, hi)
    }
}

/// The standard variable-length encoding of a `u32`: one byte up to 250,
/// else a marker byte (251 for two bytes, 252 for four) and the
/// little-endian bytes.
pub open spec fn varint_u32(v: u32) -> Seq<u8> {
    if v <= 250 {
        seq![v as u8]
    } else if v <= 0xffff {
        seq![251u8, (v % 256) as u8, (v / 256) as u8]
    } else {
        seq![
            252u8,
            (v % 256) as u8,
            ((v / 256) % 256) as u8,
            ((v / 65536) % 256) as u8,
            (v / 16777216) as u8,
        ]
    }
}

/// Reading a variable-length `u32` from the front of `s`: the value and the
/// number of bytes it took, or why none can be read.
pub open spec fn read_varint_u32(s: Seq<u8>) -> Result<(u32, usize), VarintFault> {
    if s.len() == 0 {
        Err(VarintFault::UnexpectedEnd)
    } else if s[0] <= 250 {
        Ok((s[0] as u32, 1usize))
    } else if s[0] == 251 {
        if s.len() < 3 {
            Err(VarintFault::UnexpectedEnd)
        } else {
            Ok((le_value(s, 1, 3) as u32, 3usize))
        }
    } else if s[0] == 252 {
        if s.len() < 5 {
            Err(VarintFault::UnexpectedEnd)
        } else {
            Ok((le_value(s, 1, 5) as u32, 5usize))
        }
    } else {
        Err(VarintFault::InvalidWidth)
    }
}

/// Reading back the encoding of any `u32` gives the value and the whole
/// length of the encoding.
pub proof fn lemma_varint_round_trip(v: u32)
    ensures
        read_varint_u32(varint_u32(v)) == Ok::<(u32, usize), VarintFault>((v, varint_u32(v).len() as usize)),
{
    let s = varint_u32(v);
    if v > 250 && v <= 0xffff {
        reveal_with_fuel(le_value, 3);
        assert(le_value(s, 1, 3) == (v % 256) + 256 * (v / 256)) by (nonlinear_arith)
            requires
                s[1] == (v % 256) as u8,
                s[2] == (v / 256) as u8,
                v <= 0xffff,
                le_value(s, 1, 3) == s[1] + 256 * (s[2] + 256 * 0),
        ;
    } else if v > 0xffff {
        reveal_with_fuel(le_value, 5);
        let b0 = v % 256;
        let b1 = (v / 256) % 256;
        let b2 = (v / 65536) % 256;
        let b3 = v / 16777216;
        let q1 = v / 256;
        let q2 = q1 / 256;
        assert(q2 == v / 65536);
        assert(q2 / 256 == v / 16777216);
        assert(v == b0 + 256 * q1);
        assert(q1 == b1 + 256 * q2);
        assert(q2 == b2 + 256 * b3);
        assert(le_value(s, 1, 5) == b0 + 256 * (b1 + 256 * (b2 + 256 * (b3 + 256 * 0))));
    }
}

/// Every strict, non-empty prefix of an encoding reads as ending too soon.
pub proof fn lemma_varint_prefix_truncated(v: u32, k: int)
    requires
        0 < k < varint_u32(v).len(),
    ensures
        read_varint_u32(varint_u32(v).take(k)) == Err::<(u32, usize), VarintFault>(VarintFault::UnexpectedEnd),
{
    assert(varint_u32(v).take(k)[0] == varint_u32(v)[0]);
}

/// Relies on bincode::encode_to_vec with the standard configuration, which
/// writes a `u32` in the variable-length form above and cannot fail when the
/// target is a `Vec`.
#[verifier::external_body]
pub(crate) fn encode_u32(v: u32) -> (r: Result<Vec<u8>, bincode::error::EncodeError>)
    ensures
        r is Ok,
        r matches Ok(b) ==> b@ == varint_u32(v),
{
    bincode::encode_to_vec(v, bincode::config::standard())
}

/// Relies on bincode::decode_from_slice with the standard configuration,
/// read as a `u32`: the value and the bytes it took, `UnexpectedEnd` when the
/// slice is too short, any other error when the width marker is not one a
/// `u32` can have.
#[verifier::external_body]
pub(crate) fn decode_u32(b: &[u8]) -> (r: Result<(u32, usize), VarintFault>)
    ensures
        r == read_varint_u32(b@),
{
    match bincode::decode_from_slice::<u32, _>(b, bincode::config::standard()) {
        Ok((v, n)) => Ok((v, n)),
        Err(bincode::error::DecodeError::UnexpectedEnd { .. }) => Err(VarintFault::UnexpectedEnd),
        Err(_) => Err(VarintFault::InvalidWidth),
    }
}

#[verifier::external_type_specification]
#[verifier::external_body]
pub struct ExEncodeError(bincode::error::EncodeError);

} // verus!
