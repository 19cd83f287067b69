use crate::endian::EndianSlice;
use crate::error::Error;
use vstd::prelude::*;

verus! {

/// The unsigned LEB128 number that starts at `pos` in `s`, with the position
/// just behind it. `i` counts the bytes of the number that lie before `pos`.
///
/// Each byte gives seven bits, least significant group first, and its top bit
/// says whether another byte follows. The tenth byte may only be 0 or 1: a
/// larger one would not leave the number within 64 bits.
pub open spec fn spec_uleb128(s: Seq<u8>, pos: int, i: int) -> Result<(int, int), Error>
    decreases s.len() - pos,
{
    if pos < 0 || pos >= s.len() {
        Err(Error::UnexpectedEof)
    } else if i >= 9 && s[pos] > 1 {
        Err(Error::BadUnsignedLeb128)
    } else if s[pos] < 128 {
        Ok((s[pos] as int, pos + 1))
    } else {
        match spec_uleb128(s, pos + 1, i + 1) {
            Ok((v, next)) => Ok((s[pos] - 128 + 128 * v, next)),
            Err(e) => Err(e),
        }
    }
}

/// The signed LEB128 number that starts at `pos` in `s`, with the position
/// just behind it. `i` counts the bytes of the number that lie before `pos`.
///
/// The last byte's second bit from the top is the sign. The tenth byte may
/// only be 0x00 or 0x7f.
pub open spec fn spec_sleb128(s: Seq<u8>, pos: int, i: int) -> Result<(int, int), Error>
    decreases s.len() - pos,
{
    if pos < 0 || pos >= s.len() {
        Err(Error::UnexpectedEof)
    } else if i >= 9 && s[pos] != 0 && s[pos] != 0x7f {
        Err(Error::BadSignedLeb128)
    } else if s[pos] < 64 {
        Ok((s[pos] as int, pos + 1))
    } else if s[pos] < 128 {
        Ok((s[pos] - 128, pos + 1))
    } else {
        match spec_sleb128(s, pos + 1, i + 1) {
            Ok((v, next)) => Ok((s[pos] - 128 + 128 * v, next)),
            Err(e) => Err(e),
        }
    }
}

/// What reading an unsigned LEB128 number at `pos` gives: the number and the
/// position just behind it.
pub open spec fn spec_read_uleb128(s: Seq<u8>, pos: int) -> Result<(u64, usize), Error> {
    match spec_uleb128(s, pos, 0) {
        Ok((v, next)) => Ok((v as u64, next as usize)),
        Err(e) => Err(e),
    }
}

/// What reading a signed LEB128 number at `pos` gives: the number and the
/// position just behind it.
pub open spec fn spec_read_sleb128(s: Seq<u8>, pos: int) -> Result<(i64, usize), Error> {
    match spec_sleb128(s, pos, 0) {
        Ok((v, next)) => Ok((v as i64, next as usize)),
        Err(e) => Err(e),
    }
}

/// An unsigned LEB128 number takes at least one byte, and ends within the
/// bytes it is read from.
pub proof fn lemma_uleb128_advances(s: Seq<u8>, pos: int, i: int)
    ensures
        spec_uleb128(s, pos, i) matches Ok((v, next)) ==> pos < next <= s.len(),
    decreases s.len() - pos,
{
    if 0 <= pos < s.len() && s[pos] >= 128 {
        lemma_uleb128_advances(s, pos + 1, i + 1);
    }
}

/// A signed LEB128 number takes at least one byte, and ends within the bytes
/// it is read from.
pub proof fn lemma_sleb128_advances(s: Seq<u8>, pos: int, i: int)
    ensures
        spec_sleb128(s, pos, i) matches Ok((v, next)) ==> pos < next <= s.len(),
    decreases s.len() - pos,
{
    if 0 <= pos < s.len() && s[pos] >= 128 {
        lemma_sleb128_advances(s, pos + 1, i + 1);
    }
}

spec fn pow128(i: int) -> int {
    if i <= 0 {
        1
    } else if i == 1 {
        0x80
    } else if i == 2 {
        0x4000
    } else if i == 3 {
        0x20_0000
    } else if i == 4 {
        0x1000_0000
    } else if i == 5 {
        0x8_0000_0000
    } else if i == 6 {
        0x400_0000_0000
    } else if i == 7 {
        0x2_0000_0000_0000
    } else if i == 8 {
        0x100_0000_0000_0000
    } else {
        0x8000_0000_0000_0000
    }
}

spec fn scaled(acc: int, mult: int, rest: Result<(int, int), Error>) -> Result<(int, int), Error> {
    match rest {
        Ok((v, next)) => Ok((acc + mult * v, next)),
        Err(e) => Err(e),
    }
}

/// Reads the unsigned LEB128 number at `pos`, and gives it with the position
/// just behind it.
pub fn read_uleb128(input: &EndianSlice, pos: usize) -> (r: Result<(u64, usize), Error>)
    ensures
        r == spec_read_uleb128(input@, pos as int),
        match r {
            Ok((v, next)) => spec_uleb128(input@, pos as int, 0) == Ok::<(int, int), Error>(
                (v as int, next as int),
            ),
            Err(e) => spec_uleb128(input@, pos as int, 0) == Err::<(int, int), Error>(e),
        },
{
    let len: usize = input.len();
    let mut acc: u64 = 0;
    let mut mult: u64 = 1;
    let mut i: usize = 0;
    let mut p: usize = pos;
    loop
        invariant
            len == input@.len(),
            i <= 9,
            p == pos + i,
            mult == pow128(i as int),
            acc < mult,
            spec_uleb128(input@, pos as int, 0) == scaled(
                acc as int,
                mult as int,
                spec_uleb128(input@, p as int, i as int),
            ),
        decreases 10 - i,
    {
        if p >= len {
            return Err(Error::UnexpectedEof);
        }
        let byte: u8 = input.slice[p];
        if i == 9 && byte > 1 {
            return Err(Error::BadUnsignedLeb128);
        }
        if byte < 128 {
            assert(mult * byte <= mult * 127 && (byte <= 1 ==> mult * byte <= mult)) by (nonlinear_arith)
                requires
                    0 <= byte <= 127,
                    0 <= mult,
            ;
            return Ok((acc + mult * (byte as u64), p + 1));
        }
        let low: u64 = (byte - 128) as u64;
        proof {
            assert(mult * low <= mult * 127) by (nonlinear_arith)
                requires
                    0 <= low <= 127,
                    0 <= mult,
            ;
            if let Ok((v, next)) = spec_uleb128(input@, p + 1, i + 1) {
                assert(mult * (low + 128 * v) == mult * low + (mult * 128) * v)
                    by (nonlinear_arith);
            }
        }
        acc = acc + mult * low;
        mult = mult * 128;
        i = i + 1;
        p = p + 1;
    }
}

/// Reads the signed LEB128 number at `pos`, and gives it with the position
/// just behind it.
pub fn read_sleb128(input: &EndianSlice, pos: usize) -> (r: Result<(i64, usize), Error>)
    ensures
        r == spec_read_sleb128(input@, pos as int),
        match r {
            Ok((v, next)) => spec_sleb128(input@, pos as int, 0) == Ok::<(int, int), Error>(
                (v as int, next as int),
            ),
            Err(e) => spec_sleb128(input@, pos as int, 0) == Err::<(int, int), Error>(e),
        },
{
    let len: usize = input.len();
    let mut acc: i128 = 0;
    let mut mult: i128 = 1;
    let mut i: usize = 0;
    let mut p: usize = pos;
    loop
        invariant
            len == input@.len(),
            i <= 9,
            p == pos + i,
            mult == pow128(i as int),
            0 <= acc < mult,
            spec_sleb128(input@, pos as int, 0) == scaled(
                acc as int,
                mult as int,
                spec_sleb128(input@, p as int, i as int),
            ),
        decreases 10 - i,
    {
        if p >= len {
            return Err(Error::UnexpectedEof);
        }
        let byte: u8 = input.slice[p];
        if i == 9 && byte != 0 && byte != 0x7f {
            return Err(Error::BadSignedLeb128);
        }
        if byte < 128 {
            let last: i128 = if byte < 64 {
                byte as i128
            } else {
                byte as i128 - 128
            };
            assert(-64 * mult <= mult * last <= mult * 63 && (last == -1 ==> mult * last == -mult)
                && (last == 0 ==> mult * last == 0)) by (nonlinear_arith)
                requires
                    -64 <= last <= 63,
                    0 <= mult,
            ;
            let v: i128 = acc + mult * last;
            return Ok((v as i64, p + 1));
        }
        let low: i128 = (byte - 128) as i128;
        proof {
            assert(0 <= mult * low <= mult * 127) by (nonlinear_arith)
                requires
                    0 <= low <= 127,
                    0 <= mult,
            ;
            if let Ok((v, next)) = spec_sleb128(input@, p + 1, i + 1) {
                assert(mult * (low + 128 * v) == mult * low + (mult * 128) * v)
                    by (nonlinear_arith);
            }
        }
        acc = acc + mult * low;
        mult = mult * 128;
        i = i + 1;
        p = p + 1;
    }
}

} // verus!
