//! Little-endian primitives over a byte buffer and a cursor into it.
use vstd::prelude::*;
use vstd::string::StringSliceAdditionalSpecFns;
use vstd::utf8::{decode_utf8, encode_utf8_decode_utf8, valid_utf8};

use crate::text::utf8_str;
use crate::Error;

verus! {

/// Unsigned little-endian 16-bit value stored at `d[p]`, `d[p + 1]`.
pub open spec fn le_u16(d: Seq<u8>, p: int) -> int {
    d[p] as int + 256 * d[p + 1] as int
}

/// Signed (two's complement) little-endian 16-bit value stored at `d[p..p + 2]`.
pub open spec fn le_i16(d: Seq<u8>, p: int) -> int {
    let u = le_u16(d, p);
    if u < 0x8000 {
        u
    } else {
        u - 0x1_0000
    }
}

/// Signed (two's complement) little-endian 32-bit value stored at `d[p..p + 4]`.
pub open spec fn le_i32(d: Seq<u8>, p: int) -> int {
    let u = le_u16(d, p) + 0x1_0000 * le_u16(d, p + 2);
    if u < 0x8000_0000 {
        u
    } else {
        u - 0x1_0000_0000
    }
}

/// A header count: `-1` (feature absent) reads as an empty section, any
/// other negative value is refused.
pub open spec fn non_neg(v: int) -> Option<u16> {
    if v >= 0 {
        Some(v as u16)
    } else if v == -1 {
        Some(0u16)
    } else {
        None
    }
}

/// Outcome of reading a header count at `p`.
pub open spec fn non_neg_at(d: Seq<u8>, p: int) -> Result<u16, Error> {
    if p + 2 > d.len() {
        Err(Error::Io)
    } else {
        match non_neg(le_i16(d, p)) {
            Some(v) => Ok(v),
            None => Err(Error::InvalidNames),
        }
    }
}

/// Consumes one byte.
pub fn read_byte(data: &[u8], pos: &mut usize) -> (r: Result<u8, Error>)
    requires
        *old(pos) <= data@.len(),
    ensures
        *old(pos) < data@.len() ==> r == Ok::<u8, Error>(data@[*old(pos) as int]) && *final(pos)
            == *old(pos) + 1,
        *old(pos) == data@.len() ==> r == Err::<u8, Error>(Error::Io) && *final(pos) == *old(pos),
        *final(pos) <= data@.len(),
{
    if *pos < data.len() {
        let b = data[*pos];
        *pos = *pos + 1;
        Ok(b)
    } else {
        Err(Error::Io)
    }
}

/// Consumes two bytes as an unsigned little-endian integer.
pub fn read_u16(data: &[u8], pos: &mut usize) -> (r: Result<u16, Error>)
    requires
        *old(pos) <= data@.len(),
    ensures
        *old(pos) + 2 <= data@.len() ==> (r matches Ok(v) && v == le_u16(data@, *old(pos) as int)
            && *final(pos) == *old(pos) + 2),
        *old(pos) + 2 > data@.len() ==> r == Err::<u16, Error>(Error::Io) && *final(pos)
            == *old(pos),
        *final(pos) <= data@.len(),
{
    if data.len() - *pos < 2 {
        return Err(Error::Io);
    }
    let lo = data[*pos] as u16;
    let hi = data[*pos + 1] as u16;
    *pos = *pos + 2;
    Ok(lo + 256 * hi)
}

/// Consumes two bytes as a signed little-endian integer.
pub fn read_i16(data: &[u8], pos: &mut usize) -> (r: Result<i16, Error>)
    requires
        *old(pos) <= data@.len(),
    ensures
        *old(pos) + 2 <= data@.len() ==> (r matches Ok(v) && v == le_i16(data@, *old(pos) as int)
            && *final(pos) == *old(pos) + 2),
        *old(pos) + 2 > data@.len() ==> r == Err::<i16, Error>(Error::Io) && *final(pos)
            == *old(pos),
        *final(pos) <= data@.len(),
{
    let u = read_u16(data, pos)?;
    if u < 0x8000 {
        Ok(u as i16)
    } else {
        Ok((u as i32 - 0x1_0000) as i16)
    }
}

/// Consumes four bytes as a signed little-endian integer.
pub fn read_i32(data: &[u8], pos: &mut usize) -> (r: Result<i32, Error>)
    requires
        *old(pos) <= data@.len(),
    ensures
        *old(pos) + 4 <= data@.len() ==> (r matches Ok(v) && v == le_i32(data@, *old(pos) as int)
            && *final(pos) == *old(pos) + 4),
        *old(pos) + 4 > data@.len() ==> r == Err::<i32, Error>(Error::Io) && *final(pos)
            == *old(pos),
        *final(pos) <= data@.len(),
{
    if data.len() - *pos < 4 {
        return Err(Error::Io);
    }
    let lo = read_u16(data, pos)? as u32;
    let hi = read_u16(data, pos)? as u32;
    let u: u32 = lo + 0x1_0000 * hi;
    if u < 0x8000_0000 {
        Ok(u as i32)
    } else {
        Ok((u as i64 - 0x1_0000_0000) as i32)
    }
}

/// Consumes a header count, mapping `-1` to `0`; other negative values fail
/// with `InvalidNames`.
pub fn read_non_neg_i16(data: &[u8], pos: &mut usize) -> (r: Result<u16, Error>)
    requires
        *old(pos) <= data@.len(),
    ensures
        r == non_neg_at(data@, *old(pos) as int),
        r is Ok ==> *final(pos) == *old(pos) + 2,
        *final(pos) <= data@.len(),
{
    let n = read_i16(data, pos)?;
    if n >= 0 {
        Ok(n as u16)
    } else if n == -1 {
        Ok(0)
    } else {
        Err(Error::InvalidNames)
    }
}

/// Consumes `size` bytes holding UTF-8 text.
pub fn read_str(data: &[u8], pos: &mut usize, size: usize) -> (r: Result<String, Error>)
    requires
        *old(pos) <= data@.len(),
    ensures
        *old(pos) + size > data@.len() ==> r == Err::<String, Error>(Error::Io),
        *old(pos) + size <= data@.len() ==> {
            let bytes = data@.subrange(*old(pos) as int, *old(pos) + size);
            &&& valid_utf8(bytes) ==> (r matches Ok(s) && s@ == decode_utf8(bytes))
            &&& !valid_utf8(bytes) ==> r == Err::<String, Error>(Error::InvalidUtf8)
        },
        r is Ok ==> *final(pos) == *old(pos) + size,
        *final(pos) <= data@.len(),
{
    if data.len() - *pos < size {
        return Err(Error::Io);
    }
    let bytes = &data[*pos..*pos + size];
    match utf8_str(bytes) {
        Some(s) => {
            *pos = *pos + size;
            proof {
                encode_utf8_decode_utf8(s@);
            }
            Ok(s.to_owned())
        },
        None => Err(Error::InvalidUtf8),
    }
}

} // verus!
