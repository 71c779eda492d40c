use vstd::prelude::*;
use vstd::utf8::{decode_utf8, encode_utf8, encode_utf8_decode_utf8, valid_utf8};
use crate::error::{OrientError, OrientResult};
use crate::rid::ORecordID;
use crate::varint::{spec_parse_varint, spec_scan_varint_u, unzigzag};
use crate::wire::{
    spec_read_bool, spec_read_bytes, spec_read_i16, spec_read_i32, spec_read_i64, spec_read_i8,
    spec_read_optional_bytes, spec_read_string, spec_read_u16, spec_read_u32, spec_read_u64,
    spec_read_varstr,
};

verus! {

// Readers over a received byte buffer.  Each takes the buffer and a
// position, returns the decoded value with the position just past it, and
// agrees exactly with the corresponding specification parser; a `Decoder`
// error is returned exactly when that parser yields nothing.

fn decode_error<T>() -> (r: OrientResult<T>)
    ensures
        r is Err,
        r matches Err(e) && e is Decoder,
{
    Err(OrientError::Decoder("truncated or malformed frame".to_owned()))
}

pub fn read_i8(bytes: &[u8], pos: usize) -> (r: OrientResult<(i8, usize)>)
    ensures
        match r {
            Ok((v, end)) => spec_read_i8(bytes@, pos as int) == Some((v, end as int)) && pos < end
                <= bytes@.len(),
            Err(_) => spec_read_i8(bytes@, pos as int) is None,
        },
{
    if pos < bytes.len() {
        Ok((bytes[pos] as i8, pos + 1))
    } else {
        decode_error()
    }
}

pub fn read_u8(bytes: &[u8], pos: usize) -> (r: OrientResult<(u8, usize)>)
    ensures
        match r {
            Ok((v, end)) => crate::wire::spec_read_u8(bytes@, pos as int) == Some(
                (v, end as int),
            ) && pos < end <= bytes@.len(),
            Err(_) => crate::wire::spec_read_u8(bytes@, pos as int) is None,
        },
{
    if pos < bytes.len() {
        Ok((bytes[pos], pos + 1))
    } else {
        decode_error()
    }
}

pub fn read_i16(bytes: &[u8], pos: usize) -> (r: OrientResult<(i16, usize)>)
    ensures
        match r {
            Ok((v, end)) => spec_read_i16(bytes@, pos as int) == Some((v, end as int)) && pos < end
                <= bytes@.len(),
            Err(_) => spec_read_i16(bytes@, pos as int) is None,
        },
{
    let len = bytes.len();
    if len >= 2 && pos <= len - 2 {
        let v: u16 = ((bytes[pos] as u16) << 8) | (bytes[pos + 1] as u16);
        Ok((v as i16, pos + 2))
    } else {
        decode_error()
    }
}

pub fn read_i32(bytes: &[u8], pos: usize) -> (r: OrientResult<(i32, usize)>)
    ensures
        match r {
            Ok((v, end)) => spec_read_i32(bytes@, pos as int) == Some((v, end as int)) && pos < end
                <= bytes@.len(),
            Err(_) => spec_read_i32(bytes@, pos as int) is None,
        },
{
    let len = bytes.len();
    if len >= 4 && pos <= len - 4 {
        let v: u32 = ((bytes[pos] as u32) << 24) | ((bytes[pos + 1] as u32) << 16) | ((bytes[pos
            + 2] as u32) << 8) | (bytes[pos + 3] as u32);
        Ok((v as i32, pos + 4))
    } else {
        decode_error()
    }
}

pub fn read_i64(bytes: &[u8], pos: usize) -> (r: OrientResult<(i64, usize)>)
    ensures
        match r {
            Ok((v, end)) => spec_read_i64(bytes@, pos as int) == Some((v, end as int)) && pos < end
                <= bytes@.len(),
            Err(_) => spec_read_i64(bytes@, pos as int) is None,
        },
{
    let len = bytes.len();
    if len >= 8 && pos <= len - 8 {
        let v: u64 = ((bytes[pos] as u64) << 56) | ((bytes[pos + 1] as u64) << 48) | ((bytes[pos
            + 2] as u64) << 40) | ((bytes[pos + 3] as u64) << 32) | ((bytes[pos + 4] as u64)
            << 24) | ((bytes[pos + 5] as u64) << 16) | ((bytes[pos + 6] as u64) << 8) | (bytes[pos
            + 7] as u64);
        Ok((v as i64, pos + 8))
    } else {
        decode_error()
    }
}

pub fn read_u32(bytes: &[u8], pos: usize) -> (r: OrientResult<(u32, usize)>)
    ensures
        match r {
            Ok((v, end)) => spec_read_u32(bytes@, pos as int) == Some((v, end as int)) && pos < end
                <= bytes@.len(),
            Err(_) => spec_read_u32(bytes@, pos as int) is None,
        },
{
    let len = bytes.len();
    if len >= 4 && pos <= len - 4 {
        let v: u32 = ((bytes[pos] as u32) << 24) | ((bytes[pos + 1] as u32) << 16) | ((bytes[pos
            + 2] as u32) << 8) | (bytes[pos + 3] as u32);
        Ok((v, pos + 4))
    } else {
        decode_error()
    }
}

pub fn read_u64(bytes: &[u8], pos: usize) -> (r: OrientResult<(u64, usize)>)
    ensures
        match r {
            Ok((v, end)) => spec_read_u64(bytes@, pos as int) == Some((v, end as int)) && pos < end
                <= bytes@.len(),
            Err(_) => spec_read_u64(bytes@, pos as int) is None,
        },
{
    let len = bytes.len();
    if len >= 8 && pos <= len - 8 {
        let v: u64 = ((bytes[pos] as u64) << 56) | ((bytes[pos + 1] as u64) << 48) | ((bytes[pos
            + 2] as u64) << 40) | ((bytes[pos + 3] as u64) << 32) | ((bytes[pos + 4] as u64)
            << 24) | ((bytes[pos + 5] as u64) << 16) | ((bytes[pos + 6] as u64) << 8) | (bytes[pos
            + 7] as u64);
        Ok((v, pos + 8))
    } else {
        decode_error()
    }
}

/// A boolean byte: only 0 and 1 are legal.
pub fn read_bool(bytes: &[u8], pos: usize) -> (r: OrientResult<(bool, usize)>)
    ensures
        match r {
            Ok((v, end)) => spec_read_bool(bytes@, pos as int) == Some((v, end as int)) && pos
                < end <= bytes@.len(),
            Err(_) => spec_read_bool(bytes@, pos as int) is None,
        },
{
    let (b, end) = read_i8(bytes, pos)?;
    if b == 0 {
        Ok((false, end))
    } else if b == 1 {
        Ok((true, end))
    } else {
        decode_error()
    }
}

/// Record identity as fixed-width cluster and position.
pub fn read_identity(bytes: &[u8], pos: usize) -> (r: OrientResult<(ORecordID, usize)>)
    ensures
        match r {
            Ok((v, end)) => crate::wire::spec_read_identity(bytes@, pos as int) == Some(
                (v, end as int),
            ) && pos < end <= bytes@.len(),
            Err(_) => crate::wire::spec_read_identity(bytes@, pos as int) is None,
        },
{
    let (cluster, mid) = read_i16(bytes, pos)?;
    let (position, end) = read_i64(bytes, mid)?;
    Ok((ORecordID::new(cluster, position), end))
}

/// Copy `n` bytes starting at `pos`.
fn take_bytes(bytes: &[u8], pos: usize, n: usize) -> (r: Vec<u8>)
    requires
        pos + n <= bytes@.len(),
    ensures
        r@ == bytes@.subrange(pos as int, pos + n),
{
    let len = bytes.len();
    let mut out: Vec<u8> = Vec::new();
    let mut i: usize = 0;
    while i < n
        invariant
            i <= n,
            len == bytes@.len(),
            pos + n <= len,
            out@ == bytes@.subrange(pos as int, pos + i),
        decreases n - i,
    {
        out.push(bytes[pos + i]);
        i = i + 1;
        proof {
            assert(out@ =~= bytes@.subrange(pos as int, pos + i));
        }
    }
    out
}

/// i32-framed byte string; -1 reads as empty.
pub fn read_bytes(bytes: &[u8], pos: usize) -> (r: OrientResult<(Vec<u8>, usize)>)
    ensures
        match r {
            Ok((v, end)) => spec_read_bytes(bytes@, pos as int) == Some((v@, end as int)) && pos
                < end <= bytes@.len(),
            Err(_) => spec_read_bytes(bytes@, pos as int) is None,
        },
{
    let (n, end) = read_i32(bytes, pos)?;
    if n == -1 {
        let empty: Vec<u8> = Vec::new();
        proof {
            assert(empty@ =~= Seq::<u8>::empty());
        }
        Ok((empty, end))
    } else if n >= 0 && (n as usize) <= bytes.len() - end {
        Ok((take_bytes(bytes, end, n as usize), end + n as usize))
    } else {
        decode_error()
    }
}

/// i32-framed byte string; -1 reads as absent.
pub fn read_optional_bytes(bytes: &[u8], pos: usize) -> (r: OrientResult<
    (Option<Vec<u8>>, usize),
>)
    ensures
        match r {
            Ok((v, end)) => pos < end <= bytes@.len() && match v {
                Some(b) => spec_read_optional_bytes(bytes@, pos as int) == Some(
                    (Some(b@), end as int),
                ),
                None => spec_read_optional_bytes(bytes@, pos as int) == Some(
                    (None::<Seq<u8>>, end as int),
                ),
            },
            Err(_) => spec_read_optional_bytes(bytes@, pos as int) is None,
        },
{
    let (n, end) = read_i32(bytes, pos)?;
    if n == -1 {
        Ok((None, end))
    } else if n >= 0 && (n as usize) <= bytes.len() - end {
        Ok((Some(take_bytes(bytes, end, n as usize)), end + n as usize))
    } else {
        decode_error()
    }
}

/// Relies on String::from_utf8: yields the string whose UTF-8 encoding is
/// exactly the given bytes, and fails precisely on bytes that are not valid
/// UTF-8.
#[verifier::external_body]
pub(crate) fn bytes_to_string(bytes: Vec<u8>) -> (r: Option<String>)
    ensures
        match r {
            Some(s) => encode_utf8(s@) == bytes@,
            None => !valid_utf8(bytes@),
        },
        valid_utf8(bytes@) ==> r is Some,
{
    String::from_utf8(bytes).ok()
}

/// i32-framed UTF-8 text.
pub fn read_string(bytes: &[u8], pos: usize) -> (r: OrientResult<(String, usize)>)
    ensures
        match r {
            Ok((v, end)) => spec_read_string(bytes@, pos as int) == Some((v@, end as int)) && pos
                < end <= bytes@.len(),
            Err(_) => spec_read_string(bytes@, pos as int) is None,
        },
{
    let (raw, end) = read_bytes(bytes, pos)?;
    let ghost b = raw@;
    match bytes_to_string(raw) {
        Some(s) => {
            proof {
                broadcast use vstd::utf8::encode_utf8_valid_utf8;

                encode_utf8_decode_utf8(s@);
                assert(valid_utf8(b));
                assert(decode_utf8(b) == s@);
            }
            Ok((s, end))
        },
        None => Err(OrientError::UTF8("malformed text payload".to_owned())),
    }
}

/// Signed zig-zag varint.
pub fn read_varint(bytes: &[u8], pos: usize) -> (r: OrientResult<(i64, usize)>)
    ensures
        match r {
            Ok((v, end)) => spec_parse_varint(bytes@, pos as int) == Some((v, end as int)) && pos
                < end <= bytes@.len(),
            Err(_) => spec_parse_varint(bytes@, pos as int) is None,
        },
{
    if pos >= bytes.len() {
        return decode_error();
    }
    let mut value: u64 = 0;
    let mut shift: u64 = 0;
    let mut p: usize = pos;
    loop
        invariant
            pos <= p <= bytes@.len(),
            shift <= 63,
            spec_scan_varint_u(bytes@, pos as int, 0, 0) == spec_scan_varint_u(
                bytes@,
                p as int,
                shift,
                value,
            ),
        decreases bytes@.len() - p,
    {
        if p >= bytes.len() {
            return decode_error();
        }
        let b = bytes[p];
        p = p + 1;
        if b & 0x80 == 0 {
            let u = value | ((b as u64) << shift);
            let v = ((u >> 1) as i64) ^ (if u & 1 == 1 {
                -1i64
            } else {
                0i64
            });
            proof {
                assert(v == unzigzag(u));
            }
            return Ok((v, p));
        }
        if shift + 7 > 63 {
            return decode_error();
        }
        value = value | (((b & 0x7f) as u64) << shift);
        shift = shift + 7;
    }
}

/// Varint-framed UTF-8 text, as inside serialised documents.
pub fn read_varstr(bytes: &[u8], pos: usize) -> (r: OrientResult<(String, usize)>)
    ensures
        match r {
            Ok((v, end)) => spec_read_varstr(bytes@, pos as int) == Some((v@, end as int)) && pos
                < end <= bytes@.len(),
            Err(_) => spec_read_varstr(bytes@, pos as int) is None,
        },
{
    let (n, end) = read_varint(bytes, pos)?;
    if n >= 0 && (n as u64) <= (bytes.len() - end) as u64 {
        let raw = take_bytes(bytes, end, n as usize);
        let ghost b = raw@;
        match bytes_to_string(raw) {
            Some(s) => {
                proof {
                    broadcast use vstd::utf8::encode_utf8_valid_utf8;

                    encode_utf8_decode_utf8(s@);
                    assert(valid_utf8(b));
                    assert(decode_utf8(b) == s@);
                }
                Ok((s, end + n as usize))
            },
            None => Err(OrientError::UTF8("malformed text payload".to_owned())),
        }
    } else {
        decode_error()
    }
}

} // verus!
