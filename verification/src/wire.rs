use vstd::prelude::*;
use vstd::utf8::{encode_utf8, decode_utf8, valid_utf8, encode_utf8_decode_utf8};
use crate::rid::ORecordID;
use crate::varint::{spec_write_varint, spec_parse_varint};

verus! {

// Byte-level layout of the protocol's primitives.  Multi-byte integers are
// big-endian; booleans are a single 0/1 byte; byte strings carry an i32
// length (-1 meaning absent); text is UTF-8.

pub open spec fn be16(v: u16) -> Seq<u8> {
    seq![(v >> 8) as u8, v as u8]
}

pub open spec fn be32(v: u32) -> Seq<u8> {
    seq![(v >> 24) as u8, (v >> 16) as u8, (v >> 8) as u8, v as u8]
}

pub open spec fn enc_i8(n: i8) -> Seq<u8> {
    seq![n as u8]
}

pub open spec fn enc_i16(n: i16) -> Seq<u8> {
    be16(n as u16)
}

pub open spec fn enc_i32(n: i32) -> Seq<u8> {
    be32(n as u32)
}

pub open spec fn enc_bool(b: bool) -> Seq<u8> {
    if b {
        seq![1u8]
    } else {
        seq![0u8]
    }
}

/// Byte string with an i32 length prefix.
pub open spec fn enc_bytes32(b: Seq<u8>) -> Seq<u8> {
    enc_i32(b.len() as i32) + b
}

/// Text with an i32 length prefix counting its UTF-8 bytes.
pub open spec fn enc_str32(s: Seq<char>) -> Seq<u8> {
    enc_bytes32(encode_utf8(s))
}

/// Text with a varint length prefix counting its UTF-8 bytes, as used inside
/// serialised documents.
pub open spec fn enc_varstr(s: Seq<char>) -> Seq<u8> {
    spec_write_varint(encode_utf8(s).len() as i64) + encode_utf8(s)
}

/// An i32-framed length fits on the wire only below this bound.
pub open spec fn fits_i32_len(n: nat) -> bool {
    n <= 0x7fff_ffff
}

// Parsers over a byte sequence: each yields the decoded value and the
// position just past it, or `None` when the bytes run out or are malformed.

pub open spec fn spec_read_u8(bytes: Seq<u8>, pos: int) -> Option<(u8, int)> {
    if 0 <= pos && pos + 1 <= bytes.len() {
        Some((bytes[pos], pos + 1))
    } else {
        None
    }
}

pub open spec fn spec_read_i8(bytes: Seq<u8>, pos: int) -> Option<(i8, int)> {
    match spec_read_u8(bytes, pos) {
        Some((b, end)) => Some((b as i8, end)),
        None => None,
    }
}

pub open spec fn spec_read_u16(bytes: Seq<u8>, pos: int) -> Option<(u16, int)> {
    if 0 <= pos && pos + 2 <= bytes.len() {
        Some((((bytes[pos] as u16) << 8) | (bytes[pos + 1] as u16), pos + 2))
    } else {
        None
    }
}

pub open spec fn spec_read_i16(bytes: Seq<u8>, pos: int) -> Option<(i16, int)> {
    match spec_read_u16(bytes, pos) {
        Some((v, end)) => Some((v as i16, end)),
        None => None,
    }
}

pub open spec fn spec_read_u32(bytes: Seq<u8>, pos: int) -> Option<(u32, int)> {
    if 0 <= pos && pos + 4 <= bytes.len() {
        Some(
            (((bytes[pos] as u32) << 24) | ((bytes[pos + 1] as u32) << 16) | ((bytes[pos
                + 2] as u32) << 8) | (bytes[pos + 3] as u32), pos + 4),
        )
    } else {
        None
    }
}

pub open spec fn spec_read_i32(bytes: Seq<u8>, pos: int) -> Option<(i32, int)> {
    match spec_read_u32(bytes, pos) {
        Some((v, end)) => Some((v as i32, end)),
        None => None,
    }
}

pub open spec fn spec_read_u64(bytes: Seq<u8>, pos: int) -> Option<(u64, int)> {
    if 0 <= pos && pos + 8 <= bytes.len() {
        Some(
            (((bytes[pos] as u64) << 56) | ((bytes[pos + 1] as u64) << 48) | ((bytes[pos
                + 2] as u64) << 40) | ((bytes[pos + 3] as u64) << 32) | ((bytes[pos + 4] as u64)
                << 24) | ((bytes[pos + 5] as u64) << 16) | ((bytes[pos + 6] as u64) << 8) | (
            bytes[pos + 7] as u64), pos + 8),
        )
    } else {
        None
    }
}

pub open spec fn spec_read_i64(bytes: Seq<u8>, pos: int) -> Option<(i64, int)> {
    match spec_read_u64(bytes, pos) {
        Some((v, end)) => Some((v as i64, end)),
        None => None,
    }
}

/// A boolean byte must be exactly 0 or 1.
pub open spec fn spec_read_bool(bytes: Seq<u8>, pos: int) -> Option<(bool, int)> {
    match spec_read_i8(bytes, pos) {
        Some((0i8, end)) => Some((false, end)),
        Some((1i8, end)) => Some((true, end)),
        _ => None,
    }
}

/// i32-framed byte string; a length of -1 reads as empty, any other negative
/// length is malformed.
pub open spec fn spec_read_bytes(bytes: Seq<u8>, pos: int) -> Option<(Seq<u8>, int)> {
    match spec_read_i32(bytes, pos) {
        Some((n, end)) => if n == -1 {
            Some((Seq::empty(), end))
        } else if n >= 0 && end + n <= bytes.len() {
            Some((bytes.subrange(end, end + n), end + n))
        } else {
            None
        },
        None => None,
    }
}

/// i32-framed byte string where a length of -1 reads as absent.
pub open spec fn spec_read_optional_bytes(bytes: Seq<u8>, pos: int) -> Option<
    (Option<Seq<u8>>, int),
> {
    match spec_read_i32(bytes, pos) {
        Some((n, end)) => if n == -1 {
            Some((None, end))
        } else if n >= 0 && end + n <= bytes.len() {
            Some((Some(bytes.subrange(end, end + n)), end + n))
        } else {
            None
        },
        None => None,
    }
}

/// Record identity: fixed-width cluster then position.
pub open spec fn spec_read_identity(bytes: Seq<u8>, pos: int) -> Option<(ORecordID, int)> {
    match spec_read_i16(bytes, pos) {
        Some((cluster, mid)) => match spec_read_i64(bytes, mid) {
            Some((position, end)) => Some((ORecordID { cluster, position }, end)),
            None => None,
        },
        None => None,
    }
}

/// i32-framed UTF-8 text.
pub open spec fn spec_read_string(bytes: Seq<u8>, pos: int) -> Option<(Seq<char>, int)> {
    match spec_read_bytes(bytes, pos) {
        Some((b, end)) => if valid_utf8(b) {
            Some((decode_utf8(b), end))
        } else {
            None
        },
        None => None,
    }
}

/// Varint-framed UTF-8 text, as used inside serialised documents.
pub open spec fn spec_read_varstr(bytes: Seq<u8>, pos: int) -> Option<(Seq<char>, int)> {
    match spec_parse_varint(bytes, pos) {
        Some((n, end)) => if n >= 0 && end + n <= bytes.len() {
            let b = bytes.subrange(end, end + n);
            if valid_utf8(b) {
                Some((decode_utf8(b), end + n))
            } else {
                None
            }
        } else {
            None
        },
        None => None,
    }
}

// Round trips: each parser reads back what the matching encoder laid down.

pub proof fn lemma_read_u32_be32(bytes: Seq<u8>, pos: int, v: u32)
    requires
        0 <= pos,
        pos + 4 <= bytes.len(),
        bytes.subrange(pos, pos + 4) == be32(v),
    ensures
        spec_read_u32(bytes, pos) == Some((v, pos + 4)),
{
    assert(bytes[pos] == be32(v)[0] && bytes[pos + 1] == be32(v)[1] && bytes[pos + 2] == be32(
        v,
    )[2] && bytes[pos + 3] == be32(v)[3]);
    assert((((((v >> 24) as u8) as u32) << 24) | ((((v >> 16) as u8) as u32) << 16) | ((((v
        >> 8) as u8) as u32) << 8) | ((v as u8) as u32)) == v) by (bit_vector);
}

pub proof fn lemma_read_i32_enc(bytes: Seq<u8>, pos: int, n: i32)
    requires
        0 <= pos,
        pos + 4 <= bytes.len(),
        bytes.subrange(pos, pos + 4) == enc_i32(n),
    ensures
        spec_read_i32(bytes, pos) == Some((n, pos + 4)),
{
    lemma_read_u32_be32(bytes, pos, n as u32);
    assert(((n as u32) as i32) == n) by (bit_vector);
}

pub proof fn lemma_read_bool_enc(bytes: Seq<u8>, pos: int, b: bool)
    requires
        0 <= pos,
        pos + 1 <= bytes.len(),
        bytes.subrange(pos, pos + 1) == enc_bool(b),
    ensures
        spec_read_bool(bytes, pos) == Some((b, pos + 1)),
{
    assert(bytes[pos] == enc_bool(b)[0]);
}

pub proof fn lemma_read_bytes_enc(bytes: Seq<u8>, pos: int, b: Seq<u8>)
    requires
        0 <= pos,
        fits_i32_len(b.len()),
        pos + 4 + b.len() <= bytes.len(),
        bytes.subrange(pos, pos + 4 + b.len() as int) == enc_bytes32(b),
    ensures
        spec_read_bytes(bytes, pos) == Some((b, pos + 4 + b.len() as int)),
{
    let n = b.len() as i32;
    assert(bytes.subrange(pos, pos + 4) =~= enc_i32(n)) by {
        assert forall|i: int| 0 <= i < 4 implies bytes[pos + i] == enc_i32(n)[i] by {
            assert(bytes[pos + i] == bytes.subrange(pos, pos + 4 + b.len() as int)[i]);
        }
    }
    lemma_read_i32_enc(bytes, pos, n);
    assert(bytes.subrange(pos + 4, pos + 4 + b.len() as int) =~= b) by {
        assert forall|i: int| 0 <= i < b.len() implies bytes[pos + 4 + i] == b[i] by {
            assert(bytes[pos + 4 + i] == bytes.subrange(pos, pos + 4 + b.len() as int)[4 + i]);
        }
    }
}

pub proof fn lemma_read_varstr_enc(bytes: Seq<u8>, pos: int, s: Seq<char>)
    requires
        0 <= pos,
        encode_utf8(s).len() <= 0x7fff_ffff,
        pos + enc_varstr(s).len() <= bytes.len(),
        bytes.subrange(pos, pos + enc_varstr(s).len() as int) == enc_varstr(s),
    ensures
        spec_read_varstr(bytes, pos) == Some((s, pos + enc_varstr(s).len() as int)),
{
    broadcast use vstd::utf8::encode_utf8_valid_utf8;

    let n = encode_utf8(s).len() as i64;
    let pre = spec_write_varint(n);
    assert(bytes.subrange(pos, pos + pre.len() as int) =~= pre) by {
        assert forall|i: int| 0 <= i < pre.len() implies bytes[pos + i] == pre[i] by {
            assert(bytes[pos + i] == bytes.subrange(pos, pos + enc_varstr(s).len() as int)[i]);
        }
    }
    crate::varint::lemma_varint_round_trip(bytes, pos, n);
    let end = pos + pre.len() as int;
    assert(bytes.subrange(end, end + n) =~= encode_utf8(s)) by {
        assert forall|i: int| 0 <= i < n implies bytes[end + i] == encode_utf8(s)[i] by {
            assert(bytes[end + i] == bytes.subrange(pos, pos + enc_varstr(s).len() as int)[
                pre.len() + i]);
        }
    }
    encode_utf8_decode_utf8(s);
}

} // verus!
