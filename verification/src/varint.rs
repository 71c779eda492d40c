use vstd::prelude::*;

verus! {

// Signed 64-bit integers travel as zig-zag varints: the value is folded to an
// unsigned integer whose low bit carries the sign, then written seven bits per
// byte, least significant group first, with the high bit of every byte but the
// last set.

/// Zig-zag fold of a signed value onto the unsigned line.
pub open spec fn zigzag(n: i64) -> u64 {
    ((n << 1) ^ (n >> 63)) as u64
}

/// Inverse of the zig-zag fold.
pub open spec fn unzigzag(u: u64) -> i64 {
    ((u >> 1) as i64) ^ (if u & 1 == 1 { -1i64 } else { 0i64 })
}

pub proof fn lemma_zigzag_round_trip(n: i64)
    ensures
        unzigzag(zigzag(n)) == n,
{
    let u = zigzag(n);
    assert(u == ((n << 1) ^ (n >> 63)) as u64);
    assert((((((n << 1) ^ (n >> 63)) as u64) >> 1) as i64) ^ (if (((n << 1) ^ (n >> 63)) as u64)
        & 1 == 1 { -1i64 } else { 0i64 }) == n) by (bit_vector);
}

/// Little-endian base-128 byte groups of an unsigned value, continuation bit
/// set on every byte but the last.
pub open spec fn varint_bytes(u: u64) -> Seq<u8>
    decreases u,
    via varint_bytes_decreases
{
    if u < 128 {
        seq![u as u8]
    } else {
        seq![((u & 0x7f) | 0x80) as u8] + varint_bytes(u >> 7)
    }
}

#[via_fn]
proof fn varint_bytes_decreases(u: u64) {
    assert(u >= 128 ==> (u >> 7) < u) by (bit_vector);
}

/// Bytes of a signed value: zig-zag fold, then base-128 groups.
pub open spec fn spec_write_varint(n: i64) -> Seq<u8> {
    varint_bytes(zigzag(n))
}

proof fn lemma_varint_bytes_len_le(u: u64, k: u64)
    requires
        1 <= k <= 10,
        k < 10 ==> u >> (7 * k) == 0,
    ensures
        varint_bytes(u).len() <= k,
    decreases u,
{
    if u >= 128 {
        assert(!(k == 1)) by (bit_vector)
            requires u >= 128 && 1 <= k && (k < 10 ==> u >> (7 * k) == 0);
        assert((u >> 7) < u) by (bit_vector)
            requires u >= 128;
        assert((k - 1 < 10 ==> (u >> 7) >> (7 * ((k - 1) as u64)) == 0)) by (bit_vector)
            requires 2 <= k <= 10 && (k < 10 ==> u >> (7 * k) == 0);
        lemma_varint_bytes_len_le(u >> 7, (k - 1) as u64);
    }
}

pub proof fn lemma_varint_bytes_len(u: u64)
    ensures
        1 <= varint_bytes(u).len() <= 10,
{
    lemma_varint_bytes_len_le(u, 10);
    if u < 128 {
        assert(varint_bytes(u).len() == 1);
    }
}

/// One scanning step of the decoder: at `pos`, with `shift` bits already
/// consumed into `acc`.  Mirrors the streaming decoder exactly, including the
/// refusal of a continuation byte that would push the shift past 63.
pub open spec fn spec_scan_varint_u(bytes: Seq<u8>, pos: int, shift: u64, acc: u64) -> Option<
    (u64, int),
>
    decreases bytes.len() - pos,
{
    if pos < 0 || pos >= bytes.len() || shift > 63 {
        None
    } else {
        let b = bytes[pos];
        if b & 0x80 == 0 {
            Some((acc | ((b as u64) << shift), pos + 1))
        } else if shift + 7 > 63 {
            None
        } else {
            spec_scan_varint_u(bytes, pos + 1, (shift + 7) as u64, acc | (((b & 0x7f) as u64) << shift))
        }
    }
}

/// Unsigned varint parse at `pos`: the decoded value and the position just
/// past its last byte, or `None` when the bytes run out or the encoding does
/// not terminate within ten bytes.
pub open spec fn spec_parse_varint_u(bytes: Seq<u8>, pos: int) -> Option<(u64, int)> {
    spec_scan_varint_u(bytes, pos, 0, 0)
}

/// Signed varint parse at `pos`: unsigned parse followed by the zig-zag unfold.
pub open spec fn spec_parse_varint(bytes: Seq<u8>, pos: int) -> Option<(i64, int)> {
    match spec_parse_varint_u(bytes, pos) {
        Some((u, end)) => Some((unzigzag(u), end)),
        None => None,
    }
}

proof fn lemma_scan_encoded(bytes: Seq<u8>, pos: int, shift: u64, acc: u64, u: u64)
    requires
        0 <= pos,
        pos + varint_bytes(u).len() <= bytes.len(),
        bytes.subrange(pos, pos + varint_bytes(u).len() as int) == varint_bytes(u),
        shift <= 63,
        shift % 7 == 0,
        shift == 63 ==> u < 2,
        shift < 63 ==> (u >> ((63 - shift) as u64)) >> 1 == 0,
    ensures
        spec_scan_varint_u(bytes, pos, shift, acc) == Some(
            (acc | (u << shift), pos + varint_bytes(u).len() as int),
        ),
    decreases u,
{
    lemma_varint_bytes_len(u);
    if u < 128 {
        assert(bytes[pos] == varint_bytes(u)[0]);
        assert(varint_bytes(u)[0] == u as u8);
        assert((u as u8) & 0x80 == 0 && ((u as u8) as u64) == u) by (bit_vector)
            requires
                u < 128,
        ;
    } else {
        assert(bytes[pos] == varint_bytes(u)[0]);
        assert(varint_bytes(u)[0] == ((u & 0x7f) | 0x80) as u8);
        assert((((u & 0x7f) | 0x80) as u8) & 0x80 != 0) by (bit_vector);
        // only one bit of room is left at shift 63, so no continuation byte fits there
        assert(shift <= 56) by (bit_vector)
            requires
                shift <= 63 && shift % 7 == 0 && (shift == 63 ==> u < 2) && u >= 128,
        ;
        let u2 = u >> 7;
        assert(u >> 7 < u) by (bit_vector)
            requires
                u >= 128,
        ;
        assert((shift + 7 < 63 ==> ((u >> 7) >> ((63 - (shift + 7)) as u64)) >> 1 == 0) && (shift
            + 7 == 63 ==> (u >> 7) < 2)) by (bit_vector)
            requires
                u >= 128 && shift <= 56 && shift % 7 == 0 && (u >> ((63 - shift) as u64)) >> 1
                    == 0,
        ;
        let tail = bytes.subrange(pos + 1, pos + 1 + varint_bytes(u2).len() as int);
        assert(varint_bytes(u) == seq![((u & 0x7f) | 0x80) as u8] + varint_bytes(u2));
        assert(tail =~= varint_bytes(u2)) by {
            assert forall|i: int| 0 <= i < varint_bytes(u2).len() implies tail[i] == varint_bytes(
                u2,
            )[i] by {
                assert(bytes[pos + 1 + i] == bytes.subrange(
                    pos,
                    pos + varint_bytes(u).len() as int,
                )[1 + i]);
            }
        }
        lemma_scan_encoded(
            bytes,
            pos + 1,
            (shift + 7) as u64,
            acc | ((((((u & 0x7f) | 0x80) as u8) & 0x7f) as u64) << shift),
            u2,
        );
        assert((acc | ((((((u & 0x7f) | 0x80) as u8) & 0x7f) as u64) << shift)) | ((u >> 7) << (
        (shift + 7) as u64)) == acc | (u << shift)) by (bit_vector)
            requires
                shift <= 56,
        ;
        assert(varint_bytes(u).len() == 1 + varint_bytes(u2).len());
    }
}

/// Parsing an encoded unsigned varint embedded at `pos` yields the original
/// value and stops exactly past its last byte.
pub proof fn lemma_parse_varint_u_encoded(bytes: Seq<u8>, pos: int, u: u64)
    requires
        0 <= pos,
        pos + varint_bytes(u).len() <= bytes.len(),
        bytes.subrange(pos, pos + varint_bytes(u).len() as int) == varint_bytes(u),
    ensures
        spec_parse_varint_u(bytes, pos) == Some((u, pos + varint_bytes(u).len() as int)),
{
    assert((u >> 63u64) >> 1 == 0) by (bit_vector);
    assert(u << 0u64 == u && 0u64 | u == u) by (bit_vector);
    lemma_scan_encoded(bytes, pos, 0, 0, u);
}

/// Round trip of the signed varint: what the writer lays down at `pos`, the
/// parser reads back unchanged.
pub proof fn lemma_varint_round_trip(bytes: Seq<u8>, pos: int, n: i64)
    requires
        0 <= pos,
        pos + spec_write_varint(n).len() <= bytes.len(),
        bytes.subrange(pos, pos + spec_write_varint(n).len() as int) == spec_write_varint(n),
    ensures
        spec_parse_varint(bytes, pos) == Some((n, pos + spec_write_varint(n).len() as int)),
{
    lemma_parse_varint_u_encoded(bytes, pos, zigzag(n));
    lemma_zigzag_round_trip(n);
}

} // verus!
