use vstd::prelude::*;
use crate::error::OrientResult;
use crate::varint::{spec_write_varint, zigzag, varint_bytes};
use crate::wire::{enc_bool, enc_bytes32, enc_i16, enc_i32, enc_i8, enc_str32, enc_varstr, fits_i32_len};
use vstd::utf8::encode_utf8;

verus! {

/// Growable byte buffer that messages are encoded into.  Its view is the
/// byte sequence written so far; every writer appends and reports exactly
/// what it appended.
pub struct OBuffer {
    inner: Vec<u8>,
}

impl View for OBuffer {
    type V = Seq<u8>;

    closed spec fn view(&self) -> Seq<u8> {
        self.inner@
    }
}

impl OBuffer {
    pub fn new() -> (r: OBuffer)
        ensures
            r@ == Seq::<u8>::empty(),
    {
        OBuffer { inner: Vec::new() }
    }

    pub fn as_slice(&self) -> (r: &[u8])
        ensures
            r@ == self@,
    {
        self.inner.as_slice()
    }

    pub fn put_i8(&mut self, n: i8) -> (r: OrientResult<()>)
        ensures
            r is Ok,
            final(self)@ == old(self)@ + enc_i8(n),
    {
        self.inner.push(n as u8);
        proof {
            assert(self.inner@ =~= old(self)@ + enc_i8(n));
        }
        Ok(())
    }

    pub fn put_u8(&mut self, n: u8) -> (r: OrientResult<()>)
        ensures
            r is Ok,
            final(self)@ == old(self)@ + seq![n],
    {
        self.inner.push(n);
        proof {
            assert(self.inner@ =~= old(self)@ + seq![n]);
        }
        Ok(())
    }

    pub fn put_i16(&mut self, n: i16) -> (r: OrientResult<()>)
        ensures
            r is Ok,
            final(self)@ == old(self)@ + enc_i16(n),
    {
        let u: u16 = n as u16;
        self.inner.push((u >> 8) as u8);
        self.inner.push(u as u8);
        proof {
            assert(self.inner@ =~= old(self)@ + enc_i16(n));
        }
        Ok(())
    }

    pub fn put_i32(&mut self, n: i32) -> (r: OrientResult<()>)
        ensures
            r is Ok,
            final(self)@ == old(self)@ + enc_i32(n),
    {
        let u: u32 = n as u32;
        self.inner.push((u >> 24) as u8);
        self.inner.push((u >> 16) as u8);
        self.inner.push((u >> 8) as u8);
        self.inner.push(u as u8);
        proof {
            assert(self.inner@ =~= old(self)@ + enc_i32(n));
        }
        Ok(())
    }

    pub fn put_slice(&mut self, src: &[u8]) -> (r: OrientResult<()>)
        ensures
            r is Ok,
            final(self)@ == old(self)@ + src@,
    {
        let ghost orig: Seq<u8> = self.inner@;
        proof {
            assert(self.inner@ =~= orig + src@.subrange(0, 0));
        }
        let mut i: usize = 0;
        while i < src.len()
            invariant
                i <= src@.len(),
                self.inner@ == orig + src@.subrange(0, i as int),
            decreases src@.len() - i,
        {
            self.inner.push(src[i]);
            i = i + 1;
            proof {
                assert(orig + src@.subrange(0, i - 1) + seq![src@[i - 1]] =~= orig
                    + src@.subrange(0, i as int));
            }
        }
        proof {
            assert(orig + src@.subrange(0, src@.len() as int) =~= orig + src@);
        }
        Ok(())
    }

    /// Text framed by an i32 byte-length prefix.
    pub fn write_str(&mut self, text: &str) -> (r: OrientResult<()>)
        requires
            fits_i32_len(encode_utf8(text@).len()),
        ensures
            r is Ok,
            final(self)@ == old(self)@ + enc_str32(text@),
    {
        let bytes = text.as_bytes();
        let size = bytes.len();
        self.put_i32(size as i32)?;
        self.put_slice(bytes)?;
        proof {
            assert(self.inner@ =~= old(self)@ + enc_str32(text@));
        }
        Ok(())
    }

    /// Raw bytes framed by an i32 length prefix.
    pub fn write_slice(&mut self, bytes: &[u8]) -> (r: OrientResult<()>)
        requires
            fits_i32_len(bytes@.len()),
        ensures
            r is Ok,
            final(self)@ == old(self)@ + enc_bytes32(bytes@),
    {
        let size = bytes.len();
        self.put_i32(size as i32)?;
        self.put_slice(bytes)?;
        proof {
            assert(self.inner@ =~= old(self)@ + enc_bytes32(bytes@));
        }
        Ok(())
    }

    /// Boolean as a single byte, 1 for true and 0 for false.
    pub fn write_bool(&mut self, boolean: bool) -> (r: OrientResult<()>)
        ensures
            r is Ok,
            final(self)@ == old(self)@ + enc_bool(boolean),
    {
        if boolean {
            self.put_i8(1)
        } else {
            self.put_i8(0)
        }
    }

    /// Signed value as a zig-zag varint.
    pub fn write_varint(&mut self, number: i64) -> (r: OrientResult<()>)
        ensures
            r is Ok,
            final(self)@ == old(self)@ + spec_write_varint(number),
    {
        let ghost orig: Seq<u8> = self.inner@;
        let mut real_value: u64 = ((number << 1) ^ (number >> 63)) as u64;
        let ghost u0: u64 = real_value;
        proof {
            assert(u0 == zigzag(number));
            assert(varint_bytes(u0) == Seq::<u8>::empty() + varint_bytes(real_value)) by {
                assert(Seq::<u8>::empty() + varint_bytes(real_value) =~= varint_bytes(
                    real_value,
                ));
            }
        }
        let ghost mut written: Seq<u8> = Seq::empty();
        while real_value & 0xFFFF_FFFF_FFFF_FF80 != 0
            invariant
                self.inner@ == orig + written,
                varint_bytes(u0) == written + varint_bytes(real_value),
            decreases real_value,
        {
            assert(real_value >= 128) by (bit_vector)
                requires
                    real_value & 0xFFFF_FFFF_FFFF_FF80 != 0,
            ;
            self.inner.push(((real_value & 0x7F) | 0x80) as u8);
            proof {
                let rv = real_value;
                assert(varint_bytes(rv) == seq![((rv & 0x7f) | 0x80) as u8] + varint_bytes(
                    rv >> 7,
                ));
                assert(written + varint_bytes(rv) =~= (written + seq![((rv & 0x7f) | 0x80) as u8])
                    + varint_bytes(rv >> 7));
                assert(rv >> 7 < rv) by (bit_vector)
                    requires
                        rv >= 128,
                ;
                assert(self.inner@ =~= orig + (written + seq![((rv & 0x7f) | 0x80) as u8]));
            }
            proof {
                written = written + seq![((real_value & 0x7f) | 0x80) as u8];
            }
            real_value >>= 7;
        }
        assert(real_value < 128) by (bit_vector)
            requires
                real_value & 0xFFFF_FFFF_FFFF_FF80 == 0,
        ;
        self.inner.push((real_value & 0x7F) as u8);
        proof {
            let rv = real_value;
            assert((rv & 0x7f) as u8 == rv as u8) by (bit_vector)
                requires
                    rv < 128,
            ;
            assert(varint_bytes(rv) == seq![rv as u8]);
            assert(self.inner@ =~= orig + spec_write_varint(number));
        }
        Ok(())
    }

    /// Text framed by a varint byte-length prefix, as inside documents.
    pub fn write_string(&mut self, val: &str) -> (r: OrientResult<()>)
        requires
            fits_i32_len(encode_utf8(val@).len()),
        ensures
            r is Ok,
            final(self)@ == old(self)@ + enc_varstr(val@),
    {
        let bytes = val.as_bytes();
        self.write_varint(bytes.len() as i64)?;
        self.put_slice(bytes)?;
        proof {
            assert(self.inner@ =~= old(self)@ + enc_varstr(val@));
        }
        Ok(())
    }
}

} // verus!
