//! A sequential reader over bytes in memory, with the primitive fields of
//! the wire format.

use crate::types::{Error, MULTIPLIER};
use crate::wire::{
    digits_value, length_size, spec_be_u16, spec_bounded, spec_bytes,
    spec_remaining_length, spec_string, spec_u16, spec_u8, weight,
};
use byteorder::{BigEndian, ByteOrder};
use vstd::prelude::*;
use vstd::slice::{slice_subrange, slice_to_vec};
use vstd::utf8::{decode_utf8, valid_utf8};

verus! {

/// Calls `byteorder::BigEndian::read_u16`, which reads the first two bytes
/// of the slice as a big-endian number and panics on a shorter slice.
#[verifier::external_body]
fn be_u16(bytes: &[u8]) -> (r: u16)
    requires
        bytes@.len() >= 2,
    ensures
        r == spec_be_u16(bytes@[0], bytes@[1]),
{
    BigEndian::read_u16(bytes)
}

/// Calls `String::from_utf8`, which gives the text that the bytes encode
/// exactly when they are valid UTF-8.
#[verifier::external_body]
fn utf8_text(bytes: Vec<u8>) -> (r: Option<String>)
    ensures
        match r {
            Some(text) => valid_utf8(bytes@) && text@ == decode_utf8(bytes@),
            None => !valid_utf8(bytes@),
        },
{
    match String::from_utf8(bytes) {
        Ok(text) => Some(text),
        Err(_) => None,
    }
}

/// Bytes with a reading position.
pub struct ByteSource {
    data: Vec<u8>,
    pos: usize,
}

impl ByteSource {
    /// All bytes of the source, read or not.
    pub closed spec fn bytes(&self) -> Seq<u8> {
        self.data@
    }

    /// The index of the next byte to read.
    pub closed spec fn position(&self) -> int {
        self.pos as int
    }

    /// The position lies within the bytes.
    pub closed spec fn wf(&self) -> bool {
        self.pos <= self.data@.len()
    }

    /// The bytes not read yet.
    pub open spec fn remaining(&self) -> Seq<u8>
        recommends
            self.wf(),
    {
        self.bytes().skip(self.position())
    }

    /// The source moved on to `at`, over the same bytes.
    pub open spec fn advanced_to(&self, before: &ByteSource, at: int) -> bool {
        &&& self.wf()
        &&& self.bytes() == before.bytes()
        &&& self.position() == at
    }

    /// A source over `data`, positioned at its start.
    pub fn new(data: Vec<u8>) -> (r: ByteSource)
        ensures
            r.wf(),
            r.bytes() == data@,
            r.position() == 0,
    {
        ByteSource { data, pos: 0 }
    }

    /// The index of the next byte to read.
    pub fn pos(&self) -> (r: usize)
        requires
            self.wf(),
        ensures
            r == self.position(),
            r <= self.bytes().len(),
    {
        self.pos
    }

    /// The number of bytes in the source, read or not.
    pub fn len(&self) -> (r: usize)
        ensures
            r == self.bytes().len(),
    {
        self.data.len()
    }

    /// Moves the position to `at`.
    pub fn seek(&mut self, at: usize)
        requires
            at <= old(self).bytes().len(),
        ensures
            final(self).advanced_to(old(self), at as int),
    {
        self.pos = at;
    }

    /// Appends bytes that have arrived.
    pub fn extend(&mut self, more: &[u8])
        requires
            old(self).wf(),
        ensures
            final(self).wf(),
            final(self).bytes() == old(self).bytes() + more@,
            final(self).position() == old(self).position(),
    {
        self.data.extend_from_slice(more);
    }

    /// The byte at `at`, and the index behind it.
    pub fn u8_at(&self, at: usize) -> (r: Result<(u8, usize), Error>)
        ensures
            match spec_u8(self.bytes(), at as int) {
                Ok((v, end)) => r.is_ok() && r.unwrap().0 == v && r.unwrap().1 == end,
                Err(e) => r == Err::<(u8, usize), Error>(e),
            },
    {
        if at < self.data.len() {
            Ok((self.data[at], at + 1))
        } else {
            Err(Error::Io)
        }
    }

    /// The big-endian 16-bit number at `at`, and the index behind it.
    pub fn u16_at(&self, at: usize) -> (r: Result<(u16, usize), Error>)
        ensures
            match spec_u16(self.bytes(), at as int) {
                Ok((v, end)) => r.is_ok() && r.unwrap().0 == v && r.unwrap().1 == end,
                Err(e) => r == Err::<(u16, usize), Error>(e),
            },
    {
        if at <= self.data.len() && self.data.len() - at >= 2 {
            let pair = slice_subrange(self.data.as_slice(), at, at + 2);
            Ok((be_u16(pair), at + 2))
        } else {
            Err(Error::Io)
        }
    }

    /// A copy of the `len` bytes from `at`, and the index behind them.
    pub fn bytes_at(&self, at: usize, len: usize) -> (r: Result<(Vec<u8>, usize), Error>)
        ensures
            match spec_bytes(self.bytes(), at as int, len as int) {
                Ok((v, end)) => r.is_ok() && r.unwrap().0@ == v && r.unwrap().1 == end,
                Err(e) => r == Err::<(Vec<u8>, usize), Error>(e),
            },
    {
        if at <= self.data.len() && self.data.len() - at >= len {
            let part = slice_subrange(self.data.as_slice(), at, at + len);
            Ok((slice_to_vec(part), at + len))
        } else {
            Err(Error::Io)
        }
    }

    /// The text field at `at`, and the index behind it.
    pub fn string_at(&self, at: usize) -> (r: Result<(String, usize), Error>)
        ensures
            match spec_string(self.bytes(), at as int) {
                Ok((v, end)) => r.is_ok() && r.unwrap().0@ == v && r.unwrap().1 == end,
                Err(e) => r == Err::<(String, usize), Error>(e),
            },
    {
        let (len, start) = self.u16_at(at)?;
        let (raw, end) = self.bytes_at(start, len as usize)?;
        match utf8_text(raw) {
            Some(text) => Ok((text, end)),
            None => Err(Error::Utf8),
        }
    }

    /// The remaining length at `at`, and the index behind it.
    pub fn remaining_length_at(&self, at: usize) -> (r: Result<(usize, usize), Error>)
        ensures
            match spec_remaining_length(self.bytes(), at as int) {
                Ok((v, end)) => r.is_ok() && r.unwrap().0 == v && r.unwrap().1 == end && end
                    <= self.bytes().len() && v < MULTIPLIER,
                Err(e) => r == Err::<(usize, usize), Error>(e),
            },
    {
        if at >= self.data.len() {
            return Err(Error::Io);
        }
        let mut mult: usize = 1;
        let mut len: usize = 0;
        let mut i: usize = 0;
        while i < 4
            invariant
                i <= 4,
                at < self.data@.len(),
                mult == weight(i as nat),
                i == 0 ==> mult == 1,
                i == 1 ==> mult == 128,
                i == 2 ==> mult == 16_384,
                i == 3 ==> mult == 2_097_152,
                i == 4 ==> mult == 268_435_456,
                len == digits_value(self.data@, at as int, i as nat),
                len < mult,
                length_size(self.data@, at as int, 0) == length_size(
                    self.data@,
                    at as int,
                    i as nat,
                ),
            decreases 4 - i,
        {
            if i >= self.data.len() - at {
                return Err(Error::Io);
            }
            let byte = self.data[at + i];
            let low: usize = (byte & 0x7f) as usize;
            assert(low <= 127) by (bit_vector)
                requires
                    low == (byte & 0x7f) as usize,
            ;
            assert(low * mult <= 127 * mult) by (nonlinear_arith)
                requires
                    low <= 127,
            ;
            len = len + low * mult;
            if (byte & 0x80) == 0 {
                return Ok((len, at + i + 1));
            }
            mult = mult * 0x80;
            i = i + 1;
        }
        Err(Error::MalformedRemainingLength)
    }

    /// Reads one byte.
    pub fn read_u8(&mut self) -> (r: Result<u8, Error>)
        requires
            old(self).wf(),
        ensures
            match spec_u8(old(self).bytes(), old(self).position()) {
                Ok((v, end)) => r == Ok::<u8, Error>(v) && final(self).advanced_to(old(self), end),
                Err(e) => r == Err::<u8, Error>(e) && *final(self) == *old(self),
            },
    {
        let (v, end) = self.u8_at(self.pos)?;
        self.pos = end;
        Ok(v)
    }

    /// Reads a big-endian 16-bit number.
    pub fn read_u16(&mut self) -> (r: Result<u16, Error>)
        requires
            old(self).wf(),
        ensures
            match spec_u16(old(self).bytes(), old(self).position()) {
                Ok((v, end)) => r == Ok::<u16, Error>(v) && final(self).advanced_to(old(self), end),
                Err(e) => r == Err::<u16, Error>(e) && *final(self) == *old(self),
            },
    {
        let (v, end) = self.u16_at(self.pos)?;
        self.pos = end;
        Ok(v)
    }

    /// Reads exactly `len` bytes.
    pub fn read_payload(&mut self, len: usize) -> (r: Result<Box<Vec<u8>>, Error>)
        requires
            old(self).wf(),
        ensures
            match spec_bytes(old(self).bytes(), old(self).position(), len as int) {
                Ok((v, end)) => r.is_ok() && r.unwrap()@ == v && final(self).advanced_to(
                    old(self),
                    end,
                ),
                Err(e) => r == Err::<Box<Vec<u8>>, Error>(e) && *final(self) == *old(self),
            },
    {
        let (v, end) = self.bytes_at(self.pos, len)?;
        self.pos = end;
        Ok(Box::new(v))
    }

    /// Reads a text field.
    pub fn read_mqtt_string(&mut self) -> (r: Result<String, Error>)
        requires
            old(self).wf(),
        ensures
            match spec_string(old(self).bytes(), old(self).position()) {
                Ok((v, end)) => r.is_ok() && r.unwrap()@ == v && final(self).advanced_to(
                    old(self),
                    end,
                ),
                Err(e) => r == Err::<String, Error>(e) && *final(self) == *old(self),
            },
    {
        let (v, end) = self.string_at(self.pos)?;
        self.pos = end;
        Ok(v)
    }

    /// Reads a remaining length.
    pub fn read_remaining_length(&mut self) -> (r: Result<usize, Error>)
        requires
            old(self).wf(),
        ensures
            match spec_remaining_length(old(self).bytes(), old(self).position()) {
                Ok((v, end)) => r.is_ok() && r.unwrap() == v && v < MULTIPLIER
                    && final(self).advanced_to(old(self), end),
                Err(e) => r == Err::<usize, Error>(e) && *final(self) == *old(self),
            },
    {
        let (v, end) = self.remaining_length_at(self.pos)?;
        self.pos = end;
        Ok(v)
    }

    /// A source of its own over the `len` bytes from `at`, or over all from
    /// `at` on where they are fewer.
    pub fn bounded_at(&self, at: usize, len: usize) -> (r: ByteSource)
        requires
            at <= self.bytes().len(),
        ensures
            r.wf(),
            r.position() == 0,
            r.bytes() == spec_bounded(self.bytes(), at as int, len as int),
            r.bytes().len() <= len,
            r.bytes().len() <= self.bytes().len() - at,
    {
        let left = self.data.len() - at;
        let n = if len <= left { len } else { left };
        let part = slice_subrange(self.data.as_slice(), at, at + n);
        ByteSource { data: slice_to_vec(part), pos: 0 }
    }

    /// A source of its own over the next `len` bytes, or over all that are
    /// left where they are fewer; this source moves past them.
    pub fn take(&mut self, len: usize) -> (r: ByteSource)
        requires
            old(self).wf(),
        ensures
            r.wf(),
            r.position() == 0,
            r.bytes() == spec_bounded(old(self).bytes(), old(self).position(), len as int),
            final(self).advanced_to(old(self), old(self).position() + r.bytes().len()),
    {
        let r = self.bounded_at(self.pos, len);
        let n = r.data.len();
        assert(self.pos + n <= self.data.len());
        self.pos = self.pos + n;
        r
    }
}

} // verus!
