use vstd::prelude::*;
use vstd::slice::slice_subrange;
use crate::error::DecodeError;
use crate::field::{decode_u16, decode_u32, fits, in_bounds, overwrite, u16_at, u32_at, write_bytes, Endian};

verus! {

/// `span` with `part` put in place of its `len` bytes from `start` on.
pub open spec fn splice(span: Seq<u8>, start: int, len: int, part: Seq<u8>) -> Seq<u8> {
    span.subrange(0, start) + part + span.subrange(start + len, span.len() as int)
}

/// Whether the bytes from `start` to `end`, both included, lie inside a span
/// of `len` bytes. An empty range, with `start` just past `end`, counts.
pub open spec fn range_in_bounds(len: nat, start: int, end: int) -> bool {
    0 <= start <= end + 1 && end < len
}

/// Bounds-checked access to the bytes of a buffer.
pub trait SliceUtils {
    /// The bytes that the buffer holds.
    spec fn bytes(&self) -> Seq<u8>;

    /// Writes `data` over the buffer from `offset` on, or reports that it
    /// does not fit and changes nothing.
    fn write_into(&mut self, data: &[u8], offset: usize) -> (r: Result<(), DecodeError>)
        ensures
            in_bounds(old(self).bytes().len(), offset as int, data@.len() as int) ==> r is Ok
                && final(self).bytes() == overwrite(old(self).bytes(), offset as int, data@),
            !in_bounds(old(self).bytes().len(), offset as int, data@.len() as int) ==> r == Err::<
                (),
                DecodeError,
            >(DecodeError::Bounds) && final(self).bytes() == old(self).bytes(),
    ;

    /// Lends the bytes from `start` to `end`, both included, for writing.
    /// What is written through the loan replaces those bytes and no others.
    fn get_mutable_slice(&mut self, start: usize, end: usize) -> (r: Result<&mut [u8], DecodeError>)
        ensures
            range_in_bounds(old(self).bytes().len(), start as int, end as int) ==> r is Ok
                && r->Ok_0@ == old(self).bytes().subrange(start as int, end + 1) && final(self).bytes() == splice(old(self).bytes(), start as int, end + 1 - start, final(r->Ok_0)@),
            !range_in_bounds(old(self).bytes().len(), start as int, end as int) ==> r is Err
                && r->Err_0 == DecodeError::Bounds && final(self).bytes() == old(self).bytes(),
    ;

    /// Lends the `byte_quantity` bytes that start at `offset` for reading.
    fn get_offset(&self, offset: usize, byte_quantity: usize) -> (r: Result<&[u8], DecodeError>)
        ensures
            in_bounds(self.bytes().len(), offset as int, byte_quantity as int) ==> r is Ok
                && r->Ok_0@ == self.bytes().subrange(offset as int, offset + byte_quantity),
            !in_bounds(self.bytes().len(), offset as int, byte_quantity as int) ==> r == Err::<
                &[u8],
                DecodeError,
            >(DecodeError::Bounds),
    ;

    /// Lends the `byte_quantity` bytes that start at `offset` for writing.
    /// What is written through the loan replaces those bytes and no others.
    fn get_mutable_offset(&mut self, offset: usize, byte_quantity: usize) -> (r: Result<
        &mut [u8],
        DecodeError,
    >)
        ensures
            in_bounds(old(self).bytes().len(), offset as int, byte_quantity as int) ==> r is Ok
                && r->Ok_0@ == old(self).bytes().subrange(offset as int, offset + byte_quantity)
                && final(self).bytes() == splice(
                old(self).bytes(),
                offset as int,
                byte_quantity as int,
                final(r->Ok_0)@,
            ),
            !in_bounds(old(self).bytes().len(), offset as int, byte_quantity as int) ==> r is Err
                && r->Err_0 == DecodeError::Bounds && final(self).bytes() == old(self).bytes(),
    ;

    /// Reads the first two bytes as a little-endian integer.
    fn get_u16_le(&self) -> (r: Result<u16, DecodeError>)
        ensures
            self.bytes().len() >= 2 ==> r == Ok::<u16, DecodeError>(
                u16_at(self.bytes(), 0, Endian::Little),
            ),
            self.bytes().len() < 2 ==> r == Err::<u16, DecodeError>(DecodeError::Bounds),
    ;

    /// Reads the first four bytes as a little-endian integer.
    fn get_u32_le(&self) -> (r: Result<u32, DecodeError>)
        ensures
            self.bytes().len() >= 4 ==> r == Ok::<u32, DecodeError>(
                u32_at(self.bytes(), 0, Endian::Little),
            ),
            self.bytes().len() < 4 ==> r == Err::<u32, DecodeError>(DecodeError::Bounds),
    ;

    /// Reads the two bytes at `offset` as a little-endian integer.
    fn get_u16_le_offset(&self, offset: usize) -> (r: Result<u16, DecodeError>)
        ensures
            in_bounds(self.bytes().len(), offset as int, 2) ==> r == Ok::<u16, DecodeError>(
                u16_at(self.bytes(), offset as int, Endian::Little),
            ),
            !in_bounds(self.bytes().len(), offset as int, 2) ==> r == Err::<u16, DecodeError>(
                DecodeError::Bounds,
            ),
    ;

    /// Reads the four bytes at `offset` as a little-endian integer.
    fn get_u32_le_offset(&self, offset: usize) -> (r: Result<u32, DecodeError>)
        ensures
            in_bounds(self.bytes().len(), offset as int, 4) ==> r == Ok::<u32, DecodeError>(
                u32_at(self.bytes(), offset as int, Endian::Little),
            ),
            !in_bounds(self.bytes().len(), offset as int, 4) ==> r == Err::<u32, DecodeError>(
                DecodeError::Bounds,
            ),
    ;
}

/// Lends the `len` bytes of `span` that start at `start` for writing, or
/// reports that they do not fit.
pub fn offset_mut(span: &mut [u8], start: usize, len: usize) -> (r: Result<&mut [u8], DecodeError>)
    ensures
        in_bounds(old(span)@.len(), start as int, len as int) ==> r is Ok && r->Ok_0@ == old(span)@.subrange(start as int, start + len) && final(span)@ == splice(
            old(span)@,
            start as int,
            len as int,
            final(r->Ok_0)@,
        ),
        !in_bounds(old(span)@.len(), start as int, len as int) ==> r is Err && r->Err_0
            == DecodeError::Bounds && final(span)@ == old(span)@,
{
    if !fits(span.len(), start, len) {
        return Err(DecodeError::Bounds);
    }
    let (head, rest) = span.split_at_mut(start);
    let (part, tail) = rest.split_at_mut(len);
    assert(part@ =~= old(span)@.subrange(start as int, start + len));
    assert(tail@ =~= old(span)@.subrange(start + len, old(span)@.len() as int));
    Ok(part)
}

/// Lends the bytes of `span` from `start` to `end`, both included, for
/// writing, or reports that they do not fit.
pub fn range_mut(span: &mut [u8], start: usize, end: usize) -> (r: Result<&mut [u8], DecodeError>)
    ensures
        range_in_bounds(old(span)@.len(), start as int, end as int) ==> r is Ok && r->Ok_0@
            == old(span)@.subrange(start as int, end + 1) && final(span)@ == splice(
            old(span)@,
            start as int,
            end + 1 - start,
            final(r->Ok_0)@,
        ),
        !range_in_bounds(old(span)@.len(), start as int, end as int) ==> r is Err && r->Err_0
            == DecodeError::Bounds && final(span)@ == old(span)@,
{
    if end >= span.len() || start > end + 1 {
        return Err(DecodeError::Bounds);
    }
    offset_mut(span, start, end + 1 - start)
}

/// Lends the `len` bytes of `span` that start at `start` for reading, or
/// reports that they do not fit.
pub fn offset_ref(span: &[u8], start: usize, len: usize) -> (r: Result<&[u8], DecodeError>)
    ensures
        in_bounds(span@.len(), start as int, len as int) ==> r is Ok && r->Ok_0@
            == span@.subrange(start as int, start + len),
        !in_bounds(span@.len(), start as int, len as int) ==> r == Err::<&[u8], DecodeError>(
            DecodeError::Bounds,
        ),
{
    if !fits(span.len(), start, len) {
        return Err(DecodeError::Bounds);
    }
    Ok(slice_subrange(span, start, start + len))
}

impl SliceUtils for [u8] {
    open spec fn bytes(&self) -> Seq<u8> {
        self@
    }

    fn write_into(&mut self, data: &[u8], offset: usize) -> (r: Result<(), DecodeError>) {
        write_bytes(self, data, offset)
    }

    fn get_mutable_slice(&mut self, start: usize, end: usize) -> (r: Result<
        &mut [u8],
        DecodeError,
    >) {
        range_mut(self, start, end)
    }

    fn get_offset(&self, offset: usize, byte_quantity: usize) -> (r: Result<&[u8], DecodeError>) {
        offset_ref(self, offset, byte_quantity)
    }

    fn get_mutable_offset(&mut self, offset: usize, byte_quantity: usize) -> (r: Result<
        &mut [u8],
        DecodeError,
    >) {
        offset_mut(self, offset, byte_quantity)
    }

    fn get_u16_le(&self) -> (r: Result<u16, DecodeError>) {
        decode_u16(self, 0, Endian::Little)
    }

    fn get_u32_le(&self) -> (r: Result<u32, DecodeError>) {
        decode_u32(self, 0, Endian::Little)
    }

    fn get_u16_le_offset(&self, offset: usize) -> (r: Result<u16, DecodeError>) {
        decode_u16(self, offset, Endian::Little)
    }

    fn get_u32_le_offset(&self, offset: usize) -> (r: Result<u32, DecodeError>) {
        decode_u32(self, offset, Endian::Little)
    }
}

impl SliceUtils for Vec<u8> {
    open spec fn bytes(&self) -> Seq<u8> {
        self@
    }

    fn write_into(&mut self, data: &[u8], offset: usize) -> (r: Result<(), DecodeError>) {
        write_bytes(self.as_mut_slice(), data, offset)
    }

    fn get_mutable_slice(&mut self, start: usize, end: usize) -> (r: Result<
        &mut [u8],
        DecodeError,
    >) {
        range_mut(self.as_mut_slice(), start, end)
    }

    fn get_offset(&self, offset: usize, byte_quantity: usize) -> (r: Result<&[u8], DecodeError>) {
        offset_ref(self.as_slice(), offset, byte_quantity)
    }

    fn get_mutable_offset(&mut self, offset: usize, byte_quantity: usize) -> (r: Result<
        &mut [u8],
        DecodeError,
    >) {
        offset_mut(self.as_mut_slice(), offset, byte_quantity)
    }

    fn get_u16_le(&self) -> (r: Result<u16, DecodeError>) {
        decode_u16(self.as_slice(), 0, Endian::Little)
    }

    fn get_u32_le(&self) -> (r: Result<u32, DecodeError>) {
        decode_u32(self.as_slice(), 0, Endian::Little)
    }

    fn get_u16_le_offset(&self, offset: usize) -> (r: Result<u16, DecodeError>) {
        decode_u16(self.as_slice(), offset, Endian::Little)
    }

    fn get_u32_le_offset(&self, offset: usize) -> (r: Result<u32, DecodeError>) {
        decode_u32(self.as_slice(), offset, Endian::Little)
    }
}

impl<const K: usize> SliceUtils for [u8; K] {
    open spec fn bytes(&self) -> Seq<u8> {
        self@
    }

    fn write_into(&mut self, data: &[u8], offset: usize) -> (r: Result<(), DecodeError>) {
        write_bytes(self, data, offset)
    }

    fn get_mutable_slice(&mut self, start: usize, end: usize) -> (r: Result<
        &mut [u8],
        DecodeError,
    >) {
        range_mut(self, start, end)
    }

    fn get_offset(&self, offset: usize, byte_quantity: usize) -> (r: Result<&[u8], DecodeError>) {
        offset_ref(self.as_slice(), offset, byte_quantity)
    }

    fn get_mutable_offset(&mut self, offset: usize, byte_quantity: usize) -> (r: Result<
        &mut [u8],
        DecodeError,
    >) {
        offset_mut(self, offset, byte_quantity)
    }

    fn get_u16_le(&self) -> (r: Result<u16, DecodeError>) {
        decode_u16(self.as_slice(), 0, Endian::Little)
    }

    fn get_u32_le(&self) -> (r: Result<u32, DecodeError>) {
        decode_u32(self.as_slice(), 0, Endian::Little)
    }

    fn get_u16_le_offset(&self, offset: usize) -> (r: Result<u16, DecodeError>) {
        decode_u16(self.as_slice(), offset, Endian::Little)
    }

    fn get_u32_le_offset(&self, offset: usize) -> (r: Result<u32, DecodeError>) {
        decode_u32(self.as_slice(), offset, Endian::Little)
    }
}

} // verus!
