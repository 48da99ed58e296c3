use vstd::prelude::*;
use crate::error::DecodeError;

verus! {

/// Byte order of an integer field.
#[derive(Clone, Copy, Debug, PartialEq, Eq, Structural)]
pub enum Endian {
    Little,
    Big,
}

/// Whether a field of `width` bytes at `offset` lies inside a span of `len` bytes.
pub open spec fn in_bounds(len: nat, offset: int, width: int) -> bool {
    0 <= offset && 0 <= width && offset + width <= len
}

/// The 16-bit value of two bytes, least significant first.
pub open spec fn le16(b0: u8, b1: u8) -> u16 {
    (b0 as int + 0x100 * (b1 as int)) as u16
}

/// The 32-bit value of four bytes, least significant first.
pub open spec fn le32(b0: u8, b1: u8, b2: u8, b3: u8) -> u32 {
    (b0 as int + 0x100 * (b1 as int) + 0x1_0000 * (b2 as int) + 0x100_0000 * (b3 as int)) as u32
}

/// The 16-bit integer stored at `offset` in `span` with byte order `endian`.
pub open spec fn u16_at(span: Seq<u8>, offset: int, endian: Endian) -> u16 {
    match endian {
        Endian::Little => le16(span[offset], span[offset + 1]),
        Endian::Big => le16(span[offset + 1], span[offset]),
    }
}

/// The 32-bit integer stored at `offset` in `span` with byte order `endian`.
pub open spec fn u32_at(span: Seq<u8>, offset: int, endian: Endian) -> u32 {
    match endian {
        Endian::Little => le32(span[offset], span[offset + 1], span[offset + 2], span[offset + 3]),
        Endian::Big => le32(span[offset + 3], span[offset + 2], span[offset + 1], span[offset]),
    }
}

/// Byte `k` (0 is least significant) of `value`.
pub open spec fn byte_of(value: int, k: int) -> u8 {
    if k == 0 {
        (value % 0x100) as u8
    } else if k == 1 {
        ((value / 0x100) % 0x100) as u8
    } else if k == 2 {
        ((value / 0x1_0000) % 0x100) as u8
    } else {
        ((value / 0x100_0000) % 0x100) as u8
    }
}

/// The two bytes that store `value` with byte order `endian`.
pub open spec fn u16_bytes(value: u16, endian: Endian) -> Seq<u8> {
    match endian {
        Endian::Little => seq![byte_of(value as int, 0), byte_of(value as int, 1)],
        Endian::Big => seq![byte_of(value as int, 1), byte_of(value as int, 0)],
    }
}

/// The four bytes that store `value` with byte order `endian`.
pub open spec fn u32_bytes(value: u32, endian: Endian) -> Seq<u8> {
    match endian {
        Endian::Little => seq![
            byte_of(value as int, 0),
            byte_of(value as int, 1),
            byte_of(value as int, 2),
            byte_of(value as int, 3),
        ],
        Endian::Big => seq![
            byte_of(value as int, 3),
            byte_of(value as int, 2),
            byte_of(value as int, 1),
            byte_of(value as int, 0),
        ],
    }
}

/// `span` with the bytes of `data` written over it from `offset` on.
pub open spec fn overwrite(span: Seq<u8>, offset: int, data: Seq<u8>) -> Seq<u8> {
    Seq::new(
        span.len(),
        |i: int| if offset <= i < offset + data.len() { data[i - offset] } else { span[i] },
    )
}

/// Whether a field of `width` bytes at `offset` fits in a span of `len` bytes,
/// computed without overflow.
pub fn fits(len: usize, offset: usize, width: usize) -> (ok: bool)
    ensures
        ok == in_bounds(len as nat, offset as int, width as int),
{
    width <= len && offset <= len - width
}

/// Joins two bytes into a 16-bit integer, `low` being the less significant.
pub fn join_u16(low: u8, high: u8) -> (value: u16)
    ensures
        value == le16(low, high),
{
    assert((low as u16) | ((high as u16) << 8) == (low as u16) + 0x100 * (high as u16))
        by (bit_vector);
    (low as u16) | ((high as u16) << 8)
}

/// Joins four bytes into a 32-bit integer, `b0` being the least significant.
pub fn join_u32(b0: u8, b1: u8, b2: u8, b3: u8) -> (value: u32)
    ensures
        value == le32(b0, b1, b2, b3),
{
    assert((b0 as u32) | ((b1 as u32) << 8) | ((b2 as u32) << 16) | ((b3 as u32) << 24) == (
    b0 as u32) + 0x100 * (b1 as u32) + 0x1_0000 * (b2 as u32) + 0x100_0000 * (b3 as u32))
        by (bit_vector);
    (b0 as u32) | ((b1 as u32) << 8) | ((b2 as u32) << 16) | ((b3 as u32) << 24)
}

/// Reads the 16-bit integer at `offset` in `span`, or reports that it does
/// not fit.
pub fn decode_u16(span: &[u8], offset: usize, endian: Endian) -> (r: Result<u16, DecodeError>)
    ensures
        in_bounds(span@.len(), offset as int, 2) ==> r == Ok::<u16, DecodeError>(
            u16_at(span@, offset as int, endian),
        ),
        !in_bounds(span@.len(), offset as int, 2) ==> r == Err::<u16, DecodeError>(
            DecodeError::Bounds,
        ),
{
    if !fits(span.len(), offset, 2) {
        return Err(DecodeError::Bounds);
    }
    let first: u8 = span[offset];
    let second: u8 = span[offset + 1];
    let (low, high) = match endian {
        Endian::Little => (first, second),
        Endian::Big => (second, first),
    };
    Ok(join_u16(low, high))
}

/// Reads the 32-bit integer at `offset` in `span`, or reports that it does
/// not fit.
pub fn decode_u32(span: &[u8], offset: usize, endian: Endian) -> (r: Result<u32, DecodeError>)
    ensures
        in_bounds(span@.len(), offset as int, 4) ==> r == Ok::<u32, DecodeError>(
            u32_at(span@, offset as int, endian),
        ),
        !in_bounds(span@.len(), offset as int, 4) ==> r == Err::<u32, DecodeError>(
            DecodeError::Bounds,
        ),
{
    if !fits(span.len(), offset, 4) {
        return Err(DecodeError::Bounds);
    }
    let first: u8 = span[offset];
    let second: u8 = span[offset + 1];
    let third: u8 = span[offset + 2];
    let fourth: u8 = span[offset + 3];
    let (b0, b1, b2, b3) = match endian {
        Endian::Little => (first, second, third, fourth),
        Endian::Big => (fourth, third, second, first),
    };
    Ok(join_u32(b0, b1, b2, b3))
}

/// Copies the `N` bytes that start at `offset` out of `span`, or reports that
/// they do not fit.
pub fn read_bytes<const N: usize>(span: &[u8], offset: usize) -> (r: Result<[u8; N], DecodeError>)
    ensures
        in_bounds(span@.len(), offset as int, N as int) ==> r is Ok && r->Ok_0@
            == span@.subrange(offset as int, offset + N),
        !in_bounds(span@.len(), offset as int, N as int) ==> r == Err::<[u8; N], DecodeError>(
            DecodeError::Bounds,
        ),
{
    if !fits(span.len(), offset, N) {
        return Err(DecodeError::Bounds);
    }
    let mut out: [u8; N] = [0u8; N];
    let mut i: usize = 0;
    while i < N
        invariant
            i <= N,
            offset + N <= span@.len() <= usize::MAX,
            forall|j: int| 0 <= j < i ==> out@[j] == span@[offset + j],
        decreases N - i,
    {
        out[i] = span[offset + i];
        i += 1;
    }
    assert(out@ =~= span@.subrange(offset as int, offset + N));
    Ok(out)
}

/// Writes `data` over `span` from `offset` on, or reports that it does not
/// fit and leaves `span` as it was.
pub fn write_bytes(span: &mut [u8], data: &[u8], offset: usize) -> (r: Result<(), DecodeError>)
    ensures
        in_bounds(old(span)@.len(), offset as int, data@.len() as int) ==> r is Ok && final(span)@
            == overwrite(old(span)@, offset as int, data@),
        !in_bounds(old(span)@.len(), offset as int, data@.len() as int) ==> r == Err::<
            (),
            DecodeError,
        >(DecodeError::Bounds) && final(span)@ == old(span)@,
{
    if !fits(span.len(), offset, data.len()) {
        return Err(DecodeError::Bounds);
    }
    let n: usize = data.len();
    let mut i: usize = 0;
    while i < n
        invariant
            i <= n,
            n == data@.len(),
            span@.len() == old(span)@.len(),
            offset + n <= span@.len() <= usize::MAX,
            forall|j: int| 0 <= j < span@.len() ==> span@[j] == if offset <= j < offset + i {
                data@[j - offset]
            } else {
                old(span)@[j]
            },
        decreases n - i,
    {
        span[offset + i] = data[i];
        i += 1;
    }
    assert(span@ =~= overwrite(old(span)@, offset as int, data@));
    Ok(())
}

proof fn lemma_u16_split(value: u16)
    ensures
        (value & 0xff) as u8 == byte_of(value as int, 0),
        (value >> 8) as u8 == byte_of(value as int, 1),
        le16(byte_of(value as int, 0), byte_of(value as int, 1)) == value,
{
    assert((value & 0xff) == value % 0x100 && (value >> 8) == (value / 0x100) % 0x100 && (value
        & 0xff) < 0x100 && (value >> 8) < 0x100 && (value % 0x100) + 0x100 * ((value / 0x100)
        % 0x100) == value) by (bit_vector);
}

proof fn lemma_u32_split(value: u32)
    ensures
        (value & 0xff) as u8 == byte_of(value as int, 0),
        ((value >> 8) & 0xff) as u8 == byte_of(value as int, 1),
        ((value >> 16) & 0xff) as u8 == byte_of(value as int, 2),
        (value >> 24) as u8 == byte_of(value as int, 3),
        le32(
            byte_of(value as int, 0),
            byte_of(value as int, 1),
            byte_of(value as int, 2),
            byte_of(value as int, 3),
        ) == value,
{
    assert((value & 0xff) == value % 0x100 && ((value >> 8) & 0xff) == (value / 0x100) % 0x100 && (
    (value >> 16) & 0xff) == (value / 0x1_0000) % 0x100 && (value >> 24) == (value / 0x100_0000)
        % 0x100 && (value >> 24) < 0x100 && (value % 0x100) + 0x100 * ((value / 0x100) % 0x100)
        + 0x1_0000 * ((value / 0x1_0000) % 0x100) + 0x100_0000 * ((value / 0x100_0000) % 0x100)
        == value) by (bit_vector);
}

/// Writes `value` as a 16-bit integer at `offset` in `span`, or reports that
/// it does not fit and leaves `span` as it was.
pub fn encode_u16(span: &mut [u8], offset: usize, value: u16, endian: Endian) -> (r: Result<
    (),
    DecodeError,
>)
    ensures
        in_bounds(old(span)@.len(), offset as int, 2) ==> r is Ok && final(span)@ == overwrite(
            old(span)@,
            offset as int,
            u16_bytes(value, endian),
        ),
        !in_bounds(old(span)@.len(), offset as int, 2) ==> r == Err::<(), DecodeError>(
            DecodeError::Bounds,
        ) && final(span)@ == old(span)@,
{
    proof {
        lemma_u16_split(value);
    }
    let low: u8 = (value & 0xff) as u8;
    let high: u8 = (value >> 8) as u8;
    let data: [u8; 2] = match endian {
        Endian::Little => [low, high],
        Endian::Big => [high, low],
    };
    assert(data@ =~= u16_bytes(value, endian));
    write_bytes(span, data.as_slice(), offset)
}

/// Writes `value` as a 32-bit integer at `offset` in `span`, or reports that
/// it does not fit and leaves `span` as it was.
pub fn encode_u32(span: &mut [u8], offset: usize, value: u32, endian: Endian) -> (r: Result<
    (),
    DecodeError,
>)
    ensures
        in_bounds(old(span)@.len(), offset as int, 4) ==> r is Ok && final(span)@ == overwrite(
            old(span)@,
            offset as int,
            u32_bytes(value, endian),
        ),
        !in_bounds(old(span)@.len(), offset as int, 4) ==> r == Err::<(), DecodeError>(
            DecodeError::Bounds,
        ) && final(span)@ == old(span)@,
{
    proof {
        lemma_u32_split(value);
    }
    let b0: u8 = (value & 0xff) as u8;
    let b1: u8 = ((value >> 8) & 0xff) as u8;
    let b2: u8 = ((value >> 16) & 0xff) as u8;
    let b3: u8 = (value >> 24) as u8;
    let data: [u8; 4] = match endian {
        Endian::Little => [b0, b1, b2, b3],
        Endian::Big => [b3, b2, b1, b0],
    };
    assert(data@ =~= u32_bytes(value, endian));
    write_bytes(span, data.as_slice(), offset)
}

/// A 16-bit integer written into a span is read back unchanged from the same
/// offset with the same byte order.
pub proof fn lemma_u16_round_trip(span: Seq<u8>, offset: int, value: u16, endian: Endian)
    requires
        in_bounds(span.len(), offset, 2),
    ensures
        u16_at(overwrite(span, offset, u16_bytes(value, endian)), offset, endian) == value,
{
    lemma_u16_split(value);
}

/// A 32-bit integer written into a span is read back unchanged from the same
/// offset with the same byte order.
pub proof fn lemma_u32_round_trip(span: Seq<u8>, offset: int, value: u32, endian: Endian)
    requires
        in_bounds(span.len(), offset, 4),
    ensures
        u32_at(overwrite(span, offset, u32_bytes(value, endian)), offset, endian) == value,
{
    lemma_u32_split(value);
}

/// Bytes written into a span are read back unchanged from the same offset,
/// and the span keeps its length and every byte outside the written range.
pub proof fn lemma_bytes_round_trip(span: Seq<u8>, offset: int, data: Seq<u8>)
    requires
        in_bounds(span.len(), offset, data.len() as int),
    ensures
        overwrite(span, offset, data).subrange(offset, offset + data.len()) == data,
        overwrite(span, offset, data).len() == span.len(),
        forall|i: int|
            0 <= i < span.len() && !(offset <= i < offset + data.len()) ==> overwrite(
                span,
                offset,
                data,
            )[i] == span[i],
{
    assert(overwrite(span, offset, data).subrange(offset, offset + data.len()) =~= data);
}

/// Reads the byte at `offset` in `span`, or reports that there is none.
pub fn decode_u8(span: &[u8], offset: usize) -> (r: Result<u8, DecodeError>)
    ensures
        in_bounds(span@.len(), offset as int, 1) ==> r == Ok::<u8, DecodeError>(
            span@[offset as int],
        ),
        !in_bounds(span@.len(), offset as int, 1) ==> r == Err::<u8, DecodeError>(
            DecodeError::Bounds,
        ),
{
    if !fits(span.len(), offset, 1) {
        return Err(DecodeError::Bounds);
    }
    Ok(span[offset])
}

/// Writes `value` at `offset` in `span`, or reports that there is no such
/// byte and leaves `span` as it was.
pub fn encode_u8(span: &mut [u8], offset: usize, value: u8) -> (r: Result<(), DecodeError>)
    ensures
        in_bounds(old(span)@.len(), offset as int, 1) ==> r is Ok && final(span)@ == overwrite(
            old(span)@,
            offset as int,
            seq![value],
        ),
        !in_bounds(old(span)@.len(), offset as int, 1) ==> r == Err::<(), DecodeError>(
            DecodeError::Bounds,
        ) && final(span)@ == old(span)@,
{
    let data: [u8; 1] = [value];
    assert(data@ =~= seq![value]);
    write_bytes(span, data.as_slice(), offset)
}

/// Width of an integer field.
#[derive(Clone, Copy, Debug, PartialEq, Eq, Structural)]
pub enum FieldWidth {
    U16,
    U32,
}

impl FieldWidth {
    /// The number of bytes that a field of this width takes.
    pub open spec fn byte_len(self) -> int {
        match self {
            FieldWidth::U16 => 2,
            FieldWidth::U32 => 4,
        }
    }

    /// The largest value that a field of this width holds.
    pub open spec fn max_value(self) -> int {
        match self {
            FieldWidth::U16 => 0xFFFF,
            FieldWidth::U32 => 0xFFFF_FFFF,
        }
    }
}

/// Where an integer field lies in a span and how it is stored.
#[derive(Clone, Copy, Debug, PartialEq, Eq, Structural)]
pub struct FieldDesc {
    pub offset: usize,
    pub width: FieldWidth,
    pub endian: Endian,
}

impl FieldDesc {
    /// A field of `width` at `offset`, stored least significant byte first.
    pub fn new(offset: usize, width: FieldWidth) -> (desc: FieldDesc)
        ensures
            desc == (FieldDesc { offset, width, endian: Endian::Little }),
    {
        FieldDesc { offset, width, endian: Endian::Little }
    }

    /// Whether the field lies inside a span of `len` bytes.
    pub open spec fn fits_in(self, len: nat) -> bool {
        in_bounds(len, self.offset as int, self.width.byte_len())
    }

    /// The value that `span` holds in this field.
    pub open spec fn value_in(self, span: Seq<u8>) -> u32 {
        match self.width {
            FieldWidth::U16 => u16_at(span, self.offset as int, self.endian) as u32,
            FieldWidth::U32 => u32_at(span, self.offset as int, self.endian),
        }
    }

    /// The bytes that store `value` in this field.
    pub open spec fn bytes_of(self, value: u32) -> Seq<u8> {
        match self.width {
            FieldWidth::U16 => u16_bytes(value as u16, self.endian),
            FieldWidth::U32 => u32_bytes(value, self.endian),
        }
    }
}

/// Reads the field that `desc` describes from `span`, or reports that it does
/// not fit.
pub fn decode_field(span: &[u8], desc: &FieldDesc) -> (r: Result<u32, DecodeError>)
    ensures
        desc.fits_in(span@.len()) ==> r == Ok::<u32, DecodeError>(desc.value_in(span@)),
        !desc.fits_in(span@.len()) ==> r == Err::<u32, DecodeError>(DecodeError::Bounds),
{
    match desc.width {
        FieldWidth::U16 => match decode_u16(span, desc.offset, desc.endian) {
            Ok(v) => Ok(v as u32),
            Err(e) => Err(e),
        },
        FieldWidth::U32 => decode_u32(span, desc.offset, desc.endian),
    }
}

/// Writes `value` into the field that `desc` describes, or reports that the
/// field does not fit and leaves `span` as it was.
pub fn encode_field(span: &mut [u8], desc: &FieldDesc, value: u32) -> (r: Result<(), DecodeError>)
    requires
        value <= desc.width.max_value(),
    ensures
        desc.fits_in(old(span)@.len()) ==> r is Ok && final(span)@ == overwrite(
            old(span)@,
            desc.offset as int,
            desc.bytes_of(value),
        ),
        !desc.fits_in(old(span)@.len()) ==> r == Err::<(), DecodeError>(DecodeError::Bounds)
            && final(span)@ == old(span)@,
{
    match desc.width {
        FieldWidth::U16 => encode_u16(span, desc.offset, value as u16, desc.endian),
        FieldWidth::U32 => encode_u32(span, desc.offset, value, desc.endian),
    }
}

/// A value written into a field is read back unchanged from that field.
pub proof fn lemma_field_round_trip(span: Seq<u8>, desc: FieldDesc, value: u32)
    requires
        desc.fits_in(span.len()),
        value <= desc.width.max_value(),
    ensures
        desc.value_in(overwrite(span, desc.offset as int, desc.bytes_of(value))) == value,
{
    match desc.width {
        FieldWidth::U16 => lemma_u16_round_trip(span, desc.offset as int, value as u16, desc.endian),
        FieldWidth::U32 => lemma_u32_round_trip(span, desc.offset as int, value, desc.endian),
    }
}

} // verus!
