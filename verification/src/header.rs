//! The framing of stored records: a header that tags the kind of record,
//! followed by the payload.
//!
//! ```text
//! record value := header payload
//! header       := one-field ordinal
//! one-field    := 0x91 | 0xdc 0x00 0x01 | 0xdd 0x00 0x00 0x00 0x01
//! ordinal      := 0x00 ..= 0x7f              (the number itself)
//!               | 0xcc byte                  | 0xd0 byte
//!               | 0xcd byte*2                | 0xd1 byte*2
//!               | 0xce byte*4                | 0xd2 byte*4
//!               | 0xcf byte*8                | 0xd3 byte*8
//! ```
//!
//! This is MessagePack for an array of one integer, which is how a structure
//! with one integer field is written in compact form. The bytes after a
//! marker are a number, high byte first; after `0xcc` to `0xcf` it is
//! unsigned, after `0xd0` to `0xd3` signed.
//!
//! A header is written in the shortest form: `0x91` and the ordinal in one
//! byte, two bytes in all, since the ordinals of the kinds are below 128.
//!
//! A header is read in every form above, and what is read is the number,
//! however long its form: the ordinal of a kind gives that kind, any other
//! number that fits 32 bits is an ordinal that no kind has. All else is
//! malformed: a negative number, one that needs more than 32 bits, bytes
//! that end before the form does, an array of no or several elements, and
//! whatever is no array of an integer at all. In particular a map from the
//! field's name or index to the ordinal, and a byte string whose first byte
//! is the ordinal, are not read as headers, though a MessagePack reader with
//! a mind to may take them for the same structure.
//!
//! The ordinals of the kinds are fixed for good; see [`RecordKind::ordinal`].
//! The payload is whatever the caller has encoded; this module neither reads
//! nor checks it.

use vstd::prelude::*;
use vstd::slice::slice_subrange;

verus! {

/// First byte of every header that is written: an array of one element.
pub const ONE_FIELD_MARKER: u8 = 0x91;

/// Goes before the number of elements of an array, in two bytes.
pub const ARRAY16_MARKER: u8 = 0xdc;

/// Goes before the number of elements of an array, in four bytes.
pub const ARRAY32_MARKER: u8 = 0xdd;

/// Largest number that is written as a single byte.
pub const MAX_ONE_BYTE_ORDINAL: u8 = 0x7f;

/// Goes before an unsigned number in one byte.
pub const UINT8_MARKER: u8 = 0xcc;

/// Goes before an unsigned number in two bytes.
pub const UINT16_MARKER: u8 = 0xcd;

/// Goes before an unsigned number in four bytes.
pub const UINT32_MARKER: u8 = 0xce;

/// Goes before an unsigned number in eight bytes.
pub const UINT64_MARKER: u8 = 0xcf;

/// Goes before a signed number in one byte.
pub const INT8_MARKER: u8 = 0xd0;

/// Goes before a signed number in two bytes.
pub const INT16_MARKER: u8 = 0xd1;

/// Goes before a signed number in four bytes.
pub const INT32_MARKER: u8 = 0xd2;

/// Goes before a signed number in eight bytes.
pub const INT64_MARKER: u8 = 0xd3;

/// The kinds of record that the network stores.
#[derive(Debug, Eq, PartialEq, Clone, Copy, Structural)]
pub enum RecordKind {
    Chunk,
    ChunkWithPayment,
    Spend,
    Register,
    RegisterWithPayment,
}

/// The header in front of every stored record.
#[derive(Debug, Eq, PartialEq, Clone, Copy, Structural)]
pub struct RecordHeader {
    pub kind: RecordKind,
}

/// A record as it lies in the store: the key it is found under and its value,
/// which is a header followed by the payload.
#[derive(Debug, Eq, PartialEq)]
pub struct Record {
    pub key: Vec<u8>,
    pub value: Vec<u8>,
}

impl Clone for Record {
    fn clone(&self) -> (copy: Record)
        ensures
            copy.key@ == self.key@,
            copy.value@ == self.value@,
    {
        Record { key: self.key.clone(), value: self.value.clone() }
    }
}

/// Why a header could not be read.
#[derive(Debug, Eq, PartialEq, Clone, Copy, Structural)]
pub enum HeaderFault {
    /// The stored value is too short to hold what was asked of it: a header
    /// and one byte more.
    TooShort,
    /// The header is well formed, but no kind has its ordinal.
    UnknownKind,
    /// The bytes are not a header.
    Malformed,
}

/// What can go wrong when a record is read.
#[derive(Debug, Eq, PartialEq, Clone, Copy, Structural)]
pub enum Error {
    /// The value is too short, or does not start with a header.
    RecordHeaderParsingFailed(HeaderFault),
    /// The payload is there, but it is not what was asked for. Nothing in
    /// this module gives this error, as nothing here looks into a payload:
    /// it is for those who decode one.
    RecordParsingFailed,
}

impl RecordKind {
    /// The number that stands for the kind on the wire. It has nothing to do
    /// with the order in which the kinds are declared, and never changes.
    pub open spec fn ordinal(self) -> u32 {
        match self {
            RecordKind::ChunkWithPayment => 0,
            RecordKind::Chunk => 1,
            RecordKind::Spend => 2,
            RecordKind::Register => 3,
            RecordKind::RegisterWithPayment => 4,
        }
    }

    /// The kind that `ordinal` stands for, if any.
    pub open spec fn of_ordinal(ordinal: u32) -> Option<RecordKind> {
        if ordinal == 0 {
            Some(RecordKind::ChunkWithPayment)
        } else if ordinal == 1 {
            Some(RecordKind::Chunk)
        } else if ordinal == 2 {
            Some(RecordKind::Spend)
        } else if ordinal == 3 {
            Some(RecordKind::Register)
        } else if ordinal == 4 {
            Some(RecordKind::RegisterWithPayment)
        } else {
            None
        }
    }

    /// The text that [`to_string`](Self::to_string) gives.
    pub open spec fn display_text(self) -> Seq<char> {
        match self {
            RecordKind::Chunk => "RecordKind(Chunk)"@,
            RecordKind::ChunkWithPayment => "RecordKind(ChunkWithPayment)"@,
            RecordKind::Spend => "RecordKind(Spend)"@,
            RecordKind::Register => "RecordKind(Register)"@,
            RecordKind::RegisterWithPayment => "RecordKind(RegisterWithPayment)"@,
        }
    }

    /// The kind's ordinal.
    pub fn to_ordinal(&self) -> (ordinal: u32)
        ensures
            ordinal == self.ordinal(),
    {
        match self {
            RecordKind::ChunkWithPayment => 0,
            RecordKind::Chunk => 1,
            RecordKind::Spend => 2,
            RecordKind::Register => 3,
            RecordKind::RegisterWithPayment => 4,
        }
    }

    /// The kind with the given ordinal, or `None` if there is none.
    pub fn from_ordinal(ordinal: u32) -> (kind: Option<RecordKind>)
        ensures
            kind == RecordKind::of_ordinal(ordinal),
    {
        match ordinal {
            0 => Some(RecordKind::ChunkWithPayment),
            1 => Some(RecordKind::Chunk),
            2 => Some(RecordKind::Spend),
            3 => Some(RecordKind::Register),
            4 => Some(RecordKind::RegisterWithPayment),
            _ => None,
        }
    }

    /// The kind as text, for logs: `RecordKind(Spend)`.
    pub fn to_string(&self) -> (text: String)
        ensures
            text@ == self.display_text(),
    {
        match self {
            RecordKind::Chunk => "RecordKind(Chunk)".to_owned(),
            RecordKind::ChunkWithPayment => "RecordKind(ChunkWithPayment)".to_owned(),
            RecordKind::Spend => "RecordKind(Spend)".to_owned(),
            RecordKind::Register => "RecordKind(Register)".to_owned(),
            RecordKind::RegisterWithPayment => "RecordKind(RegisterWithPayment)".to_owned(),
        }
    }
}

/// The number that two bytes stand for, high byte first.
pub open spec fn big_endian_u16(high: u8, low: u8) -> u32 {
    (high * 0x100 + low) as u32
}

/// The number that four bytes stand for, highest byte first.
pub open spec fn big_endian_u32(b3: u8, b2: u8, b1: u8, b0: u8) -> u32 {
    (b3 * 0x100_0000 + b2 * 0x1_0000 + b1 * 0x100 + b0) as u32
}

/// How many bytes of number follow `marker`; 0 if it is no marker of a
/// number.
pub open spec fn number_width(marker: u8) -> nat {
    if marker == UINT8_MARKER || marker == INT8_MARKER {
        1
    } else if marker == UINT16_MARKER || marker == INT16_MARKER {
        2
    } else if marker == UINT32_MARKER || marker == INT32_MARKER {
        4
    } else if marker == UINT64_MARKER || marker == INT64_MARKER {
        8
    } else {
        0
    }
}

/// Whether the number after `marker` is signed.
pub open spec fn is_signed_marker(marker: u8) -> bool {
    marker == INT8_MARKER || marker == INT16_MARKER || marker == INT32_MARKER || marker
        == INT64_MARKER
}

/// An ordinal as it is written: in the shortest of the unsigned forms that
/// can hold it.
pub open spec fn ordinal_encoding(ordinal: u32) -> Seq<u8> {
    if ordinal <= MAX_ONE_BYTE_ORDINAL {
        seq![ordinal as u8]
    } else if ordinal <= 0xff {
        seq![UINT8_MARKER, ordinal as u8]
    } else if ordinal <= 0xffff {
        seq![UINT16_MARKER, (ordinal / 0x100) as u8, (ordinal % 0x100) as u8]
    } else {
        seq![
            UINT32_MARKER,
            (ordinal / 0x100_0000) as u8,
            (ordinal / 0x1_0000 % 0x100) as u8,
            (ordinal / 0x100 % 0x100) as u8,
            (ordinal % 0x100) as u8,
        ]
    }
}

/// The number at the front of `bytes`, in whichever form it stands, if it is
/// an ordinal: not negative, and no longer than 32 bits. A signed number is
/// negative when its first byte is above `0x7f`; a number of eight bytes fits
/// 32 bits when its first four are zero. Bytes after the number are not
/// looked at.
pub open spec fn ordinal_decoding(bytes: Seq<u8>) -> Option<u32> {
    if bytes.len() < 1 {
        None
    } else if bytes[0] <= MAX_ONE_BYTE_ORDINAL {
        Some(bytes[0] as u32)
    } else {
        let width = number_width(bytes[0]);
        if width == 0 || bytes.len() < 1 + width {
            None
        } else if is_signed_marker(bytes[0]) && bytes[1] > 0x7f {
            None
        } else if width == 1 {
            Some(bytes[1] as u32)
        } else if width == 2 {
            Some(big_endian_u16(bytes[1], bytes[2]))
        } else if width == 4 {
            Some(big_endian_u32(bytes[1], bytes[2], bytes[3], bytes[4]))
        } else if bytes[1] == 0 && bytes[2] == 0 && bytes[3] == 0 && bytes[4] == 0 {
            Some(big_endian_u32(bytes[5], bytes[6], bytes[7], bytes[8]))
        } else {
            None
        }
    }
}

/// The number of bytes at the front of `bytes` that announce an array of
/// one element, if that is what stands there.
pub open spec fn one_field_prefix(bytes: Seq<u8>) -> Option<nat> {
    if bytes.len() >= 1 && bytes[0] == ONE_FIELD_MARKER {
        Some(1)
    } else if bytes.len() >= 3 && bytes[0] == ARRAY16_MARKER && bytes[1] == 0 && bytes[2] == 1 {
        Some(3)
    } else if bytes.len() >= 5 && bytes[0] == ARRAY32_MARKER && bytes[1] == 0 && bytes[2] == 0
        && bytes[3] == 0 && bytes[4] == 1 {
        Some(5)
    } else {
        None
    }
}

/// The ordinal that the header at the front of `bytes` carries, if there is
/// a header.
pub open spec fn header_ordinal(bytes: Seq<u8>) -> Option<u32> {
    match one_field_prefix(bytes) {
        Some(prefix) => ordinal_decoding(bytes.skip(prefix as int)),
        None => None,
    }
}

/// The bytes of the header that is written for `ordinal`.
pub open spec fn header_with_ordinal(ordinal: u32) -> Seq<u8> {
    seq![ONE_FIELD_MARKER] + ordinal_encoding(ordinal)
}

/// The header of a record of the given kind, as bytes.
pub open spec fn header_encoding(kind: RecordKind) -> Seq<u8> {
    header_with_ordinal(kind.ordinal())
}

/// What the front of `bytes` says as a header. The ordinal alone decides
/// between a kind and an unknown kind; where there is no ordinal to be read,
/// the bytes are malformed. Bytes after the header are not looked at.
pub open spec fn header_decoding(bytes: Seq<u8>) -> Result<RecordHeader, Error> {
    match header_ordinal(bytes) {
        Some(ordinal) => match RecordKind::of_ordinal(ordinal) {
            Some(kind) => Ok(RecordHeader { kind }),
            None => Err(Error::RecordHeaderParsingFailed(HeaderFault::UnknownKind)),
        },
        None => Err(Error::RecordHeaderParsingFailed(HeaderFault::Malformed)),
    }
}

/// The header of a stored value. The value must hold one byte more than a
/// header, and the header is read from its first three bytes.
pub open spec fn record_header(value: Seq<u8>) -> Result<RecordHeader, Error> {
    if value.len() < RecordHeader::SIZE + 1 {
        Err(Error::RecordHeaderParsingFailed(HeaderFault::TooShort))
    } else {
        header_decoding(value.subrange(0, RecordHeader::SIZE + 1))
    }
}

/// The stored value of a record: its header, then its payload.
pub open spec fn record_encoding(payload: Seq<u8>, kind: RecordKind) -> Seq<u8> {
    header_encoding(kind) + payload
}

/// The payload of a stored value: all that follows the first two bytes,
/// which must be at least one byte. A value without that byte is too short.
pub open spec fn record_payload(value: Seq<u8>) -> Result<Seq<u8>, Error> {
    if value.len() > RecordHeader::SIZE {
        Ok(value.skip(RecordHeader::SIZE as int))
    } else {
        Err(Error::RecordHeaderParsingFailed(HeaderFault::TooShort))
    }
}

/// How many bytes of number follow `marker`; 0 if it is no marker of a
/// number.
fn width_after(marker: u8) -> (width: usize)
    ensures
        width == number_width(marker),
{
    if marker == UINT8_MARKER || marker == INT8_MARKER {
        1
    } else if marker == UINT16_MARKER || marker == INT16_MARKER {
        2
    } else if marker == UINT32_MARKER || marker == INT32_MARKER {
        4
    } else if marker == UINT64_MARKER || marker == INT64_MARKER {
        8
    } else {
        0
    }
}

/// The number that the four bytes from `at` on stand for.
fn read_big_endian_u32(bytes: &[u8], at: usize) -> (number: u32)
    requires
        at + 4 <= bytes@.len(),
    ensures
        number == big_endian_u32(
            bytes@[at as int],
            bytes@[at + 1],
            bytes@[at + 2],
            bytes@[at + 3],
        ),
{
    bytes[at] as u32 * 0x100_0000 + bytes[at + 1] as u32 * 0x1_0000 + bytes[at + 2] as u32 * 0x100
        + bytes[at + 3] as u32
}

/// Reads the ordinal at the front of `bytes`, in whichever form it stands.
pub fn read_ordinal(bytes: &[u8]) -> (ordinal: Option<u32>)
    ensures
        ordinal == ordinal_decoding(bytes@),
{
    if bytes.len() < 1 {
        return None;
    }
    let marker = bytes[0];
    if marker <= MAX_ONE_BYTE_ORDINAL {
        return Some(marker as u32);
    }
    let width = width_after(marker);
    if width == 0 || bytes.len() - 1 < width {
        return None;
    }
    let signed = marker == INT8_MARKER || marker == INT16_MARKER || marker == INT32_MARKER
        || marker == INT64_MARKER;
    if signed && bytes[1] > 0x7f {
        None
    } else if width == 1 {
        Some(bytes[1] as u32)
    } else if width == 2 {
        Some(bytes[1] as u32 * 0x100 + bytes[2] as u32)
    } else if width == 4 {
        Some(read_big_endian_u32(bytes, 1))
    } else if bytes[1] == 0 && bytes[2] == 0 && bytes[3] == 0 && bytes[4] == 0 {
        Some(read_big_endian_u32(bytes, 5))
    } else {
        None
    }
}

/// Reads the marker of an array of one element at the front of `bytes`, and
/// gives the number of bytes it takes.
fn read_one_field_marker(bytes: &[u8]) -> (prefix: Option<usize>)
    ensures
        match prefix {
            Some(length) => one_field_prefix(bytes@) == Some(length as nat) && length
                <= bytes@.len(),
            None => one_field_prefix(bytes@) is None,
        },
{
    if bytes.len() >= 1 && bytes[0] == ONE_FIELD_MARKER {
        Some(1)
    } else if bytes.len() >= 3 && bytes[0] == ARRAY16_MARKER && bytes[1] == 0 && bytes[2] == 1 {
        Some(3)
    } else if bytes.len() >= 5 && bytes[0] == ARRAY32_MARKER && bytes[1] == 0 && bytes[2] == 0
        && bytes[3] == 0 && bytes[4] == 1 {
        Some(5)
    } else {
        None
    }
}

impl RecordHeader {
    /// The number of bytes of the header of every kind of record.
    pub const SIZE: usize = 2;

    /// The header as bytes: two of them. This cannot fail.
    pub fn try_serialize(self) -> (encoded: Result<Vec<u8>, Error>)
        ensures
            encoded matches Ok(bytes) && bytes@ == header_encoding(self.kind),
    {
        let ordinal = self.kind.to_ordinal();
        let mut bytes: Vec<u8> = Vec::new();
        bytes.push(ONE_FIELD_MARKER);
        bytes.push(ordinal as u8);
        assert(bytes@ =~= header_encoding(self.kind));
        Ok(bytes)
    }

    /// Reads a header from the front of `bytes`, in whichever form it
    /// stands; what follows it is ignored.
    pub fn try_deserialize(bytes: &[u8]) -> (decoded: Result<RecordHeader, Error>)
        ensures
            decoded == header_decoding(bytes@),
    {
        let prefix = match read_one_field_marker(bytes) {
            Some(prefix) => prefix,
            None => {
                return Err(Error::RecordHeaderParsingFailed(HeaderFault::Malformed));
            },
        };
        match read_ordinal(slice_subrange(bytes, prefix, bytes.len())) {
            Some(ordinal) => match RecordKind::from_ordinal(ordinal) {
                Some(kind) => Ok(RecordHeader { kind }),
                None => Err(Error::RecordHeaderParsingFailed(HeaderFault::UnknownKind)),
            },
            None => Err(Error::RecordHeaderParsingFailed(HeaderFault::Malformed)),
        }
    }

    /// Reads the header of a stored record.
    ///
    /// The value must hold at least one byte more than a header, else it is
    /// too short. The header is then read from the first
    /// [`SIZE`](Self::SIZE)` + 1` bytes alone: one in a form that needs more
    /// bytes than these is malformed.
    pub fn from_record(record: &Record) -> (header: Result<RecordHeader, Error>)
        ensures
            header == record_header(record.value@),
    {
        if record.value.len() < RecordHeader::SIZE + 1 {
            return Err(Error::RecordHeaderParsingFailed(HeaderFault::TooShort));
        }
        RecordHeader::try_deserialize(
            slice_subrange(record.value.as_slice(), 0, RecordHeader::SIZE + 1),
        )
    }

    /// Whether the stored record is a chunk without payment.
    pub fn is_record_of_type_chunk(record: &Record) -> (is_chunk: Result<bool, Error>)
        ensures
            is_chunk == match record_header(record.value@) {
                Ok(header) => Ok(header.kind == RecordKind::Chunk),
                Err(error) => Err(error),
            },
    {
        match RecordHeader::from_record(record) {
            Ok(header) => Ok(header.kind == RecordKind::Chunk),
            Err(error) => Err(error),
        }
    }
}

/// The payload of a stored record: the bytes after its header, which is not
/// looked into. A value that ends with its header, or before, is too short
/// to hold a record.
pub fn try_deserialize_record(record: &Record) -> (payload: Result<&[u8], Error>)
    ensures
        match payload {
            Ok(bytes) => record_payload(record.value@) == Ok::<Seq<u8>, Error>(bytes@),
            Err(error) => record_payload(record.value@) == Err::<Seq<u8>, Error>(error),
        },
{
    if record.value.len() > RecordHeader::SIZE {
        Ok(slice_subrange(record.value.as_slice(), RecordHeader::SIZE, record.value.len()))
    } else {
        Err(Error::RecordHeaderParsingFailed(HeaderFault::TooShort))
    }
}

/// The value to store for a payload of the given kind: the kind's header,
/// then the payload as it is. This cannot fail.
pub fn try_serialize_record(payload: &[u8], record_kind: RecordKind) -> (value: Result<
    Vec<u8>,
    Error,
>)
    ensures
        value matches Ok(bytes) && bytes@ == record_encoding(payload@, record_kind),
{
    let header = RecordHeader { kind: record_kind };
    match header.try_serialize() {
        Ok(mut record_value) => {
            record_value.extend_from_slice(payload);
            Ok(record_value)
        },
        Err(error) => Err(error),
    }
}

/// The header of every kind is two bytes, and reading it back gives the kind
/// it was written for, whatever follows it.
pub proof fn header_round_trip(kind: RecordKind, rest: Seq<u8>)
    ensures
        header_encoding(kind).len() == RecordHeader::SIZE,
        header_decoding(header_encoding(kind)) == Ok::<RecordHeader, Error>(RecordHeader { kind }),
        header_decoding(header_encoding(kind) + rest) == Ok::<RecordHeader, Error>(
            RecordHeader { kind },
        ),
{
    let bytes = header_encoding(kind) + rest;
    assert(header_encoding(kind).skip(1) =~= ordinal_encoding(kind.ordinal()));
    assert(bytes.skip(1) =~= ordinal_encoding(kind.ordinal()) + rest);
}

/// A number below 65536 is what its two digits to the base 256 stand for.
proof fn digits_are_the_two_bytes(number: u32)
    requires
        number <= 0xffff,
    ensures
        number / 0x100 <= 0xff,
        big_endian_u16((number / 0x100) as u8, (number % 0x100) as u8) == number,
{
}

/// A number is what its four digits to the base 256 stand for.
proof fn digits_are_the_four_bytes(number: u32)
    ensures
        number / 0x100_0000 <= 0xff,
        big_endian_u32(
            (number / 0x100_0000) as u8,
            (number / 0x1_0000 % 0x100) as u8,
            (number / 0x100 % 0x100) as u8,
            (number % 0x100) as u8,
        ) == number,
{
    let b3: int = (number / 0x100_0000) as int;
    let b2: int = (number / 0x1_0000 % 0x100) as int;
    let b1: int = (number / 0x100 % 0x100) as int;
    let b0: int = (number % 0x100) as int;
    assert(number / 0x100 == (number / 0x1_0000) * 0x100 + b1);
    assert(number / 0x1_0000 == b3 * 0x100 + b2);
    assert(number == (number / 0x100) * 0x100 + b0);
}

/// Every ordinal is read back from the form it is written in, whatever
/// follows it.
pub proof fn ordinal_round_trip(ordinal: u32, rest: Seq<u8>)
    ensures
        ordinal_decoding(ordinal_encoding(ordinal) + rest) == Some(ordinal),
{
    let bytes = ordinal_encoding(ordinal) + rest;
    if ordinal <= MAX_ONE_BYTE_ORDINAL {
        assert(bytes[0] == ordinal as u8);
    } else if ordinal <= 0xff {
        assert(bytes[0] == UINT8_MARKER && bytes[1] == ordinal as u8);
    } else if ordinal <= 0xffff {
        digits_are_the_two_bytes(ordinal);
        assert(bytes[0] == UINT16_MARKER);
        assert(bytes[1] == (ordinal / 0x100) as u8 && bytes[2] == (ordinal % 0x100) as u8);
    } else {
        digits_are_the_four_bytes(ordinal);
        assert(bytes[0] == UINT32_MARKER);
        assert(bytes[1] == (ordinal / 0x100_0000) as u8);
        assert(bytes[2] == (ordinal / 0x1_0000 % 0x100) as u8);
        assert(bytes[3] == (ordinal / 0x100 % 0x100) as u8);
        assert(bytes[4] == (ordinal % 0x100) as u8);
    }
}

/// A number of one byte is read for what it is behind either marker, the
/// signed one as long as it is not negative; its size has no say.
pub proof fn one_byte_forms_hold_their_number(number: u8, rest: Seq<u8>)
    ensures
        ordinal_decoding(seq![UINT8_MARKER, number] + rest) == Some(number as u32),
        number <= 0x7f ==> ordinal_decoding(seq![INT8_MARKER, number] + rest) == Some(
            number as u32,
        ),
        number > 0x7f ==> ordinal_decoding(seq![INT8_MARKER, number] + rest) is None,
{
    let unsigned = seq![UINT8_MARKER, number] + rest;
    let signed = seq![INT8_MARKER, number] + rest;
    assert(unsigned[0] == UINT8_MARKER && unsigned[1] == number);
    assert(signed[0] == INT8_MARKER && signed[1] == number);
}

/// A number of two bytes is read for what it is behind either marker, the
/// signed one as long as it is not negative; its size has no say.
pub proof fn two_byte_forms_hold_their_number(high: u8, low: u8, rest: Seq<u8>)
    ensures
        ordinal_decoding(seq![UINT16_MARKER, high, low] + rest) == Some(
            big_endian_u16(high, low),
        ),
        high <= 0x7f ==> ordinal_decoding(seq![INT16_MARKER, high, low] + rest) == Some(
            big_endian_u16(high, low),
        ),
        high > 0x7f ==> ordinal_decoding(seq![INT16_MARKER, high, low] + rest) is None,
{
    let unsigned = seq![UINT16_MARKER, high, low] + rest;
    let signed = seq![INT16_MARKER, high, low] + rest;
    assert(unsigned[0] == UINT16_MARKER && unsigned[1] == high && unsigned[2] == low);
    assert(signed[0] == INT16_MARKER && signed[1] == high && signed[2] == low);
}

/// A number of four bytes is read for what it is behind either marker, the
/// signed one as long as it is not negative; its size has no say.
pub proof fn four_byte_forms_hold_their_number(b3: u8, b2: u8, b1: u8, b0: u8, rest: Seq<u8>)
    ensures
        ordinal_decoding(seq![UINT32_MARKER, b3, b2, b1, b0] + rest) == Some(
            big_endian_u32(b3, b2, b1, b0),
        ),
        b3 <= 0x7f ==> ordinal_decoding(seq![INT32_MARKER, b3, b2, b1, b0] + rest) == Some(
            big_endian_u32(b3, b2, b1, b0),
        ),
        b3 > 0x7f ==> ordinal_decoding(seq![INT32_MARKER, b3, b2, b1, b0] + rest) is None,
{
    let unsigned = seq![UINT32_MARKER, b3, b2, b1, b0] + rest;
    let signed = seq![INT32_MARKER, b3, b2, b1, b0] + rest;
    assert(unsigned[0] == UINT32_MARKER && unsigned[1] == b3 && unsigned[2] == b2 && unsigned[3]
        == b1 && unsigned[4] == b0);
    assert(signed[0] == INT32_MARKER && signed[1] == b3 && signed[2] == b2 && signed[3] == b1
        && signed[4] == b0);
}

/// A number of eight bytes is read for what it is behind either marker if
/// its first four bytes are zero, and is no ordinal otherwise.
pub proof fn eight_byte_forms_hold_their_number(high: Seq<u8>, low: Seq<u8>, rest: Seq<u8>)
    requires
        high.len() == 4,
        low.len() == 4,
    ensures
        high == seq![0u8, 0u8, 0u8, 0u8] ==> ordinal_decoding(
            seq![UINT64_MARKER] + high + low + rest,
        ) == Some(big_endian_u32(low[0], low[1], low[2], low[3])),
        high == seq![0u8, 0u8, 0u8, 0u8] ==> ordinal_decoding(
            seq![INT64_MARKER] + high + low + rest,
        ) == Some(big_endian_u32(low[0], low[1], low[2], low[3])),
        high != seq![0u8, 0u8, 0u8, 0u8] ==> ordinal_decoding(
            seq![UINT64_MARKER] + high + low + rest,
        ) is None,
        high != seq![0u8, 0u8, 0u8, 0u8] ==> ordinal_decoding(
            seq![INT64_MARKER] + high + low + rest,
        ) is None,
{
    let unsigned = seq![UINT64_MARKER] + high + low + rest;
    let signed = seq![INT64_MARKER] + high + low + rest;
    assert(unsigned[0] == UINT64_MARKER && signed[0] == INT64_MARKER);
    assert forall|i: int| 0 <= i < 4 implies unsigned[1 + i] == high[i] && signed[1 + i]
        == high[i] && unsigned[5 + i] == low[i] && signed[5 + i] == low[i] by {}
    assert(unsigned[1] == high[0] && unsigned[2] == high[1] && unsigned[3] == high[2]
        && unsigned[4] == high[3]);
    assert(signed[1] == high[0] && signed[2] == high[1] && signed[3] == high[2] && signed[4]
        == high[3]);
    assert(unsigned[5] == low[0] && unsigned[6] == low[1] && unsigned[7] == low[2] && unsigned[8]
        == low[3]);
    assert(signed[5] == low[0] && signed[6] == low[1] && signed[7] == low[2] && signed[8]
        == low[3]);
    if high != seq![0u8, 0u8, 0u8, 0u8] {
        if high[0] == 0 && high[1] == 0 && high[2] == 0 && high[3] == 0 {
            assert(high =~= seq![0u8, 0u8, 0u8, 0u8]);
        }
    }
}

/// An array of one element is announced in three ways, and behind each the
/// same ordinal is read.
pub proof fn every_one_field_marker_is_read(tail: Seq<u8>)
    ensures
        header_ordinal(seq![ONE_FIELD_MARKER] + tail) == ordinal_decoding(tail),
        header_ordinal(seq![ARRAY16_MARKER, 0u8, 1u8] + tail) == ordinal_decoding(tail),
        header_ordinal(seq![ARRAY32_MARKER, 0u8, 0u8, 0u8, 1u8] + tail) == ordinal_decoding(tail),
{
    let short = seq![ONE_FIELD_MARKER] + tail;
    let medium = seq![ARRAY16_MARKER, 0u8, 1u8] + tail;
    let long = seq![ARRAY32_MARKER, 0u8, 0u8, 0u8, 1u8] + tail;
    assert(short[0] == ONE_FIELD_MARKER);
    assert(short.skip(1) =~= tail);
    assert(medium[0] == ARRAY16_MARKER && medium[1] == 0 && medium[2] == 1);
    assert(medium.skip(3) =~= tail);
    assert(long[0] == ARRAY32_MARKER && long[1] == 0 && long[2] == 0 && long[3] == 0 && long[4]
        == 1);
    assert(long.skip(5) =~= tail);
}

/// The ordinal alone decides what a header says: the ordinal of a kind gives
/// that kind, any other ordinal is refused as that of an unknown kind, in
/// whichever form it stands. Only bytes that hold no ordinal are malformed,
/// and no bytes are too short for this.
pub proof fn header_is_decided_by_its_ordinal(bytes: Seq<u8>)
    ensures
        match header_ordinal(bytes) {
            Some(ordinal) => if ordinal >= 5 {
                header_decoding(bytes) == Err::<RecordHeader, Error>(
                    Error::RecordHeaderParsingFailed(HeaderFault::UnknownKind),
                )
            } else {
                header_decoding(bytes) matches Ok(header) && header.kind.ordinal() == ordinal
            },
            None => header_decoding(bytes) == Err::<RecordHeader, Error>(
                Error::RecordHeaderParsingFailed(HeaderFault::Malformed),
            ),
        },
        header_decoding(bytes) != Err::<RecordHeader, Error>(
            Error::RecordHeaderParsingFailed(HeaderFault::TooShort),
        ),
{
}

/// The ordinals of the kinds are 0 to 4, one each.
pub proof fn ordinals_are_stable(kind: RecordKind, ordinal: u32)
    ensures
        kind.ordinal() <= 4,
        RecordKind::of_ordinal(kind.ordinal()) == Some(kind),
        RecordKind::of_ordinal(ordinal) == Some(kind) <==> ordinal == kind.ordinal(),
        RecordKind::of_ordinal(ordinal) is None <==> ordinal >= 5,
{
}

/// The header that is written for an ordinal of 5 or more names no kind,
/// and is refused as such, whatever follows it.
pub proof fn unknown_ordinal_is_refused(ordinal: u32, rest: Seq<u8>)
    requires
        ordinal >= 5,
    ensures
        header_decoding(header_with_ordinal(ordinal) + rest) == Err::<RecordHeader, Error>(
            Error::RecordHeaderParsingFailed(HeaderFault::UnknownKind),
        ),
{
    let bytes = header_with_ordinal(ordinal) + rest;
    ordinal_round_trip(ordinal, rest);
    assert(bytes[0] == ONE_FIELD_MARKER);
    assert(bytes.skip(1) =~= ordinal_encoding(ordinal) + rest);
}

/// Whatever payload of at least one byte is stored under whatever kind, the
/// stored value gives back that kind and that payload.
pub proof fn record_round_trip(payload: Seq<u8>, kind: RecordKind)
    requires
        payload.len() > 0,
    ensures
        record_header(record_encoding(payload, kind)) == Ok::<RecordHeader, Error>(
            RecordHeader { kind },
        ),
        record_payload(record_encoding(payload, kind)) == Ok::<Seq<u8>, Error>(payload),
{
    let value = record_encoding(payload, kind);
    assert(value.skip(2) =~= payload);
    assert(value.subrange(0, 3) =~= header_encoding(kind) + payload.subrange(0, 1));
    header_round_trip(kind, payload.subrange(0, 1));
}

} // verus!
