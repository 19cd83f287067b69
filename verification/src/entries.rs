use crate::abbrev::{spec_find_code, AbbreviationModel, Abbreviations, AttributeSpecification};
use crate::common::{
    DebugAddrIndex, DebugInfoOffset, DebugLineStrOffset, DebugLocListsIndex, DebugRngListsIndex,
    DebugStrOffset, DebugStrOffsetsIndex, Encoding,
};
use crate::constants::{
    DwTag, DW_FORM_ADDR, DW_FORM_ADDRX, DW_FORM_ADDRX1, DW_FORM_ADDRX2, DW_FORM_ADDRX3,
    DW_FORM_ADDRX4, DW_FORM_BLOCK, DW_FORM_BLOCK1, DW_FORM_BLOCK2, DW_FORM_BLOCK4,
    DW_FORM_DATA1, DW_FORM_DATA16, DW_FORM_DATA2, DW_FORM_DATA4, DW_FORM_DATA8,
    DW_FORM_EXPRLOC, DW_FORM_FLAG, DW_FORM_FLAG_PRESENT, DW_FORM_GNU_ADDR_INDEX,
    DW_FORM_GNU_REF_ALT, DW_FORM_GNU_STRP_ALT, DW_FORM_GNU_STR_INDEX, DW_FORM_IMPLICIT_CONST,
    DW_FORM_INDIRECT, DW_FORM_LINE_STRP, DW_FORM_LOCLISTX, DW_FORM_REF1, DW_FORM_REF2,
    DW_FORM_REF4, DW_FORM_REF8, DW_FORM_REF_ADDR, DW_FORM_REF_SIG8, DW_FORM_REF_SUP4,
    DW_FORM_REF_SUP8, DW_FORM_REF_UDATA, DW_FORM_RNGLISTX, DW_FORM_SDATA, DW_FORM_SEC_OFFSET,
    DW_FORM_STRING, DW_FORM_STRP, DW_FORM_STRP_SUP, DW_FORM_STRX, DW_FORM_STRX1,
    DW_FORM_STRX2, DW_FORM_STRX3, DW_FORM_STRX4, DW_FORM_UDATA,
};
use crate::endian::{
    find_null, spec_read_address, spec_read_null_terminated, spec_read_offset, spec_read_u16,
    spec_read_u24, spec_read_u32, spec_read_u64, spec_read_u8, EndianSlice, RunTimeEndian,
};
use crate::error::Error;
use crate::leb128::{
    lemma_sleb128_advances, lemma_uleb128_advances, read_sleb128, read_uleb128, spec_sleb128,
    spec_uleb128,
};
use crate::abbrev::{read_uleb_u16, spec_uleb_u16};
use crate::value::{Attribute, AttributeValue, Expression};
use vstd::prelude::*;

verus! {

/// How a number is encoded.
#[derive(Debug, Clone, Copy, PartialEq, Eq, Structural)]
pub enum NumberKind {
    /// In one byte.
    Fixed1,
    /// In two bytes.
    Fixed2,
    /// In three bytes.
    Fixed3,
    /// In four bytes.
    Fixed4,
    /// In eight bytes.
    Fixed8,
    /// As an unsigned LEB128 number.
    Uleb,
    /// As an offset of the unit's format, which must fit a machine word.
    Offset,
    /// As an address of the unit's address size.
    Address,
}

/// How the value of an attribute is laid out.
#[derive(Debug, Clone, Copy, PartialEq, Eq, Structural)]
pub enum Layout {
    /// One number.
    Number(NumberKind),
    /// A count, and as many bytes.
    Block(NumberKind),
    /// Sixteen bytes.
    Bytes16,
    /// Bytes up to a zero byte.
    CString,
    /// A signed LEB128 number.
    Signed,
    /// Nothing: the attribute's presence is its value.
    Present,
    /// Nothing: the value stands in the abbreviation.
    Implicit,
    /// The form itself, as an unsigned LEB128 number, and a value of that
    /// form.
    Indirect,
    /// The form is not known.
    Unknown,
}

/// The layout of values of the given form, in a unit of the given version.
pub open spec fn spec_form_layout(form: u16, version: u16) -> Layout {
    if form == DW_FORM_ADDR {
        Layout::Number(NumberKind::Address)
    } else if form == DW_FORM_BLOCK1 {
        Layout::Block(NumberKind::Fixed1)
    } else if form == DW_FORM_BLOCK2 {
        Layout::Block(NumberKind::Fixed2)
    } else if form == DW_FORM_BLOCK4 {
        Layout::Block(NumberKind::Fixed4)
    } else if form == DW_FORM_BLOCK || form == DW_FORM_EXPRLOC {
        Layout::Block(NumberKind::Uleb)
    } else if form == DW_FORM_DATA1 || form == DW_FORM_FLAG || form == DW_FORM_REF1 || form
        == DW_FORM_STRX1 || form == DW_FORM_ADDRX1 {
        Layout::Number(NumberKind::Fixed1)
    } else if form == DW_FORM_DATA2 || form == DW_FORM_REF2 || form == DW_FORM_STRX2 || form
        == DW_FORM_ADDRX2 {
        Layout::Number(NumberKind::Fixed2)
    } else if form == DW_FORM_STRX3 || form == DW_FORM_ADDRX3 {
        Layout::Number(NumberKind::Fixed3)
    } else if form == DW_FORM_DATA4 || form == DW_FORM_REF4 || form == DW_FORM_REF_SUP4 || form
        == DW_FORM_STRX4 || form == DW_FORM_ADDRX4 {
        Layout::Number(NumberKind::Fixed4)
    } else if form == DW_FORM_DATA8 || form == DW_FORM_REF8 || form == DW_FORM_REF_SIG8 || form
        == DW_FORM_REF_SUP8 {
        Layout::Number(NumberKind::Fixed8)
    } else if form == DW_FORM_DATA16 {
        Layout::Bytes16
    } else if form == DW_FORM_STRING {
        Layout::CString
    } else if form == DW_FORM_SDATA {
        Layout::Signed
    } else if form == DW_FORM_UDATA || form == DW_FORM_REF_UDATA || form == DW_FORM_STRX || form
        == DW_FORM_ADDRX || form == DW_FORM_LOCLISTX || form == DW_FORM_RNGLISTX || form
        == DW_FORM_GNU_ADDR_INDEX || form == DW_FORM_GNU_STR_INDEX {
        Layout::Number(NumberKind::Uleb)
    } else if form == DW_FORM_STRP || form == DW_FORM_SEC_OFFSET || form == DW_FORM_STRP_SUP
        || form == DW_FORM_LINE_STRP || form == DW_FORM_GNU_REF_ALT || form
        == DW_FORM_GNU_STRP_ALT {
        Layout::Number(NumberKind::Offset)
    } else if form == DW_FORM_REF_ADDR {
        if version == 2 {
            Layout::Number(NumberKind::Address)
        } else {
            Layout::Number(NumberKind::Offset)
        }
    } else if form == DW_FORM_FLAG_PRESENT {
        Layout::Present
    } else if form == DW_FORM_IMPLICIT_CONST {
        Layout::Implicit
    } else if form == DW_FORM_INDIRECT {
        Layout::Indirect
    } else {
        Layout::Unknown
    }
}

/// Gives the layout of values of the given form, in a unit of the given
/// version.
pub fn form_layout(form: u16, version: u16) -> (r: Layout)
    ensures
        r == spec_form_layout(form, version),
{
    if form == DW_FORM_ADDR {
        Layout::Number(NumberKind::Address)
    } else if form == DW_FORM_BLOCK1 {
        Layout::Block(NumberKind::Fixed1)
    } else if form == DW_FORM_BLOCK2 {
        Layout::Block(NumberKind::Fixed2)
    } else if form == DW_FORM_BLOCK4 {
        Layout::Block(NumberKind::Fixed4)
    } else if form == DW_FORM_BLOCK || form == DW_FORM_EXPRLOC {
        Layout::Block(NumberKind::Uleb)
    } else if form == DW_FORM_DATA1 || form == DW_FORM_FLAG || form == DW_FORM_REF1 || form
        == DW_FORM_STRX1 || form == DW_FORM_ADDRX1 {
        Layout::Number(NumberKind::Fixed1)
    } else if form == DW_FORM_DATA2 || form == DW_FORM_REF2 || form == DW_FORM_STRX2 || form
        == DW_FORM_ADDRX2 {
        Layout::Number(NumberKind::Fixed2)
    } else if form == DW_FORM_STRX3 || form == DW_FORM_ADDRX3 {
        Layout::Number(NumberKind::Fixed3)
    } else if form == DW_FORM_DATA4 || form == DW_FORM_REF4 || form == DW_FORM_REF_SUP4 || form
        == DW_FORM_STRX4 || form == DW_FORM_ADDRX4 {
        Layout::Number(NumberKind::Fixed4)
    } else if form == DW_FORM_DATA8 || form == DW_FORM_REF8 || form == DW_FORM_REF_SIG8 || form
        == DW_FORM_REF_SUP8 {
        Layout::Number(NumberKind::Fixed8)
    } else if form == DW_FORM_DATA16 {
        Layout::Bytes16
    } else if form == DW_FORM_STRING {
        Layout::CString
    } else if form == DW_FORM_SDATA {
        Layout::Signed
    } else if form == DW_FORM_UDATA || form == DW_FORM_REF_UDATA || form == DW_FORM_STRX || form
        == DW_FORM_ADDRX || form == DW_FORM_LOCLISTX || form == DW_FORM_RNGLISTX || form
        == DW_FORM_GNU_ADDR_INDEX || form == DW_FORM_GNU_STR_INDEX {
        Layout::Number(NumberKind::Uleb)
    } else if form == DW_FORM_STRP || form == DW_FORM_SEC_OFFSET || form == DW_FORM_STRP_SUP
        || form == DW_FORM_LINE_STRP || form == DW_FORM_GNU_REF_ALT || form
        == DW_FORM_GNU_STRP_ALT {
        Layout::Number(NumberKind::Offset)
    } else if form == DW_FORM_REF_ADDR {
        if version == 2 {
            Layout::Number(NumberKind::Address)
        } else {
            Layout::Number(NumberKind::Offset)
        }
    } else if form == DW_FORM_FLAG_PRESENT {
        Layout::Present
    } else if form == DW_FORM_IMPLICIT_CONST {
        Layout::Implicit
    } else if form == DW_FORM_INDIRECT {
        Layout::Indirect
    } else {
        Layout::Unknown
    }
}

/// The number of the given kind at `pos`, with the position behind it.
pub open spec fn spec_read_number(
    s: Seq<u8>,
    endian: RunTimeEndian,
    pos: int,
    encoding: Encoding,
    kind: NumberKind,
) -> Result<(u64, int), Error> {
    match kind {
        NumberKind::Fixed1 => match spec_read_u8(s, pos) {
            Ok(v) => Ok((v as u64, pos + 1)),
            Err(e) => Err(e),
        },
        NumberKind::Fixed2 => match spec_read_u16(s, pos, endian) {
            Ok(v) => Ok((v as u64, pos + 2)),
            Err(e) => Err(e),
        },
        NumberKind::Fixed3 => match spec_read_u24(s, pos, endian) {
            Ok(v) => Ok((v as u64, pos + 3)),
            Err(e) => Err(e),
        },
        NumberKind::Fixed4 => match spec_read_u32(s, pos, endian) {
            Ok(v) => Ok((v as u64, pos + 4)),
            Err(e) => Err(e),
        },
        NumberKind::Fixed8 => match spec_read_u64(s, pos, endian) {
            Ok(v) => Ok((v, pos + 8)),
            Err(e) => Err(e),
        },
        NumberKind::Uleb => match spec_uleb128(s, pos, 0) {
            Ok((v, next)) => Ok((v as u64, next)),
            Err(e) => Err(e),
        },
        NumberKind::Offset => match spec_read_offset(s, pos, encoding.format, endian) {
            Ok(v) => Ok((v as u64, pos + encoding.format.spec_word_size())),
            Err(e) => Err(e),
        },
        NumberKind::Address => match spec_read_address(s, pos, encoding.address_size, endian) {
            Ok(v) => Ok((v, pos + encoding.address_size)),
            Err(e) => Err(e),
        },
    }
}

/// A number takes at least one byte, and ends within the bytes it is read
/// from.
pub proof fn lemma_number_advances(
    s: Seq<u8>,
    endian: RunTimeEndian,
    pos: int,
    encoding: Encoding,
    kind: NumberKind,
)
    ensures
        spec_read_number(s, endian, pos, encoding, kind) matches Ok((v, next)) ==> 0 <= pos < next
            <= s.len(),
{
    lemma_uleb128_advances(s, pos, 0);
}

/// Reads the number of the given kind at `pos`.
pub fn read_number(input: &EndianSlice, pos: usize, encoding: Encoding, kind: NumberKind) -> (r:
    Result<(u64, usize), Error>)
    ensures
        match r {
            Ok((v, next)) => spec_read_number(input@, input.endian, pos as int, encoding, kind)
                == Ok::<(u64, int), Error>((v, next as int)),
            Err(e) => spec_read_number(input@, input.endian, pos as int, encoding, kind) == Err::<
                (u64, int),
                Error,
            >(e),
        },
{
    proof {
        input.lemma_len_fits();
        lemma_number_advances(input@, input.endian, pos as int, encoding, kind);
    }
    match kind {
        NumberKind::Fixed1 => match input.read_u8(pos) {
            Ok(v) => Ok((v as u64, pos + 1)),
            Err(e) => Err(e),
        },
        NumberKind::Fixed2 => match input.read_u16(pos) {
            Ok(v) => Ok((v as u64, pos + 2)),
            Err(e) => Err(e),
        },
        NumberKind::Fixed3 => match input.read_u24(pos) {
            Ok(v) => Ok((v as u64, pos + 3)),
            Err(e) => Err(e),
        },
        NumberKind::Fixed4 => match input.read_u32(pos) {
            Ok(v) => Ok((v as u64, pos + 4)),
            Err(e) => Err(e),
        },
        NumberKind::Fixed8 => match input.read_u64(pos) {
            Ok(v) => Ok((v, pos + 8)),
            Err(e) => Err(e),
        },
        NumberKind::Uleb => read_uleb128(input, pos),
        NumberKind::Offset => match input.read_offset(pos, encoding.format) {
            Ok(v) => Ok((v as u64, pos + encoding.format.word_size() as usize)),
            Err(e) => Err(e),
        },
        NumberKind::Address => match input.read_address(pos, encoding.address_size) {
            Ok(v) => Ok((v, pos + encoding.address_size as usize)),
            Err(e) => Err(e),
        },
    }
}

/// What the number `n` means as the value of an attribute of the given
/// form.
///
/// A reference, an offset or an index has to fit a machine word, else it is
/// `UnsupportedOffset`. A form whose value is no number is `UnknownForm`.
pub open spec fn spec_number_value<R>(form: u16, n: u64) -> Result<AttributeValue<R>, Error> {
    if form == DW_FORM_ADDR {
        Ok(AttributeValue::Addr(n))
    } else if form == DW_FORM_DATA1 {
        Ok(AttributeValue::Data1((n % 0x100) as u8))
    } else if form == DW_FORM_DATA2 {
        Ok(AttributeValue::Data2((n % 0x1_0000) as u16))
    } else if form == DW_FORM_DATA4 {
        Ok(AttributeValue::Data4((n % 0x1_0000_0000) as u32))
    } else if form == DW_FORM_DATA8 {
        Ok(AttributeValue::Data8(n))
    } else if form == DW_FORM_UDATA {
        Ok(AttributeValue::Udata(n))
    } else if form == DW_FORM_FLAG {
        Ok(AttributeValue::Flag(n != 0))
    } else if form == DW_FORM_REF_SIG8 {
        Ok(AttributeValue::DebugTypesRef(n))
    } else if n > usize::MAX {
        Err(Error::UnsupportedOffset)
    } else if form == DW_FORM_REF1 || form == DW_FORM_REF2 || form == DW_FORM_REF4 || form
        == DW_FORM_REF8 || form == DW_FORM_REF_UDATA {
        Ok(AttributeValue::UnitRef(n as usize))
    } else if form == DW_FORM_REF_ADDR {
        Ok(AttributeValue::DebugInfoRef(DebugInfoOffset(n as usize)))
    } else if form == DW_FORM_REF_SUP4 || form == DW_FORM_REF_SUP8 || form == DW_FORM_GNU_REF_ALT {
        Ok(AttributeValue::DebugInfoRefSup(DebugInfoOffset(n as usize)))
    } else if form == DW_FORM_SEC_OFFSET {
        Ok(AttributeValue::SecOffset(n as usize))
    } else if form == DW_FORM_STRP {
        Ok(AttributeValue::DebugStrRef(DebugStrOffset(n as usize)))
    } else if form == DW_FORM_STRP_SUP || form == DW_FORM_GNU_STRP_ALT {
        Ok(AttributeValue::DebugStrRefSup(DebugStrOffset(n as usize)))
    } else if form == DW_FORM_LINE_STRP {
        Ok(AttributeValue::DebugLineStrRef(DebugLineStrOffset(n as usize)))
    } else if form == DW_FORM_STRX || form == DW_FORM_STRX1 || form == DW_FORM_STRX2 || form
        == DW_FORM_STRX3 || form == DW_FORM_STRX4 || form == DW_FORM_GNU_STR_INDEX {
        Ok(AttributeValue::DebugStrOffsetsIndex(DebugStrOffsetsIndex(n as usize)))
    } else if form == DW_FORM_ADDRX || form == DW_FORM_ADDRX1 || form == DW_FORM_ADDRX2 || form
        == DW_FORM_ADDRX3 || form == DW_FORM_ADDRX4 || form == DW_FORM_GNU_ADDR_INDEX {
        Ok(AttributeValue::DebugAddrIndex(DebugAddrIndex(n as usize)))
    } else if form == DW_FORM_LOCLISTX {
        Ok(AttributeValue::DebugLocListsIndex(DebugLocListsIndex(n as usize)))
    } else if form == DW_FORM_RNGLISTX {
        Ok(AttributeValue::DebugRngListsIndex(DebugRngListsIndex(n as usize)))
    } else {
        Err(Error::UnknownForm)
    }
}

/// Says what the number `n` means as the value of an attribute of the given
/// form.
pub fn number_value<R>(form: u16, n: u64) -> (r: Result<AttributeValue<R>, Error>)
    ensures
        r == spec_number_value::<R>(form, n),
{
    if form == DW_FORM_ADDR {
        Ok(AttributeValue::Addr(n))
    } else if form == DW_FORM_DATA1 {
        Ok(AttributeValue::Data1((n % 0x100) as u8))
    } else if form == DW_FORM_DATA2 {
        Ok(AttributeValue::Data2((n % 0x1_0000) as u16))
    } else if form == DW_FORM_DATA4 {
        Ok(AttributeValue::Data4((n % 0x1_0000_0000) as u32))
    } else if form == DW_FORM_DATA8 {
        Ok(AttributeValue::Data8(n))
    } else if form == DW_FORM_UDATA {
        Ok(AttributeValue::Udata(n))
    } else if form == DW_FORM_FLAG {
        Ok(AttributeValue::Flag(n != 0))
    } else if form == DW_FORM_REF_SIG8 {
        Ok(AttributeValue::DebugTypesRef(n))
    } else if n > usize::MAX as u64 {
        Err(Error::UnsupportedOffset)
    } else if form == DW_FORM_REF1 || form == DW_FORM_REF2 || form == DW_FORM_REF4 || form
        == DW_FORM_REF8 || form == DW_FORM_REF_UDATA {
        Ok(AttributeValue::UnitRef(n as usize))
    } else if form == DW_FORM_REF_ADDR {
        Ok(AttributeValue::DebugInfoRef(DebugInfoOffset(n as usize)))
    } else if form == DW_FORM_REF_SUP4 || form == DW_FORM_REF_SUP8 || form == DW_FORM_GNU_REF_ALT {
        Ok(AttributeValue::DebugInfoRefSup(DebugInfoOffset(n as usize)))
    } else if form == DW_FORM_SEC_OFFSET {
        Ok(AttributeValue::SecOffset(n as usize))
    } else if form == DW_FORM_STRP {
        Ok(AttributeValue::DebugStrRef(DebugStrOffset(n as usize)))
    } else if form == DW_FORM_STRP_SUP || form == DW_FORM_GNU_STRP_ALT {
        Ok(AttributeValue::DebugStrRefSup(DebugStrOffset(n as usize)))
    } else if form == DW_FORM_LINE_STRP {
        Ok(AttributeValue::DebugLineStrRef(DebugLineStrOffset(n as usize)))
    } else if form == DW_FORM_STRX || form == DW_FORM_STRX1 || form == DW_FORM_STRX2 || form
        == DW_FORM_STRX3 || form == DW_FORM_STRX4 || form == DW_FORM_GNU_STR_INDEX {
        Ok(AttributeValue::DebugStrOffsetsIndex(DebugStrOffsetsIndex(n as usize)))
    } else if form == DW_FORM_ADDRX || form == DW_FORM_ADDRX1 || form == DW_FORM_ADDRX2 || form
        == DW_FORM_ADDRX3 || form == DW_FORM_ADDRX4 || form == DW_FORM_GNU_ADDR_INDEX {
        Ok(AttributeValue::DebugAddrIndex(DebugAddrIndex(n as usize)))
    } else if form == DW_FORM_LOCLISTX {
        Ok(AttributeValue::DebugLocListsIndex(DebugLocListsIndex(n as usize)))
    } else if form == DW_FORM_RNGLISTX {
        Ok(AttributeValue::DebugRngListsIndex(DebugRngListsIndex(n as usize)))
    } else {
        Err(Error::UnknownForm)
    }
}

/// What a number means does not depend on how runs of bytes are held.
pub proof fn lemma_number_value_view(form: u16, n: u64)
    ensures
        match spec_number_value::<EndianSlice>(form, n) {
            Ok(v) => spec_number_value::<Seq<u8>>(form, n) == Ok::<AttributeValue<Seq<u8>>, Error>(
                v@,
            ),
            Err(e) => spec_number_value::<Seq<u8>>(form, n) == Err::<
                AttributeValue<Seq<u8>>,
                Error,
            >(e),
        },
{
}

/// The `count` bytes at `start`, with the position behind them.
pub open spec fn spec_read_bytes(s: Seq<u8>, start: int, count: int) -> Result<(Seq<u8>, int), Error> {
    if 0 <= start && 0 <= count && start + count <= s.len() {
        Ok((s.subrange(start, start + count), start + count))
    } else {
        Err(Error::UnexpectedEof)
    }
}

/// The value of the given form at `pos`, with the position behind it.
/// `implicit` is the value that the abbreviation holds for the form
/// `DW_FORM_implicit_const`.
pub open spec fn spec_attr_value(
    s: Seq<u8>,
    endian: RunTimeEndian,
    pos: int,
    encoding: Encoding,
    form: u16,
    implicit: i64,
) -> Result<(AttributeValue<Seq<u8>>, int), Error>
    decreases s.len() - pos,
{
    match spec_form_layout(form, encoding.version) {
        Layout::Number(kind) => match spec_read_number(s, endian, pos, encoding, kind) {
            Err(e) => Err(e),
            Ok((n, next)) => match spec_number_value::<Seq<u8>>(form, n) {
                Err(e) => Err(e),
                Ok(value) => Ok((value, next)),
            },
        },
        Layout::Block(kind) => match spec_read_number(s, endian, pos, encoding, kind) {
            Err(e) => Err(e),
            Ok((count, start)) => match spec_read_bytes(s, start, count as int) {
                Err(e) => Err(e),
                Ok((bytes, next)) => if form == DW_FORM_EXPRLOC {
                    Ok((AttributeValue::Exprloc(Expression(bytes)), next))
                } else {
                    Ok((AttributeValue::Block(bytes), next))
                },
            },
        },
        Layout::Bytes16 => match spec_read_bytes(s, pos, 16) {
            Err(e) => Err(e),
            Ok((bytes, next)) => Ok((AttributeValue::Block(bytes), next)),
        },
        Layout::CString => match spec_read_null_terminated(s, pos) {
            Err(e) => Err(e),
            Ok(run) => Ok((AttributeValue::String(run), find_null(s, pos) + 1)),
        },
        Layout::Signed => match spec_sleb128(s, pos, 0) {
            Err(e) => Err(e),
            Ok((v, next)) => Ok((AttributeValue::Sdata(v as i64), next)),
        },
        Layout::Present => Ok((AttributeValue::Flag(true), pos)),
        Layout::Implicit => Ok((AttributeValue::Sdata(implicit), pos)),
        Layout::Indirect => match spec_uleb_u16(s, pos) {
            Err(e) => Err(e),
            Ok((actual, next)) => {
                proof {
                    lemma_uleb128_advances(s, pos, 0);
                }
                spec_attr_value(s, endian, next, encoding, actual, implicit)
            },
        },
        Layout::Unknown => Err(Error::UnknownForm),
    }
}

/// The first zero byte at or after `from` does not lie before `from`.
pub proof fn lemma_find_null_bounds(s: Seq<u8>, from: int)
    requires
        0 <= from,
    ensures
        find_null(s, from) < s.len() ==> from <= find_null(s, from),
    decreases s.len() - from,
{
    if from < s.len() && s[from] != 0 {
        lemma_find_null_bounds(s, from + 1);
    }
}

/// A value ends within the bytes it is read from, and not before its start.
pub proof fn lemma_attr_value_bounds(
    s: Seq<u8>,
    endian: RunTimeEndian,
    pos: int,
    encoding: Encoding,
    form: u16,
    implicit: i64,
)
    requires
        0 <= pos <= s.len(),
    ensures
        spec_attr_value(s, endian, pos, encoding, form, implicit) matches Ok((v, next)) ==> pos
            <= next <= s.len(),
    decreases s.len() - pos,
{
    lemma_uleb128_advances(s, pos, 0);
    lemma_sleb128_advances(s, pos, 0);
    lemma_find_null_bounds(s, pos);
    match spec_form_layout(form, encoding.version) {
        Layout::Number(kind) => {
            lemma_number_advances(s, endian, pos, encoding, kind);
        },
        Layout::Block(kind) => {
            lemma_number_advances(s, endian, pos, encoding, kind);
        },
        Layout::Indirect => {
            if let Ok((actual, next)) = spec_uleb_u16(s, pos) {
                lemma_attr_value_bounds(s, endian, next, encoding, actual, implicit);
            }
        },
        _ => {},
    }
}

/// Reads the value of the given form at `pos`.
pub fn parse_attr_value<'a>(
    input: &EndianSlice<'a>,
    pos: usize,
    encoding: Encoding,
    form: u16,
    implicit: i64,
) -> (r: Result<(AttributeValue<EndianSlice<'a>>, usize), Error>)
    ensures
        match r {
            Ok((value, next)) => spec_attr_value(
                input@,
                input.endian,
                pos as int,
                encoding,
                form,
                implicit,
            ) == Ok::<(AttributeValue<Seq<u8>>, int), Error>((value@, next as int)),
            Err(e) => spec_attr_value(input@, input.endian, pos as int, encoding, form, implicit)
                == Err::<(AttributeValue<Seq<u8>>, int), Error>(e),
        },
    decreases input@.len() - pos,
{
    let len: usize = input.len();
    match form_layout(form, encoding.version) {
        Layout::Number(kind) => {
            let (n, next) = match read_number(input, pos, encoding, kind) {
                Ok(read) => read,
                Err(e) => { return Err(e); },
            };
            proof {
                lemma_number_value_view(form, n);
            }
            match number_value::<EndianSlice<'a>>(form, n) {
                Err(e) => Err(e),
                Ok(value) => Ok((value, next)),
            }
        },
        Layout::Block(kind) => {
            proof {
                lemma_number_advances(input@, input.endian, pos as int, encoding, kind);
            }
            let (count, start) = match read_number(input, pos, encoding, kind) {
                Ok(read) => read,
                Err(e) => { return Err(e); },
            };
            if count > (len - start) as u64 {
                return Err(Error::UnexpectedEof);
            }
            let next: usize = start + count as usize;
            let bytes = input.range(start, next);
            if form == DW_FORM_EXPRLOC {
                Ok((AttributeValue::Exprloc(Expression(bytes)), next))
            } else {
                Ok((AttributeValue::Block(bytes), next))
            }
        },
        Layout::Bytes16 => {
            if !input.has(pos, 16) {
                return Err(Error::UnexpectedEof);
            }
            Ok((AttributeValue::Block(input.range(pos, pos + 16)), pos + 16))
        },
        Layout::CString => {
            proof {
                lemma_find_null_bounds(input@, pos as int);
            }
            match input.read_null_terminated(pos) {
                Err(e) => Err(e),
                Ok(run) => {
                    let next: usize = pos + run.len() + 1;
                    Ok((AttributeValue::String(run), next))
                },
            }
        },
        Layout::Signed => match read_sleb128(input, pos) {
            Err(e) => Err(e),
            Ok((v, next)) => Ok((AttributeValue::Sdata(v), next)),
        },
        Layout::Present => Ok((AttributeValue::Flag(true), pos)),
        Layout::Implicit => Ok((AttributeValue::Sdata(implicit), pos)),
        Layout::Indirect => {
            proof {
                lemma_uleb128_advances(input@, pos as int, 0);
            }
            match read_uleb_u16(input, pos) {
                Err(e) => Err(e),
                Ok((actual, next)) => parse_attr_value(input, next, encoding, actual, implicit),
            }
        },
        Layout::Unknown => Err(Error::UnknownForm),
    }
}

/// A list of attributes as contracts see it.
pub open spec fn view_attrs(attrs: Seq<Attribute<EndianSlice>>) -> Seq<Attribute<Seq<u8>>> {
    Seq::new(attrs.len(), |i: int| attrs[i]@)
}

/// The values of the attributes that `specs` lists from index `i` on, read
/// one behind the other from `pos` and appended to `acc`, with the position
/// behind the last.
pub open spec fn spec_attrs(
    s: Seq<u8>,
    endian: RunTimeEndian,
    pos: int,
    encoding: Encoding,
    specs: Seq<AttributeSpecification>,
    i: int,
    acc: Seq<Attribute<Seq<u8>>>,
) -> Result<(Seq<Attribute<Seq<u8>>>, int), Error>
    decreases specs.len() - i,
{
    if i < 0 || i >= specs.len() {
        Ok((acc, pos))
    } else {
        match spec_attr_value(
            s,
            endian,
            pos,
            encoding,
            specs[i].form.0,
            specs[i].implicit_const_value,
        ) {
            Err(e) => Err(e),
            Ok((value, next)) => spec_attrs(
                s,
                endian,
                next,
                encoding,
                specs,
                i + 1,
                acc.push(Attribute { name: specs[i].name, value }),
            ),
        }
    }
}

/// A list of attributes ends within the bytes it is read from, and not
/// before its start.
pub proof fn lemma_attrs_bounds(
    s: Seq<u8>,
    endian: RunTimeEndian,
    pos: int,
    encoding: Encoding,
    specs: Seq<AttributeSpecification>,
    i: int,
    acc: Seq<Attribute<Seq<u8>>>,
)
    requires
        0 <= pos <= s.len(),
    ensures
        spec_attrs(s, endian, pos, encoding, specs, i, acc) matches Ok((attrs, next)) ==> pos
            <= next <= s.len(),
    decreases specs.len() - i,
{
    if 0 <= i < specs.len() {
        lemma_attr_value_bounds(
            s,
            endian,
            pos,
            encoding,
            specs[i].form.0,
            specs[i].implicit_const_value,
        );
        if let Ok((value, next)) = spec_attr_value(
            s,
            endian,
            pos,
            encoding,
            specs[i].form.0,
            specs[i].implicit_const_value,
        ) {
            lemma_attrs_bounds(
                s,
                endian,
                next,
                encoding,
                specs,
                i + 1,
                acc.push(Attribute { name: specs[i].name, value }),
            );
        }
    }
}

/// Reads the values of the attributes that `specs` lists, one behind the
/// other from `pos`.
pub fn parse_attrs<'a>(
    input: &EndianSlice<'a>,
    pos: usize,
    encoding: Encoding,
    specs: &Vec<AttributeSpecification>,
) -> (r: Result<(Vec<Attribute<EndianSlice<'a>>>, usize), Error>)
    ensures
        match r {
            Ok((attrs, next)) => spec_attrs(
                input@,
                input.endian,
                pos as int,
                encoding,
                specs@,
                0,
                Seq::empty(),
            ) == Ok::<(Seq<Attribute<Seq<u8>>>, int), Error>((view_attrs(attrs@), next as int)),
            Err(e) => spec_attrs(input@, input.endian, pos as int, encoding, specs@, 0, Seq::empty())
                == Err::<(Seq<Attribute<Seq<u8>>>, int), Error>(e),
        },
{
    let mut attrs: Vec<Attribute<EndianSlice<'a>>> = Vec::new();
    let mut p: usize = pos;
    let mut i: usize = 0;
    assert(view_attrs(attrs@) =~= Seq::empty());
    while i < specs.len()
        invariant
            i <= specs@.len(),
            spec_attrs(input@, input.endian, pos as int, encoding, specs@, 0, Seq::empty())
                == spec_attrs(
                input@,
                input.endian,
                p as int,
                encoding,
                specs@,
                i as int,
                view_attrs(attrs@),
            ),
        decreases specs@.len() - i,
    {
        let spec = specs[i];
        match parse_attr_value(input, p, encoding, spec.form.0, spec.implicit_const_value) {
            Err(e) => { return Err(e); },
            Ok((value, next)) => {
                let ghost before = view_attrs(attrs@);
                let attr = Attribute { name: spec.name, value };
                attrs.push(attr);
                assert(view_attrs(attrs@) =~= before.push(attr@));
                p = next;
                i = i + 1;
            },
        }
    }
    Ok((attrs, p))
}

/// A debugging information entry as contracts see it.
pub struct EntryModel {
    /// Where the entry starts among its unit's entries.
    pub offset: usize,
    /// The code of the entry's abbreviation; 0 for a null entry.
    pub code: u64,
    /// The entry's tag.
    pub tag: DwTag,
    /// Whether the entries behind this one, up to a null entry, are its
    /// children.
    pub has_children: bool,
    /// The entry's attributes, in their order.
    pub attrs: Seq<Attribute<Seq<u8>>>,
}

/// A debugging information entry.
///
/// A null entry, which ends a list of children, has the code 0, the tag 0
/// and no attributes.
#[derive(Debug, Clone, PartialEq, Eq)]
pub struct DebuggingInformationEntry<'a> {
    /// Where the entry starts among its unit's entries.
    pub offset: usize,
    /// The code of the entry's abbreviation; 0 for a null entry.
    pub code: u64,
    /// The entry's tag.
    pub tag: DwTag,
    /// Whether the entries behind this one, up to a null entry, are its
    /// children.
    pub has_children: bool,
    /// The entry's attributes, in their order.
    pub attrs: Vec<Attribute<EndianSlice<'a>>>,
}

impl<'a> View for DebuggingInformationEntry<'a> {
    type V = EntryModel;

    open spec fn view(&self) -> EntryModel {
        EntryModel {
            offset: self.offset,
            code: self.code,
            tag: self.tag,
            has_children: self.has_children,
            attrs: view_attrs(self.attrs@),
        }
    }
}

impl<'a> DebuggingInformationEntry<'a> {
    /// Whether this is a null entry.
    pub fn is_null(&self) -> (r: bool)
        ensures
            r == (self.code == 0),
    {
        self.code == 0
    }
}

/// The entry at `pos`, with the position behind it.
///
/// An entry starts with the code of its abbreviation, an unsigned LEB128
/// number; the values of the attributes that the abbreviation lists follow.
/// The code 0 is a null entry. A code that the table lacks is
/// `UnknownAbbreviation`.
pub open spec fn spec_entry(
    s: Seq<u8>,
    endian: RunTimeEndian,
    pos: int,
    encoding: Encoding,
    table: Seq<AbbreviationModel>,
) -> Result<(EntryModel, int), Error> {
    match spec_uleb128(s, pos, 0) {
        Err(e) => Err(e),
        Ok((code, start)) => if code == 0 {
            Ok(
                (
                    EntryModel {
                        offset: pos as usize,
                        code: 0,
                        tag: DwTag(0),
                        has_children: false,
                        attrs: Seq::empty(),
                    },
                    start,
                ),
            )
        } else {
            match spec_find_code(table, code as u64, table.len() as int) {
                None => Err(Error::UnknownAbbreviation),
                Some(i) => match spec_attrs(
                    s,
                    endian,
                    start,
                    encoding,
                    table[i].attributes,
                    0,
                    Seq::empty(),
                ) {
                    Err(e) => Err(e),
                    Ok((attrs, next)) => Ok(
                        (
                            EntryModel {
                                offset: pos as usize,
                                code: code as u64,
                                tag: table[i].tag,
                                has_children: table[i].has_children,
                                attrs,
                            },
                            next,
                        ),
                    ),
                },
            }
        },
    }
}

/// An entry takes at least one byte, and ends within the bytes it is read
/// from.
pub proof fn lemma_entry_advances(
    s: Seq<u8>,
    endian: RunTimeEndian,
    pos: int,
    encoding: Encoding,
    table: Seq<AbbreviationModel>,
)
    ensures
        spec_entry(s, endian, pos, encoding, table) matches Ok((entry, next)) ==> 0 <= pos < next
            <= s.len(),
{
    lemma_uleb128_advances(s, pos, 0);
    if let Ok((code, start)) = spec_uleb128(s, pos, 0) {
        if let Some(i) = spec_find_code(table, code as u64, table.len() as int) {
            lemma_attrs_bounds(s, endian, start, encoding, table[i].attributes, 0, Seq::empty());
        }
    }
}

/// The first entry at or after `pos` that is no null entry, with the
/// position behind it; `None` where the bytes end before one is found.
pub open spec fn spec_next_dfs(
    s: Seq<u8>,
    endian: RunTimeEndian,
    pos: int,
    encoding: Encoding,
    table: Seq<AbbreviationModel>,
) -> Result<Option<(EntryModel, int)>, Error>
    decreases s.len() - pos,
{
    if pos < 0 || pos >= s.len() {
        Ok(None)
    } else {
        match spec_entry(s, endian, pos, encoding, table) {
            Err(e) => Err(e),
            Ok((entry, next)) => if entry.code != 0 {
                Ok(Some((entry, next)))
            } else {
                proof {
                    lemma_entry_advances(s, endian, pos, encoding, table);
                }
                spec_next_dfs(s, endian, next, encoding, table)
            },
        }
    }
}

/// A position among the entries of a unit, from which they are read one by
/// one in the order in which they lie: each entry before its children, and
/// those before its next sibling.
///
/// Once the entries' end is met, or an entry cannot be read, `pos` is the
/// length of the entries and nothing more comes.
#[derive(Debug, Clone, Copy)]
pub struct EntriesCursor<'a, 'u> {
    /// The bytes of the unit's entries.
    pub input: EndianSlice<'a>,
    /// Where the next entry starts.
    pub pos: usize,
    /// The unit's encoding.
    pub encoding: Encoding,
    /// The unit's abbreviations.
    pub abbreviations: &'u Abbreviations,
}

impl<'a, 'u> EntriesCursor<'a, 'u> {
    /// Reads the entry at the cursor, null entries too, and moves behind it.
    ///
    /// Gives `None` at the entries' end and ever after. An entry that cannot
    /// be read gives its error once; after it the entries count as ended.
    pub fn next_entry(&mut self) -> (r: Result<Option<DebuggingInformationEntry<'a>>, Error>)
        ensures
            final(self).input == old(self).input,
            final(self).encoding == old(self).encoding,
            final(self).abbreviations == old(self).abbreviations,
            old(self).pos >= old(self).input@.len() ==> r is Ok && r->Ok_0 is None && *final(self)
                == *old(self),
            old(self).pos < old(self).input@.len() ==> match r {
                Ok(Some(entry)) => spec_entry(
                    old(self).input@,
                    old(self).input.endian,
                    old(self).pos as int,
                    old(self).encoding,
                    old(self).abbreviations@,
                ) == Ok::<(EntryModel, int), Error>((entry@, final(self).pos as int)),
                Ok(None) => false,
                Err(e) => spec_entry(
                    old(self).input@,
                    old(self).input.endian,
                    old(self).pos as int,
                    old(self).encoding,
                    old(self).abbreviations@,
                ) == Err::<(EntryModel, int), Error>(e) && final(self).pos == old(self).input@.len(),
            },
    {
        let len: usize = self.input.len();
        if self.pos >= len {
            return Ok(None);
        }
        let offset: usize = self.pos;
        let (code, start) = match read_uleb128(&self.input, offset) {
            Ok(read) => read,
            Err(e) => {
                self.pos = len;
                return Err(e);
            },
        };
        if code == 0 {
            self.pos = start;
            let entry = DebuggingInformationEntry {
                offset,
                code: 0,
                tag: DwTag(0),
                has_children: false,
                attrs: Vec::new(),
            };
            assert(view_attrs(entry.attrs@) =~= Seq::empty());
            return Ok(Some(entry));
        }
        let abbreviation = match self.abbreviations.get(code) {
            Some(abbreviation) => abbreviation,
            None => {
                self.pos = len;
                return Err(Error::UnknownAbbreviation);
            },
        };
        match parse_attrs(&self.input, start, self.encoding, &abbreviation.attributes) {
            Err(e) => {
                self.pos = len;
                Err(e)
            },
            Ok((attrs, next)) => {
                self.pos = next;
                Ok(
                    Some(
                        DebuggingInformationEntry {
                            offset,
                            code,
                            tag: abbreviation.tag,
                            has_children: abbreviation.has_children,
                            attrs,
                        },
                    ),
                )
            },
        }
    }

    /// Reads the next entry that is no null entry, and moves behind it.
    ///
    /// Gives `None` where the entries end before one is found. An entry that
    /// cannot be read gives its error once; after it the entries count as
    /// ended.
    pub fn next_dfs(&mut self) -> (r: Result<Option<DebuggingInformationEntry<'a>>, Error>)
        ensures
            final(self).input == old(self).input,
            final(self).encoding == old(self).encoding,
            final(self).abbreviations == old(self).abbreviations,
            match r {
                Ok(Some(entry)) => spec_next_dfs(
                    old(self).input@,
                    old(self).input.endian,
                    old(self).pos as int,
                    old(self).encoding,
                    old(self).abbreviations@,
                ) == Ok::<Option<(EntryModel, int)>, Error>(Some((entry@, final(self).pos as int))),
                Ok(None) => spec_next_dfs(
                    old(self).input@,
                    old(self).input.endian,
                    old(self).pos as int,
                    old(self).encoding,
                    old(self).abbreviations@,
                ) == Ok::<Option<(EntryModel, int)>, Error>(None),
                Err(e) => spec_next_dfs(
                    old(self).input@,
                    old(self).input.endian,
                    old(self).pos as int,
                    old(self).encoding,
                    old(self).abbreviations@,
                ) == Err::<Option<(EntryModel, int)>, Error>(e),
            },
    {
        loop
            invariant
                self.input == old(self).input,
                self.encoding == old(self).encoding,
                self.abbreviations == old(self).abbreviations,
                spec_next_dfs(
                    old(self).input@,
                    old(self).input.endian,
                    old(self).pos as int,
                    old(self).encoding,
                    old(self).abbreviations@,
                ) == spec_next_dfs(
                    self.input@,
                    self.input.endian,
                    self.pos as int,
                    self.encoding,
                    self.abbreviations@,
                ),
            decreases self.input@.len() - self.pos,
        {
            proof {
                lemma_entry_advances(
                    self.input@,
                    self.input.endian,
                    self.pos as int,
                    self.encoding,
                    self.abbreviations@,
                );
            }
            match self.next_entry() {
                Err(e) => { return Err(e); },
                Ok(None) => { return Ok(None); },
                Ok(Some(entry)) => {
                    if !entry.is_null() {
                        return Ok(Some(entry));
                    }
                },
            }
        }
    }
}

} // verus!
