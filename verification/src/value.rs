use crate::common::{
    DebugAddrBase, DebugAddrIndex, DebugInfoOffset, DebugLineOffset, DebugLineStrOffset,
    DebugLocListsBase, DebugLocListsIndex, DebugRngListsBase, DebugRngListsIndex,
    DebugStrOffset, DebugStrOffsetsBase, DebugStrOffsetsIndex, LocationListsOffset,
    RangeListsOffset,
};
use crate::constants::{
    DwAt, DW_AT_ADDR_BASE, DW_AT_DATA_MEMBER_LOCATION, DW_AT_FRAME_BASE, DW_AT_LOCATION,
    DW_AT_LOCLISTS_BASE, DW_AT_RANGES, DW_AT_RETURN_ADDR, DW_AT_RNGLISTS_BASE, DW_AT_SEGMENT,
    DW_AT_STATIC_LINK, DW_AT_STMT_LIST, DW_AT_STRING_LENGTH, DW_AT_STR_OFFSETS_BASE,
    DW_AT_USE_LOCATION, DW_AT_VTABLE_ELEM_LOCATION,
};
use crate::endian::EndianSlice;
use vstd::prelude::*;

verus! {

/// The bytes of a location expression. They are carried, never decoded here.
///
/// `R` is the form in which runs of bytes are held: an [`EndianSlice`] in
/// running code, a sequence of bytes in contracts.
#[derive(Debug, Clone, Copy, PartialEq, Eq)]
pub struct Expression<R>(pub R);

impl<'a> View for Expression<EndianSlice<'a>> {
    type V = Expression<Seq<u8>>;

    open spec fn view(&self) -> Expression<Seq<u8>> {
        Expression(self.0@)
    }
}

/// The value of an attribute, in one of the encodings a producer may choose.
///
/// `R` is the form in which runs of bytes are held: an [`EndianSlice`] in
/// running code, a sequence of bytes in contracts.
#[derive(Debug, Clone, Copy, PartialEq, Eq)]
pub enum AttributeValue<R> {
    /// An address of the target machine.
    Addr(u64),
    /// A block of bytes.
    Block(R),
    /// A one-byte constant.
    Data1(u8),
    /// A two-byte constant.
    Data2(u16),
    /// A four-byte constant.
    Data4(u32),
    /// An eight-byte constant.
    Data8(u64),
    /// A signed constant.
    Sdata(i64),
    /// An unsigned constant.
    Udata(u64),
    /// A location expression.
    Exprloc(Expression<R>),
    /// A flag.
    Flag(bool),
    /// An offset into a section that the attribute's name decides.
    SecOffset(usize),
    /// Where the unit's entries start in the `.debug_addr` section.
    DebugAddrBase(DebugAddrBase),
    /// An index into the unit's entries in the `.debug_addr` section.
    DebugAddrIndex(DebugAddrIndex),
    /// An offset from the start of the unit.
    UnitRef(usize),
    /// An offset into the `.debug_info` section.
    DebugInfoRef(DebugInfoOffset),
    /// An offset into the `.debug_info` section of a supplementary file.
    DebugInfoRefSup(DebugInfoOffset),
    /// An offset into the `.debug_line` section.
    DebugLineRef(DebugLineOffset),
    /// An offset into the `.debug_loc` or the `.debug_loclists` section.
    LocationListsRef(LocationListsOffset),
    /// Where the unit's offset table starts in the `.debug_loclists` section.
    DebugLocListsBase(DebugLocListsBase),
    /// An index into the unit's offset table in the `.debug_loclists` section.
    DebugLocListsIndex(DebugLocListsIndex),
    /// An offset into the `.debug_ranges` or the `.debug_rnglists` section.
    RangeListsRef(RangeListsOffset),
    /// Where the unit's offset table starts in the `.debug_rnglists` section.
    DebugRngListsBase(DebugRngListsBase),
    /// An index into the unit's offset table in the `.debug_rnglists` section.
    DebugRngListsIndex(DebugRngListsIndex),
    /// The signature of a type unit.
    DebugTypesRef(u64),
    /// An offset into the `.debug_str` section.
    DebugStrRef(DebugStrOffset),
    /// An offset into the `.debug_str` section of a supplementary file.
    DebugStrRefSup(DebugStrOffset),
    /// Where the unit's entries start in the `.debug_str_offsets` section.
    DebugStrOffsetsBase(DebugStrOffsetsBase),
    /// An index into the unit's entries in the `.debug_str_offsets` section.
    DebugStrOffsetsIndex(DebugStrOffsetsIndex),
    /// An offset into the `.debug_line_str` section.
    DebugLineStrRef(DebugLineStrOffset),
    /// A string held in the entry itself, without its zero byte.
    String(R),
}

impl<'a> View for AttributeValue<EndianSlice<'a>> {
    type V = AttributeValue<Seq<u8>>;

    open spec fn view(&self) -> AttributeValue<Seq<u8>> {
        match *self {
            AttributeValue::Addr(v) => AttributeValue::Addr(v),
            AttributeValue::Block(v) => AttributeValue::Block(v@),
            AttributeValue::Data1(v) => AttributeValue::Data1(v),
            AttributeValue::Data2(v) => AttributeValue::Data2(v),
            AttributeValue::Data4(v) => AttributeValue::Data4(v),
            AttributeValue::Data8(v) => AttributeValue::Data8(v),
            AttributeValue::Sdata(v) => AttributeValue::Sdata(v),
            AttributeValue::Udata(v) => AttributeValue::Udata(v),
            AttributeValue::Exprloc(v) => AttributeValue::Exprloc(v@),
            AttributeValue::Flag(v) => AttributeValue::Flag(v),
            AttributeValue::SecOffset(v) => AttributeValue::SecOffset(v),
            AttributeValue::DebugAddrBase(v) => AttributeValue::DebugAddrBase(v),
            AttributeValue::DebugAddrIndex(v) => AttributeValue::DebugAddrIndex(v),
            AttributeValue::UnitRef(v) => AttributeValue::UnitRef(v),
            AttributeValue::DebugInfoRef(v) => AttributeValue::DebugInfoRef(v),
            AttributeValue::DebugInfoRefSup(v) => AttributeValue::DebugInfoRefSup(v),
            AttributeValue::DebugLineRef(v) => AttributeValue::DebugLineRef(v),
            AttributeValue::LocationListsRef(v) => AttributeValue::LocationListsRef(v),
            AttributeValue::DebugLocListsBase(v) => AttributeValue::DebugLocListsBase(v),
            AttributeValue::DebugLocListsIndex(v) => AttributeValue::DebugLocListsIndex(v),
            AttributeValue::RangeListsRef(v) => AttributeValue::RangeListsRef(v),
            AttributeValue::DebugRngListsBase(v) => AttributeValue::DebugRngListsBase(v),
            AttributeValue::DebugRngListsIndex(v) => AttributeValue::DebugRngListsIndex(v),
            AttributeValue::DebugTypesRef(v) => AttributeValue::DebugTypesRef(v),
            AttributeValue::DebugStrRef(v) => AttributeValue::DebugStrRef(v),
            AttributeValue::DebugStrRefSup(v) => AttributeValue::DebugStrRefSup(v),
            AttributeValue::DebugStrOffsetsBase(v) => AttributeValue::DebugStrOffsetsBase(v),
            AttributeValue::DebugStrOffsetsIndex(v) => AttributeValue::DebugStrOffsetsIndex(v),
            AttributeValue::DebugLineStrRef(v) => AttributeValue::DebugLineStrRef(v),
            AttributeValue::String(v) => AttributeValue::String(v@),
        }
    }
}

/// One attribute of a debugging information entry: its name and its value.
#[derive(Debug, Clone, Copy, PartialEq, Eq)]
pub struct Attribute<R> {
    /// The attribute's name.
    pub name: DwAt,
    /// The attribute's value.
    pub value: AttributeValue<R>,
}

impl<'a> View for Attribute<EndianSlice<'a>> {
    type V = Attribute<Seq<u8>>;

    open spec fn view(&self) -> Attribute<Seq<u8>> {
        Attribute { name: self.name, value: self.value@ }
    }
}

/// The offset that `value` holds, where it is a section offset or a
/// constant of four or eight bytes that can stand for one.
pub open spec fn spec_offset_value<R>(value: AttributeValue<R>) -> Option<usize> {
    match value {
        AttributeValue::SecOffset(offset) => Some(offset),
        AttributeValue::Data4(data) => Some(data as usize),
        AttributeValue::Data8(data) => if data <= usize::MAX {
            Some(data as usize)
        } else {
            None
        },
        _ => None,
    }
}

/// Whether an attribute of the given name may point to a location list.
pub open spec fn spec_names_location(name: u16) -> bool {
    name == DW_AT_LOCATION || name == DW_AT_STRING_LENGTH || name == DW_AT_RETURN_ADDR || name
        == DW_AT_DATA_MEMBER_LOCATION || name == DW_AT_FRAME_BASE || name == DW_AT_SEGMENT || name
        == DW_AT_STATIC_LINK || name == DW_AT_USE_LOCATION || name == DW_AT_VTABLE_ELEM_LOCATION
}

/// What the value `raw`, as it was decoded, means for an attribute of the
/// given name.
///
/// An offset says nothing of the section it points into; the attribute's
/// name does. So for the names that point into the line number programs, the
/// range lists and the location lists, and for the four that give a unit's
/// bases, a value that holds an offset becomes the value of that kind. Every
/// other value stays as it is.
pub open spec fn spec_normalize<R>(name: u16, raw: AttributeValue<R>) -> AttributeValue<R> {
    match spec_offset_value(raw) {
        None => raw,
        Some(offset) => if name == DW_AT_STMT_LIST {
            AttributeValue::DebugLineRef(DebugLineOffset(offset))
        } else if name == DW_AT_RANGES {
            AttributeValue::RangeListsRef(RangeListsOffset(offset))
        } else if spec_names_location(name) {
            AttributeValue::LocationListsRef(LocationListsOffset(offset))
        } else if name == DW_AT_STR_OFFSETS_BASE {
            AttributeValue::DebugStrOffsetsBase(DebugStrOffsetsBase(offset))
        } else if name == DW_AT_ADDR_BASE {
            AttributeValue::DebugAddrBase(DebugAddrBase(offset))
        } else if name == DW_AT_RNGLISTS_BASE {
            AttributeValue::DebugRngListsBase(DebugRngListsBase(offset))
        } else if name == DW_AT_LOCLISTS_BASE {
            AttributeValue::DebugLocListsBase(DebugLocListsBase(offset))
        } else {
            raw
        },
    }
}

/// What a value means for a name does not depend on how runs of bytes are
/// held.
pub proof fn lemma_normalize_view(name: u16, raw: AttributeValue<EndianSlice>)
    ensures
        spec_normalize(name, raw)@ == spec_normalize(name, raw@),
{
}

impl<R: Copy> Attribute<R> {
    /// The attribute's name.
    pub fn name(&self) -> (r: DwAt)
        ensures
            r == self.name,
    {
        self.name
    }

    /// The attribute's value as it was decoded.
    pub fn raw_value(&self) -> (r: AttributeValue<R>)
        ensures
            r == self.value,
    {
        self.value
    }

    /// The attribute's value, as its name says to read it.
    pub fn value(&self) -> (r: AttributeValue<R>)
        ensures
            r == spec_normalize(self.name.0, self.value),
    {
        let offset: usize = match self.value {
            AttributeValue::SecOffset(offset) => offset,
            AttributeValue::Data4(data) => data as usize,
            AttributeValue::Data8(data) => if data <= usize::MAX as u64 {
                data as usize
            } else {
                return self.value;
            },
            _ => { return self.value; },
        };
        let name: u16 = self.name.0;
        if name == DW_AT_STMT_LIST {
            AttributeValue::DebugLineRef(DebugLineOffset(offset))
        } else if name == DW_AT_RANGES {
            AttributeValue::RangeListsRef(RangeListsOffset(offset))
        } else if name == DW_AT_LOCATION || name == DW_AT_STRING_LENGTH || name
            == DW_AT_RETURN_ADDR || name == DW_AT_DATA_MEMBER_LOCATION || name == DW_AT_FRAME_BASE
            || name == DW_AT_SEGMENT || name == DW_AT_STATIC_LINK || name == DW_AT_USE_LOCATION
            || name == DW_AT_VTABLE_ELEM_LOCATION {
            AttributeValue::LocationListsRef(LocationListsOffset(offset))
        } else if name == DW_AT_STR_OFFSETS_BASE {
            AttributeValue::DebugStrOffsetsBase(DebugStrOffsetsBase(offset))
        } else if name == DW_AT_ADDR_BASE {
            AttributeValue::DebugAddrBase(DebugAddrBase(offset))
        } else if name == DW_AT_RNGLISTS_BASE {
            AttributeValue::DebugRngListsBase(DebugRngListsBase(offset))
        } else if name == DW_AT_LOCLISTS_BASE {
            AttributeValue::DebugLocListsBase(DebugLocListsBase(offset))
        } else {
            self.value
        }
    }
}

} // verus!
