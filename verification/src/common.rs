use vstd::prelude::*;

verus! {

/// Whether offsets and lengths are 4 or 8 bytes wide.
#[derive(Debug, Clone, Copy, PartialEq, Eq, Structural)]
pub enum Format {
    /// 32-bit DWARF: offsets are 4 bytes.
    Dwarf32,
    /// 64-bit DWARF: offsets are 8 bytes.
    Dwarf64,
}

impl Format {
    /// The width in bytes of an offset in this format.
    pub open spec fn spec_word_size(self) -> int {
        match self {
            Format::Dwarf32 => 4,
            Format::Dwarf64 => 8,
        }
    }

    /// The width in bytes of an offset in this format.
    pub fn word_size(self) -> (n: u8)
        ensures
            n == self.spec_word_size(),
    {
        match self {
            Format::Dwarf32 => 4,
            Format::Dwarf64 => 8,
        }
    }
}

/// The parameters that decide how a unit's data is encoded.
#[derive(Debug, Clone, Copy, PartialEq, Eq, Structural)]
pub struct Encoding {
    /// The size of a target address in bytes.
    pub address_size: u8,
    /// Whether offsets are 4 or 8 bytes.
    pub format: Format,
    /// The DWARF version of the unit.
    pub version: u16,
}

/// An offset into the `.debug_abbrev` section.
#[derive(Debug, Clone, Copy, PartialEq, Eq, Structural)]
pub struct DebugAbbrevOffset(pub usize);

/// The start of a unit's entries in the `.debug_addr` section.
#[derive(Debug, Clone, Copy, PartialEq, Eq, Structural)]
pub struct DebugAddrBase(pub usize);

/// An index into a unit's entries in the `.debug_addr` section.
#[derive(Debug, Clone, Copy, PartialEq, Eq, Structural)]
pub struct DebugAddrIndex(pub usize);

/// An offset into the `.debug_info` section.
#[derive(Debug, Clone, Copy, PartialEq, Eq, Structural)]
pub struct DebugInfoOffset(pub usize);

/// An offset into the `.debug_line` section.
#[derive(Debug, Clone, Copy, PartialEq, Eq, Structural)]
pub struct DebugLineOffset(pub usize);

/// An offset into the `.debug_line_str` section.
#[derive(Debug, Clone, Copy, PartialEq, Eq, Structural)]
pub struct DebugLineStrOffset(pub usize);

/// The start of a unit's offset table in the `.debug_loclists` section.
#[derive(Debug, Clone, Copy, PartialEq, Eq, Structural)]
pub struct DebugLocListsBase(pub usize);

/// An index into a unit's offset table in the `.debug_loclists` section.
#[derive(Debug, Clone, Copy, PartialEq, Eq, Structural)]
pub struct DebugLocListsIndex(pub usize);

/// The start of a unit's offset table in the `.debug_rnglists` section.
#[derive(Debug, Clone, Copy, PartialEq, Eq, Structural)]
pub struct DebugRngListsBase(pub usize);

/// An index into a unit's offset table in the `.debug_rnglists` section.
#[derive(Debug, Clone, Copy, PartialEq, Eq, Structural)]
pub struct DebugRngListsIndex(pub usize);

/// An offset into the `.debug_str` section.
#[derive(Debug, Clone, Copy, PartialEq, Eq, Structural)]
pub struct DebugStrOffset(pub usize);

/// The start of a unit's entries in the `.debug_str_offsets` section.
#[derive(Debug, Clone, Copy, PartialEq, Eq, Structural)]
pub struct DebugStrOffsetsBase(pub usize);

/// An index into a unit's entries in the `.debug_str_offsets` section.
#[derive(Debug, Clone, Copy, PartialEq, Eq, Structural)]
pub struct DebugStrOffsetsIndex(pub usize);

/// An offset into the `.debug_types` section.
#[derive(Debug, Clone, Copy, PartialEq, Eq, Structural)]
pub struct DebugTypesOffset(pub usize);

/// An offset into the `.debug_loc` or the `.debug_loclists` section.
#[derive(Debug, Clone, Copy, PartialEq, Eq, Structural)]
pub struct LocationListsOffset(pub usize);

/// An offset into the `.debug_ranges` or the `.debug_rnglists` section.
#[derive(Debug, Clone, Copy, PartialEq, Eq, Structural)]
pub struct RangeListsOffset(pub usize);

} // verus!
