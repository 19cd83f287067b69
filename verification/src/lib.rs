//! Resolution of DWARF debugging information.
//!
//! A [`Dwarf`] gathers the sections of one object file. From it a caller
//! walks the unit headers, builds a [`DwarfUnit`] for each unit, and resolves
//! the attribute values found in that unit: strings, addresses, range lists
//! and location lists, in whichever form the producer chose to encode them.

pub mod abbrev;
pub mod addr;
pub mod common;
pub mod constants;
pub mod dwarf;
pub mod endian;
pub mod entries;
pub mod error;
pub mod laws;
pub mod leb128;
pub mod line;
pub mod loclists;
pub mod rnglists;
pub mod root;
pub mod strings;
pub mod unit;
pub mod value;

pub use abbrev::{Abbreviation, Abbreviations, AttributeSpecification, DebugAbbrev};
pub use addr::DebugAddr;
pub use common::{
    DebugAbbrevOffset, DebugAddrBase, DebugAddrIndex, DebugInfoOffset, DebugLineOffset,
    DebugLineStrOffset, DebugLocListsBase, DebugLocListsIndex, DebugRngListsBase,
    DebugRngListsIndex, DebugStrOffset, DebugStrOffsetsBase, DebugStrOffsetsIndex,
    DebugTypesOffset, Encoding, Format, LocationListsOffset, RangeListsOffset,
};
pub use constants::{DwAt, DwForm, DwTag};
pub use dwarf::{Dwarf, DwarfUnit};
pub use endian::{EndianSlice, RunTimeEndian};
pub use entries::{DebuggingInformationEntry, EntriesCursor};
pub use error::Error;
pub use line::{DebugLine, IncompleteLineProgram, LineProgramFields};
pub use loclists::{
    DebugLoc, DebugLocLists, LocListIter, LocationListEntry, LocationLists, RawLocListEntry,
    RawLocListIter, RawLocListPlace,
};
pub use rnglists::{
    DebugRanges, DebugRngLists, Range, RangeLists, RawRngListEntry, RawRngListIter, RngListIter,
};
pub use root::RootAttributes;
pub use strings::{DebugLineStr, DebugStr, DebugStrOffsets};
pub use unit::{
    CompilationUnitHeader, CompilationUnitHeadersIter, DebugInfo, DebugTypes, TypeUnitHeader,
    TypeUnitHeadersIter, UnitHeader,
};
pub use value::{Attribute, AttributeValue, Expression};
