use vstd::prelude::*;

verus! {

/// What can go wrong while reading or resolving debugging information.
///
/// Every failure is returned to the caller; nothing here recovers from one.
#[derive(Debug, Clone, Copy, PartialEq, Eq, Structural)]
pub enum Error {
    /// A read would run past the end of its section.
    UnexpectedEof,
    /// An address size other than 1, 2, 4 or 8 bytes.
    UnsupportedAddressSize(u8),
    /// An offset that cannot be held in a machine word.
    UnsupportedOffset,
    /// An unsigned LEB128 number wider than 64 bits.
    BadUnsignedLeb128,
    /// A signed LEB128 number wider than 64 bits.
    BadSignedLeb128,
    /// An initial length in the reserved range.
    UnknownReservedLength,
    /// A DWARF version that is not read here.
    UnknownVersion(u64),
    /// A unit type that is not read here.
    UnsupportedUnitType,
    /// An abbreviation declared with tag zero.
    AbbreviationTagZero,
    /// A has-children byte that is neither 0 nor 1.
    BadHasChildren,
    /// Two abbreviations of one table share a code.
    DuplicateAbbreviationCode,
    /// An attribute specification with a name but form zero.
    AttributeFormZero,
    /// An attribute specification with a form but name zero.
    ExpectedZero,
    /// An attribute form that is not known.
    UnknownForm,
    /// An entry names an abbreviation code that its table lacks.
    UnknownAbbreviation,
    /// A range list or location list entry of unknown kind.
    InvalidAddressRange,
    /// A line number program header with an opcode base of zero.
    OpcodeBaseZero,
    /// A line number program header with a line range of zero.
    LineRangeZero,
    /// A string was asked of an attribute value that has no string form.
    ExpectedStringAttributeValue,
    /// A unit without any debugging information entry.
    MissingUnitDie,
}

} // verus!
