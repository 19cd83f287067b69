use crate::abbrev::{spec_abbreviations, AbbreviationModel, Abbreviations, DebugAbbrev};
use crate::entries::EntriesCursor;
use crate::common::{DebugAbbrevOffset, DebugInfoOffset, DebugTypesOffset, Encoding, Format};
use crate::constants::{
    DW_UT_COMPILE, DW_UT_PARTIAL, DW_UT_SKELETON, DW_UT_SPLIT_COMPILE, DW_UT_SPLIT_TYPE,
    DW_UT_TYPE,
};
use crate::endian::{
    spec_read_offset, spec_read_u16, spec_read_u32, spec_read_u64, spec_read_u8, EndianSlice,
    RunTimeEndian,
};
use crate::error::Error;
use vstd::prelude::*;

verus! {

/// The initial length at `pos`: the length it gives, the format it selects,
/// and the position behind it.
///
/// Four bytes below `0xffff_fff0` are a length in 32-bit DWARF. Four bytes
/// `0xffff_ffff` select 64-bit DWARF, and the length is in the eight bytes
/// behind them. The values between are reserved.
pub open spec fn spec_initial_length(s: Seq<u8>, endian: RunTimeEndian, pos: int) -> Result<
    (usize, Format, usize),
    Error,
> {
    match spec_read_u32(s, pos, endian) {
        Err(e) => Err(e),
        Ok(short) => if short < 0xffff_fff0 {
            Ok((short as usize, Format::Dwarf32, (pos + 4) as usize))
        } else if short != 0xffff_ffff {
            Err(Error::UnknownReservedLength)
        } else {
            match spec_read_u64(s, pos + 4, endian) {
                Err(e) => Err(e),
                Ok(long) => if long > usize::MAX {
                    Err(Error::UnsupportedOffset)
                } else {
                    Ok((long as usize, Format::Dwarf64, (pos + 12) as usize))
                },
            }
        },
    }
}

/// Reads the initial length at `pos`.
pub fn read_initial_length(input: &EndianSlice, pos: usize) -> (r: Result<
    (usize, Format, usize),
    Error,
>)
    ensures
        r == spec_initial_length(input@, input.endian, pos as int),
{
    proof {
        input.lemma_len_fits();
    }
    let short: u32 = match input.read_u32(pos) {
        Ok(short) => short,
        Err(e) => { return Err(e); },
    };
    if short < 0xffff_fff0 {
        Ok((short as usize, Format::Dwarf32, pos + 4))
    } else if short != 0xffff_ffff {
        Err(Error::UnknownReservedLength)
    } else {
        match input.read_u64(pos + 4) {
            Err(e) => Err(e),
            Ok(long) => if long > usize::MAX as u64 {
                Err(Error::UnsupportedOffset)
            } else {
                Ok((long as usize, Format::Dwarf64, pos + 12))
            },
        }
    }
}

/// Whether a unit of the given type may stand in the section that is read:
/// type units in a section of type units, the others elsewhere.
pub open spec fn unit_type_fits(unit_type: u8, type_unit: bool) -> bool {
    if type_unit {
        unit_type == DW_UT_TYPE || unit_type == DW_UT_SPLIT_TYPE
    } else {
        unit_type == DW_UT_COMPILE || unit_type == DW_UT_PARTIAL || unit_type == DW_UT_SKELETON
            || unit_type == DW_UT_SPLIT_COMPILE
    }
}

/// What every unit header starts with.
#[derive(Debug, Clone, Copy, PartialEq, Eq, Structural)]
pub struct HeaderPrefix {
    /// The unit's encoding.
    pub encoding: Encoding,
    /// The unit's length, not counting the initial length itself.
    pub unit_length: usize,
    /// Where the unit's abbreviations start in `.debug_abbrev`.
    pub debug_abbrev_offset: DebugAbbrevOffset,
    /// The position behind the fields that all unit headers share.
    pub rest: usize,
    /// The position behind the unit.
    pub end: usize,
}

/// The fields that the header at `pos` shares with all unit headers.
///
/// The unit reaches as far as its length says, and nothing is read from
/// behind it: a length that leads past the section's end, or fields that do
/// not fit into the unit, are `UnexpectedEof`. Versions 2 to 5 are read. Up to
/// version 4 the abbreviation offset comes before the address size; version 5
/// has the unit's type first, and the address size before the offset.
pub open spec fn spec_header_prefix(s: Seq<u8>, endian: RunTimeEndian, pos: int, type_unit: bool) -> Result<
    HeaderPrefix,
    Error,
> {
    match spec_initial_length(s, endian, pos) {
        Err(e) => Err(e),
        Ok((unit_length, format, start)) => if start + unit_length > s.len() {
            Err(Error::UnexpectedEof)
        } else {
            let end = (start + unit_length) as usize;
            let unit = s.subrange(0, end as int);
            let word = format.spec_word_size();
            match spec_read_u16(unit, start as int, endian) {
                Err(e) => Err(e),
                Ok(version) => if version < 2 || version > 5 {
                    Err(Error::UnknownVersion(version as u64))
                } else if version <= 4 {
                    match spec_read_offset(unit, start + 2, format, endian) {
                        Err(e) => Err(e),
                        Ok(abbrev) => match spec_read_u8(unit, start + 2 + word) {
                            Err(e) => Err(e),
                            Ok(address_size) => Ok(
                                HeaderPrefix {
                                    encoding: Encoding { address_size, format, version },
                                    unit_length,
                                    debug_abbrev_offset: DebugAbbrevOffset(abbrev),
                                    rest: (start + 3 + word) as usize,
                                    end,
                                },
                            ),
                        },
                    }
                } else {
                    match spec_read_u8(unit, start + 2) {
                        Err(e) => Err(e),
                        Ok(unit_type) => if !unit_type_fits(unit_type, type_unit) {
                            Err(Error::UnsupportedUnitType)
                        } else {
                            match spec_read_u8(unit, start + 3) {
                                Err(e) => Err(e),
                                Ok(address_size) => match spec_read_offset(
                                    unit,
                                    start + 4,
                                    format,
                                    endian,
                                ) {
                                    Err(e) => Err(e),
                                    Ok(abbrev) => Ok(
                                        HeaderPrefix {
                                            encoding: Encoding { address_size, format, version },
                                            unit_length,
                                            debug_abbrev_offset: DebugAbbrevOffset(abbrev),
                                            rest: (start + 4 + word) as usize,
                                            end,
                                        },
                                    ),
                                },
                            }
                        },
                    }
                },
            }
        },
    }
}

/// A header's shared fields end within its unit, which starts behind `pos`
/// and ends within the section.
pub proof fn lemma_header_prefix_bounds(s: Seq<u8>, endian: RunTimeEndian, pos: int, type_unit: bool)
    requires
        0 <= pos,
        s.len() <= usize::MAX,
    ensures
        spec_header_prefix(s, endian, pos, type_unit) matches Ok(prefix) ==> pos + 4 < prefix.rest
            <= prefix.end <= s.len(),
{
}

/// Reads the fields that the header at `pos` shares with all unit headers.
pub fn parse_header_prefix(input: &EndianSlice, pos: usize, type_unit: bool) -> (r: Result<
    HeaderPrefix,
    Error,
>)
    ensures
        r == spec_header_prefix(input@, input.endian, pos as int, type_unit),
{
    let len: usize = input.len();
    let (unit_length, format, start) = match read_initial_length(input, pos) {
        Ok(initial) => initial,
        Err(e) => { return Err(e); },
    };
    if unit_length > len - start {
        return Err(Error::UnexpectedEof);
    }
    let end: usize = start + unit_length;
    let unit = input.range(0, end);
    let word: usize = format.word_size() as usize;
    let version: u16 = match unit.read_u16(start) {
        Ok(version) => version,
        Err(e) => { return Err(e); },
    };
    if version < 2 || version > 5 {
        return Err(Error::UnknownVersion(version as u64));
    }
    if version <= 4 {
        let abbrev: usize = match unit.read_offset(start + 2, format) {
            Ok(abbrev) => abbrev,
            Err(e) => { return Err(e); },
        };
        let address_size: u8 = match unit.read_u8(start + 2 + word) {
            Ok(size) => size,
            Err(e) => { return Err(e); },
        };
        Ok(
            HeaderPrefix {
                encoding: Encoding { address_size, format, version },
                unit_length,
                debug_abbrev_offset: DebugAbbrevOffset(abbrev),
                rest: start + 3 + word,
                end,
            },
        )
    } else {
        let unit_type: u8 = match unit.read_u8(start + 2) {
            Ok(unit_type) => unit_type,
            Err(e) => { return Err(e); },
        };
        let fits: bool = if type_unit {
            unit_type == DW_UT_TYPE || unit_type == DW_UT_SPLIT_TYPE
        } else {
            unit_type == DW_UT_COMPILE || unit_type == DW_UT_PARTIAL || unit_type
                == DW_UT_SKELETON || unit_type == DW_UT_SPLIT_COMPILE
        };
        if !fits {
            return Err(Error::UnsupportedUnitType);
        }
        let address_size: u8 = match unit.read_u8(start + 3) {
            Ok(size) => size,
            Err(e) => { return Err(e); },
        };
        let abbrev: usize = match unit.read_offset(start + 4, format) {
            Ok(abbrev) => abbrev,
            Err(e) => { return Err(e); },
        };
        Ok(
            HeaderPrefix {
                encoding: Encoding { address_size, format, version },
                unit_length,
                debug_abbrev_offset: DebugAbbrevOffset(abbrev),
                rest: start + 4 + word,
                end,
            },
        )
    }
}

/// The header of a unit: how its data is encoded, where its abbreviations
/// are, and the bytes of its debugging information entries.
#[derive(Debug, Clone, Copy, PartialEq, Eq)]
pub struct UnitHeader<'a> {
    /// The unit's encoding.
    pub encoding: Encoding,
    /// The unit's length, not counting the initial length itself.
    pub unit_length: usize,
    /// Where the unit's abbreviations start in `.debug_abbrev`.
    pub debug_abbrev_offset: DebugAbbrevOffset,
    /// The bytes of the unit behind its header: its entries.
    pub entries_buf: EndianSlice<'a>,
}

impl<'a> UnitHeader<'a> {
    /// A header with the given fields.
    pub fn new(
        encoding: Encoding,
        unit_length: usize,
        debug_abbrev_offset: DebugAbbrevOffset,
        entries_buf: EndianSlice<'a>,
    ) -> (r: Self)
        ensures
            r == (UnitHeader { encoding, unit_length, debug_abbrev_offset, entries_buf }),
    {
        UnitHeader { encoding, unit_length, debug_abbrev_offset, entries_buf }
    }

    /// Whether this header has the shared fields `prefix`, and as entries
    /// the bytes of `s` from `start` to the unit's end.
    pub open spec fn is(self, s: Seq<u8>, endian: RunTimeEndian, prefix: HeaderPrefix, start: int) -> bool {
        &&& self.encoding == prefix.encoding
        &&& self.unit_length == prefix.unit_length
        &&& self.debug_abbrev_offset == prefix.debug_abbrev_offset
        &&& 0 <= start <= prefix.end <= s.len()
        &&& self.entries_buf@ == s.subrange(start, prefix.end as int)
        &&& self.entries_buf.endian == endian
    }

    /// Reads the unit's abbreviations from `debug_abbrev`.
    pub fn abbreviations(&self, debug_abbrev: &DebugAbbrev) -> (r: Result<Abbreviations, Error>)
        ensures
            match r {
                Ok(table) => spec_abbreviations(
                    debug_abbrev.section@,
                    self.debug_abbrev_offset.0 as int,
                    Seq::empty(),
                ) == Ok::<Seq<AbbreviationModel>, Error>(table@),
                Err(e) => spec_abbreviations(
                    debug_abbrev.section@,
                    self.debug_abbrev_offset.0 as int,
                    Seq::empty(),
                ) == Err::<Seq<AbbreviationModel>, Error>(e),
            },
    {
        debug_abbrev.abbreviations(self.debug_abbrev_offset)
    }

    /// A cursor at the first of the unit's entries, which reads them with
    /// the given abbreviations.
    pub fn entries<'u>(&self, abbreviations: &'u Abbreviations) -> (r: EntriesCursor<'a, 'u>)
        ensures
            r.input == self.entries_buf,
            r.pos == 0,
            r.encoding == self.encoding,
            r.abbreviations == abbreviations,
    {
        EntriesCursor { input: self.entries_buf, pos: 0, encoding: self.encoding, abbreviations }
    }

    /// The unit's encoding.
    pub fn encoding(&self) -> (r: Encoding)
        ensures
            r == self.encoding,
    {
        self.encoding
    }

    /// The unit's DWARF version.
    pub fn version(&self) -> (r: u16)
        ensures
            r == self.encoding.version,
    {
        self.encoding.version
    }

    /// The size of an address in the unit.
    pub fn address_size(&self) -> (r: u8)
        ensures
            r == self.encoding.address_size,
    {
        self.encoding.address_size
    }

    /// Whether the unit's offsets are 4 or 8 bytes wide.
    pub fn format(&self) -> (r: Format)
        ensures
            r == self.encoding.format,
    {
        self.encoding.format
    }

    /// The unit's length, not counting the initial length itself.
    pub fn unit_length(&self) -> (r: usize)
        ensures
            r == self.unit_length,
    {
        self.unit_length
    }

    /// Where the unit's abbreviations start in `.debug_abbrev`.
    pub fn debug_abbrev_offset(&self) -> (r: DebugAbbrevOffset)
        ensures
            r == self.debug_abbrev_offset,
    {
        self.debug_abbrev_offset
    }
}

/// The header of a compilation unit or partial unit.
#[derive(Debug, Clone, Copy, PartialEq, Eq)]
pub struct CompilationUnitHeader<'a> {
    /// The fields of every unit header.
    pub header: UnitHeader<'a>,
    /// Where the unit starts in `.debug_info`.
    pub offset: DebugInfoOffset,
}

/// The header of a type unit.
#[derive(Debug, Clone, Copy, PartialEq, Eq)]
pub struct TypeUnitHeader<'a> {
    /// The fields of every unit header.
    pub header: UnitHeader<'a>,
    /// Where the unit starts in `.debug_types`.
    pub offset: DebugTypesOffset,
    /// The signature of the type that the unit describes.
    pub type_signature: u64,
    /// Where, from the unit's start, the entry of that type is.
    pub type_offset: usize,
}

/// What the header of a type unit holds behind the shared fields: the
/// type's signature, the offset of its entry, and the position behind both.
pub open spec fn spec_type_fields(s: Seq<u8>, endian: RunTimeEndian, prefix: HeaderPrefix) -> Result<
    (u64, usize, usize),
    Error,
> {
    let unit = s.subrange(0, prefix.end as int);
    match spec_read_u64(unit, prefix.rest as int, endian) {
        Err(e) => Err(e),
        Ok(signature) => match spec_read_offset(
            unit,
            prefix.rest + 8,
            prefix.encoding.format,
            endian,
        ) {
            Err(e) => Err(e),
            Ok(offset) => Ok(
                (signature, offset, (prefix.rest + 8 + prefix.encoding.format.spec_word_size()) as usize),
            ),
        },
    }
}

/// The unit headers of a `.debug_info` section, one per call, in the order
/// in which the units lie in the section.
///
/// Once the section's end is met, or a header cannot be read, the offset is
/// the section's length and nothing more comes.
#[derive(Debug, Clone, Copy, PartialEq, Eq)]
pub struct CompilationUnitHeadersIter<'a> {
    /// The section.
    pub input: EndianSlice<'a>,
    /// Where the next unit starts.
    pub offset: DebugInfoOffset,
}

impl<'a> CompilationUnitHeadersIter<'a> {
    /// This iterator with nothing left to read.
    pub open spec fn spec_emptied(self) -> Self {
        CompilationUnitHeadersIter { offset: DebugInfoOffset(self.input@.len() as usize), ..self }
    }

    /// The iterator after one call of `next`, and the shared fields of the
    /// header that the call returns.
    pub open spec fn spec_next(self) -> (Self, Result<Option<HeaderPrefix>, Error>) {
        if self.offset.0 >= self.input@.len() {
            (self, Ok(None))
        } else {
            match spec_header_prefix(self.input@, self.input.endian, self.offset.0 as int, false) {
                Ok(prefix) => (
                    CompilationUnitHeadersIter { offset: DebugInfoOffset(prefix.end), ..self },
                    Ok(Some(prefix)),
                ),
                Err(e) => (self.spec_emptied(), Err(e)),
            }
        }
    }

    /// Whether `r` is what a call of `next` on `self` returns.
    pub open spec fn next_is(self, r: Result<Option<CompilationUnitHeader<'a>>, Error>) -> bool {
        match r {
            Ok(Some(unit)) => self.spec_next().1 matches Ok(Some(prefix)) && unit.offset
                == self.offset && unit.header.is(
                self.input@,
                self.input.endian,
                prefix,
                prefix.rest as int,
            ),
            Ok(None) => self.spec_next().1 == Ok::<Option<HeaderPrefix>, Error>(None),
            Err(e) => self.spec_next().1 == Err::<Option<HeaderPrefix>, Error>(e),
        }
    }

    /// Reads the next unit header.
    ///
    /// Gives `None` at the section's end and ever after. A header that cannot
    /// be read gives its error once; after it the section counts as ended.
    pub fn next(&mut self) -> (r: Result<Option<CompilationUnitHeader<'a>>, Error>)
        ensures
            *final(self) == old(self).spec_next().0,
            old(self).next_is(r),
    {
        let len: usize = self.input.len();
        if self.offset.0 >= len {
            return Ok(None);
        }
        proof {
            lemma_header_prefix_bounds(self.input@, self.input.endian, self.offset.0 as int, false);
        }
        match parse_header_prefix(&self.input, self.offset.0, false) {
            Ok(prefix) => {
                let header = UnitHeader {
                    encoding: prefix.encoding,
                    unit_length: prefix.unit_length,
                    debug_abbrev_offset: prefix.debug_abbrev_offset,
                    entries_buf: self.input.range(prefix.rest, prefix.end),
                };
                let offset = self.offset;
                self.offset = DebugInfoOffset(prefix.end);
                Ok(Some(CompilationUnitHeader { header, offset }))
            },
            Err(e) => {
                self.offset = DebugInfoOffset(len);
                Err(e)
            },
        }
    }
}

/// The unit headers of a `.debug_types` section, one per call, in the order
/// in which the units lie in the section.
///
/// Once the section's end is met, or a header cannot be read, the offset is
/// the section's length and nothing more comes.
#[derive(Debug, Clone, Copy, PartialEq, Eq)]
pub struct TypeUnitHeadersIter<'a> {
    /// The section.
    pub input: EndianSlice<'a>,
    /// Where the next unit starts.
    pub offset: DebugTypesOffset,
}

impl<'a> TypeUnitHeadersIter<'a> {
    /// This iterator with nothing left to read.
    pub open spec fn spec_emptied(self) -> Self {
        TypeUnitHeadersIter { offset: DebugTypesOffset(self.input@.len() as usize), ..self }
    }

    /// The iterator after one call of `next`, and of the header that the call
    /// returns the shared fields, the type's signature, the offset of its
    /// entry, and where the unit's entries start.
    pub open spec fn spec_next(self) -> (
        Self,
        Result<Option<(HeaderPrefix, u64, usize, usize)>, Error>,
    ) {
        if self.offset.0 >= self.input@.len() {
            (self, Ok(None))
        } else {
            match spec_header_prefix(self.input@, self.input.endian, self.offset.0 as int, true) {
                Ok(prefix) => match spec_type_fields(self.input@, self.input.endian, prefix) {
                    Ok((signature, offset, start)) => (
                        TypeUnitHeadersIter { offset: DebugTypesOffset(prefix.end), ..self },
                        Ok(Some((prefix, signature, offset, start))),
                    ),
                    Err(e) => (self.spec_emptied(), Err(e)),
                },
                Err(e) => (self.spec_emptied(), Err(e)),
            }
        }
    }

    /// Whether `r` is what a call of `next` on `self` returns.
    pub open spec fn next_is(self, r: Result<Option<TypeUnitHeader<'a>>, Error>) -> bool {
        match r {
            Ok(Some(unit)) => self.spec_next().1 matches Ok(
                Some((prefix, signature, offset, start)),
            ) && unit.offset == self.offset && unit.type_signature == signature
                && unit.type_offset == offset && unit.header.is(
                self.input@,
                self.input.endian,
                prefix,
                start as int,
            ),
            Ok(None) => self.spec_next().1 == Ok::<Option<(HeaderPrefix, u64, usize, usize)>, Error>(
                None,
            ),
            Err(e) => self.spec_next().1 == Err::<Option<(HeaderPrefix, u64, usize, usize)>, Error>(
                e,
            ),
        }
    }

    /// Reads the next unit header.
    ///
    /// Gives `None` at the section's end and ever after. A header that cannot
    /// be read gives its error once; after it the section counts as ended.
    pub fn next(&mut self) -> (r: Result<Option<TypeUnitHeader<'a>>, Error>)
        ensures
            *final(self) == old(self).spec_next().0,
            old(self).next_is(r),
    {
        let len: usize = self.input.len();
        if self.offset.0 >= len {
            return Ok(None);
        }
        proof {
            lemma_header_prefix_bounds(self.input@, self.input.endian, self.offset.0 as int, true);
        }
        let prefix = match parse_header_prefix(&self.input, self.offset.0, true) {
            Ok(prefix) => prefix,
            Err(e) => {
                self.offset = DebugTypesOffset(len);
                return Err(e);
            },
        };
        let unit = self.input.range(0, prefix.end);
        let format = prefix.encoding.format;
        let type_signature: u64 = match unit.read_u64(prefix.rest) {
            Ok(signature) => signature,
            Err(e) => {
                self.offset = DebugTypesOffset(len);
                return Err(e);
            },
        };
        let type_offset: usize = match unit.read_offset(prefix.rest + 8, format) {
            Ok(offset) => offset,
            Err(e) => {
                self.offset = DebugTypesOffset(len);
                return Err(e);
            },
        };
        let start: usize = prefix.rest + 8 + format.word_size() as usize;
        let header = UnitHeader {
            encoding: prefix.encoding,
            unit_length: prefix.unit_length,
            debug_abbrev_offset: prefix.debug_abbrev_offset,
            entries_buf: self.input.range(start, prefix.end),
        };
        let offset = self.offset;
        self.offset = DebugTypesOffset(prefix.end);
        Ok(Some(TypeUnitHeader { header, offset, type_signature, type_offset }))
    }
}

/// The `.debug_info` section: the compilation units and partial units.
#[derive(Debug, Clone, Copy, PartialEq, Eq)]
pub struct DebugInfo<'a> {
    /// The section's bytes.
    pub section: EndianSlice<'a>,
}

impl<'a> DebugInfo<'a> {
    /// The section held in `section`, with integers in the byte order `endian`.
    pub fn new(section: &'a [u8], endian: RunTimeEndian) -> (r: Self)
        ensures
            r.section.slice == section,
            r.section.endian == endian,
    {
        DebugInfo { section: EndianSlice::new(section, endian) }
    }

    /// Starts at the section's first unit.
    pub fn units(&self) -> (r: CompilationUnitHeadersIter<'a>)
        ensures
            r == (CompilationUnitHeadersIter { input: self.section, offset: DebugInfoOffset(0) }),
    {
        CompilationUnitHeadersIter { input: self.section, offset: DebugInfoOffset(0) }
    }
}

/// The `.debug_types` section: the type units.
#[derive(Debug, Clone, Copy, PartialEq, Eq)]
pub struct DebugTypes<'a> {
    /// The section's bytes.
    pub section: EndianSlice<'a>,
}

impl<'a> DebugTypes<'a> {
    /// The section held in `section`, with integers in the byte order `endian`.
    pub fn new(section: &'a [u8], endian: RunTimeEndian) -> (r: Self)
        ensures
            r.section.slice == section,
            r.section.endian == endian,
    {
        DebugTypes { section: EndianSlice::new(section, endian) }
    }

    /// Starts at the section's first unit.
    pub fn units(&self) -> (r: TypeUnitHeadersIter<'a>)
        ensures
            r == (TypeUnitHeadersIter { input: self.section, offset: DebugTypesOffset(0) }),
    {
        TypeUnitHeadersIter { input: self.section, offset: DebugTypesOffset(0) }
    }
}

} // verus!
