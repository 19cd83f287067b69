use crate::abbrev::{spec_abbreviations, AbbreviationModel, Abbreviations, DebugAbbrev};
use crate::addr::{spec_address, DebugAddr};
use crate::common::{
    DebugAddrBase, DebugAddrIndex, DebugLocListsBase, DebugLocListsIndex, DebugRngListsBase,
    DebugRngListsIndex, DebugStrOffsetsBase, Encoding, LocationListsOffset, RangeListsOffset,
};
use crate::endian::{spec_offset_entry, spec_read_null_terminated, EndianSlice};
use crate::entries::{spec_next_dfs, EntriesCursor};
use crate::error::Error;
use crate::line::{spec_line_program, DebugLine, IncompleteLineProgram, LineProgramFields};
use crate::loclists::{DebugLoc, DebugLocLists, LocListIter, LocationLists};
use crate::rnglists::{DebugRanges, DebugRngLists, RangeLists, RngListIter};
use crate::root::{
    lemma_scan_root_view, scan_root_attributes, spec_scan_root, view_value, RootAttributes,
};
use crate::strings::{DebugLineStr, DebugStr, DebugStrOffsets};
use crate::unit::{
    CompilationUnitHeader, CompilationUnitHeadersIter, DebugInfo, DebugTypes, TypeUnitHeader,
    TypeUnitHeadersIter, UnitHeader,
};
use crate::value::AttributeValue;
use vstd::prelude::*;

verus! {

/// The sections of one object file that hold its debugging information.
///
/// Any of them may be empty. Nothing here changes a section once the value
/// is made; every unit and every iterator made from it borrows the same
/// bytes.
#[derive(Debug, Clone, Copy)]
pub struct Dwarf<'a> {
    /// The `.debug_abbrev` section.
    pub debug_abbrev: DebugAbbrev<'a>,
    /// The `.debug_addr` section.
    pub debug_addr: DebugAddr<'a>,
    /// The `.debug_info` section.
    pub debug_info: DebugInfo<'a>,
    /// The `.debug_line` section.
    pub debug_line: DebugLine<'a>,
    /// The `.debug_line_str` section.
    pub debug_line_str: DebugLineStr<'a>,
    /// The `.debug_str` section.
    pub debug_str: DebugStr<'a>,
    /// The `.debug_str_offsets` section.
    pub debug_str_offsets: DebugStrOffsets<'a>,
    /// The `.debug_str` section of a supplementary object file.
    pub debug_str_sup: DebugStr<'a>,
    /// The `.debug_types` section.
    pub debug_types: DebugTypes<'a>,
    /// The location lists: the `.debug_loc` and `.debug_loclists` sections.
    pub locations: LocationLists<'a>,
    /// The range lists: the `.debug_ranges` and `.debug_rnglists` sections.
    pub ranges: RangeLists<'a>,
}

/// What a unit is made of, as contracts see it.
pub struct UnitModel {
    /// The unit's abbreviations.
    pub abbreviations: Seq<AbbreviationModel>,
    /// What the root entry's attributes say of the unit.
    pub root: RootAttributes<Seq<u8>>,
    /// The header of the unit's line number program, if it has one.
    pub line_program: Option<LineProgramFields>,
}

/// What is commonly needed of one unit: its header, its abbreviations, and
/// what its root entry says of it.
///
/// Nothing changes these once the unit is made. Every lookup by index on
/// behalf of the unit goes by the bases held here.
#[derive(Debug)]
pub struct DwarfUnit<'a> {
    /// The unit's header.
    pub header: UnitHeader<'a>,
    /// The unit's abbreviations.
    pub abbreviations: Abbreviations,
    /// The value of the root entry's name attribute.
    pub name: Option<AttributeValue<EndianSlice<'a>>>,
    /// The value of the root entry's working directory attribute.
    pub comp_dir: Option<AttributeValue<EndianSlice<'a>>>,
    /// The unit's base address; 0 unless the root entry states one.
    pub low_pc: u64,
    /// Where the unit's string offsets start; 0 unless the root entry says.
    pub str_offsets_base: DebugStrOffsetsBase,
    /// Where the unit's addresses start; 0 unless the root entry says.
    pub addr_base: DebugAddrBase,
    /// Where the unit's location list offsets start; 0 unless the root entry
    /// says.
    pub loclists_base: DebugLocListsBase,
    /// Where the unit's range list offsets start; 0 unless the root entry
    /// says.
    pub rnglists_base: DebugRngListsBase,
    /// The unit's line number program, if the root entry names one.
    pub line_program: Option<IncompleteLineProgram<'a>>,
}

impl<'a> Default for Dwarf<'a> {
    /// No section holds anything.
    fn default() -> (r: Self)
        ensures
            r.debug_abbrev.section.spec_is_default(),
            r.debug_addr.section.spec_is_default(),
            r.debug_info.section.spec_is_default(),
            r.debug_line.section.spec_is_default(),
            r.debug_line_str.section.spec_is_default(),
            r.debug_str.section.spec_is_default(),
            r.debug_str_offsets.section.spec_is_default(),
            r.debug_str_sup.section.spec_is_default(),
            r.debug_types.section.spec_is_default(),
            r.locations.debug_loc.section.spec_is_default(),
            r.locations.debug_loclists.section.spec_is_default(),
            r.ranges.debug_ranges.section.spec_is_default(),
            r.ranges.debug_rnglists.section.spec_is_default(),
    {
        let empty = EndianSlice::default();
        Dwarf {
            debug_abbrev: DebugAbbrev { section: empty },
            debug_addr: DebugAddr { section: empty },
            debug_info: DebugInfo { section: empty },
            debug_line: DebugLine { section: empty },
            debug_line_str: DebugLineStr { section: empty },
            debug_str: DebugStr { section: empty },
            debug_str_offsets: DebugStrOffsets { section: empty },
            debug_str_sup: DebugStr { section: empty },
            debug_types: DebugTypes { section: empty },
            locations: LocationLists {
                debug_loc: DebugLoc { section: empty },
                debug_loclists: DebugLocLists { section: empty },
            },
            ranges: RangeLists {
                debug_ranges: DebugRanges { section: empty },
                debug_rnglists: DebugRngLists { section: empty },
            },
        }
    }
}

impl<'a> Dwarf<'a> {
    /// Starts at the first unit of the `.debug_info` section.
    pub fn units(&self) -> (r: CompilationUnitHeadersIter<'a>)
        ensures
            r.input == self.debug_info.section,
            r.offset.0 == 0,
    {
        self.debug_info.units()
    }

    /// Starts at the first unit of the `.debug_types` section.
    pub fn type_units(&self) -> (r: TypeUnitHeadersIter<'a>)
        ensures
            r.input == self.debug_types.section,
            r.offset.0 == 0,
    {
        self.debug_types.units()
    }

    /// Reads the abbreviations of a compilation unit.
    pub fn abbreviations(&self, unit: &CompilationUnitHeader<'a>) -> (r: Result<
        Abbreviations,
        Error,
    >)
        ensures
            match r {
                Ok(table) => spec_abbreviations(
                    self.debug_abbrev.section@,
                    unit.header.debug_abbrev_offset.0 as int,
                    Seq::empty(),
                ) == Ok::<Seq<AbbreviationModel>, Error>(table@),
                Err(e) => spec_abbreviations(
                    self.debug_abbrev.section@,
                    unit.header.debug_abbrev_offset.0 as int,
                    Seq::empty(),
                ) == Err::<Seq<AbbreviationModel>, Error>(e),
            },
    {
        unit.header.abbreviations(&self.debug_abbrev)
    }

    /// Reads the abbreviations of a type unit.
    pub fn type_abbreviations(&self, unit: &TypeUnitHeader<'a>) -> (r: Result<Abbreviations, Error>)
        ensures
            match r {
                Ok(table) => spec_abbreviations(
                    self.debug_abbrev.section@,
                    unit.header.debug_abbrev_offset.0 as int,
                    Seq::empty(),
                ) == Ok::<Seq<AbbreviationModel>, Error>(table@),
                Err(e) => spec_abbreviations(
                    self.debug_abbrev.section@,
                    unit.header.debug_abbrev_offset.0 as int,
                    Seq::empty(),
                ) == Err::<Seq<AbbreviationModel>, Error>(e),
            },
    {
        unit.header.abbreviations(&self.debug_abbrev)
    }

    /// The string that `attr` stands for in `unit`.
    ///
    /// A string held in the entry is itself. An offset into one of the three
    /// string sections is the run of bytes from there up to the next zero
    /// byte. An index is looked up in the unit's table of string offsets,
    /// which starts at the unit's base, and the offset found there is read
    /// in `.debug_str`. A value of any other kind has no string.
    pub open spec fn spec_attr_string(self, unit: DwarfUnit<'a>, attr: AttributeValue<Seq<u8>>) -> Result<
        Seq<u8>,
        Error,
    > {
        match attr {
            AttributeValue::String(run) => Ok(run),
            AttributeValue::DebugStrRef(offset) => spec_read_null_terminated(
                self.debug_str.section@,
                offset.0 as int,
            ),
            AttributeValue::DebugStrRefSup(offset) => spec_read_null_terminated(
                self.debug_str_sup.section@,
                offset.0 as int,
            ),
            AttributeValue::DebugLineStrRef(offset) => spec_read_null_terminated(
                self.debug_line_str.section@,
                offset.0 as int,
            ),
            AttributeValue::DebugStrOffsetsIndex(index) => match spec_offset_entry(
                self.debug_str_offsets.section@,
                self.debug_str_offsets.section.endian,
                unit.header.encoding.format,
                unit.str_offsets_base.0 as int,
                index.0 as int,
            ) {
                Ok(offset) => spec_read_null_terminated(self.debug_str.section@, offset as int),
                Err(e) => Err(e),
            },
            _ => Err(Error::ExpectedStringAttributeValue),
        }
    }

    /// Gives the string that `attr` stands for in `unit`, without its zero
    /// byte.
    ///
    /// Fails with `ExpectedStringAttributeValue` where `attr` has no string
    /// form, and with `UnexpectedEof` where an offset or an index leads out
    /// of its section or no zero byte ends the string.
    pub fn attr_string(&self, unit: &DwarfUnit<'a>, attr: AttributeValue<EndianSlice<'a>>) -> (r:
        Result<EndianSlice<'a>, Error>)
        ensures
            match r {
                Ok(run) => self.spec_attr_string(*unit, attr@) == Ok::<Seq<u8>, Error>(run@),
                Err(e) => self.spec_attr_string(*unit, attr@) == Err::<Seq<u8>, Error>(e),
            },
            attr matches AttributeValue::String(run) ==> r == Ok::<EndianSlice<'a>, Error>(run),
    {
        match attr {
            AttributeValue::String(run) => Ok(run),
            AttributeValue::DebugStrRef(offset) => self.debug_str.get_str(offset),
            AttributeValue::DebugStrRefSup(offset) => self.debug_str_sup.get_str(offset),
            AttributeValue::DebugLineStrRef(offset) => self.debug_line_str.get_str(offset),
            AttributeValue::DebugStrOffsetsIndex(index) => {
                match self.debug_str_offsets.get_str_offset(
                    unit.header.format(),
                    unit.str_offsets_base,
                    index,
                ) {
                    Ok(offset) => self.debug_str.get_str(offset),
                    Err(e) => Err(e),
                }
            },
            _ => Err(Error::ExpectedStringAttributeValue),
        }
    }

    /// Gives the address at `index` of the unit's table of addresses.
    ///
    /// The table starts at the unit's address base in `.debug_addr`, and its
    /// entries have the unit's address size. Fails with `UnexpectedEof` where
    /// the entry does not lie within the section, and with
    /// `UnsupportedAddressSize` where the address size is not 1, 2, 4 or 8.
    pub fn address(&self, unit: &DwarfUnit<'a>, index: DebugAddrIndex) -> (r: Result<u64, Error>)
        ensures
            r == spec_address(
                self.debug_addr.section@,
                self.debug_addr.section.endian,
                unit.header.encoding.address_size,
                unit.addr_base.0 as int,
                index.0 as int,
            ),
    {
        self.debug_addr.get_address(unit.encoding().address_size, unit.addr_base, index)
    }

    /// Gives the offset of the range list at `index` of the unit's table of
    /// range lists, which starts at the unit's range lists base.
    pub fn ranges_offset(&self, unit: &DwarfUnit<'a>, index: DebugRngListsIndex) -> (r: Result<
        RangeListsOffset,
        Error,
    >)
        ensures
            r == self.ranges.spec_get_offset(unit.header.encoding, unit.rnglists_base, index),
    {
        self.ranges.get_offset(unit.encoding(), unit.rnglists_base, index)
    }

    /// Opens the range list at `offset` for reading its ranges as absolute
    /// addresses.
    ///
    /// Offset pairs are relative to the unit's base address until the list
    /// sets another; indexed addresses are looked up in the unit's table of
    /// addresses. Each call opens a reader of its own.
    pub fn ranges(&self, unit: &DwarfUnit<'a>, offset: RangeListsOffset) -> (r: Result<
        RngListIter<'a>,
        Error,
    >)
        ensures
            r == self.ranges.spec_ranges(
                offset,
                unit.header.encoding,
                unit.low_pc,
                self.debug_addr,
                unit.addr_base,
            ),
    {
        self.ranges.ranges(offset, unit.encoding(), unit.low_pc, &self.debug_addr, unit.addr_base)
    }

    /// The offset of the range list that `attr` stands for in `unit`, if it
    /// stands for one: an offset into the range lists is itself, an index is
    /// looked up in the unit's table, and a value of any other kind stands
    /// for none.
    pub open spec fn spec_attr_ranges_offset<R>(self, unit: DwarfUnit<'a>, attr: AttributeValue<R>) -> Result<
        Option<RangeListsOffset>,
        Error,
    > {
        match attr {
            AttributeValue::RangeListsRef(offset) => Ok(Some(offset)),
            AttributeValue::DebugRngListsIndex(index) => match self.ranges.spec_get_offset(
                unit.header.encoding,
                unit.rnglists_base,
                index,
            ) {
                Ok(offset) => Ok(Some(offset)),
                Err(e) => Err(e),
            },
            _ => Ok(None),
        }
    }

    /// Gives the offset of the range list that `attr` stands for in `unit`,
    /// or `None` where `attr` is of a kind that stands for no range list.
    pub fn attr_ranges_offset(&self, unit: &DwarfUnit<'a>, attr: AttributeValue<EndianSlice<'a>>) -> (r:
        Result<Option<RangeListsOffset>, Error>)
        ensures
            r == self.spec_attr_ranges_offset(*unit, attr),
            !(attr is RangeListsRef) && !(attr is DebugRngListsIndex) ==> r == Ok::<
                Option<RangeListsOffset>,
                Error,
            >(None),
    {
        match attr {
            AttributeValue::RangeListsRef(offset) => Ok(Some(offset)),
            AttributeValue::DebugRngListsIndex(index) => match self.ranges_offset(unit, index) {
                Ok(offset) => Ok(Some(offset)),
                Err(e) => Err(e),
            },
            _ => Ok(None),
        }
    }

    /// The reader of the range list that `attr` stands for in `unit`, if it
    /// stands for one.
    pub open spec fn spec_attr_ranges<R>(self, unit: DwarfUnit<'a>, attr: AttributeValue<R>) -> Result<
        Option<RngListIter<'a>>,
        Error,
    > {
        match self.spec_attr_ranges_offset(unit, attr) {
            Ok(Some(offset)) => match self.ranges.spec_ranges(
                offset,
                unit.header.encoding,
                unit.low_pc,
                self.debug_addr,
                unit.addr_base,
            ) {
                Ok(iter) => Ok(Some(iter)),
                Err(e) => Err(e),
            },
            Ok(None) => Ok(None),
            Err(e) => Err(e),
        }
    }

    /// Opens the range list that `attr` stands for in `unit`, or gives `None`
    /// where `attr` is of a kind that stands for no range list.
    pub fn attr_ranges(&self, unit: &DwarfUnit<'a>, attr: AttributeValue<EndianSlice<'a>>) -> (r:
        Result<Option<RngListIter<'a>>, Error>)
        ensures
            r == self.spec_attr_ranges(*unit, attr),
            !(attr is RangeListsRef) && !(attr is DebugRngListsIndex) ==> r == Ok::<
                Option<RngListIter<'a>>,
                Error,
            >(None),
    {
        match self.attr_ranges_offset(unit, attr) {
            Ok(Some(offset)) => match self.ranges(unit, offset) {
                Ok(iter) => Ok(Some(iter)),
                Err(e) => Err(e),
            },
            Ok(None) => Ok(None),
            Err(e) => Err(e),
        }
    }

    /// Gives the offset of the location list at `index` of the unit's table
    /// of location lists, which starts at the unit's location lists base.
    pub fn locations_offset(&self, unit: &DwarfUnit<'a>, index: DebugLocListsIndex) -> (r: Result<
        LocationListsOffset,
        Error,
    >)
        ensures
            r == self.locations.spec_get_offset(unit.header.encoding, unit.loclists_base, index),
    {
        self.locations.get_offset(unit.encoding(), unit.loclists_base, index)
    }

    /// Opens the location list at `offset` for reading its entries, with
    /// their ranges as absolute addresses.
    ///
    /// Offset pairs are relative to the unit's base address until the list
    /// sets another; indexed addresses are looked up in the unit's table of
    /// addresses. Each call opens a reader of its own.
    pub fn locations(&self, unit: &DwarfUnit<'a>, offset: LocationListsOffset) -> (r: Result<
        LocListIter<'a>,
        Error,
    >)
        ensures
            r == self.locations.spec_locations(
                offset,
                unit.header.encoding,
                unit.low_pc,
                self.debug_addr,
                unit.addr_base,
            ),
    {
        self.locations.locations(
            offset,
            unit.encoding(),
            unit.low_pc,
            &self.debug_addr,
            unit.addr_base,
        )
    }

    /// The offset of the location list that `attr` stands for in `unit`, if
    /// it stands for one: an offset into the location lists is itself, an
    /// index is looked up in the unit's table, and a value of any other kind
    /// stands for none.
    pub open spec fn spec_attr_locations_offset<R>(self, unit: DwarfUnit<'a>, attr: AttributeValue<R>) -> Result<
        Option<LocationListsOffset>,
        Error,
    > {
        match attr {
            AttributeValue::LocationListsRef(offset) => Ok(Some(offset)),
            AttributeValue::DebugLocListsIndex(index) => match self.locations.spec_get_offset(
                unit.header.encoding,
                unit.loclists_base,
                index,
            ) {
                Ok(offset) => Ok(Some(offset)),
                Err(e) => Err(e),
            },
            _ => Ok(None),
        }
    }

    /// Gives the offset of the location list that `attr` stands for in
    /// `unit`, or `None` where `attr` is of a kind that stands for no
    /// location list.
    pub fn attr_locations_offset(&self, unit: &DwarfUnit<'a>, attr: AttributeValue<EndianSlice<'a>>) -> (r:
        Result<Option<LocationListsOffset>, Error>)
        ensures
            r == self.spec_attr_locations_offset(*unit, attr),
            !(attr is LocationListsRef) && !(attr is DebugLocListsIndex) ==> r == Ok::<
                Option<LocationListsOffset>,
                Error,
            >(None),
    {
        match attr {
            AttributeValue::LocationListsRef(offset) => Ok(Some(offset)),
            AttributeValue::DebugLocListsIndex(index) => match self.locations_offset(unit, index) {
                Ok(offset) => Ok(Some(offset)),
                Err(e) => Err(e),
            },
            _ => Ok(None),
        }
    }

    /// The reader of the location list that `attr` stands for in `unit`, if
    /// it stands for one.
    pub open spec fn spec_attr_locations<R>(self, unit: DwarfUnit<'a>, attr: AttributeValue<R>) -> Result<
        Option<LocListIter<'a>>,
        Error,
    > {
        match self.spec_attr_locations_offset(unit, attr) {
            Ok(Some(offset)) => match self.locations.spec_locations(
                offset,
                unit.header.encoding,
                unit.low_pc,
                self.debug_addr,
                unit.addr_base,
            ) {
                Ok(iter) => Ok(Some(iter)),
                Err(e) => Err(e),
            },
            Ok(None) => Ok(None),
            Err(e) => Err(e),
        }
    }

    /// Opens the location list that `attr` stands for in `unit`, or gives
    /// `None` where `attr` is of a kind that stands for no location list.
    pub fn attr_locations(&self, unit: &DwarfUnit<'a>, attr: AttributeValue<EndianSlice<'a>>) -> (r:
        Result<Option<LocListIter<'a>>, Error>)
        ensures
            r == self.spec_attr_locations(*unit, attr),
            !(attr is LocationListsRef) && !(attr is DebugLocListsIndex) ==> r == Ok::<
                Option<LocListIter<'a>>,
                Error,
            >(None),
    {
        match self.attr_locations_offset(unit, attr) {
            Ok(Some(offset)) => match self.locations(unit, offset) {
                Ok(iter) => Ok(Some(iter)),
                Err(e) => Err(e),
            },
            Ok(None) => Ok(None),
            Err(e) => Err(e),
        }
    }

    /// What the unit with the given header is made of.
    ///
    /// The unit's abbreviations are read first. The root entry is the first
    /// of the unit's entries that is no null entry; a unit without one is
    /// `MissingUnitDie`. The root entry's attributes are looked at once each.
    /// Where they name a line number program, its header is read, with the
    /// unit's address size.
    pub open spec fn spec_unit(self, header: UnitHeader<'a>) -> Result<UnitModel, Error> {
        match spec_abbreviations(
            self.debug_abbrev.section@,
            header.debug_abbrev_offset.0 as int,
            Seq::empty(),
        ) {
            Err(e) => Err(e),
            Ok(abbreviations) => match spec_next_dfs(
                header.entries_buf@,
                header.entries_buf.endian,
                0,
                header.encoding,
                abbreviations,
            ) {
                Err(e) => Err(e),
                Ok(None) => Err(Error::MissingUnitDie),
                Ok(Some((entry, next))) => {
                    let root = spec_scan_root(entry.attrs);
                    match root.line_program_offset {
                        None => Ok(UnitModel { abbreviations, root, line_program: None }),
                        Some(offset) => match spec_line_program(
                            self.debug_line.section@,
                            self.debug_line.section.endian,
                            offset.0 as int,
                            header.encoding.address_size,
                        ) {
                            Err(e) => Err(e),
                            Ok(fields) => Ok(
                                UnitModel { abbreviations, root, line_program: Some(fields) },
                            ),
                        },
                    }
                },
            },
        }
    }
}

impl<'a> DwarfUnit<'a> {
    /// Whether this unit is made of what `model` says, with the line number
    /// program read from the sections of `dwarf`.
    pub open spec fn is(self, model: UnitModel, dwarf: Dwarf<'a>) -> bool {
        &&& self.abbreviations@ == model.abbreviations
        &&& view_value(self.name) == model.root.name
        &&& view_value(self.comp_dir) == model.root.comp_dir
        &&& self.low_pc == model.root.low_pc
        &&& self.str_offsets_base == model.root.str_offsets_base
        &&& self.addr_base == model.root.addr_base
        &&& self.loclists_base == model.root.loclists_base
        &&& self.rnglists_base == model.root.rnglists_base
        &&& match self.line_program {
            None => model.line_program is None,
            Some(program) => model.line_program == Some(program.fields) && program.is(
                dwarf.debug_line.section@,
                dwarf.debug_line.section.endian,
                program.fields,
            ) && program.comp_dir == self.comp_dir && program.comp_name == self.name,
        }
    }

    /// Makes the unit with the given header from the sections of `dwarf`.
    ///
    /// Reads the unit's abbreviations, looks once at each attribute of the
    /// unit's root entry, and reads the header of the line number program
    /// that the root entry names. The base address and the four bases are 0
    /// unless the root entry gives them in the right form; an attribute in
    /// another form counts as absent.
    ///
    /// Fails with `MissingUnitDie` where the unit has no entry, and with the
    /// error of whatever could not be read: the abbreviations, the root
    /// entry, or the header of the line number program.
    pub fn new(dwarf: &Dwarf<'a>, header: UnitHeader<'a>) -> (r: Result<DwarfUnit<'a>, Error>)
        ensures
            match r {
                Ok(unit) => dwarf.spec_unit(header) matches Ok(model) && unit.is(model, *dwarf)
                    && unit.header == header,
                Err(e) => dwarf.spec_unit(header) matches Err(expected) && expected == e,
            },
    {
        let abbreviations = match header.abbreviations(&dwarf.debug_abbrev) {
            Ok(abbreviations) => abbreviations,
            Err(e) => { return Err(e); },
        };
        let mut cursor = header.entries(&abbreviations);
        let root = match cursor.next_dfs() {
            Ok(Some(root)) => root,
            Ok(None) => { return Err(Error::MissingUnitDie); },
            Err(e) => { return Err(e); },
        };
        let known = scan_root_attributes(&root.attrs);
        proof {
            lemma_scan_root_view(root.attrs@);
        }
        let line_program = match known.line_program_offset {
            Some(offset) => match dwarf.debug_line.program(
                offset,
                header.address_size(),
                known.comp_dir,
                known.name,
            ) {
                Ok(program) => Some(program),
                Err(e) => { return Err(e); },
            },
            None => None,
        };
        Ok(
            DwarfUnit {
                header,
                abbreviations,
                name: known.name,
                comp_dir: known.comp_dir,
                low_pc: known.low_pc,
                str_offsets_base: known.str_offsets_base,
                addr_base: known.addr_base,
                loclists_base: known.loclists_base,
                rnglists_base: known.rnglists_base,
                line_program,
            },
        )
    }

    /// The unit's encoding, as its header gives it.
    pub fn encoding(&self) -> (r: Encoding)
        ensures
            r == self.header.encoding,
    {
        self.header.encoding()
    }

    /// A cursor at the first of the unit's entries.
    pub fn entries<'u>(&'u self) -> (r: EntriesCursor<'a, 'u>)
        ensures
            r.input == self.header.entries_buf,
            r.pos == 0,
            r.encoding == self.header.encoding,
            r.abbreviations == &self.abbreviations,
    {
        self.header.entries(&self.abbreviations)
    }
}

} // verus!
