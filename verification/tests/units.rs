use dwarf_resolve::{
    Attribute, AttributeValue, DebugAbbrev, DebugAbbrevOffset, DebugAddr, DebugAddrBase,
    DebugAddrIndex, DebugInfo, DebugInfoOffset, DebugLine, DebugLineOffset, DebugLineStr,
    DebugLocLists, DebugLocListsBase, DebugLocListsIndex, DebugRngLists, DebugRngListsBase,
    DebugRngListsIndex, DebugStr, DebugStrOffset, DebugStrOffsets, DebugStrOffsetsBase,
    DebugStrOffsetsIndex, DebugTypes, DebugTypesOffset, DwAt, DwTag, Dwarf, DwarfUnit,
    EndianSlice, Encoding, Error, Expression, Format, LocationListsOffset, Range, RangeListsOffset,
    RunTimeEndian, UnitHeader,
};

const LE: RunTimeEndian = RunTimeEndian::Little;

fn uleb(mut v: u64, out: &mut Vec<u8>) {
    loop {
        let byte = (v & 0x7f) as u8;
        v >>= 7;
        if v == 0 {
            out.push(byte);
            return;
        }
        out.push(byte | 0x80);
    }
}

/// One abbreviation with the code 1 and the tag of a compile unit.
fn abbrev_table(children: u8, attrs: &[(u64, u64)]) -> Vec<u8> {
    let mut t = vec![0x01, 0x11, children];
    for (name, form) in attrs {
        uleb(*name, &mut t);
        uleb(*form, &mut t);
    }
    t.extend_from_slice(&[0, 0, 0]);
    t
}

fn unit_v4(address_size: u8, abbrev_offset: u32, entries: &[u8]) -> Vec<u8> {
    let mut u = Vec::new();
    u.extend_from_slice(&(7 + entries.len() as u32).to_le_bytes());
    u.extend_from_slice(&4u16.to_le_bytes());
    u.extend_from_slice(&abbrev_offset.to_le_bytes());
    u.push(address_size);
    u.extend_from_slice(entries);
    u
}

fn unit_v5(unit_type: u8, address_size: u8, abbrev_offset: u32, entries: &[u8]) -> Vec<u8> {
    let mut u = Vec::new();
    u.extend_from_slice(&(8 + entries.len() as u32).to_le_bytes());
    u.extend_from_slice(&5u16.to_le_bytes());
    u.push(unit_type);
    u.push(address_size);
    u.extend_from_slice(&abbrev_offset.to_le_bytes());
    u.extend_from_slice(entries);
    u
}

fn line_program_v4() -> Vec<u8> {
    let mut p = Vec::new();
    p.extend_from_slice(&29u32.to_le_bytes());
    p.extend_from_slice(&4u16.to_le_bytes());
    p.extend_from_slice(&20u32.to_le_bytes());
    p.extend_from_slice(&[1, 1, 1, 0xfb, 14, 13]);
    p.extend_from_slice(&[0, 1, 1, 1, 1, 0, 0, 0, 1, 0, 0, 1]);
    p.extend_from_slice(&[0, 0]);
    p.extend_from_slice(&[0, 1, 1]);
    p
}

fn header_of<'a>(dwarf: &Dwarf<'a>) -> UnitHeader<'a> {
    dwarf.units().next().unwrap().unwrap().header
}

fn dwarf_of<'a>(info: &'a [u8], abbrev: &'a [u8]) -> Dwarf<'a> {
    let mut dwarf = Dwarf::default();
    dwarf.debug_info = DebugInfo::new(info, LE);
    dwarf.debug_abbrev = DebugAbbrev::new(abbrev, LE);
    dwarf
}

#[test]
fn walks_the_units_of_a_section() {
    let mut info = unit_v4(4, 0x10, &[0xaa, 0xbb]);
    info.extend_from_slice(&unit_v5(0x01, 8, 0x20, &[0xcc]));
    let dwarf = dwarf_of(&info, &[]);
    let mut units = dwarf.units();
    let first = units.next().unwrap().unwrap();
    assert_eq!(first.offset, DebugInfoOffset(0));
    assert_eq!(first.header.version(), 4);
    assert_eq!(first.header.address_size(), 4);
    assert_eq!(first.header.format(), Format::Dwarf32);
    assert_eq!(first.header.unit_length(), 9);
    assert_eq!(first.header.debug_abbrev_offset(), DebugAbbrevOffset(0x10));
    assert_eq!(first.header.entries_buf.slice(), &[0xaau8, 0xbb]);
    assert_eq!(
        first.header.encoding(),
        Encoding { address_size: 4, format: Format::Dwarf32, version: 4 }
    );
    let second = units.next().unwrap().unwrap();
    assert_eq!(second.offset, DebugInfoOffset(13));
    assert_eq!(second.header.version(), 5);
    assert_eq!(second.header.address_size(), 8);
    assert_eq!(second.header.debug_abbrev_offset(), DebugAbbrevOffset(0x20));
    assert_eq!(second.header.entries_buf.slice(), &[0xccu8]);
    assert_eq!(units.next(), Ok(None));
    assert_eq!(units.next(), Ok(None));
    let mut again = dwarf.units();
    assert_eq!(again.next().unwrap().unwrap(), first);
}

#[test]
fn unit_in_the_64_bit_format() {
    let mut info = vec![0xff, 0xff, 0xff, 0xff];
    info.extend_from_slice(&12u64.to_le_bytes());
    info.extend_from_slice(&3u16.to_le_bytes());
    info.extend_from_slice(&0x1234u64.to_le_bytes());
    info.push(8);
    info.push(0x77);
    let dwarf = dwarf_of(&info, &[]);
    let mut units = dwarf.units();
    let unit = units.next().unwrap().unwrap();
    assert_eq!(unit.header.format(), Format::Dwarf64);
    assert_eq!(unit.header.version(), 3);
    assert_eq!(unit.header.unit_length(), 12);
    assert_eq!(unit.header.debug_abbrev_offset(), DebugAbbrevOffset(0x1234));
    assert_eq!(unit.header.entries_buf.slice(), &[0x77u8]);
    assert_eq!(units.next(), Ok(None));
}

#[test]
fn big_endian_unit() {
    let info = [0x00, 0x00, 0x00, 0x07, 0x00, 0x02, 0x00, 0x00, 0x01, 0x02, 0x04];
    let mut dwarf = Dwarf::default();
    dwarf.debug_info = DebugInfo::new(&info, RunTimeEndian::Big);
    let unit = dwarf.units().next().unwrap().unwrap();
    assert_eq!(unit.header.version(), 2);
    assert_eq!(unit.header.debug_abbrev_offset(), DebugAbbrevOffset(0x102));
    assert_eq!(unit.header.address_size(), 4);
    assert_eq!(unit.header.entries_buf.len(), 0);
}

#[test]
fn malformed_unit_header_is_an_error_once() {
    let mut long = unit_v4(4, 0, &[]);
    long[0] = 8;
    let dwarf = dwarf_of(&long, &[]);
    let mut units = dwarf.units();
    assert_eq!(units.next(), Err(Error::UnexpectedEof));
    assert_eq!(units.next(), Ok(None));

    let short = [0x03u8, 0, 0, 0, 4, 0, 0];
    let dwarf = dwarf_of(&short, &[]);
    let mut units = dwarf.units();
    assert_eq!(units.next(), Err(Error::UnexpectedEof));
    assert_eq!(units.next(), Ok(None));

    let cut = [0x03u8, 0, 0];
    let dwarf = dwarf_of(&cut, &[]);
    assert_eq!(dwarf.units().next(), Err(Error::UnexpectedEof));

    let reserved = [0xf0u8, 0xff, 0xff, 0xff, 0, 0, 0, 0];
    let dwarf = dwarf_of(&reserved, &[]);
    assert_eq!(dwarf.units().next(), Err(Error::UnknownReservedLength));

    let mut old = unit_v4(4, 0, &[]);
    old[4] = 1;
    let dwarf = dwarf_of(&old, &[]);
    assert_eq!(dwarf.units().next(), Err(Error::UnknownVersion(1)));
    let mut new = unit_v4(4, 0, &[]);
    new[4] = 6;
    let dwarf = dwarf_of(&new, &[]);
    assert_eq!(dwarf.units().next(), Err(Error::UnknownVersion(6)));

    let type_unit = unit_v5(0x02, 8, 0, &[]);
    let dwarf = dwarf_of(&type_unit, &[]);
    let mut units = dwarf.units();
    assert_eq!(units.next(), Err(Error::UnsupportedUnitType));
    assert_eq!(units.next(), Ok(None));
}

#[test]
fn walks_the_type_units_of_a_section() {
    let mut entries = Vec::new();
    entries.extend_from_slice(&0x1122_3344_5566_7788u64.to_le_bytes());
    entries.extend_from_slice(&0x1du32.to_le_bytes());
    entries.extend_from_slice(&[0xde, 0xad]);
    let types = unit_v4(8, 0x44, &entries);
    let mut dwarf = Dwarf::default();
    dwarf.debug_types = DebugTypes::new(&types, LE);
    let mut units = dwarf.type_units();
    let unit = units.next().unwrap().unwrap();
    assert_eq!(unit.offset, DebugTypesOffset(0));
    assert_eq!(unit.type_signature, 0x1122_3344_5566_7788);
    assert_eq!(unit.type_offset, 0x1d);
    assert_eq!(unit.header.debug_abbrev_offset(), DebugAbbrevOffset(0x44));
    assert_eq!(unit.header.entries_buf.slice(), &[0xdeu8, 0xad]);
    assert_eq!(units.next(), Ok(None));

    let cut = unit_v4(8, 0, &[1, 2, 3]);
    dwarf.debug_types = DebugTypes::new(&cut, LE);
    let mut units = dwarf.type_units();
    assert_eq!(units.next(), Err(Error::UnexpectedEof));
    assert_eq!(units.next(), Ok(None));

    let compile = unit_v5(0x01, 8, 0, &[0; 12]);
    dwarf.debug_types = DebugTypes::new(&compile, LE);
    assert_eq!(dwarf.type_units().next(), Err(Error::UnsupportedUnitType));
    let split = unit_v5(0x06, 8, 0, &[0; 12]);
    dwarf.debug_types = DebugTypes::new(&split, LE);
    assert_eq!(dwarf.type_units().next().unwrap().unwrap().type_signature, 0);
}

#[test]
fn reads_a_table_of_abbreviations() {
    let mut table = vec![0xffu8; 3];
    table.extend_from_slice(&[0x01, 0x11, 0x01, 0x03, 0x08, 0x11, 0x01, 0x00, 0x00]);
    table.extend_from_slice(&[0x05, 0x2e, 0x00, 0x03, 0x0e, 0x1c, 0x21, 0x7d, 0x00, 0x00]);
    table.push(0x00);
    let info = unit_v4(4, 3, &[]);
    let dwarf = dwarf_of(&info, &table);
    let unit = dwarf.units().next().unwrap().unwrap();
    let abbrevs = dwarf.abbreviations(&unit).unwrap();
    assert_eq!(abbrevs.vec.len(), 2);
    let first = abbrevs.get(1).unwrap();
    assert_eq!(first.tag, DwTag(0x11));
    assert!(first.has_children);
    assert_eq!(first.attributes.len(), 2);
    assert_eq!(first.attributes[0].name, DwAt(0x03));
    assert_eq!(first.attributes[0].form.0, 0x08);
    assert_eq!(first.attributes[1].name, DwAt(0x11));
    let second = abbrevs.get(5).unwrap();
    assert_eq!(second.tag, DwTag(0x2e));
    assert!(!second.has_children);
    assert_eq!(second.attributes[1].form.0, 0x21);
    assert_eq!(second.attributes[1].implicit_const_value, -3);
    assert_eq!(second.attributes[0].implicit_const_value, 0);
    assert!(abbrevs.get(2).is_none());
    assert!(abbrevs.get(0).is_none());
}

fn abbreviations_error(table: &[u8]) -> Error {
    let info = unit_v4(4, 0, &[]);
    let dwarf = dwarf_of(&info, table);
    let unit = dwarf.units().next().unwrap().unwrap();
    dwarf.abbreviations(&unit).unwrap_err()
}

#[test]
fn malformed_abbreviations_fail() {
    assert_eq!(abbreviations_error(&[]), Error::UnexpectedEof);
    assert_eq!(abbreviations_error(&[0x01, 0x11, 0x00, 0x00, 0x00]), Error::UnexpectedEof);
    assert_eq!(abbreviations_error(&[0x01, 0x11, 0x00, 0x03, 0x08]), Error::UnexpectedEof);
    assert_eq!(abbreviations_error(&[0x01, 0x00, 0x00, 0x00, 0x00, 0x00]), Error::AbbreviationTagZero);
    assert_eq!(abbreviations_error(&[0x01, 0x11, 0x02, 0x00, 0x00, 0x00]), Error::BadHasChildren);
    assert_eq!(
        abbreviations_error(&[0x01, 0x11, 0x00, 0x00, 0x00, 0x01, 0x2e, 0x00, 0x00, 0x00, 0x00]),
        Error::DuplicateAbbreviationCode
    );
    assert_eq!(abbreviations_error(&[0x01, 0x11, 0x00, 0x03, 0x00, 0x00, 0x00, 0x00]), Error::AttributeFormZero);
    assert_eq!(abbreviations_error(&[0x01, 0x11, 0x00, 0x00, 0x08, 0x00, 0x00, 0x00]), Error::ExpectedZero);
    assert_eq!(abbreviations_error(&[0x01, 0x11, 0x00, 0x03, 0x02, 0x00, 0x00, 0x00]), Error::UnknownForm);
    assert_eq!(abbreviations_error(&[0x01, 0x11, 0x00, 0x03, 0x2d, 0x00, 0x00, 0x00]), Error::UnknownForm);
    assert_eq!(
        abbreviations_error(&[0x01, 0x11, 0x00, 0x80, 0x80, 0x04, 0x08, 0x00, 0x00, 0x00]),
        Error::BadUnsignedLeb128
    );
    let info = unit_v4(4, 9, &[]);
    let dwarf = dwarf_of(&info, &[0x00]);
    let unit = dwarf.units().next().unwrap().unwrap();
    assert_eq!(dwarf.abbreviations(&unit), Err(Error::UnexpectedEof));
}

#[test]
fn type_unit_abbreviations() {
    let table = abbrev_table(0, &[(0x03, 0x08)]);
    let types = unit_v4(8, 0, &[0; 12]);
    let mut dwarf = Dwarf::default();
    dwarf.debug_types = DebugTypes::new(&types, LE);
    dwarf.debug_abbrev = DebugAbbrev::new(&table, LE);
    let unit = dwarf.type_units().next().unwrap().unwrap();
    let abbrevs = dwarf.type_abbreviations(&unit).unwrap();
    assert_eq!(abbrevs.vec.len(), 1);
    assert_eq!(abbrevs.get(1).unwrap().attributes.len(), 1);
}

#[test]
fn unit_without_base_attributes_has_zero_bases() {
    let table = abbrev_table(0, &[(0x03, 0x08), (0x13, 0x0b)]);
    let info = unit_v4(4, 0, &[0x01, b'x', 0x00, 0x0c]);
    let dwarf = dwarf_of(&info, &table);
    let unit = DwarfUnit::new(&dwarf, header_of(&dwarf)).unwrap();
    assert_eq!(unit.low_pc, 0);
    assert_eq!(unit.str_offsets_base, DebugStrOffsetsBase(0));
    assert_eq!(unit.addr_base, DebugAddrBase(0));
    assert_eq!(unit.loclists_base, DebugLocListsBase(0));
    assert_eq!(unit.rnglists_base, DebugRngListsBase(0));
    assert_eq!(unit.name.unwrap(), AttributeValue::String(EndianSlice::new(b"x", LE)));
    assert_eq!(unit.comp_dir, None);
    assert!(unit.line_program.is_none());
    assert_eq!(unit.header, header_of(&dwarf));
    assert_eq!(unit.abbreviations.vec.len(), 1);
    assert_eq!(unit.encoding(), Encoding { address_size: 4, format: Format::Dwarf32, version: 4 });
}

fn full_unit() -> (Vec<u8>, Vec<u8>) {
    let mut table = vec![0x01, 0x11, 0x01];
    for (name, form) in [
        (0x03u64, 0x08u64),
        (0x1b, 0x0e),
        (0x11, 0x01),
        (0x10, 0x17),
        (0x72, 0x17),
        (0x73, 0x17),
        (0x8c, 0x17),
        (0x74, 0x17),
    ] {
        uleb(name, &mut table);
        uleb(form, &mut table);
    }
    table.extend_from_slice(&[0, 0]);
    table.extend_from_slice(&[0x02, 0x2e, 0x00, 0x03, 0x08, 0x55, 0x23, 0x00, 0x00]);
    table.push(0);
    let mut entries = vec![0x01];
    entries.extend_from_slice(b"a.c\0");
    entries.extend_from_slice(&4u32.to_le_bytes());
    entries.extend_from_slice(&0x40_0000u64.to_le_bytes());
    entries.extend_from_slice(&0u32.to_le_bytes());
    entries.extend_from_slice(&8u32.to_le_bytes());
    entries.extend_from_slice(&16u32.to_le_bytes());
    entries.extend_from_slice(&12u32.to_le_bytes());
    entries.extend_from_slice(&20u32.to_le_bytes());
    entries.extend_from_slice(&[0x02, b'f', 0x00, 0x01]);
    entries.push(0x00);
    (unit_v5(0x01, 8, 0, &entries), table)
}

#[test]
fn unit_takes_each_base_from_its_attribute() {
    let (info, table) = full_unit();
    let line = line_program_v4();
    let mut dwarf = dwarf_of(&info, &table);
    dwarf.debug_line = DebugLine::new(&line, LE);
    let unit = DwarfUnit::new(&dwarf, header_of(&dwarf)).unwrap();
    assert_eq!(unit.name, Some(AttributeValue::String(EndianSlice::new(b"a.c", LE))));
    assert_eq!(unit.comp_dir, Some(AttributeValue::DebugStrRef(DebugStrOffset(4))));
    assert_eq!(unit.low_pc, 0x40_0000);
    assert_eq!(unit.str_offsets_base, DebugStrOffsetsBase(8));
    assert_eq!(unit.addr_base, DebugAddrBase(16));
    assert_eq!(unit.loclists_base, DebugLocListsBase(12));
    assert_eq!(unit.rnglists_base, DebugRngListsBase(20));
    let program = unit.line_program.unwrap();
    assert_eq!(program.fields.offset, DebugLineOffset(0));
    assert_eq!(program.fields.unit_length, 29);
    assert_eq!(
        program.fields.encoding,
        Encoding { address_size: 8, format: Format::Dwarf32, version: 4 }
    );
    assert_eq!(program.fields.header_length, 20);
    assert_eq!(program.fields.minimum_instruction_length, 1);
    assert_eq!(program.fields.maximum_operations_per_instruction, 1);
    assert!(program.fields.default_is_stmt);
    assert_eq!(program.fields.line_base, -5);
    assert_eq!(program.fields.line_range, 14);
    assert_eq!(program.fields.opcode_base, 13);
    assert_eq!(program.standard_opcode_lengths.slice(), &[0u8, 1, 1, 1, 1, 0, 0, 0, 1, 0, 0, 1]);
    assert_eq!(program.tables.slice(), &[0u8, 0]);
    assert_eq!(program.program_buf.slice(), &[0u8, 1, 1]);
    assert_eq!(program.comp_dir, unit.comp_dir);
    assert_eq!(program.comp_name, unit.name);
}

#[test]
fn attribute_in_another_form_counts_as_absent() {
    let table = abbrev_table(
        0,
        &[(0x11, 0x0f), (0x72, 0x0f), (0x73, 0x0b), (0x74, 0x08), (0x8c, 0x0c), (0x10, 0x0f)],
    );
    let info = unit_v5(0x01, 8, 0, &[0x01, 0x55, 0x08, 0x09, b'z', 0x00, 0x01, 0x03]);
    let dwarf = dwarf_of(&info, &table);
    let unit = DwarfUnit::new(&dwarf, header_of(&dwarf)).unwrap();
    assert_eq!(unit.low_pc, 0);
    assert_eq!(unit.str_offsets_base, DebugStrOffsetsBase(0));
    assert_eq!(unit.addr_base, DebugAddrBase(0));
    assert_eq!(unit.loclists_base, DebugLocListsBase(0));
    assert_eq!(unit.rnglists_base, DebugRngListsBase(0));
    assert!(unit.line_program.is_none());
    assert_eq!(unit.name, None);
}

#[test]
fn later_attribute_of_one_name_counts() {
    let table = abbrev_table(0, &[(0x73, 0x17), (0x11, 0x01), (0x73, 0x17), (0x73, 0x0f)]);
    let mut entries = vec![0x01];
    entries.extend_from_slice(&8u32.to_le_bytes());
    entries.extend_from_slice(&0x1234u32.to_le_bytes());
    entries.extend_from_slice(&24u32.to_le_bytes());
    entries.push(0x30);
    let info = unit_v5(0x01, 4, 0, &entries);
    let dwarf = dwarf_of(&info, &table);
    let unit = DwarfUnit::new(&dwarf, header_of(&dwarf)).unwrap();
    assert_eq!(unit.addr_base, DebugAddrBase(24));
    assert_eq!(unit.low_pc, 0x1234);
}

#[test]
fn unit_without_entries_is_missing_its_die() {
    let table = abbrev_table(0, &[(0x03, 0x08)]);
    let info = unit_v4(4, 0, &[]);
    let dwarf = dwarf_of(&info, &table);
    assert_eq!(DwarfUnit::new(&dwarf, header_of(&dwarf)).unwrap_err(), Error::MissingUnitDie);
    let info = unit_v5(0x01, 8, 0, &[]);
    let dwarf = dwarf_of(&info, &table);
    assert_eq!(DwarfUnit::new(&dwarf, header_of(&dwarf)).unwrap_err(), Error::MissingUnitDie);
    let info = unit_v4(4, 0, &[0x00, 0x00, 0x00]);
    let dwarf = dwarf_of(&info, &table);
    assert_eq!(DwarfUnit::new(&dwarf, header_of(&dwarf)).unwrap_err(), Error::MissingUnitDie);
}

#[test]
fn root_entry_behind_null_entries_is_found() {
    let table = abbrev_table(0, &[(0x11, 0x01)]);
    let info = unit_v4(2, 0, &[0x00, 0x00, 0x01, 0x34, 0x12]);
    let dwarf = dwarf_of(&info, &table);
    let unit = DwarfUnit::new(&dwarf, header_of(&dwarf)).unwrap();
    assert_eq!(unit.low_pc, 0x1234);
}

#[test]
fn unit_that_cannot_be_read_fails_with_the_cause() {
    let table = abbrev_table(0, &[(0x03, 0x08)]);
    let info = unit_v4(4, 0, &[0x02, b'x', 0x00]);
    let dwarf = dwarf_of(&info, &table);
    assert_eq!(DwarfUnit::new(&dwarf, header_of(&dwarf)).unwrap_err(), Error::UnknownAbbreviation);
    let info = unit_v4(4, 0, &[0x01, b'x']);
    let dwarf = dwarf_of(&info, &table);
    assert_eq!(DwarfUnit::new(&dwarf, header_of(&dwarf)).unwrap_err(), Error::UnexpectedEof);
    let info = unit_v4(4, 0, &[]);
    let dwarf = dwarf_of(&info, &[0x01, 0x00, 0x00]);
    assert_eq!(DwarfUnit::new(&dwarf, header_of(&dwarf)).unwrap_err(), Error::AbbreviationTagZero);
    let indirect = abbrev_table(0, &[(0x03, 0x16)]);
    let info = unit_v4(4, 0, &[0x01, 0x02]);
    let dwarf = dwarf_of(&info, &indirect);
    assert_eq!(DwarfUnit::new(&dwarf, header_of(&dwarf)).unwrap_err(), Error::UnknownForm);
    let address = abbrev_table(0, &[(0x11, 0x01)]);
    let info = unit_v4(5, 0, &[0x01, 1, 2, 3, 4, 5]);
    let dwarf = dwarf_of(&info, &address);
    assert_eq!(
        DwarfUnit::new(&dwarf, header_of(&dwarf)).unwrap_err(),
        Error::UnsupportedAddressSize(5)
    );
}

fn line_error(line: &[u8]) -> Error {
    let table = abbrev_table(0, &[(0x10, 0x17)]);
    let info = unit_v4(4, 0, &[0x01, 0x00, 0x00, 0x00, 0x00]);
    let mut dwarf = dwarf_of(&info, &table);
    dwarf.debug_line = DebugLine::new(line, LE);
    DwarfUnit::new(&dwarf, header_of(&dwarf)).unwrap_err()
}

#[test]
fn line_program_that_cannot_be_read_fails_the_unit() {
    assert_eq!(line_error(&[]), Error::UnexpectedEof);
    let good = line_program_v4();
    let mut bad = good.clone();
    bad[4] = 9;
    assert_eq!(line_error(&bad), Error::UnknownVersion(9));
    let mut bad = good.clone();
    bad[14] = 0;
    assert_eq!(line_error(&bad), Error::LineRangeZero);
    let mut bad = good.clone();
    bad[15] = 0;
    assert_eq!(line_error(&bad), Error::OpcodeBaseZero);
    let mut bad = good.clone();
    bad[15] = 30;
    assert_eq!(line_error(&bad), Error::UnexpectedEof);
    let mut bad = good.clone();
    bad[6] = 40;
    assert_eq!(line_error(&bad), Error::UnexpectedEof);
    let mut bad = good.clone();
    bad[6] = 5;
    assert_eq!(line_error(&bad), Error::UnexpectedEof);
    let mut bad = good.clone();
    bad[0] = 200;
    assert_eq!(line_error(&bad), Error::UnexpectedEof);
}

#[test]
fn line_programs_of_other_versions() {
    let mut v2 = Vec::new();
    v2.extend_from_slice(&13u32.to_le_bytes());
    v2.extend_from_slice(&2u16.to_le_bytes());
    v2.extend_from_slice(&7u32.to_le_bytes());
    v2.extend_from_slice(&[4, 0, 0x03, 10, 2, 9, 0xaa]);
    let line = DebugLine::new(&v2, LE);
    let program = line.program(DebugLineOffset(0), 4, None, None).unwrap();
    assert_eq!(program.fields.encoding.version, 2);
    assert_eq!(program.fields.encoding.address_size, 4);
    assert_eq!(program.fields.minimum_instruction_length, 4);
    assert_eq!(program.fields.maximum_operations_per_instruction, 1);
    assert!(!program.fields.default_is_stmt);
    assert_eq!(program.fields.line_base, 3);
    assert_eq!(program.fields.line_range, 10);
    assert_eq!(program.fields.opcode_base, 2);
    assert_eq!(program.standard_opcode_lengths.slice(), &[9u8]);
    assert_eq!(program.tables.slice(), &[0xaau8]);
    assert_eq!(program.program_buf.len(), 0);

    let mut v5 = vec![0xee];
    v5.extend_from_slice(&16u32.to_le_bytes());
    v5.extend_from_slice(&5u16.to_le_bytes());
    v5.extend_from_slice(&[2, 0]);
    v5.extend_from_slice(&6u32.to_le_bytes());
    v5.extend_from_slice(&[1, 3, 1, 0x80, 5, 1, 0x01, 0x02]);
    let line = DebugLine::new(&v5, LE);
    let name = Some(AttributeValue::DebugStrRef(DebugStrOffset(3)));
    let program = line.program(DebugLineOffset(1), 8, None, name).unwrap();
    assert_eq!(program.fields.offset, DebugLineOffset(1));
    assert_eq!(program.fields.encoding.version, 5);
    assert_eq!(program.fields.encoding.address_size, 2);
    assert_eq!(program.fields.maximum_operations_per_instruction, 3);
    assert_eq!(program.fields.line_base, -128);
    assert_eq!(program.standard_opcode_lengths.len(), 0);
    assert_eq!(program.tables.len(), 0);
    assert_eq!(program.program_buf.slice(), &[1u8, 2]);
    assert_eq!(program.comp_name, name);
    assert_eq!(program.comp_dir, None);
}

#[test]
fn walks_the_entries_of_a_unit() {
    let (info, table) = full_unit();
    let line = line_program_v4();
    let mut dwarf = dwarf_of(&info, &table);
    dwarf.debug_line = DebugLine::new(&line, LE);
    let unit = DwarfUnit::new(&dwarf, header_of(&dwarf)).unwrap();
    let mut cursor = unit.entries();
    let root = cursor.next_entry().unwrap().unwrap();
    assert_eq!(root.offset, 0);
    assert_eq!(root.code, 1);
    assert_eq!(root.tag, DwTag(0x11));
    assert!(root.has_children);
    assert_eq!(root.attrs.len(), 8);
    assert_eq!(root.attrs[3].name(), DwAt(0x10));
    assert_eq!(root.attrs[3].raw_value(), AttributeValue::SecOffset(0));
    assert_eq!(root.attrs[3].value(), AttributeValue::DebugLineRef(DebugLineOffset(0)));
    assert_eq!(root.attrs[6].name(), DwAt(0x8c));
    assert_eq!(root.attrs[6].value(), AttributeValue::DebugLocListsBase(DebugLocListsBase(12)));
    let child = cursor.next_entry().unwrap().unwrap();
    assert_eq!(child.offset, 37);
    assert_eq!(child.tag, DwTag(0x2e));
    assert!(!child.has_children);
    assert!(!child.is_null());
    assert_eq!(child.attrs[0].value(), AttributeValue::String(EndianSlice::new(b"f", LE)));
    assert_eq!(child.attrs[1].value(), AttributeValue::DebugRngListsIndex(DebugRngListsIndex(1)));
    let null = cursor.next_entry().unwrap().unwrap();
    assert!(null.is_null());
    assert_eq!(null.attrs.len(), 0);
    assert_eq!(cursor.next_entry(), Ok(None));
    assert_eq!(cursor.next_entry(), Ok(None));
    let mut cursor = unit.entries();
    assert_eq!(cursor.next_dfs().unwrap().unwrap().code, 1);
    assert_eq!(cursor.next_dfs().unwrap().unwrap().code, 2);
    assert_eq!(cursor.next_dfs(), Ok(None));
}

#[test]
fn entry_that_cannot_be_read_is_an_error_once() {
    let table = abbrev_table(0, &[(0x03, 0x08)]);
    let info = unit_v4(4, 0, &[0x01, b'a', 0x00, 0x07, 0x01, b'b', 0x00]);
    let dwarf = dwarf_of(&info, &table);
    let unit = DwarfUnit::new(&dwarf, header_of(&dwarf)).unwrap();
    let mut cursor = unit.entries();
    assert_eq!(cursor.next_dfs().unwrap().unwrap().offset, 0);
    assert_eq!(cursor.next_dfs(), Err(Error::UnknownAbbreviation));
    assert_eq!(cursor.next_dfs(), Ok(None));
    assert_eq!(cursor.next_entry(), Ok(None));
}

fn one_value(form: u64, bytes: &[u8], version: u16, address_size: u8) -> Result<AttributeValue<Vec<u8>>, Error> {
    let table = abbrev_table(0, &[(0x47, form)]);
    let mut entries = vec![0x01];
    entries.extend_from_slice(bytes);
    let info = if version == 5 {
        unit_v5(0x01, address_size, 0, &entries)
    } else {
        let mut u = unit_v4(address_size, 0, &entries);
        u[4] = version as u8;
        u
    };
    let dwarf = dwarf_of(&info, &table);
    let header = header_of(&dwarf);
    let abbrevs = header.abbreviations(&dwarf.debug_abbrev)?;
    let mut cursor = header.entries(&abbrevs);
    let entry = cursor.next_entry()?.unwrap();
    assert_eq!(cursor.pos, entries.len());
    Ok(owned(entry.attrs[0].value()))
}

fn owned(v: AttributeValue<EndianSlice>) -> AttributeValue<Vec<u8>> {
    match v {
        AttributeValue::Addr(x) => AttributeValue::Addr(x),
        AttributeValue::Block(x) => AttributeValue::Block(x.slice().to_vec()),
        AttributeValue::Data1(x) => AttributeValue::Data1(x),
        AttributeValue::Data2(x) => AttributeValue::Data2(x),
        AttributeValue::Data4(x) => AttributeValue::Data4(x),
        AttributeValue::Data8(x) => AttributeValue::Data8(x),
        AttributeValue::Sdata(x) => AttributeValue::Sdata(x),
        AttributeValue::Udata(x) => AttributeValue::Udata(x),
        AttributeValue::Exprloc(x) => AttributeValue::Exprloc(Expression(x.0.slice().to_vec())),
        AttributeValue::Flag(x) => AttributeValue::Flag(x),
        AttributeValue::SecOffset(x) => AttributeValue::SecOffset(x),
        AttributeValue::DebugAddrBase(x) => AttributeValue::DebugAddrBase(x),
        AttributeValue::DebugAddrIndex(x) => AttributeValue::DebugAddrIndex(x),
        AttributeValue::UnitRef(x) => AttributeValue::UnitRef(x),
        AttributeValue::DebugInfoRef(x) => AttributeValue::DebugInfoRef(x),
        AttributeValue::DebugInfoRefSup(x) => AttributeValue::DebugInfoRefSup(x),
        AttributeValue::DebugLineRef(x) => AttributeValue::DebugLineRef(x),
        AttributeValue::LocationListsRef(x) => AttributeValue::LocationListsRef(x),
        AttributeValue::DebugLocListsBase(x) => AttributeValue::DebugLocListsBase(x),
        AttributeValue::DebugLocListsIndex(x) => AttributeValue::DebugLocListsIndex(x),
        AttributeValue::RangeListsRef(x) => AttributeValue::RangeListsRef(x),
        AttributeValue::DebugRngListsBase(x) => AttributeValue::DebugRngListsBase(x),
        AttributeValue::DebugRngListsIndex(x) => AttributeValue::DebugRngListsIndex(x),
        AttributeValue::DebugTypesRef(x) => AttributeValue::DebugTypesRef(x),
        AttributeValue::DebugStrRef(x) => AttributeValue::DebugStrRef(x),
        AttributeValue::DebugStrRefSup(x) => AttributeValue::DebugStrRefSup(x),
        AttributeValue::DebugStrOffsetsBase(x) => AttributeValue::DebugStrOffsetsBase(x),
        AttributeValue::DebugStrOffsetsIndex(x) => AttributeValue::DebugStrOffsetsIndex(x),
        AttributeValue::DebugLineStrRef(x) => AttributeValue::DebugLineStrRef(x),
        AttributeValue::String(x) => AttributeValue::String(x.slice().to_vec()),
    }
}

#[test]
fn decodes_the_value_of_each_form() {
    let v = |form: u64, bytes: &[u8]| one_value(form, bytes, 5, 4);
    assert_eq!(v(0x01, &[1, 2, 3, 4]), Ok(AttributeValue::Addr(0x04030201)));
    assert_eq!(v(0x03, &[2, 0, 0xaa, 0xbb]), Ok(AttributeValue::Block(vec![0xaa, 0xbb])));
    assert_eq!(v(0x04, &[1, 0, 0, 0, 0xcc]), Ok(AttributeValue::Block(vec![0xcc])));
    assert_eq!(v(0x05, &[0x34, 0x12]), Ok(AttributeValue::Data2(0x1234)));
    assert_eq!(v(0x06, &[4, 3, 2, 1]), Ok(AttributeValue::Data4(0x01020304)));
    assert_eq!(v(0x07, &[8, 7, 6, 5, 4, 3, 2, 1]), Ok(AttributeValue::Data8(0x0102030405060708)));
    assert_eq!(v(0x08, b"hi\0"), Ok(AttributeValue::String(b"hi".to_vec())));
    assert_eq!(v(0x09, &[3, 1, 2, 3]), Ok(AttributeValue::Block(vec![1, 2, 3])));
    assert_eq!(v(0x0a, &[0]), Ok(AttributeValue::Block(vec![])));
    assert_eq!(v(0x0b, &[0xfe]), Ok(AttributeValue::Data1(0xfe)));
    assert_eq!(v(0x0c, &[0]), Ok(AttributeValue::Flag(false)));
    assert_eq!(v(0x0c, &[7]), Ok(AttributeValue::Flag(true)));
    assert_eq!(v(0x0d, &[0x7e]), Ok(AttributeValue::Sdata(-2)));
    assert_eq!(v(0x0e, &[9, 0, 0, 0]), Ok(AttributeValue::DebugStrRef(DebugStrOffset(9))));
    assert_eq!(v(0x0f, &[0x80, 0x01]), Ok(AttributeValue::Udata(128)));
    assert_eq!(v(0x10, &[5, 0, 0, 0]), Ok(AttributeValue::DebugInfoRef(DebugInfoOffset(5))));
    assert_eq!(v(0x11, &[5]), Ok(AttributeValue::UnitRef(5)));
    assert_eq!(v(0x12, &[5, 1]), Ok(AttributeValue::UnitRef(0x105)));
    assert_eq!(v(0x13, &[5, 0, 0, 1]), Ok(AttributeValue::UnitRef(0x1000005)));
    assert_eq!(v(0x14, &[5, 0, 0, 0, 0, 0, 0, 0]), Ok(AttributeValue::UnitRef(5)));
    assert_eq!(v(0x15, &[0x85, 0x01]), Ok(AttributeValue::UnitRef(133)));
    assert_eq!(v(0x16, &[0x0b, 0x2a]), Ok(AttributeValue::Data1(0x2a)));
    assert_eq!(v(0x16, &[0x16, 0x05, 1, 2]), Ok(AttributeValue::Data2(0x0201)));
    assert_eq!(v(0x17, &[6, 0, 0, 0]), Ok(AttributeValue::SecOffset(6)));
    assert_eq!(v(0x18, &[2, 0x91, 0x00]), Ok(AttributeValue::Exprloc(Expression(vec![0x91, 0]))));
    assert_eq!(v(0x19, &[]), Ok(AttributeValue::Flag(true)));
    assert_eq!(v(0x1a, &[3]), Ok(AttributeValue::DebugStrOffsetsIndex(DebugStrOffsetsIndex(3))));
    assert_eq!(v(0x1b, &[4]), Ok(AttributeValue::DebugAddrIndex(DebugAddrIndex(4))));
    assert_eq!(v(0x1c, &[1, 0, 0, 0]), Ok(AttributeValue::DebugInfoRefSup(DebugInfoOffset(1))));
    assert_eq!(v(0x1d, &[2, 0, 0, 0]), Ok(AttributeValue::DebugStrRefSup(DebugStrOffset(2))));
    assert_eq!(v(0x1e, &[7; 16]), Ok(AttributeValue::Block(vec![7; 16])));
    assert_eq!(
        v(0x1f, &[3, 0, 0, 0]),
        Ok(AttributeValue::DebugLineStrRef(dwarf_resolve::DebugLineStrOffset(3)))
    );
    assert_eq!(v(0x20, &[1, 0, 0, 0, 0, 0, 0, 0x80]), Ok(AttributeValue::DebugTypesRef(1 | 1 << 63)));
    assert_eq!(v(0x22, &[2]), Ok(AttributeValue::DebugLocListsIndex(DebugLocListsIndex(2))));
    assert_eq!(v(0x23, &[2]), Ok(AttributeValue::DebugRngListsIndex(DebugRngListsIndex(2))));
    assert_eq!(
        v(0x24, &[1, 0, 0, 0, 0, 0, 0, 0]),
        Ok(AttributeValue::DebugInfoRefSup(DebugInfoOffset(1)))
    );
    assert_eq!(v(0x25, &[1]), Ok(AttributeValue::DebugStrOffsetsIndex(DebugStrOffsetsIndex(1))));
    assert_eq!(v(0x26, &[1, 1]), Ok(AttributeValue::DebugStrOffsetsIndex(DebugStrOffsetsIndex(0x101))));
    assert_eq!(
        v(0x27, &[1, 2, 3]),
        Ok(AttributeValue::DebugStrOffsetsIndex(DebugStrOffsetsIndex(0x030201)))
    );
    assert_eq!(
        v(0x28, &[1, 2, 3, 4]),
        Ok(AttributeValue::DebugStrOffsetsIndex(DebugStrOffsetsIndex(0x04030201)))
    );
    assert_eq!(v(0x29, &[1]), Ok(AttributeValue::DebugAddrIndex(DebugAddrIndex(1))));
    assert_eq!(v(0x2a, &[1, 1]), Ok(AttributeValue::DebugAddrIndex(DebugAddrIndex(0x101))));
    assert_eq!(v(0x2b, &[1, 2, 3]), Ok(AttributeValue::DebugAddrIndex(DebugAddrIndex(0x030201))));
    assert_eq!(v(0x2c, &[1, 0, 0, 0]), Ok(AttributeValue::DebugAddrIndex(DebugAddrIndex(1))));
    assert_eq!(v(0x1f01, &[9]), Ok(AttributeValue::DebugAddrIndex(DebugAddrIndex(9))));
    assert_eq!(v(0x1f02, &[9]), Ok(AttributeValue::DebugStrOffsetsIndex(DebugStrOffsetsIndex(9))));
    assert_eq!(v(0x1f20, &[9, 0, 0, 0]), Ok(AttributeValue::DebugInfoRefSup(DebugInfoOffset(9))));
    assert_eq!(v(0x1f21, &[9, 0, 0, 0]), Ok(AttributeValue::DebugStrRefSup(DebugStrOffset(9))));
    assert_eq!(
        one_value(0x10, &[5, 0], 2, 2),
        Ok(AttributeValue::DebugInfoRef(DebugInfoOffset(5)))
    );
    assert_eq!(
        one_value(0x10, &[5, 0, 0, 0], 3, 2),
        Ok(AttributeValue::DebugInfoRef(DebugInfoOffset(5)))
    );
}

#[test]
fn value_that_leaves_the_unit_fails() {
    let v = |form: u64, bytes: &[u8]| one_value(form, bytes, 5, 4);
    assert_eq!(v(0x01, &[1, 2, 3]), Err(Error::UnexpectedEof));
    assert_eq!(v(0x03, &[3, 0, 0xaa, 0xbb]), Err(Error::UnexpectedEof));
    assert_eq!(v(0x08, b"hi"), Err(Error::UnexpectedEof));
    assert_eq!(v(0x09, &[0xff, 0xff, 0xff, 0xff, 0xff, 0xff, 0xff, 0xff, 0xff, 0x01]), Err(Error::UnexpectedEof));
    assert_eq!(v(0x1e, &[7; 15]), Err(Error::UnexpectedEof));
    assert_eq!(v(0x0d, &[0x80]), Err(Error::UnexpectedEof));
    assert_eq!(
        v(0x0d, &[0x80, 0x80, 0x80, 0x80, 0x80, 0x80, 0x80, 0x80, 0x80, 0x01]),
        Err(Error::BadSignedLeb128)
    );
    assert_eq!(v(0x16, &[0x2d]), Err(Error::UnknownForm));
    assert_eq!(v(0x16, &[0x00]), Err(Error::UnknownForm));
}

#[test]
fn implicit_constant_is_taken_from_the_abbreviation() {
    let table = [0x01, 0x11, 0x00, 0x47, 0x21, 0x7f, 0x03, 0x0b, 0x00, 0x00, 0x00];
    let info = unit_v5(0x01, 4, 0, &[0x01, 0x09]);
    let dwarf = dwarf_of(&info, &table);
    let unit = DwarfUnit::new(&dwarf, header_of(&dwarf)).unwrap();
    let root = unit.entries().next_dfs().unwrap().unwrap();
    assert_eq!(root.attrs[0].value(), AttributeValue::Sdata(-1));
    assert_eq!(root.attrs[1].value(), AttributeValue::Data1(9));
    assert_eq!(unit.name, Some(AttributeValue::Data1(9)));
}

#[test]
fn a_value_is_read_by_its_name() {
    let value = |name: u16, raw: AttributeValue<EndianSlice<'static>>| {
        Attribute { name: DwAt(name), value: raw }.value()
    };
    let offset = AttributeValue::SecOffset(0x30);
    assert_eq!(value(0x10, offset), AttributeValue::DebugLineRef(DebugLineOffset(0x30)));
    assert_eq!(value(0x10, AttributeValue::Data4(7)), AttributeValue::DebugLineRef(DebugLineOffset(7)));
    assert_eq!(value(0x10, AttributeValue::Data8(7)), AttributeValue::DebugLineRef(DebugLineOffset(7)));
    assert_eq!(value(0x10, AttributeValue::Udata(7)), AttributeValue::Udata(7));
    assert_eq!(value(0x55, offset), AttributeValue::RangeListsRef(RangeListsOffset(0x30)));
    assert_eq!(value(0x02, offset), AttributeValue::LocationListsRef(LocationListsOffset(0x30)));
    assert_eq!(value(0x40, offset), AttributeValue::LocationListsRef(LocationListsOffset(0x30)));
    assert_eq!(value(0x72, offset), AttributeValue::DebugStrOffsetsBase(DebugStrOffsetsBase(0x30)));
    assert_eq!(value(0x73, offset), AttributeValue::DebugAddrBase(DebugAddrBase(0x30)));
    assert_eq!(value(0x74, offset), AttributeValue::DebugRngListsBase(DebugRngListsBase(0x30)));
    assert_eq!(value(0x8c, offset), AttributeValue::DebugLocListsBase(DebugLocListsBase(0x30)));
    assert_eq!(value(0x03, offset), offset);
    assert_eq!(value(0x11, AttributeValue::Addr(5)), AttributeValue::Addr(5));
    assert_eq!(value(0x73, AttributeValue::Flag(true)), AttributeValue::Flag(true));
}

fn resolving<'a>(
    strs: &'a [u8],
    sup: &'a [u8],
    line_strs: &'a [u8],
    offsets: &'a [u8],
    addrs: &'a [u8],
    rnglists: &'a [u8],
    loclists: &'a [u8],
) -> Dwarf<'a> {
    let mut dwarf = Dwarf::default();
    dwarf.debug_str = DebugStr::new(strs, LE);
    dwarf.debug_str_sup = DebugStr::new(sup, LE);
    dwarf.debug_line_str = DebugLineStr::new(line_strs, LE);
    dwarf.debug_str_offsets = DebugStrOffsets::new(offsets, LE);
    dwarf.debug_addr = DebugAddr::new(addrs, LE);
    dwarf.ranges.debug_rnglists = DebugRngLists::new(rnglists, LE);
    dwarf.locations.debug_loclists = DebugLocLists::new(loclists, LE);
    dwarf
}

fn unit_with_bases<'a>(info: &'a [u8], table: &'a [u8]) -> DwarfUnit<'a> {
    let dwarf = dwarf_of(info, table);
    DwarfUnit::new(&dwarf, header_of(&dwarf)).unwrap()
}

#[test]
fn resolves_strings_of_every_form() {
    let (info, table) = full_unit();
    let line = line_program_v4();
    let mut dwarf = dwarf_of(&info, &table);
    dwarf.debug_line = DebugLine::new(&line, LE);
    let unit = DwarfUnit::new(&dwarf, header_of(&dwarf)).unwrap();
    let mut offsets = vec![0u8; 8];
    offsets.extend_from_slice(&0u32.to_le_bytes());
    offsets.extend_from_slice(&6u32.to_le_bytes());
    offsets.extend_from_slice(&99u32.to_le_bytes());
    let dwarf = resolving(b"first\0hello\0", b"sup\0", b"line\0", &offsets, &[], &[], &[]);

    let inline = EndianSlice::new(b"inline", RunTimeEndian::Big);
    assert_eq!(dwarf.attr_string(&unit, AttributeValue::String(inline)), Ok(inline));
    let direct = dwarf.attr_string(&unit, AttributeValue::DebugStrRef(DebugStrOffset(6))).unwrap();
    assert_eq!(direct.slice(), b"hello");
    let by_index = dwarf
        .attr_string(&unit, AttributeValue::DebugStrOffsetsIndex(DebugStrOffsetsIndex(1)))
        .unwrap();
    assert_eq!(by_index.slice(), b"hello");
    assert_eq!(by_index, direct);
    let first = dwarf
        .attr_string(&unit, AttributeValue::DebugStrOffsetsIndex(DebugStrOffsetsIndex(0)))
        .unwrap();
    assert_eq!(first.slice(), b"first");
    let sup = dwarf.attr_string(&unit, AttributeValue::DebugStrRefSup(DebugStrOffset(0))).unwrap();
    assert_eq!(sup.slice(), b"sup");
    let line = dwarf
        .attr_string(&unit, AttributeValue::DebugLineStrRef(dwarf_resolve::DebugLineStrOffset(1)))
        .unwrap();
    assert_eq!(line.slice(), b"ine");
    assert_eq!(dwarf.attr_string(&unit, unit.name.unwrap()).unwrap().slice(), b"a.c");
    assert_eq!(dwarf.attr_string(&unit, unit.comp_dir.unwrap()).unwrap().slice(), b"t");
}

#[test]
fn strings_that_cannot_be_resolved_fail() {
    let (info, table) = full_unit();
    let line = line_program_v4();
    let mut dwarf = dwarf_of(&info, &table);
    dwarf.debug_line = DebugLine::new(&line, LE);
    let unit = DwarfUnit::new(&dwarf, header_of(&dwarf)).unwrap();
    let mut offsets = vec![0u8; 8];
    offsets.extend_from_slice(&99u32.to_le_bytes());
    let dwarf = resolving(b"first\0hello", b"", b"", &offsets, &[], &[], &[]);
    let string = |attr| dwarf.attr_string(&unit, attr);
    assert_eq!(string(AttributeValue::Udata(3)), Err(Error::ExpectedStringAttributeValue));
    assert_eq!(string(AttributeValue::Addr(0)), Err(Error::ExpectedStringAttributeValue));
    assert_eq!(string(AttributeValue::SecOffset(0)), Err(Error::ExpectedStringAttributeValue));
    assert_eq!(
        string(AttributeValue::Block(EndianSlice::new(b"x\0", LE))),
        Err(Error::ExpectedStringAttributeValue)
    );
    assert_eq!(string(AttributeValue::DebugStrRef(DebugStrOffset(6))), Err(Error::UnexpectedEof));
    assert_eq!(string(AttributeValue::DebugStrRef(DebugStrOffset(60))), Err(Error::UnexpectedEof));
    assert_eq!(string(AttributeValue::DebugStrRefSup(DebugStrOffset(0))), Err(Error::UnexpectedEof));
    assert_eq!(
        string(AttributeValue::DebugStrOffsetsIndex(DebugStrOffsetsIndex(0))),
        Err(Error::UnexpectedEof)
    );
    assert_eq!(
        string(AttributeValue::DebugStrOffsetsIndex(DebugStrOffsetsIndex(1))),
        Err(Error::UnexpectedEof)
    );
    let empty = Dwarf::default();
    assert_eq!(
        empty.attr_string(&unit, AttributeValue::DebugStrRef(DebugStrOffset(0))),
        Err(Error::UnexpectedEof)
    );
    assert_eq!(empty.address(&unit, DebugAddrIndex(0)), Err(Error::UnexpectedEof));
    assert_eq!(empty.ranges_offset(&unit, DebugRngListsIndex(0)), Err(Error::UnexpectedEof));
    assert_eq!(empty.locations_offset(&unit, DebugLocListsIndex(0)), Err(Error::UnexpectedEof));
    assert_eq!(empty.ranges(&unit, RangeListsOffset(1)), Err(Error::UnexpectedEof));
    assert_eq!(empty.locations(&unit, LocationListsOffset(1)), Err(Error::UnexpectedEof));
    assert_eq!(empty.units().next(), Ok(None));
    assert_eq!(empty.type_units().next(), Ok(None));
}

#[test]
fn resolves_addresses_and_lists_by_the_bases_of_the_unit() {
    let (info, table) = full_unit();
    let line = line_program_v4();
    let mut dwarf = dwarf_of(&info, &table);
    dwarf.debug_line = DebugLine::new(&line, LE);
    let unit = DwarfUnit::new(&dwarf, header_of(&dwarf)).unwrap();

    let mut addrs = vec![0u8; 16];
    addrs.extend_from_slice(&0x1000u64.to_le_bytes());
    addrs.extend_from_slice(&0x2000u64.to_le_bytes());
    let mut rnglists = vec![0u8; 20];
    rnglists.extend_from_slice(&8u32.to_le_bytes());
    rnglists.extend_from_slice(&13u32.to_le_bytes());
    rnglists.extend_from_slice(&[0x04, 0x01, 0x02, 0x00, 0x00]);
    rnglists.extend_from_slice(&[0x02, 0x00, 0x01, 0x00]);
    let mut loclists = vec![0u8; 12];
    loclists.extend_from_slice(&4u32.to_le_bytes());
    loclists.extend_from_slice(&[0x03, 0x01, 0x10, 0x01, 0x50, 0x00]);
    let dwarf = resolving(&[], &[], &[], &[], &addrs, &rnglists, &loclists);

    assert_eq!(dwarf.address(&unit, DebugAddrIndex(0)), Ok(0x1000));
    assert_eq!(dwarf.address(&unit, DebugAddrIndex(1)), Ok(0x2000));
    assert_eq!(dwarf.address(&unit, DebugAddrIndex(2)), Err(Error::UnexpectedEof));

    assert_eq!(dwarf.ranges_offset(&unit, DebugRngListsIndex(0)), Ok(RangeListsOffset(28)));
    assert_eq!(dwarf.ranges_offset(&unit, DebugRngListsIndex(1)), Ok(RangeListsOffset(33)));
    let mut first = dwarf.ranges(&unit, RangeListsOffset(28)).unwrap();
    assert_eq!(first.next(), Ok(Some(Range { begin: 0x40_0001, end: 0x40_0002 })));
    assert_eq!(first.next(), Ok(None));

    let index = AttributeValue::DebugRngListsIndex(DebugRngListsIndex(1));
    assert_eq!(dwarf.attr_ranges_offset(&unit, index), Ok(Some(RangeListsOffset(33))));
    let reference = AttributeValue::RangeListsRef(RangeListsOffset(33));
    assert_eq!(dwarf.attr_ranges_offset(&unit, reference), Ok(Some(RangeListsOffset(33))));
    let mut by_index = dwarf.attr_ranges(&unit, index).unwrap().unwrap();
    let mut by_reference = dwarf.attr_ranges(&unit, reference).unwrap().unwrap();
    assert_eq!(by_index.next(), Ok(Some(Range { begin: 0x1000, end: 0x2000 })));
    assert_eq!(by_reference.next(), Ok(Some(Range { begin: 0x1000, end: 0x2000 })));
    assert_eq!(by_index.next(), Ok(None));
    let missing = AttributeValue::DebugRngListsIndex(DebugRngListsIndex(9));
    assert_eq!(dwarf.attr_ranges_offset(&unit, missing), Err(Error::UnexpectedEof));
    assert_eq!(dwarf.attr_ranges(&unit, missing), Err(Error::UnexpectedEof));
    let behind = AttributeValue::RangeListsRef(RangeListsOffset(1000));
    assert_eq!(dwarf.attr_ranges(&unit, behind), Err(Error::UnexpectedEof));

    assert_eq!(dwarf.locations_offset(&unit, DebugLocListsIndex(0)), Ok(LocationListsOffset(16)));
    let index = AttributeValue::DebugLocListsIndex(DebugLocListsIndex(0));
    assert_eq!(dwarf.attr_locations_offset(&unit, index), Ok(Some(LocationListsOffset(16))));
    let reference = AttributeValue::LocationListsRef(LocationListsOffset(16));
    assert_eq!(dwarf.attr_locations_offset(&unit, reference), Ok(Some(LocationListsOffset(16))));
    let mut by_index = dwarf.attr_locations(&unit, index).unwrap().unwrap();
    let entry = by_index.next().unwrap().unwrap();
    assert_eq!(entry.range, Range { begin: 0x2000, end: 0x2010 });
    assert_eq!(entry.data.0.slice(), &[0x50u8]);
    assert_eq!(by_index.next(), Ok(None));
    let mut direct = dwarf.locations(&unit, LocationListsOffset(16)).unwrap();
    assert_eq!(direct.next().unwrap().unwrap(), entry);
    let missing = AttributeValue::DebugLocListsIndex(DebugLocListsIndex(9));
    assert_eq!(dwarf.attr_locations(&unit, missing), Err(Error::UnexpectedEof));
}

#[test]
fn values_of_other_kinds_stand_for_no_list() {
    let table = abbrev_table(0, &[(0x03, 0x08)]);
    let info = unit_v4(4, 0, &[0x01, b'x', 0x00]);
    let unit = unit_with_bases(&info, &table);
    let dwarf = Dwarf::default();
    let others = [
        AttributeValue::String(EndianSlice::new(b"text", LE)),
        AttributeValue::Udata(4),
        AttributeValue::SecOffset(0),
        AttributeValue::Addr(0x1000),
        AttributeValue::DebugStrRef(DebugStrOffset(0)),
        AttributeValue::DebugAddrIndex(DebugAddrIndex(0)),
        AttributeValue::Flag(true),
    ];
    for attr in others {
        assert_eq!(dwarf.attr_ranges_offset(&unit, attr), Ok(None));
        assert_eq!(dwarf.attr_ranges(&unit, attr), Ok(None));
        assert_eq!(dwarf.attr_locations_offset(&unit, attr), Ok(None));
        assert_eq!(dwarf.attr_locations(&unit, attr), Ok(None));
    }
    let ranges = AttributeValue::RangeListsRef(RangeListsOffset(0));
    assert_eq!(dwarf.attr_locations_offset(&unit, ranges), Ok(None));
    assert_eq!(dwarf.attr_locations(&unit, ranges), Ok(None));
    let locations = AttributeValue::LocationListsRef(LocationListsOffset(0));
    assert_eq!(dwarf.attr_ranges_offset(&unit, locations), Ok(None));
    assert_eq!(dwarf.attr_ranges(&unit, locations), Ok(None));
    assert_eq!(dwarf.attr_ranges_offset(&unit, ranges), Ok(Some(RangeListsOffset(0))));
}

#[test]
fn version_4_unit_reads_its_lists_in_the_old_sections() {
    let table = abbrev_table(0, &[(0x11, 0x01)]);
    let mut entries = vec![0x01];
    entries.extend_from_slice(&0x5000u32.to_le_bytes());
    let info = unit_v4(4, 0, &entries);
    let unit = unit_with_bases(&info, &table);
    let mut ranges = Vec::new();
    ranges.extend_from_slice(&1u32.to_le_bytes());
    ranges.extend_from_slice(&2u32.to_le_bytes());
    ranges.extend_from_slice(&[0; 8]);
    let mut dwarf = Dwarf::default();
    dwarf.ranges.debug_ranges = dwarf_resolve::DebugRanges::new(&ranges, LE);
    dwarf.locations.debug_loc = dwarf_resolve::DebugLoc::new(&ranges, LE);
    let mut iter = dwarf.ranges(&unit, RangeListsOffset(0)).unwrap();
    assert_eq!(iter.next(), Ok(Some(Range { begin: 0x5001, end: 0x5002 })));
    assert_eq!(iter.next(), Ok(None));
    let mut iter = dwarf.locations(&unit, LocationListsOffset(0)).unwrap();
    let entry = iter.next().unwrap().unwrap();
    assert_eq!(entry.range, Range { begin: 0x5001, end: 0x5002 });
    assert_eq!(entry.data.0.len(), 0);
    assert_eq!(iter.next(), Err(Error::UnexpectedEof));
    assert_eq!(iter.next(), Ok(None));
}
