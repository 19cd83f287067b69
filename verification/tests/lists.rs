use dwarf_resolve::rnglists::{add_address, max_address};
use dwarf_resolve::{
    DebugAddr, DebugAddrBase, DebugAddrIndex, DebugLoc, DebugLocLists, DebugLocListsBase,
    DebugLocListsIndex, DebugRanges, DebugRngLists, DebugRngListsBase, DebugRngListsIndex,
    Encoding, Error, Format, LocationLists, LocationListsOffset, Range, RangeLists,
    RangeListsOffset, RawLocListPlace, RawRngListEntry, RunTimeEndian,
};

fn encoding(version: u16, address_size: u8) -> Encoding {
    Encoding { address_size, format: Format::Dwarf32, version }
}

fn range_lists<'a>(ranges: &'a [u8], rnglists: &'a [u8]) -> RangeLists<'a> {
    RangeLists::new(
        DebugRanges::new(ranges, RunTimeEndian::Little),
        DebugRngLists::new(rnglists, RunTimeEndian::Little),
    )
}

fn location_lists<'a>(loc: &'a [u8], loclists: &'a [u8]) -> LocationLists<'a> {
    LocationLists::new(
        DebugLoc::new(loc, RunTimeEndian::Little),
        DebugLocLists::new(loclists, RunTimeEndian::Little),
    )
}

fn address_table() -> Vec<u8> {
    let mut t = Vec::new();
    for a in [0x1000u32, 0x2000, 0x3000, 0x4000] {
        t.extend_from_slice(&a.to_le_bytes());
    }
    t
}

#[test]
fn address_arithmetic_wraps_within_the_address_size() {
    assert_eq!(add_address(0x1000, 0x10, 8), 0x1010);
    assert_eq!(add_address(u64::MAX, 1, 8), 0);
    assert_eq!(add_address(0xffff_ffff, 1, 4), 0);
    assert_eq!(add_address(0xffff_fff0, 0x20, 4), 0x10);
    assert_eq!(add_address(0xffff, 2, 2), 1);
    assert_eq!(add_address(0xff, 0xff, 1), 0xfe);
    assert_eq!(add_address(0x1_0000_0000, 5, 4), 5);
    assert_eq!(add_address(7, 9, 0), 0);
    assert_eq!(add_address(1, 2, 200), 3);
    assert_eq!(max_address(1), 0xff);
    assert_eq!(max_address(2), 0xffff);
    assert_eq!(max_address(4), 0xffff_ffff);
    assert_eq!(max_address(8), u64::MAX);
    assert_eq!(max_address(0), 0);
}

#[test]
fn one_absolute_pair_in_a_version_5_list() {
    let mut list = vec![0x06u8];
    list.extend_from_slice(&0x1000u32.to_le_bytes());
    list.extend_from_slice(&0x1010u32.to_le_bytes());
    list.push(0x00);
    let lists = range_lists(&[], &list);
    let addr = DebugAddr::new(&[], RunTimeEndian::Little);
    let mut iter =
        lists.ranges(RangeListsOffset(0), encoding(5, 4), 0x5000, &addr, DebugAddrBase(0)).unwrap();
    assert_eq!(iter.next(), Ok(Some(Range { begin: 0x1000, end: 0x1010 })));
    assert_eq!(iter.next(), Ok(None));
    assert_eq!(iter.next(), Ok(None));
}

#[test]
fn one_pair_in_a_version_4_list() {
    let mut list = Vec::new();
    list.extend_from_slice(&0x1000u32.to_le_bytes());
    list.extend_from_slice(&0x1010u32.to_le_bytes());
    list.extend_from_slice(&[0; 8]);
    list.extend_from_slice(&0x7777u32.to_le_bytes());
    let lists = range_lists(&list, &[]);
    let addr = DebugAddr::new(&[], RunTimeEndian::Little);
    let mut iter =
        lists.ranges(RangeListsOffset(0), encoding(4, 4), 0, &addr, DebugAddrBase(0)).unwrap();
    assert_eq!(iter.next(), Ok(Some(Range { begin: 0x1000, end: 0x1010 })));
    assert_eq!(iter.next(), Ok(None));
    assert_eq!(iter.next(), Ok(None));
}

#[test]
fn version_4_pairs_are_relative_to_the_unit_base() {
    let mut list = Vec::new();
    list.extend_from_slice(&0x10u32.to_le_bytes());
    list.extend_from_slice(&0x20u32.to_le_bytes());
    list.extend_from_slice(&[0; 8]);
    let lists = range_lists(&list, &[]);
    let addr = DebugAddr::new(&[], RunTimeEndian::Little);
    let mut iter =
        lists.ranges(RangeListsOffset(0), encoding(4, 4), 0x4000, &addr, DebugAddrBase(0)).unwrap();
    assert_eq!(iter.next(), Ok(Some(Range { begin: 0x4010, end: 0x4020 })));
    assert_eq!(iter.next(), Ok(None));
}

#[test]
fn base_address_entry_replaces_the_unit_base_in_version_4() {
    let mut list = Vec::new();
    list.extend_from_slice(&0x10u32.to_le_bytes());
    list.extend_from_slice(&0x20u32.to_le_bytes());
    list.extend_from_slice(&0xffff_ffffu32.to_le_bytes());
    list.extend_from_slice(&0x8000u32.to_le_bytes());
    list.extend_from_slice(&0x10u32.to_le_bytes());
    list.extend_from_slice(&0x20u32.to_le_bytes());
    list.extend_from_slice(&[0; 8]);
    let lists = range_lists(&list, &[]);
    let addr = DebugAddr::new(&[], RunTimeEndian::Little);
    let mut iter =
        lists.ranges(RangeListsOffset(0), encoding(4, 4), 0x4000, &addr, DebugAddrBase(0)).unwrap();
    assert_eq!(iter.next(), Ok(Some(Range { begin: 0x4010, end: 0x4020 })));
    assert_eq!(iter.next(), Ok(Some(Range { begin: 0x8010, end: 0x8020 })));
    assert_eq!(iter.base_address, 0x8000);
    assert_eq!(iter.next(), Ok(None));
}

#[test]
fn base_address_entry_replaces_the_unit_base_in_version_5() {
    let mut list = vec![0x05u8];
    list.extend_from_slice(&0x8000u32.to_le_bytes());
    list.extend_from_slice(&[0x04, 0x10, 0x20]);
    list.push(0x00);
    let lists = range_lists(&[], &list);
    let addr = DebugAddr::new(&[], RunTimeEndian::Little);
    let mut iter =
        lists.ranges(RangeListsOffset(0), encoding(5, 4), 0x4000, &addr, DebugAddrBase(0)).unwrap();
    assert_eq!(iter.next(), Ok(Some(Range { begin: 0x8010, end: 0x8020 })));
    assert_eq!(iter.next(), Ok(None));
}

#[test]
fn every_kind_of_version_5_range_entry() {
    let mut list = Vec::new();
    list.extend_from_slice(&[0x04, 0x01, 0x02]);
    list.extend_from_slice(&[0x01, 0x02]);
    list.extend_from_slice(&[0x04, 0x80, 0x01, 0x81, 0x01]);
    list.extend_from_slice(&[0x02, 0x00, 0x01]);
    list.extend_from_slice(&[0x03, 0x03, 0x40]);
    list.push(0x07);
    list.extend_from_slice(&0x9000u32.to_le_bytes());
    list.push(0x08);
    list.push(0x00);
    let table = address_table();
    let lists = range_lists(&[], &list);
    let addr = DebugAddr::new(&table, RunTimeEndian::Little);
    let mut iter =
        lists.ranges(RangeListsOffset(0), encoding(5, 4), 0x100, &addr, DebugAddrBase(0)).unwrap();
    assert_eq!(iter.next(), Ok(Some(Range { begin: 0x101, end: 0x102 })));
    assert_eq!(iter.next(), Ok(Some(Range { begin: 0x3080, end: 0x3081 })));
    assert_eq!(iter.next(), Ok(Some(Range { begin: 0x1000, end: 0x2000 })));
    assert_eq!(iter.next(), Ok(Some(Range { begin: 0x4000, end: 0x4040 })));
    assert_eq!(iter.next(), Ok(Some(Range { begin: 0x9000, end: 0x9008 })));
    assert_eq!(iter.next(), Ok(None));
}

#[test]
fn raw_range_entries_are_given_as_encoded() {
    let mut list = vec![0x05u8];
    list.extend_from_slice(&0x8000u32.to_le_bytes());
    list.extend_from_slice(&[0x04, 0x10, 0x20]);
    list.extend_from_slice(&[0x01, 0x03]);
    list.extend_from_slice(&[0x02, 0x01, 0x02]);
    list.extend_from_slice(&[0x03, 0x01, 0x7f]);
    list.push(0x06);
    list.extend_from_slice(&1u32.to_le_bytes());
    list.extend_from_slice(&2u32.to_le_bytes());
    list.push(0x07);
    list.extend_from_slice(&3u32.to_le_bytes());
    list.push(0x04);
    list.push(0x00);
    list.push(0x06);
    let lists = range_lists(&[], &list);
    let mut raw = lists.raw_ranges(RangeListsOffset(0), encoding(5, 4)).unwrap();
    assert_eq!(raw.next(), Ok(Some(RawRngListEntry::BaseAddress { addr: 0x8000 })));
    assert_eq!(raw.next(), Ok(Some(RawRngListEntry::OffsetPair { begin: 0x10, end: 0x20 })));
    assert_eq!(raw.next(), Ok(Some(RawRngListEntry::BaseAddressx { addr: DebugAddrIndex(3) })));
    assert_eq!(
        raw.next(),
        Ok(Some(RawRngListEntry::StartxEndx { begin: DebugAddrIndex(1), end: DebugAddrIndex(2) }))
    );
    assert_eq!(
        raw.next(),
        Ok(Some(RawRngListEntry::StartxLength { begin: DebugAddrIndex(1), length: 0x7f }))
    );
    assert_eq!(raw.next(), Ok(Some(RawRngListEntry::StartEnd { begin: 1, end: 2 })));
    assert_eq!(raw.next(), Ok(Some(RawRngListEntry::StartLength { begin: 3, length: 4 })));
    assert_eq!(raw.next(), Ok(None));
    assert_eq!(raw.pos, list.len());
    assert_eq!(raw.next(), Ok(None));
}

#[test]
fn unknown_entry_kind_is_an_error_once() {
    let list = [0x04u8, 0x01, 0x02, 0x09, 0x04, 0x01, 0x02, 0x00];
    let lists = range_lists(&[], &list);
    let addr = DebugAddr::new(&[], RunTimeEndian::Little);
    let mut iter =
        lists.ranges(RangeListsOffset(0), encoding(5, 8), 0, &addr, DebugAddrBase(0)).unwrap();
    assert_eq!(iter.next(), Ok(Some(Range { begin: 1, end: 2 })));
    assert_eq!(iter.next(), Err(Error::InvalidAddressRange));
    assert_eq!(iter.next(), Ok(None));
    assert_eq!(iter.next(), Ok(None));
}

#[test]
fn truncated_entry_is_an_error_once() {
    let list = [0x06u8, 0x00, 0x10, 0x00, 0x00, 0x10, 0x10];
    let lists = range_lists(&[], &list);
    let addr = DebugAddr::new(&[], RunTimeEndian::Little);
    let mut iter =
        lists.ranges(RangeListsOffset(0), encoding(5, 4), 0, &addr, DebugAddrBase(0)).unwrap();
    assert_eq!(iter.next(), Err(Error::UnexpectedEof));
    assert_eq!(iter.next(), Ok(None));
    let bare = [0x01u8, 0x00, 0x00, 0x00, 0x02, 0x00];
    let lists = range_lists(&bare, &[]);
    let mut iter =
        lists.ranges(RangeListsOffset(0), encoding(4, 4), 0, &addr, DebugAddrBase(0)).unwrap();
    assert_eq!(iter.next(), Err(Error::UnexpectedEof));
    assert_eq!(iter.next(), Ok(None));
}

#[test]
fn list_that_runs_out_of_bytes_ends() {
    let list = [0x04u8, 0x01, 0x02];
    let lists = range_lists(&[], &list);
    let addr = DebugAddr::new(&[], RunTimeEndian::Little);
    let mut iter =
        lists.ranges(RangeListsOffset(0), encoding(5, 4), 0, &addr, DebugAddrBase(0)).unwrap();
    assert_eq!(iter.next(), Ok(Some(Range { begin: 1, end: 2 })));
    assert_eq!(iter.next(), Ok(None));
}

#[test]
fn indexed_address_out_of_the_table_is_an_error_once() {
    let list = [0x01u8, 0x04, 0x04, 0x01, 0x02, 0x00];
    let table = address_table();
    let lists = range_lists(&[], &list);
    let addr = DebugAddr::new(&table, RunTimeEndian::Little);
    let mut iter =
        lists.ranges(RangeListsOffset(0), encoding(5, 4), 0, &addr, DebugAddrBase(0)).unwrap();
    assert_eq!(iter.next(), Err(Error::UnexpectedEof));
    assert_eq!(iter.next(), Ok(None));
}

#[test]
fn unsupported_address_size_in_a_version_4_list() {
    let list = [0u8; 16];
    let lists = range_lists(&list, &[]);
    let addr = DebugAddr::new(&[], RunTimeEndian::Little);
    let mut iter =
        lists.ranges(RangeListsOffset(0), encoding(4, 3), 0, &addr, DebugAddrBase(0)).unwrap();
    assert_eq!(iter.next(), Err(Error::UnsupportedAddressSize(3)));
    assert_eq!(iter.next(), Ok(None));
}

#[test]
fn opening_a_list_behind_the_section_fails() {
    let list = [0u8; 4];
    let lists = range_lists(&list, &list);
    let addr = DebugAddr::new(&[], RunTimeEndian::Little);
    assert_eq!(
        lists.ranges(RangeListsOffset(5), encoding(4, 4), 0, &addr, DebugAddrBase(0)),
        Err(Error::UnexpectedEof)
    );
    assert_eq!(
        lists.ranges(RangeListsOffset(5), encoding(5, 4), 0, &addr, DebugAddrBase(0)),
        Err(Error::UnexpectedEof)
    );
    let mut at_end =
        lists.ranges(RangeListsOffset(4), encoding(5, 4), 0, &addr, DebugAddrBase(0)).unwrap();
    assert_eq!(at_end.next(), Ok(None));
    let locs = location_lists(&list, &list);
    assert_eq!(
        locs.locations(LocationListsOffset(5), encoding(4, 4), 0, &addr, DebugAddrBase(0)),
        Err(Error::UnexpectedEof)
    );
}

#[test]
fn two_readers_of_one_list_do_not_disturb_each_other() {
    let mut list = vec![0x05u8];
    list.extend_from_slice(&0x8000u32.to_le_bytes());
    list.extend_from_slice(&[0x04, 0x10, 0x20]);
    list.extend_from_slice(&[0x04, 0x30, 0x40]);
    list.push(0x00);
    let lists = range_lists(&[], &list);
    let addr = DebugAddr::new(&[], RunTimeEndian::Little);
    let mut a =
        lists.ranges(RangeListsOffset(0), encoding(5, 4), 0x4000, &addr, DebugAddrBase(0)).unwrap();
    let mut b =
        lists.ranges(RangeListsOffset(0), encoding(5, 4), 0x4000, &addr, DebugAddrBase(0)).unwrap();
    assert_eq!(a, b);
    let a0 = a.next();
    let a1 = a.next();
    let b0 = b.next();
    let a2 = a.next();
    let b1 = b.next();
    let b2 = b.next();
    assert_eq!(a0, Ok(Some(Range { begin: 0x8010, end: 0x8020 })));
    assert_eq!(a1, Ok(Some(Range { begin: 0x8030, end: 0x8040 })));
    assert_eq!(a2, Ok(None));
    assert_eq!(a0, b0);
    assert_eq!(a1, b1);
    assert_eq!(a2, b2);
}

#[test]
fn range_list_offset_is_relative_to_the_base() {
    let mut section = vec![0u8; 12];
    section.extend_from_slice(&8u32.to_le_bytes());
    section.extend_from_slice(&0x20u32.to_le_bytes());
    let lists = range_lists(&[], &section);
    let enc = encoding(5, 4);
    assert_eq!(
        lists.get_offset(enc, DebugRngListsBase(12), DebugRngListsIndex(0)),
        Ok(RangeListsOffset(20))
    );
    assert_eq!(
        lists.get_offset(enc, DebugRngListsBase(12), DebugRngListsIndex(1)),
        Ok(RangeListsOffset(0x2c))
    );
    assert_eq!(
        lists.get_offset(enc, DebugRngListsBase(12), DebugRngListsIndex(2)),
        Err(Error::UnexpectedEof)
    );
    assert_eq!(
        lists.get_offset(enc, DebugRngListsBase(21), DebugRngListsIndex(0)),
        Err(Error::UnexpectedEof)
    );
}

#[test]
fn list_offset_too_large_for_a_word_is_unsupported() {
    let mut section = vec![0u8; 8];
    section.extend_from_slice(&u64::MAX.to_le_bytes());
    let enc = Encoding { address_size: 8, format: Format::Dwarf64, version: 5 };
    let lists = range_lists(&[], &section);
    assert_eq!(
        lists.get_offset(enc, DebugRngListsBase(8), DebugRngListsIndex(0)),
        Err(Error::UnsupportedOffset)
    );
    assert_eq!(
        lists.get_offset(enc, DebugRngListsBase(0), DebugRngListsIndex(1)),
        Ok(RangeListsOffset(usize::MAX))
    );
    let locs = location_lists(&[], &section);
    assert_eq!(
        locs.get_offset(enc, DebugLocListsBase(8), DebugLocListsIndex(0)),
        Err(Error::UnsupportedOffset)
    );
    assert_eq!(
        locs.get_offset(enc, DebugLocListsBase(0), DebugLocListsIndex(0)),
        Ok(LocationListsOffset(0))
    );
}

#[test]
fn version_4_location_list() {
    let mut list = Vec::new();
    list.extend_from_slice(&0x10u32.to_le_bytes());
    list.extend_from_slice(&0x20u32.to_le_bytes());
    list.extend_from_slice(&[0x02, 0x00, 0x91, 0x7c]);
    list.extend_from_slice(&0xffff_ffffu32.to_le_bytes());
    list.extend_from_slice(&0x8000u32.to_le_bytes());
    list.extend_from_slice(&0x30u32.to_le_bytes());
    list.extend_from_slice(&0x40u32.to_le_bytes());
    list.extend_from_slice(&[0x00, 0x00]);
    list.extend_from_slice(&[0; 8]);
    let lists = location_lists(&list, &[]);
    let addr = DebugAddr::new(&[], RunTimeEndian::Little);
    let mut iter = lists
        .locations(LocationListsOffset(0), encoding(4, 4), 0x4000, &addr, DebugAddrBase(0))
        .unwrap();
    let first = iter.next().unwrap().unwrap();
    assert_eq!(first.range, Range { begin: 0x4010, end: 0x4020 });
    assert_eq!(first.data.0.slice(), &[0x91u8, 0x7c]);
    let second = iter.next().unwrap().unwrap();
    assert_eq!(second.range, Range { begin: 0x8030, end: 0x8040 });
    assert_eq!(second.data.0.slice(), &[] as &[u8]);
    assert_eq!(iter.next(), Ok(None));
    assert_eq!(iter.next(), Ok(None));
}

#[test]
fn every_kind_of_version_5_location_entry() {
    let mut list = Vec::new();
    list.extend_from_slice(&[0x04, 0x01, 0x02, 0x01, 0xaa]);
    list.extend_from_slice(&[0x01, 0x02]);
    list.extend_from_slice(&[0x04, 0x01, 0x02, 0x02, 0xbb, 0xcc]);
    list.extend_from_slice(&[0x02, 0x00, 0x01, 0x00]);
    list.extend_from_slice(&[0x03, 0x03, 0x40, 0x01, 0xdd]);
    list.extend_from_slice(&[0x05, 0x01, 0xee]);
    list.push(0x06);
    list.extend_from_slice(&0x9000u32.to_le_bytes());
    list.extend_from_slice(&[0x04, 0x01, 0x02, 0x00]);
    list.push(0x07);
    list.extend_from_slice(&0x10u32.to_le_bytes());
    list.extend_from_slice(&0x20u32.to_le_bytes());
    list.extend_from_slice(&[0x01, 0x11]);
    list.push(0x08);
    list.extend_from_slice(&0x30u32.to_le_bytes());
    list.extend_from_slice(&[0x05, 0x01, 0x22]);
    list.push(0x00);
    let table = address_table();
    let lists = location_lists(&[], &list);
    let addr = DebugAddr::new(&table, RunTimeEndian::Little);
    let mut iter = lists
        .locations(LocationListsOffset(0), encoding(5, 4), 0x100, &addr, DebugAddrBase(0))
        .unwrap();
    let mut seen = Vec::new();
    while let Some(entry) = iter.next().unwrap() {
        seen.push((entry.range.begin, entry.range.end, entry.data.0.slice().to_vec()));
    }
    assert_eq!(
        seen,
        vec![
            (0x101, 0x102, vec![0xaa]),
            (0x3001, 0x3002, vec![0xbb, 0xcc]),
            (0x1000, 0x2000, vec![]),
            (0x4000, 0x4040, vec![0xdd]),
            (0, u64::MAX, vec![0xee]),
            (0x9001, 0x9002, vec![]),
            (0x10, 0x20, vec![0x11]),
            (0x30, 0x35, vec![0x22]),
        ]
    );
    assert_eq!(iter.next(), Ok(None));
}

#[test]
fn raw_location_entries_are_given_as_encoded() {
    let list = [0x05u8, 0x01, 0xee, 0x04, 0x01, 0x02, 0x01, 0xaa, 0x00];
    let lists = location_lists(&[], &list);
    let mut raw = lists.raw_locations(LocationListsOffset(0), encoding(5, 4)).unwrap();
    let first = raw.next().unwrap().unwrap();
    assert_eq!(first.place, RawLocListPlace::Default);
    assert_eq!(first.data.0.slice(), &[0xeeu8]);
    let second = raw.next().unwrap().unwrap();
    assert_eq!(
        second.place,
        RawLocListPlace::Ranged(RawRngListEntry::OffsetPair { begin: 1, end: 2 })
    );
    assert_eq!(second.data.0.slice(), &[0xaau8]);
    assert_eq!(raw.next(), Ok(None));
    assert_eq!(raw.next(), Ok(None));
}

#[test]
fn location_expression_that_leaves_the_section_is_an_error_once() {
    let list = [0x04u8, 0x01, 0x02, 0x05, 0xaa, 0xbb];
    let lists = location_lists(&[], &list);
    let addr = DebugAddr::new(&[], RunTimeEndian::Little);
    let mut iter = lists
        .locations(LocationListsOffset(0), encoding(5, 4), 0, &addr, DebugAddrBase(0))
        .unwrap();
    assert_eq!(iter.next(), Err(Error::UnexpectedEof));
    assert_eq!(iter.next(), Ok(None));
    let unknown = [0x09u8, 0x00];
    let lists = location_lists(&[], &unknown);
    let mut iter = lists
        .locations(LocationListsOffset(0), encoding(5, 4), 0, &addr, DebugAddrBase(0))
        .unwrap();
    assert_eq!(iter.next(), Err(Error::InvalidAddressRange));
    assert_eq!(iter.next(), Ok(None));
}

#[test]
fn two_location_readers_of_one_list_agree() {
    let list = [0x04u8, 0x01, 0x02, 0x01, 0xaa, 0x05, 0x00, 0x00];
    let lists = location_lists(&[], &list);
    let addr = DebugAddr::new(&[], RunTimeEndian::Little);
    let mut a = lists
        .locations(LocationListsOffset(0), encoding(5, 4), 0x10, &addr, DebugAddrBase(0))
        .unwrap();
    let mut b = lists
        .locations(LocationListsOffset(0), encoding(5, 4), 0x10, &addr, DebugAddrBase(0))
        .unwrap();
    let a0 = a.next();
    let a1 = a.next();
    let a2 = a.next();
    assert_eq!(b.next(), a0);
    assert_eq!(b.next(), a1);
    assert_eq!(b.next(), a2);
    assert_eq!(a2, Ok(None));
    assert_eq!(a0.unwrap().unwrap().range, Range { begin: 0x11, end: 0x12 });
}
