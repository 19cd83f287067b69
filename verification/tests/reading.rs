use dwarf_resolve::leb128::{read_sleb128, read_uleb128};
use dwarf_resolve::{
    DebugAddr, DebugAddrBase, DebugAddrIndex, DebugLineStr, DebugLineStrOffset, DebugStr,
    DebugStrOffset, DebugStrOffsets, DebugStrOffsetsBase, DebugStrOffsetsIndex, EndianSlice,
    Error, Format, RunTimeEndian,
};

#[test]
fn reads_fixed_width_integers_in_both_orders() {
    let bytes = [0x01u8, 0x02, 0x03, 0x04, 0x05, 0x06, 0x07, 0x08, 0x09];
    let le = EndianSlice::new(&bytes, RunTimeEndian::Little);
    let be = EndianSlice::new(&bytes, RunTimeEndian::Big);
    assert_eq!(le.read_u8(0), Ok(0x01));
    assert_eq!(le.read_u16(0), Ok(0x0201));
    assert_eq!(be.read_u16(0), Ok(0x0102));
    assert_eq!(le.read_u24(1), Ok(0x040302));
    assert_eq!(be.read_u24(1), Ok(0x020304));
    assert_eq!(le.read_u32(0), Ok(0x04030201));
    assert_eq!(be.read_u32(0), Ok(0x01020304));
    assert_eq!(le.read_u64(1), Ok(0x0908070605040302));
    assert_eq!(be.read_u64(1), Ok(0x0203040506070809));
}

#[test]
fn reads_past_the_end_fail() {
    let bytes = [0xaau8, 0xbb, 0xcc];
    let s = EndianSlice::new(&bytes, RunTimeEndian::Little);
    assert_eq!(s.read_u8(3), Err(Error::UnexpectedEof));
    assert_eq!(s.read_u16(2), Err(Error::UnexpectedEof));
    assert_eq!(s.read_u24(1), Err(Error::UnexpectedEof));
    assert_eq!(s.read_u32(0), Err(Error::UnexpectedEof));
    assert_eq!(s.read_u64(0), Err(Error::UnexpectedEof));
    assert_eq!(s.read_u8(usize::MAX), Err(Error::UnexpectedEof));
    assert_eq!(s.read_u16(1), Ok(0xccbb));
}

#[test]
fn reads_addresses_of_each_size() {
    let bytes = [0x10u8, 0x20, 0x30, 0x40, 0x50, 0x60, 0x70, 0x80];
    let s = EndianSlice::new(&bytes, RunTimeEndian::Little);
    assert_eq!(s.read_address(0, 1), Ok(0x10));
    assert_eq!(s.read_address(0, 2), Ok(0x2010));
    assert_eq!(s.read_address(0, 4), Ok(0x40302010));
    assert_eq!(s.read_address(0, 8), Ok(0x8070605040302010));
    assert_eq!(s.read_address(0, 3), Err(Error::UnsupportedAddressSize(3)));
    assert_eq!(s.read_address(100, 0), Err(Error::UnsupportedAddressSize(0)));
    assert_eq!(s.read_address(6, 4), Err(Error::UnexpectedEof));
}

#[test]
fn reads_offsets_of_both_formats() {
    let bytes = [0x78u8, 0x56, 0x34, 0x12, 0x00, 0x00, 0x00, 0x00];
    let s = EndianSlice::new(&bytes, RunTimeEndian::Little);
    assert_eq!(s.read_offset(0, Format::Dwarf32), Ok(0x12345678));
    assert_eq!(s.read_offset(0, Format::Dwarf64), Ok(0x12345678));
    assert_eq!(s.read_offset(4, Format::Dwarf32), Ok(0));
    assert_eq!(s.read_offset(4, Format::Dwarf64), Err(Error::UnexpectedEof));
    assert_eq!(Format::Dwarf32.word_size(), 4);
    assert_eq!(Format::Dwarf64.word_size(), 8);
}

#[test]
fn decodes_unsigned_leb128() {
    let bytes = [0xe5u8, 0x8e, 0x26, 0x7f, 0x80, 0x01, 0x00];
    let s = EndianSlice::new(&bytes, RunTimeEndian::Little);
    assert_eq!(read_uleb128(&s, 0), Ok((624485, 3)));
    assert_eq!(read_uleb128(&s, 3), Ok((127, 4)));
    assert_eq!(read_uleb128(&s, 4), Ok((128, 6)));
    assert_eq!(read_uleb128(&s, 6), Ok((0, 7)));
    assert_eq!(read_uleb128(&s, 7), Err(Error::UnexpectedEof));
}

#[test]
fn unsigned_leb128_reaches_the_largest_number_and_no_further() {
    let max = [0xffu8, 0xff, 0xff, 0xff, 0xff, 0xff, 0xff, 0xff, 0xff, 0x01];
    let s = EndianSlice::new(&max, RunTimeEndian::Little);
    assert_eq!(read_uleb128(&s, 0), Ok((u64::MAX, 10)));
    let over = [0xffu8, 0xff, 0xff, 0xff, 0xff, 0xff, 0xff, 0xff, 0xff, 0x02];
    let s = EndianSlice::new(&over, RunTimeEndian::Little);
    assert_eq!(read_uleb128(&s, 0), Err(Error::BadUnsignedLeb128));
    let long = [0x80u8, 0x80, 0x80, 0x80, 0x80, 0x80, 0x80, 0x80, 0x80, 0x80, 0x00];
    let s = EndianSlice::new(&long, RunTimeEndian::Little);
    assert_eq!(read_uleb128(&s, 0), Err(Error::BadUnsignedLeb128));
    let padded = [0x81u8, 0x80, 0x80, 0x80, 0x80, 0x80, 0x80, 0x80, 0x80, 0x00];
    let s = EndianSlice::new(&padded, RunTimeEndian::Little);
    assert_eq!(read_uleb128(&s, 0), Ok((1, 10)));
    let cut = [0x80u8, 0x80];
    let s = EndianSlice::new(&cut, RunTimeEndian::Little);
    assert_eq!(read_uleb128(&s, 0), Err(Error::UnexpectedEof));
}

#[test]
fn decodes_signed_leb128() {
    let bytes = [0xc0u8, 0xbb, 0x78, 0x02, 0x7e, 0xff, 0x00, 0x80, 0x7f, 0x3f, 0x40];
    let s = EndianSlice::new(&bytes, RunTimeEndian::Little);
    assert_eq!(read_sleb128(&s, 0), Ok((-123456, 3)));
    assert_eq!(read_sleb128(&s, 3), Ok((2, 4)));
    assert_eq!(read_sleb128(&s, 4), Ok((-2, 5)));
    assert_eq!(read_sleb128(&s, 5), Ok((127, 7)));
    assert_eq!(read_sleb128(&s, 7), Ok((-128, 9)));
    assert_eq!(read_sleb128(&s, 9), Ok((63, 10)));
    assert_eq!(read_sleb128(&s, 10), Ok((-64, 11)));
    assert_eq!(read_sleb128(&s, 11), Err(Error::UnexpectedEof));
}

#[test]
fn signed_leb128_reaches_both_ends_and_no_further() {
    let min = [0x80u8, 0x80, 0x80, 0x80, 0x80, 0x80, 0x80, 0x80, 0x80, 0x7f];
    let s = EndianSlice::new(&min, RunTimeEndian::Little);
    assert_eq!(read_sleb128(&s, 0), Ok((i64::MIN, 10)));
    let max = [0xffu8, 0xff, 0xff, 0xff, 0xff, 0xff, 0xff, 0xff, 0xff, 0x00];
    let s = EndianSlice::new(&max, RunTimeEndian::Little);
    assert_eq!(read_sleb128(&s, 0), Ok((i64::MAX, 10)));
    let over = [0x80u8, 0x80, 0x80, 0x80, 0x80, 0x80, 0x80, 0x80, 0x80, 0x01];
    let s = EndianSlice::new(&over, RunTimeEndian::Little);
    assert_eq!(read_sleb128(&s, 0), Err(Error::BadSignedLeb128));
}

#[test]
fn string_at_offset_is_the_run_up_to_the_next_zero() {
    let section = b"abc\0hello\0\0tail";
    let debug_str = DebugStr::new(section, RunTimeEndian::Little);
    assert_eq!(debug_str.get_str(DebugStrOffset(0)).unwrap().slice(), b"abc");
    assert_eq!(debug_str.get_str(DebugStrOffset(4)).unwrap().slice(), b"hello");
    assert_eq!(debug_str.get_str(DebugStrOffset(6)).unwrap().slice(), b"llo");
    assert_eq!(debug_str.get_str(DebugStrOffset(9)).unwrap().slice(), b"");
    assert_eq!(debug_str.get_str(DebugStrOffset(10)).unwrap().slice(), b"");
}

#[test]
fn string_without_a_zero_byte_fails() {
    let section = b"abc\0tail";
    let debug_str = DebugStr::new(section, RunTimeEndian::Little);
    assert_eq!(debug_str.get_str(DebugStrOffset(4)), Err(Error::UnexpectedEof));
    assert_eq!(debug_str.get_str(DebugStrOffset(8)), Err(Error::UnexpectedEof));
    assert_eq!(debug_str.get_str(DebugStrOffset(9)), Err(Error::UnexpectedEof));
    assert_eq!(debug_str.get_str(DebugStrOffset(usize::MAX)), Err(Error::UnexpectedEof));
    let empty = DebugStr::new(&[], RunTimeEndian::Little);
    assert_eq!(empty.get_str(DebugStrOffset(0)), Err(Error::UnexpectedEof));
}

#[test]
fn line_string_at_offset() {
    let section = b"dir\0file.c\0";
    let strs = DebugLineStr::new(section, RunTimeEndian::Big);
    let run = strs.get_str(DebugLineStrOffset(4)).unwrap();
    assert_eq!(run.slice(), b"file.c");
    assert_eq!(run.endian(), RunTimeEndian::Big);
    assert_eq!(strs.get_str(DebugLineStrOffset(11)), Err(Error::UnexpectedEof));
}

#[test]
fn string_offset_is_read_at_base_plus_index_times_width() {
    let section = [
        0xff, 0xff, 0xff, 0xff, 0x0a, 0x00, 0x00, 0x00, 0x14, 0x00, 0x00, 0x00, 0x1e, 0x00, 0x00,
        0x00, 0x28, 0x00, 0x00, 0x00,
    ];
    let offsets = DebugStrOffsets::new(&section, RunTimeEndian::Little);
    let base = DebugStrOffsetsBase(4);
    assert_eq!(
        offsets.get_str_offset(Format::Dwarf32, base, DebugStrOffsetsIndex(0)),
        Ok(DebugStrOffset(0x0a))
    );
    assert_eq!(
        offsets.get_str_offset(Format::Dwarf32, base, DebugStrOffsetsIndex(2)),
        Ok(DebugStrOffset(0x1e))
    );
    assert_eq!(
        offsets.get_str_offset(Format::Dwarf32, base, DebugStrOffsetsIndex(3)),
        Ok(DebugStrOffset(0x28))
    );
    assert_eq!(
        offsets.get_str_offset(Format::Dwarf64, base, DebugStrOffsetsIndex(1)),
        Ok(DebugStrOffset(0x28_0000_001e))
    );
    assert_eq!(
        offsets.get_str_offset(Format::Dwarf32, base, DebugStrOffsetsIndex(4)),
        Err(Error::UnexpectedEof)
    );
    assert_eq!(
        offsets.get_str_offset(Format::Dwarf64, base, DebugStrOffsetsIndex(2)),
        Err(Error::UnexpectedEof)
    );
    assert_eq!(
        offsets.get_str_offset(Format::Dwarf32, base, DebugStrOffsetsIndex(usize::MAX)),
        Err(Error::UnexpectedEof)
    );
    assert_eq!(
        offsets.get_str_offset(Format::Dwarf32, DebugStrOffsetsBase(usize::MAX), DebugStrOffsetsIndex(1)),
        Err(Error::UnexpectedEof)
    );
}

#[test]
fn address_is_read_at_base_plus_index_times_size() {
    let section = [
        0x00, 0x00, 0x00, 0x00, 0x00, 0x00, 0x00, 0x00, 0x00, 0x10, 0x00, 0x00, 0x00, 0x00, 0x00,
        0x00, 0x00, 0x20, 0x00, 0x00, 0x00, 0x00, 0x00, 0x00,
    ];
    let addr = DebugAddr::new(&section, RunTimeEndian::Little);
    let base = DebugAddrBase(8);
    assert_eq!(addr.get_address(8, base, DebugAddrIndex(0)), Ok(0x1000));
    assert_eq!(addr.get_address(8, base, DebugAddrIndex(1)), Ok(0x2000));
    assert_eq!(addr.get_address(4, base, DebugAddrIndex(2)), Ok(0x2000));
    assert_eq!(addr.get_address(2, base, DebugAddrIndex(5)), Ok(0));
    assert_eq!(addr.get_address(1, base, DebugAddrIndex(9)), Ok(0x20));
    assert_eq!(addr.get_address(8, base, DebugAddrIndex(2)), Err(Error::UnexpectedEof));
    assert_eq!(addr.get_address(8, DebugAddrBase(17), DebugAddrIndex(0)), Err(Error::UnexpectedEof));
    assert_eq!(addr.get_address(8, DebugAddrBase(25), DebugAddrIndex(0)), Err(Error::UnexpectedEof));
    assert_eq!(addr.get_address(3, base, DebugAddrIndex(0)), Err(Error::UnsupportedAddressSize(3)));
    assert_eq!(addr.get_address(3, DebugAddrBase(24), DebugAddrIndex(0)), Err(Error::UnsupportedAddressSize(3)));
    assert_eq!(addr.get_address(3, DebugAddrBase(25), DebugAddrIndex(0)), Err(Error::UnexpectedEof));
    assert_eq!(addr.get_address(8, base, DebugAddrIndex(usize::MAX)), Err(Error::UnexpectedEof));
}

#[test]
fn big_endian_address_table() {
    let section = [0x00, 0x00, 0x10, 0x00, 0x00, 0x00, 0x20, 0x00];
    let addr = DebugAddr::new(&section, RunTimeEndian::Big);
    assert_eq!(addr.get_address(4, DebugAddrBase(0), DebugAddrIndex(0)), Ok(0x1000));
    assert_eq!(addr.get_address(4, DebugAddrBase(0), DebugAddrIndex(1)), Ok(0x2000));
}

#[test]
fn default_slice_is_empty() {
    let s = EndianSlice::default();
    assert!(s.is_empty());
    assert_eq!(s.len(), 0);
    assert_eq!(s.endian(), RunTimeEndian::Little);
    let bytes = [1u8, 2, 3, 4];
    let s = EndianSlice::new(&bytes, RunTimeEndian::Big);
    assert_eq!(s.range(1, 3).slice(), &[2u8, 3]);
    assert_eq!(s.range(4, 4).len(), 0);
    assert!(s.has(0, 4));
    assert!(!s.has(1, 4));
    assert!(!s.has(5, 0));
}
