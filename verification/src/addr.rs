use crate::common::{DebugAddrBase, DebugAddrIndex};
use crate::endian::{
    entry_position, spec_entry_position, spec_read_address, EndianSlice, RunTimeEndian,
};
use crate::error::Error;
use vstd::prelude::*;

verus! {

/// What entry `index` of the table at `base` in an address section holds:
/// the address of `size` bytes stored `index` entries behind `base`.
///
/// An entry that starts behind the section's end is `UnexpectedEof`, whatever
/// the size; for one that starts within, the size is judged before the
/// entry's end.
pub open spec fn spec_address(s: Seq<u8>, endian: RunTimeEndian, size: u8, base: int, index: int) -> Result<
    u64,
    Error,
> {
    if spec_entry_position(base, index, size as int) > s.len() {
        Err(Error::UnexpectedEof)
    } else {
        spec_read_address(s, spec_entry_position(base, index, size as int), size, endian)
    }
}

/// The `.debug_addr` section: per unit, a table of target addresses.
#[derive(Debug, Clone, Copy, PartialEq, Eq)]
pub struct DebugAddr<'a> {
    /// The section's bytes.
    pub section: EndianSlice<'a>,
}

impl<'a> DebugAddr<'a> {
    /// The section held in `section`, with integers in the byte order `endian`.
    pub fn new(section: &'a [u8], endian: RunTimeEndian) -> (r: Self)
        ensures
            r.section.slice == section,
            r.section.endian == endian,
    {
        DebugAddr { section: EndianSlice::new(section, endian) }
    }

    /// The address that entry `index` of the table at `base` holds, each
    /// entry being `address_size` bytes wide.
    ///
    /// Fails with `UnexpectedEof` where the entry does not lie within the
    /// section, and with `UnsupportedAddressSize` where `address_size` is not
    /// 1, 2, 4 or 8.
    pub fn get_address(&self, address_size: u8, base: DebugAddrBase, index: DebugAddrIndex) -> (r:
        Result<u64, Error>)
        ensures
            r == spec_address(
                self.section@,
                self.section.endian,
                address_size,
                base.0 as int,
                index.0 as int,
            ),
    {
        let len: usize = self.section.len();
        match entry_position(base.0, index.0, address_size) {
            Some(pos) => if pos > len {
                Err(Error::UnexpectedEof)
            } else {
                self.section.read_address(pos, address_size)
            },
            None => Err(Error::UnexpectedEof),
        }
    }
}

} // verus!
