use crate::addr::{spec_address, DebugAddr};
use crate::common::{
    DebugAddrBase, DebugAddrIndex, DebugRngListsBase, DebugRngListsIndex, Encoding,
    RangeListsOffset,
};
use crate::constants::{
    DW_RLE_BASE_ADDRESS, DW_RLE_BASE_ADDRESSX, DW_RLE_END_OF_LIST, DW_RLE_OFFSET_PAIR,
    DW_RLE_STARTX_ENDX, DW_RLE_STARTX_LENGTH, DW_RLE_START_END, DW_RLE_START_LENGTH,
};
use crate::endian::{
    spec_offset_entry, spec_read_address, spec_read_u8, EndianSlice, RunTimeEndian,
};
use crate::error::Error;
use crate::leb128::{lemma_uleb128_advances, read_uleb128, spec_read_uleb128};
use vstd::prelude::*;

verus! {

/// A range of target addresses: from `begin` up to, not including, `end`.
#[derive(Debug, Clone, Copy, PartialEq, Eq, Structural)]
pub struct Range {
    /// The first address of the range.
    pub begin: u64,
    /// The first address behind the range.
    pub end: u64,
}

/// The number of values that an address of `size` bytes can take.
pub open spec fn address_modulus(size: u8) -> int {
    if size == 0 {
        1
    } else if size == 1 {
        0x100
    } else if size == 2 {
        0x1_0000
    } else if size == 3 {
        0x100_0000
    } else if size == 4 {
        0x1_0000_0000
    } else if size == 5 {
        0x100_0000_0000
    } else if size == 6 {
        0x1_0000_0000_0000
    } else if size == 7 {
        0x100_0000_0000_0000
    } else {
        0x1_0000_0000_0000_0000
    }
}

/// The address `offset` bytes behind `base`, wrapping around where it
/// leaves the addresses of `size` bytes.
pub open spec fn spec_add_address(base: u64, offset: u64, size: u8) -> u64 {
    ((base + offset) % address_modulus(size)) as u64
}

/// Computes the address `offset` bytes behind `base`, wrapping around where
/// it leaves the addresses of `size` bytes.
pub fn add_address(base: u64, offset: u64, size: u8) -> (r: u64)
    ensures
        r == spec_add_address(base, offset, size),
{
    let sum: u128 = base as u128 + offset as u128;
    let modulus: u128 = if size == 0 {
        1
    } else if size == 1 {
        0x100
    } else if size == 2 {
        0x1_0000
    } else if size == 3 {
        0x100_0000
    } else if size == 4 {
        0x1_0000_0000
    } else if size == 5 {
        0x100_0000_0000
    } else if size == 6 {
        0x1_0000_0000_0000
    } else if size == 7 {
        0x100_0000_0000_0000
    } else {
        0x1_0000_0000_0000_0000
    };
    (sum % modulus) as u64
}

/// The largest address of `size` bytes.
pub fn max_address(size: u8) -> (r: u64)
    ensures
        r == address_modulus(size) - 1,
{
    if size == 0 {
        0
    } else if size == 1 {
        0xff
    } else if size == 2 {
        0xffff
    } else if size == 3 {
        0xff_ffff
    } else if size == 4 {
        0xffff_ffff
    } else if size == 5 {
        0xff_ffff_ffff
    } else if size == 6 {
        0xffff_ffff_ffff
    } else if size == 7 {
        0xff_ffff_ffff_ffff
    } else {
        0xffff_ffff_ffff_ffff
    }
}

/// How one field of a list entry is encoded.
#[derive(Debug, Clone, Copy, PartialEq, Eq, Structural)]
pub enum FieldKind {
    /// A target address, of the unit's address size.
    Address,
    /// An unsigned LEB128 number.
    Uleb,
    /// An unsigned LEB128 number that indexes a table, and so must fit a
    /// machine word.
    Index,
}

/// What reading one field of the given kind at `pos` gives: its value and
/// the position just behind it.
pub open spec fn spec_read_field(
    s: Seq<u8>,
    endian: RunTimeEndian,
    pos: int,
    size: u8,
    kind: FieldKind,
) -> Result<(u64, usize), Error> {
    match kind {
        FieldKind::Address => match spec_read_address(s, pos, size, endian) {
            Ok(v) => Ok((v, (pos + size) as usize)),
            Err(e) => Err(e),
        },
        FieldKind::Uleb => spec_read_uleb128(s, pos),
        FieldKind::Index => match spec_read_uleb128(s, pos) {
            Ok((v, next)) => if v > usize::MAX {
                Err(Error::UnsupportedOffset)
            } else {
                Ok((v, next))
            },
            Err(e) => Err(e),
        },
    }
}

/// What reading two fields in a row gives: both values and the position
/// just behind the second.
pub open spec fn spec_read_fields(
    s: Seq<u8>,
    endian: RunTimeEndian,
    pos: int,
    size: u8,
    first: FieldKind,
    second: FieldKind,
) -> Result<(u64, u64, usize), Error> {
    match spec_read_field(s, endian, pos, size, first) {
        Ok((a, mid)) => match spec_read_field(s, endian, mid as int, size, second) {
            Ok((b, next)) => Ok((a, b, next)),
            Err(e) => Err(e),
        },
        Err(e) => Err(e),
    }
}

/// A field takes at least one byte, and ends within the bytes it is read
/// from.
pub proof fn lemma_field_advances(
    s: Seq<u8>,
    endian: RunTimeEndian,
    pos: int,
    size: u8,
    kind: FieldKind,
)
    requires
        s.len() <= usize::MAX,
    ensures
        spec_read_field(s, endian, pos, size, kind) matches Ok((v, next)) ==> pos < next
            <= s.len(),
{
    lemma_uleb128_advances(s, pos, 0);
}

/// Two fields take at least two bytes, and end within the bytes they are
/// read from.
pub proof fn lemma_fields_advance(
    s: Seq<u8>,
    endian: RunTimeEndian,
    pos: int,
    size: u8,
    first: FieldKind,
    second: FieldKind,
)
    requires
        s.len() <= usize::MAX,
    ensures
        spec_read_fields(s, endian, pos, size, first, second) matches Ok((a, b, next)) ==> pos
            + 1 < next <= s.len(),
{
    lemma_field_advances(s, endian, pos, size, first);
    if let Ok((a, mid)) = spec_read_field(s, endian, pos, size, first) {
        lemma_field_advances(s, endian, mid as int, size, second);
    }
}

/// Reads one field of the given kind at `pos`.
pub fn read_field(input: &EndianSlice, pos: usize, size: u8, kind: FieldKind) -> (r: Result<
    (u64, usize),
    Error,
>)
    ensures
        r == spec_read_field(input@, input.endian, pos as int, size, kind),
{
    match kind {
        FieldKind::Address => {
            proof {
                input.lemma_len_fits();
            }
            match input.read_address(pos, size) {
                Ok(v) => Ok((v, pos + size as usize)),
                Err(e) => Err(e),
            }
        },
        FieldKind::Uleb => read_uleb128(input, pos),
        FieldKind::Index => match read_uleb128(input, pos) {
            Ok((v, next)) => if v > usize::MAX as u64 {
                Err(Error::UnsupportedOffset)
            } else {
                Ok((v, next))
            },
            Err(e) => Err(e),
        },
    }
}

/// Reads two fields in a row, the first at `pos`.
pub fn read_fields(
    input: &EndianSlice,
    pos: usize,
    size: u8,
    first: FieldKind,
    second: FieldKind,
) -> (r: Result<(u64, u64, usize), Error>)
    ensures
        r == spec_read_fields(input@, input.endian, pos as int, size, first, second),
{
    match read_field(input, pos, size, first) {
        Ok((a, mid)) => match read_field(input, mid, size, second) {
            Ok((b, next)) => Ok((a, b, next)),
            Err(e) => Err(e),
        },
        Err(e) => Err(e),
    }
}

/// Which of the two encodings of range lists a section holds.
#[derive(Debug, Clone, Copy, PartialEq, Eq, Structural)]
pub enum RangeListsFormat {
    /// The `.debug_ranges` section of DWARF up to version 4: pairs of
    /// addresses.
    Bare,
    /// The `.debug_rnglists` section of DWARF version 5: entries that start
    /// with a kind byte.
    Rle,
}

/// One entry of a range list, as it is encoded.
#[allow(inconsistent_fields)]
#[derive(Debug, Clone, Copy, PartialEq, Eq, Structural)]
pub enum RawRngListEntry {
    /// The entries that follow are relative to `addr`.
    BaseAddress {
        /// The new base address.
        addr: u64,
    },
    /// The entries that follow are relative to the address at index `addr`.
    BaseAddressx {
        /// The index of the new base address.
        addr: DebugAddrIndex,
    },
    /// A range between the addresses at two indices.
    StartxEndx {
        /// The index of the first address.
        begin: DebugAddrIndex,
        /// The index of the address behind the range.
        end: DebugAddrIndex,
    },
    /// A range that starts at the address at an index.
    StartxLength {
        /// The index of the first address.
        begin: DebugAddrIndex,
        /// The length of the range.
        length: u64,
    },
    /// A range given by two offsets from the base address.
    OffsetPair {
        /// The offset of the first address.
        begin: u64,
        /// The offset of the address behind the range.
        end: u64,
    },
    /// A range between two addresses.
    StartEnd {
        /// The first address.
        begin: u64,
        /// The address behind the range.
        end: u64,
    },
    /// A range that starts at an address.
    StartLength {
        /// The first address.
        begin: u64,
        /// The length of the range.
        length: u64,
    },
}

/// The entry of a `.debug_ranges` list at `pos`, with the position behind
/// it; `None` for the pair of zeros that ends a list.
///
/// A pair whose first address is the largest of its size sets the base
/// address; any other pair holds two offsets from the base address.
pub open spec fn spec_bare_entry(s: Seq<u8>, endian: RunTimeEndian, pos: int, size: u8) -> Result<
    Option<(RawRngListEntry, usize)>,
    Error,
> {
    match spec_read_fields(s, endian, pos, size, FieldKind::Address, FieldKind::Address) {
        Ok((begin, end, next)) => if begin == 0 && end == 0 {
            Ok(None)
        } else if begin == address_modulus(size) - 1 {
            Ok(Some((RawRngListEntry::BaseAddress { addr: end }, next)))
        } else {
            Ok(Some((RawRngListEntry::OffsetPair { begin, end }, next)))
        },
        Err(e) => Err(e),
    }
}

/// The entry of a `.debug_rnglists` list at `pos`, with the position behind
/// it; `None` for the entry that ends a list.
///
/// The first byte is the entry's kind; a kind that is not known is
/// `InvalidAddressRange`.
pub open spec fn spec_rle_entry(s: Seq<u8>, endian: RunTimeEndian, pos: int, size: u8) -> Result<
    Option<(RawRngListEntry, usize)>,
    Error,
> {
    match spec_read_u8(s, pos) {
        Err(e) => Err(e),
        Ok(kind) => if kind == DW_RLE_END_OF_LIST {
            Ok(None)
        } else if kind == DW_RLE_BASE_ADDRESSX {
            match spec_read_field(s, endian, pos + 1, size, FieldKind::Index) {
                Ok((addr, next)) => Ok(
                    Some(
                        (RawRngListEntry::BaseAddressx { addr: DebugAddrIndex(addr as usize) }, next),
                    ),
                ),
                Err(e) => Err(e),
            }
        } else if kind == DW_RLE_STARTX_ENDX {
            match spec_read_fields(s, endian, pos + 1, size, FieldKind::Index, FieldKind::Index) {
                Ok((begin, end, next)) => Ok(
                    Some(
                        (
                            RawRngListEntry::StartxEndx {
                                begin: DebugAddrIndex(begin as usize),
                                end: DebugAddrIndex(end as usize),
                            },
                            next,
                        ),
                    ),
                ),
                Err(e) => Err(e),
            }
        } else if kind == DW_RLE_STARTX_LENGTH {
            match spec_read_fields(s, endian, pos + 1, size, FieldKind::Index, FieldKind::Uleb) {
                Ok((begin, length, next)) => Ok(
                    Some(
                        (
                            RawRngListEntry::StartxLength {
                                begin: DebugAddrIndex(begin as usize),
                                length,
                            },
                            next,
                        ),
                    ),
                ),
                Err(e) => Err(e),
            }
        } else if kind == DW_RLE_OFFSET_PAIR {
            match spec_read_fields(s, endian, pos + 1, size, FieldKind::Uleb, FieldKind::Uleb) {
                Ok((begin, end, next)) => Ok(Some((RawRngListEntry::OffsetPair { begin, end }, next))),
                Err(e) => Err(e),
            }
        } else if kind == DW_RLE_BASE_ADDRESS {
            match spec_read_field(s, endian, pos + 1, size, FieldKind::Address) {
                Ok((addr, next)) => Ok(Some((RawRngListEntry::BaseAddress { addr }, next))),
                Err(e) => Err(e),
            }
        } else if kind == DW_RLE_START_END {
            match spec_read_fields(s, endian, pos + 1, size, FieldKind::Address, FieldKind::Address) {
                Ok((begin, end, next)) => Ok(Some((RawRngListEntry::StartEnd { begin, end }, next))),
                Err(e) => Err(e),
            }
        } else if kind == DW_RLE_START_LENGTH {
            match spec_read_fields(s, endian, pos + 1, size, FieldKind::Address, FieldKind::Uleb) {
                Ok((begin, length, next)) => Ok(
                    Some((RawRngListEntry::StartLength { begin, length }, next)),
                ),
                Err(e) => Err(e),
            }
        } else {
            Err(Error::InvalidAddressRange)
        },
    }
}

/// The entry at `pos` of a range list in the given format.
pub open spec fn spec_raw_entry(
    s: Seq<u8>,
    endian: RunTimeEndian,
    pos: int,
    size: u8,
    format: RangeListsFormat,
) -> Result<Option<(RawRngListEntry, usize)>, Error> {
    match format {
        RangeListsFormat::Bare => spec_bare_entry(s, endian, pos, size),
        RangeListsFormat::Rle => spec_rle_entry(s, endian, pos, size),
    }
}

/// An entry takes at least one byte, and ends within the bytes it is read
/// from.
pub proof fn lemma_raw_entry_advances(
    s: Seq<u8>,
    endian: RunTimeEndian,
    pos: int,
    size: u8,
    format: RangeListsFormat,
)
    requires
        0 <= pos,
        s.len() <= usize::MAX,
    ensures
        spec_raw_entry(s, endian, pos, size, format) matches Ok(Some((entry, next))) ==> pos
            < next <= s.len(),
{
    lemma_fields_advance(s, endian, pos, size, FieldKind::Address, FieldKind::Address);
    lemma_field_advances(s, endian, pos + 1, size, FieldKind::Index);
    lemma_field_advances(s, endian, pos + 1, size, FieldKind::Address);
    lemma_fields_advance(s, endian, pos + 1, size, FieldKind::Index, FieldKind::Index);
    lemma_fields_advance(s, endian, pos + 1, size, FieldKind::Index, FieldKind::Uleb);
    lemma_fields_advance(s, endian, pos + 1, size, FieldKind::Uleb, FieldKind::Uleb);
    lemma_fields_advance(s, endian, pos + 1, size, FieldKind::Address, FieldKind::Address);
    lemma_fields_advance(s, endian, pos + 1, size, FieldKind::Address, FieldKind::Uleb);
}

/// Reads the entry at `pos` of a range list in the given format.
pub fn parse_raw_entry(input: &EndianSlice, pos: usize, size: u8, format: RangeListsFormat) -> (r:
    Result<Option<(RawRngListEntry, usize)>, Error>)
    ensures
        r == spec_raw_entry(input@, input.endian, pos as int, size, format),
{
    match format {
        RangeListsFormat::Bare => {
            let (begin, end, next) = match read_fields(
                input,
                pos,
                size,
                FieldKind::Address,
                FieldKind::Address,
            ) {
                Ok(fields) => fields,
                Err(e) => { return Err(e); },
            };
            if begin == 0 && end == 0 {
                Ok(None)
            } else if begin == max_address(size) {
                Ok(Some((RawRngListEntry::BaseAddress { addr: end }, next)))
            } else {
                Ok(Some((RawRngListEntry::OffsetPair { begin, end }, next)))
            }
        },
        RangeListsFormat::Rle => {
            let kind: u8 = match input.read_u8(pos) {
                Ok(kind) => kind,
                Err(e) => { return Err(e); },
            };
            proof {
                input.lemma_len_fits();
            }
            let at: usize = pos + 1;
            if kind == DW_RLE_END_OF_LIST {
                Ok(None)
            } else if kind == DW_RLE_BASE_ADDRESSX {
                match read_field(input, at, size, FieldKind::Index) {
                    Ok((addr, next)) => Ok(
                        Some(
                            (
                                RawRngListEntry::BaseAddressx { addr: DebugAddrIndex(addr as usize) },
                                next,
                            ),
                        ),
                    ),
                    Err(e) => Err(e),
                }
            } else if kind == DW_RLE_STARTX_ENDX {
                match read_fields(input, at, size, FieldKind::Index, FieldKind::Index) {
                    Ok((begin, end, next)) => Ok(
                        Some(
                            (
                                RawRngListEntry::StartxEndx {
                                    begin: DebugAddrIndex(begin as usize),
                                    end: DebugAddrIndex(end as usize),
                                },
                                next,
                            ),
                        ),
                    ),
                    Err(e) => Err(e),
                }
            } else if kind == DW_RLE_STARTX_LENGTH {
                match read_fields(input, at, size, FieldKind::Index, FieldKind::Uleb) {
                    Ok((begin, length, next)) => Ok(
                        Some(
                            (
                                RawRngListEntry::StartxLength {
                                    begin: DebugAddrIndex(begin as usize),
                                    length,
                                },
                                next,
                            ),
                        ),
                    ),
                    Err(e) => Err(e),
                }
            } else if kind == DW_RLE_OFFSET_PAIR {
                match read_fields(input, at, size, FieldKind::Uleb, FieldKind::Uleb) {
                    Ok((begin, end, next)) => Ok(
                        Some((RawRngListEntry::OffsetPair { begin, end }, next)),
                    ),
                    Err(e) => Err(e),
                }
            } else if kind == DW_RLE_BASE_ADDRESS {
                match read_field(input, at, size, FieldKind::Address) {
                    Ok((addr, next)) => Ok(Some((RawRngListEntry::BaseAddress { addr }, next))),
                    Err(e) => Err(e),
                }
            } else if kind == DW_RLE_START_END {
                match read_fields(input, at, size, FieldKind::Address, FieldKind::Address) {
                    Ok((begin, end, next)) => Ok(
                        Some((RawRngListEntry::StartEnd { begin, end }, next)),
                    ),
                    Err(e) => Err(e),
                }
            } else if kind == DW_RLE_START_LENGTH {
                match read_fields(input, at, size, FieldKind::Address, FieldKind::Uleb) {
                    Ok((begin, length, next)) => Ok(
                        Some((RawRngListEntry::StartLength { begin, length }, next)),
                    ),
                    Err(e) => Err(e),
                }
            } else {
                Err(Error::InvalidAddressRange)
            }
        },
    }
}

/// What one entry of a range list amounts to, once its addresses are known.
#[derive(Debug, Clone, Copy, PartialEq, Eq, Structural)]
pub enum ListStep {
    /// The entries that follow are relative to this address.
    Base(u64),
    /// A range of addresses.
    Range(Range),
}

/// What `entry` amounts to where offsets are relative to `base_address`
/// and addresses are `size` bytes wide.
///
/// Indexed addresses are looked up in the table at `debug_addr_base` of
/// `debug_addr`, offsets are added to the base address, and a length is added
/// to its start; both sums wrap around within the address size.
pub open spec fn spec_resolve_entry(
    entry: RawRngListEntry,
    base_address: u64,
    size: u8,
    debug_addr: DebugAddr,
    debug_addr_base: DebugAddrBase,
) -> Result<ListStep, Error> {
    let section = debug_addr.section;
    let base = debug_addr_base.0 as int;
    match entry {
        RawRngListEntry::BaseAddress { addr } => Ok(ListStep::Base(addr)),
        RawRngListEntry::BaseAddressx { addr } => match spec_address(
            section@,
            section.endian,
            size,
            base,
            addr.0 as int,
        ) {
            Ok(address) => Ok(ListStep::Base(address)),
            Err(e) => Err(e),
        },
        RawRngListEntry::StartxEndx { begin, end } => match spec_address(
            section@,
            section.endian,
            size,
            base,
            begin.0 as int,
        ) {
            Ok(begin) => match spec_address(section@, section.endian, size, base, end.0 as int) {
                Ok(end) => Ok(ListStep::Range(Range { begin, end })),
                Err(e) => Err(e),
            },
            Err(e) => Err(e),
        },
        RawRngListEntry::StartxLength { begin, length } => match spec_address(
            section@,
            section.endian,
            size,
            base,
            begin.0 as int,
        ) {
            Ok(begin) => Ok(
                ListStep::Range(Range { begin, end: spec_add_address(begin, length, size) }),
            ),
            Err(e) => Err(e),
        },
        RawRngListEntry::OffsetPair { begin, end } => Ok(
            ListStep::Range(
                Range {
                    begin: spec_add_address(base_address, begin, size),
                    end: spec_add_address(base_address, end, size),
                },
            ),
        ),
        RawRngListEntry::StartEnd { begin, end } => Ok(ListStep::Range(Range { begin, end })),
        RawRngListEntry::StartLength { begin, length } => Ok(
            ListStep::Range(Range { begin, end: spec_add_address(begin, length, size) }),
        ),
    }
}

/// Works out what `entry` amounts to where offsets are relative to
/// `base_address` and addresses are `size` bytes wide.
pub fn resolve_entry(
    entry: RawRngListEntry,
    base_address: u64,
    size: u8,
    debug_addr: &DebugAddr,
    debug_addr_base: DebugAddrBase,
) -> (r: Result<ListStep, Error>)
    ensures
        r == spec_resolve_entry(entry, base_address, size, *debug_addr, debug_addr_base),
{
    match entry {
        RawRngListEntry::BaseAddress { addr } => Ok(ListStep::Base(addr)),
        RawRngListEntry::BaseAddressx { addr } => match debug_addr.get_address(
            size,
            debug_addr_base,
            addr,
        ) {
            Ok(address) => Ok(ListStep::Base(address)),
            Err(e) => Err(e),
        },
        RawRngListEntry::StartxEndx { begin, end } => match debug_addr.get_address(
            size,
            debug_addr_base,
            begin,
        ) {
            Ok(begin) => match debug_addr.get_address(size, debug_addr_base, end) {
                Ok(end) => Ok(ListStep::Range(Range { begin, end })),
                Err(e) => Err(e),
            },
            Err(e) => Err(e),
        },
        RawRngListEntry::StartxLength { begin, length } => match debug_addr.get_address(
            size,
            debug_addr_base,
            begin,
        ) {
            Ok(begin) => Ok(ListStep::Range(Range { begin, end: add_address(begin, length, size) })),
            Err(e) => Err(e),
        },
        RawRngListEntry::OffsetPair { begin, end } => Ok(
            ListStep::Range(
                Range {
                    begin: add_address(base_address, begin, size),
                    end: add_address(base_address, end, size),
                },
            ),
        ),
        RawRngListEntry::StartEnd { begin, end } => Ok(ListStep::Range(Range { begin, end })),
        RawRngListEntry::StartLength { begin, length } => Ok(
            ListStep::Range(Range { begin, end: add_address(begin, length, size) }),
        ),
    }
}

/// The `.debug_ranges` section: the range lists of DWARF up to version 4.
#[derive(Debug, Clone, Copy, PartialEq, Eq)]
pub struct DebugRanges<'a> {
    /// The section's bytes.
    pub section: EndianSlice<'a>,
}

impl<'a> DebugRanges<'a> {
    /// The section held in `section`, with integers in the byte order `endian`.
    pub fn new(section: &'a [u8], endian: RunTimeEndian) -> (r: Self)
        ensures
            r.section.slice == section,
            r.section.endian == endian,
    {
        DebugRanges { section: EndianSlice::new(section, endian) }
    }
}

/// The `.debug_rnglists` section: the range lists of DWARF version 5.
#[derive(Debug, Clone, Copy, PartialEq, Eq)]
pub struct DebugRngLists<'a> {
    /// The section's bytes.
    pub section: EndianSlice<'a>,
}

impl<'a> DebugRngLists<'a> {
    /// The section held in `section`, with integers in the byte order `endian`.
    pub fn new(section: &'a [u8], endian: RunTimeEndian) -> (r: Self)
        ensures
            r.section.slice == section,
            r.section.endian == endian,
    {
        DebugRngLists { section: EndianSlice::new(section, endian) }
    }
}

/// The entries of one range list as they are encoded, one per call.
///
/// The list is read from `pos` on. Once its end is met, or an entry cannot
/// be read, `pos` is the section's length and nothing more comes.
#[derive(Debug, Clone, Copy, PartialEq, Eq)]
pub struct RawRngListIter<'a> {
    /// The section that holds the list.
    pub input: EndianSlice<'a>,
    /// Where the next entry starts.
    pub pos: usize,
    /// The encoding of the unit that the list belongs to.
    pub encoding: Encoding,
    /// The format of the section.
    pub format: RangeListsFormat,
}

impl<'a> RawRngListIter<'a> {
    /// This iterator with nothing left to read.
    pub open spec fn spec_emptied(self) -> Self {
        RawRngListIter { pos: self.input@.len() as usize, ..self }
    }

    /// The iterator after one call of `next`, and what that call returns.
    pub open spec fn spec_next(self) -> (Self, Result<Option<RawRngListEntry>, Error>) {
        if self.pos >= self.input@.len() {
            (self, Ok(None))
        } else {
            match spec_raw_entry(
                self.input@,
                self.input.endian,
                self.pos as int,
                self.encoding.address_size,
                self.format,
            ) {
                Ok(Some((entry, next))) => (RawRngListIter { pos: next, ..self }, Ok(Some(entry))),
                Ok(None) => (self.spec_emptied(), Ok(None)),
                Err(e) => (self.spec_emptied(), Err(e)),
            }
        }
    }

    /// Leaves nothing to read.
    pub fn empty(&mut self)
        ensures
            *final(self) == old(self).spec_emptied(),
    {
        self.pos = self.input.len();
    }

    /// Reads the next entry of the list.
    ///
    /// Gives `None` at the list's end and ever after. An entry that cannot be
    /// read gives its error once; after it the list counts as ended.
    pub fn next(&mut self) -> (r: Result<Option<RawRngListEntry>, Error>)
        ensures
            (*final(self), r) == old(self).spec_next(),
    {
        let len: usize = self.input.len();
        if self.pos >= len {
            return Ok(None);
        }
        match parse_raw_entry(&self.input, self.pos, self.encoding.address_size, self.format) {
            Ok(Some((entry, next))) => {
                self.pos = next;
                Ok(Some(entry))
            },
            Ok(None) => {
                self.pos = len;
                Ok(None)
            },
            Err(e) => {
                self.pos = len;
                Err(e)
            },
        }
    }
}

/// The ranges of one range list, one per call, as absolute addresses.
///
/// `base_address` is the address that offset pairs are relative to: at first
/// the unit's, and from each base address entry on the one it names.
#[derive(Debug, Clone, Copy, PartialEq, Eq)]
pub struct RngListIter<'a> {
    /// The entries as they are encoded.
    pub raw: RawRngListIter<'a>,
    /// The address that offset pairs are relative to.
    pub base_address: u64,
    /// The section in which indexed addresses are looked up.
    pub debug_addr: DebugAddr<'a>,
    /// Where the unit's addresses start in that section.
    pub debug_addr_base: DebugAddrBase,
}

impl<'a> RngListIter<'a> {
    /// What `entry` amounts to under the present base address.
    pub open spec fn spec_resolve(self, entry: RawRngListEntry) -> Result<ListStep, Error> {
        spec_resolve_entry(
            entry,
            self.base_address,
            self.raw.encoding.address_size,
            self.debug_addr,
            self.debug_addr_base,
        )
    }

    /// The iterator after one call of `next`, and what that call returns.
    ///
    /// Entries that set the base address are passed over, each changing the
    /// base address for the entries behind it. The first entry that is a
    /// range is returned. An error of any kind ends the list.
    pub open spec fn spec_next(self) -> (Self, Result<Option<Range>, Error>)
        decreases self.raw.input@.len() - self.raw.pos,
    {
        let (raw, r) = self.raw.spec_next();
        match r {
            Err(e) => (RngListIter { raw, ..self }, Err(e)),
            Ok(None) => (RngListIter { raw, ..self }, Ok(None)),
            Ok(Some(entry)) => match self.spec_resolve(entry) {
                Err(e) => (RngListIter { raw: raw.spec_emptied(), ..self }, Err(e)),
                Ok(ListStep::Range(range)) => (RngListIter { raw, ..self }, Ok(Some(range))),
                Ok(ListStep::Base(base_address)) => {
                    proof {
                        self.raw.lemma_next_advances();
                    }
                    RngListIter { raw, base_address, ..self }.spec_next()
                },
            },
        }
    }

    /// Works out what `entry` amounts to under the present base address.
    pub fn resolve(&self, entry: RawRngListEntry) -> (r: Result<ListStep, Error>)
        ensures
            r == self.spec_resolve(entry),
    {
        resolve_entry(
            entry,
            self.base_address,
            self.raw.encoding.address_size,
            &self.debug_addr,
            self.debug_addr_base,
        )
    }

    /// Gives the next range of the list, as absolute addresses.
    ///
    /// Gives `None` at the list's end and ever after. An entry that cannot be
    /// read, or an indexed address that cannot be found, gives its error
    /// once; after it the list counts as ended.
    pub fn next(&mut self) -> (r: Result<Option<Range>, Error>)
        ensures
            (*final(self), r) == old(self).spec_next(),
    {
        loop
            invariant
                self.spec_next() == old(self).spec_next(),
            decreases self.raw.input@.len() - self.raw.pos,
        {
            proof {
                self.raw.lemma_next_advances();
            }
            let entry: RawRngListEntry = match self.raw.next() {
                Ok(Some(entry)) => entry,
                Ok(None) => { return Ok(None); },
                Err(e) => { return Err(e); },
            };
            match self.resolve(entry) {
                Ok(ListStep::Base(base_address)) => {
                    self.base_address = base_address;
                },
                Ok(ListStep::Range(range)) => { return Ok(Some(range)); },
                Err(e) => {
                    self.raw.empty();
                    return Err(e);
                },
            }
        }
    }
}

impl<'a> RawRngListIter<'a> {
    /// A call of `next` that gives an entry moves on by at least one byte,
    /// and never past the section's end.
    pub proof fn lemma_next_advances(self)
        ensures
            self.spec_next().1 matches Ok(Some(entry)) ==> self.pos < self.spec_next().0.pos
                <= self.input@.len(),
            self.spec_next().0.input == self.input,
            self.spec_next().0.encoding == self.encoding,
            self.spec_next().0.format == self.format,
    {
        self.input.lemma_len_fits();
        lemma_raw_entry_advances(
            self.input@,
            self.input.endian,
            self.pos as int,
            self.encoding.address_size,
            self.format,
        );
    }
}

/// The range lists of an object file: its `.debug_ranges` section and its
/// `.debug_rnglists` section.
#[derive(Debug, Clone, Copy, PartialEq, Eq)]
pub struct RangeLists<'a> {
    /// The `.debug_ranges` section.
    pub debug_ranges: DebugRanges<'a>,
    /// The `.debug_rnglists` section.
    pub debug_rnglists: DebugRngLists<'a>,
}

impl<'a> RangeLists<'a> {
    /// The range lists held in the two sections.
    pub fn new(debug_ranges: DebugRanges<'a>, debug_rnglists: DebugRngLists<'a>) -> (r: Self)
        ensures
            r.debug_ranges == debug_ranges,
            r.debug_rnglists == debug_rnglists,
    {
        RangeLists { debug_ranges, debug_rnglists }
    }

    /// Where the list with the given index starts: the table of offsets at
    /// `base` in `.debug_rnglists` holds, `index` words on, the list's
    /// distance from `base`.
    pub open spec fn spec_get_offset(
        self,
        encoding: Encoding,
        base: DebugRngListsBase,
        index: DebugRngListsIndex,
    ) -> Result<RangeListsOffset, Error> {
        match spec_offset_entry(
            self.debug_rnglists.section@,
            self.debug_rnglists.section.endian,
            encoding.format,
            base.0 as int,
            index.0 as int,
        ) {
            Ok(distance) => if base.0 + distance > usize::MAX {
                Err(Error::UnsupportedOffset)
            } else {
                Ok(RangeListsOffset((base.0 + distance) as usize))
            },
            Err(e) => Err(e),
        }
    }

    /// Finds where the list with the given index starts.
    ///
    /// Fails with `UnexpectedEof` where the table's entry does not lie within
    /// the section, and with `UnsupportedOffset` where the offset is too
    /// large for a machine word.
    pub fn get_offset(
        &self,
        unit_encoding: Encoding,
        base: DebugRngListsBase,
        index: DebugRngListsIndex,
    ) -> (r: Result<RangeListsOffset, Error>)
        ensures
            r == self.spec_get_offset(unit_encoding, base, index),
    {
        match self.debug_rnglists.section.read_offset_entry(unit_encoding.format, base.0, index.0) {
            Ok(distance) => match base.0.checked_add(distance) {
                Some(offset) => Ok(RangeListsOffset(offset)),
                None => Err(Error::UnsupportedOffset),
            },
            Err(e) => Err(e),
        }
    }

    /// The section and the format in which a unit of the given encoding
    /// keeps its range lists.
    pub open spec fn spec_section(self, encoding: Encoding) -> (EndianSlice<'a>, RangeListsFormat) {
        if encoding.version <= 4 {
            (self.debug_ranges.section, RangeListsFormat::Bare)
        } else {
            (self.debug_rnglists.section, RangeListsFormat::Rle)
        }
    }

    /// The iterator over the encoded entries of the list at `offset`.
    pub open spec fn spec_raw_ranges(self, offset: RangeListsOffset, encoding: Encoding) -> Result<
        RawRngListIter<'a>,
        Error,
    > {
        let (input, format) = self.spec_section(encoding);
        if offset.0 > input@.len() {
            Err(Error::UnexpectedEof)
        } else {
            Ok(RawRngListIter { input, pos: offset.0, encoding, format })
        }
    }

    /// The iterator over the ranges of the list at `offset`.
    pub open spec fn spec_ranges(
        self,
        offset: RangeListsOffset,
        encoding: Encoding,
        base_address: u64,
        debug_addr: DebugAddr<'a>,
        debug_addr_base: DebugAddrBase,
    ) -> Result<RngListIter<'a>, Error> {
        match self.spec_raw_ranges(offset, encoding) {
            Ok(raw) => Ok(RngListIter { raw, base_address, debug_addr, debug_addr_base }),
            Err(e) => Err(e),
        }
    }

    /// Opens the list at `offset` for reading its entries as they are
    /// encoded.
    ///
    /// A unit of version 4 or below keeps its lists in `.debug_ranges`, a
    /// later one in `.debug_rnglists`. Fails with `UnexpectedEof` where
    /// `offset` lies behind the section's end.
    pub fn raw_ranges(&self, offset: RangeListsOffset, unit_encoding: Encoding) -> (r: Result<
        RawRngListIter<'a>,
        Error,
    >)
        ensures
            r == self.spec_raw_ranges(offset, unit_encoding),
    {
        let (input, format) = if unit_encoding.version <= 4 {
            (self.debug_ranges.section, RangeListsFormat::Bare)
        } else {
            (self.debug_rnglists.section, RangeListsFormat::Rle)
        };
        if offset.0 > input.len() {
            return Err(Error::UnexpectedEof);
        }
        Ok(RawRngListIter { input, pos: offset.0, encoding: unit_encoding, format })
    }

    /// Opens the list at `offset` for reading its ranges as absolute
    /// addresses.
    ///
    /// `base_address` is the unit's base address, which offset pairs are
    /// relative to until the list sets another. Indexed addresses are looked
    /// up in `debug_addr`, in the table that starts at `debug_addr_base`.
    pub fn ranges(
        &self,
        offset: RangeListsOffset,
        unit_encoding: Encoding,
        base_address: u64,
        debug_addr: &DebugAddr<'a>,
        debug_addr_base: DebugAddrBase,
    ) -> (r: Result<RngListIter<'a>, Error>)
        ensures
            r == self.spec_ranges(
                offset,
                unit_encoding,
                base_address,
                *debug_addr,
                debug_addr_base,
            ),
    {
        match self.raw_ranges(offset, unit_encoding) {
            Ok(raw) => Ok(
                RngListIter { raw, base_address, debug_addr: *debug_addr, debug_addr_base },
            ),
            Err(e) => Err(e),
        }
    }
}

} // verus!
