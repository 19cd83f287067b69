use crate::addr::DebugAddr;
use crate::common::{
    DebugAddrBase, DebugAddrIndex, DebugLocListsBase, DebugLocListsIndex, Encoding,
    LocationListsOffset,
};
use crate::constants::{
    DW_LLE_BASE_ADDRESS, DW_LLE_BASE_ADDRESSX, DW_LLE_DEFAULT_LOCATION, DW_LLE_END_OF_LIST,
    DW_LLE_OFFSET_PAIR, DW_LLE_STARTX_ENDX, DW_LLE_STARTX_LENGTH, DW_LLE_START_END,
    DW_LLE_START_LENGTH,
};
use crate::endian::{spec_offset_entry, spec_read_u16, spec_read_u8, EndianSlice, RunTimeEndian};
use crate::error::Error;
use crate::leb128::{lemma_uleb128_advances, read_uleb128, spec_read_uleb128};
use crate::rnglists::{
    address_modulus, lemma_field_advances, lemma_fields_advance, max_address, read_field,
    read_fields, resolve_entry, spec_read_field, spec_read_fields, spec_resolve_entry, FieldKind,
    ListStep, Range, RawRngListEntry,
};
use crate::value::Expression;
use vstd::prelude::*;

verus! {

/// Which of the two encodings of location lists a section holds.
#[derive(Debug, Clone, Copy, PartialEq, Eq, Structural)]
pub enum LocListsFormat {
    /// The `.debug_loc` section of DWARF up to version 4: pairs of addresses,
    /// each followed by an expression with a two-byte length.
    Bare,
    /// The `.debug_loclists` section of DWARF version 5: entries that start
    /// with a kind byte, with expressions whose length is an unsigned LEB128
    /// number.
    Lle,
}

/// Where an entry of a location list says that its expression holds.
#[derive(Debug, Clone, Copy, PartialEq, Eq, Structural)]
pub enum RawLocListPlace {
    /// Wherever no other entry of the list holds.
    Default,
    /// In a range, or nowhere for an entry that sets the base address:
    /// encoded as the entries of range lists are.
    Ranged(RawRngListEntry),
}

/// One entry of a location list, as it is encoded.
#[derive(Debug, Clone, Copy, PartialEq, Eq)]
pub struct RawLocListEntry<'a> {
    /// Where the expression holds.
    pub place: RawLocListPlace,
    /// The expression; empty for an entry that sets the base address.
    pub data: Expression<EndianSlice<'a>>,
}

/// One entry of a location list: a range of absolute addresses, and the
/// expression that holds there.
#[derive(Debug, Clone, Copy, PartialEq, Eq)]
pub struct LocationListEntry<'a> {
    /// The addresses at which the expression holds.
    pub range: Range,
    /// The expression.
    pub data: Expression<EndianSlice<'a>>,
}

/// Where the expression at `pos` starts and where it ends: it follows a
/// count of its bytes, two bytes wide in `.debug_loc` and an unsigned LEB128
/// number in `.debug_loclists`.
pub open spec fn spec_read_counted(s: Seq<u8>, endian: RunTimeEndian, pos: int, format: LocListsFormat) -> Result<
    (usize, usize),
    Error,
> {
    match format {
        LocListsFormat::Bare => match spec_read_u16(s, pos, endian) {
            Ok(count) => if pos + 2 + count > s.len() {
                Err(Error::UnexpectedEof)
            } else {
                Ok(((pos + 2) as usize, (pos + 2 + count) as usize))
            },
            Err(e) => Err(e),
        },
        LocListsFormat::Lle => match spec_read_uleb128(s, pos) {
            Ok((count, start)) => if start + count > s.len() {
                Err(Error::UnexpectedEof)
            } else {
                Ok((start, (start + count) as usize))
            },
            Err(e) => Err(e),
        },
    }
}

/// A counted expression takes at least one byte, and ends within the bytes
/// it is read from.
pub proof fn lemma_counted_advances(s: Seq<u8>, endian: RunTimeEndian, pos: int, format: LocListsFormat)
    requires
        0 <= pos,
        s.len() <= usize::MAX,
    ensures
        spec_read_counted(s, endian, pos, format) matches Ok((start, next)) ==> pos < start
            <= next <= s.len(),
{
    lemma_uleb128_advances(s, pos, 0);
}

/// Finds where the expression at `pos` starts and where it ends.
pub fn read_counted(input: &EndianSlice, pos: usize, format: LocListsFormat) -> (r: Result<
    (usize, usize),
    Error,
>)
    ensures
        r == spec_read_counted(input@, input.endian, pos as int, format),
{
    let len: usize = input.len();
    proof {
        lemma_uleb128_advances(input@, pos as int, 0);
    }
    let (count, start): (u64, usize) = match format {
        LocListsFormat::Bare => match input.read_u16(pos) {
            Ok(count) => (count as u64, pos + 2),
            Err(e) => { return Err(e); },
        },
        LocListsFormat::Lle => match read_uleb128(input, pos) {
            Ok(counted) => counted,
            Err(e) => { return Err(e); },
        },
    };
    if count > (len - start) as u64 {
        return Err(Error::UnexpectedEof);
    }
    Ok((start, start + count as usize))
}

/// Two fields and the expression behind them: both values, where the
/// expression starts, and where it ends.
pub open spec fn spec_read_located(
    s: Seq<u8>,
    endian: RunTimeEndian,
    pos: int,
    size: u8,
    first: FieldKind,
    second: FieldKind,
    format: LocListsFormat,
) -> Result<(u64, u64, usize, usize), Error> {
    match spec_read_fields(s, endian, pos, size, first, second) {
        Ok((a, b, mid)) => match spec_read_counted(s, endian, mid as int, format) {
            Ok((start, next)) => Ok((a, b, start, next)),
            Err(e) => Err(e),
        },
        Err(e) => Err(e),
    }
}

/// Reads two fields and finds the expression behind them.
pub fn read_located(
    input: &EndianSlice,
    pos: usize,
    size: u8,
    first: FieldKind,
    second: FieldKind,
    format: LocListsFormat,
) -> (r: Result<(u64, u64, usize, usize), Error>)
    ensures
        r == spec_read_located(input@, input.endian, pos as int, size, first, second, format),
{
    match read_fields(input, pos, size, first, second) {
        Ok((a, b, mid)) => match read_counted(input, mid, format) {
            Ok((start, next)) => Ok((a, b, start, next)),
            Err(e) => Err(e),
        },
        Err(e) => Err(e),
    }
}

/// The entry of a `.debug_loc` list at `pos`: its place, where its
/// expression starts, and the position behind it; `None` for the pair of
/// zeros that ends a list.
///
/// A pair whose first address is the largest of its size sets the base
/// address and has no expression; any other pair holds two offsets from the
/// base address.
pub open spec fn spec_bare_loc_entry(s: Seq<u8>, endian: RunTimeEndian, pos: int, size: u8) -> Result<
    Option<(RawLocListPlace, usize, usize)>,
    Error,
> {
    match spec_read_fields(s, endian, pos, size, FieldKind::Address, FieldKind::Address) {
        Ok((begin, end, mid)) => if begin == 0 && end == 0 {
            Ok(None)
        } else if begin == address_modulus(size) - 1 {
            Ok(Some((RawLocListPlace::Ranged(RawRngListEntry::BaseAddress { addr: end }), mid, mid)))
        } else {
            match spec_read_counted(s, endian, mid as int, LocListsFormat::Bare) {
                Ok((start, next)) => Ok(
                    Some(
                        (
                            RawLocListPlace::Ranged(RawRngListEntry::OffsetPair { begin, end }),
                            start,
                            next,
                        ),
                    ),
                ),
                Err(e) => Err(e),
            }
        },
        Err(e) => Err(e),
    }
}

/// The entry of a `.debug_loclists` list at `pos`: its place, where its
/// expression starts, and the position behind it; `None` for the entry that
/// ends a list.
///
/// The first byte is the entry's kind; a kind that is not known is
/// `InvalidAddressRange`.
pub open spec fn spec_lle_entry(s: Seq<u8>, endian: RunTimeEndian, pos: int, size: u8) -> Result<
    Option<(RawLocListPlace, usize, usize)>,
    Error,
> {
    let lle = LocListsFormat::Lle;
    match spec_read_u8(s, pos) {
        Err(e) => Err(e),
        Ok(kind) => if kind == DW_LLE_END_OF_LIST {
            Ok(None)
        } else if kind == DW_LLE_BASE_ADDRESSX {
            match spec_read_field(s, endian, pos + 1, size, FieldKind::Index) {
                Ok((addr, next)) => Ok(
                    Some(
                        (
                            RawLocListPlace::Ranged(
                                RawRngListEntry::BaseAddressx { addr: DebugAddrIndex(addr as usize) },
                            ),
                            next,
                            next,
                        ),
                    ),
                ),
                Err(e) => Err(e),
            }
        } else if kind == DW_LLE_STARTX_ENDX {
            match spec_read_located(s, endian, pos + 1, size, FieldKind::Index, FieldKind::Index, lle) {
                Ok((begin, end, start, next)) => Ok(
                    Some(
                        (
                            RawLocListPlace::Ranged(
                                RawRngListEntry::StartxEndx {
                                    begin: DebugAddrIndex(begin as usize),
                                    end: DebugAddrIndex(end as usize),
                                },
                            ),
                            start,
                            next,
                        ),
                    ),
                ),
                Err(e) => Err(e),
            }
        } else if kind == DW_LLE_STARTX_LENGTH {
            match spec_read_located(s, endian, pos + 1, size, FieldKind::Index, FieldKind::Uleb, lle) {
                Ok((begin, length, start, next)) => Ok(
                    Some(
                        (
                            RawLocListPlace::Ranged(
                                RawRngListEntry::StartxLength {
                                    begin: DebugAddrIndex(begin as usize),
                                    length,
                                },
                            ),
                            start,
                            next,
                        ),
                    ),
                ),
                Err(e) => Err(e),
            }
        } else if kind == DW_LLE_OFFSET_PAIR {
            match spec_read_located(s, endian, pos + 1, size, FieldKind::Uleb, FieldKind::Uleb, lle) {
                Ok((begin, end, start, next)) => Ok(
                    Some(
                        (
                            RawLocListPlace::Ranged(RawRngListEntry::OffsetPair { begin, end }),
                            start,
                            next,
                        ),
                    ),
                ),
                Err(e) => Err(e),
            }
        } else if kind == DW_LLE_DEFAULT_LOCATION {
            match spec_read_counted(s, endian, pos + 1, lle) {
                Ok((start, next)) => Ok(Some((RawLocListPlace::Default, start, next))),
                Err(e) => Err(e),
            }
        } else if kind == DW_LLE_BASE_ADDRESS {
            match spec_read_field(s, endian, pos + 1, size, FieldKind::Address) {
                Ok((addr, next)) => Ok(
                    Some((RawLocListPlace::Ranged(RawRngListEntry::BaseAddress { addr }), next, next)),
                ),
                Err(e) => Err(e),
            }
        } else if kind == DW_LLE_START_END {
            match spec_read_located(
                s,
                endian,
                pos + 1,
                size,
                FieldKind::Address,
                FieldKind::Address,
                lle,
            ) {
                Ok((begin, end, start, next)) => Ok(
                    Some(
                        (
                            RawLocListPlace::Ranged(RawRngListEntry::StartEnd { begin, end }),
                            start,
                            next,
                        ),
                    ),
                ),
                Err(e) => Err(e),
            }
        } else if kind == DW_LLE_START_LENGTH {
            match spec_read_located(s, endian, pos + 1, size, FieldKind::Address, FieldKind::Uleb, lle) {
                Ok((begin, length, start, next)) => Ok(
                    Some(
                        (
                            RawLocListPlace::Ranged(RawRngListEntry::StartLength { begin, length }),
                            start,
                            next,
                        ),
                    ),
                ),
                Err(e) => Err(e),
            }
        } else {
            Err(Error::InvalidAddressRange)
        },
    }
}

/// The entry at `pos` of a location list in the given format: its place,
/// where its expression starts, and the position behind it.
pub open spec fn spec_raw_loc_entry(
    s: Seq<u8>,
    endian: RunTimeEndian,
    pos: int,
    size: u8,
    format: LocListsFormat,
) -> Result<Option<(RawLocListPlace, usize, usize)>, Error> {
    match format {
        LocListsFormat::Bare => spec_bare_loc_entry(s, endian, pos, size),
        LocListsFormat::Lle => spec_lle_entry(s, endian, pos, size),
    }
}

/// An entry takes at least one byte, and ends within the bytes it is read
/// from; its expression lies within the entry.
pub proof fn lemma_raw_loc_entry_advances(
    s: Seq<u8>,
    endian: RunTimeEndian,
    pos: int,
    size: u8,
    format: LocListsFormat,
)
    requires
        0 <= pos,
        s.len() <= usize::MAX,
    ensures
        spec_raw_loc_entry(s, endian, pos, size, format) matches Ok(Some((place, start, next)))
            ==> pos < start <= next <= s.len(),
{
    let lle = LocListsFormat::Lle;
    lemma_fields_advance(s, endian, pos, size, FieldKind::Address, FieldKind::Address);
    if let Ok((a, b, mid)) = spec_read_fields(
        s,
        endian,
        pos,
        size,
        FieldKind::Address,
        FieldKind::Address,
    ) {
        lemma_counted_advances(s, endian, mid as int, LocListsFormat::Bare);
    }
    lemma_field_advances(s, endian, pos + 1, size, FieldKind::Index);
    lemma_field_advances(s, endian, pos + 1, size, FieldKind::Address);
    lemma_counted_advances(s, endian, pos + 1, lle);
    lemma_located_advances(s, endian, pos + 1, size, FieldKind::Index, FieldKind::Index, lle);
    lemma_located_advances(s, endian, pos + 1, size, FieldKind::Index, FieldKind::Uleb, lle);
    lemma_located_advances(s, endian, pos + 1, size, FieldKind::Uleb, FieldKind::Uleb, lle);
    lemma_located_advances(s, endian, pos + 1, size, FieldKind::Address, FieldKind::Address, lle);
    lemma_located_advances(s, endian, pos + 1, size, FieldKind::Address, FieldKind::Uleb, lle);
}

/// Two fields and an expression take at least three bytes, and end within
/// the bytes they are read from.
pub proof fn lemma_located_advances(
    s: Seq<u8>,
    endian: RunTimeEndian,
    pos: int,
    size: u8,
    first: FieldKind,
    second: FieldKind,
    format: LocListsFormat,
)
    requires
        0 <= pos,
        s.len() <= usize::MAX,
    ensures
        spec_read_located(s, endian, pos, size, first, second, format) matches Ok(
            (a, b, start, next),
        ) ==> pos + 2 < start <= next <= s.len(),
{
    lemma_fields_advance(s, endian, pos, size, first, second);
    if let Ok((a, b, mid)) = spec_read_fields(s, endian, pos, size, first, second) {
        lemma_counted_advances(s, endian, mid as int, format);
    }
}

/// Whether `r` is what `expected` says: the same place, position and error,
/// and as expression the bytes of `s` between the two positions.
pub open spec fn raw_loc_entry_is(
    r: Result<Option<(RawLocListEntry, usize)>, Error>,
    s: Seq<u8>,
    endian: RunTimeEndian,
    expected: Result<Option<(RawLocListPlace, usize, usize)>, Error>,
) -> bool {
    match r {
        Ok(Some((entry, next))) => expected matches Ok(Some((place, start, end))) && entry.place
            == place && next == end && start <= end <= s.len() && entry.data.0@ == s.subrange(
            start as int,
            end as int,
        ) && entry.data.0.endian == endian,
        Ok(None) => expected == Ok::<Option<(RawLocListPlace, usize, usize)>, Error>(None),
        Err(e) => expected == Err::<Option<(RawLocListPlace, usize, usize)>, Error>(e),
    }
}

/// Reads the entry at `pos` of a location list in the given format.
pub fn parse_raw_loc_entry<'a>(
    input: &EndianSlice<'a>,
    pos: usize,
    size: u8,
    format: LocListsFormat,
) -> (r: Result<Option<(RawLocListEntry<'a>, usize)>, Error>)
    ensures
        raw_loc_entry_is(
            r,
            input@,
            input.endian,
            spec_raw_loc_entry(input@, input.endian, pos as int, size, format),
        ),
{
    proof {
        input.lemma_len_fits();
        lemma_raw_loc_entry_advances(input@, input.endian, pos as int, size, format);
    }
    let (entry, start, next): (RawRngListEntry, usize, usize) = match format {
        LocListsFormat::Bare => {
            let (begin, end, mid) = match read_fields(
                input,
                pos,
                size,
                FieldKind::Address,
                FieldKind::Address,
            ) {
                Ok(fields) => fields,
                Err(e) => { return Err(e); },
            };
            if begin == 0 && end == 0 {
                return Ok(None);
            } else if begin == max_address(size) {
                (RawRngListEntry::BaseAddress { addr: end }, mid, mid)
            } else {
                match read_counted(input, mid, LocListsFormat::Bare) {
                    Ok((start, next)) => (RawRngListEntry::OffsetPair { begin, end }, start, next),
                    Err(e) => { return Err(e); },
                }
            }
        },
        LocListsFormat::Lle => {
            let kind: u8 = match input.read_u8(pos) {
                Ok(kind) => kind,
                Err(e) => { return Err(e); },
            };
            let at: usize = pos + 1;
            if kind == DW_LLE_END_OF_LIST {
                return Ok(None);
            } else if kind == DW_LLE_BASE_ADDRESSX {
                match read_field(input, at, size, FieldKind::Index) {
                    Ok((addr, next)) => (
                        RawRngListEntry::BaseAddressx { addr: DebugAddrIndex(addr as usize) },
                        next,
                        next,
                    ),
                    Err(e) => { return Err(e); },
                }
            } else if kind == DW_LLE_STARTX_ENDX {
                match read_located(input, at, size, FieldKind::Index, FieldKind::Index, format) {
                    Ok((begin, end, start, next)) => (
                        RawRngListEntry::StartxEndx {
                            begin: DebugAddrIndex(begin as usize),
                            end: DebugAddrIndex(end as usize),
                        },
                        start,
                        next,
                    ),
                    Err(e) => { return Err(e); },
                }
            } else if kind == DW_LLE_STARTX_LENGTH {
                match read_located(input, at, size, FieldKind::Index, FieldKind::Uleb, format) {
                    Ok((begin, length, start, next)) => (
                        RawRngListEntry::StartxLength {
                            begin: DebugAddrIndex(begin as usize),
                            length,
                        },
                        start,
                        next,
                    ),
                    Err(e) => { return Err(e); },
                }
            } else if kind == DW_LLE_OFFSET_PAIR {
                match read_located(input, at, size, FieldKind::Uleb, FieldKind::Uleb, format) {
                    Ok((begin, end, start, next)) => (
                        RawRngListEntry::OffsetPair { begin, end },
                        start,
                        next,
                    ),
                    Err(e) => { return Err(e); },
                }
            } else if kind == DW_LLE_DEFAULT_LOCATION {
                match read_counted(input, at, format) {
                    Ok((start, next)) => {
                        let data = Expression(input.range(start, next));
                        return Ok(Some((RawLocListEntry { place: RawLocListPlace::Default, data }, next)));
                    },
                    Err(e) => { return Err(e); },
                }
            } else if kind == DW_LLE_BASE_ADDRESS {
                match read_field(input, at, size, FieldKind::Address) {
                    Ok((addr, next)) => (RawRngListEntry::BaseAddress { addr }, next, next),
                    Err(e) => { return Err(e); },
                }
            } else if kind == DW_LLE_START_END {
                match read_located(input, at, size, FieldKind::Address, FieldKind::Address, format) {
                    Ok((begin, end, start, next)) => (
                        RawRngListEntry::StartEnd { begin, end },
                        start,
                        next,
                    ),
                    Err(e) => { return Err(e); },
                }
            } else if kind == DW_LLE_START_LENGTH {
                match read_located(input, at, size, FieldKind::Address, FieldKind::Uleb, format) {
                    Ok((begin, length, start, next)) => (
                        RawRngListEntry::StartLength { begin, length },
                        start,
                        next,
                    ),
                    Err(e) => { return Err(e); },
                }
            } else {
                return Err(Error::InvalidAddressRange);
            }
        },
    };
    let data = Expression(input.range(start, next));
    Ok(Some((RawLocListEntry { place: RawLocListPlace::Ranged(entry), data }, next)))
}

/// What an entry with the given place amounts to where offsets are relative
/// to `base_address`: a default location holds at every address, any other
/// place is worked out as an entry of a range list is.
pub open spec fn spec_resolve_place(
    place: RawLocListPlace,
    base_address: u64,
    size: u8,
    debug_addr: DebugAddr,
    debug_addr_base: DebugAddrBase,
) -> Result<ListStep, Error> {
    match place {
        RawLocListPlace::Default => Ok(ListStep::Range(Range { begin: 0, end: u64::MAX })),
        RawLocListPlace::Ranged(entry) => spec_resolve_entry(
            entry,
            base_address,
            size,
            debug_addr,
            debug_addr_base,
        ),
    }
}

/// Works out what an entry with the given place amounts to where offsets are
/// relative to `base_address`.
pub fn resolve_place(
    place: RawLocListPlace,
    base_address: u64,
    size: u8,
    debug_addr: &DebugAddr,
    debug_addr_base: DebugAddrBase,
) -> (r: Result<ListStep, Error>)
    ensures
        r == spec_resolve_place(place, base_address, size, *debug_addr, debug_addr_base),
{
    match place {
        RawLocListPlace::Default => Ok(ListStep::Range(Range { begin: 0, end: u64::MAX })),
        RawLocListPlace::Ranged(entry) => resolve_entry(
            entry,
            base_address,
            size,
            debug_addr,
            debug_addr_base,
        ),
    }
}

/// The `.debug_loc` section: the location lists of DWARF up to version 4.
#[derive(Debug, Clone, Copy, PartialEq, Eq)]
pub struct DebugLoc<'a> {
    /// The section's bytes.
    pub section: EndianSlice<'a>,
}

impl<'a> DebugLoc<'a> {
    /// The section held in `section`, with integers in the byte order `endian`.
    pub fn new(section: &'a [u8], endian: RunTimeEndian) -> (r: Self)
        ensures
            r.section.slice == section,
            r.section.endian == endian,
    {
        DebugLoc { section: EndianSlice::new(section, endian) }
    }
}

/// The `.debug_loclists` section: the location lists of DWARF version 5.
#[derive(Debug, Clone, Copy, PartialEq, Eq)]
pub struct DebugLocLists<'a> {
    /// The section's bytes.
    pub section: EndianSlice<'a>,
}

impl<'a> DebugLocLists<'a> {
    /// The section held in `section`, with integers in the byte order `endian`.
    pub fn new(section: &'a [u8], endian: RunTimeEndian) -> (r: Self)
        ensures
            r.section.slice == section,
            r.section.endian == endian,
    {
        DebugLocLists { section: EndianSlice::new(section, endian) }
    }
}

/// The entries of one location list as they are encoded, one per call.
///
/// The list is read from `pos` on. Once its end is met, or an entry cannot
/// be read, `pos` is the section's length and nothing more comes.
#[derive(Debug, Clone, Copy, PartialEq, Eq)]
pub struct RawLocListIter<'a> {
    /// The section that holds the list.
    pub input: EndianSlice<'a>,
    /// Where the next entry starts.
    pub pos: usize,
    /// The encoding of the unit that the list belongs to.
    pub encoding: Encoding,
    /// The format of the section.
    pub format: LocListsFormat,
}

/// Whether `r` is what `expected` says: the same place and error, and as
/// expression the bytes of `s` between the two positions.
pub open spec fn raw_loc_next_is(
    r: Result<Option<RawLocListEntry>, Error>,
    s: Seq<u8>,
    endian: RunTimeEndian,
    expected: Result<Option<(RawLocListPlace, usize, usize)>, Error>,
) -> bool {
    match r {
        Ok(Some(entry)) => expected matches Ok(Some((place, start, end))) && entry.place == place
            && start <= end <= s.len() && entry.data.0@ == s.subrange(start as int, end as int)
            && entry.data.0.endian == endian,
        Ok(None) => expected == Ok::<Option<(RawLocListPlace, usize, usize)>, Error>(None),
        Err(e) => expected == Err::<Option<(RawLocListPlace, usize, usize)>, Error>(e),
    }
}

impl<'a> RawLocListIter<'a> {
    /// This iterator with nothing left to read.
    pub open spec fn spec_emptied(self) -> Self {
        RawLocListIter { pos: self.input@.len() as usize, ..self }
    }

    /// The iterator after one call of `next`, and what that call returns: the
    /// entry's place, and where in the section its expression starts and
    /// ends.
    pub open spec fn spec_next(self) -> (
        Self,
        Result<Option<(RawLocListPlace, usize, usize)>, Error>,
    ) {
        if self.pos >= self.input@.len() {
            (self, Ok(None))
        } else {
            match spec_raw_loc_entry(
                self.input@,
                self.input.endian,
                self.pos as int,
                self.encoding.address_size,
                self.format,
            ) {
                Ok(Some((place, start, next))) => (
                    RawLocListIter { pos: next, ..self },
                    Ok(Some((place, start, next))),
                ),
                Ok(None) => (self.spec_emptied(), Ok(None)),
                Err(e) => (self.spec_emptied(), Err(e)),
            }
        }
    }

    /// A call of `next` that gives an entry moves on by at least one byte,
    /// and never past the section's end.
    pub proof fn lemma_next_advances(self)
        ensures
            self.spec_next().1 matches Ok(Some(entry)) ==> self.pos < self.spec_next().0.pos
                <= self.input@.len(),
            self.spec_next().0.input == self.input,
            self.spec_next().0.encoding == self.encoding,
            self.spec_next().0.format == self.format,
    {
        self.input.lemma_len_fits();
        lemma_raw_loc_entry_advances(
            self.input@,
            self.input.endian,
            self.pos as int,
            self.encoding.address_size,
            self.format,
        );
    }

    /// Leaves nothing to read.
    pub fn empty(&mut self)
        ensures
            *final(self) == old(self).spec_emptied(),
    {
        self.pos = self.input.len();
    }

    /// Reads the next entry of the list.
    ///
    /// Gives `None` at the list's end and ever after. An entry that cannot be
    /// read gives its error once; after it the list counts as ended.
    pub fn next(&mut self) -> (r: Result<Option<RawLocListEntry<'a>>, Error>)
        ensures
            *final(self) == old(self).spec_next().0,
            raw_loc_next_is(r, old(self).input@, old(self).input.endian, old(self).spec_next().1),
    {
        let len: usize = self.input.len();
        if self.pos >= len {
            return Ok(None);
        }
        match parse_raw_loc_entry(&self.input, self.pos, self.encoding.address_size, self.format) {
            Ok(Some((entry, next))) => {
                self.pos = next;
                Ok(Some(entry))
            },
            Ok(None) => {
                self.pos = len;
                Ok(None)
            },
            Err(e) => {
                self.pos = len;
                Err(e)
            },
        }
    }
}

/// The entries of one location list, one per call, with their ranges as
/// absolute addresses.
///
/// `base_address` is the address that offset pairs are relative to: at first
/// the unit's, and from each base address entry on the one it names.
#[derive(Debug, Clone, Copy, PartialEq, Eq)]
pub struct LocListIter<'a> {
    /// The entries as they are encoded.
    pub raw: RawLocListIter<'a>,
    /// The address that offset pairs are relative to.
    pub base_address: u64,
    /// The section in which indexed addresses are looked up.
    pub debug_addr: DebugAddr<'a>,
    /// Where the unit's addresses start in that section.
    pub debug_addr_base: DebugAddrBase,
}

/// Whether `r` is what `expected` says: the same range and error, and as
/// expression the bytes of `s` between the two positions.
pub open spec fn loc_next_is(
    r: Result<Option<LocationListEntry>, Error>,
    s: Seq<u8>,
    endian: RunTimeEndian,
    expected: Result<Option<(Range, usize, usize)>, Error>,
) -> bool {
    match r {
        Ok(Some(entry)) => expected matches Ok(Some((range, start, end))) && entry.range == range
            && start <= end <= s.len() && entry.data.0@ == s.subrange(start as int, end as int)
            && entry.data.0.endian == endian,
        Ok(None) => expected == Ok::<Option<(Range, usize, usize)>, Error>(None),
        Err(e) => expected == Err::<Option<(Range, usize, usize)>, Error>(e),
    }
}

impl<'a> LocListIter<'a> {
    /// What an entry with the given place amounts to under the present base
    /// address.
    pub open spec fn spec_resolve(self, place: RawLocListPlace) -> Result<ListStep, Error> {
        spec_resolve_place(
            place,
            self.base_address,
            self.raw.encoding.address_size,
            self.debug_addr,
            self.debug_addr_base,
        )
    }

    /// The iterator after one call of `next`, and what that call returns: the
    /// entry's range, and where in the section its expression starts and
    /// ends.
    ///
    /// Entries that set the base address are passed over, each changing the
    /// base address for the entries behind it. The first entry that holds an
    /// expression is returned. An error of any kind ends the list.
    pub open spec fn spec_next(self) -> (Self, Result<Option<(Range, usize, usize)>, Error>)
        decreases self.raw.input@.len() - self.raw.pos,
    {
        let (raw, r) = self.raw.spec_next();
        match r {
            Err(e) => (LocListIter { raw, ..self }, Err(e)),
            Ok(None) => (LocListIter { raw, ..self }, Ok(None)),
            Ok(Some((place, start, end))) => match self.spec_resolve(place) {
                Err(e) => (LocListIter { raw: raw.spec_emptied(), ..self }, Err(e)),
                Ok(ListStep::Range(range)) => (
                    LocListIter { raw, ..self },
                    Ok(Some((range, start, end))),
                ),
                Ok(ListStep::Base(base_address)) => {
                    proof {
                        self.raw.lemma_next_advances();
                    }
                    LocListIter { raw, base_address, ..self }.spec_next()
                },
            },
        }
    }

    /// Gives the next entry of the list, with its range as absolute
    /// addresses.
    ///
    /// Gives `None` at the list's end and ever after. An entry that cannot be
    /// read, or an indexed address that cannot be found, gives its error
    /// once; after it the list counts as ended.
    pub fn next(&mut self) -> (r: Result<Option<LocationListEntry<'a>>, Error>)
        ensures
            *final(self) == old(self).spec_next().0,
            loc_next_is(
                r,
                old(self).raw.input@,
                old(self).raw.input.endian,
                old(self).spec_next().1,
            ),
    {
        loop
            invariant
                self.spec_next() == old(self).spec_next(),
                self.raw.input == old(self).raw.input,
            decreases self.raw.input@.len() - self.raw.pos,
        {
            proof {
                self.raw.lemma_next_advances();
            }
            let entry: RawLocListEntry<'a> = match self.raw.next() {
                Ok(Some(entry)) => entry,
                Ok(None) => { return Ok(None); },
                Err(e) => { return Err(e); },
            };
            match resolve_place(
                entry.place,
                self.base_address,
                self.raw.encoding.address_size,
                &self.debug_addr,
                self.debug_addr_base,
            ) {
                Ok(ListStep::Base(base_address)) => {
                    self.base_address = base_address;
                },
                Ok(ListStep::Range(range)) => {
                    return Ok(Some(LocationListEntry { range, data: entry.data }));
                },
                Err(e) => {
                    self.raw.empty();
                    return Err(e);
                },
            }
        }
    }
}

/// The location lists of an object file: its `.debug_loc` section and its
/// `.debug_loclists` section.
#[derive(Debug, Clone, Copy, PartialEq, Eq)]
pub struct LocationLists<'a> {
    /// The `.debug_loc` section.
    pub debug_loc: DebugLoc<'a>,
    /// The `.debug_loclists` section.
    pub debug_loclists: DebugLocLists<'a>,
}

impl<'a> LocationLists<'a> {
    /// The location lists held in the two sections.
    pub fn new(debug_loc: DebugLoc<'a>, debug_loclists: DebugLocLists<'a>) -> (r: Self)
        ensures
            r.debug_loc == debug_loc,
            r.debug_loclists == debug_loclists,
    {
        LocationLists { debug_loc, debug_loclists }
    }

    /// Where the list with the given index starts: the table of offsets at
    /// `base` in `.debug_loclists` holds, `index` words on, the list's
    /// distance from `base`.
    pub open spec fn spec_get_offset(
        self,
        encoding: Encoding,
        base: DebugLocListsBase,
        index: DebugLocListsIndex,
    ) -> Result<LocationListsOffset, Error> {
        match spec_offset_entry(
            self.debug_loclists.section@,
            self.debug_loclists.section.endian,
            encoding.format,
            base.0 as int,
            index.0 as int,
        ) {
            Ok(distance) => if base.0 + distance > usize::MAX {
                Err(Error::UnsupportedOffset)
            } else {
                Ok(LocationListsOffset((base.0 + distance) as usize))
            },
            Err(e) => Err(e),
        }
    }

    /// Finds where the list with the given index starts.
    ///
    /// Fails with `UnexpectedEof` where the table's entry does not lie within
    /// the section, and with `UnsupportedOffset` where the offset is too
    /// large for a machine word.
    pub fn get_offset(
        &self,
        unit_encoding: Encoding,
        base: DebugLocListsBase,
        index: DebugLocListsIndex,
    ) -> (r: Result<LocationListsOffset, Error>)
        ensures
            r == self.spec_get_offset(unit_encoding, base, index),
    {
        match self.debug_loclists.section.read_offset_entry(unit_encoding.format, base.0, index.0) {
            Ok(distance) => match base.0.checked_add(distance) {
                Some(offset) => Ok(LocationListsOffset(offset)),
                None => Err(Error::UnsupportedOffset),
            },
            Err(e) => Err(e),
        }
    }

    /// The section and the format in which a unit of the given encoding
    /// keeps its location lists.
    pub open spec fn spec_section(self, encoding: Encoding) -> (EndianSlice<'a>, LocListsFormat) {
        if encoding.version <= 4 {
            (self.debug_loc.section, LocListsFormat::Bare)
        } else {
            (self.debug_loclists.section, LocListsFormat::Lle)
        }
    }

    /// The iterator over the encoded entries of the list at `offset`.
    pub open spec fn spec_raw_locations(self, offset: LocationListsOffset, encoding: Encoding) -> Result<
        RawLocListIter<'a>,
        Error,
    > {
        let (input, format) = self.spec_section(encoding);
        if offset.0 > input@.len() {
            Err(Error::UnexpectedEof)
        } else {
            Ok(RawLocListIter { input, pos: offset.0, encoding, format })
        }
    }

    /// The iterator over the entries of the list at `offset`.
    pub open spec fn spec_locations(
        self,
        offset: LocationListsOffset,
        encoding: Encoding,
        base_address: u64,
        debug_addr: DebugAddr<'a>,
        debug_addr_base: DebugAddrBase,
    ) -> Result<LocListIter<'a>, Error> {
        match self.spec_raw_locations(offset, encoding) {
            Ok(raw) => Ok(LocListIter { raw, base_address, debug_addr, debug_addr_base }),
            Err(e) => Err(e),
        }
    }

    /// Opens the list at `offset` for reading its entries as they are
    /// encoded.
    ///
    /// A unit of version 4 or below keeps its lists in `.debug_loc`, a later
    /// one in `.debug_loclists`. Fails with `UnexpectedEof` where `offset`
    /// lies behind the section's end.
    pub fn raw_locations(&self, offset: LocationListsOffset, unit_encoding: Encoding) -> (r: Result<
        RawLocListIter<'a>,
        Error,
    >)
        ensures
            r == self.spec_raw_locations(offset, unit_encoding),
    {
        let (input, format) = if unit_encoding.version <= 4 {
            (self.debug_loc.section, LocListsFormat::Bare)
        } else {
            (self.debug_loclists.section, LocListsFormat::Lle)
        };
        if offset.0 > input.len() {
            return Err(Error::UnexpectedEof);
        }
        Ok(RawLocListIter { input, pos: offset.0, encoding: unit_encoding, format })
    }

    /// Opens the list at `offset` for reading its entries with their ranges
    /// as absolute addresses.
    ///
    /// `base_address` is the unit's base address, which offset pairs are
    /// relative to until the list sets another. Indexed addresses are looked
    /// up in `debug_addr`, in the table that starts at `debug_addr_base`.
    pub fn locations(
        &self,
        offset: LocationListsOffset,
        unit_encoding: Encoding,
        base_address: u64,
        debug_addr: &DebugAddr<'a>,
        debug_addr_base: DebugAddrBase,
    ) -> (r: Result<LocListIter<'a>, Error>)
        ensures
            r == self.spec_locations(
                offset,
                unit_encoding,
                base_address,
                *debug_addr,
                debug_addr_base,
            ),
    {
        match self.raw_locations(offset, unit_encoding) {
            Ok(raw) => Ok(
                LocListIter { raw, base_address, debug_addr: *debug_addr, debug_addr_base },
            ),
            Err(e) => Err(e),
        }
    }
}

} // verus!
