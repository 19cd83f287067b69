use crate::abbrev::spec_abbreviations;
use crate::addr::DebugAddr;
use crate::common::{
    DebugAddrBase, DebugLocListsBase, DebugRngListsBase, DebugStrOffset, DebugStrOffsetsBase,
    DebugStrOffsetsIndex, Encoding, LocationListsOffset, RangeListsOffset,
};
use crate::constants::{
    DW_AT_ADDR_BASE, DW_AT_LOCLISTS_BASE, DW_AT_LOW_PC, DW_AT_RNGLISTS_BASE,
    DW_AT_STR_OFFSETS_BASE,
};
use crate::dwarf::{Dwarf, DwarfUnit};
use crate::endian::{find_null, spec_offset_entry, spec_read_null_terminated};
use crate::entries::spec_next_dfs;
use crate::error::Error;
use crate::loclists::{LocListIter, LocationLists};
use crate::rnglists::{
    spec_add_address, Range, RangeLists, RawRngListEntry, RngListIter,
};
use crate::root::spec_scan_root;
use crate::unit::UnitHeader;
use crate::value::{spec_normalize, Attribute, AttributeValue};
use vstd::prelude::*;

verus! {

/// Whether an attribute of the given name can change a unit's base address
/// or one of its four bases.
pub open spec fn names_a_base(name: u16) -> bool {
    name == DW_AT_LOW_PC || name == DW_AT_STR_OFFSETS_BASE || name == DW_AT_ADDR_BASE || name
        == DW_AT_LOCLISTS_BASE || name == DW_AT_RNGLISTS_BASE
}

/// A root entry without an attribute for the base address or for a base
/// leaves the base address and all four bases at 0.
pub proof fn lemma_bases_default_to_zero<R>(attrs: Seq<Attribute<R>>)
    requires
        forall|i: int| 0 <= i < attrs.len() ==> !names_a_base(#[trigger] attrs[i].name.0),
    ensures
        spec_scan_root(attrs).low_pc == 0,
        spec_scan_root(attrs).str_offsets_base == DebugStrOffsetsBase(0),
        spec_scan_root(attrs).addr_base == DebugAddrBase(0),
        spec_scan_root(attrs).loclists_base == DebugLocListsBase(0),
        spec_scan_root(attrs).rnglists_base == DebugRngListsBase(0),
    decreases attrs.len(),
{
    if attrs.len() > 0 {
        assert(!names_a_base(attrs[attrs.len() - 1].name.0));
        assert forall|i: int| 0 <= i < attrs.drop_last().len() implies !names_a_base(
            #[trigger] attrs.drop_last()[i].name.0,
        ) by {
            assert(attrs.drop_last()[i] == attrs[i]);
        }
        lemma_bases_default_to_zero(attrs.drop_last());
    }
}

/// A base that the root entry gives in the right form is the unit's base:
/// where the attribute at `i` is the last of its name, and its value is a
/// base of the kind that the name asks for (or, for the base address, an
/// address), the unit has exactly that value.
pub proof fn lemma_base_is_taken<R>(attrs: Seq<Attribute<R>>, i: int)
    requires
        0 <= i < attrs.len(),
        forall|j: int| i < j < attrs.len() ==> (#[trigger] attrs[j]).name != attrs[i].name,
    ensures
        ({
            let name = attrs[i].name.0;
            let value = spec_normalize(name, attrs[i].value);
            let unit = spec_scan_root(attrs);
            &&& name == DW_AT_LOW_PC ==> (value matches AttributeValue::Addr(a) ==> unit.low_pc
                == a)
            &&& name == DW_AT_STR_OFFSETS_BASE ==> (value matches AttributeValue::DebugStrOffsetsBase(
                b,
            ) ==> unit.str_offsets_base == b)
            &&& name == DW_AT_ADDR_BASE ==> (value matches AttributeValue::DebugAddrBase(b)
                ==> unit.addr_base == b)
            &&& name == DW_AT_LOCLISTS_BASE ==> (value matches AttributeValue::DebugLocListsBase(b)
                ==> unit.loclists_base == b)
            &&& name == DW_AT_RNGLISTS_BASE ==> (value matches AttributeValue::DebugRngListsBase(b)
                ==> unit.rnglists_base == b)
        }),
    decreases attrs.len(),
{
    if i < attrs.len() - 1 {
        let rest = attrs.drop_last();
        assert(rest[i] == attrs[i]);
        assert forall|j: int| i < j < rest.len() implies (#[trigger] rest[j]).name
            != rest[i].name by {
            assert(rest[j] == attrs[j]);
        }
        lemma_base_is_taken(rest, i);
        assert(attrs[attrs.len() - 1].name != attrs[i].name);
    }
}

/// A unit without any entry cannot be made: where the abbreviations can be
/// read and no entry is found among the unit's bytes, the unit is
/// `MissingUnitDie`. A unit whose bytes hold nothing behind the header is
/// such a unit.
pub proof fn lemma_unit_without_entry(dwarf: Dwarf, header: UnitHeader)
    requires
        spec_abbreviations(
            dwarf.debug_abbrev.section@,
            header.debug_abbrev_offset.0 as int,
            Seq::empty(),
        ) is Ok,
        header.entries_buf@.len() == 0 || spec_next_dfs(
            header.entries_buf@,
            header.entries_buf.endian,
            0,
            header.encoding,
            spec_abbreviations(
                dwarf.debug_abbrev.section@,
                header.debug_abbrev_offset.0 as int,
                Seq::empty(),
            )->Ok_0,
        ) == Ok::<Option<(crate::entries::EntryModel, int)>, Error>(None),
    ensures
        dwarf.spec_unit(header) matches Err(e) && e == Error::MissingUnitDie,
{
}

/// The first zero byte at or after `from`, where there is one, is a zero
/// byte with none between `from` and it; where there is none, no byte from
/// `from` on is zero.
pub proof fn lemma_find_null(s: Seq<u8>, from: int)
    requires
        0 <= from,
    ensures
        from <= find_null(s, from) || find_null(s, from) == s.len(),
        find_null(s, from) <= s.len(),
        find_null(s, from) < s.len() ==> s[find_null(s, from)] == 0,
        forall|i: int| from <= i < find_null(s, from) ==> #[trigger] s[i] != 0,
    decreases s.len() - from,
{
    if from < s.len() && s[from] != 0 {
        lemma_find_null(s, from + 1);
    }
}

/// The string at an offset is exactly the run of bytes from that offset up
/// to the next zero byte: it lies in the section at the offset, holds no
/// zero byte, and a zero byte follows it. No string is found only where no
/// zero byte follows the offset.
pub proof fn lemma_string_at_offset(s: Seq<u8>, offset: int)
    requires
        0 <= offset,
    ensures
        match spec_read_null_terminated(s, offset) {
            Ok(run) => {
                &&& offset + run.len() < s.len()
                &&& s[offset + run.len()] == 0
                &&& forall|i: int| 0 <= i < run.len() ==> #[trigger] run[i] == s[offset + i]
                &&& forall|i: int| 0 <= i < run.len() ==> #[trigger] run[i] != 0
            },
            Err(e) => e == Error::UnexpectedEof && forall|i: int|
                offset <= i < s.len() ==> #[trigger] s[i] != 0,
        },
{
    lemma_find_null(s, offset);
}

/// A string given by index is the string at the offset that the unit's
/// table holds for that index: where entry `index` of the table at the
/// unit's base holds `offset`, the index and the offset stand for the same
/// string.
pub proof fn lemma_string_by_index(
    dwarf: Dwarf,
    unit: DwarfUnit,
    index: DebugStrOffsetsIndex,
    offset: usize,
)
    requires
        spec_offset_entry(
            dwarf.debug_str_offsets.section@,
            dwarf.debug_str_offsets.section.endian,
            unit.header.encoding.format,
            unit.str_offsets_base.0 as int,
            index.0 as int,
        ) == Ok::<usize, Error>(offset),
    ensures
        dwarf.spec_attr_string(unit, AttributeValue::DebugStrOffsetsIndex(index))
            == dwarf.spec_attr_string(unit, AttributeValue::DebugStrRef(DebugStrOffset(offset))),
{
}

/// An entry that sets the base address decides what the offsets behind it
/// are relative to: where a list's next entry sets the base address to
/// `addr` and the entry behind it is a pair of offsets, the range that comes
/// out is the pair moved by `addr`, whatever the base address was before.
pub proof fn lemma_base_address_entry_counts(
    iter: RngListIter,
    addr: u64,
    begin: u64,
    end: u64,
)
    requires
        iter.raw.spec_next().1 == Ok::<Option<RawRngListEntry>, Error>(
            Some(RawRngListEntry::BaseAddress { addr }),
        ),
        iter.raw.spec_next().0.spec_next().1 == Ok::<Option<RawRngListEntry>, Error>(
            Some(RawRngListEntry::OffsetPair { begin, end }),
        ),
    ensures
        iter.spec_next().1 == Ok::<Option<Range>, Error>(
            Some(
                Range {
                    begin: spec_add_address(addr, begin, iter.raw.encoding.address_size),
                    end: spec_add_address(addr, end, iter.raw.encoding.address_size),
                },
            ),
        ),
        iter.spec_next().0.base_address == addr,
{
    iter.raw.lemma_next_advances();
    let second = RngListIter { raw: iter.raw.spec_next().0, base_address: addr, ..iter };
    assert(iter.spec_next() == second.spec_next());
    second.raw.lemma_next_advances();
}

impl<'a> RngListIter<'a> {
    /// What the call of `next` with the number `n`, counted from 0, returns.
    pub open spec fn spec_nth(self, n: nat) -> Result<Option<Range>, Error>
        decreases n,
    {
        if n == 0 {
            self.spec_next().1
        } else {
            self.spec_next().0.spec_nth((n - 1) as nat)
        }
    }
}

impl<'a> LocListIter<'a> {
    /// What the call of `next` with the number `n`, counted from 0, returns:
    /// the entry's range, and where in the section its expression starts and
    /// ends.
    pub open spec fn spec_nth(self, n: nat) -> Result<Option<(Range, usize, usize)>, Error>
        decreases n,
    {
        if n == 0 {
            self.spec_next().1
        } else {
            self.spec_next().0.spec_nth((n - 1) as nat)
        }
    }
}

/// Two readers opened at one offset of the same range lists, for the same
/// unit, give the same ranges call by call: what a reader gives depends on
/// nothing but the sections and what it was opened with.
pub proof fn lemma_range_readers_agree(
    lists: RangeLists,
    offset: RangeListsOffset,
    encoding: Encoding,
    base_address: u64,
    debug_addr: DebugAddr,
    debug_addr_base: DebugAddrBase,
    first: RngListIter,
    second: RngListIter,
    n: nat,
)
    requires
        lists.spec_ranges(offset, encoding, base_address, debug_addr, debug_addr_base) == Ok::<
            RngListIter,
            Error,
        >(first),
        lists.spec_ranges(offset, encoding, base_address, debug_addr, debug_addr_base) == Ok::<
            RngListIter,
            Error,
        >(second),
    ensures
        first.spec_nth(n) == second.spec_nth(n),
{
}

/// Two readers opened at one offset of the same location lists, for the
/// same unit, give the same entries call by call.
pub proof fn lemma_location_readers_agree(
    lists: LocationLists,
    offset: LocationListsOffset,
    encoding: Encoding,
    base_address: u64,
    debug_addr: DebugAddr,
    debug_addr_base: DebugAddrBase,
    first: LocListIter,
    second: LocListIter,
    n: nat,
)
    requires
        lists.spec_locations(offset, encoding, base_address, debug_addr, debug_addr_base) == Ok::<
            LocListIter,
            Error,
        >(first),
        lists.spec_locations(offset, encoding, base_address, debug_addr, debug_addr_base) == Ok::<
            LocListIter,
            Error,
        >(second),
    ensures
        first.spec_nth(n) == second.spec_nth(n),
{
}

/// A value that is neither an offset into the range lists nor an index into
/// a unit's table of them stands for no range list, and that is no error;
/// the same holds of location lists.
pub proof fn lemma_other_kinds_stand_for_no_list<R>(
    dwarf: Dwarf,
    unit: DwarfUnit,
    attr: AttributeValue<R>,
)
    ensures
        !(attr is RangeListsRef) && !(attr is DebugRngListsIndex) ==> dwarf.spec_attr_ranges(
            unit,
            attr,
        ) == Ok::<Option<RngListIter>, Error>(None),
        !(attr is LocationListsRef) && !(attr is DebugLocListsIndex) ==> dwarf.spec_attr_locations(
            unit,
            attr,
        ) == Ok::<Option<LocListIter>, Error>(None),
{
}

} // verus!
