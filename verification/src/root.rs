use crate::common::{
    DebugAddrBase, DebugLineOffset, DebugLocListsBase, DebugRngListsBase, DebugStrOffsetsBase,
};
use crate::constants::{
    DW_AT_ADDR_BASE, DW_AT_COMP_DIR, DW_AT_LOCLISTS_BASE, DW_AT_LOW_PC, DW_AT_NAME,
    DW_AT_RNGLISTS_BASE, DW_AT_STMT_LIST, DW_AT_STR_OFFSETS_BASE,
};
use crate::endian::EndianSlice;
use crate::entries::view_attrs;
use crate::value::{lemma_normalize_view, spec_normalize, Attribute, AttributeValue};
use vstd::prelude::*;

verus! {

/// What the attributes of a unit's root entry say of the unit.
///
/// `R` is the form in which runs of bytes are held: an [`EndianSlice`] in
/// running code, a sequence of bytes in contracts.
#[derive(Debug, Clone, Copy, PartialEq, Eq)]
pub struct RootAttributes<R> {
    /// The value of the name attribute, as it is encoded.
    pub name: Option<AttributeValue<R>>,
    /// The value of the working directory attribute, as it is encoded.
    pub comp_dir: Option<AttributeValue<R>>,
    /// The unit's base address; 0 unless the entry states one.
    pub low_pc: u64,
    /// Where the unit's string offsets start; 0 unless the entry says.
    pub str_offsets_base: DebugStrOffsetsBase,
    /// Where the unit's addresses start; 0 unless the entry says.
    pub addr_base: DebugAddrBase,
    /// Where the unit's location list offsets start; 0 unless the entry says.
    pub loclists_base: DebugLocListsBase,
    /// Where the unit's range list offsets start; 0 unless the entry says.
    pub rnglists_base: DebugRngListsBase,
    /// Where the unit's line number program is, if the entry says.
    pub line_program_offset: Option<DebugLineOffset>,
}

/// The value `v` as contracts see it.
pub open spec fn view_value(v: Option<AttributeValue<EndianSlice>>) -> Option<AttributeValue<Seq<u8>>> {
    match v {
        Some(value) => Some(value@),
        None => None,
    }
}

impl<'a> View for RootAttributes<EndianSlice<'a>> {
    type V = RootAttributes<Seq<u8>>;

    open spec fn view(&self) -> RootAttributes<Seq<u8>> {
        RootAttributes {
            name: view_value(self.name),
            comp_dir: view_value(self.comp_dir),
            low_pc: self.low_pc,
            str_offsets_base: self.str_offsets_base,
            addr_base: self.addr_base,
            loclists_base: self.loclists_base,
            rnglists_base: self.rnglists_base,
            line_program_offset: self.line_program_offset,
        }
    }
}

/// What is known of a unit before any attribute is looked at: no name, no
/// working directory, no line number program, and 0 for the base address and
/// the four bases.
pub open spec fn spec_root_default<R>() -> RootAttributes<R> {
    RootAttributes {
        name: None,
        comp_dir: None,
        low_pc: 0,
        str_offsets_base: DebugStrOffsetsBase(0),
        addr_base: DebugAddrBase(0),
        loclists_base: DebugLocListsBase(0),
        rnglists_base: DebugRngListsBase(0),
        line_program_offset: None,
    }
}

/// What is known of a unit after one more attribute of its root entry.
///
/// The name and the working directory are kept whatever their form. The
/// base address, the line number program and the four bases are taken only
/// from a value of the right kind: one of another kind changes nothing, and
/// is no error. An attribute of any other name changes nothing.
pub open spec fn spec_root_step<R>(known: RootAttributes<R>, attr: Attribute<R>) -> RootAttributes<R> {
    let name = attr.name.0;
    let value = spec_normalize(name, attr.value);
    if name == DW_AT_NAME {
        RootAttributes { name: Some(value), ..known }
    } else if name == DW_AT_COMP_DIR {
        RootAttributes { comp_dir: Some(value), ..known }
    } else if name == DW_AT_LOW_PC {
        match value {
            AttributeValue::Addr(low_pc) => RootAttributes { low_pc, ..known },
            _ => known,
        }
    } else if name == DW_AT_STMT_LIST {
        match value {
            AttributeValue::DebugLineRef(offset) => RootAttributes {
                line_program_offset: Some(offset),
                ..known
            },
            _ => known,
        }
    } else if name == DW_AT_STR_OFFSETS_BASE {
        match value {
            AttributeValue::DebugStrOffsetsBase(str_offsets_base) => RootAttributes {
                str_offsets_base,
                ..known
            },
            _ => known,
        }
    } else if name == DW_AT_ADDR_BASE {
        match value {
            AttributeValue::DebugAddrBase(addr_base) => RootAttributes { addr_base, ..known },
            _ => known,
        }
    } else if name == DW_AT_LOCLISTS_BASE {
        match value {
            AttributeValue::DebugLocListsBase(loclists_base) => RootAttributes {
                loclists_base,
                ..known
            },
            _ => known,
        }
    } else if name == DW_AT_RNGLISTS_BASE {
        match value {
            AttributeValue::DebugRngListsBase(rnglists_base) => RootAttributes {
                rnglists_base,
                ..known
            },
            _ => known,
        }
    } else {
        known
    }
}

/// What the attributes of a root entry say of the unit: each attribute is
/// looked at once, in the entry's order, so that of two attributes with one
/// name the later one counts.
pub open spec fn spec_scan_root<R>(attrs: Seq<Attribute<R>>) -> RootAttributes<R>
    decreases attrs.len(),
{
    if attrs.len() == 0 {
        spec_root_default()
    } else {
        spec_root_step(spec_scan_root(attrs.drop_last()), attrs.last())
    }
}

/// What the attributes say of the unit does not depend on how runs of bytes
/// are held.
pub proof fn lemma_scan_root_view(attrs: Seq<Attribute<EndianSlice>>)
    ensures
        spec_scan_root(attrs)@ == spec_scan_root(view_attrs(attrs)),
    decreases attrs.len(),
{
    if attrs.len() > 0 {
        lemma_scan_root_view(attrs.drop_last());
        assert(view_attrs(attrs).drop_last() =~= view_attrs(attrs.drop_last()));
        assert(view_attrs(attrs).last() == attrs.last()@);
        lemma_normalize_view(attrs.last().name.0, attrs.last().value);
    }
}

/// Takes in one more attribute of a root entry.
pub fn root_step<R: Copy>(known: RootAttributes<R>, attr: &Attribute<R>) -> (r: RootAttributes<R>)
    ensures
        r == spec_root_step(known, *attr),
{
    let name: u16 = attr.name.0;
    let value = attr.value();
    let mut known = known;
    if name == DW_AT_NAME {
        known.name = Some(value);
    } else if name == DW_AT_COMP_DIR {
        known.comp_dir = Some(value);
    } else if name == DW_AT_LOW_PC {
        if let AttributeValue::Addr(low_pc) = value {
            known.low_pc = low_pc;
        }
    } else if name == DW_AT_STMT_LIST {
        if let AttributeValue::DebugLineRef(offset) = value {
            known.line_program_offset = Some(offset);
        }
    } else if name == DW_AT_STR_OFFSETS_BASE {
        if let AttributeValue::DebugStrOffsetsBase(base) = value {
            known.str_offsets_base = base;
        }
    } else if name == DW_AT_ADDR_BASE {
        if let AttributeValue::DebugAddrBase(base) = value {
            known.addr_base = base;
        }
    } else if name == DW_AT_LOCLISTS_BASE {
        if let AttributeValue::DebugLocListsBase(base) = value {
            known.loclists_base = base;
        }
    } else if name == DW_AT_RNGLISTS_BASE {
        if let AttributeValue::DebugRngListsBase(base) = value {
            known.rnglists_base = base;
        }
    }
    known
}

/// Looks once at each attribute of a root entry, in the entry's order, and
/// gathers what they say of the unit.
pub fn scan_root_attributes<R: Copy>(attrs: &Vec<Attribute<R>>) -> (r: RootAttributes<R>)
    ensures
        r == spec_scan_root(attrs@),
{
    let mut known: RootAttributes<R> = RootAttributes {
        name: None,
        comp_dir: None,
        low_pc: 0,
        str_offsets_base: DebugStrOffsetsBase(0),
        addr_base: DebugAddrBase(0),
        loclists_base: DebugLocListsBase(0),
        rnglists_base: DebugRngListsBase(0),
        line_program_offset: None,
    };
    let mut i: usize = 0;
    assert(attrs@.take(0) =~= Seq::empty());
    while i < attrs.len()
        invariant
            i <= attrs@.len(),
            known == spec_scan_root(attrs@.take(i as int)),
        decreases attrs@.len() - i,
    {
        assert(attrs@.take(i + 1).drop_last() =~= attrs@.take(i as int));
        assert(attrs@.take(i + 1).last() == attrs@[i as int]);
        known = root_step(known, &attrs[i]);
        i = i + 1;
    }
    assert(attrs@.take(i as int) =~= attrs@);
    known
}

} // verus!
