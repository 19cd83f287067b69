use crate::common::DebugAbbrevOffset;
use crate::constants::{
    DwAt, DwForm, DwTag, DW_FORM_ADDRX4, DW_FORM_GNU_ADDR_INDEX, DW_FORM_GNU_REF_ALT,
    DW_FORM_GNU_STRP_ALT, DW_FORM_GNU_STR_INDEX, DW_FORM_IMPLICIT_CONST,
};
use crate::endian::{spec_read_u8, EndianSlice, RunTimeEndian};
use crate::error::Error;
use crate::leb128::{
    lemma_sleb128_advances, lemma_uleb128_advances, read_sleb128, read_uleb128, spec_sleb128,
    spec_uleb128,
};
use vstd::prelude::*;

verus! {

/// Whether `form` is an attribute form that can be read.
pub open spec fn spec_known_form(form: u16) -> bool {
    (1 <= form <= DW_FORM_ADDRX4 && form != 2) || form == DW_FORM_GNU_ADDR_INDEX || form
        == DW_FORM_GNU_STR_INDEX || form == DW_FORM_GNU_REF_ALT || form == DW_FORM_GNU_STRP_ALT
}

/// Tells whether `form` is an attribute form that can be read.
pub fn known_form(form: u16) -> (r: bool)
    ensures
        r == spec_known_form(form),
{
    (1 <= form && form <= DW_FORM_ADDRX4 && form != 2) || form == DW_FORM_GNU_ADDR_INDEX || form
        == DW_FORM_GNU_STR_INDEX || form == DW_FORM_GNU_REF_ALT || form == DW_FORM_GNU_STRP_ALT
}

/// One attribute of an abbreviation: the attribute's name and the form of
/// its value.
#[derive(Debug, Clone, Copy, PartialEq, Eq, Structural)]
pub struct AttributeSpecification {
    /// The attribute's name.
    pub name: DwAt,
    /// The form of the attribute's value.
    pub form: DwForm,
    /// The value itself where the form is `DW_FORM_implicit_const`, else 0.
    pub implicit_const_value: i64,
}

/// An abbreviation as contracts see it.
pub struct AbbreviationModel {
    /// The code by which entries name the abbreviation.
    pub code: u64,
    /// The tag of the entries that use it.
    pub tag: DwTag,
    /// Whether such entries have children.
    pub has_children: bool,
    /// The attributes of such entries, in their order.
    pub attributes: Seq<AttributeSpecification>,
}

/// An abbreviation: the shape of the debugging information entries that
/// name its code.
#[derive(Debug, Clone, PartialEq, Eq)]
pub struct Abbreviation {
    /// The code by which entries name the abbreviation.
    pub code: u64,
    /// The tag of the entries that use it.
    pub tag: DwTag,
    /// Whether such entries have children.
    pub has_children: bool,
    /// The attributes of such entries, in their order.
    pub attributes: Vec<AttributeSpecification>,
}

impl View for Abbreviation {
    type V = AbbreviationModel;

    open spec fn view(&self) -> AbbreviationModel {
        AbbreviationModel {
            code: self.code,
            tag: self.tag,
            has_children: self.has_children,
            attributes: self.attributes@,
        }
    }
}

/// The abbreviations of one unit, in the order in which they were declared.
/// No two share a code.
#[derive(Debug, Clone, PartialEq, Eq)]
pub struct Abbreviations {
    /// The abbreviations.
    pub vec: Vec<Abbreviation>,
}

impl View for Abbreviations {
    type V = Seq<AbbreviationModel>;

    open spec fn view(&self) -> Seq<AbbreviationModel> {
        Seq::new(self.vec@.len(), |i: int| self.vec@[i]@)
    }
}

/// The index in `table` of the abbreviation with the given code, if there
/// is one among the first `n`.
pub open spec fn spec_find_code(table: Seq<AbbreviationModel>, code: u64, n: int) -> Option<int>
    decreases n,
{
    if n <= 0 {
        None
    } else if table[n - 1].code == code {
        Some(n - 1)
    } else {
        spec_find_code(table, code, n - 1)
    }
}

/// The number LEB128 encodes at `pos`, where it has to fit 16 bits.
pub open spec fn spec_uleb_u16(s: Seq<u8>, pos: int) -> Result<(u16, int), Error> {
    match spec_uleb128(s, pos, 0) {
        Ok((v, next)) => if v > u16::MAX {
            Err(Error::BadUnsignedLeb128)
        } else {
            Ok((v as u16, next))
        },
        Err(e) => Err(e),
    }
}

/// The attribute specification at `pos`, with the position behind it; `None`
/// for the pair of zeros that ends an abbreviation's attributes.
///
/// A name and a form follow each other, both unsigned LEB128 numbers. One of
/// them zero and the other not is an error, and so is a form that is not
/// known. The form `DW_FORM_implicit_const` is followed by the value, a
/// signed LEB128 number.
pub open spec fn spec_attr_spec(s: Seq<u8>, pos: int) -> Result<
    (Option<AttributeSpecification>, int),
    Error,
> {
    match spec_uleb_u16(s, pos) {
        Err(e) => Err(e),
        Ok((name, mid)) => match spec_uleb_u16(s, mid) {
            Err(e) => Err(e),
            Ok((form, next)) => if name == 0 && form == 0 {
                Ok((None, next))
            } else if name == 0 {
                Err(Error::ExpectedZero)
            } else if form == 0 {
                Err(Error::AttributeFormZero)
            } else if !spec_known_form(form) {
                Err(Error::UnknownForm)
            } else if form == DW_FORM_IMPLICIT_CONST {
                match spec_sleb128(s, next, 0) {
                    Err(e) => Err(e),
                    Ok((value, end)) => Ok(
                        (
                            Some(
                                AttributeSpecification {
                                    name: DwAt(name),
                                    form: DwForm(form),
                                    implicit_const_value: value as i64,
                                },
                            ),
                            end,
                        ),
                    ),
                }
            } else {
                Ok(
                    (
                        Some(
                            AttributeSpecification {
                                name: DwAt(name),
                                form: DwForm(form),
                                implicit_const_value: 0,
                            },
                        ),
                        next,
                    ),
                )
            },
        },
    }
}

/// An attribute specification takes at least two bytes, and ends within the
/// bytes it is read from.
pub proof fn lemma_attr_spec_advances(s: Seq<u8>, pos: int)
    ensures
        spec_attr_spec(s, pos) matches Ok((spec, next)) ==> pos + 1 < next <= s.len(),
{
    lemma_uleb128_advances(s, pos, 0);
    if let Ok((name, mid)) = spec_uleb_u16(s, pos) {
        lemma_uleb128_advances(s, mid, 0);
        if let Ok((form, next)) = spec_uleb_u16(s, mid) {
            lemma_sleb128_advances(s, next, 0);
        }
    }
}

/// The attribute specifications from `pos` up to the pair of zeros that ends
/// them, appended to `acc`, with the position behind that pair.
pub open spec fn spec_attr_specs(s: Seq<u8>, pos: int, acc: Seq<AttributeSpecification>) -> Result<
    (Seq<AttributeSpecification>, int),
    Error,
>
    decreases s.len() - pos,
{
    match spec_attr_spec(s, pos) {
        Err(e) => Err(e),
        Ok((None, next)) => Ok((acc, next)),
        Ok((Some(spec), next)) => {
            proof {
                lemma_attr_spec_advances(s, pos);
            }
            spec_attr_specs(s, next, acc.push(spec))
        },
    }
}

/// The attribute specifications of an abbreviation end within the bytes
/// they are read from.
pub proof fn lemma_attr_specs_advance(s: Seq<u8>, pos: int, acc: Seq<AttributeSpecification>)
    ensures
        spec_attr_specs(s, pos, acc) matches Ok((specs, next)) ==> pos + 1 < next <= s.len(),
    decreases s.len() - pos,
{
    lemma_attr_spec_advances(s, pos);
    if let Ok((Some(spec), next)) = spec_attr_spec(s, pos) {
        lemma_attr_specs_advance(s, next, acc.push(spec));
    }
}

/// The abbreviation at `pos`, with the position behind it; `None` for the
/// code zero that ends a table.
///
/// The code and the tag are unsigned LEB128 numbers; the tag may not be
/// zero. One byte says whether the entries have children: 0 or 1. The
/// attribute specifications follow.
pub open spec fn spec_abbreviation(s: Seq<u8>, pos: int) -> Result<
    Option<(AbbreviationModel, int)>,
    Error,
> {
    match spec_uleb128(s, pos, 0) {
        Err(e) => Err(e),
        Ok((code, at_tag)) => if code == 0 {
            Ok(None)
        } else {
            match spec_uleb_u16(s, at_tag) {
                Err(e) => Err(e),
                Ok((tag, at_children)) => if tag == 0 {
                    Err(Error::AbbreviationTagZero)
                } else {
                    match spec_read_u8(s, at_children) {
                        Err(e) => Err(e),
                        Ok(children) => if children > 1 {
                            Err(Error::BadHasChildren)
                        } else {
                            match spec_attr_specs(s, at_children + 1, Seq::empty()) {
                                Err(e) => Err(e),
                                Ok((attributes, next)) => Ok(
                                    Some(
                                        (
                                            AbbreviationModel {
                                                code: code as u64,
                                                tag: DwTag(tag),
                                                has_children: children == 1,
                                                attributes,
                                            },
                                            next,
                                        ),
                                    ),
                                ),
                            }
                        },
                    }
                },
            }
        },
    }
}

/// An abbreviation takes at least five bytes, and ends within the bytes it
/// is read from.
pub proof fn lemma_abbreviation_advances(s: Seq<u8>, pos: int)
    ensures
        spec_abbreviation(s, pos) matches Ok(Some((abbreviation, next))) ==> pos + 4 < next
            <= s.len(),
{
    lemma_uleb128_advances(s, pos, 0);
    if let Ok((code, at_tag)) = spec_uleb128(s, pos, 0) {
        lemma_uleb128_advances(s, at_tag, 0);
        if let Ok((tag, at_children)) = spec_uleb_u16(s, at_tag) {
            lemma_attr_specs_advance(s, at_children + 1, Seq::empty());
        }
    }
}

/// The abbreviations from `pos` up to the code zero that ends the table,
/// appended to `acc`. A code that an earlier abbreviation has is an error.
pub open spec fn spec_abbreviations(s: Seq<u8>, pos: int, acc: Seq<AbbreviationModel>) -> Result<
    Seq<AbbreviationModel>,
    Error,
>
    decreases s.len() - pos,
{
    match spec_abbreviation(s, pos) {
        Err(e) => Err(e),
        Ok(None) => Ok(acc),
        Ok(Some((abbreviation, next))) => if spec_find_code(
            acc,
            abbreviation.code,
            acc.len() as int,
        ) is Some {
            Err(Error::DuplicateAbbreviationCode)
        } else {
            proof {
                lemma_abbreviation_advances(s, pos);
            }
            spec_abbreviations(s, next, acc.push(abbreviation))
        },
    }
}

/// Reads an unsigned LEB128 number that has to fit 16 bits.
pub fn read_uleb_u16(input: &EndianSlice, pos: usize) -> (r: Result<(u16, usize), Error>)
    ensures
        match r {
            Ok((v, next)) => spec_uleb_u16(input@, pos as int) == Ok::<(u16, int), Error>(
                (v, next as int),
            ),
            Err(e) => spec_uleb_u16(input@, pos as int) == Err::<(u16, int), Error>(e),
        },
{
    match read_uleb128(input, pos) {
        Ok((v, next)) => if v > 0xffff {
            Err(Error::BadUnsignedLeb128)
        } else {
            Ok((v as u16, next))
        },
        Err(e) => Err(e),
    }
}

/// Reads the attribute specification at `pos`.
pub fn parse_attr_spec(input: &EndianSlice, pos: usize) -> (r: Result<
    (Option<AttributeSpecification>, usize),
    Error,
>)
    ensures
        match r {
            Ok((spec, next)) => spec_attr_spec(input@, pos as int) == Ok::<
                (Option<AttributeSpecification>, int),
                Error,
            >((spec, next as int)),
            Err(e) => spec_attr_spec(input@, pos as int) == Err::<
                (Option<AttributeSpecification>, int),
                Error,
            >(e),
        },
{
    let (name, mid) = match read_uleb_u16(input, pos) {
        Ok(read) => read,
        Err(e) => { return Err(e); },
    };
    let (form, next) = match read_uleb_u16(input, mid) {
        Ok(read) => read,
        Err(e) => { return Err(e); },
    };
    if name == 0 && form == 0 {
        Ok((None, next))
    } else if name == 0 {
        Err(Error::ExpectedZero)
    } else if form == 0 {
        Err(Error::AttributeFormZero)
    } else if !known_form(form) {
        Err(Error::UnknownForm)
    } else if form == DW_FORM_IMPLICIT_CONST {
        match read_sleb128(input, next) {
            Err(e) => Err(e),
            Ok((value, end)) => Ok(
                (
                    Some(
                        AttributeSpecification {
                            name: DwAt(name),
                            form: DwForm(form),
                            implicit_const_value: value,
                        },
                    ),
                    end,
                ),
            ),
        }
    } else {
        Ok(
            (
                Some(
                    AttributeSpecification {
                        name: DwAt(name),
                        form: DwForm(form),
                        implicit_const_value: 0,
                    },
                ),
                next,
            ),
        )
    }
}

/// Reads the attribute specifications from `pos` up to the pair of zeros
/// that ends them.
pub fn parse_attr_specs(input: &EndianSlice, pos: usize) -> (r: Result<
    (Vec<AttributeSpecification>, usize),
    Error,
>)
    ensures
        match r {
            Ok((specs, next)) => spec_attr_specs(input@, pos as int, Seq::empty()) == Ok::<
                (Seq<AttributeSpecification>, int),
                Error,
            >((specs@, next as int)),
            Err(e) => spec_attr_specs(input@, pos as int, Seq::empty()) == Err::<
                (Seq<AttributeSpecification>, int),
                Error,
            >(e),
        },
{
    let mut specs: Vec<AttributeSpecification> = Vec::new();
    let mut p: usize = pos;
    loop
        invariant
            spec_attr_specs(input@, pos as int, Seq::empty()) == spec_attr_specs(
                input@,
                p as int,
                specs@,
            ),
        decreases input@.len() - p,
    {
        proof {
            lemma_attr_spec_advances(input@, p as int);
        }
        match parse_attr_spec(input, p) {
            Err(e) => { return Err(e); },
            Ok((None, next)) => { return Ok((specs, next)); },
            Ok((Some(spec), next)) => {
                specs.push(spec);
                p = next;
            },
        }
    }
}

impl Abbreviation {
    /// Reads the abbreviation at `pos`.
    pub fn parse(input: &EndianSlice, pos: usize) -> (r: Result<Option<(Abbreviation, usize)>, Error>)
        ensures
            match r {
                Ok(Some((abbreviation, next))) => spec_abbreviation(input@, pos as int) == Ok::<
                    Option<(AbbreviationModel, int)>,
                    Error,
                >(Some((abbreviation@, next as int))),
                Ok(None) => spec_abbreviation(input@, pos as int) == Ok::<
                    Option<(AbbreviationModel, int)>,
                    Error,
                >(None),
                Err(e) => spec_abbreviation(input@, pos as int) == Err::<
                    Option<(AbbreviationModel, int)>,
                    Error,
                >(e),
            },
    {
        proof {
            input.lemma_len_fits();
            lemma_uleb128_advances(input@, pos as int, 0);
        }
        let (code, at_tag) = match read_uleb128(input, pos) {
            Ok(read) => read,
            Err(e) => { return Err(e); },
        };
        if code == 0 {
            return Ok(None);
        }
        proof {
            lemma_uleb128_advances(input@, at_tag as int, 0);
        }
        let (tag, at_children) = match read_uleb_u16(input, at_tag) {
            Ok(read) => read,
            Err(e) => { return Err(e); },
        };
        if tag == 0 {
            return Err(Error::AbbreviationTagZero);
        }
        let children: u8 = match input.read_u8(at_children) {
            Ok(children) => children,
            Err(e) => { return Err(e); },
        };
        if children > 1 {
            return Err(Error::BadHasChildren);
        }
        match parse_attr_specs(input, at_children + 1) {
            Err(e) => Err(e),
            Ok((attributes, next)) => Ok(
                Some(
                    (
                        Abbreviation { code, tag: DwTag(tag), has_children: children == 1, attributes },
                        next,
                    ),
                ),
            ),
        }
    }
}

impl Abbreviations {
    /// The abbreviation with the given code, if the table has one.
    pub fn get(&self, code: u64) -> (r: Option<&Abbreviation>)
        ensures
            match r {
                Some(abbreviation) => spec_find_code(self@, code, self@.len() as int) matches Some(
                    i,
                ) && 0 <= i < self.vec@.len() && *abbreviation == self.vec@[i],
                None => spec_find_code(self@, code, self@.len() as int) is None,
            },
    {
        let mut n: usize = self.vec.len();
        while n > 0
            invariant
                n <= self.vec@.len(),
                spec_find_code(self@, code, self@.len() as int) == spec_find_code(
                    self@,
                    code,
                    n as int,
                ),
            decreases n,
        {
            if self.vec[n - 1].code == code {
                return Some(&self.vec[n - 1]);
            }
            n = n - 1;
        }
        None
    }

    /// Reads the table of abbreviations that starts at `pos`.
    pub fn parse(input: &EndianSlice, pos: usize) -> (r: Result<Abbreviations, Error>)
        ensures
            match r {
                Ok(table) => spec_abbreviations(input@, pos as int, Seq::empty()) == Ok::<
                    Seq<AbbreviationModel>,
                    Error,
                >(table@),
                Err(e) => spec_abbreviations(input@, pos as int, Seq::empty()) == Err::<
                    Seq<AbbreviationModel>,
                    Error,
                >(e),
            },
    {
        let mut table = Abbreviations { vec: Vec::new() };
        let mut p: usize = pos;
        assert(table@ =~= Seq::empty());
        loop
            invariant
                spec_abbreviations(input@, pos as int, Seq::empty()) == spec_abbreviations(
                    input@,
                    p as int,
                    table@,
                ),
            decreases input@.len() - p,
        {
            proof {
                lemma_abbreviation_advances(input@, p as int);
            }
            match Abbreviation::parse(input, p) {
                Err(e) => { return Err(e); },
                Ok(None) => { return Ok(table); },
                Ok(Some((abbreviation, next))) => {
                    if table.get(abbreviation.code).is_some() {
                        return Err(Error::DuplicateAbbreviationCode);
                    }
                    let ghost before = table@;
                    table.vec.push(abbreviation);
                    assert(table@ =~= before.push(abbreviation@));
                    p = next;
                },
            }
        }
    }
}

/// The `.debug_abbrev` section: the tables of abbreviations.
#[derive(Debug, Clone, Copy, PartialEq, Eq)]
pub struct DebugAbbrev<'a> {
    /// The section's bytes.
    pub section: EndianSlice<'a>,
}

impl<'a> DebugAbbrev<'a> {
    /// The section held in `section`, with integers in the byte order `endian`.
    pub fn new(section: &'a [u8], endian: RunTimeEndian) -> (r: Self)
        ensures
            r.section.slice == section,
            r.section.endian == endian,
    {
        DebugAbbrev { section: EndianSlice::new(section, endian) }
    }

    /// Reads the table of abbreviations that starts at `offset`.
    ///
    /// Fails where the table is cut short (`UnexpectedEof`), where a code
    /// comes twice, where a tag is zero, where the has-children byte is
    /// neither 0 nor 1, and where an attribute specification is malformed or
    /// names a form that is not known.
    pub fn abbreviations(&self, offset: DebugAbbrevOffset) -> (r: Result<Abbreviations, Error>)
        ensures
            match r {
                Ok(table) => spec_abbreviations(self.section@, offset.0 as int, Seq::empty())
                    == Ok::<Seq<AbbreviationModel>, Error>(table@),
                Err(e) => spec_abbreviations(self.section@, offset.0 as int, Seq::empty())
                    == Err::<Seq<AbbreviationModel>, Error>(e),
            },
    {
        Abbreviations::parse(&self.section, offset.0)
    }
}

} // verus!
