use crate::common::{DebugLineOffset, Encoding};
use crate::endian::{spec_read_offset, spec_read_u16, EndianSlice, RunTimeEndian};
use crate::error::Error;
use crate::unit::{read_initial_length, spec_initial_length};
use crate::value::AttributeValue;
use vstd::prelude::*;

verus! {

/// The fixed part of the header of a line number program.
#[derive(Debug, Clone, Copy, PartialEq, Eq, Structural)]
pub struct LineProgramFields {
    /// Where the program starts in `.debug_line`.
    pub offset: DebugLineOffset,
    /// The program's length, not counting the initial length itself.
    pub unit_length: usize,
    /// The program's encoding. Up to version 4 the address size is that of
    /// the unit; from version 5 on the header states it.
    pub encoding: Encoding,
    /// The length of the header behind this field.
    pub header_length: usize,
    /// The size of the smallest instruction of the target.
    pub minimum_instruction_length: u8,
    /// The largest number of operations in one instruction; 1 before
    /// version 4.
    pub maximum_operations_per_instruction: u8,
    /// Whether a row is a statement's start unless the program says
    /// otherwise.
    pub default_is_stmt: bool,
    /// The smallest step of the line register in a special opcode.
    pub line_base: i8,
    /// The number of line steps that special opcodes can encode.
    pub line_range: u8,
    /// The number of the first special opcode.
    pub opcode_base: u8,
    /// Where the lengths of the standard opcodes start.
    pub lengths_start: usize,
    /// Where the tables of directories and files start.
    pub tables_start: usize,
    /// Where the program's instructions start.
    pub program_start: usize,
    /// The position behind the program.
    pub end: usize,
}

/// The byte `b` read as a signed number.
pub open spec fn spec_signed(b: u8) -> i8 {
    if b < 128 {
        b as i8
    } else {
        (b - 256) as i8
    }
}

/// What the header of a line number program starts with.
#[derive(Debug, Clone, Copy, PartialEq, Eq, Structural)]
pub struct LinePrelude {
    /// The program's length, not counting the initial length itself.
    pub unit_length: usize,
    /// The program's encoding.
    pub encoding: Encoding,
    /// The length of the header behind this field.
    pub header_length: usize,
    /// The position behind the header length.
    pub fixed: usize,
    /// The position behind the program.
    pub end: usize,
}

/// The start of the header of the line number program at `offset`, for a
/// unit with addresses of `address_size` bytes.
///
/// The program reaches as far as its length says, and nothing is read from
/// behind it (`UnexpectedEof`). Versions 2 to 5 are read. Version 5 states
/// its own address size, and a segment selector size that is passed over.
/// The header, whose length comes next, has to end within the program.
pub open spec fn spec_line_prelude(s: Seq<u8>, endian: RunTimeEndian, offset: int, address_size: u8) -> Result<
    LinePrelude,
    Error,
> {
    match spec_initial_length(s, endian, offset) {
        Err(e) => Err(e),
        Ok((unit_length, format, start)) => if start + unit_length > s.len() {
            Err(Error::UnexpectedEof)
        } else {
            let end = (start + unit_length) as usize;
            let unit = s.subrange(0, end as int);
            match spec_read_u16(unit, start as int, endian) {
                Err(e) => Err(e),
                Ok(version) => if version < 2 || version > 5 {
                    Err(Error::UnknownVersion(version as u64))
                } else {
                    let at_length = if version >= 5 {
                        start + 4
                    } else {
                        start + 2
                    };
                    match spec_read_offset(unit, at_length, format, endian) {
                        Err(e) => Err(e),
                        Ok(header_length) => if at_length + format.spec_word_size()
                            + header_length > end {
                            Err(Error::UnexpectedEof)
                        } else {
                            Ok(
                                LinePrelude {
                                    unit_length,
                                    encoding: Encoding {
                                        address_size: if version >= 5 {
                                            s[start + 2]
                                        } else {
                                            address_size
                                        },
                                        format,
                                        version,
                                    },
                                    header_length,
                                    fixed: (at_length + format.spec_word_size()) as usize,
                                    end,
                                },
                            )
                        },
                    }
                },
            }
        },
    }
}

/// The fixed part of the header whose start is `prelude`.
///
/// One byte each: the minimum instruction length; from version 4 on the
/// largest number of operations; whether rows are statements by default; the
/// line base, which is signed; the line range; the opcode base. The lengths
/// of the standard opcodes follow, one less than the opcode base. All of it
/// has to lie within the header (`UnexpectedEof`). A line range or an opcode
/// base of zero is an error.
pub open spec fn spec_line_fields(s: Seq<u8>, offset: int, prelude: LinePrelude) -> Result<
    LineProgramFields,
    Error,
> {
    let fixed = prelude.fixed as int;
    let skip: int = if prelude.encoding.version >= 4 {
        1
    } else {
        0
    };
    if 5 + skip > prelude.header_length {
        Err(Error::UnexpectedEof)
    } else if s[fixed + skip + 3] == 0 {
        Err(Error::LineRangeZero)
    } else if s[fixed + skip + 4] == 0 {
        Err(Error::OpcodeBaseZero)
    } else if 4 + skip + s[fixed + skip + 4] > prelude.header_length {
        Err(Error::UnexpectedEof)
    } else {
        Ok(
            LineProgramFields {
                offset: DebugLineOffset(offset as usize),
                unit_length: prelude.unit_length,
                encoding: prelude.encoding,
                header_length: prelude.header_length,
                minimum_instruction_length: s[fixed],
                maximum_operations_per_instruction: if skip == 1 {
                    s[fixed + 1]
                } else {
                    1
                },
                default_is_stmt: s[fixed + skip + 1] != 0,
                line_base: spec_signed(s[fixed + skip + 2]),
                line_range: s[fixed + skip + 3],
                opcode_base: s[fixed + skip + 4],
                lengths_start: (fixed + skip + 5) as usize,
                tables_start: (fixed + skip + 4 + s[fixed + skip + 4]) as usize,
                program_start: (fixed + prelude.header_length) as usize,
                end: prelude.end,
            },
        )
    }
}

/// The fixed part of the header of the line number program at `offset`, for
/// a unit with addresses of `address_size` bytes.
pub open spec fn spec_line_program(s: Seq<u8>, endian: RunTimeEndian, offset: int, address_size: u8) -> Result<
    LineProgramFields,
    Error,
> {
    match spec_line_prelude(s, endian, offset, address_size) {
        Err(e) => Err(e),
        Ok(prelude) => spec_line_fields(s, offset, prelude),
    }
}

/// Reads the start of the header of the line number program at `offset`.
fn parse_line_prelude(input: &EndianSlice, offset: usize, address_size: u8) -> (r: Result<
    LinePrelude,
    Error,
>)
    ensures
        r == spec_line_prelude(input@, input.endian, offset as int, address_size),
        r matches Ok(prelude) ==> prelude.fixed + prelude.header_length <= prelude.end
            <= input@.len(),
{
    let len: usize = input.len();
    let (unit_length, format, start) = match read_initial_length(input, offset) {
        Ok(initial) => initial,
        Err(e) => { return Err(e); },
    };
    if unit_length > len - start {
        return Err(Error::UnexpectedEof);
    }
    let end: usize = start + unit_length;
    let unit = input.range(0, end);
    let version: u16 = match unit.read_u16(start) {
        Ok(version) => version,
        Err(e) => { return Err(e); },
    };
    if version < 2 || version > 5 {
        return Err(Error::UnknownVersion(version as u64));
    }
    if version >= 5 && end - start < 4 {
        return Err(Error::UnexpectedEof);
    }
    let at_length: usize = if version >= 5 {
        start + 4
    } else {
        start + 2
    };
    let header_length: usize = match unit.read_offset(at_length, format) {
        Ok(length) => length,
        Err(e) => { return Err(e); },
    };
    let fixed: usize = at_length + format.word_size() as usize;
    if header_length > end - fixed {
        return Err(Error::UnexpectedEof);
    }
    Ok(
        LinePrelude {
            unit_length,
            encoding: Encoding {
                address_size: if version >= 5 {
                    input.slice[start + 2]
                } else {
                    address_size
                },
                format,
                version,
            },
            header_length,
            fixed,
            end,
        },
    )
}

/// Reads the fixed part of the header whose start is `prelude`.
fn parse_line_fields(input: &EndianSlice, offset: usize, prelude: LinePrelude) -> (r: Result<
    LineProgramFields,
    Error,
>)
    requires
        prelude.fixed + prelude.header_length <= prelude.end <= input@.len(),
    ensures
        r == spec_line_fields(input@, offset as int, prelude),
        r matches Ok(fields) ==> fields.lengths_start <= fields.tables_start
            <= fields.program_start <= fields.end <= input@.len(),
{
    let fixed: usize = prelude.fixed;
    let skip: usize = if prelude.encoding.version >= 4 {
        1
    } else {
        0
    };
    if 5 + skip > prelude.header_length {
        return Err(Error::UnexpectedEof);
    }
    let line_range: u8 = input.slice[fixed + skip + 3];
    let opcode_base: u8 = input.slice[fixed + skip + 4];
    if line_range == 0 {
        return Err(Error::LineRangeZero);
    }
    if opcode_base == 0 {
        return Err(Error::OpcodeBaseZero);
    }
    if 4 + skip + opcode_base as usize > prelude.header_length {
        return Err(Error::UnexpectedEof);
    }
    let signed: u8 = input.slice[fixed + skip + 2];
    let line_base: i8 = if signed < 128 {
        signed as i8
    } else {
        (signed as i16 - 256) as i8
    };
    Ok(
        LineProgramFields {
            offset: DebugLineOffset(offset),
            unit_length: prelude.unit_length,
            encoding: prelude.encoding,
            header_length: prelude.header_length,
            minimum_instruction_length: input.slice[fixed],
            maximum_operations_per_instruction: if skip == 1 {
                input.slice[fixed + 1]
            } else {
                1
            },
            default_is_stmt: input.slice[fixed + skip + 1] != 0,
            line_base,
            line_range,
            opcode_base,
            lengths_start: fixed + skip + 5,
            tables_start: fixed + skip + 4 + opcode_base as usize,
            program_start: fixed + prelude.header_length,
            end: prelude.end,
        },
    )
}

/// The header of a line number program, read as far as its fixed part goes.
/// The tables of directories and files, and the program's instructions, are
/// held as they are encoded.
#[derive(Debug, Clone, Copy, PartialEq, Eq)]
pub struct IncompleteLineProgram<'a> {
    /// The fixed part of the header.
    pub fields: LineProgramFields,
    /// The lengths of the standard opcodes, one byte each.
    pub standard_opcode_lengths: EndianSlice<'a>,
    /// The tables of directories and files, as they are encoded.
    pub tables: EndianSlice<'a>,
    /// The program's instructions.
    pub program_buf: EndianSlice<'a>,
    /// The unit's working directory, which relative paths start from.
    pub comp_dir: Option<AttributeValue<EndianSlice<'a>>>,
    /// The unit's name, which is the program's primary file.
    pub comp_name: Option<AttributeValue<EndianSlice<'a>>>,
}

impl<'a> IncompleteLineProgram<'a> {
    /// Whether this program's header is `fields`, and its three runs of
    /// bytes are those of `s` between the positions that `fields` gives.
    pub open spec fn is(self, s: Seq<u8>, endian: RunTimeEndian, fields: LineProgramFields) -> bool {
        &&& self.fields == fields
        &&& fields.lengths_start <= fields.tables_start <= fields.program_start <= fields.end
            <= s.len()
        &&& self.standard_opcode_lengths@ == s.subrange(
            fields.lengths_start as int,
            fields.tables_start as int,
        )
        &&& self.tables@ == s.subrange(fields.tables_start as int, fields.program_start as int)
        &&& self.program_buf@ == s.subrange(fields.program_start as int, fields.end as int)
        &&& self.standard_opcode_lengths.endian == endian
        &&& self.tables.endian == endian
        &&& self.program_buf.endian == endian
    }
}

/// The `.debug_line` section: the line number programs.
#[derive(Debug, Clone, Copy, PartialEq, Eq)]
pub struct DebugLine<'a> {
    /// The section's bytes.
    pub section: EndianSlice<'a>,
}

impl<'a> DebugLine<'a> {
    /// The section held in `section`, with integers in the byte order `endian`.
    pub fn new(section: &'a [u8], endian: RunTimeEndian) -> (r: Self)
        ensures
            r.section.slice == section,
            r.section.endian == endian,
    {
        DebugLine { section: EndianSlice::new(section, endian) }
    }

    /// Reads the header of the line number program at `offset`, for a unit
    /// with addresses of `address_size` bytes, whose working directory is
    /// `comp_dir` and whose name is `comp_name`.
    pub fn program(
        &self,
        offset: DebugLineOffset,
        address_size: u8,
        comp_dir: Option<AttributeValue<EndianSlice<'a>>>,
        comp_name: Option<AttributeValue<EndianSlice<'a>>>,
    ) -> (r: Result<IncompleteLineProgram<'a>, Error>)
        ensures
            match r {
                Ok(program) => spec_line_program(
                    self.section@,
                    self.section.endian,
                    offset.0 as int,
                    address_size,
                ) == Ok::<LineProgramFields, Error>(program.fields) && program.is(
                    self.section@,
                    self.section.endian,
                    program.fields,
                ) && program.comp_dir == comp_dir && program.comp_name == comp_name,
                Err(e) => spec_line_program(
                    self.section@,
                    self.section.endian,
                    offset.0 as int,
                    address_size,
                ) == Err::<LineProgramFields, Error>(e),
            },
    {
        let input = &self.section;
        let prelude = match parse_line_prelude(input, offset.0, address_size) {
            Ok(prelude) => prelude,
            Err(e) => { return Err(e); },
        };
        let fields = match parse_line_fields(input, offset.0, prelude) {
            Ok(fields) => fields,
            Err(e) => { return Err(e); },
        };
        Ok(
            IncompleteLineProgram {
                fields,
                standard_opcode_lengths: input.range(fields.lengths_start, fields.tables_start),
                tables: input.range(fields.tables_start, fields.program_start),
                program_buf: input.range(fields.program_start, fields.end),
                comp_dir,
                comp_name,
            },
        )
    }
}

} // verus!
