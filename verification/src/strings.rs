use crate::common::{DebugLineStrOffset, DebugStrOffset, DebugStrOffsetsBase, DebugStrOffsetsIndex, Format};
use crate::endian::{spec_offset_entry, spec_read_null_terminated, EndianSlice, RunTimeEndian};
use crate::error::Error;
use vstd::prelude::*;

verus! {

/// The `.debug_str` section: null-terminated strings, found by offset.
#[derive(Debug, Clone, Copy, PartialEq, Eq)]
pub struct DebugStr<'a> {
    /// The section's bytes.
    pub section: EndianSlice<'a>,
}

impl<'a> DebugStr<'a> {
    /// The section held in `section`, with integers in the byte order `endian`.
    pub fn new(section: &'a [u8], endian: RunTimeEndian) -> (r: Self)
        ensures
            r.section.slice == section,
            r.section.endian == endian,
    {
        DebugStr { section: EndianSlice::new(section, endian) }
    }

    /// The string that starts at `offset`: the bytes from there up to the
    /// next zero byte.
    ///
    /// Fails with `UnexpectedEof` where no zero byte follows `offset`, which
    /// is also the case where `offset` lies at or behind the section's end.
    pub fn get_str(&self, offset: DebugStrOffset) -> (r: Result<EndianSlice<'a>, Error>)
        ensures
            match r {
                Ok(run) => spec_read_null_terminated(self.section@, offset.0 as int) == Ok::<
                    Seq<u8>,
                    Error,
                >(run@) && run.endian == self.section.endian,
                Err(e) => spec_read_null_terminated(self.section@, offset.0 as int) == Err::<
                    Seq<u8>,
                    Error,
                >(e),
            },
    {
        self.section.read_null_terminated(offset.0)
    }
}

/// The `.debug_line_str` section: null-terminated strings, found by offset.
#[derive(Debug, Clone, Copy, PartialEq, Eq)]
pub struct DebugLineStr<'a> {
    /// The section's bytes.
    pub section: EndianSlice<'a>,
}

impl<'a> DebugLineStr<'a> {
    /// The section held in `section`, with integers in the byte order `endian`.
    pub fn new(section: &'a [u8], endian: RunTimeEndian) -> (r: Self)
        ensures
            r.section.slice == section,
            r.section.endian == endian,
    {
        DebugLineStr { section: EndianSlice::new(section, endian) }
    }

    /// The string that starts at `offset`: the bytes from there up to the
    /// next zero byte.
    ///
    /// Fails with `UnexpectedEof` where no zero byte follows `offset`.
    pub fn get_str(&self, offset: DebugLineStrOffset) -> (r: Result<EndianSlice<'a>, Error>)
        ensures
            match r {
                Ok(run) => spec_read_null_terminated(self.section@, offset.0 as int) == Ok::<
                    Seq<u8>,
                    Error,
                >(run@) && run.endian == self.section.endian,
                Err(e) => spec_read_null_terminated(self.section@, offset.0 as int) == Err::<
                    Seq<u8>,
                    Error,
                >(e),
            },
    {
        self.section.read_null_terminated(offset.0)
    }
}

/// The `.debug_str_offsets` section: per unit, a table of offsets into the
/// `.debug_str` section.
#[derive(Debug, Clone, Copy, PartialEq, Eq)]
pub struct DebugStrOffsets<'a> {
    /// The section's bytes.
    pub section: EndianSlice<'a>,
}

impl<'a> DebugStrOffsets<'a> {
    /// The section held in `section`, with integers in the byte order `endian`.
    pub fn new(section: &'a [u8], endian: RunTimeEndian) -> (r: Self)
        ensures
            r.section.slice == section,
            r.section.endian == endian,
    {
        DebugStrOffsets { section: EndianSlice::new(section, endian) }
    }

    /// The offset into `.debug_str` that entry `index` of the table at `base`
    /// holds.
    ///
    /// Fails with `UnexpectedEof` where the entry does not lie within the
    /// section, and with `UnsupportedOffset` where the stored offset is too
    /// large for a machine word.
    pub fn get_str_offset(
        &self,
        format: Format,
        base: DebugStrOffsetsBase,
        index: DebugStrOffsetsIndex,
    ) -> (r: Result<DebugStrOffset, Error>)
        ensures
            match r {
                Ok(offset) => spec_offset_entry(
                    self.section@,
                    self.section.endian,
                    format,
                    base.0 as int,
                    index.0 as int,
                ) == Ok::<usize, Error>(offset.0),
                Err(e) => spec_offset_entry(
                    self.section@,
                    self.section.endian,
                    format,
                    base.0 as int,
                    index.0 as int,
                ) == Err::<usize, Error>(e),
            },
    {
        match self.section.read_offset_entry(format, base.0, index.0) {
            Ok(offset) => Ok(DebugStrOffset(offset)),
            Err(e) => Err(e),
        }
    }
}

} // verus!
