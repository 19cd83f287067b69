use crate::common::Format;
use crate::error::Error;
use vstd::prelude::*;
use vstd::slice::slice_subrange;

verus! {

/// The byte order of a section, chosen at run time.
#[derive(Debug, Clone, Copy, PartialEq, Eq, Structural)]
pub enum RunTimeEndian {
    /// Least significant byte first.
    Little,
    /// Most significant byte first.
    Big,
}

/// The two-byte integer at `pos` in `s`.
pub open spec fn spec_u16(s: Seq<u8>, pos: int, endian: RunTimeEndian) -> int {
    match endian {
        RunTimeEndian::Little => s[pos] + 256 * s[pos + 1],
        RunTimeEndian::Big => 256 * s[pos] + s[pos + 1],
    }
}

/// The three-byte integer at `pos` in `s`.
pub open spec fn spec_u24(s: Seq<u8>, pos: int, endian: RunTimeEndian) -> int {
    match endian {
        RunTimeEndian::Little => s[pos] + 256 * s[pos + 1] + 0x1_0000 * s[pos + 2],
        RunTimeEndian::Big => 0x1_0000 * s[pos] + 256 * s[pos + 1] + s[pos + 2],
    }
}

/// The four-byte integer at `pos` in `s`.
pub open spec fn spec_u32(s: Seq<u8>, pos: int, endian: RunTimeEndian) -> int {
    match endian {
        RunTimeEndian::Little => spec_u16(s, pos, endian) + 0x1_0000 * spec_u16(s, pos + 2, endian),
        RunTimeEndian::Big => 0x1_0000 * spec_u16(s, pos, endian) + spec_u16(s, pos + 2, endian),
    }
}

/// The eight-byte integer at `pos` in `s`.
pub open spec fn spec_u64(s: Seq<u8>, pos: int, endian: RunTimeEndian) -> int {
    match endian {
        RunTimeEndian::Little => spec_u32(s, pos, endian) + 0x1_0000_0000 * spec_u32(
            s,
            pos + 4,
            endian,
        ),
        RunTimeEndian::Big => 0x1_0000_0000 * spec_u32(s, pos, endian) + spec_u32(
            s,
            pos + 4,
            endian,
        ),
    }
}

/// Whether `n` bytes can be read at `pos` in `s`.
pub open spec fn in_bounds(s: Seq<u8>, pos: int, n: int) -> bool {
    0 <= pos && pos + n <= s.len()
}

/// What reading one byte at `pos` gives.
pub open spec fn spec_read_u8(s: Seq<u8>, pos: int) -> Result<u8, Error> {
    if in_bounds(s, pos, 1) {
        Ok(s[pos])
    } else {
        Err(Error::UnexpectedEof)
    }
}

/// What reading a two-byte integer at `pos` gives.
pub open spec fn spec_read_u16(s: Seq<u8>, pos: int, endian: RunTimeEndian) -> Result<u16, Error> {
    if in_bounds(s, pos, 2) {
        Ok(spec_u16(s, pos, endian) as u16)
    } else {
        Err(Error::UnexpectedEof)
    }
}

/// What reading a three-byte integer at `pos` gives.
pub open spec fn spec_read_u24(s: Seq<u8>, pos: int, endian: RunTimeEndian) -> Result<u32, Error> {
    if in_bounds(s, pos, 3) {
        Ok(spec_u24(s, pos, endian) as u32)
    } else {
        Err(Error::UnexpectedEof)
    }
}

/// What reading a four-byte integer at `pos` gives.
pub open spec fn spec_read_u32(s: Seq<u8>, pos: int, endian: RunTimeEndian) -> Result<u32, Error> {
    if in_bounds(s, pos, 4) {
        Ok(spec_u32(s, pos, endian) as u32)
    } else {
        Err(Error::UnexpectedEof)
    }
}

/// What reading an eight-byte integer at `pos` gives.
pub open spec fn spec_read_u64(s: Seq<u8>, pos: int, endian: RunTimeEndian) -> Result<u64, Error> {
    if in_bounds(s, pos, 8) {
        Ok(spec_u64(s, pos, endian) as u64)
    } else {
        Err(Error::UnexpectedEof)
    }
}

/// Whether `size` is an address size that can be read.
pub open spec fn supported_address_size(size: u8) -> bool {
    size == 1 || size == 2 || size == 4 || size == 8
}

/// What reading a target address of `size` bytes at `pos` gives.
///
/// The size is judged first: an unsupported size is reported even where the
/// section is too short.
pub open spec fn spec_read_address(s: Seq<u8>, pos: int, size: u8, endian: RunTimeEndian) -> Result<
    u64,
    Error,
> {
    if !supported_address_size(size) {
        Err(Error::UnsupportedAddressSize(size))
    } else if !in_bounds(s, pos, size as int) {
        Err(Error::UnexpectedEof)
    } else if size == 1 {
        Ok(s[pos] as u64)
    } else if size == 2 {
        Ok(spec_u16(s, pos, endian) as u64)
    } else if size == 4 {
        Ok(spec_u32(s, pos, endian) as u64)
    } else {
        Ok(spec_u64(s, pos, endian) as u64)
    }
}

/// What reading an offset of the given format at `pos` gives.
///
/// An 8-byte offset that no machine word can hold is `UnsupportedOffset`.
pub open spec fn spec_read_offset(s: Seq<u8>, pos: int, format: Format, endian: RunTimeEndian) -> Result<
    usize,
    Error,
> {
    if !in_bounds(s, pos, format.spec_word_size()) {
        Err(Error::UnexpectedEof)
    } else if format == Format::Dwarf32 {
        Ok(spec_u32(s, pos, endian) as usize)
    } else if spec_u64(s, pos, endian) > usize::MAX {
        Err(Error::UnsupportedOffset)
    } else {
        Ok(spec_u64(s, pos, endian) as usize)
    }
}

/// The position of the first zero byte of `s` at or after `from`, or the
/// length of `s` where there is none.
pub open spec fn find_null(s: Seq<u8>, from: int) -> int
    decreases s.len() - from,
{
    if from < 0 || from >= s.len() {
        s.len() as int
    } else if s[from] == 0 {
        from
    } else {
        find_null(s, from + 1)
    }
}

/// What reading a null-terminated run of bytes at `pos` gives: the bytes
/// before the first zero byte at or after `pos`. Without such a byte the read
/// fails.
pub open spec fn spec_read_null_terminated(s: Seq<u8>, pos: int) -> Result<Seq<u8>, Error> {
    if find_null(s, pos) < s.len() {
        Ok(s.subrange(pos, find_null(s, pos)))
    } else {
        Err(Error::UnexpectedEof)
    }
}

/// The position of entry `index`, of `width` bytes each, in a table that
/// starts at `base`.
pub open spec fn spec_entry_position(base: int, index: int, width: int) -> int {
    base + index * width
}

/// Computes the position of entry `index` in a table that starts at `base`
/// and has entries of `width` bytes, or `None` where no machine word holds it.
pub fn entry_position(base: usize, index: usize, width: u8) -> (r: Option<usize>)
    ensures
        match r {
            Some(pos) => pos == spec_entry_position(base as int, index as int, width as int),
            None => spec_entry_position(base as int, index as int, width as int) > usize::MAX,
        },
{
    match index.checked_mul(width as usize) {
        Some(scaled) => base.checked_add(scaled),
        None => None,
    }
}

/// What entry `index` of the offset table at `base` holds: the offset stored
/// `index` words behind `base`.
pub open spec fn spec_offset_entry(
    s: Seq<u8>,
    endian: RunTimeEndian,
    format: Format,
    base: int,
    index: int,
) -> Result<usize, Error> {
    spec_read_offset(s, spec_entry_position(base, index, format.spec_word_size()), format, endian)
}

/// The integers of one, two, four and eight bytes stay within their types.
pub proof fn lemma_uint_bounds(s: Seq<u8>, pos: int, endian: RunTimeEndian)
    ensures
        0 <= spec_u16(s, pos, endian) <= u16::MAX,
        0 <= spec_u32(s, pos, endian) <= u32::MAX,
        0 <= spec_u64(s, pos, endian) <= u64::MAX,
{
    assert(0 <= spec_u16(s, pos, endian) <= 0xffff);
    assert(0 <= spec_u16(s, pos + 2, endian) <= 0xffff);
    assert(0 <= spec_u16(s, pos + 4, endian) <= 0xffff);
    assert(0 <= spec_u16(s, pos + 6, endian) <= 0xffff);
    assert(0 <= spec_u32(s, pos, endian) <= 0xffff_ffff);
    assert(0 <= spec_u32(s, pos + 4, endian) <= 0xffff_ffff);
}

/// A run of bytes together with the byte order in which integers are read
/// from it.
///
/// The run is borrowed: reading never copies it, and a value cut from it
/// (a string, an expression) borrows the same bytes.
#[derive(Debug, Clone, Copy, PartialEq, Eq)]
pub struct EndianSlice<'a> {
    /// The bytes.
    pub slice: &'a [u8],
    /// The byte order of the integers among them.
    pub endian: RunTimeEndian,
}

impl<'a> View for EndianSlice<'a> {
    type V = Seq<u8>;

    open spec fn view(&self) -> Seq<u8> {
        self.slice@
    }
}

impl<'a> Default for EndianSlice<'a> {
    /// No bytes, least significant byte first.
    fn default() -> (r: Self)
        ensures
            r.spec_is_default(),
    {
        EndianSlice { slice: &[], endian: RunTimeEndian::Little }
    }
}

impl<'a> EndianSlice<'a> {
    /// Whether this is what `default` gives: no bytes, least significant
    /// byte first.
    pub open spec fn spec_is_default(self) -> bool {
        self@.len() == 0 && self.endian == RunTimeEndian::Little
    }

    /// Pairs a run of bytes with a byte order.
    pub fn new(slice: &'a [u8], endian: RunTimeEndian) -> (r: Self)
        ensures
            r.slice == slice,
            r.endian == endian,
    {
        EndianSlice { slice, endian }
    }

    /// The bytes themselves.
    pub fn slice(&self) -> (r: &'a [u8])
        ensures
            r == self.slice,
    {
        self.slice
    }

    /// The byte order.
    pub fn endian(&self) -> (r: RunTimeEndian)
        ensures
            r == self.endian,
    {
        self.endian
    }

    /// The number of bytes.
    pub fn len(&self) -> (n: usize)
        ensures
            n == self@.len(),
    {
        self.slice.len()
    }

    /// Whether there are no bytes.
    pub fn is_empty(&self) -> (b: bool)
        ensures
            b == (self@.len() == 0),
    {
        self.slice.len() == 0
    }

    /// No run of bytes is longer than a machine word can count.
    pub proof fn lemma_len_fits(self)
        ensures
            self@.len() <= usize::MAX,
    {
        broadcast use vstd::slice::axiom_spec_len;

        assert(vstd::slice::spec_slice_len(self.slice) == self.slice@.len());
    }

    /// The bytes from `from` up to, not including, `to`.
    pub fn range(&self, from: usize, to: usize) -> (r: EndianSlice<'a>)
        requires
            from <= to <= self@.len(),
        ensures
            r@ == self@.subrange(from as int, to as int),
            r.endian == self.endian,
    {
        EndianSlice { slice: slice_subrange(self.slice, from, to), endian: self.endian }
    }

    /// Whether `n` bytes can be read at `pos`.
    pub fn has(&self, pos: usize, n: usize) -> (b: bool)
        ensures
            b == in_bounds(self@, pos as int, n as int),
            self@.len() <= usize::MAX,
    {
        pos <= self.slice.len() && n <= self.slice.len() - pos
    }

    /// Reads the byte at `pos`.
    pub fn read_u8(&self, pos: usize) -> (r: Result<u8, Error>)
        ensures
            r == spec_read_u8(self@, pos as int),
    {
        if !self.has(pos, 1) {
            return Err(Error::UnexpectedEof);
        }
        Ok(self.slice[pos])
    }

    /// Reads the two-byte integer at `pos`.
    pub fn read_u16(&self, pos: usize) -> (r: Result<u16, Error>)
        ensures
            r == spec_read_u16(self@, pos as int, self.endian),
    {
        if !self.has(pos, 2) {
            return Err(Error::UnexpectedEof);
        }
        let b0: u16 = self.slice[pos] as u16;
        let b1: u16 = self.slice[pos + 1] as u16;
        match self.endian {
            RunTimeEndian::Little => Ok(b0 + 256 * b1),
            RunTimeEndian::Big => Ok(256 * b0 + b1),
        }
    }

    /// Reads the three-byte integer at `pos`.
    pub fn read_u24(&self, pos: usize) -> (r: Result<u32, Error>)
        ensures
            r == spec_read_u24(self@, pos as int, self.endian),
    {
        if !self.has(pos, 3) {
            return Err(Error::UnexpectedEof);
        }
        let b0: u32 = self.slice[pos] as u32;
        let b1: u32 = self.slice[pos + 1] as u32;
        let b2: u32 = self.slice[pos + 2] as u32;
        match self.endian {
            RunTimeEndian::Little => Ok(b0 + 256 * b1 + 0x1_0000 * b2),
            RunTimeEndian::Big => Ok(0x1_0000 * b0 + 256 * b1 + b2),
        }
    }

    /// Reads the four-byte integer at `pos`.
    pub fn read_u32(&self, pos: usize) -> (r: Result<u32, Error>)
        ensures
            r == spec_read_u32(self@, pos as int, self.endian),
    {
        if !self.has(pos, 4) {
            return Err(Error::UnexpectedEof);
        }
        let b0: u32 = self.slice[pos] as u32;
        let b1: u32 = self.slice[pos + 1] as u32;
        let b2: u32 = self.slice[pos + 2] as u32;
        let b3: u32 = self.slice[pos + 3] as u32;
        match self.endian {
            RunTimeEndian::Little => Ok((b0 + 256 * b1) + 0x1_0000 * (b2 + 256 * b3)),
            RunTimeEndian::Big => Ok(0x1_0000 * (256 * b0 + b1) + (256 * b2 + b3)),
        }
    }

    /// Reads the eight-byte integer at `pos`.
    pub fn read_u64(&self, pos: usize) -> (r: Result<u64, Error>)
        ensures
            r == spec_read_u64(self@, pos as int, self.endian),
    {
        if !self.has(pos, 8) {
            return Err(Error::UnexpectedEof);
        }
        let lo: u32 = match self.read_u32(pos) {
            Ok(v) => v,
            Err(e) => { return Err(e); },
        };
        let hi: u32 = match self.read_u32(pos + 4) {
            Ok(v) => v,
            Err(e) => { return Err(e); },
        };
        proof {
            lemma_uint_bounds(self@, pos as int, self.endian);
            lemma_uint_bounds(self@, pos + 4, self.endian);
        }
        match self.endian {
            RunTimeEndian::Little => Ok(lo as u64 + 0x1_0000_0000 * (hi as u64)),
            RunTimeEndian::Big => Ok(0x1_0000_0000 * (lo as u64) + hi as u64),
        }
    }

    /// Reads a target address of `size` bytes at `pos`.
    pub fn read_address(&self, pos: usize, size: u8) -> (r: Result<u64, Error>)
        ensures
            r == spec_read_address(self@, pos as int, size, self.endian),
    {
        proof {
            lemma_uint_bounds(self@, pos as int, self.endian);
        }
        if size == 1 {
            match self.read_u8(pos) {
                Ok(v) => Ok(v as u64),
                Err(e) => Err(e),
            }
        } else if size == 2 {
            match self.read_u16(pos) {
                Ok(v) => Ok(v as u64),
                Err(e) => Err(e),
            }
        } else if size == 4 {
            match self.read_u32(pos) {
                Ok(v) => Ok(v as u64),
                Err(e) => Err(e),
            }
        } else if size == 8 {
            self.read_u64(pos)
        } else {
            Err(Error::UnsupportedAddressSize(size))
        }
    }

    /// Reads the null-terminated run of bytes at `pos`, without its zero byte.
    pub fn read_null_terminated(&self, pos: usize) -> (r: Result<EndianSlice<'a>, Error>)
        ensures
            match r {
                Ok(run) => spec_read_null_terminated(self@, pos as int) == Ok::<Seq<u8>, Error>(
                    run@,
                ) && run.endian == self.endian,
                Err(e) => spec_read_null_terminated(self@, pos as int) == Err::<Seq<u8>, Error>(e),
            },
    {
        let len: usize = self.slice.len();
        if pos >= len {
            return Err(Error::UnexpectedEof);
        }
        let mut p: usize = pos;
        while p < len && self.slice[p] != 0
            invariant
                len == self@.len(),
                pos <= p <= len,
                find_null(self@, pos as int) == find_null(self@, p as int),
            decreases len - p,
        {
            p = p + 1;
        }
        if p >= len {
            return Err(Error::UnexpectedEof);
        }
        Ok(self.range(pos, p))
    }

    /// Reads entry `index` of the offset table that starts at `base`.
    pub fn read_offset_entry(&self, format: Format, base: usize, index: usize) -> (r: Result<
        usize,
        Error,
    >)
        ensures
            r == spec_offset_entry(self@, self.endian, format, base as int, index as int),
    {
        proof {
            self.lemma_len_fits();
        }
        match entry_position(base, index, format.word_size()) {
            Some(pos) => self.read_offset(pos, format),
            None => Err(Error::UnexpectedEof),
        }
    }

    /// Reads an offset of the given format at `pos`.
    pub fn read_offset(&self, pos: usize, format: Format) -> (r: Result<usize, Error>)
        ensures
            r == spec_read_offset(self@, pos as int, format, self.endian),
    {
        proof {
            lemma_uint_bounds(self@, pos as int, self.endian);
        }
        match format {
            Format::Dwarf32 => match self.read_u32(pos) {
                Ok(v) => Ok(v as usize),
                Err(e) => Err(e),
            },
            Format::Dwarf64 => match self.read_u64(pos) {
                Ok(v) => if v > usize::MAX as u64 {
                    Err(Error::UnsupportedOffset)
                } else {
                    Ok(v as usize)
                },
                Err(e) => Err(e),
            },
        }
    }
}

} // verus!
