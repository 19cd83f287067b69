use vstd::prelude::*;

verus! {

/// The name of an attribute: a `DW_AT_*` code.
#[derive(Debug, Clone, Copy, PartialEq, Eq, Structural)]
pub struct DwAt(pub u16);

/// The form of an attribute: a `DW_FORM_*` code.
#[derive(Debug, Clone, Copy, PartialEq, Eq, Structural)]
pub struct DwForm(pub u16);

/// The tag of a debugging information entry: a `DW_TAG_*` code.
#[derive(Debug, Clone, Copy, PartialEq, Eq, Structural)]
pub struct DwTag(pub u16);

pub const DW_AT_LOCATION: u16 = 0x02;

pub const DW_AT_NAME: u16 = 0x03;

pub const DW_AT_STMT_LIST: u16 = 0x10;

pub const DW_AT_LOW_PC: u16 = 0x11;

pub const DW_AT_STRING_LENGTH: u16 = 0x19;

pub const DW_AT_COMP_DIR: u16 = 0x1b;

pub const DW_AT_RETURN_ADDR: u16 = 0x2a;

pub const DW_AT_DATA_MEMBER_LOCATION: u16 = 0x38;

pub const DW_AT_FRAME_BASE: u16 = 0x40;

pub const DW_AT_SEGMENT: u16 = 0x46;

pub const DW_AT_STATIC_LINK: u16 = 0x48;

pub const DW_AT_USE_LOCATION: u16 = 0x4a;

pub const DW_AT_VTABLE_ELEM_LOCATION: u16 = 0x4d;

pub const DW_AT_RANGES: u16 = 0x55;

pub const DW_AT_STR_OFFSETS_BASE: u16 = 0x72;

pub const DW_AT_ADDR_BASE: u16 = 0x73;

pub const DW_AT_RNGLISTS_BASE: u16 = 0x74;

pub const DW_AT_LOCLISTS_BASE: u16 = 0x8c;

pub const DW_FORM_ADDR: u16 = 0x01;

pub const DW_FORM_BLOCK2: u16 = 0x03;

pub const DW_FORM_BLOCK4: u16 = 0x04;

pub const DW_FORM_DATA2: u16 = 0x05;

pub const DW_FORM_DATA4: u16 = 0x06;

pub const DW_FORM_DATA8: u16 = 0x07;

pub const DW_FORM_STRING: u16 = 0x08;

pub const DW_FORM_BLOCK: u16 = 0x09;

pub const DW_FORM_BLOCK1: u16 = 0x0a;

pub const DW_FORM_DATA1: u16 = 0x0b;

pub const DW_FORM_FLAG: u16 = 0x0c;

pub const DW_FORM_SDATA: u16 = 0x0d;

pub const DW_FORM_STRP: u16 = 0x0e;

pub const DW_FORM_UDATA: u16 = 0x0f;

pub const DW_FORM_REF_ADDR: u16 = 0x10;

pub const DW_FORM_REF1: u16 = 0x11;

pub const DW_FORM_REF2: u16 = 0x12;

pub const DW_FORM_REF4: u16 = 0x13;

pub const DW_FORM_REF8: u16 = 0x14;

pub const DW_FORM_REF_UDATA: u16 = 0x15;

pub const DW_FORM_INDIRECT: u16 = 0x16;

pub const DW_FORM_SEC_OFFSET: u16 = 0x17;

pub const DW_FORM_EXPRLOC: u16 = 0x18;

pub const DW_FORM_FLAG_PRESENT: u16 = 0x19;

pub const DW_FORM_STRX: u16 = 0x1a;

pub const DW_FORM_ADDRX: u16 = 0x1b;

pub const DW_FORM_REF_SUP4: u16 = 0x1c;

pub const DW_FORM_STRP_SUP: u16 = 0x1d;

pub const DW_FORM_DATA16: u16 = 0x1e;

pub const DW_FORM_LINE_STRP: u16 = 0x1f;

pub const DW_FORM_REF_SIG8: u16 = 0x20;

pub const DW_FORM_IMPLICIT_CONST: u16 = 0x21;

pub const DW_FORM_LOCLISTX: u16 = 0x22;

pub const DW_FORM_RNGLISTX: u16 = 0x23;

pub const DW_FORM_REF_SUP8: u16 = 0x24;

pub const DW_FORM_STRX1: u16 = 0x25;

pub const DW_FORM_STRX2: u16 = 0x26;

pub const DW_FORM_STRX3: u16 = 0x27;

pub const DW_FORM_STRX4: u16 = 0x28;

pub const DW_FORM_ADDRX1: u16 = 0x29;

pub const DW_FORM_ADDRX2: u16 = 0x2a;

pub const DW_FORM_ADDRX3: u16 = 0x2b;

pub const DW_FORM_ADDRX4: u16 = 0x2c;

pub const DW_FORM_GNU_ADDR_INDEX: u16 = 0x1f01;

pub const DW_FORM_GNU_STR_INDEX: u16 = 0x1f02;

pub const DW_FORM_GNU_REF_ALT: u16 = 0x1f20;

pub const DW_FORM_GNU_STRP_ALT: u16 = 0x1f21;

pub const DW_UT_COMPILE: u8 = 0x01;

pub const DW_UT_TYPE: u8 = 0x02;

pub const DW_UT_PARTIAL: u8 = 0x03;

pub const DW_UT_SKELETON: u8 = 0x04;

pub const DW_UT_SPLIT_COMPILE: u8 = 0x05;

pub const DW_UT_SPLIT_TYPE: u8 = 0x06;

pub const DW_RLE_END_OF_LIST: u8 = 0x00;

pub const DW_RLE_BASE_ADDRESSX: u8 = 0x01;

pub const DW_RLE_STARTX_ENDX: u8 = 0x02;

pub const DW_RLE_STARTX_LENGTH: u8 = 0x03;

pub const DW_RLE_OFFSET_PAIR: u8 = 0x04;

pub const DW_RLE_BASE_ADDRESS: u8 = 0x05;

pub const DW_RLE_START_END: u8 = 0x06;

pub const DW_RLE_START_LENGTH: u8 = 0x07;

pub const DW_LLE_END_OF_LIST: u8 = 0x00;

pub const DW_LLE_BASE_ADDRESSX: u8 = 0x01;

pub const DW_LLE_STARTX_ENDX: u8 = 0x02;

pub const DW_LLE_STARTX_LENGTH: u8 = 0x03;

pub const DW_LLE_OFFSET_PAIR: u8 = 0x04;

pub const DW_LLE_DEFAULT_LOCATION: u8 = 0x05;

pub const DW_LLE_BASE_ADDRESS: u8 = 0x06;

pub const DW_LLE_START_END: u8 = 0x07;

pub const DW_LLE_START_LENGTH: u8 = 0x08;

} // verus!
