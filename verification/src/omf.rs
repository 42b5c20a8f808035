//! Constants for the Intel/Microsoft OMF object file format, and the decoders
//! of the field encodings shared by its records.
//!
//! Reference: MS-DOS Encyclopedia, Article 19: Object Modules.
use vstd::prelude::*;

verus! {

// ── Record type identifiers ───────────────────────────────────────────────

/// THEADR: Translator Header Record.
pub const RT_THEADR: u8 = 0x80;
/// COMENT: Comment Record.
pub const RT_COMENT: u8 = 0x88;
/// MODEND: Module End Record.
pub const RT_MODEND: u8 = 0x8A;
/// MODEND32: 32-bit Module End Record (target displacement is 32-bit).
pub const RT_MODEND32: u8 = 0x8B;
/// EXTDEF: External Names Definition Record.
pub const RT_EXTDEF: u8 = 0x8C;
/// LEXTDEF: Local External Names Definition Record.
pub const RT_LOCAL_EXTDEF: u8 = 0xB4;
/// TYPDEF: Type Definition Record.
pub const RT_TYPDEF: u8 = 0x8E;
/// PUBDEF: Public Names Definition Record.
pub const RT_PUBDEF: u8 = 0x90;
/// PUBDEF32: 32-bit Public Names Definition Record.
pub const RT_PUBDEF32: u8 = 0x91;
/// LPUBDEF: Local Public Names Definition Record.
pub const RT_LOCAL_PUBDEF: u8 = 0xB6;
/// LPUBDEF32: 32-bit Local Public Names Definition Record.
pub const RT_LOCAL_PUBDEF32: u8 = 0xB7;
/// LINNUM: Line Number Record.
pub const RT_LINNUM: u8 = 0x94;
/// LNAMES: List of Names Record.
pub const RT_LNAMES: u8 = 0x96;
/// SEGDEF: Segment Definition Record.
pub const RT_SEGDEF: u8 = 0x98;
/// SEGDEF32: 32-bit Segment Definition Record.
pub const RT_SEGDEF32: u8 = 0x99;
/// GRPDEF: Group Definition Record.
pub const RT_GRPDEF: u8 = 0x9A;
/// FIXUPP: Fixup Record.
pub const RT_FIXUPP: u8 = 0x9C;
/// FIXUPP32: 32-bit Fixup Record.
pub const RT_FIXUPP32: u8 = 0x9D;
/// LEDATA: Logical Enumerated Data Record.
pub const RT_LEDATA: u8 = 0xA0;
/// LEDATA32: 32-bit enumerated data offset.
pub const RT_LEDATA32: u8 = 0xA1;
/// LIDATA: Logical Iterated Data Record.
pub const RT_LIDATA: u8 = 0xA2;
/// COMDEF: Communal Names Definition Record.
pub const RT_COMDEF: u8 = 0xB0;
/// COMDAT: Initialized Communal Data Record.
pub const RT_COMDAT: u8 = 0xC2;
/// COMDAT32: 32-bit Initialized Communal Data Record.
pub const RT_COMDAT32: u8 = 0xC3;

// ── SEGDEF ACBP byte ──────────────────────────────────────────────────────
//
// Bit layout:
//   [7:5] A  = Alignment
//   [4:2] C  = Combine type
//   [1]   B  = Big (exactly 64 KB; segment_length field will be 0)
//   [0]   P  = Page-resident (unused in MS-DOS, always 0)

/// ACBP A-field mask (alignment).
pub const ACBP_A_MASK: u8 = 0b1110_0000;
/// ACBP A-field shift.
pub const ACBP_A_SHIFT: u8 = 5;
/// ACBP C-field mask (combine type).
pub const ACBP_C_MASK: u8 = 0b0001_1100;
/// ACBP C-field shift.
pub const ACBP_C_SHIFT: u8 = 2;
/// ACBP B-bit mask (big/64KB).
pub const ACBP_B_MASK: u8 = 0b0000_0010;

/// A-field values (alignment): absolute segment.
pub const ALIGN_ABSOLUTE: u8 = 0;
/// A-field values (alignment): byte aligned.
pub const ALIGN_BYTE: u8 = 1;
/// A-field values (alignment): word aligned.
pub const ALIGN_WORD: u8 = 2;
/// A-field values (alignment): paragraph aligned (16 bytes).
pub const ALIGN_PARA: u8 = 3;
/// A-field values (alignment): page aligned (256 bytes).
pub const ALIGN_PAGE: u8 = 4;
/// A-field values (alignment): dword aligned (4 bytes).
pub const ALIGN_DWORD: u8 = 5;

/// C-field values (combine type): cannot be combined.
pub const COMBINE_PRIVATE: u8 = 0;
/// C-field values (combine type): concatenate.
pub const COMBINE_PUBLIC: u8 = 2;
/// C-field values (combine type): concatenate for stack.
pub const COMBINE_STACK: u8 = 5;
/// C-field values (combine type): overlap (common).
pub const COMBINE_COMMON: u8 = 6;

// ── FIXUPP locat field ────────────────────────────────────────────────────
//
// The 2-byte locat field stores its most significant bits in the first byte:
//   logical = (stored_byte[0] as u16) << 8 | (stored_byte[1] as u16)
//
// Logical bit layout:
//   [15]    = 1 (fixup field marker; 0 = thread field)
//   [14]    M = 1 if segment-relative, 0 if self-relative
//   [13:10] loc = location type
//   [9:0]   data record offset into the preceding LEDATA/LIDATA body

/// LOCAT fixup field marker.
pub const LOCAT_FIXUP_MARKER: u16 = 0x8000;
/// LOCAT M-bit (segment-relative).
pub const LOCAT_M_BIT: u16 = 0x4000;
/// LOCAT loc field mask.
pub const LOCAT_LOC_MASK: u16 = 0x3C00;
/// LOCAT loc field shift.
pub const LOCAT_LOC_SHIFT: u16 = 10;
/// LOCAT offset field mask.
pub const LOCAT_OFFSET_MASK: u16 = 0x03FF;

/// loc field values: single byte.
pub const LOC_BYTE: u16 = 0;
/// loc field values: 16-bit offset.
pub const LOC_OFFSET: u16 = 1;
/// loc field values: 16-bit segment value.
pub const LOC_SEGMENT: u16 = 2;
/// loc field values: 32-bit far pointer (segment:offset).
pub const LOC_POINTER: u16 = 3;
/// loc field values: high-order byte (not supported by LINK).
pub const LOC_HIGH_BYTE: u16 = 4;
/// loc field values: loader-resolved offset; treated as LOC_OFFSET.
pub const LOC_LOADER_OFFSET: u16 = 5;
/// loc field values: 32-bit offset.
pub const LOC_OFFSET32: u16 = 9;
/// loc field values: 48-bit pointer (segment:32-bit offset).
pub const LOC_POINTER48: u16 = 11;
/// loc field values: 32-bit loader-resolved offset; treated as LOC_OFFSET32.
pub const LOC_LOADER_OFFSET32: u16 = 13;

// ── FIXUPP fix_dat byte ───────────────────────────────────────────────────
//
// Bit layout:
//   [7]   F     = 1: FRAME from thread; 0: FRAME explicit in this fixup
//   [6:4] frame = FRAME method or thread number when F=1
//   [3]   T     = 1: TARGET from thread; 0: TARGET explicit
//   [2]   P     = high-order bit of the TARGET method
//   [1:0] targt = TARGET method low bits or thread number

/// FIXDAT F-bit (FRAME from thread).
pub const FIXDAT_F_BIT: u8 = 0b1000_0000;
/// FIXDAT frame field mask.
pub const FIXDAT_FRAME_MASK: u8 = 0b0111_0000;
/// FIXDAT frame field shift.
pub const FIXDAT_FRAME_SHIFT: u8 = 4;
/// FIXDAT T-bit (TARGET from thread).
pub const FIXDAT_T_BIT: u8 = 0b0000_1000;
/// FIXDAT P-bit (TARGET method bit).
pub const FIXDAT_P_BIT: u8 = 0b0000_0100;
/// FIXDAT target field mask.
pub const FIXDAT_TARGT_MASK: u8 = 0b0000_0011;

// ── COMDEF / TYPDEF data segment type bytes ───────────────────────────────

/// DST: FAR communal variable (array of elements).
pub const DST_FAR: u8 = 0x61;
/// DST: NEAR communal variable (flat size in bytes).
pub const DST_NEAR: u8 = 0x62;

// ── MODEND module_type byte ───────────────────────────────────────────────

/// MODEND: module contains main().
pub const MODEND_MAIN: u8 = 0b1000_0000;
/// MODEND: start address field present.
pub const MODEND_START: u8 = 0b0100_0000;
/// MODEND: start address is relocatable.
pub const MODEND_RELOC: u8 = 0b0000_0001;

// ── COMENT comment class values ───────────────────────────────────────────

/// CC: Translator name.
pub const CC_TRANSLATOR: u8 = 0x00;
/// CC: Copyright.
pub const CC_COPYRIGHT: u8 = 0x01;
/// CC: Default library.
pub const CC_DEFAULT_LIB: u8 = 0x9F;
/// CC: MS Extensions.
pub const CC_MS_EXTENSIONS: u8 = 0xA1;

/// MAGIC: first byte of an OMF object module (THEADR).
pub const MAGIC: u8 = RT_THEADR;

// ── Field decoders ────────────────────────────────────────────────────────

/// The value of a little-endian 16-bit field made of the bytes `lo`, `hi`.
pub open spec fn le16(lo: u8, hi: u8) -> int {
    lo as int + 256 * hi as int
}

/// The value of a little-endian 24-bit field.
pub open spec fn le24(b0: u8, b1: u8, b2: u8) -> int {
    b0 as int + 256 * b1 as int + 65536 * b2 as int
}

/// The value of a little-endian 32-bit field.
pub open spec fn le32(b0: u8, b1: u8, b2: u8, b3: u8) -> int {
    b0 as int + 256 * b1 as int + 65536 * b2 as int + 16777216 * b3 as int
}

/// The OMF index field at `offset`: one byte below 0x80 stands for itself;
/// otherwise its low seven bits are the high byte of a two-byte value whose
/// low byte follows. The result is the value and the number of bytes read,
/// or `None` when the field runs past the end of `data`.
pub open spec fn spec_read_index(data: Seq<u8>, offset: int) -> Option<(u16, int)> {
    if offset < 0 || offset >= data.len() {
        None
    } else if data[offset] < 0x80 {
        Some((data[offset] as u16, 1))
    } else if offset + 1 >= data.len() {
        None
    } else {
        Some((((data[offset] - 0x80) * 256 + data[offset + 1]) as u16, 2))
    }
}

/// Decode an OMF index field (1 or 2 bytes).
pub fn read_index(data: &[u8], offset: usize) -> (res: Option<(u16, usize)>)
    ensures
        match spec_read_index(data@, offset as int) {
            None => res is None,
            Some((v, n)) => res == Some((v, n as usize)),
        },
{
    if offset >= data.len() {
        return None;
    }
    let b0 = data[offset];
    if b0 < 0x80 {
        Some((b0 as u16, 1))
    } else {
        if offset + 1 >= data.len() {
            return None;
        }
        let b1 = data[offset + 1];
        Some((((b0 - 0x80) as u16) * 256 + b1 as u16, 2))
    }
}

/// The length-prefixed name at `offset`: its bytes and the number of bytes
/// read (the prefix included), or `None` when it runs past the end.
pub open spec fn spec_read_name(data: Seq<u8>, offset: int) -> Option<(Seq<u8>, int)> {
    if offset < 0 || offset >= data.len() {
        None
    } else if offset + 1 + data[offset] > data.len() {
        None
    } else {
        Some((data.subrange(offset + 1, offset + 1 + data[offset]), 1 + data[offset]))
    }
}

/// Decode a length-prefixed name.
pub fn read_name(data: &[u8], offset: usize) -> (res: Option<(&[u8], usize)>)
    ensures
        match spec_read_name(data@, offset as int) {
            None => res is None,
            Some((name, n)) => res matches Some((r, m)) && r@ == name && m == n,
        },
{
    if offset >= data.len() {
        return None;
    }
    let len = data[offset] as usize;
    if len > data.len() - offset - 1 {
        return None;
    }
    let end = offset + 1 + len;
    Some((vstd::slice::slice_subrange(data, offset + 1, end), 1 + len))
}

/// The variable-length size field of TYPDEF and COMDEF records at `offset`:
/// a byte up to 0x80 stands for itself; 0x81, 0x84 and 0x88 introduce a
/// little-endian value of 2, 3 and 4 bytes. Any other first byte, or a field
/// that runs past the end, gives `None`.
pub open spec fn spec_read_varlen(data: Seq<u8>, offset: int) -> Option<(u32, int)> {
    if offset < 0 || offset >= data.len() {
        None
    } else {
        let b0 = data[offset];
        if b0 <= 0x80 {
            Some((b0 as u32, 1))
        } else if b0 == 0x81 {
            if offset + 2 >= data.len() {
                None
            } else {
                Some((le16(data[offset + 1], data[offset + 2]) as u32, 3))
            }
        } else if b0 == 0x84 {
            if offset + 3 >= data.len() {
                None
            } else {
                Some((le24(data[offset + 1], data[offset + 2], data[offset + 3]) as u32, 4))
            }
        } else if b0 == 0x88 {
            if offset + 4 >= data.len() {
                None
            } else {
                Some(
                    (
                        le32(data[offset + 1], data[offset + 2], data[offset + 3], data[offset + 4])
                            as u32,
                        5,
                    ),
                )
            }
        } else {
            None
        }
    }
}

/// Decode a variable-length size field (TYPDEF/COMDEF only).
pub fn read_varlen(data: &[u8], offset: usize) -> (res: Option<(u32, usize)>)
    ensures
        match spec_read_varlen(data@, offset as int) {
            None => res is None,
            Some((v, n)) => res == Some((v, n as usize)),
        },
{
    if offset >= data.len() {
        return None;
    }
    let b0 = data[offset];
    let rest = data.len() - offset - 1;
    if b0 <= 0x80 {
        Some((b0 as u32, 1))
    } else if b0 == 0x81 {
        if rest < 2 {
            return None;
        }
        let lo = data[offset + 1] as u32;
        let hi = data[offset + 2] as u32;
        Some((lo + 256 * hi, 3))
    } else if b0 == 0x84 {
        if rest < 3 {
            return None;
        }
        let b1 = data[offset + 1] as u32;
        let b2 = data[offset + 2] as u32;
        let b3 = data[offset + 3] as u32;
        Some((b1 + 256 * b2 + 65536 * b3, 4))
    } else if b0 == 0x88 {
        if rest < 4 {
            return None;
        }
        let b1 = data[offset + 1] as u32;
        let b2 = data[offset + 2] as u32;
        let b3 = data[offset + 3] as u32;
        let b4 = data[offset + 4] as u32;
        Some((b1 + 256 * b2 + 65536 * b3 + 16777216 * b4, 5))
    } else {
        None
    }
}

} // verus!
