//! A whole COMDAT record (0xC2 / 0xC3), read on its own.
use vstd::prelude::*;

use crate::checksum::{checksum_for, checksum_of_sum, sum8, wrapping_sum};
use crate::comdef_record::eof_pos;
use crate::omf::{le16, le32, read_index, spec_read_index};
use crate::types::{
    AllocationType, CombatAlign, CombatAttributes, CombatError, CombatFlags, CombatKind,
    CombatRecord, CombatRecordView, PublicBase, PublicName, PublicNameContent, PublicNameEncoding,
    SegmentBase, SelectionCriteria, spec_allocation_from_nibble, spec_combat_align,
    spec_selection_from_nibble,
};

verus! {

/// The little-endian field of `n` bytes (2 or 4) at `pos`, and the position
/// after it.
pub open spec fn spec_comdat_uint(buf: Seq<u8>, pos: int, n: int) -> Result<(u32, int), CombatError> {
    if pos < 0 || pos + n > buf.len() {
        Err(CombatError::UnexpectedEof(eof_pos(buf.len() as int, pos) as usize))
    } else if n == 2 {
        Ok((le16(buf[pos], buf[pos + 1]) as u32, pos + 2))
    } else {
        Ok((le32(buf[pos], buf[pos + 1], buf[pos + 2], buf[pos + 3]) as u32, pos + 4))
    }
}

/// The index field at `pos`, and the position after it.
pub open spec fn spec_comdat_index(buf: Seq<u8>, pos: int) -> Result<(u16, int), CombatError> {
    match spec_read_index(buf, pos) {
        None => Err(CombatError::UnexpectedEof(eof_pos(buf.len() as int, pos) as usize)),
        Some((v, c)) => Ok((v, pos + c)),
    }
}

/// The Public Base field at `pos`: a group index, a segment index and, when
/// the segment index is 0, a frame number.
pub open spec fn spec_comdat_base(buf: Seq<u8>, pos: int) -> Result<(PublicBase, int), CombatError> {
    match spec_comdat_index(buf, pos) {
        Err(e) => Err(e),
        Ok((group_index, p)) => match spec_comdat_index(buf, p) {
            Err(e) => Err(e),
            Ok((segment_index, p)) => if segment_index == 0 {
                match spec_comdat_uint(buf, p, 2) {
                    Err(e) => Err(e),
                    Ok((frame, p)) => Ok(
                        (
                            PublicBase {
                                group_index,
                                segment: SegmentBase::Absolute { frame: frame as u16 },
                            },
                            p,
                        ),
                    ),
                }
            } else {
                Ok((PublicBase { group_index, segment: SegmentBase::Segment(segment_index) }, p))
            },
        },
    }
}

/// The Public Name field at `pos`, in a record ending at `record_end`: an
/// index, or a length-prefixed string that must end within the record.
pub open spec fn spec_comdat_name(buf: Seq<u8>, pos: int, record_end: int, enc: PublicNameEncoding) -> Result<
    (PublicNameContent, int),
    CombatError,
> {
    match enc {
        PublicNameEncoding::MicrosoftIndex => match spec_comdat_index(buf, pos) {
            Err(e) => Err(e),
            Ok((i, p)) => Ok((PublicNameContent::Index(i), p)),
        },
        PublicNameEncoding::IbmString => if pos < 0 || pos >= buf.len() {
            Err(CombatError::UnexpectedEof(pos as usize))
        } else {
            let len = buf[pos] as int;
            let p = pos + 1;
            if p + len > record_end {
                Err(CombatError::UnexpectedEof(p as usize))
            } else {
                Ok((PublicNameContent::Name(buf.subrange(p, p + len)), p + len))
            }
        },
    }
}

/// The fields after the record header (at offset 3): flags, attributes,
/// alignment, data offset, type index, Public Base, Public Name and data.
/// `None` where the reader aborts: the fields run past the record's
/// checksum byte, so that the data would have to end before it starts.
pub open spec fn spec_comdat_fields(
    input: Seq<u8>,
    kind: CombatKind,
    record_end: int,
    enc: PublicNameEncoding,
) -> Option<Result<CombatRecordView, CombatError>> {
    if input.len() < 5 {
        Some(Err(CombatError::UnexpectedEof(input.len() as usize)))
    } else {
        let flags = CombatFlags(input[3] & 0x0F);
        let attr = input[4];
        let sel = (attr >> 4u8) & 0x0F;
        let alloc = attr & 0x0F;
        match spec_selection_from_nibble(sel) {
            None => Some(Err(CombatError::ReservedSelectionCriteria(sel))),
            Some(selection) => match spec_allocation_from_nibble(alloc) {
                None => Some(Err(CombatError::ReservedAllocationType(alloc))),
                Some(allocation) => if input.len() < 6 {
                    Some(Err(CombatError::UnexpectedEof(input.len() as usize)))
                } else {
                    let align = spec_combat_align(input[5]);
                    let w: int = if kind is Comdat16 {
                        2
                    } else {
                        4
                    };
                    match spec_comdat_uint(input, 6, w) {
                        Err(e) => Some(Err(e)),
                        Ok((data_offset, p)) => match spec_comdat_index(input, p) {
                            Err(e) => Some(Err(e)),
                            Ok((type_index, p)) => {
                                let base: Result<(Option<PublicBase>, int), CombatError> =
                                    if allocation is Explicit {
                                    match spec_comdat_base(input, p) {
                                        Err(e) => Err(e),
                                        Ok((b, p)) => Ok((Some(b), p)),
                                    }
                                } else {
                                    Ok((None, p))
                                };
                                match base {
                                    Err(e) => Some(Err(e)),
                                    Ok((public_base, p)) => match spec_comdat_name(
                                        input,
                                        p,
                                        record_end,
                                        enc,
                                    ) {
                                        Err(e) => Some(Err(e)),
                                        Ok((public_name, p)) => {
                                            let data_end = record_end - 1;
                                            let data_len = if p <= data_end {
                                                data_end - p
                                            } else {
                                                0
                                            };
                                            if data_len > 1024 {
                                                Some(Err(CombatError::DataTooLong(data_len as usize)))
                                            } else if p > data_end {
                                                None
                                            } else {
                                                Some(
                                                    Ok(
                                                        CombatRecordView {
                                                            kind,
                                                            flags,
                                                            attributes: CombatAttributes {
                                                                selection,
                                                                allocation,
                                                            },
                                                            align,
                                                            data_offset,
                                                            type_index,
                                                            public_base,
                                                            public_name,
                                                            data: input.subrange(p, data_end),
                                                            relocs: Seq::empty(),
                                                        },
                                                    ),
                                                )
                                            }
                                        },
                                    },
                                }
                            },
                        },
                    }
                },
            },
        }
    }
}

/// A whole COMDAT or COMDAT32 record, from its type byte to its checksum
/// byte, with public names read as `enc` says. A record whose checksum byte
/// is not zero must sum to zero. `None` where the reader aborts (see
/// `spec_comdat_fields`).
pub open spec fn spec_comdat(input: Seq<u8>, enc: PublicNameEncoding) -> Option<
    Result<CombatRecordView, CombatError>,
> {
    if input.len() == 0 {
        Some(Err(CombatError::UnexpectedEof(0)))
    } else if input[0] != 0xC2 && input[0] != 0xC3 {
        Some(Err(CombatError::WrongRecordType { found: input[0] }))
    } else if input.len() < 3 {
        Some(Err(CombatError::UnexpectedEof(input.len() as usize)))
    } else {
        let kind = if input[0] == 0xC2 {
            CombatKind::Comdat16
        } else {
            CombatKind::Comdat32
        };
        let record_end = 3 + le16(input[1], input[2]);
        if record_end > input.len() {
            Some(Err(CombatError::UnexpectedEof(input.len() as usize)))
        } else if input.last() != 0 && sum8(input) != 0 {
            Some(
                Err(
                    CombatError::ChecksumMismatch {
                        computed: checksum_for(input.drop_last()),
                        stored: input.last(),
                    },
                ),
            )
        } else {
            spec_comdat_fields(input, kind, record_end, enc)
        }
    }
}

/// Read the byte at `*pos`.
fn comdat_read_u8(buf: &[u8], pos: &mut usize) -> (res: Result<u8, CombatError>)
    ensures
        *old(pos) < buf@.len() ==> res == Ok::<u8, CombatError>(buf@[*old(pos) as int])
            && *final(pos) == *old(pos) + 1,
        *old(pos) >= buf@.len() ==> res == Err::<u8, CombatError>(
            CombatError::UnexpectedEof(*old(pos)),
        ),
{
    if *pos < buf.len() {
        let b = buf[*pos];
        *pos = *pos + 1;
        Ok(b)
    } else {
        Err(CombatError::UnexpectedEof(*pos))
    }
}

/// Read the little-endian `u16` at `*pos`.
fn comdat_read_u16_le(buf: &[u8], pos: &mut usize) -> (res: Result<u16, CombatError>)
    ensures
        match spec_comdat_uint(buf@, *old(pos) as int, 2) {
            Ok((v, end)) => res == Ok::<u16, CombatError>(v as u16) && *final(pos) == end,
            Err(e) => res == Err::<u16, CombatError>(e),
        },
{
    if *pos > buf.len() || buf.len() - *pos < 2 {
        if *pos < buf.len() {
            return Err(CombatError::UnexpectedEof(buf.len()));
        } else {
            return Err(CombatError::UnexpectedEof(*pos));
        }
    }
    let p = *pos;
    *pos = p + 2;
    Ok(buf[p] as u16 + 256 * buf[p + 1] as u16)
}

/// Read the little-endian `u32` at `*pos`.
fn comdat_read_u32_le(buf: &[u8], pos: &mut usize) -> (res: Result<u32, CombatError>)
    ensures
        match spec_comdat_uint(buf@, *old(pos) as int, 4) {
            Ok((v, end)) => res == Ok::<u32, CombatError>(v) && *final(pos) == end,
            Err(e) => res == Err::<u32, CombatError>(e),
        },
{
    if *pos > buf.len() || buf.len() - *pos < 4 {
        if *pos < buf.len() {
            return Err(CombatError::UnexpectedEof(buf.len()));
        } else {
            return Err(CombatError::UnexpectedEof(*pos));
        }
    }
    let p = *pos;
    *pos = p + 4;
    Ok(
        buf[p] as u32 + 256 * buf[p + 1] as u32 + 65536 * buf[p + 2] as u32 + 16777216 * buf[p
            + 3] as u32,
    )
}

/// Read the index field at `*pos`.
fn comdat_parse_index(buf: &[u8], pos: &mut usize) -> (res: Result<u16, CombatError>)
    ensures
        match spec_comdat_index(buf@, *old(pos) as int) {
            Ok((v, end)) => res == Ok::<u16, CombatError>(v) && *final(pos) == end,
            Err(e) => res == Err::<u16, CombatError>(e),
        },
{
    match read_index(buf, *pos) {
        Some((v, c)) => {
            assert(*pos + c <= buf.len());
            *pos = *pos + c;
            Ok(v)
        },
        None => {
            if *pos < buf.len() {
                Err(CombatError::UnexpectedEof(buf.len()))
            } else {
                Err(CombatError::UnexpectedEof(*pos))
            }
        },
    }
}

/// Read the Public Base field at `*pos` (see `spec_comdat_base`).
fn comdat_parse_base(buf: &[u8], pos: &mut usize) -> (res: Result<PublicBase, CombatError>)
    ensures
        match spec_comdat_base(buf@, *old(pos) as int) {
            Ok((b, end)) => res == Ok::<PublicBase, CombatError>(b) && *final(pos) == end,
            Err(e) => res == Err::<PublicBase, CombatError>(e),
        },
{
    let group_index = match comdat_parse_index(buf, pos) {
        Err(e) => {
            return Err(e);
        },
        Ok(v) => v,
    };
    let segment_index = match comdat_parse_index(buf, pos) {
        Err(e) => {
            return Err(e);
        },
        Ok(v) => v,
    };
    let segment = if segment_index == 0 {
        let frame = match comdat_read_u16_le(buf, pos) {
            Err(e) => {
                return Err(e);
            },
            Ok(v) => v,
        };
        SegmentBase::Absolute { frame }
    } else {
        SegmentBase::Segment(segment_index)
    };
    Ok(PublicBase { group_index, segment })
}

/// Read the Public Name field at `*pos` (see `spec_comdat_name`).
fn comdat_parse_name(buf: &[u8], pos: &mut usize, record_end: usize, enc: PublicNameEncoding) -> (res:
    Result<PublicName, CombatError>)
    requires
        record_end <= buf@.len(),
    ensures
        match spec_comdat_name(buf@, *old(pos) as int, record_end as int, enc) {
            Ok((n, end)) => res matches Ok(r) && r@ == n && *final(pos) == end,
            Err(e) => res == Err::<PublicName, CombatError>(e),
        },
{
    match enc {
        PublicNameEncoding::MicrosoftIndex => match comdat_parse_index(buf, pos) {
            Err(e) => Err(e),
            Ok(i) => Ok(PublicName::Index(i)),
        },
        PublicNameEncoding::IbmString => {
            let len = match comdat_read_u8(buf, pos) {
                Err(e) => {
                    return Err(e);
                },
                Ok(b) => b as usize,
            };
            let p = *pos;
            if p > record_end || record_end - p < len {
                return Err(CombatError::UnexpectedEof(p));
            }
            let name = vstd::slice::slice_to_vec(vstd::slice::slice_subrange(buf, p, p + len));
            *pos = p + len;
            Ok(PublicName::Name(name))
        },
    }
}

/// Whether `parse_comdat` can read `input` to the end: it fails, or its
/// fields end no later than the record's checksum byte.
pub fn comdat_data_in_bounds(input: &[u8], name_encoding: PublicNameEncoding) -> (b: bool)
    ensures
        b == spec_comdat(input@, name_encoding) is Some,
{
    match read_comdat(input, name_encoding) {
        ComdatRead::Aborts => false,
        _ => true,
    }
}

/// What reading a COMDAT record comes to: a record, an error, or a record
/// whose data would end before it starts.
pub(crate) enum ComdatRead {
    Record(CombatRecord),
    Error(CombatError),
    Aborts,
}

/// Read a COMDAT record, telling apart the records on which `parse_comdat`
/// would abort.
pub(crate) fn read_comdat(input: &[u8], name_encoding: PublicNameEncoding) -> (res: ComdatRead)
    ensures
        match spec_comdat(input@, name_encoding) {
            None => res is Aborts,
            Some(Ok(r)) => res matches ComdatRead::Record(rec) && rec@ == r,
            Some(Err(e)) => res == ComdatRead::Error(e),
        },
{
    let mut pos: usize = 0;
    let first = match comdat_read_u8(input, &mut pos) {
        Err(e) => {
            return ComdatRead::Error(e);
        },
        Ok(b) => b,
    };
    let kind = if first == 0xC2 {
        CombatKind::Comdat16
    } else if first == 0xC3 {
        CombatKind::Comdat32
    } else {
        return ComdatRead::Error(CombatError::WrongRecordType { found: first });
    };
    let record_length = match comdat_read_u16_le(input, &mut pos) {
        Err(e) => {
            return ComdatRead::Error(e);
        },
        Ok(v) => v as usize,
    };
    if input.len() - 3 < record_length {
        return ComdatRead::Error(CombatError::UnexpectedEof(input.len()));
    }
    let record_end = 3 + record_length;
    let stored = input[input.len() - 1];
    if stored != 0 {
        let sum = wrapping_sum(input);
        if sum != 0 {
            let head = vstd::slice::slice_subrange(input, 0, input.len() - 1);
            let computed = checksum_of_sum(wrapping_sum(head));
            assert(head@ =~= input@.drop_last());
            return ComdatRead::Error(CombatError::ChecksumMismatch { computed, stored });
        }
    }
    let flags_byte = match comdat_read_u8(input, &mut pos) {
        Err(e) => {
            return ComdatRead::Error(e);
        },
        Ok(b) => b,
    };
    let flags = CombatFlags::from_bits_truncate(flags_byte);
    let attr_byte = match comdat_read_u8(input, &mut pos) {
        Err(e) => {
            return ComdatRead::Error(e);
        },
        Ok(b) => b,
    };
    let sel_nibble = (attr_byte >> 4u8) & 0x0F;
    let alloc_nibble = attr_byte & 0x0F;
    let selection = match SelectionCriteria::from_nibble(sel_nibble) {
        None => {
            return ComdatRead::Error(CombatError::ReservedSelectionCriteria(sel_nibble));
        },
        Some(s) => s,
    };
    let allocation = match AllocationType::from_nibble(alloc_nibble) {
        None => {
            return ComdatRead::Error(CombatError::ReservedAllocationType(alloc_nibble));
        },
        Some(a) => a,
    };
    let attributes = CombatAttributes { selection, allocation };
    let align_byte = match comdat_read_u8(input, &mut pos) {
        Err(e) => {
            return ComdatRead::Error(e);
        },
        Ok(b) => b,
    };
    let align = CombatAlign::from_u8(align_byte);
    let data_offset: u32 = match kind {
        CombatKind::Comdat16 => match comdat_read_u16_le(input, &mut pos) {
            Err(e) => {
                return ComdatRead::Error(e);
            },
            Ok(v) => v as u32,
        },
        CombatKind::Comdat32 => match comdat_read_u32_le(input, &mut pos) {
            Err(e) => {
                return ComdatRead::Error(e);
            },
            Ok(v) => v,
        },
    };
    let type_index = match comdat_parse_index(input, &mut pos) {
        Err(e) => {
            return ComdatRead::Error(e);
        },
        Ok(v) => v,
    };
    let public_base = if allocation.has_public_base() {
        match comdat_parse_base(input, &mut pos) {
            Err(e) => {
                return ComdatRead::Error(e);
            },
            Ok(b) => Some(b),
        }
    } else {
        None
    };
    let public_name = match comdat_parse_name(input, &mut pos, record_end, name_encoding) {
        Err(e) => {
            return ComdatRead::Error(e);
        },
        Ok(n) => n,
    };
    let data_end = record_end - 1;
    let data_len = if pos <= data_end {
        data_end - pos
    } else {
        0
    };
    if data_len > 1024 {
        return ComdatRead::Error(CombatError::DataTooLong(data_len));
    }
    if pos > data_end {
        return ComdatRead::Aborts;
    }
    let data = vstd::slice::slice_to_vec(vstd::slice::slice_subrange(input, pos, data_end));
    ComdatRead::Record(
        CombatRecord {
            kind,
            flags,
            attributes,
            align,
            data_offset,
            type_index,
            public_base,
            public_name,
            data,
            relocs: Vec::new(),
        },
    )
}

/// Parse a COMDAT or COMDAT32 record from a raw byte slice (see
/// `spec_comdat`).
///
/// `input` must begin with the 0xC2 or 0xC3 type byte and include all
/// bytes through (and including) the trailing checksum byte.
pub fn parse_comdat(input: &[u8], name_encoding: PublicNameEncoding) -> (res: Result<CombatRecord, CombatError>)
    requires
        spec_comdat(input@, name_encoding) is Some,
    ensures
        match spec_comdat(input@, name_encoding) {
            Some(Ok(r)) => res matches Ok(rec) && rec@ == r,
            Some(Err(e)) => res matches Err(re) && re == e,
            None => false,
        },
{
    match read_comdat(input, name_encoding) {
        ComdatRead::Record(r) => Ok(r),
        ComdatRead::Error(e) => Err(e),
        ComdatRead::Aborts => Err(CombatError::UnexpectedEof(input.len())),
    }
}

} // verus!
