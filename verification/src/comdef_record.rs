//! A whole COMDEF record (0xB0), read on its own: the communal variables it
//! declares.
use vstd::prelude::*;

use crate::checksum::{checksum_for, checksum_of_sum, sum8, wrapping_sum};
use crate::omf::{le16, le24, le32, read_index, spec_read_index};
use crate::types::{ComdefEntry, ComdefEntryContent, ComdefError, ComdefKind, ComdefRecord};

verus! {

/// Where reading from `pos` on runs past the end of `len` bytes.
pub open spec fn eof_pos(len: int, pos: int) -> int {
    if pos < len {
        len
    } else {
        pos
    }
}

/// The communal length field at `pos`: a byte up to 0x80 stands for itself;
/// 0x81, 0x84 and 0x88 introduce a little-endian value of 2, 3 and 4 bytes.
/// The value and the position after the field.
pub open spec fn spec_communal_length(buf: Seq<u8>, pos: int) -> Result<(u32, int), ComdefError> {
    if pos < 0 || pos >= buf.len() {
        Err(ComdefError::UnexpectedEof(pos as usize))
    } else {
        let lead = buf[pos];
        let n: int = if lead <= 0x80 {
            0
        } else if lead == 0x81 {
            2
        } else if lead == 0x84 {
            3
        } else if lead == 0x88 {
            4
        } else {
            -1
        };
        if n < 0 {
            Err(ComdefError::InvalidLengthPrefix(lead))
        } else if pos + 1 + n > buf.len() {
            Err(ComdefError::UnexpectedEof(buf.len() as usize))
        } else {
            let v = if n == 0 {
                lead as int
            } else if n == 2 {
                le16(buf[pos + 1], buf[pos + 2])
            } else if n == 3 {
                le24(buf[pos + 1], buf[pos + 2], buf[pos + 3])
            } else {
                le32(buf[pos + 1], buf[pos + 2], buf[pos + 3], buf[pos + 4])
            };
            Ok((v as u32, pos + 1 + n))
        }
    }
}

/// The placement and size of an entry whose data type byte is `dt`, with
/// its length fields at `pos`: the kind and the position after it.
pub open spec fn spec_comdef_kind(buf: Seq<u8>, pos: int, dt: u8) -> Result<(ComdefKind, int), ComdefError> {
    if 0x01 <= dt && dt <= 0x5F {
        Ok((ComdefKind::BorlandSegment { index: dt }, pos))
    } else if dt == 0x61 {
        match spec_communal_length(buf, pos) {
            Err(e) => Err(e),
            Ok((count, p)) => match spec_communal_length(buf, p) {
                Err(e) => Err(e),
                Ok((element_size, p2)) => Ok((ComdefKind::Far { count, element_size }, p2)),
            },
        }
    } else if dt == 0x62 {
        match spec_communal_length(buf, pos) {
            Err(e) => Err(e),
            Ok((size, p)) => Ok((ComdefKind::Near { size }, p)),
        }
    } else {
        Err(ComdefError::UnknownDataType(dt))
    }
}

/// The entry at `pos` in a record whose entries end at `data_end`: the entry
/// and the position after it.
pub open spec fn spec_comdef_entry(buf: Seq<u8>, pos: int, data_end: int) -> Result<
    (ComdefEntryContent, int),
    ComdefError,
> {
    if pos < 0 || pos >= buf.len() {
        Err(ComdefError::UnexpectedEof(pos as usize))
    } else {
        let name_len = buf[pos] as int;
        let p = pos + 1;
        if p + name_len > data_end {
            Err(ComdefError::UnexpectedEof(p as usize))
        } else {
            let name = buf.subrange(p, p + name_len);
            let p = p + name_len;
            match spec_read_index(buf, p) {
                None => Err(ComdefError::UnexpectedEof(eof_pos(buf.len() as int, p) as usize)),
                Some((type_index, c)) => {
                    let p = p + c;
                    if p >= buf.len() {
                        Err(ComdefError::UnexpectedEof(p as usize))
                    } else {
                        match spec_comdef_kind(buf, p + 1, buf[p]) {
                            Err(e) => Err(e),
                            Ok((communal, end)) => Ok(
                                (ComdefEntryContent { name, type_index, communal }, end),
                            ),
                        }
                    }
                },
            }
        }
    }
}

/// An entry takes at least three bytes.
pub proof fn lemma_comdef_entry_advances(buf: Seq<u8>, pos: int, data_end: int)
    ensures
        spec_comdef_entry(buf, pos, data_end) matches Ok((_, end)) ==> pos < end <= buf.len(),
{
}

/// The entries from `pos` up to `data_end`, after the entries `acc`.
pub open spec fn spec_comdef_entries_from(
    buf: Seq<u8>,
    pos: int,
    data_end: int,
    acc: Seq<ComdefEntryContent>,
) -> Result<Seq<ComdefEntryContent>, ComdefError>
    decreases buf.len() - pos,
{
    if pos >= data_end {
        Ok(acc)
    } else {
        match spec_comdef_entry(buf, pos, data_end) {
            Err(e) => Err(e),
            Ok((entry, end)) => {
                proof {
                    lemma_comdef_entry_advances(buf, pos, data_end);
                }
                spec_comdef_entries_from(buf, end, data_end, acc.push(entry))
            },
        }
    }
}

/// A whole COMDEF record, from its type byte to its checksum byte: the
/// entries it declares. A record whose checksum byte is not zero must sum
/// to zero.
pub open spec fn spec_comdef_record(input: Seq<u8>) -> Result<Seq<ComdefEntryContent>, ComdefError> {
    if input.len() == 0 {
        Err(ComdefError::UnexpectedEof(0))
    } else if input[0] != 0xB0 {
        Err(ComdefError::WrongRecordType { found: input[0] })
    } else if input.len() < 3 {
        Err(ComdefError::UnexpectedEof(input.len() as usize))
    } else {
        let body_end = 3 + le16(input[1], input[2]);
        if body_end > input.len() {
            Err(ComdefError::UnexpectedEof(input.len() as usize))
        } else if input.last() != 0 && sum8(input) != 0 {
            Err(
                ComdefError::ChecksumMismatch {
                    computed: checksum_for(input.drop_last()),
                    stored: input.last(),
                },
            )
        } else {
            spec_comdef_entries_from(input, 3, body_end - 1, Seq::empty())
        }
    }
}

/// The content of each entry.
pub open spec fn comdef_entries_view(entries: Seq<ComdefEntry>) -> Seq<ComdefEntryContent> {
    entries.map_values(|e: ComdefEntry| e@)
}

/// Read the byte at `*pos`.
fn comdef_read_u8(buf: &[u8], pos: &mut usize) -> (res: Result<u8, ComdefError>)
    ensures
        *old(pos) < buf@.len() ==> res == Ok::<u8, ComdefError>(buf@[*old(pos) as int])
            && *final(pos) == *old(pos) + 1,
        *old(pos) >= buf@.len() ==> res == Err::<u8, ComdefError>(
            ComdefError::UnexpectedEof(*old(pos)),
        ),
{
    if *pos < buf.len() {
        let b = buf[*pos];
        *pos = *pos + 1;
        Ok(b)
    } else {
        Err(ComdefError::UnexpectedEof(*pos))
    }
}

/// Read the index field at `*pos`.
fn comdef_parse_index(buf: &[u8], pos: &mut usize) -> (res: Result<u16, ComdefError>)
    ensures
        match spec_read_index(buf@, *old(pos) as int) {
            Some((v, c)) => res == Ok::<u16, ComdefError>(v) && *final(pos) == *old(pos) + c,
            None => res == Err::<u16, ComdefError>(
                ComdefError::UnexpectedEof(eof_pos(buf@.len() as int, *old(pos) as int) as usize),
            ),
        },
{
    match read_index(buf, *pos) {
        Some((v, c)) => {
            assert(*pos + c <= buf.len());
            *pos = *pos + c;
            Ok(v)
        },
        None => {
            if *pos < buf.len() {
                Err(ComdefError::UnexpectedEof(buf.len()))
            } else {
                Err(ComdefError::UnexpectedEof(*pos))
            }
        },
    }
}

/// Read the communal length field at `*pos` (see `spec_communal_length`).
fn comdef_parse_communal_length(buf: &[u8], pos: &mut usize) -> (res: Result<u32, ComdefError>)
    ensures
        match spec_communal_length(buf@, *old(pos) as int) {
            Ok((v, end)) => res == Ok::<u32, ComdefError>(v) && *final(pos) == end,
            Err(e) => res == Err::<u32, ComdefError>(e),
        },
{
    let lead = match comdef_read_u8(buf, pos) {
        Err(e) => {
            return Err(e);
        },
        Ok(b) => b,
    };
    let p = *pos;
    if lead <= 0x80 {
        Ok(lead as u32)
    } else if lead == 0x81 {
        if buf.len() - p < 2 {
            return Err(ComdefError::UnexpectedEof(buf.len()));
        }
        *pos = p + 2;
        Ok(buf[p] as u32 + 256 * buf[p + 1] as u32)
    } else if lead == 0x84 {
        if buf.len() - p < 3 {
            return Err(ComdefError::UnexpectedEof(buf.len()));
        }
        *pos = p + 3;
        Ok(buf[p] as u32 + 256 * buf[p + 1] as u32 + 65536 * buf[p + 2] as u32)
    } else if lead == 0x88 {
        if buf.len() - p < 4 {
            return Err(ComdefError::UnexpectedEof(buf.len()));
        }
        *pos = p + 4;
        Ok(
            buf[p] as u32 + 256 * buf[p + 1] as u32 + 65536 * buf[p + 2] as u32 + 16777216 * buf[p
                + 3] as u32,
        )
    } else {
        Err(ComdefError::InvalidLengthPrefix(lead))
    }
}

/// Read the entry at `pos` (see `spec_comdef_entry`).
fn comdef_parse_entry(buf: &[u8], pos: usize, data_end: usize) -> (res: Result<(ComdefEntry, usize), ComdefError>)
    requires
        data_end <= buf@.len(),
    ensures
        match spec_comdef_entry(buf@, pos as int, data_end as int) {
            Ok((e, end)) => res matches Ok((r, rend)) && r@ == e && rend == end,
            Err(e) => res == Err::<(ComdefEntry, usize), ComdefError>(e),
        },
{
    let mut p = pos;
    let name_len = match comdef_read_u8(buf, &mut p) {
        Err(e) => {
            return Err(e);
        },
        Ok(b) => b as usize,
    };
    if p > data_end || data_end - p < name_len {
        return Err(ComdefError::UnexpectedEof(p));
    }
    let name = vstd::slice::slice_to_vec(vstd::slice::slice_subrange(buf, p, p + name_len));
    p = p + name_len;
    let type_index = match comdef_parse_index(buf, &mut p) {
        Err(e) => {
            return Err(e);
        },
        Ok(v) => v,
    };
    let data_type = match comdef_read_u8(buf, &mut p) {
        Err(e) => {
            return Err(e);
        },
        Ok(b) => b,
    };
    let communal = if 0x01 <= data_type && data_type <= 0x5F {
        ComdefKind::BorlandSegment { index: data_type }
    } else if data_type == 0x61 {
        let count = match comdef_parse_communal_length(buf, &mut p) {
            Err(e) => {
                return Err(e);
            },
            Ok(v) => v,
        };
        let element_size = match comdef_parse_communal_length(buf, &mut p) {
            Err(e) => {
                return Err(e);
            },
            Ok(v) => v,
        };
        ComdefKind::Far { count, element_size }
    } else if data_type == 0x62 {
        let size = match comdef_parse_communal_length(buf, &mut p) {
            Err(e) => {
                return Err(e);
            },
            Ok(v) => v,
        };
        ComdefKind::Near { size }
    } else {
        return Err(ComdefError::UnknownDataType(data_type));
    };
    Ok((ComdefEntry { name, type_index, communal }, p))
}

/// Parse a complete COMDEF record (see `spec_comdef_record`).
///
/// `input` must begin with the 0xB0 type byte and include all bytes
/// through (and including) the trailing checksum.
pub fn parse_comdef_record(input: &[u8]) -> (res: Result<ComdefRecord, ComdefError>)
    ensures
        match spec_comdef_record(input@) {
            Ok(es) => res matches Ok(r) && comdef_entries_view(r.entries@) == es,
            Err(e) => res matches Err(re) && re == e,
        },
{
    let mut pos: usize = 0;
    let record_type = match comdef_read_u8(input, &mut pos) {
        Err(e) => {
            return Err(e);
        },
        Ok(b) => b,
    };
    if record_type != 0xB0 {
        return Err(ComdefError::WrongRecordType { found: record_type });
    }
    if input.len() < 3 {
        return Err(ComdefError::UnexpectedEof(input.len()));
    }
    let record_length = input[1] as usize + 256 * input[2] as usize;
    pos = 3;
    if input.len() - 3 < record_length {
        return Err(ComdefError::UnexpectedEof(input.len()));
    }
    let body_end = 3 + record_length;
    let stored = input[input.len() - 1];
    if stored != 0 {
        let sum = wrapping_sum(input);
        if sum != 0 {
            let head = vstd::slice::slice_subrange(input, 0, input.len() - 1);
            let computed = checksum_of_sum(wrapping_sum(head));
            assert(head@ =~= input@.drop_last());
            return Err(ComdefError::ChecksumMismatch { computed, stored });
        }
    }
    let data_end = body_end - 1;
    let mut entries: Vec<ComdefEntry> = Vec::new();
    let ghost whole = spec_comdef_entries_from(input@, 3, data_end as int, Seq::empty());
    assert(whole == spec_comdef_record(input@));
    assert(comdef_entries_view(entries@) =~= Seq::empty());
    while pos < data_end
        invariant
            data_end < input@.len(),
            pos <= input@.len(),
            whole == spec_comdef_record(input@),
            spec_comdef_entries_from(input@, pos as int, data_end as int, comdef_entries_view(entries@))
                == whole,
        decreases input@.len() - pos,
    {
        proof {
            lemma_comdef_entry_advances(input@, pos as int, data_end as int);
        }
        let (entry, end) = match comdef_parse_entry(input, pos, data_end) {
            Err(e) => {
                return Err(e);
            },
            Ok(x) => x,
        };
        let ghost before = entries@;
        entries.push(entry);
        assert(comdef_entries_view(entries@) =~= comdef_entries_view(before).push(entry@));
        pos = end;
    }
    Ok(ComdefRecord { entries })
}

} // verus!
