//! A whole PUBDEF record (0x90 / 0x91), read on its own: the public names
//! it defines, as strings.
use vstd::prelude::*;

use crate::checksum::{checksum_for, checksum_of_sum, sum8, wrapping_sum};
use crate::comdef_record::eof_pos;
use crate::omf::{le16, le32, read_index, spec_read_index};
use crate::types::{
    PubdefBase, PubdefEntry, PubdefEntryContent, PubdefError, PubdefKind, PubdefRecord,
    PubdefRecordContent,
};

verus! {

/// `String::from_utf8`: the string that the bytes encode when they are
/// valid UTF-8, `None` when they are not. The contract claims what the
/// standard library documents: the conversion fails exactly on bytes that
/// are not UTF-8, and otherwise keeps their characters.
#[verifier::external_body]
fn string_from_utf8(bytes: Vec<u8>) -> (res: Option<String>)
    ensures
        res is Some <==> vstd::utf8::valid_utf8(bytes@),
        res matches Some(s) ==> s@ == vstd::utf8::decode_utf8(bytes@),
{
    String::from_utf8(bytes).ok()
}

/// The little-endian field of `n` bytes (2 or 4) at `pos`, and the position
/// after it.
pub open spec fn spec_pubdef_uint(buf: Seq<u8>, pos: int, n: int) -> Result<(u32, int), PubdefError> {
    if pos < 0 || pos + n > buf.len() {
        Err(PubdefError::UnexpectedEof(eof_pos(buf.len() as int, pos) as usize))
    } else if n == 2 {
        Ok((le16(buf[pos], buf[pos + 1]) as u32, pos + 2))
    } else {
        Ok((le32(buf[pos], buf[pos + 1], buf[pos + 2], buf[pos + 3]) as u32, pos + 4))
    }
}

/// The index field at `pos`, and the position after it.
pub open spec fn spec_pubdef_index(buf: Seq<u8>, pos: int) -> Result<(u16, int), PubdefError> {
    match spec_read_index(buf, pos) {
        None => Err(PubdefError::UnexpectedEof(eof_pos(buf.len() as int, pos) as usize)),
        Some((v, c)) => Ok((v, pos + c)),
    }
}

/// The base fields at `pos`: a group index, a segment index and, when the
/// segment index is 0, a frame number.
pub open spec fn spec_pubdef_base(buf: Seq<u8>, pos: int) -> Result<(PubdefBase, int), PubdefError> {
    match spec_pubdef_index(buf, pos) {
        Err(e) => Err(e),
        Ok((group_index, p)) => match spec_pubdef_index(buf, p) {
            Err(e) => Err(e),
            Ok((segment_index, p)) => if segment_index == 0 {
                match spec_pubdef_uint(buf, p, 2) {
                    Err(e) => Err(e),
                    Ok((frame, p)) => Ok((PubdefBase::Frame { group_index, frame: frame as u16 }, p)),
                }
            } else {
                Ok((PubdefBase::Segment { group_index, segment_index }, p))
            },
        },
    }
}

/// The length-prefixed name at `pos`: its characters and the position after
/// it. The name must not be empty and must be valid UTF-8.
pub open spec fn spec_pubdef_name(buf: Seq<u8>, pos: int) -> Result<(Seq<char>, int), PubdefError> {
    if pos < 0 || pos >= buf.len() {
        Err(PubdefError::UnexpectedEof(pos as usize))
    } else {
        let len = buf[pos] as int;
        let p = pos + 1;
        if len == 0 {
            Err(PubdefError::EmptyName(pos as usize))
        } else if p + len > buf.len() {
            Err(PubdefError::UnexpectedEof(p as usize))
        } else {
            let bytes = buf.subrange(p, p + len);
            if !vstd::utf8::valid_utf8(bytes) {
                Err(PubdefError::InvalidName)
            } else {
                Ok((vstd::utf8::decode_utf8(bytes), p + len))
            }
        }
    }
}

/// The entry at `pos`: name, offset (2 or 4 bytes as `kind` says) and type
/// index, and the position after it.
pub open spec fn spec_pubdef_entry(buf: Seq<u8>, pos: int, kind: PubdefKind) -> Result<
    (PubdefEntryContent, int),
    PubdefError,
> {
    match spec_pubdef_name(buf, pos) {
        Err(e) => Err(e),
        Ok((name, p)) => match spec_pubdef_uint(
            buf,
            p,
            if kind is Pubdef16 {
                2
            } else {
                4
            },
        ) {
            Err(e) => Err(e),
            Ok((offset, p)) => match spec_pubdef_index(buf, p) {
                Err(e) => Err(e),
                Ok((type_index, p)) => Ok((PubdefEntryContent { name, offset, type_index }, p)),
            },
        },
    }
}

/// An entry takes at least five bytes.
pub proof fn lemma_pubdef_entry_advances(buf: Seq<u8>, pos: int, kind: PubdefKind)
    ensures
        spec_pubdef_entry(buf, pos, kind) matches Ok((_, end)) ==> pos < end <= buf.len(),
{
}

/// The entries from `pos` up to `data_end`, after the entries `acc`.
pub open spec fn spec_pubdef_entries_from(
    buf: Seq<u8>,
    pos: int,
    data_end: int,
    kind: PubdefKind,
    acc: Seq<PubdefEntryContent>,
) -> Result<Seq<PubdefEntryContent>, PubdefError>
    decreases buf.len() - pos,
{
    if pos >= data_end {
        Ok(acc)
    } else {
        match spec_pubdef_entry(buf, pos, kind) {
            Err(e) => Err(e),
            Ok((entry, end)) => {
                proof {
                    lemma_pubdef_entry_advances(buf, pos, kind);
                }
                spec_pubdef_entries_from(buf, end, data_end, kind, acc.push(entry))
            },
        }
    }
}

/// A whole PUBDEF or PUBDEF32 record, from its type byte to its checksum
/// byte: its kind, base and entries. The record, up to the end its length
/// field gives, must sum to zero unless its checksum byte is zero.
pub open spec fn spec_pubdef_record(input: Seq<u8>) -> Result<PubdefRecordContent, PubdefError> {
    if input.len() == 0 {
        Err(PubdefError::UnexpectedEof(0))
    } else if input[0] != 0x90 && input[0] != 0x91 {
        Err(PubdefError::WrongRecordType { found: input[0] })
    } else if input.len() < 3 {
        Err(PubdefError::UnexpectedEof(input.len() as usize))
    } else {
        let kind = if input[0] == 0x90 {
            PubdefKind::Pubdef16
        } else {
            PubdefKind::Pubdef32
        };
        let record_end = 3 + le16(input[1], input[2]);
        let record = input.subrange(0, record_end);
        if record_end > input.len() {
            Err(PubdefError::UnexpectedEof(input.len() as usize))
        } else if record.last() != 0 && sum8(record) != 0 {
            Err(
                PubdefError::ChecksumMismatch {
                    computed: checksum_for(record.drop_last()),
                    stored: record.last(),
                },
            )
        } else {
            match spec_pubdef_base(input, 3) {
                Err(e) => Err(e),
                Ok((base, p)) => match spec_pubdef_entries_from(
                    input,
                    p,
                    record_end - 1,
                    kind,
                    Seq::empty(),
                ) {
                    Err(e) => Err(e),
                    Ok(entries) => Ok(PubdefRecordContent { kind, base, entries }),
                },
            }
        }
    }
}

/// Read the byte at `*pos`.
fn pubdef_read_u8(buf: &[u8], pos: &mut usize) -> (res: Result<u8, PubdefError>)
    ensures
        *old(pos) < buf@.len() ==> res == Ok::<u8, PubdefError>(buf@[*old(pos) as int])
            && *final(pos) == *old(pos) + 1,
        *old(pos) >= buf@.len() ==> res == Err::<u8, PubdefError>(
            PubdefError::UnexpectedEof(*old(pos)),
        ),
{
    if *pos < buf.len() {
        let b = buf[*pos];
        *pos = *pos + 1;
        Ok(b)
    } else {
        Err(PubdefError::UnexpectedEof(*pos))
    }
}

/// Read the little-endian `u16` at `*pos`.
fn pubdef_read_u16_le(buf: &[u8], pos: &mut usize) -> (res: Result<u16, PubdefError>)
    ensures
        match spec_pubdef_uint(buf@, *old(pos) as int, 2) {
            Ok((v, end)) => res == Ok::<u16, PubdefError>(v as u16) && *final(pos) == end,
            Err(e) => res == Err::<u16, PubdefError>(e),
        },
{
    if *pos > buf.len() || buf.len() - *pos < 2 {
        if *pos < buf.len() {
            return Err(PubdefError::UnexpectedEof(buf.len()));
        } else {
            return Err(PubdefError::UnexpectedEof(*pos));
        }
    }
    let p = *pos;
    *pos = p + 2;
    Ok(buf[p] as u16 + 256 * buf[p + 1] as u16)
}

/// Read the little-endian `u32` at `*pos`.
fn pubdef_read_u32_le(buf: &[u8], pos: &mut usize) -> (res: Result<u32, PubdefError>)
    ensures
        match spec_pubdef_uint(buf@, *old(pos) as int, 4) {
            Ok((v, end)) => res == Ok::<u32, PubdefError>(v) && *final(pos) == end,
            Err(e) => res == Err::<u32, PubdefError>(e),
        },
{
    if *pos > buf.len() || buf.len() - *pos < 4 {
        if *pos < buf.len() {
            return Err(PubdefError::UnexpectedEof(buf.len()));
        } else {
            return Err(PubdefError::UnexpectedEof(*pos));
        }
    }
    let p = *pos;
    *pos = p + 4;
    Ok(
        buf[p] as u32 + 256 * buf[p + 1] as u32 + 65536 * buf[p + 2] as u32 + 16777216 * buf[p
            + 3] as u32,
    )
}

/// Read the index field at `*pos`.
fn pubdef_parse_index(buf: &[u8], pos: &mut usize) -> (res: Result<u16, PubdefError>)
    ensures
        match spec_pubdef_index(buf@, *old(pos) as int) {
            Ok((v, end)) => res == Ok::<u16, PubdefError>(v) && *final(pos) == end,
            Err(e) => res == Err::<u16, PubdefError>(e),
        },
{
    match read_index(buf, *pos) {
        Some((v, c)) => {
            assert(*pos + c <= buf.len());
            *pos = *pos + c;
            Ok(v)
        },
        None => {
            if *pos < buf.len() {
                Err(PubdefError::UnexpectedEof(buf.len()))
            } else {
                Err(PubdefError::UnexpectedEof(*pos))
            }
        },
    }
}

/// Read the base fields at `*pos` (see `spec_pubdef_base`).
fn pubdef_parse_base(buf: &[u8], pos: &mut usize) -> (res: Result<PubdefBase, PubdefError>)
    ensures
        match spec_pubdef_base(buf@, *old(pos) as int) {
            Ok((b, end)) => res == Ok::<PubdefBase, PubdefError>(b) && *final(pos) == end,
            Err(e) => res == Err::<PubdefBase, PubdefError>(e),
        },
{
    let group_index = match pubdef_parse_index(buf, pos) {
        Err(e) => {
            return Err(e);
        },
        Ok(v) => v,
    };
    let segment_index = match pubdef_parse_index(buf, pos) {
        Err(e) => {
            return Err(e);
        },
        Ok(v) => v,
    };
    if segment_index == 0 {
        let frame = match pubdef_read_u16_le(buf, pos) {
            Err(e) => {
                return Err(e);
            },
            Ok(v) => v,
        };
        Ok(PubdefBase::Frame { group_index, frame })
    } else {
        Ok(PubdefBase::Segment { group_index, segment_index })
    }
}

/// Read the name at `*pos` (see `spec_pubdef_name`).
fn pubdef_parse_name(buf: &[u8], pos: &mut usize) -> (res: Result<String, PubdefError>)
    ensures
        match spec_pubdef_name(buf@, *old(pos) as int) {
            Ok((n, end)) => res matches Ok(s) && s@ == n && *final(pos) == end,
            Err(e) => res matches Err(re) && re == e,
        },
{
    let name_start = *pos;
    let len = match pubdef_read_u8(buf, pos) {
        Err(e) => {
            return Err(e);
        },
        Ok(b) => b as usize,
    };
    if len == 0 {
        return Err(PubdefError::EmptyName(name_start));
    }
    let p = *pos;
    if buf.len() - p < len {
        return Err(PubdefError::UnexpectedEof(p));
    }
    let bytes = vstd::slice::slice_to_vec(vstd::slice::slice_subrange(buf, p, p + len));
    match string_from_utf8(bytes) {
        None => Err(PubdefError::InvalidName),
        Some(name) => {
            *pos = p + len;
            Ok(name)
        },
    }
}

/// Read the entry at `*pos` (see `spec_pubdef_entry`).
fn pubdef_parse_entry(buf: &[u8], pos: &mut usize, kind: PubdefKind) -> (res: Result<PubdefEntry, PubdefError>)
    ensures
        match spec_pubdef_entry(buf@, *old(pos) as int, kind) {
            Ok((e, end)) => res matches Ok(r) && r@ == e && *final(pos) == end,
            Err(e) => res matches Err(re) && re == e,
        },
{
    let name = match pubdef_parse_name(buf, pos) {
        Err(e) => {
            return Err(e);
        },
        Ok(n) => n,
    };
    let offset = match pubdef_parse_offset(buf, pos, kind) {
        Err(e) => {
            return Err(e);
        },
        Ok(v) => v,
    };
    let type_index = match pubdef_parse_index(buf, pos) {
        Err(e) => {
            return Err(e);
        },
        Ok(v) => v,
    };
    Ok(PubdefEntry { name, offset, type_index })
}

/// Read the offset at `*pos`: two bytes for PUBDEF, four for PUBDEF32.
fn pubdef_parse_offset(buf: &[u8], pos: &mut usize, kind: PubdefKind) -> (res: Result<u32, PubdefError>)
    ensures
        match spec_pubdef_uint(
            buf@,
            *old(pos) as int,
            if kind is Pubdef16 {
                2
            } else {
                4
            },
        ) {
            Ok((v, end)) => res == Ok::<u32, PubdefError>(v) && *final(pos) == end,
            Err(e) => res == Err::<u32, PubdefError>(e),
        },
{
    match kind {
        PubdefKind::Pubdef16 => match pubdef_read_u16_le(buf, pos) {
            Err(e) => Err(e),
            Ok(v) => Ok(v as u32),
        },
        PubdefKind::Pubdef32 => pubdef_read_u32_le(buf, pos),
    }
}

/// Check the checksum of a whole record: accepted when its checksum byte is
/// zero or all its bytes sum to zero modulo 256.
fn pubdef_verify_checksum(record_bytes: &[u8]) -> (res: Result<(), PubdefError>)
    ensures
        record_bytes@.len() == 0 ==> res == Err::<(), PubdefError>(PubdefError::UnexpectedEof(0)),
        record_bytes@.len() > 0 ==> (res is Ok <==> (record_bytes@.last() == 0 || sum8(
            record_bytes@,
        ) == 0)),
        record_bytes@.len() > 0 && res is Err ==> res == Err::<(), PubdefError>(
            PubdefError::ChecksumMismatch {
                computed: checksum_for(record_bytes@.drop_last()),
                stored: record_bytes@.last(),
            },
        ),
{
    if record_bytes.len() == 0 {
        return Err(PubdefError::UnexpectedEof(0));
    }
    let stored = record_bytes[record_bytes.len() - 1];
    if stored == 0 {
        return Ok(());
    }
    let sum = wrapping_sum(record_bytes);
    if sum != 0 {
        let head = vstd::slice::slice_subrange(record_bytes, 0, record_bytes.len() - 1);
        let computed = checksum_of_sum(wrapping_sum(head));
        assert(head@ =~= record_bytes@.drop_last());
        return Err(PubdefError::ChecksumMismatch { computed, stored });
    }
    Ok(())
}

/// Parse a PUBDEF or PUBDEF32 record from a raw byte slice (see
/// `spec_pubdef_record`).
///
/// `input` must begin with the 0x90 or 0x91 type byte and include all
/// bytes through (and including) the trailing checksum byte.
pub fn parse_pubdef_record(input: &[u8]) -> (res: Result<PubdefRecord, PubdefError>)
    ensures
        match spec_pubdef_record(input@) {
            Ok(r) => res matches Ok(rec) && rec@ == r,
            Err(e) => res matches Err(re) && re == e,
        },
{
    let mut pos: usize = 0;
    let first = match pubdef_read_u8(input, &mut pos) {
        Err(e) => {
            return Err(e);
        },
        Ok(b) => b,
    };
    let kind = if first == 0x90 {
        PubdefKind::Pubdef16
    } else if first == 0x91 {
        PubdefKind::Pubdef32
    } else {
        return Err(PubdefError::WrongRecordType { found: first });
    };
    let record_length = match pubdef_read_u16_le(input, &mut pos) {
        Err(e) => {
            return Err(e);
        },
        Ok(v) => v as usize,
    };
    if input.len() - 3 < record_length {
        return Err(PubdefError::UnexpectedEof(input.len()));
    }
    let record_end = 3 + record_length;
    let record = vstd::slice::slice_subrange(input, 0, record_end);
    match pubdef_verify_checksum(record) {
        Err(e) => {
            return Err(e);
        },
        Ok(()) => {},
    }
    let base = match pubdef_parse_base(input, &mut pos) {
        Err(e) => {
            return Err(e);
        },
        Ok(b) => b,
    };
    let data_end = record_end - 1;
    let ghost p0 = pos as int;
    let ghost whole = spec_pubdef_entries_from(input@, p0, data_end as int, kind, Seq::empty());
    assert(record@ =~= input@.subrange(0, record_end as int));
    assert(spec_pubdef_record(input@) == match whole {
        Err(e) => Err(e),
        Ok(entries) => Ok(PubdefRecordContent { kind, base, entries }),
    });
    let mut entries: Vec<PubdefEntry> = Vec::new();
    assert(entries@.map_values(|e: PubdefEntry| e@) =~= Seq::empty());
    while pos < data_end
        invariant
            pos <= input@.len(),
            spec_pubdef_record(input@) == match whole {
                Err(e) => Err(e),
                Ok(entries) => Ok(PubdefRecordContent { kind, base, entries }),
            },
            spec_pubdef_entries_from(
                input@,
                pos as int,
                data_end as int,
                kind,
                entries@.map_values(|e: PubdefEntry| e@),
            ) == whole,
        decreases input@.len() - pos,
    {
        proof {
            lemma_pubdef_entry_advances(input@, pos as int, kind);
        }
        let entry = match pubdef_parse_entry(input, &mut pos, kind) {
            Err(e) => {
                return Err(e);
            },
            Ok(x) => x,
        };
        let ghost before = entries@;
        entries.push(entry);
        assert(entries@.map_values(|e: PubdefEntry| e@) =~= before.map_values(|e: PubdefEntry| e@).push(
            entry@,
        ));
    }
    Ok(PubdefRecord { kind, base, entries })
}

} // verus!
