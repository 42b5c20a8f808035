//! An LPUBDEF record body (0xB6 / 0xB7), read on its own: the local public
//! names it defines.
use vstd::prelude::*;

use crate::omf::{le16, le32, read_index, spec_read_index};
use crate::types::{
    LocalPublicName, LocalPublicNameContent, LpubdefParseError, LpubdefRecord,
    LpubdefRecordContent, OffsetWidth, OmfIndex,
};

verus! {

/// Running out of bytes: `expected` more were needed, `remaining` were left.
pub open spec fn lp_eof(expected: int, remaining: int) -> LpubdefParseError {
    LpubdefParseError::UnexpectedEof { expected: expected as usize, remaining: remaining as usize }
}

/// The index field at `pos` of the field area `d`, and the position after it.
pub open spec fn spec_lp_index(d: Seq<u8>, pos: int) -> Result<(OmfIndex, int), LpubdefParseError> {
    match spec_read_index(d, pos) {
        Some((v, c)) => Ok((OmfIndex(v), pos + c)),
        None => if pos >= d.len() {
            Err(lp_eof(1, d.len() - pos))
        } else {
            Err(lp_eof(1, 0))
        },
    }
}

/// The little-endian field of `n` bytes (2 or 4) at `pos`, and the position
/// after it.
pub open spec fn spec_lp_uint(d: Seq<u8>, pos: int, n: int) -> Result<(u32, int), LpubdefParseError> {
    if d.len() - pos < n {
        Err(lp_eof(n, d.len() - pos))
    } else if n == 2 {
        Ok((le16(d[pos], d[pos + 1]) as u32, pos + 2))
    } else {
        Ok((le32(d[pos], d[pos + 1], d[pos + 2], d[pos + 3]) as u32, pos + 4))
    }
}

/// The width in bytes of a local offset.
pub open spec fn width_bytes(w: OffsetWidth) -> int {
    match w {
        OffsetWidth::Bit16 => 2,
        OffsetWidth::Bit32 => 4,
    }
}

/// Whether the bytes of `d` from `pos` on hold a whole name entry whose
/// length byte is at `pos`: the name, the offset and the type index (one
/// byte, or two where its first byte has the high bit set).
pub open spec fn lp_entry_fits(d: Seq<u8>, pos: int, w: OffsetWidth) -> bool {
    let t = pos + 1 + d[pos] as int + width_bytes(w);
    &&& t < d.len()
    &&& (d[t] >= 0x80 ==> t + 1 < d.len())
}

/// The name entry at `pos`: a non-empty length-prefixed name, an offset and
/// a type index; and the position after it. Bytes left over that cannot
/// hold a whole entry are refused as trailing bytes.
pub open spec fn spec_lp_name(d: Seq<u8>, pos: int, w: OffsetWidth) -> Result<
    (LocalPublicNameContent, int),
    LpubdefParseError,
> {
    if pos < 0 || pos >= d.len() {
        Err(lp_eof(1, d.len() - pos))
    } else {
        let name_len = d[pos] as int;
        let p = pos + 1;
        if name_len == 0 {
            Err(LpubdefParseError::EmptyName)
        } else if !lp_entry_fits(d, pos, w) {
            Err(LpubdefParseError::TrailingBytes { leftover: (d.len() - pos) as usize })
        } else if d.len() - p < name_len {
            Err(lp_eof(name_len, d.len() - p))
        } else {
            let name = d.subrange(p, p + name_len);
            match spec_lp_uint(d, p + name_len, width_bytes(w)) {
                Err(e) => Err(e),
                Ok((offset, p)) => match spec_lp_index(d, p) {
                    Err(e) => Err(e),
                    Ok((type_index, p)) => Ok((LocalPublicNameContent { name, offset, type_index }, p)),
                },
            }
        }
    }
}

/// A name entry takes at least five bytes.
pub proof fn lemma_lp_name_advances(d: Seq<u8>, pos: int, w: OffsetWidth)
    ensures
        spec_lp_name(d, pos, w) matches Ok((_, end)) ==> pos < end <= d.len(),
{
}

/// The name entries from `pos` to the end of `d`, after the entries `acc`.
pub open spec fn spec_lp_names_from(
    d: Seq<u8>,
    pos: int,
    w: OffsetWidth,
    acc: Seq<LocalPublicNameContent>,
) -> Result<Seq<LocalPublicNameContent>, LpubdefParseError>
    decreases d.len() - pos,
{
    if pos >= d.len() {
        Ok(acc)
    } else {
        match spec_lp_name(d, pos, w) {
            Err(e) => Err(e),
            Ok((n, end)) => {
                proof {
                    lemma_lp_name_advances(d, pos, w);
                }
                spec_lp_names_from(d, end, w, acc.push(n))
            },
        }
    }
}

/// An LPUBDEF record of type `record_type` whose body (checksum byte
/// included) is `body`: base group, base segment, base frame (present when
/// the base segment is 0), the names, and the checksum byte, which is not
/// checked.
pub open spec fn spec_lpubdef(record_type: u8, body: Seq<u8>) -> Result<
    LpubdefRecordContent,
    LpubdefParseError,
> {
    if record_type != 0xB6 && record_type != 0xB7 {
        Err(LpubdefParseError::InvalidRecordType(record_type))
    } else if body.len() == 0 {
        Err(lp_eof(1, 0))
    } else {
        let w = if record_type == 0xB6 {
            OffsetWidth::Bit16
        } else {
            OffsetWidth::Bit32
        };
        let d = body.drop_last();
        match spec_lp_index(d, 0) {
            Err(e) => Err(e),
            Ok((base_group, p)) => match spec_lp_index(d, p) {
                Err(e) => Err(e),
                Ok((base_segment, p)) => {
                    let frame: Result<(Option<u16>, int), LpubdefParseError> = if base_segment.0
                        == 0 {
                        match spec_lp_uint(d, p, 2) {
                            Err(e) => Err(e),
                            Ok((f, p)) => Ok((Some(f as u16), p)),
                        }
                    } else {
                        Ok((None, p))
                    };
                    match frame {
                        Err(e) => Err(e),
                        Ok((base_frame, p)) => match spec_lp_names_from(d, p, w, Seq::empty()) {
                            Err(e) => Err(e),
                            Ok(names) => Ok(
                                LpubdefRecordContent {
                                    offset_width: w,
                                    base_group,
                                    base_segment,
                                    base_frame,
                                    names,
                                    checksum: body.last(),
                                },
                            ),
                        },
                    }
                },
            }
        }
    }
}

/// A read position in the field area of an LPUBDEF record.
struct LpubdefCursor<'a> {
    data: &'a [u8],
    pos: usize,
}

impl<'a> LpubdefCursor<'a> {
    /// The cursor is within its data.
    spec fn wf(&self) -> bool {
        self.pos <= self.data@.len()
    }

    fn new(data: &'a [u8]) -> (c: Self)
        ensures
            c.wf(),
            c.data@ == data@,
            c.pos == 0,
    {
        LpubdefCursor { data, pos: 0 }
    }

    fn remaining(&self) -> (r: usize)
        requires
            self.wf(),
        ensures
            r == self.data@.len() - self.pos,
    {
        self.data.len() - self.pos
    }

    fn read_u8(&mut self) -> (res: Result<u8, LpubdefParseError>)
        requires
            old(self).wf(),
        ensures
            final(self).wf(),
            final(self).data@ == old(self).data@,
            old(self).pos < old(self).data@.len() ==> res == Ok::<u8, LpubdefParseError>(
                old(self).data@[old(self).pos as int],
            ) && final(self).pos == old(self).pos + 1,
            old(self).pos >= old(self).data@.len() ==> res == Err::<u8, LpubdefParseError>(
                lp_eof(1, 0),
            ),
    {
        if self.pos >= self.data.len() {
            return Err(LpubdefParseError::UnexpectedEof { expected: 1, remaining: self.remaining() });
        }
        let b = self.data[self.pos];
        self.pos = self.pos + 1;
        Ok(b)
    }

    fn expect(&self, n: usize) -> (res: Result<(), LpubdefParseError>)
        requires
            self.wf(),
        ensures
            res is Ok <==> self.data@.len() - self.pos >= n,
            res is Err ==> res == Err::<(), LpubdefParseError>(
                lp_eof(n as int, self.data@.len() - self.pos),
            ),
    {
        if self.remaining() < n {
            Err(LpubdefParseError::UnexpectedEof { expected: n, remaining: self.remaining() })
        } else {
            Ok(())
        }
    }

    fn read_u16_le(&mut self) -> (res: Result<u16, LpubdefParseError>)
        requires
            old(self).wf(),
        ensures
            final(self).wf(),
            final(self).data@ == old(self).data@,
            match spec_lp_uint(old(self).data@, old(self).pos as int, 2) {
                Ok((v, end)) => res == Ok::<u16, LpubdefParseError>(v as u16) && final(self).pos
                    == end,
                Err(e) => res == Err::<u16, LpubdefParseError>(e),
            },
    {
        match self.expect(2) {
            Err(e) => {
                return Err(e);
            },
            Ok(()) => {},
        }
        let v = self.data[self.pos] as u16 + 256 * self.data[self.pos + 1] as u16;
        self.pos = self.pos + 2;
        Ok(v)
    }

    fn read_u32_le(&mut self) -> (res: Result<u32, LpubdefParseError>)
        requires
            old(self).wf(),
        ensures
            final(self).wf(),
            final(self).data@ == old(self).data@,
            match spec_lp_uint(old(self).data@, old(self).pos as int, 4) {
                Ok((v, end)) => res == Ok::<u32, LpubdefParseError>(v) && final(self).pos == end,
                Err(e) => res == Err::<u32, LpubdefParseError>(e),
            },
    {
        match self.expect(4) {
            Err(e) => {
                return Err(e);
            },
            Ok(()) => {},
        }
        let p = self.pos;
        let v = self.data[p] as u32 + 256 * self.data[p + 1] as u32 + 65536 * self.data[p + 2] as u32
            + 16777216 * self.data[p + 3] as u32;
        self.pos = p + 4;
        Ok(v)
    }

    fn read_bytes(&mut self, n: usize) -> (res: Result<&'a [u8], LpubdefParseError>)
        requires
            old(self).wf(),
        ensures
            final(self).wf(),
            final(self).data@ == old(self).data@,
            old(self).data@.len() - old(self).pos < n ==> res == Err::<&'a [u8], LpubdefParseError>(
                lp_eof(n as int, old(self).data@.len() - old(self).pos),
            ),
            old(self).data@.len() - old(self).pos >= n ==> (res matches Ok(s) && s@
                == old(self).data@.subrange(old(self).pos as int, old(self).pos + n)
                && final(self).pos == old(self).pos + n),
    {
        match self.expect(n) {
            Err(e) => {
                return Err(e);
            },
            Ok(()) => {},
        }
        let p = self.pos;
        assert(p + n <= self.data.len());
        let s = vstd::slice::slice_subrange(self.data, p, p + n);
        self.pos = p + n;
        Ok(s)
    }

    fn read_index(&mut self) -> (res: Result<OmfIndex, LpubdefParseError>)
        requires
            old(self).wf(),
        ensures
            final(self).wf(),
            final(self).data@ == old(self).data@,
            match spec_lp_index(old(self).data@, old(self).pos as int) {
                Ok((v, end)) => res == Ok::<OmfIndex, LpubdefParseError>(v) && final(self).pos
                    == end,
                Err(e) => res == Err::<OmfIndex, LpubdefParseError>(e),
            },
    {
        match read_index(self.data, self.pos) {
            Some((v, c)) => {
                assert(self.pos + c <= self.data.len());
                self.pos = self.pos + c;
                Ok(OmfIndex(v))
            },
            None => Err(LpubdefParseError::UnexpectedEof { expected: 1, remaining: 0 }),
        }
    }
}

/// Parses an LPUBDEF record (see `spec_lpubdef`).
///
/// `record_type` is the byte that identified the record (0xB6 or 0xB7).
/// `body` is everything that followed the 2-byte Record Length field —
/// i.e. exactly `Record Length` bytes, still including the trailing
/// checksum byte.
pub fn parse_lpubdef(record_type: u8, body: &[u8]) -> (res: Result<LpubdefRecord, LpubdefParseError>)
    ensures
        match spec_lpubdef(record_type, body@) {
            Ok(r) => res matches Ok(rec) && rec@ == r,
            Err(e) => res matches Err(re) && re == e,
        },
{
    let offset_width = if record_type == 0xB6 {
        OffsetWidth::Bit16
    } else if record_type == 0xB7 {
        OffsetWidth::Bit32
    } else {
        return Err(LpubdefParseError::InvalidRecordType(record_type));
    };
    if body.len() == 0 {
        return Err(LpubdefParseError::UnexpectedEof { expected: 1, remaining: 0 });
    }
    let checksum = body[body.len() - 1];
    let fields = vstd::slice::slice_subrange(body, 0, body.len() - 1);
    assert(fields@ =~= body@.drop_last());
    let mut cur = LpubdefCursor::new(fields);
    let base_group = match cur.read_index() {
        Err(e) => {
            return Err(e);
        },
        Ok(v) => v,
    };
    let base_segment = match cur.read_index() {
        Err(e) => {
            return Err(e);
        },
        Ok(v) => v,
    };
    let base_frame = if base_segment.0 == 0 {
        match cur.read_u16_le() {
            Err(e) => {
                return Err(e);
            },
            Ok(v) => Some(v),
        }
    } else {
        None
    };
    let ghost d = fields@;
    let ghost p0 = cur.pos as int;
    let ghost whole = spec_lp_names_from(d, p0, offset_width, Seq::empty());
    assert(spec_lpubdef(record_type, body@) == match whole {
        Err(e) => Err(e),
        Ok(names) => Ok(
            LpubdefRecordContent {
                offset_width,
                base_group,
                base_segment,
                base_frame,
                names,
                checksum,
            },
        ),
    });
    let mut names: Vec<LocalPublicName> = Vec::new();
    assert(names@.map_values(|n: LocalPublicName| n@) =~= Seq::empty());
    while cur.remaining() > 0
        invariant
            cur.wf(),
            cur.data@ == d,
            spec_lpubdef(record_type, body@) == match whole {
                Err(e) => Err(e),
                Ok(names) => Ok(
                    LpubdefRecordContent {
                        offset_width,
                        base_group,
                        base_segment,
                        base_frame,
                        names,
                        checksum,
                    },
                ),
            },
            spec_lp_names_from(d, cur.pos as int, offset_width, names@.map_values(
                |n: LocalPublicName| n@,
            )) == whole,
        decreases d.len() - cur.pos,
    {
        proof {
            lemma_lp_name_advances(d, cur.pos as int, offset_width);
        }
        let name_len = match cur.read_u8() {
            Err(e) => {
                return Err(e);
            },
            Ok(b) => b as usize,
        };
        if name_len == 0 {
            return Err(LpubdefParseError::EmptyName);
        }
        let rest = cur.remaining();
        let wb: usize = match offset_width {
            OffsetWidth::Bit16 => 2,
            OffsetWidth::Bit32 => 4,
        };
        if rest < name_len + wb + 1 {
            return Err(LpubdefParseError::TrailingBytes { leftover: rest + 1 });
        }
        assert(cur.pos + rest == cur.data@.len());
        assert(rest >= name_len + wb + 1);
        assert(cur.data@.len() == cur.data.len());
        let t = cur.pos + name_len + wb;
        if cur.data[t] >= 0x80 && rest < name_len + wb + 2 {
            return Err(LpubdefParseError::TrailingBytes { leftover: rest + 1 });
        }
        let name = match cur.read_bytes(name_len) {
            Err(e) => {
                return Err(e);
            },
            Ok(s) => vstd::slice::slice_to_vec(s),
        };
        let offset = match offset_width {
            OffsetWidth::Bit16 => match cur.read_u16_le() {
                Err(e) => {
                    return Err(e);
                },
                Ok(v) => v as u32,
            },
            OffsetWidth::Bit32 => match cur.read_u32_le() {
                Err(e) => {
                    return Err(e);
                },
                Ok(v) => v,
            },
        };
        let type_index = match cur.read_index() {
            Err(e) => {
                return Err(e);
            },
            Ok(v) => v,
        };
        let n = LocalPublicName { name, offset, type_index };
        let ghost before = names@;
        names.push(n);
        assert(names@.map_values(|n: LocalPublicName| n@) =~= before.map_values(
            |n: LocalPublicName| n@,
        ).push(n@));
    }
    if cur.remaining() != 0 {
        return Err(LpubdefParseError::TrailingBytes { leftover: cur.remaining() });
    }
    Ok(LpubdefRecord { offset_width, base_group, base_segment, base_frame, names, checksum })
}

} // verus!
