//! The data records: LEDATA (enumerated) and LIDATA (iterated) write bytes
//! into a segment or a communal entry.
use vstd::prelude::*;

use crate::error::Error;
use crate::lidata::{expand_lidata, spec_expand_lidata};
use crate::omf::{le16, le32, read_index, spec_read_index};
use crate::state::{
    classify_target, communal_pos, write_at, write_bytes, DataTarget, OmfFile, OmfState,
};
use crate::types::{ComdefEntryView, SegmentView};

verus! {

/// The module with `bytes` written at `off` into what `target` names: the
/// data of a segment (by ordinal) or of a communal entry (by external
/// ordinal). Other targets leave the module as it is.
pub open spec fn store_data(st: OmfState, target: DataTarget, off: int, bytes: Seq<u8>) -> OmfState {
    match target {
        DataTarget::Segment(ord) => {
            let seg = st.segments[ord - 1];
            OmfState {
                segments: st.segments.update(
                    ord - 1,
                    SegmentView { data: write_at(seg.data, off, bytes), ..seg },
                ),
                ..st
            }
        },
        DataTarget::Communal { comdef_ord } => match communal_pos(st, comdef_ord) {
            Some(p) => {
                let cd = st.comdefs[p];
                OmfState {
                    comdefs: st.comdefs.update(
                        p,
                        ComdefEntryView { data: write_at(cd.data, off, bytes), ..cd },
                    ),
                    ..st
                }
            },
            None => st,
        },
        _ => st,
    }
}

/// The target of a LEDATA record whose index `seg_idx` took `c` bytes. When
/// the index names nothing and was written in two bytes, it is read again
/// with the two top bits of its first byte cleared (as some toolchains set
/// them), and failing that as its second byte alone.
pub open spec fn ledata_target(st: OmfState, body: Seq<u8>, seg_idx: u16, c: int) -> DataTarget {
    let t = classify_target(st, seg_idx);
    if t is Unknown && c == 2 {
        let t1 = classify_target(st, (((body[0] & 0x3F) as int) * 256 + body[1]) as u16);
        if t1 is Unknown {
            classify_target(st, body[1] as u16)
        } else {
            t1
        }
    } else {
        t
    }
}

/// LEDATA (LEDATA32 when `is_32`): the new module, the target written to and
/// the data offset.
pub open spec fn spec_ledata(st: OmfState, body: Seq<u8>, is_32: bool) -> Result<
    (OmfState, DataTarget, u32),
    Error,
> {
    match spec_read_index(body, 0) {
        None => Err(Error("truncated LEDATA segment")),
        Some((seg_idx, c)) => {
            let w: int = if is_32 {
                4
            } else {
                2
            };
            if c + w > body.len() {
                if is_32 {
                    Err(Error("truncated LEDATA32 offset"))
                } else {
                    Err(Error("truncated LEDATA offset"))
                }
            } else {
                let off: int = if is_32 {
                    le32(body[c], body[c + 1], body[c + 2], body[c + 3])
                } else {
                    le16(body[c], body[c + 1])
                };
                let bytes = body.subrange(c + w, body.len() as int);
                if bytes.len() > 1024 {
                    Err(Error("LEDATA data field exceeds 1024-byte LINK limit"))
                } else {
                    let target = ledata_target(st, body, seg_idx, c);
                    match target {
                        DataTarget::Segment(_) => if off + bytes.len() > 0x10000 {
                            Err(Error("LEDATA data overflow: exceeds 64 KB segment limit"))
                        } else {
                            Ok((store_data(st, target, off, bytes), target, off as u32))
                        },
                        DataTarget::Communal { .. } => if off + bytes.len() > usize::MAX {
                            Err(Error("LEDATA data overflow"))
                        } else {
                            Ok((store_data(st, target, off, bytes), target, off as u32))
                        },
                        DataTarget::Comdat { .. } => Err(Error("LEDATA cannot target COMDAT records")),
                        DataTarget::Unknown => Err(Error("LEDATA segment index out of range")),
                    }
                }
            }
        },
    }
}

/// LIDATA: the new module, the target written to and the data offset. The
/// iterated data block is expanded and must take the whole rest of the
/// record.
pub open spec fn spec_lidata(st: OmfState, body: Seq<u8>) -> Result<(OmfState, DataTarget, u32), Error> {
    match spec_read_index(body, 0) {
        None => Err(Error("truncated LIDATA segment")),
        Some((seg_idx, c)) => if c + 2 > body.len() {
            Err(Error("truncated LIDATA offset"))
        } else {
            let off = le16(body[c], body[c + 1]);
            let block = body.subrange(c + 2, body.len() as int);
            if block.len() > 512 {
                Err(Error("LIDATA iterated data block exceeds 512-byte LINK limit"))
            } else {
                match spec_expand_lidata(block, 0, 0) {
                    Err(e) => Err(e),
                    Ok((expanded, consumed)) => if consumed != block.len() {
                        Err(Error("unexpected trailing bytes in LIDATA"))
                    } else {
                        let target = classify_target(st, seg_idx);
                        match target {
                            DataTarget::Segment(_) => if off + expanded.len() > 0x10000 {
                                Err(Error("LIDATA data overflow"))
                            } else {
                                Ok((store_data(st, target, off, expanded), target, off as u32))
                            },
                            DataTarget::Communal { .. } => if off + expanded.len() > usize::MAX {
                                Err(Error("LIDATA data overflow"))
                            } else {
                                Ok((store_data(st, target, off, expanded), target, off as u32))
                            },
                            DataTarget::Comdat { .. } => Err(
                                Error("LIDATA cannot target COMDAT records"),
                            ),
                            DataTarget::Unknown => Err(Error("LIDATA segment index out of range")),
                        }
                    },
                }
            }
        },
    }
}

/// What a data record parser's result says: the new module, target and
/// offset when it succeeded, its error otherwise.
pub open spec fn data_outcome(res: Result<(DataTarget, u32), Error>, st: OmfState) -> Result<
    (OmfState, DataTarget, u32),
    Error,
> {
    match res {
        Ok((t, off)) => Ok((st, t, off)),
        Err(e) => Err(e),
    }
}

impl<'data> OmfFile<'data> {
    /// Write `bytes` at `off` into the data of what `target` names.
    fn store(&mut self, target: DataTarget, off: usize, bytes: &[u8])
        requires
            off + bytes@.len() <= usize::MAX,
            target matches DataTarget::Segment(ord) ==> 1 <= ord <= old(self)@.segments.len(),
        ensures
            final(self)@ == store_data(old(self)@, target, off as int, bytes@),
    {
        let ghost st = self@;
        match target {
            DataTarget::Segment(ord) => {
                let i = (ord - 1) as usize;
                write_bytes(&mut self.segments[i].data, off, bytes);
                assert(self@.segments =~= store_data(st, target, off as int, bytes@).segments);
            },
            DataTarget::Communal { comdef_ord } => {
                match self.communal_position(comdef_ord) {
                    Some(p) => {
                        write_bytes(&mut self.comdefs[p].data, off, bytes);
                        assert(self@.comdefs =~= store_data(st, target, off as int, bytes@).comdefs);
                    },
                    None => {},
                }
            },
            _ => {},
        }
    }

    /// LEDATA / LEDATA32 (see `spec_ledata`).
    pub(crate) fn parse_ledata(&mut self, body: &[u8], is_32bit: bool) -> (res: Result<(DataTarget, u32), Error>)
        ensures
            spec_ledata(old(self)@, body@, is_32bit) == data_outcome(res, final(self)@),
            res is Err ==> final(self)@ == old(self)@,
    {
        let (seg_idx, c) = match read_index(body, 0) {
            None => {
                return Err(Error("truncated LEDATA segment"));
            },
            Some(x) => x,
        };
        let w: usize = if is_32bit {
            4
        } else {
            2
        };
        if body.len() - c < w {
            if is_32bit {
                return Err(Error("truncated LEDATA32 offset"));
            } else {
                return Err(Error("truncated LEDATA offset"));
            }
        }
        let off: u32 = if is_32bit {
            body[c] as u32 + 256 * body[c + 1] as u32 + 65536 * body[c + 2] as u32 + 16777216
                * body[c + 3] as u32
        } else {
            body[c] as u32 + 256 * body[c + 1] as u32
        };
        let bytes = vstd::slice::slice_subrange(body, c + w, body.len());
        if bytes.len() > 1024 {
            return Err(Error("LEDATA data field exceeds 1024-byte LINK limit"));
        }
        let mut target = self.classify_data_target(seg_idx);
        if let DataTarget::Unknown = target {
            if c == 2 {
                let b0 = body[0];
                let b1 = body[1];
                let alt1 = ((b0 & 0x3F) as u16) * 256 + b1 as u16;
                let t1 = self.classify_data_target(alt1);
                if let DataTarget::Unknown = t1 {
                    target = self.classify_data_target(b1 as u16);
                } else {
                    target = t1;
                }
            }
        }
        assert(target == ledata_target(self@, body@, seg_idx, c as int));
        match target {
            DataTarget::Segment(_) => {
                if off as u64 + bytes.len() as u64 > 0x10000 {
                    return Err(Error("LEDATA data overflow: exceeds 64 KB segment limit"));
                }
            },
            DataTarget::Communal { .. } => {
                if off as usize > usize::MAX - bytes.len() {
                    return Err(Error("LEDATA data overflow"));
                }
            },
            DataTarget::Comdat { .. } => {
                return Err(Error("LEDATA cannot target COMDAT records"));
            },
            DataTarget::Unknown => {
                return Err(Error("LEDATA segment index out of range"));
            },
        }
        self.store(target, off as usize, bytes);
        Ok((target, off))
    }

    /// LIDATA (see `spec_lidata`).
    pub(crate) fn parse_lidata(&mut self, body: &[u8]) -> (res: Result<(DataTarget, u32), Error>)
        ensures
            spec_lidata(old(self)@, body@) == data_outcome(res, final(self)@),
            res is Err ==> final(self)@ == old(self)@,
    {
        let (seg_idx, c) = match read_index(body, 0) {
            None => {
                return Err(Error("truncated LIDATA segment"));
            },
            Some(x) => x,
        };
        if body.len() - c < 2 {
            return Err(Error("truncated LIDATA offset"));
        }
        let off: u32 = body[c] as u32 + 256 * body[c + 1] as u32;
        let block = vstd::slice::slice_subrange(body, c + 2, body.len());
        if block.len() > 512 {
            return Err(Error("LIDATA iterated data block exceeds 512-byte LINK limit"));
        }
        let (expanded, consumed) = match expand_lidata(block, 0, 0) {
            Err(e) => {
                return Err(e);
            },
            Ok(x) => x,
        };
        if consumed != block.len() {
            return Err(Error("unexpected trailing bytes in LIDATA"));
        }
        let target = self.classify_data_target(seg_idx);
        match target {
            DataTarget::Segment(_) => {
                if expanded.len() > 0x10000 || off as usize + expanded.len() > 0x10000 {
                    return Err(Error("LIDATA data overflow"));
                }
            },
            DataTarget::Communal { .. } => {
                if off as usize > usize::MAX - expanded.len() {
                    return Err(Error("LIDATA data overflow"));
                }
            },
            DataTarget::Comdat { .. } => {
                return Err(Error("LIDATA cannot target COMDAT records"));
            },
            DataTarget::Unknown => {
                return Err(Error("LIDATA segment index out of range"));
            },
        }
        self.store(target, off as usize, expanded.as_slice());
        Ok((target, off))
    }
}

} // verus!
