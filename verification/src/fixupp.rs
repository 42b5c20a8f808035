//! FIXUPP records: THREAD subrecords that fill the thread table, and fixup
//! subrecords that become relocations of the data record before them.
use vstd::prelude::*;

use crate::error::Error;
use crate::omf::{le16, le32, read_index, spec_read_index};
use crate::state::{first_group_from, lemma_first_group_bounds, DataTarget, OmfFile, OmfState};
use crate::types::{
    CombatRecordView, ComdefEntryView, FixuppRecordView, ParsedFixupSubrecord,
    ParsedFixuppRecord, ParsedFixuppSubrecord, ParsedReloc, ParsedThreadSubrecord, RelocTarget,
    SegmentView, ThreadEntry, ThreadKind, ThreadTable,
};

verus! {

// ── THREAD subrecords ────────────────────────────────────────────────────

/// Whether a THREAD subrecord may carry `method`: FRAME threads take 0, 1,
/// 2, 4 and 5; TARGET threads 0, 1, 2, 4, 5 and 6.
pub open spec fn thread_method_valid(is_frame: bool, method: u8) -> bool {
    if is_frame {
        method <= 2 || method == 4 || method == 5
    } else {
        method <= 2 || (4 <= method && method <= 6)
    }
}

/// The THREAD subrecord at `pos`: the subrecord, the thread table with the
/// thread it defines, and the position after it.
pub open spec fn spec_thread(body: Seq<u8>, pos: int, tt: ThreadTable) -> Result<
    (ParsedThreadSubrecord, ThreadTable, int),
    Error,
> {
    if pos < 0 || pos >= body.len() {
        Err(Error("truncated THREAD subrecord"))
    } else {
        let b0 = body[pos];
        let is_frame = (b0 & 0x40) != 0;
        let method = (b0 & 0x1C) >> 2u8;
        let n = b0 & 0x03;
        if !thread_method_valid(is_frame, method) {
            Err(Error("invalid THREAD method"))
        } else {
            let datum_and_end: Result<(Option<u16>, int), Error> = if !is_frame || method <= 2 {
                match spec_read_index(body, pos + 1) {
                    None => Err(Error("truncated THREAD datum")),
                    Some((idx, c)) => Ok((Some(idx), pos + 1 + c)),
                }
            } else {
                Ok((None, pos + 1))
            };
            match datum_and_end {
                Err(e) => Err(e),
                Ok((datum, end)) => {
                    let entry = Some(ThreadEntry { method, datum });
                    let sub = ParsedThreadSubrecord {
                        kind: if is_frame {
                            ThreadKind::Frame
                        } else {
                            ThreadKind::Target
                        },
                        thread_number: n,
                        method,
                        datum,
                    };
                    let tt2 = if is_frame {
                        ThreadTable { frame: vstd::array::spec_array_update(tt.frame, n as int, entry), ..tt }
                    } else {
                        ThreadTable { target: vstd::array::spec_array_update(tt.target, n as int, entry), ..tt }
                    };
                    Ok((sub, tt2, end))
                },
            }
        }
    }
}

/// A THREAD subrecord takes at least one byte.
pub proof fn lemma_thread_advances(body: Seq<u8>, pos: int, tt: ThreadTable)
    ensures
        spec_thread(body, pos, tt) matches Ok((_, _, end)) ==> pos < end <= body.len(),
{
}

/// Parse the THREAD subrecord at `*pos` and record its thread.
fn parse_thread_subrecord(body: &[u8], pos: &mut usize, thread_table: &mut ThreadTable) -> (res:
    Result<ParsedThreadSubrecord, Error>)
    ensures
        match spec_thread(body@, *old(pos) as int, *old(thread_table)) {
            Ok((sub, tt, end)) => res == Ok::<ParsedThreadSubrecord, Error>(sub)
                && *final(thread_table) == tt && *final(pos) == end,
            Err(e) => res == Err::<ParsedThreadSubrecord, Error>(e)
                && *final(thread_table) == *old(thread_table),
        },
{
    if *pos >= body.len() {
        return Err(Error("truncated THREAD subrecord"));
    }
    let b0 = body[*pos];
    let start = *pos;
    *pos = *pos + 1;
    let is_frame = (b0 & 0x40) != 0;
    let method = (b0 & 0x1C) >> 2u8;
    let n = b0 & 0x03;
    let valid = if is_frame {
        method <= 2 || method == 4 || method == 5
    } else {
        method <= 2 || (4 <= method && method <= 6)
    };
    if !valid {
        return Err(Error("invalid THREAD method"));
    }
    let datum = if !is_frame || method <= 2 {
        match read_index(body, *pos) {
            None => {
                return Err(Error("truncated THREAD datum"));
            },
            Some((idx, c)) => {
                *pos = *pos + c;
                Some(idx)
            },
        }
    } else {
        None
    };
    assert(n < 4) by (bit_vector)
        requires
            n == b0 & 0x03,
    ;
    let entry = ThreadEntry { method, datum };
    let kind = if is_frame {
        thread_table.frame[n as usize] = Some(entry);
        ThreadKind::Frame
    } else {
        thread_table.target[n as usize] = Some(entry);
        ThreadKind::Target
    };
    let sub = ParsedThreadSubrecord { kind, thread_number: n, method, datum };
    proof {
        let ghost expected = spec_thread(body@, start as int, *old(thread_table));
        if is_frame {
            assert(thread_table.frame =~= vstd::array::spec_array_update(old(thread_table).frame, n as int, Some(entry)));
        } else {
            assert(thread_table.target =~= vstd::array::spec_array_update(old(thread_table).target, n as int, Some(entry)));
        }
        assert(expected == Ok::<(ParsedThreadSubrecord, ThreadTable, int), Error>((sub, *thread_table, *pos as int)));
    }
    Ok(sub)
}

// ── Fixup subrecords ─────────────────────────────────────────────────────

/// The frame of a fixup: its method, its datum and the thread it came from.
#[derive(Debug, Clone, Copy)]
pub struct ResolvedFrame {
    pub method: u8,
    pub datum: Option<u16>,
    pub thread_num: Option<u8>,
}

/// The target of a fixup: its method, its datum and the thread it came from.
#[derive(Debug, Clone, Copy)]
pub struct ResolvedTarget {
    pub method: u8,
    pub datum: Option<u16>,
    pub thread_num: Option<u8>,
}

/// The frame that the fix_dat byte names, read at `pos` when it is given
/// explicitly, and the position after it. `None` when the byte names a
/// frame thread beyond the four of the table, where the reader aborts.
pub open spec fn spec_frame(body: Seq<u8>, pos: int, fixdat: u8, tt: ThreadTable) -> Option<
    Result<(ResolvedFrame, int), Error>,
> {
    let f_bit = (fixdat & 0x80) != 0;
    let frame_f = (fixdat & 0x70) >> 4u8;
    if !f_bit {
        if frame_f <= 3 {
            match spec_read_index(body, pos) {
                None => Some(Err(Error("truncated fixup frame datum"))),
                Some((idx, c)) => Some(
                    Ok((ResolvedFrame { method: frame_f, datum: Some(idx), thread_num: None }, pos + c)),
                ),
            }
        } else {
            Some(Ok((ResolvedFrame { method: frame_f, datum: None, thread_num: None }, pos)))
        }
    } else if frame_f >= 4 {
        None
    } else {
        match tt.frame@[frame_f as int] {
            None => Some(Err(Error("FIXUPP references undefined FRAME thread"))),
            Some(te) => if te.method <= 2 && te.datum is None {
                Some(Err(Error("FIXUPP frame thread missing datum")))
            } else {
                Some(
                    Ok(
                        (
                            ResolvedFrame {
                                method: te.method,
                                datum: te.datum,
                                thread_num: Some(frame_f),
                            },
                            pos,
                        ),
                    ),
                )
            },
        }
    }
}

/// The target that the fix_dat byte names, read at `pos` when it is given
/// explicitly, and the position after it. The P bit adds 4 to the method.
pub open spec fn spec_target(body: Seq<u8>, pos: int, fixdat: u8, tt: ThreadTable) -> Result<
    (ResolvedTarget, int),
    Error,
> {
    let t_bit = (fixdat & 0x08) != 0;
    let p: u8 = if (fixdat & 0x04) != 0 {
        4
    } else {
        0
    };
    let targt = fixdat & 0x03;
    if !t_bit {
        match spec_read_index(body, pos) {
            None => Err(Error("truncated fixup target datum")),
            Some((idx, c)) => Ok(
                (ResolvedTarget { method: p | targt, datum: Some(idx), thread_num: None }, pos + c),
            ),
        }
    } else {
        match tt.target@[targt as int] {
            None => Err(Error("FIXUPP references undefined TARGET thread")),
            Some(te) => match te.datum {
                None => Err(Error("FIXUPP target thread missing datum")),
                Some(d) => Ok(
                    (
                        ResolvedTarget {
                            method: p | te.method,
                            datum: Some(d),
                            thread_num: Some(targt),
                        },
                        pos,
                    ),
                ),
            },
        }
    }
}

/// Resolve the frame of a fixup (see `spec_frame`).
pub(crate) fn resolve_frame_from_fixdat(body: &[u8], pos: &mut usize, fixdat: u8, thread_table: &ThreadTable) -> (res:
    Option<Result<ResolvedFrame, Error>>)
    ensures
        match spec_frame(body@, *old(pos) as int, fixdat, *thread_table) {
            Some(Ok((f, end))) => res == Some(Ok::<ResolvedFrame, Error>(f)) && *final(pos) == end,
            Some(Err(e)) => res == Some(Err::<ResolvedFrame, Error>(e)),
            None => res is None,
        },
{
    let f_bit = (fixdat & 0x80) != 0;
    let frame_f = (fixdat & 0x70) >> 4u8;
    if !f_bit {
        if frame_f <= 3 {
            match read_index(body, *pos) {
                None => Some(Err(Error("truncated fixup frame datum"))),
                Some((idx, c)) => {
                    assert(*pos + c <= body.len());
                    *pos = *pos + c;
                    Some(Ok(ResolvedFrame { method: frame_f, datum: Some(idx), thread_num: None }))
                },
            }
        } else {
            Some(Ok(ResolvedFrame { method: frame_f, datum: None, thread_num: None }))
        }
    } else if frame_f >= 4 {
        None
    } else {
        match thread_table.frame[frame_f as usize] {
            None => Some(Err(Error("FIXUPP references undefined FRAME thread"))),
            Some(te) => if te.method <= 2 && te.datum.is_none() {
                Some(Err(Error("FIXUPP frame thread missing datum")))
            } else {
                Some(
                    Ok(ResolvedFrame { method: te.method, datum: te.datum, thread_num: Some(frame_f) }),
                )
            },
        }
    }
}

/// Resolve the target of a fixup (see `spec_target`).
pub(crate) fn resolve_target_from_fixdat(body: &[u8], pos: &mut usize, fixdat: u8, thread_table: &ThreadTable) -> (res:
    Result<ResolvedTarget, Error>)
    ensures
        match spec_target(body@, *old(pos) as int, fixdat, *thread_table) {
            Ok((t, end)) => res == Ok::<ResolvedTarget, Error>(t) && *final(pos) == end,
            Err(e) => res == Err::<ResolvedTarget, Error>(e),
        },
{
    let t_bit = (fixdat & 0x08) != 0;
    let p: u8 = if (fixdat & 0x04) != 0 {
        4
    } else {
        0
    };
    let targt = fixdat & 0x03;
    assert(targt < 4) by (bit_vector)
        requires
            targt == fixdat & 0x03,
    ;
    if !t_bit {
        match read_index(body, *pos) {
            None => Err(Error("truncated fixup target datum")),
            Some((idx, c)) => {
                assert(*pos + c <= body.len());
                *pos = *pos + c;
                Ok(ResolvedTarget { method: p | targt, datum: Some(idx), thread_num: None })
            },
        }
    } else {
        match thread_table.target[targt as usize] {
            None => Err(Error("FIXUPP references undefined TARGET thread")),
            Some(te) => match te.datum {
                None => Err(Error("FIXUPP target thread missing datum")),
                Some(d) => Ok(
                    ResolvedTarget { method: p | te.method, datum: Some(d), thread_num: Some(targt) },
                ),
            },
        }
    }
}

/// The location type as a relocation uses it: the loader-resolved offsets
/// (5 and 13) count as the plain offsets (1 and 9).
pub open spec fn normalize_loc(loc_raw: u8) -> u8 {
    if loc_raw == 5 {
        1
    } else if loc_raw == 13 {
        9
    } else {
        loc_raw
    }
}

/// What the low two bits of a target method make of its datum.
pub open spec fn reloc_target_of(method: u8, datum: u16) -> RelocTarget {
    let k = method & 0x03;
    if k == 0 {
        RelocTarget::Segment(datum)
    } else if k == 1 {
        RelocTarget::Group(datum)
    } else if k == 2 {
        RelocTarget::External(datum)
    } else {
        RelocTarget::AbsoluteFrame(datum)
    }
}

/// The fixup subrecord at `pos` (its first byte has the top bit set), in a
/// FIXUPP record that follows a data record at offset `ledata_off`: the
/// subrecord and the position after it. `None` where the reader aborts (a
/// frame thread beyond the table, or an offset past `u32::MAX`).
pub open spec fn spec_fixup(body: Seq<u8>, pos: int, tt: ThreadTable, ledata_off: u32, is_32: bool) -> Option<
    Result<(ParsedFixupSubrecord, int), Error>,
> {
    if pos < 0 || pos + 2 > body.len() {
        Some(Err(Error("truncated FIXUPP locat")))
    } else {
        let hi = body[pos];
        let lo = body[pos + 1];
        let is_seg_rel = (hi & 0x40) != 0;
        let loc_raw = (hi & 0x3C) >> 2u8;
        let rec_offset = ((hi & 0x03) as int) * 256 + lo;
        if pos + 2 >= body.len() {
            Some(Err(Error("truncated FIXUPP fix_dat")))
        } else {
            let fixdat = body[pos + 2];
            match spec_frame(body, pos + 3, fixdat, tt) {
                None => None,
                Some(Err(e)) => Some(Err(e)),
                Some(Ok((frame, p1))) => match spec_target(body, p1, fixdat, tt) {
                    Err(e) => Some(Err(e)),
                    Ok((target, p2)) => {
                        let w: int = if is_32 {
                            4
                        } else {
                            2
                        };
                        let has_disp = (target.method & 0x04) == 0;
                        if has_disp && p2 + w > body.len() {
                            if is_32 {
                                Some(Err(Error("truncated FIXUPP32 displacement")))
                            } else {
                                Some(Err(Error("truncated FIXUPP displacement")))
                            }
                        } else if ledata_off + rec_offset > u32::MAX {
                            None
                        } else {
                            let disp: Option<u32> = if !has_disp {
                                None
                            } else if is_32 {
                                Some(le32(body[p2], body[p2 + 1], body[p2 + 2], body[p2 + 3]) as u32)
                            } else {
                                Some(le16(body[p2], body[p2 + 1]) as u32)
                            };
                            let end = if has_disp {
                                p2 + w
                            } else {
                                p2
                            };
                            Some(
                                Ok(
                                    (
                                        ParsedFixupSubrecord {
                                            record_offset: (ledata_off + rec_offset) as u32,
                                            loc_raw,
                                            loc: normalize_loc(loc_raw),
                                            is_seg_rel,
                                            fixdat,
                                            frame_thread: frame.thread_num,
                                            frame_method: frame.method,
                                            frame_datum: frame.datum,
                                            target_thread: target.thread_num,
                                            target_method: target.method,
                                            target_datum: match target.datum {
                                                Some(d) => d,
                                                None => 0,
                                            },
                                            target_displacement: disp,
                                        },
                                        end,
                                    ),
                                ),
                            )
                        }
                    },
                },
            }
        }
    }
}

/// A fixup subrecord takes at least three bytes.
pub proof fn lemma_fixup_advances(body: Seq<u8>, pos: int, tt: ThreadTable, ledata_off: u32, is_32: bool)
    ensures
        spec_fixup(body, pos, tt, ledata_off, is_32) matches Some(Ok((_, end))) ==> pos < end
            <= body.len(),
{
}

/// The relocation that a fixup subrecord describes.
pub open spec fn reloc_of(f: ParsedFixupSubrecord) -> ParsedReloc {
    ParsedReloc {
        offset: f.record_offset,
        loc: f.loc,
        is_seg_rel: f.is_seg_rel,
        target: reloc_target_of(f.target_method, f.target_datum),
        displacement: match f.target_displacement {
            Some(d) => d,
            None => 0,
        },
    }
}

/// The module with `r` attached to the data record target `last`.
pub open spec fn spec_attach(st: OmfState, last: Option<DataTarget>, r: ParsedReloc) -> Result<
    OmfState,
    Error,
> {
    match last {
        None => Err(Error("FIXUPP with no preceding data record")),
        Some(DataTarget::Segment(o)) => if o == 0 || o > st.segments.len() {
            Err(Error("FIXUPP segment index out of range"))
        } else {
            let seg = st.segments[o - 1];
            Ok(
                OmfState {
                    segments: st.segments.update(
                        o - 1,
                        SegmentView { relocs: seg.relocs.push(r), ..seg },
                    ),
                    ..st
                },
            )
        },
        Some(DataTarget::Communal { comdef_ord }) => if comdef_ord == 0 || comdef_ord
            > st.extdef_symbol_indices.len() {
            Err(Error("FIXUPP refers to unknown COMDEF ordinal"))
        } else {
            match first_group_from(st.comdat_groups, st.extdef_symbol_indices[comdef_ord - 1], 0) {
                None => Err(Error("FIXUPP refers to unknown COMDEF symbol")),
                Some(p) => if p >= st.comdefs.len() {
                    Err(Error("FIXUPP refers to unknown COMDEF ordinal"))
                } else {
                    let cd = st.comdefs[p];
                    Ok(
                        OmfState {
                            comdefs: st.comdefs.update(
                                p,
                                ComdefEntryView { relocs: cd.relocs.push(r), ..cd },
                            ),
                            ..st
                        },
                    )
                },
            }
        },
        Some(DataTarget::Comdat { index }) => if index >= st.comdat_records.len() {
            Err(Error("FIXUPP refers to unknown COMDAT record"))
        } else {
            let cr = st.comdat_records[index as int];
            Ok(
                OmfState {
                    comdat_records: st.comdat_records.update(
                        index as int,
                        CombatRecordView { relocs: cr.relocs.push(r), ..cr },
                    ),
                    ..st
                },
            )
        },
        Some(DataTarget::Unknown) => Err(Error("FIXUPP segment index out of range")),
    }
}

/// The subrecords of a FIXUPP record from `pos` on, read with thread table
/// `tt` after the subrecords `subs`: the module, the thread table and all
/// subrecords at the end. `None` where the reader aborts.
pub open spec fn spec_fixupp_from(
    st: OmfState,
    tt: ThreadTable,
    subs: Seq<ParsedFixuppSubrecord>,
    body: Seq<u8>,
    pos: int,
    last: Option<DataTarget>,
    ledata_off: u32,
    is_32: bool,
) -> Option<Result<(OmfState, ThreadTable, Seq<ParsedFixuppSubrecord>), Error>>
    decreases body.len() - pos,
{
    if pos < 0 || pos >= body.len() {
        Some(Ok((st, tt, subs)))
    } else if (body[pos] & 0x80) == 0 {
        match spec_thread(body, pos, tt) {
            Err(e) => Some(Err(e)),
            Ok((th, tt2, end)) => {
                proof {
                    lemma_thread_advances(body, pos, tt);
                }
                spec_fixupp_from(
                    st,
                    tt2,
                    subs.push(ParsedFixuppSubrecord::Thread(th)),
                    body,
                    end,
                    last,
                    ledata_off,
                    is_32,
                )
            },
        }
    } else {
        match spec_fixup(body, pos, tt, ledata_off, is_32) {
            None => None,
            Some(Err(e)) => Some(Err(e)),
            Some(Ok((fx, end))) => match spec_attach(st, last, reloc_of(fx)) {
                Err(e) => Some(Err(e)),
                Ok(st2) => {
                    proof {
                        lemma_fixup_advances(body, pos, tt, ledata_off, is_32);
                    }
                    spec_fixupp_from(
                        st2,
                        tt,
                        subs.push(ParsedFixuppSubrecord::Fixup(fx)),
                        body,
                        end,
                        last,
                        ledata_off,
                        is_32,
                    )
                },
            },
        }
    }
}

/// The segment ordinal a FIXUPP record is attached to.
pub open spec fn attached_ordinal(last: Option<DataTarget>) -> Option<u16> {
    match last {
        Some(DataTarget::Segment(o)) => Some(o),
        _ => None,
    }
}

/// FIXUPP (FIXUPP32 when `is_32`) after the data record `last` at offset
/// `ledata_off`, with thread table `tt`: the module with the relocations
/// attached and the record appended (its thread table as it was at the
/// start of the record), and the thread table after it. `None` where the
/// reader aborts.
pub open spec fn spec_fixupp(
    st: OmfState,
    tt: ThreadTable,
    body: Seq<u8>,
    last: Option<DataTarget>,
    ledata_off: u32,
    is_32: bool,
) -> Option<Result<(OmfState, ThreadTable), Error>> {
    match spec_fixupp_from(st, tt, Seq::empty(), body, 0, last, ledata_off, is_32) {
        None => None,
        Some(Err(e)) => Some(Err(e)),
        Some(Ok((st2, tt2, subs))) => Some(
            Ok(
                (
                    OmfState {
                        fixupp_records: st2.fixupp_records.push(
                            FixuppRecordView {
                                attached_seg_ordinal: attached_ordinal(last),
                                subrecords: subs,
                                thread_table: tt,
                            },
                        ),
                        ..st2
                    },
                    tt2,
                ),
            ),
        ),
    }
}

impl<'data> OmfFile<'data> {
    /// Attach a relocation to the data record target `last`.
    fn attach_reloc(&mut self, last: Option<DataTarget>, r: ParsedReloc) -> (res: Result<(), Error>)
        ensures
            match spec_attach(old(self)@, last, r) {
                Ok(st) => res is Ok && final(self)@ == st,
                Err(e) => res == Err::<(), Error>(e),
            },
    {
        let ghost st = self@;
        match last {
            None => Err(Error("FIXUPP with no preceding data record")),
            Some(DataTarget::Segment(o)) => {
                if o == 0 || o as usize > self.segments.len() {
                    return Err(Error("FIXUPP segment index out of range"));
                }
                let i = (o - 1) as usize;
                self.segments[i].relocs.push(r);
                assert(self@.segments =~= spec_attach(st, last, r)->Ok_0.segments);
                Ok(())
            },
            Some(DataTarget::Communal { comdef_ord }) => {
                if comdef_ord == 0 || comdef_ord as usize > self.extdef_symbol_indices.len() {
                    return Err(Error("FIXUPP refers to unknown COMDEF ordinal"));
                }
                let sym = self.extdef_symbol_indices[comdef_ord as usize - 1];
                proof {
                    lemma_first_group_bounds(self@.comdat_groups, sym, 0);
                }
                match self.find_comdat_group(sym) {
                    None => Err(Error("FIXUPP refers to unknown COMDEF symbol")),
                    Some(p) => {
                        if p >= self.comdefs.len() {
                            return Err(Error("FIXUPP refers to unknown COMDEF ordinal"));
                        }
                        self.comdefs[p].relocs.push(r);
                        assert(self@.comdefs =~= spec_attach(st, last, r)->Ok_0.comdefs);
                        Ok(())
                    },
                }
            },
            Some(DataTarget::Comdat { index }) => {
                if index >= self.comdat_records.len() {
                    return Err(Error("FIXUPP refers to unknown COMDAT record"));
                }
                self.comdat_records[index].relocs.push(r);
                assert(self@.comdat_records =~= spec_attach(st, last, r)->Ok_0.comdat_records);
                Ok(())
            },
            Some(DataTarget::Unknown) => Err(Error("FIXUPP segment index out of range")),
        }
    }

    /// Parse the fixup subrecord at `pos` (see `spec_fixup`).
    fn parse_fixup_subrecord(
        body: &[u8],
        pos: usize,
        thread_table: &ThreadTable,
        ledata_offset: u32,
        is_32bit: bool,
    ) -> (res: Option<Result<(ParsedFixupSubrecord, usize), Error>>)
        ensures
            match spec_fixup(body@, pos as int, *thread_table, ledata_offset, is_32bit) {
                Some(Ok((f, end))) => res == Some(
                    Ok::<(ParsedFixupSubrecord, usize), Error>((f, end as usize)),
                ),
                Some(Err(e)) => res == Some(Err::<(ParsedFixupSubrecord, usize), Error>(e)),
                None => res is None,
            },
    {
        if pos > body.len() || body.len() - pos < 2 {
            return Some(Err(Error("truncated FIXUPP locat")));
        }
        let hi = body[pos];
        let lo = body[pos + 1];
        let is_seg_rel = (hi & 0x40) != 0;
        let loc_raw = (hi & 0x3C) >> 2u8;
        let rec_offset: u32 = ((hi & 0x03) as u32) * 256 + lo as u32;
        let loc = if loc_raw == 5 {
            1
        } else if loc_raw == 13 {
            9
        } else {
            loc_raw
        };
        if pos + 2 >= body.len() {
            return Some(Err(Error("truncated FIXUPP fix_dat")));
        }
        let fixdat = body[pos + 2];
        let mut sub_pos = pos + 3;
        let frame = match resolve_frame_from_fixdat(body, &mut sub_pos, fixdat, thread_table) {
            None => {
                return None;
            },
            Some(Err(e)) => {
                return Some(Err(e));
            },
            Some(Ok(f)) => f,
        };
        let target = match resolve_target_from_fixdat(body, &mut sub_pos, fixdat, thread_table) {
            Err(e) => {
                return Some(Err(e));
            },
            Ok(t) => t,
        };
        let mut target_displacement: Option<u32> = None;
        if (target.method & 0x04) == 0 {
            if is_32bit {
                if sub_pos > body.len() || body.len() - sub_pos < 4 {
                    return Some(Err(Error("truncated FIXUPP32 displacement")));
                }
                target_displacement = Some(
                    body[sub_pos] as u32 + 256 * body[sub_pos + 1] as u32 + 65536 * body[sub_pos
                        + 2] as u32 + 16777216 * body[sub_pos + 3] as u32,
                );
                sub_pos = sub_pos + 4;
            } else {
                if sub_pos > body.len() || body.len() - sub_pos < 2 {
                    return Some(Err(Error("truncated FIXUPP displacement")));
                }
                target_displacement = Some(body[sub_pos] as u32 + 256 * body[sub_pos + 1] as u32);
                sub_pos = sub_pos + 2;
            }
        }
        if rec_offset > u32::MAX - ledata_offset {
            return None;
        }
        let full_offset = ledata_offset + rec_offset;
        let fx = ParsedFixupSubrecord {
            record_offset: full_offset,
            loc_raw,
            loc,
            is_seg_rel,
            fixdat,
            frame_thread: frame.thread_num,
            frame_method: frame.method,
            frame_datum: frame.datum,
            target_thread: target.thread_num,
            target_method: target.method,
            target_datum: match target.datum {
                Some(d) => d,
                None => 0,
            },
            target_displacement,
        };
        Some(Ok((fx, sub_pos)))
    }

    /// The relocation that a fixup subrecord describes.
    fn reloc_from(f: &ParsedFixupSubrecord) -> (r: ParsedReloc)
        ensures
            r == reloc_of(*f),
    {
        let k = f.target_method & 0x03;
        let target = if k == 0 {
            RelocTarget::Segment(f.target_datum)
        } else if k == 1 {
            RelocTarget::Group(f.target_datum)
        } else if k == 2 {
            RelocTarget::External(f.target_datum)
        } else {
            RelocTarget::AbsoluteFrame(f.target_datum)
        };
        ParsedReloc {
            offset: f.record_offset,
            loc: f.loc,
            is_seg_rel: f.is_seg_rel,
            target,
            displacement: match f.target_displacement {
                Some(d) => d,
                None => 0,
            },
        }
    }

    /// FIXUPP / FIXUPP32 (see `spec_fixupp`).
    pub(crate) fn parse_fixupp(
        &mut self,
        body: &[u8],
        last_data_target: Option<DataTarget>,
        ledata_offset: u32,
        thread_table: &mut ThreadTable,
        is_32bit: bool,
    ) -> (res: Option<Result<(), Error>>)
        ensures
            match spec_fixupp(old(self)@, *old(thread_table), body@, last_data_target, ledata_offset, is_32bit) {
                Some(Ok((st, tt))) => res == Some(Ok::<(), Error>(())) && final(self)@ == st
                    && *final(thread_table) == tt,
                Some(Err(e)) => res == Some(Err::<(), Error>(e)),
                None => res is None,
            },
    {
        let start_table = *thread_table;
        let ghost whole = spec_fixupp_from(
            self@,
            start_table,
            Seq::empty(),
            body@,
            0,
            last_data_target,
            ledata_offset,
            is_32bit,
        );
        let mut subrecords: Vec<ParsedFixuppSubrecord> = Vec::new();
        let mut pos: usize = 0;
        while pos < body.len()
            invariant
                pos <= body@.len(),
                start_table == *old(thread_table),
                whole == spec_fixupp_from(
                    old(self)@,
                    *old(thread_table),
                    Seq::empty(),
                    body@,
                    0,
                    last_data_target,
                    ledata_offset,
                    is_32bit,
                ),
                spec_fixupp_from(
                    self@,
                    *thread_table,
                    subrecords@,
                    body@,
                    pos as int,
                    last_data_target,
                    ledata_offset,
                    is_32bit,
                ) == whole,
            decreases body@.len() - pos,
        {
            if (body[pos] & 0x80) == 0 {
                let th = match parse_thread_subrecord(body, &mut pos, thread_table) {
                    Err(e) => {
                        return Some(Err(e));
                    },
                    Ok(t) => t,
                };
                subrecords.push(ParsedFixuppSubrecord::Thread(th));
            } else {
                proof {
                    lemma_fixup_advances(body@, pos as int, *thread_table, ledata_offset, is_32bit);
                }
                let (fx, end) = match Self::parse_fixup_subrecord(
                    body,
                    pos,
                    thread_table,
                    ledata_offset,
                    is_32bit,
                ) {
                    None => {
                        return None;
                    },
                    Some(Err(e)) => {
                        return Some(Err(e));
                    },
                    Some(Ok(x)) => x,
                };
                let r = Self::reloc_from(&fx);
                match self.attach_reloc(last_data_target, r) {
                    Err(e) => {
                        return Some(Err(e));
                    },
                    Ok(()) => {},
                }
                subrecords.push(ParsedFixuppSubrecord::Fixup(fx));
                pos = end;
            }
        }
        let attached_seg_ordinal = match last_data_target {
            Some(DataTarget::Segment(o)) => Some(o),
            _ => None,
        };
        let ghost before = self@;
        let rec = ParsedFixuppRecord {
            attached_seg_ordinal,
            subrecords,
            thread_table: start_table,
        };
        self.fixupp_records.push(rec);
        assert(self@.fixupp_records =~= before.fixupp_records.push(rec@));
        Some(Ok(()))
    }
}

} // verus!
