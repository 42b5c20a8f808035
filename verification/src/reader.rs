//! Reading a whole module: the record stream, from THEADR to MODEND, and the
//! layout computed once every record is read.
use vstd::prelude::*;

use crate::checksum::{checksum_ok, sum8, wrapping_sum};
use crate::comdat_record::{read_comdat, spec_comdat, ComdatRead};
use crate::data::{spec_ledata, spec_lidata};
use crate::error::Error;
use crate::fixupp::spec_fixupp;
use crate::modend::{no_threads, spec_modend};
use crate::omf::{
    le16, RT_COMDAT, RT_COMDAT32, RT_COMDEF, RT_COMENT, RT_EXTDEF, RT_FIXUPP, RT_FIXUPP32,
    RT_GRPDEF, RT_LEDATA, RT_LEDATA32, RT_LIDATA, RT_LINNUM, RT_LNAMES, RT_LOCAL_EXTDEF,
    RT_LOCAL_PUBDEF, RT_LOCAL_PUBDEF32, RT_MODEND, RT_MODEND32, RT_PUBDEF, RT_PUBDEF32,
    RT_SEGDEF, RT_SEGDEF32, RT_THEADR, RT_TYPDEF,
};
use crate::records::{
    spec_comdef_from, spec_coment, spec_extdef_from, spec_grpdef, spec_linnum, spec_lnames_from,
    spec_pubdef, spec_segdef, spec_theadr, spec_typdef,
};
use crate::invariants::lemma_scan_wf;
use crate::state::{empty_state, DataTarget, OmfFile, OmfState};
use crate::types::{
    EntryPoint, GroupView, PublicNameEncoding, SegmentView, ThreadTable,
};

verus! {

/// What the reader carries from one record to the next: the module, the
/// target and offset of the last data record (which a FIXUPP record right
/// after it refers to), and the thread table, which lasts the whole module.
pub struct ScanState {
    pub st: OmfState,
    pub last: Option<DataTarget>,
    pub last_off: u32,
    pub tt: ThreadTable,
}

/// The reader's state before the first record.
pub open spec fn initial_scan(st: OmfState) -> ScanState {
    ScanState { st, last: None, last_off: 0, tt: no_threads() }
}

/// The state after a record that is no data record, from its parser's result.
pub open spec fn after_plain(r: Result<OmfState, Error>, s: ScanState) -> Option<
    Result<(ScanState, bool), Error>,
> {
    match r {
        Err(e) => Some(Err(e)),
        Ok(st) => Some(Ok((ScanState { st, last: None, ..s }, false))),
    }
}

/// The state after a data record, from its parser's result.
pub open spec fn after_data(r: Result<(OmfState, DataTarget, u32), Error>, s: ScanState) -> Option<
    Result<(ScanState, bool), Error>,
> {
    match r {
        Err(e) => Some(Err(e)),
        Ok((st, t, off)) => Some(Ok((ScanState { st, last: Some(t), last_off: off, tt: s.tt }, false))),
    }
}

/// One record of type `rt` with body `body` (checksum byte excluded) and
/// whole bytes `record`: the state after it, and whether it ends the module
/// (MODEND). Records of any other type are skipped. `None` where the reader
/// aborts.
pub open spec fn spec_record(s: ScanState, rt: u8, body: Seq<u8>, record: Seq<u8>) -> Option<
    Result<(ScanState, bool), Error>,
> {
    if rt == RT_THEADR {
        after_plain(spec_theadr(s.st, body), s)
    } else if rt == RT_LNAMES {
        after_plain(spec_lnames_from(s.st, body, 0), s)
    } else if rt == RT_SEGDEF || rt == RT_SEGDEF32 {
        after_plain(spec_segdef(s.st, body, rt == RT_SEGDEF32), s)
    } else if rt == RT_GRPDEF {
        after_plain(spec_grpdef(s.st, body), s)
    } else if rt == RT_EXTDEF || rt == RT_LOCAL_EXTDEF {
        after_plain(spec_extdef_from(s.st, body, rt == RT_LOCAL_EXTDEF, 0), s)
    } else if rt == RT_TYPDEF {
        after_plain(spec_typdef(s.st, body), s)
    } else if rt == RT_PUBDEF || rt == RT_PUBDEF32 || rt == RT_LOCAL_PUBDEF || rt
        == RT_LOCAL_PUBDEF32 {
        after_plain(
            spec_pubdef(
                s.st,
                body,
                rt == RT_LOCAL_PUBDEF || rt == RT_LOCAL_PUBDEF32,
                rt == RT_PUBDEF32 || rt == RT_LOCAL_PUBDEF32,
            ),
            s,
        )
    } else if rt == RT_LINNUM {
        after_plain(spec_linnum(s.st, body), s)
    } else if rt == RT_COMDEF {
        after_plain(spec_comdef_from(s.st, body, 0), s)
    } else if rt == RT_LEDATA || rt == RT_LEDATA32 {
        after_data(spec_ledata(s.st, body, rt == RT_LEDATA32), s)
    } else if rt == RT_LIDATA {
        after_data(spec_lidata(s.st, body), s)
    } else if rt == RT_FIXUPP || rt == RT_FIXUPP32 {
        match spec_fixupp(s.st, s.tt, body, s.last, s.last_off, rt == RT_FIXUPP32) {
            None => None,
            Some(Err(e)) => Some(Err(e)),
            Some(Ok((st, tt))) => Some(Ok((ScanState { st, last: None, last_off: s.last_off, tt }, false))),
        }
    } else if rt == RT_COMDAT || rt == RT_COMDAT32 {
        match spec_comdat(record, PublicNameEncoding::MicrosoftIndex) {
            None => None,
            Some(Err(_)) => Some(Err(Error("invalid COMDAT record"))),
            Some(Ok(r)) => Some(
                Ok(
                    (
                        ScanState {
                            st: OmfState {
                                comdat_records: s.st.comdat_records.push(r),
                                ..s.st
                            },
                            last: Some(DataTarget::Comdat { index: s.st.comdat_records.len() as usize }),
                            last_off: 0,
                            tt: s.tt,
                        },
                        false,
                    ),
                ),
            ),
        }
    } else if rt == RT_MODEND || rt == RT_MODEND32 {
        match spec_modend(s.st, body, rt == RT_MODEND32) {
            None => None,
            Some(Err(e)) => Some(Err(e)),
            Some(Ok(st)) => Some(Ok((ScanState { st, ..s }, true))),
        }
    } else if rt == RT_COMENT {
        match spec_segdef(s.st, body, false) {
            Ok(st) => Some(Ok((ScanState { st, last: None, ..s }, false))),
            Err(_) => after_plain(spec_coment(s.st, body), s),
        }
    } else {
        Some(Ok((ScanState { last: None, ..s }, false)))
    }
}

/// The records from `pos` on (`first` when none was read yet): the module
/// once MODEND is read, or the error that stops the reader. The first record
/// must be THEADR; each record is a type byte, a little-endian length of at
/// least 1 and that many bytes, the last of them a checksum that is not
/// enforced. `None` where the reader aborts.
pub open spec fn spec_scan_from(s: ScanState, data: Seq<u8>, pos: int, first: bool) -> Option<
    Result<OmfState, Error>,
>
    decreases data.len() - pos,
{
    if pos < 0 || pos >= data.len() {
        if s.st.module_name.len() == 0 && s.st.segments.len() == 0 {
            Some(Err(Error("OMF file has no records")))
        } else {
            Some(Err(Error("OMF file has no MODEND record")))
        }
    } else {
        let rt = data[pos];
        if first && rt != RT_THEADR {
            Some(Err(Error("not an OMF object file")))
        } else if pos + 3 > data.len() {
            Some(Err(Error("truncated OMF record header")))
        } else {
            let rl = le16(data[pos + 1], data[pos + 2]);
            if rl < 1 {
                Some(Err(Error("invalid OMF record length")))
            } else if pos + 3 + rl > data.len() {
                Some(Err(Error("truncated OMF record")))
            } else {
                match spec_record(
                    s,
                    rt,
                    data.subrange(pos + 3, pos + 2 + rl),
                    data.subrange(pos, pos + 3 + rl),
                ) {
                    None => None,
                    Some(Err(e)) => Some(Err(e)),
                    Some(Ok((s2, done))) => if done {
                        Some(Ok(s2.st))
                    } else {
                        spec_scan_from(s2, data, pos + 3 + rl, false)
                    },
                }
            }
        }
    }
}

// ── Layout ────────────────────────────────────────────────────────────────

/// The number of bytes a segment takes: 64 KB when its B bit is set, its
/// declared length otherwise.
pub open spec fn eff_len(seg: SegmentView) -> int {
    if seg.big {
        0x10000
    } else {
        seg.length as int
    }
}

/// `base` rounded up to a multiple of `alignment` (unchanged for an
/// alignment of 0 or 1).
pub open spec fn align_up(base: int, alignment: int) -> int {
    if alignment > 1 {
        ((base + alignment - 1) / alignment) * alignment
    } else {
        base
    }
}

/// Where the next relocatable segment may start once the first `n` segments
/// are laid out: relocatable segments are placed one after the other, each
/// at its alignment; absolute segments take no room.
pub open spec fn next_base(segs: Seq<SegmentView>, n: int) -> int
    decreases n,
{
    if n <= 0 {
        0
    } else {
        let s = segs[n - 1];
        let b = next_base(segs, n - 1);
        if s.is_absolute {
            b
        } else {
            align_up(b, s.alignment as int) + eff_len(s)
        }
    }
}

/// The flat address of segment `i`: its frame times 16 when it is absolute,
/// else its place in the layout.
pub open spec fn flat_base_of(segs: Seq<SegmentView>, i: int) -> int {
    if segs[i].is_absolute {
        segs[i].frame as int * 16
    } else {
        align_up(next_base(segs, i), segs[i].alignment as int)
    }
}

/// `d` cut or zero-extended to `n` bytes.
pub open spec fn resized(d: Seq<u8>, n: int) -> Seq<u8> {
    if n <= d.len() {
        d.subrange(0, n)
    } else {
        d + Seq::new((n - d.len()) as nat, |k: int| 0u8)
    }
}

/// Segment `i` once laid out: its flat address set and its data exactly as
/// long as the segment.
pub open spec fn laid_out(segs: Seq<SegmentView>, i: int) -> SegmentView {
    SegmentView {
        flat_base: flat_base_of(segs, i) as u64,
        data: resized(segs[i].data, eff_len(segs[i])),
        ..segs[i]
    }
}

/// A group member ordinal as resolved against `nsegs` segments.
pub open spec fn resolve_member(ord: u16, nsegs: int) -> Option<u16> {
    if ord != 0 && ord <= nsegs {
        Some(ord)
    } else {
        None
    }
}

/// A group with its members resolved against `nsegs` segments.
pub open spec fn resolved_group(g: GroupView, nsegs: int) -> GroupView {
    GroupView {
        resolved_members: Seq::new(g.members.len(), |k: int| resolve_member(g.members[k], nsegs)),
        ..g
    }
}

/// The module once all records are read: segments laid out and group
/// members resolved.
pub open spec fn spec_finalize(st: OmfState) -> OmfState {
    OmfState {
        segments: Seq::new(st.segments.len(), |i: int| laid_out(st.segments, i)),
        groups: Seq::new(st.groups.len(), |g: int| resolved_group(st.groups[g], st.segments.len() as int)),
        ..st
    }
}

/// The bounds that the layout relies on: at most 255 segments, each
/// aligned to at most 256 bytes.
pub open spec fn layout_bounded(st: OmfState) -> bool {
    &&& st.segments.len() <= 255
    &&& forall|i: int| 0 <= i < st.segments.len() ==> 1 <= #[trigger] st.segments[i].alignment <= 256
}

/// Reading `data` as a whole module: `None` where the reader aborts.
pub open spec fn spec_parse(data: Seq<u8>) -> Option<Result<OmfState, Error>> {
    match spec_scan_from(initial_scan(empty_state()), data, 0, true) {
        None => None,
        Some(Err(e)) => Some(Err(e)),
        Some(Ok(st)) => Some(Ok(spec_finalize(st))),
    }
}

impl<'data> OmfFile<'data> {
    /// Check the checksum of one whole record: `None` when it passes, a
    /// diagnostic when it does not.
    pub(crate) fn verify_record_checksum(record_bytes: &[u8]) -> (r: Option<&'static str>)
        ensures
            r is None <==> checksum_ok(record_bytes@),
            r is Some ==> r == Some("OMF checksum mismatch"),
    {
        if record_bytes.len() > 0 && record_bytes[record_bytes.len() - 1] == 0 {
            return None;
        }
        let sum = wrapping_sum(record_bytes);
        if sum != 0 {
            Some("OMF checksum mismatch")
        } else {
            proof {
                if record_bytes@.len() == 0 {
                    assert(checksum_ok(record_bytes@));
                }
            }
            None
        }
    }

    /// Read one record of type `record_type` (see `spec_record`): whether it
    /// ends the module, or its error; `None` where the reader aborts.
    #[verifier::rlimit(100)]
    fn read_record(
        &mut self,
        record_type: u8,
        body: &'data [u8],
        record_bytes: &[u8],
        last: &mut Option<DataTarget>,
        last_off: &mut u32,
        tt: &mut ThreadTable,
    ) -> (res: Option<Result<bool, Error>>)
        ensures
            match spec_record(
                ScanState { st: old(self)@, last: *old(last), last_off: *old(last_off), tt: *old(tt) },
                record_type,
                body@,
                record_bytes@,
            ) {
                None => res is None,
                Some(Err(e)) => res == Some(Err::<bool, Error>(e)),
                Some(Ok((s2, done))) => res == Some(Ok::<bool, Error>(done)) && final(self)@ == s2.st
                    && *final(last) == s2.last && *final(last_off) == s2.last_off && *final(tt)
                    == s2.tt,
            },
    {
        if record_type == RT_THEADR {
            if let Err(e) = self.parse_theadr(body) {
                return Some(Err(e));
            }
            *last = None;
        } else if record_type == RT_LNAMES {
            if let Err(e) = self.parse_lnames(body) {
                return Some(Err(e));
            }
            *last = None;
        } else if record_type == RT_SEGDEF || record_type == RT_SEGDEF32 {
            if let Err(e) = self.parse_segdef(body, record_type == RT_SEGDEF32) {
                return Some(Err(e));
            }
            *last = None;
        } else if record_type == RT_GRPDEF {
            if let Err(e) = self.parse_grpdef(body) {
                return Some(Err(e));
            }
            *last = None;
        } else if record_type == RT_EXTDEF || record_type == RT_LOCAL_EXTDEF {
            if let Err(e) = self.parse_extdef(body, record_type == RT_LOCAL_EXTDEF) {
                return Some(Err(e));
            }
            *last = None;
        } else if record_type == RT_TYPDEF {
            if let Err(e) = self.parse_typdef(body) {
                return Some(Err(e));
            }
            *last = None;
        } else if record_type == RT_PUBDEF || record_type == RT_PUBDEF32 || record_type
            == RT_LOCAL_PUBDEF || record_type == RT_LOCAL_PUBDEF32 {
            let is_local = record_type == RT_LOCAL_PUBDEF || record_type == RT_LOCAL_PUBDEF32;
            let is_32 = record_type == RT_PUBDEF32 || record_type == RT_LOCAL_PUBDEF32;
            if let Err(e) = self.parse_pubdef(body, is_local, is_32) {
                return Some(Err(e));
            }
            *last = None;
        } else if record_type == RT_LINNUM {
            if let Err(e) = self.parse_linnum(body) {
                return Some(Err(e));
            }
            *last = None;
        } else if record_type == RT_COMDEF {
            if let Err(e) = self.parse_comdef(body) {
                return Some(Err(e));
            }
            *last = None;
        } else if record_type == RT_LEDATA || record_type == RT_LEDATA32 {
            match self.parse_ledata(body, record_type == RT_LEDATA32) {
                Err(e) => {
                    return Some(Err(e));
                },
                Ok((t, off)) => {
                    *last = Some(t);
                    *last_off = off;
                },
            }
        } else if record_type == RT_LIDATA {
            match self.parse_lidata(body) {
                Err(e) => {
                    return Some(Err(e));
                },
                Ok((t, off)) => {
                    *last = Some(t);
                    *last_off = off;
                },
            }
        } else if record_type == RT_FIXUPP || record_type == RT_FIXUPP32 {
            match self.parse_fixupp(body, *last, *last_off, tt, record_type == RT_FIXUPP32) {
                None => {
                    return None;
                },
                Some(Err(e)) => {
                    return Some(Err(e));
                },
                Some(Ok(())) => {},
            }
            *last = None;
        } else if record_type == RT_COMDAT || record_type == RT_COMDAT32 {
            match read_comdat(record_bytes, PublicNameEncoding::MicrosoftIndex) {
                ComdatRead::Aborts => {
                    return None;
                },
                ComdatRead::Error(_) => {
                    return Some(Err(Error("invalid COMDAT record")));
                },
                ComdatRead::Record(r) => {
                    let index = self.comdat_records.len();
                    let ghost before = self@;
                    self.comdat_records.push(r);
                    assert(self@.comdat_records =~= before.comdat_records.push(r@));
                    *last = Some(DataTarget::Comdat { index });
                    *last_off = 0;
                },
            }
        } else if record_type == RT_MODEND || record_type == RT_MODEND32 {
            match self.parse_modend(body, record_type == RT_MODEND32) {
                None => {
                    return None;
                },
                Some(Err(e)) => {
                    return Some(Err(e));
                },
                Some(Ok(())) => {
                    return Some(Ok(true));
                },
            }
        } else if record_type == RT_COMENT {
            // Some toolchains put a SEGDEF body in a comment record; such
            // a record defines a segment, and is a comment otherwise.
            if self.parse_segdef(body, false).is_err() {
                if let Err(e) = self.parse_coment(body) {
                    return Some(Err(e));
                }
            }
            *last = None;
        } else {
            *last = None;
        }
        Some(Ok(false))
    }

    /// Lay out the segments and resolve the group members (see
    /// `spec_finalize`). Segments are aligned by rounding up to a multiple of
    /// their alignment, which is a power of two for every segment a SEGDEF
    /// defines.
    fn finalize(&mut self)
        requires
            layout_bounded(old(self)@),
        ensures
            final(self)@ == spec_finalize(old(self)@),
    {
        let ghost st0 = self@;
        let n = self.segments.len();
        let mut base: u64 = 0;
        let mut i: usize = 0;
        while i < n
            invariant
                n == self.segments@.len(),
                n == st0.segments.len(),
                i <= n,
                layout_bounded(st0),
                base == next_base(st0.segments, i as int),
                base <= i * 0x1_0000_0100,
                forall|k: int| 0 <= k < i ==> #[trigger] self@.segments[k] == laid_out(st0.segments, k),
                forall|k: int| i <= k < n ==> #[trigger] self@.segments[k] == st0.segments[k],
                self@ == (OmfState { segments: self@.segments, ..st0 }),
            decreases n - i,
        {
            let ghost before = self@.segments;
            let ghost seg_view = st0.segments[i as int];
            assert(self@.segments[i as int] == seg_view);
            let alignment = self.segments[i].alignment as u64;
            assert(1 <= st0.segments[i as int].alignment <= 256);
            assert(1 <= alignment <= 256);
            let eff: u64 = if self.segments[i].big {
                0x10000
            } else {
                self.segments[i].length as u64
            };
            let ghost old_base = base;
            if self.segments[i].is_absolute {
                let frame = self.segments[i].frame as u64;
                self.segments[i].flat_base = frame * 16;
            } else {
                if alignment > 1 {
                    proof {
                        assert(((old_base + alignment - 1) / alignment as int) * alignment <= old_base
                            + alignment - 1) by (nonlinear_arith)
                            requires
                                alignment > 1,
                                old_base >= 0,
                        ;
                    }
                    base = ((base + alignment - 1) / alignment) * alignment;
                }
                self.segments[i].flat_base = base;
                base = base + eff;
            }
            self.segments[i].data.resize(eff as usize, 0);
            proof {
                assert(self@.segments[i as int].data =~= resized(seg_view.data, eff_len(seg_view)));
                assert(self@.segments[i as int] == laid_out(st0.segments, i as int));
                assert forall|k: int| 0 <= k < n && k != i implies #[trigger] self@.segments[k]
                    == before[k] by {}
                assert(i * 0x1_0000_0100 + 0x1_0000_0100 == (i + 1) * 0x1_0000_0100) by (nonlinear_arith);
            }
            i = i + 1;
        }
        let ghost mid = self@;
        assert(mid.segments =~= spec_finalize(st0).segments);
        let g_count = self.groups.len();
        let mut g: usize = 0;
        while g < g_count
            invariant
                g_count == self.groups@.len(),
                g_count == st0.groups.len(),
                g <= g_count,
                n == st0.segments.len(),
                forall|k: int| 0 <= k < g ==> #[trigger] self@.groups[k] == resolved_group(
                    st0.groups[k],
                    n as int,
                ),
                forall|k: int| g <= k < g_count ==> #[trigger] self@.groups[k] == st0.groups[k],
                self@ == (OmfState { groups: self@.groups, ..mid }),
            decreases g_count - g,
        {
            let ghost before = self@.groups;
            let ghost gv = st0.groups[g as int];
            assert(self@.groups[g as int] == gv);
            let m = self.groups[g].members.len();
            let mut resolved: Vec<Option<u16>> = Vec::new();
            let mut k: usize = 0;
            while k < m
                invariant
                    m == gv.members.len(),
                    k <= m,
                    self@.groups[g as int] == gv,
                    g < self@.groups.len(),
                    resolved@.len() == k,
                    forall|j: int| 0 <= j < k ==> #[trigger] resolved@[j] == resolve_member(
                        gv.members[j],
                        n as int,
                    ),
                decreases m - k,
            {
                let ord = self.groups[g].members[k];
                if ord != 0 && ord as usize <= n {
                    resolved.push(Some(ord));
                } else {
                    resolved.push(None);
                }
                k = k + 1;
            }
            self.groups[g].resolved_members = resolved;
            proof {
                assert(self@.groups[g as int].resolved_members =~= resolved_group(gv, n as int).resolved_members);
                assert(self@.groups[g as int] == resolved_group(gv, n as int));
                assert forall|j: int| 0 <= j < g_count && j != g implies #[trigger] self@.groups[j]
                    == before[j] by {}
            }
            g = g + 1;
        }
        assert(self@.groups =~= spec_finalize(st0).groups);
    }

    /// Read a whole module (see `spec_parse`): `None` where the reader
    /// aborts.
    pub fn try_parse(data: &'data [u8]) -> (res: Option<Result<OmfFile<'data>, Error>>)
        ensures
            match spec_parse(data@) {
                None => res is None,
                Some(Ok(st)) => res matches Some(Ok(f)) && f@ == st,
                Some(Err(e)) => res matches Some(Err(re)) && re == e,
            },
    {
        let mut file = OmfFile {
            module_name: vstd::slice::slice_subrange(data, 0, 0),
            lnames: Vec::new(),
            segments: Vec::new(),
            groups: Vec::new(),
            symbols: Vec::new(),
            typdefs: Vec::new(),
            comdefs: Vec::new(),
            fixupp_records: Vec::new(),
            comdat_records: Vec::new(),
            extdef_symbol_indices: Vec::new(),
            entry: EntryPoint::NoEntry,
            comdat_groups: Vec::new(),
            has_ms_ext: false,
        };
        assert(file@.module_name =~= empty_state().module_name);
        assert(file@.lnames =~= empty_state().lnames);
        assert(file@.segments =~= empty_state().segments);
        assert(file@.groups =~= empty_state().groups);
        assert(file@.symbols =~= empty_state().symbols);
        assert(file@.typdefs =~= empty_state().typdefs);
        assert(file@.comdefs =~= empty_state().comdefs);
        assert(file@.fixupp_records =~= empty_state().fixupp_records);
        assert(file@.comdat_records =~= empty_state().comdat_records);
        assert(file@.extdef_symbol_indices =~= empty_state().extdef_symbol_indices);
        assert(file@.comdat_groups =~= empty_state().comdat_groups);
        assert(file@ == empty_state());
        match file.scan(data) {
            None => None,
            Some(Err(e)) => Some(Err(e)),
            Some(Ok(())) => {
                assert(data@.len() == data.len());
                proof {
                    lemma_scan_wf(initial_scan(empty_state()), data@, 0, true);
                }
                file.finalize();
                Some(Ok(file))
            },
        }
    }

    /// Parse the raw OMF data (see `spec_parse`). The reader aborts on a
    /// few malformed inputs (see `try_parse`), which are left out here.
    pub fn parse(data: &'data [u8]) -> (res: Result<OmfFile<'data>, Error>)
        requires
            spec_parse(data@) is Some,
        ensures
            match spec_parse(data@) {
                Some(Ok(st)) => res matches Ok(f) && f@ == st,
                Some(Err(e)) => res matches Err(re) && re == e,
                None => false,
            },
    {
        match Self::try_parse(data) {
            Some(r) => r,
            None => {
                assert(false);
                Err(Error("OMF read failed"))
            },
        }
    }

    /// Read the records of `data` (see `spec_scan_from`); `None` where the
    /// reader aborts.
    #[verifier::rlimit(50)]
    fn scan(&mut self, data: &'data [u8]) -> (res: Option<Result<(), Error>>)
        ensures
            match spec_scan_from(initial_scan(old(self)@), data@, 0, true) {
                None => res is None,
                Some(Ok(st)) => res == Some(Ok::<(), Error>(())) && final(self)@ == st,
                Some(Err(e)) => res == Some(Err::<(), Error>(e)),
            },
    {
        let ghost target = spec_scan_from(initial_scan(self@), data@, 0, true);
        let mut pos: usize = 0;
        let mut last: Option<DataTarget> = None;
        let mut last_off: u32 = 0;
        let mut tt = ThreadTable::new();
        assert(tt.target =~= no_threads().target);
        assert(tt.frame =~= no_threads().frame);
        let mut first = true;
        loop
            invariant
                pos <= data@.len(),
                target == spec_scan_from(initial_scan(old(self)@), data@, 0, true),
                spec_scan_from(ScanState { st: self@, last, last_off, tt }, data@, pos as int, first)
                    == target,
            decreases data@.len() - pos,
        {
            if pos >= data.len() {
                if self.module_name.len() == 0 && self.segments.len() == 0 {
                    return Some(Err(Error("OMF file has no records")));
                }
                return Some(Err(Error("OMF file has no MODEND record")));
            }
            let record_type = data[pos];
            if first && record_type != RT_THEADR {
                return Some(Err(Error("not an OMF object file")));
            }
            first = false;
            if data.len() - pos < 3 {
                return Some(Err(Error("truncated OMF record header")));
            }
            let record_length = data[pos + 1] as usize + 256 * data[pos + 2] as usize;
            if record_length < 1 {
                return Some(Err(Error("invalid OMF record length")));
            }
            if data.len() - pos - 3 < record_length {
                return Some(Err(Error("truncated OMF record")));
            }
            let next = pos + 3 + record_length;
            let record_bytes = vstd::slice::slice_subrange(data, pos, next);
            let _ = Self::verify_record_checksum(record_bytes);
            let body = vstd::slice::slice_subrange(data, pos + 3, next - 1);
            let ghost s = ScanState { st: self@, last, last_off, tt };
            assert(body@ =~= data@.subrange(pos + 3, pos + 2 + record_length));
            assert(record_bytes@ =~= data@.subrange(pos as int, pos + 3 + record_length));
            match self.read_record(record_type, body, record_bytes, &mut last, &mut last_off, &mut tt) {
                None => {
                    return None;
                },
                Some(Err(e)) => {
                    return Some(Err(e));
                },
                Some(Ok(true)) => {
                    return Some(Ok(()));
                },
                Some(Ok(false)) => {},
            }
            pos = next;
        }
    }
}

} // verus!
