//! The state of an OMF module while it is read, and what that state means.
use vstd::prelude::*;

use crate::error::Error;
use crate::model::{ComdatKind, SymbolIndex};
use crate::types::{
    CombatRecord, CombatRecordView, ComdefEntryView, EntryPoint, FixuppRecordView, GroupView,
    ParsedComdefEntry, ParsedFixuppRecord, ParsedGroup, ParsedSegment, ParsedSymbol,
    ParsedTypDefRecord, SegmentView, SymbolView, TypDefView,
};

verus! {

/// An OMF object module.
#[derive(Debug)]
pub struct OmfFile<'data> {
    pub module_name: &'data [u8],
    pub lnames: Vec<&'data [u8]>,
    /// The segment list of the file.
    pub segments: Vec<ParsedSegment>,
    /// The group list of the file.
    pub groups: Vec<ParsedGroup>,
    /// The symbol list of the file.
    pub symbols: Vec<ParsedSymbol<'data>>,
    /// Parsed TYPDEF records (obsolete compatibility records).
    pub typdefs: Vec<ParsedTypDefRecord<'data>>,
    /// Parsed COMDEF entries (communal variables) found in the file.
    pub comdefs: Vec<ParsedComdefEntry<'data>>,
    /// Decoded FIXUPP records.
    pub fixupp_records: Vec<ParsedFixuppRecord>,
    /// Parsed COMDAT (0xC2/0xC3) records.
    pub comdat_records: Vec<CombatRecord>,
    /// For each ordinal of the external name space (EXTDEF, LEXTDEF,
    /// LPUBDEF and COMDEF entries, in order), the symbol it names.
    pub extdef_symbol_indices: Vec<SymbolIndex>,
    pub entry: EntryPoint,
    /// COMDAT groups derived from COMDEF entries, one per entry.
    pub comdat_groups: Vec<(SymbolIndex, ComdatKind)>,
    pub has_ms_ext: bool,
}

/// The content of an OMF module.
pub struct OmfState {
    pub module_name: Seq<u8>,
    pub lnames: Seq<Seq<u8>>,
    pub segments: Seq<SegmentView>,
    pub groups: Seq<GroupView>,
    pub symbols: Seq<SymbolView>,
    pub typdefs: Seq<TypDefView>,
    pub comdefs: Seq<ComdefEntryView>,
    pub fixupp_records: Seq<FixuppRecordView>,
    pub comdat_records: Seq<CombatRecordView>,
    pub extdef_symbol_indices: Seq<SymbolIndex>,
    pub entry: EntryPoint,
    pub comdat_groups: Seq<(SymbolIndex, ComdatKind)>,
    pub has_ms_ext: bool,
}

pub open spec fn view_name(n: &[u8]) -> Seq<u8> {
    n@
}

pub open spec fn view_segment(s: ParsedSegment) -> SegmentView {
    s@
}

pub open spec fn view_group(g: ParsedGroup) -> GroupView {
    g@
}

pub open spec fn view_symbol<'a>(s: ParsedSymbol<'a>) -> SymbolView {
    s@
}

pub open spec fn view_typdef<'a>(t: ParsedTypDefRecord<'a>) -> TypDefView {
    t@
}

pub open spec fn view_comdef<'a>(c: ParsedComdefEntry<'a>) -> ComdefEntryView {
    c@
}

pub open spec fn view_fixupp(r: ParsedFixuppRecord) -> FixuppRecordView {
    r@
}

pub open spec fn view_comdat(r: CombatRecord) -> CombatRecordView {
    r@
}

impl<'data> View for OmfFile<'data> {
    type V = OmfState;

    open spec fn view(&self) -> OmfState {
        OmfState {
            module_name: self.module_name@,
            lnames: self.lnames@.map_values(|n: &'data [u8]| view_name(n)),
            segments: self.segments@.map_values(|s: ParsedSegment| view_segment(s)),
            groups: self.groups@.map_values(|g: ParsedGroup| view_group(g)),
            symbols: self.symbols@.map_values(|s: ParsedSymbol<'data>| view_symbol(s)),
            typdefs: self.typdefs@.map_values(|t: ParsedTypDefRecord<'data>| view_typdef(t)),
            comdefs: self.comdefs@.map_values(|c: ParsedComdefEntry<'data>| view_comdef(c)),
            fixupp_records: self.fixupp_records@.map_values(|r: ParsedFixuppRecord| view_fixupp(r)),
            comdat_records: self.comdat_records@.map_values(|r: CombatRecord| view_comdat(r)),
            extdef_symbol_indices: self.extdef_symbol_indices@,
            entry: self.entry,
            comdat_groups: self.comdat_groups@,
            has_ms_ext: self.has_ms_ext,
        }
    }
}

/// The module before any record is read.
pub open spec fn empty_state() -> OmfState {
    OmfState {
        module_name: Seq::empty(),
        lnames: Seq::empty(),
        segments: Seq::empty(),
        groups: Seq::empty(),
        symbols: Seq::empty(),
        typdefs: Seq::empty(),
        comdefs: Seq::empty(),
        fixupp_records: Seq::empty(),
        comdat_records: Seq::empty(),
        extdef_symbol_indices: Seq::empty(),
        entry: EntryPoint::NoEntry,
        comdat_groups: Seq::empty(),
        has_ms_ext: false,
    }
}

/// What a record parser's result says of the module: the new state when it
/// succeeded, its error otherwise.
pub open spec fn outcome(res: Result<(), Error>, st: OmfState) -> Result<OmfState, Error> {
    match res {
        Ok(_) => Ok(st),
        Err(e) => Err(e),
    }
}

/// The target of a LEDATA/LIDATA record: a segment ordinal (1-based), a
/// communal (COMDEF-derived) entry named by its external ordinal, or a
/// COMDAT record named by its position among the COMDAT records.
#[derive(Clone, Copy, Debug)]
pub enum DataTarget {
    Segment(u16),
    Communal { comdef_ord: u16 },
    Comdat { index: usize },
    Unknown,
}

/// `buf` with `bytes` written at `off`, zero-filled up to `off` first when
/// it is shorter than `off + bytes.len()`.
pub open spec fn write_at(buf: Seq<u8>, off: int, bytes: Seq<u8>) -> Seq<u8> {
    let end = off + bytes.len();
    let grown = if buf.len() < end {
        buf + Seq::new((end - buf.len()) as nat, |i: int| 0u8)
    } else {
        buf
    };
    grown.subrange(0, off) + bytes + grown.subrange(end, grown.len() as int)
}

/// Write `bytes` into `buf` at `off`, growing `buf` with zeros as needed.
pub fn write_bytes(buf: &mut Vec<u8>, off: usize, bytes: &[u8])
    requires
        off + bytes@.len() <= usize::MAX,
    ensures
        final(buf)@ == write_at(old(buf)@, off as int, bytes@),
{
    let end = off + bytes.len();
    if buf.len() < end {
        buf.resize(end, 0);
    }
    let ghost grown = buf@;
    assert(grown =~= (if old(buf)@.len() < end {
        old(buf)@ + Seq::new((end - old(buf)@.len()) as nat, |i: int| 0u8)
    } else {
        old(buf)@
    }));
    let mut i: usize = 0;
    while i < bytes.len()
        invariant
            i <= bytes@.len(),
            end == off + bytes@.len(),
            buf@.len() == grown.len(),
            grown.len() >= end,
            forall|k: int| 0 <= k < off ==> buf@[k] == grown[k],
            forall|k: int| end <= k < grown.len() ==> buf@[k] == grown[k],
            forall|k: int| off + i <= k < end ==> buf@[k] == grown[k],
            forall|k: int| 0 <= k < i ==> buf@[off + k] == bytes@[k],
        decreases bytes@.len() - i,
    {
        buf[off + i] = bytes[i];
        i = i + 1;
    }
    assert(buf@ =~= write_at(old(buf)@, off as int, bytes@));
}

/// The first position at or after `i` of a COMDAT group naming `sym`.
pub open spec fn first_group_from(
    groups: Seq<(SymbolIndex, ComdatKind)>,
    sym: SymbolIndex,
    i: int,
) -> Option<int>
    decreases groups.len() - i,
{
    if i < 0 || i >= groups.len() {
        None
    } else if groups[i].0 == sym {
        Some(i)
    } else {
        first_group_from(groups, sym, i + 1)
    }
}

/// A group found from `i` lies between `i` and the end, and names `sym`.
pub proof fn lemma_first_group_bounds(groups: Seq<(SymbolIndex, ComdatKind)>, sym: SymbolIndex, i: int)
    ensures
        first_group_from(groups, sym, i) matches Some(p) ==> i <= p < groups.len() && groups[p].0
            == sym,
    decreases groups.len() - i,
{
    if i >= 0 && i < groups.len() && groups[i].0 != sym {
        lemma_first_group_bounds(groups, sym, i + 1);
    }
}

/// The position of the communal entry that an external ordinal names, if
/// that ordinal names a COMDEF-derived symbol.
pub open spec fn communal_pos(st: OmfState, ordinal: u16) -> Option<int> {
    if ordinal == 0 || ordinal > st.extdef_symbol_indices.len() {
        None
    } else {
        match first_group_from(st.comdat_groups, st.extdef_symbol_indices[ordinal - 1], 0) {
            Some(p) => if p < st.comdefs.len() {
                Some(p)
            } else {
                None
            },
            None => None,
        }
    }
}

/// How an index in a LEDATA/LIDATA record is understood: a segment ordinal
/// when such a segment exists, else an external ordinal when it names a
/// communal entry.
pub open spec fn classify_target(st: OmfState, seg_idx: u16) -> DataTarget {
    if seg_idx != 0 && seg_idx <= st.segments.len() {
        DataTarget::Segment(seg_idx)
    } else if communal_pos(st, seg_idx) is Some {
        DataTarget::Communal { comdef_ord: seg_idx }
    } else {
        DataTarget::Unknown
    }
}

impl<'data> OmfFile<'data> {
    /// The position of the COMDAT group that names `sym`, if any.
    pub(crate) fn find_comdat_group(&self, sym: SymbolIndex) -> (res: Option<usize>)
        ensures
            res is Some <==> first_group_from(self@.comdat_groups, sym, 0) is Some,
            res matches Some(r) ==> first_group_from(self@.comdat_groups, sym, 0) == Some(r as int),
    {
        proof {
            lemma_first_group_bounds(self@.comdat_groups, sym, 0);
        }
        let mut i: usize = 0;
        while i < self.comdat_groups.len()
            invariant
                i <= self.comdat_groups@.len(),
                first_group_from(self@.comdat_groups, sym, 0) == first_group_from(
                    self@.comdat_groups,
                    sym,
                    i as int,
                ),
            decreases self.comdat_groups@.len() - i,
        {
            if self.comdat_groups[i].0.0 == sym.0 {
                return Some(i);
            }
            i = i + 1;
        }
        None
    }

    /// The position of the communal entry that an external ordinal names.
    pub(crate) fn communal_position(&self, ordinal: u16) -> (res: Option<usize>)
        ensures
            res is Some <==> communal_pos(self@, ordinal) is Some,
            res matches Some(r) ==> communal_pos(self@, ordinal) == Some(r as int),
    {
        if ordinal == 0 || ordinal as usize > self.extdef_symbol_indices.len() {
            return None;
        }
        let sym = self.extdef_symbol_indices[ordinal as usize - 1];
        proof {
            lemma_first_group_bounds(self@.comdat_groups, sym, 0);
        }
        assert(self@.comdefs.len() == self.comdefs@.len());
        assert(sym == self@.extdef_symbol_indices[ordinal - 1]);
        let found = self.find_comdat_group(sym);
        assert(communal_pos(self@, ordinal) == match first_group_from(self@.comdat_groups, sym, 0) {
            Some(p) => if p < self@.comdefs.len() {
                Some(p)
            } else {
                None
            },
            None => None,
        });
        match found {
            Some(p) => if p < self.comdefs.len() {
                Some(p)
            } else {
                None
            },
            None => None,
        }
    }

    /// Classify a decoded LEDATA/LIDATA index into a DataTarget.
    pub(crate) fn classify_data_target(&self, seg_idx: u16) -> (t: DataTarget)
        ensures
            t == classify_target(self@, seg_idx),
    {
        if seg_idx != 0 && (seg_idx as usize) <= self.segments.len() {
            return DataTarget::Segment(seg_idx);
        }
        match self.communal_position(seg_idx) {
            Some(_) => DataTarget::Communal { comdef_ord: seg_idx },
            None => DataTarget::Unknown,
        }
    }
}

} // verus!
