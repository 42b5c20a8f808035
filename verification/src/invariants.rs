//! What every record keeps of a module: the LINK limits (255 segments, 31
//! groups, 1023 external ordinals), segment ordinals in order, alignments
//! of at most 256 bytes, external ordinals that name symbols, and one
//! COMDAT group per COMDEF entry, naming its communal symbol.
use vstd::prelude::*;

use crate::data::{spec_ledata, spec_lidata, store_data};
use crate::fixupp::{
    lemma_fixup_advances, lemma_thread_advances, reloc_of, spec_attach, spec_fixup,
    spec_fixupp, spec_fixupp_from, spec_thread,
};
use crate::modend::spec_modend;
use crate::omf::{
    le16, le32, spec_read_index, spec_read_name, spec_read_varlen, RT_COMDAT, RT_COMDAT32,
    RT_COMDEF, RT_COMENT, RT_EXTDEF, RT_FIXUPP, RT_FIXUPP32, RT_GRPDEF, RT_LEDATA, RT_LEDATA32,
    RT_LIDATA, RT_LINNUM, RT_LNAMES, RT_LOCAL_EXTDEF, RT_LOCAL_PUBDEF, RT_LOCAL_PUBDEF32,
    RT_MODEND, RT_MODEND32, RT_PUBDEF, RT_PUBDEF32, RT_SEGDEF, RT_SEGDEF32, RT_THEADR, RT_TYPDEF,
};
use crate::reader::{layout_bounded, spec_record, spec_scan_from, ScanState};
use crate::records::{
    add_communal, add_external, add_public, spec_comdef_from, type_index_left_out, spec_coment, spec_extdef_from,
    spec_grpdef, spec_linnum, spec_lnames_from, spec_pubdef, spec_pubdef_entries_from,
    spec_segdef, spec_theadr, spec_typdef,
};
use crate::state::{DataTarget, OmfState};
use crate::types::{CommunalKindView, ParsedFixuppSubrecord, ParsedSymbolKind, SymbolView, ThreadTable};

verus! {

/// COMDAT group `i` names a communal symbol with the name of COMDEF entry
/// `i`, with selection kind "any".
pub open spec fn comdat_group_ok(st: OmfState, i: int) -> bool {
    let g = st.comdat_groups[i];
    &&& g.0.0 < st.symbols.len()
    &&& st.symbols[g.0.0 as int].kind is Communal
    &&& st.symbols[g.0.0 as int].name == st.comdefs[i].name
    &&& g.1 is Any
}

/// What every module read from records satisfies.
pub open spec fn module_wf(st: OmfState) -> bool {
    &&& layout_bounded(st)
    &&& forall|i: int| 0 <= i < st.segments.len() ==> #[trigger] st.segments[i].ordinal == i + 1
    &&& st.groups.len() <= 31
    &&& st.extdef_symbol_indices.len() <= 1023
    &&& forall|i: int|
        0 <= i < st.extdef_symbol_indices.len() ==> (#[trigger] st.extdef_symbol_indices[i]).0
            < st.symbols.len()
    &&& st.comdat_groups.len() == st.comdefs.len()
    &&& forall|i: int| 0 <= i < st.comdat_groups.len() ==> #[trigger] comdat_group_ok(st, i)
}

/// A module that keeps the segment layouts, symbols, external ordinals,
/// COMDAT groups and COMDEF names of a well-formed one, with at most 31
/// groups, is well formed.
pub proof fn lemma_wf_frame(st: OmfState, st2: OmfState)
    requires
        module_wf(st),
        st2.segments.len() == st.segments.len(),
        forall|i: int|
            0 <= i < st.segments.len() ==> (#[trigger] st2.segments[i]).alignment
                == st.segments[i].alignment && st2.segments[i].ordinal == st.segments[i].ordinal,
        st2.groups.len() <= 31,
        st2.symbols == st.symbols,
        st2.extdef_symbol_indices == st.extdef_symbol_indices,
        st2.comdat_groups == st.comdat_groups,
        st2.comdefs.len() == st.comdefs.len(),
        forall|i: int| 0 <= i < st.comdefs.len() ==> (#[trigger] st2.comdefs[i]).name == st.comdefs[i].name,
    ensures
        module_wf(st2),
{
    assert forall|i: int| 0 <= i < st2.segments.len() implies 1 <= #[trigger] st2.segments[i].alignment
        <= 256 && st2.segments[i].ordinal == i + 1 by {
        assert(st.segments[i].ordinal == i + 1);
        assert(1 <= st.segments[i].alignment <= 256);
    }
    assert forall|i: int| 0 <= i < st2.comdat_groups.len() implies #[trigger] comdat_group_ok(st2, i) by {
        assert(comdat_group_ok(st, i));
        assert(st2.comdefs[i].name == st.comdefs[i].name);
    }
}

/// Appending a symbol that takes the next external ordinal keeps the module
/// well formed, below the limit of 1023 ordinals.
proof fn lemma_add_external_wf(st: OmfState, sym: SymbolView)
    requires
        module_wf(st),
        st.extdef_symbol_indices.len() < 1023,
    ensures
        module_wf(add_external(st, sym)),
{
    let st2 = add_external(st, sym);
    assert forall|i: int| 0 <= i < st2.comdat_groups.len() implies #[trigger] comdat_group_ok(st2, i) by {
        assert(comdat_group_ok(st, i));
        let g = st.comdat_groups[i];
        assert(st2.symbols[g.0.0 as int] == st.symbols[g.0.0 as int]);
    }
}

/// Appending a public symbol keeps the module well formed.
proof fn lemma_add_public_wf(st: OmfState, sym: SymbolView, is_local: bool)
    requires
        module_wf(st),
        is_local ==> st.extdef_symbol_indices.len() < 1023,
    ensures
        module_wf(add_public(st, sym, is_local)),
{
    if is_local {
        lemma_add_external_wf(st, sym);
    } else {
        let st2 = add_public(st, sym, is_local);
        assert forall|i: int| 0 <= i < st2.comdat_groups.len() implies #[trigger] comdat_group_ok(st2, i) by {
            assert(comdat_group_ok(st, i));
            let g = st.comdat_groups[i];
            assert(st2.symbols[g.0.0 as int] == st.symbols[g.0.0 as int]);
        }
    }
}

/// Appending a communal entry keeps the module well formed.
proof fn lemma_add_communal_wf(st: OmfState, name: Seq<u8>, type_index: u16, communal: CommunalKindView)
    requires
        module_wf(st),
        st.symbols.len() < usize::MAX,
    ensures
        add_communal(st, name, type_index, communal) matches Ok(st2) ==> module_wf(st2),
{
    if let Ok(st2) = add_communal(st, name, type_index, communal) {
        assert forall|i: int| 0 <= i < st2.comdat_groups.len() implies #[trigger] comdat_group_ok(st2, i) by {
            if i < st.comdat_groups.len() {
                assert(comdat_group_ok(st, i));
                let g = st.comdat_groups[i];
                assert(st2.symbols[g.0.0 as int] == st.symbols[g.0.0 as int]);
                assert(st2.comdefs[i] == st.comdefs[i]);
            } else {
                assert(i == st.comdat_groups.len());
                assert(st2.comdat_groups[i].0.0 == st.symbols.len());
                assert(st2.comdefs[i].name == name);
            }
        }
    }
}

/// LNAMES only appends names.
proof fn lemma_lnames_wf(st: OmfState, body: Seq<u8>, pos: int)
    requires
        module_wf(st),
    ensures
        spec_lnames_from(st, body, pos) matches Ok(st2) ==> module_wf(st2) && st2.symbols
            == st.symbols,
    decreases body.len() - pos,
{
    if 0 <= pos < body.len() {
        if let Some((name, c)) = spec_read_name(body, pos) {
            let st2 = OmfState { lnames: st.lnames.push(name), ..st };
            lemma_wf_frame(st, st2);
            lemma_lnames_wf(st2, body, pos + c);
        }
    }
}

/// EXTDEF keeps the module well formed.
proof fn lemma_extdef_wf(st: OmfState, body: Seq<u8>, is_local: bool, pos: int)
    requires
        module_wf(st),
        0 <= pos <= body.len(),
    ensures
        spec_extdef_from(st, body, is_local, pos) matches Ok(st2) ==> module_wf(st2)
            && st2.symbols.len() <= st.symbols.len() + (body.len() - pos),
    decreases body.len() - pos,
{
    if 0 <= pos < body.len() {
        if let Some((name, c)) = spec_read_name(body, pos) {
            if let Some((_, c2)) = spec_read_index(body, pos + c) {
                if st.extdef_symbol_indices.len() < 1023 {
                    let sym = SymbolView {
                        name,
                        kind: if is_local {
                            ParsedSymbolKind::LocalExternal
                        } else {
                            ParsedSymbolKind::External
                        },
                        seg_ordinal: 0,
                        offset: 0,
                    };
                    lemma_add_external_wf(st, sym);
                    lemma_extdef_wf(add_external(st, sym), body, is_local, pos + c + c2);
                }
            }
        }
    }
}

/// The entries of a PUBDEF keep the module well formed.
proof fn lemma_pubdef_entries_wf(
    st: OmfState,
    body: Seq<u8>,
    is_local: bool,
    is_32: bool,
    seg_idx: u16,
    pos: int,
)
    requires
        module_wf(st),
        0 <= pos <= body.len(),
    ensures
        spec_pubdef_entries_from(st, body, is_local, is_32, seg_idx, pos) matches Ok(st2)
            ==> module_wf(st2) && st2.symbols.len() <= st.symbols.len() + (body.len() - pos),
    decreases body.len() - pos,
{
    if 0 <= pos < body.len() {
        if let Some((name, c)) = spec_read_name(body, pos) {
            let p = pos + c;
            if !(is_32 && p + 4 > body.len()) && !(!is_32 && p + 2 > body.len()) {
                let offset: u32 = if is_32 {
                    le32(body[p], body[p + 1], body[p + 2], body[p + 3]) as u32
                } else {
                    le16(body[p], body[p + 1]) as u32
                };
                let p = if is_32 {
                    p + 4
                } else {
                    p + 2
                };
                if let Some((_, c2)) = spec_read_index(body, p) {
                    if !(is_local && st.extdef_symbol_indices.len() >= 1023) {
                        let sym = SymbolView {
                            name,
                            kind: if is_local {
                                ParsedSymbolKind::LocalPublic
                            } else {
                                ParsedSymbolKind::Public
                            },
                            seg_ordinal: seg_idx,
                            offset,
                        };
                        lemma_add_public_wf(st, sym, is_local);
                        lemma_pubdef_entries_wf(
                            add_public(st, sym, is_local),
                            body,
                            is_local,
                            is_32,
                            seg_idx,
                            p + c2,
                        );
                    }
                }
            }
        }
    }
}

/// PUBDEF keeps the module well formed.
proof fn lemma_pubdef_wf(st: OmfState, body: Seq<u8>, is_local: bool, is_32: bool)
    requires
        module_wf(st),
    ensures
        spec_pubdef(st, body, is_local, is_32) matches Ok(st2) ==> module_wf(st2)
            && st2.symbols.len() <= st.symbols.len() + body.len(),
{
    if let Some((_, c)) = spec_read_index(body, 0) {
        if let Some((seg_idx, c2)) = spec_read_index(body, c) {
            let pos = c + c2;
            let start = if seg_idx == 0 {
                pos + 2
            } else {
                pos
            };
            if start <= body.len() {
                lemma_pubdef_entries_wf(st, body, is_local, is_32, seg_idx, start);
            }
        }
    }
}

/// COMDEF keeps the module well formed.
proof fn lemma_comdef_wf(st: OmfState, body: Seq<u8>, pos: int)
    requires
        module_wf(st),
        0 <= pos <= body.len(),
        st.symbols.len() + (body.len() - pos) <= usize::MAX,
    ensures
        spec_comdef_from(st, body, pos) matches Ok(st2) ==> module_wf(st2)
            && st2.symbols.len() <= st.symbols.len() + (body.len() - pos),
    decreases body.len() - pos,
{
    if 0 <= pos < body.len() {
        if let Some((name, c)) = spec_read_name(body, pos) {
            if let Some((read_type_index, c2)) = spec_read_index(body, pos + c) {
                let p = pos + c + c2;
                if p < body.len() {
                    let t = body[pos + c];
                    let no_type_index = type_index_left_out(body, pos + c);
                    let type_index: u16 = if no_type_index { 0 } else { read_type_index };
                    let dst = if no_type_index { t } else { body[p] };
                    let p = if no_type_index { pos + c + 1 } else { p + 1 };
                    if dst == 0x62 {
                        if let Some((size, c3)) = spec_read_varlen(body, p) {
                            let k = CommunalKindView::Near { size };
                            lemma_add_communal_wf(st, name, type_index, k);
                            if let Ok(st2) = add_communal(st, name, type_index, k) {
                                lemma_comdef_wf(st2, body, p + c3);
                            }
                        }
                    } else if dst == 0x61 {
                        if let Some((count, c3)) = spec_read_varlen(body, p) {
                            if let Some((element_size, c4)) = spec_read_varlen(body, p + c3) {
                                let k = CommunalKindView::Far { count, element_size };
                                lemma_add_communal_wf(st, name, type_index, k);
                                if let Ok(st2) = add_communal(st, name, type_index, k) {
                                    lemma_comdef_wf(st2, body, p + c3 + c4);
                                }
                            }
                        }
                    } else if 0x01 <= dst <= 0x5F {
                        let k = CommunalKindView::BorlandSegment { index: dst };
                        lemma_add_communal_wf(st, name, type_index, k);
                        if let Ok(st2) = add_communal(st, name, type_index, k) {
                            lemma_comdef_wf(
                                st2,
                                body,
                                if p < body.len() {
                                    p + 1
                                } else {
                                    p
                                },
                            );
                        }
                    }
                }
            }
        }
    }
}

/// SEGDEF keeps the module well formed: it refuses a 256th segment, gives
/// the new segment the next ordinal, and its alignments are at most 256.
proof fn lemma_segdef_wf(st: OmfState, body: Seq<u8>, is_32: bool)
    requires
        module_wf(st),
    ensures
        spec_segdef(st, body, is_32) matches Ok(st2) ==> module_wf(st2),
{
    if let Ok(st2) = spec_segdef(st, body, is_32) {
        assert(st2.segments.len() == st.segments.len() + 1);
        assert forall|i: int| 0 <= i < st2.segments.len() implies 1 <= #[trigger] st2.segments[i].alignment
            <= 256 && st2.segments[i].ordinal == i + 1 by {
            if i < st.segments.len() {
                assert(st2.segments[i] == st.segments[i]);
            }
        }
        assert forall|i: int| 0 <= i < st2.comdat_groups.len() implies #[trigger] comdat_group_ok(st2, i) by {
            assert(comdat_group_ok(st, i));
            assert(st2.comdefs[i] == st.comdefs[i]);
        }
    }
}

/// The plain records that change neither segments nor symbols keep the
/// module well formed.
proof fn lemma_plain_wf(st: OmfState, body: Seq<u8>)
    requires
        module_wf(st),
    ensures
        spec_theadr(st, body) matches Ok(st2) ==> module_wf(st2),
        spec_typdef(st, body) matches Ok(st2) ==> module_wf(st2),
        spec_linnum(st, body) matches Ok(st2) ==> module_wf(st2),
        spec_coment(st, body) matches Ok(st2) ==> module_wf(st2),
        spec_grpdef(st, body) matches Ok(st2) ==> module_wf(st2),
{
    if let Ok(st2) = spec_theadr(st, body) {
        lemma_wf_frame(st, st2);
    }
    if let Ok(st2) = spec_typdef(st, body) {
        lemma_wf_frame(st, st2);
    }
    if let Ok(st2) = spec_coment(st, body) {
        lemma_wf_frame(st, st2);
    }
    if let Ok(st2) = spec_grpdef(st, body) {
        lemma_wf_frame(st, st2);
    }
}

/// Writing data to a segment or communal entry that exists keeps the
/// module well formed.
proof fn lemma_store_wf(st: OmfState, target: DataTarget, off: int, bytes: Seq<u8>)
    requires
        module_wf(st),
        target matches DataTarget::Segment(o) ==> 1 <= o <= st.segments.len(),
    ensures
        module_wf(store_data(st, target, off, bytes)),
{
    let st2 = store_data(st, target, off, bytes);
    if let DataTarget::Communal { comdef_ord } = target {
        if comdef_ord != 0 && comdef_ord <= st.extdef_symbol_indices.len() {
            crate::state::lemma_first_group_bounds(
                st.comdat_groups,
                st.extdef_symbol_indices[comdef_ord - 1],
                0,
            );
        }
    }
    lemma_wf_frame(st, st2);
}

/// Attaching a relocation keeps the module well formed.
proof fn lemma_attach_wf(st: OmfState, last: Option<DataTarget>, r: crate::types::ParsedReloc)
    requires
        module_wf(st),
    ensures
        spec_attach(st, last, r) matches Ok(st2) ==> module_wf(st2),
{
    if let Some(DataTarget::Communal { comdef_ord }) = last {
        if comdef_ord != 0 && comdef_ord <= st.extdef_symbol_indices.len() {
            crate::state::lemma_first_group_bounds(
                st.comdat_groups,
                st.extdef_symbol_indices[comdef_ord - 1],
                0,
            );
        }
    }
    if let Ok(st2) = spec_attach(st, last, r) {
        lemma_wf_frame(st, st2);
    }
}

/// The subrecords of a FIXUPP record keep the module well formed.
proof fn lemma_fixupp_from_wf(
    st: OmfState,
    tt: ThreadTable,
    subs: Seq<ParsedFixuppSubrecord>,
    body: Seq<u8>,
    pos: int,
    last: Option<DataTarget>,
    ledata_off: u32,
    is_32: bool,
)
    requires
        module_wf(st),
    ensures
        spec_fixupp_from(st, tt, subs, body, pos, last, ledata_off, is_32) matches Some(Ok((st2, _, _)))
            ==> module_wf(st2) && st2.symbols == st.symbols,
    decreases body.len() - pos,
{
    if 0 <= pos < body.len() {
        if (body[pos] & 0x80) == 0 {
            if let Ok((th, tt2, end)) = spec_thread(body, pos, tt) {
                lemma_thread_advances(body, pos, tt);
                lemma_fixupp_from_wf(
                    st,
                    tt2,
                    subs.push(ParsedFixuppSubrecord::Thread(th)),
                    body,
                    end,
                    last,
                    ledata_off,
                    is_32,
                );
            }
        } else {
            if let Some(Ok((fx, end))) = spec_fixup(body, pos, tt, ledata_off, is_32) {
                lemma_attach_wf(st, last, reloc_of(fx));
                if let Ok(st2) = spec_attach(st, last, reloc_of(fx)) {
                    lemma_fixup_advances(body, pos, tt, ledata_off, is_32);
                    lemma_fixupp_from_wf(
                        st2,
                        tt,
                        subs.push(ParsedFixuppSubrecord::Fixup(fx)),
                        body,
                        end,
                        last,
                        ledata_off,
                        is_32,
                    );
                }
            }
        }
    }
}

/// FIXUPP keeps the module well formed.
proof fn lemma_fixupp_wf(
    st: OmfState,
    tt: ThreadTable,
    body: Seq<u8>,
    last: Option<DataTarget>,
    ledata_off: u32,
    is_32: bool,
)
    requires
        module_wf(st),
    ensures
        spec_fixupp(st, tt, body, last, ledata_off, is_32) matches Some(Ok((st2, _))) ==> module_wf(st2)
            && st2.symbols == st.symbols,
{
    lemma_fixupp_from_wf(st, tt, Seq::empty(), body, 0, last, ledata_off, is_32);
    if let Some(Ok((st2, _))) = spec_fixupp(st, tt, body, last, ledata_off, is_32) {
        if let Some(Ok((st1, _, _))) = spec_fixupp_from(st, tt, Seq::empty(), body, 0, last, ledata_off, is_32) {
            lemma_wf_frame(st1, st2);
        }
    }
}

/// The records that declare names, segments and groups keep the module
/// well formed and add no symbol.
proof fn lemma_record_decl_wf(s: ScanState, rt: u8, body: Seq<u8>, record: Seq<u8>)
    requires
        module_wf(s.st),
        rt == RT_THEADR || rt == RT_TYPDEF || rt == RT_LINNUM || rt == RT_GRPDEF || rt == RT_LNAMES
            || rt == RT_SEGDEF || rt == RT_SEGDEF32 || rt == RT_COMENT,
    ensures
        spec_record(s, rt, body, record) matches Some(Ok((s2, _))) ==> module_wf(s2.st)
            && s2.st.symbols == s.st.symbols,
{
    let st = s.st;
    lemma_plain_wf(st, body);
    lemma_lnames_wf(st, body, 0);
    lemma_segdef_wf(st, body, rt == RT_SEGDEF32);
    lemma_segdef_wf(st, body, false);
}

/// The records that declare symbols keep the module well formed, adding at
/// most one symbol per byte.
proof fn lemma_record_sym_wf(s: ScanState, rt: u8, body: Seq<u8>, record: Seq<u8>)
    requires
        module_wf(s.st),
        s.st.symbols.len() + body.len() <= usize::MAX,
        rt == RT_EXTDEF || rt == RT_LOCAL_EXTDEF || rt == RT_PUBDEF || rt == RT_PUBDEF32 || rt
            == RT_LOCAL_PUBDEF || rt == RT_LOCAL_PUBDEF32 || rt == RT_COMDEF,
    ensures
        spec_record(s, rt, body, record) matches Some(Ok((s2, _))) ==> module_wf(s2.st)
            && s2.st.symbols.len() <= s.st.symbols.len() + body.len(),
{
    let st = s.st;
    if rt == RT_EXTDEF || rt == RT_LOCAL_EXTDEF {
        lemma_extdef_wf(st, body, rt == RT_LOCAL_EXTDEF, 0);
    } else if rt == RT_COMDEF {
        lemma_comdef_wf(st, body, 0);
    } else {
        lemma_pubdef_wf(
            st,
            body,
            rt == RT_LOCAL_PUBDEF || rt == RT_LOCAL_PUBDEF32,
            rt == RT_PUBDEF32 || rt == RT_LOCAL_PUBDEF32,
        );
    }
}

/// The data records keep the module well formed.
proof fn lemma_record_data_wf(s: ScanState, rt: u8, body: Seq<u8>, record: Seq<u8>)
    requires
        module_wf(s.st),
        rt == RT_LEDATA || rt == RT_LEDATA32 || rt == RT_LIDATA,
    ensures
        spec_record(s, rt, body, record) matches Some(Ok((s2, _))) ==> module_wf(s2.st)
            && s2.st.symbols == s.st.symbols,
{
    let st = s.st;
    if rt == RT_LEDATA || rt == RT_LEDATA32 {
        if let Ok((st2, t, off)) = spec_ledata(st, body, rt == RT_LEDATA32) {
            let w: int = if rt == RT_LEDATA32 {
                4
            } else {
                2
            };
            if let Some((_, c)) = spec_read_index(body, 0) {
                lemma_store_wf(st, t, off as int, body.subrange(c + w, body.len() as int));
            }
        }
    } else {
        if let Ok((st2, t, off)) = spec_lidata(st, body) {
            if let Some((_, c)) = spec_read_index(body, 0) {
                if let Ok((expanded, _)) = crate::lidata::spec_expand_lidata(
                    body.subrange(c + 2, body.len() as int),
                    0,
                    0,
                ) {
                    lemma_store_wf(st, t, off as int, expanded);
                }
            }
        }
    }
}

/// FIXUPP, COMDAT, MODEND and skipped records keep the module well formed.
proof fn lemma_record_other_wf(s: ScanState, rt: u8, body: Seq<u8>, record: Seq<u8>)
    requires
        module_wf(s.st),
        !(rt == RT_THEADR || rt == RT_TYPDEF || rt == RT_LINNUM || rt == RT_GRPDEF || rt == RT_LNAMES
            || rt == RT_SEGDEF || rt == RT_SEGDEF32 || rt == RT_COMENT),
        !(rt == RT_EXTDEF || rt == RT_LOCAL_EXTDEF || rt == RT_PUBDEF || rt == RT_PUBDEF32 || rt
            == RT_LOCAL_PUBDEF || rt == RT_LOCAL_PUBDEF32 || rt == RT_COMDEF),
        !(rt == RT_LEDATA || rt == RT_LEDATA32 || rt == RT_LIDATA),
    ensures
        spec_record(s, rt, body, record) matches Some(Ok((s2, _))) ==> module_wf(s2.st)
            && s2.st.symbols == s.st.symbols,
{
    let st = s.st;
    if rt == RT_FIXUPP || rt == RT_FIXUPP32 {
        lemma_fixupp_wf(st, s.tt, body, s.last, s.last_off, rt == RT_FIXUPP32);
    } else if let Some(Ok((s2, _))) = spec_record(s, rt, body, record) {
        lemma_wf_frame(st, s2.st);
    }
}

/// Every record keeps the module well formed, adding at most one symbol
/// per byte of its body.
pub proof fn lemma_record_wf(s: ScanState, rt: u8, body: Seq<u8>, record: Seq<u8>)
    requires
        module_wf(s.st),
        s.st.symbols.len() + body.len() <= usize::MAX,
    ensures
        spec_record(s, rt, body, record) matches Some(Ok((s2, _))) ==> module_wf(s2.st)
            && s2.st.symbols.len() <= s.st.symbols.len() + body.len(),
{
    if rt == RT_THEADR || rt == RT_TYPDEF || rt == RT_LINNUM || rt == RT_GRPDEF || rt == RT_LNAMES
        || rt == RT_SEGDEF || rt == RT_SEGDEF32 || rt == RT_COMENT {
        lemma_record_decl_wf(s, rt, body, record);
    } else if rt == RT_EXTDEF || rt == RT_LOCAL_EXTDEF || rt == RT_PUBDEF || rt == RT_PUBDEF32 || rt
        == RT_LOCAL_PUBDEF || rt == RT_LOCAL_PUBDEF32 || rt == RT_COMDEF {
        lemma_record_sym_wf(s, rt, body, record);
    } else if rt == RT_LEDATA || rt == RT_LEDATA32 || rt == RT_LIDATA {
        lemma_record_data_wf(s, rt, body, record);
    } else {
        lemma_record_other_wf(s, rt, body, record);
    }
}

/// Reading the records keeps the module well formed.
pub proof fn lemma_scan_wf(s: ScanState, data: Seq<u8>, pos: int, first: bool)
    requires
        module_wf(s.st),
        0 <= pos <= data.len(),
        s.st.symbols.len() + (data.len() - pos) <= usize::MAX,
    ensures
        spec_scan_from(s, data, pos, first) matches Some(Ok(st)) ==> module_wf(st),
    decreases data.len() - pos,
{
    if 0 <= pos < data.len() && pos + 3 <= data.len() {
        let rt = data[pos];
        let rl = le16(data[pos + 1], data[pos + 2]);
        if rl >= 1 && pos + 3 + rl <= data.len() {
            let body = data.subrange(pos + 3, pos + 2 + rl);
            let record = data.subrange(pos, pos + 3 + rl);
            lemma_record_wf(s, rt, body, record);
            if let Some(Ok((s2, done))) = spec_record(s, rt, body, record) {
                if !done {
                    lemma_scan_wf(s2, data, pos + 3 + rl, false);
                }
            }
        }
    }
}

} // verus!
