//! The records that declare names, segments, groups and symbols.
use vstd::prelude::*;

use crate::error::Error;
use crate::model::{ComdatKind, SymbolIndex};
use crate::omf::{
    le16, le32, read_index, read_name, read_varlen, spec_read_index, spec_read_name,
    spec_read_varlen,
};
use crate::state::{outcome, OmfFile, OmfState};
use crate::types::{
    ComdefEntryView, CommunalKindView, GroupView, ParsedComdefEntry, ParsedCommunalKind,
    ParsedGroup, ParsedGroupComponent, ParsedSegment, ParsedSymbol, ParsedSymbolKind,
    ParsedTypDefDescriptor, ParsedTypDefRecord, SegmentView, SymbolView, TypDefDescriptorView,
    TypDefView,
};

verus! {

// ── THEADR ────────────────────────────────────────────────────────────────

/// THEADR: the module name is the record's length-prefixed name.
pub open spec fn spec_theadr(st: OmfState, body: Seq<u8>) -> Result<OmfState, Error> {
    match spec_read_name(body, 0) {
        None => Err(Error("truncated THEADR")),
        Some((name, _)) => Ok(OmfState { module_name: name, ..st }),
    }
}

// ── LNAMES ────────────────────────────────────────────────────────────────

/// LNAMES from `pos`: each length-prefixed name is appended to the name list.
pub open spec fn spec_lnames_from(st: OmfState, body: Seq<u8>, pos: int) -> Result<OmfState, Error>
    decreases body.len() - pos,
{
    if pos < 0 || pos >= body.len() {
        Ok(st)
    } else {
        match spec_read_name(body, pos) {
            None => Err(Error("truncated LNAMES")),
            Some((name, c)) => spec_lnames_from(
                OmfState { lnames: st.lnames.push(name), ..st },
                body,
                pos + c,
            ),
        }
    }
}

// ── SEGDEF ────────────────────────────────────────────────────────────────

/// The alignment in bytes that a SEGDEF A-field stands for, if it is known.
pub open spec fn segdef_alignment(a_field: u8) -> Option<u32> {
    if a_field == 0 || a_field == 1 {
        Some(1u32)
    } else if a_field == 2 {
        Some(2u32)
    } else if a_field == 5 {
        Some(4u32)
    } else if a_field == 3 {
        Some(16u32)
    } else if a_field == 4 {
        Some(256u32)
    } else {
        None
    }
}

/// A 0-based name-list index from a 1-based one; 0 (no name) becomes u16::MAX.
pub open spec fn name_slot(idx: u16) -> u16 {
    if idx == 0 {
        u16::MAX
    } else {
        (idx - 1) as u16
    }
}

/// SEGDEF (and SEGDEF32 when `is_32`): one new segment, with no data yet.
pub open spec fn spec_segdef(st: OmfState, body: Seq<u8>, is_32: bool) -> Result<OmfState, Error> {
    if body.len() == 0 {
        Err(Error("truncated SEGDEF"))
    } else {
        let acbp = body[0];
        let a_field = (acbp & 0xE0) >> 5u8;
        let c_field = (acbp & 0x1C) >> 2u8;
        let b_bit = (acbp & 0x02) != 0;
        if a_field == 0 && 4 > body.len() {
            Err(Error("truncated SEGDEF absolute fields"))
        } else {
            let frame: u16 = if a_field == 0 { le16(body[1], body[2]) as u16 } else { 0 };
            let pos: int = if a_field == 0 { 4 } else { 1 };
            if is_32 && pos + 4 > body.len() {
                Err(Error("truncated SEGDEF32 length"))
            } else if !is_32 && pos + 2 > body.len() {
                Err(Error("truncated SEGDEF length"))
            } else {
                let length: u32 = if is_32 {
                    le32(body[pos], body[pos + 1], body[pos + 2], body[pos + 3]) as u32
                } else {
                    le16(body[pos], body[pos + 1]) as u32
                };
                let pos = if is_32 { pos + 4 } else { pos + 2 };
                if b_bit && length != 0 {
                    if is_32 {
                        Err(Error("SEGDEF32 B bit set but length field non-zero"))
                    } else {
                        Err(Error("SEGDEF B bit set but length field non-zero"))
                    }
                } else {
                    match spec_read_index(body, pos) {
                        None => Err(Error("truncated SEGDEF name")),
                        Some((seg_name_idx, c1)) => match spec_read_index(body, pos + c1) {
                            None => Err(Error("truncated SEGDEF class")),
                            Some((class_name_idx, c2)) => match spec_read_index(
                                body,
                                pos + c1 + c2,
                            ) {
                                None => Err(Error("truncated SEGDEF overlay")),
                                Some((_, c3)) => if pos + c1 + c2 + c3 != body.len() {
                                    Err(Error("unexpected trailing bytes in SEGDEF"))
                                } else {
                                    match segdef_alignment(a_field) {
                                        None => Err(Error("unknown SEGDEF alignment")),
                                        Some(alignment) => if st.segments.len() >= 255 {
                                            Err(Error("SEGDEF count exceeds LINK limit of 255"))
                                        } else {
                                            Ok(
                                                OmfState {
                                                    segments: st.segments.push(
                                                        SegmentView {
                                                            name_idx: name_slot(seg_name_idx),
                                                            class_idx: name_slot(class_name_idx),
                                                            length,
                                                            big: b_bit,
                                                            alignment,
                                                            combine: c_field,
                                                            frame,
                                                            data: Seq::empty(),
                                                            relocs: Seq::empty(),
                                                            ordinal: (st.segments.len() + 1) as u16,
                                                            is_absolute: a_field == 0,
                                                            flat_base: 0,
                                                        },
                                                    ),
                                                    ..st
                                                },
                                            )
                                        },
                                    }
                                },
                            },
                        },
                    }
                }
            }
        }
    }
}

// ── EXTDEF / LEXTDEF ─────────────────────────────────────────────────────

/// The module with `sym` appended to the symbols and to the external name
/// space.
pub open spec fn add_external(st: OmfState, sym: SymbolView) -> OmfState {
    OmfState {
        symbols: st.symbols.push(sym),
        extdef_symbol_indices: st.extdef_symbol_indices.push(SymbolIndex(st.symbols.len() as usize)),
        ..st
    }
}

/// EXTDEF (LEXTDEF when `is_local`) from `pos`: each name and type index
/// declares one external symbol, which takes the next external ordinal.
pub open spec fn spec_extdef_from(
    st: OmfState,
    body: Seq<u8>,
    is_local: bool,
    pos: int,
) -> Result<OmfState, Error>
    decreases body.len() - pos,
{
    if pos < 0 || pos >= body.len() {
        Ok(st)
    } else {
        match spec_read_name(body, pos) {
            None => Err(Error("truncated EXTDEF name")),
            Some((name, c)) => match spec_read_index(body, pos + c) {
                None => Err(Error("truncated EXTDEF type")),
                Some((_, c2)) => if st.extdef_symbol_indices.len() >= 1023 {
                    Err(Error("EXTDEF count exceeds LINK limit of 1023"))
                } else {
                    spec_extdef_from(
                        add_external(
                            st,
                            SymbolView {
                                name,
                                kind: if is_local {
                                    ParsedSymbolKind::LocalExternal
                                } else {
                                    ParsedSymbolKind::External
                                },
                                seg_ordinal: 0,
                                offset: 0,
                            },
                        ),
                        body,
                        is_local,
                        pos + c + c2,
                    )
                },
            },
        }
    }
}

// ── PUBDEF / LPUBDEF ─────────────────────────────────────────────────────

/// The module with a public (or local public) symbol appended; a local one
/// also takes the next external ordinal.
pub open spec fn add_public(st: OmfState, sym: SymbolView, is_local: bool) -> OmfState {
    if is_local {
        add_external(st, sym)
    } else {
        OmfState { symbols: st.symbols.push(sym), ..st }
    }
}

/// The entries of a PUBDEF (PUBDEF32 when `is_32`; LPUBDEF/LPUBDEF32 when
/// `is_local`) from `pos`, all relative to the base segment `seg_idx`.
pub open spec fn spec_pubdef_entries_from(
    st: OmfState,
    body: Seq<u8>,
    is_local: bool,
    is_32: bool,
    seg_idx: u16,
    pos: int,
) -> Result<OmfState, Error>
    decreases body.len() - pos,
{
    if pos < 0 || pos >= body.len() {
        Ok(st)
    } else {
        match spec_read_name(body, pos) {
            None => Err(Error("truncated PUBDEF name")),
            Some((name, c)) => {
                let p = pos + c;
                if is_32 && p + 4 > body.len() {
                    Err(Error("truncated PUBDEF32 offset"))
                } else if !is_32 && p + 2 > body.len() {
                    Err(Error("truncated PUBDEF offset"))
                } else {
                    let offset: u32 = if is_32 {
                        le32(body[p], body[p + 1], body[p + 2], body[p + 3]) as u32
                    } else {
                        le16(body[p], body[p + 1]) as u32
                    };
                    let p = if is_32 { p + 4 } else { p + 2 };
                    match spec_read_index(body, p) {
                        None => Err(Error("truncated PUBDEF type")),
                        Some((_, c2)) => if is_local && st.extdef_symbol_indices.len() >= 1023 {
                            Err(Error("EXTDEF count exceeds LINK limit of 1023"))
                        } else {
                            spec_pubdef_entries_from(
                                add_public(
                                    st,
                                    SymbolView {
                                        name,
                                        kind: if is_local {
                                            ParsedSymbolKind::LocalPublic
                                        } else {
                                            ParsedSymbolKind::Public
                                        },
                                        seg_ordinal: seg_idx,
                                        offset,
                                    },
                                    is_local,
                                ),
                                body,
                                is_local,
                                is_32,
                                seg_idx,
                                p + c2,
                            )
                        },
                    }
                }
            },
        }
    }
}

/// PUBDEF and its variants: the base group and segment indices, the base
/// frame when the segment index is 0, then the entries.
pub open spec fn spec_pubdef(st: OmfState, body: Seq<u8>, is_local: bool, is_32: bool) -> Result<
    OmfState,
    Error,
> {
    match spec_read_index(body, 0) {
        None => Err(Error("truncated PUBDEF group")),
        Some((_, c)) => match spec_read_index(body, c) {
            None => Err(Error("truncated PUBDEF segment")),
            Some((seg_idx, c2)) => {
                let pos = c + c2;
                if seg_idx == 0 && pos + 2 > body.len() {
                    Err(Error("truncated PUBDEF frame"))
                } else {
                    spec_pubdef_entries_from(
                        st,
                        body,
                        is_local,
                        is_32,
                        seg_idx,
                        if seg_idx == 0 { pos + 2 } else { pos },
                    )
                }
            },
        }
    }
}

// ── LINNUM ────────────────────────────────────────────────────────────────

/// LINNUM: a zero group byte, a segment index, then whole 4-byte entries.
/// Line numbers are not kept.
pub open spec fn spec_linnum(st: OmfState, body: Seq<u8>) -> Result<OmfState, Error> {
    if body.len() == 0 {
        Err(Error("truncated LINNUM group index"))
    } else if body[0] != 0 {
        Err(Error("LINNUM group index must be zero"))
    } else {
        match spec_read_index(body, 1) {
            None => Err(Error("truncated LINNUM segment")),
            Some((_, c)) => if (body.len() - (1 + c)) % 4 != 0 {
                Err(Error("truncated LINNUM entry"))
            } else {
                Ok(st)
            },
        }
    }
}

// ── COMENT ────────────────────────────────────────────────────────────────

/// COMENT: a comment of class 0xA1 announces the Microsoft extensions.
pub open spec fn spec_coment(st: OmfState, body: Seq<u8>) -> Result<OmfState, Error> {
    if body.len() == 0 {
        Err(Error("truncated COMENT"))
    } else if body.len() > 1 && body[1] == 0xA1 {
        Ok(OmfState { has_ms_ext: true, ..st })
    } else {
        Ok(st)
    }
}

// ── TYPDEF ────────────────────────────────────────────────────────────────

/// The content of an optional descriptor.
pub open spec fn desc_view<'a>(d: Option<ParsedTypDefDescriptor<'a>>) -> Option<TypDefDescriptorView> {
    match d {
        Some(x) => Some(x@),
        None => None,
    }
}

/// The leaf descriptors of a TYPDEF from `pos`; the last one decoded is the
/// record's descriptor. A NEAR leaf (0x62) holds a variable type byte and a
/// bit length; a FAR leaf (0x61) holds a variable type byte, an element count
/// and an element type index, and becomes opaque when that index names an
/// earlier TYPDEF that is not NEAR. Any other tag ends the leaves: the rest of
/// the record, the tag included, is an opaque descriptor.
pub open spec fn spec_typdef_leaves_from(
    st: OmfState,
    body: Seq<u8>,
    pos: int,
    desc: Option<TypDefDescriptorView>,
) -> Result<Option<TypDefDescriptorView>, Error>
    decreases body.len() - pos,
{
    if pos < 0 || pos >= body.len() {
        Ok(desc)
    } else {
        let tag = body[pos];
        let p = pos + 1;
        if tag == 0x62 {
            if p >= body.len() {
                Err(Error("truncated TYPDEF NEAR variable type"))
            } else {
                match spec_read_varlen(body, p + 1) {
                    None => Err(Error("truncated TYPDEF length_in_bits")),
                    Some((length_bits, c)) => spec_typdef_leaves_from(
                        st,
                        body,
                        p + 1 + c,
                        Some(TypDefDescriptorView::Near { variable_type: body[p], length_bits }),
                    ),
                }
            }
        } else if tag == 0x61 {
            if p >= body.len() {
                Err(Error("truncated TYPDEF FAR variable type"))
            } else {
                match spec_read_varlen(body, p + 1) {
                    None => Err(Error("truncated TYPDEF number_of_elements")),
                    Some((element_count, c)) => match spec_read_index(body, p + 1 + c) {
                        None => Err(Error("truncated TYPDEF element_type_index")),
                        Some((element_type_index, c2)) => {
                            let next = p + 1 + c + c2;
                            if element_type_index != 0 && element_type_index <= st.typdefs.len()
                                && !(st.typdefs[element_type_index - 1].descriptor is Near) {
                                spec_typdef_leaves_from(
                                    st,
                                    body,
                                    next,
                                    Some(TypDefDescriptorView::Opaque(Seq::empty())),
                                )
                            } else {
                                spec_typdef_leaves_from(
                                    st,
                                    body,
                                    next,
                                    Some(
                                        TypDefDescriptorView::Far {
                                            element_count,
                                            element_type_index,
                                        },
                                    ),
                                )
                            }
                        },
                    },
                }
            }
        } else {
            Ok(Some(TypDefDescriptorView::Opaque(body.subrange(pos, body.len() as int))))
        }
    }
}

/// The module with a TYPDEF appended once its leaves are decoded; with no
/// leaf the descriptor is an empty opaque one.
pub open spec fn finish_typdef(
    st: OmfState,
    name: Seq<u8>,
    en: u8,
    leaves: Result<Option<TypDefDescriptorView>, Error>,
) -> Result<OmfState, Error> {
    match leaves {
        Err(e) => Err(e),
        Ok(d) => Ok(
            OmfState {
                typdefs: st.typdefs.push(
                    TypDefView {
                        name,
                        en,
                        descriptor: match d {
                            Some(x) => x,
                            None => TypDefDescriptorView::Opaque(Seq::empty()),
                        },
                    },
                ),
                ..st
            },
        ),
    }
}

/// TYPDEF: a name (a lone zero byte is an empty name), an optional EN byte,
/// then the leaf descriptors.
pub open spec fn spec_typdef(st: OmfState, body: Seq<u8>) -> Result<OmfState, Error> {
    if body.len() == 0 {
        Err(Error("truncated TYPDEF body"))
    } else {
        let name_field = if body[0] == 0 {
            Some((Seq::<u8>::empty(), 1int))
        } else {
            spec_read_name(body, 0)
        };
        match name_field {
            None => Err(Error("truncated TYPDEF name")),
            Some((name, consumed)) => {
                let en: u8 = if consumed < body.len() { body[consumed] } else { 0 };
                let pos = if consumed < body.len() { consumed + 1 } else { consumed };
                finish_typdef(st, name, en, spec_typdef_leaves_from(st, body, pos, None))
            },
        }
    }
}

// ── COMDEF ────────────────────────────────────────────────────────────────

/// The module with one communal entry appended: its COMDEF entry, a
/// communal symbol that takes the next external ordinal, and a COMDAT group
/// for that symbol.
pub open spec fn add_communal(st: OmfState, name: Seq<u8>, type_index: u16, communal: CommunalKindView) -> Result<
    OmfState,
    Error,
> {
    if st.extdef_symbol_indices.len() >= 1023 {
        Err(Error("EXTDEF count exceeds LINK limit of 1023"))
    } else {
        let sym = SymbolIndex(st.symbols.len() as usize);
        Ok(
            OmfState {
                comdefs: st.comdefs.push(
                    ComdefEntryView {
                        name,
                        type_index,
                        communal,
                        data: Seq::empty(),
                        relocs: Seq::empty(),
                    },
                ),
                symbols: st.symbols.push(
                    SymbolView { name, kind: ParsedSymbolKind::Communal, seg_ordinal: 0, offset: 0 },
                ),
                extdef_symbol_indices: st.extdef_symbol_indices.push(sym),
                comdat_groups: st.comdat_groups.push((sym, ComdatKind::Any)),
                ..st
            },
        )
    }
}

/// Whether `dst` is a COMDEF data type this reader knows: NEAR (0x62), FAR
/// (0x61) or a Borland segment index (0x01..=0x5F).
pub open spec fn known_dst(dst: u8) -> bool {
    dst == 0x62 || dst == 0x61 || (0x01 <= dst && dst <= 0x5F)
}

/// Whether the bytes of `body` from `q` to its end are exactly the size
/// fields of a data type `t`, NEAR (one size) or FAR (an element count and
/// an element size), with no size 0.
#[verifier::opaque]
pub open spec fn sizes_fill_rest(body: Seq<u8>, q: int, t: u8) -> bool {
    if t == 0x62 {
        match spec_read_varlen(body, q) {
            Some((size, c)) => size > 0 && q + c == body.len(),
            None => false,
        }
    } else if t == 0x61 {
        match spec_read_varlen(body, q) {
            Some((count, c)) => match spec_read_varlen(body, q + c) {
                Some((element_size, c2)) => count > 0 && element_size > 0 && q + c + c2 == body.len(),
                None => false,
            },
            None => false,
        }
    } else {
        false
    }
}

/// Whether the entry whose type index field is at `q` leaves its type
/// index out: the byte there reads NEAR or FAR, the byte after it is no
/// known data type, and read as that data type's size fields the bytes
/// after it make up exactly the rest of the record, with no size 0.
#[verifier::opaque]
pub open spec fn type_index_left_out(body: Seq<u8>, q: int) -> bool {
    &&& 0 <= q
    &&& q + 1 < body.len()
    &&& !known_dst(body[q + 1])
    &&& (body[q] == 0x61 || body[q] == 0x62)
    &&& sizes_fill_rest(body, q + 1, body[q])
}

/// The entries of a COMDEF from `pos`: a name, a type index, a data type
/// byte and its size fields. NEAR (0x62) has one size, FAR (0x61) an element
/// count and an element size, a Borland segment index (0x01..=0x5F) is
/// followed by one payload byte when any is left. The last entry of a record
/// may leave its type index out (see `type_index_left_out`): the byte in its
/// place is then its data type, and its type index is 0. Any other unknown
/// data type ends the record without an entry.
pub open spec fn spec_comdef_from(st: OmfState, body: Seq<u8>, pos: int) -> Result<OmfState, Error>
    decreases body.len() - pos,
{
    if pos < 0 || pos >= body.len() {
        Ok(st)
    } else {
        match spec_read_name(body, pos) {
            None => Err(Error("truncated COMDEF name")),
            Some((name, c)) => match spec_read_index(body, pos + c) {
                None => Err(Error("truncated COMDEF type")),
                Some((read_type_index, c2)) => {
                    let p = pos + c + c2;
                    if p >= body.len() {
                        Err(Error("truncated COMDEF DST"))
                    } else {
                        let t = body[pos + c];
                        let no_type_index = type_index_left_out(body, pos + c);
                        let type_index: u16 = if no_type_index { 0 } else { read_type_index };
                        let dst = if no_type_index { t } else { body[p] };
                        let p = if no_type_index { pos + c + 1 } else { p + 1 };
                        if dst == 0x62 {
                            match spec_read_varlen(body, p) {
                                None => Err(Error("truncated COMDEF size")),
                                Some((size, c3)) => match add_communal(
                                    st,
                                    name,
                                    type_index,
                                    CommunalKindView::Near { size },
                                ) {
                                    Err(e) => Err(e),
                                    Ok(st2) => spec_comdef_from(st2, body, p + c3),
                                },
                            }
                        } else if dst == 0x61 {
                            match spec_read_varlen(body, p) {
                                None => Err(Error("truncated COMDEF num elements")),
                                Some((count, c3)) => match spec_read_varlen(body, p + c3) {
                                    None => Err(Error("truncated COMDEF element size")),
                                    Some((element_size, c4)) => match add_communal(
                                        st,
                                        name,
                                        type_index,
                                        CommunalKindView::Far { count, element_size },
                                    ) {
                                        Err(e) => Err(e),
                                        Ok(st2) => spec_comdef_from(st2, body, p + c3 + c4),
                                    },
                                },
                            }
                        } else if 0x01 <= dst <= 0x5F {
                            match add_communal(
                                st,
                                name,
                                type_index,
                                CommunalKindView::BorlandSegment { index: dst },
                            ) {
                                Err(e) => Err(e),
                                Ok(st2) => spec_comdef_from(
                                    st2,
                                    body,
                                    if p < body.len() { p + 1 } else { p },
                                ),
                            }
                        } else {
                            Ok(st)
                        }
                    }
                },
            },
        }
    }
}

// ── GRPDEF ────────────────────────────────────────────────────────────────

/// The components of a GRPDEF from `pos`, with the member ordinals, the
/// unresolved ordinals and the components found so far. A segment component
/// (0xFF) of ordinal 0 is only recorded as unresolved; one beyond the `nsegs`
/// segments defined so far is a member that is also unresolved.
pub open spec fn spec_grpdef_components_from(
    nsegs: int,
    body: Seq<u8>,
    pos: int,
    members: Seq<u16>,
    unresolved: Seq<u16>,
    comps: Seq<ParsedGroupComponent>,
) -> Result<(Seq<u16>, Seq<u16>, Seq<ParsedGroupComponent>), Error>
    decreases body.len() - pos,
{
    if pos < 0 || pos >= body.len() {
        Ok((members, unresolved, comps))
    } else {
        let t = body[pos];
        let p = pos + 1;
        if t == 0xFF {
            match spec_read_index(body, p) {
                None => Err(Error("truncated GRPDEF segment component")),
                Some((seg_index, c)) => if seg_index == 0 {
                    spec_grpdef_components_from(
                        nsegs,
                        body,
                        p + c,
                        members,
                        unresolved.push(seg_index),
                        comps,
                    )
                } else if seg_index > nsegs {
                    spec_grpdef_components_from(
                        nsegs,
                        body,
                        p + c,
                        members.push(seg_index),
                        unresolved.push(seg_index),
                        comps.push(ParsedGroupComponent::Segment { seg_index }),
                    )
                } else {
                    spec_grpdef_components_from(
                        nsegs,
                        body,
                        p + c,
                        members.push(seg_index),
                        unresolved,
                        comps.push(ParsedGroupComponent::Segment { seg_index }),
                    )
                },
            }
        } else if t == 0xFE {
            match spec_read_index(body, p) {
                None => Err(Error("truncated GRPDEF external component")),
                Some((ext_index, c)) => spec_grpdef_components_from(
                    nsegs,
                    body,
                    p + c,
                    members,
                    unresolved,
                    comps.push(ParsedGroupComponent::External { ext_index }),
                ),
            }
        } else if t == 0xFD {
            match spec_read_index(body, p) {
                None => Err(Error("truncated GRPDEF name-triple seg name")),
                Some((seg_name_index, c1)) => match spec_read_index(body, p + c1) {
                    None => Err(Error("truncated GRPDEF name-triple class name")),
                    Some((class_name_index, c2)) => match spec_read_index(body, p + c1 + c2) {
                        None => Err(Error("truncated GRPDEF name-triple overlay name")),
                        Some((overlay_name_index, c3)) => spec_grpdef_components_from(
                            nsegs,
                            body,
                            p + c1 + c2 + c3,
                            members,
                            unresolved,
                            comps.push(
                                ParsedGroupComponent::NameTriple {
                                    seg_name_index,
                                    class_name_index,
                                    overlay_name_index,
                                },
                            ),
                        ),
                    },
                },
            }
        } else if t == 0xFB {
            if p + 5 > body.len() {
                Err(Error("truncated GRPDEF LTL component"))
            } else {
                spec_grpdef_components_from(
                    nsegs,
                    body,
                    p + 5,
                    members,
                    unresolved,
                    comps.push(
                        ParsedGroupComponent::Ltl {
                            ltl_data: body[p],
                            max_group_length: le16(body[p + 1], body[p + 2]) as u16,
                            group_length: le16(body[p + 3], body[p + 4]) as u16,
                        },
                    ),
                )
            }
        } else if t == 0xFA {
            if p + 4 > body.len() {
                Err(Error("truncated GRPDEF absolute-frame component"))
            } else {
                spec_grpdef_components_from(
                    nsegs,
                    body,
                    p + 4,
                    members,
                    unresolved,
                    comps.push(
                        ParsedGroupComponent::AbsoluteFrame {
                            frame_number: le16(body[p], body[p + 1]) as u16,
                            offset: le16(body[p + 2], body[p + 3]) as u16,
                        },
                    ),
                )
            }
        } else {
            Err(Error("unsupported GRPDEF component type"))
        }
    }
}

/// The module with a group appended once its components are decoded.
pub open spec fn finish_grpdef(
    st: OmfState,
    name_idx: u16,
    comps: Result<(Seq<u16>, Seq<u16>, Seq<ParsedGroupComponent>), Error>,
) -> Result<OmfState, Error> {
    match comps {
        Err(e) => Err(e),
        Ok((members, unresolved, components)) => if st.groups.len() >= 31 {
            Err(Error("GRPDEF count exceeds LINK limit of 31"))
        } else {
            Ok(
                OmfState {
                    groups: st.groups.push(
                        GroupView {
                            name_idx: (name_idx - 1) as u16,
                            members,
                            unresolved,
                            resolved_members: Seq::empty(),
                            components,
                        },
                    ),
                    ..st
                },
            )
        },
    }
}

/// GRPDEF: a name index into the name list, then the components.
pub open spec fn spec_grpdef(st: OmfState, body: Seq<u8>) -> Result<OmfState, Error> {
    match spec_read_index(body, 0) {
        None => Err(Error("truncated GRPDEF name")),
        Some((name_idx, c)) => if name_idx == 0 || name_idx > st.lnames.len() {
            Err(Error("GRPDEF name index out of range"))
        } else {
            finish_grpdef(
                st,
                name_idx,
                spec_grpdef_components_from(
                    st.segments.len() as int,
                    body,
                    c,
                    Seq::empty(),
                    Seq::empty(),
                    Seq::empty(),
                ),
            )
        },
    }
}

/// Whether the entry whose type index field is at `q` leaves its type index
/// out (see `type_index_left_out`).
fn type_index_left_out_at(body: &[u8], q: usize) -> (b: bool)
    ensures
        b == type_index_left_out(body@, q as int),
{
    reveal(type_index_left_out);
    reveal(sizes_fill_rest);
    if q >= body.len() || body.len() - q < 2 {
        return false;
    }
    let d = body[q + 1];
    if d == crate::omf::DST_NEAR || d == crate::omf::DST_FAR || (0x01 <= d && d <= 0x5F) {
        return false;
    }
    let t = body[q];
    if t == crate::omf::DST_NEAR {
        match read_varlen(body, q + 1) {
            Some((size, c)) => size > 0 && body.len() - (q + 1) == c,
            None => false,
        }
    } else if t == crate::omf::DST_FAR {
        match read_varlen(body, q + 1) {
            Some((count, c)) => {
                if body.len() - (q + 1) < c {
                    return false;
                }
                match read_varlen(body, q + 1 + c) {
                    Some((element_size, c2)) => count > 0 && element_size > 0 && body.len() - (q + 1
                        + c) == c2,
                    None => false,
                }
            },
            None => false,
        }
    } else {
        false
    }
}

impl<'data> OmfFile<'data> {
    pub(crate) fn parse_theadr(&mut self, body: &'data [u8]) -> (res: Result<(), Error>)
        ensures
            spec_theadr(old(self)@, body@) == outcome(res, final(self)@),
    {
        match read_name(body, 0) {
            None => Err(Error("truncated THEADR")),
            Some((name, _)) => {
                self.module_name = name;
                Ok(())
            },
        }
    }

    pub(crate) fn parse_lnames(&mut self, body: &'data [u8]) -> (res: Result<(), Error>)
        ensures
            spec_lnames_from(old(self)@, body@, 0) == outcome(res, final(self)@),
    {
        let ghost target = spec_lnames_from(self@, body@, 0);
        let mut pos: usize = 0;
        while pos < body.len()
            invariant
                pos <= body@.len(),
                spec_lnames_from(self@, body@, pos as int) == target,
                target == spec_lnames_from(old(self)@, body@, 0),
            decreases body@.len() - pos,
        {
            match read_name(body, pos) {
                None => {
                    return Err(Error("truncated LNAMES"));
                },
                Some((name, consumed)) => {
                    let ghost before = self@;
                    self.lnames.push(name);
                    assert(self@.lnames =~= before.lnames.push(name@));
                    assert(self@ == OmfState { lnames: before.lnames.push(name@), ..before });
                    pos = pos + consumed;
                },
            }
        }
        Ok(())
    }

    #[verifier::rlimit(50)]
    pub(crate) fn parse_segdef(&mut self, body: &'data [u8], is_32bit: bool) -> (res: Result<(), Error>)
        ensures
            spec_segdef(old(self)@, body@, is_32bit) == outcome(res, final(self)@),
            res is Err ==> final(self)@ == old(self)@,
    {
        if body.len() == 0 {
            return Err(Error("truncated SEGDEF"));
        }
        let acbp = body[0];
        let a_field = (acbp & 0xE0) >> 5u8;
        let c_field = (acbp & 0x1C) >> 2u8;
        let b_bit = (acbp & 0x02) != 0;
        let mut pos: usize = 1;
        let mut frame: u16 = 0;
        if a_field == 0 {
            if 4 > body.len() {
                return Err(Error("truncated SEGDEF absolute fields"));
            }
            frame = body[1] as u16 + 256 * body[2] as u16;
            // The frame is followed by an offset byte that LINK ignores.
            pos = 4;
        }
        let length: u32 = if is_32bit {
            if pos + 4 > body.len() {
                return Err(Error("truncated SEGDEF32 length"));
            }
            let l = body[pos] as u32 + 256 * body[pos + 1] as u32 + 65536 * body[pos + 2] as u32
                + 16777216 * body[pos + 3] as u32;
            pos = pos + 4;
            if b_bit && l != 0 {
                return Err(Error("SEGDEF32 B bit set but length field non-zero"));
            }
            l
        } else {
            if pos + 2 > body.len() {
                return Err(Error("truncated SEGDEF length"));
            }
            let l = body[pos] as u32 + 256 * body[pos + 1] as u32;
            pos = pos + 2;
            if b_bit && l != 0 {
                return Err(Error("SEGDEF B bit set but length field non-zero"));
            }
            l
        };
        let (seg_name_idx, c) = match read_index(body, pos) {
            None => {
                return Err(Error("truncated SEGDEF name"));
            },
            Some(x) => x,
        };
        pos = pos + c;
        let (class_name_idx, c) = match read_index(body, pos) {
            None => {
                return Err(Error("truncated SEGDEF class"));
            },
            Some(x) => x,
        };
        pos = pos + c;
        let (_overlay_idx, c) = match read_index(body, pos) {
            None => {
                return Err(Error("truncated SEGDEF overlay"));
            },
            Some(x) => x,
        };
        pos = pos + c;
        if pos != body.len() {
            return Err(Error("unexpected trailing bytes in SEGDEF"));
        }
        let alignment: u32 = if a_field == 0 || a_field == 1 {
            1
        } else if a_field == 2 {
            2
        } else if a_field == 5 {
            4
        } else if a_field == 3 {
            16
        } else if a_field == 4 {
            256
        } else {
            return Err(Error("unknown SEGDEF alignment"));
        };
        if self.segments.len() >= 255 {
            return Err(Error("SEGDEF count exceeds LINK limit of 255"));
        }
        let ordinal = (self.segments.len() + 1) as u16;
        let ghost before = self@;
        let seg = ParsedSegment {
            name_idx: if seg_name_idx == 0 { u16::MAX } else { seg_name_idx - 1 },
            class_idx: if class_name_idx == 0 { u16::MAX } else { class_name_idx - 1 },
            length,
            big: b_bit,
            alignment,
            combine: c_field,
            frame,
            data: Vec::new(),
            relocs: Vec::new(),
            ordinal,
            is_absolute: a_field == 0,
            flat_base: 0,
        };
        self.segments.push(seg);
        assert(self@.segments =~= before.segments.push(seg@));
        Ok(())
    }

    pub(crate) fn parse_extdef(&mut self, body: &'data [u8], is_local: bool) -> (res: Result<(), Error>)
        ensures
            spec_extdef_from(old(self)@, body@, is_local, 0) == outcome(res, final(self)@),
    {
        let ghost target = spec_extdef_from(self@, body@, is_local, 0);
        let mut pos: usize = 0;
        while pos < body.len()
            invariant
                pos <= body@.len(),
                spec_extdef_from(self@, body@, is_local, pos as int) == target,
                target == spec_extdef_from(old(self)@, body@, is_local, 0),
            decreases body@.len() - pos,
        {
            let (name, c) = match read_name(body, pos) {
                None => {
                    return Err(Error("truncated EXTDEF name"));
                },
                Some(x) => x,
            };
            pos = pos + c;
            let (_type_idx, c) = match read_index(body, pos) {
                None => {
                    return Err(Error("truncated EXTDEF type"));
                },
                Some(x) => x,
            };
            pos = pos + c;
            if self.extdef_symbol_indices.len() >= 1023 {
                return Err(Error("EXTDEF count exceeds LINK limit of 1023"));
            }
            self.push_external(
                ParsedSymbol {
                    name,
                    kind: if is_local {
                        ParsedSymbolKind::LocalExternal
                    } else {
                        ParsedSymbolKind::External
                    },
                    seg_ordinal: 0,
                    offset: 0,
                },
            );
        }
        Ok(())
    }

    pub(crate) fn parse_pubdef(&mut self, body: &'data [u8], is_local: bool, is_32: bool) -> (res:
        Result<(), Error>)
        ensures
            spec_pubdef(old(self)@, body@, is_local, is_32) == outcome(res, final(self)@),
    {
        let ghost target = spec_pubdef(self@, body@, is_local, is_32);
        let (_group_idx, c) = match read_index(body, 0) {
            None => {
                return Err(Error("truncated PUBDEF group"));
            },
            Some(x) => x,
        };
        let mut pos = c;
        let (seg_idx, c) = match read_index(body, pos) {
            None => {
                return Err(Error("truncated PUBDEF segment"));
            },
            Some(x) => x,
        };
        pos = pos + c;
        // The base frame is present when the base segment index is 0.
        if seg_idx == 0 {
            if pos + 2 > body.len() {
                return Err(Error("truncated PUBDEF frame"));
            }
            pos = pos + 2;
        }
        while pos < body.len()
            invariant
                pos <= body@.len(),
                spec_pubdef_entries_from(self@, body@, is_local, is_32, seg_idx, pos as int)
                    == target,
                target == spec_pubdef(old(self)@, body@, is_local, is_32),
            decreases body@.len() - pos,
        {
            let (name, c) = match read_name(body, pos) {
                None => {
                    return Err(Error("truncated PUBDEF name"));
                },
                Some(x) => x,
            };
            pos = pos + c;
            let pub_offset: u32 = if is_32 {
                if body.len() - pos < 4 {
                    return Err(Error("truncated PUBDEF32 offset"));
                }
                let off = body[pos] as u32 + 256 * body[pos + 1] as u32 + 65536 * body[pos + 2] as u32
                    + 16777216 * body[pos + 3] as u32;
                pos = pos + 4;
                off
            } else {
                if body.len() - pos < 2 {
                    return Err(Error("truncated PUBDEF offset"));
                }
                let off = body[pos] as u32 + 256 * body[pos + 1] as u32;
                pos = pos + 2;
                off
            };
            let (_type_idx, c) = match read_index(body, pos) {
                None => {
                    return Err(Error("truncated PUBDEF type"));
                },
                Some(x) => x,
            };
            pos = pos + c;
            if is_local && self.extdef_symbol_indices.len() >= 1023 {
                return Err(Error("EXTDEF count exceeds LINK limit of 1023"));
            }
            let sym = ParsedSymbol {
                name,
                kind: if is_local {
                    ParsedSymbolKind::LocalPublic
                } else {
                    ParsedSymbolKind::Public
                },
                seg_ordinal: seg_idx,
                offset: pub_offset,
            };
            if is_local {
                self.push_external(sym);
            } else {
                let ghost before = self@;
                self.symbols.push(sym);
                assert(self@.symbols =~= before.symbols.push(sym@));
            }
        }
        Ok(())
    }

    pub(crate) fn parse_linnum(&mut self, body: &'data [u8]) -> (res: Result<(), Error>)
        ensures
            spec_linnum(old(self)@, body@) == outcome(res, final(self)@),
    {
        if body.len() == 0 {
            return Err(Error("truncated LINNUM group index"));
        }
        // The group index is always a single zero byte.
        if body[0] != 0 {
            return Err(Error("LINNUM group index must be zero"));
        }
        let (_seg_idx, c) = match read_index(body, 1) {
            None => {
                return Err(Error("truncated LINNUM segment"));
            },
            Some(x) => x,
        };
        // The rest is a sequence of (line number, offset) pairs of 2 bytes each.
        if (body.len() - (1 + c)) % 4 != 0 {
            return Err(Error("truncated LINNUM entry"));
        }
        Ok(())
    }

    pub(crate) fn parse_coment(&mut self, body: &'data [u8]) -> (res: Result<(), Error>)
        ensures
            spec_coment(old(self)@, body@) == outcome(res, final(self)@),
    {
        if body.len() == 0 {
            return Err(Error("truncated COMENT"));
        }
        if body.len() > 1 && body[1] == crate::omf::CC_MS_EXTENSIONS {
            self.has_ms_ext = true;
        }
        Ok(())
    }

    pub(crate) fn parse_typdef(&mut self, body: &'data [u8]) -> (res: Result<(), Error>)
        ensures
            spec_typdef(old(self)@, body@) == outcome(res, final(self)@),
    {
        if body.len() == 0 {
            return Err(Error("truncated TYPDEF body"));
        }
        // A single null byte is an empty name (the old TYPDEF layout);
        // otherwise the name is count-prefixed.
        let (name, consumed) = if body[0] == 0 {
            let empty = vstd::slice::slice_subrange(body, 1, 1);
            assert(empty@ =~= Seq::<u8>::empty());
            (empty, 1)
        } else {
            match read_name(body, 0) {
                None => {
                    return Err(Error("truncated TYPDEF name"));
                },
                Some(x) => x,
            }
        };
        let mut pos = consumed;
        // The EN byte is optional in older encodings.
        let en = if pos < body.len() {
            body[pos]
        } else {
            0
        };
        if pos < body.len() {
            pos = pos + 1;
        }
        let ghost leaves = spec_typdef_leaves_from(self@, body@, pos as int, None);
        let mut descriptor: Option<ParsedTypDefDescriptor<'data>> = None;
        while pos < body.len()
            invariant_except_break
                pos <= body@.len(),
                spec_typdef_leaves_from(self@, body@, pos as int, desc_view(descriptor)) == leaves,
            invariant
                self@ == old(self)@,
                spec_typdef(old(self)@, body@) == finish_typdef(old(self)@, name@, en, leaves),
            ensures
                leaves == Ok::<Option<TypDefDescriptorView>, Error>(desc_view(descriptor)),
            decreases body@.len() - pos,
        {
            let tag = body[pos];
            pos = pos + 1;
            if tag == 0x62 {
                // NEAR variable: variable type, length in bits.
                if pos >= body.len() {
                    return Err(Error("truncated TYPDEF NEAR variable type"));
                }
                let variable_type = body[pos];
                pos = pos + 1;
                let (length_bits, c) = match read_varlen(body, pos) {
                    None => {
                        return Err(Error("truncated TYPDEF length_in_bits"));
                    },
                    Some(x) => x,
                };
                pos = pos + c;
                descriptor = Some(ParsedTypDefDescriptor::Near { variable_type, length_bits });
            } else if tag == 0x61 {
                // FAR variable: variable type, element count, element type index.
                if pos >= body.len() {
                    return Err(Error("truncated TYPDEF FAR variable type"));
                }
                pos = pos + 1;
                let (number_of_elements, c) = match read_varlen(body, pos) {
                    None => {
                        return Err(Error("truncated TYPDEF number_of_elements"));
                    },
                    Some(x) => x,
                };
                pos = pos + c;
                let (element_type_index, c) = match read_index(body, pos) {
                    None => {
                        return Err(Error("truncated TYPDEF element_type_index"));
                    },
                    Some(x) => x,
                };
                pos = pos + c;
                let mut refers_to_non_near = false;
                if element_type_index != 0 && element_type_index as usize <= self.typdefs.len() {
                    match self.typdefs[element_type_index as usize - 1].descriptor {
                        ParsedTypDefDescriptor::Near { .. } => {},
                        _ => {
                            refers_to_non_near = true;
                        },
                    }
                }
                if refers_to_non_near {
                    let empty = vstd::slice::slice_subrange(body, 0, 0);
                    assert(empty@ =~= Seq::<u8>::empty());
                    descriptor = Some(ParsedTypDefDescriptor::Opaque(empty));
                } else {
                    descriptor = Some(
                        ParsedTypDefDescriptor::Far {
                            element_count: number_of_elements,
                            element_type_index,
                        },
                    );
                }
            } else {
                // Unknown leaf tag: the rest of the record is opaque.
                descriptor = Some(
                    ParsedTypDefDescriptor::Opaque(
                        vstd::slice::slice_subrange(body, pos - 1, body.len()),
                    ),
                );
                break;
            }
        }
        let descriptor = match descriptor {
            Some(d) => d,
            None => {
                let empty = vstd::slice::slice_subrange(body, 0, 0);
                assert(empty@ =~= Seq::<u8>::empty());
                ParsedTypDefDescriptor::Opaque(empty)
            },
        };
        let ghost before = self@;
        let rec = ParsedTypDefRecord { name, en, descriptor };
        self.typdefs.push(rec);
        assert(self@.typdefs =~= before.typdefs.push(rec@));
        Ok(())
    }

    /// Append one communal entry (see `add_communal`).
    fn push_communal(
        &mut self,
        name: &'data [u8],
        type_index: u16,
        communal: ParsedCommunalKind<'data>,
    ) -> (res: Result<(), Error>)
        ensures
            add_communal(old(self)@, name@, type_index, communal@) == outcome(res, final(self)@),
    {
        let ghost before = self@;
        let entry = ParsedComdefEntry { name, type_index, communal, data: Vec::new(), relocs: Vec::new() };
        self.comdefs.push(entry);
        let sym_index = SymbolIndex(self.symbols.len());
        self.symbols.push(
            ParsedSymbol { name, kind: ParsedSymbolKind::Communal, seg_ordinal: 0, offset: 0 },
        );
        if self.extdef_symbol_indices.len() >= 1023 {
            return Err(Error("EXTDEF count exceeds LINK limit of 1023"));
        }
        // COMDEF symbols share the EXTDEF ordinal space.
        self.extdef_symbol_indices.push(sym_index);
        // Each COMDEF entry is also a COMDAT group with no sections.
        self.comdat_groups.push((sym_index, ComdatKind::Any));
        assert(self@.comdefs =~= before.comdefs.push(
            ComdefEntryView {
                name: name@,
                type_index,
                communal: communal@,
                data: Seq::empty(),
                relocs: Seq::empty(),
            },
        ));
        assert(self@.symbols =~= before.symbols.push(
            SymbolView { name: name@, kind: ParsedSymbolKind::Communal, seg_ordinal: 0, offset: 0 },
        ));
        Ok(())
    }

    pub(crate) fn parse_comdef(&mut self, body: &'data [u8]) -> (res: Result<(), Error>)
        ensures
            spec_comdef_from(old(self)@, body@, 0) == outcome(res, final(self)@),
    {
        let ghost target = spec_comdef_from(self@, body@, 0);
        let mut pos: usize = 0;
        while pos < body.len()
            invariant_except_break
                pos <= body@.len(),
                spec_comdef_from(self@, body@, pos as int) == target,
            invariant
                target == spec_comdef_from(old(self)@, body@, 0),
            ensures
                target == Ok::<OmfState, Error>(self@),
            decreases body@.len() - pos,
        {
            let (name, c) = match read_name(body, pos) {
                None => {
                    return Err(Error("truncated COMDEF name"));
                },
                Some(x) => x,
            };
            pos = pos + c;
            let tpos = pos;
            let (mut type_idx, c) = match read_index(body, pos) {
                None => {
                    return Err(Error("truncated COMDEF type"));
                },
                Some(x) => x,
            };
            pos = pos + c;
            if pos >= body.len() {
                return Err(Error("truncated COMDEF DST"));
            }
            let mut dst = body[pos];
            pos = pos + 1;
            if type_index_left_out_at(body, tpos) {
                // The type index is left out: the byte in its place is the
                // data type.
                type_idx = 0;
                dst = body[tpos];
                pos = tpos + 1;
            }
            let communal = if dst == crate::omf::DST_NEAR {
                let (size, c) = match read_varlen(body, pos) {
                    None => {
                        return Err(Error("truncated COMDEF size"));
                    },
                    Some(x) => x,
                };
                pos = pos + c;
                ParsedCommunalKind::Near { size }
            } else if dst == crate::omf::DST_FAR {
                let (count, c) = match read_varlen(body, pos) {
                    None => {
                        return Err(Error("truncated COMDEF num elements"));
                    },
                    Some(x) => x,
                };
                pos = pos + c;
                let (element_size, c) = match read_varlen(body, pos) {
                    None => {
                        return Err(Error("truncated COMDEF element size"));
                    },
                    Some(x) => x,
                };
                pos = pos + c;
                ParsedCommunalKind::Far { count, element_size }
            } else if 0x01 <= dst && dst <= 0x5F {
                // Some Borland toolchains emit an extra payload byte after
                // the segment index; consume it when present.
                if pos < body.len() {
                    pos = pos + 1;
                }
                ParsedCommunalKind::BorlandSegment { index: dst }
            } else {
                // Unknown data type: stop reading this record.
                break;
            };
            let r = self.push_communal(name, type_idx, communal);
            if r.is_err() {
                return r;
            }
        }
        Ok(())
    }

    pub(crate) fn parse_grpdef(&mut self, body: &'data [u8]) -> (res: Result<(), Error>)
        ensures
            spec_grpdef(old(self)@, body@) == outcome(res, final(self)@),
            res is Err ==> final(self)@ == old(self)@,
    {
        let (name_idx, c) = match read_index(body, 0) {
            None => {
                return Err(Error("truncated GRPDEF name"));
            },
            Some(x) => x,
        };
        let mut pos = c;
        if name_idx == 0 || name_idx as usize > self.lnames.len() {
            return Err(Error("GRPDEF name index out of range"));
        }
        let mut members: Vec<u16> = Vec::new();
        let mut unresolved: Vec<u16> = Vec::new();
        let mut components: Vec<ParsedGroupComponent> = Vec::new();
        let nsegs = self.segments.len();
        let ghost comps_target = spec_grpdef_components_from(
            nsegs as int,
            body@,
            pos as int,
            Seq::empty(),
            Seq::empty(),
            Seq::empty(),
        );
        while pos < body.len()
            invariant
                pos <= body@.len(),
                nsegs == self.segments@.len(),
                spec_grpdef_components_from(
                    nsegs as int,
                    body@,
                    pos as int,
                    members@,
                    unresolved@,
                    components@,
                ) == comps_target,
                self@ == old(self)@,
                spec_grpdef(old(self)@, body@) == finish_grpdef(old(self)@, name_idx, comps_target),
            decreases body@.len() - pos,
        {
            let component_type = body[pos];
            pos = pos + 1;
            if component_type == 0xFF {
                let (seg_idx, c) = match read_index(body, pos) {
                    None => {
                        return Err(Error("truncated GRPDEF segment component"));
                    },
                    Some(x) => x,
                };
                pos = pos + c;
                if seg_idx == 0 {
                    // Zero is not a valid segment ordinal: keep it as unresolved.
                    unresolved.push(seg_idx);
                } else if seg_idx as usize > nsegs {
                    // Not yet materialized: keep the ordinal as unresolved too.
                    members.push(seg_idx);
                    unresolved.push(seg_idx);
                    components.push(ParsedGroupComponent::Segment { seg_index: seg_idx });
                } else {
                    members.push(seg_idx);
                    components.push(ParsedGroupComponent::Segment { seg_index: seg_idx });
                }
            } else if component_type == 0xFE {
                let (ext_idx, c) = match read_index(body, pos) {
                    None => {
                        return Err(Error("truncated GRPDEF external component"));
                    },
                    Some(x) => x,
                };
                pos = pos + c;
                components.push(ParsedGroupComponent::External { ext_index: ext_idx });
            } else if component_type == 0xFD {
                let (seg_name_index, c1) = match read_index(body, pos) {
                    None => {
                        return Err(Error("truncated GRPDEF name-triple seg name"));
                    },
                    Some(x) => x,
                };
                pos = pos + c1;
                let (class_name_index, c2) = match read_index(body, pos) {
                    None => {
                        return Err(Error("truncated GRPDEF name-triple class name"));
                    },
                    Some(x) => x,
                };
                pos = pos + c2;
                let (overlay_name_index, c3) = match read_index(body, pos) {
                    None => {
                        return Err(Error("truncated GRPDEF name-triple overlay name"));
                    },
                    Some(x) => x,
                };
                pos = pos + c3;
                components.push(
                    ParsedGroupComponent::NameTriple {
                        seg_name_index,
                        class_name_index,
                        overlay_name_index,
                    },
                );
            } else if component_type == 0xFB {
                if body.len() - pos < 5 {
                    return Err(Error("truncated GRPDEF LTL component"));
                }
                let ltl_data = body[pos];
                let max_group_length = body[pos + 1] as u16 + 256 * body[pos + 2] as u16;
                let group_length = body[pos + 3] as u16 + 256 * body[pos + 4] as u16;
                pos = pos + 5;
                components.push(ParsedGroupComponent::Ltl { ltl_data, max_group_length, group_length });
            } else if component_type == 0xFA {
                if body.len() - pos < 4 {
                    return Err(Error("truncated GRPDEF absolute-frame component"));
                }
                let frame_number = body[pos] as u16 + 256 * body[pos + 1] as u16;
                let offset = body[pos + 2] as u16 + 256 * body[pos + 3] as u16;
                pos = pos + 4;
                components.push(ParsedGroupComponent::AbsoluteFrame { frame_number, offset });
            } else {
                return Err(Error("unsupported GRPDEF component type"));
            }
        }
        if self.groups.len() >= 31 {
            return Err(Error("GRPDEF count exceeds LINK limit of 31"));
        }
        let ghost before = self@;
        let grp = ParsedGroup {
            name_idx: name_idx - 1,
            members,
            unresolved,
            components,
            resolved_members: Vec::new(),
        };
        self.groups.push(grp);
        assert(self@.groups =~= before.groups.push(grp@));
        Ok(())
    }

    /// Append a symbol that also takes the next external ordinal.
    pub(crate) fn push_external(&mut self, sym: ParsedSymbol<'data>)
        ensures
            final(self)@ == crate::records::add_external(old(self)@, sym@),
    {
        let ghost before = self@;
        let sym_index = SymbolIndex(self.symbols.len());
        self.symbols.push(sym);
        self.extdef_symbol_indices.push(sym_index);
        assert(self@.symbols =~= before.symbols.push(sym@));
        assert(self@.extdef_symbol_indices =~= before.extdef_symbol_indices.push(
            SymbolIndex(before.symbols.len() as usize),
        ));
    }
}

} // verus!
