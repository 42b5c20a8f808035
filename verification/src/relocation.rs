//! The relocations of a section, as the fixups of its data describe them.
use vstd::prelude::*;

use crate::model::{
    Relocation, RelocationEncoding, RelocationKind, RelocationTarget, SectionIndex,
};
use crate::state::{OmfFile, OmfState};
use crate::types::{ParsedReloc, RelocTarget};

verus! {

/// The width in bits of the field a fixup with location type `loc` patches:
/// 8 for a low or high byte, 32 for a 16:16 pointer or a 32-bit offset, 48
/// for a 16:32 pointer, 16 otherwise.
pub open spec fn reloc_size(loc: u8) -> u8 {
    if loc == 0 || loc == 4 {
        8
    } else if loc == 3 || loc == 9 {
        32
    } else if loc == 11 {
        48
    } else {
        16
    }
}

/// Whether a relocation can be described without an ordinal of 0 where a
/// 1-based ordinal is expected: a segment, a group, an external, or the
/// first member of a group.
pub open spec fn reloc_ok(st: OmfState, r: ParsedReloc) -> bool {
    match r.target {
        RelocTarget::Segment(o) => o != 0,
        RelocTarget::Group(g) => g != 0 && (g > st.groups.len() || st.groups[g - 1].members.len() == 0
            || st.groups[g - 1].members[0] != 0),
        RelocTarget::External(o) => o != 0,
        RelocTarget::AbsoluteFrame(_) => true,
    }
}

/// A relocation with the given target and addend, as a fixup `r` gives it.
pub open spec fn reloc_with(r: ParsedReloc, target: RelocationTarget, addend: int) -> Relocation {
    Relocation {
        kind: if r.is_seg_rel {
            RelocationKind::Absolute
        } else {
            RelocationKind::Relative
        },
        encoding: RelocationEncoding::Generic,
        size: reloc_size(r.loc),
        target,
        addend: addend as i64,
        implicit_addend: true,
    }
}

/// The relocation that a fixup describes: a segment target is its section;
/// a group target is the section of the group's first member; an external
/// target is the symbol its ordinal names; an absolute frame is an absolute
/// address `frame * 16 + displacement`. `None` when the group has no member
/// or the external ordinal names nothing.
pub open spec fn convert_reloc(st: OmfState, r: ParsedReloc) -> Option<Relocation> {
    match r.target {
        RelocTarget::Segment(o) => Some(
            reloc_with(r, RelocationTarget::Section(SectionIndex((o - 1) as usize)), r.displacement as int),
        ),
        RelocTarget::Group(g) => if g > st.groups.len() || st.groups[g - 1].members.len() == 0 {
            None
        } else {
            Some(
                reloc_with(
                    r,
                    RelocationTarget::Section(SectionIndex((st.groups[g - 1].members[0] - 1) as usize)),
                    r.displacement as int,
                ),
            )
        },
        RelocTarget::External(o) => if o > st.extdef_symbol_indices.len() {
            None
        } else {
            Some(
                reloc_with(
                    r,
                    RelocationTarget::Symbol(st.extdef_symbol_indices[o - 1]),
                    r.displacement as int,
                ),
            )
        },
        RelocTarget::AbsoluteFrame(f) => Some(
            reloc_with(r, RelocationTarget::Absolute, f as int * 16 + r.displacement as int),
        ),
    }
}

/// The first relocation that can be described at or after `pos` among
/// `relocs`, with its offset, and the position after it.
pub open spec fn next_reloc(st: OmfState, relocs: Seq<ParsedReloc>, pos: int) -> (
    Option<(u64, Relocation)>,
    int,
)
    decreases relocs.len() - pos,
{
    if pos < 0 || pos >= relocs.len() {
        (None, pos)
    } else {
        match convert_reloc(st, relocs[pos]) {
            Some(r) => (Some((relocs[pos].offset as u64, r)), pos + 1),
            None => next_reloc(st, relocs, pos + 1),
        }
    }
}

/// The relocations of a section, in the order of its fixups.
pub struct OmfRelocationIterator<'data, 'file> {
    pub file: &'file OmfFile<'data>,
    pub seg: usize,
    pub pos: usize,
}

impl<'data, 'file> OmfRelocationIterator<'data, 'file> {
    /// The fixups the iterator walks.
    pub open spec fn relocs(&self) -> Seq<ParsedReloc> {
        self.file@.segments[self.seg as int].relocs
    }

    /// The iterator is within an existing segment, and every fixup left can
    /// be described.
    pub open spec fn valid(&self) -> bool {
        &&& self.seg < self.file.segments@.len()
        &&& self.pos <= self.relocs().len()
        &&& forall|k: int| self.pos <= k < self.relocs().len() ==> reloc_ok(self.file@, #[trigger] self.relocs()[k])
    }

    /// The next relocation and its offset in the section (see
    /// `next_reloc`); fixups that cannot be described are skipped.
    pub fn next(&mut self) -> (r: Option<(u64, Relocation)>)
        requires
            old(self).valid(),
        ensures
            final(self).file == old(self).file,
            final(self).seg == old(self).seg,
            final(self).valid(),
            (r, final(self).pos as int) == next_reloc(old(self).file@, old(self).relocs(), old(self).pos as int),
    {
        let n = self.file.segments[self.seg].relocs.len();
        while self.pos < n
            invariant
                self.seg < self.file.segments@.len(),
                n == self.relocs().len(),
                self.pos <= n,
                self.file == old(self).file,
                self.seg == old(self).seg,
                forall|k: int| old(self).pos <= k < n ==> reloc_ok(self.file@, #[trigger] self.relocs()[k]),
                old(self).pos <= self.pos,
                next_reloc(self.file@, self.relocs(), old(self).pos as int) == next_reloc(
                    self.file@,
                    self.relocs(),
                    self.pos as int,
                ),
            decreases n - self.pos,
        {
            let r = self.file.segments[self.seg].relocs[self.pos];
            assert(r == self.relocs()[self.pos as int]);
            self.pos = self.pos + 1;
            let kind = if r.is_seg_rel {
                RelocationKind::Absolute
            } else {
                RelocationKind::Relative
            };
            let size: u8 = if r.loc == 0 || r.loc == 4 {
                8
            } else if r.loc == 3 || r.loc == 9 {
                32
            } else if r.loc == 11 {
                48
            } else {
                16
            };
            let target = match r.target {
                RelocTarget::Segment(ord) => Some(
                    (RelocationTarget::Section(SectionIndex((ord - 1) as usize)), r.displacement as i64),
                ),
                RelocTarget::Group(ord) => {
                    let gi = (ord - 1) as usize;
                    if gi < self.file.groups.len() && self.file.groups[gi].members.len() > 0 {
                        let first = self.file.groups[gi].members[0];
                        Some(
                            (
                                RelocationTarget::Section(SectionIndex((first - 1) as usize)),
                                r.displacement as i64,
                            ),
                        )
                    } else {
                        None
                    }
                },
                RelocTarget::External(ord) => {
                    if (ord as usize) <= self.file.extdef_symbol_indices.len() {
                        Some(
                            (
                                RelocationTarget::Symbol(
                                    self.file.extdef_symbol_indices[(ord - 1) as usize],
                                ),
                                r.displacement as i64,
                            ),
                        )
                    } else {
                        None
                    }
                },
                RelocTarget::AbsoluteFrame(frame) => Some(
                    (RelocationTarget::Absolute, frame as i64 * 16 + r.displacement as i64),
                ),
            };
            if let Some((target, addend)) = target {
                return Some(
                    (
                        r.offset as u64,
                        Relocation {
                            kind,
                            encoding: RelocationEncoding::Generic,
                            size,
                            target,
                            addend,
                            implicit_addend: true,
                        },
                    ),
                );
            }
        }
        None
    }

    /// Whether the iterator is within an existing segment and every fixup
    /// left can be described (see `valid`).
    pub fn is_valid(&self) -> (b: bool)
        ensures
            b == self.valid(),
    {
        if self.seg >= self.file.segments.len() {
            return false;
        }
        let n = self.file.segments[self.seg].relocs.len();
        if self.pos > n {
            return false;
        }
        let mut k = self.pos;
        while k < n
            invariant
                self.seg < self.file.segments@.len(),
                n == self.relocs().len(),
                self.pos <= k <= n,
                forall|j: int| self.pos <= j < k ==> reloc_ok(self.file@, #[trigger] self.relocs()[j]),
            decreases n - k,
        {
            let r = self.file.segments[self.seg].relocs[k];
            assert(r == self.relocs()[k as int]);
            let ok = match r.target {
                RelocTarget::Segment(o) => o != 0,
                RelocTarget::Group(g) => {
                    if g == 0 {
                        false
                    } else {
                        let gi = (g - 1) as usize;
                        if gi >= self.file.groups.len() {
                            true
                        } else {
                            assert(self.file@.groups[gi as int] == self.file.groups[gi as int]@);
                            self.file.groups[gi].members.len() == 0
                                || self.file.groups[gi].members[0] != 0
                        }
                    }
                },
                RelocTarget::External(o) => o != 0,
                RelocTarget::AbsoluteFrame(_) => true,
            };
            assert(ok == reloc_ok(self.file@, r));
            if !ok {
                return false;
            }
            k = k + 1;
        }
        true
    }

    /// `next`, checked: `None`, with the iterator left as it was, where it
    /// is not valid (a fixup left names ordinal 0 where a 1-based ordinal is
    /// expected, or the iterator is out of range); otherwise what `next`
    /// gives.
    pub fn checked_next(&mut self) -> (r: Option<Option<(u64, Relocation)>>)
        ensures
            !old(self).valid() ==> r is None && *final(self) == *old(self),
            old(self).valid() ==> (r matches Some(x) && final(self).file == old(self).file
                && final(self).seg == old(self).seg && final(self).valid()
                && (x, final(self).pos as int) == next_reloc(
                old(self).file@,
                old(self).relocs(),
                old(self).pos as int,
            )),
    {
        if !self.is_valid() {
            return None;
        }
        Some(self.next())
    }
}

} // verus!
