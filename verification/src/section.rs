//! The segments of a module seen as sections and as segments: their names,
//! kinds, addresses, sizes and data.
use vstd::prelude::*;

use crate::error::Error;
use crate::model::{Permissions, SectionIndex, SectionKind};
use crate::reader::eff_len;
use crate::relocation::OmfRelocationIterator;
use crate::state::{OmfFile, OmfState};
use crate::text::str_from_utf8;
use crate::types::SegmentView;

verus! {

/// The section kind that a segment class name stands for: CODE and
/// FAR_CODE are text, DATA, FAR_DATA and STACK data, BSS uninitialized data.
pub open spec fn class_kind(class: Seq<u8>) -> SectionKind {
    if class == seq![0x43u8, 0x4Fu8, 0x44u8, 0x45u8] || class == seq![
        0x46u8,
        0x41u8,
        0x52u8,
        0x5Fu8,
        0x43u8,
        0x4Fu8,
        0x44u8,
        0x45u8,
    ] {
        SectionKind::Text
    } else if class == seq![0x44u8, 0x41u8, 0x54u8, 0x41u8] || class == seq![
        0x46u8,
        0x41u8,
        0x52u8,
        0x5Fu8,
        0x44u8,
        0x41u8,
        0x54u8,
        0x41u8,
    ] || class == seq![0x53u8, 0x54u8, 0x41u8, 0x43u8, 0x4Bu8] {
        SectionKind::Data
    } else if class == seq![0x42u8, 0x53u8, 0x53u8] {
        SectionKind::UninitializedData
    } else {
        SectionKind::Unknown
    }
}

/// Map a segment class name to a section kind (see `class_kind`).
pub fn omf_class_to_section_kind(class: &[u8]) -> (k: SectionKind)
    ensures
        k == class_kind(class@),
{
    let n = class.len();
    let is_code = n == 4 && class[0] == 0x43 && class[1] == 0x4F && class[2] == 0x44 && class[3]
        == 0x45;
    let is_far_code = n == 8 && class[0] == 0x46 && class[1] == 0x41 && class[2] == 0x52 && class[3]
        == 0x5F && class[4] == 0x43 && class[5] == 0x4F && class[6] == 0x44 && class[7] == 0x45;
    let is_data = n == 4 && class[0] == 0x44 && class[1] == 0x41 && class[2] == 0x54 && class[3]
        == 0x41;
    let is_far_data = n == 8 && class[0] == 0x46 && class[1] == 0x41 && class[2] == 0x52 && class[3]
        == 0x5F && class[4] == 0x44 && class[5] == 0x41 && class[6] == 0x54 && class[7] == 0x41;
    let is_stack = n == 5 && class[0] == 0x53 && class[1] == 0x54 && class[2] == 0x41 && class[3]
        == 0x43 && class[4] == 0x4B;
    let is_bss = n == 3 && class[0] == 0x42 && class[1] == 0x53 && class[2] == 0x53;
    proof {
        assert(is_code == (class@ == seq![0x43u8, 0x4Fu8, 0x44u8, 0x45u8])) by {
            if n == 4 {
                assert(is_code ==> class@ =~= seq![0x43u8, 0x4Fu8, 0x44u8, 0x45u8]);
            }
        }
        assert(is_far_code == (class@ == seq![
            0x46u8,
            0x41u8,
            0x52u8,
            0x5Fu8,
            0x43u8,
            0x4Fu8,
            0x44u8,
            0x45u8,
        ])) by {
            if n == 8 {
                assert(is_far_code ==> class@ =~= seq![
                    0x46u8,
                    0x41u8,
                    0x52u8,
                    0x5Fu8,
                    0x43u8,
                    0x4Fu8,
                    0x44u8,
                    0x45u8,
                ]);
            }
        }
        assert(is_data == (class@ == seq![0x44u8, 0x41u8, 0x54u8, 0x41u8])) by {
            if n == 4 {
                assert(is_data ==> class@ =~= seq![0x44u8, 0x41u8, 0x54u8, 0x41u8]);
            }
        }
        assert(is_far_data == (class@ == seq![
            0x46u8,
            0x41u8,
            0x52u8,
            0x5Fu8,
            0x44u8,
            0x41u8,
            0x54u8,
            0x41u8,
        ])) by {
            if n == 8 {
                assert(is_far_data ==> class@ =~= seq![
                    0x46u8,
                    0x41u8,
                    0x52u8,
                    0x5Fu8,
                    0x44u8,
                    0x41u8,
                    0x54u8,
                    0x41u8,
                ]);
            }
        }
        assert(is_stack == (class@ == seq![0x53u8, 0x54u8, 0x41u8, 0x43u8, 0x4Bu8])) by {
            if n == 5 {
                assert(is_stack ==> class@ =~= seq![0x53u8, 0x54u8, 0x41u8, 0x43u8, 0x4Bu8]);
            }
        }
        assert(is_bss == (class@ == seq![0x42u8, 0x53u8, 0x53u8])) by {
            if n == 3 {
                assert(is_bss ==> class@ =~= seq![0x42u8, 0x53u8, 0x53u8]);
            }
        }
    }
    if is_code || is_far_code {
        SectionKind::Text
    } else if is_data || is_far_data || is_stack {
        SectionKind::Data
    } else if is_bss {
        SectionKind::UninitializedData
    } else {
        SectionKind::Unknown
    }
}

/// The name at a 0-based slot of the name list: empty for the "no name"
/// slot (`u16::MAX`) and for a slot past the end of the list.
pub open spec fn slot_name(st: OmfState, slot: u16) -> Seq<u8> {
    if slot == u16::MAX || slot >= st.lnames.len() {
        Seq::empty()
    } else {
        st.lnames[slot as int]
    }
}

/// The bytes of `data` from `start` for `size` bytes, if they lie within it.
pub open spec fn range_of(data: Seq<u8>, start: int, size: int) -> Option<Seq<u8>> {
    if start + size <= data.len() {
        Some(data.subrange(start, start + size))
    } else {
        None
    }
}

/// The bytes of a segment's data at `address` for `size` bytes: `None`
/// when the address is below the segment's base or the range runs past its
/// data.
pub open spec fn data_range_of(seg: SegmentView, address: u64, size: u64) -> Option<Seq<u8>> {
    if address < seg.flat_base {
        None
    } else {
        range_of(seg.data, address - seg.flat_base, size as int)
    }
}

/// The bytes of `data` at `address - base` for `size` bytes (see
/// `data_range_of`).
fn slice_range<'a>(data: &'a [u8], base: u64, address: u64, size: u64) -> (r: Option<&'a [u8]>)
    ensures
        match (if address < base {
            None
        } else {
            range_of(data@, address - base, size as int)
        }) {
            None => r is None,
            Some(s) => r matches Some(x) && x@ == s,
        },
{
    if address < base {
        return None;
    }
    let start = address - base;
    let len = data.len() as u64;
    if start > len || size > len - start {
        return None;
    }
    let s = start as usize;
    let e = (start + size) as usize;
    Some(vstd::slice::slice_subrange(data, s, e))
}

/// A segment of a module, seen as a section.
pub struct OmfSection<'data, 'file> {
    pub file: &'file OmfFile<'data>,
    pub index: SectionIndex,
}

impl<'data, 'file> OmfSection<'data, 'file> {
    /// The section names an existing segment.
    pub open spec fn valid(&self) -> bool {
        self.index.0 < self.file.segments@.len()
    }

    /// The segment the section stands for.
    pub open spec fn seg(&self) -> SegmentView {
        self.file@.segments[self.index.0 as int]
    }

    /// The index of the section.
    pub fn index(&self) -> (i: SectionIndex)
        ensures
            i == self.index,
    {
        self.index
    }

    /// The flat address of the segment.
    pub fn address(&self) -> (a: u64)
        requires
            self.valid(),
        ensures
            a == self.seg().flat_base,
    {
        self.file.segments[self.index.0].flat_base
    }

    /// The size of the segment: 64 KB for a B-bit segment, else its length.
    pub fn size(&self) -> (s: u64)
        requires
            self.valid(),
        ensures
            s == eff_len(self.seg()),
    {
        let seg = &self.file.segments[self.index.0];
        if seg.big {
            0x10000
        } else {
            seg.length as u64
        }
    }

    /// The alignment of the segment in bytes.
    pub fn align(&self) -> (a: u64)
        requires
            self.valid(),
        ensures
            a == self.seg().alignment,
    {
        self.file.segments[self.index.0].alignment as u64
    }

    /// An OMF section has no range in the file.
    pub fn file_range(&self) -> (r: Option<(u64, u64)>)
        ensures
            r is None,
    {
        None
    }

    /// The data of the segment.
    pub fn data(&self) -> (r: Result<&'file [u8], Error>)
        requires
            self.valid(),
        ensures
            r matches Ok(d) && d@ == self.seg().data,
    {
        Ok(self.file.segments[self.index.0].data.as_slice())
    }

    /// The data at `address` for `size` bytes (see `data_range_of`).
    pub fn data_range(&self, address: u64, size: u64) -> (r: Result<Option<&'file [u8]>, Error>)
        requires
            self.valid(),
        ensures
            match data_range_of(self.seg(), address, size) {
                None => r == Ok::<Option<&'file [u8]>, Error>(None),
                Some(s) => r matches Ok(Some(x)) && x@ == s,
            },
    {
        let seg = &self.file.segments[self.index.0];
        Ok(slice_range(seg.data.as_slice(), seg.flat_base, address, size))
    }

    /// The name of the segment (empty when it has none).
    pub fn name_bytes(&self) -> (r: Result<&'data [u8], Error>)
        requires
            self.valid(),
        ensures
            r matches Ok(n) && n@ == slot_name(self.file@, self.seg().name_idx),
    {
        let slot = self.file.segments[self.index.0].name_idx;
        if slot == u16::MAX || slot as usize >= self.file.lnames.len() {
            let empty: &'data [u8] = &[];
            assert(empty@ =~= Seq::<u8>::empty());
            Ok(empty)
        } else {
            Ok(self.file.lnames[slot as usize])
        }
    }

    /// The name of the segment as text.
    pub fn name(&self) -> (r: Result<&'data str, Error>)
        requires
            self.valid(),
        ensures
            vstd::utf8::valid_utf8(slot_name(self.file@, self.seg().name_idx)) ==> (r matches Ok(s)
                && s@ == vstd::utf8::decode_utf8(slot_name(self.file@, self.seg().name_idx))),
            !vstd::utf8::valid_utf8(slot_name(self.file@, self.seg().name_idx)) ==> r == Err::<
                &'data str,
                Error,
            >(Error("non-UTF8 section name")),
    {
        let bytes = match self.name_bytes() {
            Ok(b) => b,
            Err(e) => {
                return Err(e);
            },
        };
        match str_from_utf8(bytes) {
            Some(s) => Ok(s),
            None => Err(Error("non-UTF8 section name")),
        }
    }

    /// An OMF section belongs to no named segment.
    pub fn segment_name_bytes(&self) -> (r: Result<Option<&[u8]>, Error>)
        ensures
            r == Ok::<Option<&[u8]>, Error>(None),
    {
        Ok(None)
    }

    /// An OMF section belongs to no named segment.
    pub fn segment_name(&self) -> (r: Result<Option<&str>, Error>)
        ensures
            r == Ok::<Option<&str>, Error>(None),
    {
        Ok(None)
    }

    /// The kind of the section, from its segment's class name.
    pub fn kind(&self) -> (k: SectionKind)
        requires
            self.valid(),
        ensures
            k == class_kind(slot_name(self.file@, self.seg().class_idx)),
    {
        let slot = self.file.segments[self.index.0].class_idx;
        if slot == u16::MAX || slot as usize >= self.file.lnames.len() {
            let empty: &[u8] = &[];
            assert(empty@ =~= Seq::<u8>::empty());
            omf_class_to_section_kind(empty)
        } else {
            omf_class_to_section_kind(self.file.lnames[slot as usize])
        }
    }

    /// The relocations of the section.
    pub fn relocations(&self) -> (it: OmfRelocationIterator<'data, 'file>)
        requires
            self.valid(),
        ensures
            it.file == self.file,
            it.seg == self.index.0,
            it.pos == 0,
    {
        OmfRelocationIterator { file: self.file, seg: self.index.0, pos: 0 }
    }
}

/// The sections of a module, in segment order.
pub struct OmfSectionIterator<'data, 'file> {
    pub file: &'file OmfFile<'data>,
    pub index: usize,
}

impl<'data, 'file> OmfSectionIterator<'data, 'file> {
    /// The next section, if any.
    pub fn next(&mut self) -> (r: Option<OmfSection<'data, 'file>>)
        ensures
            final(self).file == old(self).file,
            old(self).index < old(self).file.segments@.len() ==> (r matches Some(s) && s.file
                == old(self).file && s.index == SectionIndex(old(self).index as usize)
                && final(self).index == old(self).index + 1),
            old(self).index >= old(self).file.segments@.len() ==> r is None && final(self).index
                == old(self).index,
    {
        if self.index < self.file.segments.len() {
            let s = OmfSection { file: self.file, index: SectionIndex(self.index) };
            self.index = self.index + 1;
            Some(s)
        } else {
            None
        }
    }
}

/// A segment of a module.
pub struct OmfSegment<'data, 'file> {
    pub file: &'file OmfFile<'data>,
    pub index: usize,
}

impl<'data, 'file> OmfSegment<'data, 'file> {
    /// The segment names an existing segment.
    pub open spec fn valid(&self) -> bool {
        self.index < self.file.segments@.len()
    }

    /// The segment it stands for.
    pub open spec fn seg(&self) -> SegmentView {
        self.file@.segments[self.index as int]
    }

    /// The flat address of the segment.
    pub fn address(&self) -> (a: u64)
        requires
            self.valid(),
        ensures
            a == self.seg().flat_base,
    {
        self.file.segments[self.index].flat_base
    }

    /// The size of the segment: 64 KB for a B-bit segment, else its length.
    pub fn size(&self) -> (s: u64)
        requires
            self.valid(),
        ensures
            s == eff_len(self.seg()),
    {
        let seg = &self.file.segments[self.index];
        if seg.big {
            0x10000
        } else {
            seg.length as u64
        }
    }

    /// The alignment of the segment in bytes.
    pub fn align(&self) -> (a: u64)
        requires
            self.valid(),
        ensures
            a == self.seg().alignment,
    {
        self.file.segments[self.index].alignment as u64
    }

    /// An OMF segment has no range in the file.
    pub fn file_range(&self) -> (r: (u64, u64))
        ensures
            r == (0u64, 0u64),
    {
        (0, 0)
    }

    /// The data of the segment.
    pub fn data(&self) -> (r: Result<&'file [u8], Error>)
        requires
            self.valid(),
        ensures
            r matches Ok(d) && d@ == self.seg().data,
    {
        Ok(self.file.segments[self.index].data.as_slice())
    }

    /// The data at `address` for `size` bytes (see `data_range_of`).
    pub fn data_range(&self, address: u64, size: u64) -> (r: Result<Option<&'file [u8]>, Error>)
        requires
            self.valid(),
        ensures
            match data_range_of(self.seg(), address, size) {
                None => r == Ok::<Option<&'file [u8]>, Error>(None),
                Some(s) => r matches Ok(Some(x)) && x@ == s,
            },
    {
        let seg = &self.file.segments[self.index];
        Ok(slice_range(seg.data.as_slice(), seg.flat_base, address, size))
    }

    /// The name of the segment: `None` when it has none, or when its slot is
    /// past the end of the name list.
    pub fn name_bytes(&self) -> (r: Result<Option<&'data [u8]>, Error>)
        requires
            self.valid(),
        ensures
            (self.seg().name_idx == u16::MAX || self.seg().name_idx >= self.file@.lnames.len()) ==> r
                == Ok::<Option<&'data [u8]>, Error>(None),
            (self.seg().name_idx != u16::MAX && self.seg().name_idx < self.file@.lnames.len()) ==> (r matches Ok(Some(n))
                && n@ == self.file@.lnames[self.seg().name_idx as int]),
    {
        let slot = self.file.segments[self.index].name_idx;
        if slot == u16::MAX || slot as usize >= self.file.lnames.len() {
            Ok(None)
        } else {
            Ok(Some(self.file.lnames[slot as usize]))
        }
    }

    /// The name of the segment as text.
    pub fn name(&self) -> (r: Result<Option<&'data str>, Error>)
        requires
            self.valid(),
        ensures
            (self.seg().name_idx == u16::MAX || self.seg().name_idx >= self.file@.lnames.len()) ==> r
                == Ok::<Option<&'data str>, Error>(None),
            (self.seg().name_idx != u16::MAX && self.seg().name_idx < self.file@.lnames.len()) ==> ({
                let n = self.file@.lnames[self.seg().name_idx as int];
                &&& vstd::utf8::valid_utf8(n) ==> (r matches Ok(Some(s)) && s@ == vstd::utf8::decode_utf8(n))
                &&& !vstd::utf8::valid_utf8(n) ==> r == Err::<Option<&'data str>, Error>(
                    Error("non-UTF8 segment name"),
                )
            }),
    {
        match self.name_bytes() {
            Err(e) => Err(e),
            Ok(None) => Ok(None),
            Ok(Some(bytes)) => match str_from_utf8(bytes) {
                Some(s) => Ok(Some(s)),
                None => Err(Error("non-UTF8 segment name")),
            },
        }
    }

    /// The permissions of the segment: read and execute for code, read and
    /// write otherwise.
    pub fn permissions(&self) -> (p: Permissions)
        requires
            self.valid(),
        ensures
            class_kind(slot_name(self.file@, self.seg().class_idx)) is Text ==> p == (Permissions { read: true, write: false, execute: true }),
            !(class_kind(slot_name(self.file@, self.seg().class_idx)) is Text) ==> p == (Permissions { read: true, write: true, execute: false }),
    {
        let slot = self.file.segments[self.index].class_idx;
        let kind = if slot == u16::MAX || slot as usize >= self.file.lnames.len() {
            let empty: &[u8] = &[];
            assert(empty@ =~= Seq::<u8>::empty());
            omf_class_to_section_kind(empty)
        } else {
            omf_class_to_section_kind(self.file.lnames[slot as usize])
        };
        match kind {
            SectionKind::Text => Permissions::new(true, false, true),
            _ => Permissions::new(true, true, false),
        }
    }
}

/// The segments of a module, in order.
pub struct OmfSegmentIterator<'data, 'file> {
    pub file: &'file OmfFile<'data>,
    pub index: usize,
}

impl<'data, 'file> OmfSegmentIterator<'data, 'file> {
    /// The next segment, if any.
    pub fn next(&mut self) -> (r: Option<OmfSegment<'data, 'file>>)
        ensures
            final(self).file == old(self).file,
            old(self).index < old(self).file.segments@.len() ==> (r matches Some(s) && s.file
                == old(self).file && s.index == old(self).index && final(self).index
                == old(self).index + 1),
            old(self).index >= old(self).file.segments@.len() ==> r is None && final(self).index
                == old(self).index,
    {
        if self.index < self.file.segments.len() {
            let s = OmfSegment { file: self.file, index: self.index };
            self.index = self.index + 1;
            Some(s)
        } else {
            None
        }
    }
}

} // verus!
