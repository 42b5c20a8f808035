//! What a read module answers about itself: its name, names, records,
//! sections, symbols and entry point.
use vstd::prelude::*;

use crate::error::Error;
use crate::model::{Architecture, BinaryFormat, Endianness, ObjectKind, SectionIndex, SymbolIndex};
use crate::section::{slot_name, OmfSection, OmfSectionIterator, OmfSegmentIterator};
use crate::state::{OmfFile, OmfState};
use crate::symbol::flat_base_at;
use crate::text::bytes_eq;
use crate::types::{
    CombatRecord, EntryPoint, FixuppRecordView, ParsedComdefEntry, ParsedFixuppRecord,
    ParsedFixuppSubrecord, ParsedThreadSubrecord, ParsedTypDefRecord,
};

verus! {

/// The THREAD subrecords among `subs`, in order.
pub open spec fn threads_in(subs: Seq<ParsedFixuppSubrecord>) -> Seq<ParsedThreadSubrecord>
    decreases subs.len(),
{
    if subs.len() == 0 {
        Seq::empty()
    } else {
        let rest = threads_in(subs.drop_last());
        match subs.last() {
            ParsedFixuppSubrecord::Thread(t) => rest.push(t),
            _ => rest,
        }
    }
}

/// The THREAD subrecords of all FIXUPP records, in order.
pub open spec fn all_threads(recs: Seq<FixuppRecordView>) -> Seq<ParsedThreadSubrecord>
    decreases recs.len(),
{
    if recs.len() == 0 {
        Seq::empty()
    } else {
        all_threads(recs.drop_last()) + threads_in(recs.last().subrecords)
    }
}

/// The entry point as a flat address: a segment's flat address plus the
/// offset; 0 when there is no entry point or it names an external symbol.
pub open spec fn entry_address(st: OmfState) -> int {
    match st.entry {
        EntryPoint::Segment(ord, off) => flat_base_at(st, ord) + off,
        _ => 0,
    }
}

/// The first segment at or after `i` whose name is `name`.
pub open spec fn first_named(st: OmfState, name: Seq<u8>, i: int) -> Option<int>
    decreases st.segments.len() - i,
{
    if i < 0 || i >= st.segments.len() {
        None
    } else if slot_name(st, st.segments[i].name_idx) == name {
        Some(i)
    } else {
        first_named(st, name, i + 1)
    }
}

impl<'data> OmfFile<'data> {
    /// The symbol that a 1-based external ordinal names.
    pub fn extdef_symbol_index(&self, ordinal: u16) -> (r: Result<SymbolIndex, Error>)
        requires
            ordinal != 0,
        ensures
            ordinal <= self@.extdef_symbol_indices.len() ==> r == Ok::<SymbolIndex, Error>(
                self@.extdef_symbol_indices[ordinal - 1],
            ),
            ordinal > self@.extdef_symbol_indices.len() ==> r == Err::<SymbolIndex, Error>(
                Error("EXTDEF index out of range"),
            ),
    {
        let i = (ordinal - 1) as usize;
        if i < self.extdef_symbol_indices.len() {
            Ok(self.extdef_symbol_indices[i])
        } else {
            Err(Error("EXTDEF index out of range"))
        }
    }

    /// The binary format of the file.
    pub fn binary_format(&self) -> (f: BinaryFormat)
        ensures
            f == BinaryFormat::Omf,
    {
        BinaryFormat::Omf
    }

    /// The architecture of the file: 16-bit x86.
    pub fn architecture(&self) -> (a: Architecture)
        ensures
            a == Architecture::X86_16,
    {
        Architecture::X86_16
    }

    /// The byte order of the file: little-endian.
    pub fn endianness(&self) -> (e: Endianness)
        ensures
            e == Endianness::Little,
    {
        Endianness::Little
    }

    /// The file is little-endian.
    pub fn is_little_endian(&self) -> (b: bool)
        ensures
            b,
    {
        true
    }

    /// The file is not a 64-bit one.
    pub fn is_64(&self) -> (b: bool)
        ensures
            !b,
    {
        false
    }

    /// An OMF module is a relocatable object.
    pub fn kind(&self) -> (k: ObjectKind)
        ensures
            k == ObjectKind::Relocatable,
    {
        ObjectKind::Relocatable
    }

    /// An OMF module carries no debug symbols that are read here.
    pub fn has_debug_symbols(&self) -> (b: bool)
        ensures
            !b,
    {
        false
    }

    /// Addresses are flat addresses from 0.
    pub fn relative_address_base(&self) -> (b: u64)
        ensures
            b == 0,
    {
        0
    }

    /// The decoded FIXUPP records.
    pub fn fixupp_records(&self) -> (r: &[ParsedFixuppRecord])
        ensures
            r@ == self.fixupp_records@,
    {
        self.fixupp_records.as_slice()
    }

    /// The decoded FIXUPP records, as the format has them.
    pub fn raw_fixupp_records(&self) -> (r: &[ParsedFixuppRecord])
        ensures
            r@ == self.fixupp_records@,
    {
        self.fixupp_records.as_slice()
    }

    /// The parsed TYPDEF records.
    pub fn raw_typdefs(&self) -> (r: &[ParsedTypDefRecord<'data>])
        ensures
            r@ == self.typdefs@,
    {
        self.typdefs.as_slice()
    }

    /// The parsed COMDEF entries.
    pub fn raw_comdefs(&self) -> (r: &[ParsedComdefEntry<'data>])
        ensures
            r@ == self.comdefs@,
    {
        self.comdefs.as_slice()
    }

    /// The parsed COMDAT records.
    pub fn comdat_records(&self) -> (r: &[CombatRecord])
        ensures
            r@ == self.comdat_records@,
    {
        self.comdat_records.as_slice()
    }

    /// All THREAD subrecords of all FIXUPP records, in order.
    pub fn thread_subrecords(&self) -> (r: Vec<&ParsedThreadSubrecord>)
        ensures
            r@.map_values(|t: &ParsedThreadSubrecord| *t) == all_threads(self@.fixupp_records),
    {
        let mut threads: Vec<&ParsedThreadSubrecord> = Vec::new();
        let n = self.fixupp_records.len();
        let ghost recs = self@.fixupp_records;
        let mut i: usize = 0;
        while i < n
            invariant
                n == recs.len(),
                recs == self@.fixupp_records,
                i <= n,
                threads@.map_values(|t: &ParsedThreadSubrecord| *t) == all_threads(recs.take(i as int)),
            decreases n - i,
        {
            let rec = &self.fixupp_records[i];
            let m = rec.subrecords.len();
            let ghost subs = recs[i as int].subrecords;
            assert(subs == rec.subrecords@);
            let ghost before = threads@.map_values(|t: &ParsedThreadSubrecord| *t);
            let mut j: usize = 0;
            assert(subs.take(0) =~= Seq::<ParsedFixuppSubrecord>::empty());
            while j < m
                invariant
                    m == subs.len(),
                    subs == rec.subrecords@,
                    j <= m,
                    threads@.map_values(|t: &ParsedThreadSubrecord| *t) == before + threads_in(
                        subs.take(j as int),
                    ),
                decreases m - j,
            {
                assert(subs.take(j + 1).drop_last() =~= subs.take(j as int));
                let ghost prev = threads@;
                if let ParsedFixuppSubrecord::Thread(t) = &rec.subrecords[j] {
                    threads.push(t);
                    assert(threads@.map_values(|t: &ParsedThreadSubrecord| *t) =~= prev.map_values(
                        |t: &ParsedThreadSubrecord| *t,
                    ).push(*t));
                }
                j = j + 1;
            }
            assert(subs.take(m as int) =~= subs);
            assert(recs.take(i + 1).drop_last() =~= recs.take(i as int));
            i = i + 1;
        }
        assert(recs.take(n as int) =~= recs);
        threads
    }

    /// The module name.
    pub fn module_name(&self) -> (n: &'data [u8])
        ensures
            n@ == self@.module_name,
    {
        self.module_name
    }

    /// The list of names.
    pub fn lnames(&self) -> (r: &[&'data [u8]])
        ensures
            r@ == self.lnames@,
    {
        self.lnames.as_slice()
    }

    /// The name at a 0-based index of the name list.
    pub fn lname(&self, index: u16) -> (r: Option<&'data [u8]>)
        ensures
            index < self@.lnames.len() ==> (r matches Some(n) && n@ == self@.lnames[index as int]),
            index >= self@.lnames.len() ==> r is None,
    {
        if (index as usize) < self.lnames.len() {
            Some(self.lnames[index as usize])
        } else {
            None
        }
    }

    /// The number of ordinals of the external name space.
    pub fn extdef_count(&self) -> (n: usize)
        ensures
            n == self@.extdef_symbol_indices.len(),
    {
        self.extdef_symbol_indices.len()
    }

    /// The segments of the module, from the first.
    pub fn segments<'file>(&'file self) -> (it: OmfSegmentIterator<'data, 'file>)
        ensures
            it.file == self,
            it.index == 0,
    {
        OmfSegmentIterator { file: self, index: 0 }
    }

    /// The sections of the module, from the first.
    pub fn sections<'file>(&'file self) -> (it: OmfSectionIterator<'data, 'file>)
        ensures
            it.file == self,
            it.index == 0,
    {
        OmfSectionIterator { file: self, index: 0 }
    }

    /// The section at `index`.
    pub fn section_by_index<'file>(&'file self, index: SectionIndex) -> (r: Result<OmfSection<'data, 'file>, Error>)
        ensures
            index.0 < self.segments@.len() ==> (r matches Ok(s) && s.file == self && s.index == index),
            index.0 >= self.segments@.len() ==> r == Err::<OmfSection<'data, 'file>, Error>(
                Error("Invalid OMF section index"),
            ),
    {
        if index.0 < self.segments.len() {
            Ok(OmfSection { file: self, index })
        } else {
            Err(Error("Invalid OMF section index"))
        }
    }

    /// The first section whose name is `name` (see `first_named`).
    pub fn section_by_name_bytes<'file>(&'file self, name: &[u8]) -> (r: Option<OmfSection<'data, 'file>>)
        ensures
            match first_named(self@, name@, 0) {
                None => r is None,
                Some(i) => r matches Some(s) && s.file == self && s.index.0 == i,
            },
    {
        let n = self.segments.len();
        let mut i: usize = 0;
        while i < n
            invariant
                n == self@.segments.len(),
                i <= n,
                first_named(self@, name@, 0) == first_named(self@, name@, i as int),
            decreases n - i,
        {
            let slot = self.segments[i].name_idx;
            assert(slot == self@.segments[i as int].name_idx);
            let matches = if slot == u16::MAX || slot as usize >= self.lnames.len() {
                proof {
                    if name@.len() == 0 {
                        assert(name@ =~= Seq::<u8>::empty());
                    }
                }
                name.len() == 0
            } else {
                assert(self.lnames[slot as int]@ == self@.lnames[slot as int]);
                bytes_eq(self.lnames[slot as usize], name)
            };
            assert(matches == (slot_name(self@, slot) == name@));
            if matches {
                return Some(OmfSection { file: self, index: SectionIndex(i) });
            }
            i = i + 1;
        }
        None
    }

    /// The first section whose name is `name`.
    pub fn section_by_name<'file>(&'file self, name: &str) -> (r: Option<OmfSection<'data, 'file>>)
        ensures
            match first_named(self@, vstd::utf8::encode_utf8(name@), 0) {
                None => r is None,
                Some(i) => r matches Some(s) && s.file == self && s.index.0 == i,
            },
    {
        self.section_by_name_bytes(name.as_bytes())
    }

    /// The entry point as a flat address (see `entry_address`).
    pub fn entry(&self) -> (a: u64)
        requires
            self@.entry matches EntryPoint::Segment(ord, _) ==> ord != 0,
            entry_address(self@) <= u64::MAX,
        ensures
            a == entry_address(self@),
    {
        match self.entry {
            EntryPoint::NoEntry => 0,
            EntryPoint::Segment(ord, offset) => self.flat_base(ord) + offset as u64,
            EntryPoint::External(_, _) => 0,
        }
    }
}

} // verus!
