//! The symbols of a module: publics, externals and communals, global or
//! local to the module.
use vstd::prelude::*;

use crate::error::Error;
use crate::model::{SectionIndex, SymbolIndex, SymbolKind, SymbolScope, SymbolSection};
use crate::state::{OmfFile, OmfState};
use crate::text::str_from_utf8;
use crate::types::{ParsedSymbolKind, SymbolView};

verus! {

/// The flat address of the segment with 1-based ordinal `ord`: 0 when no
/// such segment exists.
pub open spec fn flat_base_at(st: OmfState, ord: u16) -> u64 {
    if ord == 0 || ord > st.segments.len() {
        0
    } else {
        st.segments[ord - 1].flat_base
    }
}

/// Whether a symbol is defined in the module (a public, global or local).
pub open spec fn is_public_kind(k: ParsedSymbolKind) -> bool {
    k is Public || k is LocalPublic
}

/// Whether a symbol is only referenced by the module (an external, global
/// or local).
pub open spec fn is_external_kind(k: ParsedSymbolKind) -> bool {
    k is External || k is LocalExternal
}

/// Whether a symbol is local to the module.
pub open spec fn is_local_kind(k: ParsedSymbolKind) -> bool {
    k is LocalPublic || k is LocalExternal
}

/// The address of a symbol: for a public one relative to a segment, the
/// segment's flat address plus its offset; 0 otherwise.
pub open spec fn symbol_address(st: OmfState, s: SymbolView) -> int {
    if is_public_kind(s.kind) && s.seg_ordinal != 0 {
        flat_base_at(st, s.seg_ordinal) + s.offset
    } else {
        0
    }
}

/// A symbol of a module.
pub struct OmfSymbol<'data, 'file> {
    pub file: &'file OmfFile<'data>,
    pub index: SymbolIndex,
}

impl<'data, 'file> OmfSymbol<'data, 'file> {
    /// The symbol names an existing symbol.
    pub open spec fn valid(&self) -> bool {
        self.index.0 < self.file.symbols@.len()
    }

    /// The symbol it stands for.
    pub open spec fn sym(&self) -> SymbolView {
        self.file@.symbols[self.index.0 as int]
    }

    /// The index of the symbol.
    pub fn index(&self) -> (i: SymbolIndex)
        ensures
            i == self.index,
    {
        self.index
    }

    /// The name of the symbol.
    pub fn name_bytes(&self) -> (r: Result<&'data [u8], Error>)
        requires
            self.valid(),
        ensures
            r matches Ok(n) && n@ == self.sym().name,
    {
        Ok(self.file.symbols[self.index.0].name)
    }

    /// The name of the symbol as text.
    pub fn name(&self) -> (r: Result<&'data str, Error>)
        requires
            self.valid(),
        ensures
            vstd::utf8::valid_utf8(self.sym().name) ==> (r matches Ok(s) && s@
                == vstd::utf8::decode_utf8(self.sym().name)),
            !vstd::utf8::valid_utf8(self.sym().name) ==> r == Err::<&'data str, Error>(
                Error("non-UTF8 symbol name"),
            ),
    {
        match str_from_utf8(self.file.symbols[self.index.0].name) {
            Some(s) => Ok(s),
            None => Err(Error("non-UTF8 symbol name")),
        }
    }

    /// The address of the symbol (see `symbol_address`).
    pub fn address(&self) -> (a: u64)
        requires
            self.valid(),
            symbol_address(self.file@, self.sym()) <= u64::MAX,
        ensures
            a == symbol_address(self.file@, self.sym()),
    {
        let sym = &self.file.symbols[self.index.0];
        match sym.kind {
            ParsedSymbolKind::Public | ParsedSymbolKind::LocalPublic => {
                if sym.seg_ordinal == 0 {
                    return 0;
                }
                self.file.flat_base(sym.seg_ordinal) + sym.offset as u64
            },
            _ => 0,
        }
    }

    /// OMF symbols carry no size.
    pub fn size(&self) -> (s: u64)
        ensures
            s == 0,
    {
        0
    }

    /// The kind of the symbol: a label for a public, data for a communal,
    /// unknown for an external.
    pub fn kind(&self) -> (k: SymbolKind)
        requires
            self.valid(),
        ensures
            k == (if is_public_kind(self.sym().kind) {
                SymbolKind::Label
            } else if self.sym().kind is Communal {
                SymbolKind::Data
            } else {
                SymbolKind::Unknown
            }),
    {
        match self.file.symbols[self.index.0].kind {
            ParsedSymbolKind::Public | ParsedSymbolKind::LocalPublic => SymbolKind::Label,
            ParsedSymbolKind::Communal => SymbolKind::Data,
            _ => SymbolKind::Unknown,
        }
    }

    /// The section of the symbol: a public one is in the section of its
    /// segment, or absolute when it has none; an external is undefined; a
    /// communal is common.
    pub fn section(&self) -> (s: SymbolSection)
        requires
            self.valid(),
        ensures
            s == (if is_public_kind(self.sym().kind) {
                if self.sym().seg_ordinal == 0 {
                    SymbolSection::Absolute
                } else {
                    SymbolSection::Section(SectionIndex((self.sym().seg_ordinal - 1) as usize))
                }
            } else if self.sym().kind is Communal {
                SymbolSection::Common
            } else {
                SymbolSection::Undefined
            }),
    {
        let sym = &self.file.symbols[self.index.0];
        match sym.kind {
            ParsedSymbolKind::Public | ParsedSymbolKind::LocalPublic => {
                if sym.seg_ordinal == 0 {
                    SymbolSection::Absolute
                } else {
                    SymbolSection::Section(SectionIndex((sym.seg_ordinal - 1) as usize))
                }
            },
            ParsedSymbolKind::Communal => SymbolSection::Common,
            _ => SymbolSection::Undefined,
        }
    }

    /// Whether the symbol is an external.
    pub fn is_undefined(&self) -> (b: bool)
        requires
            self.valid(),
        ensures
            b == is_external_kind(self.sym().kind),
    {
        match self.file.symbols[self.index.0].kind {
            ParsedSymbolKind::External | ParsedSymbolKind::LocalExternal => true,
            _ => false,
        }
    }

    /// Whether the symbol is a public.
    pub fn is_definition(&self) -> (b: bool)
        requires
            self.valid(),
        ensures
            b == is_public_kind(self.sym().kind),
    {
        match self.file.symbols[self.index.0].kind {
            ParsedSymbolKind::Public | ParsedSymbolKind::LocalPublic => true,
            _ => false,
        }
    }

    /// Whether the symbol is a communal.
    pub fn is_common(&self) -> (b: bool)
        requires
            self.valid(),
        ensures
            b == (self.sym().kind is Communal),
    {
        match self.file.symbols[self.index.0].kind {
            ParsedSymbolKind::Communal => true,
            _ => false,
        }
    }

    /// OMF symbols are never weak.
    pub fn is_weak(&self) -> (b: bool)
        ensures
            !b,
    {
        false
    }

    /// Whether the symbol is visible outside the module.
    pub fn is_global(&self) -> (b: bool)
        requires
            self.valid(),
        ensures
            b == !is_local_kind(self.sym().kind),
    {
        !self.is_local()
    }

    /// Whether the symbol is local to the module.
    pub fn is_local(&self) -> (b: bool)
        requires
            self.valid(),
        ensures
            b == is_local_kind(self.sym().kind),
    {
        match self.file.symbols[self.index.0].kind {
            ParsedSymbolKind::LocalPublic | ParsedSymbolKind::LocalExternal => true,
            _ => false,
        }
    }

    /// The scope of the symbol: the module for a local one, the link
    /// otherwise.
    pub fn scope(&self) -> (s: SymbolScope)
        requires
            self.valid(),
        ensures
            s == (if is_local_kind(self.sym().kind) {
                SymbolScope::Compilation
            } else {
                SymbolScope::Linkage
            }),
    {
        if self.is_local() {
            SymbolScope::Compilation
        } else {
            SymbolScope::Linkage
        }
    }
}

/// The symbols of a module, in order.
pub struct OmfSymbolIterator<'data, 'file> {
    pub file: &'file OmfFile<'data>,
    pub index: usize,
}

impl<'data, 'file> OmfSymbolIterator<'data, 'file> {
    /// The next symbol, if any.
    pub fn next(&mut self) -> (r: Option<OmfSymbol<'data, 'file>>)
        ensures
            final(self).file == old(self).file,
            old(self).index < old(self).file.symbols@.len() ==> (r matches Some(s) && s.file
                == old(self).file && s.index == SymbolIndex(old(self).index as usize)
                && final(self).index == old(self).index + 1),
            old(self).index >= old(self).file.symbols@.len() ==> r is None && final(self).index
                == old(self).index,
    {
        if self.index < self.file.symbols.len() {
            let s = OmfSymbol { file: self.file, index: SymbolIndex(self.index) };
            self.index = self.index + 1;
            Some(s)
        } else {
            None
        }
    }
}

/// The symbol table of a module.
pub struct OmfSymbolTable<'data, 'file> {
    pub file: &'file OmfFile<'data>,
}

impl<'data, 'file> OmfSymbolTable<'data, 'file> {
    /// The symbols of the table, from the first.
    pub fn symbols(&self) -> (it: OmfSymbolIterator<'data, 'file>)
        ensures
            it.file == self.file,
            it.index == 0,
    {
        OmfSymbolIterator { file: self.file, index: 0 }
    }

    /// The symbol at `index`.
    pub fn symbol_by_index(&self, index: SymbolIndex) -> (r: Result<OmfSymbol<'data, 'file>, Error>)
        ensures
            index.0 < self.file.symbols@.len() ==> (r matches Ok(s) && s.file == self.file && s.index
                == index),
            index.0 >= self.file.symbols@.len() ==> r == Err::<OmfSymbol<'data, 'file>, Error>(
                Error("Invalid OMF symbol index"),
            ),
    {
        self.file.symbol_by_index(index)
    }
}

impl<'data> OmfFile<'data> {
    /// The flat address of the segment with 1-based ordinal `seg_ordinal`,
    /// 0 when no such segment exists.
    pub(crate) fn flat_base(&self, seg_ordinal: u16) -> (b: u64)
        requires
            seg_ordinal != 0,
        ensures
            b == flat_base_at(self@, seg_ordinal),
    {
        let i = (seg_ordinal - 1) as usize;
        if i < self.segments.len() {
            self.segments[i].flat_base
        } else {
            0
        }
    }

    /// The symbol at `index`.
    pub fn symbol_by_index<'file>(&'file self, index: SymbolIndex) -> (r: Result<OmfSymbol<'data, 'file>, Error>)
        ensures
            index.0 < self.symbols@.len() ==> (r matches Ok(s) && s.file == self && s.index == index),
            index.0 >= self.symbols@.len() ==> r == Err::<OmfSymbol<'data, 'file>, Error>(
                Error("Invalid OMF symbol index"),
            ),
    {
        if index.0 < self.symbols.len() {
            Ok(OmfSymbol { file: self, index })
        } else {
            Err(Error("Invalid OMF symbol index"))
        }
    }

    /// The symbols of the module, from the first.
    pub fn symbols<'file>(&'file self) -> (it: OmfSymbolIterator<'data, 'file>)
        ensures
            it.file == self,
            it.index == 0,
    {
        OmfSymbolIterator { file: self, index: 0 }
    }

    /// The symbol table: `None` when the module has no symbol.
    pub fn symbol_table<'file>(&'file self) -> (t: Option<OmfSymbolTable<'data, 'file>>)
        ensures
            self.symbols@.len() == 0 ==> t is None,
            self.symbols@.len() != 0 ==> (t matches Some(tb) && tb.file == self),
    {
        if self.symbols.len() == 0 {
            None
        } else {
            Some(OmfSymbolTable { file: self })
        }
    }

    /// An OMF module has no dynamic symbol table.
    pub fn dynamic_symbol_table<'file>(&'file self) -> (t: Option<OmfSymbolTable<'data, 'file>>)
        ensures
            t is None,
    {
        None
    }

    /// An OMF module has no dynamic symbols: the iterator yields nothing.
    pub fn dynamic_symbols<'file>(&'file self) -> (it: OmfSymbolIterator<'data, 'file>)
        ensures
            it.file == self,
            it.index == self.symbols@.len(),
    {
        OmfSymbolIterator { file: self, index: self.symbols.len() }
    }
}

} // verus!
