//! COMDAT groups: each COMDEF entry is exposed as a group of its own, with
//! the communal symbol as its symbol and no section.
use vstd::prelude::*;

use crate::error::Error;
use crate::model::{ComdatKind, SectionIndex, SymbolIndex};
use crate::state::OmfFile;
use crate::text::str_from_utf8;

verus! {

/// A COMDAT group of a module.
pub struct OmfComdat<'data, 'file> {
    pub file: &'file OmfFile<'data>,
    pub symbol: SymbolIndex,
    pub kind: ComdatKind,
}

impl<'data, 'file> OmfComdat<'data, 'file> {
    /// The selection kind of the group.
    pub fn kind(&self) -> (k: ComdatKind)
        ensures
            k == self.kind,
    {
        self.kind
    }

    /// The symbol of the group.
    pub fn symbol(&self) -> (s: SymbolIndex)
        ensures
            s == self.symbol,
    {
        self.symbol
    }

    /// The name of the group's symbol.
    pub fn name_bytes(&self) -> (r: Result<&'data [u8], Error>)
        ensures
            self.symbol.0 < self.file.symbols@.len() ==> (r matches Ok(n) && n@
                == self.file@.symbols[self.symbol.0 as int].name),
            self.symbol.0 >= self.file.symbols@.len() ==> r == Err::<&'data [u8], Error>(
                Error("Invalid COMDAT symbol index"),
            ),
    {
        if self.symbol.0 < self.file.symbols.len() {
            Ok(self.file.symbols[self.symbol.0].name)
        } else {
            Err(Error("Invalid COMDAT symbol index"))
        }
    }

    /// The name of the group's symbol as text.
    pub fn name(&self) -> (r: Result<&'data str, Error>)
        ensures
            self.symbol.0 >= self.file.symbols@.len() ==> r == Err::<&'data str, Error>(
                Error("Invalid COMDAT symbol index"),
            ),
            self.symbol.0 < self.file.symbols@.len() ==> ({
                let n = self.file@.symbols[self.symbol.0 as int].name;
                &&& vstd::utf8::valid_utf8(n) ==> (r matches Ok(s) && s@ == vstd::utf8::decode_utf8(n))
                &&& !vstd::utf8::valid_utf8(n) ==> r == Err::<&'data str, Error>(
                    Error("non-UTF8 COMDAT symbol name"),
                )
            }),
    {
        let bytes = match self.name_bytes() {
            Ok(b) => b,
            Err(e) => {
                return Err(e);
            },
        };
        match str_from_utf8(bytes) {
            Some(s) => Ok(s),
            None => Err(Error("non-UTF8 COMDAT symbol name")),
        }
    }

    /// The sections of the group: none.
    pub fn sections(&self) -> (it: OmfComdatSectionIterator<'data, 'file>)
        ensures
            it.file == self.file,
    {
        OmfComdatSectionIterator { file: self.file }
    }
}

/// The sections of a COMDAT group: communal variables live in common
/// storage, so there are none.
pub struct OmfComdatSectionIterator<'data, 'file> {
    pub file: &'file OmfFile<'data>,
}

impl<'data, 'file> OmfComdatSectionIterator<'data, 'file> {
    /// The next section: there is none.
    pub fn next(&mut self) -> (r: Option<SectionIndex>)
        ensures
            r is None,
    {
        None
    }
}

/// The COMDAT groups of a module, in the order of its COMDEF entries.
pub struct OmfComdatIterator<'data, 'file> {
    pub file: &'file OmfFile<'data>,
    pub index: usize,
}

impl<'data, 'file> OmfComdatIterator<'data, 'file> {
    /// The next group, if any.
    pub fn next(&mut self) -> (r: Option<OmfComdat<'data, 'file>>)
        ensures
            final(self).file == old(self).file,
            old(self).index < old(self).file.comdat_groups@.len() ==> (r matches Some(c) && c.file
                == old(self).file && (c.symbol, c.kind)
                == old(self).file.comdat_groups@[old(self).index as int]
                && final(self).index == old(self).index + 1),
            old(self).index >= old(self).file.comdat_groups@.len() ==> r is None && final(self).index
                == old(self).index,
    {
        if self.index < self.file.comdat_groups.len() {
            let (symbol, kind) = self.file.comdat_groups[self.index];
            self.index = self.index + 1;
            Some(OmfComdat { file: self.file, symbol, kind })
        } else {
            None
        }
    }
}

impl<'data> OmfFile<'data> {
    /// The COMDAT groups of the module, from the first.
    pub fn comdats<'file>(&'file self) -> (it: OmfComdatIterator<'data, 'file>)
        ensures
            it.file == self,
            it.index == 0,
    {
        OmfComdatIterator { file: self, index: 0 }
    }
}

} // verus!
