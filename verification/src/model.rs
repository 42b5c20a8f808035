//! The vocabulary in which an object file is described to its readers:
//! indices, kinds, scopes and relocations.
use vstd::prelude::*;

verus! {

/// The index of a section (0-based; section `i` is the segment of ordinal `i + 1`).
#[derive(Debug, Clone, Copy, PartialEq, Eq)]
pub struct SectionIndex(pub usize);

/// The index of a symbol in the symbol table (0-based).
#[derive(Debug, Clone, Copy, PartialEq, Eq)]
pub struct SymbolIndex(pub usize);

/// The machine architecture of an object file.
#[derive(Debug, Clone, Copy, PartialEq, Eq)]
pub enum Architecture {
    /// 16-bit x86.
    X86_16,
}

/// The format of an object file.
#[derive(Debug, Clone, Copy, PartialEq, Eq)]
pub enum BinaryFormat {
    /// Intel/Microsoft Object Module Format.
    Omf,
}

/// The byte order of an object file.
#[derive(Debug, Clone, Copy, PartialEq, Eq)]
pub enum Endianness {
    /// Little-endian.
    Little,
}

/// The kind of an object file.
#[derive(Debug, Clone, Copy, PartialEq, Eq)]
pub enum ObjectKind {
    /// A relocatable object module.
    Relocatable,
}

/// The selection kind of a COMDAT group.
#[derive(Debug, Clone, Copy, PartialEq, Eq)]
pub enum ComdatKind {
    /// Any instance may be selected.
    Any,
}

/// The kind of a section.
#[derive(Debug, Clone, Copy, PartialEq, Eq)]
pub enum SectionKind {
    /// Executable code.
    Text,
    /// Initialized data.
    Data,
    /// Uninitialized data.
    UninitializedData,
    /// Unknown contents.
    Unknown,
}

/// The kind of a symbol.
#[derive(Debug, Clone, Copy, PartialEq, Eq)]
pub enum SymbolKind {
    /// A code or data label.
    Label,
    /// A data object.
    Data,
    /// Unknown kind.
    Unknown,
}

/// Where a symbol is defined.
#[derive(Debug, Clone, Copy, PartialEq, Eq)]
pub enum SymbolSection {
    /// Not defined in this module.
    Undefined,
    /// An absolute value.
    Absolute,
    /// Common (communal) storage.
    Common,
    /// Defined in the given section.
    Section(SectionIndex),
}

/// The visibility of a symbol.
#[derive(Debug, Clone, Copy, PartialEq, Eq)]
pub enum SymbolScope {
    /// Visible only within the module.
    Compilation,
    /// Visible to the linker across modules.
    Linkage,
}

/// Memory permissions of a segment.
#[derive(Debug, Clone, Copy, PartialEq, Eq)]
pub struct Permissions {
    /// Readable.
    pub read: bool,
    /// Writable.
    pub write: bool,
    /// Executable.
    pub execute: bool,
}

impl Permissions {
    /// Permissions made of the three flags.
    pub fn new(read: bool, write: bool, execute: bool) -> (p: Permissions)
        ensures
            p == (Permissions { read, write, execute }),
    {
        Permissions { read, write, execute }
    }
}

/// How a relocation is computed.
#[derive(Debug, Clone, Copy, PartialEq, Eq)]
pub enum RelocationKind {
    /// The target address itself (segment-relative fixups).
    Absolute,
    /// The target address relative to the fixup location (self-relative fixups).
    Relative,
}

/// How a relocation value is encoded in place.
#[derive(Debug, Clone, Copy, PartialEq, Eq)]
pub enum RelocationEncoding {
    /// The plain encoding.
    Generic,
}

/// The target of a relocation.
#[derive(Debug, Clone, Copy, PartialEq, Eq)]
pub enum RelocationTarget {
    /// A section.
    Section(SectionIndex),
    /// A symbol.
    Symbol(SymbolIndex),
    /// An absolute address (given entirely by the addend).
    Absolute,
}

/// A relocation.
#[derive(Debug, Clone, Copy, PartialEq, Eq)]
pub struct Relocation {
    /// How the value is computed.
    pub kind: RelocationKind,
    /// How the value is encoded.
    pub encoding: RelocationEncoding,
    /// The width of the relocated field in bits.
    pub size: u8,
    /// The target.
    pub target: RelocationTarget,
    /// The addend.
    pub addend: i64,
    /// Whether the field also holds an implicit addend.
    pub implicit_addend: bool,
}

impl Relocation {
    /// The target of the relocation.
    pub fn target(&self) -> (t: RelocationTarget)
        ensures
            t == self.target,
    {
        self.target
    }

    /// The addend of the relocation.
    pub fn addend(&self) -> (a: i64)
        ensures
            a == self.addend,
    {
        self.addend
    }

    /// The width of the relocated field in bits.
    pub fn size(&self) -> (s: u8)
        ensures
            s == self.size,
    {
        self.size
    }

    /// How the relocation value is computed.
    pub fn kind(&self) -> (k: RelocationKind)
        ensures
            k == self.kind,
    {
        self.kind
    }
}

} // verus!
