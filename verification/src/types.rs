//! The records of an OMF module as the reader hands them out.
use vstd::prelude::*;

verus! {

/// The kind of an OMF thread.
#[derive(Debug, Clone, Copy, PartialEq, Eq)]
pub enum ThreadKind {
    /// A target thread.
    Target,
    /// A frame thread.
    Frame,
}

/// One entry in the OMF thread table.
#[derive(Debug, Clone, Copy, PartialEq, Eq)]
pub struct ThreadEntry {
    /// OMF thread method.
    /// FRAME threads permit methods 0, 1, 2, 4, 5.
    /// TARGET threads permit methods 0, 1, 2, 4, 5, 6.
    pub method: u8,
    /// The datum associated with the thread, if any.
    pub datum: Option<u16>,
}

/// The OMF thread table.
#[derive(Debug, Clone, Copy)]
pub struct ThreadTable {
    /// The target threads (0-3).
    pub target: [Option<ThreadEntry>; 4],
    /// The frame threads (0-3).
    pub frame: [Option<ThreadEntry>; 4],
}

/// A thread table with no thread defined.
pub open spec fn empty_thread_table() -> [Option<ThreadEntry>; 4] {
    [None, None, None, None]
}

impl ThreadTable {
    /// Create a new empty thread table.
    pub fn new() -> (t: Self)
        ensures
            forall|i: int| 0 <= i < 4 ==> (#[trigger] t.target@[i]) is None,
            forall|i: int| 0 <= i < 4 ==> (#[trigger] t.frame@[i]) is None,
            t.target@.len() == 4,
            t.frame@.len() == 4,
    {
        ThreadTable { target: [None, None, None, None], frame: [None, None, None, None] }
    }
}

impl Default for ThreadTable {
    fn default() -> (t: Self)
        ensures
            forall|i: int| 0 <= i < 4 ==> (#[trigger] t.target@[i]) is None,
            forall|i: int| 0 <= i < 4 ==> (#[trigger] t.frame@[i]) is None,
    {
        ThreadTable::new()
    }
}

/// A decoded FIXUPP subrecord for dump purposes.
#[derive(Debug, Clone, Copy)]
pub enum ParsedFixuppSubrecord {
    /// A THREAD subrecord.
    Thread(ParsedThreadSubrecord),
    /// A fixup subrecord.
    Fixup(ParsedFixupSubrecord),
}

/// A decoded THREAD subrecord.
#[derive(Debug, Clone, Copy)]
pub struct ParsedThreadSubrecord {
    /// The kind of thread (FRAME or TARGET).
    pub kind: ThreadKind,
    /// The thread number (0-3).
    pub thread_number: u8,
    /// The method used by the thread (0-6).
    pub method: u8,
    /// The datum associated with the thread, if any.
    pub datum: Option<u16>,
}

/// A decoded fixup subrecord.
#[derive(Debug, Clone, Copy)]
pub struct ParsedFixupSubrecord {
    /// The offset within the logical data record.
    pub record_offset: u32,
    /// The raw location type from the file.
    pub loc_raw: u8,
    /// The normalized location type.
    pub loc: u8,
    /// True if the fixup is segment-relative.
    pub is_seg_rel: bool,
    /// The raw fix_dat byte.
    pub fixdat: u8,
    /// The thread number used for the FRAME, if any.
    pub frame_thread: Option<u8>,
    /// The effective method used for the FRAME.
    pub frame_method: u8,
    /// The datum used for the FRAME, if any.
    pub frame_datum: Option<u16>,
    /// The thread number used for the TARGET, if any.
    pub target_thread: Option<u8>,
    /// The effective method used for the TARGET.
    pub target_method: u8,
    /// The datum used for the TARGET.
    pub target_datum: u16,
    /// The displacement associated with the TARGET, if any.
    pub target_displacement: Option<u32>,
}

/// A decoded FIXUPP record containing multiple subrecords.
#[derive(Debug, Clone)]
pub struct ParsedFixuppRecord {
    /// The ordinal of the segment this record is attached to, if known.
    pub attached_seg_ordinal: Option<u16>,
    /// The list of subrecords in encounter order.
    pub subrecords: Vec<ParsedFixuppSubrecord>,
    /// Snapshot of the thread table at the start of this FIXUPP record.
    pub thread_table: ThreadTable,
}

/// The content of a FIXUPP record.
pub struct FixuppRecordView {
    pub attached_seg_ordinal: Option<u16>,
    pub subrecords: Seq<ParsedFixuppSubrecord>,
    pub thread_table: ThreadTable,
}

impl View for ParsedFixuppRecord {
    type V = FixuppRecordView;

    open spec fn view(&self) -> FixuppRecordView {
        FixuppRecordView {
            attached_seg_ordinal: self.attached_seg_ordinal,
            subrecords: self.subrecords@,
            thread_table: self.thread_table,
        }
    }
}

/// One relocation entry, attached to a segment, a communal or a COMDAT.
#[derive(Debug, Clone, Copy, PartialEq, Eq)]
pub struct ParsedReloc {
    /// Byte offset within the data buffer.
    pub offset: u32,
    /// Effective loc value after normalization.
    pub loc: u8,
    /// True if segment-relative; false if self-relative.
    pub is_seg_rel: bool,
    /// What the fixup targets.
    pub target: RelocTarget,
    /// Target displacement.
    pub displacement: u32,
}

/// The target of an OMF relocation.
#[derive(Debug, Clone, Copy, PartialEq, Eq)]
pub enum RelocTarget {
    /// A segment (1-based ordinal).
    Segment(u16),
    /// A group (1-based ordinal). Resolved to the group's first member
    /// segment when a relocation is described.
    Group(u16),
    /// An external symbol (1-based ordinal in the external name space).
    External(u16),
    /// An absolute frame number: the address is `(frame << 4) + displacement`.
    AbsoluteFrame(u16),
}

/// One segment, parsed from a SEGDEF record and populated by LEDATA/LIDATA.
#[derive(Debug, Clone)]
pub struct ParsedSegment {
    /// 0-based index into the name list. u16::MAX = no name.
    pub name_idx: u16,
    /// 0-based index into the name list. u16::MAX = no class.
    pub class_idx: u16,
    /// Declared length in bytes from SEGDEF.
    pub length: u32,
    /// True when the ACBP B-bit is set (segment is exactly 64 KB).
    pub big: bool,
    /// Alignment in bytes derived from the ACBP A-field.
    pub alignment: u32,
    /// Raw C-field value from the ACBP byte.
    pub combine: u8,
    /// Frame number; only meaningful for absolute segments.
    pub frame: u16,
    /// Accumulated data bytes from all LEDATA/LIDATA records.
    pub data: Vec<u8>,
    /// Relocations collected from FIXUPP records following LEDATA/LIDATA.
    pub relocs: Vec<ParsedReloc>,
    /// 1-based ordinal as this segment appeared in the file (first SEGDEF = 1).
    pub ordinal: u16,
    /// True if this segment is absolute (ACBP A field == 0).
    pub is_absolute: bool,
    /// Base address in the flat layout (computed after the scan).
    pub flat_base: u64,
}

/// The content of a segment.
pub struct SegmentView {
    pub name_idx: u16,
    pub class_idx: u16,
    pub length: u32,
    pub big: bool,
    pub alignment: u32,
    pub combine: u8,
    pub frame: u16,
    pub data: Seq<u8>,
    pub relocs: Seq<ParsedReloc>,
    pub ordinal: u16,
    pub is_absolute: bool,
    pub flat_base: u64,
}

impl View for ParsedSegment {
    type V = SegmentView;

    open spec fn view(&self) -> SegmentView {
        SegmentView {
            name_idx: self.name_idx,
            class_idx: self.class_idx,
            length: self.length,
            big: self.big,
            alignment: self.alignment,
            combine: self.combine,
            frame: self.frame,
            data: self.data@,
            relocs: self.relocs@,
            ordinal: self.ordinal,
            is_absolute: self.is_absolute,
            flat_base: self.flat_base,
        }
    }
}

/// The kind of a parsed OMF symbol.
#[derive(Debug, Clone, Copy, PartialEq, Eq)]
pub enum ParsedSymbolKind {
    /// PUBDEF: defined and exported from this module.
    Public,
    /// LPUBDEF: defined but not exported from this module.
    LocalPublic,
    /// EXTDEF: referenced but defined in another module.
    External,
    /// LEXTDEF: referenced, defined elsewhere, not visible outside.
    LocalExternal,
    /// COMDEF: communal (common) storage.
    Communal,
}

/// Symbol from PUBDEF (defined), EXTDEF (imported), or COMDEF (communal).
#[derive(Debug, Clone, Copy)]
pub struct ParsedSymbol<'data> {
    /// The name of the symbol.
    pub name: &'data [u8],
    /// The kind of the symbol.
    pub kind: ParsedSymbolKind,
    /// 1-based SEGDEF ordinal. 0 = absolute or undefined or communal.
    pub seg_ordinal: u16,
    /// Byte offset within the segment.
    pub offset: u32,
}

/// The content of a symbol.
pub struct SymbolView {
    pub name: Seq<u8>,
    pub kind: ParsedSymbolKind,
    pub seg_ordinal: u16,
    pub offset: u32,
}

impl<'data> View for ParsedSymbol<'data> {
    type V = SymbolView;

    open spec fn view(&self) -> SymbolView {
        SymbolView {
            name: self.name@,
            kind: self.kind,
            seg_ordinal: self.seg_ordinal,
            offset: self.offset,
        }
    }
}

/// TYPDEF descriptor decoded from the leaf stream.
#[derive(Debug, Clone, Copy)]
pub enum ParsedTypDefDescriptor<'data> {
    /// NEAR variable.
    Near {
        /// The raw variable type byte (e.g. 0x77 for array).
        variable_type: u8,
        /// The bit length of the variable.
        length_bits: u32,
    },
    /// FAR variable.
    Far {
        /// Number of elements in the FAR array.
        element_count: u32,
        /// Index into the TYPDEF list for the element type (1-based).
        element_type_index: u16,
    },
    /// Unknown/opaque leafs: the raw remaining bytes of the descriptor.
    Opaque(&'data [u8]),
}

/// The content of a TYPDEF descriptor.
pub enum TypDefDescriptorView {
    Near { variable_type: u8, length_bits: u32 },
    Far { element_count: u32, element_type_index: u16 },
    Opaque(Seq<u8>),
}

impl<'data> View for ParsedTypDefDescriptor<'data> {
    type V = TypDefDescriptorView;

    open spec fn view(&self) -> TypDefDescriptorView {
        match *self {
            ParsedTypDefDescriptor::Near { variable_type, length_bits } => TypDefDescriptorView::Near {
                variable_type,
                length_bits,
            },
            ParsedTypDefDescriptor::Far { element_count, element_type_index } => {
                TypDefDescriptorView::Far { element_count, element_type_index }
            },
            ParsedTypDefDescriptor::Opaque(b) => TypDefDescriptorView::Opaque(b@),
        }
    }
}

/// A parsed TYPDEF record (obsolete compatibility record).
#[derive(Debug, Clone, Copy)]
pub struct ParsedTypDefRecord<'data> {
    /// The optional name.
    pub name: &'data [u8],
    /// EN field from the record (0 when absent).
    pub en: u8,
    /// The decoded descriptor.
    pub descriptor: ParsedTypDefDescriptor<'data>,
}

/// The content of a TYPDEF record.
pub struct TypDefView {
    pub name: Seq<u8>,
    pub en: u8,
    pub descriptor: TypDefDescriptorView,
}

impl<'data> View for ParsedTypDefRecord<'data> {
    type V = TypDefView;

    open spec fn view(&self) -> TypDefView {
        TypDefView { name: self.name@, en: self.en, descriptor: self.descriptor@ }
    }
}

/// Communal kind describing NEAR/FAR/Borland segment encodings.
#[derive(Debug, Clone, Copy)]
pub enum ParsedCommunalKind<'data> {
    /// NEAR data: flat allocation of `size` bytes.
    Near {
        /// Total allocation size in bytes.
        size: u32,
    },
    /// FAR data: `count` elements each of `element_size` bytes.
    Far {
        /// Number of elements in the FAR array.
        count: u32,
        /// Size of each element in bytes.
        element_size: u32,
    },
    /// Borland segment index (Data Type 0x01–0x5F).
    BorlandSegment {
        /// Segment index byte value.
        index: u8,
    },
    /// Unknown/opaque remainder of the COMDEF entry.
    Opaque(&'data [u8]),
}

/// The content of a communal kind.
pub enum CommunalKindView {
    Near { size: u32 },
    Far { count: u32, element_size: u32 },
    BorlandSegment { index: u8 },
    Opaque(Seq<u8>),
}

impl<'data> View for ParsedCommunalKind<'data> {
    type V = CommunalKindView;

    open spec fn view(&self) -> CommunalKindView {
        match *self {
            ParsedCommunalKind::Near { size } => CommunalKindView::Near { size },
            ParsedCommunalKind::Far { count, element_size } => CommunalKindView::Far {
                count,
                element_size,
            },
            ParsedCommunalKind::BorlandSegment { index } => CommunalKindView::BorlandSegment {
                index,
            },
            ParsedCommunalKind::Opaque(b) => CommunalKindView::Opaque(b@),
        }
    }
}

/// A single parsed COMDEF (communal variable) entry.
#[derive(Debug, Clone)]
pub struct ParsedComdefEntry<'data> {
    /// Communal name.
    pub name: &'data [u8],
    /// Raw type index.
    pub type_index: u16,
    /// Placement and size encoding.
    pub communal: ParsedCommunalKind<'data>,
    /// Data bytes written by LEDATA/LIDATA records that target this entry.
    pub data: Vec<u8>,
    /// Relocations from FIXUPP records that follow such data records.
    pub relocs: Vec<ParsedReloc>,
}

/// The content of a COMDEF entry.
pub struct ComdefEntryView {
    pub name: Seq<u8>,
    pub type_index: u16,
    pub communal: CommunalKindView,
    pub data: Seq<u8>,
    pub relocs: Seq<ParsedReloc>,
}

impl<'data> View for ParsedComdefEntry<'data> {
    type V = ComdefEntryView;

    open spec fn view(&self) -> ComdefEntryView {
        ComdefEntryView {
            name: self.name@,
            type_index: self.type_index,
            communal: self.communal@,
            data: self.data@,
            relocs: self.relocs@,
        }
    }
}

/// One group, parsed from a GRPDEF record.
#[derive(Debug, Clone)]
pub struct ParsedGroup {
    /// 0-based index into the name list.
    pub name_idx: u16,
    /// 1-based SEGDEF ordinals of all member segments, in encounter order.
    pub members: Vec<u16>,
    /// Ordinals referenced by the group that were not materialized when the
    /// group was read.
    pub unresolved: Vec<u16>,
    /// For each entry of `members`: `Some(ordinal)` when that segment exists
    /// once the whole module is read, `None` otherwise.
    pub resolved_members: Vec<Option<u16>>,
    /// Full list of decoded components in the GRPDEF record.
    pub components: Vec<ParsedGroupComponent>,
}

/// The content of a group.
pub struct GroupView {
    pub name_idx: u16,
    pub members: Seq<u16>,
    pub unresolved: Seq<u16>,
    pub resolved_members: Seq<Option<u16>>,
    pub components: Seq<ParsedGroupComponent>,
}

impl View for ParsedGroup {
    type V = GroupView;

    open spec fn view(&self) -> GroupView {
        GroupView {
            name_idx: self.name_idx,
            members: self.members@,
            unresolved: self.unresolved@,
            resolved_members: self.resolved_members@,
            components: self.components@,
        }
    }
}

/// One GRPDEF component decoded from the file.
#[derive(Debug, Clone, Copy, PartialEq, Eq)]
pub enum ParsedGroupComponent {
    /// A plain segment reference component (0xFF).
    Segment {
        /// 1-based SEGDEF ordinal.
        seg_index: u16,
    },
    /// External (EXTDEF) component (0xFE).
    External {
        /// 1-based EXTDEF ordinal.
        ext_index: u16,
    },
    /// Name triple component (0xFD): seg-name, class-name, overlay-name.
    NameTriple {
        /// 1-based name index for the segment name.
        seg_name_index: u16,
        /// 1-based name index for the class name.
        class_name_index: u16,
        /// 1-based name index for the overlay name.
        overlay_name_index: u16,
    },
    /// LTL component (0xFB) carrying LTL data and group length fields.
    Ltl {
        /// Raw LTL data byte.
        ltl_data: u8,
        /// Maximum group length value.
        max_group_length: u16,
        /// Actual group length value.
        group_length: u16,
    },
    /// Absolute frame component (0xFA) with frame number and offset.
    AbsoluteFrame {
        /// Frame number.
        frame_number: u16,
        /// Offset within the frame.
        offset: u16,
    },
}

/// The entry point of a parsed OMF module. The displacement is 32-bit to
/// support MODEND32 records.
#[derive(Debug, Clone, Copy, PartialEq, Eq)]
pub enum EntryPoint {
    /// No entry point (module is not main).
    NoEntry,
    /// Entry point is a segment ordinal + offset.
    Segment(u16, u32),
    /// Entry point is an external symbol ordinal + offset.
    External(u16, u32),
}


// ── COMDEF record types ───────────────────────────────────────────────────

/// Error type for the standalone COMDEF parser.
#[derive(Debug, Clone, Copy, PartialEq, Eq)]
pub enum ComdefError {
    /// Unexpected end of input at the given offset.
    UnexpectedEof(usize),
    /// Record type byte is not 0xB0.
    WrongRecordType {
        /// The actual record type byte found.
        found: u8,
    },
    /// Communal length prefix byte is reserved/invalid.
    InvalidLengthPrefix(u8),
    /// Unknown data type byte.
    UnknownDataType(u8),
    /// Checksum mismatch.
    ChecksumMismatch {
        /// The computed checksum value.
        computed: u8,
        /// The stored checksum value from the record.
        stored: u8,
    },
}

/// A single communal variable entry from a COMDEF record.
#[derive(Debug, Clone, PartialEq, Eq)]
pub struct ComdefEntry {
    /// Variable name (empty is valid).
    pub name: Vec<u8>,
    /// Raw type index (not inspected by linkers).
    pub type_index: u16,
    /// Placement and size encoding.
    pub communal: ComdefKind,
}

/// The content of a COMDEF entry.
pub struct ComdefEntryContent {
    pub name: Seq<u8>,
    pub type_index: u16,
    pub communal: ComdefKind,
}

impl View for ComdefEntry {
    type V = ComdefEntryContent;

    open spec fn view(&self) -> ComdefEntryContent {
        ComdefEntryContent { name: self.name@, type_index: self.type_index, communal: self.communal }
    }
}

/// Size/placement description from the COMDEF Data Type + Length fields.
#[derive(Debug, Clone, Copy, PartialEq, Eq)]
pub enum ComdefKind {
    /// NEAR data: flat allocation of `size` bytes.
    Near {
        /// Total allocation size in bytes.
        size: u32,
    },
    /// FAR data: `count` elements each of `element_size` bytes.
    Far {
        /// Number of elements in the FAR array.
        count: u32,
        /// Size of each element in bytes.
        element_size: u32,
    },
    /// Borland segment index (Data Type 0x01–0x5F).
    BorlandSegment {
        /// Segment index byte value.
        index: u8,
    },
}

/// A fully-parsed COMDEF record.
#[derive(Debug, Clone)]
pub struct ComdefRecord {
    /// Entries parsed from the record.
    pub entries: Vec<ComdefEntry>,
}

// ── PUBDEF record types ───────────────────────────────────────────────────

/// Which PUBDEF variant a record is.
#[derive(Debug, Clone, Copy, PartialEq, Eq)]
pub enum PubdefKind {
    /// 0x90: 16-bit Public Offset.
    Pubdef16,
    /// 0x91: 32-bit Public Offset.
    Pubdef32,
}

/// The base addressing context, shared by all entries in the record.
#[derive(Debug, Clone, Copy, PartialEq, Eq)]
pub enum PubdefBase {
    /// Base Segment Index nonzero: segment-relative.
    Segment {
        /// Index into the GRPDEF table; 0 = no group.
        group_index: u16,
        /// Index into the SEGDEF table (nonzero).
        segment_index: u16,
    },
    /// Base Segment Index = 0: Base Frame field is present.
    Frame {
        /// Index into the GRPDEF table; 0 = no group.
        group_index: u16,
        /// Frame paragraph number.
        frame: u16,
    },
}

/// A single public name entry within a PUBDEF record.
#[derive(Debug, Clone, PartialEq, Eq)]
pub struct PubdefEntry {
    /// Public symbol name (1–255 bytes, non-empty).
    pub name: String,
    /// Offset of the symbol within its base context.
    pub offset: u32,
    /// Type index (0 = no type data).
    pub type_index: u16,
}

/// The content of a PUBDEF entry.
pub struct PubdefEntryContent {
    pub name: Seq<char>,
    pub offset: u32,
    pub type_index: u16,
}

impl View for PubdefEntry {
    type V = PubdefEntryContent;

    open spec fn view(&self) -> PubdefEntryContent {
        PubdefEntryContent { name: self.name@, offset: self.offset, type_index: self.type_index }
    }
}

/// A fully-parsed PUBDEF or PUBDEF32 record.
#[derive(Debug, Clone, PartialEq, Eq)]
pub struct PubdefRecord {
    /// Which variant (16-bit or 32-bit offset).
    pub kind: PubdefKind,
    /// Base addressing context for all entries.
    pub base: PubdefBase,
    /// The public name entries in this record.
    pub entries: Vec<PubdefEntry>,
}

/// The content of a PUBDEF record.
pub struct PubdefRecordContent {
    pub kind: PubdefKind,
    pub base: PubdefBase,
    pub entries: Seq<PubdefEntryContent>,
}

impl View for PubdefRecord {
    type V = PubdefRecordContent;

    open spec fn view(&self) -> PubdefRecordContent {
        PubdefRecordContent {
            kind: self.kind,
            base: self.base,
            entries: self.entries@.map_values(|e: PubdefEntry| e@),
        }
    }
}

/// Error type for the standalone PUBDEF parser.
#[derive(Debug, Clone, Copy, PartialEq, Eq)]
pub enum PubdefError {
    /// Unexpected end of input at the given offset.
    UnexpectedEof(usize),
    /// Record type byte is not 0x90 or 0x91.
    WrongRecordType {
        /// The actual record type byte found.
        found: u8,
    },
    /// Public name has zero length.
    EmptyName(usize),
    /// Public name length exceeds maximum of 255.
    NameTooLong(usize),
    /// Invalid UTF-8 in public name.
    InvalidName,
    /// Checksum mismatch.
    ChecksumMismatch {
        /// The computed checksum value.
        computed: u8,
        /// The stored checksum value from the record.
        stored: u8,
    },
}

// ── LPUBDEF record types ──────────────────────────────────────────────────

/// Errors that can occur while parsing a B6H/B7H LPUBDEF record body.
#[derive(Debug, Clone, Copy, PartialEq, Eq)]
pub enum LpubdefParseError {
    /// `record_type` was neither 0xB6 nor 0xB7.
    InvalidRecordType(u8),
    /// Ran out of bytes while trying to read `expected` more, with only
    /// `remaining` left in the buffer.
    UnexpectedEof {
        /// Number of additional bytes needed.
        expected: usize,
        /// Number of bytes still available.
        remaining: usize,
    },
    /// Bytes remained that cannot hold another complete name entry.
    TrailingBytes {
        /// Number of leftover bytes.
        leftover: usize,
    },
    /// String Length was 0; LPUBDEF names must be non-empty.
    EmptyName,
}

/// Whether a record carries 16-bit or 32-bit Local Offset values.
#[derive(Debug, Clone, Copy, PartialEq, Eq)]
pub enum OffsetWidth {
    /// Record type 0xB6.
    Bit16,
    /// Record type 0xB7.
    Bit32,
}

/// A decoded OMF variable-length index field.
#[derive(Debug, Clone, Copy, PartialEq, Eq)]
pub struct OmfIndex(pub u16);

impl OmfIndex {
    /// Returns true when the index is nonzero (i.e., present/valid).
    pub fn is_present(self) -> (b: bool)
        ensures
            b == (self.0 != 0),
    {
        self.0 != 0
    }
}

impl Default for OmfIndex {
    fn default() -> (i: Self)
        ensures
            i.0 == 0,
    {
        OmfIndex(0)
    }
}

/// One symbol defined inside an LPUBDEF record.
#[derive(Debug, Clone, PartialEq, Eq)]
pub struct LocalPublicName {
    /// Raw name bytes (OMF doesn't guarantee an encoding).
    pub name: Vec<u8>,
    /// Always widened to u32 regardless of source width.
    pub offset: u32,
    /// Type index (variable-width OMF index).
    pub type_index: OmfIndex,
}

/// The content of an LPUBDEF name entry.
pub struct LocalPublicNameContent {
    pub name: Seq<u8>,
    pub offset: u32,
    pub type_index: OmfIndex,
}

impl View for LocalPublicName {
    type V = LocalPublicNameContent;

    open spec fn view(&self) -> LocalPublicNameContent {
        LocalPublicNameContent { name: self.name@, offset: self.offset, type_index: self.type_index }
    }
}

/// A fully decoded B6H/B7H LPUBDEF record.
#[derive(Debug, Clone, PartialEq, Eq)]
pub struct LpubdefRecord {
    /// Whether offsets are 16-bit or 32-bit.
    pub offset_width: OffsetWidth,
    /// Base Group Index (0 = absent).
    pub base_group: OmfIndex,
    /// Base Segment Index (0: absolute, Base Frame follows).
    pub base_segment: OmfIndex,
    /// `Some` only when `base_segment` decoded to 0.
    pub base_frame: Option<u16>,
    /// The local public name entries.
    pub names: Vec<LocalPublicName>,
    /// The raw checksum byte from the record.
    pub checksum: u8,
}

/// The content of an LPUBDEF record.
pub struct LpubdefRecordContent {
    pub offset_width: OffsetWidth,
    pub base_group: OmfIndex,
    pub base_segment: OmfIndex,
    pub base_frame: Option<u16>,
    pub names: Seq<LocalPublicNameContent>,
    pub checksum: u8,
}

impl View for LpubdefRecord {
    type V = LpubdefRecordContent;

    open spec fn view(&self) -> LpubdefRecordContent {
        LpubdefRecordContent {
            offset_width: self.offset_width,
            base_group: self.base_group,
            base_segment: self.base_segment,
            base_frame: self.base_frame,
            names: self.names@.map_values(|n: LocalPublicName| n@),
            checksum: self.checksum,
        }
    }
}

// ── COMDAT record types ───────────────────────────────────────────────────

/// Which COMDAT variant (0xC2 vs 0xC3).
#[derive(Debug, Clone, Copy, PartialEq, Eq)]
pub enum CombatKind {
    /// 0xC2: 16-bit Enumerated Data Offset.
    Comdat16,
    /// 0xC3: 32-bit Enumerated Data Offset.
    Comdat32,
}

/// Flags byte for a COMDAT record.
#[derive(Debug, Clone, Copy, PartialEq, Eq)]
pub struct CombatFlags(pub u8);

impl core::ops::BitOr for CombatFlags {
    type Output = Self;

    fn bitor(self, rhs: Self) -> (r: Self)
        ensures
            r.0 == self.0 | rhs.0,
    {
        CombatFlags(self.0 | rhs.0)
    }
}

impl core::ops::BitAnd for CombatFlags {
    type Output = Self;

    fn bitand(self, rhs: Self) -> (r: Self)
        ensures
            r.0 == self.0 & rhs.0,
    {
        CombatFlags(self.0 & rhs.0)
    }
}

impl vstd::std_specs::ops::BitOrSpecImpl for CombatFlags {
    open spec fn obeys_bitor_spec() -> bool {
        true
    }

    open spec fn bitor_req(self, rhs: Self) -> bool {
        true
    }

    open spec fn bitor_spec(self, rhs: Self) -> Self {
        CombatFlags(self.0 | rhs.0)
    }
}

impl vstd::std_specs::ops::BitAndSpecImpl for CombatFlags {
    open spec fn obeys_bitand_spec() -> bool {
        true
    }

    open spec fn bitand_req(self, rhs: Self) -> bool {
        true
    }

    open spec fn bitand_spec(self, rhs: Self) -> Self {
        CombatFlags(self.0 & rhs.0)
    }
}

impl CombatFlags {
    /// Continuation: data continues a previous COMDAT for this symbol.
    pub const CONTINUATION: u8 = 0x01;
    /// Iterated Data: data field uses LIDATA nested-block format.
    pub const ITERATED_DATA: u8 = 0x02;
    /// Local: effectively an LCOMDAT (local communal).
    pub const LOCAL: u8 = 0x04;
    /// Data in Code: forces COMDAT into root text when overlaid.
    pub const DATA_IN_CODE: u8 = 0x08;

    /// Create from a raw byte, truncating reserved bits.
    pub fn from_bits_truncate(bits: u8) -> (f: Self)
        ensures
            f.0 == bits & 0x0F,
    {
        CombatFlags(bits & 0x0F)
    }

    /// Returns true if the Continuation flag is set.
    pub fn is_continuation(self) -> (b: bool)
        ensures
            b == (self.0 & 0x01 != 0),
    {
        self.0 & Self::CONTINUATION != 0
    }

    /// Returns true if the Iterated Data flag is set.
    pub fn is_iterated(self) -> (b: bool)
        ensures
            b == (self.0 & 0x02 != 0),
    {
        self.0 & Self::ITERATED_DATA != 0
    }

    /// Returns true if the Local flag is set.
    pub fn is_local(self) -> (b: bool)
        ensures
            b == (self.0 & 0x04 != 0),
    {
        self.0 & Self::LOCAL != 0
    }

    /// Returns true if the Data in Code flag is set.
    pub fn is_data_in_code(self) -> (b: bool)
        ensures
            b == (self.0 & 0x08 != 0),
    {
        self.0 & Self::DATA_IN_CODE != 0
    }
}

/// Selection criteria for COMDAT (high nibble of Attributes byte).
#[derive(Debug, Clone, Copy, PartialEq, Eq)]
pub enum SelectionCriteria {
    /// Only one instance allowed.
    NoMatch,
    /// Any instance may be selected.
    PickAny,
    /// All instances must have the same length.
    SameSize,
    /// All instances must have identical checksums.
    ExactMatch,
}

/// The selection criteria a nibble stands for, if any.
pub open spec fn spec_selection_from_nibble(v: u8) -> Option<SelectionCriteria> {
    let n = v & 0x0F;
    if n == 0 {
        Some(SelectionCriteria::NoMatch)
    } else if n == 1 {
        Some(SelectionCriteria::PickAny)
    } else if n == 2 {
        Some(SelectionCriteria::SameSize)
    } else if n == 3 {
        Some(SelectionCriteria::ExactMatch)
    } else {
        None
    }
}

impl SelectionCriteria {
    /// Parse from a nibble value (0x0–0xF). Returns None for reserved values.
    pub fn from_nibble(v: u8) -> (r: Option<Self>)
        ensures
            r == spec_selection_from_nibble(v),
    {
        let n = v & 0x0F;
        if n == 0 {
            Some(SelectionCriteria::NoMatch)
        } else if n == 1 {
            Some(SelectionCriteria::PickAny)
        } else if n == 2 {
            Some(SelectionCriteria::SameSize)
        } else if n == 3 {
            Some(SelectionCriteria::ExactMatch)
        } else {
            None
        }
    }
}

/// Allocation type for COMDAT (low nibble of Attributes byte).
#[derive(Debug, Clone, Copy, PartialEq, Eq)]
pub enum AllocationType {
    /// Explicit: allocate in the segment specified by Public Base.
    Explicit,
    /// Far Code: allocate as CODE16.
    FarCode,
    /// Far Data: allocate as DATA16.
    FarData,
    /// Code32: allocate as CODE32.
    Code32,
    /// Data32: allocate as DATA32.
    Data32,
}

/// The allocation type a nibble stands for, if any.
pub open spec fn spec_allocation_from_nibble(v: u8) -> Option<AllocationType> {
    let n = v & 0x0F;
    if n == 0 {
        Some(AllocationType::Explicit)
    } else if n == 1 {
        Some(AllocationType::FarCode)
    } else if n == 2 {
        Some(AllocationType::FarData)
    } else if n == 3 {
        Some(AllocationType::Code32)
    } else if n == 4 {
        Some(AllocationType::Data32)
    } else {
        None
    }
}

impl AllocationType {
    /// Parse from a nibble value (0x0–0xF). Returns None for reserved values.
    pub fn from_nibble(v: u8) -> (r: Option<Self>)
        ensures
            r == spec_allocation_from_nibble(v),
    {
        let n = v & 0x0F;
        if n == 0 {
            Some(AllocationType::Explicit)
        } else if n == 1 {
            Some(AllocationType::FarCode)
        } else if n == 2 {
            Some(AllocationType::FarData)
        } else if n == 3 {
            Some(AllocationType::Code32)
        } else if n == 4 {
            Some(AllocationType::Data32)
        } else {
            None
        }
    }

    /// Whether the Public Base field is present for this allocation type.
    pub fn has_public_base(self) -> (b: bool)
        ensures
            b == (self is Explicit),
    {
        matches!(self, AllocationType::Explicit)
    }
}

/// COMDAT alignment code (from the Align byte).
#[derive(Debug, Clone, Copy, PartialEq, Eq)]
pub enum CombatAlign {
    /// Use value from the associated SEGDEF.
    UseSegdef,
    /// Byte aligned.
    Byte,
    /// Word (2-byte) aligned.
    Word,
    /// Paragraph (16-byte) aligned.
    Paragraph,
    /// Page aligned.
    Page,
    /// Double word (4-byte) aligned.
    DoubleWord,
}

/// The alignment code of an Align byte (its low three bits; 6 and 7 fall
/// back to the SEGDEF's alignment).
pub open spec fn spec_combat_align(v: u8) -> CombatAlign {
    let n = v & 0x07;
    if n == 1 {
        CombatAlign::Byte
    } else if n == 2 {
        CombatAlign::Word
    } else if n == 3 {
        CombatAlign::Paragraph
    } else if n == 4 {
        CombatAlign::Page
    } else if n == 5 {
        CombatAlign::DoubleWord
    } else {
        CombatAlign::UseSegdef
    }
}

impl CombatAlign {
    /// Parse from a u8 value, masking to the low 3 bits.
    pub fn from_u8(v: u8) -> (a: Self)
        ensures
            a == spec_combat_align(v),
    {
        let n = v & 0x07;
        if n == 0 {
            CombatAlign::UseSegdef
        } else if n == 1 {
            CombatAlign::Byte
        } else if n == 2 {
            CombatAlign::Word
        } else if n == 3 {
            CombatAlign::Paragraph
        } else if n == 4 {
            CombatAlign::Page
        } else if n == 5 {
            CombatAlign::DoubleWord
        } else {
            CombatAlign::UseSegdef
        }
    }
}

/// Decoded Attributes byte for a COMDAT record.
#[derive(Debug, Clone, Copy, PartialEq, Eq)]
pub struct CombatAttributes {
    /// Selection criteria (high nibble).
    pub selection: SelectionCriteria,
    /// Allocation type (low nibble).
    pub allocation: AllocationType,
}

/// Segment base for the Public Base field of a COMDAT record.
#[derive(Debug, Clone, Copy, PartialEq, Eq)]
pub enum SegmentBase {
    /// Nonzero index into the SEGDEF table (1-based).
    Segment(u16),
    /// Absolute segment: frame number when segment index = 0.
    Absolute {
        /// Frame number (paragraph-aligned base address).
        frame: u16,
    },
}

/// Public Base field for a COMDAT record (present only when Allocation = Explicit).
#[derive(Debug, Clone, Copy, PartialEq, Eq)]
pub struct PublicBase {
    /// Index into GRPDEF table; 0 = no group.
    pub group_index: u16,
    /// The segment base (segment ordinal or absolute frame).
    pub segment: SegmentBase,
}

/// Public Name encoding for a COMDAT record.
#[derive(Debug, Clone, PartialEq, Eq)]
pub enum PublicName {
    /// Microsoft LINK: OMF index into the name list.
    Index(u16),
    /// IBM LINK386: length-prefixed name string.
    Name(Vec<u8>),
}

/// The content of a COMDAT public name.
pub enum PublicNameContent {
    Index(u16),
    Name(Seq<u8>),
}

impl View for PublicName {
    type V = PublicNameContent;

    open spec fn view(&self) -> PublicNameContent {
        match self {
            PublicName::Index(i) => PublicNameContent::Index(*i),
            PublicName::Name(n) => PublicNameContent::Name(n@),
        }
    }
}

/// Which Public Name encoding to use when parsing COMDAT records.
#[derive(Debug, Clone, Copy, PartialEq, Eq)]
pub enum PublicNameEncoding {
    /// Microsoft LINK: OMF index (1 or 2 bytes).
    MicrosoftIndex,
    /// IBM LINK386: length-prefixed string.
    IbmString,
}

/// A fully-parsed COMDAT or COMDAT32 record.
#[derive(Debug, Clone)]
pub struct CombatRecord {
    /// Which variant (16-bit or 32-bit offset).
    pub kind: CombatKind,
    /// Flags byte.
    pub flags: CombatFlags,
    /// Attributes (selection + allocation).
    pub attributes: CombatAttributes,
    /// Alignment.
    pub align: CombatAlign,
    /// Byte offset from start of COMDAT symbol to first data byte.
    pub data_offset: u32,
    /// Type index (0 = none).
    pub type_index: u16,
    /// Public Base, present only when Allocation is Explicit.
    pub public_base: Option<PublicBase>,
    /// Public Name identifying the communal symbol.
    pub public_name: PublicName,
    /// Raw data bytes (0–1024), enumerated or iterated per flags.
    pub data: Vec<u8>,
    /// Relocations attached to this COMDAT's data (from subsequent FIXUPP).
    pub relocs: Vec<ParsedReloc>,
}

/// The content of a COMDAT record.
pub struct CombatRecordView {
    pub kind: CombatKind,
    pub flags: CombatFlags,
    pub attributes: CombatAttributes,
    pub align: CombatAlign,
    pub data_offset: u32,
    pub type_index: u16,
    pub public_base: Option<PublicBase>,
    pub public_name: PublicNameContent,
    pub data: Seq<u8>,
    pub relocs: Seq<ParsedReloc>,
}

impl View for CombatRecord {
    type V = CombatRecordView;

    open spec fn view(&self) -> CombatRecordView {
        CombatRecordView {
            kind: self.kind,
            flags: self.flags,
            attributes: self.attributes,
            align: self.align,
            data_offset: self.data_offset,
            type_index: self.type_index,
            public_base: self.public_base,
            public_name: self.public_name@,
            data: self.data@,
            relocs: self.relocs@,
        }
    }
}

/// Error type for the standalone COMDAT parser.
#[derive(Debug, Clone, Copy, PartialEq, Eq)]
pub enum CombatError {
    /// Unexpected end of input at the given offset.
    UnexpectedEof(usize),
    /// Record type byte is not 0xC2 or 0xC3.
    WrongRecordType {
        /// The actual record type byte found.
        found: u8,
    },
    /// Reserved Selection Criteria value.
    ReservedSelectionCriteria(u8),
    /// Reserved Allocation Type value.
    ReservedAllocationType(u8),
    /// Data payload length exceeds maximum of 1024 bytes.
    DataTooLong(usize),
    /// Checksum mismatch.
    ChecksumMismatch {
        /// The computed checksum value.
        computed: u8,
        /// The stored checksum value from the record.
        stored: u8,
    },
}

} // verus!
