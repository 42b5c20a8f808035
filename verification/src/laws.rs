//! Properties of the reader as a whole.
use vstd::prelude::*;

use crate::checksum::{checksum_for, checksum_ok, lemma_sum8_push, sum8};
use crate::data::{spec_ledata, store_data};
use crate::error::Error;
use crate::fixupp::spec_fixupp;
use crate::invariants::{lemma_scan_wf, lemma_wf_frame, module_wf};
use crate::lidata::repeat;
use crate::omf::{le16, spec_read_index, RT_COMDAT, RT_COMDAT32, RT_COMENT, RT_SEGDEF, RT_THEADR};
use crate::reader::{
    after_plain, align_up, eff_len, flat_base_of, initial_scan, laid_out, layout_bounded, next_base,
    spec_finalize, spec_parse, spec_record, spec_scan_from, ScanState,
};
use crate::records::{spec_coment, spec_segdef};
use crate::info::entry_address;
use crate::symbol::{flat_base_at, is_public_kind, symbol_address};
use crate::section::class_kind;
use crate::model::SectionKind;
use crate::fixupp::{reloc_of, spec_fixup};
use crate::comdat_record::spec_comdat;
use crate::comdef_record::spec_communal_length;
use crate::omf::spec_read_varlen;
use crate::types::{
    ComdefError, EntryPoint, PublicNameEncoding, SelectionCriteria, SymbolView, spec_selection_from_nibble,
};
use crate::state::{empty_state, write_at, DataTarget, OmfState};
use crate::types::{SegmentView, ThreadTable};

verus! {

// ── Checksums ────────────────────────────────────────────────────────────

/// A record closed with the checksum byte of its other bytes sums to zero
/// modulo 256, and so passes the checksum check.
pub proof fn law_checksum_closes_record(s: Seq<u8>)
    ensures
        sum8(s.push(checksum_for(s))) == 0,
        checksum_ok(s.push(checksum_for(s))),
{
    lemma_sum8_push(s, checksum_for(s));
    assert(s.push(checksum_for(s)).last() == checksum_for(s));
}

/// Checksum mismatches do not stop the reader: of a record's whole bytes
/// (which alone hold its checksum byte), only a COMDAT record reads any;
/// every other record is read from its body alone.
pub proof fn law_checksum_not_enforced(
    s: ScanState,
    rt: u8,
    body: Seq<u8>,
    record1: Seq<u8>,
    record2: Seq<u8>,
)
    requires
        rt != RT_COMDAT,
        rt != RT_COMDAT32,
    ensures
        spec_record(s, rt, body, record1) == spec_record(s, rt, body, record2),
{
}

/// Whether `k` is the position of the checksum byte of a record other than
/// COMDAT, among the records laid end to end from `pos` (each a type byte, a
/// little-endian length of at least 1 and that many bytes, the last of them
/// the checksum).
pub open spec fn noncomdat_checksum_at(data: Seq<u8>, pos: int, k: int) -> bool
    decreases data.len() - pos,
{
    if pos < 0 || pos + 3 > data.len() {
        false
    } else {
        let rl = le16(data[pos + 1], data[pos + 2]) as int;
        if rl < 1 || pos + 3 + rl > data.len() {
            false
        } else if k == pos + 2 + rl {
            data[pos] != RT_COMDAT && data[pos] != RT_COMDAT32
        } else {
            noncomdat_checksum_at(data, pos + 3 + rl, k)
        }
    }
}

/// A checksum byte lies past the header of the first record.
proof fn lemma_checksum_at_past_header(data: Seq<u8>, pos: int, k: int)
    requires
        noncomdat_checksum_at(data, pos, k),
    ensures
        k >= pos + 3,
    decreases data.len() - pos,
{
    let rl = le16(data[pos + 1], data[pos + 2]) as int;
    if k != pos + 2 + rl {
        lemma_checksum_at_past_header(data, pos + 3 + rl, k);
    }
}

/// Reading the records from `pos` does not depend on the checksum bytes of
/// records other than COMDAT: two inputs that differ from `pos` on only in
/// such bytes read the same, to the same module or the same error.
pub proof fn law_scan_ignores_checksums(
    s: ScanState,
    d1: Seq<u8>,
    d2: Seq<u8>,
    pos: int,
    first: bool,
)
    requires
        d1.len() == d2.len(),
        forall|i: int|
            pos <= i < d1.len() && #[trigger] d1[i] != d2[i] ==> noncomdat_checksum_at(d1, pos, i),
    ensures
        spec_scan_from(s, d1, pos, first) == spec_scan_from(s, d2, pos, first),
    decreases d1.len() - pos,
{
    if pos < 0 || pos >= d1.len() {
        return;
    }
    assert forall|i: int| pos <= i < pos + 3 && i < d1.len() implies d1[i] == d2[i] by {
        if d1[i] != d2[i] {
            lemma_checksum_at_past_header(d1, pos, i);
        }
    }
    if pos + 3 > d1.len() {
        return;
    }
    let rt = d1[pos];
    let rl = le16(d1[pos + 1], d1[pos + 2]) as int;
    if rl < 1 || pos + 3 + rl > d1.len() {
        return;
    }
    let next = pos + 3 + rl;
    assert forall|i: int| next <= i < d1.len() && #[trigger] d1[i] != d2[i] implies noncomdat_checksum_at(
        d1,
        next,
        i,
    ) by {
        assert(noncomdat_checksum_at(d1, pos, i));
    }
    assert forall|i: int| pos + 3 <= i < pos + 2 + rl implies d1[i] == d2[i] by {
        if d1[i] != d2[i] {
            assert(noncomdat_checksum_at(d1, pos, i));
            lemma_checksum_at_past_header(d1, next, i);
        }
    }
    let b1 = d1.subrange(pos + 3, pos + 2 + rl);
    let b2 = d2.subrange(pos + 3, pos + 2 + rl);
    assert(b1 =~= b2);
    let r1 = d1.subrange(pos, next);
    let r2 = d2.subrange(pos, next);
    if rt == RT_COMDAT || rt == RT_COMDAT32 {
        if d1[pos + 2 + rl] != d2[pos + 2 + rl] {
            assert(noncomdat_checksum_at(d1, pos, pos + 2 + rl));
        }
        assert(r1 =~= r2);
    } else {
        law_checksum_not_enforced(s, rt, b1, r1, r2);
    }
    match spec_record(s, rt, b1, r1) {
        Some(Ok((s2, done))) => {
            if !done {
                law_scan_ignores_checksums(s2, d1, d2, next, false);
            }
        },
        _ => {},
    }
}

/// A whole module reads the same whatever the checksum bytes of its
/// records other than COMDAT hold: a checksum mismatch is never fatal and
/// changes nothing that is read.
pub proof fn law_parse_ignores_checksums(d1: Seq<u8>, d2: Seq<u8>)
    requires
        d1.len() == d2.len(),
        forall|i: int|
            0 <= i < d1.len() && #[trigger] d1[i] != d2[i] ==> noncomdat_checksum_at(d1, 0, i),
    ensures
        spec_parse(d1) == spec_parse(d2),
{
    law_scan_ignores_checksums(initial_scan(empty_state()), d1, d2, 0, true);
}

// ── COMENT records ───────────────────────────────────────────────────────

/// A COMENT record whose body reads as a SEGDEF record acts as that SEGDEF:
/// reading from it on gives what reading from it on gives with its type
/// byte changed to SEGDEF.
pub proof fn law_coment_as_segdef(s: ScanState, data: Seq<u8>, pos: int)
    requires
        0 <= pos,
        pos + 3 <= data.len(),
        data[pos] == RT_COMENT,
        1 <= le16(data[pos + 1], data[pos + 2]),
        pos + 3 + le16(data[pos + 1], data[pos + 2]) <= data.len(),
        spec_segdef(s.st, data.subrange(pos + 3, pos + 2 + le16(data[pos + 1], data[pos + 2])), false) is Ok,
    ensures
        spec_scan_from(s, data, pos, false) == spec_scan_from(s, data.update(pos, RT_SEGDEF), pos, false),
{
    let d2 = data.update(pos, RT_SEGDEF);
    let rl = le16(data[pos + 1], data[pos + 2]) as int;
    let body = data.subrange(pos + 3, pos + 2 + rl);
    assert(d2[pos + 1] == data[pos + 1] && d2[pos + 2] == data[pos + 2]);
    assert(d2.subrange(pos + 3, pos + 2 + rl) =~= body);
    let next = pos + 3 + rl;
    match spec_record(s, RT_COMENT, body, data.subrange(pos, next)) {
        Some(Ok((s2, done))) => {
            assert(!done);
            law_scan_ignores_checksums(s2, data, d2, next, false);
        },
        _ => {},
    }
}

/// A COMENT record whose body does not read as a SEGDEF record is a
/// comment: its step is the comment's, and it leaves the segments as they
/// were.
pub proof fn law_coment_otherwise(s: ScanState, body: Seq<u8>, record: Seq<u8>)
    requires
        spec_segdef(s.st, body, false) is Err,
    ensures
        spec_record(s, RT_COMENT, body, record) == after_plain(spec_coment(s.st, body), s),
        spec_record(s, RT_COMENT, body, record) matches Some(Ok((s2, done))) ==> !done
            && s2.st.segments == s.st.segments,
{
}

// ── Writing data ─────────────────────────────────────────────────────────

/// Writing `bytes` at `off` leaves them there to be read back; the bytes
/// before `off` and after the written range stay as they were, a gap
/// between the old end and `off` is zero, and the buffer grows just enough.
pub proof fn law_write_reads_back(buf: Seq<u8>, off: int, bytes: Seq<u8>)
    requires
        0 <= off,
    ensures
        write_at(buf, off, bytes).len() == if buf.len() < off + bytes.len() {
            off + bytes.len()
        } else {
            buf.len() as int
        },
        write_at(buf, off, bytes).subrange(off, off + bytes.len()) == bytes,
        forall|k: int| 0 <= k < off && k < buf.len() ==> #[trigger] write_at(buf, off, bytes)[k] == buf[k],
        forall|k: int| buf.len() <= k < off ==> #[trigger] write_at(buf, off, bytes)[k] == 0,
        forall|k: int|
            off + bytes.len() <= k < buf.len() ==> #[trigger] write_at(buf, off, bytes)[k] == buf[k],
{
    let w = write_at(buf, off, bytes);
    assert(w.subrange(off, off + bytes.len()) =~= bytes);
}

/// The bytes an LEDATA record carries: those after its segment index and
/// data offset.
pub open spec fn ledata_bytes(body: Seq<u8>, is_32: bool) -> Seq<u8> {
    match spec_read_index(body, 0) {
        Some((_, c)) => body.subrange(c + if is_32 {
            4int
        } else {
            2int
        }, body.len() as int),
        None => Seq::empty(),
    }
}

/// What an LEDATA record writes can be read back: when it targets a
/// segment, that segment's data holds the record's bytes at the record's
/// offset, and no other segment changes; when it targets a communal entry,
/// that entry's data holds them.
pub proof fn law_ledata_reads_back(st: OmfState, body: Seq<u8>, is_32: bool)
    ensures
        spec_ledata(st, body, is_32) matches Ok((st2, DataTarget::Segment(o), off)) ==> {
            &&& 1 <= o <= st.segments.len()
            &&& st2.segments.len() == st.segments.len()
            &&& st2.segments[o - 1].data.subrange(off as int, off + ledata_bytes(body, is_32).len())
                == ledata_bytes(body, is_32)
            &&& forall|i: int| 0 <= i < st.segments.len() && i != o - 1 ==> #[trigger] st2.segments[i]
                == st.segments[i]
        },
        spec_ledata(st, body, is_32) matches Ok((st2, DataTarget::Communal { comdef_ord }, off))
            ==> exists|p: int|
            0 <= p < st.comdefs.len() && #[trigger] st2.comdefs[p].data.subrange(
                off as int,
                off + ledata_bytes(body, is_32).len(),
            ) == ledata_bytes(body, is_32),
{
    if let Ok((st2, t, off)) = spec_ledata(st, body, is_32) {
        let bytes = ledata_bytes(body, is_32);
        match t {
            DataTarget::Segment(o) => {
                law_write_reads_back(st.segments[o - 1].data, off as int, bytes);
            },
            DataTarget::Communal { comdef_ord } => {
                let sym = st.extdef_symbol_indices[comdef_ord - 1];
                crate::state::lemma_first_group_bounds(st.comdat_groups, sym, 0);
                let p = crate::state::communal_pos(st, comdef_ord)->0;
                law_write_reads_back(st.comdefs[p].data, off as int, bytes);
                assert(st2.comdefs[p].data.subrange(off as int, off + bytes.len()) == bytes);
            },
            _ => {},
        }
    }
}

// ── LIDATA ───────────────────────────────────────────────────────────────

/// A block repeated `n` times is `n` times as long.
pub proof fn law_repeat_length(s: Seq<u8>, n: nat)
    ensures
        repeat(s, n).len() == n * s.len(),
    decreases n,
{
    if n > 0 {
        law_repeat_length(s, (n - 1) as nat);
        assert(repeat(s, n).len() == (n - 1) * s.len() + s.len());
        assert((n - 1) * s.len() + s.len() == n * s.len()) by (nonlinear_arith);
    } else {
        assert(repeat(s, n).len() == 0);
        assert(n * s.len() == 0) by (nonlinear_arith)
            requires
                n == 0,
        ;
    }
}

// ── FIXUPP ───────────────────────────────────────────────────────────────

/// A FIXUPP record keeps the thread table as it was at its start, and
/// hands the table as its THREAD subrecords left it to the next record.
pub proof fn law_fixupp_snapshot(
    st: OmfState,
    tt: ThreadTable,
    body: Seq<u8>,
    last: Option<DataTarget>,
    ledata_off: u32,
    is_32: bool,
)
    ensures
        spec_fixupp(st, tt, body, last, ledata_off, is_32) matches Some(Ok((st2, _))) ==> {
            &&& st2.fixupp_records.len() > 0
            &&& st2.fixupp_records.last().thread_table == tt
        },
{
}

// ── Reading a module ─────────────────────────────────────────────────────

/// No bytes at all are no module.
pub proof fn law_parse_empty()
    ensures
        spec_parse(Seq::empty()) == Some(Err::<OmfState, Error>(Error("OMF file has no records"))),
{
}

/// A module must begin with a THEADR record: any other first byte is
/// refused as "not an OMF object file".
pub proof fn law_parse_needs_theadr(data: Seq<u8>)
    requires
        data.len() > 0,
        data[0] != RT_THEADR,
    ensures
        spec_parse(data) == Some(Err::<OmfState, Error>(Error("not an OMF object file"))),
{
}

/// A module that reads begins with a THEADR record.
pub proof fn law_parsed_starts_with_theadr(data: Seq<u8>)
    ensures
        spec_parse(data) matches Some(Ok(_)) ==> data.len() > 0 && data[0] == RT_THEADR,
{
    if data.len() > 0 && data[0] != RT_THEADR {
        law_parse_needs_theadr(data);
    }
}

/// Laying out keeps what the well-formedness of a module speaks of.
proof fn lemma_finalize_wf(st: OmfState)
    requires
        module_wf(st),
    ensures
        module_wf(spec_finalize(st)),
{
    let fin = spec_finalize(st);
    assert forall|i: int| 0 <= i < st.segments.len() implies (#[trigger] fin.segments[i]).alignment
        == st.segments[i].alignment && fin.segments[i].ordinal == st.segments[i].ordinal by {
        assert(fin.segments[i] == laid_out(st.segments, i));
    }
    lemma_wf_frame(st, fin);
}

/// A module that reads is well formed (see `module_wf`): at most 255
/// segments with ordinals 1, 2, … in order, at most 31 groups, at most 1023
/// external ordinals each naming a symbol, and one COMDAT group per COMDEF
/// entry, naming a communal symbol of the entry's name.
pub proof fn law_parsed_module_wf(data: Seq<u8>)
    requires
        data.len() <= usize::MAX,
    ensures
        spec_parse(data) matches Some(Ok(st)) ==> module_wf(st),
{
    lemma_scan_wf(initial_scan(empty_state()), data, 0, true);
    if let Some(Ok(st)) = spec_scan_from(initial_scan(empty_state()), data, 0, true) {
        lemma_finalize_wf(st);
    }
}

// ── Layout ───────────────────────────────────────────────────────────────

/// Rounding up to an alignment gives a multiple of it, no smaller than the
/// value and less than one alignment above it.
proof fn lemma_align_up(b: int, a: int)
    requires
        b >= 0,
        a >= 1,
    ensures
        b <= align_up(b, a) <= b + a - 1,
        align_up(b, a) % a == 0,
{
    if a > 1 {
        let q = (b + a - 1) / a;
        assert(q * a <= b + a - 1 && b + a - 1 < q * a + a) by (nonlinear_arith)
            requires
                a > 1,
                q == (b + a - 1) / a,
                b >= 0,
        ;
        assert((q * a) % a == 0) by (nonlinear_arith)
            requires
                a > 1,
        ;
    }
}

/// The layout position grows with the number of segments laid out, and
/// stays below `n` times 2^32 + 256 for `n` segments aligned to at most 256.
proof fn lemma_next_base(segs: Seq<SegmentView>, n: int)
    requires
        0 <= n <= segs.len(),
        forall|i: int| 0 <= i < segs.len() ==> 1 <= #[trigger] segs[i].alignment <= 256,
    ensures
        0 <= next_base(segs, n) <= n * 0x1_0000_0100,
        forall|m: int| 0 <= m <= n ==> #[trigger] next_base(segs, m) <= next_base(segs, n),
    decreases n,
{
    if n > 0 {
        lemma_next_base(segs, n - 1);
        let s = segs[n - 1];
        lemma_align_up(next_base(segs, n - 1), s.alignment as int);
        assert((n - 1) * 0x1_0000_0100 + 0x1_0000_0100 == n * 0x1_0000_0100) by (nonlinear_arith);
    }
}

/// How a laid-out module's segments sit: each segment's data is exactly as
/// long as the segment; an absolute segment sits at its frame times 16; a
/// relocatable one at a multiple of its alignment; and relocatable segments
/// follow one another in order without overlapping.
pub open spec fn well_laid_out(st: OmfState) -> bool {
    &&& forall|i: int|
        0 <= i < st.segments.len() ==> (#[trigger] st.segments[i]).data.len() == eff_len(
            st.segments[i],
        )
    &&& forall|i: int|
        0 <= i < st.segments.len() && st.segments[i].is_absolute ==> (
        #[trigger] st.segments[i]).flat_base == st.segments[i].frame * 16
    &&& forall|i: int|
        0 <= i < st.segments.len() && !st.segments[i].is_absolute ==> (
        #[trigger] st.segments[i]).flat_base as int % (st.segments[i].alignment as int) == 0
    &&& forall|i: int, j: int|
        0 <= i < j < st.segments.len() && !st.segments[i].is_absolute
            && !st.segments[j].is_absolute ==> #[trigger] st.segments[i].flat_base + eff_len(
            st.segments[i],
        ) <= #[trigger] st.segments[j].flat_base
}

/// Laying out a module places its segments well (see `well_laid_out`) and
/// keeps everything else about them.
pub proof fn law_layout(st: OmfState)
    requires
        layout_bounded(st),
    ensures
        spec_finalize(st).segments.len() == st.segments.len(),
        well_laid_out(spec_finalize(st)),
{
    let segs = st.segments;
    let fin = spec_finalize(st);
    lemma_next_base(segs, segs.len() as int);
    assert forall|i: int| 0 <= i < segs.len() implies (#[trigger] fin.segments[i]).flat_base
        == flat_base_of(segs, i) && fin.segments[i].data.len() == eff_len(segs[i])
        && eff_len(fin.segments[i]) == eff_len(segs[i]) && fin.segments[i].is_absolute
        == segs[i].is_absolute && fin.segments[i].frame == segs[i].frame
        && fin.segments[i].alignment == segs[i].alignment by {
        assert(fin.segments[i] == laid_out(segs, i));
        lemma_next_base(segs, i);
        assert(1 <= segs[i].alignment <= 256);
        lemma_align_up(next_base(segs, i), segs[i].alignment as int);
        assert(i * 0x1_0000_0100 <= 255 * 0x1_0000_0100) by (nonlinear_arith)
            requires
                i <= 255,
        ;
    }
    assert forall|i: int|
        0 <= i < segs.len() && !segs[i].is_absolute implies (#[trigger] fin.segments[i]).flat_base as int
        % (segs[i].alignment as int) == 0 by {
        assert(1 <= segs[i].alignment <= 256);
        lemma_next_base(segs, i);
        lemma_align_up(next_base(segs, i), segs[i].alignment as int);
    }
    assert forall|i: int, j: int|
        0 <= i < j < segs.len() && !segs[i].is_absolute && !segs[j].is_absolute implies #[trigger] fin.segments[i].flat_base
        + eff_len(segs[i]) <= #[trigger] fin.segments[j].flat_base by {
        lemma_next_base(segs, j);
        lemma_next_base(segs, i);
        assert(1 <= segs[i].alignment <= 256);
        assert(1 <= segs[j].alignment <= 256);
        lemma_align_up(next_base(segs, i), segs[i].alignment as int);
        lemma_align_up(next_base(segs, j), segs[j].alignment as int);
        assert(next_base(segs, i + 1) == flat_base_of(segs, i) + eff_len(segs[i]));
        assert(next_base(segs, i + 1) <= next_base(segs, j));
    }
}

/// A module that reads is well laid out (see `well_laid_out`).
pub proof fn law_parsed_layout(data: Seq<u8>)
    requires
        data.len() <= usize::MAX,
    ensures
        spec_parse(data) matches Some(Ok(st)) ==> well_laid_out(st),
{
    lemma_scan_wf(initial_scan(empty_state()), data, 0, true);
    if let Some(Ok(st)) = spec_scan_from(initial_scan(empty_state()), data, 0, true) {
        law_layout(st);
    }
}

// ── Addresses ────────────────────────────────────────────────────────────

/// Laid out, every segment sits below 2^40.
proof fn lemma_laid_out_bases(st: OmfState)
    requires
        layout_bounded(st),
    ensures
        forall|i: int|
            0 <= i < st.segments.len() ==> (#[trigger] spec_finalize(st).segments[i]).flat_base
                <= 0x100_0000_0000u64,
{
    let segs = st.segments;
    let fin = spec_finalize(st);
    assert forall|i: int| 0 <= i < segs.len() implies (#[trigger] fin.segments[i]).flat_base
        <= 0x100_0000_0000u64 by {
        assert(fin.segments[i] == laid_out(segs, i));
        assert(1 <= segs[i].alignment <= 256);
        if !segs[i].is_absolute {
            lemma_next_base(segs, i);
            lemma_align_up(next_base(segs, i), segs[i].alignment as int);
            assert(i * 0x1_0000_0100 <= 255 * 0x1_0000_0100) by (nonlinear_arith)
                requires
                    i <= 255,
            ;
        }
    }
}

/// In a module that reads, the entry point and every symbol have a flat
/// address that fits in 64 bits, so `entry` and `address` can be asked of
/// them.
pub proof fn law_parsed_addresses_fit(data: Seq<u8>)
    requires
        data.len() <= usize::MAX,
    ensures
        spec_parse(data) matches Some(Ok(st)) ==> entry_address(st) <= u64::MAX && forall|j: int|
            0 <= j < st.symbols.len() ==> symbol_address(st, #[trigger] st.symbols[j]) <= u64::MAX,
{
    lemma_scan_wf(initial_scan(empty_state()), data, 0, true);
    if let Some(Ok(st0)) = spec_scan_from(initial_scan(empty_state()), data, 0, true) {
        lemma_laid_out_bases(st0);
        let st = spec_finalize(st0);
        assert forall|ord: u16| #[trigger] flat_base_at(st, ord) <= 0x100_0000_0000u64 by {
            if ord != 0 && ord <= st.segments.len() {
                assert(st.segments[ord - 1] == spec_finalize(st0).segments[ord - 1]);
            }
        }
    }
}

// ── Section kinds ────────────────────────────────────────────────────────

/// The class name "CODE", in ASCII.
pub open spec fn class_code() -> Seq<u8> {
    seq![0x43u8, 0x4Fu8, 0x44u8, 0x45u8]
}

/// The class name "FAR_CODE", in ASCII.
pub open spec fn class_far_code() -> Seq<u8> {
    seq![0x46u8, 0x41u8, 0x52u8, 0x5Fu8, 0x43u8, 0x4Fu8, 0x44u8, 0x45u8]
}

/// The class name "DATA", in ASCII.
pub open spec fn class_data() -> Seq<u8> {
    seq![0x44u8, 0x41u8, 0x54u8, 0x41u8]
}

/// The class name "FAR_DATA", in ASCII.
pub open spec fn class_far_data() -> Seq<u8> {
    seq![0x46u8, 0x41u8, 0x52u8, 0x5Fu8, 0x44u8, 0x41u8, 0x54u8, 0x41u8]
}

/// The class name "STACK", in ASCII.
pub open spec fn class_stack() -> Seq<u8> {
    seq![0x53u8, 0x54u8, 0x41u8, 0x43u8, 0x4Bu8]
}

/// The class name "BSS", in ASCII.
pub open spec fn class_bss() -> Seq<u8> {
    seq![0x42u8, 0x53u8, 0x53u8]
}

/// The kind of a section follows its segment's class name: "CODE" and
/// "FAR_CODE" are text; "DATA", "FAR_DATA" and "STACK" are data; "BSS" is
/// uninitialized data; any other class name is of unknown kind.
pub proof fn law_class_kinds(class: Seq<u8>)
    ensures
        class == class_code() ==> class_kind(class) == SectionKind::Text,
        class == class_far_code() ==> class_kind(class) == SectionKind::Text,
        class == class_data() ==> class_kind(class) == SectionKind::Data,
        class == class_far_data() ==> class_kind(class) == SectionKind::Data,
        class == class_stack() ==> class_kind(class) == SectionKind::Data,
        class == class_bss() ==> class_kind(class) == SectionKind::UninitializedData,
        class != class_code() && class != class_far_code() && class != class_data() && class
            != class_far_data() && class != class_stack() && class != class_bss()
            ==> class_kind(class) == SectionKind::Unknown,
{
}

// ── Symbol addresses ─────────────────────────────────────────────────────

/// A public symbol (global or local) in segment `s` (an existing one, 1-based)
/// sits at that segment's flat address, the address of section `s - 1`,
/// plus its offset.
pub proof fn law_public_symbol_address(st: OmfState, sym: SymbolView)
    requires
        is_public_kind(sym.kind),
        1 <= sym.seg_ordinal <= st.segments.len(),
    ensures
        symbol_address(st, sym) == st.segments[sym.seg_ordinal - 1].flat_base + sym.offset,
{
}

/// An entry point in segment `s` (an existing one, 1-based) sits at that
/// segment's flat address plus its offset.
pub proof fn law_entry_address(st: OmfState)
    ensures
        st.entry matches EntryPoint::Segment(s, off) ==> (1 <= s <= st.segments.len()
            ==> entry_address(st) == st.segments[s - 1].flat_base + off),
{
}

// ── Fixup offsets ────────────────────────────────────────────────────────

/// A fixup's relocation sits at the data offset of the data record it
/// follows plus the 10-bit offset of its locat field: the low two bits of
/// its first byte, then its second byte.
pub proof fn law_fixup_offset(body: Seq<u8>, pos: int, tt: ThreadTable, ledata_off: u32, is_32: bool)
    ensures
        spec_fixup(body, pos, tt, ledata_off, is_32) matches Some(Ok((f, _))) ==> f.record_offset
            == ledata_off + (body[pos] % 4) * 256 + body[pos + 1] && reloc_of(f).offset
            == f.record_offset,
{
    if 0 <= pos && pos + 2 <= body.len() {
        let hi = body[pos];
        assert((hi & 0x03) == hi % 4) by (bit_vector);
    }
}

/// An LEDATA record's data offset, which the fixups after it are counted
/// from, is its offset field: the two (LEDATA32: four) little-endian bytes
/// after its one- or two-byte segment index.
pub proof fn law_ledata_offset(st: OmfState, body: Seq<u8>, is_32: bool)
    ensures
        spec_ledata(st, body, is_32) matches Ok((_, _, off)) ==> {
            let c: int = if body[0] < 0x80 { 1 } else { 2 };
            if is_32 {
                off == body[c] + 256 * body[c + 1] + 65536 * body[c + 2] + 16777216 * body[c + 3]
            } else {
                off == body[c] + 256 * body[c + 1]
            }
        },
{
}

// ── COMDAT selection ─────────────────────────────────────────────────────

/// The selection criteria of a COMDAT record is the high nibble of its
/// attributes byte (the fifth byte of the record) read by the OMF table:
/// 0 no match, 1 pick any, 2 same size, 3 exact match; any other value is
/// reserved and the record is refused.
pub proof fn law_comdat_selection(input: Seq<u8>, enc: PublicNameEncoding)
    ensures
        spec_comdat(input, enc) matches Some(Ok(r)) ==> {
            &&& input[4] / 16 == 0 ==> r.attributes.selection == SelectionCriteria::NoMatch
            &&& input[4] / 16 == 1 ==> r.attributes.selection == SelectionCriteria::PickAny
            &&& input[4] / 16 == 2 ==> r.attributes.selection == SelectionCriteria::SameSize
            &&& input[4] / 16 == 3 ==> r.attributes.selection == SelectionCriteria::ExactMatch
            &&& input[4] / 16 <= 3
        },
{
    if input.len() >= 5 {
        let attr = input[4];
        assert(((attr >> 4u8) & 0x0F) == attr / 16) by (bit_vector);
        let n = attr / 16;
        assert(n & 0x0F == n) by (bit_vector)
            requires
                n < 16,
        ;
    }
}

/// The selection nibble table: 0 no match, 1 pick any, 2 same size, 3
/// exact match, 4 to 15 reserved.
pub proof fn law_selection_nibbles(v: u8)
    requires
        v < 16,
    ensures
        v == 0 <==> spec_selection_from_nibble(v) == Some(SelectionCriteria::NoMatch),
        v == 1 <==> spec_selection_from_nibble(v) == Some(SelectionCriteria::PickAny),
        v == 2 <==> spec_selection_from_nibble(v) == Some(SelectionCriteria::SameSize),
        v == 3 <==> spec_selection_from_nibble(v) == Some(SelectionCriteria::ExactMatch),
        v >= 4 <==> spec_selection_from_nibble(v) is None,
{
    assert(v & 0x0F == v) by (bit_vector)
        requires
            v < 16,
    ;
}

// ── Communal lengths ─────────────────────────────────────────────────────

/// A communal length field is read as a variable-length size is: where
/// either reads, both give the same value and end at the same place.
pub proof fn law_communal_length_is_varlen(buf: Seq<u8>, pos: int)
    ensures
        spec_communal_length(buf, pos) matches Ok((v, end)) ==> spec_read_varlen(buf, pos) == Some(
            (v, end - pos),
        ),
        spec_read_varlen(buf, pos) matches Some((v, n)) ==> spec_communal_length(buf, pos) == Ok::<
            (u32, int),
            ComdefError,
        >((v, pos + n)),
{
}

/// The value of a communal length field: a lead byte up to 0x80 is the
/// value itself; after a lead byte 0x81, 0x84 or 0x88 the next two, three
/// or four bytes, least significant first.
pub proof fn law_communal_length_value(buf: Seq<u8>, pos: int)
    requires
        0 <= pos < buf.len(),
    ensures
        buf[pos] <= 0x80 ==> spec_communal_length(buf, pos) == Ok::<(u32, int), ComdefError>(
            (buf[pos] as u32, pos + 1),
        ),
        buf[pos] == 0x81 && pos + 3 <= buf.len() ==> spec_communal_length(buf, pos) == Ok::<
            (u32, int),
            ComdefError,
        >(((buf[pos + 1] + 256 * buf[pos + 2]) as u32, pos + 3)),
        buf[pos] == 0x84 && pos + 4 <= buf.len() ==> spec_communal_length(buf, pos) == Ok::<
            (u32, int),
            ComdefError,
        >(((buf[pos + 1] + 256 * buf[pos + 2] + 65536 * buf[pos + 3]) as u32, pos + 4)),
        buf[pos] == 0x88 && pos + 5 <= buf.len() ==> spec_communal_length(buf, pos) == Ok::<
            (u32, int),
            ComdefError,
        >(
            (
                (buf[pos + 1] + 256 * buf[pos + 2] + 65536 * buf[pos + 3] + 16777216 * buf[pos
                    + 4]) as u32,
                pos + 5,
            ),
        ),
        buf[pos] > 0x80 && buf[pos] != 0x81 && buf[pos] != 0x84 && buf[pos] != 0x88
            ==> spec_communal_length(buf, pos) == Err::<(u32, int), ComdefError>(
            ComdefError::InvalidLengthPrefix(buf[pos]),
        ),
{
}

} // verus!
