//! Iterated data blocks (LIDATA): nested repeat blocks that expand to bytes.
use vstd::prelude::*;

use crate::error::Error;
use crate::omf::le16;

verus! {

/// `s` repeated `n` times.
pub open spec fn repeat(s: Seq<u8>, n: nat) -> Seq<u8>
    decreases n,
{
    if n == 0 {
        Seq::empty()
    } else {
        repeat(s, (n - 1) as nat) + s
    }
}

/// The iterated data block at `pos`, read at nesting `depth`: a repeat count
/// and a block count (little-endian u16 each); with a block count of 0 a
/// length-prefixed run of bytes follows, otherwise that many nested blocks.
/// The block expands to its content (the bytes, or the nested blocks'
/// expansions one after the other) repeated `repeat count` times. The result
/// is the expansion and the number of bytes the block occupies. Nesting
/// deeper than 8 is refused.
pub open spec fn spec_expand_lidata(data: Seq<u8>, pos: int, depth: int) -> Result<(Seq<u8>, int), Error>
    decreases 10 - depth, 0int,
{
    if depth > 8 {
        Err(Error("LIDATA nesting too deep"))
    } else if pos < 0 || pos + 4 > data.len() {
        Err(Error("truncated LIDATA block"))
    } else {
        let repeat_count = le16(data[pos], data[pos + 1]);
        let block_count = le16(data[pos + 2], data[pos + 3]);
        let p = pos + 4;
        if block_count == 0 {
            if p >= data.len() {
                Err(Error("truncated LIDATA content"))
            } else {
                let byte_count = data[p] as int;
                let p = p + 1;
                if p + byte_count > data.len() {
                    Err(Error("truncated LIDATA content bytes"))
                } else {
                    Ok(
                        (
                            repeat(data.subrange(p, p + byte_count), repeat_count as nat),
                            p + byte_count - pos,
                        ),
                    )
                }
            }
        } else {
            match spec_expand_blocks(data, p, depth + 1, block_count as nat) {
                Err(e) => Err(e),
                Ok((inner, end)) => Ok((repeat(inner, repeat_count as nat), end - pos)),
            }
        }
    }
}

/// `n` consecutive iterated data blocks from `pos` at nesting `depth`: their
/// expansions one after the other, and the position after the last.
pub open spec fn spec_expand_blocks(data: Seq<u8>, pos: int, depth: int, n: nat) -> Result<
    (Seq<u8>, int),
    Error,
>
    decreases 10 - depth, n + 1,
{
    if n == 0 {
        Ok((Seq::empty(), pos))
    } else {
        match spec_expand_blocks(data, pos, depth, (n - 1) as nat) {
            Err(e) => Err(e),
            Ok((acc, p)) => match spec_expand_lidata(data, p, depth) {
                Err(e) => Err(e),
                Ok((sub, c)) => Ok((acc + sub, p + c)),
            },
        }
    }
}

/// A block that expands occupies at least its 4 header bytes and ends
/// within the data.
pub proof fn lemma_expand_bounds(data: Seq<u8>, pos: int, depth: int)
    ensures
        spec_expand_lidata(data, pos, depth) matches Ok((_, c)) ==> 4 <= c && pos + c <= data.len(),
    decreases 10 - depth, 0int,
{
    if depth <= 8 && pos >= 0 && pos + 4 <= data.len() {
        let block_count = le16(data[pos + 2], data[pos + 3]);
        if block_count != 0 {
            lemma_blocks_bounds(data, pos + 4, depth + 1, block_count as nat);
        }
    }
}

/// Consecutive blocks end within the data, at or after where they start.
pub proof fn lemma_blocks_bounds(data: Seq<u8>, pos: int, depth: int, n: nat)
    ensures
        spec_expand_blocks(data, pos, depth, n) matches Ok((_, end)) ==> pos <= end && (n > 0
            ==> end <= data.len()),
    decreases 10 - depth, n + 1,
{
    if n > 0 {
        lemma_blocks_bounds(data, pos, depth, (n - 1) as nat);
        if let Ok((_, p)) = spec_expand_blocks(data, pos, depth, (n - 1) as nat) {
            lemma_expand_bounds(data, p, depth);
        }
    }
}

/// Once a run of blocks fails, every longer run fails the same way.
pub proof fn lemma_blocks_err_stays(data: Seq<u8>, pos: int, depth: int, i: nat, n: nat)
    requires
        i <= n,
        spec_expand_blocks(data, pos, depth, i) is Err,
    ensures
        spec_expand_blocks(data, pos, depth, n) == spec_expand_blocks(data, pos, depth, i),
    decreases n - i,
{
    if i < n {
        lemma_blocks_err_stays(data, pos, depth, i, (n - 1) as nat);
    }
}

/// `s` repeated `n` times, as a new vector.
fn repeat_bytes(s: &[u8], n: u16) -> (r: Vec<u8>)
    ensures
        r@ == repeat(s@, n as nat),
{
    let mut r: Vec<u8> = Vec::new();
    let mut k: u16 = 0;
    while k < n
        invariant
            k <= n,
            r@ == repeat(s@, k as nat),
        decreases n - k,
    {
        let ghost before = r@;
        let mut j: usize = 0;
        while j < s.len()
            invariant
                j <= s@.len(),
                r@ == before + s@.subrange(0, j as int),
            decreases s@.len() - j,
        {
            r.push(s[j]);
            j = j + 1;
            assert(r@ =~= before + s@.subrange(0, j as int));
        }
        assert(s@.subrange(0, s@.len() as int) =~= s@);
        k = k + 1;
    }
    r
}

/// Expand the iterated data block at `pos` (see `spec_expand_lidata`).
pub fn expand_lidata(data: &[u8], pos: usize, depth: usize) -> (res: Result<(Vec<u8>, usize), Error>)
    ensures
        match spec_expand_lidata(data@, pos as int, depth as int) {
            Ok((v, c)) => res matches Ok((r, rc)) && r@ == v && rc == c,
            Err(e) => res == Err::<(Vec<u8>, usize), Error>(e),
        },
    decreases 10 - depth,
{
    if depth > 8 {
        return Err(Error("LIDATA nesting too deep"));
    }
    if pos > data.len() || data.len() - pos < 4 {
        return Err(Error("truncated LIDATA block"));
    }
    let start_pos = pos;
    let repeat_count = data[pos] as u16 + 256 * data[pos + 1] as u16;
    let block_count = data[pos + 2] as u16 + 256 * data[pos + 3] as u16;
    let mut cur = pos + 4;
    let result = if block_count == 0 {
        if cur >= data.len() {
            return Err(Error("truncated LIDATA content"));
        }
        let byte_count = data[cur] as usize;
        cur = cur + 1;
        if data.len() - cur < byte_count {
            return Err(Error("truncated LIDATA content bytes"));
        }
        let content = vstd::slice::slice_subrange(data, cur, cur + byte_count);
        cur = cur + byte_count;
        repeat_bytes(content, repeat_count)
    } else {
        let ghost p0 = cur as int;
        let ghost whole = spec_expand_lidata(data@, start_pos as int, depth as int);
        assert(whole == match spec_expand_blocks(data@, p0, depth + 1, block_count as nat) {
            Err(e) => Err(e),
            Ok((inner, end)) => Ok((repeat(inner, repeat_count as nat), end - start_pos)),
        });
        let data_len = data.len();
        let mut inner: Vec<u8> = Vec::new();
        let mut i: u16 = 0;
        while i < block_count
            invariant
                i <= block_count,
                depth <= 8,
                p0 <= cur <= data@.len(),
                data_len == data@.len(),
                start_pos == pos,
                whole == spec_expand_lidata(data@, start_pos as int, depth as int),
                whole == match spec_expand_blocks(data@, p0, depth + 1, block_count as nat) {
                    Err(e) => Err(e),
                    Ok((inner, end)) => Ok((repeat(inner, repeat_count as nat), end - start_pos)),
                },
                spec_expand_blocks(data@, p0, depth + 1, i as nat) == Ok::<(Seq<u8>, int), Error>(
                    (inner@, cur as int),
                ),
            decreases block_count - i,
        {
            proof {
                lemma_expand_bounds(data@, cur as int, depth + 1);
            }
            match expand_lidata(data, cur, depth + 1) {
                Err(e) => {
                    proof {
                        assert(spec_expand_blocks(data@, p0, depth + 1, (i + 1) as nat) == Err::<(Seq<u8>, int), Error>(e));
                        lemma_blocks_err_stays(data@, p0, depth + 1, (i + 1) as nat, block_count as nat);
                        assert(spec_expand_blocks(data@, p0, depth + 1, block_count as nat) == Err::<(Seq<u8>, int), Error>(e));
                        assert(whole == Err::<(Seq<u8>, int), Error>(e));
                    }
                    return Err(e);
                },
                Ok((sub, consumed)) => {
                    assert(cur + consumed <= data_len);
                    let ghost before = inner@;
                    let mut j: usize = 0;
                    while j < sub.len()
                        invariant
                            j <= sub@.len(),
                            inner@ == before + sub@.subrange(0, j as int),
                        decreases sub@.len() - j,
                    {
                        inner.push(sub[j]);
                        j = j + 1;
                        assert(inner@ =~= before + sub@.subrange(0, j as int));
                    }
                    assert(sub@.subrange(0, sub@.len() as int) =~= sub@);
                    cur = cur + consumed;
                },
            }
            i = i + 1;
        }
        repeat_bytes(inner.as_slice(), repeat_count)
    };
    Ok((result, cur - start_pos))
}

} // verus!
