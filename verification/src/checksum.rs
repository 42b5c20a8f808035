//! Record checksums: the bytes of a well-formed record sum to zero modulo
//! 256, unless its checksum byte is zero, which means "not computed".
use vstd::prelude::*;

verus! {

/// The sum of the bytes, as an integer.
pub open spec fn byte_sum(s: Seq<u8>) -> nat
    decreases s.len(),
{
    if s.len() == 0 {
        0
    } else {
        byte_sum(s.drop_last()) + s.last() as nat
    }
}

/// The sum of the bytes modulo 256: what adding them up in a `u8` with
/// wrap-around gives.
pub open spec fn sum8(s: Seq<u8>) -> u8 {
    (byte_sum(s) % 256) as u8
}

/// The checksum byte that makes `s` followed by it sum to zero modulo 256.
pub open spec fn checksum_for(s: Seq<u8>) -> u8 {
    ((256 - sum8(s) as int) % 256) as u8
}

/// Whether a whole record (its last byte the checksum) passes the check:
/// its checksum byte is zero, or all its bytes sum to zero modulo 256.
pub open spec fn checksum_ok(record: Seq<u8>) -> bool {
    record.len() == 0 || record.last() == 0 || sum8(record) == 0
}

/// Adding up `s` followed by `b` gives the sum of `s` plus `b`.
pub proof fn lemma_sum8_push(s: Seq<u8>, b: u8)
    ensures
        byte_sum(s.push(b)) == byte_sum(s) + b,
        sum8(s.push(b)) == (sum8(s) as int + b as int) % 256,
{
    assert(s.push(b).drop_last() =~= s);
    vstd::arithmetic::div_mod::lemma_add_mod_noop(byte_sum(s) as int, b as int, 256);
    vstd::arithmetic::div_mod::lemma_small_mod(b as nat, 256);
}

/// The bytes of `bytes` added up in a `u8` with wrap-around.
pub fn wrapping_sum(bytes: &[u8]) -> (r: u8)
    ensures
        r == sum8(bytes@),
{
    let mut acc: u8 = 0;
    let mut i: usize = 0;
    while i < bytes.len()
        invariant
            i <= bytes@.len(),
            acc == sum8(bytes@.subrange(0, i as int)),
        decreases bytes@.len() - i,
    {
        proof {
            lemma_sum8_push(bytes@.subrange(0, i as int), bytes@[i as int]);
            assert(bytes@.subrange(0, i as int).push(bytes@[i as int]) =~= bytes@.subrange(
                0,
                i as int + 1,
            ));
        }
        acc = ((acc as u16 + bytes[i] as u16) % 256) as u8;
        i = i + 1;
    }
    assert(bytes@.subrange(0, bytes@.len() as int) =~= bytes@);
    acc
}

/// `0 - sum` with wrap-around: the checksum byte for bytes that add up to `sum`.
pub fn checksum_of_sum(sum: u8) -> (r: u8)
    ensures
        r == ((256 - sum as int) % 256) as u8,
{
    ((256 - sum as u16) % 256) as u8
}

} // verus!
