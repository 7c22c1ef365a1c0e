use vstd::prelude::*;

verus! {

/// Plain arithmetic sum of the 16-bit big-endian words formed by the first
/// `i` bytes of `data`: a byte at an even index is the high half of its word
/// and weighs 256, a byte at an odd index weighs 1.  A trailing lone byte
/// acts as a word whose low half is zero, as RFC 1071 prescribes.
pub open spec fn word_sum(data: Seq<u8>, i: int) -> int
    decreases i,
{
    if i <= 0 {
        0
    } else if (i - 1) % 2 == 0 {
        word_sum(data, i - 1) + data[i - 1] * 256
    } else {
        word_sum(data, i - 1) + data[i - 1]
    }
}

/// End-around-carry fold of RFC 1071: add the part above 16 bits back into
/// the low 16 bits until the sum fits in 16 bits.
pub open spec fn fold_carries(s: int) -> int
    decreases s,
{
    if s < 0x10000 {
        s
    } else {
        fold_carries(s % 0x10000 + s / 0x10000)
    }
}

/// The internet checksum of `data`: the ones'-complement of the
/// end-around-carry folded word sum.
pub open spec fn internet_checksum(data: Seq<u8>) -> u16 {
    (0xffff - fold_carries(word_sum(data, data.len() as int))) as u16
}

/// The word sum of `i` bytes is at most `0xff00 * i`.
proof fn lemma_word_sum_bound(data: Seq<u8>, i: int)
    requires
        0 <= i,
    ensures
        0 <= word_sum(data, i) <= 0xff00 * i,
    decreases i,
{
    if i > 0 {
        lemma_word_sum_bound(data, i - 1);
    }
}

/// The fold of a non-negative sum lands in the 16-bit range.
proof fn lemma_fold_carries_range(s: int)
    requires
        0 <= s,
    ensures
        0 <= fold_carries(s) <= 0xffff,
    decreases s,
{
    if s >= 0x10000 {
        lemma_fold_carries_range(s % 0x10000 + s / 0x10000);
    }
}

/// Computes the RFC 1071 internet checksum of `data`: the ones'-complement
/// of the 16-bit ones'-complement sum of the data taken as big-endian words,
/// an odd trailing byte padded with a zero low half.
pub fn checksum(data: &Vec<u8>) -> (r: u16)
    requires
        data@.len() < 0x1_0000_0000,
    ensures
        r == internet_checksum(data@),
{
    let n = data.len();
    let mut sum: u64 = 0;
    let mut i: usize = 0;
    while i < n
        invariant
            i <= n,
            n == data@.len(),
            n < 0x1_0000_0000,
            sum == word_sum(data@, i as int),
            sum <= 0xff00 * (i as u64),
        decreases n - i,
    {
        if i % 2 == 0 {
            sum = sum + (data[i] as u64) * 256;
        } else {
            sum = sum + (data[i] as u64);
        }
        i = i + 1;
        proof {
            lemma_word_sum_bound(data@, i as int);
        }
    }
    proof {
        lemma_fold_carries_range(sum as int);
    }
    while sum > 0xffff
        invariant
            0 <= sum,
            fold_carries(sum as int) == fold_carries(word_sum(data@, data@.len() as int)),
        decreases sum,
    {
        sum = sum % 0x10000 + sum / 0x10000;
    }
    proof {
        lemma_fold_carries_range(word_sum(data@, data@.len() as int));
    }
    (0xffff - sum) as u16
}

} // verus!
