//! The Internet checksum guarding the IPv4 header.
//!
//! The 20 header bytes are read as ten 16-bit big-endian words with the
//! checksum field taken as zero, summed into a wide accumulator, the carry
//! beyond bit 16 folded back until none remains, and the result complemented.
//! The validation law holds: a header whose checksum field carries the
//! computed value sums (over all ten words, carry folded) to `0xffff`, so its
//! complement is zero.

use vstd::arithmetic::div_mod::lemma_mod_multiples_vanish;
use vstd::prelude::*;

verus! {

/// Folds the carry beyond bit 16 back into the low 16 bits, repeatedly,
/// until no carry remains: the one's-complement sum.
pub open spec fn fold16(x: int) -> int
    recommends
        x >= 0,
    decreases x,
{
    if x > 0xffff {
        fold16(x % 0x10000 + x / 0x10000)
    } else {
        x
    }
}

/// Word `i` (16-bit, big-endian) of a byte sequence.
pub open spec fn word_at(b: Seq<u8>, i: int) -> int {
    256 * b[2 * i] + b[2 * i + 1]
}

/// The plain sum of the first `n` 16-bit words of a byte sequence.
pub open spec fn sum_words(b: Seq<u8>, n: int) -> int
    decreases n,
{
    if n <= 0 {
        0
    } else {
        sum_words(b, n - 1) + word_at(b, n - 1)
    }
}

/// The header bytes with the two checksum bytes (offsets 10 and 11) taken
/// as zero, as the checksum algorithm reads them.
pub open spec fn checksum_input(b: Seq<u8>) -> Seq<u8> {
    b.update(10, 0u8).update(11, 0u8)
}

/// The Internet checksum of a 20-byte IPv4 header image: the one's
/// complement of the folded word sum, the checksum field taken as zero.
pub open spec fn spec_ipv4_checksum(b: Seq<u8>) -> u16 {
    (0xffff - fold16(sum_words(checksum_input(b), 10))) as u16
}

/// The folded sum never exceeds 16 bits, never grows, and never reaches
/// zero from a positive accumulator.
pub proof fn lemma_fold16_bounds(x: int)
    requires
        x >= 0,
    ensures
        0 <= fold16(x) <= 0xffff,
        fold16(x) <= x,
        x >= 1 ==> fold16(x) >= 1,
    decreases x,
{
    if x > 0xffff {
        lemma_fold16_bounds(x % 0x10000 + x / 0x10000);
    }
}

/// Folding the carry preserves the value modulo `0xffff`, except that a
/// multiple of `0xffff` folds to `0xffff` itself rather than to zero.
pub proof fn lemma_fold16_exact(x: int)
    requires
        x >= 1,
    ensures
        fold16(x) == if x % 0xffff == 0 {
            0xffff as int
        } else {
            x % 0xffff
        },
    decreases x,
{
    if x > 0xffff {
        let q = x / 0x10000;
        let r = x % 0x10000;
        assert(x == 0x10000 * q + r);
        assert(q >= 1);
        assert(x == 0xffff * q + (q + r));
        lemma_mod_multiples_vanish(q, q + r, 0xffff);
        assert((q + r) % 0xffff == x % 0xffff);
        lemma_fold16_exact(q + r);
    }
}

/// Every 16-bit word is below `0x10000`, so the sum of `n` words is below
/// `n * 0x10000`.
pub proof fn lemma_sum_words_bounds(b: Seq<u8>, n: int)
    requires
        0 <= n,
        2 * n <= b.len(),
    ensures
        0 <= sum_words(b, n) <= n * 0xffff,
    decreases n,
{
    if n > 0 {
        lemma_sum_words_bounds(b, n - 1);
        assert(word_at(b, n - 1) <= 0xffff);
        assert((n - 1) * 0xffff + 0xffff == n * 0xffff) by (nonlinear_arith);
    }
}

/// Two byte sequences that agree on the first `2 * n` bytes except within
/// word `k` have word sums that differ exactly by that word's difference.
proof fn lemma_sum_words_one_word_diff(b1: Seq<u8>, b2: Seq<u8>, n: int, k: int)
    requires
        0 <= k,
        0 <= n,
        2 * n <= b1.len(),
        b1.len() == b2.len(),
        forall|i: int| 0 <= i < 2 * n && i != 2 * k && i != 2 * k + 1 ==> b1[i] == b2[i],
    ensures
        sum_words(b1, n) - sum_words(b2, n) == if k < n {
            word_at(b1, k) - word_at(b2, k)
        } else {
            0
        },
    decreases n,
{
    if n > 0 {
        lemma_sum_words_one_word_diff(b1, b2, n - 1, k);
    }
}

/// Computes the Internet checksum of a 20-byte IPv4 header image, with the
/// checksum field's own two bytes treated as zero.
pub fn compute_ipv4_checksum(bytes: &Vec<u8>) -> (r: u16)
    requires
        bytes@.len() == 20,
    ensures
        r == spec_ipv4_checksum(bytes@),
{
    let ghost zeroed = checksum_input(bytes@);
    let mut sum: u32 = 0;
    let mut i: usize = 0;
    while i < 10
        invariant
            0 <= i <= 10,
            bytes@.len() == 20,
            zeroed == checksum_input(bytes@),
            sum == sum_words(zeroed, i as int),
            sum <= i * 0xffff,
        decreases 10 - i,
    {
        if i != 5 {
            let word: u32 = (bytes[2 * i] as u32) * 256 + (bytes[2 * i + 1] as u32);
            proof {
                assert(zeroed[2 * (i as int)] == bytes@[2 * (i as int)]);
                assert(zeroed[2 * (i as int) + 1] == bytes@[2 * (i as int) + 1]);
            }
            sum = sum + word;
        } else {
            proof {
                assert(zeroed[10] == 0u8);
                assert(zeroed[11] == 0u8);
                assert(word_at(zeroed, 5) == 0);
            }
        }
        i = i + 1;
    }
    let ghost total = sum_words(zeroed, 10);
    while sum > 0xffff
        invariant
            sum >= 0,
            fold16(sum as int) == fold16(total),
        decreases sum,
    {
        sum = sum % 0x10000 + sum / 0x10000;
    }
    proof {
        assert(fold16(sum as int) == sum as int);
        lemma_sum_words_bounds(zeroed, 10);
        lemma_fold16_bounds(total);
    }
    0xffff - (sum as u16)
}

/// Checks a finished header: sums all ten words, checksum field included,
/// folds the carry, and reports whether the one's-complement sum is
/// `0xffff` (equivalently, whether its complement is zero).
pub fn verify_ipv4_checksum(bytes: &Vec<u8>) -> (r: bool)
    requires
        bytes@.len() == 20,
    ensures
        r == (fold16(sum_words(bytes@, 10)) == 0xffff),
{
    let mut sum: u32 = 0;
    let mut i: usize = 0;
    while i < 10
        invariant
            0 <= i <= 10,
            bytes@.len() == 20,
            sum == sum_words(bytes@, i as int),
            sum <= i * 0xffff,
        decreases 10 - i,
    {
        let word: u32 = (bytes[2 * i] as u32) * 256 + (bytes[2 * i + 1] as u32);
        sum = sum + word;
        i = i + 1;
    }
    let ghost total = sum_words(bytes@, 10);
    while sum > 0xffff
        invariant
            sum >= 0,
            fold16(sum as int) == fold16(total),
        decreases sum,
    {
        sum = sum % 0x10000 + sum / 0x10000;
    }
    proof {
        assert(fold16(sum as int) == sum as int);
    }
    sum == 0xffff
}

/// Determinism law: the checksum is a function of the header bytes alone,
/// so two runs over the same byte sequence yield the same result.
pub proof fn lemma_checksum_deterministic(b1: Seq<u8>, b2: Seq<u8>)
    requires
        b1 == b2,
    ensures
        spec_ipv4_checksum(b1) == spec_ipv4_checksum(b2),
{
}

/// Validation law: writing the computed checksum into the checksum field
/// makes the whole header sum (all ten words, carry folded) to `0xffff`,
/// whose one's complement is zero.
pub proof fn lemma_checksum_validation(b: Seq<u8>)
    requires
        b.len() == 20,
    ensures
        fold16(
            sum_words(
                b.update(10, crate::headers::u16_hi(spec_ipv4_checksum(b))).update(
                    11,
                    crate::headers::u16_lo(spec_ipv4_checksum(b)),
                ),
                10,
            ),
        ) == 0xffff,
{
    let zeroed = checksum_input(b);
    let s = sum_words(zeroed, 10);
    lemma_sum_words_bounds(zeroed, 10);
    lemma_fold16_bounds(s);
    let f = fold16(s);
    let c = spec_ipv4_checksum(b);
    assert(c == 0xffff - f);
    let patched = b.update(10, crate::headers::u16_hi(c)).update(11, crate::headers::u16_lo(c));
    // Word 5 of the patched header carries exactly the checksum value.
    assert(((c >> 8) & 0xff) < 256 && (c & 0xff) < 256 && ((c >> 8) & 0xff) * 256 + (c & 0xff)
        == c) by (bit_vector);
    assert(word_at(patched, 5) == c);
    // The patched header and the zeroed one differ only within word 5.
    lemma_sum_words_one_word_diff(patched, zeroed, 10, 5);
    assert(word_at(zeroed, 5) == 0);
    let t = sum_words(patched, 10);
    assert(t == s + c);
    // The full sum is a positive multiple of 0xffff, so it folds to 0xffff.
    if s >= 1 {
        lemma_fold16_exact(s);
        if s % 0xffff == 0 {
            assert(f == 0xffff);
            assert(t == s);
        } else {
            assert(f == s % 0xffff);
            assert(s == 0xffff * (s / 0xffff) + s % 0xffff);
            assert(t == 0xffff * (s / 0xffff) + 0xffff);
            assert(t == 0xffff * (s / 0xffff + 1)) by (nonlinear_arith)
                requires
                    t == 0xffff * (s / 0xffff) + 0xffff,
            ;
            lemma_mod_multiples_vanish(s / 0xffff + 1, 0, 0xffff);
        }
    } else {
        assert(s == 0 && f == 0 && c == 0xffff);
        assert(t == 0xffff);
    }
    assert(t % 0xffff == 0);
    assert(t >= 0xffff);
    lemma_fold16_exact(t);
}

} // verus!
