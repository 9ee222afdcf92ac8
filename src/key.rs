//! Fixed-width textual keys: decimal digits, least significant first, padded
//! with `'A'`.
use vstd::prelude::*;

verus! {

/// The ASCII decimal digits of `k`, least significant digit first.
pub open spec fn digits(k: nat) -> Seq<u8>
    decreases k,
{
    seq![(48 + k % 10) as u8] + if k / 10 == 0 {
        Seq::<u8>::empty()
    } else {
        digits(k / 10)
    }
}

/// The digits of `k` still to be written once the lower ones are out: none
/// when `k` is zero.
pub open spec fn pending_digits(k: nat) -> Seq<u8> {
    if k == 0 {
        Seq::<u8>::empty()
    } else {
        digits(k)
    }
}

/// The key for identifier `k` at width `size`: its digits, then `'A'` up to
/// `size` bytes (no padding where the digits already reach `size`).
pub open spec fn key_bytes(k: nat, size: nat) -> Seq<u8> {
    let d = digits(k);
    d + Seq::new(if size > d.len() { (size - d.len()) as nat } else { 0 }, |i: int| 65u8)
}

/// Ten to the power `n`.
pub open spec fn pow10(n: nat) -> nat
    decreases n,
{
    if n == 0 {
        1
    } else {
        10 * pow10((n - 1) as nat)
    }
}

/// A number below `10^n` (for `n >= 1`) has at most `n` digits.
pub proof fn lemma_digits_len(k: nat, n: nat)
    requires
        n >= 1,
        k < pow10(n),
    ensures
        1 <= digits(k).len() <= n,
    decreases k,
{
    if k / 10 != 0 {
        if n == 1 {
            assert(pow10(0) == 1);
        } else {
            let q = pow10((n - 1) as nat);
            assert(k / 10 < q) by (nonlinear_arith)
                requires
                    k < 10 * q,
            ;
            lemma_digits_len(k / 10, (n - 1) as nat);
        }
    }
}

/// Every `u64` has at most twenty decimal digits.
pub proof fn lemma_u64_digits(k: u64)
    ensures
        1 <= digits(k as nat).len() <= 20,
{
    reveal_with_fuel(pow10, 21);
    assert(pow10(20) == 100000000000000000000nat);
    lemma_digits_len(k as nat, 20);
}

/// The key encoding is a function of the identifier and the width alone, and it
/// is exactly `size` bytes long whenever `size` covers the digits.
pub proof fn lemma_key_bytes_deterministic(k1: nat, s1: nat, k2: nat, s2: nat)
    ensures
        k1 == k2 && s1 == s2 ==> key_bytes(k1, s1) == key_bytes(k2, s2),
        s1 >= digits(k1).len() ==> key_bytes(k1, s1).len() == s1,
{
}

/// Appends the key for identifier `key` at width `key_size` to `buf`.
pub fn write_key(buf: &mut Vec<u8>, key: u64, key_size: usize)
    ensures
        final(buf)@ == old(buf)@ + key_bytes(key as nat, key_size as nat),
{
    proof {
        lemma_u64_digits(key);
    }
    let ghost all = digits(key as nat);
    buf.push(48 + (key % 10) as u8);
    let mut k: u64 = key / 10;
    let mut pushed: usize = 1;
    assert(all == seq![(48 + key % 10) as u8] + pending_digits(k as nat));
    assert(old(buf)@ + all == buf@ + pending_digits(k as nat));
    while k != 0
        invariant
            old(buf)@ + all == buf@ + pending_digits(k as nat),
            pushed + pending_digits(k as nat).len() == all.len(),
            all.len() <= 20,
            all == digits(key as nat),
        decreases k,
    {
        let ghost before = buf@;
        let d: u8 = 48 + (k % 10) as u8;
        buf.push(d);
        assert(pending_digits(k as nat) == seq![d] + pending_digits((k / 10) as nat));
        assert(before + pending_digits(k as nat) == buf@ + pending_digits((k / 10) as nat));
        k = k / 10;
        pushed = pushed + 1;
    }
    assert(buf@ == old(buf)@ + all);
    let ghost start = buf@;
    let mut j: usize = pushed;
    while j < key_size
        invariant
            pushed == all.len(),
            pushed <= j,
            j <= key_size || j == pushed,
            buf@ == start + Seq::new((j - pushed) as nat, |i: int| 65u8),
        decreases key_size - j,
    {
        buf.push(65);
        assert(buf@ =~= start + Seq::new((j + 1 - pushed) as nat, |i: int| 65u8));
        j = j + 1;
    }
    assert(buf@ =~= old(buf)@ + key_bytes(key as nat, key_size as nat));
}

} // verus!
