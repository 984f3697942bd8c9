//! Bytes seen as eight flags, least significant bit first.
use vstd::prelude::*;

verus! {

/// `2` to the power `n`.
pub open spec fn two_pow(n: nat) -> nat
    decreases n,
{
    if n == 0 {
        1
    } else {
        2 * two_pow((n - 1) as nat)
    }
}

/// Bit `i` of `value` (bit 0 is the least significant one).
pub open spec fn bit_of(value: nat, i: nat) -> bool
    decreases i,
{
    if i == 0 {
        value % 2 == 1
    } else {
        bit_of(value / 2, (i - 1) as nat)
    }
}

/// The number whose bit `i` is `bits[i]`.
pub open spec fn pack(bits: Seq<bool>) -> nat
    decreases bits.len(),
{
    if bits.len() == 0 {
        0
    } else {
        (if bits[0] { 1nat } else { 0nat }) + 2 * pack(bits.skip(1))
    }
}

/// The first `n` bits of `value`.
pub open spec fn bits_of(value: nat, n: nat) -> Seq<bool> {
    Seq::new(n, |i: int| bit_of(value, i as nat))
}

/// Reading bit `i` of a packed sequence gives back its `i`-th flag.
pub proof fn lemma_bit_of_pack(bits: Seq<bool>, i: nat)
    requires
        i < bits.len(),
    ensures
        bit_of(pack(bits), i) == bits[i as int],
    decreases i,
{
    if i > 0 {
        lemma_bit_of_pack(bits.skip(1), (i - 1) as nat);
    }
}

/// Packing the first `n` bits of a number below `2^n` gives the number back.
pub proof fn lemma_pack_bits_of(value: nat, n: nat)
    requires
        value < two_pow(n),
    ensures
        pack(bits_of(value, n)) == value,
    decreases n,
{
    if n > 0 {
        lemma_pack_bits_of(value / 2, (n - 1) as nat);
        assert(bits_of(value, n).skip(1) =~= bits_of(value / 2, (n - 1) as nat)) by {
            assert forall|k: int| 0 <= k < n - 1 implies #[trigger] bits_of(value, n).skip(1)[k]
                == bits_of(value / 2, (n - 1) as nat)[k] by {
                assert(bit_of(value, (k + 1) as nat) == bit_of(value / 2, k as nat));
            }
        }
    }
}

/// Reads bit `i` of `value`.
pub fn get_bit(value: u8, i: u8) -> (r: bool)
    requires
        i < 8,
    ensures
        r == bit_of(value as nat, i as nat),
{
    let mut rest: u8 = value;
    let mut k: u8 = 0;
    while k < i
        invariant
            k <= i,
            bit_of(value as nat, i as nat) == bit_of(rest as nat, (i - k) as nat),
        decreases i - k,
    {
        rest = rest / 2;
        k = k + 1;
    }
    rest % 2 == 1
}

/// Packs eight flags into a byte, `bits[i]` going to bit `i`.
pub fn pack_byte(bits: &[bool; 8]) -> (r: u8)
    ensures
        r as nat == pack(bits@),
{
    let mut value: u8 = 0;
    let mut i: usize = 8;
    proof {
        assert(bits@.subrange(8, 8) =~= Seq::<bool>::empty());
    }
    while i > 0
        invariant
            i <= 8,
            value as nat == pack(bits@.subrange(i as int, 8)),
            value < two_pow((8 - i) as nat),
        decreases i,
    {
        let ghost rest = bits@.subrange(i as int, 8);
        i = i - 1;
        assert(bits@.subrange(i as int, 8).skip(1) =~= rest);
        proof {
            assert(two_pow((8 - i) as nat) == 2 * two_pow((8 - i - 1) as nat));
            lemma_two_pow_8();
            lemma_two_pow_monotone((8 - i) as nat, 8);
        }
        value = (if bits[i] { 1u8 } else { 0u8 }) + 2 * value;
    }
    assert(bits@.subrange(0, 8) =~= bits@);
    value
}

pub proof fn lemma_two_pow_8()
    ensures
        two_pow(8) == 256,
{
    reveal_with_fuel(two_pow, 9);
}

pub proof fn lemma_two_pow_monotone(a: nat, b: nat)
    requires
        a <= b,
    ensures
        two_pow(a) <= two_pow(b),
    decreases b,
{
    if a < b {
        lemma_two_pow_monotone(a, (b - 1) as nat);
    }
}

} // verus!
