use vstd::arithmetic::power2::{lemma2_to64, lemma_pow2_pos, lemma_pow2_unfold, pow2};
use vstd::prelude::*;

verus! {

/// `val` is two to the power of some natural number.
pub open spec fn power_of_two(val: int) -> bool {
    exists|k: nat| val == #[trigger] pow2(k)
}

/// The powers of two are the numbers with exactly one bit set.
proof fn lemma_one_bit(val: u32)
    ensures
        (val != 0 && val & ((val - 1) as u32) == 0) == power_of_two(val as int),
    decreases val,
{
    if val == 0 {
        assert forall|k: nat| 0 != #[trigger] pow2(k) by {
            lemma_pow2_pos(k);
        }
    } else if val == 1 {
        lemma2_to64();
        assert(val == pow2(0));
        assert(1u32 & 0u32 == 0) by (bit_vector);
    } else {
        let half = val / 2;
        assert forall|k: nat| val == #[trigger] pow2(k) implies val % 2 == 0 && power_of_two(
            half as int,
        ) by {
            lemma2_to64();
            lemma_pow2_unfold(k);
            assert(half == pow2((k - 1) as nat));
        }
        if val % 2 == 0 {
            lemma_one_bit(half);
            assert((val & ((val - 1) as u32) == 0) == (half & ((half - 1) as u32) == 0))
                by (bit_vector)
                requires
                    half == val / 2,
                    val % 2 == 0,
                    val != 0,
            ;
            assert forall|k: nat| half == #[trigger] pow2(k) implies power_of_two(val as int) by {
                lemma_pow2_unfold(k + 1);
                assert(val == pow2(k + 1));
            }
        } else {
            assert(val & ((val - 1) as u32) != 0) by (bit_vector)
                requires
                    val % 2 == 1,
                    val > 1,
            ;
        }
    }
}

/// One is a power of two and zero is not. Doubling a number does not change whether it is one, and no
/// odd number but one is.
pub proof fn law_powers_of_two(val: nat)
    ensures
        power_of_two(1),
        !power_of_two(0),
        power_of_two(2 * val as int) == power_of_two(val as int),
        val % 2 == 1 && power_of_two(val as int) ==> val == 1,
{
    lemma2_to64();
    assert(pow2(0) == 1);
    assert forall|k: nat| 0 != #[trigger] pow2(k) by {
        lemma_pow2_pos(k);
    }
    assert forall|k: nat| val == #[trigger] pow2(k) implies power_of_two(2 * val as int) by {
        lemma_pow2_unfold(k + 1);
        assert(2 * val == pow2(k + 1));
    }
    assert forall|k: nat| 2 * val == #[trigger] pow2(k) implies power_of_two(val as int) by {
        lemma_pow2_unfold(k);
        assert(val == pow2((k - 1) as nat));
    }
    assert forall|k: nat| val == #[trigger] pow2(k) implies val % 2 == 0 || val == 1 by {
        if k > 0 {
            lemma_pow2_unfold(k);
        }
    }
}

/// Tells whether `val` is a power of two. Zero is not.
pub fn is_pow_of_two(val: u32) -> (r: bool)
    ensures
        r == power_of_two(val as int),
        r == exists|k: nat| val == #[trigger] pow2(k),
{
    proof {
        lemma_one_bit(val);
    }
    val != 0 && val & (val - 1) == 0
}

/// The smaller of two numbers.
pub open spec fn spec_min(a: int, b: int) -> int {
    if a <= b {
        a
    } else {
        b
    }
}

/// The smaller of two numbers is at most either of them, and is one of them.
pub proof fn law_min(a: int, b: int)
    ensures
        spec_min(a, b) <= a,
        spec_min(a, b) <= b,
        spec_min(a, b) == a || spec_min(a, b) == b,
{
}

/// The smaller of two numbers.
pub fn min(a: usize, b: usize) -> (r: usize)
    ensures
        r == spec_min(a as int, b as int),
        r <= a,
        r <= b,
        r == a || r == b,
{
    if a <= b {
        a
    } else {
        b
    }
}

/// A decimal digit.
pub open spec fn digit(d: nat) -> char
    recommends
        d < 10,
{
    ('0' as int + d) as char
}

/// A number in decimal notation, without leading zeros.
pub open spec fn decimal(n: nat) -> Seq<char>
    decreases n,
{
    if n < 10 {
        seq![digit(n)]
    } else {
        decimal(n / 10).push(digit(n % 10))
    }
}

/// Appends a number in decimal notation.
pub fn append_decimal(text: &mut String, n: u64)
    ensures
        final(text)@ == old(text)@ + decimal(n as nat),
    decreases n,
{
    if n >= 10 {
        append_decimal(text, n / 10);
    }
    let d: &str = match n % 10 {
        0 => "0",
        1 => "1",
        2 => "2",
        3 => "3",
        4 => "4",
        5 => "5",
        6 => "6",
        7 => "7",
        8 => "8",
        _ => "9",
    };
    proof {
        reveal_strlit("0");
        reveal_strlit("1");
        reveal_strlit("2");
        reveal_strlit("3");
        reveal_strlit("4");
        reveal_strlit("5");
        reveal_strlit("6");
        reveal_strlit("7");
        reveal_strlit("8");
        reveal_strlit("9");
        assert(d@ == seq![digit((n % 10) as nat)]);
    }
    text.append(d);
}

/// In decimal notation the last character is the digit for the ones, and what is in front of it is the
/// notation of the tens, if there are any.
pub proof fn law_decimal(n: nat)
    ensures
        decimal(n).len() >= 1,
        decimal(n).last() as int == '0' as int + n % 10,
        n < 10 ==> decimal(n).len() == 1,
        n >= 10 ==> decimal(n).drop_last() == decimal(n / 10),
{
    if n >= 10 {
        assert(decimal(n).drop_last() == decimal(n / 10));
    }
}

}
