//! Decimal text of integers, and the human-readable byte sizes.
use vstd::prelude::*;
use vstd::arithmetic::power2::pow2;

verus! {

/// The ASCII digit for `d` (0 to 9).
pub open spec fn digit_char(d: int) -> char {
    if d == 0 {
        '0'
    } else if d == 1 {
        '1'
    } else if d == 2 {
        '2'
    } else if d == 3 {
        '3'
    } else if d == 4 {
        '4'
    } else if d == 5 {
        '5'
    } else if d == 6 {
        '6'
    } else if d == 7 {
        '7'
    } else if d == 8 {
        '8'
    } else {
        '9'
    }
}

/// The decimal digits of `n`, without leading zeros (`0` for zero).
pub open spec fn dec(n: nat) -> Seq<char>
    decreases n,
{
    if n < 10 {
        seq![digit_char(n as int)]
    } else {
        dec(n / 10).push(digit_char((n % 10) as int))
    }
}

/// The decimal digits of `n`, zero-padded to at least two (`{:02}`).
pub open spec fn dec2(n: nat) -> Seq<char> {
    if n < 10 {
        seq!['0'] + dec(n)
    } else {
        dec(n)
    }
}

fn digit(d: u64) -> (c: char)
    requires
        d < 10,
    ensures
        c == digit_char(d as int),
{
    if d == 0 {
        '0'
    } else if d == 1 {
        '1'
    } else if d == 2 {
        '2'
    } else if d == 3 {
        '3'
    } else if d == 4 {
        '4'
    } else if d == 5 {
        '5'
    } else if d == 6 {
        '6'
    } else if d == 7 {
        '7'
    } else if d == 8 {
        '8'
    } else {
        '9'
    }
}

/// Appends the decimal digits of `n` to `out`.
pub fn push_decimal(out: &mut Vec<char>, n: u64)
    ensures
        final(out)@ == old(out)@ + dec(n as nat),
    decreases n,
{
    if n >= 10 {
        push_decimal(out, n / 10);
    }
    out.push(digit(n % 10));
    assert(out@ =~= old(out)@ + dec(n as nat));
}

/// The decimal text of `n` (`n.to_string()`).
pub fn decimal_string(n: u64) -> (r: String)
    ensures
        r@ == dec(n as nat),
{
    let mut v: Vec<char> = Vec::new();
    push_decimal(&mut v, n);
    assert(v@ =~= dec(n as nat));
    crate::text::string_of(&v)
}

/// The decimal text of `n`, zero-padded to two digits (`format!("{:02}", n)`).
pub fn decimal2_string(n: u64) -> (r: String)
    ensures
        r@ == dec2(n as nat),
{
    let mut v: Vec<char> = Vec::new();
    if n < 10 {
        v.push('0');
    }
    push_decimal(&mut v, n);
    assert(v@ =~= dec2(n as nat));
    crate::text::string_of(&v)
}

/// Halving `q` until it fits in 53 bits, counting the halvings in `k`.
pub open spec fn float_parts(q: nat, k: nat) -> (nat, nat)
    decreases q,
{
    if q < 9007199254740992 {
        (q, k)
    } else {
        float_parts(q / 2, k + 1)
    }
}

/// `b` as the nearest value with a 53-bit significand, ties to even (`b as f64`).
pub open spec fn as_float(b: nat) -> nat {
    let (q, k) = float_parts(b, 0);
    if k == 0 {
        b
    } else {
        let r = b - q * pow2(k);
        let half = pow2((k - 1) as nat);
        if r > half || (r == half && q % 2 == 1) {
            ((q + 1) * pow2(k)) as nat
        } else {
            (q * pow2(k)) as nat
        }
    }
}

/// `n / d` rounded to the nearest integer, ties to even.
pub open spec fn round_half_even(n: nat, d: nat) -> nat {
    let q = n / d;
    let r = n % d;
    if 2 * r > d || (2 * r == d && q % 2 == 1) {
        q + 1
    } else {
        q
    }
}

/// The unit that `human_size` picks for a value: 0 for B up to 5 for PB.
pub open spec fn size_unit(f: nat) -> nat {
    if f < 1024 {
        0
    } else if f < 1048576 {
        1
    } else if f < 1073741824 {
        2
    } else if f < 1099511627776 {
        3
    } else if f < 1125899906842624 {
        4
    } else {
        5
    }
}

/// 1024 to the power `u`, for the units.
pub open spec fn unit_scale(u: nat) -> nat {
    if u == 0 {
        1
    } else if u == 1 {
        1024
    } else if u == 2 {
        1048576
    } else if u == 3 {
        1073741824
    } else if u == 4 {
        1099511627776
    } else {
        1125899906842624
    }
}

/// The name of a unit.
pub open spec fn unit_name(u: nat) -> Seq<char> {
    if u == 0 {
        "B"@
    } else if u == 1 {
        "KB"@
    } else if u == 2 {
        "MB"@
    } else if u == 3 {
        "GB"@
    } else if u == 4 {
        "TB"@
    } else {
        "PB"@
    }
}

/// The size in tenths of the chosen unit.
pub open spec fn size_tenths(bytes: nat) -> nat {
    let f = as_float(bytes);
    round_half_even(f * 10, unit_scale(size_unit(f)))
}

/// A byte count in the largest unit below 1024 of it, with one decimal.
pub open spec fn human_size_text(bytes: nat) -> Seq<char> {
    let t = size_tenths(bytes);
    dec(t / 10) + seq!['.', digit_char((t % 10) as int)] + unit_name(size_unit(as_float(bytes)))
}

proof fn lemma_halve(b: nat, q: nat, k: nat)
    requires
        q * pow2(k) <= b < (q + 1) * pow2(k),
    ensures
        (q / 2) * pow2(k + 1) <= b < (q / 2 + 1) * pow2(k + 1),
{
    vstd::arithmetic::power2::lemma_pow2_unfold(k + 1);
    let p = pow2(k);
    assert(pow2(k + 1) == 2 * p);
    assert((q / 2) * (2 * p) <= q * p) by (nonlinear_arith)
        requires
            p >= 0,
    ;
    assert((q + 1) * p <= (q / 2 + 1) * (2 * p)) by (nonlinear_arith)
        requires
            p >= 0,
    ;
}

/// `bytes` as the rounded float value that `bytes as f64` holds, exactly.
fn float_value(bytes: u64) -> (f: u128)
    ensures
        f == as_float(bytes as nat),
        f <= 18446744073709551616,
{
    let mut q: u128 = bytes as u128;
    let mut k: u32 = 0;
    let mut p: u128 = 1;
    proof {
        vstd::arithmetic::power2::lemma2_to64();
        vstd::arithmetic::power2::lemma2_to64_rest();
    }
    while q >= 9007199254740992
        invariant
            float_parts(q as nat, k as nat) == float_parts(bytes as nat, 0),
            p == pow2(k as nat),
            q * pow2(k as nat) <= bytes < (q + 1) * pow2(k as nat),
            k <= 11,
            q < pow2((64 - k) as nat),
            pow2(53) == 9007199254740992,
            pow2(11) == 2048,
        decreases q,
    {
        proof {
            if k >= 11 {
                assert(pow2((64 - k) as nat) == pow2(53));
            }
            vstd::arithmetic::power2::lemma_pow2_strictly_increases(k as nat, 11);
            lemma_halve(bytes as nat, q as nat, k as nat);
            vstd::arithmetic::power2::lemma_pow2_unfold((k + 1) as nat);
            vstd::arithmetic::power2::lemma_pow2_unfold((64 - k) as nat);
            vstd::arithmetic::power2::lemma_pow2_strictly_increases(53, (64 - k) as nat);
        }
        q = q / 2;
        k = k + 1;
        p = p * 2;
    }
    if k == 0 {
        return bytes as u128;
    }
    let r: u128 = bytes as u128 - q * p;
    let half: u128 = p / 2;
    proof {
        vstd::arithmetic::power2::lemma_pow2_unfold(k as nat);
        if k < 11 {
            vstd::arithmetic::power2::lemma_pow2_strictly_increases(k as nat, 11);
        }
        vstd::arithmetic::power2::lemma_pow2_adds((64 - k) as nat, k as nat);
        let a = q as int;
        let b = pow2((64 - k) as nat) as int;
        let c = p as int;
        assert((a + 1) * c <= b * c) by (nonlinear_arith)
            requires
                a + 1 <= b,
                c >= 0,
        ;
    }
    if r > half || (r == half && q % 2 == 1) {
        (q + 1) * p
    } else {
        q * p
    }
}

/// Formats a byte count in B, KB, MB, GB, TB or PB with one decimal, as a
/// float divided by 1024 per unit and rounded to one decimal place.
pub fn human_size(bytes: u64) -> (r: String)
    ensures
        r@ == human_size_text(bytes as nat),
{
    let f = float_value(bytes);
    let (u, scale, name): (u64, u128, &str) = if f < 1024 {
        (0, 1, "B")
    } else if f < 1048576 {
        (1, 1024, "KB")
    } else if f < 1073741824 {
        (2, 1048576, "MB")
    } else if f < 1099511627776 {
        (3, 1073741824, "GB")
    } else if f < 1125899906842624 {
        (4, 1099511627776, "TB")
    } else {
        (5, 1125899906842624, "PB")
    };
    let n: u128 = f * 10;
    let q: u128 = n / scale;
    let rem: u128 = n % scale;
    let t: u128 = if 2 * rem > scale || (2 * rem == scale && q % 2 == 1) {
        q + 1
    } else {
        q
    };
    assert(t == size_tenths(bytes as nat));
    assert(t <= 184467440737095516160 + 1);
    let whole: u64 = (t / 10) as u64;
    let tenth: u64 = (t % 10) as u64;
    let mut v: Vec<char> = Vec::new();
    push_decimal(&mut v, whole);
    v.push('.');
    v.push(digit(tenth));
    crate::text::append_str(&mut v, name);
    assert(v@ =~= human_size_text(bytes as nat));
    crate::text::string_of(&v)
}

} // verus!

verus! {

/// A count of bytes below 1024 is shown as itself in B with a zero decimal.
pub proof fn law_small_sizes_in_bytes(bytes: nat)
    requires
        bytes < 1024,
    ensures
        human_size_text(bytes) == dec(bytes) + ".0B"@,
{
    vstd::arithmetic::power2::lemma2_to64();
    vstd::arithmetic::power2::lemma2_to64_rest();
    assert(float_parts(bytes, 0) == (bytes, 0nat));
    assert(as_float(bytes) == bytes);
    assert(size_unit(bytes) == 0);
    assert(unit_scale(0) == 1);
    assert((bytes * 10) / 1 == bytes * 10);
    assert((bytes * 10) % 1 == 0);
    assert(size_tenths(bytes) == bytes * 10);
    assert((bytes * 10) / 10 == bytes);
    assert((bytes * 10) % 10 == 0);
    reveal_strlit(".0B");
    reveal_strlit("B");
    assert(human_size_text(bytes) =~= dec(bytes) + ".0B"@);
}

} // verus!
