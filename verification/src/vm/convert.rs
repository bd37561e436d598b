use vstd::prelude::*;

verus! {

// The numeric conversions of the instruction set. Narrowing conversions
// truncate to the target width exactly as the two's-complement cast does;
// the two int-to-float conversions are computed as the IEEE-754 bit
// pattern of the converted value, in plain integer arithmetic.

/// Two to the power `n`.
pub open spec fn sp_pow2(n: nat) -> nat
    decreases n,
{
    if n == 0 {
        1
    } else {
        2 * sp_pow2((n - 1) as nat)
    }
}

/// The position of the highest set bit: the floor of the base-two logarithm.
pub open spec fn sp_log2(n: nat) -> nat
    decreases n,
{
    if n < 2 {
        0
    } else {
        1 + sp_log2(n / 2)
    }
}

/// The magnitude of a 32-bit integer.
pub open spec fn sp_abs_i32(v: i32) -> nat {
    if v < 0 {
        (-(v as int)) as nat
    } else {
        v as nat
    }
}

/// Narrowing to a byte: the low eight bits, read as a signed byte.
pub open spec fn sp_i2b(v: i32) -> i8 {
    v as i8
}

/// Narrowing to a char: the low sixteen bits, read unsigned.
pub open spec fn sp_i2c(v: i32) -> u16 {
    v as u16
}

/// Narrowing to a short: the low sixteen bits, read as a signed short.
pub open spec fn sp_i2s(v: i32) -> i16 {
    v as i16
}

/// Widening to a long: sign extension, always exact.
pub open spec fn sp_i2l(v: i32) -> i64 {
    v as i64
}

/// What the byte narrowing keeps: the low eight bits agree with the source.
pub proof fn lemma_i2b_low_bits(v: i32)
    ensures
        (sp_i2b(v) as i32) & 0xff == v & 0xff,
{
    assert((((v as i8) as i32) & 0xff) == v & 0xff) by (bit_vector);
}

/// What the char narrowing keeps: the result is exactly the low sixteen
/// bits of the source, read unsigned.
pub proof fn lemma_i2c_low_bits(v: i32)
    ensures
        (sp_i2c(v) as i32) == v & 0xffff,
{
    assert((((v as u16) as i32)) == v & 0xffff) by (bit_vector);
}

/// What the short narrowing keeps: the low sixteen bits agree.
pub proof fn lemma_i2s_low_bits(v: i32)
    ensures
        (sp_i2s(v) as i32) & 0xffff == v & 0xffff,
{
    assert((((v as i16) as i32) & 0xffff) == v & 0xffff) by (bit_vector);
}

/// The widening to a long never changes the value.
pub proof fn lemma_i2l_exact(v: i32)
    ensures
        sp_i2l(v) as int == v as int,
{
}

/// Rounding a magnitude down by `extra` bits, to nearest and ties to even.
pub open spec fn sp_round_even(m: nat, extra: nat) -> nat {
    let base = m / sp_pow2(extra);
    let rem = m % sp_pow2(extra);
    let half = sp_pow2((extra - 1) as nat);
    if rem > half || (rem == half && base % 2 == 1) {
        base + 1
    } else {
        base
    }
}

/// The IEEE-754 double-precision bit pattern of a 32-bit integer: sign bit,
/// biased exponent, and the magnitude scaled into the 52-bit fraction. Every
/// 32-bit integer is exactly representable, so no rounding happens.
pub open spec fn sp_i2d_bits(v: i32) -> u64 {
    if v == 0 {
        0
    } else {
        let sign: int = if v < 0 { 0x8000000000000000 } else { 0 };
        let m = sp_abs_i32(v);
        let e = sp_log2(m);
        (sign + (e + 1023) * 0x10000000000000 + (m * sp_pow2((52 - e) as nat)
            - 0x10000000000000)) as u64
    }
}

/// The IEEE-754 single-precision bit pattern of a 32-bit integer: as for the
/// double encoding, except that a magnitude wider than 24 bits is rounded to
/// nearest, ties to even, possibly carrying into the exponent.
pub open spec fn sp_i2f_bits(v: i32) -> u32 {
    if v == 0 {
        0
    } else {
        let sign: int = if v < 0 { 0x80000000 } else { 0 };
        let m = sp_abs_i32(v);
        let e = sp_log2(m);
        if e <= 23 {
            (sign + (e + 127) * 0x800000 + (m * sp_pow2((23 - e) as nat) - 0x800000)) as u32
        } else {
            let r = sp_round_even(m, (e - 23) as nat);
            if r == 0x1000000 {
                (sign + (e + 1 + 127) * 0x800000) as u32
            } else {
                (sign + (e + 127) * 0x800000 + (r - 0x800000)) as u32
            }
        }
    }
}

proof fn lemma_pow2_adds(a: nat, b: nat)
    ensures
        sp_pow2(a + b) == sp_pow2(a) * sp_pow2(b),
    decreases a,
{
    if a > 0 {
        lemma_pow2_adds((a - 1) as nat, b);
        let x = sp_pow2((a - 1) as nat);
        let y = sp_pow2(b);
        assert(sp_pow2(a + b) == 2 * sp_pow2((a + b - 1) as nat));
        assert(sp_pow2((a + b - 1) as nat) == x * y);
        assert(2 * (x * y) == (2 * x) * y) by (nonlinear_arith);
        assert(sp_pow2(a) == 2 * x);
    } else {
        assert(sp_pow2(0) == 1);
        assert(1 * sp_pow2(b) == sp_pow2(b)) by (nonlinear_arith);
    }
}

proof fn lemma_log2_of_range(m: nat, e: nat)
    requires
        sp_pow2(e) <= m < 2 * sp_pow2(e),
    ensures
        sp_log2(m) == e,
    decreases e,
{
    if e == 0 {
    } else {
        lemma_log2_of_range(m / 2, (e - 1) as nat);
    }
}

/// Narrows to a byte, keeping the low eight bits.
pub fn i2b_val(v: i32) -> (r: i8)
    ensures
        r == sp_i2b(v),
{
    #[verifier::truncate] (v as i8)
}

/// Narrows to a char, keeping the low sixteen bits unsigned.
pub fn i2c_val(v: i32) -> (r: u16)
    ensures
        r == sp_i2c(v),
{
    #[verifier::truncate] (v as u16)
}

/// Narrows to a short, keeping the low sixteen bits signed.
pub fn i2s_val(v: i32) -> (r: i16)
    ensures
        r == sp_i2s(v),
{
    #[verifier::truncate] (v as i16)
}

/// Widens to a long by sign extension.
pub fn i2l_val(v: i32) -> (r: i64)
    ensures
        r == sp_i2l(v),
{
    v as i64
}

/// The magnitude of `v`, and ghost knowledge of where its top bit sits.
fn abs_and_split(v: i32) -> (r: u64)
    requires
        v != 0,
    ensures
        r == sp_abs_i32(v),
        1 <= r <= 0x80000000,
{
    if v < 0 {
        (-(v as i64)) as u64
    } else {
        v as u64
    }
}

/// Finds the floor base-two logarithm of a nonzero magnitude.
fn log2_of(m: u64) -> (e: u64)
    requires
        1 <= m <= 0x80000000,
    ensures
        e == sp_log2(m as nat),
        e <= 31,
        sp_pow2(e as nat) <= m < 2 * sp_pow2(e as nat),
{
    let mut e: u64 = 0;
    let mut p: u64 = 1;
    while m >= 2 * p
        invariant
            p == sp_pow2(e as nat),
            p <= m,
            m <= 0x80000000,
            p <= 0x80000000,
            p >= 1,
            e <= 31,
        decreases m - p,
    {
        proof {
            if e == 31 {
                proof_pow2_31();
            }
        }
        p = 2 * p;
        e = e + 1;
    }
    proof {
        lemma_log2_of_range(m as nat, e as nat);
    }
    e
}

proof fn proof_pow2_31()
    ensures
        sp_pow2(31) == 0x80000000,
{
    reveal_with_fuel(sp_pow2, 32);
}

proof fn proof_pow2_53()
    ensures
        sp_pow2(53) == 0x20000000000000,
{
    reveal_with_fuel(sp_pow2, 54);
}

/// Scales `m` up by `2^shift`, staying below two to the `cap`.
fn shift_up(m: u64, shift: u64, Ghost(cap): Ghost<nat>) -> (q: u64)

    requires
        m < sp_pow2((cap - shift) as nat),
        shift <= cap,
        cap <= 63,
        sp_pow2(cap as nat) <= u64::MAX,
    ensures
        q == m * sp_pow2(shift as nat),
        q < sp_pow2(cap as nat),
{
    let mut q: u64 = m;
    let mut i: u64 = 0;
    proof {
        assert(sp_pow2(0) == 1);
        assert(m * sp_pow2(0) == m) by (nonlinear_arith)
            requires
                sp_pow2(0) == 1,
        ;
    }
    while i < shift
        invariant
            q == m * sp_pow2(i as nat),
            i <= shift,
            q < sp_pow2(((cap - shift) + i) as nat),
            shift <= cap,
            cap <= 63,
            sp_pow2(cap as nat) <= u64::MAX,
            m < sp_pow2((cap - shift) as nat),
        decreases shift - i,
    {
        proof {
            lemma_pow2_mono(((cap - shift) + i + 1) as nat, cap as nat);
            assert(2 * (m * sp_pow2(i as nat)) == m * (2 * sp_pow2(i as nat)))
                by (nonlinear_arith);
            assert(m * (2 * sp_pow2(i as nat)) == m * sp_pow2((i + 1) as nat));
        }
        q = 2 * q;
        i = i + 1;
    }
    proof {
        lemma_pow2_mono(((cap - shift) + i) as nat, cap as nat);
    }
    q
}

proof fn lemma_pow2_mono(a: nat, b: nat)
    requires
        a <= b,
    ensures
        sp_pow2(a) <= sp_pow2(b),
    decreases b,
{
    if a < b && b > 0 {
        lemma_pow2_mono(a, (b - 1) as nat);
    }
}

/// The double-precision bit pattern of `v` converted to a float: every
/// 32-bit integer converts exactly.
pub fn i2d_bits(v: i32) -> (r: u64)
    ensures
        r == sp_i2d_bits(v),
{
    if v == 0 {
        return 0;
    }
    let m = abs_and_split(v);
    let e = log2_of(m);
    proof {
        proof_pow2_53();
        lemma_pow2_mono((e + 1) as nat, 32);
        reveal_with_fuel(sp_pow2, 33);
        lemma_pow2_adds(e as nat, (52 - e) as nat);
        lemma_pow2_mono((52 - e) as nat, 52);
        reveal_with_fuel(sp_pow2, 54);
    }
    let q = shift_up(m, 52 - e, Ghost(53nat));
    proof {
        assert(q >= 0x10000000000000) by {
            lemma_pow2_adds(e as nat, (52 - e) as nat);
            assert(m * sp_pow2((52 - e) as nat) >= sp_pow2(e as nat) * sp_pow2((52 - e) as nat))
                by (nonlinear_arith)
                requires
                    m >= sp_pow2(e as nat),
                    sp_pow2((52 - e) as nat) >= 0,
            ;
            assert(sp_pow2(52) == 0x10000000000000) by {
                reveal_with_fuel(sp_pow2, 53);
            }
        }
        assert(q < 0x20000000000000) by {
            proof_pow2_53();
        }
    }
    let sign: u64 = if v < 0 {
        0x8000000000000000
    } else {
        0
    };
    sign + (e + 1023) * 0x10000000000000 + (q - 0x10000000000000)
}

/// The single-precision bit pattern of `v` converted to a float: magnitudes
/// wider than 24 bits round to nearest, ties to even.
#[verifier::rlimit(100)]
#[verifier::spinoff_prover]
pub fn i2f_bits(v: i32) -> (r: u32)
    ensures
        r == sp_i2f_bits(v),
{
    if v == 0 {
        return 0;
    }
    let m = abs_and_split(v);
    let e = log2_of(m);
    let sign: u32 = if v < 0 {
        0x80000000
    } else {
        0
    };
    if e <= 23 {
        proof {
            lemma_pow2_adds(e as nat, (23 - e) as nat);
            lemma_pow2_mono((e + 1) as nat, 32);
            reveal_with_fuel(sp_pow2, 33);
            lemma_pow2_mono((23 - e) as nat, 23);
            reveal_with_fuel(sp_pow2, 25);
        }
        let q = shift_up(m, 23 - e, Ghost(24nat));
        proof {
            assert(q >= 0x800000) by {
                lemma_pow2_adds(e as nat, (23 - e) as nat);
                assert(m * sp_pow2((23 - e) as nat) >= sp_pow2(e as nat) * sp_pow2(
                    (23 - e) as nat,
                )) by (nonlinear_arith)
                    requires
                        m >= sp_pow2(e as nat),
                        sp_pow2((23 - e) as nat) >= 0,
                ;
                assert(sp_pow2(23) == 0x800000) by {
                    reveal_with_fuel(sp_pow2, 24);
                }
            }
            assert(q < 0x1000000) by {
                reveal_with_fuel(sp_pow2, 25);
            }
        }
        sign + ((e as u32) + 127) * 0x800000 + ((q as u32) - 0x800000)
    } else {
        let r0 = i2f_round(m, e);
        if r0 == 0x1000000 {
            sign + ((e as u32) + 1 + 127) * 0x800000
        } else {
            sign + ((e as u32) + 127) * 0x800000 + ((r0 as u32) - 0x800000)
        }
    }
}

/// Drops the magnitude's excess low bits, rounding to nearest, ties to even.
fn i2f_round(m: u64, e: u64) -> (r: u64)
    requires
        sp_pow2(e as nat) <= m < 2 * sp_pow2(e as nat),
        23 < e <= 31,
        m <= 0x80000000,
    ensures
        r == sp_round_even(m as nat, (e - 23) as nat),
        0x800000 <= r <= 0x1000000,
{
    let extra = e - 23;
    let mut pextra: u64 = 1;
    let mut i: u64 = 0;
    while i < extra
        invariant
            pextra == sp_pow2(i as nat),
            i <= extra,
            extra <= 8,
            1 <= pextra <= 0x100,
        decreases extra - i,
    {
        proof {
            lemma_pow2_mono((i + 1) as nat, 8);
            reveal_with_fuel(sp_pow2, 9);
        }
        pextra = 2 * pextra;
        i = i + 1;
    }
    let base = m / pextra;
    let rem = m % pextra;
    let half = pextra / 2;
    proof {
        assert(pextra == 2 * sp_pow2((extra - 1) as nat));
        assert(half == sp_pow2((extra - 1) as nat));
        lemma_div_in_window(m as nat, e as nat, extra as nat);
    }
    if rem > half || (rem == half && base % 2 == 1) {
        base + 1
    } else {
        base
    }
}

proof fn lemma_div_in_window(m: nat, e: nat, extra: nat)
    requires
        sp_pow2(e) <= m < 2 * sp_pow2(e),
        e <= 31,
        extra == e - 23,
        e > 23,
    ensures
        0x800000 <= m / sp_pow2(extra) < 0x1000000,
{
    lemma_pow2_adds(23, extra);
    lemma_pow2_adds(24, extra);
    assert(sp_pow2(23) == 0x800000) by {
        reveal_with_fuel(sp_pow2, 24);
    }
    assert(sp_pow2(24) == 0x1000000) by {
        reveal_with_fuel(sp_pow2, 25);
    }
    assert(sp_pow2(e) == sp_pow2(23) * sp_pow2(extra));
    assert(2 * sp_pow2(e) == 2 * (sp_pow2(23) * sp_pow2(extra)));
    assert(m / sp_pow2(extra) >= 0x800000) by (nonlinear_arith)
        requires
            m >= 0x800000 * sp_pow2(extra),
            sp_pow2(extra) > 0,
    ;
    assert(m / sp_pow2(extra) < 0x1000000) by (nonlinear_arith)
        requires
            m < 0x1000000 * sp_pow2(extra),
            sp_pow2(extra) > 0,
    ;
}

} // verus!
