use vstd::prelude::*;

verus! {

/// Quantities (amps, percent, volts, watts) are held in thousandths of their unit.
/// `round_to_half` moves a reading up to the next half unit once it is at least a
/// tenth past a half unit, and down otherwise; anything below -0.4 becomes 0.
pub open spec fn spec_round_to_half(milli: int) -> int {
    if milli + 400 < 0 {
        0
    } else {
        ((milli + 400) / 500) * 500
    }
}

/// Rounds an AC current limit (in thousandths of an amp) to a half amp.
pub fn round_to_half(milli: i64) -> (r: i64)
    requires
        milli <= i64::MAX - 400,
    ensures
        r == spec_round_to_half(milli as int),
{
    if milli < -400 {
        0
    } else {
        let shifted: i64 = milli + 400;
        (shifted / 500) * 500
    }
}

} // verus!

verus! {

/// The character of a decimal digit.
pub open spec fn digit_char(d: nat) -> char {
    if d == 0 { '0' }
    else if d == 1 { '1' }
    else if d == 2 { '2' }
    else if d == 3 { '3' }
    else if d == 4 { '4' }
    else if d == 5 { '5' }
    else if d == 6 { '6' }
    else if d == 7 { '7' }
    else if d == 8 { '8' }
    else { '9' }
}

/// The decimal representation of a natural number, without leading zeros.
pub open spec fn decimal_digits(n: nat) -> Seq<char>
    decreases n,
{
    if n < 10 {
        seq![digit_char(n)]
    } else {
        decimal_digits(n / 10).push(digit_char(n % 10))
    }
}

fn digit_str(d: u64) -> (s: &'static str)
    requires
        d < 10,
    ensures
        s@ == seq![digit_char(d as nat)],
{
    proof {
        reveal_strlit("0");
        reveal_strlit("1");
        reveal_strlit("2");
        reveal_strlit("3");
        reveal_strlit("4");
        reveal_strlit("5");
        reveal_strlit("6");
        reveal_strlit("7");
        reveal_strlit("8");
        reveal_strlit("9");
    }
    if d == 0 { "0" }
    else if d == 1 { "1" }
    else if d == 2 { "2" }
    else if d == 3 { "3" }
    else if d == 4 { "4" }
    else if d == 5 { "5" }
    else if d == 6 { "6" }
    else if d == 7 { "7" }
    else if d == 8 { "8" }
    else { "9" }
}

/// Appends the decimal digits of `n` to `s`.
pub fn push_decimal(s: &mut String, n: u64)
    ensures
        final(s)@ == old(s)@ + decimal_digits(n as nat),
    decreases n,
{
    if n >= 10 {
        push_decimal(s, n / 10);
        s.append(digit_str(n % 10));
        assert(decimal_digits(n as nat) == decimal_digits((n / 10) as nat).push(
            digit_char((n % 10) as nat),
        ));
        assert(s@ =~= old(s)@ + decimal_digits(n as nat));
    } else {
        s.append(digit_str(n));
    }
}

} // verus!

verus! {

/// Rounding to a half unit is idempotent: a limit that is already rounded stays as it is.
pub proof fn lemma_round_to_half_idempotent(milli: int)
    ensures
        spec_round_to_half(spec_round_to_half(milli)) == spec_round_to_half(milli),
{
    let r = spec_round_to_half(milli);
    if milli + 400 >= 0 {
        let q = (milli + 400) / 500;
        assert(q >= 0);
        assert(r == q * 500);
        assert((q * 500 + 400) / 500 == q) by (nonlinear_arith)
            requires q >= 0;
    }
}

/// The rounded value is a non-negative whole number of half units, and no
/// reading at or below zero gives more than zero.
pub proof fn lemma_round_to_half_is_half_multiple(milli: int)
    ensures
        spec_round_to_half(milli) >= 0,
        spec_round_to_half(milli) % 500 == 0,
        milli <= 0 ==> spec_round_to_half(milli) == 0,
{
    if milli + 400 >= 0 {
        let q = (milli + 400) / 500;
        assert((q * 500) % 500 == 0) by (nonlinear_arith);
        assert(q * 500 >= 0) by (nonlinear_arith)
            requires q >= 0;
    }
}

/// Rounding keeps the order of readings.
pub proof fn lemma_round_to_half_monotone(a: int, b: int)
    requires
        a <= b,
    ensures
        spec_round_to_half(a) <= spec_round_to_half(b),
{
    if a + 400 >= 0 {
        let qa = (a + 400) / 500;
        let qb = (b + 400) / 500;
        assert(qa <= qb) by (nonlinear_arith)
            requires a + 400 <= b + 400, a + 400 >= 0, qa == (a + 400) / 500, qb == (b + 400) / 500;
        assert(qa * 500 <= qb * 500) by (nonlinear_arith)
            requires qa <= qb;
    } else {
        lemma_round_to_half_is_half_multiple(b);
    }
}

/// For readings of at least -0.4, the rounded value lies less than a tenth below
/// the reading and at most 0.4 above it.
pub proof fn lemma_round_to_half_close(milli: int)
    requires
        milli + 400 >= 0,
    ensures
        milli - 100 < spec_round_to_half(milli) <= milli + 400,
{
}

} // verus!
