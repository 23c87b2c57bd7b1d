//! How a number in decimal digits compares with a fraction, by what both are worth.

use vstd::arithmetic::mul::{
    lemma_mul_is_associative, lemma_mul_is_commutative, lemma_mul_is_distributive_add,
    lemma_mul_is_distributive_add_other_way, lemma_mul_is_distributive_sub_other_way,
};
use vstd::prelude::*;

use crate::lookup::{control, DASH, HIGH_SHARE, LOW_SHARE};
use crate::number::{
    exponent_at, exponent_value, fraction_below, is_exponent, is_mantissa, is_real_text, is_sign,
    leading_digits, leading_zeros, magnitude, mantissa_digits, mantissa_end, point_at, significant,
    unsigned_part, writes_below,
};
use crate::text::{all_digits, digits_value, is_digit, lower};

verus! {

/// A power of ten.
pub open spec fn tens(k: nat) -> int
    decreases k,
{
    if k == 0 {
        1
    } else {
        10 * tens((k - 1) as nat)
    }
}

proof fn tens_grow(k: nat)
    ensures
        tens(k) >= 1,
    decreases k,
{
    if k > 0 {
        tens_grow((k - 1) as nat);
    }
}

proof fn tens_add(a: nat, b: nat)
    ensures
        tens(a + b) == tens(a) * tens(b),
    decreases a,
{
    if a > 0 {
        tens_add((a - 1) as nat, b);
        assert(a + b - 1 == (a - 1) + b);
        assert(10 * (tens((a - 1) as nat) * tens(b)) == (10 * tens((a - 1) as nat)) * tens(b))
            by (nonlinear_arith);
    }
}

/// What a digit is worth.
pub open spec fn worth(c: char) -> int {
    (c as u32) - 48
}

#[verifier::spinoff_prover]
proof fn the_first_digit_counts(s: Seq<char>)
    requires
        s.len() > 0,
        all_digits(s),
    ensures
        digits_value(s) == worth(s[0]) * tens((s.len() - 1) as nat) + digits_value(s.drop_first()),
    decreases s.len(),
{
    if s.len() == 1 {
        assert(s.drop_first() =~= Seq::empty());
        assert(s.drop_last() =~= Seq::empty());
        assert(is_digit(s[0]));
        reveal_with_fuel(digits_value, 2);
        assert(tens(0) == 1);
    } else {
        let front = s.drop_last();
        assert forall|i: int| 0 <= i < front.len() implies is_digit(#[trigger] front[i]) by {
            assert(is_digit(s[i]));
        }
        the_first_digit_counts(front);
        assert(front.drop_first() =~= s.drop_first().drop_last());
        assert(s.drop_first().last() == s.last());
        assert(front[0] == s[0]);
        assert(digits_value(s.drop_first()) == digits_value(front.drop_first()) * 10 + worth(
            s.last(),
        ));
        assert(digits_value(s) == digits_value(front) * 10 + worth(s.last()));
        assert(is_digit(s[0]) && is_digit(s.last()));
        let t = tens((s.len() - 2) as nat);
        assert(tens((s.len() - 1) as nat) == 10 * t);
        assert((worth(s[0]) * t) * 10 == worth(s[0]) * (10 * t)) by (nonlinear_arith);
    }
}

proof fn digits_follow(s: Seq<char>)
    requires
        s.len() > 0,
        all_digits(s),
    ensures
        all_digits(s.drop_first()),
        0 <= worth(s[0]) <= 9,
{
    assert(is_digit(s[0]));
    let rest = s.drop_first();
    assert forall|i: int| 0 <= i < rest.len() implies is_digit(#[trigger] rest[i]) by {
        assert(is_digit(s[i + 1]));
    }
}

proof fn digits_are_worth_less(s: Seq<char>)
    requires
        all_digits(s),
    ensures
        0 <= digits_value(s) < tens(s.len()),
        s.len() > 0 && s[0] != '0' ==> digits_value(s) >= tens((s.len() - 1) as nat),
    decreases s.len(),
{
    if s.len() > 0 {
        digits_follow(s);
        the_first_digit_counts(s);
        digits_are_worth_less(s.drop_first());
        let t = tens((s.len() - 1) as nat);
        tens_grow((s.len() - 1) as nat);
        assert(worth(s[0]) * t <= 9 * t) by (nonlinear_arith)
            requires
                worth(s[0]) <= 9,
                t >= 1,
        ;
        if s[0] != '0' {
            assert(worth(s[0]) * t >= t) by (nonlinear_arith)
                requires
                    worth(s[0]) >= 1,
                    t >= 1,
            ;
        }
    }
}

#[verifier::spinoff_prover]
proof fn zeros_are_worth_nothing(s: Seq<char>)
    requires
        all_digits(s),
    ensures
        0 <= leading_zeros(s) <= s.len(),
        digits_value(s) == digits_value(s.skip(leading_zeros(s))),
        leading_zeros(s) < s.len() ==> s[leading_zeros(s)] != '0',
        leading_zeros(s) == s.len() <==> digits_value(s) == 0,
        all_digits(s.skip(leading_zeros(s))),
    decreases s.len(),
{
    if s.len() > 0 && s[0] == '0' {
        let rest = s.drop_first();
        digits_follow(s);
        the_first_digit_counts(s);
        zeros_are_worth_nothing(rest);
        assert(worth(s[0]) * tens((s.len() - 1) as nat) == 0) by (nonlinear_arith)
            requires
                worth(s[0]) == 0,
        ;
        assert(s.skip(leading_zeros(s)) =~= rest.skip(leading_zeros(rest)));
    } else {
        assert(s.skip(0) =~= s);
        if s.len() > 0 {
            digits_are_worth_less(s);
            tens_grow((s.len() - 1) as nat);
        }
    }
}

/// What `0.a` and `0.b` are worth, brought to one denominator: the first is less, or, where
/// `or_equal`, no more.
pub open spec fn is_less(a: int, b: int, or_equal: bool) -> bool {
    a < b || (or_equal && a == b)
}

proof fn one_denominator(x: int, p: int, v: int, q: int)
    ensures
        (x * p + v) * (10 * q) == 10 * (x * (p * q) + v * q),
{
    lemma_mul_is_distributive_add_other_way(10 * q, x * p, v);
    lemma_mul_is_associative(x * p, 10, q);
    lemma_mul_is_commutative(x * p, 10);
    lemma_mul_is_associative(10, x * p, q);
    lemma_mul_is_associative(x, p, q);
    lemma_mul_is_associative(v, 10, q);
    lemma_mul_is_commutative(v, 10);
    lemma_mul_is_associative(10, v, q);
    lemma_mul_is_distributive_add(10, x * (p * q), v * q);
}

#[verifier::spinoff_prover]
proof fn fractions_compare_by_worth(a: Seq<char>, b: Seq<char>, or_equal: bool)
    requires
        all_digits(a),
        all_digits(b),
        b.len() > 0 ==> b.last() != '0',
    ensures
        fraction_below(a, b, or_equal) <==> is_less(
            digits_value(a) * tens(b.len()),
            digits_value(b) * tens(a.len()),
            or_equal,
        ),
    decreases a.len(),
{
    if a.len() == 0 {
        if b.len() > 0 {
            assert(is_digit(b.last()));
            assert(digits_value(b) >= 1);
        }
        assert(0 * tens(b.len()) == 0);
    } else if b.len() == 0 {
        zeros_are_worth_nothing(a);
        digits_are_worth_less(a);
        assert(0 * tens(a.len()) == 0);
    } else {
        let x = worth(a[0]);
        let y = worth(b[0]);
        let more_a = a.drop_first();
        let more_b = b.drop_first();
        digits_follow(a);
        digits_follow(b);
        the_first_digit_counts(a);
        the_first_digit_counts(b);
        digits_are_worth_less(more_a);
        digits_are_worth_less(more_b);
        let p = tens(more_a.len());
        let q = tens(more_b.len());
        let va: int = digits_value(more_a) as int;
        let vb: int = digits_value(more_b) as int;
        assert(tens(a.len()) == 10 * p && tens(b.len()) == 10 * q);
        let left = (x * p + va) * (10 * q);
        let right = (y * q + vb) * (10 * p);
        one_denominator(x, p, va, q);
        one_denominator(y, q, vb, p);
        assert(y * (q * p) == y * (p * q)) by {
            lemma_mul_is_commutative(q, p);
        }
        lemma_mul_is_distributive_sub_other_way(p * q, x, y);
        assert(left - right == 10 * ((x - y) * (p * q) + va * q - vb * p));
        assert(va * q < p * q) by (nonlinear_arith)
            requires
                0 <= va < p,
                q >= 1,
        ;
        assert(vb * p < p * q) by (nonlinear_arith)
            requires
                0 <= vb < q,
                p >= 1,
        ;
        assert(va * q >= 0 && vb * p >= 0) by (nonlinear_arith)
            requires
                va >= 0,
                vb >= 0,
                p >= 1,
                q >= 1,
        ;
        if a[0] < b[0] {
            assert((x - y) * (p * q) <= -(p * q)) by (nonlinear_arith)
                requires
                    x - y <= -1,
                    p * q >= 1,
            ;
        } else if a[0] > b[0] {
            assert((x - y) * (p * q) >= p * q) by (nonlinear_arith)
                requires
                    x - y >= 1,
                    p * q >= 1,
            ;
        } else {
            assert(more_b.len() > 0 ==> more_b.last() == b.last());
            fractions_compare_by_worth(more_a, more_b, or_equal);
            assert((x - y) * (p * q) == 0) by (nonlinear_arith)
                requires
                    x == y,
            ;
        }
    }
}

proof fn scaling_keeps_order(x: int, y: int, t: int, or_equal: bool)
    requires
        t >= 1,
    ensures
        is_less(x * t, y * t, or_equal) <==> is_less(x, y, or_equal),
{
    assert(x < y ==> x * t < y * t) by (nonlinear_arith)
        requires
            t >= 1,
    ;
    assert(x > y ==> x * t > y * t) by (nonlinear_arith)
        requires
            t >= 1,
    ;
}

/// The digits of a fraction with which numbers are compared: from the first digit on no zero stands
/// at either end.
pub open spec fn is_cut(cut: Seq<char>) -> bool {
    cut.len() > 0 && all_digits(cut) && cut[0] != '0' && cut.last() != '0'
}

#[verifier::spinoff_prover]
proof fn magnitudes_decide(g: Seq<char>, m: int, cut: Seq<char>, or_equal: bool, a: nat, b: nat)
    requires
        all_digits(g),
        g.len() > 0 ==> g[0] != '0',
        is_cut(cut),
        a - b == m - g.len() + cut.len(),
    ensures
        (g.len() == 0 || m < 0 || (m == 0 && fraction_below(g, cut, or_equal))) <==> is_less(
            digits_value(g) * tens(a),
            digits_value(cut) * tens(b),
            or_equal,
        ),
{
    let n = g.len();
    let c = cut.len();
    let vg: int = digits_value(g) as int;
    let vc: int = digits_value(cut) as int;
    digits_are_worth_less(g);
    digits_are_worth_less(cut);
    tens_grow(a);
    tens_grow(b);
    tens_grow((c - 1) as nat);
    let ta = tens(a);
    let tb = tens(b);
    if n == 0 {
        assert(vc * tb >= 1) by (nonlinear_arith)
            requires
                vc >= 1,
                tb >= 1,
        ;
        assert(vg == 0);
        assert(vg * ta == 0) by (nonlinear_arith)
            requires
                vg == 0,
        ;
    } else if m < 0 {
        let k = (c - 1 + b - n - a) as nat;
        tens_add(n, a);
        tens_add((c - 1) as nat, b);
        tens_add(n + a, k);
        tens_grow(k);
        tens_grow(n + a);
        assert(n + a + k == c - 1 + b);
        let low = tens((c - 1) as nat);
        let high = tens(n);
        assert(vg * ta < high * ta) by (nonlinear_arith)
            requires
                vg < high,
                ta >= 1,
        ;
        assert(vc * tb >= low * tb) by (nonlinear_arith)
            requires
                vc >= low,
                tb >= 1,
        ;
        let whole = tens(n + a);
        let scale = tens(k);
        assert(whole * scale >= whole) by (nonlinear_arith)
            requires
                whole >= 1,
                scale >= 1,
        ;
    } else if m > 0 {
        let k = (n - 1 + a - c - b) as nat;
        tens_add((n - 1) as nat, a);
        tens_add(c, b);
        tens_add(c + b, k);
        tens_grow(k);
        tens_grow(c + b);
        assert(c + b + k == n - 1 + a);
        let low = tens((n - 1) as nat);
        let high = tens(c);
        assert(vg * ta >= low * ta) by (nonlinear_arith)
            requires
                vg >= low,
                ta >= 1,
        ;
        assert(vc * tb < high * tb) by (nonlinear_arith)
            requires
                vc < high,
                tb >= 1,
        ;
        let whole = tens(c + b);
        let scale = tens(k);
        assert(whole * scale >= whole) by (nonlinear_arith)
            requires
                whole >= 1,
                scale >= 1,
        ;
    } else {
        fractions_compare_by_worth(g, cut, or_equal);
        let tc = tens(c);
        let tn = tens(n);
        if a >= c {
            let k = (a - c) as nat;
            tens_add(c, k);
            tens_add(n, k);
            tens_grow(k);
            let t = tens(k);
            assert(a == c + k && b == n + k);
            scaling_keeps_order(vg * tc, vc * tn, t, or_equal);
            assert((vg * tc) * t == vg * (tc * t)) by (nonlinear_arith);
            assert((vc * tn) * t == vc * (tn * t)) by (nonlinear_arith);
        } else {
            let k = (c - a) as nat;
            tens_add(a, k);
            tens_add(b, k);
            tens_grow(k);
            let t = tens(k);
            assert(c == a + k && n == b + k);
            scaling_keeps_order(vg * ta, vc * tb, t, or_equal);
            assert((vg * ta) * t == vg * (ta * t)) by (nonlinear_arith);
            assert((vc * tb) * t == vc * (tb * t)) by (nonlinear_arith);
        }
    }
}

proof fn digits_end(s: Seq<char>, n: int)
    requires
        0 <= n <= s.len(),
        forall|i: int| 0 <= i < n ==> is_digit(#[trigger] s[i]),
        n < s.len() ==> !is_digit(s[n]),
    ensures
        leading_digits(s) == n,
    decreases n,
{
    if n > 0 {
        assert(is_digit(s[0]));
        let rest = s.drop_first();
        assert forall|i: int| 0 <= i < n - 1 implies is_digit(#[trigger] rest[i]) by {
            assert(rest[i] == s[i + 1]);
        }
        digits_end(rest, n - 1);
    }
}

/// The power of ten that a tail names: none where it is empty, else `e` in either case, a sign or
/// none, and digits.
pub open spec fn is_tail(tail: Seq<char>, power: int) -> bool {
    ||| tail.len() == 0 && power == 0
    ||| tail.len() > 1 && (tail[0] == 'e' || tail[0] == 'E') && {
        ||| all_digits(tail.skip(1)) && power == digits_value(tail.skip(1))
        ||| tail[1] == '+' && all_digits(tail.skip(2)) && power == digits_value(tail.skip(2))
        ||| tail[1] == '-' && all_digits(tail.skip(2)) && power
            == -(digits_value(tail.skip(2)) as int)
    }
}

/// How a number is written: digits, a point, more digits and a tail.
pub open spec fn written(whole: Seq<char>, part: Seq<char>, tail: Seq<char>) -> Seq<char> {
    whole.push('.') + part + tail
}

proof fn a_number_is_taken_apart(whole: Seq<char>, part: Seq<char>, tail: Seq<char>, power: int)
    requires
        all_digits(whole),
        all_digits(part),
        is_tail(tail, power),
    ensures
        leading_digits(written(whole, part, tail)) == whole.len(),
        mantissa_end(written(whole, part, tail)) == whole.len() + 1 + part.len(),
        mantissa_digits(written(whole, part, tail)) == whole + part,
        exponent_value(written(whole, part, tail).skip(mantissa_end(written(whole, part, tail))))
            == power,
{
    let s = written(whole, part, tail);
    let n = whole.len() as int;
    assert forall|i: int| 0 <= i < n implies is_digit(#[trigger] s[i]) by {
        assert(is_digit(whole[i]));
    }
    assert(s[n] == '.');
    digits_end(s, n);
    let behind = s.skip(n + 1);
    assert(behind =~= part + tail);
    assert forall|i: int| 0 <= i < part.len() implies is_digit(#[trigger] behind[i]) by {
        assert(is_digit(part[i]));
    }
    assert(part.len() < behind.len() ==> behind[part.len() as int] == tail[0]);
    digits_end(behind, part.len() as int);
    assert(s.take(n) =~= whole);
    assert(s.subrange(n + 1, n + 1 + part.len()) =~= part);
    assert(s.skip(n + 1 + part.len()) =~= tail);
    if tail.len() > 0 {
        let rest = tail.drop_first();
        assert(rest =~= tail.skip(1));
        assert(rest[0] == tail[1]);
        if all_digits(tail.skip(1)) {
            assert(is_digit(tail.skip(1)[0]));
            assert(unsigned_part(rest) =~= rest);
        } else {
            assert(rest.drop_first() =~= tail.skip(2));
            assert(tail[1] == '+' || tail[1] == '-');
        }
    }
}

proof fn no_word_begins_so(s: Seq<char>)
    requires
        s.len() > 0,
        is_digit(s[0]) || s[0] == '.',
    ensures
        unsigned_part(s) == s,
        lower(s) != "nan"@,
        lower(s) != "inf"@,
        lower(s) != "infinity"@,
{
    reveal_strlit("nan");
    reveal_strlit("inf");
    reveal_strlit("infinity");
    assert(lower(s)[0] == s[0]);
}

/// A number is compared with a fraction by what both are worth: the digits of the number, times ten
/// to the power that its point and its tail leave, with those of the fraction behind a point.
#[verifier::spinoff_prover]
pub proof fn numbers_compare_by_worth(
    whole: Seq<char>,
    part: Seq<char>,
    tail: Seq<char>,
    power: int,
    cut: Seq<char>,
    or_equal: bool,
)
    requires
        all_digits(whole),
        all_digits(part),
        is_tail(tail, power),
        is_cut(cut),
    ensures
        power >= 0 ==> (writes_below(written(whole, part, tail), cut, or_equal) <==> is_less(
            digits_value(whole + part) * tens((cut.len() + power) as nat),
            digits_value(cut) * tens(part.len()),
            or_equal,
        )),
        power < 0 ==> (writes_below(written(whole, part, tail), cut, or_equal) <==> is_less(
            digits_value(whole + part) * tens(cut.len()),
            digits_value(cut) * tens((part.len() - power) as nat),
            or_equal,
        )),
{
    let s = written(whole, part, tail);
    a_number_is_taken_apart(whole, part, tail, power);
    assert(whole.len() > 0 ==> s[0] == whole[0] && is_digit(whole[0]));
    assert(whole.len() == 0 ==> s[0] == '.');
    no_word_begins_so(s);
    let digits = whole + part;
    assert forall|i: int| 0 <= i < digits.len() implies is_digit(#[trigger] digits[i]) by {
        if i < whole.len() {
            assert(is_digit(whole[i]));
        } else {
            assert(is_digit(part[i - whole.len()]));
        }
    }
    zeros_are_worth_nothing(digits);
    let g = significant(s);
    assert(g == digits.skip(leading_zeros(digits)));
    let m = magnitude(s);
    assert(m == whole.len() - leading_zeros(digits) + power);
    if power >= 0 {
        magnitudes_decide(g, m, cut, or_equal, (cut.len() + power) as nat, part.len());
    } else {
        magnitudes_decide(g, m, cut, or_equal, cut.len(), (part.len() - power) as nat);
    }
}

/// A number below zero is below every fraction, whatever its digits.
pub proof fn below_zero_is_below_all(digits: Seq<char>, cut: Seq<char>, or_equal: bool)
    requires
        digits.len() > 0,
        is_digit(digits[0]) || digits[0] == '.',
    ensures
        writes_below(seq!['-'] + digits, cut, or_equal),
        writes_below(seq!['+'] + digits, cut, or_equal) == writes_below(digits, cut, or_equal),
{
    no_word_begins_so(digits);
    assert((seq!['-'] + digits).drop_first() =~= digits);
    assert((seq!['+'] + digits).drop_first() =~= digits);
}

// ---------------------------------------------------------------- shares

#[verifier::spinoff_prover]
proof fn nines_lead(s: Seq<char>, k: nat)
    requires
        all_digits(s),
        k <= s.len(),
        forall|i: int| 0 <= i < k ==> #[trigger] s[i] == '9',
    ensures
        digits_value(s) + tens((s.len() - k) as nat) >= tens(s.len()),
    decreases k,
{
    if k == 0 {
        assert((s.len() - k) as nat == s.len());
    } else {
        let rest = s.drop_first();
        let less = (k - 1) as nat;
        assert(rest.len() == (s.len() - 1) as nat);
        digits_follow(s);
        assert forall|i: int| 0 <= i < less implies #[trigger] rest[i] == '9' by {
            assert(rest[i] == s[i + 1]);
        }
        nines_lead(rest, less);
        let t = tens(rest.len());
        let v: int = digits_value(rest) as int;
        let low = tens((s.len() - k) as nat);
        assert((rest.len() - less) as nat == (s.len() - k) as nat);
        assert(v + low >= t);
        assert(digits_value(s) == 9 * t + v) by {
            the_first_digit_counts(s);
            assert(s[0] == '9');
            assert(worth('9') == 9);
        }
        assert(tens(s.len()) == 10 * t);
    }
}

/// A digit, fifteen nines and more digits: a fraction a little below the tenths that follow it.
pub open spec fn is_just_below(cut: Seq<char>, tenths: int) -> bool {
    &&& is_cut(cut)
    &&& cut.len() >= 16
    &&& worth(cut[0]) == tenths - 1
    &&& forall|i: int| 1 <= i < 16 ==> #[trigger] cut[i] == '9'
}

#[verifier::spinoff_prover]
proof fn tenths_decide(v: nat, p: nat, cut: Seq<char>, tenths: int, or_equal: bool)
    requires
        p <= 15,
        is_just_below(cut, tenths),
    ensures
        is_less(v * tens(cut.len()), digits_value(cut) * tens(p), or_equal) <==> 10 * v < tenths
            * tens(p),
{
    let l = cut.len();
    let c: int = digits_value(cut) as int;
    let rest = cut.drop_first();
    digits_follow(cut);
    the_first_digit_counts(cut);
    digits_are_worth_less(rest);
    digits_are_worth_less(cut);
    assert forall|i: int| 0 <= i < 15 implies #[trigger] rest[i] == '9' by {
        assert(rest[i] == cut[i + 1]);
    }
    nines_lead(rest, 15);
    let t1 = tens((l - 1) as nat);
    let t16 = tens((l - 16) as nat);
    let tp = tens(p);
    let tl = tens(l);
    tens_grow((l - 1) as nat);
    tens_grow((l - 16) as nat);
    tens_grow(p);
    assert(tl == 10 * t1);
    assert(worth(cut[0]) * t1 + t1 == tenths * t1) by (nonlinear_arith)
        requires
            worth(cut[0]) == tenths - 1,
    ;
    assert(c + t16 >= tenths * t1 && c < tenths * t1);
    if 10 * v < tenths * tp {
        if p == 0 {
            assert(tenths * tp == tenths) by (nonlinear_arith)
                requires
                    tp == 1,
            ;
            assert(v == 0);
            assert(v * tl == 0) by (nonlinear_arith)
                requires
                    v == 0,
            ;
            assert(c * tp == c);
        } else {
            let less = tens((p - 1) as nat);
            assert(tp == 10 * less);
            assert(tenths * tp == 10 * (tenths * less)) by (nonlinear_arith)
                requires
                    tp == 10 * less,
            ;
            assert(v + 1 <= tenths * less);
            assert((v + 1) * tl <= (tenths * less) * tl) by (nonlinear_arith)
                requires
                    v + 1 <= tenths * less,
                    tl >= 1,
            ;
            assert((v + 1) * tl == v * tl + tl) by (nonlinear_arith);
            assert((tenths * less) * tl == (tenths * t1) * tp) by (nonlinear_arith)
                requires
                    tl == 10 * t1,
                    tp == 10 * less,
            ;
            assert((c + t16) * tp >= (tenths * t1) * tp) by (nonlinear_arith)
                requires
                    c + t16 >= tenths * t1,
                    tp >= 1,
            ;
            assert((c + t16) * tp == c * tp + t16 * tp) by (nonlinear_arith);
            tens_add((l - 16) as nat, p);
            let k = (16 - p) as nat;
            let low = tens((l - 16 + p) as nat);
            let scale = tens(k);
            tens_add((l - 16 + p) as nat, k);
            tens_grow((k - 1) as nat);
            tens_grow((l - 16 + p) as nat);
            assert(scale >= 10);
            assert(low * scale > low) by (nonlinear_arith)
                requires
                    low >= 1,
                    scale >= 10,
            ;
            assert(l - 16 + p + k == l);
        }
    } else {
        assert((10 * v) * t1 >= (tenths * tp) * t1) by (nonlinear_arith)
            requires
                10 * v >= tenths * tp,
                t1 >= 1,
        ;
        assert(v * tl == (10 * v) * t1) by (nonlinear_arith)
            requires
                tl == 10 * t1,
        ;
        assert((tenths * tp) * t1 == (tenths * t1) * tp) by (nonlinear_arith);
        assert(c * tp < (tenths * t1) * tp) by (nonlinear_arith)
            requires
                c < tenths * t1,
                tp >= 1,
        ;
    }
}

proof fn the_cuts_lie_just_below()
    ensures
        is_just_below(LOW_SHARE@, 3),
        is_just_below(HIGH_SHARE@, 7),
{
    reveal_strlit("2999999999999999611421941381195210851728916168212890625");
    reveal_strlit("699999999999999900079927783735911361873149871826171875");
}

/// Institutions hold a stock lightly where their share is below three tenths, firmly where it is
/// seven tenths or more, and else in between. Shares of up to fifteen digits behind the point are
/// told apart exactly.
#[verifier::spinoff_prover]
pub proof fn shares_are_told_by_tenths(whole: Seq<char>, part: Seq<char>)
    requires
        all_digits(whole),
        all_digits(part),
        whole.len() > 0,
        part.len() <= 15,
    ensures
        10 * digits_value(whole + part) < 3 * tens(part.len()) ==> control(
            whole.push('.') + part,
        ) == "低度控盘"@,
        3 * tens(part.len()) <= 10 * digits_value(whole + part) < 7 * tens(part.len()) ==> control(
            whole.push('.') + part,
        ) == "中度控盘"@,
        10 * digits_value(whole + part) >= 7 * tens(part.len()) ==> control(whole.push('.') + part)
            == "高度控盘"@,
{
    let none = Seq::<char>::empty();
    let op = whole.push('.') + part;
    assert(written(whole, part, none) =~= op);
    the_cuts_lie_just_below();
    numbers_compare_by_worth(whole, part, none, 0, LOW_SHARE@, true);
    numbers_compare_by_worth(whole, part, none, 0, HIGH_SHARE@, false);
    tenths_decide(digits_value(whole + part), part.len(), LOW_SHARE@, 3, true);
    tenths_decide(digits_value(whole + part), part.len(), HIGH_SHARE@, 7, false);
    assert(is_digit(whole[0]) && op[0] == whole[0]);
    reveal_strlit("—");
    assert(op != DASH@) by {
        assert(DASH@[0] == '—');
    }
    assert(is_real_text(op)) by {
        assert(unsigned_part(op) == op);
        let n = whole.len() as int;
        assert(op.take(n) =~= whole);
        assert(op.skip(n + 1) =~= part);
        assert(op.take(op.len() as int) =~= op);
        assert(point_at(op, n));
        assert(is_mantissa(op));
        assert(exponent_at(op, op.len() as int));
    }
}

// ---------------------------------------------------------------- what is a number

/// Digits with a point and a tail write a number, with or without a sign, as long as there is one
/// digit before or behind the point.
pub proof fn digits_write_a_number(
    whole: Seq<char>,
    part: Seq<char>,
    tail: Seq<char>,
    power: int,
)
    requires
        all_digits(whole),
        all_digits(part),
        whole.len() + part.len() > 0,
        is_tail(tail, power),
        tail.len() > 1 && is_sign(tail[1]) ==> tail.len() > 2,
    ensures
        is_real_text(written(whole, part, tail)),
        is_real_text(seq!['-'] + written(whole, part, tail)),
        is_real_text(seq!['+'] + written(whole, part, tail)),
        whole.len() > 0 ==> is_real_text(whole + tail),
{
    let s = written(whole, part, tail);
    let n = whole.len() as int;
    let k = n + 1 + part.len();
    assert(s.len() > 0 && (is_digit(s[0]) || s[0] == '.')) by {
        if n > 0 {
            assert(is_digit(whole[0]));
            assert(s[0] == whole[0]);
        }
    }
    tails_are_exponents(tail, power);
    let m = s.take(k);
    assert(m =~= whole.push('.') + part);
    assert(m.take(n) =~= whole);
    assert(m.skip(n + 1) =~= part);
    assert(point_at(m, n));
    assert(s.skip(k) =~= tail);
    assert(exponent_at(s, k));
    assert(unsigned_part(s) == s);
    assert((seq!['-'] + s).drop_first() =~= s);
    assert((seq!['+'] + s).drop_first() =~= s);
    if n > 0 {
        let t = whole + tail;
        assert(is_digit(whole[0]) && t[0] == whole[0]);
        assert(t.take(n) =~= whole);
        assert(whole.take(n) =~= whole);
        assert(point_at(whole, n));
        assert(t.skip(n) =~= tail);
        assert(exponent_at(t, n));
        assert(unsigned_part(t) == t);
    }
}

proof fn tails_are_exponents(tail: Seq<char>, power: int)
    requires
        is_tail(tail, power),
        tail.len() > 1 && is_sign(tail[1]) ==> tail.len() > 2,
    ensures
        is_exponent(tail),
{
    if tail.len() > 0 {
        let rest = tail.drop_first();
        assert(rest =~= tail.skip(1));
        assert(rest[0] == tail[1]);
        if all_digits(tail.skip(1)) {
            assert(is_digit(tail.skip(1)[0]));
        } else {
            assert(rest.drop_first() =~= tail.skip(2));
        }
    }
}

/// A number holds nothing but digits, a point, signs and an exponent, or is one of three words: a
/// text with any other character in it is none.
#[verifier::spinoff_prover]
pub proof fn other_texts_are_no_numbers(s: Seq<char>, k: int)
    requires
        0 <= k < s.len(),
        !is_digit(s[k]) && s[k] != '.' && s[k] != '+' && s[k] != '-' && s[k] != 'e' && s[k] != 'E',
        lower(unsigned_part(s)) != "nan"@,
        lower(unsigned_part(s)) != "inf"@,
        lower(unsigned_part(s)) != "infinity"@,
    ensures
        !is_real_text(s),
{
    let body = unsigned_part(s);
    let at = if body.len() < s.len() {
        k - 1
    } else {
        k
    };
    assert(body[at] == s[k]);
    if exists|m: int| #[trigger] exponent_at(body, m) {
        let m = choose|m: int| #[trigger] exponent_at(body, m);
        let head = body.take(m);
        let tail = body.skip(m);
        if at < m {
            let point = choose|point: int| #[trigger] point_at(head, point);
            assert(head[at] == body[at]);
            if at < point {
                assert(head.take(point)[at] == head[at]);
            } else if at > point {
                assert(head.skip(point + 1)[at - point - 1] == head[at]);
            }
        } else {
            let rest = tail.drop_first();
            assert(tail[at - m] == body[at]);
            if at > m {
                assert(rest[at - m - 1] == tail[at - m]);
                let digits = unsigned_part(rest);
                if digits.len() < rest.len() {
                    if at > m + 1 {
                        assert(digits[at - m - 2] == rest[at - m - 1]);
                    }
                } else {
                    assert(digits[at - m - 1] == rest[at - m - 1]);
                }
            }
        }
    }
}

} // verus!
