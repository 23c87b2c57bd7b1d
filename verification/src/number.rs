//! Real numbers as the text that writes them.
//!
//! A real number stays a text here: whether the text is a number at all, and how it compares with
//! a fraction, is decided in this module; its value is read off where it is stored or shown.

use vstd::prelude::*;

use crate::text::{
    all_digits, char_is_digit, chars_of, digits_value, is_digit, lower, read_digits, same, to_lower,
    trim, trimmed,
};

verus! {

/// A real number, by its text.
#[derive(Debug, Clone, Default, PartialEq, Eq)]
pub struct Real {
    pub text: String,
}

impl View for Real {
    type V = Seq<char>;

    open spec fn view(&self) -> Seq<char> {
        self.text@
    }
}

impl Real {
    pub fn copy(&self) -> (r: Real)
        ensures
            r@ == self@,
    {
        Real { text: self.text.clone() }
    }
}

/// The view of an optional number.
pub open spec fn real_view(r: Option<Real>) -> Option<Seq<char>> {
    match r {
        Some(x) => Some(x@),
        None => None,
    }
}

pub open spec fn is_sign(c: char) -> bool {
    c == '+' || c == '-'
}

/// The text behind a leading sign, or all of it where there is none.
pub open spec fn unsigned_part(s: Seq<char>) -> Seq<char> {
    if s.len() > 0 && is_sign(s[0]) {
        s.drop_first()
    } else {
        s
    }
}

/// Nothing, or `e` and a whole number.
pub open spec fn is_exponent(s: Seq<char>) -> bool {
    ||| s.len() == 0
    ||| {
        let digits = unsigned_part(s.drop_first());
        (s[0] == 'e' || s[0] == 'E') && digits.len() > 0 && all_digits(digits)
    }
}

/// Digits, of which one may be missing a point at position `point`: `1`, `1.`, `.1`, `1.1`.
pub open spec fn point_at(s: Seq<char>, point: int) -> bool {
    &&& 0 <= point <= s.len()
    &&& all_digits(s.take(point))
    &&& {
        ||| point == s.len() && s.len() > 0
        ||| point < s.len() && s[point] == '.' && all_digits(s.skip(point + 1)) && s.len() > 1
    }
}

pub open spec fn is_mantissa(s: Seq<char>) -> bool {
    exists|point: int| #[trigger] point_at(s, point)
}

/// A mantissa up to position `k` and an exponent from there on.
pub open spec fn exponent_at(s: Seq<char>, k: int) -> bool {
    0 <= k <= s.len() && is_mantissa(s.take(k)) && is_exponent(s.skip(k))
}

/// The texts that write a real number: an optional sign and then `inf`, `infinity`, `nan` in
/// capitals or not, or digits with at most one point and an optional exponent.
pub open spec fn is_real_text(s: Seq<char>) -> bool {
    let body = unsigned_part(s);
    ||| lower(body) == "inf"@
    ||| lower(body) == "infinity"@
    ||| lower(body) == "nan"@
    ||| exists|k: int| #[trigger] exponent_at(body, k)
}

/// The text without plus and percent signs.
pub open spec fn bare(s: Seq<char>) -> Seq<char> {
    s.filter(|c: char| c != '+' && c != '%')
}

/// The position of the first character from `from` on that is no digit.
fn digits_end(chars: &Vec<char>, from: usize) -> (r: usize)
    requires
        from <= chars@.len(),
    ensures
        from <= r <= chars@.len(),
        forall|i: int| from <= i < r ==> is_digit(#[trigger] chars@[i]),
        r < chars@.len() ==> !is_digit(chars@[r as int]),
{
    let mut i: usize = from;
    while i < chars.len() && char_is_digit(chars[i])
        invariant
            from <= i <= chars@.len(),
            forall|j: int| from <= j < i ==> is_digit(#[trigger] chars@[j]),
        decreases chars@.len() - i,
    {
        i += 1;
    }
    i
}

/// Whether `chars[from..]` is an exponent.
fn exponent_from(chars: &Vec<char>, from: usize) -> (r: bool)
    requires
        from <= chars@.len(),
    ensures
        r == is_exponent(chars@.skip(from as int)),
{
    let ghost s = chars@.skip(from as int);
    let n: usize = chars.len();
    if from == n {
        return true;
    }
    assert(s[0] == chars@[from as int]);
    if chars[from] != 'e' && chars[from] != 'E' {
        return false;
    }
    let mut start: usize = from + 1;
    if start < n && (chars[start] == '+' || chars[start] == '-') {
        start += 1;
    }
    let end: usize = digits_end(chars, start);
    let ghost digits = unsigned_part(s.drop_first());
    assert(digits =~= chars@.skip(start as int));
    if end == n {
        assert(all_digits(digits)) by {
            assert forall|i: int| 0 <= i < digits.len() implies is_digit(#[trigger] digits[i]) by {
                assert(digits[i] == chars@[start + i]);
            }
        }
        start < n
    } else {
        assert(digits[end - start] == chars@[end as int]);
        assert(!all_digits(digits));
        false
    }
}

/// A mantissa with an exponent behind it can only end where the digits and the point do.
proof fn lemma_one_split(s: Seq<char>, whole: int, m: int, k: int)
    requires
        0 <= whole <= m <= s.len(),
        forall|i: int| 0 <= i < whole ==> is_digit(#[trigger] s[i]),
        whole < s.len() ==> !is_digit(s[whole]),
        m == whole ==> (whole < s.len() ==> s[whole] != '.'),
        m > whole ==> s[whole] == '.',
        forall|i: int| whole < i < m ==> is_digit(#[trigger] s[i]),
        m < s.len() ==> !is_digit(s[m]),
        exponent_at(s, k),
    ensures
        k == m,
{
    let head = s.take(k);
    let point = choose|point: int| #[trigger] point_at(head, point);
    assert(point_at(head, point));
    assert forall|i: int| 0 <= i < point implies is_digit(#[trigger] s[i]) by {
        assert(head.take(point)[i] == s[i]);
    }
    if k < s.len() {
        assert(s.skip(k)[0] == s[k]);
    }
    if point == k {
        if k > whole {
            assert(is_digit(s[whole]));
        }
    } else {
        assert(head[point] == s[point]);
        if point > whole {
            assert(is_digit(s[whole]));
        }
        if point < whole {
            assert(is_digit(s[point]));
        }
        assert forall|i: int| point < i < k implies is_digit(#[trigger] s[i]) by {
            assert(head.skip(point + 1)[i - point - 1] == s[i]);
        }
        if k > m {
            assert(is_digit(s[m]));
        }
    }
}

/// Whether a text without sign writes digits with at most one point and an optional exponent.
fn decimal_from(chars: &Vec<char>, from: usize) -> (r: bool)
    requires
        from <= chars@.len(),
    ensures
        r == exists|k: int| #[trigger] exponent_at(chars@.skip(from as int), k),
{
    let n: usize = chars.len();
    let ghost s = chars@.skip(from as int);
    let whole: usize = digits_end(chars, from);
    let mut m: usize = whole;
    if whole < n && chars[whole] == '.' {
        m = digits_end(chars, whole + 1);
    }
    let plain = m == whole && whole > from;
    let pointed = m > whole && m - from > 1;
    let tail = exponent_from(chars, m);
    proof {
        let w = whole - from;
        let e = m - from;
        assert forall|i: int| 0 <= i < w implies is_digit(#[trigger] s[i]) by {
            assert(s[i] == chars@[from + i]);
        }
        assert forall|i: int| w < i < e implies is_digit(#[trigger] s[i]) by {
            assert(s[i] == chars@[from + i]);
        }
        if w < s.len() {
            assert(s[w] == chars@[whole as int]);
        }
        if e < s.len() {
            assert(s[e] == chars@[m as int]);
        }
        assert(s.skip(e) =~= chars@.skip(m as int));
        let head = s.take(e);
        assert(head.take(w) =~= s.take(w));
        assert(all_digits(s.take(w)));
        if plain || pointed {
            if pointed {
                assert(head[w] == '.');
                assert(all_digits(head.skip(w + 1))) by {
                    let rest = head.skip(w + 1);
                    assert forall|i: int| 0 <= i < rest.len() implies is_digit(#[trigger] rest[i])
                        by {
                        assert(rest[i] == s[w + 1 + i]);
                    }
                }
            }
            assert(point_at(head, w));
            assert(is_mantissa(head));
            if tail {
                assert(exponent_at(s, e));
            }
        }
        if exists|k: int| #[trigger] exponent_at(s, k) {
            let k = choose|k: int| #[trigger] exponent_at(s, k);
            lemma_one_split(s, w, e, k);
            let point = choose|point: int| #[trigger] point_at(head, point);
            assert(point_at(head, point));
            assert(head.len() == e);
            if !plain && !pointed {
                if e == 0 {
                    assert(false);
                } else {
                    assert(m > whole);
                    assert(e == 1 && w == 0);
                    if point == 1 {
                        assert(head.take(1)[0] == s[0]);
                        assert(false);
                    }
                    assert(false);
                }
            }
        }
    }
    (plain || pointed) && tail
}

/// Whether a text writes a real number.
pub fn writes_real(s: &str) -> (r: bool)
    ensures
        r == is_real_text(s@),
{
    let chars = chars_of(s);
    let mut from: usize = 0;
    if chars.len() > 0 && (chars[0] == '+' || chars[0] == '-') {
        from = 1;
    }
    assert(unsigned_part(s@) =~= chars@.skip(from as int));
    let body = crate::text::text_of(&chars, from, chars.len());
    assert(body@ =~= unsigned_part(s@));
    let small = to_lower(&body);
    same(&small, "inf") || same(&small, "infinity") || same(&small, "nan") || decimal_from(
        &chars,
        from,
    )
}

/// The text without plus and percent signs.
fn strip(s: &str) -> (r: String)
    ensures
        r@ == bare(s@),
{
    let chars = chars_of(s);
    let ghost keep = |c: char| c != '+' && c != '%';
    let mut out = String::new();
    let mut i: usize = 0;
    assert(s@.take(0).filter(keep) =~= Seq::<char>::empty()) by {
        reveal(Seq::filter);
    }
    while i < chars.len()
        invariant
            chars@ == s@,
            i <= chars@.len(),
            keep == (|c: char| c != '+' && c != '%'),
            out@ == s@.take(i as int).filter(keep),
        decreases chars@.len() - i,
    {
        let c = chars[i];
        proof {
            reveal(Seq::filter);
            assert(s@.take(i + 1).drop_last() =~= s@.take(i as int));
            assert(s@.take(i + 1).last() == c);
        }
        if c != '+' && c != '%' {
            out.push(c);
        }
        i += 1;
    }
    assert(s@.take(s@.len() as int) == s@);
    out
}

/// The number in a text such as `+1.25%`: what is left without plus signs, percent signs and
/// white space around it.
pub open spec fn loose_real(s: Seq<char>) -> Option<Seq<char>> {
    let t = trimmed(bare(s));
    if is_real_text(t) {
        Some(t)
    } else {
        None
    }
}

/// The number in a text such as `+1.25%`.
pub fn read_loose_real(s: &str) -> (r: Option<Real>)
    ensures
        real_view(r) == loose_real(s@),
{
    let plain = strip(s);
    let text = trim(&plain);
    if writes_real(&text) {
        Some(Real { text })
    } else {
        None
    }
}

/// The number that a text writes as it stands.
pub open spec fn strict_real(s: Seq<char>) -> Option<Seq<char>> {
    if is_real_text(s) {
        Some(s)
    } else {
        None
    }
}

/// The number that a text writes as it stands.
pub fn read_real(s: &str) -> (r: Option<Real>)
    ensures
        real_view(r) == strict_real(s@),
{
    if writes_real(s) {
        Some(Real { text: s.to_string() })
    } else {
        None
    }
}

// ---------------------------------------------------------------- comparing with a fraction

/// How many digits a text begins with.
pub open spec fn leading_digits(s: Seq<char>) -> int
    decreases s.len(),
{
    if s.len() > 0 && is_digit(s[0]) {
        1 + leading_digits(s.drop_first())
    } else {
        0
    }
}

/// Where the mantissa of a number without sign ends.
pub open spec fn mantissa_end(s: Seq<char>) -> int {
    let whole = leading_digits(s);
    if whole < s.len() && s[whole] == '.' {
        whole + 1 + leading_digits(s.skip(whole + 1))
    } else {
        whole
    }
}

/// The digits of the mantissa, without the point.
pub open spec fn mantissa_digits(s: Seq<char>) -> Seq<char> {
    let whole = leading_digits(s);
    if mantissa_end(s) > whole {
        s.take(whole) + s.subrange(whole + 1, mantissa_end(s))
    } else {
        s.take(whole)
    }
}

/// The value of an exponent, zero where there is none.
pub open spec fn exponent_value(s: Seq<char>) -> int {
    if s.len() == 0 {
        0
    } else if s.len() > 1 && s[1] == '-' {
        -(digits_value(unsigned_part(s.drop_first())) as int)
    } else {
        digits_value(unsigned_part(s.drop_first())) as int
    }
}

/// How many zeros a text begins with.
pub open spec fn leading_zeros(s: Seq<char>) -> int
    decreases s.len(),
{
    if s.len() > 0 && s[0] == '0' {
        1 + leading_zeros(s.drop_first())
    } else {
        0
    }
}

/// The digits of a number from its first one that is not zero.
pub open spec fn significant(s: Seq<char>) -> Seq<char> {
    mantissa_digits(s).skip(leading_zeros(mantissa_digits(s)))
}

/// The power of ten by which a number is a fraction `0.d...` whose first digit is not zero.
pub open spec fn magnitude(s: Seq<char>) -> int {
    leading_digits(s) - leading_zeros(mantissa_digits(s)) + exponent_value(
        s.skip(mantissa_end(s)),
    )
}

/// Digits behind a point that write less than others, or, where `or_equal`, as much. The others
/// do not end in a zero.
pub open spec fn fraction_below(a: Seq<char>, b: Seq<char>, or_equal: bool) -> bool
    decreases a.len(),
{
    if a.len() == 0 {
        b.len() > 0 || or_equal
    } else if b.len() == 0 {
        or_equal && leading_zeros(a) == a.len()
    } else if a[0] != b[0] {
        a[0] < b[0]
    } else {
        fraction_below(a.drop_first(), b.drop_first(), or_equal)
    }
}

/// A text writes a number below the fraction `0.cut`, or, where `or_equal`, the fraction itself.
/// What is no number is below none.
pub open spec fn writes_below(s: Seq<char>, cut: Seq<char>, or_equal: bool) -> bool {
    let body = unsigned_part(s);
    let negative = s.len() > 0 && s[0] == '-';
    if lower(body) == "nan"@ {
        false
    } else if negative {
        true
    } else if lower(body) == "inf"@ || lower(body) == "infinity"@ {
        false
    } else {
        ||| significant(body).len() == 0
        ||| magnitude(body) < 0
        ||| magnitude(body) == 0 && fraction_below(significant(body), cut, or_equal)
    }
}

proof fn digits_are_counted(s: Seq<char>, n: int)
    requires
        0 <= n <= s.len(),
        forall|i: int| 0 <= i < n ==> is_digit(#[trigger] s[i]),
        n < s.len() ==> !is_digit(s[n]),
    ensures
        leading_digits(s) == n,
    decreases n,
{
    if n > 0 {
        assert(is_digit(s[0]));
        let rest = s.drop_first();
        assert forall|i: int| 0 <= i < n - 1 implies is_digit(#[trigger] rest[i]) by {
            assert(rest[i] == s[i + 1]);
        }
        digits_are_counted(rest, n - 1);
    }
}

proof fn zeros_are_counted(s: Seq<char>, n: int)
    requires
        0 <= n <= s.len(),
        forall|i: int| 0 <= i < n ==> #[trigger] s[i] == '0',
        n < s.len() ==> s[n] != '0',
    ensures
        leading_zeros(s) == n,
    decreases n,
{
    if n > 0 {
        assert(s[0] == '0');
        let rest = s.drop_first();
        assert forall|i: int| 0 <= i < n - 1 implies #[trigger] rest[i] == '0' by {
            assert(rest[i] == s[i + 1]);
        }
        zeros_are_counted(rest, n - 1);
    }
}

/// How many zeros a list of characters begins with.
fn zeros_of(chars: &Vec<char>, from: usize) -> (r: usize)
    requires
        from <= chars@.len(),
    ensures
        r <= chars@.len() - from,
        r == leading_zeros(chars@.skip(from as int)),
{
    let mut i: usize = from;
    while i < chars.len() && chars[i] == '0'
        invariant
            from <= i <= chars@.len(),
            forall|j: int| from <= j < i ==> #[trigger] chars@[j] == '0',
        decreases chars@.len() - i,
    {
        i += 1;
    }
    proof {
        let s = chars@.skip(from as int);
        assert forall|j: int| 0 <= j < i - from implies #[trigger] s[j] == '0' by {
            assert(s[j] == chars@[from + j]);
        }
        if i - from < s.len() {
            assert(s[i - from] == chars@[i as int]);
        }
        zeros_are_counted(s, i - from);
    }
    i - from
}

/// Whether the digits of `a` from `from` on write less than those of `b` behind a point.
fn is_fraction_below(a: &Vec<char>, from: usize, b: &Vec<char>, or_equal: bool) -> (r: bool)
    requires
        from <= a@.len(),
    ensures
        r == fraction_below(a@.skip(from as int), b@, or_equal),
{
    let n: usize = a.len() - from;
    let mut i: usize = 0;
    assert(b@.skip(0) =~= b@);
    while i < n && i < b.len() && a[from + i] == b[i]
        invariant
            from + n == a@.len(),
            a@.len() <= usize::MAX,
            i <= n,
            i <= b@.len(),
            fraction_below(a@.skip(from as int), b@, or_equal) == fraction_below(
                a@.skip(from + i),
                b@.skip(i as int),
                or_equal,
            ),
        decreases b@.len() - i,
    {
        assert(a@.skip(from + i)[0] == a@[from + i]);
        assert(b@.skip(i as int)[0] == b@[i as int]);
        assert(a@.skip(from + i).drop_first() =~= a@.skip(from + i + 1));
        assert(b@.skip(i as int).drop_first() =~= b@.skip(i + 1));
        i += 1;
    }
    if i == n {
        i < b.len() || or_equal
    } else if i == b.len() {
        let zeros: usize = zeros_of(a, from + i);
        or_equal && zeros == n - i
    } else {
        assert(a@.skip(from + i)[0] == a@[from + i]);
        assert(b@.skip(i as int)[0] == b@[i as int]);
        a[from + i] < b[i]
    }
}

/// The digits of a mantissa, and where it ends.
fn split_mantissa(chars: &Vec<char>, from: usize) -> (r: (Vec<char>, usize, usize))
    requires
        from <= chars@.len(),
    ensures
        ({
            let s = chars@.skip(from as int);
            &&& r.0@ == mantissa_digits(s)
            &&& r.1 == leading_digits(s)
            &&& r.2 == from + mantissa_end(s)
            &&& r.2 <= chars@.len()
        }),
{
    let ghost s = chars@.skip(from as int);
    let whole: usize = digits_end(chars, from);
    proof {
        assert forall|i: int| 0 <= i < whole - from implies is_digit(#[trigger] s[i]) by {
            assert(s[i] == chars@[from + i]);
        }
        if whole < chars@.len() {
            assert(s[whole - from] == chars@[whole as int]);
        }
        digits_are_counted(s, whole - from);
    }
    let mut digits: Vec<char> = Vec::new();
    let mut i: usize = from;
    while i < whole
        invariant
            from <= i <= whole <= chars@.len(),
            digits@ == chars@.subrange(from as int, i as int),
        decreases whole - i,
    {
        digits.push(chars[i]);
        i += 1;
        assert(digits@ =~= chars@.subrange(from as int, i as int));
    }
    assert(digits@ =~= s.take(whole - from));
    if whole < chars.len() && chars[whole] == '.' {
        let end: usize = digits_end(chars, whole + 1);
        proof {
            let rest = s.skip(whole - from + 1);
            assert forall|i: int| 0 <= i < end - whole - 1 implies is_digit(#[trigger] rest[i]) by {
                assert(rest[i] == chars@[whole + 1 + i]);
            }
            if end < chars@.len() {
                assert(rest[end - whole - 1] == chars@[end as int]);
            }
            digits_are_counted(rest, end - whole - 1);
        }
        let ghost first = digits@;
        let mut j: usize = whole + 1;
        while j < end
            invariant
                whole + 1 <= j <= end <= chars@.len(),
                digits@ == first + chars@.subrange(whole + 1, j as int),
            decreases end - j,
        {
            digits.push(chars[j]);
            j += 1;
            assert(digits@ =~= first + chars@.subrange(whole + 1, j as int));
        }
        assert(chars@.subrange(whole + 1, end as int) =~= s.subrange(
            whole - from + 1,
            end - from,
        ));
        (digits, whole - from, end)
    } else {
        (digits, whole - from, whole)
    }
}

/// The sign of a magnitude: below zero, zero, or above.
fn magnitude_sign(chars: &Vec<char>, end: usize, place: i128) -> (r: i8)
    requires
        end <= chars@.len(),
        is_exponent(chars@.skip(end as int)),
        -0x1_0000_0000_0000_0000 < place < 0x1_0000_0000_0000_0000,
    ensures
        ({
            let m = place + exponent_value(chars@.skip(end as int));
            &&& r < 0 <==> m < 0
            &&& r > 0 <==> m > 0
        }),
{
    let ghost s = chars@.skip(end as int);
    let mut value: i128 = place;
    if end < chars.len() {
        let mut start: usize = end + 1;
        let mut negative = false;
        assert(s.drop_first() =~= chars@.skip(end + 1));
        if start < chars.len() && (chars[start] == '+' || chars[start] == '-') {
            negative = chars[start] == '-';
            assert(s[1] == chars@[start as int]);
            start += 1;
        } else if start < chars.len() {
            assert(s[1] == chars@[start as int]);
        }
        assert(unsigned_part(s.drop_first()) =~= chars@.skip(start as int));
        match read_digits(chars, start, u64::MAX) {
            Some(n) => {
                if negative {
                    value = value - n as i128;
                } else {
                    value = value + n as i128;
                }
            },
            None => {
                return if negative {
                    -1
                } else {
                    1
                };
            },
        }
    }
    if value < 0 {
        -1
    } else if value > 0 {
        1
    } else {
        0
    }
}

/// Whether a text that writes a number writes one below the fraction `0.cut`, or, where
/// `or_equal`, the fraction itself.
pub fn is_below(s: &str, cut: &str, or_equal: bool) -> (r: bool)
    requires
        is_real_text(s@),
    ensures
        r == writes_below(s@, cut@, or_equal),
{
    let chars = chars_of(s);
    let mut from: usize = 0;
    let mut negative = false;
    if chars.len() > 0 && (chars[0] == '+' || chars[0] == '-') {
        from = 1;
        negative = chars[0] == '-';
    }
    let ghost body = unsigned_part(s@);
    assert(body =~= chars@.skip(from as int));
    let text = crate::text::text_of(&chars, from, chars.len());
    assert(text@ =~= body);
    let small = to_lower(&text);
    if same(&small, "nan") {
        return false;
    }
    if negative {
        return true;
    }
    if same(&small, "inf") || same(&small, "infinity") {
        return false;
    }
    let (digits, whole, end) = split_mantissa(&chars, from);
    assert(digits@.skip(0) =~= digits@);
    let zeros: usize = zeros_of(&digits, 0);
    if zeros == digits.len() {
        return true;
    }
    proof {
        let k = choose|k: int| #[trigger] exponent_at(body, k);
        assert(exponent_at(body, k));
        number_ends_with_mantissa(body, k);
        assert(chars@.skip(end as int) =~= body.skip(mantissa_end(body)));
    }
    let sign: i8 = magnitude_sign(&chars, end, whole as i128 - zeros as i128);
    if sign < 0 {
        true
    } else if sign > 0 {
        false
    } else {
        let limit = chars_of(cut);
        is_fraction_below(&digits, zeros, &limit, or_equal)
    }
}

proof fn leading_digits_lead(s: Seq<char>)
    ensures
        0 <= leading_digits(s) <= s.len(),
        forall|i: int| 0 <= i < leading_digits(s) ==> is_digit(#[trigger] s[i]),
        leading_digits(s) < s.len() ==> !is_digit(s[leading_digits(s)]),
    decreases s.len(),
{
    if s.len() > 0 && is_digit(s[0]) {
        let rest = s.drop_first();
        leading_digits_lead(rest);
        assert forall|i: int| 0 <= i < leading_digits(s) implies is_digit(#[trigger] s[i]) by {
            if i > 0 {
                assert(s[i] == rest[i - 1]);
            }
        }
    }
}

proof fn number_ends_with_mantissa(s: Seq<char>, k: int)
    requires
        exponent_at(s, k),
    ensures
        k == mantissa_end(s),
{
    let whole = leading_digits(s);
    let m = mantissa_end(s);
    leading_digits_lead(s);
    if whole < s.len() && s[whole] == '.' {
        let rest = s.skip(whole + 1);
        leading_digits_lead(rest);
        assert forall|i: int| whole < i < m implies is_digit(#[trigger] s[i]) by {
            assert(s[i] == rest[i - whole - 1]);
        }
        if m < s.len() {
            assert(s[m] == rest[m - whole - 1]);
        }
    }
    lemma_one_split(s, whole, m, k);
}

// ---------------------------------------------------------------- whole numbers in 53 bits

/// How far apart the whole numbers stand that 53 bits hold.
pub open spec fn spacing(n: int) -> int {
    if n < 0x20_0000_0000_0000 {
        1
    } else if n < 0x40_0000_0000_0000 {
        2
    } else if n < 0x80_0000_0000_0000 {
        4
    } else if n < 0x100_0000_0000_0000 {
        8
    } else if n < 0x200_0000_0000_0000 {
        16
    } else if n < 0x400_0000_0000_0000 {
        32
    } else if n < 0x800_0000_0000_0000 {
        64
    } else if n < 0x1000_0000_0000_0000 {
        128
    } else if n < 0x2000_0000_0000_0000 {
        256
    } else if n < 0x4000_0000_0000_0000 {
        512
    } else if n < 0x8000_0000_0000_0000 {
        1024
    } else {
        2048
    }
}

/// The quotient nearest to a ratio, the even one where two are equally near.
pub open spec fn nearest(n: int, d: int) -> int {
    if n % d * 2 > d || (n % d * 2 == d && n / d % 2 == 1) {
        n / d + 1
    } else {
        n / d
    }
}

/// A whole number as 53 bits hold it: itself, but for numbers beyond them.
pub open spec fn held(n: int) -> int {
    nearest(n, spacing(n)) * spacing(n)
}

fn spacing_at(n: u64) -> (r: u128)
    ensures
        r == spacing(n as int),
{
    if n < 0x20_0000_0000_0000 {
        1
    } else if n < 0x40_0000_0000_0000 {
        2
    } else if n < 0x80_0000_0000_0000 {
        4
    } else if n < 0x100_0000_0000_0000 {
        8
    } else if n < 0x200_0000_0000_0000 {
        16
    } else if n < 0x400_0000_0000_0000 {
        32
    } else if n < 0x800_0000_0000_0000 {
        64
    } else if n < 0x1000_0000_0000_0000 {
        128
    } else if n < 0x2000_0000_0000_0000 {
        256
    } else if n < 0x4000_0000_0000_0000 {
        512
    } else if n < 0x8000_0000_0000_0000 {
        1024
    } else {
        2048
    }
}

/// The quotient nearest to a ratio, the even one where two are equally near.
pub fn nearest_whole(n: u128, d: u128) -> (r: u128)
    requires
        0 < d <= 1_048_576,
        n <= 0xffff_ffff_ffff_ffff_ffff_ffff,
    ensures
        r == nearest(n as int, d as int),
        r <= n / d + 1,
{
    let whole: u128 = n / d;
    let rest: u128 = n % d;
    assert(whole <= n) by (nonlinear_arith)
        requires
            whole == n / d,
            d > 0,
    ;
    if rest * 2 > d || (rest * 2 == d && whole % 2 == 1) {
        whole + 1
    } else {
        whole
    }
}

/// A whole number as 53 bits hold it.
pub fn held_by_bits(n: u64) -> (r: u128)
    ensures
        r == held(n as int),
        r <= n + 2048,
{
    let unit: u128 = spacing_at(n);
    let count: u128 = nearest_whole(n as u128, unit);
    assert(count * unit <= n + unit) by (nonlinear_arith)
        requires
            count <= n / unit as u64 + 1,
            0 < unit <= 2048,
    ;
    count * unit
}

// ---------------------------------------------------------------- laws of numbers

/// The nearest quotient is at most half off; where two are equally near it is the even one.
pub proof fn the_nearest_is_half_off_at_most(n: int, d: int)
    requires
        d > 0,
    ensures
        -d <= 2 * (nearest(n, d) * d - n) <= d,
        2 * (nearest(n, d) * d - n) == d || 2 * (nearest(n, d) * d - n) == -d ==> nearest(n, d) % 2
            == 0,
{
    let q = n / d;
    let r = n % d;
    assert(n == q * d + r && 0 <= r < d) by (nonlinear_arith)
        requires
            d > 0,
            q == n / d,
            r == n % d,
    ;
    assert((q + 1) * d == q * d + d) by (nonlinear_arith);
}

/// Whole numbers of up to fifty-three bits are held as they are. A larger one is held by the
/// nearest multiple of a power of two, which leaves fifty-three bits of it.
pub proof fn fifty_three_bits_are_held(n: int)
    requires
        0 <= n <= u64::MAX,
    ensures
        n < 0x20_0000_0000_0000 ==> held(n) == n,
        n >= 0x20_0000_0000_0000 ==> 0x10_0000_0000_0000 <= n / spacing(n) < 0x20_0000_0000_0000,
        exists|k: nat| k <= 11 && spacing(n) == #[trigger] vstd::arithmetic::power::pow(2, k),
        -spacing(n) <= 2 * (held(n) - n) <= spacing(n),
        held(n) % spacing(n) == 0,
{
    let s = spacing(n);
    assert(s > 0);
    the_nearest_is_half_off_at_most(n, s);
    let q = nearest(n, s);
    assert((q * s) % s == 0) by (nonlinear_arith)
        requires
            s > 0,
    ;
    reveal_with_fuel(vstd::arithmetic::power::pow, 12);
    let k: nat = if s == 1 {
        0
    } else if s == 2 {
        1
    } else if s == 4 {
        2
    } else if s == 8 {
        3
    } else if s == 16 {
        4
    } else if s == 32 {
        5
    } else if s == 64 {
        6
    } else if s == 128 {
        7
    } else if s == 256 {
        8
    } else if s == 512 {
        9
    } else if s == 1024 {
        10
    } else {
        11
    };
    assert(s == vstd::arithmetic::power::pow(2, k));
}

/// Plus and percent signs do not count in a loose number, wherever they stand.
pub proof fn signs_of_growth_do_not_count(a: Seq<char>, c: char, b: Seq<char>)
    requires
        c == '+' || c == '%',
    ensures
        loose_real(a + seq![c] + b) == loose_real(a + b),
{
    let keep = |c: char| c != '+' && c != '%';
    assert((a + seq![c] + b).filter(keep) == (a + seq![c]).filter(keep) + b.filter(keep)) by {
        Seq::filter_distributes_over_add(a + seq![c], b, keep);
    }
    Seq::filter_distributes_over_add(a, seq![c], keep);
    Seq::filter_distributes_over_add(a, b, keep);
    assert(seq![c].filter(keep) =~= Seq::empty()) by {
        reveal_with_fuel(Seq::filter, 2);
        assert(seq![c].drop_last() =~= Seq::empty());
    }
    assert(a.filter(keep) + Seq::<char>::empty() =~= a.filter(keep));
    assert(bare(a + seq![c] + b) =~= (a + seq![c] + b).filter(keep));
    assert(bare(a + b) =~= (a + b).filter(keep));
}

} // verus!
