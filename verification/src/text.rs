//! Text as a sequence of characters: searching, trimming, splitting, joining, ordering, and
//! decimal numbers.

use vstd::prelude::*;

verus! {

/// `String::push` appends one character.
pub assume_specification[ String::push ](s: &mut String, c: char)
    ensures
        final(s)@ == old(s)@.push(c),
;

/// The characters that Unicode lists under `White_Space`.
pub open spec fn is_white(c: char) -> bool {
    ||| '\u{9}' <= c <= '\u{d}'
    ||| c == ' '
    ||| c == '\u{85}'
    ||| c == '\u{a0}'
    ||| c == '\u{1680}'
    ||| '\u{2000}' <= c <= '\u{200a}'
    ||| c == '\u{2028}'
    ||| c == '\u{2029}'
    ||| c == '\u{202f}'
    ||| c == '\u{205f}'
    ||| c == '\u{3000}'
}

pub open spec fn is_digit(c: char) -> bool {
    '0' <= c <= '9'
}

/// The text without white space at either end.
pub open spec fn trimmed(s: Seq<char>) -> Seq<char>
    decreases s.len(),
{
    if s.len() == 0 {
        s
    } else if is_white(s.first()) {
        trimmed(s.drop_first())
    } else if is_white(s.last()) {
        trimmed(s.drop_last())
    } else {
        s
    }
}

/// `word` stands in `s` from position `at` on.
pub open spec fn stands_at(s: Seq<char>, word: Seq<char>, at: int) -> bool {
    0 <= at <= s.len() - word.len() && s.subrange(at, at + word.len()) == word
}

/// `word` stands somewhere in `s`.
pub open spec fn holds(s: Seq<char>, word: Seq<char>) -> bool {
    exists|at: int| #[trigger] stands_at(s, word, at)
}

pub open spec fn lower_char(c: char) -> char {
    if 'A' <= c <= 'Z' {
        ((c as u8) + 32) as char
    } else {
        c
    }
}

/// The text with its ASCII capitals made small.
pub open spec fn lower(s: Seq<char>) -> Seq<char> {
    s.map_values(|c: char| lower_char(c))
}

/// The first `n` characters, or all of them where there are fewer.
pub open spec fn first_chars(s: Seq<char>, n: int) -> Seq<char> {
    if s.len() <= n {
        s
    } else {
        s.take(n)
    }
}

/// `a` comes before `b` in the order of code points, or is `b`.
pub open spec fn at_most(a: Seq<char>, b: Seq<char>) -> bool
    decreases a.len(),
{
    ||| a.len() == 0
    ||| {
        &&& b.len() > 0
        &&& (a[0] < b[0] || (a[0] == b[0] && at_most(a.drop_first(), b.drop_first())))
    }
}

/// The parts of `s` between the separators.
pub open spec fn parts(s: Seq<char>, sep: char) -> Seq<Seq<char>>
    decreases s.len(),
{
    if s.len() == 0 {
        seq![Seq::empty()]
    } else {
        let before = parts(s.drop_last(), sep);
        if s.last() == sep {
            before.push(Seq::empty())
        } else {
            before.update(before.len() - 1, before.last().push(s.last()))
        }
    }
}

/// The texts one behind the other with `sep` between neighbours.
pub open spec fn joined(list: Seq<Seq<char>>, sep: Seq<char>) -> Seq<char>
    decreases list.len(),
{
    if list.len() == 0 {
        Seq::empty()
    } else if list.len() == 1 {
        list[0]
    } else {
        joined(list.drop_last(), sep) + sep + list.last()
    }
}

/// The views of a list of texts.
pub open spec fn views(list: Seq<String>) -> Seq<Seq<char>> {
    list.map_values(|s: String| s@)
}

/// Pairs of texts by their contents.
pub open spec fn pair_views(list: Seq<(String, String)>) -> Seq<(Seq<char>, Seq<char>)> {
    list.map_values(|p: (String, String)| (p.0@, p.1@))
}

pub open spec fn digit_char(d: int) -> char {
    (48 + d) as char
}

/// `n` in decimal digits, without leading zeros.
pub open spec fn decimal(n: nat) -> Seq<char>
    decreases n,
{
    if n < 10 {
        seq![digit_char(n as int)]
    } else {
        decimal(n / 10).push(digit_char((n % 10) as int))
    }
}

/// `i` in decimal digits, with a minus sign where it is negative.
pub open spec fn decimal_int(i: int) -> Seq<char> {
    if i < 0 {
        "-"@ + decimal((-i) as nat)
    } else {
        decimal(i as nat)
    }
}

/// `n`, which is below a hundred, in two digits.
pub open spec fn two_digits(n: int) -> Seq<char> {
    seq![digit_char(n / 10), digit_char(n % 10)]
}

pub open spec fn all_digits(s: Seq<char>) -> bool {
    forall|i: int| 0 <= i < s.len() ==> is_digit(#[trigger] s[i])
}

/// The number that decimal digits stand for.
pub open spec fn digits_value(s: Seq<char>) -> nat
    decreases s.len(),
{
    if s.len() == 0 {
        0
    } else {
        digits_value(s.drop_last()) * 10 + ((s.last() as u32) - 48) as nat
    }
}

/// The number that a run of digits behind an optional plus sign stands for.
pub open spec fn unsigned_value(s: Seq<char>) -> Option<nat> {
    let body = if s.len() > 0 && s[0] == '+' {
        s.drop_first()
    } else {
        s
    };
    if body.len() > 0 && all_digits(body) {
        Some(digits_value(body))
    } else {
        None
    }
}

/// The number that a run of digits behind an optional sign stands for.
pub open spec fn signed_value(s: Seq<char>) -> Option<int> {
    if s.len() > 0 && s[0] == '-' {
        let body = s.drop_first();
        if body.len() > 0 && all_digits(body) {
            Some(-(digits_value(body) as int))
        } else {
            None
        }
    } else {
        match unsigned_value(s) {
            Some(n) => Some(n as int),
            None => None,
        }
    }
}

pub open spec fn in_i64(i: int) -> bool {
    i64::MIN <= i <= i64::MAX
}

/// The `i64` that `s` writes, where there is one.
pub open spec fn read_i64(s: Seq<char>) -> Option<i64> {
    match signed_value(s) {
        Some(i) => if in_i64(i) {
            Some(i as i64)
        } else {
            None
        },
        None => None,
    }
}

/// The unsigned number of at most `max` that `s` writes, where there is one.
pub open spec fn read_unsigned(s: Seq<char>, max: nat) -> Option<nat> {
    match unsigned_value(s) {
        Some(n) => if n <= max {
            Some(n)
        } else {
            None
        },
        None => None,
    }
}

// ---------------------------------------------------------------- characters and copies

pub fn char_is_white(c: char) -> (r: bool)
    ensures
        r == is_white(c),
{
    ('\u{9}' <= c && c <= '\u{d}') || c == ' ' || c == '\u{85}' || c == '\u{a0}' || c == '\u{1680}'
        || ('\u{2000}' <= c && c <= '\u{200a}') || c == '\u{2028}' || c == '\u{2029}' || c
        == '\u{202f}' || c == '\u{205f}' || c == '\u{3000}'
}

pub fn char_is_digit(c: char) -> (r: bool)
    ensures
        r == is_digit(c),
{
    '0' <= c && c <= '9'
}

/// The characters of a text, one by one.
pub fn chars_of(s: &str) -> (r: Vec<char>)
    ensures
        r@ == s@,
{
    let mut out: Vec<char> = Vec::new();
    for c in it: s.chars()
        invariant
            it.seq() == s@,
            out@ == s@.take(it.index() as int),
    {
        assert(s@.take(it.index() + 1) == s@.take(it.index() as int).push(c));
        out.push(c);
    }
    assert(s@.take(s@.len() as int) == s@);
    out
}

/// The text made of `chars[from..to]`.
pub fn text_of(chars: &Vec<char>, from: usize, to: usize) -> (r: String)
    requires
        from <= to <= chars@.len(),
    ensures
        r@ == chars@.subrange(from as int, to as int),
{
    let mut out = String::new();
    let mut i: usize = from;
    while i < to
        invariant
            from <= i <= to <= chars@.len(),
            out@ == chars@.subrange(from as int, i as int),
        decreases to - i,
    {
        assert(chars@.subrange(from as int, i + 1) == chars@.subrange(from as int, i as int).push(
            chars@[i as int],
        ));
        out.push(chars[i]);
        i += 1;
    }
    out
}

/// Whether two texts are the same.
pub fn same(a: &str, b: &str) -> (r: bool)
    ensures
        r == (a@ == b@),
{
    a.to_string() == b.to_string()
}

// ---------------------------------------------------------------- searching

/// Whether `word` stands in `s` at position `at`.
fn word_at(s: &Vec<char>, word: &Vec<char>, at: usize) -> (r: bool)
    requires
        at + word@.len() <= s@.len(),
    ensures
        r == stands_at(s@, word@, at as int),
{
    let n: usize = s.len();
    let mut i: usize = 0;
    while i < word.len()
        invariant
            i <= word@.len(),
            at + word@.len() <= s@.len(),
            n == s@.len(),
            forall|j: int| 0 <= j < i ==> s@[at + j] == word@[j],
        decreases word@.len() - i,
    {
        if s[at + i] != word[i] {
            assert(s@.subrange(at as int, at + word@.len())[i as int] != word@[i as int]);
            return false;
        }
        i += 1;
    }
    assert(s@.subrange(at as int, at + word@.len()) =~= word@);
    true
}

/// Whether `word` stands somewhere in `s`.
pub fn contains(s: &str, word: &str) -> (r: bool)
    ensures
        r == holds(s@, word@),
{
    let text = chars_of(s);
    let w = chars_of(word);
    if w.len() > text.len() {
        return false;
    }
    let last: usize = text.len() - w.len();
    let mut at: usize = 0;
    while at <= last
        invariant
            text@ == s@,
            w@ == word@,
            last == text@.len() - w@.len(),
            at <= last + 1,
            forall|k: int| 0 <= k < at ==> !stands_at(s@, word@, k),
        decreases last + 1 - at,
    {
        if word_at(&text, &w, at) {
            return true;
        }
        if at == last {
            assert(forall|k: int| !stands_at(s@, word@, k));
            return false;
        }
        at += 1;
    }
    false
}

/// Whether `s` begins with the character `c`.
pub fn begins_with(s: &str, c: char) -> (r: bool)
    ensures
        r == (s@.len() > 0 && s@[0] == c),
{
    let text = chars_of(s);
    text.len() > 0 && text[0] == c
}

/// Whether `list` has an entry equal to `word`, and the first such position.
pub fn position(list: &Vec<String>, word: &str) -> (r: Option<usize>)
    ensures
        match r {
            Some(i) => i < list@.len() && list@[i as int]@ == word@ && forall|j: int|
                0 <= j < i ==> (#[trigger] list@[j])@ != word@,
            None => forall|j: int| 0 <= j < list@.len() ==> (#[trigger] list@[j])@ != word@,
        },
{
    let mut i: usize = 0;
    while i < list.len()
        invariant
            i <= list@.len(),
            forall|j: int| 0 <= j < i ==> (#[trigger] list@[j])@ != word@,
        decreases list@.len() - i,
    {
        if same(&list[i], word) {
            return Some(i);
        }
        i += 1;
    }
    None
}

// ---------------------------------------------------------------- making texts from texts

proof fn lemma_trimmed_front(s: Seq<char>, k: int)
    requires
        0 <= k <= s.len(),
        forall|i: int| 0 <= i < k ==> is_white(#[trigger] s[i]),
    ensures
        trimmed(s) == trimmed(s.skip(k)),
    decreases k,
{
    if k == 0 {
        assert(s.skip(0) == s);
    } else {
        assert(is_white(s[0]));
        assert(s.first() == s[0]);
        let t = s.drop_first();
        assert forall|i: int| 0 <= i < k - 1 implies is_white(#[trigger] t[i]) by {
            assert(t[i] == s[i + 1]);
        }
        lemma_trimmed_front(t, k - 1);
        assert(t.skip(k - 1) =~= s.skip(k));
    }
}

proof fn lemma_trimmed_back(s: Seq<char>, k: int)
    requires
        0 <= k <= s.len(),
        s.len() > 0 ==> !is_white(s[0]),
        forall|i: int| k <= i < s.len() ==> is_white(#[trigger] s[i]),
    ensures
        trimmed(s) == trimmed(s.take(k)),
    decreases s.len() - k,
{
    if k == s.len() {
        assert(s.take(k) == s);
    } else {
        assert(is_white(s[s.len() - 1]));
        let t = s.drop_last();
        if t.len() > 0 {
            assert(t[0] == s[0]);
        }
        assert forall|i: int| k <= i < t.len() implies is_white(#[trigger] t[i]) by {
            assert(t[i] == s[i]);
        }
        lemma_trimmed_back(t, k);
        assert(t.take(k) =~= s.take(k));
    }
}

/// The text without white space at either end.
pub fn trim(s: &str) -> (r: String)
    ensures
        r@ == trimmed(s@),
{
    let text = chars_of(s);
    let n: usize = text.len();
    let mut a: usize = 0;
    while a < n && char_is_white(text[a])
        invariant
            n == text@.len(),
            a <= n,
            forall|i: int| 0 <= i < a ==> is_white(#[trigger] text@[i]),
        decreases n - a,
    {
        a += 1;
    }
    let mut b: usize = n;
    while b > a && char_is_white(text[b - 1])
        invariant
            n == text@.len(),
            a <= b <= n,
            forall|i: int| b <= i < n ==> is_white(#[trigger] text@[i]),
        decreases b,
    {
        b -= 1;
    }
    proof {
        lemma_trimmed_front(text@, a as int);
        let t = text@.skip(a as int);
        if t.len() > 0 {
            assert(t[0] == text@[a as int]);
        }
        assert forall|i: int| b - a <= i < t.len() implies is_white(#[trigger] t[i]) by {
            assert(t[i] == text@[a + i]);
        }
        lemma_trimmed_back(t, b - a);
        let m = t.take(b - a);
        assert(m =~= text@.subrange(a as int, b as int));
        if m.len() > 0 {
            assert(m.first() == text@[a as int]);
            assert(m.last() == text@[b - 1]);
        }
    }
    text_of(&text, a, b)
}

/// The text with its ASCII capitals made small.
pub fn to_lower(s: &str) -> (r: String)
    ensures
        r@ == lower(s@),
{
    let text = chars_of(s);
    let mut out = String::new();
    let mut i: usize = 0;
    while i < text.len()
        invariant
            text@ == s@,
            i <= text@.len(),
            out@ == lower(s@.take(i as int)),
        decreases text@.len() - i,
    {
        let c = text[i];
        let small: char = if 'A' <= c && c <= 'Z' {
            ((c as u8) + 32) as char
        } else {
            c
        };
        assert(s@.take(i + 1) =~= s@.take(i as int).push(c));
        assert(lower(s@.take(i + 1)) =~= lower(s@.take(i as int)).push(lower_char(c)));
        out.push(small);
        i += 1;
    }
    assert(s@.take(s@.len() as int) == s@);
    out
}

/// The first `n` characters, or all of them where there are fewer.
pub fn take_chars(s: &str, n: usize) -> (r: String)
    ensures
        r@ == first_chars(s@, n as int),
{
    let text = chars_of(s);
    if text.len() <= n {
        assert(text@.subrange(0, text@.len() as int) =~= s@);
        text_of(&text, 0, text.len())
    } else {
        text_of(&text, 0, n)
    }
}

/// Whether `a` comes before `b` in the order of code points, or is `b`.
pub fn is_at_most(a: &str, b: &str) -> (r: bool)
    ensures
        r == at_most(a@, b@),
{
    let x = chars_of(a);
    let y = chars_of(b);
    let mut i: usize = 0;
    proof {
        assert(a@.skip(0) == a@);
        assert(b@.skip(0) == b@);
    }
    while i < x.len()
        invariant
            x@ == a@,
            y@ == b@,
            i <= x@.len(),
            i <= y@.len(),
            at_most(a@, b@) == at_most(a@.skip(i as int), b@.skip(i as int)),
        decreases x@.len() - i,
    {
        let ghost p = a@.skip(i as int);
        let ghost q = b@.skip(i as int);
        if i >= y.len() {
            return false;
        }
        assert(p[0] == a@[i as int] && q[0] == b@[i as int]);
        if x[i] < y[i] {
            return true;
        }
        if x[i] != y[i] {
            return false;
        }
        assert(p.drop_first() =~= a@.skip(i + 1));
        assert(q.drop_first() =~= b@.skip(i + 1));
        i += 1;
    }
    true
}

/// The parts of `s` between the separators.
pub fn split(s: &str, sep: char) -> (r: Vec<String>)
    ensures
        views(r@) == parts(s@, sep),
{
    let text = chars_of(s);
    let mut done: Vec<String> = Vec::new();
    let mut current = String::new();
    let mut i: usize = 0;
    assert(views(done@).push(current@) =~= parts(s@.take(0), sep));
    while i < text.len()
        invariant
            text@ == s@,
            i <= text@.len(),
            views(done@).push(current@) == parts(s@.take(i as int), sep),
        decreases text@.len() - i,
    {
        let c = text[i];
        let ghost before = views(done@).push(current@);
        assert(s@.take(i + 1).drop_last() =~= s@.take(i as int));
        assert(before.last() == current@);
        if c == sep {
            let ghost prior = done@;
            done.push(current);
            current = String::new();
            assert(views(done@) =~= before);
            assert(views(done@).push(current@) =~= before.push(Seq::empty()));
        } else {
            current.push(c);
            assert(views(done@).push(current@) =~= before.update(
                before.len() - 1,
                before.last().push(c),
            ));
        }
        i += 1;
    }
    assert(s@.take(s@.len() as int) == s@);
    let ghost whole = views(done@).push(current@);
    done.push(current);
    assert(views(done@) =~= whole);
    done
}

/// The texts one behind the other with `sep` between neighbours.
pub fn join(list: &Vec<String>, sep: &str) -> (r: String)
    ensures
        r@ == joined(views(list@), sep@),
{
    let mut out = String::new();
    let mut i: usize = 0;
    while i < list.len()
        invariant
            i <= list@.len(),
            out@ == joined(views(list@).take(i as int), sep@),
        decreases list@.len() - i,
    {
        let ghost upto = views(list@).take(i + 1);
        assert(upto.drop_last() =~= views(list@).take(i as int));
        assert(upto.last() == list@[i as int]@);
        if i > 0 {
            out.append(sep);
        }
        out.append(&list[i]);
        assert(out@ =~= joined(upto, sep@));
        i += 1;
    }
    assert(views(list@).take(list@.len() as int) =~= views(list@));
    out
}

// ---------------------------------------------------------------- decimal numbers

/// `n` in decimal digits.
pub fn write_u64(n: u64) -> (r: String)
    ensures
        r@ == decimal(n as nat),
{
    write_u128(n as u128)
}

/// `n` in decimal digits.
pub fn write_u128(n: u128) -> (r: String)
    ensures
        r@ == decimal(n as nat),
    decreases n,
{
    let d: u8 = (n % 10) as u8;
    let c = (48u8 + d) as char;
    if n < 10 {
        let mut s = String::new();
        s.push(c);
        assert(s@ =~= decimal(n as nat));
        s
    } else {
        let mut s = write_u128(n / 10);
        s.push(c);
        s
    }
}

/// `n` in decimal digits.
pub fn write_usize(n: usize) -> (r: String)
    ensures
        r@ == decimal(n as nat),
{
    write_u64(n as u64)
}

/// `i` in decimal digits, with a minus sign where it is negative.
pub fn write_i64(i: i64) -> (r: String)
    ensures
        r@ == decimal_int(i as int),
{
    if i < 0 {
        let mut s = "-".to_string();
        let size: u64 = (-(i as i128)) as u64;
        let digits = write_u64(size);
        s.append(&digits);
        s
    } else {
        write_u64(i as u64)
    }
}

/// `n`, which is below a hundred, in two digits.
pub fn write_two(n: u32) -> (r: String)
    requires
        n < 100,
    ensures
        r@ == two_digits(n as int),
{
    let mut s = String::new();
    s.push((48u8 + (n / 10) as u8) as char);
    s.push((48u8 + (n % 10) as u8) as char);
    assert(s@ =~= two_digits(n as int));
    s
}

proof fn lemma_digits_value_grows(s: Seq<char>, k: int)
    requires
        0 <= k <= s.len(),
    ensures
        digits_value(s.take(k)) <= digits_value(s),
    decreases s.len(),
{
    if k < s.len() {
        lemma_digits_value_grows(s.drop_last(), k);
        assert(s.drop_last().take(k) =~= s.take(k));
    } else {
        assert(s.take(k) == s);
    }
}

/// The value of `chars[from..]` where those are digits, at least one, and the value is at most
/// `max`.
pub fn read_digits(chars: &Vec<char>, from: usize, max: u64) -> (r: Option<u64>)
    requires
        from <= chars@.len(),
    ensures
        ({
            let body = chars@.skip(from as int);
            match r {
                Some(n) => body.len() > 0 && all_digits(body) && digits_value(body) == n && n
                    <= max,
                None => body.len() == 0 || !all_digits(body) || digits_value(body) > max,
            }
        }),
{
    let ghost body = chars@.skip(from as int);
    if from >= chars.len() {
        return None;
    }
    let mut n: u64 = 0;
    let mut i: usize = from;
    while i < chars.len()
        invariant
            from <= i <= chars@.len(),
            body == chars@.skip(from as int),
            n <= max,
            n == digits_value(body.take(i - from)),
            forall|j: int| 0 <= j < i - from ==> is_digit(#[trigger] body[j]),
        decreases chars@.len() - i,
    {
        let c = chars[i];
        let ghost k = i - from;
        assert(body[k] == c);
        if !char_is_digit(c) {
            return None;
        }
        let d: u64 = (c as u32 - 48) as u64;
        proof {
            assert(body.take(k + 1).drop_last() =~= body.take(k));
            assert(digits_value(body.take(k + 1)) == n * 10 + d);
            lemma_digits_value_grows(body, k + 1);
        }
        if n > max / 10 || d > max - n * 10 {
            return None;
        }
        n = n * 10 + d;
        i += 1;
    }
    assert(body.take(body.len() as int) == body);
    Some(n)
}

/// The unsigned number of at most `max` that `s` writes, where there is one.
pub fn parse_unsigned(s: &str, max: u64) -> (r: Option<u64>)
    ensures
        match r {
            Some(n) => read_unsigned(s@, max as nat) == Some(n as nat),
            None => read_unsigned(s@, max as nat) is None,
        },
{
    let text = chars_of(s);
    assert(s@.skip(0) == s@);
    if text.len() > 0 && text[0] == '+' {
        assert(s@.skip(1) =~= s@.drop_first());
        read_digits(&text, 1, max)
    } else {
        read_digits(&text, 0, max)
    }
}

/// The `i64` that `s` writes, where there is one.
pub fn parse_i64(s: &str) -> (r: Option<i64>)
    ensures
        r == read_i64(s@),
{
    let text = chars_of(s);
    if text.len() > 0 && text[0] == '-' {
        assert(s@.skip(1) =~= s@.drop_first());
        match read_digits(&text, 1, 0x8000_0000_0000_0000) {
            Some(n) => Some((-(n as i128)) as i64),
            None => None,
        }
    } else {
        match parse_unsigned(s, 0x7fff_ffff_ffff_ffff) {
            Some(n) => Some(n as i64),
            None => None,
        }
    }
}

/// Adds a pair to a list.
pub fn push_pair(list: &mut Vec<(String, String)>, name: &str, value: &str)
    ensures
        pair_views(final(list)@) == pair_views(old(list)@).push((name@, value@)),
{
    list.push((name.to_string(), value.to_string()));
    assert(pair_views(list@) =~= pair_views(old(list)@).push((name@, value@)));
}

// ---------------------------------------------------------------- the order of texts

/// Of two texts at least one comes before the other or is it.
pub proof fn order_is_total(a: Seq<char>, b: Seq<char>)
    ensures
        at_most(a, b) || at_most(b, a),
    decreases a.len(),
{
    if a.len() > 0 && b.len() > 0 && a[0] == b[0] {
        order_is_total(a.drop_first(), b.drop_first());
    }
}

/// A text before another comes before all that this one comes before.
pub proof fn order_is_transitive(a: Seq<char>, b: Seq<char>, c: Seq<char>)
    requires
        at_most(a, b),
        at_most(b, c),
    ensures
        at_most(a, c),
    decreases a.len(),
{
    if a.len() > 0 && a[0] == b[0] && b[0] == c[0] {
        order_is_transitive(a.drop_first(), b.drop_first(), c.drop_first());
    }
}

/// Two texts that each come before the other or are it are the same.
pub proof fn order_is_antisymmetric(a: Seq<char>, b: Seq<char>)
    requires
        at_most(a, b),
        at_most(b, a),
    ensures
        a == b,
    decreases a.len(),
{
    if a.len() == 0 {
        assert(a =~= b);
    } else {
        order_is_antisymmetric(a.drop_first(), b.drop_first());
        assert(a =~= seq![a[0]] + a.drop_first());
        assert(b =~= seq![b[0]] + b.drop_first());
    }
}

// ---------------------------------------------------------------- laws of texts

/// A number in decimal digits reads back as itself, and begins with a zero only where it is one.
pub proof fn decimals_read_back(n: nat)
    ensures
        all_digits(decimal(n)),
        decimal(n).len() > 0,
        digits_value(decimal(n)) == n,
        decimal(n)[0] == '0' ==> n == 0,
    decreases n,
{
    if n < 10 {
        reveal_with_fuel(digits_value, 2);
        assert(decimal(n).drop_last() =~= Seq::empty());
    } else {
        decimals_read_back(n / 10);
        let s = decimal(n);
        assert(s.drop_last() =~= decimal(n / 10));
        assert forall|i: int| 0 <= i < s.len() implies is_digit(#[trigger] s[i]) by {
            if i < s.len() - 1 {
                assert(is_digit(decimal(n / 10)[i]));
            }
        }
        assert(s[0] == decimal(n / 10)[0]);
    }
}

/// White space around a text is taken off, all of it and nothing else.
pub proof fn white_space_is_taken_off(before: Seq<char>, s: Seq<char>, after: Seq<char>)
    requires
        forall|i: int| 0 <= i < before.len() ==> is_white(#[trigger] before[i]),
        forall|i: int| 0 <= i < after.len() ==> is_white(#[trigger] after[i]),
        s.len() > 0 ==> !is_white(s.first()) && !is_white(s.last()),
    ensures
        trimmed(before + s + after) == s,
    decreases before.len() + after.len(),
{
    let all = before + s + after;
    if before.len() > 0 {
        let rest = before.drop_first();
        assert(is_white(before[0]));
        assert forall|i: int| 0 <= i < rest.len() implies is_white(#[trigger] rest[i]) by {
            assert(rest[i] == before[i + 1]);
        }
        assert(all.drop_first() =~= rest + s + after);
        white_space_is_taken_off(rest, s, after);
    } else if s.len() == 0 {
        if after.len() > 0 {
            let rest = after.drop_first();
            assert(is_white(after[0]));
            assert forall|i: int| 0 <= i < rest.len() implies is_white(#[trigger] rest[i]) by {
                assert(rest[i] == after[i + 1]);
            }
            assert(all.drop_first() =~= before + s + rest);
            white_space_is_taken_off(before, s, rest);
        } else {
            assert(all =~= s);
        }
    } else if after.len() > 0 {
        let rest = after.drop_last();
        assert(is_white(after.last()));
        assert forall|i: int| 0 <= i < rest.len() implies is_white(#[trigger] rest[i]) by {
            assert(rest[i] == after[i]);
        }
        assert(all.drop_last() =~= before + s + rest);
        assert(all.first() == s.first());
        white_space_is_taken_off(before, s, rest);
    } else {
        assert(all =~= s);
    }
}

/// The parts of a text hold no separator, and with separators between are the text again.
pub proof fn parts_join_back(s: Seq<char>, sep: char)
    ensures
        parts(s, sep).len() > 0,
        joined(parts(s, sep), seq![sep]) == s,
        forall|i: int, j: int|
            0 <= i < parts(s, sep).len() && 0 <= j < parts(s, sep)[i].len()
                ==> #[trigger] parts(s, sep)[i][j] != sep,
    decreases s.len(),
{
    let all = parts(s, sep);
    if s.len() == 0 {
        assert(joined(all, seq![sep]) =~= s);
    } else {
        let head = s.drop_last();
        let before = parts(head, sep);
        parts_join_back(head, sep);
        if s.last() == sep {
            assert(all.drop_last() =~= before);
            assert(joined(all, seq![sep]) =~= s);
        } else {
            assert(all.drop_last() =~= before.drop_last());
            if before.len() == 1 {
                assert(joined(all, seq![sep]) =~= s);
            } else {
                assert(joined(all, seq![sep]) == joined(before.drop_last(), seq![sep]) + seq![sep]
                    + before.last().push(s.last()));
                assert(joined(all, seq![sep]) =~= joined(before, seq![sep]).push(s.last()));
                assert(joined(all, seq![sep]) =~= s);
            }
            assert forall|i: int, j: int|
                0 <= i < all.len() && 0 <= j < all[i].len() implies #[trigger] all[i][j]
                != sep by {
                if i < before.len() - 1 {
                    assert(all[i] == before[i]);
                    assert(before[i][j] != sep);
                } else if j < before[i].len() {
                    assert(before[i][j] != sep);
                }
            }
        }
    }
}

/// Capitals from `A` to `Z` are made small; every other letter stays.
pub proof fn capitals_are_made_small(s: Seq<char>, i: int)
    requires
        0 <= i < s.len(),
    ensures
        lower(s).len() == s.len(),
        'A' <= s[i] <= 'Z' ==> lower(s)[i] as u32 == s[i] as u32 + 32,
        !('A' <= s[i] <= 'Z') ==> lower(s)[i] == s[i],
{
}

/// A whole number that was written in decimal digits reads back as itself, where the limit allows
/// it; with a plus in front it reads the same.
pub proof fn whole_numbers_read_back(n: nat, i: int, max: nat)
    ensures
        n <= max ==> read_unsigned(decimal(n), max) == Some(n),
        n > max ==> read_unsigned(decimal(n), max) is None,
        n <= max ==> read_unsigned("+"@ + decimal(n), max) == Some(n),
        i64::MIN <= i <= i64::MAX ==> read_i64(decimal_int(i)) == Some(i as i64),
        !(i64::MIN <= i <= i64::MAX) ==> read_i64(decimal_int(i)) is None,
{
    reveal_strlit("+");
    reveal_strlit("-");
    decimals_read_back(n);
    assert(is_digit(decimal(n)[0]));
    assert(("+"@ + decimal(n)).drop_first() =~= decimal(n));
    if i < 0 {
        decimals_read_back((-i) as nat);
        assert(decimal_int(i).drop_first() =~= decimal((-i) as nat));
    } else {
        decimals_read_back(i as nat);
        assert(is_digit(decimal(i as nat)[0]));
    }
}

/// What holds a character beside digits behind its sign is no whole number, and neither is a sign
/// alone.
pub proof fn other_texts_are_no_whole_numbers(s: Seq<char>, k: int, max: nat)
    requires
        s.len() == 0 || (s.len() == 1 && !is_digit(s[0])) || (0 <= k < s.len() && !is_digit(s[k])
            && (k
            > 0 || (s[0] != '+' && s[0] != '-'))),
    ensures
        read_unsigned(s, max) is None,
        read_i64(s) is None,
{
    if s.len() > 0 {
        let body = s.drop_first();
        if 0 < k < s.len() && !is_digit(s[k]) {
            assert(body[k - 1] == s[k]);
            assert(!all_digits(body));
        }
        if 0 <= k < s.len() && !is_digit(s[k]) {
            assert(!all_digits(s));
        }
        if s.len() == 1 && !is_digit(s[0]) {
            assert(!all_digits(s));
        }
    }
}

/// The characters that count as white space, by their code points.
pub proof fn white_space_by_code_points(c: char)
    ensures
        is_white(c) <==> {
            let n = c as u32;
            ||| n == 0x20
            ||| 0x09 <= n <= 0x0d
            ||| n == 0x85 || n == 0xa0 || n == 0x1680
            ||| 0x2000 <= n <= 0x200a
            ||| n == 0x2028 || n == 0x2029 || n == 0x202f || n == 0x205f || n == 0x3000
        },
{
}

} // verus!
