//! Text building blocks: comparing, scanning and rewriting strings, and
//! writing numbers in decimal.

use vstd::prelude::*;
use vstd::string::StrSliceExecFns;

verus! {

/// The decimal digit character of a number below ten.
pub open spec fn digit_char(d: nat) -> char {
    if d == 0 {
        '0'
    } else if d == 1 {
        '1'
    } else if d == 2 {
        '2'
    } else if d == 3 {
        '3'
    } else if d == 4 {
        '4'
    } else if d == 5 {
        '5'
    } else if d == 6 {
        '6'
    } else if d == 7 {
        '7'
    } else if d == 8 {
        '8'
    } else {
        '9'
    }
}

/// The decimal writing of a natural number, without leading zeros.
pub open spec fn dec_digits(n: nat) -> Seq<char>
    decreases n,
{
    if n < 10 {
        seq![digit_char(n)]
    } else {
        dec_digits(n / 10).push(digit_char(n % 10))
    }
}

/// The decimal writing of an integer, with a minus sign when negative.
pub open spec fn int_text(n: int) -> Seq<char> {
    if n < 0 {
        seq!['-'] + dec_digits((-n) as nat)
    } else {
        dec_digits(n as nat)
    }
}

/// A number below one hundred written with exactly two digits.
pub open spec fn two_digits(d: nat) -> Seq<char> {
    seq![digit_char(d / 10), digit_char(d % 10)]
}

/// Whether `pat` occurs in `s` starting at position `i`.
pub open spec fn occurs_at(s: Seq<char>, pat: Seq<char>, i: int) -> bool {
    0 <= i && i + pat.len() <= s.len() && s.subrange(i, i + pat.len()) == pat
}

/// Whether `pat` occurs anywhere in `s`.
pub open spec fn contains_seq(s: Seq<char>, pat: Seq<char>) -> bool {
    exists|i: int| #[trigger] occurs_at(s, pat, i)
}

/// `s` with every occurrence of the non-empty `pat` replaced by `rep`,
/// scanning from the left and not overlapping.
pub open spec fn replace_all(s: Seq<char>, pat: Seq<char>, rep: Seq<char>) -> Seq<char>
    decreases s.len(),
{
    if pat.len() == 0 || s.len() < pat.len() {
        s
    } else if s.take(pat.len() as int) == pat {
        rep + replace_all(s.skip(pat.len() as int), pat, rep)
    } else {
        seq![s[0]] + replace_all(s.skip(1), pat, rep)
    }
}

/// `s` with its first occurrence of the non-empty `pat` replaced by `rep`.
pub open spec fn replace_first(s: Seq<char>, pat: Seq<char>, rep: Seq<char>) -> Seq<char>
    decreases s.len(),
{
    if pat.len() == 0 || s.len() < pat.len() {
        s
    } else if s.take(pat.len() as int) == pat {
        rep + s.skip(pat.len() as int)
    } else {
        seq![s[0]] + replace_first(s.skip(1), pat, rep)
    }
}

/// Appends a character to a string.
///
/// Trusted: calls `String::push`, which std documents as appending the
/// character to the end of the string.
#[verifier::external_body]
pub fn push_char(s: &mut String, c: char)
    ensures
        final(s)@ == old(s)@.push(c),
{
    s.push(c);
}

/// Appends a string to a string.
pub fn push_str(s: &mut String, t: &str)
    ensures
        final(s)@ == old(s)@ + t@,
{
    let chars = chars_of(t);
    let mut i: usize = 0;
    while i < chars.len()
        invariant
            i <= chars@.len(),
            chars@ == t@,
            s@ == old(s)@ + t@.take(i as int),
        decreases chars@.len() - i,
    {
        push_char(s, chars[i]);
        assert(t@.take(i + 1) == t@.take(i as int).push(t@[i as int]));
        i = i + 1;
    }
    assert(t@.take(t@.len() as int) == t@);
}

/// The characters of a string.
pub fn chars_of(s: &str) -> (r: Vec<char>)
    ensures
        r@ == s@,
{
    let n = s.unicode_len();
    let mut r: Vec<char> = Vec::new();
    let mut i: usize = 0;
    while i < n
        invariant
            n == s@.len(),
            i <= n,
            r@ == s@.take(i as int),
        decreases n - i,
    {
        let c = s.get_char(i);
        r.push(c);
        assert(s@.take(i + 1) == s@.take(i as int).push(c));
        i = i + 1;
    }
    assert(s@.take(n as int) == s@);
    r
}

/// A string made of the given characters.
pub fn string_of(v: &Vec<char>) -> (r: String)
    ensures
        r@ == v@,
{
    let mut r = String::new();
    let mut i: usize = 0;
    while i < v.len()
        invariant
            i <= v@.len(),
            r@ == v@.take(i as int),
        decreases v@.len() - i,
    {
        push_char(&mut r, v[i]);
        assert(v@.take(i + 1) == v@.take(i as int).push(v@[i as int]));
        i = i + 1;
    }
    assert(v@.take(v@.len() as int) == v@);
    r
}

/// A copy of a string slice.
pub fn to_owned_string(s: &str) -> (r: String)
    ensures
        r@ == s@,
{
    let mut r = String::new();
    push_str(&mut r, s);
    r
}

/// Whether two strings hold the same characters.
pub fn str_eq(a: &str, b: &str) -> (r: bool)
    ensures
        r == (a@ == b@),
{
    let n = a.unicode_len();
    let m = b.unicode_len();
    if n != m {
        return false;
    }
    let mut i: usize = 0;
    while i < n
        invariant
            n == a@.len(),
            m == b@.len(),
            n == m,
            i <= n,
            forall|j: int| 0 <= j < i ==> a@[j] == b@[j],
        decreases n - i,
    {
        if a.get_char(i) != b.get_char(i) {
            return false;
        }
        i = i + 1;
    }
    assert(a@ =~= b@);
    true
}

/// Whether `pat` occurs in `s` at position `i`, for character vectors.
fn occurs_at_vec(s: &Vec<char>, pat: &Vec<char>, i: usize) -> (r: bool)
    ensures
        r == occurs_at(s@, pat@, i as int),
{
    let n = s.len();
    if i > n || pat.len() > n - i {
        return false;
    }
    let mut j: usize = 0;
    while j < pat.len()
        invariant
            n == s@.len(),
            i + pat@.len() <= n,
            j <= pat@.len(),
            forall|k: int| 0 <= k < j ==> s@[i + k] == pat@[k],
        decreases pat@.len() - j,
    {
        if s[i + j] != pat[j] {
            assert(s@.subrange(i as int, i + pat@.len())[j as int] != pat@[j as int]);
            return false;
        }
        j = j + 1;
    }
    assert(s@.subrange(i as int, i + pat@.len()) =~= pat@);
    true
}

/// Whether `pat` occurs in `s`.
pub fn contains_str(s: &str, pat: &str) -> (r: bool)
    ensures
        r == contains_seq(s@, pat@),
{
    let sv = chars_of(s);
    let pv = chars_of(pat);
    if pv.len() == 0 {
        assert(s@.subrange(0, 0) =~= pat@);
        assert(occurs_at(s@, pat@, 0));
        return true;
    }
    let mut i: usize = 0;
    while i < sv.len() && pv.len() <= sv.len() - i
        invariant
            sv@ == s@,
            pv@ == pat@,
            pat@.len() > 0,
            i <= sv@.len(),
            forall|k: int| 0 <= k < i ==> !occurs_at(s@, pat@, k),
        decreases sv@.len() - i,
    {
        if occurs_at_vec(&sv, &pv, i) {
            assert(occurs_at(s@, pat@, i as int));
            return true;
        }
        i = i + 1;
    }
    proof {
        assert forall|k: int| !occurs_at(s@, pat@, k) by {
            if 0 <= k < i {
            }
        }
    }
    false
}

proof fn lemma_occurs_at_skip(s: Seq<char>, pat: Seq<char>, i: int)
    requires
        0 <= i <= s.len(),
    ensures
        (s.skip(i).len() >= pat.len() && s.skip(i).take(pat.len() as int) == pat) == occurs_at(
            s,
            pat,
            i,
        ),
{
    if s.skip(i).len() >= pat.len() {
        assert(s.skip(i).take(pat.len() as int) =~= s.subrange(i, i + pat.len()));
    }
}

/// `s` with every occurrence of `pat` replaced by `rep`.
pub fn replace_all_str(s: &str, pat: &str, rep: &str) -> (r: String)
    requires
        pat@.len() > 0,
    ensures
        r@ == replace_all(s@, pat@, rep@),
{
    let sv = chars_of(s);
    let pv = chars_of(pat);
    let mut out = String::new();
    let mut i: usize = 0;
    assert(s@.skip(0) =~= s@);
    while i < sv.len()
        invariant
            sv@ == s@,
            pv@ == pat@,
            pat@.len() > 0,
            i <= sv@.len(),
            replace_all(s@, pat@, rep@) == out@ + replace_all(s@.skip(i as int), pat@, rep@),
        decreases sv@.len() - i,
    {
        let ghost rest = s@.skip(i as int);
        proof {
            lemma_occurs_at_skip(s@, pat@, i as int);
        }
        if occurs_at_vec(&sv, &pv, i) {
            push_str(&mut out, rep);
            assert(rest.skip(pat@.len() as int) =~= s@.skip(i + pat@.len()));
            i = i + pv.len();
        } else {
            push_char(&mut out, sv[i]);
            proof {
                if rest.len() < pat@.len() {
                    assert(replace_all(rest, pat@, rep@) == rest);
                    assert(rest.skip(1).len() < pat@.len());
                    assert(replace_all(rest.skip(1), pat@, rep@) == rest.skip(1));
                    assert(rest =~= seq![rest[0]] + rest.skip(1));
                }
            }
            assert(rest.skip(1) =~= s@.skip(i + 1));
            assert(out@ + replace_all(s@.skip(i + 1), pat@, rep@) == (out@.drop_last() + seq![rest[0]]) + replace_all(rest.skip(1), pat@, rep@));
            i = i + 1;
        }
    }
    assert(s@.skip(i as int).len() == 0);
    assert(out@ + replace_all(s@.skip(i as int), pat@, rep@) =~= out@);
    out
}

/// `s` with its first occurrence of `pat` replaced by `rep`.
pub fn replace_first_str(s: &str, pat: &str, rep: &str) -> (r: String)
    requires
        pat@.len() > 0,
    ensures
        r@ == replace_first(s@, pat@, rep@),
{
    let sv = chars_of(s);
    let pv = chars_of(pat);
    let mut out = String::new();
    let mut i: usize = 0;
    assert(s@.skip(0) =~= s@);
    while i < sv.len()
        invariant
            sv@ == s@,
            pv@ == pat@,
            pat@.len() > 0,
            i <= sv@.len(),
            replace_first(s@, pat@, rep@) == out@ + replace_first(s@.skip(i as int), pat@, rep@),
        decreases sv@.len() - i,
    {
        let ghost rest = s@.skip(i as int);
        proof {
            lemma_occurs_at_skip(s@, pat@, i as int);
        }
        if occurs_at_vec(&sv, &pv, i) {
            push_str(&mut out, rep);
            let mut j: usize = i + pv.len();
            assert(rest.skip(pat@.len() as int) =~= s@.skip(j as int));
            while j < sv.len()
                invariant
                    sv@ == s@,
                    i + pat@.len() <= j <= sv@.len(),
                    replace_first(s@, pat@, rep@) == out@ + s@.skip(j as int),
                decreases sv@.len() - j,
            {
                push_char(&mut out, sv[j]);
                assert(s@.skip(j as int) =~= seq![s@[j as int]] + s@.skip(j + 1));
                j = j + 1;
            }
            assert(s@.skip(j as int) =~= Seq::<char>::empty());
            assert(out@ + s@.skip(j as int) =~= out@);
            return out;
        } else {
            push_char(&mut out, sv[i]);
            proof {
                if rest.len() < pat@.len() {
                    assert(replace_first(rest, pat@, rep@) == rest);
                    assert(rest.skip(1).len() < pat@.len());
                    assert(replace_first(rest.skip(1), pat@, rep@) == rest.skip(1));
                    assert(rest =~= seq![rest[0]] + rest.skip(1));
                }
            }
            assert(rest.skip(1) =~= s@.skip(i + 1));
            assert(out@ + replace_first(s@.skip(i + 1), pat@, rep@) == (out@.drop_last() + seq![rest[0]]) + replace_first(rest.skip(1), pat@, rep@));
            i = i + 1;
        }
    }
    assert(s@.skip(i as int).len() == 0);
    assert(out@ + replace_first(s@.skip(i as int), pat@, rep@) =~= out@);
    out
}

/// The decimal character of a digit.
pub fn digit_to_char(d: u64) -> (c: char)
    requires
        d < 10,
    ensures
        c == digit_char(d as nat),
{
    if d == 0 {
        '0'
    } else if d == 1 {
        '1'
    } else if d == 2 {
        '2'
    } else if d == 3 {
        '3'
    } else if d == 4 {
        '4'
    } else if d == 5 {
        '5'
    } else if d == 6 {
        '6'
    } else if d == 7 {
        '7'
    } else if d == 8 {
        '8'
    } else {
        '9'
    }
}

/// The decimal writing of a number.
pub fn u64_to_text(n: u64) -> (r: String)
    ensures
        r@ == dec_digits(n as nat),
    decreases n,
{
    if n < 10 {
        let mut r = String::new();
        push_char(&mut r, digit_to_char(n));
        r
    } else {
        let mut r = u64_to_text(n / 10);
        push_char(&mut r, digit_to_char(n % 10));
        r
    }
}

/// The decimal writing of a signed number.
pub fn i64_to_text(n: i64) -> (r: String)
    ensures
        r@ == int_text(n as int),
{
    if n < 0 {
        let m: u64 = if n == i64::MIN {
            9223372036854775808u64
        } else {
            (-n) as u64
        };
        let mut r = String::new();
        push_char(&mut r, '-');
        let d = u64_to_text(m);
        push_str(&mut r, d.as_str());
        r
    } else {
        u64_to_text(n as u64)
    }
}

/// Whether a character is an ASCII decimal digit.
pub open spec fn is_digit(c: char) -> bool {
    '0' <= c && c <= '9'
}

/// Whether every character of `d` is a decimal digit.
pub open spec fn all_digits(d: Seq<char>) -> bool {
    forall|i: int| 0 <= i < d.len() ==> #[trigger] is_digit(d[i])
}

/// The value of a string of decimal digits.
pub open spec fn digits_value(d: Seq<char>) -> nat
    decreases d.len(),
{
    if d.len() == 0 {
        0
    } else {
        digits_value(d.drop_last()) * 10 + (d.last() as nat - '0' as nat) as nat
    }
}

/// A digit character is a decimal digit worth the number it writes.
pub proof fn lemma_digit_char(d: nat)
    requires
        d < 10,
    ensures
        is_digit(digit_char(d)),
        digit_char(d) as nat - '0' as nat == d,
{
}

/// The decimal writing of a number is a non-empty string of digits whose
/// value is the number.
pub proof fn lemma_dec_digits_value(n: nat)
    ensures
        dec_digits(n).len() >= 1,
        all_digits(dec_digits(n)),
        digits_value(dec_digits(n)) == n,
    decreases n,
{
    let d = dec_digits(n);
    if n < 10 {
        lemma_digit_char(n);
        assert(d.drop_last() =~= Seq::<char>::empty());
        assert(digits_value(d.drop_last()) == 0);
        assert(d.last() == digit_char(n));
        assert(digits_value(d) == digits_value(d.drop_last()) * 10 + (d.last() as nat
            - '0' as nat) as nat);
    } else {
        lemma_dec_digits_value(n / 10);
        lemma_digit_char(n % 10);
        assert(d.drop_last() =~= dec_digits(n / 10));
        assert(d.last() == digit_char(n % 10));
        assert forall|i: int| 0 <= i < d.len() implies #[trigger] is_digit(d[i]) by {
            if i < d.len() - 1 {
                assert(d[i] == dec_digits(n / 10)[i]);
            }
        }
        assert(digits_value(d) == digits_value(d.drop_last()) * 10 + (d.last() as nat
            - '0' as nat) as nat);
        assert(n == (n / 10) * 10 + n % 10);
    }
}

proof fn lemma_digits_value_monotone(d: Seq<char>, k: int)
    requires
        0 <= k <= d.len(),
        all_digits(d),
    ensures
        digits_value(d.take(k)) <= digits_value(d),
    decreases d.len() - k,
{
    if k < d.len() {
        lemma_digits_value_monotone(d, k + 1);
        assert(d.take(k + 1).drop_last() =~= d.take(k));
    } else {
        assert(d.take(k) =~= d);
    }
}

/// Reads the digits of `chars` from `start` on as a number no greater than
/// `limit`: nothing when there are none, when one is not a digit, or when
/// the number is greater.
pub fn digits_to_u64(chars: &Vec<char>, start: usize, limit: u64) -> (r: Option<u64>)
    ensures
        ({
            let d = chars@.skip(start as int);
            r == if start < chars@.len() && all_digits(d) && digits_value(d) <= limit {
                Some(digits_value(d) as u64)
            } else {
                None
            }
        }),
{
    let n = chars.len();
    if start >= n {
        return None;
    }
    let ghost d = chars@.skip(start as int);
    let mut value: u64 = 0;
    let mut i: usize = start;
    while i < n
        invariant
            n == chars@.len(),
            start <= i <= n,
            start < n,
            d == chars@.skip(start as int),
            forall|j: int| 0 <= j < i - start ==> #[trigger] is_digit(d[j]),
            value == digits_value(d.take(i - start)),
            value <= limit,
        decreases n - i,
    {
        let c = chars[i];
        if !('0' <= c && c <= '9') {
            proof {
                assert(!is_digit(d[i - start]));
                assert(!all_digits(d));
            }
            return None;
        }
        let digit: u64 = (c as u64) - ('0' as u64);
        proof {
            assert(d.take(i - start + 1).drop_last() =~= d.take(i - start));
            assert(d[i - start] == c);
        }
        let next: u128 = (value as u128) * 10 + (digit as u128);
        if next > limit as u128 {
            proof {
                assert(digits_value(d.take(i - start + 1)) == next);
                if all_digits(d) {
                    lemma_digits_value_monotone(d, i - start + 1);
                }
            }
            return None;
        }
        value = next as u64;
        i = i + 1;
    }
    assert(d.take(n - start) =~= d);
    Some(value)
}

/// The number a decimal text stands for as `i64::from_str` reads it: an
/// optional sign, then one or more digits, of a value that fits in `i64`;
/// anything else is no number.
pub open spec fn i64_of(s: Seq<char>) -> Option<i64> {
    if s.len() > 0 && s[0] == '-' {
        let d = s.skip(1);
        if d.len() > 0 && all_digits(d) && digits_value(d) <= 0x8000_0000_0000_0000 {
            Some((-digits_value(d)) as i64)
        } else {
            None
        }
    } else {
        let d = if s.len() > 0 && s[0] == '+' {
            s.skip(1)
        } else {
            s
        };
        if d.len() > 0 && all_digits(d) && digits_value(d) <= i64::MAX {
            Some(digits_value(d) as i64)
        } else {
            None
        }
    }
}

/// Reads a signed decimal number.
pub fn parse_i64(s: &str) -> (r: Option<i64>)
    ensures
        r == i64_of(s@),
{
    let chars = chars_of(s);
    if chars.len() > 0 && chars[0] == '-' {
        match digits_to_u64(&chars, 1, 0x8000_0000_0000_0000u64) {
            Some(v) => {
                if v == 0x8000_0000_0000_0000u64 {
                    Some(i64::MIN)
                } else {
                    Some(-(v as i64))
                }
            },
            None => None,
        }
    } else {
        let start: usize = if chars.len() > 0 && chars[0] == '+' {
            1
        } else {
            0
        };
        proof {
            if s@.len() > 0 && s@[0] == '+' {
            } else {
                assert(s@.skip(0) =~= s@);
            }
        }
        match digits_to_u64(&chars, start, 0x7fff_ffff_ffff_ffffu64) {
            Some(v) => Some(v as i64),
            None => None,
        }
    }
}

/// The pieces of `s` between the occurrences of the non-empty `sep`,
/// scanning from the left.
pub open spec fn split_seq(s: Seq<char>, sep: Seq<char>) -> Seq<Seq<char>>
    decreases s.len(),
{
    if sep.len() == 0 || s.len() < sep.len() {
        seq![s]
    } else if s.take(sep.len() as int) == sep {
        seq![Seq::<char>::empty()] + split_seq(s.skip(sep.len() as int), sep)
    } else {
        let rest = split_seq(s.skip(1), sep);
        rest.update(0, seq![s[0]] + rest[0])
    }
}

/// Splitting gives at least one piece.
pub proof fn lemma_split_nonempty(s: Seq<char>, sep: Seq<char>)
    ensures
        split_seq(s, sep).len() >= 1,
    decreases s.len(),
{
    if sep.len() == 0 || s.len() < sep.len() {
    } else if s.take(sep.len() as int) == sep {
        lemma_split_nonempty(s.skip(sep.len() as int), sep);
    } else {
        lemma_split_nonempty(s.skip(1), sep);
    }
}

/// The texts of a vector of strings.
pub open spec fn texts(v: Seq<String>) -> Seq<Seq<char>> {
    v.map_values(|x: String| x@)
}

/// Splits `s` at each occurrence of the non-empty `sep`.
pub fn split_by(s: &str, sep: &str) -> (r: Vec<String>)
    requires
        sep@.len() > 0,
    ensures
        texts(r@) == split_seq(s@, sep@),
{
    let sv = chars_of(s);
    let pv = chars_of(sep);
    let n = sv.len();
    let m = pv.len();
    let mut done: Vec<String> = Vec::new();
    let mut cur = String::new();
    let mut i: usize = 0;
    proof {
        lemma_split_nonempty(s@, sep@);
        assert(s@.skip(0) =~= s@);
        assert(split_seq(s@, sep@) =~= texts(done@) + seq![cur@ + split_seq(s@.skip(0), sep@)[0]]
            + split_seq(s@.skip(0), sep@).skip(1));
    }
    while i < n
        invariant
            sv@ == s@,
            pv@ == sep@,
            n == s@.len(),
            m == sep@.len(),
            m > 0,
            i <= n,
            split_seq(s@, sep@) == texts(done@) + seq![cur@ + split_seq(s@.skip(i as int), sep@)[0]]
                + split_seq(s@.skip(i as int), sep@).skip(1),
        decreases n - i,
    {
        let ghost t = s@.skip(i as int);
        proof {
            lemma_occurs_at_skip(s@, sep@, i as int);
            lemma_split_nonempty(t, sep@);
        }
        if occurs_at_vec(&sv, &pv, i) {
            let ghost rest = split_seq(t.skip(m as int), sep@);
            proof {
                assert(t.skip(m as int) =~= s@.skip(i + m));
                lemma_split_nonempty(t.skip(m as int), sep@);
                assert(split_seq(t, sep@) =~= seq![Seq::<char>::empty()] + rest);
                assert(cur@ + Seq::<char>::empty() =~= cur@);
            }
            let ghost before = done@;
            done.push(cur);
            cur = String::new();
            i = i + m;
            proof {
                assert(texts(done@) =~= texts(before) + seq![texts(done@).last()]);
                assert(cur@ + rest[0] =~= rest[0]);
                assert(rest =~= seq![rest[0]] + rest.skip(1));
            }
        } else {
            let c = sv[i];
            let ghost rest = split_seq(t.skip(1), sep@);
            proof {
                assert(t.skip(1) =~= s@.skip(i + 1));
                lemma_split_nonempty(t.skip(1), sep@);
                assert(t[0] == c);
                if t.len() < m {
                    assert(rest =~= seq![t.skip(1)]);
                    assert(split_seq(t, sep@) =~= seq![t]);
                    assert(t =~= seq![c] + t.skip(1));
                } else {
                    assert(split_seq(t, sep@) == rest.update(0, seq![c] + rest[0]));
                }
            }
            let ghost old_cur = cur@;
            push_char(&mut cur, c);
            i = i + 1;
            proof {
                assert(cur@ + rest[0] =~= old_cur + (seq![c] + rest[0]));
                assert(split_seq(t, sep@).skip(1) =~= rest.skip(1));
            }
        }
    }
    proof {
        assert(s@.skip(n as int) =~= Seq::<char>::empty());
        assert(split_seq(Seq::<char>::empty(), sep@) =~= seq![Seq::<char>::empty()]);
        assert(cur@ + Seq::<char>::empty() =~= cur@);
    }
    let ghost before = done@;
    done.push(cur);
    proof {
        assert(texts(done@) =~= texts(before) + seq![texts(done@).last()]);
    }
    done
}

} // verus!
