//! Text primitives shared by the library: decimal rendering of integers,
//! zero padding, whitespace trimming, searching and integer parsing.

use vstd::prelude::*;

verus! {

/// The character of a decimal digit `d` (`0 <= d < 10`).
pub open spec fn digit_char(d: int) -> char {
    if d == 0 {
        '0'
    } else if d == 1 {
        '1'
    } else if d == 2 {
        '2'
    } else if d == 3 {
        '3'
    } else if d == 4 {
        '4'
    } else if d == 5 {
        '5'
    } else if d == 6 {
        '6'
    } else if d == 7 {
        '7'
    } else if d == 8 {
        '8'
    } else {
        '9'
    }
}

/// The decimal digits of a natural number, most significant first,
/// without leading zeros (`0` is written as a single `0`).
pub open spec fn nat_digits(n: nat) -> Seq<char>
    decreases n,
{
    if n < 10 {
        seq![digit_char(n as int)]
    } else {
        nat_digits(n / 10).push(digit_char((n % 10) as int))
    }
}

/// The decimal text of an integer, with a leading `-` for negative values.
pub open spec fn int_decimal(i: int) -> Seq<char> {
    if i < 0 {
        seq!['-'] + nat_digits((-i) as nat)
    } else {
        nat_digits(i as nat)
    }
}

/// A one-character string holding the digit `d`.
fn digit_str(d: u64) -> (s: &'static str)
    requires
        d < 10,
    ensures
        s@ == seq![digit_char(d as int)],
{
    if d == 0 {
        proof { reveal_strlit("0"); }
        "0"
    } else if d == 1 {
        proof { reveal_strlit("1"); }
        "1"
    } else if d == 2 {
        proof { reveal_strlit("2"); }
        "2"
    } else if d == 3 {
        proof { reveal_strlit("3"); }
        "3"
    } else if d == 4 {
        proof { reveal_strlit("4"); }
        "4"
    } else if d == 5 {
        proof { reveal_strlit("5"); }
        "5"
    } else if d == 6 {
        proof { reveal_strlit("6"); }
        "6"
    } else if d == 7 {
        proof { reveal_strlit("7"); }
        "7"
    } else if d == 8 {
        proof { reveal_strlit("8"); }
        "8"
    } else {
        proof { reveal_strlit("9"); }
        "9"
    }
}

/// Appends the decimal digits of `n` to `out`.
pub fn push_nat_digits(out: &mut String, n: u64)
    ensures
        final(out)@ == old(out)@ + nat_digits(n as nat),
    decreases n,
{
    if n < 10 {
        out.append(digit_str(n));
    } else {
        push_nat_digits(out, n / 10);
        out.append(digit_str(n % 10));
        proof {
            assert(nat_digits(n as nat) == nat_digits((n / 10) as nat).push(digit_char((n % 10) as int)));
        }
    }
}

/// The decimal text of `v`, as `format!("{}", v)` writes it.
pub fn isize_to_decimal(v: isize) -> (s: String)
    ensures
        s@ == int_decimal(v as int),
{
    let mut out = String::new();
    if v < 0 {
        out.append("-");
        proof { reveal_strlit("-"); }
        let m: i128 = -(v as i128);
        push_nat_digits(&mut out, m as u64);
    } else {
        push_nat_digits(&mut out, v as u64);
    }
    out
}

/// Whether `c` is white space in the sense of Unicode's `White_Space`
/// property, which is what `char::is_whitespace` tests.
pub open spec fn is_white(c: char) -> bool {
    ||| ('\u{9}' <= c && c <= '\u{d}')
    ||| c == ' '
    ||| c == '\u{85}'
    ||| c == '\u{a0}'
    ||| c == '\u{1680}'
    ||| ('\u{2000}' <= c && c <= '\u{200a}')
    ||| c == '\u{2028}'
    ||| c == '\u{2029}'
    ||| c == '\u{202f}'
    ||| c == '\u{205f}'
    ||| c == '\u{3000}'
}

/// `s` without its leading white space.
pub open spec fn trim_start(s: Seq<char>) -> Seq<char>
    decreases s.len(),
{
    if s.len() > 0 && is_white(s[0]) {
        trim_start(s.drop_first())
    } else {
        s
    }
}

/// `s` without its trailing white space.
pub open spec fn trim_end(s: Seq<char>) -> Seq<char>
    decreases s.len(),
{
    if s.len() > 0 && is_white(s.last()) {
        trim_end(s.drop_last())
    } else {
        s
    }
}

/// `s` without leading and trailing white space, as `str::trim` gives it.
pub open spec fn trim(s: Seq<char>) -> Seq<char> {
    trim_end(trim_start(s))
}

/// Whether `pat` occurs in `s` as a contiguous piece.
pub open spec fn contains_seq(s: Seq<char>, pat: Seq<char>) -> bool {
    exists|i: int| 0 <= i && i + pat.len() <= s.len() && #[trigger] s.subrange(i, i + pat.len()) == pat
}

/// The part of `s` after the last `c`, or all of `s` where `c` does not
/// occur: the last piece that `str::split(c)` gives.
pub open spec fn after_last(s: Seq<char>, c: char) -> Seq<char>
    decreases s.len(),
{
    if s.len() == 0 {
        s
    } else if s.last() == c {
        Seq::empty()
    } else {
        after_last(s.drop_last(), c).push(s.last())
    }
}

/// Tests white space as `char::is_whitespace` does.
pub fn is_white_char(c: char) -> (b: bool)
    ensures
        b == is_white(c),
{
    ('\u{9}' <= c && c <= '\u{d}') || c == ' ' || c == '\u{85}' || c == '\u{a0}' || c == '\u{1680}'
        || ('\u{2000}' <= c && c <= '\u{200a}') || c == '\u{2028}' || c == '\u{2029}' || c == '\u{202f}'
        || c == '\u{205f}' || c == '\u{3000}'
}

/// The characters of `s`.
pub fn char_vec(s: &str) -> (v: Vec<char>)
    ensures
        v@ == s@,
{
    let n = s.unicode_len();
    let mut v: Vec<char> = Vec::new();
    let mut i: usize = 0;
    while i < n
        invariant
            n == s@.len(),
            i <= n,
            v@ == s@.subrange(0, i as int),
        decreases n - i,
    {
        v.push(s.get_char(i));
        i = i + 1;
        assert(v@ =~= s@.subrange(0, i as int));
    }
    assert(s@.subrange(0, n as int) =~= s@);
    v
}

/// `s` without leading and trailing white space.
pub fn trim_str(s: &str) -> (r: String)
    ensures
        r@ == trim(s@),
{
    let cs = char_vec(s);
    let n = cs.len();
    let mut i: usize = 0;
    assert(s@.subrange(0, n as int) =~= s@);
    while i < n && is_white_char(cs[i])
        invariant
            n == s@.len(),
            cs@ == s@,
            i <= n,
            trim_start(s@) == trim_start(s@.subrange(i as int, n as int)),
        decreases n - i,
    {
        assert(s@.subrange(i as int, n as int).drop_first() =~= s@.subrange(i + 1, n as int));
        i = i + 1;
    }
    assert(trim_start(s@) == s@.subrange(i as int, n as int));
    let mut j: usize = n;
    while j > i && is_white_char(cs[j - 1])
        invariant
            n == s@.len(),
            cs@ == s@,
            i <= j <= n,
            trim(s@) == trim_end(s@.subrange(i as int, j as int)),
        decreases j - i,
    {
        assert(s@.subrange(i as int, j as int).drop_last() =~= s@.subrange(i as int, j - 1));
        j = j - 1;
    }
    String::from_str(s.substring_char(i, j))
}

/// Whether `pat` occurs in `s`.
pub fn contains_str(s: &str, pat: &str) -> (b: bool)
    ensures
        b == contains_seq(s@, pat@),
{
    let cs = char_vec(s);
    let ps = char_vec(pat);
    let n = cs.len();
    let m = ps.len();
    if m > n {
        return false;
    }
    let mut i: usize = 0;
    while i <= n - m
        invariant
            cs@ == s@,
            ps@ == pat@,
            n == s@.len(),
            m == pat@.len(),
            m <= n,
            i <= n - m + 1,
            forall|k: int| 0 <= k < i ==> #[trigger] s@.subrange(k, k + m) != pat@,
        decreases n - m + 1 - i,
    {
        let mut k: usize = 0;
        while k < m && cs[i + k] == ps[k]
            invariant
                cs@ == s@,
                ps@ == pat@,
                n == s@.len(),
                m == pat@.len(),
                i + m <= n,
                k <= m,
                forall|t: int| 0 <= t < k ==> s@[i + t] == pat@[t],
            decreases m - k,
        {
            k = k + 1;
        }
        if k == m {
            assert(s@.subrange(i as int, i + m) =~= pat@);
            return true;
        }
        assert(s@.subrange(i as int, i + m)[k as int] != pat@[k as int]);
        i = i + 1;
    }
    false
}

/// The part of `s` after its last `c`, or all of `s`.
pub fn after_last_str(s: &str, c: char) -> (r: String)
    ensures
        r@ == after_last(s@, c),
{
    let cs = char_vec(s);
    let n = cs.len();
    let mut j: usize = n;
    assert(s@.subrange(0, n as int) =~= s@);
    assert(s@.subrange(n as int, n as int) =~= Seq::<char>::empty());
    assert(s@ + Seq::<char>::empty() =~= s@);
    while j > 0 && cs[j - 1] != c
        invariant
            cs@ == s@,
            n == s@.len(),
            j <= n,
            after_last(s@, c) == after_last(s@.subrange(0, j as int), c) + s@.subrange(j as int, n as int),
        decreases j,
    {
        let ghost pre = s@.subrange(0, j as int);
        assert(pre.drop_last() =~= s@.subrange(0, j - 1));
        assert(after_last(pre, c) == after_last(s@.subrange(0, j - 1), c).push(pre.last()));
        assert(after_last(s@.subrange(0, j - 1), c).push(pre.last()) + s@.subrange(j as int, n as int)
            =~= after_last(s@.subrange(0, j - 1), c) + s@.subrange(j - 1, n as int));
        j = j - 1;
    }
    if j == 0 {
        assert(after_last(s@.subrange(0, 0), c) =~= Seq::<char>::empty());
        assert(s@.subrange(0, n as int) =~= s@);
    } else {
        assert(after_last(s@.subrange(0, j as int), c) =~= Seq::<char>::empty());
    }
    String::from_str(s.substring_char(j, n))
}

/// `s` with zeros in front up to `width` characters.
pub open spec fn zero_pad(s: Seq<char>, width: int) -> Seq<char> {
    if s.len() >= width {
        s
    } else {
        Seq::new((width - s.len()) as nat, |i: int| '0') + s
    }
}

/// The decimal text of `i` filled with zeros after the sign up to `width`
/// characters, as `format!("{:0w$}", i)` writes it.
pub open spec fn padded_decimal(i: int, width: int) -> Seq<char> {
    if i < 0 {
        seq!['-'] + zero_pad(nat_digits((-i) as nat), width - 1)
    } else {
        zero_pad(nat_digits(i as nat), width)
    }
}

/// Appends `count` zeros.
fn push_zeros(out: &mut String, count: usize)
    ensures
        final(out)@ == old(out)@ + Seq::new(count as nat, |i: int| '0'),
{
    let mut k: usize = 0;
    proof { reveal_strlit("0"); }
    assert(old(out)@ + Seq::new(0, |i: int| '0') =~= old(out)@);
    while k < count
        invariant
            k <= count,
            out@ == old(out)@ + Seq::new(k as nat, |i: int| '0'),
            "0"@ == seq!['0'],
        decreases count - k,
    {
        out.append("0");
        k = k + 1;
        assert(out@ =~= old(out)@ + Seq::new(k as nat, |i: int| '0'));
    }
}

/// Appends the decimal text of `v` filled with zeros after the sign up to
/// `width` characters.
pub fn push_padded(out: &mut String, v: i64, width: usize)
    ensures
        final(out)@ == old(out)@ + padded_decimal(v as int, width as int),
{
    let mut digits = String::new();
    let magnitude: u64 = if v < 0 {
        (-(v as i128)) as u64
    } else {
        v as u64
    };
    push_nat_digits(&mut digits, magnitude);
    assert(digits@ == nat_digits(magnitude as nat));
    let len = digits.as_str().unicode_len();
    let w = if v < 0 {
        out.append("-");
        proof { reveal_strlit("-"); }
        if width > 0 {
            width - 1
        } else {
            0
        }
    } else {
        width
    };
    let ghost before = out@;
    if len < w {
        push_zeros(out, w - len);
    }
    out.append(digits.as_str());
    proof {
        if len < w {
            assert(out@ =~= before + (Seq::new((w - len) as nat, |i: int| '0') + digits@));
        }
        if v < 0 {
            assert(zero_pad(digits@, w as int) == zero_pad(digits@, width - 1));
            assert(out@ =~= old(out)@ + (seq!['-'] + zero_pad(digits@, w as int)));
        }
    }
}

/// Appends the decimal text of `v` filled with zeros in front up to
/// `width` characters, as `format!("{:0>w$}", v)` writes it (the fill goes
/// before a sign, too).
pub fn push_zero_filled(out: &mut String, v: i64, width: usize)
    ensures
        final(out)@ == old(out)@ + zero_pad(int_decimal(v as int), width as int),
{
    let mut text = String::new();
    if v < 0 {
        text.append("-");
        proof { reveal_strlit("-"); }
        let m: i128 = -(v as i128);
        push_nat_digits(&mut text, m as u64);
    } else {
        push_nat_digits(&mut text, v as u64);
    }
    assert(text@ == int_decimal(v as int));
    let len = text.as_str().unicode_len();
    let ghost before = out@;
    if len < width {
        push_zeros(out, width - len);
    }
    out.append(text.as_str());
    proof {
        if len < width {
            assert(out@ =~= before + (Seq::new((width - len) as nat, |i: int| '0') + text@));
        }
    }
}


/// How reading an integer can fail, as `core::num::IntErrorKind` names it.
#[derive(Debug, Clone, Copy, PartialEq, Eq, Structural)]
pub enum IntErrorKind {
    /// The text is empty.
    Empty,
    /// A character is not a decimal digit (or the text is a lone sign).
    InvalidDigit,
    /// The number is too large for the type.
    PosOverflow,
    /// The number is too small for the type.
    NegOverflow,
}

/// A decimal digit character.
pub open spec fn is_digit(c: char) -> bool {
    '0' <= c && c <= '9'
}

/// The value of a decimal digit character.
pub open spec fn digit_value(c: char) -> int {
    c as int - '0' as int
}

/// Reads `digits` from the left onto `acc`, as `str::parse::<isize>` does:
/// the first character that is no digit, or the first prefix whose value
/// leaves the range of `isize`, decides the error.
pub open spec fn accumulate(digits: Seq<char>, neg: bool, acc: int) -> Result<int, IntErrorKind>
    decreases digits.len(),
{
    if digits.len() == 0 {
        Ok(acc)
    } else if !is_digit(digits[0]) {
        Err(IntErrorKind::InvalidDigit)
    } else {
        let v = if neg {
            acc * 10 - digit_value(digits[0])
        } else {
            acc * 10 + digit_value(digits[0])
        };
        if v > isize::MAX {
            Err(IntErrorKind::PosOverflow)
        } else if v < isize::MIN {
            Err(IntErrorKind::NegOverflow)
        } else {
            accumulate(digits.drop_first(), neg, v)
        }
    }
}

/// The value of a decimal integer text with an optional sign, or why there
/// is none, as `str::parse::<isize>` gives it.
pub open spec fn parse_int(s: Seq<char>) -> Result<int, IntErrorKind> {
    if s.len() == 0 {
        Err(IntErrorKind::Empty)
    } else if s.len() == 1 && (s[0] == '+' || s[0] == '-') {
        Err(IntErrorKind::InvalidDigit)
    } else if s[0] == '+' {
        accumulate(s.drop_first(), false, 0)
    } else if s[0] == '-' {
        accumulate(s.drop_first(), true, 0)
    } else {
        accumulate(s, false, 0)
    }
}

/// Reads a decimal integer with an optional sign.
pub fn parse_isize(s: &str) -> (r: Result<isize, IntErrorKind>)
    ensures
        match r {
            Ok(x) => parse_int(s@) == Ok::<int, IntErrorKind>(x as int),
            Err(k) => parse_int(s@) == Err::<int, IntErrorKind>(k),
        },
{
    let cs = char_vec(s);
    let n = cs.len();
    if n == 0 {
        return Err(IntErrorKind::Empty);
    }
    if n == 1 && (cs[0] == '+' || cs[0] == '-') {
        return Err(IntErrorKind::InvalidDigit);
    }
    let neg = cs[0] == '-';
    let start: usize = if cs[0] == '+' || cs[0] == '-' {
        1
    } else {
        0
    };
    let ghost digits = s@.subrange(start as int, n as int);
    assert(start == 1 ==> digits =~= s@.drop_first());
    assert(start == 0 ==> digits =~= s@);
    assert(parse_int(s@) == accumulate(digits, neg, 0));
    assert(s@.subrange(start as int, n as int) == digits);
    let mut acc: isize = 0;
    let mut i: usize = start;
    while i < n
        invariant
            cs@ == s@,
            n == s@.len(),
            start <= i <= n,
            digits == s@.subrange(start as int, n as int),
            neg ==> acc <= 0,
            !neg ==> acc >= 0,
            accumulate(digits, neg, 0) == accumulate(s@.subrange(i as int, n as int), neg, acc as int),
            parse_int(s@) == accumulate(digits, neg, 0),
        decreases n - i,
    {
        let c = cs[i];
        assert(s@.subrange(i as int, n as int)[0] == c);
        assert(s@.subrange(i as int, n as int).drop_first() =~= s@.subrange(i + 1, n as int));
        if !('0' <= c && c <= '9') {
            return Err(IntErrorKind::InvalidDigit);
        }
        let d: isize = (c as u32 - '0' as u32) as isize;
        if neg {
            match acc.checked_mul(10) {
                None => {
                    return Err(IntErrorKind::NegOverflow);
                },
                Some(m) => match m.checked_sub(d) {
                    None => {
                        return Err(IntErrorKind::NegOverflow);
                    },
                    Some(v) => {
                        acc = v;
                    },
                },
            }
        } else {
            match acc.checked_mul(10) {
                None => {
                    return Err(IntErrorKind::PosOverflow);
                },
                Some(m) => match m.checked_add(d) {
                    None => {
                        return Err(IntErrorKind::PosOverflow);
                    },
                    Some(v) => {
                        acc = v;
                    },
                },
            }
        }
        i = i + 1;
    }
    assert(s@.subrange(n as int, n as int).len() == 0);
    Ok(acc)
}

proof fn lemma_digit_char(d: int)
    requires
        0 <= d < 10,
    ensures
        is_digit(digit_char(d)),
        digit_value(digit_char(d)) == d,
{
}

proof fn lemma_nat_digits_shape(m: nat)
    ensures
        nat_digits(m).len() >= 1,
        is_digit(nat_digits(m)[0]),
        forall|i: int| 0 <= i < nat_digits(m).len() ==> is_digit(#[trigger] nat_digits(m)[i]),
    decreases m,
{
    lemma_digit_char((m % 10) as int);
    if m >= 10 {
        lemma_nat_digits_shape(m / 10);
    }
}

proof fn lemma_accumulate_push(x: Seq<char>, c: char, neg: bool, acc: int)
    ensures
        accumulate(x.push(c), neg, acc) == match accumulate(x, neg, acc) {
            Ok(v) => accumulate(seq![c], neg, v),
            Err(e) => Err(e),
        },
    decreases x.len(),
{
    if x.len() == 0 {
        assert(x.push(c) =~= seq![c]);
    } else {
        assert(x.push(c).drop_first() =~= x.drop_first().push(c));
        assert(x.push(c)[0] == x[0]);
        if is_digit(x[0]) {
            let v = if neg {
                acc * 10 - digit_value(x[0])
            } else {
                acc * 10 + digit_value(x[0])
            };
            lemma_accumulate_push(x.drop_first(), c, neg, v);
        }
    }
}

proof fn lemma_accumulate_digits(m: nat, neg: bool)
    requires
        !neg ==> m <= isize::MAX,
        neg ==> -m >= isize::MIN,
    ensures
        accumulate(nat_digits(m), neg, 0) == Ok::<int, IntErrorKind>(if neg { -m } else { m as int }),
    decreases m,
{
    let d = digit_char((m % 10) as int);
    lemma_digit_char((m % 10) as int);
    let target: int = if neg { -m } else { m as int };
    let single = seq![d];
    assert(single.drop_first() =~= Seq::<char>::empty());
    assert(single[0] == d);
    assert((m / 10) * 10 + m % 10 == m) by (nonlinear_arith);
    let v: int = if neg { -((m / 10) as int) } else { (m / 10) as int };
    assert(accumulate(Seq::<char>::empty(), neg, target) == Ok::<int, IntErrorKind>(target));
    assert(accumulate(single, neg, v) == Ok::<int, IntErrorKind>(target));
    if m < 10 {
        assert(nat_digits(m) == single);
        assert(v == 0);
    } else {
        lemma_accumulate_digits(m / 10, neg);
        lemma_accumulate_push(nat_digits(m / 10), d, neg, 0);
    }
}

/// Where the leading white space of `s` ends.
proof fn lemma_trim_start_at(s: Seq<char>) -> (lo: int)
    ensures
        0 <= lo <= s.len(),
        trim_start(s) == s.subrange(lo, s.len() as int),
        forall|i: int| 0 <= i < lo ==> is_white(#[trigger] s[i]),
        lo < s.len() ==> !is_white(s[lo]),
    decreases s.len(),
{
    if s.len() > 0 && is_white(s[0]) {
        let t = s.drop_first();
        let k = lemma_trim_start_at(t);
        assert(t.subrange(k, t.len() as int) =~= s.subrange(k + 1, s.len() as int));
        assert forall|i: int| 0 <= i < k + 1 implies is_white(#[trigger] s[i]) by {
            if i > 0 {
                assert(s[i] == t[i - 1]);
            }
        }
        k + 1
    } else {
        assert(s.subrange(0, s.len() as int) =~= s);
        0
    }
}

/// Where the trailing white space of `s` starts.
proof fn lemma_trim_end_at(s: Seq<char>) -> (hi: int)
    ensures
        0 <= hi <= s.len(),
        trim_end(s) == s.subrange(0, hi),
        forall|i: int| hi <= i < s.len() ==> is_white(#[trigger] s[i]),
        hi > 0 ==> !is_white(s[hi - 1]),
    decreases s.len(),
{
    if s.len() > 0 && is_white(s.last()) {
        let t = s.drop_last();
        let k = lemma_trim_end_at(t);
        assert(t.subrange(0, k) =~= s.subrange(0, k));
        assert forall|i: int| k <= i < s.len() implies is_white(#[trigger] s[i]) by {
            if i < t.len() {
                assert(s[i] == t[i]);
            }
        }
        k
    } else {
        assert(s.subrange(0, s.len() as int) =~= s);
        s.len() as int
    }
}

/// Trimming keeps the piece of `s` between its leading and its trailing
/// white space: all that is cut off is white space, and what is kept, where
/// anything is, neither starts nor ends with white space.
pub proof fn lemma_trim_shape(s: Seq<char>)
    ensures
        exists|lo: int, hi: int|
            0 <= lo <= hi <= s.len() && trim(s) == s.subrange(lo, hi) && (forall|i: int|
                0 <= i < lo ==> is_white(#[trigger] s[i])) && (forall|i: int|
                hi <= i < s.len() ==> is_white(#[trigger] s[i])) && (lo < hi ==> !is_white(s[lo]) && !is_white(
                s[hi - 1],
            )),
{
    let lo = lemma_trim_start_at(s);
    let t = trim_start(s);
    let k = lemma_trim_end_at(t);
    let hi = lo + k;
    assert(trim(s) =~= s.subrange(lo, hi));
    assert forall|i: int| hi <= i < s.len() implies is_white(#[trigger] s[i]) by {
        assert(s[i] == t[i - lo]);
    }
    if lo < hi {
        assert(s[lo] == t[0]);
        assert(s[hi - 1] == t[k - 1]);
        if k == t.len() {
            assert(!is_white(s[lo]));
        }
    }
    assert(0 <= lo <= hi <= s.len() && trim(s) == s.subrange(lo, hi));
}

/// The part after the last `c` is all of `s` where `c` does not occur, and
/// otherwise what follows the last position that holds `c`.
pub proof fn lemma_after_last_shape(s: Seq<char>, c: char)
    ensures
        (forall|i: int| 0 <= i < s.len() ==> s[i] != c) ==> after_last(s, c) == s,
        (exists|i: int| 0 <= i < s.len() && s[i] == c) ==> exists|i: int|
            0 <= i < s.len() && s[i] == c && (forall|j: int| i < j < s.len() ==> s[j] != c) && after_last(s, c)
                == s.subrange(i + 1, s.len() as int),
    decreases s.len(),
{
    if s.len() > 0 {
        let t = s.drop_last();
        lemma_after_last_shape(t, c);
        if s.last() == c {
            let i = s.len() - 1;
            assert(s.subrange(i + 1, s.len() as int) =~= Seq::<char>::empty());
            assert(s[i] == c);
        } else {
            if forall|i: int| 0 <= i < s.len() ==> s[i] != c {
                assert forall|i: int| 0 <= i < t.len() implies t[i] != c by {
                    assert(s[i] != c);
                }
                assert(t.push(s.last()) =~= s);
            }
            if exists|i: int| 0 <= i < s.len() && s[i] == c {
                let i0 = choose|i: int| 0 <= i < s.len() && s[i] == c;
                assert(t[i0] == c);
                let i = choose|i: int|
                    0 <= i < t.len() && t[i] == c && (forall|j: int| i < j < t.len() ==> t[j] != c) && after_last(t, c)
                        == t.subrange(i + 1, t.len() as int);
                assert(t.subrange(i + 1, t.len() as int).push(s.last()) =~= s.subrange(i + 1, s.len() as int));
                assert(s[i] == c);
                assert forall|j: int| i < j < s.len() implies s[j] != c by {
                    if j < t.len() {
                        assert(s[j] == t[j]);
                    }
                }
            }
        }
    }
}

/// Reading back the decimal text of a number gives the number: what
/// `isize_to_decimal` writes, `parse_isize` reads as the same value.
pub proof fn lemma_decimal_parse_round_trip(n: isize)
    ensures
        parse_int(int_decimal(n as int)) == Ok::<int, IntErrorKind>(n as int),
{
    if n < 0 {
        let m = (-n) as nat;
        let s = seq!['-'] + nat_digits(m);
        lemma_nat_digits_shape(m);
        assert(s.drop_first() =~= nat_digits(m));
        lemma_accumulate_digits(m, true);
    } else {
        let m = n as nat;
        lemma_nat_digits_shape(m);
        lemma_accumulate_digits(m, false);
    }
}

} // verus!
