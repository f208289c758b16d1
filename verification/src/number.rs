//! Numeric literals. A real number is kept as the literal that denotes it;
//! whoever consumes a scene rounds it to the precision it works in.
use crate::text::chars_of;
use vstd::prelude::*;

verus! {

/// Whether `c` is one of the ten digits.
pub open spec fn is_digit(c: char) -> bool {
    '0' <= c <= '9'
}

/// Whether `c` is a sign.
pub open spec fn is_sign(c: char) -> bool {
    c == '+' || c == '-'
}

/// The index after the run of digits of `s` that begins at `from`.
pub open spec fn digits_end(s: Seq<char>, from: int) -> int
    decreases s.len() - from,
{
    if from < 0 || from >= s.len() || !is_digit(s[from]) {
        from
    } else {
        digits_end(s, from + 1)
    }
}

/// Whether `s` from `from` on spells `inf`, `infinity` or `nan`, in any case.
pub open spec fn is_special_from(s: Seq<char>, from: int) -> bool {
    let n = s.len() - from;
    let c = |i: int| s[from + i];
    ||| n == 3 && (c(0) == 'i' || c(0) == 'I') && (c(1) == 'n' || c(1) == 'N') && (c(2) == 'f'
        || c(2) == 'F')
    ||| n == 3 && (c(0) == 'n' || c(0) == 'N') && (c(1) == 'a' || c(1) == 'A') && (c(2) == 'n'
        || c(2) == 'N')
    ||| n == 8 && (c(0) == 'i' || c(0) == 'I') && (c(1) == 'n' || c(1) == 'N') && (c(2) == 'f'
        || c(2) == 'F') && (c(3) == 'i' || c(3) == 'I') && (c(4) == 'n' || c(4) == 'N') && (c(5)
        == 'i' || c(5) == 'I') && (c(6) == 't' || c(6) == 'T') && (c(7) == 'y' || c(7) == 'Y')
}

/// Whether `s` from `from` on is digits with at most one point among them, at
/// least one digit, and then possibly an exponent: `e` or `E`, an optional
/// sign and at least one digit.
pub open spec fn is_decimal_from(s: Seq<char>, from: int) -> bool {
    let a = digits_end(s, from);
    let dot = a < s.len() && s[a] == '.';
    let b = if dot {
        digits_end(s, a + 1)
    } else {
        a
    };
    let digits = if dot {
        (a - from) + (b - (a + 1))
    } else {
        a - from
    };
    &&& digits >= 1
    &&& b == s.len() || {
        let c = if b + 1 < s.len() && is_sign(s[b + 1]) {
            b + 2
        } else {
            b + 1
        };
        &&& b < s.len()
        &&& s[b] == 'e' || s[b] == 'E'
        &&& digits_end(s, c) > c
        &&& digits_end(s, c) == s.len()
    }
}

/// Whether `s` is a literal of a real number: an optional sign, then a
/// decimal number or one of the special values.
pub open spec fn is_number(s: Seq<char>) -> bool {
    let from: int = if s.len() > 0 && is_sign(s[0]) {
        1
    } else {
        0
    };
    is_special_from(s, from) || is_decimal_from(s, from)
}

/// The number that the digits of `s` denote in base ten.
pub open spec fn digits_value(s: Seq<char>) -> int
    decreases s.len(),
{
    if s.len() == 0 {
        0
    } else {
        digits_value(s.drop_last()) * 10 + (s.last() as int - '0' as int)
    }
}

/// Whether every character of `s` is a digit.
pub open spec fn all_digits(s: Seq<char>) -> bool {
    forall|i: int| 0 <= i < s.len() ==> is_digit(#[trigger] s[i])
}

/// The integer that `s` denotes: an optional sign and at least one digit.
pub open spec fn int_literal(s: Seq<char>) -> Option<int> {
    let signed = s.len() > 0 && is_sign(s[0]);
    let body = if signed {
        s.skip(1)
    } else {
        s
    };
    if body.len() == 0 || !all_digits(body) {
        None
    } else if s[0] == '-' {
        Some(-digits_value(body))
    } else {
        Some(digits_value(body))
    }
}

/// The 32-bit integer that `s` denotes, if it denotes one.
pub open spec fn i32_literal(s: Seq<char>) -> Option<i32> {
    match int_literal(s) {
        Some(v) => if i32::MIN <= v <= i32::MAX {
            Some(v as i32)
        } else {
            None
        },
        None => None,
    }
}

/// The value of a hexadecimal digit.
pub open spec fn hex_value(c: char) -> Option<u8> {
    if '0' <= c <= '9' {
        Some((c as u8 - '0' as u8) as u8)
    } else if 'a' <= c <= 'f' {
        Some((c as u8 - 'a' as u8 + 10) as u8)
    } else if 'A' <= c <= 'F' {
        Some((c as u8 - 'A' as u8 + 10) as u8)
    } else {
        None
    }
}

/// The number that the first digits denote is no more than the number
/// that all the digits denote.
pub proof fn lemma_digits_value_grows(s: Seq<char>, i: int)
    requires
        all_digits(s),
        0 <= i <= s.len(),
    ensures
        0 <= digits_value(s.take(i)) <= digits_value(s),
    decreases s.len() - i,
{
    if i == s.len() {
        assert(s.take(i) =~= s);
        lemma_digits_value_nonnegative(s);
    } else {
        lemma_digits_value_grows(s, i + 1);
        let t = s.take(i + 1);
        assert(t.drop_last() =~= s.take(i));
        assert(is_digit(s[i]));
        lemma_digits_value_nonnegative(s.take(i));
    }
}

/// Digits denote no negative number.
pub proof fn lemma_digits_value_nonnegative(s: Seq<char>)
    requires
        all_digits(s),
    ensures
        0 <= digits_value(s),
    decreases s.len(),
{
    if s.len() > 0 {
        assert(is_digit(s.last()));
        lemma_digits_value_nonnegative(s.drop_last());
    }
}

/// Whether `c` is one of the ten digits.
pub fn is_digit_char(c: char) -> (b: bool)
    ensures
        b == is_digit(c),
{
    '0' <= c && c <= '9'
}

/// Whether `c` is a sign.
pub fn is_sign_char(c: char) -> (b: bool)
    ensures
        b == is_sign(c),
{
    c == '+' || c == '-'
}

/// The value of the hexadecimal digit `c`, if it is one.
pub fn hex_to_int(c: char) -> (r: Option<u8>)
    ensures
        r == hex_value(c),
{
    let u: u32 = c as u32;
    if '0' <= c && c <= '9' {
        Some((u - 0x30) as u8)
    } else if 'a' <= c && c <= 'f' {
        Some((u - 0x61 + 10) as u8)
    } else if 'A' <= c && c <= 'F' {
        Some((u - 0x41 + 10) as u8)
    } else {
        None
    }
}

fn scan_digits(v: &Vec<char>, from: usize) -> (r: usize)
    requires
        from <= v.len(),
    ensures
        r == digits_end(v@, from as int),
        from <= r <= v.len(),
{
    let mut i: usize = from;
    while i < v.len() && is_digit_char(v[i])
        invariant
            from <= i <= v.len(),
            digits_end(v@, from as int) == digits_end(v@, i as int),
        decreases v.len() - i,
    {
        i += 1;
    }
    i
}

fn is_letter(v: &Vec<char>, at: usize, small: char, capital: char) -> (r: bool)
    requires
        at < v.len(),
    ensures
        r == (v@[at as int] == small || v@[at as int] == capital),
{
    v[at] == small || v[at] == capital
}

fn is_special_chars(v: &Vec<char>, from: usize) -> (r: bool)
    requires
        from <= v.len(),
    ensures
        r == is_special_from(v@, from as int),
{
    let n = v.len() - from;
    if n == 3 {
        (is_letter(v, from, 'i', 'I') && is_letter(v, from + 1, 'n', 'N') && is_letter(
            v,
            from + 2,
            'f',
            'F',
        )) || (is_letter(v, from, 'n', 'N') && is_letter(v, from + 1, 'a', 'A') && is_letter(
            v,
            from + 2,
            'n',
            'N',
        ))
    } else if n == 8 {
        is_letter(v, from, 'i', 'I') && is_letter(v, from + 1, 'n', 'N') && is_letter(
            v,
            from + 2,
            'f',
            'F',
        ) && is_letter(v, from + 3, 'i', 'I') && is_letter(v, from + 4, 'n', 'N') && is_letter(
            v,
            from + 5,
            'i',
            'I',
        ) && is_letter(v, from + 6, 't', 'T') && is_letter(v, from + 7, 'y', 'Y')
    } else {
        false
    }
}

fn is_decimal_chars(v: &Vec<char>, from: usize) -> (r: bool)
    requires
        from <= v.len(),
    ensures
        r == is_decimal_from(v@, from as int),
{
    let n = v.len();
    let a = scan_digits(v, from);
    let dot = a < n && v[a] == '.';
    let b = if dot {
        scan_digits(v, a + 1)
    } else {
        a
    };
    let digits = if dot {
        (a - from) + (b - (a + 1))
    } else {
        a - from
    };
    if digits < 1 {
        return false;
    }
    if b == n {
        return true;
    }
    if !(v[b] == 'e' || v[b] == 'E') {
        return false;
    }
    let c = if b + 1 < n && is_sign_char(v[b + 1]) {
        b + 2
    } else {
        b + 1
    };
    let d = scan_digits(v, c);
    d > c && d == n
}

/// Whether the characters of `v` are a literal of a real number.
pub fn is_number_chars(v: &Vec<char>) -> (r: bool)
    ensures
        r == is_number(v@),
{
    let from: usize = if v.len() > 0 && is_sign_char(v[0]) {
        1
    } else {
        0
    };
    is_special_chars(v, from) || is_decimal_chars(v, from)
}

/// The 32-bit integer that the characters of `v` denote, if they denote one.
#[verifier::loop_isolation(false)]
pub fn parse_i32_chars(v: &Vec<char>) -> (r: Option<i32>)
    ensures
        r == i32_literal(v@),
{
    let n = v.len();
    let signed = n > 0 && is_sign_char(v[0]);
    let from: usize = if signed {
        1
    } else {
        0
    };
    if from == n {
        assert(v@.skip(from as int).len() == 0);
        return None;
    }
    let negative = v[0] == '-';
    let ghost body = v@.skip(from as int);
    assert(v@.skip(0) =~= v@);
    let mut acc: i64 = 0;
    let mut i: usize = from;
    while i < n
        invariant
            from <= i <= n,
            n == v.len(),
            body == v@.skip(from as int),
            all_digits(body.take(i - from)),
            acc == digits_value(body.take(i - from)),
            0 <= acc <= 0x8000_0000,
        decreases n - i,
    {
        let c = v[i];
        if !is_digit_char(c) {
            assert(body[i - from] == c);
            return None;
        }
        let d: i64 = (c as u32 - 0x30) as i64;
        let ghost t = body.take(i - from + 1);
        assert(t.drop_last() =~= body.take(i - from));
        assert(t.last() == c);
        assert(all_digits(t)) by {
            assert forall|j: int| 0 <= j < t.len() implies is_digit(#[trigger] t[j]) by {
                if j < i - from {
                    assert(body.take(i - from)[j] == t[j]);
                }
            }
        }
        acc = acc * 10 + d;
        assert(acc == digits_value(t));
        if acc > 0x8000_0000 {
            // The value only grows with more digits: it cannot fit any more.
            let mut k: usize = i + 1;
            while k < n
                invariant
                    i < k <= n,
                    n == v.len(),
                    body == v@.skip(from as int),
                    all_digits(body.take(k - from)),
                decreases n - k,
            {
                if !is_digit_char(v[k]) {
                    assert(body[k - from] == v@[k as int]);
                    return None;
                }
                let ghost u = body.take(k - from + 1);
                assert(all_digits(u)) by {
                    assert forall|j: int| 0 <= j < u.len() implies is_digit(#[trigger] u[j]) by {
                        if j < k - from {
                            assert(body.take(k - from)[j] == u[j]);
                        }
                    }
                }
                k += 1;
            }
            proof {
                assert(body.take(n - from) =~= body);
                lemma_digits_value_grows(body, i - from + 1);
            }
            return None;
        }
        i += 1;
    }
    assert(body.take(n - from) =~= body);
    if negative {
        Some((-acc) as i32)
    } else if acc > 0x7fff_ffff {
        None
    } else {
        Some(acc as i32)
    }
}

/// The digit of `d`, which is under ten.
pub open spec fn digit_char(d: nat) -> char {
    if d == 0 {
        '0'
    } else if d == 1 {
        '1'
    } else if d == 2 {
        '2'
    } else if d == 3 {
        '3'
    } else if d == 4 {
        '4'
    } else if d == 5 {
        '5'
    } else if d == 6 {
        '6'
    } else if d == 7 {
        '7'
    } else if d == 8 {
        '8'
    } else {
        '9'
    }
}

/// `n` written in base ten.
pub open spec fn decimal(n: nat) -> Seq<char>
    decreases n,
{
    if n < 10 {
        seq![digit_char(n)]
    } else {
        decimal(n / 10).push(digit_char(n % 10))
    }
}

/// A number written in base ten is read back as itself: it is digits, at
/// least one, and they denote the number.
pub proof fn lemma_decimal_round_trip(n: nat)
    ensures
        decimal(n).len() >= 1,
        all_digits(decimal(n)),
        digits_value(decimal(n)) == n,
        int_literal(decimal(n)) == Some(n as int),
    decreases n,
{
    if n < 10 {
        assert(decimal(n).drop_last() =~= Seq::<char>::empty());
        assert(digits_value(decimal(n).drop_last()) == 0);
    } else {
        lemma_decimal_round_trip(n / 10);
        let d = decimal(n);
        assert(d.drop_last() =~= decimal(n / 10));
        assert(d.last() == digit_char(n % 10));
        assert forall|i: int| 0 <= i < d.len() implies is_digit(#[trigger] d[i]) by {
            if i < d.len() - 1 {
                assert(d[i] == decimal(n / 10)[i]);
            }
        }
    }
    assert(is_digit(decimal(n)[0]));
}

fn digit_of(d: usize) -> (c: char)
    requires
        d < 10,
    ensures
        c == digit_char(d as nat),
{
    if d == 0 {
        '0'
    } else if d == 1 {
        '1'
    } else if d == 2 {
        '2'
    } else if d == 3 {
        '3'
    } else if d == 4 {
        '4'
    } else if d == 5 {
        '5'
    } else if d == 6 {
        '6'
    } else if d == 7 {
        '7'
    } else if d == 8 {
        '8'
    } else {
        '9'
    }
}

/// `n` written in base ten.
pub fn decimal_chars(n: usize) -> (v: Vec<char>)
    ensures
        v@ == decimal(n as nat),
    decreases n,
{
    if n < 10 {
        let mut v: Vec<char> = Vec::new();
        v.push(digit_of(n));
        assert(v@ =~= seq![digit_char(n as nat)]);
        v
    } else {
        let mut v = decimal_chars(n / 10);
        v.push(digit_of(n % 10));
        v
    }
}

/// The unsigned number with the same 32 bits as `i`.
pub open spec fn wrap_u32(i: i32) -> u32 {
    if i >= 0 {
        i as u32
    } else {
        (i + 0x1_0000_0000) as u32
    }
}

/// The unsigned number with the same 32 bits as `i`.
pub fn to_u32(i: i32) -> (r: u32)
    ensures
        r == wrap_u32(i),
{
    if i >= 0 {
        i as u32
    } else {
        (i as i64 + 0x1_0000_0000) as u32
    }
}

/// A literal of a real number, kept as written.
#[derive(Debug, PartialEq)]
pub struct Number {
    pub text: String,
}

impl View for Number {
    type V = Seq<char>;

    open spec fn view(&self) -> Seq<char> {
        self.text@
    }
}

impl Clone for Number {
    fn clone(&self) -> (r: Self)
        ensures
            r@ == self@,
    {
        Number { text: self.text.clone() }
    }
}

impl Number {
    /// The literal `text`, if it is one of a real number.
    pub fn parse(text: &str) -> (r: Option<Number>)
        ensures
            r is Some <==> is_number(text@),
            r matches Some(n) ==> n@ == text@,
    {
        let v = chars_of(text);
        if is_number_chars(&v) {
            Some(Number { text: text.to_owned() })
        } else {
            None
        }
    }

    /// Holds `text` without looking at it.
    pub fn new(text: &str) -> (r: Number)
        ensures
            r@ == text@,
    {
        Number { text: text.to_owned() }
    }

    /// Whether both literals are written alike.
    pub fn same(&self, other: &Number) -> (r: bool)
        ensures
            r == (self@ == other@),
    {
        self.text == other.text
    }
}

} // verus!
