//! Decimal text: the integer grammar that Rust's `FromStr` accepts for
//! integers, verified parsers for it, and decimal rendering of integers.

use vstd::prelude::*;

verus! {

/// An ASCII decimal digit.
pub open spec fn is_digit(c: char) -> bool {
    '0' <= c && c <= '9'
}

/// Numeric value of a decimal digit.
pub open spec fn digit_value(c: char) -> int {
    (c as int) - ('0' as int)
}

/// Every character of `s` is a decimal digit.
pub open spec fn all_digits(s: Seq<char>) -> bool {
    forall|i: int| 0 <= i < s.len() ==> is_digit(#[trigger] s[i])
}

/// The number that a string of digits denotes, most significant digit first.
pub open spec fn digits_value(s: Seq<char>) -> int
    decreases s.len(),
{
    if s.len() == 0 {
        0
    } else {
        digits_value(s.drop_last()) * 10 + digit_value(s.last())
    }
}

/// The value of a non-empty run of digits, or `None`.
pub open spec fn unsigned_value(s: Seq<char>) -> Option<int> {
    if s.len() > 0 && all_digits(s) {
        Some(digits_value(s))
    } else {
        None
    }
}

/// The value of `s` read as a signed decimal integer: an optional `+` or `-`
/// followed by one or more digits.
pub open spec fn signed_value(s: Seq<char>) -> Option<int> {
    if s.len() > 0 && s[0] == '-' {
        match unsigned_value(s.skip(1)) {
            Some(v) => Some(-v),
            None => None,
        }
    } else if s.len() > 0 && s[0] == '+' {
        unsigned_value(s.skip(1))
    } else {
        unsigned_value(s)
    }
}

/// What `str::parse::<i32>` yields for `s`: the signed value when it fits.
pub open spec fn parsed_i32(s: Seq<char>) -> Option<i32> {
    match signed_value(s) {
        Some(v) => if i32::MIN <= v <= i32::MAX {
            Some(v as i32)
        } else {
            None
        },
        None => None,
    }
}

/// The value of `s` read as an unsigned decimal integer: an optional `+`
/// followed by one or more digits.
pub open spec fn plus_value(s: Seq<char>) -> Option<int> {
    if s.len() > 0 && s[0] == '+' {
        unsigned_value(s.skip(1))
    } else {
        unsigned_value(s)
    }
}

/// What `str::parse::<u16>` yields for `s`: the unsigned value when it fits.
pub open spec fn parsed_u16(s: Seq<char>) -> Option<u16> {
    match plus_value(s) {
        Some(v) => if v <= u16::MAX {
            Some(v as u16)
        } else {
            None
        },
        None => None,
    }
}

/// What `str::parse::<bool>` yields for `s`: exactly `true` or `false`.
pub open spec fn parsed_bool(s: Seq<char>) -> Option<bool> {
    if s == seq!['t', 'r', 'u', 'e'] {
        Some(true)
    } else if s == seq!['f', 'a', 'l', 's', 'e'] {
        Some(false)
    } else {
        None
    }
}

/// The digit character for a value below ten.
pub open spec fn digit_char(d: nat) -> char {
    (('0' as nat) + d) as char
}

/// Decimal digits of a natural number, without leading zeros.
pub open spec fn nat_text(n: nat) -> Seq<char>
    decreases n,
{
    if n < 10 {
        seq![digit_char(n)]
    } else {
        nat_text(n / 10) + seq![digit_char(n % 10)]
    }
}

/// Decimal text of an integer, with a leading `-` when it is negative.
pub open spec fn int_text(v: int) -> Seq<char> {
    if v < 0 {
        seq!['-'] + nat_text((-v) as nat)
    } else {
        nat_text(v as nat)
    }
}

proof fn lemma_prefix_value_bound(s: Seq<char>, k: int)
    requires
        all_digits(s),
        0 <= k <= s.len(),
    ensures
        digits_value(s.take(k)) <= digits_value(s),
        0 <= digits_value(s.take(k)),
    decreases s.len() - k,
{
    lemma_digits_value_nonneg(s.take(k));
    if k < s.len() {
        lemma_prefix_value_bound(s, k + 1);
        assert(s.take(k + 1).drop_last() =~= s.take(k));
        assert(all_digits(s.take(k + 1)));
    } else {
        assert(s.take(k) =~= s);
    }
}

proof fn lemma_digits_value_nonneg(s: Seq<char>)
    requires
        all_digits(s),
    ensures
        0 <= digits_value(s),
    decreases s.len(),
{
    if s.len() > 0 {
        assert(all_digits(s.drop_last()));
        lemma_digits_value_nonneg(s.drop_last());
        assert(is_digit(s[s.len() - 1]));
    }
}

/// Reads the digits of `s` from character `start` on; the value is returned
/// when it is at most `bound`.
fn parse_digits(s: &str, start: usize, bound: u64) -> (r: Option<u64>)
    requires
        start <= s@.len(),
        bound <= 0x1_0000_0000,
    ensures
        r matches Some(v) ==> v <= bound && unsigned_value(s@.skip(start as int)) == Some(v as int),
        r is None ==> match unsigned_value(s@.skip(start as int)) {
            Some(v) => v > bound,
            None => true,
        },
{
    let n = s.unicode_len();
    if start == n {
        return None;
    }
    let ghost t = s@.skip(start as int);
    let mut acc: u64 = 0;
    let mut i = start;
    while i < n
        invariant
            start <= i <= n,
            n == s@.len(),
            t == s@.skip(start as int),
            acc <= bound,
            bound <= 0x1_0000_0000,
            all_digits(t.take(i - start)),
            acc == digits_value(t.take(i - start)),
        decreases n - i,
    {
        let c = s.get_char(i);
        assert(t[i - start] == c);
        if !('0' <= c && c <= '9') {
            assert(!all_digits(t));
            return None;
        }
        let d = (c as u32 - '0' as u32) as u64;
        assert(t.take(i + 1 - start).drop_last() =~= t.take(i - start));
        assert(all_digits(t.take(i + 1 - start)));
        acc = acc * 10 + d;
        i = i + 1;
        if acc > bound {
            proof {
                if all_digits(t) {
                    lemma_prefix_value_bound(t, i - start);
                }
            }
            return None;
        }
    }
    assert(t.take(i - start) =~= t);
    Some(acc)
}

/// Parses `s` as `str::parse::<i32>` does.
pub fn parse_i32(s: &str) -> (r: Option<i32>)
    ensures
        r == parsed_i32(s@),
{
    let n = s.unicode_len();
    if n == 0 {
        return None;
    }
    let first = s.get_char(0);
    if first == '-' {
        match parse_digits(s, 1, 0x8000_0000) {
            Some(v) => {
                if v == 0x8000_0000 {
                    Some(i32::MIN)
                } else {
                    let m = v as i32;
                    Some(-m)
                }
            },
            None => None,
        }
    } else {
        let start: usize = if first == '+' { 1 } else { 0 };
        assert(s@.skip(0) =~= s@);
        match parse_digits(s, start, 0x7fff_ffff) {
            Some(v) => Some(v as i32),
            None => None,
        }
    }
}

/// Parses `s` as `str::parse::<u16>` does.
pub fn parse_u16(s: &str) -> (r: Option<u16>)
    ensures
        r == parsed_u16(s@),
{
    let n = s.unicode_len();
    if n == 0 {
        return None;
    }
    let first = s.get_char(0);
    let start: usize = if first == '+' { 1 } else { 0 };
    assert(s@.skip(0) =~= s@);
    match parse_digits(s, start, 0xffff) {
        Some(v) => Some(v as u16),
        None => None,
    }
}

/// Whether two strings hold the same characters.
pub fn same_text(s: &str, t: &str) -> (r: bool)
    ensures
        r == (s@ == t@),
{
    let n = s.unicode_len();
    if n != t.unicode_len() {
        return false;
    }
    let mut i: usize = 0;
    while i < n
        invariant
            i <= n,
            n == s@.len(),
            n == t@.len(),
            forall|j: int| 0 <= j < i ==> s@[j] == t@[j],
        decreases n - i,
    {
        if s.get_char(i) != t.get_char(i) {
            return false;
        }
        i = i + 1;
    }
    assert(s@ =~= t@);
    true
}

/// Parses `s` as `str::parse::<bool>` does.
pub fn parse_bool(s: &str) -> (r: Option<bool>)
    ensures
        r == parsed_bool(s@),
{
    proof {
        reveal_strlit("true");
        reveal_strlit("false");
    }
    if same_text(s, "true") {
        assert("true"@ =~= seq!['t', 'r', 'u', 'e']);
        Some(true)
    } else if same_text(s, "false") {
        assert("false"@ =~= seq!['f', 'a', 'l', 's', 'e']);
        Some(false)
    } else {
        assert("true"@ =~= seq!['t', 'r', 'u', 'e']);
        assert("false"@ =~= seq!['f', 'a', 'l', 's', 'e']);
        None
    }
}

/// The one-character text of a decimal digit.
fn digit_str(d: u32) -> (r: &'static str)
    requires
        d < 10,
    ensures
        r@ == seq![digit_char(d as nat)],
{
    proof {
        reveal_strlit("0");
        reveal_strlit("1");
        reveal_strlit("2");
        reveal_strlit("3");
        reveal_strlit("4");
        reveal_strlit("5");
        reveal_strlit("6");
        reveal_strlit("7");
        reveal_strlit("8");
        reveal_strlit("9");
    }
    let r = if d == 0 {
        "0"
    } else if d == 1 {
        "1"
    } else if d == 2 {
        "2"
    } else if d == 3 {
        "3"
    } else if d == 4 {
        "4"
    } else if d == 5 {
        "5"
    } else if d == 6 {
        "6"
    } else if d == 7 {
        "7"
    } else if d == 8 {
        "8"
    } else {
        "9"
    };
    assert(r@ =~= seq![digit_char(d as nat)]);
    r
}

/// Appends the decimal digits of `n` to `out`.
fn push_nat_text(out: &mut String, n: u32)
    ensures
        final(out)@ == old(out)@ + nat_text(n as nat),
    decreases n,
{
    if n >= 10 {
        push_nat_text(out, n / 10);
    }
    out.append(digit_str(n % 10));
    proof {
        if n >= 10 {
            assert(old(out)@ + nat_text(n as nat) =~= old(out)@ + nat_text((n / 10) as nat) + seq![digit_char((n % 10) as nat)]);
        } else {
            assert(nat_text(n as nat) == seq![digit_char(n as nat)]);
        }
    }
}

/// Decimal text of `v`, as `format!("{}", v)` writes it.
pub fn decimal_text(v: i32) -> (r: String)
    ensures
        r@ == int_text(v as int),
{
    proof {
        reveal_strlit("-");
    }
    if v < 0 {
        let mut out = String::from_str("-");
        let m: u32 = if v == i32::MIN { 0x8000_0000 } else { (-v) as u32 };
        push_nat_text(&mut out, m);
        assert(out@ =~= int_text(v as int));
        out
    } else {
        let mut out = String::new();
        push_nat_text(&mut out, v as u32);
        assert(out@ =~= int_text(v as int));
        out
    }
}

proof fn lemma_nat_text(n: nat)
    ensures
        nat_text(n).len() > 0,
        all_digits(nat_text(n)),
        digits_value(nat_text(n)) == n,
    decreases n,
{
    if n >= 10 {
        lemma_nat_text(n / 10);
        let t = nat_text(n);
        assert(t.drop_last() =~= nat_text(n / 10));
        assert(t.last() == digit_char(n % 10));
        lemma_digit_char(n % 10);
        assert(digits_value(t) == digits_value(t.drop_last()) * 10 + digit_value(t.last()));
        assert((n / 10) * 10 + n % 10 == n);
    } else {
        assert(digits_value(nat_text(n)) == digits_value(nat_text(n).drop_last()) * 10 + digit_value(nat_text(n).last()));
        lemma_digit_char(n);
        assert(nat_text(n).drop_last() =~= Seq::<char>::empty());
    }
}

proof fn lemma_digit_char(d: nat)
    requires
        d < 10,
    ensures
        is_digit(digit_char(d)),
        digit_value(digit_char(d)) == d,
{
    assert(('0' as nat) == 48);
    assert((48 + d) as char as int == 48 + d);
}

/// Rendering an `i32` in decimal and parsing the text back gives the same
/// number.
pub proof fn lemma_parse_decimal_text(v: i32)
    ensures
        parsed_i32(int_text(v as int)) == Some(v),
{
    let m: nat = if v < 0 { (-v) as nat } else { v as nat };
    lemma_nat_text(m);
    let t = int_text(v as int);
    if v < 0 {
        assert(t.skip(1) =~= nat_text(m));
        assert(t[0] == '-');
    } else {
        assert(t =~= nat_text(m));
        assert(is_digit(t[0]));
    }
}

/// Signs in the `i32` grammar: a leading `+` changes nothing, a leading `-`
/// negates, a sign alone or a second sign is refused, and any character that
/// is not a digit after the sign makes the text unreadable.
pub proof fn lemma_parse_i32_signs(t: Seq<char>)
    requires
        t.len() > 0,
        all_digits(t),
    ensures
        parsed_i32(seq!['+'] + t) == parsed_i32(t),
        signed_value(seq!['-'] + t) == Some(-digits_value(t)),
        signed_value(t) == Some(digits_value(t)),
        parsed_i32(seq!['+']) is None,
        parsed_i32(seq!['-']) is None,
        parsed_i32(seq!['+', '-'] + t) is None,
        parsed_i32(seq!['-', '-'] + t) is None,
{
    assert((seq!['+'] + t).skip(1) =~= t);
    assert((seq!['-'] + t).skip(1) =~= t);
    assert(is_digit(t[0]));
    assert(seq!['+'].skip(1) =~= Seq::<char>::empty());
    assert(seq!['-'].skip(1) =~= Seq::<char>::empty());
    let p = seq!['+', '-'] + t;
    let m = seq!['-', '-'] + t;
    assert(p.skip(1)[0] == '-');
    assert(m.skip(1)[0] == '-');
    assert(!all_digits(p.skip(1)));
    assert(!all_digits(m.skip(1)));
}

/// A text that reads as a `u16` reads as the same number as an `i32`.
pub proof fn lemma_u16_text_is_i32_text(s: Seq<char>)
    requires
        parsed_u16(s) is Some,
    ensures
        parsed_i32(s) == Some(parsed_u16(s)->0 as i32),
        s.len() > 0 && s[0] != '-',
{
    if s.len() > 0 && s[0] == '+' {
    } else {
        assert(all_digits(s));
        assert(is_digit(s[0]));
    }
    lemma_digits_value_nonneg(if s[0] == '+' { s.skip(1) } else { s });
}

} // verus!
