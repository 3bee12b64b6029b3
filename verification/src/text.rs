//! Decimal text: reading integers the way `str::parse` does and writing them
//! the way `Display` does, plus the few character-level string helpers the
//! rest of the crate builds on.
use vstd::prelude::*;
use vstd::string::*;

verus! {

/// Is `c` an ASCII decimal digit?
pub open spec fn is_digit(c: char) -> bool {
    '0' <= c && c <= '9'
}

/// The value of the ASCII digit `c`.
pub open spec fn digit_value(c: char) -> int {
    c as int - '0' as int
}

/// The character that writes the digit `d` (for `0 <= d < 10`).
pub open spec fn digit_char(d: int) -> char {
    (d + '0' as int) as char
}

pub open spec fn all_digits(s: Seq<char>) -> bool {
    forall|i: int| 0 <= i < s.len() ==> is_digit(#[trigger] s[i])
}

/// The number that the digit string `s` writes in base ten.
pub open spec fn digits_value(s: Seq<char>) -> int
    decreases s.len(),
{
    if s.len() == 0 {
        0
    } else {
        digits_value(s.drop_last()) * 10 + digit_value(s.last())
    }
}

/// A digit string never writes a negative number.
pub proof fn lemma_digits_value_nonneg(s: Seq<char>)
    requires
        all_digits(s),
    ensures
        digits_value(s) >= 0,
    decreases s.len(),
{
    if s.len() > 0 {
        assert(all_digits(s.drop_last()));
        lemma_digits_value_nonneg(s.drop_last());
        assert(is_digit(s[s.len() - 1]));
    }
}

/// What `str::parse` gives for an unsigned type before the range check:
/// an optional `+`, then one or more ASCII digits.
pub open spec fn unsigned_text_value(s: Seq<char>) -> Option<int> {
    let body = if s.len() > 0 && s[0] == '+' {
        s.skip(1)
    } else {
        s
    };
    if body.len() > 0 && all_digits(body) {
        Some(digits_value(body))
    } else {
        None
    }
}

/// A number read as unsigned is never negative.
pub proof fn lemma_unsigned_text_value_nonneg(s: Seq<char>)
    ensures
        unsigned_text_value(s) matches Some(v) ==> v >= 0,
{
    let body = if s.len() > 0 && s[0] == '+' { s.skip(1) } else { s };
    if body.len() > 0 && all_digits(body) {
        lemma_digits_value_nonneg(body);
    }
}

/// What `str::parse` gives for a signed type before the range check:
/// an optional `+` or `-`, then one or more ASCII digits.
pub open spec fn signed_text_value(s: Seq<char>) -> Option<int> {
    if s.len() > 0 && s[0] == '-' {
        let body = s.skip(1);
        if body.len() > 0 && all_digits(body) {
            Some(-digits_value(body))
        } else {
            None
        }
    } else {
        unsigned_text_value(s)
    }
}

/// The value `v` if it is present and lies in `lo..=hi`.
pub open spec fn in_range(v: Option<int>, lo: int, hi: int) -> Option<int> {
    match v {
        Some(x) => if lo <= x && x <= hi {
            Some(x)
        } else {
            None
        },
        None => None,
    }
}

/// The decimal digits of the natural number `n`, without leading zeros.
pub open spec fn nat_text(n: nat) -> Seq<char>
    decreases n,
{
    if n < 10 {
        seq![digit_char(n as int)]
    } else {
        nat_text((n / 10) as nat).push(digit_char((n % 10) as int))
    }
}

/// How `Display` writes the integer `n`: a `-` for negative numbers, then
/// the decimal digits of its magnitude.
pub open spec fn decimal_text(n: int) -> Seq<char> {
    if n < 0 {
        seq!['-'] + nat_text((-n) as nat)
    } else {
        nat_text(n as nat)
    }
}

/// Is `c` a character that `char::is_whitespace` accepts (Unicode White_Space)?
pub open spec fn is_unicode_whitespace(c: char) -> bool {
    let u = c as u32;
    ||| 0x09 <= u && u <= 0x0d
    ||| u == 0x20
    ||| u == 0x85
    ||| u == 0xa0
    ||| u == 0x1680
    ||| 0x2000 <= u && u <= 0x200a
    ||| u == 0x2028
    ||| u == 0x2029
    ||| u == 0x202f
    ||| u == 0x205f
    ||| u == 0x3000
}

/// Does `s.trim()` leave nothing, i.e. is every character whitespace?
pub open spec fn is_blank_text(s: Seq<char>) -> bool {
    forall|i: int| 0 <= i < s.len() ==> is_unicode_whitespace(#[trigger] s[i])
}

/// `String::push`: appends the character `c`.
#[verifier::external_body]
pub(crate) fn push_char(s: &mut String, c: char)
    ensures
        final(s)@ == old(s)@.push(c),
{
    s.push(c);
}

/// Appends `t` to `s`.
pub fn append_text(s: &mut String, t: &str)
    ensures
        final(s)@ == old(s)@ + t@,
{
    s.append(t);
}

/// A copy of `t` as an owned string.
pub fn owned_text(t: &str) -> (r: String)
    ensures
        r@ == t@,
{
    String::from_str(t)
}

/// The concatenation of `a` and `b` as a new string.
pub fn joined2(a: &str, b: &str) -> (r: String)
    ensures
        r@ == a@ + b@,
{
    let mut r = owned_text(a);
    append_text(&mut r, b);
    r
}

fn digit_to_char(d: u64) -> (c: char)
    requires
        d < 10,
    ensures
        c == digit_char(d as int),
{
    match d {
        0 => '0',
        1 => '1',
        2 => '2',
        3 => '3',
        4 => '4',
        5 => '5',
        6 => '6',
        7 => '7',
        8 => '8',
        _ => '9',
    }
}

fn push_nat_text(s: &mut String, n: u64)
    ensures
        final(s)@ == old(s)@ + nat_text(n as nat),
    decreases n,
{
    if n >= 10 {
        push_nat_text(s, n / 10);
    }
    let c = digit_to_char(n % 10);
    push_char(s, c);
    proof {
        if n >= 10 {
            assert(nat_text(n as nat) == nat_text((n / 10) as nat).push(digit_char((n % 10) as int)));
        } else {
            assert(nat_text(n as nat) == seq![digit_char(n as int)]);
        }
    }
}

/// The decimal text of an unsigned number, as `u64::to_string` writes it.
pub fn format_u64(n: u64) -> (r: String)
    ensures
        r@ == decimal_text(n as int),
{
    let mut s = String::new();
    push_nat_text(&mut s, n);
    assert(s@ =~= nat_text(n as nat));
    s
}

/// The decimal text of a signed number, as `i64::to_string` writes it.
pub fn format_i64(n: i64) -> (r: String)
    ensures
        r@ == decimal_text(n as int),
{
    let mut s = String::new();
    if n < 0 {
        push_char(&mut s, '-');
        let magnitude: u64 = (0i128 - (n as i128)) as u64;
        push_nat_text(&mut s, magnitude);
        assert(s@ =~= seq!['-'] + nat_text((-(n as int)) as nat));
    } else {
        push_nat_text(&mut s, n as u64);
        assert(s@ =~= nat_text(n as nat));
    }
    s
}

/// Reads `s` from character `start` on as a nonempty run of ASCII digits
/// whose value is at most `limit`.
fn digits_from(s: &str, start: usize, limit: u64) -> (r: Option<u64>)
    requires
        start <= s@.len(),
    ensures
        r == (if start < s@.len() && all_digits(s@.skip(start as int)) && digits_value(
            s@.skip(start as int),
        ) <= limit {
            Some(digits_value(s@.skip(start as int)) as u64)
        } else {
            None::<u64>
        }),
{
    let n = s.unicode_len();
    let ghost body = s@.skip(start as int);
    if start == n {
        return None;
    }
    let mut acc: u64 = 0;
    let mut over = false;
    let mut i = start;
    assert(body.take(0) =~= Seq::<char>::empty());
    while i < n
        invariant
            n == s@.len(),
            body == s@.skip(start as int),
            start <= i <= n,
            all_digits(body.take(i - start)),
            !over ==> acc == digits_value(body.take(i - start)) && acc <= limit,
            over ==> digits_value(body.take(i - start)) > limit,
        decreases n - i,
    {
        let c = s.get_char(i);
        assert(c == body[i - start]);
        if !('0' <= c && c <= '9') {
            assert(!all_digits(body));
            return None;
        }
        let ghost k = i - start;
        assert(body.take(k + 1).drop_last() =~= body.take(k));
        assert(body.take(k + 1).last() == c);
        let d: u64 = (c as u32 - '0' as u32) as u64;
        assert(d == digit_value(c));
        if !over {
            let next: u128 = (acc as u128) * 10 + (d as u128);
            if next > limit as u128 {
                over = true;
            } else {
                acc = next as u64;
            }
        } else {
            assert(digits_value(body.take(k + 1)) >= digits_value(body.take(k)));
        }
        assert(all_digits(body.take(k + 1)));
        i = i + 1;
    }
    assert(body.take(n - start) =~= body);
    if over {
        None
    } else {
        Some(acc)
    }
}

/// Reads `s` as `str::parse` does for an unsigned type whose largest value is
/// `limit`.
pub fn parse_unsigned(s: &str, limit: u64) -> (r: Option<u64>)
    ensures
        r matches Some(v) ==> in_range(unsigned_text_value(s@), 0, limit as int) == Some(v as int),
        r is None ==> in_range(unsigned_text_value(s@), 0, limit as int) is None,
{
    let n = s.unicode_len();
    let r = if n > 0 && s.get_char(0) == '+' {
        digits_from(s, 1, limit)
    } else {
        assert(s@.skip(0) =~= s@);
        digits_from(s, 0, limit)
    };
    proof {
        let body = if s@.len() > 0 && s@[0] == '+' { s@.skip(1) } else { s@ };
        if body.len() > 0 && all_digits(body) {
            lemma_digits_value_nonneg(body);
        }
    }
    r
}

/// `s.parse::<u16>().ok()`.
pub fn parse_u16(s: &str) -> (r: Option<u16>)
    ensures
        r matches Some(v) ==> in_range(unsigned_text_value(s@), 0, u16::MAX as int) == Some(v as int),
        r is None ==> in_range(unsigned_text_value(s@), 0, u16::MAX as int) is None,
{
    match parse_unsigned(s, u16::MAX as u64) {
        Some(v) => Some(v as u16),
        None => None,
    }
}

/// `s.parse::<usize>().ok()`.
pub fn parse_usize(s: &str) -> (r: Option<usize>)
    ensures
        r matches Some(v) ==> in_range(unsigned_text_value(s@), 0, usize::MAX as int) == Some(
            v as int,
        ),
        r is None ==> in_range(unsigned_text_value(s@), 0, usize::MAX as int) is None,
{
    match parse_unsigned(s, usize::MAX as u64) {
        Some(v) => Some(v as usize),
        None => None,
    }
}

/// Reads `s` as `str::parse` does for a signed type whose range is
/// `-(limit + 1) ..= limit`, giving the value as an `i128`.
fn parse_signed(s: &str, limit: u64) -> (r: Option<i128>)
    requires
        limit < u64::MAX,
    ensures
        r matches Some(v) ==> in_range(signed_text_value(s@), -(limit + 1), limit as int) == Some(
            v as int,
        ),
        r is None ==> in_range(signed_text_value(s@), -(limit + 1), limit as int) is None,
{
    let n = s.unicode_len();
    if n > 0 && s.get_char(0) == '-' {
        proof {
            let body = s@.skip(1);
            if body.len() > 0 && all_digits(body) {
                lemma_digits_value_nonneg(body);
            }
        }
        match digits_from(s, 1, limit + 1) {
            Some(m) => Some(0i128 - (m as i128)),
            None => None,
        }
    } else {
        proof {
            let body = if s@.len() > 0 && s@[0] == '+' { s@.skip(1) } else { s@ };
            if body.len() > 0 && all_digits(body) {
                lemma_digits_value_nonneg(body);
            }
        }
        match parse_unsigned(s, limit) {
            Some(v) => Some(v as i128),
            None => None,
        }
    }
}

/// `s.parse::<i32>().ok()`.
pub fn parse_i32(s: &str) -> (r: Option<i32>)
    ensures
        r matches Some(v) ==> in_range(signed_text_value(s@), i32::MIN as int, i32::MAX as int)
            == Some(v as int),
        r is None ==> in_range(signed_text_value(s@), i32::MIN as int, i32::MAX as int) is None,
{
    match parse_signed(s, i32::MAX as u64) {
        Some(v) => Some(v as i32),
        None => None,
    }
}

/// `s.parse::<i64>().ok()`.
pub fn parse_i64(s: &str) -> (r: Option<i64>)
    ensures
        r matches Some(v) ==> in_range(signed_text_value(s@), i64::MIN as int, i64::MAX as int)
            == Some(v as int),
        r is None ==> in_range(signed_text_value(s@), i64::MIN as int, i64::MAX as int) is None,
{
    match parse_signed(s, i64::MAX as u64) {
        Some(v) => Some(v as i64),
        None => None,
    }
}

/// `s.trim().is_empty()`: is every character of `s` whitespace?
pub fn is_blank(s: &str) -> (r: bool)
    ensures
        r == is_blank_text(s@),
{
    let n = s.unicode_len();
    let mut i: usize = 0;
    while i < n
        invariant
            n == s@.len(),
            i <= n,
            forall|j: int| 0 <= j < i ==> is_unicode_whitespace(#[trigger] s@[j]),
        decreases n - i,
    {
        let c = s.get_char(i);
        let u = c as u32;
        let white = (0x09 <= u && u <= 0x0d) || u == 0x20 || u == 0x85 || u == 0xa0 || u == 0x1680
            || (0x2000 <= u && u <= 0x200a) || u == 0x2028 || u == 0x2029 || u == 0x202f || u
            == 0x205f || u == 0x3000;
        if !white {
            assert(!is_unicode_whitespace(s@[i as int]));
            return false;
        }
        i = i + 1;
    }
    true
}


proof fn lemma_nat_text_digits(n: nat)
    ensures
        nat_text(n).len() > 0,
        all_digits(nat_text(n)),
        digits_value(nat_text(n)) == n,
    decreases n,
{
    if n < 10 {
        let c = digit_char(n as int);
        assert(c as int == n + 48);
        assert(nat_text(n) == seq![c]);
        assert(seq![c].drop_last() =~= Seq::<char>::empty());
        assert(digits_value(seq![c]) == digits_value(Seq::<char>::empty()) * 10 + digit_value(c));
    } else {
        let q = (n / 10) as nat;
        let d = (n % 10) as int;
        lemma_nat_text_digits(q);
        let c = digit_char(d);
        assert(c as int == d + 48);
        let t = nat_text(q).push(c);
        assert(nat_text(n) == t);
        assert(t.drop_last() =~= nat_text(q));
        assert(digits_value(t) == digits_value(nat_text(q)) * 10 + digit_value(t.last()));
        assert forall|i: int| 0 <= i < t.len() implies is_digit(#[trigger] t[i]) by {
            if i < t.len() - 1 {
                assert(t[i] == nat_text(q)[i]);
            }
        }
    }
}

/// Reading back what `Display` writes gives the number: the decimal text of
/// any integer parses (as a signed number) to that integer, and the text of a
/// natural number also parses as an unsigned one.
pub proof fn lemma_decimal_text_round_trip(n: int)
    ensures
        signed_text_value(decimal_text(n)) == Some(n),
        n >= 0 ==> unsigned_text_value(decimal_text(n)) == Some(n),
{
    if n < 0 {
        let m = (-n) as nat;
        lemma_nat_text_digits(m);
        let s = decimal_text(n);
        assert(s == seq!['-'] + nat_text(m));
        assert(s.skip(1) =~= nat_text(m));
        assert(s[0] == '-');
    } else {
        let m = n as nat;
        lemma_nat_text_digits(m);
        let s = decimal_text(n);
        assert(s == nat_text(m));
        assert(is_digit(s[0]));
    }
}

/// The whitespace characters are exactly those of Unicode's White_Space
/// property: U+0009..U+000D, U+0020, U+0085, U+00A0, U+1680, U+2000..U+200A,
/// U+2028, U+2029, U+202F, U+205F and U+3000.
pub proof fn lemma_whitespace_characters(c: char)
    ensures
        is_unicode_whitespace(c) <==> (9 <= c as u32 <= 13 || c as u32 == 32 || c as u32 == 133
            || c as u32 == 160 || c as u32 == 5760 || (8192 <= c as u32 <= 8202) || c as u32
            == 8232 || c as u32 == 8233 || c as u32 == 8239 || c as u32 == 8287 || c as u32
            == 12288),
{
}

} // verus!
