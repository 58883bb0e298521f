//! Text handling for lines of input: trimming, and decimal numerals.

use vstd::prelude::*;
use vstd::string::StrSliceExecFns;
use vstd::string::StringExecFns;

verus! {

/// The characters that count as white space when a line is trimmed: those
/// with the Unicode property White_Space.
pub open spec fn is_white_space(c: char) -> bool {
    let u = c as u32;
    ||| 0x09 <= u <= 0x0D
    ||| u == 0x20
    ||| u == 0x85
    ||| u == 0xA0
    ||| u == 0x1680
    ||| 0x2000 <= u <= 0x200A
    ||| u == 0x2028
    ||| u == 0x2029
    ||| u == 0x202F
    ||| u == 0x205F
    ||| u == 0x3000
}

/// The number of white-space characters at the front of `s`.
pub open spec fn leading_white(s: Seq<char>) -> nat
    decreases s.len(),
{
    if s.len() > 0 && is_white_space(s[0]) {
        1 + leading_white(s.skip(1))
    } else {
        0
    }
}

/// The number of white-space characters at the back of `s`.
pub open spec fn trailing_white(s: Seq<char>) -> nat
    decreases s.len(),
{
    if s.len() > 0 && is_white_space(s.last()) {
        1 + trailing_white(s.drop_last())
    } else {
        0
    }
}

/// `s` without the white space at its back.
pub open spec fn trimmed_end(s: Seq<char>) -> Seq<char> {
    s.take(s.len() - trailing_white(s))
}

/// `s` without the white space at its front.
pub open spec fn trimmed_start(s: Seq<char>) -> Seq<char> {
    s.skip(leading_white(s) as int)
}

/// `s` without the white space at either end.
pub open spec fn trimmed(s: Seq<char>) -> Seq<char> {
    trimmed_end(trimmed_start(s))
}

/// Where the first `n` characters are white space and the next one, if
/// there is one, is not, `n` is the count of leading white space.
pub proof fn lemma_leading_white(s: Seq<char>, n: int)
    requires
        0 <= n <= s.len(),
        forall|k: int| 0 <= k < n ==> is_white_space(#[trigger] s[k]),
        n < s.len() ==> !is_white_space(s[n]),
    ensures
        leading_white(s) == n,
    decreases n,
{
    if n > 0 {
        let rest = s.skip(1);
        assert forall|k: int| 0 <= k < n - 1 implies is_white_space(#[trigger] rest[k]) by {
            assert(rest[k] == s[k + 1]);
        }
        lemma_leading_white(rest, n - 1);
    }
}

/// Where the last `n` characters are white space and the one before them,
/// if there is one, is not, `n` is the count of trailing white space.
pub proof fn lemma_trailing_white(s: Seq<char>, n: int)
    requires
        0 <= n <= s.len(),
        forall|k: int| s.len() - n <= k < s.len() ==> is_white_space(#[trigger] s[k]),
        n < s.len() ==> !is_white_space(s[s.len() - n - 1]),
    ensures
        trailing_white(s) == n,
    decreases n,
{
    if n > 0 {
        let rest = s.drop_last();
        assert forall|k: int| rest.len() - (n - 1) <= k < rest.len() implies is_white_space(
            #[trigger] rest[k],
        ) by {
            assert(rest[k] == s[k]);
        }
        lemma_trailing_white(rest, n - 1);
    }
}

/// The counts of white space at the two ends never exceed the length.
pub proof fn lemma_white_bounds(s: Seq<char>)
    ensures
        leading_white(s) <= s.len(),
        trailing_white(s) <= s.len(),
    decreases s.len(),
{
    if s.len() > 0 {
        lemma_white_bounds(s.skip(1));
        lemma_white_bounds(s.drop_last());
    }
}

/// Tells whether `c` is white space.
pub fn is_white_space_char(c: char) -> (r: bool)
    ensures
        r == is_white_space(c),
{
    let u: u32 = c as u32;
    (0x09 <= u && u <= 0x0D) || u == 0x20 || u == 0x85 || u == 0xA0 || u == 0x1680 || (0x2000 <= u
        && u <= 0x200A) || u == 0x2028 || u == 0x2029 || u == 0x202F || u == 0x205F || u == 0x3000
}

/// The index one past the last character of `s` that is kept when its
/// trailing white space goes, looking no further left than `from`.
fn content_end(s: &str, from: usize, len: usize) -> (end: usize)
    requires
        len == s@.len(),
        from <= len,
    ensures
        from <= end <= len,
        end == len - trailing_white(s@.skip(from as int)),
{
    let mut end: usize = len;
    while end > from && is_white_space_char(s.get_char(end - 1))
        invariant
            from <= end <= len,
            len == s@.len(),
            forall|k: int| end <= k < len ==> is_white_space(#[trigger] s@[k]),
        decreases end,
    {
        end = end - 1;
    }
    proof {
        let rest = s@.skip(from as int);
        assert forall|k: int| rest.len() - (len - end) <= k < rest.len() implies is_white_space(
            #[trigger] rest[k],
        ) by {
            assert(rest[k] == s@[k + from]);
        }
        if len - end < rest.len() {
            assert(rest[rest.len() - (len - end) - 1] == s@[end - 1]);
        }
        lemma_trailing_white(rest, len - end);
    }
    end
}

/// Removes the white space at the back of `s`.
pub fn trim_end(s: &str) -> (r: &str)
    ensures
        r@ == trimmed_end(s@),
{
    let len = s.unicode_len();
    let end = content_end(s, 0, len);
    assert(s@.skip(0) =~= s@);
    assert(s@.subrange(0, end as int) =~= s@.take(end as int));
    s.substring_char(0, end)
}

/// Removes the white space at both ends of `s`.
pub fn trim(s: &str) -> (r: &str)
    ensures
        r@ == trimmed(s@),
{
    let len = s.unicode_len();
    let mut start: usize = 0;
    while start < len && is_white_space_char(s.get_char(start))
        invariant
            start <= len,
            len == s@.len(),
            forall|k: int| 0 <= k < start ==> is_white_space(#[trigger] s@[k]),
        decreases len - start,
    {
        start = start + 1;
    }
    proof {
        lemma_leading_white(s@, start as int);
    }
    let end = content_end(s, start, len);
    proof {
        let rest = s@.skip(start as int);
        assert(s@.subrange(start as int, end as int) =~= rest.take(rest.len() - trailing_white(rest)));
    }
    s.substring_char(start, end)
}

/// Tells whether two texts are the same.
pub fn same_text(a: &str, b: &str) -> (same: bool)
    ensures
        same == (a@ == b@),
{
    let left = String::from_str(a);
    let right = String::from_str(b);
    left == right
}

/// The character that writes the digit `d`.
pub open spec fn digit_char(d: nat) -> char
    recommends
        d < 10,
{
    (d + 48) as char
}

/// `n` written in decimal, without sign or leading zeros.
pub open spec fn decimal(n: nat) -> Seq<char>
    decreases n,
{
    if n < 10 {
        seq![digit_char(n)]
    } else {
        decimal(n / 10).push(digit_char(n % 10))
    }
}

/// Whether `c` is one of the ten ASCII digits.
pub open spec fn is_digit(c: char) -> bool {
    48 <= c as u32 <= 57
}

/// The number that the digit `c` stands for.
pub open spec fn digit_value(c: char) -> nat {
    if is_digit(c) {
        (c as u32 - 48) as nat
    } else {
        0
    }
}

/// Whether `s` is a decimal numeral: one digit or more, and nothing else.
pub open spec fn is_numeral(s: Seq<char>) -> bool {
    s.len() > 0 && forall|k: int| 0 <= k < s.len() ==> is_digit(#[trigger] s[k])
}

/// The number that the numeral `s` writes.
pub open spec fn numeral_value(s: Seq<char>) -> nat
    decreases s.len(),
{
    if s.len() == 0 {
        0
    } else {
        numeral_value(s.drop_last()) * 10 + digit_value(s.last())
    }
}

/// `s` without one leading plus sign.
pub open spec fn unsigned_part(s: Seq<char>) -> Seq<char> {
    if s.len() > 0 && s[0] == '+' {
        s.skip(1)
    } else {
        s
    }
}

/// The index that `s` writes, where `s` is a decimal numeral, with or
/// without a leading plus sign, whose value is below `limit`.
pub open spec fn index_below(s: Seq<char>, limit: nat) -> Option<nat> {
    let digits = unsigned_part(s);
    if is_numeral(digits) && numeral_value(digits) < limit {
        Some(numeral_value(digits))
    } else {
        None
    }
}

/// A numeral is worth no less than any of its prefixes.
pub proof fn lemma_numeral_prefix(s: Seq<char>, k: int)
    requires
        0 <= k <= s.len(),
    ensures
        numeral_value(s.take(k)) <= numeral_value(s),
    decreases s.len() - k,
{
    if k < s.len() {
        lemma_numeral_prefix(s, k + 1);
        assert(s.take(k + 1).drop_last() =~= s.take(k));
        assert(numeral_value(s.take(k)) * 10 >= numeral_value(s.take(k))) by (nonlinear_arith);
    } else {
        assert(s.take(k) =~= s);
    }
}

/// The decimal writing of a number is a numeral, and the numeral is worth
/// that number.
pub proof fn lemma_decimal_is_numeral(n: nat)
    ensures
        is_numeral(decimal(n)),
        numeral_value(decimal(n)) == n,
    decreases n,
{
    if n < 10 {
        let s = decimal(n);
        assert(s[0] == digit_char(n));
        assert(digit_value(digit_char(n)) == n);
        assert(s.drop_last() =~= Seq::<char>::empty());
        assert(numeral_value(s.drop_last()) == 0);
        assert(s.last() == digit_char(n));
    } else {
        lemma_decimal_is_numeral(n / 10);
        let front = decimal(n / 10);
        let s = front.push(digit_char(n % 10));
        assert(digit_value(digit_char(n % 10)) == n % 10);
        assert(s.drop_last() =~= front);
        assert(s.last() == digit_char(n % 10));
        assert forall|k: int| 0 <= k < s.len() implies is_digit(#[trigger] s[k]) by {
            if k < front.len() {
                assert(s[k] == front[k]);
            }
        }
    }
}

/// An identifier as it is written in a row is read back as that
/// identifier, as long as it is below the limit.
pub proof fn lemma_decimal_reads_back(n: nat, limit: nat)
    ensures
        index_below(decimal(n), limit) == if n < limit {
            Some(n)
        } else {
            None::<nat>
        },
{
    lemma_decimal_is_numeral(n);
    assert(is_digit(decimal(n)[0]));
}

/// The one-character text of a digit.
fn digit_text(d: usize) -> (r: &'static str)
    requires
        d < 10,
    ensures
        r@ == seq![digit_char(d as nat)],
{
    proof {
        reveal_strlit("0");
        reveal_strlit("1");
        reveal_strlit("2");
        reveal_strlit("3");
        reveal_strlit("4");
        reveal_strlit("5");
        reveal_strlit("6");
        reveal_strlit("7");
        reveal_strlit("8");
        reveal_strlit("9");
    }
    let r = if d == 0 {
        "0"
    } else if d == 1 {
        "1"
    } else if d == 2 {
        "2"
    } else if d == 3 {
        "3"
    } else if d == 4 {
        "4"
    } else if d == 5 {
        "5"
    } else if d == 6 {
        "6"
    } else if d == 7 {
        "7"
    } else if d == 8 {
        "8"
    } else {
        "9"
    };
    assert(r@ =~= seq![digit_char(d as nat)]);
    r
}

/// Writes `n` in decimal.
pub fn decimal_text(n: usize) -> (r: String)
    ensures
        r@ == decimal(n as nat),
    decreases n,
{
    if n < 10 {
        String::from_str(digit_text(n))
    } else {
        let mut r = decimal_text(n / 10);
        r.append(digit_text(n % 10));
        r
    }
}

/// Reads `s` as an index below `limit`: a decimal numeral, with or without
/// a leading plus sign, and nothing around it.
pub fn parse_index(s: &str, limit: usize) -> (r: Option<usize>)
    ensures
        r matches Some(n) ==> index_below(s@, limit as nat) == Some(n as nat),
        r is None ==> index_below(s@, limit as nat) is None,
{
    let len = s.unicode_len();
    let start: usize = if len > 0 && s.get_char(0) == '+' {
        1
    } else {
        0
    };
    let ghost digits = unsigned_part(s@);
    assert(digits =~= s@.skip(start as int));
    if start == len {
        return None;
    }
    let mut value: usize = 0;
    let mut i: usize = start;
    assert(digits.take(0) =~= Seq::<char>::empty());
    while i < len
        invariant
            start <= i <= len,
            len == s@.len(),
            start < len,
            digits == s@.skip(start as int),
            digits == unsigned_part(s@),
            forall|k: int| 0 <= k < i - start ==> is_digit(#[trigger] digits[k]),
            value == numeral_value(digits.take(i - start)),
            i > start ==> value < limit,
        decreases len - i,
    {
        let c = s.get_char(i);
        let u: u32 = c as u32;
        assert(c == digits[i - start]);
        if u < 48 || u > 57 {
            assert(!is_digit(digits[i - start]));
            return None;
        }
        let next: u128 = (value as u128) * 10 + ((u - 48) as u128);
        proof {
            assert(digits.take(i - start + 1).drop_last() =~= digits.take(i - start));
            assert(digits.take(i - start + 1).last() == c);
            assert(next == numeral_value(digits.take(i - start + 1)));
        }
        if next >= limit as u128 {
            proof {
                lemma_numeral_prefix(digits, i - start + 1);
            }
            return None;
        }
        value = next as usize;
        i = i + 1;
    }
    assert(digits.take(i - start) =~= digits);
    Some(value)
}

} // verus!
