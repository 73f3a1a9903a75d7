//! Text helpers over `Seq<char>` views: concatenation, decimal rendering and
//! parsing, prefix tests and substring search.
use vstd::prelude::*;

verus! {

/// The decimal digit `d` as a character.
pub open spec fn digit_char(d: nat) -> char
    recommends
        d < 10,
{
    (('0' as nat) + d) as char
}

/// The decimal rendering of `n`, without leading zeros.
pub open spec fn decimal(n: nat) -> Seq<char>
    decreases n,
{
    if n < 10 {
        seq![digit_char(n)]
    } else {
        decimal(n / 10).push(digit_char(n % 10))
    }
}

/// `s` starts with `prefix`.
pub open spec fn has_prefix(s: Seq<char>, prefix: Seq<char>) -> bool {
    prefix.len() <= s.len() && s.subrange(0, prefix.len() as int) == prefix
}

/// `needle` occurs in `hay` at position `at`.
pub open spec fn occurs_at(hay: Seq<char>, needle: Seq<char>, at: int) -> bool {
    &&& 0 <= at
    &&& at + needle.len() <= hay.len()
    &&& hay.subrange(at, at + needle.len()) == needle
}

/// `needle` occurs somewhere in `hay`.
pub open spec fn has_substring(hay: Seq<char>, needle: Seq<char>) -> bool {
    exists|at: int| occurs_at(hay, needle, at)
}

/// One decimal digit as text.
fn digit_text(d: u64) -> (r: &'static str)
    requires
        d < 10,
    ensures
        r@ == seq![digit_char(d as nat)],
{
    proof {
        reveal_strlit("0");
        reveal_strlit("1");
        reveal_strlit("2");
        reveal_strlit("3");
        reveal_strlit("4");
        reveal_strlit("5");
        reveal_strlit("6");
        reveal_strlit("7");
        reveal_strlit("8");
        reveal_strlit("9");
    }
    if d == 0 {
        "0"
    } else if d == 1 {
        "1"
    } else if d == 2 {
        "2"
    } else if d == 3 {
        "3"
    } else if d == 4 {
        "4"
    } else if d == 5 {
        "5"
    } else if d == 6 {
        "6"
    } else if d == 7 {
        "7"
    } else if d == 8 {
        "8"
    } else {
        "9"
    }
}

/// The decimal rendering of `n`.
pub fn u64_text(n: u64) -> (r: String)
    ensures
        r@ == decimal(n as nat),
    decreases n,
{
    if n < 10 {
        digit_text(n).to_string()
    } else {
        let mut s = u64_text(n / 10);
        s.append(digit_text(n % 10));
        s
    }
}

/// The text of `a` followed by that of `b`.
pub fn join2(a: &str, b: &str) -> (r: String)
    ensures
        r@ == a@ + b@,
{
    let mut s = a.to_string();
    s.append(b);
    s
}

/// The text of `a`, `b` and `c` in turn.
pub fn join3(a: &str, b: &str, c: &str) -> (r: String)
    ensures
        r@ == a@ + b@ + c@,
{
    let mut s = join2(a, b);
    s.append(c);
    s
}

/// Whether two texts hold the same characters.
pub fn same_text(a: &str, b: &str) -> (r: bool)
    ensures
        r == (a@ == b@),
{
    let x: String = a.to_string();
    let y: String = b.to_string();
    x == y
}

/// The characters of `s`.
pub fn chars_of(s: &str) -> (r: Vec<char>)
    ensures
        r@ == s@,
{
    let mut out: Vec<char> = Vec::new();
    let n: usize = s.unicode_len();
    let mut i: usize = 0;
    while i < n
        invariant
            i <= n,
            n == s@.len(),
            out@ == s@.subrange(0, i as int),
        decreases n - i,
    {
        let c = s.get_char(i);
        out.push(c);
        i += 1;
        assert(s@.subrange(0, i as int) == s@.subrange(0, i - 1).push(s@[i - 1]));
    }
    assert(s@.subrange(0, n as int) == s@);
    out
}

/// Whether `needle` stands in `hay` at `at`.
fn matches_at(hay: &Vec<char>, needle: &Vec<char>, at: usize) -> (r: bool)
    requires
        at + needle@.len() <= hay@.len(),
    ensures
        r == occurs_at(hay@, needle@, at as int),
{
    let n: usize = hay.len();
    let mut i: usize = 0;
    while i < needle.len()
        invariant
            i <= needle@.len(),
            n == hay@.len(),
            at + needle@.len() <= n,
            forall|k: int| 0 <= k < i ==> hay@[at + k] == needle@[k],
        decreases needle@.len() - i,
    {
        if hay[at + i] != needle[i] {
            assert(hay@.subrange(at as int, at + needle@.len())[i as int] != needle@[i as int]);
            return false;
        }
        i += 1;
    }
    assert(hay@.subrange(at as int, at + needle@.len()) =~= needle@);
    true
}

/// Whether `s` starts with `prefix`.
pub fn starts_with(s: &str, prefix: &str) -> (r: bool)
    ensures
        r == has_prefix(s@, prefix@),
{
    let hay = chars_of(s);
    let needle = chars_of(prefix);
    if hay.len() < needle.len() {
        return false;
    }
    matches_at(&hay, &needle, 0)
}

/// Whether `needle` occurs in `hay`.
pub fn contains(hay: &str, needle: &str) -> (r: bool)
    ensures
        r == has_substring(hay@, needle@),
{
    let h = chars_of(hay);
    let p = chars_of(needle);
    if h.len() < p.len() {
        return false;
    }
    let last: usize = h.len() - p.len();
    let mut at: usize = 0;
    while at <= last
        invariant
            h@ == hay@,
            p@ == needle@,
            last + p@.len() == h@.len(),
            at <= last + 1,
            last < usize::MAX || at <= last,
            forall|k: int| 0 <= k < at ==> !occurs_at(h@, p@, k),
        decreases last + 1 - at,
    {
        if matches_at(&h, &p, at) {
            return true;
        }
        if at == last {
            assert forall|k: int| !occurs_at(hay@, needle@, k) by {
                if 0 <= k && k + p@.len() <= h@.len() {
                    assert(k <= last);
                }
            }
            return false;
        }
        at += 1;
    }
    false
}

/// What comes of reading a number.
#[derive(Debug, Clone, Copy, PartialEq, Eq, Structural)]
pub enum ParsedU64 {
    /// The number.
    Value(u64),
    /// The text was empty.
    Empty,
    /// Something other than a decimal digit came first.
    InvalidDigit,
    /// The digits so far were already too large.
    TooLarge,
}

/// Whether `c` is a decimal digit.
pub open spec fn is_digit(c: char) -> bool {
    '0' <= c && c <= '9'
}

/// What comes of reading the digits of `s` from the left.
pub open spec fn read_digits(s: Seq<char>) -> ParsedU64
    decreases s.len(),
{
    if s.len() == 0 {
        ParsedU64::Value(0)
    } else {
        match read_digits(s.drop_last()) {
            ParsedU64::Value(v) => {
                if !is_digit(s.last()) {
                    ParsedU64::InvalidDigit
                } else if v * 10 + (s.last() as u32 - '0' as u32) > u64::MAX {
                    ParsedU64::TooLarge
                } else {
                    ParsedU64::Value((v * 10 + (s.last() as u32 - '0' as u32)) as u64)
                }
            },
            e => e,
        }
    }
}

/// What comes of reading `s` as a number: decimal digits, after an optional
/// plus sign.
pub open spec fn read_u64(s: Seq<char>) -> ParsedU64 {
    if s.len() == 0 {
        ParsedU64::Empty
    } else if s[0] == '+' {
        if s.len() == 1 {
            ParsedU64::InvalidDigit
        } else {
            read_digits(s.skip(1))
        }
    } else {
        read_digits(s)
    }
}

proof fn lemma_read_sticks(s: Seq<char>, n: int)
    requires
        0 <= n <= s.len(),
        !(read_digits(s.take(n)) is Value),
    ensures
        read_digits(s) == read_digits(s.take(n)),
    decreases s.len(),
{
    if n == s.len() {
        assert(s.take(n) =~= s);
    } else {
        assert(s.drop_last().take(n) =~= s.take(n));
        lemma_read_sticks(s.drop_last(), n);
    }
}

/// Reads the characters from position `from` as digits.
fn digits_from(s: &Vec<char>, from: usize) -> (r: ParsedU64)
    requires
        from <= s@.len(),
    ensures
        r == read_digits(s@.skip(from as int)),
{
    let ghost t = s@.skip(from as int);
    let mut v: u64 = 0;
    let mut i: usize = from;
    assert(t.take(0) =~= Seq::empty());
    while i < s.len()
        invariant
            from <= i <= s@.len(),
            t == s@.skip(from as int),
            read_digits(t.take(i - from)) == ParsedU64::Value(v),
        decreases s@.len() - i,
    {
        let c: char = s[i];
        assert(t.take(i - from + 1).drop_last() =~= t.take(i - from));
        assert(t.take(i - from + 1).last() == c);
        if !('0' <= c && c <= '9') {
            proof {
                lemma_read_sticks(t, i - from + 1);
            }
            return ParsedU64::InvalidDigit;
        }
        let d: u64 = (c as u32 - '0' as u32) as u64;
        let w: u128 = v as u128 * 10 + d as u128;
        if w > u64::MAX as u128 {
            proof {
                lemma_read_sticks(t, i - from + 1);
            }
            return ParsedU64::TooLarge;
        }
        v = w as u64;
        i += 1;
    }
    assert(t.take(i - from) =~= t);
    ParsedU64::Value(v)
}

/// Reads `s` as a number.
pub fn parse_u64(s: &str) -> (r: ParsedU64)
    ensures
        r == read_u64(s@),
{
    let c = chars_of(s);
    if c.len() == 0 {
        return ParsedU64::Empty;
    }
    if c[0] == '+' {
        if c.len() == 1 {
            return ParsedU64::InvalidDigit;
        }
        return digits_from(&c, 1);
    }
    assert(c@.skip(0) =~= c@);
    digits_from(&c, 0)
}

/// The text for a number that could not be read.
pub open spec fn parse_error_text(p: ParsedU64) -> Seq<char> {
    match p {
        ParsedU64::Empty => "cannot parse integer from empty string"@,
        ParsedU64::TooLarge => "number too large to fit in target type"@,
        _ => "invalid digit found in string"@,
    }
}

/// Reads `s` as a number, with an error text where it is none.
pub fn parse_u64_or_text(s: &str) -> (r: Result<u64, String>)
    ensures
        match r {
            Ok(v) => read_u64(s@) == ParsedU64::Value(v),
            Err(e) => !(read_u64(s@) is Value) && e@ == parse_error_text(read_u64(s@)),
        },
{
    match parse_u64(s) {
        ParsedU64::Value(v) => Ok(v),
        ParsedU64::Empty => Err("cannot parse integer from empty string".to_string()),
        ParsedU64::TooLarge => Err("number too large to fit in target type".to_string()),
        ParsedU64::InvalidDigit => Err("invalid digit found in string".to_string()),
    }
}

/// A rendered number reads back as itself.
pub proof fn law_decimal_reads_back(n: nat)
    requires
        n <= u64::MAX,
    ensures
        read_u64(decimal(n)) == ParsedU64::Value(n as u64),
{
    lemma_decimal_digits(n);
    assert(decimal(n)[0] != '+') by {
        lemma_decimal_chars(n);
    }
}

proof fn lemma_decimal_chars(n: nat)
    ensures
        decimal(n).len() >= 1,
        forall|i: int| 0 <= i < decimal(n).len() ==> is_digit(#[trigger] decimal(n)[i]),
    decreases n,
{
    if n >= 10 {
        lemma_decimal_chars(n / 10);
    }
}

proof fn lemma_decimal_digits(n: nat)
    requires
        n <= u64::MAX,
    ensures
        read_digits(decimal(n)) == ParsedU64::Value(n as u64),
    decreases n,
{
    if n < 10 {
        assert(decimal(n).drop_last() =~= Seq::empty());
        assert(decimal(n).last() == digit_char(n));
    } else {
        lemma_decimal_digits(n / 10);
        assert(decimal(n).drop_last() =~= decimal(n / 10));
        assert(decimal(n).last() == digit_char(n % 10));
    }
}

/// A number is written in decimal digits, most significant first and without
/// leading zeros: a number below ten is one digit, and any other one is written as
/// its tenth followed by the digit that is left.
pub proof fn law_numbers_are_written_in_decimal(n: u64, r: String, tenth: String)
    requires
        call_ensures(u64_text, (n,), r),
        call_ensures(u64_text, ((n / 10) as u64,), tenth),
    ensures
        n < 10 ==> r@.len() == 1 && r@[0] as int == '0' as int + n,
        n >= 10 ==> r@.len() == tenth@.len() + 1 && r@.drop_last() == tenth@ && r@.last() as int
            == '0' as int + n % 10,
        n > 0 ==> r@[0] != '0',
{
    if n >= 10 {
        assert(r@.drop_last() =~= tenth@);
    }
    if n > 0 {
        lemma_no_leading_zero(n as nat);
    }
}

proof fn lemma_no_leading_zero(n: nat)
    requires
        n > 0,
    ensures
        decimal(n).len() >= 1,
        decimal(n)[0] != '0',
    decreases n,
{
    if n >= 10 {
        lemma_no_leading_zero(n / 10);
    }
}

proof fn lemma_read_extends(s: Seq<char>, c: char)
    ensures
        read_digits(s.push(c)) == match read_digits(s) {
            ParsedU64::Value(v) => {
                if !is_digit(c) {
                    ParsedU64::InvalidDigit
                } else if v * 10 + (c as u32 - '0' as u32) > u64::MAX {
                    ParsedU64::TooLarge
                } else {
                    ParsedU64::Value((v * 10 + (c as u32 - '0' as u32)) as u64)
                }
            },
            e => e,
        },
{
    assert(s.push(c).drop_last() =~= s);
    assert(s.push(c).last() == c);
}

/// A number is read digit by digit: one more digit makes ten times the number plus
/// that digit, if that fits; another character makes it no number; and what is no
/// number does not become one by what follows.
pub proof fn law_numbers_are_read_digit_by_digit(
    s: &str,
    longer: &str,
    c: char,
    a: ParsedU64,
    b: ParsedU64,
)
    requires
        call_ensures(parse_u64, (s,), a),
        call_ensures(parse_u64, (longer,), b),
        longer@ == s@.push(c),
        s@.len() > 0,
        s@ != seq!['+'],
    ensures
        a matches ParsedU64::Value(v) ==> {
            let d = c as int - '0' as int;
            &&& 0 <= d <= 9 && v * 10 + d <= u64::MAX ==> (b matches ParsedU64::Value(w) && w == v
                * 10 + d)
            &&& 0 <= d <= 9 && v * 10 + d > u64::MAX ==> b is TooLarge
            &&& !(0 <= d <= 9) ==> b is InvalidDigit
        },
        !(a is Value) ==> b == a,
{
    let t = longer@;
    assert(t[0] == s@[0]);
    if s@[0] == '+' {
        if s@.len() == 1 {
            assert(s@ =~= seq!['+']);
        }
        assert(t.skip(1) =~= s@.skip(1).push(c));
        lemma_read_extends(s@.skip(1), c);
    } else {
        lemma_read_extends(s@, c);
    }
}

/// One character is a number if it is a digit; no character is none, and neither is
/// a sign alone. A plus sign before the digits changes nothing.
pub proof fn law_short_numbers_are_read(
    one: &str,
    c: char,
    empty: &str,
    signed: &str,
    digits: &str,
    a: ParsedU64,
    b: ParsedU64,
    e: ParsedU64,
    f: ParsedU64,
)
    requires
        one@ == seq![c],
        empty@.len() == 0,
        digits@.len() > 0,
        digits@[0] != '+',
        signed@ == seq!['+'] + digits@,
        call_ensures(parse_u64, (one,), a),
        call_ensures(parse_u64, (empty,), b),
        call_ensures(parse_u64, (signed,), e),
        call_ensures(parse_u64, (digits,), f),
    ensures
        ({
            let d = c as int - '0' as int;
            &&& 0 <= d <= 9 ==> (a matches ParsedU64::Value(v) && v == d)
            &&& !(0 <= d <= 9) ==> a is InvalidDigit
        }),
        b is Empty,
        e == f,
{
    assert(one@ =~= Seq::<char>::empty().push(c));
    lemma_read_extends(Seq::empty(), c);
    assert(signed@.skip(1) =~= digits@);
}

/// Each way in which a text is no number has its own words.
pub proof fn law_unreadable_numbers_are_explained(s: &str, p: ParsedU64, r: Result<u64, String>)
    requires
        call_ensures(parse_u64, (s,), p),
        call_ensures(parse_u64_or_text, (s,), r),
    ensures
        match p {
            ParsedU64::Value(v) => r == Ok::<u64, String>(v),
            ParsedU64::Empty => r matches Err(e) && e@ == "cannot parse integer from empty string"@,
            ParsedU64::InvalidDigit => r matches Err(e) && e@ == "invalid digit found in string"@,
            ParsedU64::TooLarge => r matches Err(e) && e@
                == "number too large to fit in target type"@,
        },
{
}

/// A text starts with a prefix exactly if it is that prefix with something after
/// it.
pub proof fn law_a_prefix_comes_first(s: &str, prefix: &str, r: bool)
    requires
        call_ensures(starts_with, (s, prefix), r),
    ensures
        r <==> exists|rest: Seq<char>| s@ == prefix@ + rest,
{
    if r {
        let rest = s@.skip(prefix@.len() as int);
        assert(s@ =~= prefix@ + rest);
    }
    if exists|rest: Seq<char>| s@ == prefix@ + rest {
        let rest = choose|rest: Seq<char>| s@ == prefix@ + rest;
        assert(s@.subrange(0, prefix@.len() as int) =~= prefix@);
    }
}

/// A text contains another one exactly if it is that one with something before and
/// after it.
pub proof fn law_a_part_stands_within(hay: &str, needle: &str, r: bool)
    requires
        call_ensures(contains, (hay, needle), r),
    ensures
        r <==> exists|before: Seq<char>, after: Seq<char>| hay@ == before + needle@ + after,
{
    let h = hay@;
    let n = needle@;
    if r {
        let at = choose|at: int| occurs_at(h, n, at);
        let before = h.take(at);
        let after = h.skip(at + n.len());
        assert(h.subrange(at, at + n.len()) =~= n);
        assert(h =~= before + n + after);
    }
    if exists|before: Seq<char>, after: Seq<char>| h == before + n + after {
        let (before, after) = choose|before: Seq<char>, after: Seq<char>| h == before + n + after;
        assert(h.subrange(before.len() as int, (before.len() + n.len()) as int) =~= n);
        assert(occurs_at(h, n, before.len() as int));
    }
}

/// Texts are joined in their order, told apart by their characters, and taken apart
/// into them.
pub proof fn law_texts_are_joined_and_told_apart(
    a: &str,
    b: &str,
    c: &str,
    two: String,
    three: String,
    same: bool,
    chars: Vec<char>,
)
    requires
        call_ensures(join2, (a, b), two),
        call_ensures(join3, (a, b, c), three),
        call_ensures(same_text, (a, b), same),
        call_ensures(chars_of, (a,), chars),
    ensures
        two@ == a@ + b@,
        three@ == a@ + b@ + c@,
        same <==> a@ == b@,
        chars@ == a@,
{
}

} // verus!
