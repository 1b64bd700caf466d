//! Text helpers: comparison, decimal numbers, replacement, blankness.

use vstd::prelude::*;
use vstd::string::*;

verus! {

/// What an optional string holds.
pub open spec fn opt_text(o: Option<String>) -> Option<Seq<char>> {
    match o {
        Some(s) => Some(s@),
        None => None,
    }
}

/// Whether two strings hold the same characters.
pub fn same(a: &str, b: &str) -> (r: bool)
    ensures
        r == (a@ == b@),
{
    a.to_owned() == b.to_owned()
}

/// `a` followed by `b`.
pub fn join(a: &str, b: &str) -> (r: String)
    ensures
        r@ == a@ + b@,
{
    a.to_owned().concat(b)
}

/// Whether two optional strings are both absent, or hold the same characters.
pub fn same_opt(a: &Option<String>, b: &Option<String>) -> (r: bool)
    ensures
        r == (opt_text(*a) == opt_text(*b)),
{
    match (a, b) {
        (Some(x), Some(y)) => same(x.as_str(), y.as_str()),
        (None, None) => true,
        _ => false,
    }
}

// ---------------------------------------------------------------------------
// Decimal numbers
// ---------------------------------------------------------------------------

/// The character of a digit below ten.
pub open spec fn digit_char(d: nat) -> char {
    (d + 48) as char
}

pub open spec fn is_digit(c: char) -> bool {
    '0' <= c <= '9'
}

/// The number that a run of digits writes, most significant digit first.
pub open spec fn digits_value(s: Seq<char>) -> nat
    decreases s.len(),
{
    if s.len() == 0 {
        0
    } else {
        digits_value(s.drop_last()) * 10 + (s.last() as nat - 48) as nat
    }
}

pub open spec fn all_digits(s: Seq<char>) -> bool {
    forall|i: int| 0 <= i < s.len() ==> is_digit(#[trigger] s[i])
}

/// `n` in decimal, without leading zeros.
pub open spec fn decimal(n: nat) -> Seq<char>
    decreases n,
{
    if n < 10 {
        seq![digit_char(n)]
    } else {
        decimal(n / 10).push(digit_char(n % 10))
    }
}

/// The number that `s` writes: an optional `+`, then at least one digit and
/// nothing else, and no more than `max`.
pub open spec fn parse_decimal(s: Seq<char>, max: nat) -> Option<nat> {
    let digits = if s.len() > 0 && s[0] == '+' {
        s.skip(1)
    } else {
        s
    };
    if digits.len() > 0 && all_digits(digits) && digits_value(digits) <= max {
        Some(digits_value(digits))
    } else {
        None
    }
}

fn append_digit(out: &mut String, d: u64)
    requires
        d < 10,
    ensures
        final(out)@ == old(out)@.push(digit_char(d as nat)),
{
    proof {
        reveal_strlit("0");
        reveal_strlit("1");
        reveal_strlit("2");
        reveal_strlit("3");
        reveal_strlit("4");
        reveal_strlit("5");
        reveal_strlit("6");
        reveal_strlit("7");
        reveal_strlit("8");
        reveal_strlit("9");
    }
    let ghost before = out@;
    let text: &str = if d == 0 {
        "0"
    } else if d == 1 {
        "1"
    } else if d == 2 {
        "2"
    } else if d == 3 {
        "3"
    } else if d == 4 {
        "4"
    } else if d == 5 {
        "5"
    } else if d == 6 {
        "6"
    } else if d == 7 {
        "7"
    } else if d == 8 {
        "8"
    } else {
        "9"
    };
    assert(text@ =~= seq![digit_char(d as nat)]);
    out.append(text);
    assert(out@ =~= before.push(digit_char(d as nat)));
}

/// Writes a number in decimal.
pub fn u64_text(n: u64) -> (r: String)
    ensures
        r@ == decimal(n as nat),
    decreases n,
{
    let mut out = if n < 10 {
        String::new()
    } else {
        u64_text(n / 10)
    };
    append_digit(&mut out, n % 10);
    proof {
        if n < 10 {
            assert(out@ =~= seq![digit_char(n as nat)]);
        }
    }
    out
}

/// Writes a count in decimal.
pub fn usize_text(n: usize) -> (r: String)
    ensures
        r@ == decimal(n as nat),
{
    u64_text(n as u64)
}

proof fn lemma_digits_value_prefix(s: Seq<char>, n: int)
    requires
        0 <= n <= s.len(),
    ensures
        digits_value(s.take(n)) <= digits_value(s),
    decreases s.len(),
{
    if n < s.len() {
        assert(s.drop_last().take(n) =~= s.take(n));
        lemma_digits_value_prefix(s.drop_last(), n);
    } else {
        assert(s.take(n) =~= s);
    }
}

/// Reads a decimal number that is no more than `max`.
pub fn parse_upto(s: &str, max: u64) -> (r: Option<u64>)
    ensures
        match parse_decimal(s@, max as nat) {
            Some(n) => r == Some(n as u64) && n <= max,
            None => r is None,
        },
{
    let len = s.unicode_len();
    let start: usize = if len > 0 && s.get_char(0) == '+' {
        1
    } else {
        0
    };
    if start >= len {
        return None;
    }
    let ghost digits = s@.skip(start as int);
    proof {
        if start == 0 {
            assert(digits =~= s@);
        }
    }
    let mut i: usize = start;
    let mut value: u64 = 0;
    while i < len
        invariant
            start <= i <= len,
            start <= 1,
            len == s@.len(),
            digits == s@.skip(start as int),
            start < len,
            digits == (if s@.len() > 0 && s@[0] == '+' { s@.skip(1) } else { s@ }),
            all_digits(digits.take(i - start)),
            value == digits_value(digits.take(i - start)),
            value <= max,
        decreases len - i,
    {
        let c = s.get_char(i);
        proof {
            assert(digits[i - start] == c);
            assert(digits.take(i + 1 - start).drop_last() =~= digits.take(i - start));
            assert(digits.take(i + 1 - start).last() == c);
        }
        if !('0' <= c && c <= '9') {
            proof {
                assert(!is_digit(digits[i - start]));
            }
            return None;
        }
        let d: u64 = (c as u32 - 48) as u64;
        if value > (u64::MAX - d) / 10 || value * 10 + d > max {
            proof {
                lemma_digits_value_prefix(digits, i + 1 - start);
                assert(digits_value(digits.take(i + 1 - start)) == value * 10 + d);
            }
            return None;
        }
        value = value * 10 + d;
        i += 1;
        assert forall|j: int| 0 <= j < digits.take(i - start).len() implies is_digit(
            #[trigger] digits.take(i - start)[j],
        ) by {
            if j < i - 1 - start {
                assert(digits.take(i - start)[j] == digits.take(i - 1 - start)[j]);
            }
        }
    }
    proof {
        assert(digits.take(i - start) =~= digits);
    }
    Some(value)
}

/// Reads a `u64`.
pub fn parse_u64(s: &str) -> (r: Option<u64>)
    ensures
        match parse_decimal(s@, u64::MAX as nat) {
            Some(n) => r == Some(n as u64) && n <= u64::MAX,
            None => r is None,
        },
{
    parse_upto(s, u64::MAX)
}

/// Reads a `usize`.
pub fn parse_usize(s: &str) -> (r: Option<usize>)
    ensures
        match parse_decimal(s@, usize::MAX as nat) {
            Some(n) => r == Some(n as usize) && n <= usize::MAX,
            None => r is None,
        },
{
    match parse_upto(s, usize::MAX as u64) {
        Some(n) => Some(n as usize),
        None => None,
    }
}

proof fn lemma_decimal_reads_back(n: nat)
    ensures
        decimal(n).len() > 0,
        all_digits(decimal(n)),
        digits_value(decimal(n)) == n,
    decreases n,
{
    if n < 10 {
        reveal_with_fuel(digits_value, 2);
        assert(decimal(n).drop_last() =~= Seq::<char>::empty());
        assert(decimal(n).last() == digit_char(n));
    } else {
        lemma_decimal_reads_back(n / 10);
        assert(decimal(n).drop_last() =~= decimal(n / 10));
        assert(decimal(n).last() == digit_char(n % 10));
        assert forall|i: int| 0 <= i < decimal(n).len() implies is_digit(#[trigger] decimal(n)[i])
            by {
            if i < decimal(n / 10).len() {
                assert(decimal(n)[i] == decimal(n / 10)[i]);
            }
        }
    }
}

/// A number written in decimal reads back as itself.
pub proof fn law_decimal_round_trip(n: nat, max: nat)
    requires
        n <= max,
    ensures
        parse_decimal(decimal(n), max) == Some(n),
{
    lemma_decimal_reads_back(n);
    assert(is_digit(decimal(n)[0]));
}

// ---------------------------------------------------------------------------
// Replacement
// ---------------------------------------------------------------------------

/// `s` with every occurrence of `pat`, found from the left and without
/// overlap, replaced by `with`.
pub open spec fn replaced(s: Seq<char>, pat: Seq<char>, with: Seq<char>) -> Seq<char>
    decreases s.len(),
{
    if s.len() == 0 || pat.len() == 0 {
        s
    } else if pat.is_prefix_of(s) {
        with + replaced(s.skip(pat.len() as int), pat, with)
    } else {
        seq![s[0]] + replaced(s.skip(1), pat, with)
    }
}

/// Replaces every occurrence of a non-empty pattern.
pub fn replace_all(s: &str, pat: &str, with: &str) -> (r: String)
    requires
        pat@.len() > 0,
    ensures
        r@ == replaced(s@, pat@, with@),
{
    let len = s.unicode_len();
    let plen = pat.unicode_len();
    let mut out = String::new();
    let mut i: usize = 0;
    proof {
        assert(s@.skip(0) =~= s@);
    }
    while i < len
        invariant
            i <= len,
            len == s@.len(),
            plen == pat@.len(),
            plen > 0,
            replaced(s@, pat@, with@) == out@ + replaced(s@.skip(i as int), pat@, with@),
        decreases len - i,
    {
        let ghost rest = s@.skip(i as int);
        let hit = len - i >= plen && same(s.substring_char(i, i + plen), pat);
        proof {
            if len - i >= plen {
                assert(rest.take(plen as int) =~= s@.subrange(i as int, i + plen));
                assert(hit == pat@.is_prefix_of(rest)) by {
                    if hit {
                        assert(pat@ =~= rest.take(plen as int));
                    }
                    if pat@.is_prefix_of(rest) {
                        assert(pat@ =~= s@.subrange(i as int, i + plen));
                    }
                }
            }
        }
        if hit {
            out.append(with);
            i += plen;
            proof {
                assert(rest.skip(plen as int) =~= s@.skip(i as int));
            }
        } else {
            let one = s.substring_char(i, i + 1);
            out.append(one);
            i += 1;
            proof {
                assert(one@ =~= seq![rest[0]]);
                assert(rest.skip(1) =~= s@.skip(i as int));
            }
        }
        proof {
            assert(replaced(s@, pat@, with@) =~= out@ + replaced(s@.skip(i as int), pat@, with@));
        }
    }
    proof {
        assert(s@.skip(i as int) =~= Seq::<char>::empty());
        assert(out@ + Seq::<char>::empty() =~= out@);
    }
    out
}

// ---------------------------------------------------------------------------
// Blankness
// ---------------------------------------------------------------------------

/// The characters that Unicode calls white space.
pub open spec fn is_white(c: char) -> bool {
    ||| 0x9 <= c as u32 <= 0xD
    ||| c as u32 == 0x20
    ||| c as u32 == 0x85
    ||| c as u32 == 0xA0
    ||| c as u32 == 0x1680
    ||| 0x2000 <= c as u32 <= 0x200A
    ||| c as u32 == 0x2028
    ||| c as u32 == 0x2029
    ||| c as u32 == 0x202F
    ||| c as u32 == 0x205F
    ||| c as u32 == 0x3000
}

/// Whether nothing but white space is in `s`.
pub open spec fn blank(s: Seq<char>) -> bool {
    forall|i: int| 0 <= i < s.len() ==> is_white(#[trigger] s[i])
}

/// Whether a string holds nothing but white space.
pub fn is_blank(s: &str) -> (r: bool)
    ensures
        r == blank(s@),
{
    let len = s.unicode_len();
    let mut i: usize = 0;
    while i < len
        invariant
            i <= len,
            len == s@.len(),
            forall|j: int| 0 <= j < i ==> is_white(#[trigger] s@[j]),
        decreases len - i,
    {
        let c: u32 = s.get_char(i) as u32;
        let white = (0x9 <= c && c <= 0xD) || c == 0x20 || c == 0x85 || c == 0xA0 || c == 0x1680
            || (0x2000 <= c && c <= 0x200A) || c == 0x2028 || c == 0x2029 || c == 0x202F || c
            == 0x205F || c == 0x3000;
        if !white {
            proof {
                assert(!is_white(s@[i as int]));
            }
            return false;
        }
        i += 1;
    }
    true
}

// ---------------------------------------------------------------------------
// Laws
// ---------------------------------------------------------------------------


/// One digit more at the end of a number is ten times the number and the digit.
pub proof fn law_decimal_digits(n: nat, d: nat)
    requires
        d < 10,
    ensures
        n > 0 ==> decimal(n * 10 + d) == decimal(n).push((48 + d) as char),
        decimal(d) == seq![(48 + d) as char],
{
    if n > 0 {
        assert((n * 10 + d) / 10 == n);
        assert((n * 10 + d) % 10 == d);
    }
}

/// A number is written with nothing but digits, and without zeros in front.
pub proof fn law_decimal_is_short(n: nat)
    ensures
        decimal(n).len() > 0,
        forall|i: int| 0 <= i < decimal(n).len() ==> '0' <= #[trigger] decimal(n)[i] <= '9',
        n > 0 ==> decimal(n)[0] != '0',
    decreases n,
{
    lemma_decimal_reads_back(n);
    assert forall|i: int| 0 <= i < decimal(n).len() implies '0' <= #[trigger] decimal(n)[i]
        <= '9' by {
        assert(is_digit(decimal(n)[i]));
    }
    if n >= 10 {
        law_decimal_is_short(n / 10);
    }
}

/// What a text of digits reads as: one digit more is ten times the number and
/// the digit, as long as it is no more than the most that is asked for.
pub proof fn law_digits_are_read(s: Seq<char>, c: char, max: nat, n: nat)
    requires
        parse_decimal(s, max) == Some(n),
    ensures
        '0' <= c <= '9' && n * 10 + (c as nat - 48) <= max ==> parse_decimal(s.push(c), max)
            == Some((n * 10 + (c as nat - 48)) as nat),
        !('0' <= c <= '9' && n * 10 + (c as nat - 48) <= max) ==> parse_decimal(s.push(c), max)
            is None,
        n <= max,
{
    let plus = s.len() > 0 && s[0] == '+';
    let before = if plus {
        s.skip(1)
    } else {
        s
    };
    let t = s.push(c);
    let after = if plus {
        t.skip(1)
    } else {
        t
    };
    assert(after =~= before.push(c));
    assert(after.drop_last() =~= before);
    assert(t[0] == s[0]);
    assert(after[before.len() as int] == c);
    if is_digit(c) {
        assert forall|i: int| 0 <= i < after.len() implies is_digit(#[trigger] after[i]) by {
            if i < before.len() {
                assert(after[i] == before[i]);
            }
        }
    }
}

/// A number begins with a digit, or with a plus and then a digit.
pub proof fn law_numbers_begin(c: char, s: Seq<char>, max: nat)
    ensures
        parse_decimal(seq![], max) is None,
        '0' <= c <= '9' && (c as nat - 48) <= max ==> parse_decimal(seq![c], max) == Some(
            (c as nat - 48) as nat,
        ),
        !('0' <= c <= '9') ==> parse_decimal(seq![c], max) is None,
        s.len() > 0 && s[0] != '+' ==> parse_decimal(seq!['+'] + s, max) == parse_decimal(s, max),
        s.len() > 0 && s[0] != '+' && !('0' <= s[0] <= '9') ==> parse_decimal(s, max) is None,
{
    reveal_with_fuel(digits_value, 2);
    let one = seq![c];
    assert(one.drop_last() =~= seq![]);
    assert(one.skip(1) =~= seq![]);
    assert((seq!['+'] + s).skip(1) =~= s);
    if s.len() > 0 && s[0] != '+' && !is_digit(s[0]) {
        assert(!all_digits(s));
    }
    if !is_digit(c) {
        assert(one[0] == c);
        assert(!all_digits(one));
    } else {
        assert(all_digits(one));
    }
}

/// The first place where something stands is replaced, and so is all that
/// follows, by itself: what was put in its place is not looked at again.
pub proof fn law_first_is_replaced(
    before: Seq<char>,
    pat: Seq<char>,
    after: Seq<char>,
    with: Seq<char>,
)
    requires
        pat.len() > 0,
        forall|i: int|
            0 <= i < before.len() ==> !pat.is_prefix_of(
                #[trigger] (before + pat + after).skip(i),
            ),
    ensures
        replaced(before + pat + after, pat, with) == before + with + replaced(after, pat, with),
    decreases before.len(),
{
    let s = before + pat + after;
    assert(s.skip(0) =~= s);
    if before.len() == 0 {
        assert(s.take(pat.len() as int) =~= pat);
        assert(s.skip(pat.len() as int) =~= after);
        assert(replaced(s, pat, with) =~= before + with + replaced(after, pat, with));
    } else {
        let rest = before.skip(1);
        assert(s.skip(1) =~= rest + pat + after);
        assert forall|i: int| 0 <= i < rest.len() implies !pat.is_prefix_of(
            #[trigger] (rest + pat + after).skip(i),
        ) by {
            assert((rest + pat + after).skip(i) =~= s.skip(i + 1));
        }
        law_first_is_replaced(rest, pat, after, with);
        assert(replaced(s, pat, with) =~= seq![before[0]] + (rest + with + replaced(
            after,
            pat,
            with,
        )));
        assert(seq![before[0]] + (rest + with + replaced(after, pat, with)) =~= before + with
            + replaced(after, pat, with));
    }
}

/// A text in which something does not stand stays as it is.
pub proof fn law_nothing_is_replaced(s: Seq<char>, pat: Seq<char>, with: Seq<char>)
    requires
        forall|i: int| 0 <= i < s.len() ==> !pat.is_prefix_of(#[trigger] s.skip(i)),
    ensures
        replaced(s, pat, with) == s,
    decreases s.len(),
{
    if s.len() > 0 && pat.len() > 0 {
        assert(s.skip(0) =~= s);
        assert forall|i: int| 0 <= i < s.skip(1).len() implies !pat.is_prefix_of(
            #[trigger] s.skip(1).skip(i),
        ) by {
            assert(s.skip(1).skip(i) =~= s.skip(i + 1));
        }
        law_nothing_is_replaced(s.skip(1), pat, with);
        assert(seq![s[0]] + s.skip(1) =~= s);
    }
}

/// A text is blank if it is empty or made of blanks; anything that can be seen
/// makes it not blank.
pub proof fn law_blanks(a: Seq<char>, b: Seq<char>, c: char)
    ensures
        blank(seq![]),
        blank(a + b) <==> blank(a) && blank(b),
        c == ' ' || c == '\t' || c == '\n' || c == '\r' ==> blank(seq![c]),
        '!' <= c <= '~' ==> !blank(seq![c]),
        c == '\u{b}' || c == '\u{c}' || c == '\u{85}' || c == '\u{a0}' || c == '\u{1680}'
            || '\u{2000}' <= c <= '\u{200a}' || c == '\u{2028}' || c == '\u{2029}' || c
            == '\u{202f}' || c == '\u{205f}' || c == '\u{3000}' ==> blank(seq![c]),
        c > '\u{3000}' || '\u{a1}' <= c < '\u{1680}' ==> !blank(seq![c]),
{
    let s = a + b;
    if blank(s) {
        assert forall|i: int| 0 <= i < a.len() implies is_white(#[trigger] a[i]) by {
            assert(s[i] == a[i]);
        }
        assert forall|i: int| 0 <= i < b.len() implies is_white(#[trigger] b[i]) by {
            assert(s[a.len() + i] == b[i]);
        }
    }
    assert(seq![c][0] == c);
}

} // verus!
