//! Character-level helpers shared by the text parsers.
//!
//! The parsers of this crate work on a line as a sequence of characters. This
//! module gives them character classes, maximal runs of a class, and decimal
//! numbers with an explicit upper bound.

use vstd::prelude::*;
use vstd::string::StringExecFns;

verus! {

/// The classes of characters that the line grammars distinguish.
#[derive(Clone, Copy, Debug)]
pub enum CharClass {
    /// ASCII decimal digits.
    Digit,
    /// Unicode white space.
    Space,
    /// The full stop.
    Dot,
    /// ASCII decimal digits and the colon.
    DigitOrColon,
    /// The NUL character.
    Nul,
}

/// Why a piece of text is not a number of the wanted type.
#[derive(Clone, Copy, Debug, PartialEq, Eq, Structural)]
pub enum NumberFault {
    /// There is no text at all.
    Empty,
    /// A character that is no digit stands where a digit is due, or no digit
    /// follows the sign.
    InvalidDigit,
    /// The number is above the largest value of the type.
    PosOverflow,
    /// The number is below the smallest value of the type.
    NegOverflow,
}

/// `c` is one of `0` to `9`.
pub open spec fn is_digit(c: char) -> bool {
    0x30 <= c as u32 <= 0x39
}

/// `c` has the Unicode property White_Space.
pub open spec fn is_space(c: char) -> bool {
    let u = c as u32;
    ||| 0x09 <= u <= 0x0d
    ||| u == 0x20
    ||| u == 0x85
    ||| u == 0xa0
    ||| u == 0x1680
    ||| 0x2000 <= u <= 0x200a
    ||| u == 0x2028
    ||| u == 0x2029
    ||| u == 0x202f
    ||| u == 0x205f
    ||| u == 0x3000
}

/// Membership of `c` in `class`.
pub open spec fn in_class(class: CharClass, c: char) -> bool {
    match class {
        CharClass::Digit => is_digit(c),
        CharClass::Space => is_space(c),
        CharClass::Dot => c == '.',
        CharClass::DigitOrColon => is_digit(c) || c == ':',
        CharClass::Nul => c == '\0',
    }
}

/// The end of the longest run of `class` characters that starts at `i`.
/// It is `i` itself where no such character stands at `i`.
pub open spec fn run_end(s: Seq<char>, i: int, class: CharClass) -> int
    decreases s.len() - i,
{
    if 0 <= i < s.len() && in_class(class, s[i]) {
        run_end(s, i + 1, class)
    } else {
        i
    }
}

/// The first position at or after `i` that holds `c`, or the length of `s`.
pub open spec fn find_char(s: Seq<char>, i: int, c: char) -> int
    decreases s.len() - i,
{
    if 0 <= i < s.len() && s[i] != c {
        find_char(s, i + 1, c)
    } else if i < s.len() {
        i
    } else {
        s.len() as int
    }
}

/// The last position before `i` that holds `c`, or -1.
pub open spec fn rfind_char(s: Seq<char>, i: int, c: char) -> int
    decreases i,
{
    if 0 < i <= s.len() && s[i - 1] != c {
        rfind_char(s, i - 1, c)
    } else if 0 < i <= s.len() {
        i - 1
    } else {
        -1
    }
}

/// The start of the longest run of `class` characters that ends at `i`.
pub open spec fn run_start(s: Seq<char>, i: int, class: CharClass) -> int
    decreases i,
{
    if 0 < i <= s.len() && in_class(class, s[i - 1]) {
        run_start(s, i - 1, class)
    } else {
        i
    }
}

/// What is left of the piece of `s` between `lo` and `hi` when the
/// characters of `class` are taken off both ends: its start and its end.
pub open spec fn trimmed(s: Seq<char>, lo: int, hi: int, class: CharClass) -> (int, int) {
    let a = if run_end(s, lo, class) < hi {
        run_end(s, lo, class)
    } else {
        hi
    };
    let b = if a == hi {
        a
    } else {
        run_start(s, hi, class)
    };
    (a, b)
}

/// Every character of `s` is a decimal digit.
pub open spec fn all_digits(s: Seq<char>) -> bool {
    forall|i: int| 0 <= i < s.len() ==> is_digit(#[trigger] s[i])
}

/// The number that a string of decimal digits denotes; 0 for the empty string.
pub open spec fn decimal_value(s: Seq<char>) -> nat
    decreases s.len(),
{
    if s.len() == 0 {
        0
    } else {
        decimal_value(s.drop_last()) * 10 + (s.last() as u32 - 0x30) as nat
    }
}

/// A run ends inside the string, at or after its start, and holds only
/// characters of its class; the character after it is not of the class.
pub proof fn lemma_run_end(s: Seq<char>, i: int, class: CharClass)
    requires
        0 <= i <= s.len(),
    ensures
        i <= run_end(s, i, class) <= s.len(),
        forall|k: int| i <= k < run_end(s, i, class) ==> in_class(class, #[trigger] s[k]),
        run_end(s, i, class) < s.len() ==> !in_class(class, s[run_end(s, i, class)]),
    decreases s.len() - i,
{
    if i < s.len() && in_class(class, s[i]) {
        lemma_run_end(s, i + 1, class);
    }
}

/// `find_char` stays inside the string and skips only other characters.
pub proof fn lemma_find_char(s: Seq<char>, i: int, c: char)
    requires
        0 <= i <= s.len(),
    ensures
        i <= find_char(s, i, c) <= s.len(),
        forall|k: int| i <= k < find_char(s, i, c) ==> #[trigger] s[k] != c,
        find_char(s, i, c) < s.len() ==> s[find_char(s, i, c)] == c,
    decreases s.len() - i,
{
    if i < s.len() && s[i] != c {
        lemma_find_char(s, i + 1, c);
    }
}

/// A prefix of a digit string denotes no more than the whole string.
pub proof fn lemma_decimal_prefix(s: Seq<char>, k: int)
    requires
        0 <= k <= s.len(),
        all_digits(s),
    ensures
        decimal_value(s.take(k)) <= decimal_value(s),
    decreases s.len() - k,
{
    if k == s.len() {
        assert(s.take(k) =~= s);
    } else {
        lemma_decimal_prefix(s.drop_last(), k);
        assert(s.drop_last().take(k) =~= s.take(k));
        assert(is_digit(s.last()));
    }
}

/// Copies the characters of `s` into a vector.
pub fn chars_of(s: &str) -> (v: Vec<char>)
    ensures
        v@ == s@,
{
    let mut v: Vec<char> = Vec::new();
    for c in it: s.chars()
        invariant
            v@ == it.seq().take(it.index() as int),
    {
        v.push(c);
    }
    v
}

/// Tells whether `c` belongs to `class`.
pub fn has_class(class: CharClass, c: char) -> (b: bool)
    ensures
        b == in_class(class, c),
{
    let u: u32 = c as u32;
    match class {
        CharClass::Digit => 0x30 <= u && u <= 0x39,
        CharClass::Space => {
            (0x09 <= u && u <= 0x0d) || u == 0x20 || u == 0x85 || u == 0xa0 || u == 0x1680 || (
            0x2000 <= u && u <= 0x200a) || u == 0x2028 || u == 0x2029 || u == 0x202f || u == 0x205f
                || u == 0x3000
        },
        CharClass::Dot => c == '.',
        CharClass::DigitOrColon => (0x30 <= u && u <= 0x39) || c == ':',
        CharClass::Nul => c == '\0',
    }
}

/// Finds the end of the longest run of `class` characters that starts at
/// `from`.
pub fn scan_run(v: &Vec<char>, from: usize, class: CharClass) -> (end: usize)
    requires
        from <= v.len(),
    ensures
        end == run_end(v@, from as int, class),
        from <= end <= v.len(),
{
    let mut i: usize = from;
    while i < v.len() && has_class(class, v[i])
        invariant
            from <= i <= v.len(),
            run_end(v@, from as int, class) == run_end(v@, i as int, class),
        decreases v.len() - i,
    {
        i += 1;
    }
    i
}

/// Finds the first position at or after `from` that holds `c`.
pub fn scan_for(v: &Vec<char>, from: usize, c: char) -> (at: usize)
    requires
        from <= v.len(),
    ensures
        at == find_char(v@, from as int, c),
        from <= at <= v.len(),
{
    let mut i: usize = from;
    while i < v.len() && v[i] != c
        invariant
            from <= i <= v.len(),
            find_char(v@, from as int, c) == find_char(v@, i as int, c),
        decreases v.len() - i,
    {
        i += 1;
    }
    i
}

/// Reads the digits of `v` between `from` and `to` as a decimal number.
/// Gives `None` exactly where the number is above `max`.
pub fn parse_decimal(v: &Vec<char>, from: usize, to: usize, max: u64) -> (r: Option<u64>)
    requires
        from <= to <= v.len(),
        all_digits(v@.subrange(from as int, to as int)),
    ensures
        r == if decimal_value(v@.subrange(from as int, to as int)) <= max {
            Some(decimal_value(v@.subrange(from as int, to as int)) as u64)
        } else {
            None
        },
{
    let ghost text = v@.subrange(from as int, to as int);
    let mut acc: u64 = 0;
    let mut i: usize = from;
    proof {
        assert(text.take(0) =~= Seq::<char>::empty());
    }
    while i < to
        invariant
            from <= i <= to <= v.len(),
            text == v@.subrange(from as int, to as int),
            all_digits(text),
            acc == decimal_value(text.take(i - from)),
            acc <= max,
        decreases to - i,
    {
        let c = v[i];
        proof {
            assert(text[i - from] == c);
            assert(is_digit(text[i - from]));
            assert(text.take(i - from + 1).drop_last() =~= text.take(i - from));
            assert(text.take(i - from + 1).last() == c);
            lemma_decimal_prefix(text, i - from + 1);
        }
        let d: u64 = (c as u32 - 0x30) as u64;
        if d > max || acc > (max - d) / 10 {
            return None;
        }
        acc = acc * 10 + d;
        i += 1;
    }
    proof {
        assert(text.take(to - from) =~= text);
    }
    Some(acc)
}

/// The number that an optional sign and a string of decimal digits denote.
/// There is none where no digit follows the sign or another character occurs.
pub open spec fn signed_value(s: Seq<char>) -> Option<int> {
    let signed = s.len() > 0 && (s[0] == '-' || s[0] == '+');
    let digits = if signed {
        s.drop_first()
    } else {
        s
    };
    if digits.len() == 0 || !all_digits(digits) {
        None
    } else if s[0] == '-' {
        Some(-(decimal_value(digits) as int))
    } else {
        Some(decimal_value(digits) as int)
    }
}

/// The `i16` that a piece of text denotes, if any.
pub open spec fn i16_value(s: Seq<char>) -> Option<i16> {
    match signed_value(s) {
        Some(n) => if i16::MIN <= n <= i16::MAX {
            Some(n as i16)
        } else {
            None
        },
        None => None,
    }
}

/// The start of a run is preceded by a character that is not of the class,
/// and the run holds nothing else.
pub proof fn lemma_run_start(s: Seq<char>, i: int, class: CharClass)
    requires
        0 <= i <= s.len(),
    ensures
        0 <= run_start(s, i, class) <= i,
        forall|k: int| run_start(s, i, class) <= k < i ==> in_class(class, #[trigger] s[k]),
        run_start(s, i, class) > 0 ==> !in_class(class, s[run_start(s, i, class) - 1]),
    decreases i,
{
    if 0 < i && in_class(class, s[i - 1]) {
        lemma_run_start(s, i - 1, class);
    }
}

/// Finds the start of the longest run of `class` characters that ends at
/// `to`.
pub fn scan_back(v: &Vec<char>, to: usize, class: CharClass) -> (start: usize)
    requires
        to <= v.len(),
    ensures
        start == run_start(v@, to as int, class),
        start <= to,
{
    let mut i: usize = to;
    while i > 0 && has_class(class, v[i - 1])
        invariant
            i <= to <= v.len(),
            run_start(v@, to as int, class) == run_start(v@, i as int, class),
        decreases i,
    {
        i -= 1;
    }
    i
}

/// Takes the characters of `class` off both ends of the piece of `v`
/// between `lo` and `hi`.
pub fn trim(v: &Vec<char>, lo: usize, hi: usize, class: CharClass) -> (r: (usize, usize))
    requires
        lo <= hi <= v.len(),
    ensures
        (r.0 as int, r.1 as int) == trimmed(v@, lo as int, hi as int, class),
        lo <= r.0 <= r.1 <= hi,
{
    let end = scan_run(v, lo, class);
    let a = if end < hi {
        end
    } else {
        hi
    };
    if a == hi {
        return (a, a);
    }
    let b = scan_back(v, hi, class);
    proof {
        lemma_run_end(v@, lo as int, class);
        lemma_run_start(v@, hi as int, class);
    }
    (a, b)
}

/// Finds the position after the last `c` before `to`; 0 where there is none.
pub fn scan_back_for(v: &Vec<char>, to: usize, c: char) -> (after: usize)
    requires
        to <= v.len(),
    ensures
        after == rfind_char(v@, to as int, c) + 1,
        after <= to,
{
    let mut i: usize = to;
    while i > 0 && v[i - 1] != c
        invariant
            i <= to <= v.len(),
            rfind_char(v@, to as int, c) == rfind_char(v@, i as int, c),
        decreases i,
    {
        i -= 1;
    }
    i
}

/// Reads the characters of `v` between `from` and `to` as an `i16`.
pub fn parse_i16(v: &Vec<char>, from: usize, to: usize) -> (r: Option<i16>)
    requires
        from <= to <= v.len(),
    ensures
        r == i16_value(v@.subrange(from as int, to as int)),
{
    let ghost text = v@.subrange(from as int, to as int);
    if from == to {
        return None;
    }
    assert(text[0] == v[from as int]);
    let negative = v[from] == '-';
    let start = if negative || v[from] == '+' {
        from + 1
    } else {
        from
    };
    let ghost digits = v@.subrange(start as int, to as int);
    proof {
        if start == from {
            assert(digits =~= text);
        } else {
            assert(digits =~= text.drop_first());
        }
    }
    if start == to {
        return None;
    }
    let end = scan_run(v, start, CharClass::Digit);
    proof {
        lemma_run_end(v@, start as int, CharClass::Digit);
    }
    if end < to {
        assert(!is_digit(digits[end - start]));
        return None;
    }
    assert(all_digits(digits));
    if negative {
        match parse_decimal(v, start, to, 32768) {
            Some(n) => Some((0 - n as i32) as i16),
            None => None,
        }
    } else {
        match parse_decimal(v, start, to, 32767) {
            Some(n) => Some(n as i16),
            None => None,
        }
    }
}

/// The unsigned number up to `max` that a piece of text denotes: decimal
/// digits, with or without a plus sign before them. Where it denotes none,
/// the fault is the first one met when reading from left to right.
pub open spec fn unsigned_value(s: Seq<char>, max: u64) -> Result<u64, NumberFault> {
    let digits = if s.len() > 0 && s[0] == '+' {
        s.drop_first()
    } else {
        s
    };
    let end = run_end(digits, 0, CharClass::Digit);
    if s.len() == 0 {
        Err(NumberFault::Empty)
    } else if digits.len() == 0 {
        Err(NumberFault::InvalidDigit)
    } else if decimal_value(digits.take(end)) > max {
        Err(NumberFault::PosOverflow)
    } else if end < digits.len() {
        Err(NumberFault::InvalidDigit)
    } else {
        Ok(decimal_value(digits) as u64)
    }
}

/// The `u32` that a piece of text denotes.
pub open spec fn u32_value(s: Seq<char>) -> Result<u32, NumberFault> {
    match unsigned_value(s, 0xffff_ffff) {
        Ok(n) => Ok(n as u32),
        Err(fault) => Err(fault),
    }
}

/// Reads the characters of `v` between `from` and `to` as an unsigned number
/// up to `max`.
pub fn parse_unsigned(v: &Vec<char>, from: usize, to: usize, max: u64) -> (r: Result<
    u64,
    NumberFault,
>)
    requires
        from <= to <= v.len(),
    ensures
        r == unsigned_value(v@.subrange(from as int, to as int), max),
{
    let ghost text = v@.subrange(from as int, to as int);
    if from == to {
        return Err(NumberFault::Empty);
    }
    assert(text[0] == v[from as int]);
    let start: usize = if v[from] == '+' {
        from + 1
    } else {
        from
    };
    let ghost digits = v@.subrange(start as int, to as int);
    proof {
        if start == from + 1 {
            assert(digits =~= text.drop_first());
        } else {
            assert(digits =~= text);
        }
    }
    if start == to {
        return Err(NumberFault::InvalidDigit);
    }
    let stop = scan_run(v, start, CharClass::Digit);
    let end = if stop < to {
        stop
    } else {
        to
    };
    proof {
        lemma_run_end(v@, start as int, CharClass::Digit);
        lemma_run_end_within(v@, start as int, to as int, 0, CharClass::Digit);
        assert(digits.take(end - start) =~= v@.subrange(start as int, end as int));
        if end == to {
            assert(digits.take(end - start) =~= digits);
        }
    }
    match parse_decimal(v, start, end, max) {
        None => Err(NumberFault::PosOverflow),
        Some(n) => if end < to {
            Err(NumberFault::InvalidDigit)
        } else {
            Ok(n)
        },
    }
}

/// Reads a piece of text as a `u32`.
pub fn parse_u32(text: &str) -> (r: Result<u32, NumberFault>)
    ensures
        r == u32_value(text@),
{
    let v = chars_of(text);
    proof {
        assert(v@.subrange(0, v@.len() as int) =~= v@);
    }
    match parse_unsigned(&v, 0, v.len(), 0xffff_ffff) {
        Ok(n) => Ok(n as u32),
        Err(fault) => Err(fault),
    }
}

/// A run in a piece of a string ends where the run in the whole string ends,
/// or at the end of the piece where that comes first.
pub proof fn lemma_run_end_within(s: Seq<char>, from: int, to: int, i: int, class: CharClass)
    requires
        0 <= from <= to <= s.len(),
        0 <= i <= to - from,
    ensures
        run_end(s.subrange(from, to), i, class) + from == if run_end(s, from + i, class) < to {
            run_end(s, from + i, class)
        } else {
            to
        },
    decreases to - from - i,
{
    let piece = s.subrange(from, to);
    if i < piece.len() && in_class(class, piece[i]) {
        lemma_run_end_within(s, from, to, i + 1, class);
    } else if i < piece.len() {
    } else {
        lemma_run_end(s, to, class);
    }
}

/// The character of a decimal digit.
pub open spec fn digit_char(d: nat) -> char {
    if d == 0 {
        '0'
    } else if d == 1 {
        '1'
    } else if d == 2 {
        '2'
    } else if d == 3 {
        '3'
    } else if d == 4 {
        '4'
    } else if d == 5 {
        '5'
    } else if d == 6 {
        '6'
    } else if d == 7 {
        '7'
    } else if d == 8 {
        '8'
    } else {
        '9'
    }
}

/// The decimal digits of a number, without leading zeros.
pub open spec fn decimal_digits(n: nat) -> Seq<char>
    decreases n,
{
    if n < 10 {
        seq![digit_char(n)]
    } else {
        decimal_digits(n / 10).push(digit_char(n % 10))
    }
}

/// The digits of a number denote the number.
pub proof fn lemma_decimal_round_trip(n: nat)
    ensures
        all_digits(decimal_digits(n)),
        decimal_value(decimal_digits(n)) == n,
        decimal_digits(n).len() >= 1,
    decreases n,
{
    if n < 10 {
        let s = decimal_digits(n);
        assert(s.drop_last() =~= Seq::<char>::empty());
        assert(decimal_value(s.drop_last()) == 0);
        assert(s.last() == digit_char(n));
    } else {
        lemma_decimal_round_trip(n / 10);
        let s = decimal_digits(n);
        assert(s.drop_last() =~= decimal_digits(n / 10));
        assert(s.last() == digit_char(n % 10));
        assert forall|i: int| 0 <= i < s.len() implies is_digit(#[trigger] s[i]) by {
            if i < s.len() - 1 {
                assert(s[i] == decimal_digits(n / 10)[i]);
            }
        }
    }
}

/// The text of a decimal digit.
fn digit_text(d: u64) -> (t: &'static str)
    requires
        d < 10,
    ensures
        t@ == seq![digit_char(d as nat)],
{
    proof {
        reveal_strlit("0");
        reveal_strlit("1");
        reveal_strlit("2");
        reveal_strlit("3");
        reveal_strlit("4");
        reveal_strlit("5");
        reveal_strlit("6");
        reveal_strlit("7");
        reveal_strlit("8");
        reveal_strlit("9");
    }
    let t = if d == 0 {
        "0"
    } else if d == 1 {
        "1"
    } else if d == 2 {
        "2"
    } else if d == 3 {
        "3"
    } else if d == 4 {
        "4"
    } else if d == 5 {
        "5"
    } else if d == 6 {
        "6"
    } else if d == 7 {
        "7"
    } else if d == 8 {
        "8"
    } else {
        "9"
    };
    assert(t@ =~= seq![digit_char(d as nat)]);
    t
}

/// Appends the decimal digits of `n` to `out`.
pub fn push_decimal(out: &mut String, n: u64)
    ensures
        final(out)@ == old(out)@ + decimal_digits(n as nat),
    decreases n,
{
    if n >= 10 {
        push_decimal(out, n / 10);
    }
    let ghost mid = out@;
    out.append(digit_text(n % 10));
    proof {
        if n >= 10 {
            assert(out@ =~= old(out)@ + decimal_digits((n / 10) as nat).push(
                digit_char((n % 10) as nat),
            ));
        } else {
            assert(out@ =~= old(out)@ + seq![digit_char(n as nat)]);
        }
    }
}

/// The decimal text of an integer: a minus sign before the digits of a
/// negative one.
pub open spec fn signed_digits(n: int) -> Seq<char> {
    if n < 0 {
        seq!['-'] + decimal_digits((-n) as nat)
    } else {
        decimal_digits(n as nat)
    }
}

/// Appends the decimal text of `n` to `out`.
pub fn push_signed(out: &mut String, n: i64)
    ensures
        final(out)@ == old(out)@ + signed_digits(n as int),
{
    if n < 0 {
        proof {
            reveal_strlit("-");
        }
        out.append("-");
        let magnitude: u64 = (-(n + 1)) as u64 + 1;
        push_decimal(out, magnitude);
        proof {
            assert("-"@ =~= seq!['-']);
            assert(out@ =~= old(out)@ + (seq!['-'] + decimal_digits((-n) as nat)));
        }
    } else {
        push_decimal(out, n as u64);
    }
}

} // verus!
