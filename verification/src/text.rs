//! Text as a sequence of characters: trimming, splitting into lines, replacing,
//! and decimal numbers.
//!
//! A `String` or `&str` is taken by its view, the sequence of its Unicode
//! scalar values.
use vstd::prelude::*;

verus! {

/// `String::push` appends the given character to the end of the string.
pub assume_specification[ std::string::String::push ](s: &mut std::string::String, c: char)
    ensures
        final(s)@ == old(s)@.push(c),
;

/// `==` on `str` holds exactly of two strings with the same characters.
pub assume_specification[ <str as PartialEq>::eq ](a: &str, b: &str) -> (r: bool)
    ensures
        r == (a@ == b@),
;

/// Whether two strings hold the same characters.
pub fn same_text(a: &str, b: &str) -> (r: bool)
    ensures
        r == (a@ == b@),
{
    *a == *b
}

/// The characters of `s`, in order.
pub fn chars_of(s: &str) -> (r: Vec<char>)
    ensures
        r@ == s@,
{
    let mut r: Vec<char> = Vec::new();
    for c in it: s.chars()
        invariant
            r@ =~= it.seq().take(it.index() as int),
            it.seq() == s@,
    {
        r.push(c);
    }
    r
}

/// The string made of `chars[from..to]`.
pub fn text_of(chars: &Vec<char>, from: usize, to: usize) -> (r: String)
    requires
        from <= to <= chars@.len(),
    ensures
        r@ == chars@.subrange(from as int, to as int),
{
    let mut r = String::new();
    let mut i: usize = from;
    while i < to
        invariant
            from <= i <= to <= chars@.len(),
            r@ =~= chars@.subrange(from as int, i as int),
        decreases to - i,
    {
        r.push(chars[i]);
        i = i + 1;
    }
    r
}

/// The same texts once more.
pub fn clone_texts(texts: &Vec<String>) -> (r: Vec<String>)
    ensures
        r.deep_view() == texts.deep_view(),
{
    let r = texts.clone();
    assert(r.deep_view() =~= texts.deep_view());
    r
}

/// The same text once more, if there is one.
pub fn clone_option(text: &Option<String>) -> (r: Option<String>)
    ensures
        r.deep_view() == text.deep_view(),
{
    match text {
        Some(t) => Some(t.clone()),
        None => None,
    }
}

/// The characters of `a` followed by those of `b`.
pub fn joined2(a: &str, b: &str) -> (r: String)
    ensures
        r@ == a@ + b@,
{
    let mut r = a.to_owned();
    r.append(b);
    r
}

/// The characters of `a`, `b` and `c`, one after the other.
pub fn joined3(a: &str, b: &str, c: &str) -> (r: String)
    ensures
        r@ == a@ + b@ + c@,
{
    let mut r = a.to_owned();
    r.append(b);
    r.append(c);
    r
}

// ---------------------------------------------------------------------------
// Prefixes and suffixes

/// What is left of `s` behind `prefix`, if `s` starts with it.
pub open spec fn without_prefix(s: Seq<char>, prefix: Seq<char>) -> Option<Seq<char>> {
    if prefix.is_prefix_of(s) {
        Some(s.skip(prefix.len() as int))
    } else {
        None
    }
}

/// What is left of `s` before its last character, if that is `c`.
pub open spec fn without_last(s: Seq<char>, c: char) -> Option<Seq<char>> {
    if s.len() > 0 && s.last() == c {
        Some(s.drop_last())
    } else {
        None
    }
}

/// Whether `part` stands in `s` at position `at`.
pub open spec fn stands_at(s: Seq<char>, part: Seq<char>, at: int) -> bool {
    0 <= at && at + part.len() <= s.len() && s.subrange(at, at + part.len()) == part
}

/// Whether `part` stands in `s` at position `at`.
fn found_at(s: &Vec<char>, part: &Vec<char>, at: usize) -> (r: bool)
    requires
        at <= s@.len(),
    ensures
        r == stands_at(s@, part@, at as int),
{
    let n = s.len();
    if n - at < part.len() {
        return false;
    }
    let mut i: usize = 0;
    while i < part.len()
        invariant
            i <= part@.len(),
            n == s@.len(),
            at + part@.len() <= n,
            forall|j: int| 0 <= j < i ==> s@[at + j] == part@[j],
        decreases part@.len() - i,
    {
        if s[at + i] != part[i] {
            assert(s@.subrange(at as int, at + part@.len())[i as int] != part@[i as int]);
            return false;
        }
        i = i + 1;
    }
    assert(s@.subrange(at as int, at + part@.len()) =~= part@);
    true
}

/// Whether `s` starts with `c`.
pub fn starts_with(s: &str, c: char) -> (r: bool)
    ensures
        r == (s@.len() > 0 && s@[0] == c),
{
    let chars = chars_of(s);
    chars.len() > 0 && chars[0] == c
}

/// The rest of `s` behind `prefix`, or `None` where `s` does not start with it.
pub fn strip_prefix(s: &str, prefix: &str) -> (r: Option<String>)
    ensures
        r.deep_view() == without_prefix(s@, prefix@),
{
    let chars = chars_of(s);
    let part = chars_of(prefix);
    if found_at(&chars, &part, 0) {
        assert(prefix@.is_prefix_of(s@)) by {
            assert(s@.subrange(0, prefix@.len() as int) =~= prefix@);
        }
        let r = text_of(&chars, part.len(), chars.len());
        assert(r@ =~= s@.skip(prefix@.len() as int));
        Some(r)
    } else {
        assert(!prefix@.is_prefix_of(s@));
        None
    }
}

/// The part of `s` before its last character, or `None` where that is not `c`.
pub fn strip_last(s: &str, c: char) -> (r: Option<String>)
    ensures
        r.deep_view() == without_last(s@, c),
{
    let chars = chars_of(s);
    let n = chars.len();
    if n > 0 && chars[n - 1] == c {
        let r = text_of(&chars, 0, n - 1);
        assert(r@ =~= s@.drop_last());
        Some(r)
    } else {
        None
    }
}

// ---------------------------------------------------------------------------
// White space

/// The characters with the Unicode property White_Space.
pub open spec fn white_space(c: char) -> bool {
    ||| '\u{9}' <= c && c <= '\u{d}'
    ||| c == '\u{20}'
    ||| c == '\u{85}'
    ||| c == '\u{a0}'
    ||| c == '\u{1680}'
    ||| '\u{2000}' <= c && c <= '\u{200a}'
    ||| c == '\u{2028}'
    ||| c == '\u{2029}'
    ||| c == '\u{202f}'
    ||| c == '\u{205f}'
    ||| c == '\u{3000}'
}

/// Whether `c` has the Unicode property White_Space.
pub fn is_white_space(c: char) -> (r: bool)
    ensures
        r == white_space(c),
{
    ('\u{9}' <= c && c <= '\u{d}') || c == '\u{20}' || c == '\u{85}' || c == '\u{a0}' || c
        == '\u{1680}' || ('\u{2000}' <= c && c <= '\u{200a}') || c == '\u{2028}' || c == '\u{2029}'
        || c == '\u{202f}' || c == '\u{205f}' || c == '\u{3000}'
}

/// `s` without the longest run of white space at its end.
pub open spec fn end_trimmed(s: Seq<char>) -> Seq<char>
    decreases s.len(),
{
    if s.len() > 0 && white_space(s.last()) {
        end_trimmed(s.drop_last())
    } else {
        s
    }
}

/// `s` without the longest run of white space at its start.
pub open spec fn start_trimmed(s: Seq<char>) -> Seq<char>
    decreases s.len(),
{
    if s.len() > 0 && white_space(s.first()) {
        start_trimmed(s.drop_first())
    } else {
        s
    }
}

/// `s` without white space at either end.
pub open spec fn trimmed(s: Seq<char>) -> Seq<char> {
    start_trimmed(end_trimmed(s))
}

/// The length of `chars` without the white space at its end.
fn trimmed_len(chars: &Vec<char>) -> (n: usize)
    ensures
        n <= chars@.len(),
        chars@.take(n as int) == end_trimmed(chars@),
{
    let mut n: usize = chars.len();
    assert(chars@.take(n as int) =~= chars@);
    while n > 0 && is_white_space(chars[n - 1])
        invariant
            n <= chars@.len(),
            end_trimmed(chars@.take(n as int)) == end_trimmed(chars@),
        decreases n,
    {
        assert(chars@.take(n as int).drop_last() =~= chars@.take(n - 1));
        n = n - 1;
    }
    n
}

/// `s` without white space at its end.
pub fn trim_end(s: &str) -> (r: String)
    ensures
        r@ == end_trimmed(s@),
{
    let chars = chars_of(s);
    let n = trimmed_len(&chars);
    let r = text_of(&chars, 0, n);
    assert(r@ =~= chars@.take(n as int));
    r
}

/// `s` without white space at either end.
pub fn trim(s: &str) -> (r: String)
    ensures
        r@ == trimmed(s@),
{
    let chars = chars_of(s);
    let n = trimmed_len(&chars);
    let ghost t = chars@.take(n as int);
    let mut i: usize = 0;
    assert(t.skip(0) =~= t);
    while i < n && is_white_space(chars[i])
        invariant
            i <= n <= chars@.len(),
            t == chars@.take(n as int),
            start_trimmed(t.skip(i as int)) == start_trimmed(t),
        decreases n - i,
    {
        assert(t.skip(i as int).drop_first() =~= t.skip(i + 1));
        i = i + 1;
    }
    let r = text_of(&chars, i, n);
    assert(r@ =~= t.skip(i as int));
    r
}

/// `s` without the longest run of `c` at its end.
pub open spec fn end_stripped(s: Seq<char>, c: char) -> Seq<char>
    decreases s.len(),
{
    if s.len() > 0 && s.last() == c {
        end_stripped(s.drop_last(), c)
    } else {
        s
    }
}

/// `s` without the longest run of `c` at its end.
pub fn strip_end(s: &str, c: char) -> (r: String)
    ensures
        r@ == end_stripped(s@, c),
{
    let chars = chars_of(s);
    let mut n: usize = chars.len();
    assert(chars@.take(n as int) =~= chars@);
    while n > 0 && chars[n - 1] == c
        invariant
            chars@ == s@,
            n <= chars@.len(),
            end_stripped(chars@.take(n as int), c) == end_stripped(s@, c),
        decreases n,
    {
        assert(chars@.take(n as int).drop_last() =~= chars@.take(n - 1));
        n = n - 1;
    }
    let r = text_of(&chars, 0, n);
    assert(r@ =~= chars@.take(n as int));
    r
}

// ---------------------------------------------------------------------------
// Lines

/// `line` without a carriage return at its end.
pub open spec fn without_return(line: Seq<char>) -> Seq<char> {
    if line.len() > 0 && line.last() == '\r' {
        line.drop_last()
    } else {
        line
    }
}

/// The position of the first line feed of `s` at or behind `from`, or the
/// length of `s` where there is none.
pub open spec fn line_end(s: Seq<char>, from: int) -> int
    decreases s.len() - from,
{
    if from < 0 || from >= s.len() {
        s.len() as int
    } else if s[from] == '\n' {
        from
    } else {
        line_end(s, from + 1)
    }
}

/// The lines of `s` from position `from` on. A line ends with a line feed, or
/// with a carriage return and a line feed, which are not part of it; the last
/// line may go without.
pub open spec fn lines_from(s: Seq<char>, from: int) -> Seq<Seq<char>>
    decreases s.len() - from,
    when 0 <= from
{
    if from >= s.len() {
        Seq::empty()
    } else {
        let end = line_end(s, from);
        if from <= end < s.len() {
            seq![without_return(s.subrange(from, end))] + lines_from(s, end + 1)
        } else {
            seq![s.subrange(from, s.len() as int)]
        }
    }
}

/// The lines of `s`.
pub open spec fn lines_of(s: Seq<char>) -> Seq<Seq<char>> {
    lines_from(s, 0)
}

/// `parts` one after the other, with `sep` between any two neighbours.
pub open spec fn joined(parts: Seq<Seq<char>>, sep: Seq<char>) -> Seq<char>
    decreases parts.len(),
{
    if parts.len() == 0 {
        Seq::empty()
    } else if parts.len() == 1 {
        parts[0]
    } else {
        joined(parts.drop_last(), sep) + sep + parts.last()
    }
}

proof fn lemma_line_end(s: Seq<char>, from: int, i: int)
    requires
        0 <= from <= i <= s.len(),
        forall|j: int| from <= j < i ==> s[j] != '\n',
        i < s.len() ==> s[i] == '\n',
    ensures
        line_end(s, from) == i,
    decreases i - from,
{
    if from < i {
        lemma_line_end(s, from + 1, i);
    }
}

/// The lines of `s`, each without its line ending.
pub fn lines(s: &str) -> (r: Vec<String>)
    ensures
        r.deep_view() == lines_of(s@),
{
    let chars = chars_of(s);
    let n = chars.len();
    let mut r: Vec<String> = Vec::new();
    let mut from: usize = 0;
    assert(r.deep_view() + lines_from(s@, 0) =~= lines_of(s@));
    while from < n
        invariant
            chars@ == s@,
            n == s@.len(),
            from <= n,
            r.deep_view() + lines_from(s@, from as int) =~= lines_of(s@),
        decreases n - from,
    {
        let mut end: usize = from;
        while end < n && chars[end] != '\n'
            invariant
                chars@ == s@,
                n == s@.len(),
                from <= end <= n,
                forall|j: int| from <= j < end ==> s@[j] != '\n',
            decreases n - end,
        {
            end = end + 1;
        }
        proof {
            lemma_line_end(s@, from as int, end as int);
        }
        let ghost before = r.deep_view();
        if end < n {
            let ghost raw = s@.subrange(from as int, end as int);
            if end > from && chars[end - 1] == '\r' {
                let line = text_of(&chars, from, end - 1);
                assert(line@ =~= without_return(raw));
                r.push(line);
            } else {
                let line = text_of(&chars, from, end);
                assert(line@ =~= without_return(raw));
                r.push(line);
            }
            assert(r.deep_view() =~= before.push(without_return(raw)));
            from = end + 1;
        } else {
            let line = text_of(&chars, from, n);
            r.push(line);
            assert(r.deep_view() =~= before.push(s@.subrange(from as int, n as int)));
            assert(lines_from(s@, n as int) =~= Seq::empty());
            from = n;
        }
    }
    r
}

/// `parts[from..]`, one after the other, with `sep` between any two neighbours.
pub fn join_from(parts: &Vec<String>, from: usize, sep: &str) -> (r: String)
    requires
        from <= parts@.len(),
    ensures
        r@ == joined(parts.deep_view().skip(from as int), sep@),
{
    let mut r = String::new();
    let mut i: usize = from;
    let ghost all = parts.deep_view().skip(from as int);
    while i < parts.len()
        invariant
            from <= i <= parts@.len(),
            all == parts.deep_view().skip(from as int),
            r@ == joined(all.take(i - from), sep@),
        decreases parts@.len() - i,
    {
        assert(all.take(i + 1 - from).drop_last() =~= all.take(i - from));
        assert(all.take(i + 1 - from).last() == parts@[i as int]@);
        if i > from {
            r.append(sep);
        } else {
            assert(all.take(i - from).len() == 0);
        }
        r.append(parts[i].as_str());
        i = i + 1;
    }
    assert(all.take(i - from) =~= all);
    r
}

// ---------------------------------------------------------------------------
// Replacing

/// `s` from position `at` on, with each occurrence of `part` replaced by `by`.
/// Occurrences are taken from the left and do not overlap.
pub open spec fn replaced_from(s: Seq<char>, part: Seq<char>, by: Seq<char>, at: int) -> Seq<char>
    decreases s.len() - at,
    when 0 <= at && part.len() > 0
{
    if at >= s.len() {
        Seq::empty()
    } else if stands_at(s, part, at) {
        by + replaced_from(s, part, by, at + part.len())
    } else {
        seq![s[at]] + replaced_from(s, part, by, at + 1)
    }
}

/// `s` with each occurrence of `part` replaced by `by`.
pub open spec fn replaced(s: Seq<char>, part: Seq<char>, by: Seq<char>) -> Seq<char> {
    replaced_from(s, part, by, 0)
}

/// `s` with each occurrence of `part` replaced by `by`.
pub fn replace(s: &str, part: &str, by: &str) -> (r: String)
    requires
        part@.len() > 0,
    ensures
        r@ == replaced(s@, part@, by@),
{
    let chars = chars_of(s);
    let marker = chars_of(part);
    let n = chars.len();
    let mut r = String::new();
    let mut at: usize = 0;
    assert(r@ + replaced_from(s@, part@, by@, 0) =~= replaced(s@, part@, by@));
    while at < n
        invariant
            chars@ == s@,
            marker@ == part@,
            part@.len() > 0,
            n == s@.len(),
            at <= n,
            r@ + replaced_from(s@, part@, by@, at as int) == replaced(s@, part@, by@),
        decreases n - at,
    {
        let ghost before = r@;
        if found_at(&chars, &marker, at) {
            let ghost rest = replaced_from(s@, part@, by@, at + part@.len());
            r.append(by);
            assert(r@ + rest =~= before + (by@ + rest));
            at = at + marker.len();
        } else {
            let ghost rest = replaced_from(s@, part@, by@, at + 1);
            r.push(chars[at]);
            assert(r@ + rest =~= before + (seq![s@[at as int]] + rest));
            at = at + 1;
        }
    }
    assert(r@ + replaced_from(s@, part@, by@, at as int) =~= r@);
    r
}

// ---------------------------------------------------------------------------
// Decimal numbers

/// Whether `c` is one of the characters `0` to `9`.
pub open spec fn digit(c: char) -> bool {
    '0' <= c && c <= '9'
}

/// Whether `s` holds digits only.
pub open spec fn all_digits(s: Seq<char>) -> bool {
    forall|i: int| 0 <= i < s.len() ==> digit(#[trigger] s[i])
}

/// The number that a digit stands for.
pub open spec fn digit_value(c: char) -> int {
    c as int - '0' as int
}

/// The number that a sequence of digits stands for.
pub open spec fn digits_value(s: Seq<char>) -> int
    decreases s.len(),
{
    if s.len() == 0 {
        0
    } else {
        digits_value(s.drop_last()) * 10 + digit_value(s.last())
    }
}

/// The number that `s` writes: digits, at least one of them, behind an optional
/// plus sign.
pub open spec fn number_of(s: Seq<char>) -> Option<int> {
    let digits = if s.len() > 0 && s[0] == '+' {
        s.skip(1)
    } else {
        s
    };
    if digits.len() > 0 && all_digits(digits) {
        Some(digits_value(digits))
    } else {
        None
    }
}

/// `number_of`, where it is at most `max`.
pub open spec fn number_up_to(s: Seq<char>, max: int) -> Option<int> {
    match number_of(s) {
        Some(n) => if n <= max {
            Some(n)
        } else {
            None
        },
        None => None,
    }
}

/// The decimal digits of `n`, without leading zeros.
pub open spec fn decimal(n: nat) -> Seq<char>
    decreases n,
{
    if n < 10 {
        seq![('0' as int + n) as char]
    } else {
        decimal(n / 10).push(('0' as int + n % 10) as char)
    }
}

proof fn lemma_digits_value_grows(s: Seq<char>, i: int)
    requires
        0 <= i <= s.len(),
        all_digits(s),
    ensures
        0 <= digits_value(s.take(i)) <= digits_value(s),
    decreases s.len(),
{
    if i == s.len() {
        assert(s.take(i) =~= s);
        if i > 0 {
            lemma_digits_value_grows(s.drop_last(), i - 1);
        }
    } else {
        lemma_digits_value_grows(s.drop_last(), i);
        assert(s.drop_last().take(i) =~= s.take(i));
    }
}

/// The number that `s` writes, where there is one and it is at most `max`.
pub fn parse_number(s: &str, max: u64) -> (r: Option<u64>)
    ensures
        match r {
            Some(n) => number_up_to(s@, max as int) == Some(n as int),
            None => number_up_to(s@, max as int) is None,
        },
{
    let chars = chars_of(s);
    let n = chars.len();
    let from: usize = if n > 0 && chars[0] == '+' {
        1
    } else {
        0
    };
    let ghost digits = s@.skip(from as int);
    assert(from == 0 ==> digits =~= s@);
    if from == n {
        return None;
    }
    let mut value: u64 = 0;
    let mut i: usize = from;
    while i < n
        invariant
            chars@ == s@,
            n == s@.len(),
            from <= i <= n,
            from < n,
            digits == s@.skip(from as int),
            number_of(s@) == if all_digits(digits) {
                Some(digits_value(digits))
            } else {
                None
            },
            forall|j: int| 0 <= j < i - from ==> digit(digits[j]),
            value == digits_value(digits.take(i - from)),
            value <= max,
        decreases n - i,
    {
        let c = chars[i];
        assert(c == digits[i - from]);
        if c < '0' || c > '9' {
            return None;
        }
        let d: u64 = c as u64 - '0' as u64;
        let next: u128 = value as u128 * 10 + d as u128;
        assert(digits.take(i + 1 - from).drop_last() =~= digits.take(i - from));
        assert(next == digits_value(digits.take(i + 1 - from)));
        if next > max as u128 {
            proof {
                if all_digits(digits) {
                    lemma_digits_value_grows(digits, i + 1 - from);
                }
            }
            return None;
        }
        value = next as u64;
        i = i + 1;
    }
    assert(digits.take(n - from) =~= digits);
    Some(value)
}

/// `n` in decimal digits.
pub fn decimal_text(n: u64) -> (r: String)
    ensures
        r@ == decimal(n as nat),
    decreases n,
{
    if n < 10 {
        let mut r = String::new();
        r.push((48u8 + n as u8) as char);
        assert(r@ =~= decimal(n as nat));
        r
    } else {
        let mut r = decimal_text(n / 10);
        r.push((48u8 + (n % 10) as u8) as char);
        r
    }
}

/// Reading a number's decimal digits gives the number back.
pub proof fn law_decimal_reads_back(n: nat)
    ensures
        number_of(decimal(n)) == Some(n as int),
    decreases n,
{
    lemma_decimal(n);
    let s = decimal(n);
    assert(s[0] != '+');
}

/// The digits of a number: there is at least one, and they stand for it.
pub proof fn lemma_decimal(n: nat)
    ensures
        decimal(n).len() > 0,
        all_digits(decimal(n)),
        digits_value(decimal(n)) == n,
    decreases n,
{
    let s = decimal(n);
    if n < 10 {
        assert(s.drop_last() =~= Seq::empty());
        assert(digits_value(s.drop_last()) == 0);
    } else {
        lemma_decimal(n / 10);
        assert(s.drop_last() =~= decimal(n / 10));
    }
}

} // verus!
