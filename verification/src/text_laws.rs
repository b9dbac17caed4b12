//! What holds of every text.
use crate::text::{
    all_digits, decimal, digit, digit_value, digits_value, end_stripped, end_trimmed, joined,
    lemma_decimal, line_end, lines_from, lines_of, number_of, number_up_to, replaced, replaced_from,
    stands_at, start_trimmed, trimmed, white_space, without_last, without_prefix,
};
use vstd::prelude::*;

verus! {

// ---------------------------------------------------------------------------
// Ends of a text

/// Taking a prefix off gives back what was put behind it; it is taken off
/// exactly the texts that start with it, and putting it back gives the text.
pub proof fn law_prefix_is_taken_off(s: Seq<char>, prefix: Seq<char>, rest: Seq<char>)
    ensures
        without_prefix(prefix + rest, prefix) == Some(rest),
        without_prefix(s, prefix) matches Some(r) ==> prefix + r == s,
        without_prefix(s, prefix) is None ==> !prefix.is_prefix_of(s),
{
    assert(prefix.is_prefix_of(prefix + rest)) by {
        assert((prefix + rest).subrange(0, prefix.len() as int) =~= prefix);
    }
    assert((prefix + rest).skip(prefix.len() as int) =~= rest);
    if let Some(r) = without_prefix(s, prefix) {
        assert(s.subrange(0, prefix.len() as int) =~= prefix);
        assert(prefix + r =~= s);
    }
}

/// A character is taken off the end exactly where it stands there, and then only
/// once.
pub proof fn law_last_is_taken_off(s: Seq<char>, c: char, d: char)
    ensures
        without_last(s.push(c), c) == Some(s),
        d != c ==> without_last(s.push(d), c) is None,
        without_last(Seq::empty(), c) is None,
{
    assert(s.push(c).drop_last() =~= s);
}

/// Whether `s` holds nothing but white space.
pub open spec fn blank(s: Seq<char>) -> bool {
    forall|i: int| 0 <= i < s.len() ==> white_space(#[trigger] s[i])
}

/// Trimming the end takes off white space alone, and leaves none there.
pub proof fn law_end_is_trimmed(s: Seq<char>)
    ensures
        end_trimmed(s).len() <= s.len(),
        s.take(end_trimmed(s).len() as int) == end_trimmed(s),
        blank(s.skip(end_trimmed(s).len() as int)),
        end_trimmed(s).len() > 0 ==> !white_space(end_trimmed(s).last()),
    decreases s.len(),
{
    let t = end_trimmed(s);
    if s.len() > 0 && white_space(s.last()) {
        law_end_is_trimmed(s.drop_last());
        assert(s.take(t.len() as int) =~= s.drop_last().take(t.len() as int));
        assert forall|i: int| 0 <= i < s.skip(t.len() as int).len() implies white_space(
            #[trigger] s.skip(t.len() as int)[i],
        ) by {
            if i + t.len() < s.len() - 1 {
                assert(s.drop_last().skip(t.len() as int)[i] == s.skip(t.len() as int)[i]);
            }
        }
    } else {
        assert(s.take(s.len() as int) =~= s);
    }
}

proof fn lemma_start_trimmed(s: Seq<char>)
    ensures
        start_trimmed(s).len() <= s.len(),
        s.skip(s.len() - start_trimmed(s).len()) == start_trimmed(s),
        blank(s.take(s.len() - start_trimmed(s).len())),
        start_trimmed(s).len() > 0 ==> !white_space(start_trimmed(s).first()),
    decreases s.len(),
{
    let t = start_trimmed(s);
    if s.len() > 0 && white_space(s.first()) {
        lemma_start_trimmed(s.drop_first());
        let n = s.len() - t.len();
        assert(s.skip(n) =~= s.drop_first().skip(n - 1));
        assert forall|i: int| 0 <= i < s.take(n).len() implies white_space(
            #[trigger] s.take(n)[i],
        ) by {
            if i > 0 {
                assert(s.drop_first().take(n - 1)[i - 1] == s.take(n)[i]);
            }
        }
    } else {
        assert(s.skip(0) =~= s);
    }
}

/// Trimming takes off white space alone, at both ends, and leaves none there.
pub proof fn law_both_ends_are_trimmed(s: Seq<char>)
    ensures
        exists|i: int, j: int|
            0 <= i <= j <= s.len() && #[trigger] s.subrange(i, j) == trimmed(s) && blank(
                s.take(i),
            ) && blank(s.skip(j)),
        trimmed(s).len() > 0 ==> !white_space(trimmed(s).first()) && !white_space(
            trimmed(s).last(),
        ),
{
    law_end_is_trimmed(s);
    let e = end_trimmed(s);
    lemma_start_trimmed(e);
    let i = e.len() - trimmed(s).len();
    let j = e.len() as int;
    assert(s.subrange(i, j) =~= e.skip(i));
    assert(s.take(i) =~= e.take(i));
}

/// Stripping the end takes off that character alone, and leaves none there.
pub proof fn law_end_is_stripped(s: Seq<char>, c: char)
    ensures
        end_stripped(s, c).len() <= s.len(),
        s.take(end_stripped(s, c).len() as int) == end_stripped(s, c),
        forall|i: int| end_stripped(s, c).len() <= i < s.len() ==> #[trigger] s[i] == c,
        end_stripped(s, c).len() > 0 ==> end_stripped(s, c).last() != c,
    decreases s.len(),
{
    let t = end_stripped(s, c);
    if s.len() > 0 && s.last() == c {
        law_end_is_stripped(s.drop_last(), c);
        assert(s.take(t.len() as int) =~= s.drop_last().take(t.len() as int));
        assert forall|i: int| t.len() <= i < s.len() implies #[trigger] s[i] == c by {
            if i < s.len() - 1 {
                assert(s.drop_last()[i] == s[i]);
            }
        }
    } else {
        assert(s.take(s.len() as int) =~= s);
    }
}

// ---------------------------------------------------------------------------
// Lines

proof fn lemma_line_end_at(s: Seq<char>, from: int)
    requires
        0 <= from <= s.len(),
    ensures
        from <= line_end(s, from) <= s.len(),
        forall|i: int| from <= i < line_end(s, from) ==> s[i] != '\n',
        line_end(s, from) < s.len() ==> s[line_end(s, from)] == '\n',
    decreases s.len() - from,
{
    if from < s.len() && s[from] != '\n' {
        lemma_line_end_at(s, from + 1);
    }
}

proof fn lemma_line_end_shift(a: Seq<char>, s: Seq<char>, from: int)
    requires
        0 <= from <= s.len(),
    ensures
        line_end(a + s, a.len() + from) == a.len() + line_end(s, from),
    decreases s.len() - from,
{
    if from < s.len() {
        assert((a + s)[a.len() + from] == s[from]);
        if s[from] != '\n' {
            lemma_line_end_shift(a, s, from + 1);
        }
    }
}

proof fn lemma_lines_shift(a: Seq<char>, s: Seq<char>, from: int)
    requires
        0 <= from <= s.len(),
    ensures
        lines_from(a + s, a.len() + from) == lines_from(s, from),
    decreases s.len() - from,
{
    if from < s.len() {
        lemma_line_end_shift(a, s, from);
        lemma_line_end_at(s, from);
        let end = line_end(s, from);
        let t = a + s;
        if end < s.len() {
            lemma_lines_shift(a, s, end + 1);
            assert(t.subrange(a.len() + from, a.len() + end) =~= s.subrange(from, end));
        } else {
            assert(t.subrange(a.len() + from, t.len() as int) =~= s.subrange(
                from,
                s.len() as int,
            ));
        }
    } else {
        assert(lines_from(s, from) =~= Seq::empty());
        assert(lines_from(a + s, a.len() + from) =~= Seq::empty());
    }
}

/// There are no lines in no text, and one in a text without a line feed. A line
/// feed ends a line, and so does a carriage return before it; the lines of what
/// stands behind it follow.
pub proof fn law_line_feeds_end_lines(line: Seq<char>, rest: Seq<char>)
    requires
        !line.contains('\n'),
    ensures
        lines_of(Seq::empty()) == Seq::<Seq<char>>::empty(),
        line.len() > 0 ==> lines_of(line) == seq![line],
        lines_of(line.push('\n') + rest) == seq![
            if line.len() > 0 && line.last() == '\r' {
                line.drop_last()
            } else {
                line
            },
        ] + lines_of(rest),
{
    assert(lines_of(Seq::empty()) =~= Seq::<Seq<char>>::empty());
    if line.len() > 0 {
        lemma_line_end_at(line, 0);
        let end = line_end(line, 0);
        if end < line.len() {
            assert(line[end] == '\n');
            assert(line.contains('\n'));
        }
        assert(line.subrange(0, line.len() as int) =~= line);
        assert(lines_of(line) =~= seq![line]);
    }
    let head = line.push('\n');
    let t = head + rest;
    lemma_line_end_at(t, 0);
    let end = line_end(t, 0);
    assert(t[line.len() as int] == '\n');
    if end < line.len() {
        assert(t[end] == line[end]);
        assert(line.contains('\n'));
    }
    assert(end == line.len());
    assert(t.subrange(0, end) =~= line);
    lemma_lines_shift(head, rest, 0);
    assert(lines_from(t, end + 1) == lines_of(rest));
}

/// Lines are joined with the separator between any two of them, and nowhere else.
pub proof fn law_separators_stand_between(
    parts: Seq<Seq<char>>,
    last: Seq<char>,
    sep: Seq<char>,
)
    ensures
        joined(Seq::empty(), sep) == Seq::<char>::empty(),
        joined(seq![last], sep) == last,
        parts.len() > 0 ==> joined(parts.push(last), sep) == joined(parts, sep) + sep + last,
{
    assert(parts.push(last).drop_last() =~= parts);
}

// ---------------------------------------------------------------------------
// Replacing

proof fn lemma_replaced_shift(a: Seq<char>, s: Seq<char>, part: Seq<char>, by: Seq<char>, at: int)
    requires
        0 <= at <= s.len(),
        part.len() > 0,
    ensures
        replaced_from(a + s, part, by, a.len() + at) == replaced_from(s, part, by, at),
    decreases s.len() - at,
{
    let t = a + s;
    if at < s.len() {
        if at + part.len() <= s.len() {
            assert(t.subrange(a.len() + at, a.len() + at + part.len()) =~= s.subrange(
                at,
                at + part.len(),
            ));
        }
        assert(stands_at(t, part, a.len() + at) == stands_at(s, part, at));
        if stands_at(s, part, at) {
            lemma_replaced_shift(a, s, part, by, at + part.len());
        } else {
            lemma_replaced_shift(a, s, part, by, at + 1);
            assert(t[a.len() + at] == s[at]);
        }
    }
}

proof fn lemma_replaced_skips(s: Seq<char>, part: Seq<char>, by: Seq<char>, at: int, n: int)
    requires
        0 <= at <= n <= s.len(),
        part.len() > 0,
        forall|i: int| 0 <= i < n ==> !#[trigger] stands_at(s, part, i),
    ensures
        replaced_from(s, part, by, at) == s.subrange(at, n) + replaced_from(s, part, by, n),
    decreases n - at,
{
    if at < n {
        lemma_replaced_skips(s, part, by, at + 1, n);
        assert(!stands_at(s, part, at));
        let rest = replaced_from(s, part, by, n);
        assert(seq![s[at]] + (s.subrange(at + 1, n) + rest) =~= s.subrange(at, n) + rest);
    } else {
        assert(s.subrange(at, n) + replaced_from(s, part, by, n) =~= replaced_from(s, part, by, n));
    }
}

/// The first occurrence is replaced, what stands before it is kept, and what
/// stands behind it is treated alike. A text without one is kept.
pub proof fn law_each_occurrence_is_replaced(
    head: Seq<char>,
    part: Seq<char>,
    rest: Seq<char>,
    by: Seq<char>,
)
    requires
        part.len() > 0,
    ensures
        (forall|i: int| 0 <= i < head.len() ==> !#[trigger] stands_at(head + part + rest, part, i))
            ==> replaced(head + part + rest, part, by) == head + by + replaced(rest, part, by),
        (forall|i: int| 0 <= i < head.len() ==> !#[trigger] stands_at(head, part, i)) ==> replaced(
            head,
            part,
            by,
        ) == head,
{
    let s = head + part + rest;
    if forall|i: int| 0 <= i < head.len() ==> !#[trigger] stands_at(s, part, i) {
        let n = head.len() as int;
        lemma_replaced_skips(s, part, by, 0, n);
        assert(s.subrange(0, n) =~= head);
        assert(s.subrange(n, n + part.len()) =~= part);
        assert(stands_at(s, part, n));
        lemma_replaced_shift(head + part, rest, part, by, 0);
        assert(replaced_from(s, part, by, n) == by + replaced(rest, part, by));
        assert(head + (by + replaced(rest, part, by)) =~= head + by + replaced(rest, part, by));
    }
    if forall|i: int| 0 <= i < head.len() ==> !#[trigger] stands_at(head, part, i) {
        let n = head.len() as int;
        lemma_replaced_skips(head, part, by, 0, n);
        assert(replaced_from(head, part, by, n) =~= Seq::empty());
        assert(head.subrange(0, n) + Seq::<char>::empty() =~= head);
    }
}

// ---------------------------------------------------------------------------
// Numbers

/// A digit more makes a number ten times as large, and adds the digit. A plus
/// sign in front changes nothing, and nothing but digits writes a number.
pub proof fn law_digits_write_numbers(s: Seq<char>, c: char)
    ensures
        number_of(Seq::empty()) is None,
        number_of(seq!['+']) is None,
        '0' <= c && c <= '9' ==> number_of(seq![c]) == Some(c as int - '0' as int),
        '0' <= c && c <= '9' ==> (number_of(s) matches Some(n) ==> number_of(s.push(c)) == Some(
            10 * n + (c as int - '0' as int),
        )),
        !('0' <= c && c <= '9') && s.len() > 0 ==> number_of(s.push(c)) is None,
        s.len() > 0 && s[0] != '+' ==> number_of(seq!['+'] + s) == number_of(s),
        number_of(s) is Some ==> s.len() > 0 && forall|i: int|
            0 <= i < s.len() ==> ('0' <= #[trigger] s[i] && s[i] <= '9') || (i == 0 && s[0] == '+'
                && s.len() > 1),
{
    let one = seq![c];
    assert(one.drop_last() =~= Seq::empty());
    assert(digits_value(Seq::empty()) == 0);
    assert(seq!['+'].skip(1) =~= Seq::empty());
    let plus = s.len() > 0 && s[0] == '+';
    let digits = if plus {
        s.skip(1)
    } else {
        s
    };
    let t = s.push(c);
    let more = if plus {
        t.skip(1)
    } else {
        t
    };
    if s.len() > 0 {
        assert(t[0] == s[0]);
        assert(more =~= digits.push(c));
        assert(more.drop_last() =~= digits);
        if '0' <= c && c <= '9' && number_of(s) is Some {
            assert forall|i: int| 0 <= i < more.len() implies digit(#[trigger] more[i]) by {
                if i < digits.len() {
                    assert(digit(digits[i]));
                }
            }
            assert(digits_value(more) == digits_value(digits) * 10 + digit_value(c));
        }
        if !('0' <= c && c <= '9') {
            assert(!digit(more[more.len() - 1]));
        }
        let signed = seq!['+'] + s;
        assert(signed.skip(1) =~= s);
    }
    if '0' <= c && c <= '9' {
        assert(all_digits(one));
        assert(digits_value(one) == digits_value(one.drop_last()) * 10 + digit_value(c));
    }
    if number_of(s) is Some {
        assert forall|i: int| 0 <= i < s.len() implies ('0' <= #[trigger] s[i] && s[i] <= '9') || (
        i == 0 && s[0] == '+' && s.len() > 1) by {
            if plus {
                if i > 0 {
                    assert(digit(digits[i - 1]));
                }
            } else {
                assert(digit(digits[i]));
            }
        }
    }
}

/// A bound lets a number through exactly where it is not larger.
pub proof fn law_bound_lets_through(s: Seq<char>, max: int, n: int)
    ensures
        number_up_to(s, max) == Some(n) <==> number_of(s) == Some(n) && n <= max,
{
}

/// The digits of a number have no leading zero.
pub proof fn law_decimal_is_shortest(n: nat)
    ensures
        decimal(n).len() > 0,
        decimal(n)[0] == '0' ==> n == 0,
        n < 10 ==> decimal(n).len() == 1,
        decimal(10 * n + 10).len() == decimal(n + 1).len() + 1,
    decreases n,
{
    lemma_decimal(n);
    if n >= 10 {
        law_decimal_is_shortest(n / 10);
        assert(decimal(n)[0] == decimal(n / 10)[0]);
    }
    assert((10 * n + 10) / 10 == n + 1);
}

} // verus!
