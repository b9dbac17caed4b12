//! How long an action may run.
use crate::text::{
    decimal, digit, law_decimal_reads_back, lemma_decimal, number_up_to, parse_number, strip_last,
    trim, trimmed, white_space, without_last,
};
use vstd::prelude::*;

verus! {

/// A unit of time.
#[derive(Debug, Clone, Copy, PartialEq, Eq, Structural)]
pub enum Unit {
    Second,
    Minute,
    Hour,
}

impl Unit {
    /// The seconds that `n` of the unit are.
    pub open spec fn seconds(self, n: int) -> int {
        match self {
            Unit::Second => n,
            Unit::Minute => 60 * n,
            Unit::Hour => 3600 * n,
        }
    }
}

/// A number and its unit: `s`, `m` or `h` at the end, or seconds where there is
/// none of them.
pub open spec fn quantity(s: Seq<char>) -> (Seq<char>, Unit) {
    match (without_last(s, 's'), without_last(s, 'm'), without_last(s, 'h')) {
        (Some(number), _, _) => (number, Unit::Second),
        (_, Some(number), _) => (number, Unit::Minute),
        (_, _, Some(number)) => (number, Unit::Hour),
        _ => (s, Unit::Second),
    }
}

/// The seconds that a timeout stands for. One that is absent, whose number is
/// none, or whose number or seconds do not fit in 64 bits, stands for ten minutes.
pub open spec fn timeout_seconds(timeout: Option<Seq<char>>) -> int {
    match timeout {
        None => 600,
        Some(text) => {
            let (number, unit) = quantity(trimmed(text));
            match number_up_to(trimmed(number), u64::MAX as int) {
                Some(n) => if unit.seconds(n) <= u64::MAX {
                    unit.seconds(n)
                } else {
                    600
                },
                None => 600,
            }
        },
    }
}

/// Parse `"5m"`/`"30s"`/`"1h"`/bare-seconds into seconds; default 10 minutes.
pub fn parse_timeout(s: Option<&str>) -> (r: u64)
    ensures
        r == timeout_seconds(s.deep_view()),
{
    let text = match s {
        Some(text) => trim(text),
        None => {
            return 600;
        },
    };
    let (number, unit) = if let Some(n) = strip_last(text.as_str(), 's') {
        (n, Unit::Second)
    } else if let Some(n) = strip_last(text.as_str(), 'm') {
        (n, Unit::Minute)
    } else if let Some(n) = strip_last(text.as_str(), 'h') {
        (n, Unit::Hour)
    } else {
        (text, Unit::Second)
    };
    let secs = match parse_number(trim(number.as_str()).as_str(), u64::MAX) {
        Some(n) => match unit {
            Unit::Second => Some(n),
            Unit::Minute => n.checked_mul(60),
            Unit::Hour => n.checked_mul(3600),
        },
        None => None,
    };
    match secs {
        Some(secs) => secs,
        None => 600,
    }
}

/// A number followed by a unit stands for that many seconds, minutes or hours,
/// where those fit in 64 bits of seconds, and for ten minutes where they do not; a
/// bare number stands for seconds.
pub proof fn law_timeout_units(n: nat)
    requires
        n <= u64::MAX,
    ensures
        timeout_seconds(Some(decimal(n).push('s'))) == n,
        timeout_seconds(Some(decimal(n).push('m'))) == if 60 * n <= u64::MAX {
            60 * n
        } else {
            600
        },
        timeout_seconds(Some(decimal(n).push('h'))) == if 3600 * n <= u64::MAX {
            3600 * n
        } else {
            600
        },
        timeout_seconds(Some(decimal(n))) == n,
{
    let d = decimal(n);
    lemma_decimal(n);
    law_decimal_reads_back(n);
    assert(digit(d[0]) && digit(d.last()));
    assert(trimmed(d) == d);
    assert forall|unit: char| !white_space(unit) implies trimmed(#[trigger] d.push(unit)) == d.push(
        unit,
    ) && d.push(unit).drop_last() == d by {
        assert(d.push(unit).drop_last() =~= d);
    }
    assert(quantity(d.push('s')) == (d, Unit::Second));
    assert(quantity(d.push('m')) == (d, Unit::Minute));
    assert(quantity(d.push('h')) == (d, Unit::Hour));
    assert(quantity(d) == (d, Unit::Second));
}

} // verus!
