//! Instants as queries carry them: ISO 8601 in UTC, ending in `Z`.

use vstd::prelude::*;
use vstd::string::StringExecFns;

use crate::text::{digit, digit_text};

verus! {

/// Whether `year` is a leap year of the Gregorian calendar.
pub open spec fn leap(year: int) -> bool {
    year % 4 == 0 && (year % 100 != 0 || year % 400 == 0)
}

/// The number of days of a month.
pub open spec fn days_in(year: int, month: int) -> int {
    if month == 2 {
        if leap(year) {
            29
        } else {
            28
        }
    } else if month == 4 || month == 6 || month == 9 || month == 11 {
        30
    } else {
        31
    }
}

/// A calendar date and a time of day in UTC, to the second.
pub struct Instant {
    pub year: int,
    pub month: int,
    pub day: int,
    pub hour: int,
    pub minute: int,
    pub second: int,
}

impl Instant {
    /// Whether the instant exists: a year of up to four digits, a day that
    /// the month has, and a time of day without a leap second.
    pub open spec fn is_valid(&self) -> bool {
        &&& 0 <= self.year <= 9999
        &&& 1 <= self.month <= 12
        &&& 1 <= self.day <= days_in(self.year, self.month)
        &&& 0 <= self.hour < 24
        &&& 0 <= self.minute < 60
        &&& 0 <= self.second < 60
    }
}

/// The last `width` decimal digits of a number, with leading zeros.
pub open spec fn padded(n: nat, width: nat) -> Seq<char>
    decreases width,
{
    if width == 0 {
        Seq::empty()
    } else {
        padded(n / 10, (width - 1) as nat).push(digit(n % 10))
    }
}

/// An instant as `YYYY-MM-DDTHH:MM:SSZ`.
pub open spec fn iso8601(at: Instant) -> Seq<char> {
    padded(at.year as nat, 4) + seq!['-'] + padded(at.month as nat, 2) + seq!['-'] + padded(
        at.day as nat,
        2,
    ) + seq!['T'] + padded(at.hour as nat, 2) + seq![':'] + padded(at.minute as nat, 2) + seq![
        ':',
    ] + padded(at.second as nat, 2) + seq!['Z']
}

/// An instant in UTC that exists.
#[derive(Clone, Copy, Debug, PartialEq, Eq)]
pub struct Timestamp {
    year: u16,
    month: u8,
    day: u8,
    hour: u8,
    minute: u8,
    second: u8,
}

impl View for Timestamp {
    type V = Instant;

    closed spec fn view(&self) -> Instant {
        Instant {
            year: self.year as int,
            month: self.month as int,
            day: self.day as int,
            hour: self.hour as int,
            minute: self.minute as int,
            second: self.second as int,
        }
    }
}

fn is_leap(year: u16) -> (r: bool)
    ensures
        r == leap(year as int),
{
    year % 4 == 0 && (year % 100 != 0 || year % 400 == 0)
}

fn days_of(year: u16, month: u8) -> (r: u8)
    ensures
        r == days_in(year as int, month as int),
{
    if month == 2 {
        if is_leap(year) {
            29
        } else {
            28
        }
    } else if month == 4 || month == 6 || month == 9 || month == 11 {
        30
    } else {
        31
    }
}

/// Two digits are the tens and the ones.
proof fn lemma_padded_two(n: nat)
    ensures
        padded(n, 2) == seq![digit((n / 10) % 10), digit(n % 10)],
{
    assert(padded(n / 10 / 10, 0) =~= Seq::<char>::empty());
    assert(padded(n / 10, 1) =~= seq![digit((n / 10) % 10)]);
    assert(padded(n, 2) =~= seq![digit((n / 10) % 10), digit(n % 10)]);
}

/// Four digits are the two of the hundreds, then the two of what is left.
proof fn lemma_padded_four(n: nat)
    ensures
        padded(n, 4) == padded(n / 100, 2) + padded(n % 100, 2),
{
    lemma_padded_two(n % 100);
    assert(n / 10 / 10 == n / 100);
    assert(((n % 100) / 10) % 10 == (n / 10) % 10);
    assert((n % 100) % 10 == n % 10);
    assert(padded(n / 10, 3) == padded(n / 100, 2).push(digit((n / 10) % 10)));
    assert(padded(n, 4) == padded(n / 10, 3).push(digit(n % 10)));
    assert(padded(n, 4) =~= padded(n / 100, 2) + padded(n % 100, 2));
}

/// Appends the last two digits of `n`.
fn push_two(out: &mut String, n: u16)
    ensures
        final(out)@ == old(out)@ + padded(n as nat, 2),
{
    out.append(digit_text(((n / 10) % 10) as u64));
    out.append(digit_text((n % 10) as u64));
    proof {
        lemma_padded_two(n as nat);
        assert(out@ =~= old(out)@ + padded(n as nat, 2));
    }
}

/// Appends the last four digits of `n`.
fn push_four(out: &mut String, n: u16)
    ensures
        final(out)@ == old(out)@ + padded(n as nat, 4),
{
    push_two(out, n / 100);
    push_two(out, n % 100);
    proof {
        lemma_padded_four(n as nat);
        assert(out@ =~= old(out)@ + padded(n as nat, 4));
    }
}

impl Timestamp {
    /// The instant with these parts, if it exists.
    pub fn new(year: u16, month: u8, day: u8, hour: u8, minute: u8, second: u8) -> (r: Option<
        Timestamp,
    >)
        ensures
            match r {
                Some(at) => at@ == (Instant {
                    year: year as int,
                    month: month as int,
                    day: day as int,
                    hour: hour as int,
                    minute: minute as int,
                    second: second as int,
                }) && at@.is_valid(),
                None => !(Instant {
                    year: year as int,
                    month: month as int,
                    day: day as int,
                    hour: hour as int,
                    minute: minute as int,
                    second: second as int,
                }).is_valid(),
            },
    {
        if year > 9999 || month < 1 || month > 12 || day < 1 || hour >= 24 || minute >= 60
            || second >= 60 {
            return None;
        }
        if day > days_of(year, month) {
            return None;
        }
        Some(Timestamp { year, month, day, hour, minute, second })
    }

    #[verifier::type_invariant]
    spec fn is_real(&self) -> bool {
        self@.is_valid()
    }

    /// The instant as a query carries it.
    pub fn to_text(&self) -> (r: String)
        ensures
            r@ == iso8601(self@),
            self@.is_valid(),
    {
        proof {
            use_type_invariant(self);
            reveal_strlit("-");
            reveal_strlit("T");
            reveal_strlit(":");
            reveal_strlit("Z");
        }
        assert("-"@ =~= seq!['-'] && "T"@ =~= seq!['T']);
        assert(":"@ =~= seq![':'] && "Z"@ =~= seq!['Z']);
        let mut out = String::new();
        push_four(&mut out, self.year);
        out.append("-");
        push_two(&mut out, self.month as u16);
        out.append("-");
        push_two(&mut out, self.day as u16);
        out.append("T");
        push_two(&mut out, self.hour as u16);
        out.append(":");
        push_two(&mut out, self.minute as u16);
        out.append(":");
        push_two(&mut out, self.second as u16);
        out.append("Z");
        assert(out@ =~= iso8601(self@));
        out
    }
}

/// The text of an instant always has twenty characters and ends in `Z`.
pub proof fn lemma_iso8601_shape(at: Instant)
    ensures
        iso8601(at).len() == 20,
        iso8601(at)[4] == '-',
        iso8601(at)[7] == '-',
        iso8601(at)[10] == 'T',
        iso8601(at)[13] == ':',
        iso8601(at)[16] == ':',
        iso8601(at)[19] == 'Z',
{
    lemma_padded_len(at.year as nat, 4);
    lemma_padded_len(at.month as nat, 2);
    lemma_padded_len(at.day as nat, 2);
    lemma_padded_len(at.hour as nat, 2);
    lemma_padded_len(at.minute as nat, 2);
    lemma_padded_len(at.second as nat, 2);
}

/// Padding to a width gives that many digits.
pub proof fn lemma_padded_len(n: nat, width: nat)
    ensures
        padded(n, width).len() == width,
    decreases width,
{
    if width > 0 {
        lemma_padded_len(n / 10, (width - 1) as nat);
    }
}

} // verus!
