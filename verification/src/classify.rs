//! Timestamp classification: a point in time, rendered as six clock digits in
//! both the 12-hour and the 24-hour format, is sorted into a repetition
//! category by the length of the leading run of identical digits.

use vstd::prelude::*;
use vstd::string::StrSliceExecFns;
use vstd::string::StringExecFns;
use chrono::TimeZone;
use chrono::Timelike;

verus! {

/// Timestamps handed to the local-clock rendering must stay inside the range
/// that the calendar arithmetic of the `chrono` crate supports (roughly
/// 253,000 years either side of the epoch).
pub const MAX_CLOCK_TIMESTAMP: i64 = 8_000_000_000_000;

/// Length of the longest prefix of `s` made of copies of its first character.
pub open spec fn run_len(s: Seq<char>) -> nat
    decreases s.len(),
{
    if s.len() == 0 {
        0
    } else if s.len() == 1 {
        1
    } else if s[1] == s[0] {
        (1 + run_len(s.drop_first())) as nat
    } else {
        1
    }
}

proof fn lemma_run_len_bounds(s: Seq<char>)
    requires
        s.len() > 0,
    ensures
        1 <= run_len(s) <= s.len(),
        forall|i: int| 0 <= i < run_len(s) ==> #[trigger] s[i] == s[0],
        run_len(s) < s.len() ==> s[run_len(s) as int] != s[0],
    decreases s.len(),
{
    if s.len() > 1 && s[1] == s[0] {
        let t = s.drop_first();
        lemma_run_len_bounds(t);
        assert(forall|i: int| 1 <= i < run_len(s) ==> #[trigger] s[i] == t[i - 1] && t[0] == s[0]);
    }
}

proof fn lemma_run_len_from_bounds(s: Seq<char>, n: int)
    requires
        s.len() > 0,
        0 < n <= s.len(),
        forall|j: int| 0 <= j < n ==> #[trigger] s[j] == s[0],
        n < s.len() ==> s[n] != s[0],
    ensures
        run_len(s) == n,
    decreases s.len(),
{
    if n == 1 {
        if s.len() > 1 {
            assert(s[1] != s[0]);
        }
    } else {
        let t = s.drop_first();
        assert(t[0] == s[1] && s[1] == s[0]);
        assert(forall|j: int| 0 <= j < n - 1 ==> #[trigger] t[j] == s[j + 1]);
        assert(n - 1 < t.len() ==> t[n - 1] == s[n]);
        lemma_run_len_from_bounds(t, n - 1);
    }
}

/// Law: for a six-character string the repeat-run count lies in `[1, 6]` and
/// is the length of the maximal prefix of identical characters: every
/// character before the count matches the first one, and no longer prefix is
/// made of identical characters.
pub proof fn lemma_run_len_six(s: Seq<char>)
    requires
        s.len() == 6,
    ensures
        1 <= run_len(s) <= 6,
        forall|i: int| 0 <= i < run_len(s) ==> #[trigger] s[i] == s[0],
        run_len(s) < 6 ==> s[run_len(s) as int] != s[0],
{
    lemma_run_len_bounds(s);
}

/// Number of leading repetitions of the first character, counted over the
/// whole string.
pub fn repeated_chars(text: &str) -> (count: usize)
    requires
        text@.len() > 0,
    ensures
        count == run_len(text@),
        1 <= count <= text@.len(),
{
    let first_char = text.get_char(0);
    let len = text.unicode_len();
    let mut i: usize = 1;
    while i < len
        invariant
            1 <= i <= len,
            len == text@.len(),
            first_char == text@[0],
            forall|j: int| 0 <= j < i ==> #[trigger] text@[j] == text@[0],
        decreases len - i,
    {
        if text.get_char(i) != first_char {
            proof {
                lemma_run_len_from_bounds(text@, i as int);
            }
            return i;
        }
        i += 1;
    }
    proof {
        lemma_run_len_from_bounds(text@, i as int);
    }
    i
}

/// The repetition categories a clock reading can fall into.
#[derive(PartialEq, Eq, Structural, Debug, Clone, Copy)]
pub enum Check {
    Quads,
    Sexts,
    Other,
}

/// The classification table over a leading-run count: four or five repeats
/// are `Quads`, exactly six are `Sexts`, anything shorter is `Other`.
pub open spec fn spec_classify(n: nat) -> Check {
    if n == 4 || n == 5 {
        Check::Quads
    } else if n == 6 {
        Check::Sexts
    } else {
        Check::Other
    }
}

/// Sort a leading-run count into its category.
pub fn classify_count(n: usize) -> (c: Check)
    ensures
        c == spec_classify(n as nat),
{
    if n == 4 || n == 5 {
        Check::Quads
    } else if n == 6 {
        Check::Sexts
    } else {
        Check::Other
    }
}

/// The decimal digit `d` as a character, for `d` up to 9.
pub open spec fn spec_digit_char(d: u8) -> char {
    if d == 0 {
        '0'
    } else if d == 1 {
        '1'
    } else if d == 2 {
        '2'
    } else if d == 3 {
        '3'
    } else if d == 4 {
        '4'
    } else if d == 5 {
        '5'
    } else if d == 6 {
        '6'
    } else if d == 7 {
        '7'
    } else if d == 8 {
        '8'
    } else {
        '9'
    }
}

/// A two-digit zero-padded rendering of `x`, for `x` up to 99.
pub open spec fn two_digits(x: u8) -> Seq<char> {
    seq![spec_digit_char(x / 10), spec_digit_char(x % 10)]
}

/// The fixed-width six-digit clock rendering `HHMMSS`.
pub open spec fn hms_digits(h: u8, m: u8, s: u8) -> Seq<char> {
    two_digits(h) + two_digits(m) + two_digits(s)
}

fn digit_str(d: u8) -> (r: &'static str)
    requires
        d < 10,
    ensures
        r@ == seq![spec_digit_char(d)],
{
    let r: &'static str = match d {
        0 => "0",
        1 => "1",
        2 => "2",
        3 => "3",
        4 => "4",
        5 => "5",
        6 => "6",
        7 => "7",
        8 => "8",
        _ => "9",
    };
    proof {
        reveal_strlit("0");
        reveal_strlit("1");
        reveal_strlit("2");
        reveal_strlit("3");
        reveal_strlit("4");
        reveal_strlit("5");
        reveal_strlit("6");
        reveal_strlit("7");
        reveal_strlit("8");
        reveal_strlit("9");
        assert(r@ =~= seq![spec_digit_char(d)]);
    }
    r
}

/// Render hours, minutes and seconds as the six clock digits.
fn render_hms(h: u8, m: u8, s: u8) -> (r: String)
    requires
        h < 100,
        m < 100,
        s < 100,
    ensures
        r@ == hms_digits(h, m, s),
{
    let mut out = String::new();
    out.append(digit_str(h / 10));
    out.append(digit_str(h % 10));
    out.append(digit_str(m / 10));
    out.append(digit_str(m % 10));
    out.append(digit_str(s / 10));
    out.append(digit_str(s % 10));
    proof {
        assert(out@ =~= hms_digits(h, m, s));
    }
    out
}

/// The hour of the 12-hour clock that shows for the 24-hour hour `h`:
/// noon and midnight show as 12.
pub open spec fn spec_hour12(h: u8) -> u8 {
    if h % 12 == 0 {
        12
    } else {
        h % 12
    }
}

/// The category of a wall-clock reading: the larger of the leading-run counts
/// of the 12-hour and the 24-hour rendering, sorted by the classification
/// table.
pub open spec fn spec_check_hms(h: u8, m: u8, s: u8) -> Check {
    spec_classify(vstd::math::max(
        run_len(hms_digits(spec_hour12(h), m, s)) as int,
        run_len(hms_digits(h, m, s)) as int,
    ) as nat)
}

/// Classify one wall-clock reading, given as hours, minutes and seconds of
/// the 24-hour clock.
pub fn check_hms(h: u8, m: u8, s: u8) -> (c: Check)
    requires
        h < 24,
        m < 60,
        s < 60,
    ensures
        c == spec_check_hms(h, m, s),
{
    let h12 = if h % 12 == 0 { 12 } else { h % 12 };
    let date_12h = render_hms(h12, m, s);
    let date_24h = render_hms(h, m, s);
    let n_12h = repeated_chars(date_12h.as_str());
    let n_24h = repeated_chars(date_24h.as_str());
    let n = if n_12h > n_24h {
        n_12h
    } else {
        n_24h
    };
    classify_count(n)
}

/// Relies on chrono's `TimeZone::timestamp_opt` for `Local` together with
/// `Timelike::hour`, `minute` and `second`: the local wall-clock reading of a
/// timestamp. chrono documents the ranges as 0..=23, 0..=59 and 0..=59, and
/// documents that the conversion succeeds for every in-range second count.
#[verifier::external_body]
fn local_hms(timestamp: i64) -> (r: (u8, u8, u8))
    requires
        -MAX_CLOCK_TIMESTAMP <= timestamp <= MAX_CLOCK_TIMESTAMP,
    ensures
        r.0 < 24,
        r.1 < 60,
        r.2 < 60,
{
    let dt = chrono::Local.timestamp_opt(timestamp, 0).single().unwrap();
    (dt.hour() as u8, dt.minute() as u8, dt.second() as u8)
}

/// Perform the repetition check on a timestamp, read on the local wall clock.
///
/// Which reading the clock gives depends on the time zone of the running
/// process, so the result is pinned only relative to some valid clock
/// reading; `check_hms` carries the exact contract.
pub fn check(timestamp: &i64) -> (c: Check)
    requires
        -MAX_CLOCK_TIMESTAMP <= *timestamp <= MAX_CLOCK_TIMESTAMP,
    ensures
        exists|h: u8, m: u8, s: u8|
            h < 24 && m < 60 && s < 60 && c == #[trigger] spec_check_hms(h, m, s),
{
    let (h, m, s) = local_hms(*timestamp);
    let c = check_hms(h, m, s);
    proof {
        assert(h < 24 && m < 60 && s < 60 && c == spec_check_hms(h, m, s));
    }
    c
}

} // verus!
