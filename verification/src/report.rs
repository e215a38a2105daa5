//! Rendering of durations and of the lines of a report.

use vstd::prelude::*;
use vstd::string::*;

verus! {

/// The character that stands for the decimal digit `d`.
pub open spec fn digit_char(d: nat) -> char {
    if d == 0 {
        '0'
    } else if d == 1 {
        '1'
    } else if d == 2 {
        '2'
    } else if d == 3 {
        '3'
    } else if d == 4 {
        '4'
    } else if d == 5 {
        '5'
    } else if d == 6 {
        '6'
    } else if d == 7 {
        '7'
    } else if d == 8 {
        '8'
    } else {
        '9'
    }
}

/// The decimal numeral of `n`, without leading zeros.
pub open spec fn decimal_text(n: nat) -> Seq<char>
    decreases n,
{
    if n < 10 {
        seq![digit_char(n)]
    } else {
        decimal_text(n / 10).push(digit_char(n % 10))
    }
}

/// A duration in nanoseconds, rounded to the nearest microsecond, halves up.
pub open spec fn rounded_micros(nsecs: nat) -> nat {
    (nsecs + 500) / 1000
}

/// A duration in nanoseconds as milliseconds with three decimal places,
/// for instance `1.235 ms` for 1234567 ns.
pub open spec fn millis_text(nsecs: nat) -> Seq<char> {
    let micros = rounded_micros(nsecs);
    decimal_text(micros / 1000) + "."@ + fraction_text(micros % 1000) + " ms"@
}

/// The three decimal digits of a number below 1000, zeros included.
pub open spec fn fraction_text(thousandths: nat) -> Seq<char> {
    seq![
        digit_char(thousandths / 100),
        digit_char(thousandths % 100 / 10),
        digit_char(thousandths % 10),
    ]
}

/// Rounding to the nearest thousand carries one exactly when the remainder
/// reaches five hundred.
pub proof fn lemma_rounded_micros(nsecs: nat)
    ensures
        rounded_micros(nsecs) == nsecs / 1000 + if nsecs % 1000 >= 500 {
            1nat
        } else {
            0nat
        },
{
}

/// A status line: the harness's prefix, then the description.
pub open spec fn status_text(desc: Seq<char>) -> Seq<char> {
    "meow: "@ + desc
}

/// What a status line says of one duration.
pub open spec fn timing_text(desc: Seq<char>, nsecs: nat) -> Seq<char> {
    desc + " "@ + millis_text(nsecs)
}

/// What a status line says of two durations.
pub open spec fn timing_pair_text(desc: Seq<char>, aa: nat, bb: nat) -> Seq<char> {
    desc + ":\t"@ + millis_text(aa) + ", "@ + millis_text(bb)
}

/// The line that reports two durations under one description.
pub open spec fn status_two_text(desc: Seq<char>, aa: nat, bb: nat) -> Seq<char> {
    status_text(timing_pair_text(desc, aa, bb))
}

/// The numeral of a size in parentheses, after a space.
pub open spec fn size_suffix(size: nat) -> Seq<char> {
    " ("@ + decimal_text(size) + ")"@
}

/// The text of one decimal digit.
fn digit_str(d: u64) -> (s: &'static str)
    requires
        d < 10,
    ensures
        s@ == seq![digit_char(d as nat)],
{
    proof {
        reveal_strlit("0");
        reveal_strlit("1");
        reveal_strlit("2");
        reveal_strlit("3");
        reveal_strlit("4");
        reveal_strlit("5");
        reveal_strlit("6");
        reveal_strlit("7");
        reveal_strlit("8");
        reveal_strlit("9");
    }
    let s: &'static str = match d {
        0 => "0",
        1 => "1",
        2 => "2",
        3 => "3",
        4 => "4",
        5 => "5",
        6 => "6",
        7 => "7",
        8 => "8",
        _ => "9",
    };
    assert(s@ =~= seq![digit_char(d as nat)]);
    s
}

/// Writes `n` as a decimal numeral.
pub fn decimal(n: u64) -> (s: String)
    ensures
        s@ == decimal_text(n as nat),
    decreases n,
{
    if n < 10 {
        String::from_str(digit_str(n))
    } else {
        let mut s: String = decimal(n / 10);
        s.append(digit_str(n % 10));
        assert(s@ =~= decimal_text((n / 10) as nat).push(digit_char((n % 10) as nat)));
        s
    }
}

/// Renders a duration of `nsecs` nanoseconds as milliseconds with three
/// decimal places.
pub fn fmt_ms(nsecs: u64) -> (s: String)
    ensures
        s@ == millis_text(nsecs as nat),
{
    let micros: u64 = round_to_micros(nsecs);
    let mut s: String = decimal(micros / 1000);
    s.append(".");
    let fraction: String = fraction(micros % 1000);
    s.append(fraction.as_str());
    s.append(" ms");
    s
}

/// Rounds a duration in nanoseconds to the nearest microsecond, halves up.
pub fn round_to_micros(nsecs: u64) -> (micros: u64)
    ensures
        micros as nat == rounded_micros(nsecs as nat),
{
    proof {
        lemma_rounded_micros(nsecs as nat);
    }
    if nsecs % 1000 >= 500 {
        nsecs / 1000 + 1
    } else {
        nsecs / 1000
    }
}

/// Writes a number below 1000 with three digits.
fn fraction(thousandths: u64) -> (s: String)
    requires
        thousandths < 1000,
    ensures
        s@ == fraction_text(thousandths as nat),
{
    let mut s: String = String::from_str(digit_str(thousandths / 100));
    s.append(digit_str(thousandths % 100 / 10));
    s.append(digit_str(thousandths % 10));
    assert(s@ =~= fraction_text(thousandths as nat));
    s
}

/// Builds the status line for `desc`.
pub fn status(desc: &str) -> (line: String)
    ensures
        line@ == status_text(desc@),
{
    String::from_str("meow: ").concat(desc)
}

/// Builds the status line that reports the durations `aa` and `bb`, in
/// nanoseconds, under the description `desc`.
pub fn status_two(desc: &str, aa: u64, bb: u64) -> (line: String)
    ensures
        line@ == status_two_text(desc@, aa as nat, bb as nat),
{
    let mut body: String = String::from_str(desc);
    body.append(":\t");
    let first: String = fmt_ms(aa);
    body.append(first.as_str());
    body.append(", ");
    let second: String = fmt_ms(bb);
    body.append(second.as_str());
    status(body.as_str())
}

/// Builds the status line that reports one duration, in nanoseconds, under
/// the description `desc`.
pub fn status_one(desc: &str, nsecs: u64) -> (line: String)
    ensures
        line@ == status_text(timing_text(desc@, nsecs as nat)),
{
    let mut body: String = String::from_str(desc);
    body.append(" ");
    let shown: String = fmt_ms(nsecs);
    body.append(shown.as_str());
    status(body.as_str())
}

/// Appends to `desc` the numeral of `size` in parentheses.
pub fn sized_label(desc: &str, size: usize) -> (label: String)
    ensures
        label@ == desc@ + size_suffix(size as nat),
{
    let mut label: String = String::from_str(desc);
    label.append(" (");
    let numeral: String = decimal(size as u64);
    label.append(numeral.as_str());
    label.append(")");
    assert(label@ =~= desc@ + size_suffix(size as nat));
    label
}

} // verus!
