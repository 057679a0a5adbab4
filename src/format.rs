//! Locale-free rendering of integers, fixed-point values, clocks and elapsed
//! time.
use vstd::prelude::*;
use vstd::string::StringExecFns;

verus! {

broadcast use vstd::string::group_string_axioms;

/// The character of decimal digit `d`.
pub open spec fn digit_char(d: int) -> char {
    if d == 0 {
        '0'
    } else if d == 1 {
        '1'
    } else if d == 2 {
        '2'
    } else if d == 3 {
        '3'
    } else if d == 4 {
        '4'
    } else if d == 5 {
        '5'
    } else if d == 6 {
        '6'
    } else if d == 7 {
        '7'
    } else if d == 8 {
        '8'
    } else {
        '9'
    }
}

/// The decimal digits of `n`, most significant first, with no leading zero.
pub open spec fn dec(n: nat) -> Seq<char>
    decreases n,
{
    if n < 10 {
        seq![digit_char(n as int)]
    } else {
        dec(n / 10) + seq![digit_char((n % 10) as int)]
    }
}

/// Whether `c` is no decimal digit.
pub open spec fn not_digit(c: char) -> bool {
    c != '0' && c != '1' && c != '2' && c != '3' && c != '4' && c != '5' && c != '6' && c != '7' && c != '8'
        && c != '9'
}

/// The decimal digits of a number hold no other character.
pub proof fn lemma_dec_lacks(n: nat, c: char)
    requires
        not_digit(c),
    ensures
        crate::template::lacks(dec(n), c),
    decreases n,
{
    if n >= 10 {
        lemma_dec_lacks(n / 10, c);
        crate::template::lemma_concat_lacks(dec(n / 10), seq![digit_char((n % 10) as int)], c);
    }
}

/// A value in hundredths is written with digits, a point and maybe a sign.
pub proof fn lemma_hundredths_lacks(v: int, c: char)
    requires
        not_digit(c),
        c != '-',
        c != '.',
    ensures
        crate::template::lacks(hundredths(v), c),
{
    let m: nat = if v < 0 {
        (-v) as nat
    } else {
        v as nat
    };
    let sign = if v < 0 {
        seq!['-']
    } else {
        Seq::<char>::empty()
    };
    lemma_dec_lacks(m / 100, c);
    lemma_dec_lacks(m % 100, c);
    assert(crate::template::lacks(zeros((2 - dec(m % 100).len()) as nat), c));
    crate::template::lemma_concat_lacks(zeros((2 - dec(m % 100).len()) as nat), dec(m % 100), c);
    crate::template::lemma_concat_lacks(sign, dec(m / 100), c);
    crate::template::lemma_concat_lacks(sign + dec(m / 100), seq!['.'], c);
    crate::template::lemma_concat_lacks(sign + dec(m / 100) + seq!['.'], padded(m % 100, 2), c);
}

/// `n` in decimal, with a leading `-` when negative.
pub open spec fn signed_dec(n: int) -> Seq<char> {
    if n < 0 {
        seq!['-'] + dec((-n) as nat)
    } else {
        dec(n as nat)
    }
}

/// `k` zero characters.
pub open spec fn zeros(k: nat) -> Seq<char> {
    Seq::new(k, |i: int| '0')
}

/// `n` in decimal, left-padded with zeros to at least `width` characters.
pub open spec fn padded(n: nat, width: nat) -> Seq<char> {
    if dec(n).len() < width {
        zeros((width - dec(n).len()) as nat) + dec(n)
    } else {
        dec(n)
    }
}

/// `n` in decimal with a comma between each group of three digits.
pub open spec fn grouped(n: nat) -> Seq<char>
    decreases n,
{
    if n < 1000 {
        dec(n)
    } else {
        grouped(n / 1000) + seq![','] + padded(n % 1000, 3)
    }
}

/// Division rounded toward zero.
pub open spec fn tdiv(a: int, b: int) -> int {
    if a >= 0 {
        a / b
    } else {
        -((-a) / b)
    }
}

/// A count followed by its unit, with an `S` when `plural`.
pub open spec fn counted(n: int, unit: Seq<char>, plural: bool) -> Seq<char> {
    signed_dec(n) + seq![' '] + unit + if plural {
        seq!['S']
    } else {
        Seq::<char>::empty()
    }
}

/// How long ago an instant `secs` seconds in the past was, in the coarsest
/// unit that applies.
pub open spec fn time_ago(secs: int) -> Seq<char> {
    let days = tdiv(secs, 86400);
    let weeks = tdiv(days, 7);
    let hours = tdiv(secs, 3600);
    let minutes = tdiv(secs, 60);
    if days > 365 {
        counted(days / 365, "YEAR"@, days - 365 >= 365)
    } else if days > 30 {
        counted(days / 30, "MONTH"@, days - 30 >= 30)
    } else if weeks != 0 {
        counted(weeks, "WEEK"@, weeks > 1)
    } else if days != 0 {
        counted(days, "DAY"@, days > 1)
    } else if hours != 0 {
        counted(hours, "HOUR"@, hours > 1)
    } else if minutes != 0 {
        counted(minutes, "MINUTE"@, minutes > 1)
    } else {
        counted(secs, "SECOND"@, secs > 1)
    }
}

/// A value kept in hundredths, written with two decimals.
pub open spec fn hundredths(c: int) -> Seq<char> {
    let m: nat = if c < 0 {
        (-c) as nat
    } else {
        c as nat
    };
    (if c < 0 {
        seq!['-']
    } else {
        Seq::<char>::empty()
    }) + dec(m / 100) + seq!['.'] + padded(m % 100, 2)
}

/// A duration of `ms` milliseconds as whole minutes and two-digit seconds.
pub open spec fn clock(ms: nat) -> Seq<char> {
    let secs = ms / 1000;
    dec(secs / 60) + seq![':'] + padded(secs % 60, 2)
}

/// A duration of `ms` milliseconds as `M:SS`, or `H:MM:SS` from one hour on;
/// the milliseconds are left out.
pub open spec fn long_clock(ms: nat) -> Seq<char> {
    let secs = ms / 1000;
    let minutes = secs / 60;
    let hours = minutes / 60;
    if hours != 0 {
        dec(hours) + seq![':'] + padded(minutes % 60, 2) + seq![':'] + padded(secs % 60, 2)
    } else {
        dec(minutes) + seq![':'] + padded(secs % 60, 2)
    }
}

fn digit_text(d: u64) -> (r: &'static str)
    requires
        d < 10,
    ensures
        r@ == seq![digit_char(d as int)],
{
    if d == 0 {
        proof {
            reveal_strlit("0");
        }
        "0"
    } else if d == 1 {
        proof {
            reveal_strlit("1");
        }
        "1"
    } else if d == 2 {
        proof {
            reveal_strlit("2");
        }
        "2"
    } else if d == 3 {
        proof {
            reveal_strlit("3");
        }
        "3"
    } else if d == 4 {
        proof {
            reveal_strlit("4");
        }
        "4"
    } else if d == 5 {
        proof {
            reveal_strlit("5");
        }
        "5"
    } else if d == 6 {
        proof {
            reveal_strlit("6");
        }
        "6"
    } else if d == 7 {
        proof {
            reveal_strlit("7");
        }
        "7"
    } else if d == 8 {
        proof {
            reveal_strlit("8");
        }
        "8"
    } else {
        proof {
            reveal_strlit("9");
        }
        "9"
    }
}

/// `n` in decimal.
pub fn decimal(n: u64) -> (r: String)
    ensures
        r@ == dec(n as nat),
    decreases n,
{
    if n < 10 {
        String::from_str(digit_text(n))
    } else {
        let mut r = decimal(n / 10);
        r.append(digit_text(n % 10));
        r
    }
}

/// `n` in decimal, with a leading `-` when negative.
pub fn signed_decimal(n: i64) -> (r: String)
    ensures
        r@ == signed_dec(n as int),
{
    if n < 0 {
        let m: u64 = ((-(n + 1)) as u64) + 1;
        let mut r = String::from_str("-");
        proof {
            reveal_strlit("-");
        }
        let d = decimal(m);
        r.append(d.as_str());
        r
    } else {
        decimal(n as u64)
    }
}

proof fn lemma_dec_len_pos(n: nat)
    ensures
        dec(n).len() >= 1,
    decreases n,
{
    if n >= 10 {
        lemma_dec_len_pos(n / 10);
    }
}

/// `n` in decimal, left-padded with zeros to at least `width` characters.
pub fn zero_padded(n: u64, width: usize) -> (r: String)
    ensures
        r@ == padded(n as nat, width as nat),
{
    let d = decimal(n);
    let len = crate::template::chars_of(d.as_str()).len();
    if len < width {
        let mut r = String::new();
        let mut i: usize = 0;
        while i < width - len
            invariant
                i <= width - len,
                r@ == zeros(i as nat),
            decreases width - len - i,
        {
            proof {
                reveal_strlit("0");
            }
            r.append("0");
            assert(r@ =~= zeros((i + 1) as nat));
            i = i + 1;
        }
        r.append(d.as_str());
        r
    } else {
        d
    }
}

/// `n` in decimal, its digits grouped by three with commas (`1,234,567`).
pub fn parse_blitz_score_number(n: u64) -> (r: String)
    ensures
        r@ == grouped(n as nat),
    decreases n,
{
    if n < 1000 {
        decimal(n)
    } else {
        let mut r = parse_blitz_score_number(n / 1000);
        proof {
            reveal_strlit(",");
        }
        r.append(",");
        let low = zero_padded(n % 1000, 3);
        r.append(low.as_str());
        r
    }
}

/// `a / b` rounded toward zero.
fn trunc_div(a: i64, b: i64) -> (r: i64)
    requires
        b > 0,
        a > i64::MIN,
    ensures
        r == tdiv(a as int, b as int),
        a >= 0 ==> 0 <= r <= a,
        a < 0 ==> a <= r <= 0,
{
    if a >= 0 {
        a / b
    } else {
        let q = (-a) / b;
        -q
    }
}

fn counted_text(n: i64, unit: &str, plural: bool) -> (r: String)
    ensures
        r@ == counted(n as int, unit@, plural),
{
    let mut r = signed_decimal(n);
    proof {
        reveal_strlit(" ");
        reveal_strlit("S");
    }
    r.append(" ");
    r.append(unit);
    if plural {
        r.append("S");
    } else {
        assert(r@ + Seq::<char>::empty() =~= r@);
    }
    r
}

/// How long ago something happened, `secs` seconds back, in the coarsest unit
/// that applies: `2 YEARS`, `1 MONTH`, `3 WEEKS`, ..., `1 SECOND`.
pub fn parse_duration_since(secs: i64) -> (r: String)
    requires
        secs > i64::MIN,
    ensures
        r@ == time_ago(secs as int),
{
    let days = trunc_div(secs, 86400);
    let weeks = trunc_div(days, 7);
    let hours = trunc_div(secs, 3600);
    let minutes = trunc_div(secs, 60);
    if days > 365 {
        counted_text(days / 365, "YEAR", days - 365 >= 365)
    } else if days > 30 {
        counted_text(days / 30, "MONTH", days - 30 >= 30)
    } else if weeks != 0 {
        counted_text(weeks, "WEEK", weeks > 1)
    } else if days != 0 {
        counted_text(days, "DAY", days > 1)
    } else if hours != 0 {
        counted_text(hours, "HOUR", hours > 1)
    } else if minutes != 0 {
        counted_text(minutes, "MINUTE", minutes > 1)
    } else {
        counted_text(secs, "SECOND", secs > 1)
    }
}

/// A value kept in hundredths, with two decimals (`1234` gives `12.34`).
pub fn format_hundredths(c: i64) -> (r: String)
    ensures
        r@ == hundredths(c as int),
{
    let m: u64 = if c < 0 {
        ((-(c + 1)) as u64) + 1
    } else {
        c as u64
    };
    let mut r = String::new();
    proof {
        reveal_strlit("-");
        reveal_strlit(".");
    }
    if c < 0 {
        r.append("-");
    }
    let whole = decimal(m / 100);
    r.append(whole.as_str());
    r.append(".");
    let frac = zero_padded(m % 100, 2);
    r.append(frac.as_str());
    r
}

/// Minutes and two-digit seconds of a duration in milliseconds (`1:05`).
pub fn format_clock(ms: u64) -> (r: String)
    ensures
        r@ == clock(ms as nat),
{
    let secs = ms / 1000;
    let mut r = decimal(secs / 60);
    proof {
        reveal_strlit(":");
    }
    r.append(":");
    let s = zero_padded(secs % 60, 2);
    r.append(s.as_str());
    r
}

/// A duration in milliseconds as `M:SS`, or `H:MM:SS` from one hour on.
pub fn format_long_clock(ms: u64) -> (r: String)
    ensures
        r@ == long_clock(ms as nat),
{
    let secs = ms / 1000;
    let minutes = secs / 60;
    let hours = minutes / 60;
    proof {
        reveal_strlit(":");
    }
    if hours != 0 {
        let mut r = decimal(hours);
        r.append(":");
        let m = zero_padded(minutes % 60, 2);
        r.append(m.as_str());
        r.append(":");
        let s = zero_padded(secs % 60, 2);
        r.append(s.as_str());
        r
    } else {
        let mut r = decimal(minutes);
        r.append(":");
        let s = zero_padded(secs % 60, 2);
        r.append(s.as_str());
        r
    }
}

} // verus!
