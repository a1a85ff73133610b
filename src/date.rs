//! Creation times as folder names: `YYYY.MM.DD` of the UTC calendar date.

use vstd::prelude::*;

verus! {

/// The UTC calendar date `(year, month, day)` of a count of seconds since the
/// Unix epoch, as chrono reckons it; `None` where chrono has no such date.
pub uninterp spec fn utc_date_of(secs: int) -> Option<(int, int, int)>;

/// The character of a decimal digit.
pub open spec fn digit_char(d: int) -> char {
    seq!['0', '1', '2', '3', '4', '5', '6', '7', '8', '9'][d]
}

/// The decimal digits of `n`, with no leading zero.
pub open spec fn digits(n: nat) -> Seq<char>
    decreases n,
{
    if n < 10 {
        seq![digit_char(n as int)]
    } else {
        digits(n / 10).push(digit_char(n as int % 10))
    }
}

/// `s` with zeros in front, up to `width` characters.
pub open spec fn zero_padded(s: Seq<char>, width: nat) -> Seq<char> {
    if s.len() < width {
        Seq::new((width - s.len()) as nat, |i: int| '0') + s
    } else {
        s
    }
}

/// A year as `%Y` writes it: four digits at least, zero-padded, and a sign
/// in front of a year outside `0..=9999`.
pub open spec fn year_text(y: int) -> Seq<char> {
    if 0 <= y && y <= 9999 {
        zero_padded(digits(y as nat), 4)
    } else if y > 9999 {
        seq!['+'] + zero_padded(digits(y as nat), 4)
    } else {
        seq!['-'] + zero_padded(digits((-y) as nat), 4)
    }
}

/// A month or a day as two digits at least.
pub open spec fn two_digit_text(v: int) -> Seq<char> {
    zero_padded(digits(v as nat), 2)
}

/// The folder name of a date: `YYYY.MM.DD`.
pub open spec fn ymd_text(y: int, m: int, d: int) -> Seq<char> {
    year_text(y) + seq!['.'] + two_digit_text(m) + seq!['.'] + two_digit_text(d)
}

/// A date whose month lies in 1 to 12 and whose day lies in 1 to 31.
pub open spec fn valid_month_day(o: Option<(int, int, int)>) -> bool {
    match o {
        Some(t) => 1 <= t.1 <= 12 && 1 <= t.2 <= 31,
        None => false,
    }
}

/// The folder name for a creation time, where it has a date.
pub open spec fn bucket_name(secs: int) -> Option<Seq<char>> {
    match utc_date_of(secs) {
        Some(t) => Some(ymd_text(t.0, t.1, t.2)),
        None => None,
    }
}

/// Relies on chrono's `Utc.timestamp_opt(secs, 0).single()` for the UTC date
/// of a timestamp (`None` out of chrono's range), and on `Datelike::month`
/// and `Datelike::day`, which give 1 to 12 and 1 to 31.
#[verifier::external_body]
fn utc_date(secs: i64) -> (r: Option<(i32, u32, u32)>)
    ensures
        r is None <==> utc_date_of(secs as int) is None,
        r matches Some(t) ==> utc_date_of(secs as int) == Some((t.0 as int, t.1 as int, t.2 as int))
            && 1 <= t.1 <= 12 && 1 <= t.2 <= 31,
{
    match chrono::TimeZone::timestamp_opt(&chrono::Utc, secs, 0).single() {
        Some(d) => Some((chrono::Datelike::year(&d), chrono::Datelike::month(&d), chrono::Datelike::day(&d))),
        None => None,
    }
}

/// Relies on `String`'s `FromIterator<char>`: the characters in order.
#[verifier::external_body]
fn string_from_chars(v: &Vec<char>) -> (r: String)
    ensures
        r@ == v@,
{
    v.iter().collect()
}

fn digit_of(d: u64) -> (c: char)
    requires
        d < 10,
    ensures
        c == digit_char(d as int),
{
    let table: Vec<char> = vec!['0', '1', '2', '3', '4', '5', '6', '7', '8', '9'];
    table[d as usize]
}

fn digit_count(n: u64) -> (r: u64)
    ensures
        r == digits(n as nat).len(),
    decreases n,
{
    if n < 10 {
        1
    } else {
        let k = digit_count(n / 10);
        proof {
            lemma_digits_len((n / 10) as nat);
        }
        k + 1
    }
}

/// A number has no more digits than it is large, plus one.
proof fn lemma_digits_len(n: nat)
    ensures
        digits(n).len() <= n + 1,
    decreases n,
{
    if n >= 10 {
        lemma_digits_len(n / 10);
    }
}

fn push_digits(v: &mut Vec<char>, n: u64)
    ensures
        final(v)@ == old(v)@ + digits(n as nat),
    decreases n,
{
    if n >= 10 {
        push_digits(v, n / 10);
    }
    v.push(digit_of(n % 10));
    assert(final(v)@ =~= old(v)@ + digits(n as nat));
}

fn push_padded(v: &mut Vec<char>, n: u64, width: u64)
    ensures
        final(v)@ == old(v)@ + zero_padded(digits(n as nat), width as nat),
{
    let count = digit_count(n);
    let ghost start = v@;
    if count < width {
        let mut i: u64 = count;
        while i < width
            invariant
                count <= i <= width,
                v@ == start + Seq::new((i - count) as nat, |j: int| '0'),
            decreases width - i,
        {
            v.push('0');
            i += 1;
            assert(v@ =~= start + Seq::new((i - count) as nat, |j: int| '0'));
        }
    }
    push_digits(v, n);
    assert(v@ =~= start + zero_padded(digits(n as nat), width as nat));
}

/// Writes a date as `YYYY.MM.DD`: the year as `%Y` does, month and day with
/// two digits at least.
pub fn format_ymd(year: i32, month: u32, day: u32) -> (r: String)
    ensures
        r@ == ymd_text(year as int, month as int, day as int),
{
    let mut v: Vec<char> = Vec::new();
    if year > 9999 {
        v.push('+');
        push_padded(&mut v, year as u64, 4);
    } else if year < 0 {
        v.push('-');
        push_padded(&mut v, (-(year as i64)) as u64, 4);
    } else {
        push_padded(&mut v, year as u64, 4);
    }
    assert(v@ =~= year_text(year as int));
    v.push('.');
    push_padded(&mut v, month as u64, 2);
    v.push('.');
    push_padded(&mut v, day as u64, 2);
    assert(v@ =~= ymd_text(year as int, month as int, day as int));
    string_from_chars(&v)
}

/// The folder name of a creation time: its UTC date as `YYYY.MM.DD`, or
/// `None` where the time has no calendar date.
pub fn convert_sec_to_ymd(seconds: i64) -> (r: Option<String>)
    ensures
        r is None <==> bucket_name(seconds as int) is None,
        r matches Some(s) ==> bucket_name(seconds as int) == Some(s@),
        r is Some ==> valid_month_day(utc_date_of(seconds as int)),
{
    match utc_date(seconds) {
        Some(t) => Some(format_ymd(t.0, t.1, t.2)),
        None => None,
    }
}

proof fn lemma_two_digits(v: int)
    requires
        0 <= v <= 99,
    ensures
        zero_padded(digits(v as nat), 2) == seq![digit_char(v / 10), digit_char(v % 10)],
{
    if v < 10 {
        assert(digits(v as nat) == seq![digit_char(v)]);
        assert(zero_padded(digits(v as nat), 2) =~= seq![digit_char(v / 10), digit_char(v % 10)]);
    } else {
        assert(digits((v / 10) as nat) == seq![digit_char(v / 10)]);
        assert(digits(v as nat) == digits((v / 10) as nat).push(digit_char(v % 10)));
        assert(zero_padded(digits(v as nat), 2) =~= seq![digit_char(v / 10), digit_char(v % 10)]);
    }
}

proof fn lemma_four_digits(v: int)
    requires
        0 <= v <= 9999,
    ensures
        zero_padded(digits(v as nat), 4) == seq![
            digit_char(v / 1000),
            digit_char(v / 100 % 10),
            digit_char(v / 10 % 10),
            digit_char(v % 10),
        ],
{
    let w = seq![
        digit_char(v / 1000),
        digit_char(v / 100 % 10),
        digit_char(v / 10 % 10),
        digit_char(v % 10),
    ];
    if v < 10 {
        assert(digits(v as nat) == seq![digit_char(v)]);
        assert(zero_padded(digits(v as nat), 4) =~= w);
    } else if v < 100 {
        assert(digits((v / 10) as nat) == seq![digit_char(v / 10)]);
        assert(digits(v as nat) == digits((v / 10) as nat).push(digit_char(v % 10)));
        assert(zero_padded(digits(v as nat), 4) =~= w);
    } else {
        lemma_two_digits(v / 100);
        assert(v / 100 / 10 == v / 1000);
        assert(v / 10 / 10 == v / 100);
        assert(v / 10 % 10 == v % 100 / 10);
        if v < 1000 {
            assert(digits((v / 100) as nat) == seq![digit_char(v / 100)]);
        } else {
            assert(digits((v / 100) as nat) == seq![digit_char(v / 1000), digit_char(v / 100 % 10)]);
        }
        assert(digits((v / 10) as nat) == digits((v / 100) as nat).push(digit_char(v / 10 % 10)));
        assert(digits(v as nat) == digits((v / 10) as nat).push(digit_char(v % 10)));
        assert(zero_padded(digits(v as nat), 4) =~= w);
    }
}

/// A date of the years 0 to 9999 is written `YYYY.MM.DD`: ten characters,
/// the four digits of the year, a dot, the two digits of the month, a dot and
/// the two digits of the day, each part zero-padded.
pub proof fn lemma_ymd_pattern(y: int, m: int, d: int)
    requires
        0 <= y <= 9999,
        1 <= m <= 12,
        1 <= d <= 31,
    ensures
        ymd_text(y, m, d) == seq![
            digit_char(y / 1000),
            digit_char(y / 100 % 10),
            digit_char(y / 10 % 10),
            digit_char(y % 10),
            '.',
            digit_char(m / 10),
            digit_char(m % 10),
            '.',
            digit_char(d / 10),
            digit_char(d % 10),
        ],
{
    lemma_four_digits(y);
    lemma_two_digits(m);
    lemma_two_digits(d);
    assert(ymd_text(y, m, d) =~= seq![
        digit_char(y / 1000),
        digit_char(y / 100 % 10),
        digit_char(y / 10 % 10),
        digit_char(y % 10),
        '.',
        digit_char(m / 10),
        digit_char(m % 10),
        '.',
        digit_char(d / 10),
        digit_char(d % 10),
    ]);
}

} // verus!
