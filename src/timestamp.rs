use vstd::prelude::*;
use vstd::string::*;

verus! {

/// Whether `c` is an ASCII decimal digit.
pub open spec fn is_digit(c: char) -> bool {
    '0' <= c && c <= '9'
}

/// The value of the ASCII digit `c`.
pub open spec fn digit_value(c: char) -> int {
    c as int - '0' as int
}

/// The number written by the digits of `s` from `start` (inclusive) to `end`
/// (exclusive), most significant first.
pub open spec fn number_at(s: Seq<char>, start: int, end: int) -> int
    decreases end - start,
{
    if end <= start {
        0
    } else {
        number_at(s, start, end - 1) * 10 + digit_value(s[end - 1])
    }
}

/// Whether `y` is a leap year of the Gregorian calendar.
pub open spec fn is_leap(y: int) -> bool {
    (y % 4 == 0 && y % 100 != 0) || y % 400 == 0
}

/// The number of days in month `m` (1 to 12) of year `y`.
pub open spec fn days_in_month(y: int, m: int) -> int {
    if m == 2 {
        if is_leap(y) { 29 } else { 28 }
    } else if m == 4 || m == 6 || m == 9 || m == 11 {
        30
    } else {
        31
    }
}

/// The number of days of the months before month `m` (1 to 12) in a year.
pub open spec fn days_before_month(y: int, m: int) -> int
    decreases m,
{
    if m <= 1 {
        0
    } else {
        days_before_month(y, m - 1) + days_in_month(y, m - 1)
    }
}

/// The number of leap years from year 1 to year `y` included.
pub open spec fn leaps_through(y: int) -> int {
    y / 4 - y / 100 + y / 400
}

/// Days from 1970-01-01 to the given date, from year 1970 on.
pub open spec fn days_since_epoch(y: int, m: int, d: int) -> int {
    365 * (y - 1970) + (leaps_through(y - 1) - leaps_through(1969)) + days_before_month(y, m) + d
        - 1
}

/// Whether `s` starts with `YYYY-MM-DDTHH:MM:SS`.
pub open spec fn has_date_time_shape(s: Seq<char>) -> bool {
    &&& s.len() >= 20
    &&& forall|i: int|
        0 <= i < 19 && i != 4 && i != 7 && i != 10 && i != 13 && i != 16
            ==> is_digit(#[trigger] s[i])
    &&& s[4] == '-' && s[7] == '-' && s[10] == 'T'
    &&& s[13] == ':' && s[16] == ':'
}

/// The end of the run of digits of `s` that starts at `i`.
pub open spec fn digits_end(s: Seq<char>, i: int) -> int
    decreases s.len() - i,
{
    if i < 0 || i >= s.len() || !is_digit(s[i]) {
        i
    } else {
        digits_end(s, i + 1)
    }
}

/// Where the zone of a time starts: after the seconds and their fraction,
/// if any. A fraction is a `.` and at least one digit; it is not kept.
pub open spec fn zone_start(s: Seq<char>) -> Option<int> {
    if s[19] != '.' {
        Some(19)
    } else if digits_end(s, 20) > 20 {
        Some(digits_end(s, 20))
    } else {
        None
    }
}

/// The offset from UTC, in seconds, of the zone that starts at `j` and ends
/// the text: `Z`, or `+HH:MM` / `-HH:MM`.
pub open spec fn zone_offset(s: Seq<char>, j: int) -> Option<int> {
    if s.len() == j + 1 && s[j] == 'Z' {
        Some(0)
    } else if s.len() == j + 6 && (s[j] == '+' || s[j] == '-') && is_digit(s[j + 1]) && is_digit(
        s[j + 2],
    ) && s[j + 3] == ':' && is_digit(s[j + 4]) && is_digit(s[j + 5]) && number_at(s, j + 1, j + 3)
        <= 23 && number_at(s, j + 4, j + 6) <= 59 {
        let o = number_at(s, j + 1, j + 3) * 3600 + number_at(s, j + 4, j + 6) * 60;
        Some(if s[j] == '+' { o } else { -o })
    } else {
        None
    }
}

/// The seconds since the Unix epoch of the date and time that `s` starts
/// with, read as UTC; `None` where the shape or a field is invalid or the
/// year is before 1970.
pub open spec fn local_seconds(s: Seq<char>) -> Option<int> {
    if !has_date_time_shape(s) {
        None
    } else {
        let y = number_at(s, 0, 4);
        let mo = number_at(s, 5, 7);
        let d = number_at(s, 8, 10);
        let h = number_at(s, 11, 13);
        let mi = number_at(s, 14, 16);
        let se = number_at(s, 17, 19);
        if y < 1970 || mo < 1 || mo > 12 || d < 1 || d > days_in_month(y, mo) || h > 23 || mi > 59
            || se > 59 {
            None
        } else {
            Some(days_since_epoch(y, mo, d) * 86400 + h * 3600 + mi * 60 + se)
        }
    }
}

/// The seconds since the Unix epoch of an RFC 3339 time,
/// `YYYY-MM-DDTHH:MM:SS`, then an optional fraction of a second (dropped),
/// then `Z` or a numeric offset; `None` for any other text, an invalid date
/// or time, or a time before 1970 in UTC.
pub open spec fn timestamp_seconds(s: Seq<char>) -> Option<u64> {
    match local_seconds(s) {
        None => None,
        Some(l) => match zone_start(s) {
            None => None,
            Some(j) => match zone_offset(s, j) {
                None => None,
                Some(off) => if l - off < 0 {
                    None
                } else {
                    Some((l - off) as u64)
                },
            },
        },
    }
}

proof fn lemma_number_bound(s: Seq<char>, start: int, end: int)
    requires
        0 <= start <= end <= s.len(),
        forall|i: int| start <= i < end ==> is_digit(#[trigger] s[i]),
    ensures
        0 <= number_at(s, start, end),
        end - start <= 4 ==> number_at(s, start, end) < 10000,
        end - start <= 3 ==> number_at(s, start, end) < 1000,
        end - start <= 2 ==> number_at(s, start, end) < 100,
        end - start <= 1 ==> number_at(s, start, end) < 10,
    decreases end - start,
{
    if start < end {
        lemma_number_bound(s, start, end - 1);
    }
}

fn read_number(s: &str, start: usize, end: usize) -> (r: u64)
    requires
        start <= end <= s@.len(),
        end - start <= 4,
        forall|i: int| start <= i < end ==> is_digit(#[trigger] s@[i]),
    ensures
        r == number_at(s@, start as int, end as int),
{
    let mut r: u64 = 0;
    let mut i: usize = start;
    while i < end
        invariant
            start <= i <= end <= s@.len(),
            end - start <= 4,
            forall|j: int| start <= j < end ==> is_digit(#[trigger] s@[j]),
            r == number_at(s@, start as int, i as int),
            r < 10000,
        decreases end - i,
    {
        let c = s.get_char(i);
        proof {
            lemma_number_bound(s@, start as int, (i + 1) as int);
        }
        r = r * 10 + (c as u64 - '0' as u64);
        i = i + 1;
    }
    r
}

fn month_length(y: u64, m: u64) -> (r: u64)
    ensures
        r == days_in_month(y as int, m as int),
{
    if m == 2 {
        if (y % 4 == 0 && y % 100 != 0) || y % 400 == 0 {
            29
        } else {
            28
        }
    } else if m == 4 || m == 6 || m == 9 || m == 11 {
        30
    } else {
        31
    }
}

fn days_before(y: u64, m: u64) -> (r: u64)
    requires
        1 <= m <= 12,
    ensures
        r == days_before_month(y as int, m as int),
        r <= 366,
{
    let mut r: u64 = 0;
    let mut k: u64 = 1;
    while k < m
        invariant
            1 <= k <= m <= 12,
            r == days_before_month(y as int, k as int),
            r <= 31 * (k - 1),
        decreases m - k,
    {
        r = r + month_length(y, k);
        k = k + 1;
    }
    r
}

fn digit_char(c: char) -> (r: bool)
    ensures
        r == is_digit(c),
{
    '0' <= c && c <= '9'
}

/// Reads the zone that starts at `j`: `Z`, `+HH:MM` or `-HH:MM`, as an
/// offset in seconds with its sign apart (`true` for east of UTC).
fn read_zone(s: &str, n: usize, j: usize) -> (r: Option<(bool, u64)>)
    requires
        n == s@.len(),
        j < n,
    ensures
        match r {
            Some((east, o)) => o < 100_000 && zone_offset(s@, j as int) == Some(
                if east { o as int } else { -(o as int) },
            ),
            None => zone_offset(s@, j as int) is None,
        },
{
    let c = s.get_char(j);
    if n - j == 1 && c == 'Z' {
        return Some((true, 0));
    }
    if n - j != 6 || !(c == '+' || c == '-') {
        return None;
    }
    if !digit_char(s.get_char(j + 1)) || !digit_char(s.get_char(j + 2)) || s.get_char(j + 3) != ':'
        || !digit_char(s.get_char(j + 4)) || !digit_char(s.get_char(j + 5)) {
        return None;
    }
    let oh = read_number(s, j + 1, j + 3);
    let om = read_number(s, j + 4, j + 6);
    if oh > 23 || om > 59 {
        return None;
    }
    Some((c == '+', oh * 3600 + om * 60))
}

fn read_local(s: &str, n: usize) -> (r: Option<u64>)
    requires
        n == s@.len(),
    ensures
        match r {
            Some(v) => local_seconds(s@) == Some(v as int) && v < 400_000_000_000,
            None => local_seconds(s@) is None,
        },
{
    if n < 20 {
        return None;
    }
    let mut i: usize = 0;
    while i < 19
        invariant
            n == s@.len() >= 20,
            i <= 19,
            forall|j: int|
                0 <= j < i && j != 4 && j != 7 && j != 10 && j != 13 && j != 16
                    ==> is_digit(#[trigger] s@[j]),
        decreases 19 - i,
    {
        let c = s.get_char(i);
        if i != 4 && i != 7 && i != 10 && i != 13 && i != 16 && !digit_char(c) {
            return None;
        }
        i = i + 1;
    }
    if s.get_char(4) != '-' || s.get_char(7) != '-' || s.get_char(10) != 'T' || s.get_char(13)
        != ':' || s.get_char(16) != ':' {
        return None;
    }
    assert(has_date_time_shape(s@));
    let y = read_number(s, 0, 4);
    let mo = read_number(s, 5, 7);
    let d = read_number(s, 8, 10);
    let h = read_number(s, 11, 13);
    let mi = read_number(s, 14, 16);
    let se = read_number(s, 17, 19);
    proof {
        lemma_number_bound(s@, 0, 4);
        lemma_number_bound(s@, 5, 7);
    }
    if y < 1970 || mo < 1 || mo > 12 || d < 1 || d > month_length(y, mo) || h > 23 || mi > 59
        || se > 59 {
        return None;
    }
    let leaps = ((y - 1) / 4 - (y - 1) / 100 + (y - 1) / 400) - (1969 / 4 - 1969 / 100 + 1969 / 400);
    let days = 365 * (y - 1970) + leaps + days_before(y, mo) + d - 1;
    Some(days * 86400 + h * 3600 + mi * 60 + se)
}

fn read_zone_start(s: &str, n: usize) -> (r: Option<usize>)
    requires
        n == s@.len() >= 20,
    ensures
        match r {
            Some(j) => zone_start(s@) == Some(j as int) && j <= n,
            None => zone_start(s@) is None,
        },
{
    if s.get_char(19) != '.' {
        return Some(19);
    }
    let mut k: usize = 20;
    while k < n && digit_char(s.get_char(k))
        invariant
            n == s@.len(),
            20 <= k <= n,
            digits_end(s@, 20) == digits_end(s@, k as int),
        decreases n - k,
    {
        k = k + 1;
    }
    if k == 20 {
        None
    } else {
        Some(k)
    }
}

/// Reads an RFC 3339 time (`YYYY-MM-DDTHH:MM:SS`, an optional fraction of a
/// second, then `Z` or `+HH:MM` / `-HH:MM`) as whole seconds since the Unix
/// epoch; `None` for any other text or a time before 1970 in UTC.
pub fn parse_timestamp(s: &str) -> (r: Option<u64>)
    ensures
        r == timestamp_seconds(s@),
{
    let n = s.unicode_len();
    let local = match read_local(s, n) {
        Some(l) => l,
        None => return None,
    };
    let j = match read_zone_start(s, n) {
        Some(j) => j,
        None => return None,
    };
    if j >= n {
        return None;
    }
    let (east, off) = match read_zone(s, n, j) {
        Some(z) => z,
        None => return None,
    };
    if east {
        if local < off {
            None
        } else {
            Some(local - off)
        }
    } else {
        Some(local + off)
    }
}

/// The sample expiration `2030-01-01T00:00:00Z` is 1893456000 seconds after
/// the epoch.
pub proof fn lemma_sample_expiration()
    ensures
        timestamp_seconds("2030-01-01T00:00:00Z"@) == Some(1893456000u64),
{
    reveal_strlit("2030-01-01T00:00:00Z");
    let s = "2030-01-01T00:00:00Z"@;
    assert(has_date_time_shape(s));
    assert(number_at(s, 0, 4) == 2030) by {
        reveal_with_fuel(number_at, 5);
    }
    assert(number_at(s, 5, 7) == 1) by {
        reveal_with_fuel(number_at, 3);
    }
    assert(number_at(s, 8, 10) == 1) by {
        reveal_with_fuel(number_at, 3);
    }
    assert(number_at(s, 11, 13) == 0) by {
        reveal_with_fuel(number_at, 3);
    }
    assert(number_at(s, 14, 16) == 0) by {
        reveal_with_fuel(number_at, 3);
    }
    assert(number_at(s, 17, 19) == 0) by {
        reveal_with_fuel(number_at, 3);
    }
    assert(zone_start(s) == Some(19int));
    assert(zone_offset(s, 19) == Some(0int));
    assert(days_before_month(2030, 1) == 0);
    assert(leaps_through(2029) - leaps_through(1969) == 15);
    assert(days_since_epoch(2030, 1, 1) == 21915);
}

} // verus!
