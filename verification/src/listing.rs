//! Reading what remote servers answer: `ls -l` style listing lines (FTP
//! `LIST`, `ls -la` over SSH), `stat` output, SFTP attributes, and the shell
//! commands the SSH fallback sends.
use vstd::prelude::*;

use crate::backend::{native_file_name, std_path_file_name, DirEntry, DirEntryView, FileInfo, FileInfoView};
use crate::text::{
    all_radix_digits, before_first, char_code, chars_of, concat, concat3, digits_value, find_chars,
    is_radix_digit, join, join_from, lemma_find_from, octal, octal_string, parse_unsigned,
    parse_unsigned_str, split_whitespace_chars, split_ws, starts_with_char, string_of, views,
    contains_seq, str_contains, find_from, trim_whitespace, trim_ws, owned,
};

verus! {

// ---------------------------------------------------------------------------
// Permission strings ("drwxr-xr-x")
// ---------------------------------------------------------------------------

/// `bit` when `on`, else 0.
pub open spec fn flag(on: bool, bit: u32) -> u32 {
    if on {
        bit
    } else {
        0
    }
}

/// The execute position of a permission triple also shows the special bit:
/// lower case (`s`, `t`) is set and executable, upper case (`S`, `T`) set
/// but not executable.
pub open spec fn exec_set(c: char, special: char) -> bool {
    c == 'x' || c == special
}

pub open spec fn special_set(c: char, special: char, special_upper: char) -> bool {
    c == special || c == special_upper
}

/// One permission triple ("rwx"): read 4, write 2, execute 1; the execute
/// position may show the triple's special letter instead of `x`.
pub open spec fn triple_bits(r: char, w: char, x: char, special: char) -> u32 {
    (flag(r == 'r', 4) + flag(w == 'w', 2) + flag(exec_set(x, special), 1)) as u32
}

/// The numeric mode written by the nine permission characters that follow
/// the type character; none when the string is shorter than ten characters.
pub open spec fn perm_mode(p: Seq<char>) -> Option<u32> {
    if p.len() < 10 {
        None
    } else {
        Some(
            (flag(special_set(p[3], 's', 'S'), 0o4000) + flag(special_set(p[6], 's', 'S'), 0o2000)
                + flag(special_set(p[9], 't', 'T'), 0o1000) + triple_bits(p[1], p[2], p[3], 's') * 64
                + triple_bits(p[4], p[5], p[6], 's') * 8 + triple_bits(p[7], p[8], p[9], 't')) as u32,
        )
    }
}

fn flag_exec(on: bool, bit: u32) -> (r: u32)
    ensures
        r == flag(on, bit),
{
    if on {
        bit
    } else {
        0
    }
}

fn triple_exec(r: char, w: char, x: char, special: char) -> (b: u32)
    ensures
        b == triple_bits(r, w, x, special),
        b <= 7,
{
    flag_exec(r == 'r', 4) + flag_exec(w == 'w', 2) + flag_exec(x == 'x' || x == special, 1)
}

/// The mode a permission string writes.
pub fn parse_perm_mode(p: &Vec<char>) -> (r: Option<u32>)
    ensures
        r == perm_mode(p@),
{
    if p.len() < 10 {
        return None;
    }
    let special = flag_exec(p[3] == 's' || p[3] == 'S', 0o4000) + flag_exec(
        p[6] == 's' || p[6] == 'S',
        0o2000,
    ) + flag_exec(p[9] == 't' || p[9] == 'T', 0o1000);
    let owner = triple_exec(p[1], p[2], p[3], 's');
    let group = triple_exec(p[4], p[5], p[6], 's');
    let other = triple_exec(p[7], p[8], p[9], 't');
    Some(special + owner * 64 + group * 8 + other)
}

/// Read-only when the mode is known and its owner-write bit is clear.
pub open spec fn mode_readonly(mode: Option<u32>) -> bool {
    match mode {
        Some(m) => m & 0o200u32 == 0,
        None => false,
    }
}

pub fn readonly_of(mode: Option<u32>) -> (r: bool)
    ensures
        r == mode_readonly(mode),
{
    match mode {
        Some(m) => m & 0o200u32 == 0,
        None => false,
    }
}

// ---------------------------------------------------------------------------
// Dates of listing lines ("Jan 15 09:30" this year, "Dec 25 2023" otherwise)
// ---------------------------------------------------------------------------

pub open spec fn is_leap_year(y: int) -> bool {
    (y % 4 == 0 && y % 100 != 0) || y % 400 == 0
}

pub open spec fn days_in_month(y: int, m: int) -> int {
    if m == 2 {
        if is_leap_year(y) {
            29
        } else {
            28
        }
    } else if m == 4 || m == 6 || m == 9 || m == 11 {
        30
    } else {
        31
    }
}

/// Days from January 1st of year `y` to the first day of month `m`.
pub open spec fn days_before_month(y: int, m: int) -> int
    decreases m,
{
    if m <= 1 {
        0
    } else {
        days_before_month(y, m - 1) + days_in_month(y, m - 1)
    }
}

/// Days from 1970-01-01 to January 1st of year `y` (`y` from 1970 on).
pub open spec fn days_before_year(y: int) -> int
    decreases y - 1970,
{
    if y <= 1970 {
        0
    } else {
        days_before_year(y - 1) + if is_leap_year(y - 1) {
            366int
        } else {
            365int
        }
    }
}

/// Seconds since the Unix epoch of a date and time (UTC).
pub open spec fn unix_seconds(y: int, mo: int, d: int, h: int, mi: int) -> int {
    (days_before_year(y) + days_before_month(y, mo) + d - 1) * 86400 + h * 3600 + mi * 60
}

/// Number of a three-letter English month abbreviation.
pub open spec fn month_number(s: Seq<char>) -> Option<int> {
    if s == seq!['J', 'a', 'n'] {
        Some(1)
    } else if s == seq!['F', 'e', 'b'] {
        Some(2)
    } else if s == seq!['M', 'a', 'r'] {
        Some(3)
    } else if s == seq!['A', 'p', 'r'] {
        Some(4)
    } else if s == seq!['M', 'a', 'y'] {
        Some(5)
    } else if s == seq!['J', 'u', 'n'] {
        Some(6)
    } else if s == seq!['J', 'u', 'l'] {
        Some(7)
    } else if s == seq!['A', 'u', 'g'] {
        Some(8)
    } else if s == seq!['S', 'e', 'p'] {
        Some(9)
    } else if s == seq!['O', 'c', 't'] {
        Some(10)
    } else if s == seq!['N', 'o', 'v'] {
        Some(11)
    } else if s == seq!['D', 'e', 'c'] {
        Some(12)
    } else {
        None
    }
}

/// The value of a run of one to `max_len` decimal digits.
pub open spec fn plain_number(s: Seq<char>, max_len: nat) -> Option<nat> {
    if 0 < s.len() <= max_len && all_radix_digits(s, 10) {
        Some(digits_value(s, 10))
    } else {
        None
    }
}

/// Hour and minute of "H:MM" or "HH:MM".
pub open spec fn clock_time(s: Seq<char>) -> Option<(int, int)> {
    if (s.len() == 4 || s.len() == 5) && s[s.len() - 3] == ':' {
        match (plain_number(s.take(s.len() - 3), 2), plain_number(s.skip(s.len() - 2), 2)) {
            (Some(h), Some(m)) => if h < 24 && m < 60 {
                Some((h as int, m as int))
            } else {
                None
            },
            _ => None,
        }
    } else {
        None
    }
}

/// Modification time of a listing line from its month, day and time-or-year
/// fields: a time of day means the given current year, four digits mean that
/// year at midnight. Years before 1970 or after 9999, unknown months and days
/// outside the month give none.
pub open spec fn listing_mtime(month: Seq<char>, day: Seq<char>, when: Seq<char>, current_year: int) -> Option<u64> {
    match (month_number(month), plain_number(day, 2)) {
        (Some(mo), Some(d)) => {
            let (y, h, mi) = match clock_time(when) {
                Some((h, mi)) => (current_year, h, mi),
                None => match plain_number(when, 4) {
                    Some(y) => if when.len() == 4 {
                        (y as int, 0int, 0int)
                    } else {
                        (-1int, 0int, 0int)
                    },
                    None => (-1int, 0int, 0int),
                },
            };
            if 1970 <= y <= 9999 && 1 <= d <= days_in_month(y, mo) {
                Some(unix_seconds(y, mo, d as int, h, mi) as u64)
            } else {
                None
            }
        },
        _ => None,
    }
}

fn is_leap(y: u64) -> (r: bool)
    ensures
        r == is_leap_year(y as int),
{
    (y % 4 == 0 && y % 100 != 0) || y % 400 == 0
}

fn month_days(y: u64, m: u64) -> (r: u64)
    ensures
        r == days_in_month(y as int, m as int),
{
    if m == 2 {
        if is_leap(y) {
            29
        } else {
            28
        }
    } else if m == 4 || m == 6 || m == 9 || m == 11 {
        30
    } else {
        31
    }
}

/// Seconds since the epoch of a date and time of a year from 1970 to 9999.
fn seconds_since_epoch(y: u64, mo: u64, d: u64, h: u64, mi: u64) -> (r: u64)
    requires
        1970 <= y <= 9999,
        1 <= mo <= 12,
        1 <= d <= 31,
        h < 24,
        mi < 60,
    ensures
        r as int == unix_seconds(y as int, mo as int, d as int, h as int, mi as int),
{
    let mut days: u64 = 0;
    let mut k: u64 = 1970;
    while k < y
        invariant
            1970 <= k <= y <= 9999,
            days as int == days_before_year(k as int),
            days <= (k - 1970) * 366,
        decreases y - k,
    {
        days = days + if is_leap(k) {
            366
        } else {
            365
        };
        k = k + 1;
    }
    let mut m: u64 = 1;
    let mut md: u64 = 0;
    while m < mo
        invariant
            1 <= m <= mo <= 12,
            md as int == days_before_month(y as int, m as int),
            md <= (m - 1) * 31,
        decreases mo - m,
    {
        md = md + month_days(y, m);
        m = m + 1;
    }
    let total = days + md + d - 1;
    assert(total <= 3_000_000);
    total * 86400 + h * 3600 + mi * 60
}

/// The year (UTC) that `secs` seconds after the epoch fall in, for years
/// up to 9999; later instants count as 9999.
pub open spec fn year_of(secs: int, y: int) -> bool {
    &&& 1970 <= y <= 9999
    &&& days_before_year(y) * 86400 <= secs
    &&& y < 9999 ==> secs < days_before_year(y + 1) * 86400
}

/// The current year for listing dates, from the seconds since the epoch.
pub fn year_of_seconds(secs: u64) -> (r: u64)
    ensures
        year_of(secs as int, r as int),
{
    let mut y: u64 = 1970;
    let mut start: u64 = 0;
    while y < 9999
        invariant
            1970 <= y <= 9999,
            start as int == days_before_year(y as int) * 86400,
            start <= secs,
            start <= (y - 1970) * 366 * 86400,
        decreases 9999 - y,
    {
        let len: u64 = if is_leap(y) {
            366 * 86400
        } else {
            365 * 86400
        };
        if secs - start < len {
            return y;
        }
        start = start + len;
        y = y + 1;
    }
    y
}

/// The number written by `v[from..to]` when it is one to `max_len` decimal digits.
fn plain_number_exec(v: &Vec<char>, from: usize, to: usize, max_len: usize) -> (r: Option<u64>)
    requires
        from <= to <= v.len(),
        max_len <= 4,
    ensures
        r matches Some(n) ==> plain_number(v@.subrange(from as int, to as int), max_len as nat)
            == Some(n as nat),
        r is None ==> plain_number(v@.subrange(from as int, to as int), max_len as nat) is None,
{
    let ghost s = v@.subrange(from as int, to as int);
    if to == from || to - from > max_len {
        return None;
    }
    let mut acc: u64 = 0;
    let mut i = from;
    while i < to
        invariant
            from <= i <= to <= v.len(),
            to - from <= max_len <= 4,
            s == v@.subrange(from as int, to as int),
            acc as nat == digits_value(s.take(i - from), 10),
            all_radix_digits(s.take(i - from), 10),
            i - from == 0 ==> acc == 0,
            i - from == 1 ==> acc < 10,
            i - from == 2 ==> acc < 100,
            i - from == 3 ==> acc < 1000,
        decreases to - i,
    {
        let code = char_code(v[i]);
        assert(s[i - from] == v@[i as int]);
        if code < 48 || code >= 58 {
            assert(!is_radix_digit(s[i - from], 10));
            return None;
        }
        let ghost t = s.take(i - from + 1);
        assert(t.drop_last() == s.take(i - from));
        assert(all_radix_digits(t, 10)) by {
            assert forall|k: int| 0 <= k < t.len() implies is_radix_digit(#[trigger] t[k], 10) by {
                if k < t.len() - 1 {
                    assert(t[k] == s.take(i - from)[k]);
                }
            }
        }
        assert(i - from < 4);
        acc = acc * 10 + (code as u64 - 48);
        i = i + 1;
    }
    assert(s.take(i - from) == s);
    Some(acc)
}

/// The month number of `v[from..to]`.
fn month_of(v: &Vec<char>, from: usize, to: usize) -> (r: Option<u64>)
    requires
        from <= to <= v.len(),
    ensures
        r matches Some(n) ==> month_number(v@.subrange(from as int, to as int)) == Some(n as int),
        r is None ==> month_number(v@.subrange(from as int, to as int)) is None,
{
    let ghost s = v@.subrange(from as int, to as int);
    if to - from != 3 {
        assert(s.len() != 3);
        return None;
    }
    let a = v[from];
    let b = v[from + 1];
    let c = v[from + 2];
    assert(s[0] == a && s[1] == b && s[2] == c);
    let r: Option<u64> = if a == 'J' && b == 'a' && c == 'n' {
        Some(1)
    } else if a == 'F' && b == 'e' && c == 'b' {
        Some(2)
    } else if a == 'M' && b == 'a' && c == 'r' {
        Some(3)
    } else if a == 'A' && b == 'p' && c == 'r' {
        Some(4)
    } else if a == 'M' && b == 'a' && c == 'y' {
        Some(5)
    } else if a == 'J' && b == 'u' && c == 'n' {
        Some(6)
    } else if a == 'J' && b == 'u' && c == 'l' {
        Some(7)
    } else if a == 'A' && b == 'u' && c == 'g' {
        Some(8)
    } else if a == 'S' && b == 'e' && c == 'p' {
        Some(9)
    } else if a == 'O' && b == 'c' && c == 't' {
        Some(10)
    } else if a == 'N' && b == 'o' && c == 'v' {
        Some(11)
    } else if a == 'D' && b == 'e' && c == 'c' {
        Some(12)
    } else {
        None
    };
    proof {
        if r is Some {
            let m = r->0;
            if m == 1 {
                assert(s =~= seq!['J', 'a', 'n']);
            } else if m == 2 {
                assert(s =~= seq!['F', 'e', 'b']);
            } else if m == 3 {
                assert(s =~= seq!['M', 'a', 'r']);
            } else if m == 4 {
                assert(s =~= seq!['A', 'p', 'r']);
            } else if m == 5 {
                assert(s =~= seq!['M', 'a', 'y']);
            } else if m == 6 {
                assert(s =~= seq!['J', 'u', 'n']);
            } else if m == 7 {
                assert(s =~= seq!['J', 'u', 'l']);
            } else if m == 8 {
                assert(s =~= seq!['A', 'u', 'g']);
            } else if m == 9 {
                assert(s =~= seq!['S', 'e', 'p']);
            } else if m == 10 {
                assert(s =~= seq!['O', 'c', 't']);
            } else if m == 11 {
                assert(s =~= seq!['N', 'o', 'v']);
            } else {
                assert(s =~= seq!['D', 'e', 'c']);
            }
        } else {
            assert(s != seq!['J', 'a', 'n'] && s != seq!['F', 'e', 'b'] && s != seq!['M', 'a', 'r']);
            assert(s != seq!['A', 'p', 'r'] && s != seq!['M', 'a', 'y'] && s != seq!['J', 'u', 'n']);
            assert(s != seq!['J', 'u', 'l'] && s != seq!['A', 'u', 'g'] && s != seq!['S', 'e', 'p']);
            assert(s != seq!['O', 'c', 't'] && s != seq!['N', 'o', 'v'] && s != seq!['D', 'e', 'c']);
        }
    }
    r
}

/// Hour and minute written as "H:MM" or "HH:MM".
fn clock_of(w: &Vec<char>) -> (r: Option<(u64, u64)>)
    ensures
        r matches Some((h, m)) ==> clock_time(w@) == Some((h as int, m as int)),
        r is None ==> clock_time(w@) is None,
{
    let n = w.len();
    if !((n == 4 || n == 5) && w[n - 3] == ':') {
        return None;
    }
    let h = plain_number_exec(w, 0, n - 3, 2);
    let m = plain_number_exec(w, n - 2, n, 2);
    assert(w@.subrange(0, n - 3) == w@.take(n - 3));
    assert(w@.subrange(n - 2, n as int) == w@.skip(n - 2));
    match (h, m) {
        (Some(h), Some(m)) => if h < 24 && m < 60 {
            Some((h, m))
        } else {
            None
        },
        _ => None,
    }
}

/// Modification time of a listing line (see `listing_mtime`).
pub fn listing_time(month: &Vec<char>, day: &Vec<char>, when: &Vec<char>, current_year: u64) -> (r:
    Option<u64>)
    ensures
        r == listing_mtime(month@, day@, when@, current_year as int),
{
    let mo = month_of(month, 0, month.len());
    let d = plain_number_exec(day, 0, day.len(), 2);
    let wy = plain_number_exec(when, 0, when.len(), 4);
    assert(month@.subrange(0, month.len() as int) == month@);
    assert(day@.subrange(0, day.len() as int) == day@);
    assert(when@.subrange(0, when.len() as int) == when@);
    match (mo, d) {
        (Some(mo), Some(d)) => {
            let (y, h, mi): (u64, u64, u64) = match clock_of(when) {
                Some((h, mi)) => (current_year, h, mi),
                None => match wy {
                    Some(y) => if when.len() == 4 {
                        (y, 0, 0)
                    } else {
                        (0, 0, 0)
                    },
                    None => (0, 0, 0),
                },
            };
            if 1970 <= y && y <= 9999 && 1 <= d && d <= month_days(y, mo) {
                Some(seconds_since_epoch(y, mo, d, h, mi))
            } else {
                None
            }
        },
        _ => None,
    }
}

// ---------------------------------------------------------------------------
// Listing lines
// ---------------------------------------------------------------------------

/// The separator between a symlink's name and its target in a listing.
pub open spec fn arrow() -> Seq<char> {
    seq![' ', '-', '>', ' ']
}

/// What a unix-style listing line ("drwxr-xr-x 2 user group 4096 Jan 01 12:00
/// name") describes: none for lines with fewer than nine fields and for the
/// "." and ".." entries; the name is every field from the ninth on joined by
/// single spaces, cut before " -> " for symlinks; a size that is not a number
/// counts as 0.
pub open spec fn listing_entry(line: Seq<char>, current_year: int) -> Option<DirEntryView> {
    let parts = split_ws(line);
    if parts.len() < 9 {
        None
    } else {
        let perms = parts[0];
        let is_dir = starts_with_char(perms, 'd');
        let is_symlink = starts_with_char(perms, 'l');
        let name = join(parts.skip(8), seq![' ']);
        if name == seq!['.'] || name == seq!['.', '.'] {
            None
        } else {
            let clean = if is_symlink {
                before_first(name, arrow())
            } else {
                name
            };
            let mode = perm_mode(perms);
            Some(
                DirEntryView {
                    name: clean,
                    info: FileInfoView {
                        name: clean,
                        is_dir,
                        is_file: !is_dir && !is_symlink,
                        is_symlink,
                        size: match parse_unsigned(parts[4], 10, u64::MAX as nat) {
                            Some(n) => n as u64,
                            None => 0,
                        },
                        modified: listing_mtime(parts[5], parts[6], parts[7], current_year),
                        readonly: mode_readonly(mode),
                        mode,
                    },
                },
            )
        }
    }
}

/// Parses a unix-style listing line, as FTP `LIST` and `ls -la` print them.
/// `current_year` dates the lines that give a time of day instead of a year.
pub fn parse_list_line(line: &str, current_year: u64) -> (r: Option<DirEntry>)
    ensures
        r matches Some(e) ==> listing_entry(line@, current_year as int) == Some(e@),
        r is None ==> listing_entry(line@, current_year as int) is None,
{
    let chars = chars_of(line);
    let parts = split_whitespace_chars(&chars);
    let ghost ps = views(parts@);
    if parts.len() < 9 {
        return None;
    }
    assert(ps[0] == parts@[0]@ && ps[4] == parts@[4]@ && ps[5] == parts@[5]@);
    assert(ps[6] == parts@[6]@ && ps[7] == parts@[7]@);
    let perms = &parts[0];
    let is_dir = perms.len() > 0 && perms[0] == 'd';
    let is_symlink = perms.len() > 0 && perms[0] == 'l';
    let mut sep: Vec<char> = Vec::new();
    sep.push(' ');
    assert(sep@ =~= seq![' ']);
    let name = join_from(&parts, 8, &sep);
    if (name.len() == 1 && name[0] == '.') || (name.len() == 2 && name[0] == '.' && name[1] == '.') {
        proof {
            if name.len() == 1 {
                assert(name@ =~= seq!['.']);
            } else {
                assert(name@ =~= seq!['.', '.']);
            }
        }
        return None;
    }
    assert(name@ != seq!['.'] && name@ != seq!['.', '.']) by {
        if name@ == seq!['.'] {
            assert(name@.len() == 1 && name@[0] == '.');
        }
        if name@ == seq!['.', '.'] {
            assert(name@.len() == 2 && name@[0] == '.' && name@[1] == '.');
        }
    }
    let clean_chars: Vec<char> = if is_symlink {
        let mut arrow_chars: Vec<char> = Vec::new();
        arrow_chars.push(' ');
        arrow_chars.push('-');
        arrow_chars.push('>');
        arrow_chars.push(' ');
        assert(arrow_chars@ =~= arrow());
        match find_chars(&name, &arrow_chars) {
            Some(p) => {
                proof {
                    lemma_find_from(name@, arrow(), 0);
                }
                let mut out: Vec<char> = Vec::new();
                let mut i: usize = 0;
                while i < p
                    invariant
                        i <= p <= name.len(),
                        out@ == name@.take(i as int),
                    decreases p - i,
                {
                    out.push(name[i]);
                    i = i + 1;
                    assert(out@ == name@.take(i as int));
                }
                out
            },
            None => name,
        }
    } else {
        name
    };
    let size_str = string_of(&parts[4]);
    let size = match parse_unsigned_str(size_str.as_str(), 10, u64::MAX) {
        Some(n) => n,
        None => 0,
    };
    let mode = parse_perm_mode(perms);
    let modified = listing_time(&parts[5], &parts[6], &parts[7], current_year);
    let clean = string_of(&clean_chars);
    let info = FileInfo {
        name: clean.clone(),
        is_dir,
        is_file: !is_dir && !is_symlink,
        is_symlink,
        size,
        modified,
        readonly: readonly_of(mode),
        mode,
    };
    Some(DirEntry { name: clean, info })
}

// ---------------------------------------------------------------------------
// SSH fallback: shell quoting, commands and replies
// ---------------------------------------------------------------------------

/// `s` with every single quote written as `'\''`.
pub open spec fn escape_quotes(s: Seq<char>) -> Seq<char>
    decreases s.len(),
{
    if s.len() == 0 {
        seq![]
    } else if s.last() == '\'' {
        escape_quotes(s.drop_last()) + seq!['\'', '\\', '\'', '\'']
    } else {
        escape_quotes(s.drop_last()).push(s.last())
    }
}

/// `s` quoted for a POSIX shell: wrapped in single quotes, inner single
/// quotes closed, escaped and reopened.
pub open spec fn shell_quoted(s: Seq<char>) -> Seq<char> {
    seq!['\''] + escape_quotes(s) + seq!['\'']
}

/// Shell-escapes a path for use in SSH commands.
pub fn shell_escape(s: &str) -> (r: String)
    ensures
        r@ == shell_quoted(s@),
{
    let v = chars_of(s);
    let mut out: Vec<char> = Vec::new();
    out.push('\'');
    let mut i: usize = 0;
    while i < v.len()
        invariant
            i <= v.len(),
            out@ == seq!['\''] + escape_quotes(v@.take(i as int)),
        decreases v.len() - i,
    {
        let ghost before = out@;
        assert(v@.take(i + 1).drop_last() == v@.take(i as int));
        if v[i] == '\'' {
            out.push('\'');
            out.push('\\');
            out.push('\'');
            out.push('\'');
            assert(out@ =~= before + seq!['\'', '\\', '\'', '\'']);
        } else {
            out.push(v[i]);
        }
        i = i + 1;
    }
    assert(v@.take(v.len() as int) == v@);
    out.push('\'');
    string_of(&out)
}

/// The commands the SSH fallback runs.
pub enum ScpCommand {
    List { path: String },
    Stat { path: String },
    Exists { path: String },
    Canonicalize { path: String },
    MakeDir { path: String },
    Touch { path: String },
    Remove { path: String },
    RemoveAll { path: String },
    Move { from: String, to: String },
    Copy { from: String, to: String },
    CopyAll { from: String, to: String },
    Chmod { path: String, mode: u32 },
}

/// The shell command line for each command.
pub open spec fn scp_command_text(c: ScpCommand) -> Seq<char> {
    match c {
        ScpCommand::List { path } => "ls -la "@ + shell_quoted(path@),
        ScpCommand::Stat { path } => "stat --format='%s %F %a' "@ + shell_quoted(path@)
            + " 2>/dev/null || echo 'NOTFOUND'"@,
        ScpCommand::Exists { path } => "test -e "@ + shell_quoted(path@) + " && echo 1 || echo 0"@,
        ScpCommand::Canonicalize { path } => "readlink -f "@ + shell_quoted(path@)
            + " 2>/dev/null || echo "@ + shell_quoted(path@),
        ScpCommand::MakeDir { path } => "mkdir -p "@ + shell_quoted(path@),
        ScpCommand::Touch { path } => "touch "@ + shell_quoted(path@),
        ScpCommand::Remove { path } => "rm "@ + shell_quoted(path@),
        ScpCommand::RemoveAll { path } => "rm -rf "@ + shell_quoted(path@),
        ScpCommand::Move { from, to } => "mv "@ + shell_quoted(from@) + " "@ + shell_quoted(to@),
        ScpCommand::Copy { from, to } => "cp "@ + shell_quoted(from@) + " "@ + shell_quoted(to@),
        ScpCommand::CopyAll { from, to } => "cp -r "@ + shell_quoted(from@) + " "@ + shell_quoted(
            to@,
        ),
        ScpCommand::Chmod { path, mode } => "chmod "@ + octal(mode as nat) + " "@ + shell_quoted(
            path@,
        ),
    }
}

/// The shell command line of an SSH fallback command.
pub fn scp_command_line(c: &ScpCommand) -> (r: String)
    ensures
        r@ == scp_command_text(*c),
{
    match c {
        ScpCommand::List { path } => concat("ls -la ", shell_escape(path.as_str()).as_str()),
        ScpCommand::Stat { path } => concat3(
            "stat --format='%s %F %a' ",
            shell_escape(path.as_str()).as_str(),
            " 2>/dev/null || echo 'NOTFOUND'",
        ),
        ScpCommand::Exists { path } => concat3(
            "test -e ",
            shell_escape(path.as_str()).as_str(),
            " && echo 1 || echo 0",
        ),
        ScpCommand::Canonicalize { path } => {
            let q = shell_escape(path.as_str());
            let a = concat3("readlink -f ", q.as_str(), " 2>/dev/null || echo ");
            concat(a.as_str(), q.as_str())
        },
        ScpCommand::MakeDir { path } => concat("mkdir -p ", shell_escape(path.as_str()).as_str()),
        ScpCommand::Touch { path } => concat("touch ", shell_escape(path.as_str()).as_str()),
        ScpCommand::Remove { path } => concat("rm ", shell_escape(path.as_str()).as_str()),
        ScpCommand::RemoveAll { path } => concat("rm -rf ", shell_escape(path.as_str()).as_str()),
        ScpCommand::Move { from, to } => {
            let a = concat3("mv ", shell_escape(from.as_str()).as_str(), " ");
            concat(a.as_str(), shell_escape(to.as_str()).as_str())
        },
        ScpCommand::Copy { from, to } => {
            let a = concat3("cp ", shell_escape(from.as_str()).as_str(), " ");
            concat(a.as_str(), shell_escape(to.as_str()).as_str())
        },
        ScpCommand::CopyAll { from, to } => {
            let a = concat3("cp -r ", shell_escape(from.as_str()).as_str(), " ");
            concat(a.as_str(), shell_escape(to.as_str()).as_str())
        },
        ScpCommand::Chmod { path, mode } => {
            let m = octal_string(*mode as u64);
            let a = concat3("chmod ", m.as_str(), " ");
            concat(a.as_str(), shell_escape(path.as_str()).as_str())
        },
    }
}

/// An error of the SSH fallback: "SCP <operation>: <cause>".
pub fn scp_err(op: &str, e: &str) -> (r: String)
    ensures
        r@ == "SCP "@ + op@ + ": "@ + e@,
{
    let a = concat3("SCP ", op, ": ");
    concat(a.as_str(), e)
}

/// The fields of `t` split at its first two spaces (std's `splitn(3, ' ')`).
pub open spec fn split3_space(t: Seq<char>) -> Seq<Seq<char>> {
    match find_from(t, seq![' '], 0) {
        None => seq![t],
        Some(p1) => {
            let rest = t.skip(p1 + 1);
            match find_from(rest, seq![' '], 0) {
                None => seq![t.take(p1), rest],
                Some(p2) => seq![t.take(p1), rest.take(p2), rest.skip(p2 + 1)],
            }
        },
    }
}

/// What the fallback learns from `stat --format='%s %F %a'` (or `NOTFOUND`)
/// about `path`: the first field is the size (0 when not a number), the second
/// the file type, the rest the octal mode; the type counts as a directory or
/// a symlink when it contains "directory" or "symbolic".
pub open spec fn stat_reply_info(path: Seq<char>, output: Seq<char>) -> Result<FileInfoView, Seq<char>> {
    let t = trim_ws(output);
    if t == "NOTFOUND"@ || t.len() == 0 {
        Err("File not found"@)
    } else {
        let f = split3_space(t);
        let ty = if f.len() > 1 {
            f[1]
        } else {
            seq![]
        };
        let ms = if f.len() > 2 {
            f[2]
        } else {
            seq![]
        };
        let is_dir = contains_seq(ty, "directory"@);
        let is_symlink = contains_seq(ty, "symbolic"@);
        let mode = match parse_unsigned(ms, 8, u32::MAX as nat) {
            Some(m) => Some(m as u32),
            None => None,
        };
        Ok(
            FileInfoView {
                name: match std_path_file_name(path) {
                    Some(n) => n,
                    None => seq![],
                },
                is_dir,
                is_file: !is_dir && !is_symlink,
                is_symlink,
                size: match parse_unsigned(f[0], 10, u64::MAX as nat) {
                    Some(n) => n as u64,
                    None => 0,
                },
                modified: None,
                readonly: mode_readonly(mode),
                mode,
            },
        )
    }
}

/// Splits `t` at its first two spaces.
fn split3_space_exec(t: &Vec<char>) -> (r: Vec<Vec<char>>)
    ensures
        views(r@) == split3_space(t@),
        1 <= r.len() <= 3,
{
    let mut sp: Vec<char> = Vec::new();
    sp.push(' ');
    assert(sp@ =~= seq![' ']);
    let mut out: Vec<Vec<char>> = Vec::new();
    proof {
        lemma_find_from(t@, seq![' '], 0);
    }
    match find_chars(t, &sp) {
        None => {
            out.push(t.clone());
            assert(views(out@) =~= seq![t@]);
        },
        Some(p1) => {
            let first = copy_range(t, 0, p1);
            assert(p1 < t.len());
            let rest = copy_range(t, p1 + 1, t.len());
            assert(rest@ == t@.skip(p1 + 1));
            assert(first@ == t@.take(p1 as int));
            proof {
                lemma_find_from(rest@, seq![' '], 0);
            }
            match find_chars(&rest, &sp) {
                None => {
                    out.push(first);
                    out.push(rest);
                    assert(views(out@) =~= seq![t@.take(p1 as int), t@.skip(p1 + 1)]);
                },
                Some(p2) => {
                    let second = copy_range(&rest, 0, p2);
                    let third = copy_range(&rest, p2 + 1, rest.len());
                    assert(second@ == rest@.take(p2 as int));
                    assert(third@ == rest@.skip(p2 + 1));
                    out.push(first);
                    out.push(second);
                    out.push(third);
                    assert(views(out@) =~= seq![t@.take(p1 as int), rest@.take(p2 as int), rest@.skip(p2 + 1)]);
                },
            }
        },
    }
    out
}

/// A copy of `v[from..to]`.
pub fn copy_range(v: &Vec<char>, from: usize, to: usize) -> (r: Vec<char>)
    requires
        from <= to <= v.len(),
    ensures
        r@ == v@.subrange(from as int, to as int),
{
    let mut w: Vec<char> = Vec::new();
    let mut i = from;
    while i < to
        invariant
            from <= i <= to <= v.len(),
            w@ == v@.subrange(from as int, i as int),
        decreases to - i,
    {
        w.push(v[i]);
        i = i + 1;
        assert(w@ == v@.subrange(from as int, i as int));
    }
    w
}

/// Reads the reply of the fallback's `stat` command for `path`.
pub fn parse_stat_reply(path: &str, output: &str) -> (r: Result<FileInfo, String>)
    ensures
        r matches Ok(i) ==> stat_reply_info(path@, output@) == Ok::<FileInfoView, Seq<char>>(i@),
        r matches Err(e) ==> stat_reply_info(path@, output@) == Err::<FileInfoView, Seq<char>>(e@),
{
    let t = trim_whitespace(output);
    let ts = string_of(&t);
    proof {
        reveal_strlit("NOTFOUND");
        reveal_strlit("File not found");
    }
    let is_notfound = t.len() == 8 && t[0] == 'N' && t[1] == 'O' && t[2] == 'T' && t[3] == 'F'
        && t[4] == 'O' && t[5] == 'U' && t[6] == 'N' && t[7] == 'D';
    assert(is_notfound == (t@ == "NOTFOUND"@)) by {
        if t@ == "NOTFOUND"@ {
            assert(t@.len() == 8);
        }
        if is_notfound {
            assert(t@ =~= "NOTFOUND"@);
        }
    }
    if is_notfound || t.len() == 0 {
        return Err(owned("File not found"));
    }
    let f = split3_space_exec(&t);
    assert(views(f@)[0] == f@[0]@);
    let empty: Vec<char> = Vec::new();
    let ty: &Vec<char> = if f.len() > 1 {
        assert(views(f@)[1] == f@[1]@);
        &f[1]
    } else {
        &empty
    };
    let ms: &Vec<char> = if f.len() > 2 {
        assert(views(f@)[2] == f@[2]@);
        &f[2]
    } else {
        &empty
    };
    let ty_s = string_of(ty);
    let ms_s = string_of(ms);
    let size_s = string_of(&f[0]);
    let is_dir = str_contains(ty_s.as_str(), "directory");
    let is_symlink = str_contains(ty_s.as_str(), "symbolic");
    let mode = match parse_unsigned_str(ms_s.as_str(), 8, 0xFFFF_FFFF) {
        Some(m) => Some(m as u32),
        None => None,
    };
    let size = match parse_unsigned_str(size_s.as_str(), 10, u64::MAX) {
        Some(n) => n,
        None => 0,
    };
    let name = match native_file_name(path) {
        Some(n) => n,
        None => String::new(),
    };
    Ok(
        FileInfo {
            name,
            is_dir,
            is_file: !is_dir && !is_symlink,
            is_symlink,
            size,
            modified: None,
            readonly: readonly_of(mode),
            mode,
        },
    )
}

/// The fallback's existence test answers "1" (surrounding whitespace aside) for an existing path.
pub fn exists_reply(output: &str) -> (r: bool)
    ensures
        r == (trim_ws(output@) == seq!['1']),
{
    let t = trim_whitespace(output);
    let r = t.len() == 1 && t[0] == '1';
    assert(r == (t@ == seq!['1'])) by {
        if r {
            assert(t@ =~= seq!['1']);
        }
    }
    r
}

/// The fallback's `readlink -f` answer (trimmed), or the path itself when the answer is empty.
pub fn canonical_reply(path: &str, output: &str) -> (r: String)
    ensures
        trim_ws(output@).len() == 0 ==> r@ == path@,
        trim_ws(output@).len() > 0 ==> r@ == trim_ws(output@),
{
    let t = trim_whitespace(output);
    if t.len() == 0 {
        owned(path)
    } else {
        string_of(&t)
    }
}

// ---------------------------------------------------------------------------
// SFTP attributes
// ---------------------------------------------------------------------------

/// The file-type bits of a unix mode (S_IFMT).
pub open spec fn file_type_bits(perm: Option<u32>) -> u32 {
    match perm {
        Some(p) => p & 0o170000u32,
        None => 0,
    }
}

/// What SFTP attributes say of an entry: the type from the S_IFMT bits of
/// the permissions (directory 0o040000, regular file 0o100000, symlink
/// 0o120000), the size (0 when absent), the modification time, read-only when
/// the owner-write bit is clear.
pub open spec fn sftp_info(name: Seq<char>, size: Option<u64>, perm: Option<u32>, mtime: Option<u64>) -> FileInfoView {
    FileInfoView {
        name,
        is_dir: file_type_bits(perm) == 0o040000u32,
        is_file: file_type_bits(perm) == 0o100000u32,
        is_symlink: file_type_bits(perm) == 0o120000u32,
        size: match size {
            Some(n) => n,
            None => 0,
        },
        modified: mtime,
        readonly: mode_readonly(perm),
        mode: perm,
    }
}

/// Builds the metadata of an entry from its SFTP attributes.
pub fn file_info_from_attrs(name: &str, size: Option<u64>, perm: Option<u32>, mtime: Option<u64>) -> (r: FileInfo)
    ensures
        r@ == sftp_info(name@, size, perm, mtime),
{
    let kind: u32 = match perm {
        Some(p) => p & 0o170000u32,
        None => 0,
    };
    FileInfo {
        name: owned(name),
        is_dir: kind == 0o040000u32,
        is_file: kind == 0o100000u32,
        is_symlink: kind == 0o120000u32,
        size: match size {
            Some(n) => n,
            None => 0,
        },
        modified: mtime,
        readonly: readonly_of(perm),
        mode: perm,
    }
}

/// What an SFTP listing shows: every entry but "." and "..", in order,
/// described by its attributes (size, permissions, modification time).
pub open spec fn sftp_listing(raw: Seq<(Seq<char>, Option<u64>, Option<u32>, Option<u64>)>) -> Seq<DirEntryView>
    decreases raw.len(),
{
    if raw.len() == 0 {
        seq![]
    } else {
        let rest = sftp_listing(raw.drop_last());
        let (name, size, perm, mtime) = raw.last();
        if name == seq!['.'] || name == seq!['.', '.'] {
            rest
        } else {
            rest.push(DirEntryView { name, info: sftp_info(name, size, perm, mtime) })
        }
    }
}

/// The raw entries as plain values.
pub open spec fn raw_views(raw: Seq<(String, Option<u64>, Option<u32>, Option<u64>)>) -> Seq<(Seq<char>, Option<u64>, Option<u32>, Option<u64>)> {
    Seq::new(raw.len(), |i: int| (raw[i].0@, raw[i].1, raw[i].2, raw[i].3))
}

/// The entries of an SFTP directory from the names and attributes the
/// server sent: "." and ".." are left out.
pub fn sftp_entries(raw: &Vec<(String, Option<u64>, Option<u32>, Option<u64>)>) -> (r: Vec<DirEntry>)
    ensures
        crate::backend::entry_views(r@) == sftp_listing(raw_views(raw@)),
{
    let ghost rv = raw_views(raw@);
    let mut out: Vec<DirEntry> = Vec::new();
    let mut i: usize = 0;
    assert(crate::backend::entry_views(out@) =~= sftp_listing(rv.take(0)));
    while i < raw.len()
        invariant
            i <= raw.len(),
            rv == raw_views(raw@),
            crate::backend::entry_views(out@) == sftp_listing(rv.take(i as int)),
        decreases raw.len() - i,
    {
        let ghost t = rv.take(i + 1);
        assert(t.drop_last() == rv.take(i as int));
        assert(t.last() == rv[i as int]);
        let name = &raw[i].0;
        let v = chars_of(name.as_str());
        let dot = (v.len() == 1 && v[0] == '.') || (v.len() == 2 && v[0] == '.' && v[1] == '.');
        proof {
            if v.len() == 1 && v[0] == '.' {
                assert(v@ =~= seq!['.']);
            }
            if v.len() == 2 && v[0] == '.' && v[1] == '.' {
                assert(v@ =~= seq!['.', '.']);
            }
            if v@ == seq!['.'] || v@ == seq!['.', '.'] {
                assert(dot);
            }
        }
        if !dot {
            let info = file_info_from_attrs(name.as_str(), raw[i].1, raw[i].2, raw[i].3);
            let ghost before = crate::backend::entry_views(out@);
            out.push(DirEntry { name: name.clone(), info });
            assert(crate::backend::entry_views(out@) =~= before.push(
                DirEntryView { name: name@, info: sftp_info(name@, raw[i as int].1, raw[i as int].2, raw[i as int].3) },
            ));
        }
        i = i + 1;
    }
    assert(rv.take(i as int) == rv);
    out
}

/// The entries that a list of listing lines describes, in order; lines
/// that describe none are skipped.
pub open spec fn listing_entries(lines: Seq<Seq<char>>, current_year: int) -> Seq<DirEntryView>
    decreases lines.len(),
{
    if lines.len() == 0 {
        seq![]
    } else {
        let rest = listing_entries(lines.drop_last(), current_year);
        match listing_entry(lines.last(), current_year) {
            Some(e) => rest.push(e),
            None => rest,
        }
    }
}

/// Parses listing lines (FTP `LIST` replies, `ls -la` output) into entries.
pub fn parse_list_lines(lines: &Vec<String>, current_year: u64) -> (r: Vec<DirEntry>)
    ensures
        crate::backend::entry_views(r@) == listing_entries(lines.deep_view(), current_year as int),
{
    let mut out: Vec<DirEntry> = Vec::new();
    let mut i: usize = 0;
    assert(crate::backend::entry_views(out@) =~= listing_entries(lines.deep_view().take(0), current_year as int));
    while i < lines.len()
        invariant
            i <= lines.len(),
            crate::backend::entry_views(out@) == listing_entries(lines.deep_view().take(i as int), current_year as int),
        decreases lines.len() - i,
    {
        let ghost t = lines.deep_view().take(i + 1);
        assert(t.drop_last() == lines.deep_view().take(i as int));
        assert(t.last() == lines@[i as int]@);
        match parse_list_line(lines[i].as_str(), current_year) {
            Some(e) => {
                let ghost before = crate::backend::entry_views(out@);
                let ghost ev = e@;
                out.push(e);
                assert(crate::backend::entry_views(out@) =~= before.push(ev));
            },
            None => {},
        }
        i = i + 1;
    }
    assert(lines.deep_view().take(i as int) == lines.deep_view());
    out
}

/// A line without its trailing carriage return.
pub open spec fn strip_cr(s: Seq<char>) -> Seq<char> {
    if s.len() > 0 && s.last() == '\r' {
        s.drop_last()
    } else {
        s
    }
}

/// Position of the first line feed in `s`.
pub open spec fn first_newline(s: Seq<char>) -> Option<int>
    decreases s.len(),
{
    if s.len() == 0 {
        None
    } else if s[0] == '\n' {
        Some(0)
    } else {
        match first_newline(s.drop_first()) {
            Some(i) => Some(i + 1),
            None => None,
        }
    }
}

/// The lines of a text as std's `str::lines` yields them: split at line
/// feeds, a carriage return just before a line feed dropped with it; a
/// final line feed does not start another line.
pub open spec fn text_lines(s: Seq<char>) -> Seq<Seq<char>>
    decreases s.len(),
{
    if s.len() == 0 {
        seq![]
    } else {
        match first_newline(s) {
            Some(i) => {
                proof {
                    lemma_first_newline_in_range(s);
                }
                seq![strip_cr(s.take(i))] + text_lines(s.skip(i + 1))
            },
            None => seq![s],
        }
    }
}

pub proof fn lemma_first_newline_in_range(s: Seq<char>)
    ensures
        first_newline(s) matches Some(i) ==> 0 <= i < s.len() && s[i] == '\n',
    decreases s.len(),
{
    if s.len() > 0 && s[0] != '\n' {
        lemma_first_newline_in_range(s.drop_first());
    }
}

proof fn lemma_first_newline(s: Seq<char>, k: int)
    requires
        0 <= k <= s.len(),
        forall|j: int| 0 <= j < k ==> s[j] != '\n',
    ensures
        k < s.len() && s[k] == '\n' ==> first_newline(s) == Some(k),
        k == s.len() ==> first_newline(s) is None,
        first_newline(s) matches Some(i) ==> i >= k,
    decreases k,
{
    if k > 0 {
        lemma_first_newline(s.drop_first(), k - 1);
    } else if s.len() > 0 && s[0] != '\n' {
        lemma_first_newline_none_before(s.drop_first());
    }
}

proof fn lemma_first_newline_none_before(s: Seq<char>)
    ensures
        first_newline(s) matches Some(i) ==> i >= 0,
    decreases s.len(),
{
    if s.len() > 0 && s[0] != '\n' {
        lemma_first_newline_none_before(s.drop_first());
    }
}

/// Splits a text into lines as std's `str::lines` does.
pub fn split_lines(text: &str) -> (r: Vec<String>)
    ensures
        r.deep_view() == text_lines(text@),
{
    let v = chars_of(text);
    let mut out: Vec<String> = Vec::new();
    let mut start: usize = 0;
    let mut k: usize = 0;
    assert(v@.skip(0) == v@);
    assert(out.deep_view() =~= Seq::<Seq<char>>::empty());
    while start < v.len()
        invariant
            start <= v.len(),
            out.deep_view() + text_lines(v@.skip(start as int)) == text_lines(v@),
        decreases v.len() - start,
    {
        let ghost rest = v@.skip(start as int);
        k = start;
        while k < v.len() && v[k] != '\n'
            invariant
                start <= k <= v.len(),
                rest == v@.skip(start as int),
                forall|j: int| 0 <= j < k - start ==> rest[j] != '\n',
            decreases v.len() - k,
        {
            k = k + 1;
        }
        proof {
            lemma_first_newline(rest, k - start);
        }
        let mut end = k;
        if k < v.len() && end > start && v[end - 1] == '\r' {
            end = end - 1;
        }
        let line = crate::backend::substring(&v, start, end);
        proof {
            if k < v.len() {
                assert(rest.take(k - start) =~= v@.subrange(start as int, k as int));
            } else {
                assert(rest =~= v@.subrange(start as int, k as int));
            }
            if k < v.len() {
                assert(line@ == strip_cr(v@.subrange(start as int, k as int)));
            } else {
                assert(line@ == v@.subrange(start as int, k as int));
            }
        }
        let ghost before = out.deep_view();
        out.push(line);
        assert(out.deep_view() =~= before.push(line@));
        if k < v.len() {
            assert(rest.skip(k - start + 1) =~= v@.skip(k + 1));
            start = k + 1;
        } else {
            assert(v@.skip(v.len() as int) =~= Seq::<char>::empty());
            start = k;
        }
        assert(out.deep_view() + text_lines(v@.skip(start as int)) =~= before + text_lines(rest));
    }
    assert(v@.skip(start as int) =~= Seq::<char>::empty());
    assert(out.deep_view() + Seq::<Seq<char>>::empty() =~= out.deep_view());
    out
}

} // verus!
