//! The directory-listing formatter: `ls -l`-style lines with Unix permission
//! strings and a date field computed on the proleptic Gregorian calendar.

use vstd::prelude::*;

use crate::text::{dec, decimal, pad_left, push_decimal, push_padded};

verus! {

/// `c` where the bit is set, `-` where it is not.
pub open spec fn flag(set: bool, c: char) -> char {
    if set { c } else { '-' }
}

/// The ten-character permission string: the entry type, then read, write
/// and execute for owner, group and others.
pub open spec fn perm_text(is_dir: bool, mode: u32) -> Seq<char> {
    seq![
        flag(is_dir, 'd'),
        flag(mode & 0o400 != 0, 'r'),
        flag(mode & 0o200 != 0, 'w'),
        flag(mode & 0o100 != 0, 'x'),
        flag(mode & 0o040 != 0, 'r'),
        flag(mode & 0o020 != 0, 'w'),
        flag(mode & 0o010 != 0, 'x'),
        flag(mode & 0o004 != 0, 'r'),
        flag(mode & 0o002 != 0, 'w'),
        flag(mode & 0o001 != 0, 'x'),
    ]
}

fn push_flag(out: &mut String, set: bool, c: char)
    requires
        c == 'd' || c == 'r' || c == 'w' || c == 'x',
    ensures
        final(out)@ == old(out)@.push(flag(set, c)),
{
    proof {
        reveal_strlit("-");
        reveal_strlit("d");
        reveal_strlit("r");
        reveal_strlit("w");
        reveal_strlit("x");
    }
    let s = if !set {
        "-"
    } else if c == 'd' {
        "d"
    } else if c == 'r' {
        "r"
    } else if c == 'w' {
        "w"
    } else {
        "x"
    };
    out.append(s);
    assert(final(out)@ =~= old(out)@.push(flag(set, c)));
}

/// Formats file permissions in Unix format (e.g., drwxr-xr-x) from the mode
/// bits.
pub fn format_unix_permissions(is_dir: bool, mode: u32) -> (r: String)
    ensures
        r@ == perm_text(is_dir, mode),
{
    let mut p = String::new();
    push_flag(&mut p, is_dir, 'd');
    push_flag(&mut p, mode & 0o400 != 0, 'r');
    push_flag(&mut p, mode & 0o200 != 0, 'w');
    push_flag(&mut p, mode & 0o100 != 0, 'x');
    push_flag(&mut p, mode & 0o040 != 0, 'r');
    push_flag(&mut p, mode & 0o020 != 0, 'w');
    push_flag(&mut p, mode & 0o010 != 0, 'x');
    push_flag(&mut p, mode & 0o004 != 0, 'r');
    push_flag(&mut p, mode & 0o002 != 0, 'w');
    push_flag(&mut p, mode & 0o001 != 0, 'x');
    assert(p@ =~= perm_text(is_dir, mode));
    p
}

/// A leap year of the Gregorian calendar.
pub open spec fn is_leap(y: nat) -> bool {
    (y % 4 == 0 && y % 100 != 0) || y % 400 == 0
}

/// The number of days of year `y`.
pub open spec fn year_len(y: nat) -> nat {
    if is_leap(y) { 366 } else { 365 }
}

/// The number of days of month `m` (0 for January) of year `y`.
pub open spec fn month_len(y: nat, m: nat) -> nat {
    if m == 1 {
        if is_leap(y) { 29 } else { 28 }
    } else if m == 3 || m == 5 || m == 8 || m == 10 {
        30
    } else {
        31
    }
}

/// The year and the day within it (from 0) that lie `days` days after the
/// first of January of year `y`.
pub open spec fn year_day(y: nat, days: nat) -> (nat, nat)
    decreases days,
{
    if days < year_len(y) {
        (y, days)
    } else {
        year_day(y + 1, (days - year_len(y)) as nat)
    }
}

/// The month (from 0) and the day within it (from 0) of day `d` of year
/// `y`, counting from month `m`.
pub open spec fn month_day(y: nat, m: nat, d: nat) -> (nat, nat)
    decreases 12 - m,
{
    if m >= 11 || d < month_len(y, m) {
        (m, d)
    } else {
        month_day(y, m + 1, (d - month_len(y, m)) as nat)
    }
}

/// The three-letter name of month `m` (from 0).
pub open spec fn month_name(m: nat) -> Seq<char> {
    if m == 0 { "Jan"@ }
    else if m == 1 { "Feb"@ }
    else if m == 2 { "Mar"@ }
    else if m == 3 { "Apr"@ }
    else if m == 4 { "May"@ }
    else if m == 5 { "Jun"@ }
    else if m == 6 { "Jul"@ }
    else if m == 7 { "Aug"@ }
    else if m == 8 { "Sep"@ }
    else if m == 9 { "Oct"@ }
    else if m == 10 { "Nov"@ }
    else { "Dec"@ }
}

/// Six months of 30 days, in seconds.
pub const SIX_MONTHS: u64 = 15552000;

/// A modification time `t` is recent at time `now` when it is not in the
/// future and at most six months old.
pub open spec fn is_recent(t: u64, now: u64) -> bool {
    t <= now && now - t <= SIX_MONTHS
}

/// `n` in two digits, with a leading zero.
pub open spec fn two_digits(n: nat) -> Seq<char> {
    if n < 10 { seq!['0'] + dec(n) } else { dec(n) }
}

/// The date field of a listing line for modification time `t` (seconds
/// since the Unix epoch) at time `now`: `Mon DD HH:MM` for a recent time,
/// `Mon DD  YYYY` otherwise.
pub open spec fn timestamp_text(t: u64, now: u64) -> Seq<char> {
    let yd = year_day(1970, (t / 86400) as nat);
    let md = month_day(yd.0, 0, yd.1);
    let head = month_name(md.0) + seq![' '] + pad_left(dec(md.1 + 1), 2);
    if is_recent(t, now) {
        head + seq![' '] + two_digits(((t / 3600) % 24) as nat) + seq![':'] + two_digits(
            ((t / 60) % 60) as nat,
        )
    } else {
        head + seq![' ', ' '] + pad_left(dec(yd.0), 4)
    }
}

fn leap(y: u64) -> (r: bool)
    ensures
        r == is_leap(y as nat),
{
    (y % 4 == 0 && y % 100 != 0) || y % 400 == 0
}

fn year_days(y: u64) -> (r: u64)
    ensures
        r == year_len(y as nat),
{
    if leap(y) { 366 } else { 365 }
}

fn month_days(y: u64, m: u64) -> (r: u64)
    ensures
        r == month_len(y as nat, m as nat),
{
    if m == 1 {
        if leap(y) { 29 } else { 28 }
    } else if m == 3 || m == 5 || m == 8 || m == 10 {
        30
    } else {
        31
    }
}

fn month_str(m: u64) -> (r: &'static str)
    ensures
        r@ == month_name(m as nat),
{
    if m == 0 { "Jan" }
    else if m == 1 { "Feb" }
    else if m == 2 { "Mar" }
    else if m == 3 { "Apr" }
    else if m == 4 { "May" }
    else if m == 5 { "Jun" }
    else if m == 6 { "Jul" }
    else if m == 7 { "Aug" }
    else if m == 8 { "Sep" }
    else if m == 9 { "Oct" }
    else if m == 10 { "Nov" }
    else { "Dec" }
}

fn push_two_digits(out: &mut String, n: u64)
    ensures
        final(out)@ == old(out)@ + two_digits(n as nat),
{
    if n < 10 {
        proof {
            reveal_strlit("0");
        }
        out.append("0");
        assert(out@ =~= old(out)@ + seq!['0']);
    }
    push_decimal(out, n);
    assert(final(out)@ =~= old(out)@ + two_digits(n as nat));
}

/// Formats a Unix timestamp into the date field of a listing line.
pub fn format_timestamp(timestamp: u64, now: u64) -> (r: String)
    ensures
        r@ == timestamp_text(timestamp, now),
{
    let days = timestamp / 86400;
    let mut y: u64 = 1970;
    let mut d: u64 = days;
    while d >= year_days(y)
        invariant
            year_day(1970, days as nat) == year_day(y as nat, d as nat),
            y <= 1970 + days - d,
            d <= days,
            days <= u64::MAX / 86400,
        decreases d,
    {
        d = d - year_days(y);
        y = y + 1;
    }
    let ghost yd = year_day(1970, days as nat);
    assert(yd == (y as nat, d as nat));
    let mut m: u64 = 0;
    while m < 11 && d >= month_days(y, m)
        invariant
            m <= 11,
            d < 366,
            yd.0 == y,
            month_day(yd.0, 0, yd.1) == month_day(y as nat, m as nat, d as nat),
        decreases 12 - m,
    {
        d = d - month_days(y, m);
        m = m + 1;
    }
    let mut r = month_str(m).to_owned();
    proof {
        reveal_strlit(" ");
        reveal_strlit(":");
        reveal_strlit("  ");
    }
    r.append(" ");
    let day = decimal(d + 1);
    push_padded(&mut r, day.as_str(), 2);
    if timestamp <= now && now - timestamp <= SIX_MONTHS {
        r.append(" ");
        push_two_digits(&mut r, (timestamp / 3600) % 24);
        r.append(":");
        push_two_digits(&mut r, (timestamp / 60) % 60);
    } else {
        r.append("  ");
        let year = decimal(y);
        push_padded(&mut r, year.as_str(), 4);
    }
    r
}

/// One line of a listing: permissions, a link count of 1, owner `root`,
/// group `group`, the size right-justified in 12 columns, the date field and
/// the name, ended by CRLF.
pub open spec fn list_line_text(
    is_dir: bool,
    mode: u32,
    size: u64,
    mtime: u64,
    now: u64,
    name: Seq<char>,
) -> Seq<char> {
    perm_text(is_dir, mode) + " 1 root group "@ + pad_left(dec(size as nat), 12) + seq![' ']
        + timestamp_text(mtime, now) + seq![' '] + name + seq!['\r', '\n']
}

/// Formats one directory entry as a listing line.
pub fn format_list_line(
    is_dir: bool,
    mode: u32,
    size: u64,
    mtime: u64,
    now: u64,
    name: &str,
) -> (r: String)
    ensures
        r@ == list_line_text(is_dir, mode, size, mtime, now, name@),
{
    let mut r = format_unix_permissions(is_dir, mode);
    r.append(" 1 root group ");
    let sz = decimal(size);
    push_padded(&mut r, sz.as_str(), 12);
    proof {
        reveal_strlit(" ");
        reveal_strlit("\r\n");
    }
    r.append(" ");
    let ts = format_timestamp(mtime, now);
    r.append(ts.as_str());
    r.append(" ");
    r.append(name);
    r.append("\r\n");
    assert(r@ =~= list_line_text(is_dir, mode, size, mtime, now, name@));
    r
}

/// What a listing shows of one directory entry.
#[derive(Clone, Debug)]
pub struct DirEntry {
    pub name: String,
    pub is_dir: bool,
    pub mode: u32,
    pub size: u64,
    pub mtime: u64,
}

/// The listing line of entry `e` at time `now`.
pub open spec fn entry_line(e: DirEntry, now: u64) -> Seq<char> {
    list_line_text(e.is_dir, e.mode, e.size, e.mtime, now, e.name@)
}

/// One listing line per entry, in the order of `entries`.
pub fn format_listing(entries: &Vec<DirEntry>, now: u64) -> (r: Vec<String>)
    ensures
        r@.len() == entries@.len(),
        forall|i: int| 0 <= i < entries@.len() ==> #[trigger] r@[i]@ == entry_line(entries@[i], now),
{
    let mut lines: Vec<String> = Vec::new();
    let mut i: usize = 0;
    while i < entries.len()
        invariant
            i <= entries@.len(),
            lines@.len() == i,
            forall|k: int| 0 <= k < i ==> #[trigger] lines@[k]@ == entry_line(entries@[k], now),
        decreases entries@.len() - i,
    {
        let e = &entries[i];
        let line = format_list_line(e.is_dir, e.mode, e.size, e.mtime, now, e.name.as_str());
        lines.push(line);
        i = i + 1;
    }
    lines
}

} // verus!
