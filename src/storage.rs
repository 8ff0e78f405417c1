//! Capture times and the names of the files snapshots are written to:
//! `<kind>_<YYYY>-<MM>-<DD>_<HH>-<MM>-<SS>.<mmm>+UTC.json`, which sort by time.

use vstd::prelude::*;

use crate::text::{decimal, lemma_decimal, push_char, push_decimal, push_str};

verus! {

/// A moment in UTC, by its calendar date and time of day.
#[derive(Clone, Copy, PartialEq, Eq, Debug, Structural)]
pub struct CaptureTime {
    year: u32,
    month: u32,
    day: u32,
    hour: u32,
    minute: u32,
    second: u32,
    nanosecond: u32,
}

impl CaptureTime {
    /// A four-digit year, a month, a day of the month, a time of day (with
    /// room for a leap second) and the nanoseconds past the second.
    pub open spec fn wf(&self) -> bool {
        &&& self.year_spec() <= 9999
        &&& 1 <= self.month_spec() <= 12
        &&& 1 <= self.day_spec() <= 31
        &&& self.hour_spec() < 24
        &&& self.minute_spec() < 60
        &&& self.second_spec() < 61
        &&& self.nanosecond_spec() < 1_000_000_000
    }

    pub closed spec fn year_spec(&self) -> u32 {
        self.year
    }

    pub closed spec fn month_spec(&self) -> u32 {
        self.month
    }

    pub closed spec fn day_spec(&self) -> u32 {
        self.day
    }

    pub closed spec fn hour_spec(&self) -> u32 {
        self.hour
    }

    pub closed spec fn minute_spec(&self) -> u32 {
        self.minute
    }

    pub closed spec fn second_spec(&self) -> u32 {
        self.second
    }

    pub closed spec fn nanosecond_spec(&self) -> u32 {
        self.nanosecond
    }

    /// The capture time with these parts, or none when a part is out of range.
    pub fn from_parts(
        year: u32,
        month: u32,
        day: u32,
        hour: u32,
        minute: u32,
        second: u32,
        nanosecond: u32,
    ) -> (r: Option<Self>)
        ensures
            r is Some <==> year <= 9999 && 1 <= month <= 12 && 1 <= day <= 31 && hour < 24
                && minute < 60 && second < 61 && nanosecond < 1_000_000_000,
            r matches Some(t) ==> {
                &&& t.wf()
                &&& t.year_spec() == year
                &&& t.month_spec() == month
                &&& t.day_spec() == day
                &&& t.hour_spec() == hour
                &&& t.minute_spec() == minute
                &&& t.second_spec() == second
                &&& t.nanosecond_spec() == nanosecond
            },
    {
        if year <= 9999 && 1 <= month && month <= 12 && 1 <= day && day <= 31 && hour < 24
            && minute < 60 && second < 61 && nanosecond < 1_000_000_000 {
            Some(Self { year, month, day, hour, minute, second, nanosecond })
        } else {
            None
        }
    }

    pub fn year(&self) -> (r: u32)
        ensures
            r == self.year_spec(),
    {
        self.year
    }

    pub fn month(&self) -> (r: u32)
        ensures
            r == self.month_spec(),
    {
        self.month
    }

    pub fn day(&self) -> (r: u32)
        ensures
            r == self.day_spec(),
    {
        self.day
    }

    pub fn hour(&self) -> (r: u32)
        ensures
            r == self.hour_spec(),
    {
        self.hour
    }

    pub fn minute(&self) -> (r: u32)
        ensures
            r == self.minute_spec(),
    {
        self.minute
    }

    pub fn second(&self) -> (r: u32)
        ensures
            r == self.second_spec(),
    {
        self.second
    }

    pub fn nanosecond(&self) -> (r: u32)
        ensures
            r == self.nanosecond_spec(),
    {
        self.nanosecond
    }
}

/// `n` in decimal, with zeros in front up to `width` digits.
pub open spec fn padded(n: nat, width: nat) -> Seq<char> {
    let d = decimal(n);
    if d.len() >= width {
        d
    } else {
        Seq::new((width - d.len()) as nat, |i: int| '0') + d
    }
}

fn push_padded(s: &mut String, n: u32, width: usize)
    requires
        width <= 4,
    ensures
        final(s)@ == old(s)@ + padded(n as nat, width as nat),
{
    let digits: usize = if n < 10 {
        1
    } else if n < 100 {
        2
    } else if n < 1000 {
        3
    } else {
        4
    };
    proof {
        lemma_decimal_len(n as nat);
    }
    let ghost start = s@;
    let mut k: usize = digits;
    while k < width
        invariant
            digits <= k,
            k <= width || digits > width,
            digits >= width ==> k == digits,
            n >= 1000 ==> digits == 4,
            decimal(n as nat).len() >= 4 || decimal(n as nat).len() == digits,
            s@ == start + Seq::new((k - digits) as nat, |i: int| '0'),
        decreases width - k,
    {
        push_char(s, '0');
        assert(s@ =~= start + Seq::new((k + 1 - digits) as nat, |i: int| '0'));
        k = k + 1;
    }
    push_decimal(s, n);
    proof {
        let d = decimal(n as nat);
        if d.len() >= width {
            assert(k == digits);
            assert(s@ =~= start + d);
        } else {
            assert(d.len() == digits);
            assert(k == width);
            assert(s@ =~= start + padded(n as nat, width as nat));
        }
    }
}

proof fn lemma_decimal_len(n: nat)
    ensures
        n < 10 ==> decimal(n).len() == 1,
        10 <= n < 100 ==> decimal(n).len() == 2,
        100 <= n < 1000 ==> decimal(n).len() == 3,
        1000 <= n < 10000 ==> decimal(n).len() == 4,
        n >= 1000 ==> decimal(n).len() >= 4,
    decreases n,
{
    if n >= 10 {
        lemma_decimal_len(n / 10);
    }
}

/// A separator followed by a zero-padded number.
pub open spec fn part(sep: char, n: nat, width: nat) -> Seq<char> {
    seq![sep] + padded(n, width)
}

/// The capture time as it appears in file names:
/// `YYYY-MM-DD_HH-MM-SS.mmm+UTC`.
pub open spec fn capture_stamp(t: CaptureTime) -> Seq<char> {
    padded(t.year_spec() as nat, 4) + part('-', t.month_spec() as nat, 2) + part(
        '-',
        t.day_spec() as nat,
        2,
    ) + part('_', t.hour_spec() as nat, 2) + part('-', t.minute_spec() as nat, 2) + part(
        '-',
        t.second_spec() as nat,
        2,
    ) + part('.', (t.nanosecond_spec() / 1_000_000) as nat, 3) + "+UTC"@
}

/// The name of the file that holds a snapshot of `kind` captured at `t`.
pub open spec fn snapshot_file_name(kind: Seq<char>, t: CaptureTime) -> Seq<char> {
    kind + seq!['_'] + capture_stamp(t) + ".json"@
}

fn push_part(s: &mut String, sep: char, n: u32, width: usize)
    requires
        width <= 4,
    ensures
        final(s)@ == old(s)@ + part(sep, n as nat, width as nat),
{
    push_char(s, sep);
    push_padded(s, n, width);
    assert(final(s)@ =~= old(s)@ + part(sep, n as nat, width as nat));
}

/// The file name for a snapshot of `kind` captured at `t`.
pub fn file_name_for(kind: &str, t: &CaptureTime) -> (r: String)
    requires
        t.wf(),
    ensures
        r@ == snapshot_file_name(kind@, *t),
{
    let mut s = kind.to_owned();
    push_char(&mut s, '_');
    let ghost head = s@;
    push_padded(&mut s, t.year, 4);
    let ghost s1 = s@;
    push_part(&mut s, '-', t.month, 2);
    let ghost s2 = s@;
    push_part(&mut s, '-', t.day, 2);
    let ghost s3 = s@;
    push_part(&mut s, '_', t.hour, 2);
    let ghost s4 = s@;
    push_part(&mut s, '-', t.minute, 2);
    let ghost s5 = s@;
    push_part(&mut s, '-', t.second, 2);
    let ghost s6 = s@;
    push_part(&mut s, '.', t.nanosecond / 1_000_000, 3);
    let ghost s7 = s@;
    push_str(&mut s, "+UTC");
    let ghost s8 = s@;
    push_str(&mut s, ".json");
    proof {
        let y = padded(t.year_spec() as nat, 4);
        let p1 = part('-', t.month_spec() as nat, 2);
        let p2 = part('-', t.day_spec() as nat, 2);
        let p3 = part('_', t.hour_spec() as nat, 2);
        let p4 = part('-', t.minute_spec() as nat, 2);
        let p5 = part('-', t.second_spec() as nat, 2);
        let p6 = part('.', (t.nanosecond_spec() / 1_000_000) as nat, 3);
        assert(s1 == head + y);
        assert(s2 =~= head + (y + p1));
        assert(s3 =~= head + (y + p1 + p2));
        assert(s4 =~= head + (y + p1 + p2 + p3));
        assert(s5 =~= head + (y + p1 + p2 + p3 + p4));
        assert(s6 =~= head + (y + p1 + p2 + p3 + p4 + p5));
        assert(s7 =~= head + (y + p1 + p2 + p3 + p4 + p5 + p6));
        assert(s8 =~= head + capture_stamp(*t));
        assert(s@ =~= snapshot_file_name(kind@, *t));
    }
    s
}

/// The file name of a station snapshot captured at `t`.
pub fn station_details_file_name(t: &CaptureTime) -> (r: String)
    requires
        t.wf(),
    ensures
        r@ == snapshot_file_name("station-details"@, *t),
{
    file_name_for("station-details", t)
}

/// The file name of a route snapshot captured at `t`.
pub fn route_details_file_name(t: &CaptureTime) -> (r: String)
    requires
        t.wf(),
    ensures
        r@ == snapshot_file_name("route-details"@, *t),
{
    file_name_for("route-details", t)
}

/// The file name of an arrival snapshot captured at `t`.
pub fn arrival_file_name(t: &CaptureTime) -> (r: String)
    requires
        t.wf(),
    ensures
        r@ == snapshot_file_name("arrival"@, *t),
{
    file_name_for("arrival", t)
}

} // verus!
