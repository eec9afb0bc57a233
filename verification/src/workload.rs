//! Names: the work directory of a run, named after the local time it
//! started, and the directory a `git clone` of a repository URL creates.

use vstd::prelude::*;
use chrono::{Datelike, Timelike};
use vstd::string::StrSliceExecFns;
use crate::text::{decimal, lemma_decimal_digits, lemma_signed_decimal_injective, lemma_decimal_injective,
    push_char, signed_decimal, is_digit_char, i64_to_string, u64_to_string};

verus! {

/// Fields joined by `_`, first field first.
pub open spec fn join_fields(fields: Seq<Seq<char>>) -> Seq<char>
    decreases fields.len(),
{
    if fields.len() <= 1 {
        if fields.len() == 0 {
            Seq::empty()
        } else {
            fields[0]
        }
    } else {
        join_fields(fields.drop_last()) + seq!['_'] + fields.last()
    }
}

/// Whether `s` holds no `_`.
pub open spec fn underscore_free(s: Seq<char>) -> bool {
    forall|i: int| 0 <= i < s.len() ==> s[i] != '_'
}

/// The name of the work directory of a run started at the given local
/// time: year, month, day, hour, minute and second in decimal, joined by
/// `_`.
pub open spec fn workload_name(
    year: int,
    month: nat,
    day: nat,
    hour: nat,
    minute: nat,
    second: nat,
) -> Seq<char> {
    join_fields(
        seq![
            signed_decimal(year),
            decimal(month),
            decimal(day),
            decimal(hour),
            decimal(minute),
            decimal(second),
        ],
    )
}

fn append_field(s: &mut String, Ghost(fields): Ghost<Seq<Seq<char>>>, field: &str)
    requires
        fields.len() >= 1,
        old(s)@ == join_fields(fields),
    ensures
        final(s)@ == join_fields(fields.push(field@)),
{
    s.append("_");
    s.append(field);
    proof {
        reveal_strlit("_");
        assert(fields.push(field@).drop_last() =~= fields);
        assert(s@ =~= join_fields(fields.push(field@)));
    }
}

/// Formats a local time as a work-directory name.
pub fn format_workload_name(year: i32, month: u32, day: u32, hour: u32, minute: u32, second: u32) -> (name:
    String)
    ensures
        name@ == workload_name(
            year as int,
            month as nat,
            day as nat,
            hour as nat,
            minute as nat,
            second as nat,
        ),
{
    let mut time = i64_to_string(year as i64);
    let ghost mut fields: Seq<Seq<char>> = seq![time@];
    proof {
        assert(join_fields(fields) == time@);
    }
    let month_s = u64_to_string(month as u64);
    let day_s = u64_to_string(day as u64);
    let hour_s = u64_to_string(hour as u64);
    let min = u64_to_string(minute as u64);
    let sec = u64_to_string(second as u64);
    append_field(&mut time, Ghost(fields), month_s.as_str());
    proof {
        fields = fields.push(month_s@);
    }
    append_field(&mut time, Ghost(fields), day_s.as_str());
    proof {
        fields = fields.push(day_s@);
    }
    append_field(&mut time, Ghost(fields), hour_s.as_str());
    proof {
        fields = fields.push(hour_s@);
    }
    append_field(&mut time, Ghost(fields), min.as_str());
    proof {
        fields = fields.push(min@);
    }
    append_field(&mut time, Ghost(fields), sec.as_str());
    proof {
        fields = fields.push(sec@);
        assert(fields =~= seq![
            signed_decimal(year as int),
            decimal(month as nat),
            decimal(day as nat),
            decimal(hour as nat),
            decimal(minute as nat),
            decimal(second as nat),
        ]);
    }
    time
}

/// The local date and time now, as year, month (1 to 12), day of month
/// (1 to 31), hour (0 to 23), minute (0 to 59) and second (0 to 59).
///
/// Trusted: calls `chrono::Local::now`, then reads the fields of the result
/// through chrono's `Datelike` and `Timelike` accessors. The contract states
/// only the ranges that chrono documents for those accessors; the values
/// themselves depend on the clock and the time zone and are left free.
/// chrono panics, whatever the arguments (there are none), where the system
/// clock is set before 1970 or the local time-zone data cannot be used;
/// that depends on the machine, and no clause speaks of it.
#[verifier::external_body]
fn local_now() -> (t: (i32, u32, u32, u32, u32, u32))
    ensures
        1 <= t.1 <= 12,
        1 <= t.2 <= 31,
        t.3 <= 23,
        t.4 <= 59,
        t.5 <= 59,
{
    let local = chrono::Local::now();
    (local.year(), local.month(), local.day(), local.hour(), local.minute(), local.second())
}

/// The name of a work directory for a run that starts now: the local time
/// in the form of `workload_name`.
pub fn get_workload_name() -> (name: String)
    ensures
        exists|year: i32, month: u32, day: u32, hour: u32, minute: u32, second: u32|
            1 <= month <= 12 && 1 <= day <= 31 && hour <= 23 && minute <= 59 && second <= 59
                && name@ == workload_name(
                year as int,
                month as nat,
                day as nat,
                hour as nat,
                minute as nat,
                second as nat,
            ),
{
    let (year, month, day, hour, minute, second) = local_now();
    format_workload_name(year, month, day, hour, minute, second)
}

proof fn lemma_digits_underscore_free(n: nat)
    ensures
        underscore_free(decimal(n)),
{
    lemma_decimal_digits(n);
    assert forall|i: int| 0 <= i < decimal(n).len() implies decimal(n)[i] != '_' by {
        assert(is_digit_char(decimal(n)[i]));
    }
}

proof fn lemma_signed_underscore_free(i: int)
    ensures
        underscore_free(signed_decimal(i)),
{
    if i < 0 {
        lemma_digits_underscore_free((-i) as nat);
        let s = signed_decimal(i);
        assert forall|k: int| 0 <= k < s.len() implies s[k] != '_' by {
            if k > 0 {
                assert(s[k] == decimal((-i) as nat)[k - 1]);
            }
        }
    } else {
        lemma_digits_underscore_free(i as nat);
    }
}

/// Splitting at the last `_`: when the last fields hold no `_`, equal
/// joinings have equal heads and equal last fields.
proof fn lemma_split_last_underscore(a: Seq<char>, x: Seq<char>, b: Seq<char>, y: Seq<char>)
    requires
        underscore_free(x),
        underscore_free(y),
        a + seq!['_'] + x == b + seq!['_'] + y,
    ensures
        a == b,
        x == y,
{
    let l = a + seq!['_'] + x;
    let r = b + seq!['_'] + y;
    assert(l.len() == r.len());
    assert forall|i: int| 0 <= i < a.len() implies l[i] == a[i] by {
        assert((a + seq!['_'])[i] == a[i]);
    }
    assert forall|i: int| 0 <= i < b.len() implies r[i] == b[i] by {
        assert((b + seq!['_'])[i] == b[i]);
    }
    if x.len() < y.len() {
        let k = l.len() - x.len() - 1;
        assert(l[k] == '_');
        assert(r[k] == y[k - b.len() - 1]);
    } else if y.len() < x.len() {
        let k = r.len() - y.len() - 1;
        assert(r[k] == '_');
        assert(l[k] == x[k - a.len() - 1]);
    } else {
        assert(a.len() == b.len());
        assert forall|i: int| 0 <= i < a.len() implies a[i] == b[i] by {
            assert(l[i] == r[i]);
        }
        assert forall|i: int| 0 <= i < x.len() implies x[i] == y[i] by {
            assert(l[a.len() + 1 + i] == r[b.len() + 1 + i]);
        }
        assert(a =~= b);
        assert(x =~= y);
    }
}

/// Joinings of the same number of `_`-free fields are equal only when the
/// fields are.
pub proof fn lemma_join_fields_injective(f: Seq<Seq<char>>, g: Seq<Seq<char>>)
    requires
        f.len() == g.len(),
        f.len() >= 1,
        forall|i: int| 0 <= i < f.len() ==> underscore_free(#[trigger] f[i]),
        forall|i: int| 0 <= i < g.len() ==> underscore_free(#[trigger] g[i]),
        join_fields(f) == join_fields(g),
    ensures
        f == g,
    decreases f.len(),
{
    if f.len() > 1 {
        assert(underscore_free(f[f.len() - 1]));
        assert(underscore_free(g[g.len() - 1]));
        lemma_split_last_underscore(join_fields(f.drop_last()), f.last(), join_fields(g.drop_last()), g.last());
        lemma_join_fields_injective(f.drop_last(), g.drop_last());
        assert(f =~= f.drop_last().push(f.last()));
        assert(g =~= g.drop_last().push(g.last()));
    } else {
        assert(f =~= g);
    }
}

/// Runs started at different times get different work directories: equal
/// names mean equal times.
pub proof fn lemma_workload_name_injective(
    y1: int,
    mo1: nat,
    d1: nat,
    h1: nat,
    mi1: nat,
    s1: nat,
    y2: int,
    mo2: nat,
    d2: nat,
    h2: nat,
    mi2: nat,
    s2: nat,
)
    requires
        workload_name(y1, mo1, d1, h1, mi1, s1) == workload_name(y2, mo2, d2, h2, mi2, s2),
    ensures
        y1 == y2 && mo1 == mo2 && d1 == d2 && h1 == h2 && mi1 == mi2 && s1 == s2,
{
    let f = seq![
        signed_decimal(y1),
        decimal(mo1),
        decimal(d1),
        decimal(h1),
        decimal(mi1),
        decimal(s1),
    ];
    let g = seq![
        signed_decimal(y2),
        decimal(mo2),
        decimal(d2),
        decimal(h2),
        decimal(mi2),
        decimal(s2),
    ];
    lemma_signed_underscore_free(y1);
    lemma_signed_underscore_free(y2);
    lemma_digits_underscore_free(mo1);
    lemma_digits_underscore_free(mo2);
    lemma_digits_underscore_free(d1);
    lemma_digits_underscore_free(d2);
    lemma_digits_underscore_free(h1);
    lemma_digits_underscore_free(h2);
    lemma_digits_underscore_free(mi1);
    lemma_digits_underscore_free(mi2);
    lemma_digits_underscore_free(s1);
    lemma_digits_underscore_free(s2);
    assert forall|i: int| 0 <= i < f.len() implies underscore_free(#[trigger] f[i]) by {
    }
    assert forall|i: int| 0 <= i < g.len() implies underscore_free(#[trigger] g[i]) by {
    }
    lemma_join_fields_injective(f, g);
    assert(f[0] == g[0]);
    assert(f[1] == g[1]);
    assert(f[2] == g[2]);
    assert(f[3] == g[3]);
    assert(f[4] == g[4]);
    assert(f[5] == g[5]);
    lemma_signed_decimal_injective(y1, y2);
    lemma_decimal_injective(mo1, mo2);
    lemma_decimal_injective(d1, d2);
    lemma_decimal_injective(h1, h2);
    lemma_decimal_injective(mi1, mi2);
    lemma_decimal_injective(s1, s2);
}

/// The part of `s` after its last `/` (all of `s` when it holds none).
pub open spec fn last_segment(s: Seq<char>) -> Seq<char>
    decreases s.len(),
{
    if s.len() == 0 {
        s
    } else if s.last() == '/' {
        Seq::empty()
    } else {
        last_segment(s.drop_last()).push(s.last())
    }
}

/// The number of bytes `c` takes in UTF-8.
pub open spec fn utf8_width(c: char) -> int {
    if (c as u32) < 0x80 {
        1
    } else if (c as u32) < 0x800 {
        2
    } else if (c as u32) < 0x10000 {
        3
    } else {
        4
    }
}

/// `s` without the trailing characters that take exactly `n` bytes in
/// UTF-8; `None` where no run of trailing characters takes exactly `n`
/// bytes (the cut would fall inside a character, or `s` is too short).
pub open spec fn drop_trailing_bytes(s: Seq<char>, n: int) -> Option<Seq<char>>
    decreases s.len(),
{
    if n == 0 {
        Some(s)
    } else if n < 0 || s.len() == 0 {
        None
    } else {
        drop_trailing_bytes(s.drop_last(), n - utf8_width(s.last()))
    }
}

/// The directory `git clone <url>` creates: the last segment of the URL
/// without its last four bytes (the `.git`); `None` where the segment is
/// shorter than four bytes or the cut would fall inside a character.
pub open spec fn spec_url2path(url: Seq<char>) -> Option<Seq<char>> {
    drop_trailing_bytes(last_segment(url), 4)
}

fn char_width(c: char) -> (w: usize)
    ensures
        w as int == utf8_width(c),
{
    let v = c as u32;
    if v < 0x80 {
        1
    } else if v < 0x800 {
        2
    } else if v < 0x10000 {
        3
    } else {
        4
    }
}

proof fn lemma_last_segment_of_subrange(s: Seq<char>, start: int, i: int)
    requires
        0 <= start <= i < s.len(),
        s.subrange(start, i) == last_segment(s.take(i)),
    ensures
        s[i] == '/' ==> s.subrange(i + 1, i + 1) == last_segment(s.take(i + 1)),
        s[i] != '/' ==> s.subrange(start, i + 1) == last_segment(s.take(i + 1)),
{
    assert(s.take(i + 1).drop_last() =~= s.take(i));
    assert(s.take(i + 1).last() == s[i]);
    if s[i] != '/' {
        assert(s.subrange(start, i + 1) =~= s.subrange(start, i).push(s[i]));
    } else {
        assert(s.subrange(i + 1, i + 1) =~= Seq::<char>::empty());
    }
}

/// Where the last segment of `url` starts, and the length of `url` in
/// characters.
fn segment_bounds(url: &str) -> (b: (usize, usize))
    ensures
        b.0 <= b.1 == url@.len(),
        url@.subrange(b.0 as int, b.1 as int) == last_segment(url@),
{
    let n = url.unicode_len();
    let mut start: usize = 0;
    let mut i: usize = 0;
    assert(url@.subrange(0, 0) =~= last_segment(url@.take(0)));
    while i < n
        invariant
            n == url@.len(),
            start <= i <= n,
            url@.subrange(start as int, i as int) == last_segment(url@.take(i as int)),
        decreases n - i,
    {
        let c = url.get_char(i);
        proof {
            lemma_last_segment_of_subrange(url@, start as int, i as int);
        }
        if c == '/' {
            start = i + 1;
        }
        i += 1;
    }
    assert(url@.take(n as int) =~= url@);
    (start, n)
}

/// How many characters of `url`, counted from the start, remain once the
/// last `bytes` bytes of its segment `[start, n)` are cut off; `None`
/// where that cut falls inside a character or before `start`.
fn cut_point(url: &str, start: usize, n: usize, bytes: usize) -> (r: Option<usize>)
    requires
        start <= n == url@.len(),
        bytes <= 4,
    ensures
        match drop_trailing_bytes(url@.subrange(start as int, n as int), bytes as int) {
            Some(kept) => r matches Some(end) && start <= end <= n && kept == url@.subrange(
                start as int,
                end as int,
            ),
            None => r is None,
        },
{
    let mut end = n;
    let mut remaining = bytes;
    while remaining > 0 && end > start
        invariant
            start <= end <= n == url@.len(),
            remaining <= 4,
            drop_trailing_bytes(url@.subrange(start as int, n as int), bytes as int)
                == drop_trailing_bytes(url@.subrange(start as int, end as int), remaining as int),
        decreases end,
    {
        let w = char_width(url.get_char(end - 1));
        proof {
            let seg = url@.subrange(start as int, end as int);
            assert(seg.drop_last() =~= url@.subrange(start as int, end - 1));
            assert(seg.last() == url@[end - 1]);
        }
        if w > remaining {
            proof {
                let rest = url@.subrange(start as int, end - 1);
                assert(drop_trailing_bytes(rest, remaining - w) == None::<Seq<char>>);
            }
            return None;
        }
        remaining = remaining - w;
        end = end - 1;
    }
    if remaining == 0 {
        Some(end)
    } else {
        None
    }
}

fn copy_chars(url: &str, from: usize, to: usize) -> (s: String)
    requires
        from <= to <= url@.len(),
    ensures
        s@ == url@.subrange(from as int, to as int),
{
    let mut s = String::new();
    let mut i = from;
    while i < to
        invariant
            from <= i <= to <= url@.len(),
            s@ == url@.subrange(from as int, i as int),
        decreases to - i,
    {
        push_char(&mut s, url.get_char(i));
        assert(url@.subrange(from as int, i + 1) =~= url@.subrange(from as int, i as int).push(url@[i as int]));
        i += 1;
    }
    s
}

/// Whether `url2path` accepts `url`: its last segment ends in characters
/// that take exactly four bytes.
pub fn url_has_repo_name(url: &str) -> (b: bool)
    ensures
        b == spec_url2path(url@) is Some,
{
    let (start, n) = segment_bounds(url);
    cut_point(url, start, n, 4).is_some()
}

/// The directory that `git clone <url>` creates, e.g. `XiangShan` for
/// `https://github.com/RISCVERS/XiangShan.git`.
pub fn url2path(url: &str) -> (path: String)
    requires
        spec_url2path(url@) is Some,
    ensures
        path@ == spec_url2path(url@)->0,
{
    let (start, n) = segment_bounds(url);
    match cut_point(url, start, n, 4) {
        Some(end) => copy_chars(url, start, end),
        None => String::new(),
    }
}

proof fn lemma_last_segment_after_slash(s: Seq<char>, t: Seq<char>)
    requires
        forall|i: int| 0 <= i < t.len() ==> t[i] != '/',
    ensures
        last_segment(s + seq!['/'] + t) == t,
    decreases t.len(),
{
    let u = s + seq!['/'] + t;
    if t.len() == 0 {
        assert(u.last() == '/');
    } else {
        lemma_last_segment_after_slash(s, t.drop_last());
        assert(u.drop_last() =~= s + seq!['/'] + t.drop_last());
        assert(u.last() == t.last());
        assert(t.drop_last().push(t.last()) =~= t);
    }
}

/// For a repository URL `<anything>/<name>.git` whose `name` holds no `/`,
/// the clone directory is `name`.
pub proof fn lemma_url2path_repo_name(prefix: Seq<char>, name: Seq<char>)
    requires
        forall|i: int| 0 <= i < name.len() ==> name[i] != '/',
    ensures
        spec_url2path(prefix + seq!['/'] + name + seq!['.', 'g', 'i', 't']) == Some(name),
{
    let seg = name + seq!['.', 'g', 'i', 't'];
    assert forall|i: int| 0 <= i < seg.len() implies seg[i] != '/' by {
        if i < name.len() {
            assert(seg[i] == name[i]);
        }
    }
    assert(prefix + seq!['/'] + name + seq!['.', 'g', 'i', 't'] =~= prefix + seq!['/'] + seg);
    lemma_last_segment_after_slash(prefix, seg);
    let s3 = name + seq!['.', 'g', 'i'];
    let s2 = name + seq!['.', 'g'];
    let s1 = name + seq!['.'];
    assert(seg.drop_last() =~= s3);
    assert(s3.drop_last() =~= s2);
    assert(s2.drop_last() =~= s1);
    assert(s1.drop_last() =~= name);
    assert(drop_trailing_bytes(s1, 1) == drop_trailing_bytes(name, 0));
    assert(drop_trailing_bytes(s2, 2) == drop_trailing_bytes(s1, 1));
    assert(drop_trailing_bytes(s3, 3) == drop_trailing_bytes(s2, 2));
    assert(drop_trailing_bytes(seg, 4) == drop_trailing_bytes(s3, 3));
}

} // verus!
