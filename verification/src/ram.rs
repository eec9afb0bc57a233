//! Rewriting the simulator's memory header so that the emulated RAM is
//! 8 GiB instead of 256 MiB.

use vstd::prelude::*;

verus! {

/// The characters of `s`, in order.
pub fn chars_of(s: &str) -> (v: Vec<char>)
    ensures
        v@ == s@,
{
    let mut v: Vec<char> = Vec::new();
    for c in it: s.chars()
        invariant
            v@ == it.seq().take(it.index() as int),
            it.seq() == s@,
    {
        v.push(c);
    }
    v
}

/// The line that sets the emulated RAM to 256 MiB.
pub const RAM_256M_LINE: &'static str = "#define EMU_RAM_SIZE (256 * 1024 * 1024UL)";
/// That line commented out.
pub const RAM_256M_COMMENTED: &'static str = "// #define EMU_RAM_SIZE (256 * 1024 * 1024UL)";
/// The commented-out line that would set the emulated RAM to 8 GiB.
pub const RAM_8G_COMMENTED: &'static str = "// #define EMU_RAM_SIZE (8 * 1024 * 1024 * 1024UL)";
/// That line in force.
pub const RAM_8G_LINE: &'static str = "#define EMU_RAM_SIZE (8 * 1024 * 1024 * 1024UL)";

/// Whether `needle` occurs in `hay` at position `i`.
pub open spec fn occurs_at(hay: Seq<char>, needle: Seq<char>, i: int) -> bool {
    0 <= i && i + needle.len() <= hay.len() && hay.subrange(i, i + needle.len()) == needle
}

/// Whether `needle` occurs in `hay`.
pub open spec fn seq_contains(hay: Seq<char>, needle: Seq<char>) -> bool {
    exists|i: int| occurs_at(hay, needle, i)
}

/// Where the first `\n` of `s` is (`s.len()` when there is none).
pub open spec fn first_newline(s: Seq<char>) -> nat
    decreases s.len(),
{
    if s.len() == 0 {
        0
    } else if s[0] == '\n' {
        0
    } else {
        1 + first_newline(s.drop_first())
    }
}

/// `line` without one `\r` at its end.
pub open spec fn strip_cr(line: Seq<char>) -> Seq<char> {
    if line.len() > 0 && line.last() == '\r' {
        line.drop_last()
    } else {
        line
    }
}

/// The lines of `s` as `str::lines` gives them: split after each `\n`,
/// with the `\n` and a `\r` just before it removed; a final line ending is
/// optional, and an empty `s` has no lines.
pub open spec fn lines(s: Seq<char>) -> Seq<Seq<char>>
    decreases s.len(),
{
    if s.len() == 0 {
        Seq::empty()
    } else {
        let k = first_newline(s) as int;
        if k >= s.len() {
            seq![s]
        } else {
            seq![strip_cr(s.take(k))] + lines(s.skip(k + 1))
        }
    }
}

/// One line of the header, rewritten: the 256 MiB definition is commented
/// out, the commented 8 GiB definition is put in force, and every other
/// line stays.
pub open spec fn rewrite_line(line: Seq<char>) -> Seq<char> {
    if seq_contains(line, RAM_256M_LINE@) {
        RAM_256M_COMMENTED@
    } else if seq_contains(line, RAM_8G_COMMENTED@) {
        RAM_8G_LINE@
    } else {
        line
    }
}

/// Lines written out, each rewritten and followed by `\n`.
pub open spec fn render(ls: Seq<Seq<char>>) -> Seq<char>
    decreases ls.len(),
{
    if ls.len() == 0 {
        Seq::empty()
    } else {
        rewrite_line(ls[0]) + seq!['\n'] + render(ls.drop_first())
    }
}

/// The rewritten header.
pub open spec fn spec_rewrite_ram_config(contents: Seq<char>) -> Seq<char> {
    render(lines(contents))
}

/// Whether `needle` occurs in `hay`.
pub fn contains(hay: &Vec<char>, lo: usize, hi: usize, needle: &Vec<char>) -> (b: bool)
    requires
        lo <= hi <= hay@.len(),
    ensures
        b == seq_contains(hay@.subrange(lo as int, hi as int), needle@),
{
    let ghost h = hay@.subrange(lo as int, hi as int);
    let m = needle.len();
    if m > hi - lo {
        proof {
            if seq_contains(h, needle@) {
                let i = choose|i: int| occurs_at(h, needle@, i);
                assert(h.subrange(i, i + m).len() == m);
            }
        }
        return false;
    }
    let mut i: usize = 0;
    while i <= hi - lo - m
        invariant
            m == needle@.len(),
            m <= hi - lo,
            lo <= hi <= hay@.len(),
            h == hay@.subrange(lo as int, hi as int),
            forall|j: int| 0 <= j < i ==> !occurs_at(h, needle@, j),
        decreases hi - lo - i,
    {
        let mut k: usize = 0;
        let mut same = true;
        while k < m
            invariant
                m == needle@.len(),
                i + m <= hi - lo,
                lo <= hi <= hay@.len(),
                h == hay@.subrange(lo as int, hi as int),
                k <= m,
                same <==> forall|t: int| 0 <= t < k ==> h[i + t] == needle@[t],
            decreases m - k,
        {
            if hay[lo + i + k] != needle[k] {
                same = false;
            }
            k += 1;
        }
        if same {
            assert(h.subrange(i as int, i + m) =~= needle@);
            assert(occurs_at(h, needle@, i as int));
            return true;
        } else {
            proof {
                let t = choose|t: int| 0 <= t < m && h[i + t] != needle@[t];
                assert(h.subrange(i as int, i + m)[t] != needle@[t]);
            }
        }
        i += 1;
    }
    proof {
        if seq_contains(h, needle@) {
            let j = choose|j: int| occurs_at(h, needle@, j);
            assert(j < i);
        }
    }
    false
}

proof fn lemma_first_newline(s: Seq<char>, k: int)
    requires
        0 <= k <= s.len(),
        forall|j: int| 0 <= j < k ==> s[j] != '\n',
        k == s.len() || s[k] == '\n',
    ensures
        first_newline(s) == k,
    decreases s.len(),
{
    if s.len() > 0 && s[0] != '\n' {
        assert forall|j: int| 0 <= j < k - 1 implies s.drop_first()[j] != '\n' by {
            assert(s.drop_first()[j] == s[j + 1]);
        }
        if k < s.len() {
            assert(s.drop_first()[k - 1] == s[k]);
        }
        lemma_first_newline(s.drop_first(), k - 1);
    }
}

proof fn lemma_render_cons(x: Seq<char>, rest: Seq<Seq<char>>)
    ensures
        render(seq![x] + rest) == rewrite_line(x) + seq!['\n'] + render(rest),
{
    assert((seq![x] + rest).drop_first() =~= rest);
    assert((seq![x] + rest)[0] == x);
}

fn rewrite_into(out: &mut String, chars: &Vec<char>, lo: usize, hi: usize, p1: &Vec<char>, p2: &Vec<char>)
    requires
        lo <= hi <= chars@.len(),
        p1@ == RAM_256M_LINE@,
        p2@ == RAM_8G_COMMENTED@,
    ensures
        final(out)@ == old(out)@ + rewrite_line(chars@.subrange(lo as int, hi as int)) + seq!['\n'],
{
    if contains(chars, lo, hi, p1) {
        out.append(RAM_256M_COMMENTED);
    } else if contains(chars, lo, hi, p2) {
        out.append(RAM_8G_LINE);
    } else {
        let mut k = lo;
        while k < hi
            invariant
                lo <= k <= hi <= chars@.len(),
                out@ == old(out)@ + chars@.subrange(lo as int, k as int),
            decreases hi - k,
        {
            crate::text::push_char(out, chars[k]);
            assert(chars@.subrange(lo as int, k + 1) =~= chars@.subrange(lo as int, k as int).push(
                chars@[k as int],
            ));
            k += 1;
        }
    }
    crate::text::push_char(out, '\n');
    assert(out@ =~= old(out)@ + rewrite_line(chars@.subrange(lo as int, hi as int)) + seq!['\n']);
}

/// The header `contents` rewritten line by line: the line defining a
/// 256 MiB RAM is commented out, the commented line defining an 8 GiB RAM
/// is put in force, every line ends in `\n`, and `\r\n` endings become
/// `\n`.
pub fn rewrite_ram_config(contents: &str) -> (out: String)
    ensures
        out@ == spec_rewrite_ram_config(contents@),
{
    let chars = chars_of(contents);
    let p1 = chars_of(RAM_256M_LINE);
    let p2 = chars_of(RAM_8G_COMMENTED);
    let n = chars.len();
    let mut out = String::new();
    let mut start: usize = 0;
    let mut i: usize = 0;
    let ghost s = contents@;
    proof {
        assert(s.skip(0) =~= s);
    }
    while i < n
        invariant
            n == chars@.len(),
            chars@ == s,
            p1@ == RAM_256M_LINE@,
            p2@ == RAM_8G_COMMENTED@,
            start <= i <= n,
            forall|j: int| start <= j < i ==> s[j] != '\n',
            render(lines(s)) == out@ + render(lines(s.skip(start as int))),
        decreases n - i,
    {
        if chars[i] == '\n' {
            let ghost rest = s.skip(start as int);
            proof {
                lemma_first_newline(rest, i - start);
                assert(rest.take(i - start) =~= s.subrange(start as int, i as int));
                assert(rest.skip(i - start + 1) =~= s.skip(i + 1));
                lemma_render_cons(strip_cr(s.subrange(start as int, i as int)), lines(s.skip(i + 1)));
            }
            let end = if i > start && chars[i - 1] == '\r' {
                i - 1
            } else {
                i
            };
            proof {
                let line = s.subrange(start as int, i as int);
                if i > start && s[i - 1] == '\r' {
                    assert(strip_cr(line) =~= s.subrange(start as int, end as int));
                } else {
                    assert(strip_cr(line) == s.subrange(start as int, end as int));
                }
            }
            let ghost before = out@;
            rewrite_into(&mut out, &chars, start, end, &p1, &p2);
            proof {
                assert(before + (rewrite_line(s.subrange(start as int, end as int)) + seq!['\n']
                    + render(lines(s.skip(i + 1)))) =~= out@ + render(lines(s.skip(i + 1))));
            }
            start = i + 1;
        }
        i += 1;
    }
    if start < n {
        let ghost rest = s.skip(start as int);
        proof {
            lemma_first_newline(rest, n - start);
            assert(rest =~= s.subrange(start as int, n as int));
            assert(lines(rest) == seq![rest]);
            lemma_render_cons(rest, Seq::empty());
            assert(render(Seq::<Seq<char>>::empty()) == Seq::<char>::empty());
        }
        let ghost before = out@;
        rewrite_into(&mut out, &chars, start, n, &p1, &p2);
        proof {
            assert(before + (rewrite_line(rest) + seq!['\n'] + Seq::<char>::empty()) =~= out@);
        }
    } else {
        proof {
            assert(s.skip(start as int) =~= Seq::<char>::empty());
            assert(out@ + Seq::<char>::empty() =~= out@);
        }
    }
    out
}

/// Whether `line` ends in `\r`.
pub open spec fn ends_with_cr(line: Seq<char>) -> bool {
    line.len() > 0 && line.last() == '\r'
}

/// Whether `s` holds no `\n`.
pub open spec fn newline_free(s: Seq<char>) -> bool {
    forall|i: int| 0 <= i < s.len() ==> s[i] != '\n'
}

proof fn lemma_first_newline_bound(s: Seq<char>)
    ensures
        first_newline(s) <= s.len(),
        forall|j: int| 0 <= j < first_newline(s) ==> s[j] != '\n',
        first_newline(s) < s.len() ==> s[first_newline(s) as int] == '\n',
    decreases s.len(),
{
    if s.len() > 0 && s[0] != '\n' {
        lemma_first_newline_bound(s.drop_first());
        assert forall|j: int| 0 <= j < first_newline(s) implies s[j] != '\n' by {
            if j > 0 {
                assert(s[j] == s.drop_first()[j - 1]);
            }
        }
    }
}

/// No line holds a `\n`.
pub proof fn lemma_lines_newline_free(s: Seq<char>)
    ensures
        forall|i: int| 0 <= i < lines(s).len() ==> newline_free(#[trigger] lines(s)[i]),
    decreases s.len(),
{
    if s.len() > 0 {
        let k = first_newline(s) as int;
        lemma_first_newline_bound(s);
        if k < s.len() {
            lemma_lines_newline_free(s.skip(k + 1));
            let rest = lines(s.skip(k + 1));
            assert forall|i: int| 0 <= i < lines(s).len() implies newline_free(#[trigger] lines(s)[i]) by {
                if i == 0 {
                    assert(lines(s)[0] == strip_cr(s.take(k)));
                } else {
                    assert(lines(s)[i] == rest[i - 1]);
                }
            }
        }
    }
}

proof fn lemma_literals()
    ensures
        seq_contains(RAM_256M_COMMENTED@, RAM_256M_LINE@),
        !seq_contains(RAM_8G_LINE@, RAM_256M_LINE@),
        !seq_contains(RAM_8G_LINE@, RAM_8G_COMMENTED@),
        newline_free(RAM_256M_COMMENTED@),
        newline_free(RAM_8G_LINE@),
        !ends_with_cr(RAM_256M_COMMENTED@),
        !ends_with_cr(RAM_8G_LINE@),
{
    reveal_strlit("#define EMU_RAM_SIZE (256 * 1024 * 1024UL)");
    reveal_strlit("// #define EMU_RAM_SIZE (256 * 1024 * 1024UL)");
    reveal_strlit("// #define EMU_RAM_SIZE (8 * 1024 * 1024 * 1024UL)");
    reveal_strlit("#define EMU_RAM_SIZE (8 * 1024 * 1024 * 1024UL)");
    let p1 = RAM_256M_LINE@;
    let r1 = RAM_256M_COMMENTED@;
    let p2 = RAM_8G_COMMENTED@;
    let r2 = RAM_8G_LINE@;
    assert(r1.subrange(3, 3 + p1.len() as int) =~= p1);
    assert(occurs_at(r1, p1, 3));
    assert forall|i: int| !occurs_at(r2, p1, i) by {
        if occurs_at(r2, p1, i) {
            let sub = r2.subrange(i, i + p1.len());
            if i == 0 {
                assert(sub[22] == r2[22]);
            } else {
                assert(sub[0] == r2[i]);
            }
        }
    }
    assert forall|i: int| !occurs_at(r2, p2, i) by {
    }
}

/// Rewriting a rewritten line changes nothing.
pub proof fn lemma_rewrite_line_idempotent(line: Seq<char>)
    ensures
        rewrite_line(rewrite_line(line)) == rewrite_line(line),
{
    lemma_literals();
}

proof fn lemma_lines_of_render(ls: Seq<Seq<char>>)
    requires
        forall|i: int| 0 <= i < ls.len() ==> newline_free(#[trigger] rewrite_line(ls[i])),
        forall|i: int| 0 <= i < ls.len() ==> !ends_with_cr(#[trigger] rewrite_line(ls[i])),
    ensures
        lines(render(ls)) == ls.map_values(|l: Seq<char>| rewrite_line(l)),
    decreases ls.len(),
{
    if ls.len() == 0 {
        assert(ls.map_values(|l: Seq<char>| rewrite_line(l)) =~= Seq::<Seq<char>>::empty());
    } else {
        let x = rewrite_line(ls[0]);
        let rest = ls.drop_first();
        assert forall|i: int| 0 <= i < rest.len() implies newline_free(#[trigger] rewrite_line(rest[i])) by {
            assert(rest[i] == ls[i + 1]);
            assert(newline_free(rewrite_line(ls[i + 1])));
        }
        assert forall|i: int| 0 <= i < rest.len() implies !ends_with_cr(#[trigger] rewrite_line(rest[i])) by {
            assert(rest[i] == ls[i + 1]);
            assert(!ends_with_cr(rewrite_line(ls[i + 1])));
        }
        lemma_lines_of_render(rest);
        assert(newline_free(rewrite_line(ls[0])));
        assert(!ends_with_cr(rewrite_line(ls[0])));
        let r = render(ls);
        assert(r == x + seq!['\n'] + render(rest));
        assert forall|j: int| 0 <= j < x.len() implies r[j] != '\n' by {
            assert(r[j] == x[j]);
        }
        assert(r[x.len() as int] == '\n');
        lemma_first_newline(r, x.len() as int);
        assert(r.take(x.len() as int) =~= x);
        assert(r.skip(x.len() as int + 1) =~= render(rest));
        assert(strip_cr(x) == x);
        assert(lines(r) == seq![x] + lines(render(rest)));
        assert(ls.map_values(|l: Seq<char>| rewrite_line(l)) =~= seq![x] + rest.map_values(
            |l: Seq<char>| rewrite_line(l),
        ));
    }
}

proof fn lemma_render_twice(ls: Seq<Seq<char>>)
    ensures
        render(ls.map_values(|l: Seq<char>| rewrite_line(l))) == render(ls),
    decreases ls.len(),
{
    let m = ls.map_values(|l: Seq<char>| rewrite_line(l));
    if ls.len() > 0 {
        lemma_render_twice(ls.drop_first());
        assert(m.drop_first() =~= ls.drop_first().map_values(|l: Seq<char>| rewrite_line(l)));
        lemma_rewrite_line_idempotent(ls[0]);
    }
}

/// Rewriting the header a second time changes nothing, unless a line kept
/// as it was ends in `\r` (then the second pass reads that `\r` as part of
/// a `\r\n` ending and drops it).
pub proof fn lemma_rewrite_ram_config_idempotent(s: Seq<char>)
    requires
        forall|i: int| 0 <= i < lines(s).len() ==> !ends_with_cr(#[trigger] rewrite_line(lines(s)[i])),
    ensures
        spec_rewrite_ram_config(spec_rewrite_ram_config(s)) == spec_rewrite_ram_config(s),
{
    let ls = lines(s);
    lemma_lines_newline_free(s);
    lemma_literals();
    assert forall|i: int| 0 <= i < ls.len() implies newline_free(#[trigger] rewrite_line(ls[i])) by {
        assert(newline_free(ls[i]));
    }
    lemma_lines_of_render(ls);
    lemma_render_twice(ls);
}

/// The rewritten header has as many lines as the input, each the
/// rewriting of the input line, under the same condition.
pub proof fn lemma_rewrite_ram_config_lines(s: Seq<char>)
    requires
        forall|i: int| 0 <= i < lines(s).len() ==> !ends_with_cr(#[trigger] rewrite_line(lines(s)[i])),
    ensures
        lines(spec_rewrite_ram_config(s)) == lines(s).map_values(|l: Seq<char>| rewrite_line(l)),
{
    let ls = lines(s);
    lemma_lines_newline_free(s);
    lemma_literals();
    assert forall|i: int| 0 <= i < ls.len() implies newline_free(#[trigger] rewrite_line(ls[i])) by {
        assert(newline_free(ls[i]));
    }
    lemma_lines_of_render(ls);
}

/// What happens to one line of the header, by what it contains: a line
/// holding the 256 MiB define anywhere becomes that define commented out; a
/// line without it but holding the commented 8 GiB define anywhere, with any
/// text around it, becomes the 8 GiB define in force; any other line stays.
pub proof fn lemma_rewrite_line_cases(line: Seq<char>)
    ensures
        seq_contains(line, RAM_256M_LINE@) ==> rewrite_line(line) == RAM_256M_COMMENTED@,
        !seq_contains(line, RAM_256M_LINE@) && seq_contains(line, RAM_8G_COMMENTED@) ==> rewrite_line(line)
            == RAM_8G_LINE@,
        !seq_contains(line, RAM_256M_LINE@) && !seq_contains(line, RAM_8G_COMMENTED@) ==> rewrite_line(
            line,
        ) == line,
{
}

/// Each line of the header is written out rewritten and followed by `\n`,
/// in order: the output is the rewriting of the first line, a `\n`, then
/// the output for the remaining lines.
pub proof fn lemma_render_line_by_line(ls: Seq<Seq<char>>)
    requires
        ls.len() > 0,
    ensures
        render(ls) == rewrite_line(ls[0]) + seq!['\n'] + render(ls.drop_first()),
        render(Seq::<Seq<char>>::empty()) == Seq::<char>::empty(),
{
}


} // verus!
