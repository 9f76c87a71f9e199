//! Text files as lists of lines.
//!
//! A text is split into lines at `\n`; a `\r` just before a `\n` belongs to
//! the line ending; the last line needs no `\n` after it, and an empty text
//! after the last `\n` is no line. A list of lines is written with a `\n`
//! after each line.
use vstd::prelude::*;
use crate::text::strings_view;
use vstd::string::*;

verus! {

/// A line without the `\r` of a `\r\n` ending.
pub open spec fn strip_cr(line: Seq<char>) -> Seq<char> {
    if line.len() > 0 && line.last() == '\r' {
        line.drop_last()
    } else {
        line
    }
}

/// Reads a text left to right: the lines ended so far, and the line still
/// open.
pub open spec fn scan_lines(t: Seq<char>) -> (Seq<Seq<char>>, Seq<char>)
    decreases t.len(),
{
    if t.len() == 0 {
        (Seq::empty(), Seq::empty())
    } else {
        let prev = scan_lines(t.drop_last());
        if t.last() == '\n' {
            (prev.0.push(strip_cr(prev.1)), Seq::empty())
        } else {
            (prev.0, prev.1.push(t.last()))
        }
    }
}

/// The lines of a text.
pub open spec fn spec_split_lines(t: Seq<char>) -> Seq<Seq<char>> {
    let s = scan_lines(t);
    if s.1.len() > 0 {
        s.0.push(s.1)
    } else {
        s.0
    }
}

/// A list of lines written out, each followed by `\n`.
pub open spec fn spec_render_lines(lines: Seq<Seq<char>>) -> Seq<char>
    decreases lines.len(),
{
    if lines.len() == 0 {
        Seq::empty()
    } else {
        spec_render_lines(lines.drop_last()) + lines.last() + seq!['\n']
    }
}

/// A line that survives being written and read back: no `\n` in it and no
/// `\r` at its end.
pub open spec fn is_plain_line(l: Seq<char>) -> bool {
    &&& forall|i: int| 0 <= i < l.len() ==> l[i] != '\n'
    &&& !(l.len() > 0 && l.last() == '\r')
}

/// Splits a text into its lines.
pub fn split_lines(text: &str) -> (res: Vec<String>)
    ensures
        strings_view(res@) == spec_split_lines(text@),
{
    let n = text.unicode_len();
    let mut done: Vec<String> = Vec::new();
    let mut start: usize = 0;
    let mut i: usize = 0;
    assert(text@.take(0) =~= Seq::<char>::empty());
    while i < n
        invariant
            n == text@.len(),
            start <= i <= n,
            strings_view(done@) == scan_lines(text@.take(i as int)).0,
            text@.subrange(start as int, i as int) == scan_lines(text@.take(i as int)).1,
        decreases n - i,
    {
        let c = text.get_char(i);
        assert(text@.take(i + 1).drop_last() =~= text@.take(i as int));
        assert(text@.take(i + 1).last() == c);
        if c == '\n' {
            let ghost cur = text@.subrange(start as int, i as int);
            let line = if i > start && text.get_char(i - 1) == '\r' {
                assert(cur.drop_last() =~= text@.subrange(start as int, i - 1));
                text.substring_char(start, i - 1)
            } else {
                text.substring_char(start, i)
            };
            assert(line@ == strip_cr(cur));
            let ghost before = strings_view(done@);
            done.push(String::from_str(line));
            assert(strings_view(done@) =~= before.push(strip_cr(cur)));
            start = i + 1;
            assert(text@.subrange(start as int, i + 1) =~= Seq::<char>::empty());
        } else {
            assert(text@.subrange(start as int, i + 1) =~= text@.subrange(start as int, i as int).push(c));
        }
        i = i + 1;
    }
    assert(text@.take(n as int) =~= text@);
    if start < n {
        let ghost before = strings_view(done@);
        done.push(String::from_str(text.substring_char(start, n)));
        assert(strings_view(done@) =~= before.push(text@.subrange(start as int, n as int)));
    }
    done
}

/// Writes a list of lines out, each followed by `\n`.
pub fn render_lines(lines: &Vec<String>) -> (res: String)
    ensures
        res@ == spec_render_lines(strings_view(lines@)),
{
    let ghost lv = strings_view(lines@);
    let mut out = String::new();
    let mut k: usize = 0;
    assert(lv.take(0) =~= Seq::<Seq<char>>::empty());
    while k < lines.len()
        invariant
            lv == strings_view(lines@),
            k <= lines@.len(),
            out@ == spec_render_lines(lv.take(k as int)),
        decreases lines@.len() - k,
    {
        assert(lv.take(k + 1).drop_last() =~= lv.take(k as int));
        assert(lv.take(k + 1).last() == lines@[k as int]@);
        out.append(lines[k].as_str());
        proof {
            reveal_strlit("\n");
        }
        out.append("\n");
        k = k + 1;
    }
    assert(lv.take(lines@.len() as int) =~= lv);
    out
}

/// Reading a text that holds no `\n` only extends the open line.
pub proof fn lemma_scan_no_newline(x: Seq<char>, y: Seq<char>)
    requires
        forall|i: int| 0 <= i < y.len() ==> y[i] != '\n',
    ensures
        scan_lines(x + y) == (scan_lines(x).0, scan_lines(x).1 + y),
    decreases y.len(),
{
    if y.len() == 0 {
        assert(x + y =~= x);
        assert(scan_lines(x).1 + y =~= scan_lines(x).1);
    } else {
        let y0 = y.drop_last();
        lemma_scan_no_newline(x, y0);
        assert((x + y).drop_last() =~= x + y0);
        assert((x + y).last() == y.last());
        assert(scan_lines(x).1 + y0 + seq![y.last()] =~= scan_lines(x).1 + y);
        assert((scan_lines(x).1 + y0).push(y.last()) =~= scan_lines(x).1 + y);
    }
}

/// Lines written out and read back are the lines written, when each is a
/// plain line.
pub proof fn lemma_split_render_roundtrip(lines: Seq<Seq<char>>)
    requires
        forall|k: int| 0 <= k < lines.len() ==> is_plain_line(#[trigger] lines[k]),
    ensures
        spec_split_lines(spec_render_lines(lines)) == lines,
    decreases lines.len(),
{
    lemma_scan_render(lines);
    assert(scan_lines(spec_render_lines(lines)).1.len() == 0);
}

proof fn lemma_scan_render(lines: Seq<Seq<char>>)
    requires
        forall|k: int| 0 <= k < lines.len() ==> is_plain_line(#[trigger] lines[k]),
    ensures
        scan_lines(spec_render_lines(lines)) == (lines, Seq::<char>::empty()),
    decreases lines.len(),
{
    if lines.len() == 0 {
        assert(spec_render_lines(lines) =~= Seq::<char>::empty());
        assert(lines =~= Seq::<Seq<char>>::empty());
    } else {
        let init = lines.drop_last();
        let l = lines.last();
        assert forall|k: int| 0 <= k < init.len() implies is_plain_line(#[trigger] init[k]) by {
            assert(init[k] == lines[k]);
        }
        lemma_scan_render(init);
        let r0 = spec_render_lines(init);
        assert(is_plain_line(lines[lines.len() - 1]));
        lemma_scan_no_newline(r0, l);
        let t = spec_render_lines(lines);
        assert(t =~= (r0 + l) + seq!['\n']);
        assert(t.drop_last() =~= r0 + l);
        assert(scan_lines(r0 + l).1 =~= l);
        assert(strip_cr(l) == l);
        assert(init.push(l) =~= lines);
    }
}

/// Written out, a list of lines takes at least one character per line, so
/// a file of one or more lines is never empty.
pub proof fn lemma_render_lines_not_shorter(lines: Seq<Seq<char>>)
    ensures
        spec_render_lines(lines).len() >= lines.len(),
    decreases lines.len(),
{
    if lines.len() > 0 {
        lemma_render_lines_not_shorter(lines.drop_last());
    }
}

} // verus!
