//! Splitting a text into its lines: a line ends at `\n` or at `\r\n`, and a
//! final line ending is optional.
use vstd::prelude::*;

verus! {

/// What a reader holds after reading `s`: the lines it has finished, and the
/// text of the line still open.
pub open spec fn scan_lines(s: Seq<char>) -> (Seq<Seq<char>>, Seq<char>)
    decreases s.len(),
{
    if s.len() == 0 {
        (seq![], seq![])
    } else {
        let (done, open) = scan_lines(s.drop_last());
        if s.last() == '\n' {
            (done.push(strip_cr(open)), seq![])
        } else {
            (done, open.push(s.last()))
        }
    }
}

/// A line that was ended by `\r\n` loses its `\r`.
pub open spec fn strip_cr(line: Seq<char>) -> Seq<char> {
    if line.len() > 0 && line.last() == '\r' {
        line.drop_last()
    } else {
        line
    }
}

/// The lines of `s`, in order, without their line endings. A last line with
/// no line ending counts; an empty remainder after the last `\n` does not.
pub open spec fn lines_of(s: Seq<char>) -> Seq<Seq<char>> {
    let (done, open) = scan_lines(s);
    if open.len() == 0 {
        done
    } else {
        done.push(open)
    }
}

/// The text that writes each of `lines` followed by `\n`.
pub open spec fn join_lines(lines: Seq<Seq<char>>) -> Seq<char>
    decreases lines.len(),
{
    if lines.len() == 0 {
        seq![]
    } else {
        join_lines(lines.drop_last()) + lines.last() + seq!['\n']
    }
}

/// A line as it can stand in a text: no `\n` in it, and no `\r` at its end,
/// which would read as part of a `\r\n` line ending.
pub open spec fn is_bare_line(line: Seq<char>) -> bool {
    &&& forall|i: int| 0 <= i < line.len() ==> #[trigger] line[i] != '\n'
    &&& !(line.len() > 0 && line.last() == '\r')
}

/// Reading characters other than `\n` only extends the open line.
proof fn lemma_scan_within_line(a: Seq<char>, l: Seq<char>)
    requires
        forall|i: int| 0 <= i < l.len() ==> #[trigger] l[i] != '\n',
    ensures
        scan_lines(a + l) == (scan_lines(a).0, scan_lines(a).1 + l),
    decreases l.len(),
{
    if l.len() == 0 {
        assert(a + l == a);
        assert(scan_lines(a).1 + l == scan_lines(a).1);
    } else {
        assert((a + l).drop_last() == a + l.drop_last());
        lemma_scan_within_line(a, l.drop_last());
        assert(scan_lines(a).1 + l.drop_last() + seq![l.last()] == scan_lines(a).1 + l);
    }
}

/// Writing lines each followed by `\n` and reading the text back gives the
/// same lines, as many and in the same order.
pub proof fn lemma_lines_round_trip(lines: Seq<Seq<char>>)
    requires
        forall|i: int| 0 <= i < lines.len() ==> is_bare_line(#[trigger] lines[i]),
    ensures
        lines_of(join_lines(lines)) == lines,
        scan_lines(join_lines(lines)) == (lines, Seq::<char>::empty()),
    decreases lines.len(),
{
    if lines.len() > 0 {
        let init = lines.drop_last();
        let l = lines.last();
        assert(forall|i: int| 0 <= i < init.len() ==> #[trigger] init[i] == lines[i]);
        lemma_lines_round_trip(init);
        assert(is_bare_line(lines[lines.len() - 1]));
        lemma_scan_within_line(join_lines(init), l);
        let t = join_lines(init) + l + seq!['\n'];
        assert(t.drop_last() == join_lines(init) + l);
        assert(Seq::<char>::empty() + l == l);
        assert(init.push(l) == lines);
    }
}

/// A text has no line exactly when it is empty.
pub proof fn lemma_no_lines_iff_empty(s: Seq<char>)
    ensures
        lines_of(s).len() == 0 <==> s.len() == 0,
{
}

/// The final line ending is optional: a text that ends inside a line reads
/// the same with a `\n` after it.
pub proof fn lemma_final_newline_optional(s: Seq<char>)
    requires
        s.len() > 0,
        s.last() != '\n',
        s.last() != '\r',
    ensures
        lines_of(s.push('\n')) == lines_of(s),
{
    assert(s.push('\n').drop_last() == s);
}

/// The views of a vector of strings.
pub open spec fn views(v: Seq<String>) -> Seq<Seq<char>> {
    v.map_values(|l: String| l@)
}

/// Relies on `String::push`: appends one character.
#[verifier::external_body]
fn push_char(s: &mut String, c: char)
    ensures
        final(s)@ == old(s)@.push(c),
{
    s.push(c)
}

/// Relies on `String::pop`: removes the last character, if any.
#[verifier::external_body]
fn pop_char(s: &mut String) -> (r: Option<char>)
    ensures
        old(s)@.len() == 0 ==> r is None && final(s)@ == old(s)@,
        old(s)@.len() > 0 ==> r == Some(old(s)@.last()) && final(s)@ == old(s)@.drop_last(),
{
    s.pop()
}

/// The lines of `text`, in order, without their line endings.
pub fn split_lines(text: &str) -> (r: Vec<String>)
    ensures
        views(r@) == lines_of(text@),
{
    broadcast use vstd::string::group_string_axioms;

    let mut done: Vec<String> = Vec::new();
    let mut open = String::new();
    let mut ends_with_cr = false;
    let ghost s = text@;
    for c in it: text.chars()
        invariant
            it.seq() == s,
            scan_lines(s.take(it.index())) == (views(done@), open@),
            ends_with_cr <==> open@.len() > 0 && open@.last() == '\r',
    {
        let ghost i = it.index();
        assert(s.take(i + 1).drop_last() == s.take(i));
        if c == '\n' {
            if ends_with_cr {
                pop_char(&mut open);
            }
            done.push(open);
            open = String::new();
        } else {
            push_char(&mut open, c);
        }
        ends_with_cr = c == '\r';
        assert(views(done@) == scan_lines(s.take(i + 1)).0);
    }
    assert(s.take(s.len() as int) == s);
    if !open.as_str().is_empty() {
        done.push(open);
    }
    assert(views(done@) == lines_of(s));
    done
}

} // verus!
