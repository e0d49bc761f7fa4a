use crate::pattern::lines_view;
use vstd::prelude::*;
use vstd::string::*;

verus! {

/// The lines of `t`, cut at each newline; a text without newlines is one line.
pub open spec fn split_lines(t: Seq<char>) -> Seq<Seq<char>>
    decreases t.len(),
{
    if t.len() == 0 {
        seq![Seq::empty()]
    } else {
        let prev = split_lines(t.drop_last());
        if t.last() == '\n' {
            prev.push(Seq::empty())
        } else {
            prev.update(prev.len() - 1, prev.last().push(t.last()))
        }
    }
}

/// The lines of `r` with a newline between each two.
pub open spec fn join_lines(r: Seq<Seq<char>>) -> Seq<char>
    decreases r.len(),
{
    if r.len() == 0 {
        Seq::empty()
    } else if r.len() == 1 {
        r[0]
    } else {
        join_lines(r.drop_last()) + seq!['\n'] + r.last()
    }
}

pub open spec fn no_newline(s: Seq<char>) -> bool {
    forall|j: int| 0 <= j < s.len() ==> s[j] != '\n'
}

pub open spec fn no_newlines(r: Seq<Seq<char>>) -> bool {
    forall|i: int| 0 <= i < r.len() ==> no_newline(#[trigger] r[i])
}

/// Joining two newline-free texts gives a newline-free text.
pub proof fn lemma_no_newline_concat(a: Seq<char>, b: Seq<char>)
    requires
        no_newline(a),
        no_newline(b),
    ensures
        no_newline(a + b),
{
    assert forall|j: int| 0 <= j < (a + b).len() implies (a + b)[j] != '\n' by {
        if j < a.len() {
            assert((a + b)[j] == a[j]);
        } else {
            assert((a + b)[j] == b[j - a.len()]);
        }
    }
}

/// A piece of a newline-free text is newline-free.
pub proof fn lemma_no_newline_sub(a: Seq<char>, i: int, j: int)
    requires
        no_newline(a),
        0 <= i <= j <= a.len(),
    ensures
        no_newline(a.subrange(i, j)),
{
    assert forall|k: int| 0 <= k < a.subrange(i, j).len() implies a.subrange(i, j)[k] != '\n' by {
        assert(a.subrange(i, j)[k] == a[i + k]);
    }
}

pub proof fn lemma_split_nonempty(t: Seq<char>)
    ensures
        split_lines(t).len() >= 1,
    decreases t.len(),
{
    if t.len() > 0 {
        lemma_split_nonempty(t.drop_last());
    }
}

/// Splitting never yields a line with a newline in it.
pub proof fn lemma_split_no_newlines(t: Seq<char>)
    ensures
        no_newlines(split_lines(t)),
    decreases t.len(),
{
    if t.len() > 0 {
        lemma_split_no_newlines(t.drop_last());
        lemma_split_nonempty(t.drop_last());
        let prev = split_lines(t.drop_last());
        if t.last() != '\n' {
            let nl = prev.last().push(t.last());
            assert(no_newline(prev.last()));
            assert(no_newline(nl));
        }
    }
}

/// Appending text without newlines extends the last line.
proof fn lemma_split_append(s: Seq<char>, y: Seq<char>)
    requires
        no_newline(y),
    ensures
        split_lines(s + y) == split_lines(s).update(
            split_lines(s).len() - 1,
            split_lines(s).last() + y,
        ),
    decreases y.len(),
{
    lemma_split_nonempty(s);
    if y.len() == 0 {
        assert(s + y =~= s);
        assert(split_lines(s).last() + y =~= split_lines(s).last());
        assert(split_lines(s).update(split_lines(s).len() - 1, split_lines(s).last())
            =~= split_lines(s));
    } else {
        let y2 = y.drop_last();
        assert(no_newline(y2));
        assert(y.last() != '\n');
        lemma_split_nonempty(s + y2);
        lemma_split_append(s, y2);
        assert((s + y).drop_last() =~= s + y2);
        assert((s + y).last() == y.last());
        let p = split_lines(s);
        let q = split_lines(s + y2);
        assert(q == p.update(p.len() - 1, p.last() + y2));
        assert(q.len() == p.len());
        assert(q.last() == p.last() + y2);
        assert(split_lines(s + y) == q.update(q.len() - 1, q.last().push(y.last())));
        assert(p.last() + y2 + seq![y.last()] =~= p.last() + y);
        assert((p.last() + y2).push(y.last()) =~= p.last() + y);
        assert(split_lines(s + y) =~= p.update(p.len() - 1, p.last() + y));
    }
}

/// Splitting what was joined gives the lines back.
pub proof fn lemma_split_join(r: Seq<Seq<char>>)
    requires
        r.len() >= 1,
        no_newlines(r),
    ensures
        split_lines(join_lines(r)) == r,
    decreases r.len(),
{
    if r.len() == 1 {
        assert(no_newline(r[0]));
        lemma_split_append(Seq::empty(), r[0]);
        assert(Seq::<char>::empty() + r[0] =~= r[0]);
        assert(split_lines(Seq::<char>::empty()) == seq![Seq::<char>::empty()]);
        assert(Seq::<char>::empty() + r[0] =~= r[0]);
        assert(split_lines(join_lines(r)) =~= r);
    } else {
        let r2 = r.drop_last();
        assert(no_newlines(r2)) by {
            assert forall|i: int| 0 <= i < r2.len() implies no_newline(#[trigger] r2[i]) by {
                assert(r2[i] == r[i]);
            }
        }
        lemma_split_join(r2);
        let a = join_lines(r2) + seq!['\n'];
        assert(a.drop_last() =~= join_lines(r2));
        assert(split_lines(a) == r2.push(Seq::empty()));
        assert(no_newline(r[r.len() - 1]));
        lemma_split_append(a, r.last());
        assert(join_lines(r) == a + r.last());
        let q = r2.push(Seq::<char>::empty());
        assert(Seq::<char>::empty() + r.last() =~= r.last());
        assert(q.update(q.len() - 1, q.last() + r.last()) =~= r);
    }
}

pub proof fn lemma_lines_view_push(r: Seq<String>, x: String)
    ensures
        lines_view(r.push(x)) == lines_view(r).push(x@),
{
    assert(lines_view(r.push(x)) =~= lines_view(r).push(x@));
}

/// Relies on `String::push`: appends one character to the end of the string.
#[verifier::external_body]
pub fn push_char(s: &mut String, c: char)
    ensures
        final(s)@ == old(s)@.push(c),
{
    s.push(c);
}

/// The characters of `s` from `a` up to `b`, as a new string.
pub fn slice_chars(s: &str, a: usize, b: usize) -> (r: String)
    requires
        a <= b <= s@.len(),
    ensures
        r@ == s@.subrange(a as int, b as int),
{
    String::from_str(s.substring_char(a, b))
}

/// `a` followed by `b`.
pub fn concat_str(a: &str, b: &str) -> (r: String)
    ensures
        r@ == a@ + b@,
{
    let mut r = String::from_str(a);
    r.append(b);
    r
}

/// Copies of the lines of `v` from index `a` up to `b`.
pub fn copy_lines(v: &[String], a: usize, b: usize) -> (r: Vec<String>)
    requires
        a <= b <= v@.len(),
    ensures
        lines_view(r@) == lines_view(v@).subrange(a as int, b as int),
{
    let mut r: Vec<String> = Vec::new();
    let mut i: usize = a;
    while i < b
        invariant
            a <= i <= b <= v@.len(),
            lines_view(r@) =~= lines_view(v@).subrange(a as int, i as int),
        decreases b - i,
    {
        let line = v[i].clone();
        assert(line@ == lines_view(v@)[i as int]);
        proof {
            lemma_lines_view_push(r@, line);
            assert(lines_view(v@).subrange(a as int, i + 1) =~= lines_view(v@).subrange(
                a as int,
                i as int,
            ).push(line@));
        }
        r.push(line);
        i += 1;
    }
    r
}

/// Appends copies of the lines of `v` from `a` up to `b` to `out`.
pub fn extend_lines(out: &mut Vec<String>, v: &[String], a: usize, b: usize)
    requires
        a <= b <= v@.len(),
    ensures
        lines_view(final(out)@) == lines_view(old(out)@) + lines_view(v@).subrange(
            a as int,
            b as int,
        ),
{
    let mut i: usize = a;
    while i < b
        invariant
            a <= i <= b <= v@.len(),
            lines_view(out@) =~= lines_view(old(out)@) + lines_view(v@).subrange(
                a as int,
                i as int,
            ),
        decreases b - i,
    {
        let line = v[i].clone();
        assert(line@ == lines_view(v@)[i as int]);
        proof {
            lemma_lines_view_push(out@, line);
            assert(lines_view(v@).subrange(a as int, i + 1) =~= lines_view(v@).subrange(
                a as int,
                i as int,
            ).push(line@));
            assert(lines_view(old(out)@) + lines_view(v@).subrange(a as int, i + 1)
                =~= (lines_view(old(out)@) + lines_view(v@).subrange(a as int, i as int)).push(line@));
        }
        out.push(line);
        i += 1;
    }
}

/// Cuts `t` into lines at each newline.
pub fn split_text(t: &str) -> (r: Vec<String>)
    ensures
        lines_view(r@) == split_lines(t@),
        r@.len() >= 1,
{
    let n = t.unicode_len();
    let mut r: Vec<String> = Vec::new();
    r.push(String::new());
    let mut i: usize = 0;
    proof {
        assert(t@.subrange(0, 0) =~= Seq::<char>::empty());
        assert(lines_view(r@) =~= seq![Seq::<char>::empty()]);
    }
    while i < n
        invariant
            n == t@.len(),
            i <= n,
            r@.len() >= 1,
            lines_view(r@) == split_lines(t@.subrange(0, i as int)),
        decreases n - i,
    {
        let c = t.get_char(i);
        proof {
            assert(t@.subrange(0, i + 1).drop_last() =~= t@.subrange(0, i as int));
            lemma_split_nonempty(t@.subrange(0, i as int));
        }
        if c == '\n' {
            r.push(String::new());
            assert(lines_view(r@) =~= split_lines(t@.subrange(0, i + 1)));
        } else {
            let mut last = r.pop().unwrap();
            push_char(&mut last, c);
            r.push(last);
            assert(lines_view(r@) =~= split_lines(t@.subrange(0, i + 1)));
        }
        i += 1;
    }
    assert(t@.subrange(0, n as int) =~= t@);
    r
}

/// The lines joined with a newline between each two.
pub fn join_text(lines: &[String]) -> (r: String)
    ensures
        r@ == join_lines(lines_view(lines@)),
{
    if lines.len() == 0 {
        return String::new();
    }
    let mut out = lines[0].clone();
    let ghost v = lines_view(lines@);
    let mut i: usize = 1;
    proof {
        assert(v.subrange(0, 1).len() == 1);
    }
    while i < lines.len()
        invariant
            1 <= i <= lines@.len(),
            v == lines_view(lines@),
            out@ == join_lines(v.subrange(0, i as int)),
        decreases lines@.len() - i,
    {
        proof {
            reveal_strlit("\n");
            assert(v.subrange(0, i + 1).drop_last() =~= v.subrange(0, i as int));
        }
        out.append("\n");
        out.append(lines[i].as_str());
        assert(out@ =~= join_lines(v.subrange(0, i + 1)));
        i += 1;
    }
    assert(v.subrange(0, lines@.len() as int) =~= v);
    out
}

} // verus!
