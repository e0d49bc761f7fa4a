use crate::common::{lc_le, lc_lt, BaseAction, Lazy, LineCol, Modal};
use crate::error::{Error, Result};
use crate::lines::{lemma_no_newline_concat, lemma_no_newline_sub, lemma_split_join, lemma_split_nonempty, lemma_split_no_newlines, no_newline, no_newlines, push_char, concat_str, copy_lines, extend_lines, join_lines, join_text, slice_chars, split_lines, split_text};
use crate::pattern::lines_view;
use vstd::prelude::*;
use vstd::string::*;

verus! {

/// The most snapshots that each history stack keeps.
pub const HISTORY_CAP: usize = 1000;

/// A position that names a line of `p` and a column from 0 up to that line's length.
pub open spec fn valid_pos(p: Seq<Seq<char>>, at: LineCol) -> bool {
    at.line < p.len() && at.col <= p[at.line as int].len()
}

/// The lines `r` put between `head` and `tail`: `head` goes before the first and
/// `tail` after the last.
pub open spec fn spliced(head: Seq<char>, r: Seq<Seq<char>>, tail: Seq<char>) -> Seq<Seq<char>> {
    let a = r.update(0, head + r[0]);
    a.update(r.len() - 1, a[r.len() - 1] + tail)
}

/// `p` with the text from `from` up to `to` replaced by the lines `r`.
pub open spec fn replaced(p: Seq<Seq<char>>, from: LineCol, to: LineCol, r: Seq<Seq<char>>) -> Seq<
    Seq<char>,
> {
    let fl = from.line as int;
    let tl = to.line as int;
    p.subrange(0, fl) + spliced(p[fl].subrange(0, from.col as int), r, p[tl].subrange(
        to.col as int,
        p[tl].len() as int,
    )) + p.subrange(tl + 1, p.len() as int)
}

/// `p` without the lines `fl` to `tl`; a plane that would be left empty keeps one empty line.
pub open spec fn removed_lines(p: Seq<Seq<char>>, fl: int, tl: int) -> Seq<Seq<char>> {
    let q = p.subrange(0, fl) + p.subrange(tl + 1, p.len() as int);
    if q.len() == 0 {
        seq![Seq::empty()]
    } else {
        q
    }
}

/// The range that `delete_selection` accepts.
pub open spec fn deletable(p: Seq<Seq<char>>, from: LineCol, to: LineCol) -> bool {
    &&& valid_pos(p, from)
    &&& valid_pos(p, to)
    &&& lc_lt(from, to)
}

/// `p` after the deletion of the text from `from` up to `to`; a range from the start of a
/// line to the end of a line takes the whole lines.
pub open spec fn selection_deleted(p: Seq<Seq<char>>, from: LineCol, to: LineCol) -> Seq<
    Seq<char>,
> {
    if from.col == 0 && to.col == p[to.line as int].len() {
        removed_lines(p, from.line as int, to.line as int)
    } else {
        replaced(p, from, to, seq![Seq::empty()])
    }
}

/// What `replace` makes of `p`: the range deleted as `delete_selection` does (an empty range
/// deletes nothing), then the lines `r` inserted at `from` as `insert_text` does; `None`
/// where `from` is no longer a position of the plane after the deletion.
pub open spec fn replace_result(p: Seq<Seq<char>>, from: LineCol, to: LineCol, r: Seq<Seq<char>>) -> Option<
    Seq<Seq<char>>,
> {
    let q = if from == to {
        p
    } else {
        selection_deleted(p, from, to)
    };
    if valid_pos(q, from) {
        Some(replaced(q, from, from, r))
    } else {
        None
    }
}

/// The text from `from` up to `to`, one entry per line.
pub open spec fn window(p: Seq<Seq<char>>, from: LineCol, to: LineCol) -> Seq<Seq<char>> {
    let fl = from.line as int;
    let tl = to.line as int;
    if fl == tl {
        seq![p[fl].subrange(from.col as int, to.col as int)]
    } else {
        let s = p.subrange(fl, tl + 1);
        s.update(0, p[fl].subrange(from.col as int, p[fl].len() as int)).update(
            s.len() - 1,
            p[tl].subrange(0, to.col as int),
        )
    }
}

/// A range of valid positions whose start does not come after its end.
pub open spec fn range_ok(p: Seq<Seq<char>>, from: LineCol, to: LineCol) -> bool {
    valid_pos(p, from) && valid_pos(p, to) && lc_le(from, to)
}

/// `s` with `x` pushed on top, the oldest entries dropped beyond the cap.
pub open spec fn capped_push<T>(s: Seq<T>, x: T) -> Seq<T> {
    let t = s.push(x);
    if t.len() > HISTORY_CAP {
        t.subrange(t.len() - HISTORY_CAP, t.len() as int)
    } else {
        t
    }
}

/// Each snapshot holds at least one line.
pub open spec fn snapshots_ok(s: Seq<(Seq<Seq<char>>, LineCol)>) -> bool {
    forall|i: int| 0 <= i < s.len() ==> plane_ok(#[trigger] s[i].0)
}

/// A plane holds at least one line, and no line holds a newline.
pub open spec fn plane_ok(p: Seq<Seq<char>>) -> bool {
    p.len() >= 1 && no_newlines(p)
}

pub proof fn lemma_clean_concat(a: Seq<Seq<char>>, b: Seq<Seq<char>>)
    requires
        no_newlines(a),
        no_newlines(b),
    ensures
        no_newlines(a + b),
{
    assert forall|i: int| 0 <= i < (a + b).len() implies no_newline(#[trigger] (a + b)[i]) by {
        if i < a.len() {
            assert((a + b)[i] == a[i]);
        } else {
            assert((a + b)[i] == b[i - a.len()]);
        }
    }
}

pub proof fn lemma_clean_sub(p: Seq<Seq<char>>, i: int, j: int)
    requires
        no_newlines(p),
        0 <= i <= j <= p.len(),
    ensures
        no_newlines(p.subrange(i, j)),
{
    assert forall|k: int| 0 <= k < p.subrange(i, j).len() implies no_newline(
        #[trigger] p.subrange(i, j)[k],
    ) by {
        assert(p.subrange(i, j)[k] == p[i + k]);
    }
}

pub proof fn lemma_clean_update(p: Seq<Seq<char>>, i: int, x: Seq<char>)
    requires
        no_newlines(p),
        no_newline(x),
        0 <= i < p.len(),
    ensures
        no_newlines(p.update(i, x)),
{
    assert forall|k: int| 0 <= k < p.update(i, x).len() implies no_newline(
        #[trigger] p.update(i, x)[k],
    ) by {
        if k != i {
            assert(p.update(i, x)[k] == p[k]);
        }
    }
}

/// Replacing a range of a newline-free plane by newline-free lines keeps it newline-free.
pub proof fn lemma_clean_replaced(p: Seq<Seq<char>>, from: LineCol, to: LineCol, r: Seq<Seq<char>>)
    requires
        no_newlines(p),
        no_newlines(r),
        r.len() >= 1,
        from.line <= to.line < p.len(),
        from.col <= p[from.line as int].len(),
        to.col <= p[to.line as int].len(),
    ensures
        no_newlines(replaced(p, from, to, r)),
{
    let fl = from.line as int;
    let tl = to.line as int;
    assert(no_newline(p[fl]));
    assert(no_newline(p[tl]));
    assert(no_newline(r[0]));
    assert(no_newline(r[r.len() - 1]));
    let head = p[fl].subrange(0, from.col as int);
    let tail = p[tl].subrange(to.col as int, p[tl].len() as int);
    lemma_no_newline_sub(p[fl], 0, from.col as int);
    lemma_no_newline_sub(p[tl], to.col as int, p[tl].len() as int);
    lemma_no_newline_concat(head, r[0]);
    let a = r.update(0, head + r[0]);
    lemma_clean_update(r, 0, head + r[0]);
    assert(no_newline(a[r.len() - 1]));
    lemma_no_newline_concat(a[r.len() - 1], tail);
    lemma_clean_update(a, r.len() - 1, a[r.len() - 1] + tail);
    lemma_clean_sub(p, 0, fl);
    lemma_clean_sub(p, tl + 1, p.len() as int);
    let b = spliced(head, r, tail);
    lemma_clean_concat(p.subrange(0, fl), b);
    lemma_clean_concat(p.subrange(0, fl) + b, p.subrange(tl + 1, p.len() as int));
}

/// Removing lines keeps a newline-free plane newline-free.
pub proof fn lemma_clean_removed(p: Seq<Seq<char>>, fl: int, tl: int)
    requires
        no_newlines(p),
        0 <= fl <= tl < p.len(),
    ensures
        plane_ok(removed_lines(p, fl, tl)),
{
    lemma_clean_sub(p, 0, fl);
    lemma_clean_sub(p, tl + 1, p.len() as int);
    lemma_clean_concat(p.subrange(0, fl), p.subrange(tl + 1, p.len() as int));
    let q = p.subrange(0, fl) + p.subrange(tl + 1, p.len() as int);
    if q.len() == 0 {
        assert(no_newline(Seq::<char>::empty()));
        assert(no_newlines(seq![Seq::<char>::empty()]));
    }
}

pub proof fn lemma_capped_push_ok(s: Seq<(Seq<Seq<char>>, LineCol)>, x: (Seq<Seq<char>>, LineCol))
    requires
        snapshots_ok(s),
        plane_ok(x.0),
    ensures
        snapshots_ok(capped_push(s, x)),
        capped_push(s, x).len() <= HISTORY_CAP || capped_push(s, x).len() == s.len() + 1,
{
    let t = s.push(x);
    assert(snapshots_ok(t)) by {
        assert forall|i: int| 0 <= i < t.len() implies plane_ok(#[trigger] t[i].0) by {
            if i < s.len() {
                assert(t[i] == s[i]);
            }
        }
    }
    if t.len() > HISTORY_CAP {
        let u = t.subrange(t.len() - HISTORY_CAP, t.len() as int);
        assert forall|i: int| 0 <= i < u.len() implies plane_ok(#[trigger] u[i].0) by {
            assert(u[i] == t[i + t.len() - HISTORY_CAP]);
        }
    }
}

pub proof fn lemma_drop_last_ok(s: Seq<(Seq<Seq<char>>, LineCol)>)
    requires
        snapshots_ok(s),
        s.len() > 0,
    ensures
        snapshots_ok(s.drop_last()),
{
    assert forall|i: int| 0 <= i < s.drop_last().len() implies plane_ok(#[trigger] s.drop_last()[i].0) by {
        assert(s.drop_last()[i] == s[i]);
    }
}

/// The document with its undo and redo histories.
pub type History = (Seq<Seq<char>>, Seq<(Seq<Seq<char>>, LineCol)>, Seq<(Seq<Seq<char>>, LineCol)>);

/// One undo: the most recent snapshot becomes the document, and the document, with `at`,
/// goes on the redo history; nothing happens without a snapshot.
pub open spec fn undo_step(h: History, at: LineCol) -> History {
    if h.1.len() == 0 {
        h
    } else {
        (h.1.last().0, h.1.drop_last(), capped_push(h.2, (h.0, at)))
    }
}

/// One redo, the mirror of `undo_step`.
pub open spec fn redo_step(h: History, at: LineCol) -> History {
    if h.2.len() == 0 {
        h
    } else {
        (h.2.last().0, capped_push(h.1, (h.0, at)), h.2.drop_last())
    }
}

/// `n` undos, or `n` redos, one after the other.
pub open spec fn history_steps(h: History, at: LineCol, n: nat, redo: bool) -> History
    decreases n,
{
    if n == 0 {
        h
    } else {
        let prev = history_steps(h, at, (n - 1) as nat, redo);
        if redo {
            redo_step(prev, at)
        } else {
            undo_step(prev, at)
        }
    }
}

/// The number of snapshots that the steps use up: one per step while there are any.
pub proof fn lemma_history_steps(h: History, at: LineCol, n: nat, redo: bool)
    ensures
        !redo && n <= h.1.len() ==> history_steps(h, at, n, redo).1.len() == h.1.len() - n,
        !redo && n >= h.1.len() ==> history_steps(h, at, n, redo).1.len() == 0,
        redo && n <= h.2.len() ==> history_steps(h, at, n, redo).2.len() == h.2.len() - n,
        redo && n >= h.2.len() ==> history_steps(h, at, n, redo).2.len() == 0,
    decreases n,
{
    if n > 0 {
        lemma_history_steps(h, at, (n - 1) as nat, redo);
    }
}

/// Once the snapshots are used up, further steps change nothing.
pub proof fn lemma_history_steps_stop(h: History, at: LineCol, i: nat, n: nat, redo: bool)
    requires
        i <= n,
        !redo ==> history_steps(h, at, i, redo).1.len() == 0,
        redo ==> history_steps(h, at, i, redo).2.len() == 0,
    ensures
        history_steps(h, at, n, redo) == history_steps(h, at, i, redo),
    decreases n - i,
{
    if n > i {
        lemma_history_steps_stop(h, at, i, (n - 1) as nat, redo);
    }
}

/// A snapshot of the document together with the cursor position when it was taken.
#[derive(Debug)]
pub struct StateCapsule {
    content: Vec<String>,
    loc: LineCol,
}

impl View for StateCapsule {
    type V = (Seq<Seq<char>>, LineCol);

    closed spec fn view(&self) -> (Seq<Seq<char>>, LineCol) {
        (lines_view(self.content@), self.loc)
    }
}

impl StateCapsule {
    pub fn new(content: Vec<String>, loc: LineCol) -> (r: StateCapsule)
        ensures
            r@ == (lines_view(content@), loc),
    {
        StateCapsule { content, loc }
    }
}

/// A stack of snapshots; its top is the last entry of its view.
#[derive(Debug)]
pub struct Stack {
    content: Vec<StateCapsule>,
}

impl View for Stack {
    type V = Seq<(Seq<Seq<char>>, LineCol)>;

    closed spec fn view(&self) -> Seq<(Seq<Seq<char>>, LineCol)> {
        Seq::new(self.content@.len(), |i: int| self.content@[i]@)
    }
}

impl Stack {
    pub fn new() -> (r: Stack)
        ensures
            r@ == Seq::<(Seq<Seq<char>>, LineCol)>::empty(),
    {
        let r = Stack { content: Vec::new() };
        assert(r@ =~= Seq::<(Seq<Seq<char>>, LineCol)>::empty());
        r
    }

    /// Drops the oldest entries beyond the cap.
    fn truncate(&mut self)
        ensures
            old(self)@.len() > HISTORY_CAP ==> final(self)@ == old(self)@.subrange(
                old(self)@.len() - HISTORY_CAP,
                old(self)@.len() as int,
            ),
            old(self)@.len() <= HISTORY_CAP ==> final(self)@ == old(self)@,
    {
        let ghost start = self@;
        while self.content.len() > HISTORY_CAP
            invariant
                start.len() >= self@.len(),
                self@.len() == start.len() || self@.len() >= HISTORY_CAP,
                self@ == start.subrange(start.len() - self@.len(), start.len() as int),
            decreases self.content@.len(),
        {
            let ghost before = self@;
            let ghost before_content = self.content@;
            let _ = self.content.remove(0);
            assert forall|i: int| 0 <= i < self@.len() implies self@[i] == before[i + 1] by {
                assert(self.content@[i] == before_content[i + 1]);
            }
            assert(self@ =~= start.subrange(start.len() - self@.len(), start.len() as int));
        }
        assert(start.len() <= HISTORY_CAP ==> self@ =~= start);
    }

    /// Removes and returns the top entry, if there is one.
    pub fn pop(&mut self) -> (r: Option<StateCapsule>)
        ensures
            old(self)@.len() == 0 ==> r is None && final(self)@ == old(self)@,
            old(self)@.len() > 0 ==> (r matches Some(c) && c@ == old(self)@.last() && final(self)@ == old(self)@.drop_last()),
    {
        if self.content.len() == 0 {
            return None;
        }
        let r = self.content.pop();
        assert(self@ =~= old(self)@.drop_last());
        r
    }

    /// Pushes an entry on top, dropping the oldest beyond the cap.
    pub fn push(&mut self, el: StateCapsule)
        ensures
            final(self)@ == capped_push(old(self)@, el@),
    {
        self.content.push(el);
        assert(self@ =~= old(self)@.push(el@));
        self.truncate();
    }

    pub fn is_empty(&self) -> (r: bool)
        ensures
            r == (self@.len() == 0),
    {
        self.content.len() == 0
    }
}

/// Which of the three planes edits go to.
#[derive(Clone, Copy, Debug, PartialEq, Eq, Structural)]
pub enum BufferPlane {
    Normal,
    Terminal,
    Command,
}

/// The plane that a mode edits.
pub open spec fn plane_of(m: Modal) -> BufferPlane {
    match m {
        Modal::Command | Modal::Find(_) => BufferPlane::Command,
        _ => BufferPlane::Normal,
    }
}

/// A line-based text store with three planes (document, command line, terminal)
/// and an undo history of document snapshots.
#[derive(Debug)]
pub struct VecBuffer {
    text: Vec<String>,
    terminal: Vec<String>,
    command: Vec<String>,
    past: Stack,
    future: Stack,
    plane: BufferPlane,
}

/// `new` is `old` with the active plane set to `p`; all else is kept.
pub open spec fn active_set(old: VecBuffer, new: VecBuffer, p: Seq<Seq<char>>) -> bool {
    &&& new.plane() == old.plane()
    &&& new.active() == p
    &&& new.past() == old.past()
    &&& new.future() == old.future()
    &&& old.plane() != BufferPlane::Normal ==> new.normal() == old.normal()
    &&& old.plane() != BufferPlane::Command ==> new.command() == old.command()
    &&& old.plane() != BufferPlane::Terminal ==> new.terminal() == old.terminal()
}

impl VecBuffer {
    /// The document.
    pub closed spec fn normal(&self) -> Seq<Seq<char>> {
        lines_view(self.text@)
    }

    /// The command line.
    pub closed spec fn command(&self) -> Seq<Seq<char>> {
        lines_view(self.command@)
    }

    /// The terminal scratch area.
    pub closed spec fn terminal(&self) -> Seq<Seq<char>> {
        lines_view(self.terminal@)
    }

    pub closed spec fn plane(&self) -> BufferPlane {
        self.plane
    }

    /// Snapshots to go back to, the most recent last.
    pub closed spec fn past(&self) -> Seq<(Seq<Seq<char>>, LineCol)> {
        self.past@
    }

    /// Snapshots that were undone, the most recent last.
    pub closed spec fn future(&self) -> Seq<(Seq<Seq<char>>, LineCol)> {
        self.future@
    }

    /// The document with its undo and redo histories.
    pub open spec fn history(&self) -> History {
        (self.normal(), self.past(), self.future())
    }

    /// The plane that edits go to.
    pub open spec fn active(&self) -> Seq<Seq<char>> {
        match self.plane() {
            BufferPlane::Normal => self.normal(),
            BufferPlane::Command => self.command(),
            BufferPlane::Terminal => self.terminal(),
        }
    }

    /// Every plane holds at least one line and no line holds a newline; each history stack
    /// keeps to its cap, and so does each of its snapshots.
    pub open spec fn wf(&self) -> bool {
        &&& plane_ok(self.normal())
        &&& plane_ok(self.command())
        &&& plane_ok(self.terminal())
        &&& self.past().len() <= HISTORY_CAP
        &&& self.future().len() <= HISTORY_CAP
        &&& snapshots_ok(self.past())
        &&& snapshots_ok(self.future())
    }

    /// A buffer whose document holds `text`; an empty `text` gives one empty line.
    pub fn new(text: Vec<String>) -> (r: Self)
        requires
            no_newlines(lines_view(text@)),
        ensures
            r.wf(),
            r.normal() == (if text@.len() == 0 {
                seq![Seq::<char>::empty()]
            } else {
                lines_view(text@)
            }),
            r.command() == seq![Seq::<char>::empty()],
            r.terminal() == seq![Seq::<char>::empty()],
            r.plane() == BufferPlane::Normal,
            r.past().len() == 0,
            r.future().len() == 0,
    {
        let ghost given = text@;
        let mut text = text;
        if text.len() == 0 {
            text.push(String::new());
        }
        let mut terminal: Vec<String> = Vec::new();
        terminal.push(String::new());
        let mut command: Vec<String> = Vec::new();
        command.push(String::new());
        let r = VecBuffer {
            text,
            terminal,
            command,
            past: Stack::new(),
            future: Stack::new(),
            plane: BufferPlane::Normal,
        };
        assert(r.normal() =~= (if given.len() == 0 {
            seq![Seq::<char>::empty()]
        } else {
            lines_view(given)
        }));
        assert(r.command() =~= seq![Seq::<char>::empty()]);
        assert(r.terminal() =~= seq![Seq::<char>::empty()]);
        assert(no_newline(Seq::<char>::empty()));
        assert(no_newlines(seq![Seq::<char>::empty()]));
        r
    }

    fn get_buffer(&self) -> (r: &Vec<String>)
        ensures
            lines_view(r@) == self.active(),
    {
        match self.plane {
            BufferPlane::Normal => &self.text,
            BufferPlane::Terminal => &self.terminal,
            BufferPlane::Command => &self.command,
        }
    }

    /// Puts `v` in place of the active plane.
    fn set_buffer(&mut self, v: Vec<String>)
        requires
            old(self).wf(),
            plane_ok(lines_view(v@)),
        ensures
            active_set(*old(self), *final(self), lines_view(v@)),
            final(self).wf(),
    {
        match self.plane {
            BufferPlane::Normal => self.text = v,
            BufferPlane::Terminal => self.terminal = v,
            BufferPlane::Command => self.command = v,
        }
    }

    /// Routes edits to the plane of the mode.
    pub fn set_plane(&mut self, modal: &Modal)
        ensures
            final(self).plane() == plane_of(*modal),
            final(self).normal() == old(self).normal(),
            final(self).command() == old(self).command(),
            final(self).terminal() == old(self).terminal(),
            final(self).past() == old(self).past(),
            final(self).future() == old(self).future(),
    {
        self.plane = match modal {
            Modal::Command | Modal::Find(_) => BufferPlane::Command,
            Modal::Normal | Modal::Insert | Modal::Visual | Modal::VisualLine => BufferPlane::Normal,
        };
    }

    /// The length of line `at` of the active plane.
    pub fn max_col(&self, at: usize) -> (r: usize)
        requires
            at < self.active().len(),
        ensures
            r == self.active()[at as int].len(),
    {
        let buf = self.get_buffer();
        buf[at].as_str().unicode_len()
    }

    /// The index of the last line of the active plane.
    pub fn max_line(&self) -> (r: usize)
        requires
            self.wf(),
        ensures
            r == self.active().len() - 1,
    {
        self.get_buffer().len() - 1
    }

    /// The end of the document.
    pub fn max_linecol(&self) -> (r: LineCol)
        requires
            self.wf(),
        ensures
            r.line == self.normal().len() - 1,
            r.col == self.normal()[r.line as int].len(),
    {
        let line = self.text.len() - 1;
        let col = self.text[line].as_str().unicode_len();
        LineCol { line, col }
    }

    /// The number of lines of the active plane.
    pub fn line_count(&self) -> (r: usize)
        ensures
            r == self.active().len(),
    {
        self.get_buffer().len()
    }

    /// Line `line_number` of the active plane; the first line is not offered.
    pub fn line(&self, line_number: usize) -> (r: Result<&str>)
        ensures
            0 < line_number < self.active().len() ==> (r matches Ok(s) && s@ == self.active()[
                line_number as int]),
            !(0 < line_number < self.active().len()) ==> r matches Err(Error::InvalidLineNumber),
    {
        let buf = self.get_buffer();
        if line_number > 0 && line_number < buf.len() {
            Ok(buf[line_number].as_str())
        } else {
            Err(Error::InvalidLineNumber)
        }
    }

    /// Whether the active plane has no lines.
    pub fn is_empty(&self) -> (r: bool)
        ensures
            r == (self.active().len() == 0),
    {
        self.get_buffer().len() == 0
    }

    /// The lines of the active plane.
    pub fn get_entire_text(&self) -> (r: &[String])
        ensures
            lines_view(r@) == self.active(),
    {
        self.get_buffer().as_slice()
    }

    /// The lines of the document.
    pub fn get_normal_text(&self) -> (r: &[String])
        ensures
            lines_view(r@) == self.normal(),
    {
        self.text.as_slice()
    }

    /// The first line of the command plane.
    pub fn get_command_text(&self) -> (r: &str)
        requires
            self.wf(),
        ensures
            r@ == self.command()[0],
    {
        self.command[0].as_str()
    }

    /// The first line of the terminal plane.
    pub fn get_terminal_text(&self) -> (r: &str)
        requires
            self.wf(),
        ensures
            r@ == self.terminal()[0],
    {
        self.terminal[0].as_str()
    }

    /// Makes `new` the only line of the command plane.
    pub fn replace_command_text(&mut self, new: String)
        requires
            no_newline(new@),
        ensures
            final(self).command() == seq![new@],
            final(self).normal() == old(self).normal(),
            final(self).terminal() == old(self).terminal(),
            final(self).plane() == old(self).plane(),
            final(self).past() == old(self).past(),
            final(self).future() == old(self).future(),
    {
        let mut v: Vec<String> = Vec::new();
        v.push(new);
        self.command = v;
        assert(self.command() =~= seq![new@]);
        assert(no_newlines(self.command()));
    }

    pub fn is_command_empty(&self) -> (r: bool)
        requires
            self.wf(),
        ensures
            r == (self.command()[0].len() == 0),
    {
        self.command[0].as_str().unicode_len() == 0
    }

    /// Leaves one empty line in the command plane.
    pub fn clear_command(&mut self)
        ensures
            final(self).command() == seq![Seq::<char>::empty()],
            final(self).normal() == old(self).normal(),
            final(self).terminal() == old(self).terminal(),
            final(self).plane() == old(self).plane(),
            final(self).past() == old(self).past(),
            final(self).future() == old(self).future(),
    {
        assert(no_newline(Seq::<char>::empty()));
        self.replace_command_text(String::new());
    }

    /// Inserts `ch` before column `at.col` of line `at.line` of the active plane; a newline
    /// is refused, as no line holds one.
    pub fn insert(&mut self, at: LineCol, ch: char) -> (r: Result<()>)
        requires
            old(self).wf(),
        ensures
            final(self).wf(),
            valid_pos(old(self).active(), at) && ch != '\n' ==> r is Ok && recorded(
                *old(self),
                *final(self),
                old(self).active().update(
                    at.line as int,
                    old(self).active()[at.line as int].insert(at.col as int, ch),
                ),
                at,
            ),
            valid_pos(old(self).active(), at) && ch == '\n' ==> (r matches Err(Error::InvalidInput) && *final(self) == *old(self)),
            !valid_pos(old(self).active(), at) ==> (r matches Err(Error::InvalidPosition) && *final(self) == *old(self)),
    {
        let buf = self.get_buffer();
        if at.line >= buf.len() || at.col > buf[at.line].as_str().unicode_len() {
            return Err(Error::InvalidPosition);
        }
        if ch == '\n' {
            return Err(Error::InvalidInput);
        }
        let snap = self.snapshot();
        let buf = self.get_buffer();
        let line = buf[at.line].as_str();
        let n = line.unicode_len();
        let mut nl = slice_chars(line, 0, at.col);
        push_char(&mut nl, ch);
        let rest = slice_chars(line, at.col, n);
        nl.append(rest.as_str());
        let mut v = copy_lines(buf.as_slice(), 0, buf.len());
        assert(lines_view(v@) =~= lines_view(buf@));
        proof {
            assert(nl@ =~= line@.insert(at.col as int, ch));
            assert(no_newline(line@));
            assert forall|x: int| 0 <= x < nl@.len() implies nl@[x] != '\n' by {
                if x < at.col {
                    assert(nl@[x] == line@[x]);
                } else if x > at.col {
                    assert(nl@[x] == line@[x - 1]);
                }
            }
            lemma_set_line(v@, at.line as int, nl);
            lemma_clean_update(lines_view(v@), at.line as int, nl@);
        }
        v.set(at.line, nl);
        self.set_buffer(v);
        self.record(snap, at);
        Ok(())
    }

    /// Inserts an empty line right after line `at.line` of the active plane.
    pub fn insert_newline(&mut self, at: LineCol)
        requires
            old(self).wf(),
            at.line < old(self).active().len(),
        ensures
            final(self).wf(),
            recorded(
                *old(self),
                *final(self),
                old(self).active().insert(at.line + 1, Seq::<char>::empty()),
                at,
            ),
    {
        let snap = self.snapshot();
        let buf = self.get_buffer();
        let mut v = copy_lines(buf.as_slice(), 0, buf.len());
        assert(lines_view(v@) =~= lines_view(buf@));
        let ghost p = lines_view(v@);
        v.insert(at.line + 1, String::new());
        assert(lines_view(v@) =~= old(self).active().insert(at.line + 1, Seq::<char>::empty()));
        proof {
            let l = at.line + 1;
            assert(p.insert(l, Seq::<char>::empty()) =~= p.subrange(0, l) + seq![Seq::<char>::empty()]
                + p.subrange(l, p.len() as int));
            lemma_clean_sub(p, 0, l);
            lemma_clean_sub(p, l, p.len() as int);
            assert(no_newline(Seq::<char>::empty()));
            assert(no_newlines(seq![Seq::<char>::empty()]));
            lemma_clean_concat(p.subrange(0, l), seq![Seq::<char>::empty()]);
            lemma_clean_concat(p.subrange(0, l) + seq![Seq::<char>::empty()], p.subrange(l, p.len() as int));
        }
        self.set_buffer(v);
        self.record(snap, at);
    }

    /// Deletes the character before `at`; at the start of a line, joins the line onto the
    /// one above. Returns where the cursor belongs afterwards.
    pub fn delete(&mut self, at: LineCol) -> (r: Result<LineCol>)
        requires
            old(self).wf(),
        ensures
            final(self).wf(),
            !valid_pos(old(self).active(), at) ==> (r matches Err(Error::InvalidPosition) && *final(self) == *old(self)),
            valid_pos(old(self).active(), at) && at.line == 0 && at.col == 0 ==> (r matches Err(Error::ImATeacup) && *final(self) == *old(self)),
            valid_pos(old(self).active(), at) && at.col > 0 ==> r == Ok::<LineCol, Error>(
                LineCol { line: at.line, col: (at.col - 1) as usize },
            ) && recorded(
                *old(self),
                *final(self),
                old(self).active().update(
                    at.line as int,
                    old(self).active()[at.line as int].remove(at.col - 1),
                ),
                at,
            ),
            valid_pos(old(self).active(), at) && at.col == 0 && at.line > 0 ==> r == Ok::<
                LineCol,
                Error,
            >(
                LineCol {
                    line: (at.line - 1) as usize,
                    col: old(self).active()[at.line - 1].len() as usize,
                },
            ) && recorded(
                *old(self),
                *final(self),
                old(self).active().update(
                    at.line - 1,
                    old(self).active()[at.line - 1] + old(self).active()[at.line as int],
                ).remove(at.line as int),
                at,
            ),
    {
        let buf = self.get_buffer();
        if at.line >= buf.len() || at.col > buf[at.line].as_str().unicode_len() {
            return Err(Error::InvalidPosition);
        }
        if at.col == 0 && at.line == 0 {
            return Err(Error::ImATeacup);
        }
        let snap = self.snapshot();
        let buf = self.get_buffer();
        let mut v = copy_lines(buf.as_slice(), 0, buf.len());
        assert(lines_view(v@) =~= lines_view(buf@));
        let ghost p = lines_view(v@);
        if at.col == 0 {
            let prev = v[at.line - 1].as_str();
            let col = prev.unicode_len();
            let joined = concat_str(prev, v[at.line].as_str());
            proof {
                assert(no_newline(p[at.line - 1]));
                assert(no_newline(p[at.line as int]));
                lemma_no_newline_concat(p[at.line - 1], p[at.line as int]);
                lemma_set_line(v@, at.line - 1, joined);
                lemma_clean_update(p, at.line - 1, joined@);
            }
            v.set(at.line - 1, joined);
            let ghost q = lines_view(v@);
            let _ = v.remove(at.line);
            assert(lines_view(v@) =~= old(self).active().update(
                at.line - 1,
                old(self).active()[at.line - 1] + old(self).active()[at.line as int],
            ).remove(at.line as int));
            proof {
                let l = at.line as int;
                assert(q.remove(l) =~= q.subrange(0, l) + q.subrange(l + 1, q.len() as int));
                lemma_clean_sub(q, 0, l);
                lemma_clean_sub(q, l + 1, q.len() as int);
                lemma_clean_concat(q.subrange(0, l), q.subrange(l + 1, q.len() as int));
            }
            self.set_buffer(v);
            self.record(snap, at);
            Ok(LineCol { line: at.line - 1, col })
        } else {
            let line = v[at.line].as_str();
            let n = line.unicode_len();
            let mut nl = slice_chars(line, 0, at.col - 1);
            let rest = slice_chars(line, at.col, n);
            nl.append(rest.as_str());
            proof {
                assert(no_newline(line@));
                lemma_no_newline_sub(line@, 0, at.col - 1);
                lemma_no_newline_sub(line@, at.col as int, n as int);
                lemma_no_newline_concat(line@.subrange(0, at.col - 1), line@.subrange(at.col as int, n as int));
                assert(nl@ =~= line@.remove(at.col - 1));
                lemma_set_line(v@, at.line as int, nl);
                lemma_clean_update(p, at.line as int, nl@);
            }
            v.set(at.line, nl);
            self.set_buffer(v);
            self.record(snap, at);
            Ok(LineCol { line: at.line, col: at.col - 1 })
        }
    }
}

/// The bounds that `get_buffer_window` reads: a missing start is the start of the document,
/// a missing end its end, and an end line past the document is taken as its last line.
pub open spec fn window_bounds(p: Seq<Seq<char>>, from: Option<LineCol>, to: Option<LineCol>) -> (
    LineCol,
    LineCol,
) {
    let f = match from {
        Some(x) => x,
        None => LineCol { line: 0, col: 0 },
    };
    let last = (p.len() - 1) as usize;
    let t = match to {
        Some(x) => x,
        None => LineCol { line: last, col: p[last as int].len() as usize },
    };
    let tl = if t.line <= last {
        t.line
    } else {
        last
    };
    (f, LineCol { line: tl, col: t.col })
}

/// The bounds that `get_buffer_window` accepts.
pub open spec fn window_ok(p: Seq<Seq<char>>, f: LineCol, t: LineCol) -> bool {
    !lc_lt(t, f) && t.line < p.len() && f.col <= p[f.line as int].len()
}

/// The text from `f` up to `t`, one entry per line, with an end past its line stopping at the
/// line's end, and without the last entry when `t` is at the start of its line.
pub open spec fn clipped_window(p: Seq<Seq<char>>, f: LineCol, t: LineCol) -> Seq<Seq<char>> {
    let tc = if t.col <= p[t.line as int].len() {
        t.col
    } else {
        p[t.line as int].len() as usize
    };
    let w = window(p, f, LineCol { line: t.line, col: tc });
    if t.col == 0 {
        w.drop_last()
    } else {
        w
    }
}

/// `new` is `old` after an edit of the active plane that left it as `p`: the document as it
/// was before, with the cursor position `at`, is pushed on the undo history when the edit was
/// made to the document.
pub open spec fn recorded(old: VecBuffer, new: VecBuffer, p: Seq<Seq<char>>, at: LineCol) -> bool {
    &&& new.plane() == old.plane()
    &&& new.active() == p
    &&& new.future() == old.future()
    &&& new.past() == (if old.plane() == BufferPlane::Normal {
        capped_push(old.past(), (old.normal(), at))
    } else {
        old.past()
    })
    &&& old.plane() != BufferPlane::Normal ==> new.normal() == old.normal()
    &&& old.plane() != BufferPlane::Command ==> new.command() == old.command()
    &&& old.plane() != BufferPlane::Terminal ==> new.terminal() == old.terminal()
}

/// `n` columns or lines further on from `x`, stopping at the largest index.
pub open spec fn advanced(x: usize, n: usize) -> usize {
    if x + n <= usize::MAX {
        (x + n) as usize
    } else {
        usize::MAX
    }
}

fn advance(x: usize, n: usize) -> (r: usize)
    ensures
        r == advanced(x, n),
{
    if n > usize::MAX - x {
        usize::MAX
    } else {
        x + n
    }
}

/// The value of a lazy position, or a programming error where it was never filled in.
pub fn verify_lazy_values(l: &Lazy<LineCol>) -> (r: Result<LineCol>)
    ensures
        l.inner matches Some(v) ==> r == Ok::<LineCol, Error>(v),
        l.inner is None ==> r matches Err(Error::ProgrammingBug { .. }),
{
    if l.is_evaluated() {
        Ok(l.clone_inner())
    } else {
        Err(
            Error::ProgrammingBug {
                descr: String::from_str("A component received an uninitialized value."),
            },
        )
    }
}

/// The lines of `v` with the text from `from` up to `to` replaced by the lines `r`.
fn splice_lines(v: &[String], from: LineCol, to: LineCol, r: Vec<String>) -> (out: Vec<String>)
    requires
        from.line <= to.line < v@.len(),
        from.col <= lines_view(v@)[from.line as int].len(),
        to.col <= lines_view(v@)[to.line as int].len(),
        r@.len() >= 1,
    ensures
        lines_view(out@) == replaced(lines_view(v@), from, to, lines_view(r@)),
        out@.len() >= 1,
        no_newlines(lines_view(v@)) && no_newlines(lines_view(r@)) ==> no_newlines(
            lines_view(out@),
        ),
{
    let ghost rv = lines_view(r@);
    let ghost p = lines_view(v@);
    let fl = from.line;
    let tl = to.line;
    let head = slice_chars(v[fl].as_str(), 0, from.col);
    let tn = v[tl].as_str().unicode_len();
    let tail = slice_chars(v[tl].as_str(), to.col, tn);
    let mut mid = r;
    let first = concat_str(head.as_str(), mid[0].as_str());
    proof {
        lemma_set_line(mid@, 0, first);
    }
    mid.set(0, first);
    let k = mid.len() - 1;
    let last = concat_str(mid[k].as_str(), tail.as_str());
    proof {
        lemma_set_line(mid@, k as int, last);
    }
    mid.set(k, last);
    assert(lines_view(mid@) == spliced(head@, rv, tail@));
    let mut out = copy_lines(v, 0, fl);
    extend_lines(&mut out, mid.as_slice(), 0, mid.len());
    assert(lines_view(mid@).subrange(0, mid@.len() as int) =~= lines_view(mid@));
    extend_lines(&mut out, v, tl + 1, v.len());
    assert(lines_view(out@) =~= replaced(p, from, to, rv));
    proof {
        if no_newlines(p) && no_newlines(rv) {
            lemma_clean_replaced(p, from, to, rv);
        }
    }
    out
}

/// The lines of `v` after the deletion of the text from `from` up to `to`.
fn delete_lines(v: &[String], from: LineCol, to: LineCol) -> (out: Vec<String>)
    requires
        deletable(lines_view(v@), from, to),
    ensures
        lines_view(out@) == selection_deleted(lines_view(v@), from, to),
        no_newlines(lines_view(v@)) ==> plane_ok(lines_view(out@)),
{
    let ghost p = lines_view(v@);
    let tlen = v[to.line].as_str().unicode_len();
    if from.col == 0 && to.col == tlen {
        let mut out = copy_lines(v, 0, from.line);
        extend_lines(&mut out, v, to.line + 1, v.len());
        if out.len() == 0 {
            out.push(String::new());
            assert(lines_view(out@) =~= seq![Seq::<char>::empty()]);
        }
        assert(lines_view(out@) =~= selection_deleted(p, from, to));
        proof {
            if no_newlines(p) {
                lemma_clean_removed(p, from.line as int, to.line as int);
            }
        }
        out
    } else {
        let mut empty: Vec<String> = Vec::new();
        empty.push(String::new());
        assert(lines_view(empty@) =~= seq![Seq::<char>::empty()]);
        proof {
            assert(no_newline(Seq::<char>::empty()));
            assert(no_newlines(lines_view(empty@)));
        }
        splice_lines(v, from, to, empty)
    }
}

/// The text of `v` from `from` up to `to`, one entry per line.
fn window_lines(v: &[String], from: LineCol, to: LineCol) -> (out: Vec<String>)
    requires
        from.line <= to.line < v@.len(),
        from.col <= lines_view(v@)[from.line as int].len(),
        to.col <= lines_view(v@)[to.line as int].len(),
        from.line == to.line ==> from.col <= to.col,
    ensures
        lines_view(out@) == window(lines_view(v@), from, to),
{
    let ghost p = lines_view(v@);
    let fl = from.line;
    let tl = to.line;
    if fl == tl {
        let mut out: Vec<String> = Vec::new();
        out.push(slice_chars(v[fl].as_str(), from.col, to.col));
        assert(lines_view(out@) =~= window(p, from, to));
        out
    } else {
        let n = v.len();
        let mut out = copy_lines(v, fl, tl + 1);
        assert(lines_view(out@).len() == out@.len());
        let fnl = v[fl].as_str().unicode_len();
        let first = slice_chars(v[fl].as_str(), from.col, fnl);
        proof {
            lemma_set_line(out@, 0, first);
        }
        out.set(0, first);
        let k = out.len() - 1;
        let last = slice_chars(v[tl].as_str(), 0, to.col);
        proof {
            lemma_set_line(out@, k as int, last);
        }
        out.set(k, last);
        assert(lines_view(out@) =~= window(p, from, to));
        out
    }
}

impl VecBuffer {
    /// Inserts `text` at `at`. With `newline`, its lines become new lines right after line
    /// `at.line` and the result is the start of the first of them; otherwise the text is
    /// spliced in at `at`, which is returned.
    #[verifier::rlimit(50)]
    pub fn insert_text(&mut self, at: LineCol, text: String, newline: bool) -> (r: Result<LineCol>)
        requires
            old(self).wf(),
        ensures
            final(self).wf(),
            !valid_pos(old(self).active(), at) ==> (r matches Err(Error::InvalidPosition) && *final(self) == *old(self)),
            valid_pos(old(self).active(), at) && text@.len() == 0 ==> (r matches Err(Error::InvalidInput) && *final(self) == *old(self)),
            valid_pos(old(self).active(), at) && text@.len() > 0 && newline ==> r == Ok::<
                LineCol,
                Error,
            >(LineCol { line: (at.line + 1) as usize, col: 0 }) && recorded(
                *old(self),
                *final(self),
                old(self).active().subrange(0, at.line + 1) + split_lines(text@) + old(self).active().subrange(at.line + 1, old(self).active().len() as int),
                at,
            ),
            valid_pos(old(self).active(), at) && text@.len() > 0 && !newline ==> r == Ok::<
                LineCol,
                Error,
            >(at) && recorded(
                *old(self),
                *final(self),
                replaced(old(self).active(), at, at, split_lines(text@)),
                at,
            ),
    {
        let buf = self.get_buffer();
        if at.line >= buf.len() || at.col > buf[at.line].as_str().unicode_len() {
            return Err(Error::InvalidPosition);
        } else if text.as_str().unicode_len() == 0 {
            return Err(Error::InvalidInput);
        }
        let snap = self.snapshot();
        let buf = self.get_buffer();
        let ghost p = lines_view(buf@);
        let lines = split_text(text.as_str());
        proof {
            lemma_split_no_newlines(text@);
        }
        if newline {
            let mut v = copy_lines(buf.as_slice(), 0, at.line + 1);
            extend_lines(&mut v, lines.as_slice(), 0, lines.len());
            extend_lines(&mut v, buf.as_slice(), at.line + 1, buf.len());
            assert(lines_view(lines@).subrange(0, lines@.len() as int) =~= lines_view(lines@));
            assert(lines_view(v@).len() == v@.len());
            proof {
                lemma_clean_sub(p, 0, at.line + 1);
                lemma_clean_sub(p, at.line + 1, p.len() as int);
                lemma_clean_concat(p.subrange(0, at.line + 1), lines_view(lines@));
                lemma_clean_concat(
                    p.subrange(0, at.line + 1) + lines_view(lines@),
                    p.subrange(at.line + 1, p.len() as int),
                );
            }
            self.set_buffer(v);
            self.record(snap, at);
            Ok(LineCol { line: at.line + 1, col: 0 })
        } else {
            let v = splice_lines(buf.as_slice(), at, at, lines);
            self.set_buffer(v);
            self.record(snap, at);
            Ok(at)
        }
    }

    /// Replaces the text from `from` up to `to` with `text` in one step: the range is deleted
    /// as `delete_selection` deletes it (an empty range is accepted and deletes nothing), and
    /// the text is inserted at `from` as `insert_text` inserts it. Where the deletion leaves
    /// no such position, nothing changes.
    #[verifier::rlimit(50)]
    pub fn replace(&mut self, from: LineCol, to: LineCol, text: &str) -> (r: Result<()>)
        requires
            old(self).wf(),
        ensures
            final(self).wf(),
            text@.len() == 0 ==> (r matches Err(Error::InvalidInput) && *final(self) == *old(self)),
            text@.len() > 0 && !range_ok(old(self).active(), from, to) ==> r == Err::<(), Error>(
                Error::InvalidRange(from, to),
            ) && *final(self) == *old(self),
            text@.len() > 0 && range_ok(old(self).active(), from, to) && replace_result(
                old(self).active(),
                from,
                to,
                split_lines(text@),
            ) is None ==> (r matches Err(Error::InvalidPosition) && *final(self) == *old(self)),
            text@.len() > 0 && range_ok(old(self).active(), from, to) ==> (replace_result(
                old(self).active(),
                from,
                to,
                split_lines(text@),
            ) matches Some(q) ==> r is Ok && recorded(*old(self), *final(self), q, from)),
    {
        if text.unicode_len() == 0 {
            return Err(Error::InvalidInput);
        }
        let buf = self.get_buffer();
        if from.line >= buf.len() || to.line >= buf.len() || from.col > buf[from.line].as_str().unicode_len()
            || to.col > buf[to.line].as_str().unicode_len() || to.precedes(&from) {
            return Err(Error::InvalidRange(from, to));
        }
        let ghost p = lines_view(buf@);
        let rest = if from == to {
            let c = copy_lines(buf.as_slice(), 0, buf.len());
            assert(lines_view(buf@).subrange(0, buf@.len() as int) =~= lines_view(buf@));
            c
        } else {
            delete_lines(buf.as_slice(), from, to)
        };
        if from.line >= rest.len() || from.col > rest[from.line].as_str().unicode_len() {
            return Err(Error::InvalidPosition);
        }
        let snap = self.snapshot();
        let lines = split_text(text);
        proof {
            lemma_split_no_newlines(text@);
        }
        let v = splice_lines(rest.as_slice(), from, from, lines);
        self.set_buffer(v);
        self.record(snap, from);
        Ok(())
    }

    /// Deletes the text from `from` up to `to`.
    #[verifier::rlimit(50)]
    pub fn delete_selection(&mut self, from: LineCol, to: LineCol) -> (r: Result<()>)
        requires
            old(self).wf(),
        ensures
            final(self).wf(),
            !deletable(old(self).active(), from, to) ==> r == Err::<(), Error>(
                Error::InvalidRange(from, to),
            ) && *final(self) == *old(self),
            deletable(old(self).active(), from, to) ==> r is Ok && recorded(
                *old(self),
                *final(self),
                selection_deleted(old(self).active(), from, to),
                from,
            ),
    {
        let buf = self.get_buffer();
        if from.line >= buf.len() || to.line >= buf.len() || from.col > buf[from.line].as_str().unicode_len()
            || to.col > buf[to.line].as_str().unicode_len() || !from.precedes(&to) {
            return Err(Error::InvalidRange(from, to));
        }
        let snap = self.snapshot();
        let buf = self.get_buffer();
        let v = delete_lines(buf.as_slice(), from, to);
        self.set_buffer(v);
        self.record(snap, from);
        Ok(())
    }

    /// The text from `from` up to `to`, with a newline where a line ends.
    pub fn get_text(&self, from: LineCol, to: LineCol) -> (r: Result<String>)
        ensures
            !range_ok(self.active(), from, to) ==> r == Err::<String, Error>(
                Error::InvalidRange(from, to),
            ),
            range_ok(self.active(), from, to) ==> (r matches Ok(s) && s@ == join_lines(
                window(self.active(), from, to),
            )),
    {
        let buf = self.get_buffer();
        if from.line >= buf.len() || to.line >= buf.len() || from.col > buf[from.line].as_str().unicode_len()
            || to.col > buf[to.line].as_str().unicode_len() || to.precedes(&from) {
            return Err(Error::InvalidRange(from, to));
        }
        let w = window_lines(buf.as_slice(), from, to);
        Ok(join_text(w.as_slice()))
    }

    /// Lines of the document from `from` up to `to`, the first and last cut to those columns.
    #[verifier::rlimit(50)]
    pub fn get_buffer_window(&self, from: Option<LineCol>, to: Option<LineCol>) -> (r: Result<
        Vec<String>,
    >)
        requires
            self.wf(),
        ensures
            from is None && to is None ==> (r matches Ok(v) && lines_view(v@) == self.normal()),
            !(from is None && to is None) && window_ok(
                self.normal(),
                window_bounds(self.normal(), from, to).0,
                window_bounds(self.normal(), from, to).1,
            ) ==> (r matches Ok(v) && lines_view(v@) == clipped_window(
                self.normal(),
                window_bounds(self.normal(), from, to).0,
                window_bounds(self.normal(), from, to).1,
            )),
            !(from is None && to is None) && !window_ok(
                self.normal(),
                window_bounds(self.normal(), from, to).0,
                window_bounds(self.normal(), from, to).1,
            ) ==> (r matches Err(Error::InvalidInput)),
    {
        let v = self.text.as_slice();
        if from.is_none() && to.is_none() {
            let all = copy_lines(v, 0, v.len());
            assert(lines_view(v@).subrange(0, v@.len() as int) =~= lines_view(v@));
            return Ok(all);
        }
        let ghost p = lines_view(v@);
        let f = match from {
            Some(x) => x,
            None => LineCol { line: 0, col: 0 },
        };
        let last = v.len() - 1;
        let t = match to {
            Some(x) => x,
            None => LineCol { line: last, col: v[last].as_str().unicode_len() },
        };
        let tl = if t.line <= last {
            t.line
        } else {
            last
        };
        let t = LineCol { line: tl, col: t.col };
        assert((f, t) == window_bounds(p, from, to));
        if t.precedes(&f) || f.col > v[f.line].as_str().unicode_len() {
            return Err(Error::InvalidInput);
        }
        let tlen = v[tl].as_str().unicode_len();
        let tc = if t.col <= tlen {
            t.col
        } else {
            tlen
        };
        let mut w = window_lines(v, f, LineCol { line: tl, col: tc });
        if t.col == 0 {
            let _ = w.pop();
            assert(lines_view(w@) =~= clipped_window(p, f, t));
        }
        Ok(w)
    }

    /// Whole lines of the document from the line of `from` to the line of `to`.
    pub fn get_full_lines_buffer_window(&self, from: Option<LineCol>, to: Option<LineCol>) -> (r:
        Result<Vec<String>>)
        requires
            self.wf(),
        ensures
            ({
                let p = self.normal();
                let start = match from {
                    Some(x) => x.line as int,
                    None => 0,
                };
                let end = match to {
                    Some(x) => x.line as int,
                    None => p.len() - 1,
                };
                &&& start > end || start >= p.len() ==> (r matches Err(Error::InvalidInput))
                &&& !(start > end || start >= p.len()) ==> (r matches Ok(v) && lines_view(v@)
                    == p.subrange(start, if end < p.len() { end + 1 } else { p.len() as int }))
            }),
    {
        let v = self.text.as_slice();
        let start = match from {
            Some(x) => x.line,
            None => 0,
        };
        let end = match to {
            Some(x) => x.line,
            None => v.len() - 1,
        };
        if start > end || start >= v.len() {
            return Err(Error::InvalidInput);
        }
        let stop = if end < v.len() {
            end + 1
        } else {
            v.len()
        };
        Ok(copy_lines(v, start, stop))
    }

    /// Pushes a snapshot on the undo history.
    fn push_past(&mut self, cap: StateCapsule)
        requires
            old(self).wf(),
            plane_ok(cap@.0),
        ensures
            final(self).wf(),
            final(self).past() == capped_push(old(self).past(), cap@),
            final(self).future() == old(self).future(),
            final(self).normal() == old(self).normal(),
            final(self).command() == old(self).command(),
            final(self).terminal() == old(self).terminal(),
            final(self).plane() == old(self).plane(),
    {
        proof {
            lemma_capped_push_ok(old(self).past(), cap@);
        }
        self.past.push(cap);
    }

    /// Goes back to the most recent snapshot; the document as it is, with `at`, goes on the
    /// redo history.
    pub fn undo(&mut self, at: LineCol) -> (r: Result<()>)
        requires
            old(self).wf(),
        ensures
            final(self).wf(),
            old(self).past().len() == 0 ==> (r matches Err(Error::NowhereToGo) && *final(self) == *old(self)),
            old(self).past().len() > 0 ==> r is Ok
                && final(self).normal() == old(self).past().last().0
                && final(self).past() == old(self).past().drop_last()
                && final(self).future() == capped_push(old(self).future(), (old(self).normal(), at))
                && final(self).command() == old(self).command()
                && final(self).terminal() == old(self).terminal()
                && final(self).plane() == old(self).plane(),
    {
        if self.past.is_empty() {
            return Err(Error::NowhereToGo);
        }
        match self.past.pop() {
            None => Err(Error::NowhereToGo),
            Some(state) => {
                proof {
                    assert(plane_ok(old(self).past()[old(self).past().len() - 1].0));
                    lemma_drop_last_ok(old(self).past());
                }
                let StateCapsule { content, loc: _ } = state;
                let current = copy_lines(self.text.as_slice(), 0, self.text.len());
                assert(lines_view(self.text@).subrange(0, self.text@.len() as int) =~= lines_view(self.text@));
                proof {
                    lemma_capped_push_ok(old(self).future(), (old(self).normal(), at));
                }
                self.future.push(StateCapsule::new(current, at));
                self.text = content;
                Ok(())
            },
        }
    }

    /// Goes forward to the most recently undone snapshot; the document as it is, with `at`,
    /// goes on the undo history.
    pub fn redo(&mut self, at: LineCol) -> (r: Result<()>)
        requires
            old(self).wf(),
        ensures
            final(self).wf(),
            old(self).future().len() == 0 ==> (r matches Err(Error::NowhereToGo) && *final(self) == *old(self)),
            old(self).future().len() > 0 ==> r is Ok
                && final(self).normal() == old(self).future().last().0
                && final(self).future() == old(self).future().drop_last()
                && final(self).past() == capped_push(old(self).past(), (old(self).normal(), at))
                && final(self).command() == old(self).command()
                && final(self).terminal() == old(self).terminal()
                && final(self).plane() == old(self).plane(),
    {
        if self.future.is_empty() {
            return Err(Error::NowhereToGo);
        }
        match self.future.pop() {
            None => Err(Error::NowhereToGo),
            Some(state) => {
                proof {
                    assert(plane_ok(old(self).future()[old(self).future().len() - 1].0));
                    lemma_drop_last_ok(old(self).future());
                }
                let StateCapsule { content, loc: _ } = state;
                let current = copy_lines(self.text.as_slice(), 0, self.text.len());
                assert(lines_view(self.text@).subrange(0, self.text@.len() as int) =~= lines_view(self.text@));
                proof {
                    lemma_capped_push_ok(old(self).past(), (old(self).normal(), at));
                }
                self.past.push(StateCapsule::new(current, at));
                self.text = content;
                Ok(())
            },
        }
    }
}

/// What `execute_action` does to the buffer for primitive `a`, with result `r`.
pub open spec fn buffer_step(old: VecBuffer, new: VecBuffer, a: BaseAction, r: Result<()>) -> bool {
    match a {
        BaseAction::InsertAt(lz, ch) => match lz.inner {
            None => (r matches Err(Error::ProgrammingBug { .. })) && new == old,
            Some(at) => if valid_pos(old.active(), at) && ch == '\n' {
                (r matches Err(Error::InvalidInput)) && new == old
            } else if valid_pos(old.active(), at) {
                r is Ok && recorded(
                    old,
                    new,
                    old.active().update(
                        at.line as int,
                        old.active()[at.line as int].insert(at.col as int, ch),
                    ),
                    at,
                )
            } else {
                (r matches Err(Error::InvalidPosition)) && new == old
            },
        },
        BaseAction::DeleteAt(lz, n) => match lz.inner {
            None => (r matches Err(Error::ProgrammingBug { .. })) && new == old,
            Some(at) => {
                let to = LineCol { line: at.line, col: advanced(at.col, n) };
                if deletable(old.active(), at, to) {
                    r is Ok && recorded(old, new, selection_deleted(old.active(), at, to), at)
                } else {
                    r == Err::<(), Error>(Error::InvalidRange(at, to)) && new == old
                }
            },
        },
        BaseAction::DeleteLineAt(lz, n) => match lz.inner {
            None => (r matches Err(Error::ProgrammingBug { .. })) && new == old,
            Some(at) => {
                let to = LineCol { line: advanced(at.line, n), col: at.col };
                if deletable(old.active(), at, to) {
                    r is Ok && recorded(old, new, selection_deleted(old.active(), at, to), at)
                } else {
                    r == Err::<(), Error>(Error::InvalidRange(at, to)) && new == old
                }
            },
        },
        BaseAction::InsertLineAt(lz, _) => match lz.inner {
            None => (r matches Err(Error::ProgrammingBug { .. })) && new == old,
            Some(at) => if at.line < old.active().len() {
                r is Ok && recorded(
                    old,
                    new,
                    old.active().insert(at.line + 1, Seq::<char>::empty()),
                    at,
                )
            } else {
                (r matches Err(Error::InvalidPosition)) && new == old
            },
        },
        BaseAction::ChangeMode(m) => {
            &&& r is Ok
            &&& new.plane() == plane_of(m)
            &&& new.normal() == old.normal()
            &&& new.command() == old.command()
            &&& new.terminal() == old.terminal()
            &&& new.past() == old.past()
            &&& new.future() == old.future()
        },
        _ => r is Ok && new == old,
    }
}

impl VecBuffer {
    /// A copy of the document.
    fn snapshot(&self) -> (r: Vec<String>)
        ensures
            lines_view(r@) == self.normal(),
    {
        let r = copy_lines(self.text.as_slice(), 0, self.text.len());
        assert(lines_view(self.text@).subrange(0, self.text@.len() as int) =~= lines_view(self.text@));
        r
    }

    /// Pushes `snap`, the document before an edit at `at`, on the undo history if the edit
    /// went to the document.
    fn record(&mut self, snap: Vec<String>, at: LineCol)
        requires
            old(self).wf(),
            plane_ok(lines_view(snap@)),
        ensures
            final(self).wf(),
            final(self).past() == (if old(self).plane() == BufferPlane::Normal {
                capped_push(old(self).past(), (lines_view(snap@), at))
            } else {
                old(self).past()
            }),
            final(self).future() == old(self).future(),
            final(self).normal() == old(self).normal(),
            final(self).command() == old(self).command(),
            final(self).terminal() == old(self).terminal(),
            final(self).plane() == old(self).plane(),
    {
        if self.plane == BufferPlane::Normal {
            self.push_past(StateCapsule::new(snap, at));
        }
    }

    /// Removes line `at` of the document; a document left empty keeps one empty line. The
    /// document as it was, with the start of that line, goes on the undo history.
    pub fn delete_line(&mut self, at: usize)
        requires
            old(self).wf(),
            at < old(self).normal().len(),
        ensures
            final(self).wf(),
            final(self).normal() == removed_lines(old(self).normal(), at as int, at as int),
            final(self).command() == old(self).command(),
            final(self).terminal() == old(self).terminal(),
            final(self).plane() == old(self).plane(),
            final(self).past() == capped_push(
                old(self).past(),
                (old(self).normal(), LineCol { line: at, col: 0 }),
            ),
            final(self).future() == old(self).future(),
    {
        let n = self.text.len();
        let mut v = copy_lines(self.text.as_slice(), 0, at);
        extend_lines(&mut v, self.text.as_slice(), at + 1, n);
        if v.len() == 0 {
            v.push(String::new());
            assert(lines_view(v@) =~= seq![Seq::<char>::empty()]);
        }
        assert(lines_view(v@) =~= removed_lines(old(self).normal(), at as int, at as int));
        proof {
            lemma_clean_removed(old(self).normal(), at as int, at as int);
        }
        let snap = self.snapshot();
        self.text = v;
        self.push_past(StateCapsule::new(snap, LineCol { line: at, col: 0 }));
    }

    /// Carries out the buffer's part of a primitive: edits at a filled-in position, and the
    /// choice of plane on a change of mode.
    #[verifier::rlimit(50)]
    pub fn execute_action(&mut self, a: &BaseAction) -> (r: Result<()>)
        requires
            old(self).wf(),
        ensures
            final(self).wf(),
            buffer_step(*old(self), *final(self), *a, r),
    {
        match a {
            BaseAction::InsertAt(lz, ch) => {
                let at = match verify_lazy_values(lz) {
                    Ok(v) => v,
                    Err(e) => return Err(e),
                };
                match self.insert(at, *ch) {
                    Ok(()) => {},
                    Err(e) => return Err(e),
                }
                Ok(())
            },
            BaseAction::DeleteAt(lz, rep) => {
                let start = match verify_lazy_values(lz) {
                    Ok(v) => v,
                    Err(e) => return Err(e),
                };
                let end = LineCol { line: start.line, col: advance(start.col, *rep) };
                match self.delete_selection(start, end) {
                    Ok(()) => {},
                    Err(e) => return Err(e),
                }
                Ok(())
            },
            BaseAction::DeleteLineAt(lz, rep) => {
                let start = match verify_lazy_values(lz) {
                    Ok(v) => v,
                    Err(e) => return Err(e),
                };
                let end = LineCol { line: advance(start.line, *rep), col: start.col };
                match self.delete_selection(start, end) {
                    Ok(()) => {},
                    Err(e) => return Err(e),
                }
                Ok(())
            },
            BaseAction::InsertLineAt(lz, _) => {
                let start = match verify_lazy_values(lz) {
                    Ok(v) => v,
                    Err(e) => return Err(e),
                };
                if start.line >= self.line_count() {
                    return Err(Error::InvalidPosition);
                }
                self.insert_newline(start);
                Ok(())
            },
            BaseAction::ChangeMode(modal) => {
                self.set_plane(modal);
                Ok(())
            },
            _ => Ok(()),
        }
    }
}

impl Default for VecBuffer {
    fn default() -> (r: Self)
        ensures
            r.wf(),
            r.normal() == seq![Seq::<char>::empty()],
            r.command() == seq![Seq::<char>::empty()],
            r.terminal() == seq![Seq::<char>::empty()],
            r.plane() == BufferPlane::Normal,
            r.past().len() == 0,
            r.future().len() == 0,
    {
        VecBuffer::new(Vec::new())
    }
}

/// Inserting a character at a valid position and then deleting the character before the
/// column after it gives the plane back as it was.
pub proof fn insert_then_delete_restores(p: Seq<Seq<char>>, at: LineCol, ch: char)
    requires
        valid_pos(p, at),
        at.col < usize::MAX,
    ensures
        ({
            let inserted = p.update(at.line as int, p[at.line as int].insert(at.col as int, ch));
            let next = LineCol { line: at.line, col: (at.col + 1) as usize };
            &&& valid_pos(inserted, next)
            &&& next.col > 0
            &&& inserted.update(next.line as int, inserted[next.line as int].remove(next.col - 1)) == p
        }),
{
    let l = at.line as int;
    let inserted = p.update(l, p[l].insert(at.col as int, ch));
    assert(inserted[l].remove(at.col as int) =~= p[l]);
    assert(inserted.update(l, inserted[l].remove(at.col as int)) =~= p);
}

/// Outside a range that runs from the start of a line to the end of a line, deleting a
/// non-empty range and inserting lines at its start splices the lines in place of the range.
#[verifier::rlimit(50)]
proof fn lemma_splice_after_delete(
    p: Seq<Seq<char>>,
    from: LineCol,
    to: LineCol,
    text: Seq<char>,
)
    requires
        range_ok(p, from, to),
        lc_lt(from, to),
        text.len() > 0,
        !(from.col == 0 && to.col == p[to.line as int].len()),
    ensures
        deletable(p, from, to),
        valid_pos(selection_deleted(p, from, to), from),
        replaced(selection_deleted(p, from, to), from, from, split_lines(text)) == replaced(
            p,
            from,
            to,
            split_lines(text),
        ),
{
    lemma_split_nonempty(text);
    let fl = from.line as int;
    let tl = to.line as int;
    let head = p[fl].subrange(0, from.col as int);
    let tail = p[tl].subrange(to.col as int, p[tl].len() as int);
    let q = selection_deleted(p, from, to);
    assert(q == replaced(p, from, to, seq![Seq::<char>::empty()]));
    assert(spliced(head, seq![Seq::<char>::empty()], tail) =~= seq![head + tail]);
    assert(q =~= p.subrange(0, fl) + seq![head + tail] + p.subrange(tl + 1, p.len() as int));
    assert(q[fl] == head + tail);
    assert(q[fl].subrange(0, from.col as int) =~= head);
    assert(q[fl].subrange(from.col as int, q[fl].len() as int) =~= tail);
    assert(q.subrange(0, fl) =~= p.subrange(0, fl));
    assert(q.subrange(fl + 1, q.len() as int) =~= p.subrange(tl + 1, p.len() as int));
}

/// Replacing a non-empty range by a non-empty text is the same as deleting the range with
/// `delete_selection` and then inserting the text at its start with `insert_text`: the
/// deletion is accepted, and the outcome is the insertion's, a refusal included.
pub proof fn replace_is_delete_then_insert(
    p: Seq<Seq<char>>,
    from: LineCol,
    to: LineCol,
    text: Seq<char>,
)
    requires
        range_ok(p, from, to),
        lc_lt(from, to),
        text.len() > 0,
    ensures
        deletable(p, from, to),
        valid_pos(selection_deleted(p, from, to), from) ==> replace_result(
            p,
            from,
            to,
            split_lines(text),
        ) == Some(replaced(selection_deleted(p, from, to), from, from, split_lines(text))),
        !valid_pos(selection_deleted(p, from, to), from) ==> replace_result(
            p,
            from,
            to,
            split_lines(text),
        ) is None,
{
}

/// Putting back the text of a range with `replace` leaves the plane as it was, for a
/// non-empty range that does not run from the start of a line to the end of a line: the
/// text is not empty and restores the range. An empty range gives an empty text, which
/// `replace` refuses without a change.
#[verifier::rlimit(50)]
pub proof fn text_put_back_unchanged(p: Seq<Seq<char>>, from: LineCol, to: LineCol)
    requires
        range_ok(p, from, to),
        no_newlines(p),
    ensures
        from == to ==> join_lines(window(p, from, to)).len() == 0,
        lc_lt(from, to) ==> join_lines(window(p, from, to)).len() > 0,
        lc_lt(from, to) && !(from.col == 0 && to.col == p[to.line as int].len()) ==> replace_result(
            p,
            from,
            to,
            split_lines(join_lines(window(p, from, to))),
        ) == Some(p),
{
    let fl = from.line as int;
    let tl = to.line as int;
    let w = window(p, from, to);
    assert(no_newline(p[fl]));
    assert(no_newline(p[tl]));
    assert(no_newlines(w)) by {
        assert forall|i: int| 0 <= i < w.len() implies no_newline(#[trigger] w[i]) by {
            assert(no_newline(p[fl + i]));
        }
    }
    if lc_lt(from, to) {
        lemma_split_join(w);
        let head = p[fl].subrange(0, from.col as int);
        let tail = p[tl].subrange(to.col as int, p[tl].len() as int);
        if fl == tl {
            assert(w[0].len() > 0);
            assert(join_lines(w) == w[0]);
            assert(head + w[0] + tail =~= p[fl]);
            assert(spliced(head, w, tail) =~= seq![p[fl]]);
        } else {
            assert(w.len() >= 2);
            assert(join_lines(w) == join_lines(w.drop_last()) + seq!['\n'] + w.last());
            assert(head + w[0] =~= p[fl]);
            assert(w[w.len() - 1] + tail =~= p[tl]);
            let a = w.update(0, head + w[0]);
            assert(a[w.len() - 1] == w[w.len() - 1]);
            assert(spliced(head, w, tail) =~= p.subrange(fl, tl + 1));
        }
        assert(replaced(p, from, to, w) =~= p);
        if !(from.col == 0 && to.col == p[tl].len()) {
            lemma_splice_after_delete(p, from, to, join_lines(w));
        }
    } else {
        assert(from == to);
        assert(join_lines(w) == w[0]);
    }
}

proof fn lemma_set_line(v: Seq<String>, i: int, s: String)
    requires
        0 <= i < v.len(),
    ensures
        lines_view(v.update(i, s)) == lines_view(v).update(i, s@),
{
    assert(lines_view(v.update(i, s)) =~= lines_view(v).update(i, s@));
}

} // verus!
