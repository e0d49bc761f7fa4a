use crate::bars::{force_notif_bar_content, get_notif_bar_content, DebugMessages, NOTIFICATION_CAPACITY};
use crate::buffer::{
    buffer_step, clipped_window, history_steps, lemma_history_steps, lemma_history_steps_stop,
    valid_pos, window_bounds, window_ok, VecBuffer,
};
use crate::common::{
    repeater, with_count, BaseAction, Command, FindDirection, Lazy, LineCol,
    Modal,
};
use crate::cursor::{
    cursor_can_apply, cursor_step, shadow_small, shadow_step, Cursor, ShadowCursor,
};
use crate::error::{describe_spec, Error, Result};
use crate::pattern::{first_hit, last_hit, CharClass, Pattern, Probe};
use crate::viewport::{viewport_step, ViewPort};
use vstd::prelude::*;
use vstd::string::*;

verus! {

/// Lines moved by a jump up or down.
pub const JUMP_DIST: usize = 25;

/// A key, as the editor tells keys apart.
#[derive(Clone, Copy, Debug, PartialEq, Eq, Structural)]
pub enum KeyCode {
    Char(char),
    Enter,
    Esc,
    Backspace,
    Left,
    Right,
    Up,
    Down,
    Home,
    End,
    /// Any other key.
    Other,
}

/// The modifier keys held with a key; `alt` stands for any modifier other than shift and
/// control.
#[derive(Clone, Copy, Debug, PartialEq, Eq, Structural)]
pub struct KeyModifiers {
    pub shift: bool,
    pub control: bool,
    pub alt: bool,
}

/// One keystroke.
#[derive(Clone, Copy, Debug, PartialEq, Eq, Structural)]
pub struct KeyEvent {
    pub code: KeyCode,
    pub modifiers: KeyModifiers,
}

/// Which way a search goes.
#[derive(Clone, Copy, Debug, PartialEq, Eq, Structural)]
pub enum Direction {
    Forward,
    Backward,
}

/// What the user means by a keystroke.
#[derive(Clone, Debug)]
pub enum Action {
    Quit,
    Save,
    BumpUp,
    BumpDown,
    BumpLeft,
    BumpRight,
    JumpUp,
    JumpDown,
    JumpToNextWord,
    JumpToNextSymbol,
    ReverseJumpToNextWord,
    ReverseJumpToNextSymbol,
    JumpSOL,
    JumpEOL,
    JumpSOF,
    JumpEOF,
    ChangeMode(Modal),
    InsertModeEOL,
    Find(String),
    ReverseFind(String),
    FindChar(char),
    ReverseFindChar(char),
    ReverseToChar(char),
    ToChar(char),
    Replace(char),
    InsertCharAtCursor(char),
    InsertNewLine,
    InsertModeBelow,
    InsertModeAbove,
    DeleteBeforeCursor,
    DeleteAtCursor,
    Yank,
    Paste(char),
    PasteNewline(char),
    PasteAbove(char),
    FetchFromHistory,
    ExecuteCommand(Command),
    Undo(u8),
    Redo,
    OpenFile,
    Nothing,
}

impl Action {
    /// An equal copy of the intent.
    pub fn duplicate(&self) -> (r: Action)
        ensures
            r == *self,
    {
        match self {
            Action::Quit => Action::Quit,
            Action::Save => Action::Save,
            Action::BumpUp => Action::BumpUp,
            Action::BumpDown => Action::BumpDown,
            Action::BumpLeft => Action::BumpLeft,
            Action::BumpRight => Action::BumpRight,
            Action::JumpUp => Action::JumpUp,
            Action::JumpDown => Action::JumpDown,
            Action::JumpToNextWord => Action::JumpToNextWord,
            Action::JumpToNextSymbol => Action::JumpToNextSymbol,
            Action::ReverseJumpToNextWord => Action::ReverseJumpToNextWord,
            Action::ReverseJumpToNextSymbol => Action::ReverseJumpToNextSymbol,
            Action::JumpSOL => Action::JumpSOL,
            Action::JumpEOL => Action::JumpEOL,
            Action::JumpSOF => Action::JumpSOF,
            Action::JumpEOF => Action::JumpEOF,
            Action::InsertModeEOL => Action::InsertModeEOL,
            Action::InsertNewLine => Action::InsertNewLine,
            Action::InsertModeBelow => Action::InsertModeBelow,
            Action::InsertModeAbove => Action::InsertModeAbove,
            Action::DeleteBeforeCursor => Action::DeleteBeforeCursor,
            Action::DeleteAtCursor => Action::DeleteAtCursor,
            Action::Yank => Action::Yank,
            Action::FetchFromHistory => Action::FetchFromHistory,
            Action::Redo => Action::Redo,
            Action::OpenFile => Action::OpenFile,
            Action::Nothing => Action::Nothing,
            Action::FindChar(ch) => Action::FindChar(*ch),
            Action::ReverseFindChar(ch) => Action::ReverseFindChar(*ch),
            Action::ReverseToChar(ch) => Action::ReverseToChar(*ch),
            Action::ToChar(ch) => Action::ToChar(*ch),
            Action::Replace(ch) => Action::Replace(*ch),
            Action::InsertCharAtCursor(ch) => Action::InsertCharAtCursor(*ch),
            Action::Paste(ch) => Action::Paste(*ch),
            Action::PasteNewline(ch) => Action::PasteNewline(*ch),
            Action::PasteAbove(ch) => Action::PasteAbove(*ch),
            Action::ChangeMode(m) => Action::ChangeMode(*m),
            Action::Find(s) => Action::Find(s.clone()),
            Action::ReverseFind(s) => Action::ReverseFind(s.clone()),
            Action::ExecuteCommand(c) => Action::ExecuteCommand(c.duplicate()),
            Action::Undo(n) => Action::Undo(*n),
        }
    }
}

pub open spec fn mods_none(m: KeyModifiers) -> bool {
    !m.shift && !m.control && !m.alt
}

pub open spec fn mods_shift(m: KeyModifiers) -> bool {
    m.shift && !m.control && !m.alt
}

pub open spec fn mods_control(m: KeyModifiers) -> bool {
    !m.shift && m.control && !m.alt
}

/// The meaning of a key in Normal mode when no earlier key waits for a second one.
pub open spec fn normal_key_action(k: KeyEvent) -> Action {
    let n = mods_none(k.modifiers);
    let ns = n || mods_shift(k.modifiers);
    let ct = mods_control(k.modifiers);
    match k.code {
        KeyCode::Char(c) => {
            if c == 'k' && n {
                Action::BumpUp
            } else if c == 'j' && n {
                Action::BumpDown
            } else if c == 'h' && n {
                Action::BumpLeft
            } else if c == 'l' && n {
                Action::BumpRight
            } else if c == 'u' && ct {
                Action::JumpUp
            } else if c == 'd' && ct {
                Action::JumpDown
            } else if c == 'W' && ns {
                Action::JumpToNextWord
            } else if c == 'w' && n {
                Action::JumpToNextSymbol
            } else if c == 'B' && ns {
                Action::ReverseJumpToNextWord
            } else if c == 'b' && n {
                Action::ReverseJumpToNextSymbol
            } else if c == '_' && n {
                Action::JumpSOL
            } else if c == '$' && n {
                Action::JumpEOL
            } else if c == 'g' && n {
                Action::JumpSOF
            } else if c == 'G' && ns {
                Action::JumpEOF
            } else if c == 'i' && n {
                Action::ChangeMode(Modal::Insert)
            } else if c == 'v' && n {
                Action::ChangeMode(Modal::Visual)
            } else if c == 'V' && ns {
                Action::ChangeMode(Modal::VisualLine)
            } else if c == ':' && n {
                Action::ChangeMode(Modal::Command)
            } else if c == 'A' && ns {
                Action::InsertModeEOL
            } else if c == '/' && n {
                Action::ChangeMode(Modal::Find(FindDirection::Forwards))
            } else if c == '?' && n {
                Action::ChangeMode(Modal::Find(FindDirection::Backwards))
            } else if c == 'o' && n {
                Action::InsertModeBelow
            } else if c == 'O' && n {
                Action::InsertModeAbove
            } else if c == 'X' && ns {
                Action::DeleteBeforeCursor
            } else if c == 'x' && n {
                Action::DeleteAtCursor
            } else if c == 'u' && n {
                Action::Undo(1)
            } else if c == 'r' && ct {
                Action::Redo
            } else {
                Action::Nothing
            }
        },
        KeyCode::Home => if n {
            Action::JumpSOL
        } else {
            Action::Nothing
        },
        KeyCode::End => if n {
            Action::JumpEOL
        } else {
            Action::Nothing
        },
        _ => Action::Nothing,
    }
}

/// The keys that wait for a second key in Normal mode.
pub open spec fn is_prefix_key(c: char) -> bool {
    c == 'f' || c == 'F' || c == 't' || c == 'T' || c == 'p' || c == 'P' || c == 'r'
}

/// The key that a Normal-mode keystroke leaves waiting for a second one.
pub open spec fn latched_key(k: KeyEvent) -> Option<char> {
    match k.code {
        KeyCode::Char(c) => if normal_key_action(k) is Nothing && is_prefix_key(c) {
            Some(c)
        } else {
            None
        },
        _ => None,
    }
}

/// The meaning of the second key of a two-key command.
pub open spec fn second_key_action(prev: char, k: KeyEvent) -> Action {
    match k.code {
        KeyCode::Char(c) => if prev == 'f' {
            Action::FindChar(c)
        } else if prev == 'F' {
            Action::ReverseFindChar(c)
        } else if prev == 't' {
            Action::ToChar(c)
        } else if prev == 'T' {
            Action::ReverseToChar(c)
        } else if prev == 'r' {
            Action::Replace(c)
        } else if prev == 'p' {
            Action::Paste(c)
        } else if prev == 'P' {
            Action::PasteAbove(c)
        } else {
            Action::Nothing
        },
        _ => Action::Nothing,
    }
}

/// The meaning of a key in Insert mode.
pub open spec fn insert_key_action(k: KeyEvent) -> Action {
    match k.code {
        KeyCode::Char(c) => Action::InsertCharAtCursor(c),
        KeyCode::Enter => Action::InsertNewLine,
        KeyCode::Esc => Action::ChangeMode(Modal::Normal),
        KeyCode::Backspace => Action::DeleteBeforeCursor,
        KeyCode::Left => Action::BumpLeft,
        KeyCode::Right => Action::BumpRight,
        KeyCode::Up => Action::BumpUp,
        KeyCode::Down => Action::BumpDown,
        _ => Action::Nothing,
    }
}

/// The command that the text of the command line stands for.
pub open spec fn command_matches(t: Seq<char>, c: Command) -> bool {
    if t.len() > 0 && t[0] == '/' {
        c matches Command::Find(s) && s@ == t.drop_first()
    } else if t.len() > 0 && t[0] == '?' {
        c matches Command::Rfind(s) && s@ == t.drop_first()
    } else if t == seq!['q'] {
        c is Exit
    } else {
        c is Unknown
    }
}

/// The meaning of a key in Command and Find mode, where Enter runs the command `c`.
pub open spec fn command_key_action(k: KeyEvent, c: Command) -> Action {
    match k.code {
        KeyCode::Enter => Action::ExecuteCommand(c),
        KeyCode::Char(ch) => Action::InsertCharAtCursor(ch),
        KeyCode::Up => Action::BumpUp,
        KeyCode::Down => Action::BumpDown,
        KeyCode::Backspace => Action::DeleteBeforeCursor,
        KeyCode::Left => Action::BumpLeft,
        KeyCode::Right => Action::BumpRight,
        KeyCode::Esc => Action::ChangeMode(Modal::Normal),
        _ => Action::Nothing,
    }
}

/// The primitives of the intents that need no search, for a cursor at `pos` whose line has
/// `eol` characters in a plane whose last line is `last`; `None` for the others.
pub open spec fn plain_resolution(a: Action, pos: LineCol, eol: usize, last: usize) -> Option<
    Seq<BaseAction>,
> {
    let lz = Lazy::<LineCol> { inner: None };
    match a {
        Action::Nothing => Some(seq![]),
        Action::BumpUp => Some(seq![BaseAction::MoveUp(1)]),
        Action::BumpDown => Some(seq![BaseAction::MoveDown(1)]),
        Action::BumpLeft => Some(seq![BaseAction::MoveLeft(1)]),
        Action::BumpRight => Some(seq![BaseAction::MoveRight(1)]),
        Action::JumpUp => Some(seq![BaseAction::MoveUp(JUMP_DIST)]),
        Action::JumpDown => Some(seq![BaseAction::MoveDown(JUMP_DIST)]),
        Action::JumpSOL => Some(seq![BaseAction::MoveLeft(pos.col)]),
        Action::JumpEOL => Some(seq![BaseAction::MoveLeft(pos.col), BaseAction::MoveRight(eol)]),
        Action::JumpSOF => Some(seq![BaseAction::MoveUp(pos.line)]),
        Action::JumpEOF => Some(seq![BaseAction::MoveUp(pos.line), BaseAction::MoveDown(last)]),
        Action::ChangeMode(m) => Some(seq![BaseAction::ChangeMode(m)]),
        Action::InsertModeEOL => Some(
            seq![
                BaseAction::MoveRight((eol - pos.col) as usize),
                BaseAction::ChangeMode(Modal::Insert),
            ],
        ),
        Action::InsertModeBelow => Some(
            seq![BaseAction::MoveDown(1), BaseAction::ChangeMode(Modal::Insert)],
        ),
        Action::InsertModeAbove => Some(
            seq![BaseAction::MoveUp(1), BaseAction::ChangeMode(Modal::Insert)],
        ),
        Action::Save => Some(seq![BaseAction::Save]),
        Action::Yank => Some(seq![BaseAction::Yank]),
        Action::Redo => Some(seq![BaseAction::Redo(1)]),
        Action::DeleteAtCursor => Some(seq![BaseAction::DeleteAt(lz, 1)]),
        Action::Replace(c) => Some(seq![BaseAction::DeleteAt(lz, 1), BaseAction::InsertAt(lz, c)]),
        Action::DeleteBeforeCursor => Some(
            seq![BaseAction::MoveLeft(1), BaseAction::DeleteAt(lz, 1)],
        ),
        Action::Undo(n) => Some(seq![BaseAction::Undo(n as usize)]),
        Action::InsertCharAtCursor(c) => Some(
            seq![BaseAction::InsertAt(lz, c), BaseAction::MoveRight(1)],
        ),
        Action::Paste(r) => Some(seq![BaseAction::Paste(r, 1)]),
        Action::PasteAbove(r) => Some(seq![BaseAction::Paste(r, 1)]),
        Action::PasteNewline(r) => Some(seq![BaseAction::MoveDown(1), BaseAction::Paste(r, 1)]),
        Action::OpenFile => Some(seq![BaseAction::OpenFile]),
        Action::InsertNewLine => Some(
            seq![BaseAction::InsertLineAt(lz, 1), BaseAction::MoveDown(1)],
        ),
        Action::FetchFromHistory => Some(seq![BaseAction::FetchFromHistory]),
        _ => None,
    }
}

/// The moves from the remembered position `from` to `target`, after a return to Normal mode.
pub open spec fn jump_actions(from: LineCol, target: LineCol) -> Seq<BaseAction> {
    let vertical = if from.line < target.line {
        seq![BaseAction::MoveDown((target.line - from.line) as usize)]
    } else if from.line > target.line {
        seq![BaseAction::MoveUp((from.line - target.line) as usize)]
    } else {
        seq![]
    };
    seq![BaseAction::ChangeMode(Modal::Normal), BaseAction::MoveLeft(from.col)] + vertical + seq![
        BaseAction::MoveRight(target.col),
    ]
}

/// A match at `h` of the window that starts at `at`, as a position of the document.
pub open spec fn shifted(h: LineCol, at: LineCol) -> LineCol {
    LineCol {
        line: (h.line + at.line) as usize,
        col: if h.line == 0 {
            (h.col + at.col) as usize
        } else {
            h.col
        },
    }
}

/// `r` is what a search for `q` forward from `at` in the document `p` gives: the first match
/// in the window from `at` to the end of the document, or `PatternNotFound`.
pub open spec fn found_from<P: Probe + ?Sized>(
    q: &P,
    p: Seq<Seq<char>>,
    at: LineCol,
    r: Result<LineCol>,
) -> bool {
    let (f, t) = window_bounds(p, Some(at), None);
    if !window_ok(p, f, t) {
        r matches Err(Error::InvalidInput)
    } else {
        let w = clipped_window(p, f, t);
        match r {
            Ok(x) => exists|h: LineCol| first_hit(q, w, Some(h)) && x == shifted(h, at),
            Err(e) => e is PatternNotFound && first_hit(q, w, None),
        }
    }
}

/// `r` is what a search for `q` backward from `at` in the document `p` gives: the last match
/// in the window from the start of the document to `at`, or `PatternNotFound`.
pub open spec fn found_before<P: Probe + ?Sized>(
    q: &P,
    p: Seq<Seq<char>>,
    at: LineCol,
    r: Result<LineCol>,
) -> bool {
    let (f, t) = window_bounds(p, None, Some(at));
    let w = clipped_window(p, f, t);
    match r {
        Ok(x) => last_hit(q, w, Some(x)),
        Err(e) => e is PatternNotFound && last_hit(q, w, None),
    }
}

/// `r` is what a search for `q` in direction `d` from `at` gives.
pub open spec fn found<P: Probe + ?Sized>(
    q: &P,
    d: Direction,
    p: Seq<Seq<char>>,
    at: LineCol,
    r: Result<LineCol>,
) -> bool {
    match d {
        Direction::Forward => found_from(q, p, at, r),
        Direction::Backward => found_before(q, p, at, r),
    }
}

/// Where word and symbol motions start looking: one column right of `pos`, unless `pos`
/// is at the end of its line.
pub open spec fn jump_start(p: Seq<Seq<char>>, pos: LineCol) -> LineCol {
    if pos.line < p.len() && pos.col < p[pos.line as int].len() {
        LineCol { line: pos.line, col: (pos.col + 1) as usize }
    } else {
        pos
    }
}

/// The outcome of a two-boundary motion: from `start`, a search in direction `d` for the
/// first boundary, then from there for the second; `Nothing` where either is not found.
pub open spec fn two_boundaries<First: Probe + ?Sized, Second: Probe + ?Sized>(
    d: Direction,
    first: &First,
    second: &Second,
    p: Seq<Seq<char>>,
    start: LineCol,
    r: Result<BaseAction>,
) -> bool {
    match r {
        Ok(BaseAction::SetCursor(d2)) => exists|d1: LineCol|
            #[trigger] found(first, d, p, start, Ok(d1)) && found(second, d, p, d1, Ok(d2)),
        Ok(BaseAction::Nothing) => found(first, d, p, start, Err(Error::PatternNotFound)) || exists|
            d1: LineCol,
        |
            #[trigger] found(first, d, p, start, Ok(d1)) && found(
                second,
                d,
                p,
                d1,
                Err(Error::PatternNotFound),
            ),
        Ok(_) => false,
        Err(e) => !(e is PatternNotFound) && (found(first, d, p, start, Err(e)) || exists|
            d1: LineCol,
        | #[trigger] found(first, d, p, start, Ok(d1)) && found(second, d, p, d1, Err(e))),
    }
}

/// The result of a find motion from `pos`: the match, or `pos` itself where there is none.
pub open spec fn find_motion<P: Probe + ?Sized>(
    q: &P,
    d: Direction,
    p: Seq<Seq<char>>,
    pos: LineCol,
    r: Result<BaseAction>,
) -> bool {
    match r {
        Ok(BaseAction::SetCursor(x)) => found(q, d, p, pos, Ok(x)) || (x == pos && found(
            q,
            d,
            p,
            pos,
            Err(Error::PatternNotFound),
        )),
        Ok(_) => false,
        Err(e) => !(e is PatternNotFound) && found(q, d, p, pos, Err(e)),
    }
}

/// The state of the editor: the buffer, the cursor and its shadow, the viewport, the mode,
/// and the queue of primitives still to carry out.
pub struct Editor {
    buffer: VecBuffer,
    viewport: ViewPort,
    modal: Modal,
    action_history: Vec<Action>,
    action_queue: Vec<BaseAction>,
    repeat_action: usize,
    previous_key: Option<char>,
    cursor: Cursor,
    shadow_cursor: ShadowCursor,
    debug_messages: DebugMessages,
}

/// The first primitive of a resolution, or its error.
pub open spec fn first_of(r: Result<Vec<BaseAction>>) -> Result<BaseAction> {
    match r {
        Ok(v) => Ok(v@[0]),
        Err(e) => Err(e),
    }
}

/// `r` is the resolution of command `c`, with the remembered position `lt` as the start of
/// searches in the document `p`: a search that finds nothing just returns to Normal mode.
pub open spec fn command_resolution(
    c: Command,
    p: Seq<Seq<char>>,
    lt: LineCol,
    r: Result<Vec<BaseAction>>,
) -> bool {
    match c {
        Command::Exit => r matches Err(Error::ExitCall),
        Command::Unknown => r matches Ok(v) && v@ == seq![BaseAction::ChangeMode(Modal::Normal)],
        Command::Find(s) => exists|res: Result<LineCol>|
            found_from(&s, p, lt, res) && search_outcome(res, lt, r),
        Command::Rfind(s) => exists|res: Result<LineCol>|
            found_before(&s, p, lt, res) && search_outcome(res, lt, r),
    }
}

/// The primitives for the outcome `res` of a command-line search from `lt`.
pub open spec fn search_outcome(res: Result<LineCol>, lt: LineCol, r: Result<Vec<BaseAction>>) -> bool {
    match res {
        Ok(t) => r matches Ok(v) && v@ == jump_actions(lt, t),
        Err(Error::PatternNotFound) => r matches Ok(v) && v@ == seq![
            BaseAction::ChangeMode(Modal::Normal),
        ],
        Err(e) => r matches Err(e2) && e2 == e,
    }
}

impl Editor {
    pub closed spec fn buffer_v(&self) -> VecBuffer {
        self.buffer
    }

    pub closed spec fn cursor_v(&self) -> Cursor {
        self.cursor
    }

    pub closed spec fn shadow_v(&self) -> ShadowCursor {
        self.shadow_cursor
    }

    pub closed spec fn modal_v(&self) -> Modal {
        self.modal
    }

    pub closed spec fn viewport_v(&self) -> ViewPort {
        self.viewport
    }

    /// Primitives waiting to be carried out, first in line first.
    pub closed spec fn queue_v(&self) -> Seq<BaseAction> {
        self.action_queue@
    }

    /// How many times the next single primitive is repeated.
    pub closed spec fn repeat_v(&self) -> usize {
        self.repeat_action
    }

    /// The first key of a two-key command, while it waits for the second.
    pub closed spec fn previous_key_v(&self) -> Option<char> {
        self.previous_key
    }

    pub closed spec fn messages_v(&self) -> Seq<Seq<char>> {
        self.debug_messages@
    }

    /// The intents decoded so far, oldest first.
    pub closed spec fn history_v(&self) -> Seq<Action> {
        self.action_history@
    }

    /// The buffer keeps its invariant, the cursor stands at a valid position of the active
    /// plane, and the shadow is on the cursor.
    pub open spec fn wf(&self) -> bool {
        &&& self.buffer_v().wf()
        &&& valid_pos(self.buffer_v().active(), self.cursor_v().pos)
        &&& self.shadow_v().line == self.cursor_v().pos.line
        &&& self.shadow_v().col == self.cursor_v().pos.col
        &&& self.repeat_v() >= 1
    }

    /// An editor on `buff` in Normal mode, with the cursor at the start of the document.
    pub fn new(buff: VecBuffer, without_target: bool) -> (r: Editor)
        requires
            buff.wf(),
        ensures
            r.wf(),
            r.buffer_v() == buff,
            r.modal_v() == Modal::Normal,
            r.cursor_v().pos == (LineCol { line: 0, col: 0 }),
            r.cursor_v().last_text_mode_pos == (LineCol { line: 0, col: 0 }),
            r.shadow_v() == (ShadowCursor { line: 0, col: 0 }),
            r.viewport_v().top_border == 0,
            r.queue_v().len() == 0,
            r.history_v().len() == 0,
            r.repeat_v() == 1,
            r.previous_key_v() is None,
            r.messages_v().len() == 0,
    {
        Editor {
            buffer: buff,
            viewport: ViewPort::new(80, 24),
            modal: Modal::Normal,
            action_history: Vec::new(),
            action_queue: Vec::new(),
            repeat_action: 1,
            previous_key: None,
            cursor: Cursor::new(),
            shadow_cursor: ShadowCursor { line: 0, col: 0 },
            debug_messages: DebugMessages::new(),
        }
    }

    pub fn buffer(&self) -> (r: &VecBuffer)
        ensures
            *r == self.buffer_v(),
    {
        &self.buffer
    }

    pub fn cursor(&self) -> (r: &Cursor)
        ensures
            *r == self.cursor_v(),
    {
        &self.cursor
    }

    pub fn shadow_cursor(&self) -> (r: &ShadowCursor)
        ensures
            *r == self.shadow_v(),
    {
        &self.shadow_cursor
    }

    pub fn viewport(&self) -> (r: &ViewPort)
        ensures
            *r == self.viewport_v(),
    {
        &self.viewport
    }

    pub fn modal(&self) -> (r: Modal)
        ensures
            r == self.modal_v(),
    {
        self.modal
    }

    /// The messages waiting for the notification bar.
    pub fn get_debug_messages(&self) -> (r: &DebugMessages)
        ensures
            r@ == self.messages_v(),
    {
        &self.debug_messages
    }

    /// Takes on the size that the screen has now.
    pub fn resize(&mut self, width: u16, height: u16)
        ensures
            final(self).viewport_v() == (ViewPort { width, height, ..old(self).viewport_v() }),
            final(self).buffer_v() == old(self).buffer_v(),
            final(self).cursor_v() == old(self).cursor_v(),
            final(self).shadow_v() == old(self).shadow_v(),
            same_control(*old(self), *final(self)),
    {
        self.viewport.resize(width, height);
    }

    /// The text for the notification bar: the oldest waiting message, which is used up.
    pub fn next_notification(&mut self) -> (r: String)
        ensures
            old(self).messages_v().len() == 0 ==> r@.len() == 0 && final(self).messages_v() == old(self).messages_v(),
            old(self).messages_v().len() > 0 ==> r@ == old(self).messages_v()[0] && final(self).messages_v()
                == old(self).messages_v().drop_first(),
            final(self).buffer_v() == old(self).buffer_v(),
            final(self).cursor_v() == old(self).cursor_v(),
            final(self).shadow_v() == old(self).shadow_v(),
            final(self).modal_v() == old(self).modal_v(),
            final(self).queue_v() == old(self).queue_v(),
            final(self).repeat_v() == old(self).repeat_v(),
    {
        get_notif_bar_content(&mut self.debug_messages)
    }

    /// Sets how many times the next single primitive is repeated.
    pub fn set_repeat(&mut self, n: usize)
        requires
            n >= 1,
        ensures
            final(self).repeat_v() == n,
            final(self).buffer_v() == old(self).buffer_v(),
            final(self).cursor_v() == old(self).cursor_v(),
            final(self).shadow_v() == old(self).shadow_v(),
            final(self).modal_v() == old(self).modal_v(),
            final(self).queue_v() == old(self).queue_v(),
    {
        self.repeat_action = n;
    }

    /// Decodes a key in Normal mode; a key that starts a two-key command waits for the next.
    #[verifier::rlimit(50)]
    pub fn interpret_normal_event(&mut self, key_event: KeyEvent) -> (r: Result<Action>)
        ensures
            old(self).previous_key_v() matches Some(p) ==> (r matches Ok(a) && a == second_key_action(p, key_event)
                && final(self).previous_key_v() is None),
            old(self).previous_key_v() is None ==> (r matches Ok(a) && a == normal_key_action(key_event)
                && final(self).previous_key_v() == latched_key(key_event)),
            final(self).buffer_v() == old(self).buffer_v(),
            final(self).cursor_v() == old(self).cursor_v(),
            final(self).shadow_v() == old(self).shadow_v(),
            final(self).modal_v() == old(self).modal_v(),
            final(self).queue_v() == old(self).queue_v(),
            final(self).repeat_v() == old(self).repeat_v(),
            final(self).viewport_v() == old(self).viewport_v(),
            final(self).messages_v() == old(self).messages_v(),
            final(self).history_v() == old(self).history_v(),
    {
        if let Some(prev) = self.previous_key {
            self.previous_key = None;
            let action = match key_event.code {
                KeyCode::Char(c) => if prev == 'f' {
                    Action::FindChar(c)
                } else if prev == 'F' {
                    Action::ReverseFindChar(c)
                } else if prev == 't' {
                    Action::ToChar(c)
                } else if prev == 'T' {
                    Action::ReverseToChar(c)
                } else if prev == 'r' {
                    Action::Replace(c)
                } else if prev == 'p' {
                    Action::Paste(c)
                } else if prev == 'P' {
                    Action::PasteAbove(c)
                } else {
                    Action::Nothing
                },
                _ => Action::Nothing,
            };
            return Ok(action);
        }
        let m = key_event.modifiers;
        let n = !m.shift && !m.control && !m.alt;
        let ns = n || (m.shift && !m.control && !m.alt);
        let ct = !m.shift && m.control && !m.alt;
        let action = match key_event.code {
            KeyCode::Char(c) => {
                if c == 'k' && n {
                    Action::BumpUp
                } else if c == 'j' && n {
                    Action::BumpDown
                } else if c == 'h' && n {
                    Action::BumpLeft
                } else if c == 'l' && n {
                    Action::BumpRight
                } else if c == 'u' && ct {
                    Action::JumpUp
                } else if c == 'd' && ct {
                    Action::JumpDown
                } else if c == 'W' && ns {
                    Action::JumpToNextWord
                } else if c == 'w' && n {
                    Action::JumpToNextSymbol
                } else if c == 'B' && ns {
                    Action::ReverseJumpToNextWord
                } else if c == 'b' && n {
                    Action::ReverseJumpToNextSymbol
                } else if c == '_' && n {
                    Action::JumpSOL
                } else if c == '$' && n {
                    Action::JumpEOL
                } else if c == 'g' && n {
                    Action::JumpSOF
                } else if c == 'G' && ns {
                    Action::JumpEOF
                } else if c == 'i' && n {
                    Action::ChangeMode(Modal::Insert)
                } else if c == 'v' && n {
                    Action::ChangeMode(Modal::Visual)
                } else if c == 'V' && ns {
                    Action::ChangeMode(Modal::VisualLine)
                } else if c == ':' && n {
                    Action::ChangeMode(Modal::Command)
                } else if c == 'A' && ns {
                    Action::InsertModeEOL
                } else if c == '/' && n {
                    Action::ChangeMode(Modal::Find(FindDirection::Forwards))
                } else if c == '?' && n {
                    Action::ChangeMode(Modal::Find(FindDirection::Backwards))
                } else if c == 'o' && n {
                    Action::InsertModeBelow
                } else if c == 'O' && n {
                    Action::InsertModeAbove
                } else if c == 'X' && ns {
                    Action::DeleteBeforeCursor
                } else if c == 'x' && n {
                    Action::DeleteAtCursor
                } else if c == 'u' && n {
                    Action::Undo(1)
                } else if c == 'r' && ct {
                    Action::Redo
                } else {
                    if c == 'f' || c == 'F' || c == 't' || c == 'T' || c == 'p' || c == 'P' || c
                        == 'r' {
                        self.previous_key = Some(c);
                    }
                    Action::Nothing
                }
            },
            KeyCode::Home => if n {
                Action::JumpSOL
            } else {
                Action::Nothing
            },
            KeyCode::End => if n {
                Action::JumpEOL
            } else {
                Action::Nothing
            },
            _ => Action::Nothing,
        };
        Ok(action)
    }

    /// Decodes a key in Insert mode.
    pub fn interpret_insert_event(&self, key_event: KeyEvent) -> (r: Result<Action>)
        ensures
            r matches Ok(a) && a == insert_key_action(key_event),
    {
        let action = match key_event.code {
            KeyCode::Char(c) => Action::InsertCharAtCursor(c),
            KeyCode::Enter => Action::InsertNewLine,
            KeyCode::Esc => Action::ChangeMode(Modal::Normal),
            KeyCode::Backspace => Action::DeleteBeforeCursor,
            KeyCode::Left => Action::BumpLeft,
            KeyCode::Right => Action::BumpRight,
            KeyCode::Up => Action::BumpUp,
            KeyCode::Down => Action::BumpDown,
            _ => Action::Nothing,
        };
        Ok(action)
    }

    /// The command that the command line holds: a search forward after `/`, backward after
    /// `?`, leaving on `q`, and otherwise none.
    pub fn parse_out_command(&self) -> (r: Command)
        requires
            self.buffer_v().wf(),
        ensures
            command_matches(self.buffer_v().command()[0], r),
    {
        let buf = self.buffer.get_command_text();
        let n = buf.unicode_len();
        if n == 0 {
            return Command::Unknown;
        }
        let first = buf.get_char(0);
        if first == '/' {
            let rest = String::from_str(buf.substring_char(1, n));
            assert(rest@ =~= buf@.drop_first());
            Command::Find(rest)
        } else if first == '?' {
            let rest = String::from_str(buf.substring_char(1, n));
            assert(rest@ =~= buf@.drop_first());
            Command::Rfind(rest)
        } else if n == 1 && first == 'q' {
            assert(buf@ =~= seq!['q']);
            Command::Exit
        } else {
            Command::Unknown
        }
    }

    /// Decodes a key in Command and Find mode; Enter runs what the command line holds.
    pub fn interpret_command_event(&self, key_event: KeyEvent) -> (r: Result<Action>)
        requires
            self.buffer_v().wf(),
        ensures
            key_event.code is Enter ==> (r matches Ok(Action::ExecuteCommand(c)) && command_matches(
                self.buffer_v().command()[0],
                c,
            )),
            !(key_event.code is Enter) ==> (r matches Ok(a) && a == command_key_action(
                key_event,
                Command::Unknown,
            )),
    {
        let action = match key_event.code {
            KeyCode::Enter => {
                let command = self.parse_out_command();
                Action::ExecuteCommand(command)
            },
            KeyCode::Char(c) => Action::InsertCharAtCursor(c),
            KeyCode::Up => Action::BumpUp,
            KeyCode::Down => Action::BumpDown,
            KeyCode::Backspace => Action::DeleteBeforeCursor,
            KeyCode::Left => Action::BumpLeft,
            KeyCode::Right => Action::BumpRight,
            KeyCode::Esc => Action::ChangeMode(Modal::Normal),
            _ => Action::Nothing,
        };
        Ok(action)
    }

    /// Searches the document forward from `at` for `query`.
    pub fn find<P: Pattern + ?Sized>(&self, query: &P, at: LineCol) -> (r: Result<LineCol>)
        requires
            self.buffer_v().wf(),
            query.total(),
        ensures
            found_from(query, self.buffer_v().normal(), at, r),
    {
        let ghost p = self.buffer.normal();
        let ghost f = window_bounds(p, Some(at), None).0;
        let ghost t = window_bounds(p, Some(at), None).1;
        let buf = match self.buffer.get_buffer_window(Some(at), None) {
            Ok(b) => b,
            Err(e) => return Err(e),
        };
        let ghost w = clipped_window(p, f, t);
        assert(crate::pattern::lines_view(buf@) == w);
        match query.find_pattern(buf.as_slice()) {
            None => Err(Error::PatternNotFound),
            Some(target) => {
                let text = self.buffer.get_normal_text();
                let line_len = text[at.line].as_str().unicode_len();
                proof {
                    lemma_window_shape(p, f, t);
                }
                let col = if target.line == 0 {
                    target.col + at.col
                } else {
                    target.col
                };
                let x = LineCol { line: target.line + at.line, col };
                assert(x == shifted(target, at));
                Ok(x)
            },
        }
    }

    /// Searches the document backward from `at` for `query`.
    pub fn rfind<P: Pattern + ?Sized>(&self, query: &P, at: LineCol) -> (r: Result<LineCol>)
        requires
            self.buffer_v().wf(),
            query.total(),
        ensures
            found_before(query, self.buffer_v().normal(), at, r),
    {
        let ghost p = self.buffer.normal();
        let buf = match self.buffer.get_buffer_window(None, Some(at)) {
            Ok(b) => b,
            Err(e) => {
                assert(false);
                return Err(e);
            },
        };
        match query.rfind_pattern(buf.as_slice()) {
            None => Err(Error::PatternNotFound),
            Some(v) => Ok(v),
        }
    }

    /// Searches the document from `at` in `direction` for `query`.
    pub fn search<P: Pattern + ?Sized>(&self, query: &P, direction: Direction, at: LineCol) -> (r:
        Result<LineCol>)
        requires
            self.buffer_v().wf(),
            query.total(),
        ensures
            found(query, direction, self.buffer_v().normal(), at, r),
    {
        match direction {
            Direction::Forward => self.find(query, at),
            Direction::Backward => self.rfind(query, at),
        }
    }

    /// A find motion from the cursor: to the match, or nowhere where there is none.
    pub fn resolve_find<P: Pattern + ?Sized>(&self, pattern: &P, direction: Direction) -> (r: Result<
        BaseAction,
    >)
        requires
            self.buffer_v().wf(),
            pattern.total(),
        ensures
            find_motion(pattern, direction, self.buffer_v().normal(), self.cursor_v().pos, r),
    {
        let pos = self.cursor.pos;
        let res = self.search(pattern, direction, pos);
        match res {
            Ok(dest) => Ok(BaseAction::SetCursor(dest)),
            Err(Error::PatternNotFound) => Ok(BaseAction::SetCursor(pos)),
            Err(e) => Err(e),
        }
    }

    /// A motion to where `second_boundary` holds after `first_boundary` held, searching from
    /// one column right of the cursor.
    pub fn jump_two_boundaries<First: Pattern, Second: Pattern>(
        &self,
        direction: Direction,
        first_boundary: First,
        second_boundary: Second,
    ) -> (r: Result<BaseAction>)
        requires
            self.buffer_v().wf(),
            first_boundary.total(),
            second_boundary.total(),
        ensures
            two_boundaries(
                direction,
                &first_boundary,
                &second_boundary,
                self.buffer_v().normal(),
                jump_start(self.buffer_v().normal(), self.cursor_v().pos),
                r,
            ),
    {
        let mut pos = self.cursor.pos;
        let text = self.buffer.get_normal_text();
        if pos.line < text.len() && pos.col < text[pos.line].as_str().unicode_len() {
            pos.col = pos.col + 1;
        }
        let ghost p = self.buffer.normal();
        assert(pos == jump_start(p, self.cursor.pos));
        let first = self.search(&first_boundary, direction, pos);
        let d1 = match first {
            Ok(d) => d,
            Err(Error::PatternNotFound) => {
                let r = Ok(BaseAction::Nothing);
                assert(two_boundaries(direction, &first_boundary, &second_boundary, p, pos, r));
                return r;
            },
            Err(e) => {
                let r = Err(e);
                assert(two_boundaries(direction, &first_boundary, &second_boundary, p, pos, r));
                return r;
            },
        };
        let second = self.search(&second_boundary, direction, d1);
        assert(found(&first_boundary, direction, p, pos, Ok(d1)));
        match second {
            Ok(d) => {
                let r = Ok(BaseAction::SetCursor(d));
                assert(found(&second_boundary, direction, p, d1, Ok(d)));
                assert(two_boundaries(direction, &first_boundary, &second_boundary, p, pos, r));
                r
            },
            Err(Error::PatternNotFound) => {
                let r = Ok(BaseAction::Nothing);
                assert(found(&second_boundary, direction, p, d1, Err(Error::PatternNotFound)));
                assert(two_boundaries(direction, &first_boundary, &second_boundary, p, pos, r));
                r
            },
            Err(e) => {
                let r = Err(e);
                assert(found(&second_boundary, direction, p, d1, Err(e)));
                assert(two_boundaries(direction, &first_boundary, &second_boundary, p, pos, r));
                r
            },
        }
    }

    /// The moves from the remembered position to `target`, back in Normal mode.
    pub fn calculate_jump_actions(&self, target: LineCol) -> (r: Result<Vec<BaseAction>>)
        ensures
            r matches Ok(v) && v@ == jump_actions(self.cursor_v().last_text_mode_pos, target),
    {
        let mut action_vec: Vec<BaseAction> = Vec::new();
        action_vec.push(BaseAction::ChangeMode(Modal::Normal));
        let from = self.cursor.last_text_mode_pos;
        action_vec.push(BaseAction::MoveLeft(self.cursor.text_mode_col()));
        if from.line < target.line {
            action_vec.push(BaseAction::MoveDown(target.line - from.line));
        } else if from.line > target.line {
            action_vec.push(BaseAction::MoveUp(from.line - target.line));
        }
        action_vec.push(BaseAction::MoveRight(target.col));
        assert(action_vec@ =~= jump_actions(from, target));
        Ok(action_vec)
    }

    /// The primitives of a command from the command line.
    pub fn resolve_command_action(&self, c: Command) -> (r: Result<Vec<BaseAction>>)
        requires
            self.buffer_v().wf(),
        ensures
            command_resolution(c, self.buffer_v().normal(), self.cursor_v().last_text_mode_pos, r),
    {
        let lt = self.cursor.last_text_mode_pos;
        match c {
            Command::Exit => Err(Error::ExitCall),
            Command::Unknown => {
                let mut v: Vec<BaseAction> = Vec::new();
                v.push(BaseAction::ChangeMode(Modal::Normal));
                assert(v@ =~= seq![BaseAction::ChangeMode(Modal::Normal)]);
                Ok(v)
            },
            Command::Find(s) => {
                let res = self.find(&s, lt);
                self.search_result(res)
            },
            Command::Rfind(s) => {
                let res = self.rfind(&s, lt);
                self.search_result(res)
            },
        }
    }

    fn search_result(&self, res: Result<LineCol>) -> (r: Result<Vec<BaseAction>>)
        ensures
            search_outcome(res, self.cursor_v().last_text_mode_pos, r),
    {
        match res {
            Ok(target) => self.calculate_jump_actions(target),
            Err(Error::PatternNotFound) => {
                let mut v: Vec<BaseAction> = Vec::new();
                v.push(BaseAction::ChangeMode(Modal::Normal));
                assert(v@ =~= seq![BaseAction::ChangeMode(Modal::Normal)]);
                Ok(v)
            },
            Err(e) => Err(e),
        }
    }
}

/// The window that a forward search from `f` reads has no more lines than the document has
/// from `f` on, and its first line is the rest of line `f.line` from `f.col` at most.
proof fn lemma_window_shape(p: Seq<Seq<char>>, f: LineCol, t: LineCol)
    requires
        window_ok(p, f, t),
    ensures
        clipped_window(p, f, t).len() <= t.line - f.line + 1,
        clipped_window(p, f, t).len() > 0 ==> clipped_window(p, f, t)[0].len() + f.col <= p[f.line as int].len(),
{
}

/// The primitive with an unfilled position filled in with `pos`.
pub open spec fn evaluated(a: BaseAction, pos: LineCol) -> BaseAction {
    let lz = Lazy::<LineCol> { inner: Some(pos) };
    match a {
        BaseAction::InsertAt(l, c) => if l.inner is None {
            BaseAction::InsertAt(lz, c)
        } else {
            a
        },
        BaseAction::DeleteAt(l, n) => if l.inner is None {
            BaseAction::DeleteAt(lz, n)
        } else {
            a
        },
        BaseAction::InsertLineAt(l, n) => if l.inner is None {
            BaseAction::InsertLineAt(lz, n)
        } else {
            a
        },
        BaseAction::DeleteLineAt(l, n) => if l.inner is None {
            BaseAction::DeleteLineAt(lz, n)
        } else {
            a
        },
        _ => a,
    }
}

pub open spec fn is_move(a: BaseAction) -> bool {
    a is MoveUp || a is MoveDown || a is MoveLeft || a is MoveRight
}

/// `col` where line `line` of `p` is that long, else the end of that line.
pub open spec fn clamp_col(p: Seq<Seq<char>>, line: int, col: usize) -> usize {
    if col <= p[line].len() {
        col
    } else {
        p[line].len() as usize
    }
}

/// The valid position of `p` nearest to `pos`: the last line at most, and the end of the
/// line at most.
pub open spec fn clamp_pos(p: Seq<Seq<char>>, pos: LineCol) -> LineCol {
    let line = if pos.line < p.len() {
        pos.line
    } else {
        (p.len() - 1) as usize
    };
    LineCol { line, col: clamp_col(p, line as int, pos.col) }
}

/// Where a bound-checked move `a` takes a cursor at the valid position `pos` of `p`: a move
/// past the first or last line stops there, and a column past the end of the line that the
/// cursor lands on stops at that end.
pub open spec fn bounded_move(p: Seq<Seq<char>>, pos: LineCol, a: BaseAction) -> LineCol {
    let last = p.len() - 1;
    match a {
        BaseAction::MoveUp(d) => {
            let l = if d <= pos.line {
                (pos.line - d) as usize
            } else {
                0
            };
            LineCol { line: l, col: clamp_col(p, l as int, pos.col) }
        },
        BaseAction::MoveDown(d) => {
            let l = if pos.line + d <= last {
                (pos.line + d) as usize
            } else {
                last as usize
            };
            LineCol { line: l, col: clamp_col(p, l as int, pos.col) }
        },
        BaseAction::MoveLeft(d) => LineCol {
            line: pos.line,
            col: if d <= pos.col {
                (pos.col - d) as usize
            } else {
                0
            },
        },
        BaseAction::MoveRight(d) => LineCol {
            line: pos.line,
            col: if pos.col + d <= p[pos.line as int].len() {
                (pos.col + d) as usize
            } else {
                p[pos.line as int].len() as usize
            },
        },
        _ => pos,
    }
}

/// The queue after the primitives `v` are put in line behind `q` with pending repeat count
/// `k`: a single primitive with a repeat count has it multiplied by `k`.
pub open spec fn enqueued(q: Seq<BaseAction>, v: Seq<BaseAction>, k: usize) -> Seq<BaseAction> {
    if v.len() == 1 && k != 1 {
        match repeater(v[0]) {
            Some(n) => if n * k <= usize::MAX {
                q.push(with_count(v[0], (n * k) as usize))
            } else {
                q.push(v[0])
            },
            None => q.push(v[0]),
        }
    } else {
        q + v
    }
}

/// The control state of `a` and `b` is the same: mode, queue, repeat count, waiting key,
/// messages and history.
pub open spec fn same_control(a: Editor, b: Editor) -> bool {
    &&& a.modal_v() == b.modal_v()
    &&& a.queue_v() == b.queue_v()
    &&& a.repeat_v() == b.repeat_v()
    &&& a.previous_key_v() == b.previous_key_v()
    &&& a.messages_v() == b.messages_v()
    &&& a.history_v() == b.history_v()
}

/// `r` is the resolution of intent `a` in the state of `e`.
pub open spec fn resolves(e: Editor, a: Action, r: Result<Vec<BaseAction>>) -> bool {
    let pos = e.cursor_v().pos;
    let p = e.buffer_v().normal();
    let act = e.buffer_v().active();
    let eol = act[pos.line as int].len() as usize;
    let last = (act.len() - 1) as usize;
    let start = jump_start(p, pos);
    &&& plain_resolution(a, pos, eol, last) matches Some(s) ==> (r matches Ok(v) && v@ == s)
    &&& a is Quit ==> (r matches Err(Error::ExitCall))
    &&& a is JumpToNextWord ==> (r matches Ok(v) ==> v@.len() == 1) && two_boundaries(
        Direction::Forward,
        &CharClass::Whitespace,
        &CharClass::NotWhitespace,
        p,
        start,
        first_of(r),
    )
    &&& a is JumpToNextSymbol ==> (r matches Ok(v) ==> v@.len() == 1) && two_boundaries(
        Direction::Forward,
        &CharClass::WordChar,
        &CharClass::SymbolChar,
        p,
        start,
        first_of(r),
    )
    &&& a is ReverseJumpToNextWord ==> (r matches Ok(v) ==> v@.len() == 1) && two_boundaries(
        Direction::Backward,
        &CharClass::Whitespace,
        &CharClass::NotWhitespace,
        p,
        start,
        first_of(r),
    )
    &&& a is ReverseJumpToNextSymbol ==> (r matches Ok(v) ==> v@.len() == 1) && two_boundaries(
        Direction::Backward,
        &CharClass::WordChar,
        &CharClass::SymbolChar,
        p,
        start,
        first_of(r),
    )
    &&& a matches Action::Find(s) ==> (r matches Ok(v) ==> v@.len() == 1) && find_motion(
        &s,
        Direction::Forward,
        p,
        pos,
        first_of(r),
    )
    &&& a matches Action::ReverseFind(s) ==> (r matches Ok(v) ==> v@.len() == 1) && find_motion(
        &s,
        Direction::Backward,
        p,
        pos,
        first_of(r),
    )
    &&& a matches Action::FindChar(c) ==> (r matches Ok(v) ==> v@.len() == 1) && find_motion(
        &c,
        Direction::Forward,
        p,
        pos,
        first_of(r),
    )
    &&& a matches Action::ReverseFindChar(c) ==> (r matches Ok(v) ==> v@.len() == 1)
        && find_motion(&c, Direction::Backward, p, pos, first_of(r))
    &&& a matches Action::ToChar(c) ==> (r matches Ok(v) ==> v@.len() == 2 && v@[1]
        == BaseAction::MoveLeft(1)) && find_motion(&c, Direction::Forward, p, pos, first_of(r))
    &&& a matches Action::ReverseToChar(c) ==> (r matches Ok(v) ==> v@.len() == 2 && v@[1]
        == BaseAction::MoveRight(1)) && find_motion(&c, Direction::Backward, p, pos, first_of(r))
    &&& a matches Action::ExecuteCommand(c) ==> command_resolution(
        c,
        p,
        e.cursor_v().last_text_mode_pos,
        r,
    )
}

fn one(a: BaseAction) -> (r: Vec<BaseAction>)
    ensures
        r@ == seq![a],
{
    let mut v: Vec<BaseAction> = Vec::new();
    v.push(a);
    assert(v@ =~= seq![a]);
    v
}

fn two(a: BaseAction, b: BaseAction) -> (r: Vec<BaseAction>)
    ensures
        r@ == seq![a, b],
{
    let mut v: Vec<BaseAction> = Vec::new();
    v.push(a);
    v.push(b);
    assert(v@ =~= seq![a, b]);
    v
}

fn single(r: Result<BaseAction>) -> (out: Result<Vec<BaseAction>>)
    ensures
        first_of(out) == r,
        out matches Ok(v) ==> v@.len() == 1,
{
    match r {
        Ok(a) => Ok(one(a)),
        Err(e) => Err(e),
    }
}

impl Editor {
    /// The primitives that carry out intent `api_action`.
    #[verifier::rlimit(50)]
    pub fn resolve_action(&self, api_action: Action) -> (r: Result<Vec<BaseAction>>)
        requires
            self.buffer_v().wf(),
            self.cursor_v().pos.line < self.buffer_v().active().len(),
            api_action is InsertModeEOL ==> self.cursor_v().pos.col <= self.buffer_v().active()[
                self.cursor_v().pos.line as int].len(),
        ensures
            resolves(*self, api_action, r),
    {
        let pos = self.cursor.pos;
        let none = Lazy::<LineCol> { inner: None };
        match api_action {
            Action::Nothing => {
                let v: Vec<BaseAction> = Vec::new();
                assert(v@ =~= seq![]);
                Ok(v)
            },
            Action::Quit => Err(Error::ExitCall),
            Action::BumpUp => Ok(one(BaseAction::MoveUp(1))),
            Action::BumpDown => Ok(one(BaseAction::MoveDown(1))),
            Action::BumpLeft => Ok(one(BaseAction::MoveLeft(1))),
            Action::BumpRight => Ok(one(BaseAction::MoveRight(1))),
            Action::JumpUp => Ok(one(BaseAction::MoveUp(JUMP_DIST))),
            Action::JumpDown => Ok(one(BaseAction::MoveDown(JUMP_DIST))),
            Action::JumpSOL => Ok(one(BaseAction::MoveLeft(pos.col))),
            Action::JumpEOL => Ok(
                two(BaseAction::MoveLeft(pos.col), BaseAction::MoveRight(self.buffer.max_col(pos.line))),
            ),
            Action::JumpSOF => Ok(one(BaseAction::MoveUp(pos.line))),
            Action::JumpEOF => Ok(
                two(BaseAction::MoveUp(pos.line), BaseAction::MoveDown(self.buffer.max_line())),
            ),
            Action::JumpToNextWord => single(
                self.jump_two_boundaries(
                    Direction::Forward,
                    CharClass::Whitespace,
                    CharClass::NotWhitespace,
                ),
            ),
            Action::JumpToNextSymbol => single(
                self.jump_two_boundaries(Direction::Forward, CharClass::WordChar, CharClass::SymbolChar),
            ),
            Action::ReverseJumpToNextWord => single(
                self.jump_two_boundaries(
                    Direction::Backward,
                    CharClass::Whitespace,
                    CharClass::NotWhitespace,
                ),
            ),
            Action::ReverseJumpToNextSymbol => single(
                self.jump_two_boundaries(
                    Direction::Backward,
                    CharClass::WordChar,
                    CharClass::SymbolChar,
                ),
            ),
            Action::Find(pat) => single(self.resolve_find(&pat, Direction::Forward)),
            Action::ReverseFind(pat) => single(self.resolve_find(&pat, Direction::Backward)),
            Action::FindChar(ch) => single(self.resolve_find(&ch, Direction::Forward)),
            Action::ReverseFindChar(ch) => single(self.resolve_find(&ch, Direction::Backward)),
            Action::ToChar(ch) => match self.resolve_find(&ch, Direction::Forward) {
                Ok(a) => Ok(two(a, BaseAction::MoveLeft(1))),
                Err(e) => Err(e),
            },
            Action::ReverseToChar(ch) => match self.resolve_find(&ch, Direction::Backward) {
                Ok(a) => Ok(two(a, BaseAction::MoveRight(1))),
                Err(e) => Err(e),
            },
            Action::ChangeMode(mode) => Ok(one(BaseAction::ChangeMode(mode))),
            Action::InsertModeEOL => {
                let dist = self.buffer.max_col(pos.line) - pos.col;
                Ok(two(BaseAction::MoveRight(dist), BaseAction::ChangeMode(Modal::Insert)))
            },
            Action::InsertModeBelow => Ok(
                two(BaseAction::MoveDown(1), BaseAction::ChangeMode(Modal::Insert)),
            ),
            Action::InsertModeAbove => Ok(
                two(BaseAction::MoveUp(1), BaseAction::ChangeMode(Modal::Insert)),
            ),
            Action::Save => Ok(one(BaseAction::Save)),
            Action::Yank => Ok(one(BaseAction::Yank)),
            Action::Redo => Ok(one(BaseAction::Redo(1))),
            Action::DeleteAtCursor => Ok(one(BaseAction::DeleteAt(none, 1))),
            Action::Replace(c) => Ok(two(BaseAction::DeleteAt(none, 1), BaseAction::InsertAt(none, c))),
            Action::DeleteBeforeCursor => Ok(
                two(BaseAction::MoveLeft(1), BaseAction::DeleteAt(none, 1)),
            ),
            Action::Undo(steps) => Ok(one(BaseAction::Undo(steps as usize))),
            Action::InsertCharAtCursor(ch) => Ok(
                two(BaseAction::InsertAt(none, ch), BaseAction::MoveRight(1)),
            ),
            Action::Paste(reg) => Ok(one(BaseAction::Paste(reg, 1))),
            Action::PasteAbove(reg) => Ok(one(BaseAction::Paste(reg, 1))),
            Action::PasteNewline(reg) => Ok(two(BaseAction::MoveDown(1), BaseAction::Paste(reg, 1))),
            Action::OpenFile => Ok(one(BaseAction::OpenFile)),
            Action::InsertNewLine => Ok(
                two(BaseAction::InsertLineAt(none, 1), BaseAction::MoveDown(1)),
            ),
            Action::FetchFromHistory => Ok(one(BaseAction::FetchFromHistory)),
            Action::ExecuteCommand(c) => self.resolve_command_action(c),
        }
    }

    /// The primitive with an unfilled position filled in with the cursor position.
    pub fn compute_lazy_values(&self, a: &BaseAction) -> (r: BaseAction)
        ensures
            r == evaluated(*a, self.cursor_v().pos),
    {
        let lz = Lazy::with_inner(self.cursor.pos);
        match a {
            BaseAction::InsertAt(l, c) => if l.is_evaluated() {
                a.duplicate()
            } else {
                BaseAction::InsertAt(lz, *c)
            },
            BaseAction::DeleteAt(l, n) => if l.is_evaluated() {
                a.duplicate()
            } else {
                BaseAction::DeleteAt(lz, *n)
            },
            BaseAction::InsertLineAt(l, n) => if l.is_evaluated() {
                a.duplicate()
            } else {
                BaseAction::InsertLineAt(lz, *n)
            },
            BaseAction::DeleteLineAt(l, n) => if l.is_evaluated() {
                a.duplicate()
            } else {
                BaseAction::DeleteLineAt(lz, *n)
            },
            _ => a.duplicate(),
        }
    }

    /// Hands a primitive, its position filled in, to the buffer, the viewport, the cursor
    /// and the shadow in turn; a failure of the buffer stops it there.
    pub fn delegate_action(&mut self, action: &BaseAction) -> (r: Result<()>)
        requires
            old(self).buffer_v().wf(),
            cursor_can_apply(old(self).cursor_v(), evaluated(*action, old(self).cursor_v().pos)),
            shadow_small(old(self).shadow_v()),
        ensures
            final(self).buffer_v().wf(),
            same_control(*old(self), *final(self)),
            buffer_step(
                old(self).buffer_v(),
                final(self).buffer_v(),
                evaluated(*action, old(self).cursor_v().pos),
                r,
            ),
            r is Ok ==> viewport_step(
                old(self).viewport_v(),
                final(self).viewport_v(),
                evaluated(*action, old(self).cursor_v().pos),
            ) && cursor_step(
                old(self).cursor_v(),
                final(self).cursor_v(),
                evaluated(*action, old(self).cursor_v().pos),
            ) && shadow_step(
                old(self).shadow_v(),
                final(self).shadow_v(),
                evaluated(*action, old(self).cursor_v().pos),
            ),
            r is Err ==> final(self).viewport_v() == old(self).viewport_v() && final(self).cursor_v()
                == old(self).cursor_v() && final(self).shadow_v() == old(self).shadow_v(),
    {
        let action = self.compute_lazy_values(action);
        match self.buffer.execute_action(&action) {
            Ok(()) => {},
            Err(e) => return Err(e),
        }
        let _ = self.viewport.execute_action(&action);
        let _ = self.cursor.execute_action(&action);
        let _ = self.shadow_cursor.execute_action(&action);
        Ok(())
    }

    /// Moves the cursor, and the shadow with it, to the nearest valid position of the active
    /// plane.
    pub fn clamp_cursor(&mut self)
        requires
            old(self).buffer_v().wf(),
        ensures
            final(self).cursor_v().pos == clamp_pos(old(self).buffer_v().active(), old(self).cursor_v().pos),
            valid_pos(old(self).buffer_v().active(), old(self).cursor_v().pos) ==> final(self).cursor_v()
                == old(self).cursor_v(),
            final(self).shadow_v().line == final(self).cursor_v().pos.line,
            final(self).shadow_v().col == final(self).cursor_v().pos.col,
            final(self).buffer_v() == old(self).buffer_v(),
            final(self).viewport_v() == old(self).viewport_v(),
            same_control(*old(self), *final(self)),
    {
        let n = self.buffer.line_count();
        let pos = self.cursor.pos;
        let line = if pos.line < n {
            pos.line
        } else {
            n - 1
        };
        let len = self.buffer.max_col(line);
        let col = if pos.col <= len {
            pos.col
        } else {
            len
        };
        if line != pos.line || col != pos.col {
            self.cursor.go(&LineCol { line, col });
        }
        self.shadow_cursor.update(self.cursor.pos);
    }
}


/// `new` is `old` after `perform_action(action)` returned `r`.
pub open spec fn performed(old: Editor, new: Editor, action: BaseAction, r: Result<()>) -> bool {
    &&& new.wf()
    &&& new.queue_v() == old.queue_v()
    &&& new.repeat_v() == old.repeat_v()
    &&& new.previous_key_v() == old.previous_key_v()
    &&& new.messages_v() == old.messages_v()
    &&& new.history_v() == old.history_v()
    &&& is_move(action) ==> {
        &&& r is Ok
        &&& new.buffer_v() == old.buffer_v()
        &&& new.cursor_v().pos == bounded_move(old.buffer_v().active(), old.cursor_v().pos, action)
        &&& new.modal_v() == old.modal_v()
    }
    &&& action matches BaseAction::ChangeMode(m) ==> {
        &&& r is Ok
        &&& new.modal_v() == m
        &&& buffer_step(old.buffer_v(), new.buffer_v(), action, r)
        &&& new.cursor_v().pos == clamp_pos(
            new.buffer_v().active(),
            crate::cursor::changed_mode_pos(old.cursor_v(), m),
        )
    }
    &&& (action is Undo || action is Redo) ==> {
        &&& new.modal_v() == old.modal_v()
        &&& new.buffer_v().plane() == old.buffer_v().plane()
        &&& new.buffer_v().command() == old.buffer_v().command()
        &&& new.buffer_v().terminal() == old.buffer_v().terminal()
        &&& new.cursor_v().pos == clamp_pos(new.buffer_v().active(), old.cursor_v().pos)
    }
    &&& action matches BaseAction::Undo(n) ==> {
        &&& new.buffer_v().history() == history_steps(
            old.buffer_v().history(),
            old.cursor_v().pos,
            n as nat,
            false,
        )
        &&& n <= old.buffer_v().past().len() ==> r is Ok
        &&& n > old.buffer_v().past().len() ==> r matches Err(Error::NowhereToGo)
    }
    &&& action matches BaseAction::Redo(n) ==> {
        &&& new.buffer_v().history() == history_steps(
            old.buffer_v().history(),
            old.cursor_v().pos,
            n as nat,
            true,
        )
        &&& n <= old.buffer_v().future().len() ==> r is Ok
        &&& n > old.buffer_v().future().len() ==> r matches Err(Error::NowhereToGo)
    }
    &&& !(is_move(action) || action is ChangeMode || action is Undo || action is Redo) ==> {
        &&& new.modal_v() == old.modal_v()
        &&& buffer_step(
            old.buffer_v(),
            new.buffer_v(),
            evaluated(action, old.cursor_v().pos),
            r,
        )
        &&& new.cursor_v().pos == clamp_pos(
            new.buffer_v().active(),
            primitive_target(action, old.cursor_v().pos),
        )
    }
}

/// `end` is `start`, as far as the document state goes, after each primitive of `q` was
/// carried out in order with success.
pub open spec fn reach(start: Editor, q: Seq<BaseAction>, end: Editor) -> bool
    decreases q.len(),
{
    if q.len() == 0 {
        same_state(start, end)
    } else {
        exists|mid: Editor|
            reach(start, q.drop_last(), mid) && #[trigger] performed(mid, end, q.last(), Ok(()))
    }
}

/// `end` and `r` are what carrying out the primitives of `q` in order from `start` gives:
/// every one succeeded, or the first failure ended the run.
pub open spec fn ran(start: Editor, q: Seq<BaseAction>, end: Editor, r: Result<()>) -> bool {
    match r {
        Ok(_) => reach(start, q, end),
        Err(_) => exists|i: int, mid: Editor|
            0 <= i < q.len() && reach(start, q.subrange(0, i), mid) && #[trigger] performed(
                mid,
                end,
                q[i],
                r,
            ),
    }
}

/// The document state of `a` and `b` is the same: buffer, cursor, shadow, viewport and mode.
pub open spec fn same_state(a: Editor, b: Editor) -> bool {
    &&& a.buffer_v() == b.buffer_v()
    &&& a.cursor_v() == b.cursor_v()
    &&& a.shadow_v() == b.shadow_v()
    &&& a.viewport_v() == b.viewport_v()
    &&& a.modal_v() == b.modal_v()
}

/// The message queue `m` after message `s` is put in line, the oldest going beyond the
/// capacity.
pub open spec fn notified(m: Seq<Seq<char>>, s: Seq<char>) -> Seq<Seq<char>> {
    if m.len() < NOTIFICATION_CAPACITY {
        m.push(s)
    } else {
        m.push(s).drop_first()
    }
}

/// The end of a turn with outcome `outcome`: leaving and programming errors come back as
/// they are; any other failure becomes a message in `m1` and the turn ends well.
pub open spec fn settled(outcome: Result<()>, r: Result<()>, m0: Seq<Seq<char>>, m1: Seq<Seq<char>>) -> bool {
    match outcome {
        Ok(_) => r is Ok && m1 == m0,
        Err(e) => if e is ExitCall || e is ProgrammingBug {
            r == outcome && m1 == m0
        } else {
            r is Ok && m1 == notified(m0, describe_spec(e))
        },
    }
}

/// `a` is the intent of key `k` in the mode of `e`: the Normal-mode table (also in the
/// Visual modes), with a waiting first key taken into account, the Insert-mode table, or
/// the command-line table, where Enter runs the command that the command line holds.
pub open spec fn decoded(e: Editor, k: KeyEvent, a: Action) -> bool {
    match e.modal_v() {
        Modal::Insert => a == insert_key_action(k),
        Modal::Command | Modal::Find(_) => if k.code is Enter {
            a matches Action::ExecuteCommand(c) && command_matches(e.buffer_v().command()[0], c)
        } else {
            a == command_key_action(k, Command::Unknown)
        },
        _ => match e.previous_key_v() {
            Some(p) => a == second_key_action(p, k),
            None => a == normal_key_action(k),
        },
    }
}

/// The first key of a two-key command that waits after key `k` in the mode of `e`.
pub open spec fn key_latch(e: Editor, k: KeyEvent) -> Option<char> {
    match e.modal_v() {
        Modal::Insert | Modal::Command | Modal::Find(_) => e.previous_key_v(),
        _ => match e.previous_key_v() {
            Some(_) => None,
            None => latched_key(k),
        },
    }
}

/// Runs from document states that are the same end the same way.
pub proof fn lemma_reach_start(s1: Editor, s2: Editor, q: Seq<BaseAction>, end: Editor)
    requires
        same_state(s1, s2),
        reach(s1, q, end),
    ensures
        reach(s2, q, end),
    decreases q.len(),
{
    if q.len() > 0 {
        let mid = choose|mid: Editor|
            reach(s1, q.drop_last(), mid) && #[trigger] performed(mid, end, q.last(), Ok(()));
        lemma_reach_start(s1, s2, q.drop_last(), mid);
    }
}

pub proof fn lemma_ran_start(s1: Editor, s2: Editor, q: Seq<BaseAction>, end: Editor, r: Result<()>)
    requires
        same_state(s1, s2),
        ran(s1, q, end, r),
    ensures
        ran(s2, q, end, r),
{
    match r {
        Ok(_) => lemma_reach_start(s1, s2, q, end),
        Err(_) => {
            let (i, mid) = choose|i: int, mid: Editor|
                0 <= i < q.len() && reach(s1, q.subrange(0, i), mid) && #[trigger] performed(
                    mid,
                    end,
                    q[i],
                    r,
                );
            lemma_reach_start(s1, s2, q.subrange(0, i), mid);
        },
    }
}

/// Where a primitive that is not a move puts the cursor before it is brought back in bounds.
pub open spec fn primitive_target(a: BaseAction, pos: LineCol) -> LineCol {
    match a {
        BaseAction::SetCursor(lc) => lc,
        _ => pos,
    }
}

impl Editor {
    /// Puts the cursor, and the shadow with it, on the last line of the active plane by
    /// the primitives of `JumpEOF`, keeping the column.
    fn clamp_to_last_line(&mut self)
        requires
            old(self).buffer_v().wf(),
            old(self).cursor_v().pos.line < old(self).buffer_v().active().len(),
        ensures
            final(self).buffer_v() == old(self).buffer_v(),
            final(self).cursor_v().pos == (LineCol {
                line: (old(self).buffer_v().active().len() - 1) as usize,
                col: old(self).cursor_v().pos.col,
            }),
            final(self).shadow_v().line == final(self).cursor_v().pos.line,
            final(self).shadow_v().col == final(self).cursor_v().pos.col,
            same_control(*old(self), *final(self)),
    {
        self.shadow_cursor.update(self.cursor.pos);
        let fix = match self.resolve_action(Action::JumpEOF) {
            Ok(v) => v,
            Err(_) => {
                assert(false);
                return ;
            },
        };
        let _ = self.delegate_action(&fix[0]);
        let _ = self.delegate_action(&fix[1]);
    }

    /// Puts the cursor, and the shadow with it, on the first line by the primitives of
    /// `JumpSOF`, keeping the column.
    fn clamp_to_first_line(&mut self)
        requires
            old(self).buffer_v().wf(),
            old(self).cursor_v().pos.line < old(self).buffer_v().active().len(),
        ensures
            final(self).buffer_v() == old(self).buffer_v(),
            final(self).cursor_v().pos == (LineCol { line: 0, col: old(self).cursor_v().pos.col }),
            final(self).shadow_v().line == final(self).cursor_v().pos.line,
            final(self).shadow_v().col == final(self).cursor_v().pos.col,
            same_control(*old(self), *final(self)),
    {
        self.shadow_cursor.update(self.cursor.pos);
        let fix = match self.resolve_action(Action::JumpSOF) {
            Ok(v) => v,
            Err(_) => {
                assert(false);
                return ;
            },
        };
        let _ = self.delegate_action(&fix[0]);
    }

    /// Puts the cursor, and the shadow with it, at the end of its line by the primitives of
    /// `JumpEOL`.
    fn clamp_to_line_end(&mut self)
        requires
            old(self).buffer_v().wf(),
            old(self).cursor_v().pos.line < old(self).buffer_v().active().len(),
        ensures
            final(self).buffer_v() == old(self).buffer_v(),
            final(self).cursor_v().pos == (LineCol {
                line: old(self).cursor_v().pos.line,
                col: old(self).buffer_v().active()[old(self).cursor_v().pos.line as int].len() as usize,
            }),
            final(self).shadow_v().line == final(self).cursor_v().pos.line,
            final(self).shadow_v().col == final(self).cursor_v().pos.col,
            same_control(*old(self), *final(self)),
    {
        self.shadow_cursor.update(self.cursor.pos);
        let fix = match self.resolve_action(Action::JumpEOL) {
            Ok(v) => v,
            Err(_) => {
                assert(false);
                return ;
            },
        };
        let _ = self.delegate_action(&fix[0]);
        let _ = self.delegate_action(&fix[1]);
    }

    /// Puts the cursor, and the shadow with it, at the start of its line by the primitives
    /// of `JumpSOL`.
    fn clamp_to_line_start(&mut self)
        requires
            old(self).buffer_v().wf(),
            old(self).cursor_v().pos.line < old(self).buffer_v().active().len(),
        ensures
            final(self).buffer_v() == old(self).buffer_v(),
            final(self).cursor_v().pos == (LineCol { line: old(self).cursor_v().pos.line, col: 0 }),
            final(self).shadow_v().line == final(self).cursor_v().pos.line,
            final(self).shadow_v().col == final(self).cursor_v().pos.col,
            same_control(*old(self), *final(self)),
    {
        self.shadow_cursor.update(self.cursor.pos);
        let fix = match self.resolve_action(Action::JumpSOL) {
            Ok(v) => v,
            Err(_) => {
                assert(false);
                return ;
            },
        };
        let _ = self.delegate_action(&fix[0]);
    }

    /// Carries out a move with bound checking: the shadow makes the move first, and a move
    /// that would leave the plane is replaced by a jump to its first or last line, or to the
    /// start or end of the line.
    #[verifier::rlimit(50)]
    pub fn delegate_action_bound_checked(&mut self, action: &BaseAction) -> (r: Result<()>)
        requires
            old(self).wf(),
            is_move(*action),
        ensures
            final(self).wf(),
            r is Ok,
            final(self).buffer_v() == old(self).buffer_v(),
            final(self).cursor_v().pos == bounded_move(
                old(self).buffer_v().active(),
                old(self).cursor_v().pos,
                *action,
            ),
            same_control(*old(self), *final(self)),
    {
        let ghost p = self.buffer.active();
        let _ = self.shadow_cursor.execute_action(action);
        let last = self.buffer.max_line();
        let mut altered = false;
        if self.shadow_cursor.line > last as i128 {
            self.clamp_to_last_line();
            altered = true;
        } else if self.shadow_cursor.line < 0 {
            self.clamp_to_first_line();
            altered = true;
        }
        let vertical = match action {
            BaseAction::MoveUp(_) | BaseAction::MoveDown(_) => true,
            _ => false,
        };
        if vertical && !altered {
            let _ = self.cursor.execute_action(action);
            altered = true;
        }
        assert(self.cursor.pos.line < p.len());
        assert(self.shadow_cursor.line == self.cursor.pos.line);
        let line = self.cursor.line();
        let maxc = self.buffer.max_col(line);
        if self.shadow_cursor.col > maxc as i128 {
            self.clamp_to_line_end();
            altered = true;
        } else if self.shadow_cursor.col < 0 {
            self.clamp_to_line_start();
            altered = true;
        }
        if !altered {
            self.shadow_cursor.update(self.cursor.pos);
            let _ = self.delegate_action(action);
        }
        Ok(())
    }

    /// Carries out one primitive: moves with bound checking, a change of mode also in the
    /// editor's own mode, undo and redo on the document; afterwards the cursor is brought
    /// back within the active plane.
    #[verifier::rlimit(50)]
    pub fn perform_action(&mut self, action: BaseAction) -> (r: Result<()>)
        requires
            old(self).wf(),
        ensures
            performed(*old(self), *final(self), action, r),
    {
        match action {
            BaseAction::MoveUp(_) | BaseAction::MoveDown(_) | BaseAction::MoveLeft(_)
            | BaseAction::MoveRight(_) => self.delegate_action_bound_checked(&action),
            BaseAction::ChangeMode(mode) => {
                self.modal = mode;
                let r = self.delegate_action(&action);
                self.clamp_cursor();
                r
            },
            BaseAction::Undo(n) => {
                let ghost h0 = self.buffer.history();
                let ghost at = self.cursor.pos;
                let mut i: usize = 0;
                while i < n
                    invariant
                        action == BaseAction::Undo(n),
                        i <= n,
                        i <= h0.1.len(),
                        self.buffer.wf(),
                        self.buffer.history() == history_steps(h0, at, i as nat, false),
                        self.buffer.plane() == old(self).buffer.plane(),
                        self.buffer.command() == old(self).buffer.command(),
                        self.buffer.terminal() == old(self).buffer.terminal(),
                        h0 == old(self).buffer.history(),
                        at == old(self).cursor.pos,
                        self.cursor == old(self).cursor,
                        self.shadow_cursor == old(self).shadow_cursor,
                        self.modal == old(self).modal,
                        self.action_queue@ == old(self).action_queue@,
                        self.repeat_action == old(self).repeat_action,
                        self.previous_key == old(self).previous_key,
                        self.debug_messages@ == old(self).debug_messages@,
                        self.action_history@ == old(self).action_history@,
                        self.repeat_action >= 1,
                    decreases n - i,
                {
                    proof {
                        lemma_history_steps(h0, at, i as nat, false);
                    }
                    match self.buffer.undo(self.cursor.pos) {
                        Ok(()) => {},
                        Err(e) => {
                            proof {
                                lemma_history_steps_stop(h0, at, i as nat, n as nat, false);
                            }
                            self.clamp_cursor();
                            return Err(e);
                        },
                    }
                    i += 1;
                }
                proof {
                    lemma_history_steps(h0, at, n as nat, false);
                }
                self.clamp_cursor();
                Ok(())
            },
            BaseAction::Redo(n) => {
                let ghost h0 = self.buffer.history();
                let ghost at = self.cursor.pos;
                let mut i: usize = 0;
                while i < n
                    invariant
                        action == BaseAction::Redo(n),
                        i <= n,
                        i <= h0.2.len(),
                        self.buffer.wf(),
                        self.buffer.history() == history_steps(h0, at, i as nat, true),
                        self.buffer.plane() == old(self).buffer.plane(),
                        self.buffer.command() == old(self).buffer.command(),
                        self.buffer.terminal() == old(self).buffer.terminal(),
                        h0 == old(self).buffer.history(),
                        at == old(self).cursor.pos,
                        self.cursor == old(self).cursor,
                        self.shadow_cursor == old(self).shadow_cursor,
                        self.modal == old(self).modal,
                        self.action_queue@ == old(self).action_queue@,
                        self.repeat_action == old(self).repeat_action,
                        self.previous_key == old(self).previous_key,
                        self.debug_messages@ == old(self).debug_messages@,
                        self.action_history@ == old(self).action_history@,
                        self.repeat_action >= 1,
                    decreases n - i,
                {
                    proof {
                        lemma_history_steps(h0, at, i as nat, true);
                    }
                    match self.buffer.redo(self.cursor.pos) {
                        Ok(()) => {},
                        Err(e) => {
                            proof {
                                lemma_history_steps_stop(h0, at, i as nat, n as nat, true);
                            }
                            self.clamp_cursor();
                            return Err(e);
                        },
                    }
                    i += 1;
                }
                proof {
                    lemma_history_steps(h0, at, n as nat, true);
                }
                self.clamp_cursor();
                Ok(())
            },
            other => {
                let r = self.delegate_action(&other);
                self.clamp_cursor();
                r
            },
        }
    }

    /// Puts resolved primitives in line; a single primitive with a repeat count is first
    /// multiplied by the pending repeat count, which then goes back to 1.
    pub fn enqueue_resolved(&mut self, base_actions: Vec<BaseAction>)
        ensures
            final(self).queue_v() == enqueued(old(self).queue_v(), base_actions@, old(self).repeat_v()),
            final(self).repeat_v() == 1,
            final(self).buffer_v() == old(self).buffer_v(),
            final(self).cursor_v() == old(self).cursor_v(),
            final(self).shadow_v() == old(self).shadow_v(),
            final(self).viewport_v() == old(self).viewport_v(),
            final(self).modal_v() == old(self).modal_v(),
            final(self).previous_key_v() == old(self).previous_key_v(),
            final(self).history_v() == old(self).history_v(),
            final(self).messages_v() == old(self).messages_v(),
    {
        let mut base_actions = base_actions;
        let k = self.repeat_action;
        if base_actions.len() == 1 && k != 1 {
            let ghost v = base_actions@;
            let a = base_actions.pop().unwrap();
            assert(a == v[0]);
            let a = match a.get_repeater() {
                Some(n) => {
                    if k == 0 || n <= usize::MAX / k {
                        proof {
                            if k > 0 {
                                assert(n * k <= usize::MAX) by (nonlinear_arith)
                                    requires
                                        n <= usize::MAX / k,
                                        k > 0,
                                ;
                            }
                        }
                        a.repeat(k)
                    } else {
                        proof {
                            assert(n * k > usize::MAX) by (nonlinear_arith)
                                requires
                                    n > usize::MAX / k,
                                    k > 0,
                            ;
                        }
                        a
                    }
                },
                None => a,
            };
            self.action_queue.push(a);
        } else {
            self.action_queue.append(&mut base_actions);
        }
        self.repeat_action = 1;
    }

    /// Resolves an intent and puts its primitives in line.
    pub fn add_to_action_queue(&mut self, api_action: Action) -> (r: Result<()>)
        requires
            old(self).wf(),
        ensures
            exists|res: Result<Vec<BaseAction>>|
                #[trigger] resolves(*old(self), api_action, res) && (res matches Ok(v) ==> r is Ok
                    && final(self).queue_v() == enqueued(
                    old(self).queue_v(),
                    v@,
                    old(self).repeat_v(),
                )) && (res matches Err(e) ==> r == Err::<(), Error>(e) && final(self).queue_v() == old(self).queue_v()),
            final(self).repeat_v() == 1,
            final(self).buffer_v() == old(self).buffer_v(),
            final(self).cursor_v() == old(self).cursor_v(),
            final(self).shadow_v() == old(self).shadow_v(),
            final(self).viewport_v() == old(self).viewport_v(),
            final(self).modal_v() == old(self).modal_v(),
            final(self).previous_key_v() == old(self).previous_key_v(),
            final(self).history_v() == old(self).history_v(),
            final(self).messages_v() == old(self).messages_v(),
    {
        let res = self.resolve_action(api_action);
        let ghost old_self = *self;
        match res {
            Ok(v) => {
                let ghost vv = v;
                self.enqueue_resolved(v);
                assert(resolves(old_self, api_action, Ok::<Vec<BaseAction>, Error>(vv)));
                Ok(())
            },
            Err(e) => {
                self.repeat_action = 1;
                assert(resolves(old_self, api_action, Err::<Vec<BaseAction>, Error>(e)));
                Err(e)
            },
        }
    }

    /// Carries out the queued primitives in order, stopping at the first failure.
    pub fn consume_action_queue(&mut self) -> (r: Result<()>)
        requires
            old(self).wf(),
        ensures
            final(self).wf(),
            final(self).queue_v().len() == 0,
            ran(*old(self), old(self).queue_v(), *final(self), r),
            final(self).repeat_v() == old(self).repeat_v(),
            final(self).previous_key_v() == old(self).previous_key_v(),
            final(self).messages_v() == old(self).messages_v(),
            final(self).history_v() == old(self).history_v(),
    {
        let ghost q = self.action_queue@;
        let mut actions: Vec<BaseAction> = Vec::new();
        core::mem::swap(&mut actions, &mut self.action_queue);
        let ghost mut i: int = 0;
        assert(q.subrange(0, 0) =~= Seq::<BaseAction>::empty());
        assert(actions@ =~= q.subrange(0, q.len() as int));
        while actions.len() > 0
            invariant
                self.wf(),
                0 <= i <= q.len(),
                actions@ == q.subrange(i, q.len() as int),
                q == old(self).action_queue@,
                reach(*old(self), q.subrange(0, i), *self),
                self.action_queue@.len() == 0,
                self.repeat_action == old(self).repeat_action,
                self.previous_key == old(self).previous_key,
                self.debug_messages@ == old(self).debug_messages@,
                self.action_history@ == old(self).action_history@,
            decreases actions@.len(),
        {
            let a = actions.remove(0);
            assert(a == q[i]);
            let ghost prev = *self;
            let res = self.perform_action(a);
            match res {
                Ok(()) => {
                    proof {
                        let qi = q.subrange(0, i + 1);
                        assert(qi.drop_last() =~= q.subrange(0, i));
                        assert(qi.last() == q[i]);
                        assert(reach(*old(self), qi.drop_last(), prev) && performed(
                            prev,
                            *self,
                            qi.last(),
                            Ok(()),
                        ));
                        assert(reach(*old(self), qi, *self));
                        i = i + 1;
                    }
                    assert(actions@ =~= q.subrange(i, q.len() as int));
                },
                Err(e) => {
                    proof {
                        assert(0 <= i < q.len() && reach(*old(self), q.subrange(0, i), prev)
                            && performed(prev, *self, q[i], Err::<(), Error>(e)));
                    }
                    return Err(e);
                },
            }
        }
        assert(q.subrange(0, i) =~= q);
        Ok(())
    }

    /// Lets the failures that end the editor through, and turns the others into a message
    /// for the notification bar.
    fn settle(&mut self, outcome: Result<()>) -> (r: Result<()>)
        ensures
            settled(outcome, r, old(self).messages_v(), final(self).messages_v()),
            final(self).history_v() == old(self).history_v(),
            final(self).previous_key_v() == old(self).previous_key_v(),
            final(self).viewport_v() == old(self).viewport_v(),
            final(self).buffer_v() == old(self).buffer_v(),
            final(self).cursor_v() == old(self).cursor_v(),
            final(self).shadow_v() == old(self).shadow_v(),
            final(self).modal_v() == old(self).modal_v(),
            final(self).queue_v() == old(self).queue_v(),
            final(self).repeat_v() == old(self).repeat_v(),
    {
        match outcome {
            Ok(()) => Ok(()),
            Err(Error::ExitCall) => Err(Error::ExitCall),
            Err(Error::ProgrammingBug { descr }) => Err(Error::ProgrammingBug { descr }),
            Err(e) => {
                force_notif_bar_content(&mut self.debug_messages, e.describe());
                Ok(())
            },
        }
    }

    /// Shows a non-empty command line in the notification bar of the next frame.
    pub fn prepare_frame(&mut self)
        requires
            old(self).wf(),
        ensures
            final(self).wf(),
            old(self).buffer_v().command()[0].len() > 0 ==> final(self).messages_v().last()
                == old(self).buffer_v().command()[0],
            old(self).buffer_v().command()[0].len() == 0 ==> final(self).messages_v() == old(self).messages_v(),
            final(self).buffer_v() == old(self).buffer_v(),
            final(self).cursor_v() == old(self).cursor_v(),
            final(self).modal_v() == old(self).modal_v(),
            final(self).queue_v() == old(self).queue_v(),
    {
        if !self.buffer.is_command_empty() {
            let text = String::from_str(self.buffer.get_command_text());
            force_notif_bar_content(&mut self.debug_messages, text);
        }
    }

    /// One turn of the editor for a keystroke: decode it by mode, resolve it, carry out
    /// the primitives, and put the shadow back on the cursor. Only leaving the editor and
    /// programming errors come back as errors; other failures become messages.
    #[verifier::rlimit(50)]
    pub fn handle_key_event(&mut self, key_event: KeyEvent) -> (r: Result<()>)
        requires
            old(self).wf(),
            old(self).queue_v().len() == 0,
        ensures
            final(self).wf(),
            final(self).queue_v().len() == 0,
            final(self).repeat_v() == 1,
            final(self).previous_key_v() == key_latch(*old(self), key_event),
            r matches Err(e) ==> e is ExitCall || e is ProgrammingBug,
            exists|a: Action, res: Result<Vec<BaseAction>>, outcome: Result<()>, end: Editor|
                #![trigger decoded(*old(self), key_event, a), resolves(*old(self), a, res), same_state(end, *final(self)), settled(outcome, r, old(self).messages_v(), final(self).messages_v())]
                {
                    &&& decoded(*old(self), key_event, a)
                    &&& final(self).history_v() == old(self).history_v().push(a)
                    &&& resolves(*old(self), a, res)
                    &&& res matches Ok(v) ==> ran(
                        *old(self),
                        enqueued(Seq::empty(), v@, old(self).repeat_v()),
                        end,
                        outcome,
                    )
                    &&& res matches Err(e) ==> outcome == Err::<(), Error>(e) && same_state(*old(self), end)
                    &&& same_state(end, *final(self))
                    &&& settled(outcome, r, old(self).messages_v(), final(self).messages_v())
                },
    {
        let action = match self.modal {
            Modal::Normal | Modal::Visual | Modal::VisualLine => self.interpret_normal_event(key_event),
            Modal::Insert => self.interpret_insert_event(key_event),
            Modal::Command | Modal::Find(_) => self.interpret_command_event(key_event),
        };
        let action = match action {
            Ok(a) => a,
            Err(e) => {
                assert(false);
                return Err(e);
            },
        };
        let ghost a = action;
        proof {
            assert(old(self).queue_v() =~= Seq::<BaseAction>::empty());
        }
        self.action_history.push(action.duplicate());
        let ghost decoded_state = *self;
        let queued = self.add_to_action_queue(action);
        let ghost res = choose|res: Result<Vec<BaseAction>>|
            #[trigger] resolves(decoded_state, a, res) && (res matches Ok(v) ==> queued is Ok
                && self.queue_v() == enqueued(decoded_state.queue_v(), v@, decoded_state.repeat_v()))
                && (res matches Err(e) ==> queued == Err::<(), Error>(e) && self.queue_v() == decoded_state.queue_v());
        let ghost queued_state = *self;
        let outcome = match queued {
            Ok(()) => self.consume_action_queue(),
            Err(e) => Err(e),
        };
        proof {
            if queued is Ok {
                lemma_ran_start(queued_state, *old(self), queued_state.queue_v(), *self, outcome);
            }
        }
        let ghost end = *self;
        self.shadow_cursor.update(self.cursor.pos);
        let r = self.settle(outcome);
        proof {
            assert(same_state(end, *self));
            assert(resolves(*old(self), a, res));
            if res is Err {
                assert(queued is Err);
            }
            assert(decoded(*old(self), key_event, a));
            assert(self.history_v() == old(self).history_v().push(a));
            assert(res matches Ok(v) ==> ran(
                *old(self),
                enqueued(Seq::empty(), v@, old(self).repeat_v()),
                end,
                outcome,
            ));
            assert(res matches Err(e) ==> outcome == Err::<(), Error>(e) && same_state(*old(self), end));
            assert(settled(outcome, r, old(self).messages_v(), self.messages_v()));
            assert(decoded(*old(self), key_event, a) && self.history_v() == old(self).history_v().push(a)
                && resolves(*old(self), a, res) && (res matches Ok(v) ==> ran(
                *old(self),
                enqueued(Seq::empty(), v@, old(self).repeat_v()),
                end,
                outcome,
            )) && (res matches Err(e) ==> outcome == Err::<(), Error>(e) && same_state(*old(self), end))
                && same_state(end, *self) && settled(outcome, r, old(self).messages_v(), self.messages_v()));
        }
        r
    }
}

/// A bound-checked move from a valid position always ends at a valid position: on an
/// existing line, at a column no further than that line's end.
pub proof fn bounded_move_stays_in_bounds(p: Seq<Seq<char>>, pos: LineCol, a: BaseAction)
    requires
        p.len() >= 1,
        valid_pos(p, pos),
        is_move(a),
    ensures
        valid_pos(p, bounded_move(p, pos, a)),
{
}

/// A single primitive whose repeat count is 1, put in line while a repeat count `k` is
/// pending, is queued with repeat count `k`.
pub proof fn single_primitive_takes_pending_repeat(q: Seq<BaseAction>, a: BaseAction, k: usize)
    requires
        repeater(a) == Some(1usize),
    ensures
        enqueued(q, seq![a], k).len() == q.len() + 1,
        repeater(enqueued(q, seq![a], k).last()) == Some(k),
{
    let e = enqueued(q, seq![a], k);
    if k != 1 {
        assert(seq![a][0] == a);
        assert(e == q.push(with_count(a, k)));
    } else {
        assert(e == q + seq![a]);
        assert(e.last() == a);
    }
}

} // verus!
