use vstd::prelude::*;

verus! {

/// A position in a plane: a line index and a column (character index) within it.
#[derive(Clone, Copy, Debug, PartialEq, Eq, Structural)]
pub struct LineCol {
    pub line: usize,
    pub col: usize,
}

/// Lexicographic order on positions: first by line, then by column.
pub open spec fn lc_lt(a: LineCol, b: LineCol) -> bool {
    a.line < b.line || (a.line == b.line && a.col < b.col)
}

pub open spec fn lc_le(a: LineCol, b: LineCol) -> bool {
    lc_lt(a, b) || a == b
}

impl LineCol {
    pub fn new(line: usize, col: usize) -> (r: LineCol)
        ensures
            r.line == line,
            r.col == col,
    {
        LineCol { line, col }
    }

    /// True when `self` comes strictly before `other`.
    pub fn precedes(&self, other: &LineCol) -> (r: bool)
        ensures
            r == lc_lt(*self, *other),
    {
        self.line < other.line || (self.line == other.line && self.col < other.col)
    }
}

/// The lexicographic comparison of two positions.
pub open spec fn lc_cmp(a: LineCol, b: LineCol) -> core::cmp::Ordering {
    if lc_lt(a, b) {
        core::cmp::Ordering::Less
    } else if lc_lt(b, a) {
        core::cmp::Ordering::Greater
    } else {
        core::cmp::Ordering::Equal
    }
}

impl PartialOrd for LineCol {
    fn partial_cmp(&self, other: &LineCol) -> (r: Option<core::cmp::Ordering>) {
        if self.line < other.line || (self.line == other.line && self.col < other.col) {
            Some(core::cmp::Ordering::Less)
        } else if other.line < self.line || (self.line == other.line && other.col < self.col) {
            Some(core::cmp::Ordering::Greater)
        } else {
            Some(core::cmp::Ordering::Equal)
        }
    }
}

impl vstd::std_specs::cmp::PartialOrdSpecImpl for LineCol {
    open spec fn obeys_partial_cmp_spec() -> bool {
        true
    }

    open spec fn partial_cmp_spec(&self, other: &LineCol) -> Option<core::cmp::Ordering> {
        Some(lc_cmp(*self, *other))
    }
}

impl Default for LineCol {
    fn default() -> (r: LineCol)
        ensures
            r.line == 0 && r.col == 0,
    {
        LineCol { line: 0, col: 0 }
    }
}

/// A span between two positions; `end` may come before `start` until normalized.
#[derive(Clone, Copy, Debug)]
pub struct Selection {
    pub start: LineCol,
    pub end: LineCol,
}

impl Selection {
    /// True for the lines strictly between the start line and the end line.
    pub fn line_is_in_selection(&self, line: usize) -> (r: bool)
        ensures
            r == (self.start.line < line && self.end.line > line),
    {
        self.start.line < line && self.end.line > line
    }

    pub open spec fn spec_normalized(self) -> Selection {
        if lc_lt(self.end, self.start) {
            Selection { start: self.end, end: self.start }
        } else {
            self
        }
    }

    /// Swaps the endpoints if needed so that the start does not come after the end.
    pub fn normalized(self) -> (r: Selection)
        ensures
            r == self.spec_normalized(),
            lc_lt(self.end, self.start) ==> r.start == self.end && r.end == self.start,
            !lc_lt(self.end, self.start) ==> r.start == self.start && r.end == self.end,
            lc_le(r.start, r.end),
    {
        if self.end.precedes(&self.start) {
            Selection { start: self.end, end: self.start }
        } else {
            Selection { start: self.start, end: self.end }
        }
    }
}

#[derive(PartialEq, Eq, Clone, Debug, Copy, Structural)]
pub enum FindDirection {
    Forwards,
    Backwards,
}

/// The modes of the editor.
#[derive(Clone, Copy, Debug, PartialEq, Eq, Structural)]
pub enum Modal {
    Normal,
    Insert,
    Visual,
    VisualLine,
    Find(FindDirection),
    Command,
}

/// The text shown for each mode in the info bar.
pub open spec fn modal_name(m: Modal) -> Seq<char> {
    match m {
        Modal::Insert => "INSERT"@,
        Modal::Visual => "VISUAL"@,
        Modal::VisualLine => "VISUAL_LINE"@,
        Modal::Command => "COMMAND"@,
        Modal::Normal => "NORMAL"@,
        Modal::Find(FindDirection::Forwards) => "FORWARD FIND"@,
        Modal::Find(FindDirection::Backwards) => "BACKWARD FIND"@,
    }
}

/// The modes whose keystrokes go to the command line rather than the document.
pub open spec fn is_command_like(m: Modal) -> bool {
    m is Command || m is Find
}

impl Default for Modal {
    fn default() -> (r: Modal)
        ensures
            r == Modal::Normal,
    {
        Modal::Normal
    }
}

impl Modal {
    /// The display name of the mode.
    pub fn name(&self) -> (r: &'static str)
        ensures
            r@ == modal_name(*self),
    {
        match self {
            Modal::Insert => "INSERT",
            Modal::Visual => "VISUAL",
            Modal::VisualLine => "VISUAL_LINE",
            Modal::Command => "COMMAND",
            Modal::Normal => "NORMAL",
            Modal::Find(FindDirection::Forwards) => "FORWARD FIND",
            Modal::Find(FindDirection::Backwards) => "BACKWARD FIND",
        }
    }

    pub fn is_normal(&self) -> (r: bool)
        ensures
            r == (*self is Normal),
    {
        matches!(self, Modal::Normal)
    }

    pub fn is_insert(&self) -> (r: bool)
        ensures
            r == (*self is Insert),
    {
        matches!(self, Modal::Insert)
    }

    pub fn is_visual(&self) -> (r: bool)
        ensures
            r == (*self is Visual),
    {
        matches!(self, Modal::Visual)
    }

    pub fn is_visual_line(&self) -> (r: bool)
        ensures
            r == (*self is VisualLine),
    {
        matches!(self, Modal::VisualLine)
    }

    pub fn is_command(&self) -> (r: bool)
        ensures
            r == (*self is Command),
    {
        matches!(self, Modal::Command)
    }

    pub fn is_find(&self) -> (r: bool)
        ensures
            r == (*self is Find),
    {
        matches!(self, Modal::Find(_))
    }

    pub fn is_forwards_find(&self) -> (r: bool)
        ensures
            r == (*self == Modal::Find(FindDirection::Forwards)),
    {
        matches!(self, Modal::Find(FindDirection::Forwards))
    }

    pub fn is_backwards_find(&self) -> (r: bool)
        ensures
            r == (*self == Modal::Find(FindDirection::Backwards)),
    {
        matches!(self, Modal::Find(FindDirection::Backwards))
    }
}

/// A command parsed out of the command line.
#[derive(Clone, Debug, Eq, PartialEq)]
pub enum Command {
    Find(String),
    Rfind(String),
    Exit,
    /// Anything that is not a known command.
    Unknown,
}

/// A primitive operation that the components of the editor carry out.
#[derive(Debug, Clone, PartialEq, Eq)]
pub enum BaseAction {
    Save,
    MoveUp(usize),
    MoveDown(usize),
    MoveRight(usize),
    MoveLeft(usize),
    /// Moves the cursor without any bound check; the caller answers for the position.
    SetCursor(LineCol),
    ChangeMode(Modal),
    Yank,
    Paste(char, usize),
    InsertAt(Lazy<LineCol>, char),
    InsertLineAt(Lazy<LineCol>, usize),
    DeleteAt(Lazy<LineCol>, usize),
    DeleteLineAt(Lazy<LineCol>, usize),
    ExecuteCommand(Command),
    Undo(usize),
    Redo(usize),
    FetchFromHistory,
    GetUnderCursor,
    OpenFile,
    Nothing,
}

/// The repeat count of a primitive that has one.
pub open spec fn repeater(a: BaseAction) -> Option<usize> {
    match a {
        BaseAction::MoveUp(n) => Some(n),
        BaseAction::MoveDown(n) => Some(n),
        BaseAction::MoveLeft(n) => Some(n),
        BaseAction::MoveRight(n) => Some(n),
        BaseAction::Undo(n) => Some(n),
        BaseAction::Redo(n) => Some(n),
        BaseAction::DeleteAt(_, n) => Some(n),
        BaseAction::DeleteLineAt(_, n) => Some(n),
        BaseAction::Paste(_, n) => Some(n),
        _ => None,
    }
}

/// The primitive with its repeat count set to `n`; others are left as they are.
pub open spec fn with_count(a: BaseAction, n: usize) -> BaseAction {
    match a {
        BaseAction::MoveUp(_) => BaseAction::MoveUp(n),
        BaseAction::MoveDown(_) => BaseAction::MoveDown(n),
        BaseAction::MoveLeft(_) => BaseAction::MoveLeft(n),
        BaseAction::MoveRight(_) => BaseAction::MoveRight(n),
        BaseAction::Undo(_) => BaseAction::Undo(n),
        BaseAction::Redo(_) => BaseAction::Redo(n),
        BaseAction::DeleteAt(l, _) => BaseAction::DeleteAt(l, n),
        BaseAction::DeleteLineAt(l, _) => BaseAction::DeleteLineAt(l, n),
        BaseAction::Paste(c, _) => BaseAction::Paste(c, n),
        _ => a,
    }
}

impl BaseAction {
    /// Multiplies the repeat count of the primitive by `x`, if it has one.
    pub fn repeat(self, x: usize) -> (r: Self)
        requires
            repeater(self) matches Some(n) ==> n * x <= usize::MAX,
        ensures
            repeater(self) matches Some(n) ==> r == with_count(self, (n * x) as usize),
            repeater(self) is None ==> r == self,
    {
        match self {
            BaseAction::MoveUp(n) => BaseAction::MoveUp(n * x),
            BaseAction::MoveDown(n) => BaseAction::MoveDown(n * x),
            BaseAction::MoveLeft(n) => BaseAction::MoveLeft(n * x),
            BaseAction::MoveRight(n) => BaseAction::MoveRight(n * x),
            BaseAction::Undo(n) => BaseAction::Undo(n * x),
            BaseAction::Redo(n) => BaseAction::Redo(n * x),
            BaseAction::DeleteAt(l, n) => BaseAction::DeleteAt(l, n * x),
            BaseAction::DeleteLineAt(l, n) => BaseAction::DeleteLineAt(l, n * x),
            BaseAction::Paste(c, n) => BaseAction::Paste(c, n * x),
            other => other,
        }
    }

    /// An equal copy of the primitive.
    pub fn duplicate(&self) -> (r: BaseAction)
        ensures
            r == *self,
    {
        match self {
            BaseAction::Save => BaseAction::Save,
            BaseAction::MoveUp(n) => BaseAction::MoveUp(*n),
            BaseAction::MoveDown(n) => BaseAction::MoveDown(*n),
            BaseAction::MoveRight(n) => BaseAction::MoveRight(*n),
            BaseAction::MoveLeft(n) => BaseAction::MoveLeft(*n),
            BaseAction::SetCursor(lc) => BaseAction::SetCursor(*lc),
            BaseAction::ChangeMode(m) => BaseAction::ChangeMode(*m),
            BaseAction::Yank => BaseAction::Yank,
            BaseAction::Paste(c, n) => BaseAction::Paste(*c, *n),
            BaseAction::InsertAt(l, c) => BaseAction::InsertAt(Lazy { inner: l.inner }, *c),
            BaseAction::InsertLineAt(l, n) => BaseAction::InsertLineAt(Lazy { inner: l.inner }, *n),
            BaseAction::DeleteAt(l, n) => BaseAction::DeleteAt(Lazy { inner: l.inner }, *n),
            BaseAction::DeleteLineAt(l, n) => BaseAction::DeleteLineAt(Lazy { inner: l.inner }, *n),
            BaseAction::ExecuteCommand(c) => BaseAction::ExecuteCommand(c.duplicate()),
            BaseAction::Undo(n) => BaseAction::Undo(*n),
            BaseAction::Redo(n) => BaseAction::Redo(*n),
            BaseAction::FetchFromHistory => BaseAction::FetchFromHistory,
            BaseAction::GetUnderCursor => BaseAction::GetUnderCursor,
            BaseAction::OpenFile => BaseAction::OpenFile,
            BaseAction::Nothing => BaseAction::Nothing,
        }
    }

    /// The number of times the primitive is repeated, if it can be repeated.
    pub fn get_repeater(&self) -> (r: Option<usize>)
        ensures
            r == repeater(*self),
    {
        match self {
            BaseAction::MoveUp(n) | BaseAction::MoveDown(n) | BaseAction::MoveLeft(n)
            | BaseAction::MoveRight(n) | BaseAction::Undo(n) | BaseAction::Redo(n) => Some(*n),
            BaseAction::DeleteAt(_, n) | BaseAction::DeleteLineAt(_, n) => Some(*n),
            BaseAction::Paste(_, n) => Some(*n),
            _ => None,
        }
    }
}

impl Command {
    /// An equal copy of the command.
    pub fn duplicate(&self) -> (r: Command)
        ensures
            r == *self,
    {
        match self {
            Command::Find(s) => Command::Find(s.clone()),
            Command::Rfind(s) => Command::Rfind(s.clone()),
            Command::Exit => Command::Exit,
            Command::Unknown => Command::Unknown,
        }
    }
}

/// A value that is filled in at most once, just before it is used.
#[derive(Debug, Clone, Copy, PartialEq, Eq)]
pub struct Lazy<T> {
    pub inner: Option<T>,
}

impl<T> Lazy<T> {
    /// An unevaluated value.
    pub fn new() -> (r: Self)
        ensures
            r.inner is None,
    {
        Lazy { inner: None }
    }

    /// The evaluated value, if there is one.
    pub fn into_inner(self) -> (r: Option<T>)
        ensures
            r == self.inner,
    {
        self.inner
    }

    /// A value that is already evaluated.
    pub fn with_inner(v: T) -> (r: Self)
        ensures
            r.inner == Some(v),
    {
        Lazy { inner: Some(v) }
    }

    pub fn set_inner(&mut self, v: T)
        ensures
            final(self).inner == Some(v),
    {
        self.inner = Some(v);
    }

    pub fn is_evaluated(&self) -> (r: bool)
        ensures
            r == (self.inner is Some),
    {
        self.inner.is_some()
    }
}

impl<T: Copy> Lazy<T> {
    /// The evaluated value; only defined once the value is filled in.
    pub fn clone_inner(&self) -> (r: T)
        requires
            self.inner is Some,
        ensures
            r == self.inner->0,
    {
        self.inner.unwrap()
    }
}

} // verus!
