use crate::common::{is_command_like, BaseAction, LineCol, Modal, Selection};
use crate::error::Result;
use vstd::prelude::*;

verus! {

/// Where the cursor is: in the document, on the command line or in the terminal area.
#[derive(Clone, Copy, Debug, PartialEq, Eq, Structural)]
pub enum CursorPlane {
    Text,
    CommandBar,
    Terminal,
}

impl CursorPlane {
    pub fn text(&self) -> (r: bool)
        ensures
            r == (*self is Text),
    {
        matches!(self, CursorPlane::Text)
    }
}

/// The cursor, with the position it had in the document when it last left it.
#[derive(Clone, Copy, Debug)]
pub struct Cursor {
    pub pos: LineCol,
    pub previous_pos: LineCol,
    pub pos_initial: LineCol,
    pub plane: CursorPlane,
    pub last_text_mode_pos: LineCol,
}

/// The position that the remembered document position becomes on a change to mode `m`.
pub open spec fn remembered_pos(old: Cursor, m: Modal) -> LineCol {
    if old.plane is Text {
        if m is VisualLine {
            LineCol { line: old.pos.line, col: 0 }
        } else {
            old.pos
        }
    } else {
        old.last_text_mode_pos
    }
}

/// Where the cursor stands after a change to mode `m`.
pub open spec fn changed_mode_pos(old: Cursor, m: Modal) -> LineCol {
    if is_command_like(m) {
        LineCol { line: 0, col: 0 }
    } else {
        remembered_pos(old, m)
    }
}

/// The cursor after a change to mode `m`: a cursor in the document first remembers its
/// position (column 0 for a line-wise selection); a command-like mode moves it to the start
/// of the command line, and any other mode brings it back to the remembered position.
pub open spec fn mode_changed(old: Cursor, new: Cursor, m: Modal) -> bool {
    let remembered = remembered_pos(old, m);
    &&& new.last_text_mode_pos == remembered
    &&& new.previous_pos == (if old.plane is Text {
        old.pos
    } else {
        old.previous_pos
    })
    &&& is_command_like(m) ==> new.plane == CursorPlane::CommandBar && new.pos == LineCol {
        line: 0,
        col: 0,
    }
    &&& !is_command_like(m) ==> new.plane == CursorPlane::Text && new.pos == remembered
    &&& new.pos == changed_mode_pos(old, m)
}

/// The moves that the cursor can make without leaving the range of `usize`.
pub open spec fn cursor_can_apply(c: Cursor, a: BaseAction) -> bool {
    match a {
        BaseAction::MoveUp(d) => d <= c.pos.line,
        BaseAction::MoveDown(d) => c.pos.line + d <= usize::MAX,
        BaseAction::MoveLeft(d) => d <= c.pos.col,
        BaseAction::MoveRight(d) => c.pos.col + d <= usize::MAX,
        _ => true,
    }
}

/// What the cursor does on primitive `a`: moves by the distance, jumps for `SetCursor`,
/// and changes plane on a change of mode; every move first remembers the position it leaves.
pub open spec fn cursor_step(old: Cursor, new: Cursor, a: BaseAction) -> bool {
    match a {
        BaseAction::MoveUp(d) => new == Cursor {
            pos: LineCol { line: (old.pos.line - d) as usize, col: old.pos.col },
            previous_pos: old.pos,
            ..old
        },
        BaseAction::MoveDown(d) => new == Cursor {
            pos: LineCol { line: (old.pos.line + d) as usize, col: old.pos.col },
            previous_pos: old.pos,
            ..old
        },
        BaseAction::MoveLeft(d) => new == Cursor {
            pos: LineCol { line: old.pos.line, col: (old.pos.col - d) as usize },
            previous_pos: old.pos,
            ..old
        },
        BaseAction::MoveRight(d) => new == Cursor {
            pos: LineCol { line: old.pos.line, col: (old.pos.col + d) as usize },
            previous_pos: old.pos,
            ..old
        },
        BaseAction::SetCursor(lc) => new == Cursor { pos: lc, previous_pos: old.pos, ..old },
        BaseAction::ChangeMode(m) => mode_changed(old, new, m),
        _ => new == old,
    }
}

impl Cursor {
    /// A cursor at the start of the document.
    pub fn new() -> (r: Cursor)
        ensures
            r.pos == (LineCol { line: 0, col: 0 }),
            r.previous_pos == (LineCol { line: 0, col: 0 }),
            r.last_text_mode_pos == (LineCol { line: 0, col: 0 }),
            r.plane == CursorPlane::Text,
    {
        let z = LineCol { line: 0, col: 0 };
        Cursor { pos: z, previous_pos: z, pos_initial: z, plane: CursorPlane::Text, last_text_mode_pos: z }
    }

    /// Moves to `to` without any bound check.
    pub fn go(&mut self, to: &LineCol)
        ensures
            *final(self) == (Cursor { pos: *to, previous_pos: old(self).pos, ..*old(self) }),
    {
        self.previous_pos = self.pos;
        self.pos = *to;
    }

    pub fn line(&self) -> (r: usize)
        ensures
            r == self.pos.line,
    {
        self.pos.line
    }

    pub fn set_line(&mut self, new: usize)
        ensures
            *final(self) == (Cursor {
                pos: LineCol { line: new, col: old(self).pos.col },
                previous_pos: old(self).pos,
                ..*old(self)
            }),
    {
        self.previous_pos = self.pos;
        self.pos.line = new;
    }

    pub fn col(&self) -> (r: usize)
        ensures
            r == self.pos.col,
    {
        self.pos.col
    }

    /// The column of the position remembered in the document.
    pub fn text_mode_col(&self) -> (r: usize)
        ensures
            r == self.last_text_mode_pos.col,
    {
        self.last_text_mode_pos.col
    }

    pub fn set_col(&mut self, new: usize)
        ensures
            *final(self) == (Cursor {
                pos: LineCol { line: old(self).pos.line, col: new },
                previous_pos: old(self).pos,
                ..*old(self)
            }),
    {
        self.previous_pos = self.pos;
        self.pos.col = new;
    }

    fn move_left(&mut self, dist: usize)
        requires
            dist <= old(self).pos.col,
        ensures
            cursor_step(*old(self), *final(self), BaseAction::MoveLeft(dist)),
    {
        let dest = self.col() - dist;
        self.set_col(dest);
    }

    fn jump_right(&mut self, dist: usize)
        requires
            old(self).pos.col + dist <= usize::MAX,
        ensures
            cursor_step(*old(self), *final(self), BaseAction::MoveRight(dist)),
    {
        let dest = self.col() + dist;
        self.set_col(dest);
    }

    fn move_up(&mut self, dist: usize)
        requires
            dist <= old(self).pos.line,
        ensures
            cursor_step(*old(self), *final(self), BaseAction::MoveUp(dist)),
    {
        let dest = self.line() - dist;
        self.set_line(dest);
    }

    fn move_down(&mut self, dist: usize)
        requires
            old(self).pos.line + dist <= usize::MAX,
        ensures
            cursor_step(*old(self), *final(self), BaseAction::MoveDown(dist)),
    {
        let dest = self.line() + dist;
        self.set_line(dest);
    }

    /// Moves the cursor to the plane of mode `modal`.
    pub fn mod_change(&mut self, modal: &Modal)
        ensures
            mode_changed(*old(self), *final(self), *modal),
    {
        if self.plane.text() {
            if modal.is_visual_line() {
                self.last_text_mode_pos = LineCol { line: self.pos.line, col: 0 };
            } else {
                self.last_text_mode_pos = self.pos;
            }
            self.previous_pos = self.pos;
        }
        match modal {
            Modal::Command | Modal::Find(_) => {
                self.plane = CursorPlane::CommandBar;
                self.pos = LineCol { line: 0, col: 0 };
            },
            Modal::Normal | Modal::Insert | Modal::Visual | Modal::VisualLine => {
                self.plane = CursorPlane::Text;
                self.pos = self.last_text_mode_pos;
            },
        }
        self.pos_initial = self.pos;
    }

    /// Carries out the cursor's part of a primitive.
    pub fn execute_action(&mut self, a: &BaseAction) -> (r: Result<()>)
        requires
            cursor_can_apply(*old(self), *a),
        ensures
            r is Ok,
            cursor_step(*old(self), *final(self), *a),
    {
        match a {
            BaseAction::MoveUp(dist) => self.move_up(*dist),
            BaseAction::MoveDown(dist) => self.move_down(*dist),
            BaseAction::MoveLeft(dist) => self.move_left(*dist),
            BaseAction::MoveRight(dist) => self.jump_right(*dist),
            BaseAction::SetCursor(lc) => self.go(lc),
            BaseAction::ChangeMode(modal) => self.mod_change(modal),
            _ => {},
        }
        Ok(())
    }
}

impl Default for Cursor {
    fn default() -> (r: Cursor)
        ensures
            r.pos == (LineCol { line: 0, col: 0 }),
            r.previous_pos == (LineCol { line: 0, col: 0 }),
            r.last_text_mode_pos == (LineCol { line: 0, col: 0 }),
            r.plane == CursorPlane::Text,
    {
        Cursor::new()
    }
}

impl Selection {
    pub open spec fn spec_from_cursor(value: Cursor) -> Selection {
        Selection { start: value.last_text_mode_pos, end: value.pos }
    }

    /// The span from the position remembered in the document to the cursor.
    pub fn from_cursor(value: &Cursor) -> (r: Selection)
        ensures
            r == Selection::spec_from_cursor(*value),
    {
        Selection { start: value.last_text_mode_pos, end: value.pos }
    }
}

/// A signed copy of the cursor position that moves ahead of the cursor, so that a move out
/// of bounds shows up before the cursor makes it.
#[derive(Clone, Copy, Debug, PartialEq, Eq, Structural)]
pub struct ShadowCursor {
    pub line: i128,
    pub col: i128,
}

/// The largest distance of a shadow coordinate from zero that a move may start from.
pub open spec fn shadow_small(s: ShadowCursor) -> bool {
    -0x1_0000_0000_0000_0000_0000i128 <= s.line <= 0x1_0000_0000_0000_0000_0000i128
        && -0x1_0000_0000_0000_0000_0000i128 <= s.col <= 0x1_0000_0000_0000_0000_0000i128
}

/// What the shadow does on primitive `a`: it follows moves and `SetCursor`, and nothing else.
pub open spec fn shadow_step(old: ShadowCursor, new: ShadowCursor, a: BaseAction) -> bool {
    match a {
        BaseAction::MoveUp(d) => new == ShadowCursor { line: (old.line - d) as i128, ..old },
        BaseAction::MoveDown(d) => new == ShadowCursor { line: (old.line + d) as i128, ..old },
        BaseAction::MoveLeft(d) => new == ShadowCursor { col: (old.col - d) as i128, ..old },
        BaseAction::MoveRight(d) => new == ShadowCursor { col: (old.col + d) as i128, ..old },
        BaseAction::SetCursor(lc) => new == ShadowCursor { line: lc.line as i128, col: lc.col as i128 },
        _ => new == old,
    }
}

impl ShadowCursor {
    /// The shadow of a position.
    pub fn from_pos(value: &LineCol) -> (r: ShadowCursor)
        ensures
            r.line == value.line,
            r.col == value.col,
    {
        ShadowCursor { line: value.line as i128, col: value.col as i128 }
    }

    /// Puts the shadow back on `lc`.
    pub fn update(&mut self, lc: LineCol)
        ensures
            final(self).line == lc.line,
            final(self).col == lc.col,
    {
        self.line = lc.line as i128;
        self.col = lc.col as i128;
    }

    /// Carries out the shadow's part of a primitive.
    pub fn execute_action(&mut self, a: &BaseAction) -> (r: Result<()>)
        requires
            shadow_small(*old(self)),
        ensures
            r is Ok,
            shadow_step(*old(self), *final(self), *a),
    {
        match a {
            BaseAction::MoveUp(dist) => self.line = self.line - *dist as i128,
            BaseAction::MoveDown(dist) => self.line = self.line + *dist as i128,
            BaseAction::MoveLeft(dist) => self.col = self.col - *dist as i128,
            BaseAction::MoveRight(dist) => self.col = self.col + *dist as i128,
            BaseAction::SetCursor(lc) => self.update(*lc),
            _ => {},
        }
        Ok(())
    }
}

} // verus!
