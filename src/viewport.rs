use crate::common::{is_command_like, BaseAction, Modal, Selection};
use crate::cursor::Cursor;
use crate::error::Result;
use vstd::prelude::*;

verus! {

/// Rows at the bottom of the screen taken by the info bar and the notification bar.
pub const NO_OF_BARS: usize = 2;

pub const LINE_NUMBER_SEPARATOR_EMPTY_COLUMNS: usize = 2;

pub const LINE_NUMBER_RESERVED_COLUMNS: usize = 5;

/// Columns between the left edge and the text of the command line.
pub const COMMAND_TEXT_X_OFFSET: usize = 2;

/// The window of the document that is on screen, and the mode it is drawn for.
#[derive(Clone, Copy, Debug)]
pub struct ViewPort {
    pub width: u16,
    pub height: u16,
    pub top_border: usize,
    pub bottom_border: usize,
    pub mode: Modal,
}

/// How one line is drawn with respect to the selection.
#[derive(Clone, Copy, Debug, PartialEq, Eq, Structural)]
pub enum Highlight {
    Plain,
    Whole,
    /// The columns from the first up to the second are highlighted.
    Partial(usize, usize),
}

/// What the viewport does on primitive `a`: it follows the mode, and scrolls with vertical
/// moves, up no further than the top of the document.
pub open spec fn viewport_step(old: ViewPort, new: ViewPort, a: BaseAction) -> bool {
    match a {
        BaseAction::ChangeMode(m) => new == ViewPort { mode: m, ..old },
        BaseAction::MoveUp(d) => {
            let s = if old.top_border >= d {
                d
            } else {
                old.top_border
            };
            new == ViewPort {
                top_border: (old.top_border - s) as usize,
                bottom_border: if old.bottom_border >= s {
                    (old.bottom_border - s) as usize
                } else {
                    0
                },
                ..old
            }
        },
        BaseAction::MoveDown(d) => new == ViewPort {
            top_border: sat_add(old.top_border, d),
            bottom_border: sat_add(old.bottom_border, d),
            ..old
        },
        _ => new == old,
    }
}

/// `x + d`, or the largest value where that does not fit.
pub open spec fn sat_add(x: usize, d: usize) -> usize {
    if x + d <= usize::MAX {
        (x + d) as usize
    } else {
        usize::MAX
    }
}

/// The number shown in the gutter of 1-based line `line_number`: its own number on the
/// cursor's line, elsewhere its distance from the cursor's line.
pub open spec fn gutter_number(line_number: int, cursor_line: int) -> int {
    let d = line_number - cursor_line - 1;
    let rel = if d < 0 {
        -d
    } else {
        d
    };
    if rel == 0 {
        line_number
    } else {
        rel
    }
}

/// The highlight of document line `ln`, of length `len`, for selection `sel` (normalized)
/// in mode `m`: whole lines within a line-wise selection; in a character-wise selection the
/// lines strictly inside it whole and the columns of it on its first and last line.
pub open spec fn highlight_of(m: Modal, sel: Selection, ln: int, len: int) -> Highlight {
    let inside = sel.start.line <= ln <= sel.end.line;
    if (m is VisualLine && inside) || (m is Visual && sel.start.line < ln < sel.end.line) {
        Highlight::Whole
    } else if m is Visual && inside {
        let s = if ln == sel.start.line {
            sel.start.col as int
        } else {
            0
        };
        let e = if ln == sel.end.line {
            sel.end.col as int
        } else {
            len
        };
        let s2 = if s <= len {
            s
        } else {
            len
        };
        let e2 = if e <= len {
            e
        } else {
            len
        };
        Highlight::Partial(s2 as usize, if s2 <= e2 {
            e2 as usize
        } else {
            s2 as usize
        })
    } else {
        Highlight::Plain
    }
}

impl ViewPort {
    /// A viewport for a screen of `width` by `height` cells, at the top of the document.
    pub fn new(width: u16, height: u16) -> (r: ViewPort)
        ensures
            r.width == width,
            r.height == height,
            r.top_border == 0,
            r.bottom_border == height as usize,
            r.mode == Modal::Normal,
    {
        ViewPort { width, height, top_border: 0, bottom_border: height as usize, mode: Modal::Normal }
    }

    /// Takes on the size that the screen has now.
    pub fn resize(&mut self, width: u16, height: u16)
        ensures
            *final(self) == (ViewPort { width, height, ..*old(self) }),
    {
        self.width = width;
        self.height = height;
    }

    /// Scrolls up by `dist` lines, stopping at the top of the document.
    pub fn scroll_up(&mut self, dist: usize)
        ensures
            viewport_step(*old(self), *final(self), BaseAction::MoveUp(dist)),
    {
        let actual_move = if self.top_border >= dist {
            dist
        } else {
            self.top_border
        };
        self.top_border = self.top_border - actual_move;
        self.bottom_border = if self.bottom_border >= actual_move {
            self.bottom_border - actual_move
        } else {
            0
        };
    }

    /// Scrolls down by `dist` lines.
    pub fn scroll_down(&mut self, dist: usize)
        ensures
            viewport_step(*old(self), *final(self), BaseAction::MoveDown(dist)),
    {
        self.bottom_border = if dist > usize::MAX - self.bottom_border {
            usize::MAX
        } else {
            self.bottom_border + dist
        };
        self.top_border = if dist > usize::MAX - self.top_border {
            usize::MAX
        } else {
            self.top_border + dist
        };
    }

    /// Carries out the viewport's part of a primitive.
    pub fn execute_action(&mut self, a: &BaseAction) -> (r: Result<()>)
        ensures
            r is Ok,
            viewport_step(*old(self), *final(self), *a),
    {
        match a {
            BaseAction::ChangeMode(modal) => self.mode = *modal,
            BaseAction::MoveUp(dist) => self.scroll_up(*dist),
            BaseAction::MoveDown(dist) => self.scroll_down(*dist),
            _ => {},
        }
        Ok(())
    }

    /// The first document line on screen and the number of text rows.
    pub fn visible_range(&self) -> (r: (usize, usize))
        ensures
            r.0 == self.top_border,
            ({
                let end = if self.bottom_border >= NO_OF_BARS {
                    self.bottom_border - NO_OF_BARS
                } else {
                    0
                };
                r.1 == (if end >= self.top_border {
                    end - self.top_border
                } else {
                    0
                }) + 1
            }),
    {
        let start = self.top_border;
        let end = if self.bottom_border >= NO_OF_BARS {
            self.bottom_border - NO_OF_BARS
        } else {
            0
        };
        let span = if end >= start {
            end - start
        } else {
            0
        };
        if span == usize::MAX {
            return (start, span);
        }
        (start, span + 1)
    }

    /// The highlight of document line `absolute_ln`, of `line_len` characters, for the
    /// selection between the remembered position and the cursor.
    pub fn highlight(&self, line_len: usize, absolute_ln: usize, cursor: &Cursor) -> (r: Highlight)
        ensures
            r == highlight_of(
                self.mode,
                Selection::spec_normalized(Selection::spec_from_cursor(*cursor)),
                absolute_ln as int,
                line_len as int,
            ),
    {
        let selection = Selection::from_cursor(cursor).normalized();
        let inside = absolute_ln >= selection.start.line && absolute_ln <= selection.end.line;
        if (self.mode.is_visual_line() && inside) || (self.mode.is_visual()
            && selection.line_is_in_selection(absolute_ln)) {
            Highlight::Whole
        } else if self.mode.is_visual() && inside {
            let s = if absolute_ln == selection.start.line {
                selection.start.col
            } else {
                0
            };
            let e = if absolute_ln == selection.end.line {
                selection.end.col
            } else {
                line_len
            };
            let s2 = if s <= line_len {
                s
            } else {
                line_len
            };
            let e2 = if e <= line_len {
                e
            } else {
                line_len
            };
            Highlight::Partial(
                s2,
                if s2 <= e2 {
                    e2
                } else {
                    s2
                },
            )
        } else {
            Highlight::Plain
        }
    }

    /// Where the terminal's cursor goes, as (column, row): on the command line in a
    /// command-like mode, else at the cursor's cell right of the gutter.
    pub fn cursor_screen_position(&self, cursor: &Cursor) -> (r: (usize, usize))
        ensures
            is_command_like(self.mode) ==> r == (sat_add(cursor.pos.col, COMMAND_TEXT_X_OFFSET),
                self.bottom_border),
            !is_command_like(self.mode) ==> r == (sat_add(
                cursor.pos.col,
                (LINE_NUMBER_RESERVED_COLUMNS + LINE_NUMBER_SEPARATOR_EMPTY_COLUMNS) as usize,
            ), if cursor.pos.line >= self.top_border {
                (cursor.pos.line - self.top_border) as usize
            } else {
                0
            }),
    {
        let col = cursor.col();
        if self.mode.is_command() || self.mode.is_find() {
            let x = if col > usize::MAX - COMMAND_TEXT_X_OFFSET {
                usize::MAX
            } else {
                col + COMMAND_TEXT_X_OFFSET
            };
            (x, self.bottom_border)
        } else {
            let gutter = LINE_NUMBER_RESERVED_COLUMNS + LINE_NUMBER_SEPARATOR_EMPTY_COLUMNS;
            let x = if col > usize::MAX - gutter {
                usize::MAX
            } else {
                col + gutter
            };
            let line = cursor.line();
            let y = if line >= self.top_border {
                line - self.top_border
            } else {
                0
            };
            (x, y)
        }
    }
}

/// The number in the gutter of 1-based line `line_number` when the cursor is on
/// (0-based) line `cursor_line`.
pub fn line_number_label(line_number: usize, cursor_line: usize) -> (r: usize)
    requires
        line_number >= 1,
    ensures
        r == gutter_number(line_number as int, cursor_line as int),
{
    let rel = if line_number > cursor_line {
        line_number - cursor_line - 1
    } else {
        cursor_line - (line_number - 1)
    };
    if rel == 0 {
        line_number
    } else {
        rel
    }
}

} // verus!
