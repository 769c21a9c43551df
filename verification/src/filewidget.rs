//! The executable pane widget: one file's lines with cursor and scroll
//! state.
//!
//! Its view is the [`BufView`](crate::buffer::BufView) model, and every
//! mutating method is proved to perform exactly the corresponding step
//! function of [`crate::buffer`]: cursor motions clamp at the buffer's
//! edges and keep the cursor visible, scroll commands move the viewport
//! only, and no method ever panics.
use vstd::prelude::*;
use vstd::string::StrSliceExecFns;

use crate::buffer::{
    back_blanks, back_word, clamp_add, is_blank, last_row, lemma_step_move_wf,
    lemma_step_scroll_wf, max_len_prefix, max_line_len, next_word_start, prev_word_start,
    skip_blanks, skip_word, step_move, step_nav, step_scroll, BufView,
};
use crate::input::{spec_decode, Command, CursorMove, KeyInput, NavCommand, Scrolling};

verus! {

/// One pane's state: the file's name (shown in the pane's title), its
/// lines as loaded, the cursor, the scroll offset, the viewport size last
/// seen at render time, and the render-time focus flag.
///
/// The lines are set at construction and never changed by the widget's
/// methods. All navigation is clamped: no method panics, whatever the
/// command.
pub struct FileWidget {
    pub filename: String,
    pub lines: Vec<String>,
    pub cursor_row: usize,
    pub cursor_col: usize,
    pub scroll_row: usize,
    pub scroll_col: usize,
    pub viewport_height: usize,
    pub viewport_width: usize,
    pub active: bool,
}

impl View for FileWidget {
    type V = BufView;

    open spec fn view(&self) -> BufView {
        BufView {
            filename: self.filename@,
            lines: Seq::new(self.lines@.len(), |i: int| self.lines@[i]@),
            cursor_row: self.cursor_row as nat,
            cursor_col: self.cursor_col as nat,
            scroll_row: self.scroll_row as nat,
            scroll_col: self.scroll_col as nat,
            height: self.viewport_height as nat,
            width: self.viewport_width as nat,
            active: self.active,
        }
    }
}

/// Whether `c` delimits words; equal to [`is_blank`].
fn is_blank_exec(c: char) -> (r: bool)
    ensures
        r == is_blank(c),
{
    c == ' ' || c == '\t'
}

/// Column where word-forward lands in `line` when starting from `c`.
fn next_word_start_exec(line: &String, c: usize) -> (r: usize)
    requires
        c <= line@.len(),
    ensures
        r == next_word_start(line@, c as nat),
        r <= line@.len(),
{
    let n: usize = line.as_str().unicode_len();
    let mut i: usize = c;
    while i < n && !is_blank_exec(line.as_str().get_char(i))
        invariant
            c <= i <= n,
            n == line@.len(),
            skip_word(line@, c as nat) == skip_word(line@, i as nat),
        decreases n - i,
    {
        i = i + 1;
    }
    assert(skip_word(line@, i as nat) == i);
    while i < n && is_blank_exec(line.as_str().get_char(i))
        invariant
            i <= n,
            n == line@.len(),
            skip_blanks(line@, skip_word(line@, c as nat)) == skip_blanks(line@, i as nat),
        decreases n - i,
    {
        i = i + 1;
    }
    assert(skip_blanks(line@, i as nat) == i);
    i
}

/// Column where word-back lands in `line` when starting from `c`.
fn prev_word_start_exec(line: &String, c: usize) -> (r: usize)
    requires
        c <= line@.len(),
    ensures
        r == prev_word_start(line@, c as nat),
        r <= c,
{
    let mut i: usize = c;
    while i > 0 && is_blank_exec(line.as_str().get_char(i - 1))
        invariant
            i <= c <= line@.len(),
            back_blanks(line@, c as nat) == back_blanks(line@, i as nat),
        decreases i,
    {
        i = i - 1;
    }
    assert(back_blanks(line@, i as nat) == i);
    while i > 0 && !is_blank_exec(line.as_str().get_char(i - 1))
        invariant
            i <= c <= line@.len(),
            back_word(line@, back_blanks(line@, c as nat)) == back_word(line@, i as nat),
        decreases i,
    {
        i = i - 1;
    }
    assert(back_word(line@, i as nat) == i);
    i
}

impl FileWidget {
    /// A fresh pane over `lines`, titled `filename`: cursor and scroll at
    /// the origin, no viewport seen yet, not focused.
    pub fn new(filename: &str, lines: Vec<String>) -> (w: FileWidget)
        ensures
            w@.filename == filename@,
            w@.lines == Seq::new(lines@.len(), |i: int| lines@[i]@),
            w@.cursor_row == 0,
            w@.cursor_col == 0,
            w@.scroll_row == 0,
            w@.scroll_col == 0,
            w@.height == 0,
            w@.width == 0,
            w@.active == false,
            w@.wf(),
    {
        FileWidget {
            filename: filename.to_owned(),
            lines,
            cursor_row: 0,
            cursor_col: 0,
            scroll_row: 0,
            scroll_col: 0,
            viewport_height: 0,
            viewport_width: 0,
            active: false,
        }
    }

    /// Record the viewport size the pane was last rendered at; the paged
    /// scroll commands are computed from it. Nothing else changes.
    pub fn set_viewport(&mut self, height: usize, width: usize)
        ensures
            final(self)@ == (BufView {
                height: height as nat,
                width: width as nat,
                ..old(self)@
            }),
    {
        self.viewport_height = height;
        self.viewport_width = width;
        proof {
            assert(final(self)@.lines =~= old(self)@.lines);
            assert(final(self)@ =~= (BufView {
                height: height as nat,
                width: width as nat,
                ..old(self)@
            }));
        }
    }

    /// Set the render-time focus flag. Nothing else changes.
    pub fn set_active(&mut self, active: bool)
        ensures
            final(self)@ == (BufView { active: active, ..old(self)@ }),
    {
        self.active = active;
        proof {
            assert(final(self)@.lines =~= old(self)@.lines);
            assert(final(self)@ =~= (BufView { active: active, ..old(self)@ }));
        }
    }

    /// Clamp the cursor's column to the current line's end.
    fn clamp_cursor_col(&mut self)
        requires
            old(self)@.lines.len() > 0,
            old(self).cursor_row < old(self).lines.len(),
        ensures
            final(self)@ == (BufView {
                cursor_col: crate::buffer::clamp_col(
                    old(self)@.lines,
                    old(self)@.cursor_row,
                    old(self)@.cursor_col,
                ),
                ..old(self)@
            }),
    {
        let l: usize = self.lines[self.cursor_row].as_str().unicode_len();
        if self.cursor_col > l {
            self.cursor_col = l;
        }
        proof {
            assert(final(self)@.lines =~= old(self)@.lines);
            assert(final(self)@ =~= (BufView {
                cursor_col: crate::buffer::clamp_col(
                    old(self)@.lines,
                    old(self)@.cursor_row,
                    old(self)@.cursor_col,
                ),
                ..old(self)@
            }));
        }
    }

    /// Move the scroll offset the least distance that brings the cursor
    /// back inside the viewport, on both axes.
    fn follow_cursor(&mut self)
        ensures
            final(self)@ == (BufView {
                scroll_row: crate::buffer::follow(
                    old(self)@.cursor_row,
                    old(self)@.scroll_row,
                    old(self)@.height,
                ),
                scroll_col: crate::buffer::follow(
                    old(self)@.cursor_col,
                    old(self)@.scroll_col,
                    old(self)@.width,
                ),
                ..old(self)@
            }),
    {
        if self.viewport_height > 0 {
            if self.cursor_row < self.scroll_row {
                self.scroll_row = self.cursor_row;
            } else if self.cursor_row - self.scroll_row >= self.viewport_height {
                self.scroll_row = self.cursor_row - (self.viewport_height - 1);
            }
        }
        if self.viewport_width > 0 {
            if self.cursor_col < self.scroll_col {
                self.scroll_col = self.cursor_col;
            } else if self.cursor_col - self.scroll_col >= self.viewport_width {
                self.scroll_col = self.cursor_col - (self.viewport_width - 1);
            }
        }
        proof {
            assert(final(self)@.lines =~= old(self)@.lines);
            assert(final(self)@ =~= (BufView {
                scroll_row: crate::buffer::follow(
                    old(self)@.cursor_row,
                    old(self)@.scroll_row,
                    old(self)@.height,
                ),
                scroll_col: crate::buffer::follow(
                    old(self)@.cursor_col,
                    old(self)@.scroll_col,
                    old(self)@.width,
                ),
                ..old(self)@
            }));
        }
    }

    /// Apply one cursor motion: the cursor moves per the model's
    /// [`step_move`], clamped at the buffer's edges, and the viewport
    /// follows it. A no-op on an empty buffer. Never panics.
    pub fn move_cursor(&mut self, mv: CursorMove)
        requires
            old(self)@.wf(),
        ensures
            final(self)@ == step_move(old(self)@, mv),
            final(self)@.wf(),
    {
        proof {
            lemma_step_move_wf(old(self)@, mv);
        }
        if self.lines.len() == 0 {
            return ;
        }
        match mv {
            CursorMove::Back => {
                if self.cursor_col > 0 {
                    self.cursor_col = self.cursor_col - 1;
                }
            },
            CursorMove::Forward => {
                let l: usize = self.lines[self.cursor_row].as_str().unicode_len();
                if self.cursor_col < l {
                    self.cursor_col = self.cursor_col + 1;
                }
            },
            CursorMove::Up => {
                if self.cursor_row > 0 {
                    self.cursor_row = self.cursor_row - 1;
                }
                self.clamp_cursor_col();
            },
            CursorMove::Down => {
                if self.cursor_row + 1 < self.lines.len() {
                    self.cursor_row = self.cursor_row + 1;
                }
                self.clamp_cursor_col();
            },
            CursorMove::WordForward => {
                let c: usize = next_word_start_exec(&self.lines[self.cursor_row], self.cursor_col);
                self.cursor_col = c;
            },
            CursorMove::WordBack => {
                let c: usize = prev_word_start_exec(&self.lines[self.cursor_row], self.cursor_col);
                self.cursor_col = c;
            },
            CursorMove::Head => {
                self.cursor_col = 0;
            },
            CursorMove::End => {
                let l: usize = self.lines[self.cursor_row].as_str().unicode_len();
                self.cursor_col = l;
            },
            CursorMove::Top => {
                self.cursor_row = 0;
                self.clamp_cursor_col();
            },
            CursorMove::Bottom => {
                self.cursor_row = self.lines.len() - 1;
                self.clamp_cursor_col();
            },
        }
        self.follow_cursor();
        proof {
            assert(final(self)@.lines =~= old(self)@.lines);
            assert(final(self)@ =~= step_move(old(self)@, mv));
        }
    }

    /// The length of the buffer's longest line.
    fn max_line_len_exec(&self) -> (r: usize)
        ensures
            r == max_line_len(self@.lines),
    {
        let mut m: usize = 0;
        let mut i: usize = 0;
        while i < self.lines.len()
            invariant
                i <= self.lines.len(),
                m == max_len_prefix(self@.lines, i as int),
            decreases self.lines.len() - i,
        {
            let l: usize = self.lines[i].as_str().unicode_len();
            if l > m {
                m = l;
            }
            i = i + 1;
        }
        m
    }

    /// `base + delta` clamped into `[0, max]`, for a signed delta.
    fn add_delta_clamped(base: usize, delta: i32, max: usize) -> (r: usize)
        requires
            base <= max,
        ensures
            r == clamp_add(base as nat, delta as int, max as nat),
    {
        if delta >= 0 {
            let d: usize = delta as usize;
            if d <= max - base {
                base + d
            } else {
                max
            }
        } else {
            let m64: i64 = -(delta as i64);
            let m: usize = m64 as usize;
            if m >= base {
                0
            } else {
                base - m
            }
        }
    }

    /// `base + d` clamped at `max`.
    fn add_clamped(base: usize, d: usize, max: usize) -> (r: usize)
        requires
            base <= max,
        ensures
            r == clamp_add(base as nat, d as int, max as nat),
    {
        if d <= max - base {
            base + d
        } else {
            max
        }
    }

    /// `base - d` clamped at 0.
    fn sub_clamped(base: usize, d: usize, max: usize) -> (r: usize)
        requires
            base <= max,
        ensures
            r == clamp_add(base as nat, -(d as int), max as nat),
    {
        if d >= base {
            0
        } else {
            base - d
        }
    }

    /// Apply one scroll command: the viewport moves per the model's
    /// [`step_scroll`], clamped to the buffer's extent; the cursor stays
    /// where it is, visible or not. Never panics.
    pub fn scroll(&mut self, s: Scrolling)
        requires
            old(self)@.wf(),
        ensures
            final(self)@ == step_scroll(old(self)@, s),
            final(self)@.wf(),
    {
        proof {
            lemma_step_scroll_wf(old(self)@, s);
        }
        let max_row: usize = if self.lines.len() == 0 {
            0
        } else {
            self.lines.len() - 1
        };
        let max_col: usize = self.max_line_len_exec();
        assert(max_row == last_row(self@.lines));
        match s {
            Scrolling::Delta(dr, dc) => {
                self.scroll_row = Self::add_delta_clamped(self.scroll_row, dr, max_row);
                self.scroll_col = Self::add_delta_clamped(self.scroll_col, dc, max_col);
            },
            Scrolling::HalfPageUp => {
                self.scroll_row = Self::sub_clamped(self.scroll_row, self.viewport_height / 2, max_row);
            },
            Scrolling::HalfPageDown => {
                self.scroll_row = Self::add_clamped(self.scroll_row, self.viewport_height / 2, max_row);
            },
            Scrolling::PageUp => {
                self.scroll_row = Self::sub_clamped(self.scroll_row, self.viewport_height, max_row);
            },
            Scrolling::PageDown => {
                self.scroll_row = Self::add_clamped(self.scroll_row, self.viewport_height, max_row);
            },
        }
        proof {
            assert(final(self)@.lines =~= old(self)@.lines);
            assert(final(self)@ =~= step_scroll(old(self)@, s));
        }
    }

    /// The rows inside the viewport: the first visible row and the row
    /// after the last visible one, `scroll_row + height` cut off at the
    /// buffer's end.
    pub fn visible_rows(&self) -> (r: (usize, usize))
        requires
            self@.wf(),
        ensures
            r.0 == self@.scroll_row,
            r.1 as nat == if self@.scroll_row + self@.height <= self@.lines.len() {
                self@.scroll_row + self@.height
            } else {
                self@.lines.len()
            },
            r.0 <= r.1 <= self@.lines.len(),
    {
        let start: usize = self.scroll_row;
        let n: usize = self.lines.len();
        let room: usize = n - start;
        let end: usize = if self.viewport_height <= room {
            start + self.viewport_height
        } else {
            n
        };
        (start, end)
    }

    /// Apply one navigation command to this pane: a cursor motion or a
    /// scroll, per the model's [`step_nav`]. Never panics.
    pub fn handle_command(&mut self, cmd: NavCommand)
        requires
            old(self)@.wf(),
        ensures
            final(self)@ == step_nav(old(self)@, cmd),
            final(self)@.wf(),
    {
        match cmd {
            NavCommand::Move(mv) => self.move_cursor(mv),
            NavCommand::Scroll(s) => self.scroll(s),
        }
    }

    /// Decode one key event and apply it to this pane alone: navigation
    /// keys act per [`step_nav`]; quit, focus-switch and unmapped keys do
    /// nothing here.
    pub fn handle_events(&mut self, input: KeyInput)
        requires
            old(self)@.wf(),
        ensures
            final(self)@ == match spec_decode(input) {
                Command::Pane(nc) => step_nav(old(self)@, nc),
                _ => old(self)@,
            },
            final(self)@.wf(),
    {
        let cmd: Command = crate::input::decode(input);
        match cmd {
            Command::Pane(nc) => self.handle_command(nc),
            _ => {},
        }
    }
}

} // verus!
