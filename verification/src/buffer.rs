//! The mathematical model of one pane's text buffer.
//!
//! A buffer is an immutable sequence of lines together with a cursor
//! position, a scroll offset (the top-left visible cell) and the viewport
//! size last seen at render time. `step_move` and `step_scroll` say exactly
//! what each navigation command does to that state: cursor motions clamp at
//! the buffer's edges and drag the viewport along so the cursor stays
//! visible; scroll commands move the viewport only and never the cursor.
//!
//! The executable widget in [`crate::filewidget`] carries this model as its
//! view, and each of its mutating methods is proved to perform exactly the
//! corresponding step function.
use vstd::prelude::*;

use crate::input::{CursorMove, NavCommand, Scrolling};

verus! {

/// The abstract state of one pane: its file name (display only), the
/// loaded lines, cursor, scroll offset, last seen viewport size, and the
/// render-time focus flag.
#[verifier::ext_equal]
pub ghost struct BufView {
    pub filename: Seq<char>,
    pub lines: Seq<Seq<char>>,
    pub cursor_row: nat,
    pub cursor_col: nat,
    pub scroll_row: nat,
    pub scroll_col: nat,
    pub height: nat,
    pub width: nat,
    pub active: bool,
}

/// A word-delimiting character: words are the maximal runs of characters
/// that are neither spaces nor tabs. Lines never contain line breaks, so
/// these are the only separators that can occur.
pub open spec fn is_blank(c: char) -> bool {
    c == ' ' || c == '\t'
}

/// Index of the first blank at or after `i`, or the line's length.
pub open spec fn skip_word(s: Seq<char>, i: nat) -> nat
    decreases s.len() - i,
{
    if i >= s.len() {
        s.len()
    } else if is_blank(s[i as int]) {
        i
    } else {
        skip_word(s, i + 1)
    }
}

/// Index of the first non-blank at or after `i`, or the line's length.
pub open spec fn skip_blanks(s: Seq<char>, i: nat) -> nat
    decreases s.len() - i,
{
    if i >= s.len() {
        s.len()
    } else if is_blank(s[i as int]) {
        skip_blanks(s, i + 1)
    } else {
        i
    }
}

/// Largest `j <= i` such that no blank stands in `s[j..i]`.
pub open spec fn back_blanks(s: Seq<char>, i: nat) -> nat
    decreases i,
{
    if i == 0 {
        0
    } else if is_blank(s[i - 1]) {
        back_blanks(s, (i - 1) as nat)
    } else {
        i
    }
}

/// Largest `j <= i` such that only non-blanks stand in `s[j..i]`.
pub open spec fn back_word(s: Seq<char>, i: nat) -> nat
    decreases i,
{
    if i == 0 {
        0
    } else if !is_blank(s[i - 1]) {
        back_word(s, (i - 1) as nat)
    } else {
        i
    }
}

/// Where word-forward lands from column `c`: past the rest of the current
/// word, then past the blanks, onto the start of the next word — or the
/// end of the line when no word follows.
pub open spec fn next_word_start(s: Seq<char>, c: nat) -> nat {
    skip_blanks(s, skip_word(s, c))
}

/// Where word-back lands from column `c`: back over the blanks before `c`,
/// then back over the word, onto that word's start — or column 0.
pub open spec fn prev_word_start(s: Seq<char>, c: nat) -> nat {
    back_word(s, back_blanks(s, c))
}

/// The largest row the scroll offset may take: the last line's index.
pub open spec fn last_row(lines: Seq<Seq<char>>) -> nat {
    if lines.len() == 0 {
        0
    } else {
        (lines.len() - 1) as nat
    }
}

/// The length of the longest of the first `n` lines.
pub open spec fn max_len_prefix(lines: Seq<Seq<char>>, n: int) -> nat
    decreases n,
{
    if n <= 0 {
        0
    } else {
        let rest: nat = max_len_prefix(lines, n - 1);
        let l: nat = lines[n - 1].len();
        if l > rest {
            l
        } else {
            rest
        }
    }
}

/// The length of the longest line: the largest column the scroll offset
/// may take.
pub open spec fn max_line_len(lines: Seq<Seq<char>>) -> nat {
    max_len_prefix(lines, lines.len() as int)
}

impl BufView {
    /// Well-formedness: the cursor stands on a line of the buffer (or at
    /// the origin when there are no lines), its column does not pass the
    /// line's end, and the scroll offset stays within the buffer's extent.
    pub open spec fn wf(self) -> bool {
        &&& if self.lines.len() == 0 {
            self.cursor_row == 0 && self.cursor_col == 0
        } else {
            self.cursor_row < self.lines.len() && self.cursor_col
                <= self.lines[self.cursor_row as int].len()
        }
        &&& self.scroll_row <= last_row(self.lines)
        &&& self.scroll_col <= max_line_len(self.lines)
    }
}

/// Column `c` clamped to the end of line `r`.
pub open spec fn clamp_col(lines: Seq<Seq<char>>, r: nat, c: nat) -> nat {
    let l: nat = lines[r as int].len();
    if c > l {
        l
    } else {
        c
    }
}

/// Where the cursor lands when `mv` is applied to a non-empty buffer.
pub open spec fn moved_cursor(v: BufView, mv: CursorMove) -> (nat, nat) {
    let r: nat = v.cursor_row;
    let c: nat = v.cursor_col;
    let line: Seq<char> = v.lines[r as int];
    match mv {
        CursorMove::Back => (r, if c > 0 { (c - 1) as nat } else { 0 }),
        CursorMove::Forward => (r, if c < line.len() { c + 1 } else { line.len() }),
        CursorMove::Up => {
            let r2: nat = if r > 0 { (r - 1) as nat } else { 0 };
            (r2, clamp_col(v.lines, r2, c))
        },
        CursorMove::Down => {
            let r2: nat = if r + 1 < v.lines.len() { r + 1 } else { r };
            (r2, clamp_col(v.lines, r2, c))
        },
        CursorMove::WordForward => (r, next_word_start(line, c)),
        CursorMove::WordBack => (r, prev_word_start(line, c)),
        CursorMove::Head => (r, 0),
        CursorMove::End => (r, line.len()),
        CursorMove::Top => (0, clamp_col(v.lines, 0, c)),
        CursorMove::Bottom => {
            let r2: nat = (v.lines.len() - 1) as nat;
            (r2, clamp_col(v.lines, r2, c))
        },
    }
}

/// The scroll offset that keeps position `pos` inside a viewport of
/// `extent` cells starting at `off`: unchanged when `pos` is already
/// visible or the viewport has no extent, else moved the least distance
/// that brings `pos` back in.
pub open spec fn follow(pos: nat, off: nat, extent: nat) -> nat {
    if extent == 0 {
        off
    } else if pos < off {
        pos
    } else if pos >= off + extent {
        (pos + 1 - extent) as nat
    } else {
        off
    }
}

/// One cursor motion: a no-op on an empty buffer; otherwise the cursor
/// moves per `moved_cursor` and the scroll offset follows it on both axes.
pub open spec fn step_move(v: BufView, mv: CursorMove) -> BufView {
    if v.lines.len() == 0 {
        v
    } else {
        let (r2, c2) = moved_cursor(v, mv);
        BufView {
            cursor_row: r2,
            cursor_col: c2,
            scroll_row: follow(r2, v.scroll_row, v.height),
            scroll_col: follow(c2, v.scroll_col, v.width),
            ..v
        }
    }
}

/// `base + delta`, clamped into `[0, max]`.
pub open spec fn clamp_add(base: nat, delta: int, max: nat) -> nat {
    let s: int = base + delta;
    if s < 0 {
        0
    } else if s > max {
        max
    } else {
        s as nat
    }
}

/// The signed (rows, columns) offset a scroll command asks for; the paged
/// modes are computed from the viewport height last seen at render time.
pub open spec fn scroll_delta_of(v: BufView, s: Scrolling) -> (int, int) {
    match s {
        Scrolling::Delta(dr, dc) => (dr as int, dc as int),
        Scrolling::HalfPageUp => (-((v.height / 2) as int), 0),
        Scrolling::HalfPageDown => ((v.height / 2) as int, 0),
        Scrolling::PageUp => (-(v.height as int), 0),
        Scrolling::PageDown => (v.height as int, 0),
    }
}

/// One scroll command: the offset moves by the command's delta, clamped to
/// the buffer's extent; the cursor does not move.
pub open spec fn step_scroll(v: BufView, s: Scrolling) -> BufView {
    let (dr, dc) = scroll_delta_of(v, s);
    BufView {
        scroll_row: clamp_add(v.scroll_row, dr, last_row(v.lines)),
        scroll_col: clamp_add(v.scroll_col, dc, max_line_len(v.lines)),
        ..v
    }
}

/// One navigation command, cursor motion or scroll.
pub open spec fn step_nav(v: BufView, nc: NavCommand) -> BufView {
    match nc {
        NavCommand::Move(mv) => step_move(v, mv),
        NavCommand::Scroll(s) => step_scroll(v, s),
    }
}

/// A whole sequence of navigation commands, applied left to right.
pub open spec fn steps_nav(v: BufView, cmds: Seq<NavCommand>) -> BufView
    decreases cmds.len(),
{
    if cmds.len() == 0 {
        v
    } else {
        steps_nav(step_nav(v, cmds[0]), cmds.drop_first())
    }
}

pub proof fn lemma_skip_word_bounds(s: Seq<char>, i: nat)
    requires
        i <= s.len(),
    ensures
        i <= skip_word(s, i) <= s.len(),
    decreases s.len() - i,
{
    if i < s.len() && !is_blank(s[i as int]) {
        lemma_skip_word_bounds(s, i + 1);
    }
}

pub proof fn lemma_skip_blanks_bounds(s: Seq<char>, i: nat)
    requires
        i <= s.len(),
    ensures
        i <= skip_blanks(s, i) <= s.len(),
    decreases s.len() - i,
{
    if i < s.len() && is_blank(s[i as int]) {
        lemma_skip_blanks_bounds(s, i + 1);
    }
}

pub proof fn lemma_back_blanks_le(s: Seq<char>, i: nat)
    ensures
        back_blanks(s, i) <= i,
    decreases i,
{
    if i > 0 && is_blank(s[i - 1]) {
        lemma_back_blanks_le(s, (i - 1) as nat);
    }
}

pub proof fn lemma_back_word_le(s: Seq<char>, i: nat)
    ensures
        back_word(s, i) <= i,
    decreases i,
{
    if i > 0 && !is_blank(s[i - 1]) {
        lemma_back_word_le(s, (i - 1) as nat);
    }
}

/// Word-forward lands between the starting column and the line's end.
pub proof fn lemma_next_word_start_bounds(s: Seq<char>, c: nat)
    requires
        c <= s.len(),
    ensures
        c <= next_word_start(s, c) <= s.len(),
{
    lemma_skip_word_bounds(s, c);
    lemma_skip_blanks_bounds(s, skip_word(s, c));
}

/// Word-back lands between column 0 and the starting column.
pub proof fn lemma_prev_word_start_le(s: Seq<char>, c: nat)
    ensures
        prev_word_start(s, c) <= c,
{
    lemma_back_blanks_le(s, c);
    lemma_back_word_le(s, back_blanks(s, c));
}

/// No line is longer than the longest of any prefix that contains it.
proof fn lemma_line_le_max_prefix(lines: Seq<Seq<char>>, r: int, n: int)
    requires
        0 <= r < n <= lines.len(),
    ensures
        lines[r].len() <= max_len_prefix(lines, n),
    decreases n,
{
    if r < n - 1 {
        lemma_line_le_max_prefix(lines, r, n - 1);
    }
}

/// No line is longer than the buffer's longest line.
pub proof fn lemma_line_le_max(lines: Seq<Seq<char>>, r: int)
    requires
        0 <= r < lines.len(),
    ensures
        lines[r].len() <= max_line_len(lines),
{
    lemma_line_le_max_prefix(lines, r, lines.len() as int);
}

/// Every cursor motion keeps the buffer well formed: the cursor's row
/// stays within the lines and its column never passes the line's end.
pub proof fn lemma_step_move_wf(v: BufView, mv: CursorMove)
    requires
        v.wf(),
    ensures
        step_move(v, mv).wf(),
{
    if v.lines.len() > 0 {
        let (r2, c2) = moved_cursor(v, mv);
        let line: Seq<char> = v.lines[v.cursor_row as int];
        match mv {
            CursorMove::WordForward => {
                lemma_next_word_start_bounds(line, v.cursor_col);
            },
            CursorMove::WordBack => {
                lemma_prev_word_start_le(line, v.cursor_col);
            },
            _ => {},
        }
        lemma_line_le_max(v.lines, r2 as int);
    }
}

/// Every scroll command keeps the buffer well formed.
pub proof fn lemma_step_scroll_wf(v: BufView, s: Scrolling)
    requires
        v.wf(),
    ensures
        step_scroll(v, s).wf(),
{
}

/// Every navigation command keeps the buffer well formed.
pub proof fn lemma_step_nav_wf(v: BufView, nc: NavCommand)
    requires
        v.wf(),
    ensures
        step_nav(v, nc).wf(),
{
    match nc {
        NavCommand::Move(mv) => lemma_step_move_wf(v, mv),
        NavCommand::Scroll(s) => lemma_step_scroll_wf(v, s),
    }
}

/// After any sequence of navigation commands a well-formed buffer is still
/// well formed: the cursor's row stays in `[0, lines.len())` and its
/// column in `[0, line length]` throughout.
pub proof fn lemma_steps_nav_wf(v: BufView, cmds: Seq<NavCommand>)
    requires
        v.wf(),
    ensures
        steps_nav(v, cmds).wf(),
    decreases cmds.len(),
{
    if cmds.len() > 0 {
        lemma_step_nav_wf(v, cmds[0]);
        lemma_steps_nav_wf(step_nav(v, cmds[0]), cmds.drop_first());
    }
}

/// Buffer-top with the cursor already on row 0 leaves the cursor where it
/// is.
pub proof fn lemma_top_at_top_keeps_cursor(v: BufView)
    requires
        v.wf(),
        v.cursor_row == 0,
    ensures
        step_move(v, CursorMove::Top).cursor_row == v.cursor_row,
        step_move(v, CursorMove::Top).cursor_col == v.cursor_col,
{
}

/// Buffer-bottom with the cursor already on the last row leaves the cursor
/// where it is.
pub proof fn lemma_bottom_at_bottom_keeps_cursor(v: BufView)
    requires
        v.wf(),
        v.lines.len() == 0 || v.cursor_row == v.lines.len() - 1,
    ensures
        step_move(v, CursorMove::Bottom).cursor_row == v.cursor_row,
        step_move(v, CursorMove::Bottom).cursor_col == v.cursor_col,
{
}

/// Char-back with the cursor already in column 0 leaves the cursor where
/// it is.
pub proof fn lemma_back_at_head_keeps_cursor(v: BufView)
    requires
        v.wf(),
        v.cursor_col == 0,
    ensures
        step_move(v, CursorMove::Back).cursor_row == v.cursor_row,
        step_move(v, CursorMove::Back).cursor_col == v.cursor_col,
{
}

/// After any cursor motion the cursor is inside the viewport: the scroll
/// offset is dragged along so that the cursor's row and column lie within
/// the viewport's extent on both axes.
pub proof fn lemma_move_keeps_cursor_visible(v: BufView, mv: CursorMove)
    requires
        v.wf(),
        v.height > 0,
        v.width > 0,
    ensures
        step_move(v, mv).scroll_row <= step_move(v, mv).cursor_row < step_move(v, mv).scroll_row
            + v.height,
        step_move(v, mv).scroll_col <= step_move(v, mv).cursor_col < step_move(v, mv).scroll_col
            + v.width,
{
}

/// Scrolling never moves the cursor, whatever the command.
pub proof fn lemma_scroll_keeps_cursor(v: BufView, s: Scrolling)
    ensures
        step_scroll(v, s).cursor_row == v.cursor_row,
        step_scroll(v, s).cursor_col == v.cursor_col,
{
}

/// Line-down moves the cursor's row by exactly one, clamped at the last
/// line; only the scroll offset may change besides the cursor.
pub proof fn lemma_down_moves_one_row(v: BufView)
    requires
        v.wf(),
        v.lines.len() > 0,
    ensures
        step_move(v, CursorMove::Down).cursor_row == if v.cursor_row + 1 < v.lines.len() {
            v.cursor_row + 1
        } else {
            v.cursor_row
        },
        step_move(v, CursorMove::Down).lines == v.lines,
        step_move(v, CursorMove::Down).height == v.height,
        step_move(v, CursorMove::Down).width == v.width,
{
}

} // verus!
