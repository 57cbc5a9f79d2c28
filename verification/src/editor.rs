//! The modal text editor's in-memory state: a buffer of lines, a cursor,
//! a yank register, and the mode machine. It edits text it was handed and
//! hands text back; reading and writing the remote file happen outside
//! the library.

use vstd::prelude::*;

verus! {

use vstd::string::StrSliceExecFns;
use vstd::string::StringExecFns;
use crate::text::str_eq;
use crate::text::string_insert_char;
use crate::text::string_remove_char;
use crate::text::string_skip;
use crate::text::string_take;

/// The editor's mode: what keys mean.
#[derive(Debug, Clone, PartialEq, Eq, Structural)]
pub enum EditorMode {
    Normal,
    Insert,
    Command,
    Search,
}

/// The whole state of one editing session.
pub struct EditorState {
    pub buffer: Vec<String>,
    pub cursor_row: usize,
    pub cursor_col: usize,
    pub mode: EditorMode,
    pub yank_register: Vec<String>,
    pub status_message: String,
    pub command_buffer: String,
    pub search_pattern: String,
    pub scroll_offset: usize,
    pub filename: String,
    pub remote_path: String,
    pub modified: bool,
    pub should_quit: bool,
}

/// The lines of a buffer as character sequences.
pub open spec fn line_views(b: Seq<String>) -> Seq<Seq<char>> {
    b.map_values(|l: String| l@)
}

/// The line split of a text: lines end at a newline or at a carriage
/// return followed by a newline, and a final newline closes the last
/// line rather than opening an empty one.
pub open spec fn spec_lines(s: Seq<char>) -> Seq<Seq<char>>
    decreases s.len(),
{
    if s.len() == 0 {
        Seq::empty()
    } else if s[0] == '\r' && s.len() >= 2 && s[1] == '\n' {
        seq![Seq::<char>::empty()] + spec_lines(s.skip(2))
    } else if s[0] == '\n' {
        seq![Seq::<char>::empty()] + spec_lines(s.skip(1))
    } else {
        let rest = spec_lines(s.skip(1));
        if rest.len() == 0 {
            seq![seq![s[0]]]
        } else {
            rest.update(0, seq![s[0]] + rest[0])
        }
    }
}

/// A partial line glued onto the front of the lines that follow it.
pub open spec fn glue(c: Seq<char>, rest: Seq<Seq<char>>) -> Seq<Seq<char>> {
    if rest.len() == 0 {
        if c.len() == 0 {
            Seq::empty()
        } else {
            seq![c]
        }
    } else {
        rest.update(0, c + rest[0])
    }
}

proof fn lemma_glue_char(c: Seq<char>, ch: char, rest: Seq<Seq<char>>)
    ensures
        glue(c, glue(seq![ch], rest)) =~= glue(c.push(ch), rest),
{
    if rest.len() == 0 {
        assert(glue(seq![ch], rest) =~= seq![seq![ch]]);
        assert(c + seq![ch] =~= c.push(ch));
        assert(glue(c, seq![seq![ch]]) =~= seq![c + seq![ch]]);
        assert(glue(c.push(ch), rest) =~= seq![c.push(ch)]);
    } else {
        assert(c + (seq![ch] + rest[0]) =~= (c.push(ch)) + rest[0]);
        assert(glue(c, glue(seq![ch], rest)) =~= glue(c.push(ch), rest));
    }
}

/// Splits a text into its lines.
pub fn split_lines(content: &str) -> (r: Vec<String>)
    ensures
        line_views(r@) == spec_lines(content@),
{
    let n = content.unicode_len();
    let mut out: Vec<String> = Vec::new();
    let mut cur = String::new();
    let mut i: usize = 0;
    proof {
        assert(content@.skip(0) =~= content@);
        assert(line_views(out@) + glue(cur@, spec_lines(content@)) =~= glue(
            cur@,
            spec_lines(content@),
        ));
    }
    while i < n
        invariant
            i <= n,
            n == content@.len(),
            spec_lines(content@) == line_views(out@) + glue(cur@, spec_lines(content@.skip(i as int))),
        decreases n - i,
    {
        let c = content.get_char(i);
        let ghost rem = content@.skip(i as int);
        proof {
            assert(rem[0] == content@[i as int]);
            assert(rem.skip(1) =~= content@.skip(i + 1));
            if i + 1 < n {
                assert(rem[1] == content@[i + 1]);
            }
        }
        if c == '\r' && i + 1 < n && content.get_char(i + 1) == '\n' {
            proof {
                assert(rem.skip(2) =~= content@.skip(i + 2));
                assert(spec_lines(rem) == seq![Seq::<char>::empty()] + spec_lines(
                    content@.skip(i + 2),
                ));
                let l2 = spec_lines(content@.skip(i + 2));
                assert(glue(cur@, seq![Seq::<char>::empty()] + l2) =~= seq![cur@] + l2);
                assert(line_views(out@.push(cur)) =~= line_views(out@).push(cur@));
                assert(line_views(out@) + (seq![cur@] + l2) =~= line_views(out@.push(cur)) + glue(
                    Seq::<char>::empty(),
                    l2,
                ));
            }
            out.push(cur);
            cur = String::new();
            i = i + 2;
        } else if c == '\n' {
            proof {
                let l2 = spec_lines(content@.skip(i + 1));
                assert(spec_lines(rem) == seq![Seq::<char>::empty()] + l2);
                assert(glue(cur@, seq![Seq::<char>::empty()] + l2) =~= seq![cur@] + l2);
                assert(line_views(out@.push(cur)) =~= line_views(out@).push(cur@));
                assert(line_views(out@) + (seq![cur@] + l2) =~= line_views(out@.push(cur)) + glue(
                    Seq::<char>::empty(),
                    l2,
                ));
            }
            out.push(cur);
            cur = String::new();
            i = i + 1;
        } else {
            proof {
                let l2 = spec_lines(content@.skip(i + 1));
                assert(spec_lines(rem) == glue(seq![rem[0]], l2));
                lemma_glue_char(cur@, rem[0], l2);
            }
            cur.push(c);
            i = i + 1;
        }
    }
    proof {
        assert(content@.skip(n as int) =~= Seq::<char>::empty());
    }
    if !cur.as_str().is_empty() {
        proof {
            assert(glue(cur@, spec_lines(Seq::<char>::empty())) =~= seq![cur@]);
            assert(line_views(out@.push(cur)) =~= line_views(out@).push(cur@));
            assert(line_views(out@) + seq![cur@] =~= line_views(out@).push(cur@));
        }
        out.push(cur);
    } else {
        proof {
            assert(glue(cur@, spec_lines(Seq::<char>::empty())) =~= Seq::<Seq<char>>::empty());
            assert(line_views(out@) + Seq::<Seq<char>>::empty() =~= line_views(out@));
        }
    }
    out
}

/// The row the cursor lands on after clamping to the buffer.
pub open spec fn clamped_row(rows: int, row: int) -> int {
    if row >= rows {
        if rows == 0 {
            0
        } else {
            rows - 1
        }
    } else {
        row
    }
}

/// The rightmost column the cursor may sit on: one past the end of the
/// line while inserting, on the last character otherwise.
pub open spec fn max_col_of(mode: EditorMode, line_len: int) -> int {
    if mode == EditorMode::Insert {
        line_len
    } else if line_len > 0 {
        line_len - 1
    } else {
        0
    }
}

impl EditorState {
    /// Well-formed: at least one line, and the cursor on one of them.
    pub open spec fn wf(&self) -> bool {
        &&& self.buffer@.len() >= 1
        &&& self.cursor_row < self.buffer@.len()
    }

    /// The characters of the line under the cursor.
    pub open spec fn cur_line(&self) -> Seq<char> {
        self.buffer@[self.cursor_row as int]@
    }

    /// A fresh editor over the given text: an empty text becomes one
    /// empty line, anything else its line split.
    pub fn new(filename: String, remote_path: String, content: String) -> (r: EditorState)
        ensures
            r.wf(),
            content@.len() == 0 ==> line_views(r.buffer@) =~= seq![Seq::<char>::empty()],
            content@.len() > 0 ==> line_views(r.buffer@) == spec_lines(content@),
            r.cursor_row == 0,
            r.cursor_col == 0,
            r.mode == EditorMode::Normal,
            r.yank_register@.len() == 0,
            r.status_message@ == "Normal mode"@,
            r.command_buffer@.len() == 0,
            r.search_pattern@.len() == 0,
            r.scroll_offset == 0,
            r.filename == filename,
            r.remote_path == remote_path,
            !r.modified,
            !r.should_quit,
    {
        let buffer: Vec<String> = if content.as_str().is_empty() {
            let mut b: Vec<String> = Vec::new();
            b.push(String::new());
            proof {
                assert(line_views(b@) =~= seq![Seq::<char>::empty()]);
            }
            b
        } else {
            let b = split_lines(content.as_str());
            proof {
                assert(spec_lines(content@).len() >= 1);
            }
            b
        };
        EditorState {
            buffer,
            cursor_row: 0,
            cursor_col: 0,
            mode: EditorMode::Normal,
            yank_register: Vec::new(),
            status_message: String::from_str("Normal mode"),
            command_buffer: String::new(),
            search_pattern: String::new(),
            scroll_offset: 0,
            filename,
            remote_path,
            modified: false,
            should_quit: false,
        }
    }

    /// The line under the cursor, or nothing when the cursor row has
    /// run off the buffer.
    pub fn get_current_line(&self) -> (r: &str)
        ensures
            self.cursor_row < self.buffer@.len() ==> r@ == self.buffer@[self.cursor_row as int]@,
            self.cursor_row >= self.buffer@.len() ==> r@.len() == 0,
    {
        if self.cursor_row < self.buffer.len() {
            self.buffer[self.cursor_row].as_str()
        } else {
            proof {
                reveal_strlit("");
            }
            ""
        }
    }

    /// Mutable access to the line under the cursor.
    pub fn get_current_line_mut(&mut self) -> (r: &mut String)
        requires
            old(self).wf(),
        ensures
            *r == old(self).buffer@[old(self).cursor_row as int],
            final(self).buffer@ == old(self).buffer@.update(
                old(self).cursor_row as int,
                *final(r),
            ),
            final(self).cursor_row == old(self).cursor_row,
            final(self).cursor_col == old(self).cursor_col,
            final(self).mode == old(self).mode,
            final(self).yank_register == old(self).yank_register,
            final(self).status_message == old(self).status_message,
            final(self).command_buffer == old(self).command_buffer,
            final(self).search_pattern == old(self).search_pattern,
            final(self).scroll_offset == old(self).scroll_offset,
            final(self).filename == old(self).filename,
            final(self).remote_path == old(self).remote_path,
            final(self).modified == old(self).modified,
            final(self).should_quit == old(self).should_quit,
    {
        let i = self.cursor_row;
        &mut self.buffer[i]
    }

    /// Pulls the cursor back inside the buffer and the line under it.
    pub fn clamp_cursor(&mut self)
        ensures
            final(self).cursor_row as int == clamped_row(
                old(self).buffer@.len() as int,
                old(self).cursor_row as int,
            ),
            final(self).cursor_col as int == vstd::math::min(
                old(self).cursor_col as int,
                max_col_of(
                    old(self).mode,
                    if final(self).cursor_row < old(self).buffer@.len() {
                        old(self).buffer@[final(self).cursor_row as int]@.len() as int
                    } else {
                        0
                    },
                ),
            ),
            final(self).buffer@ == old(self).buffer@,
            final(self).mode == old(self).mode,
            final(self).yank_register == old(self).yank_register,
            final(self).status_message == old(self).status_message,
            final(self).command_buffer == old(self).command_buffer,
            final(self).search_pattern == old(self).search_pattern,
            final(self).scroll_offset == old(self).scroll_offset,
            final(self).filename == old(self).filename,
            final(self).remote_path == old(self).remote_path,
            final(self).modified == old(self).modified,
            final(self).should_quit == old(self).should_quit,
            old(self).buffer@.len() >= 1 ==> final(self).wf(),
    {
        if self.cursor_row >= self.buffer.len() {
            if self.buffer.len() == 0 {
                self.cursor_row = 0;
            } else {
                self.cursor_row = self.buffer.len() - 1;
            }
        }
        let line_len = if self.cursor_row < self.buffer.len() {
            self.buffer[self.cursor_row].as_str().unicode_len()
        } else {
            0
        };
        let max_col = if matches!(self.mode, EditorMode::Insert) {
            line_len
        } else if line_len > 0 {
            line_len - 1
        } else {
            0
        };
        if self.cursor_col > max_col {
            self.cursor_col = max_col;
        }
    }
}

impl EditorState {
    /// Moves the cursor one line up, clamping the column to the new line.
    pub fn move_cursor_up(&mut self)
        requires
            old(self).wf(),
        ensures
            final(self).wf(),
            old(self).cursor_row == 0 ==> *final(self) == *old(self),
            old(self).cursor_row > 0 ==> final(self).cursor_row == old(self).cursor_row - 1
                && final(self).cursor_col as int == vstd::math::min(
                old(self).cursor_col as int,
                max_col_of(
                    old(self).mode,
                    old(self).buffer@[old(self).cursor_row - 1]@.len() as int,
                ),
            ),
            final(self).buffer@ == old(self).buffer@,
            final(self).mode == old(self).mode,
            final(self).yank_register == old(self).yank_register,
            final(self).status_message == old(self).status_message,
            final(self).modified == old(self).modified,
            final(self).should_quit == old(self).should_quit,
            final(self).command_buffer == old(self).command_buffer,
            final(self).search_pattern == old(self).search_pattern,
            final(self).scroll_offset == old(self).scroll_offset,
            final(self).filename == old(self).filename,
            final(self).remote_path == old(self).remote_path,
    {
        if self.cursor_row > 0 {
            self.cursor_row = self.cursor_row - 1;
            self.clamp_cursor();
        }
    }

    /// Moves the cursor one line down, clamping the column to the new
    /// line; it does not move past the last line.
    pub fn move_cursor_down(&mut self)
        requires
            old(self).wf(),
        ensures
            final(self).wf(),
            old(self).cursor_row >= old(self).buffer@.len() - 1 ==> *final(self) == *old(self),
            old(self).cursor_row < old(self).buffer@.len() - 1 ==> final(self).cursor_row == old(self).cursor_row + 1 && final(self).cursor_col as int == vstd::math::min(
                old(self).cursor_col as int,
                max_col_of(
                    old(self).mode,
                    old(self).buffer@[old(self).cursor_row + 1]@.len() as int,
                ),
            ),
            final(self).buffer@ == old(self).buffer@,
            final(self).mode == old(self).mode,
            final(self).yank_register == old(self).yank_register,
            final(self).status_message == old(self).status_message,
            final(self).modified == old(self).modified,
            final(self).should_quit == old(self).should_quit,
            final(self).command_buffer == old(self).command_buffer,
            final(self).search_pattern == old(self).search_pattern,
            final(self).scroll_offset == old(self).scroll_offset,
            final(self).filename == old(self).filename,
            final(self).remote_path == old(self).remote_path,
    {
        if self.cursor_row < self.buffer.len() - 1 {
            self.cursor_row = self.cursor_row + 1;
            self.clamp_cursor();
        }
    }

    /// Moves the cursor one column left, wrapping to the end of the
    /// previous line at a line start.
    pub fn move_cursor_left(&mut self)
        requires
            old(self).wf(),
        ensures
            final(self).wf(),
            old(self).cursor_col > 0 ==> final(self).cursor_row == old(self).cursor_row && final(self).cursor_col == old(self).cursor_col - 1,
            old(self).cursor_col == 0 && old(self).cursor_row == 0 ==> *final(self) == *old(self),
            old(self).cursor_col == 0 && old(self).cursor_row > 0 ==> ({
                let prev = old(self).buffer@[old(self).cursor_row - 1]@.len() as int;
                &&& final(self).cursor_row == old(self).cursor_row - 1
                &&& final(self).cursor_col as int == (if old(self).mode == EditorMode::Normal
                    && prev > 0 {
                    prev - 1
                } else {
                    prev
                })
            }),
            final(self).buffer@ == old(self).buffer@,
            final(self).mode == old(self).mode,
            final(self).yank_register == old(self).yank_register,
            final(self).status_message == old(self).status_message,
            final(self).modified == old(self).modified,
            final(self).should_quit == old(self).should_quit,
            final(self).command_buffer == old(self).command_buffer,
            final(self).search_pattern == old(self).search_pattern,
            final(self).scroll_offset == old(self).scroll_offset,
            final(self).filename == old(self).filename,
            final(self).remote_path == old(self).remote_path,
    {
        if self.cursor_col > 0 {
            self.cursor_col = self.cursor_col - 1;
        } else if self.cursor_row > 0 {
            self.cursor_row = self.cursor_row - 1;
            self.cursor_col = self.buffer[self.cursor_row].as_str().unicode_len();
            if matches!(self.mode, EditorMode::Normal) && self.cursor_col > 0 {
                self.cursor_col = self.cursor_col - 1;
            }
        }
    }

    /// Moves the cursor one column right; while inserting it may pass
    /// onto the start of the next line.
    pub fn move_cursor_right(&mut self)
        requires
            old(self).wf(),
        ensures
            final(self).wf(),
            ({
                let line_len = old(self).cur_line().len() as int;
                let max_col = if old(self).mode == EditorMode::Insert {
                    line_len
                } else if line_len > 0 {
                    line_len - 1
                } else {
                    0
                };
                if (old(self).cursor_col as int) < max_col {
                    final(self).cursor_row == old(self).cursor_row && final(self).cursor_col == old(self).cursor_col + 1
                } else if old(self).mode == EditorMode::Insert && (old(self).cursor_row as int) < old(self).buffer@.len() - 1 {
                    final(self).cursor_row == old(self).cursor_row + 1 && final(self).cursor_col
                        == 0
                } else {
                    final(self).cursor_row == old(self).cursor_row && final(self).cursor_col == old(self).cursor_col
                }
            }),
            final(self).buffer@ == old(self).buffer@,
            final(self).mode == old(self).mode,
            final(self).yank_register == old(self).yank_register,
            final(self).status_message == old(self).status_message,
            final(self).modified == old(self).modified,
            final(self).should_quit == old(self).should_quit,
            final(self).command_buffer == old(self).command_buffer,
            final(self).search_pattern == old(self).search_pattern,
            final(self).scroll_offset == old(self).scroll_offset,
            final(self).filename == old(self).filename,
            final(self).remote_path == old(self).remote_path,
    {
        let line_len = self.buffer[self.cursor_row].as_str().unicode_len();
        let max_col = if matches!(self.mode, EditorMode::Insert) {
            line_len
        } else if line_len > 0 {
            line_len - 1
        } else {
            0
        };
        if self.cursor_col < max_col {
            self.cursor_col = self.cursor_col + 1;
        } else if matches!(self.mode, EditorMode::Insert) && self.cursor_row < self.buffer.len()
            - 1 {
            self.cursor_row = self.cursor_row + 1;
            self.cursor_col = 0;
        }
    }

    /// Puts the cursor at the first column.
    pub fn move_to_line_start(&mut self)
        ensures
            final(self).cursor_col == 0,
            final(self).cursor_row == old(self).cursor_row,
            final(self).buffer@ == old(self).buffer@,
            final(self).mode == old(self).mode,
            final(self).yank_register == old(self).yank_register,
            final(self).status_message == old(self).status_message,
            final(self).modified == old(self).modified,
            final(self).should_quit == old(self).should_quit,
            final(self).command_buffer == old(self).command_buffer,
            final(self).search_pattern == old(self).search_pattern,
            final(self).scroll_offset == old(self).scroll_offset,
            final(self).filename == old(self).filename,
            final(self).remote_path == old(self).remote_path,
    {
        self.cursor_col = 0;
    }

    /// Puts the cursor at the end of the line: one past the last
    /// character while inserting, on it otherwise.
    pub fn move_to_line_end(&mut self)
        requires
            old(self).wf(),
        ensures
            final(self).wf(),
            final(self).cursor_col as int == max_col_of(old(self).mode, old(self).cur_line().len() as int),
            final(self).cursor_row == old(self).cursor_row,
            final(self).buffer@ == old(self).buffer@,
            final(self).mode == old(self).mode,
            final(self).yank_register == old(self).yank_register,
            final(self).status_message == old(self).status_message,
            final(self).modified == old(self).modified,
            final(self).should_quit == old(self).should_quit,
            final(self).command_buffer == old(self).command_buffer,
            final(self).search_pattern == old(self).search_pattern,
            final(self).scroll_offset == old(self).scroll_offset,
            final(self).filename == old(self).filename,
            final(self).remote_path == old(self).remote_path,
    {
        let line_len = self.buffer[self.cursor_row].as_str().unicode_len();
        self.cursor_col = if matches!(self.mode, EditorMode::Insert) {
            line_len
        } else if line_len > 0 {
            line_len - 1
        } else {
            0
        };
    }

    /// Puts the cursor on the first character of the first line.
    pub fn move_to_buffer_start(&mut self)
        ensures
            final(self).cursor_row == 0,
            final(self).cursor_col == 0,
            final(self).buffer@ == old(self).buffer@,
            final(self).mode == old(self).mode,
            final(self).yank_register == old(self).yank_register,
            final(self).status_message == old(self).status_message,
            final(self).modified == old(self).modified,
            final(self).should_quit == old(self).should_quit,
            final(self).command_buffer == old(self).command_buffer,
            final(self).search_pattern == old(self).search_pattern,
            final(self).scroll_offset == old(self).scroll_offset,
            final(self).filename == old(self).filename,
            final(self).remote_path == old(self).remote_path,
    {
        self.cursor_row = 0;
        self.cursor_col = 0;
    }

    /// Puts the cursor at the end of the last line.
    pub fn move_to_buffer_end(&mut self)
        requires
            old(self).wf(),
        ensures
            final(self).wf(),
            final(self).cursor_row == old(self).buffer@.len() - 1,
            final(self).cursor_col as int == max_col_of(
                old(self).mode,
                old(self).buffer@[old(self).buffer@.len() - 1]@.len() as int,
            ),
            final(self).buffer@ == old(self).buffer@,
            final(self).mode == old(self).mode,
            final(self).yank_register == old(self).yank_register,
            final(self).status_message == old(self).status_message,
            final(self).modified == old(self).modified,
            final(self).should_quit == old(self).should_quit,
            final(self).command_buffer == old(self).command_buffer,
            final(self).search_pattern == old(self).search_pattern,
            final(self).scroll_offset == old(self).scroll_offset,
            final(self).filename == old(self).filename,
            final(self).remote_path == old(self).remote_path,
    {
        self.cursor_row = self.buffer.len() - 1;
        self.move_to_line_end();
    }
}

impl EditorState {
    /// Deletes the line under the cursor into the yank register; the
    /// only line of the buffer is emptied instead of removed.
    pub fn delete_line(&mut self)
        requires
            old(self).wf(),
        ensures
            final(self).wf(),
            final(self).yank_register@.len() == 1,
            final(self).yank_register@[0]@ == old(self).cur_line(),
            old(self).buffer@.len() == 1 ==> final(self).buffer@.len() == 1 && final(self).buffer@[0]@.len() == 0 && final(self).cursor_row == 0,
            old(self).buffer@.len() > 1 ==> ({
                let b2 = old(self).buffer@.remove(old(self).cursor_row as int);
                let r2 = clamped_row(b2.len() as int, old(self).cursor_row as int);
                &&& final(self).buffer@ == b2
                &&& final(self).cursor_row as int == r2
                &&& final(self).cursor_col as int == vstd::math::min(
                    old(self).cursor_col as int,
                    max_col_of(old(self).mode, b2[r2]@.len() as int),
                )
            }),
            final(self).modified,
            final(self).status_message@ == "Line deleted"@,
            final(self).mode == old(self).mode,
            final(self).command_buffer == old(self).command_buffer,
            final(self).search_pattern == old(self).search_pattern,
            final(self).scroll_offset == old(self).scroll_offset,
            final(self).filename == old(self).filename,
            final(self).remote_path == old(self).remote_path,
            final(self).should_quit == old(self).should_quit,
    {
        if self.buffer.len() == 1 {
            let line = self.buffer[0].clone();
            let mut reg: Vec<String> = Vec::new();
            reg.push(line);
            self.yank_register = reg;
            self.buffer[0] = String::new();
        } else {
            let removed = self.buffer.remove(self.cursor_row);
            let mut reg: Vec<String> = Vec::new();
            reg.push(removed);
            self.yank_register = reg;
            if self.cursor_row >= self.buffer.len() {
                self.cursor_row = self.buffer.len() - 1;
            }
        }
        self.clamp_cursor();
        self.modified = true;
        self.status_message = String::from_str("Line deleted");
    }

    /// Copies the line under the cursor into the yank register.
    pub fn yank_line(&mut self)
        requires
            old(self).wf(),
        ensures
            final(self).wf(),
            final(self).yank_register@.len() == 1,
            final(self).yank_register@[0]@ == old(self).cur_line(),
            final(self).status_message@ == "Line yanked"@,
            final(self).buffer@ == old(self).buffer@,
            final(self).cursor_row == old(self).cursor_row,
            final(self).cursor_col == old(self).cursor_col,
            final(self).mode == old(self).mode,
            final(self).modified == old(self).modified,
            final(self).should_quit == old(self).should_quit,
            final(self).command_buffer == old(self).command_buffer,
            final(self).search_pattern == old(self).search_pattern,
            final(self).scroll_offset == old(self).scroll_offset,
            final(self).filename == old(self).filename,
            final(self).remote_path == old(self).remote_path,
    {
        let line = self.buffer[self.cursor_row].clone();
        let mut reg: Vec<String> = Vec::new();
        reg.push(line);
        self.yank_register = reg;
        self.status_message = String::from_str("Line yanked");
    }

    /// Pastes the yank register below the cursor line, first pasted line
    /// first; with an empty register nothing happens.
    pub fn paste_below(&mut self)
        requires
            old(self).wf(),
            old(self).buffer@.len() + old(self).yank_register@.len() <= usize::MAX,
        ensures
            final(self).wf(),
            old(self).yank_register@.len() == 0 ==> *final(self) == *old(self),
            old(self).yank_register@.len() > 0 ==> ({
                &&& final(self).buffer@ == old(self).buffer@.take(old(self).cursor_row + 1) + old(self).yank_register@ + old(self).buffer@.skip(old(self).cursor_row + 1)
                &&& final(self).cursor_row == old(self).cursor_row + 1
                &&& final(self).modified
                &&& final(self).status_message@ == "Pasted"@
            }),
            final(self).cursor_col == old(self).cursor_col,
            final(self).yank_register == old(self).yank_register,
            final(self).mode == old(self).mode,
            final(self).should_quit == old(self).should_quit,
            final(self).command_buffer == old(self).command_buffer,
            final(self).search_pattern == old(self).search_pattern,
            final(self).scroll_offset == old(self).scroll_offset,
            final(self).filename == old(self).filename,
            final(self).remote_path == old(self).remote_path,
    {
        if self.yank_register.len() > 0 {
            let k = self.yank_register.len();
            let mut i: usize = 0;
            while i < k
                invariant
                    i <= k,
                    k == self.yank_register@.len(),
                    self.cursor_row == old(self).cursor_row,
                    self.cursor_row + 1 + i <= self.buffer@.len(),
                    old(self).buffer@.len() + k <= usize::MAX,
                    self.buffer@.len() == old(self).buffer@.len() + i,
                    self.buffer@ == old(self).buffer@.take(old(self).cursor_row + 1) + old(self).yank_register@.take(i as int) + old(self).buffer@.skip(
                        old(self).cursor_row + 1,
                    ),
                    self.yank_register == old(self).yank_register,
                    self.cursor_col == old(self).cursor_col,
                    self.mode == old(self).mode,
                    self.should_quit == old(self).should_quit,
                    self.command_buffer == old(self).command_buffer,
                    self.search_pattern == old(self).search_pattern,
                    self.scroll_offset == old(self).scroll_offset,
                    self.filename == old(self).filename,
                    self.remote_path == old(self).remote_path,
                    self.modified == old(self).modified,
                    self.status_message == old(self).status_message,
                decreases k - i,
            {
                let line = self.yank_register[i].clone();
                self.buffer.insert(self.cursor_row + 1 + i, line);
                proof {
                    assert(self.buffer@ =~= old(self).buffer@.take(old(self).cursor_row + 1) + old(self).yank_register@.take(i + 1) + old(self).buffer@.skip(
                        old(self).cursor_row + 1,
                    ));
                }
                i = i + 1;
            }
            proof {
                assert(old(self).yank_register@.take(k as int) =~= old(self).yank_register@);
                assert(self.buffer@ =~= old(self).buffer@.take(old(self).cursor_row + 1) + old(self).yank_register@ + old(self).buffer@.skip(old(self).cursor_row + 1));
            }
            self.cursor_row = self.cursor_row + 1;
            self.modified = true;
            self.status_message = String::from_str("Pasted");
        }
    }

    /// Inserts one character at the cursor and moves the cursor past it;
    /// a cursor beyond the end of the line appends.
    pub fn insert_char(&mut self, c: char)
        requires
            old(self).wf(),
            old(self).cursor_col < usize::MAX,
        ensures
            final(self).wf(),
            final(self).buffer@.len() == old(self).buffer@.len(),
            old(self).cursor_col >= old(self).cur_line().len() ==> final(self).cur_line() == old(self).cur_line().push(c),
            old(self).cursor_col < old(self).cur_line().len() ==> final(self).cur_line() == old(self).cur_line().insert(old(self).cursor_col as int, c),
            forall|j: int|
                0 <= j < old(self).buffer@.len() && j != old(self).cursor_row ==> final(self).buffer@[j] == old(self).buffer@[j],
            final(self).cursor_row == old(self).cursor_row,
            final(self).cursor_col == old(self).cursor_col + 1,
            final(self).modified,
            final(self).mode == old(self).mode,
            final(self).yank_register == old(self).yank_register,
            final(self).status_message == old(self).status_message,
            final(self).should_quit == old(self).should_quit,
            final(self).command_buffer == old(self).command_buffer,
            final(self).search_pattern == old(self).search_pattern,
            final(self).scroll_offset == old(self).scroll_offset,
            final(self).filename == old(self).filename,
            final(self).remote_path == old(self).remote_path,
    {
        let row = self.cursor_row;
        let n = self.buffer[row].as_str().unicode_len();
        if self.cursor_col >= n {
            let mut line = self.buffer[row].clone();
            line.push(c);
            self.buffer[row] = line;
        } else {
            let line = string_insert_char(self.buffer[row].as_str(), self.cursor_col, c);
            self.buffer[row] = line;
        }
        self.cursor_col = self.cursor_col + 1;
        self.modified = true;
    }

    /// Deletes the character before the cursor; at a line start it joins
    /// the line onto the previous one.
    pub fn delete_char(&mut self)
        requires
            old(self).wf(),
            old(self).cursor_col <= old(self).cur_line().len(),
        ensures
            final(self).wf(),
            old(self).cursor_col > 0 ==> ({
                &&& final(self).buffer@.len() == old(self).buffer@.len()
                &&& final(self).cur_line() == old(self).cur_line().remove(
                    old(self).cursor_col - 1,
                )
                &&& (forall|j: int|
                    0 <= j < old(self).buffer@.len() && j != old(self).cursor_row ==> final(self).buffer@[j] == old(self).buffer@[j])
                &&& final(self).cursor_row == old(self).cursor_row
                &&& final(self).cursor_col == old(self).cursor_col - 1
                &&& final(self).modified
            }),
            old(self).cursor_col == 0 && old(self).cursor_row > 0 ==> ({
                &&& final(self).buffer@.len() == old(self).buffer@.len() - 1
                &&& final(self).cursor_row == old(self).cursor_row - 1
                &&& final(self).cursor_col == old(self).buffer@[old(self).cursor_row - 1]@.len()
                &&& final(self).cur_line() == old(self).buffer@[old(self).cursor_row - 1]@ + old(self).cur_line()
                &&& (forall|j: int|
                    0 <= j < old(self).cursor_row - 1 ==> final(self).buffer@[j] == old(self).buffer@[j])
                &&& (forall|j: int|
                    old(self).cursor_row <= j < final(self).buffer@.len() ==> final(self).buffer@[j] == old(self).buffer@[j + 1])
                &&& final(self).modified
            }),
            old(self).cursor_col == 0 && old(self).cursor_row == 0 ==> *final(self) == *old(self),
            final(self).mode == old(self).mode,
            final(self).yank_register == old(self).yank_register,
            final(self).status_message == old(self).status_message,
            final(self).should_quit == old(self).should_quit,
            final(self).command_buffer == old(self).command_buffer,
            final(self).search_pattern == old(self).search_pattern,
            final(self).scroll_offset == old(self).scroll_offset,
            final(self).filename == old(self).filename,
            final(self).remote_path == old(self).remote_path,
    {
        let row = self.cursor_row;
        if self.cursor_col > 0 {
            let line = string_remove_char(self.buffer[row].as_str(), self.cursor_col - 1);
            self.buffer[row] = line;
            self.cursor_col = self.cursor_col - 1;
            self.modified = true;
        } else if self.cursor_row > 0 {
            let removed = self.buffer.remove(row);
            self.cursor_row = row - 1;
            let prev_len = self.buffer[self.cursor_row].as_str().unicode_len();
            self.cursor_col = prev_len;
            let mut joined = self.buffer[self.cursor_row].clone();
            joined.append(removed.as_str());
            self.buffer[self.cursor_row] = joined;
            self.modified = true;
        }
    }

    /// Deletes the character under the cursor; in normal mode the cursor
    /// is pulled back onto the new last character if it fell off the end.
    /// A cursor beyond the line leaves everything untouched.
    pub fn delete_char_at_cursor(&mut self)
        requires
            old(self).wf(),
        ensures
            final(self).wf(),
            old(self).cursor_col >= old(self).cur_line().len() ==> *final(self) == *old(self),
            old(self).cursor_col < old(self).cur_line().len() ==> ({
                let new_len = old(self).cur_line().len() - 1;
                &&& final(self).buffer@.len() == old(self).buffer@.len()
                &&& final(self).cur_line() == old(self).cur_line().remove(
                    old(self).cursor_col as int,
                )
                &&& (forall|j: int|
                    0 <= j < old(self).buffer@.len() && j != old(self).cursor_row ==> final(self).buffer@[j] == old(self).buffer@[j])
                &&& final(self).cursor_row == old(self).cursor_row
                &&& final(self).cursor_col as int == (if old(self).mode == EditorMode::Normal
                    && old(self).cursor_col >= new_len && new_len > 0 {
                    new_len - 1
                } else {
                    old(self).cursor_col as int
                })
                &&& final(self).modified
            }),
            final(self).mode == old(self).mode,
            final(self).yank_register == old(self).yank_register,
            final(self).status_message == old(self).status_message,
            final(self).should_quit == old(self).should_quit,
            final(self).command_buffer == old(self).command_buffer,
            final(self).search_pattern == old(self).search_pattern,
            final(self).scroll_offset == old(self).scroll_offset,
            final(self).filename == old(self).filename,
            final(self).remote_path == old(self).remote_path,
    {
        let row = self.cursor_row;
        let line_len = self.buffer[row].as_str().unicode_len();
        if self.cursor_col < line_len {
            let line = string_remove_char(self.buffer[row].as_str(), self.cursor_col);
            self.buffer[row] = line;
            let new_len = line_len - 1;
            self.modified = true;
            if matches!(self.mode, EditorMode::Normal) && self.cursor_col >= new_len && new_len > 0 {
                self.cursor_col = new_len - 1;
            }
        }
    }

    /// Splits the line at the cursor: what follows the cursor opens a
    /// new line below, and the cursor moves to its start.
    pub fn insert_newline(&mut self)
        requires
            old(self).wf(),
            old(self).cursor_col <= old(self).cur_line().len(),
            old(self).buffer@.len() < usize::MAX,
        ensures
            final(self).wf(),
            final(self).buffer@.len() == old(self).buffer@.len() + 1,
            final(self).buffer@[old(self).cursor_row as int]@ == old(self).cur_line().take(
                old(self).cursor_col as int,
            ),
            final(self).buffer@[old(self).cursor_row + 1]@ == old(self).cur_line().skip(
                old(self).cursor_col as int,
            ),
            forall|j: int| 0 <= j < old(self).cursor_row ==> final(self).buffer@[j] == old(self).buffer@[j],
            forall|j: int|
                old(self).cursor_row + 2 <= j < final(self).buffer@.len() ==> final(self).buffer@[j] == old(self).buffer@[j - 1],
            final(self).cursor_row == old(self).cursor_row + 1,
            final(self).cursor_col == 0,
            final(self).modified,
            final(self).mode == old(self).mode,
            final(self).yank_register == old(self).yank_register,
            final(self).status_message == old(self).status_message,
            final(self).should_quit == old(self).should_quit,
            final(self).command_buffer == old(self).command_buffer,
            final(self).search_pattern == old(self).search_pattern,
            final(self).scroll_offset == old(self).scroll_offset,
            final(self).filename == old(self).filename,
            final(self).remote_path == old(self).remote_path,
    {
        let row = self.cursor_row;
        let head = string_take(self.buffer[row].as_str(), self.cursor_col);
        let tail = string_skip(self.buffer[row].as_str(), self.cursor_col);
        self.buffer[row] = head;
        self.buffer.insert(row + 1, tail);
        self.cursor_row = row + 1;
        self.cursor_col = 0;
        self.modified = true;
    }
}

/// Whether a colon command quits the editor: a force quit always, a
/// plain quit only with no unsaved changes.
pub open spec fn command_quits(cmd: Seq<char>, modified: bool) -> bool {
    cmd == "q!"@ || ((cmd == "q"@ || cmd == "quit"@) && !modified)
}

impl EditorState {
    /// Runs one colon command: write and write-quit only announce the
    /// save (the caller does the writing), quit refuses while there are
    /// unsaved changes, force quit never does, and anything else reports
    /// an unknown command.
    pub fn execute_command(&mut self, command: &str)
        ensures
            final(self).should_quit == (old(self).should_quit || command_quits(
                command@,
                old(self).modified,
            )),
            command@ == "w"@ || command@ == "write"@ ==> final(self).status_message@
                == "Saving..."@,
            (command@ == "q"@ || command@ == "quit"@) && old(self).modified ==> final(self).status_message@ == "No write since last change (use :q! to override)"@,
            command@ == "wq"@ || command@ == "x"@ ==> final(self).status_message@
                == "Saving and quitting..."@,
            !(command@ == "w"@ || command@ == "write"@ || command@ == "q"@ || command@ == "quit"@
                || command@ == "q!"@ || command@ == "wq"@ || command@ == "x"@) ==> final(self).status_message@ == "Unknown command: "@ + command@,
            final(self).buffer@ == old(self).buffer@,
            final(self).cursor_row == old(self).cursor_row,
            final(self).cursor_col == old(self).cursor_col,
            final(self).mode == old(self).mode,
            final(self).yank_register == old(self).yank_register,
            final(self).command_buffer == old(self).command_buffer,
            final(self).search_pattern == old(self).search_pattern,
            final(self).scroll_offset == old(self).scroll_offset,
            final(self).filename == old(self).filename,
            final(self).remote_path == old(self).remote_path,
            final(self).modified == old(self).modified,
    {
        proof {
            reveal_strlit("w");
            reveal_strlit("write");
            reveal_strlit("q");
            reveal_strlit("quit");
            reveal_strlit("q!");
            reveal_strlit("wq");
            reveal_strlit("x");
            assert("w"@.len() == 1 && "write"@.len() == 5 && "q"@.len() == 1 && "quit"@.len()
                == 4 && "q!"@.len() == 2 && "wq"@.len() == 2 && "x"@.len() == 1);
            assert("w"@[0] == 'w' && "q"@[0] == 'q' && "x"@[0] == 'x');
            assert("q!"@[0] == 'q' && "wq"@[0] == 'w');
            assert("w"@ != "write"@ && "w"@ != "q"@ && "w"@ != "quit"@ && "w"@ != "q!"@ && "w"@
                != "wq"@ && "w"@ != "x"@);
            assert("write"@ != "q"@ && "write"@ != "quit"@ && "write"@ != "q!"@ && "write"@
                != "wq"@ && "write"@ != "x"@);
            assert("q"@ != "quit"@ && "q"@ != "q!"@ && "q"@ != "wq"@ && "q"@ != "x"@);
            assert("quit"@ != "q!"@ && "quit"@ != "wq"@ && "quit"@ != "x"@);
            assert("q!"@ != "wq"@ && "q!"@ != "x"@);
            assert("wq"@ != "x"@);
        }
        if str_eq(command, "w") || str_eq(command, "write") {
            self.status_message = String::from_str("Saving...");
        } else if str_eq(command, "q") || str_eq(command, "quit") {
            if self.modified {
                self.status_message = String::from_str(
                    "No write since last change (use :q! to override)",
                );
            } else {
                self.should_quit = true;
            }
        } else if str_eq(command, "q!") {
            self.should_quit = true;
        } else if str_eq(command, "wq") || str_eq(command, "x") {
            self.status_message = String::from_str("Saving and quitting...");
        } else {
            let mut m = String::from_str("Unknown command: ");
            m.append(command);
            self.status_message = m;
        }
    }

    /// Keeps the cursor inside the viewport with a three-line margin:
    /// scrolls up when the cursor comes too close to the top, then down
    /// when it leaves through the bottom.
    pub fn update_scroll(&mut self, viewport_height: usize)
        requires
            viewport_height >= 3,
            old(self).cursor_row + viewport_height <= usize::MAX,
            old(self).scroll_offset + viewport_height <= usize::MAX,
        ensures
            ({
                let row = old(self).cursor_row as int;
                let s1: int = if row < old(self).scroll_offset + 3 {
                    if row >= 3 {
                        row - 3
                    } else {
                        0
                    }
                } else {
                    old(self).scroll_offset as int
                };
                let s2: int = if row >= s1 + viewport_height - 3 {
                    row + 3 - viewport_height + 1
                } else {
                    s1
                };
                final(self).scroll_offset as int == s2
            }),
            final(self).buffer@ == old(self).buffer@,
            final(self).cursor_row == old(self).cursor_row,
            final(self).cursor_col == old(self).cursor_col,
            final(self).mode == old(self).mode,
            final(self).yank_register == old(self).yank_register,
            final(self).status_message == old(self).status_message,
            final(self).command_buffer == old(self).command_buffer,
            final(self).search_pattern == old(self).search_pattern,
            final(self).filename == old(self).filename,
            final(self).remote_path == old(self).remote_path,
            final(self).modified == old(self).modified,
            final(self).should_quit == old(self).should_quit,
    {
        let margin: usize = 3;
        if self.cursor_row < self.scroll_offset + margin {
            if self.cursor_row >= margin {
                self.scroll_offset = self.cursor_row - margin;
            } else {
                self.scroll_offset = 0;
            }
        }
        if self.cursor_row >= self.scroll_offset + viewport_height - margin {
            self.scroll_offset = self.cursor_row + margin - viewport_height + 1;
        }
    }
}


/// The mode a key in normal mode switches the editor into.
pub open spec fn normal_mode_after(key: crate::keys::Key) -> EditorMode {
    if key == crate::keys::Key::Char('i') || key == crate::keys::Key::Char('a') || key
        == crate::keys::Key::Char('o') {
        EditorMode::Insert
    } else if key == crate::keys::Key::Char(':') {
        EditorMode::Command
    } else if key == crate::keys::Key::Char('/') {
        EditorMode::Search
    } else {
        EditorMode::Normal
    }
}

/// Interprets one key in normal mode: cursor motion, line operations,
/// the mode switches, and Ctrl-q to quit.
pub fn handle_normal_mode(editor: &mut EditorState, key: crate::keys::Key, ctrl: bool)
    requires
        old(editor).wf(),
        old(editor).mode == EditorMode::Normal,
        old(editor).buffer@.len() + old(editor).yank_register@.len() + 1 <= usize::MAX,
        old(editor).cursor_col < usize::MAX,
    ensures
        final(editor).wf(),
        ctrl && key == crate::keys::Key::Char('q') ==> final(editor).should_quit,
        !(ctrl && key == crate::keys::Key::Char('q')) ==> final(editor).mode == normal_mode_after(key) && final(editor).should_quit == old(editor).should_quit,
        final(editor).filename == old(editor).filename,
        final(editor).remote_path == old(editor).remote_path,
        !(key == crate::keys::Key::Char('d') || key == crate::keys::Key::Char('x') || key
            == crate::keys::Key::Char('p') || key == crate::keys::Key::Char('o')) ==> final(editor).buffer@ == old(editor).buffer@,
        final(editor).modified == old(editor).modified || (key == crate::keys::Key::Char('d')
            || key == crate::keys::Key::Char('x') || key == crate::keys::Key::Char('p') || key
            == crate::keys::Key::Char('o')),
{
    if ctrl && matches!(key, crate::keys::Key::Char('q')) {
        editor.should_quit = true;
        return ;
    }
    match key {
        crate::keys::Key::Char('h') | crate::keys::Key::Left => editor.move_cursor_left(),
        crate::keys::Key::Char('j') | crate::keys::Key::Down => editor.move_cursor_down(),
        crate::keys::Key::Char('k') | crate::keys::Key::Up => editor.move_cursor_up(),
        crate::keys::Key::Char('l') | crate::keys::Key::Right => editor.move_cursor_right(),
        crate::keys::Key::Char('0') => editor.move_to_line_start(),
        crate::keys::Key::Char('$') => editor.move_to_line_end(),
        crate::keys::Key::Char('g') => editor.move_to_buffer_start(),
        crate::keys::Key::Char('G') => editor.move_to_buffer_end(),
        crate::keys::Key::Char('i') => {
            editor.mode = EditorMode::Insert;
            editor.status_message = String::from_str("Insert mode");
        },
        crate::keys::Key::Char('a') => {
            editor.mode = EditorMode::Insert;
            editor.move_cursor_right();
            editor.status_message = String::from_str("Insert mode");
        },
        crate::keys::Key::Char('o') => {
            editor.mode = EditorMode::Insert;
            editor.move_to_line_end();
            editor.insert_newline();
            editor.status_message = String::from_str("Insert mode");
        },
        crate::keys::Key::Char('d') => editor.delete_line(),
        crate::keys::Key::Char('y') => editor.yank_line(),
        crate::keys::Key::Char('p') => editor.paste_below(),
        crate::keys::Key::Char('x') => editor.delete_char_at_cursor(),
        crate::keys::Key::Char(':') => {
            editor.mode = EditorMode::Command;
            editor.command_buffer = String::new();
        },
        crate::keys::Key::Char('/') => {
            editor.mode = EditorMode::Search;
            editor.command_buffer = String::new();
        },
        _ => {},
    }
}

/// Interprets one key in insert mode: typing, deleting, line breaks,
/// arrow motion, and Esc back to normal mode.
pub fn handle_insert_mode(editor: &mut EditorState, key: crate::keys::Key)
    requires
        old(editor).wf(),
        old(editor).mode == EditorMode::Insert,
        old(editor).cursor_col <= old(editor).cur_line().len(),
        old(editor).cursor_col < usize::MAX,
        old(editor).buffer@.len() < usize::MAX,
    ensures
        final(editor).wf(),
        final(editor).mode == (if key == crate::keys::Key::Esc {
            EditorMode::Normal
        } else {
            EditorMode::Insert
        }),
        final(editor).should_quit == old(editor).should_quit,
        final(editor).filename == old(editor).filename,
        final(editor).remote_path == old(editor).remote_path,
{
    match key {
        crate::keys::Key::Esc => {
            editor.mode = EditorMode::Normal;
            let line_len = editor.buffer[editor.cursor_row].as_str().unicode_len();
            if editor.cursor_col > 0 && editor.cursor_col >= line_len {
                editor.cursor_col = editor.cursor_col - 1;
            }
            editor.status_message = String::from_str("Normal mode");
        },
        crate::keys::Key::Char(c) => editor.insert_char(c),
        crate::keys::Key::Backspace => editor.delete_char(),
        crate::keys::Key::Enter => editor.insert_newline(),
        crate::keys::Key::Left => editor.move_cursor_left(),
        crate::keys::Key::Right => editor.move_cursor_right(),
        crate::keys::Key::Up => editor.move_cursor_up(),
        crate::keys::Key::Down => editor.move_cursor_down(),
        _ => {},
    }
}

/// Interprets one key while a colon command or search pattern is being
/// typed: editing the little buffer, Esc to abandon it, Enter to run it.
pub fn handle_command_mode(editor: &mut EditorState, key: crate::keys::Key)
    requires
        old(editor).wf(),
        old(editor).mode == EditorMode::Command || old(editor).mode == EditorMode::Search,
    ensures
        final(editor).wf(),
        key == crate::keys::Key::Esc ==> final(editor).mode == EditorMode::Normal && final(editor).command_buffer@.len() == 0 && final(editor).should_quit == old(editor).should_quit,
        key matches crate::keys::Key::Char(c) ==> final(editor).command_buffer@ == old(editor).command_buffer@.push(c) && final(editor).mode == old(editor).mode && final(editor).should_quit == old(editor).should_quit,
        key == crate::keys::Key::Backspace ==> final(editor).mode == old(editor).mode && final(editor).should_quit == old(editor).should_quit && (old(editor).command_buffer@.len() > 0
            ==> final(editor).command_buffer@ == old(editor).command_buffer@.drop_last()) && (old(editor).command_buffer@.len() == 0 ==> final(editor).command_buffer@.len() == 0),
        key == crate::keys::Key::Enter ==> final(editor).mode == EditorMode::Normal && final(editor).command_buffer@.len() == 0 && final(editor).should_quit == (old(editor).should_quit
            || command_quits(old(editor).command_buffer@, old(editor).modified)),
        final(editor).buffer@ == old(editor).buffer@,
        final(editor).filename == old(editor).filename,
        final(editor).remote_path == old(editor).remote_path,
        final(editor).modified == old(editor).modified,
{
    match key {
        crate::keys::Key::Esc => {
            editor.mode = EditorMode::Normal;
            editor.command_buffer = String::new();
            editor.status_message = String::from_str("Normal mode");
        },
        crate::keys::Key::Char(c) => {
            editor.command_buffer.push(c);
        },
        crate::keys::Key::Backspace => {
            let popped = crate::text::string_drop_last(editor.command_buffer.as_str());
            editor.command_buffer = popped;
        },
        crate::keys::Key::Enter => {
            let command = editor.command_buffer.clone();
            editor.execute_command(command.as_str());
            editor.command_buffer = String::new();
            editor.mode = EditorMode::Normal;
        },
        _ => {},
    }
}

} // verus!
