//! The multi-line note editor: a list of lines and a cursor measured in
//! characters, with cursor motion that follows soft-wrapped rows.
use vstd::prelude::*;
use vstd::string::*;

use crate::text::chars_of;
use crate::text::string_from_chars;

verus! {

broadcast use vstd::string::group_string_axioms;

/// State of the note editor for one verse.
pub struct NoteEditorState {
    pub book: String,
    pub chapter: u32,
    pub verse: u32,
    pub lines: Vec<String>,
    pub cursor_row: usize,
    pub cursor_col: usize,
    pub scroll_offset: usize,
    pub last_width: usize,
}

/// The editable part of the editor: its lines and cursor.
pub struct EditorModel {
    pub lines: Seq<Seq<char>>,
    pub row: int,
    pub col: int,
}

/// Characters of each line.
pub open spec fn lines_of(v: Seq<String>) -> Seq<Seq<char>> {
    v.map_values(|s: String| s@)
}

/// The cursor is on an existing line, at most one past its last character.
pub open spec fn model_wf(m: EditorModel) -> bool {
    &&& m.lines.len() > 0
    &&& 0 <= m.row < m.lines.len()
    &&& 0 <= m.col <= m.lines[m.row].len()
}

/// The smaller of two integers.
pub open spec fn min_int(a: int, b: int) -> int {
    if a <= b {
        a
    } else {
        b
    }
}

/// Typing `c`: inserted at the cursor (at the line's end when the cursor is
/// past it), and the cursor moves one right.
pub open spec fn spec_insert_char(m: EditorModel, c: char) -> EditorModel {
    let line = m.lines[m.row];
    let p = min_int(m.col, line.len() as int);
    EditorModel { lines: m.lines.update(m.row, line.insert(p, c)), row: m.row, col: m.col + 1 }
}

/// Enter: the line splits at the cursor and the cursor starts the new line.
pub open spec fn spec_insert_newline(m: EditorModel) -> EditorModel {
    let line = m.lines[m.row];
    let p = min_int(m.col, line.len() as int);
    EditorModel {
        lines: m.lines.update(m.row, line.subrange(0, p)).insert(
            m.row + 1,
            line.subrange(p, line.len() as int),
        ),
        row: m.row + 1,
        col: 0,
    }
}

/// Backspace: deletes the character before the cursor; at the start of a
/// line, joins the line to the previous one.
pub open spec fn spec_delete_char(m: EditorModel) -> EditorModel {
    if m.col > 0 {
        let line = m.lines[m.row];
        let new_line = if m.col <= line.len() {
            line.remove(m.col - 1)
        } else {
            line
        };
        EditorModel { lines: m.lines.update(m.row, new_line), row: m.row, col: m.col - 1 }
    } else if m.row > 0 {
        let prev = m.lines[m.row - 1];
        EditorModel {
            lines: m.lines.remove(m.row).update(m.row - 1, prev + m.lines[m.row]),
            row: m.row - 1,
            col: prev.len() as int,
        }
    } else {
        m
    }
}

/// Left arrow.
pub open spec fn spec_move_left(m: EditorModel) -> EditorModel {
    if m.col > 0 {
        EditorModel { col: m.col - 1, ..m }
    } else {
        m
    }
}

/// Right arrow: stops at the end of the line.
pub open spec fn spec_move_right(m: EditorModel) -> EditorModel {
    if m.col < m.lines[m.row].len() {
        EditorModel { col: m.col + 1, ..m }
    } else {
        m
    }
}

/// Soft-wrapped row of column `col` at wrap width `w` (0: no wrapping).
pub open spec fn visual_row(col: int, w: int) -> int {
    if w > 0 {
        col / w
    } else {
        0
    }
}

/// Column of `col` within its soft-wrapped row.
pub open spec fn col_in_row(col: int, w: int) -> int {
    if w > 0 {
        col % w
    } else {
        col
    }
}

/// Number of soft-wrapped rows a line of `len` characters takes (at least one).
pub open spec fn wrapped_rows(len: int, w: int) -> int {
    if w > 0 && len > 0 {
        len / w + if len % w != 0 {
            1int
        } else {
            0int
        }
    } else {
        1
    }
}

/// Up arrow at wrap width `w`: to the same column of the row above, within
/// the line or on the last row of the previous line, never past a line's end.
pub open spec fn spec_move_up(m: EditorModel, w: int) -> EditorModel {
    let vr = visual_row(m.col, w);
    let civ = col_in_row(m.col, w);
    if vr > 0 {
        EditorModel { col: min_int((vr - 1) * w + civ, m.lines[m.row].len() as int), ..m }
    } else if m.row > 0 {
        let prev_len = m.lines[m.row - 1].len() as int;
        let last = if w > 0 && prev_len > 0 {
            (prev_len - 1) / w
        } else {
            0
        };
        EditorModel { lines: m.lines, row: m.row - 1, col: min_int(last * w + civ, prev_len) }
    } else {
        m
    }
}

/// Down arrow at wrap width `w`: to the same column of the row below, within
/// the line or on the first row of the next line, never past a line's end.
pub open spec fn spec_move_down(m: EditorModel, w: int) -> EditorModel {
    let len = m.lines[m.row].len() as int;
    let vr = visual_row(m.col, w);
    let civ = col_in_row(m.col, w);
    if vr + 1 < wrapped_rows(len, w) {
        EditorModel { col: min_int((vr + 1) * w + civ, len), ..m }
    } else if m.row + 1 < m.lines.len() {
        EditorModel {
            lines: m.lines,
            row: m.row + 1,
            col: min_int(civ, m.lines[m.row + 1].len() as int),
        }
    } else {
        m
    }
}

/// `s` without one trailing carriage return.
pub open spec fn strip_cr(s: Seq<char>) -> Seq<char> {
    if s.len() > 0 && s.last() == '\r' {
        s.drop_last()
    } else {
        s
    }
}

/// The lines of `s` as `str::lines` gives them: split at `\n`, a `\r` just
/// before a `\n` dropped, and no empty line after a final `\n`.
pub open spec fn split_lines(s: Seq<char>) -> Seq<Seq<char>>
    decreases s.len(),
{
    if s.len() == 0 {
        Seq::empty()
    } else {
        match crate::text::find_spec(s, seq!['\n']) {
            Some(i) => if 0 <= i && i + 1 <= s.len() {
                seq![strip_cr(s.subrange(0, i))] + split_lines(s.subrange(i + 1, s.len() as int))
            } else {
                seq![s]
            },
            None => seq![s],
        }
    }
}

/// The lines joined with `\n` between them.
pub open spec fn join_lines(lines: Seq<Seq<char>>) -> Seq<char>
    decreases lines.len(),
{
    if lines.len() == 0 {
        Seq::empty()
    } else if lines.len() == 1 {
        lines[0]
    } else {
        join_lines(lines.drop_last()) + seq!['\n'] + lines.last()
    }
}

/// The lines a new editor starts with for the existing note text.
pub open spec fn initial_lines(existing: Option<Seq<char>>) -> Seq<Seq<char>> {
    match existing {
        Some(t) => if t.len() > 0 {
            split_lines(t)
        } else {
            seq![Seq::<char>::empty()]
        },
        None => seq![Seq::<char>::empty()],
    }
}

proof fn lemma_split_lines_nonempty(s: Seq<char>)
    requires
        s.len() > 0,
    ensures
        split_lines(s).len() > 0,
{
}

/// Splits `s` into lines as `str::lines` does.
pub(crate) fn split_lines_exec(s: &Vec<char>) -> (r: Vec<String>)
    ensures
        lines_of(r@) == split_lines(s@),
{
    let ghost nl = seq!['\n'];
    let mut out: Vec<String> = Vec::new();
    let mut current: Vec<char> = Vec::new();
    let mut start: usize = 0;
    let mut i: usize = 0;
    assert(s@.subrange(0, s@.len() as int) =~= s@);
    assert(lines_of(out@) =~= Seq::<Seq<char>>::empty());
    while i < s.len()
        invariant
            nl == seq!['\n'],
            start <= i <= s.len(),
            current@ == s@.subrange(start as int, i as int),
            forall|m: int| start <= m < i ==> s@[m] != '\n',
            lines_of(out@) + split_lines(s@.subrange(start as int, s@.len() as int)) == split_lines(s@),
        decreases s.len() - i,
    {
        if s[i] == '\n' {
            let ghost t = s@.subrange(start as int, s@.len() as int);
            let ghost j = (i - start) as int;
            proof {
                assert forall|m: int| 0 <= m < j implies !crate::text::occurs_at(t, nl, m) by {
                    assert(t.subrange(m, m + 1)[0] == s@[start + m]);
                }
                assert(t.subrange(j, j + 1) =~= nl);
                crate::text::lemma_find_is(t, nl, j);
                assert(t.subrange(0, j) =~= current@);
                assert(t.subrange(j + 1, t.len() as int) =~= s@.subrange(i + 1, s@.len() as int));
            }
            let mut line = current;
            if line.len() > 0 && line[line.len() - 1] == '\r' {
                line.pop();
            }
            let ghost before = lines_of(out@);
            out.push(string_from_chars(line.as_slice()));
            proof {
                assert(lines_of(out@) =~= before.push(strip_cr(current@)));
                assert(before.push(strip_cr(current@)) + split_lines(
                    s@.subrange(i + 1, s@.len() as int),
                ) =~= before + (seq![strip_cr(current@)] + split_lines(
                    s@.subrange(i + 1, s@.len() as int),
                )));
            }
            current = Vec::new();
            start = i + 1;
        } else {
            current.push(s[i]);
        }
        i = i + 1;
    }
    if current.len() > 0 {
        let ghost t = s@.subrange(start as int, s@.len() as int);
        proof {
            assert(t =~= current@);
            assert forall|m: int| 0 <= m implies !crate::text::occurs_at(t, nl, m) by {
                if 0 <= m && m + 1 <= t.len() {
                    assert(t.subrange(m, m + 1)[0] == s@[start + m]);
                }
            }
            crate::text::lemma_find_none(t, nl);
        }
        let ghost before = lines_of(out@);
        out.push(string_from_chars(current.as_slice()));
        assert(lines_of(out@) =~= before + seq![current@]);
    } else {
        assert(s@.subrange(start as int, s@.len() as int).len() == 0);
        assert(lines_of(out@) + Seq::<Seq<char>>::empty() =~= lines_of(out@));
    }
    out
}

impl NoteEditorState {
    /// The lines and cursor.
    pub open spec fn model(&self) -> EditorModel {
        EditorModel {
            lines: lines_of(self.lines@),
            row: self.cursor_row as int,
            col: self.cursor_col as int,
        }
    }

    /// Everything but the lines and cursor is the same in `self` and `other`.
    pub open spec fn same_frame(&self, other: &Self) -> bool {
        &&& self.book@ == other.book@
        &&& self.chapter == other.chapter
        &&& self.verse == other.verse
        &&& self.scroll_offset == other.scroll_offset
        &&& self.last_width == other.last_width
    }

    /// An editor for the note on `book chapter:verse`, starting with the
    /// lines of the existing note (one empty line when there is none), the
    /// cursor at the start and a wrap width of 80.
    pub fn new(book: String, chapter: u32, verse: u32, existing: Option<&str>) -> (e: Self)
        ensures
            e.model() == (EditorModel {
                lines: initial_lines(
                    match existing {
                        Some(t) => Some(t@),
                        None => None,
                    },
                ),
                row: 0,
                col: 0,
            }),
            model_wf(e.model()),
            e.book@ == book@,
            e.chapter == chapter,
            e.verse == verse,
            e.scroll_offset == 0,
            e.last_width == 80,
    {
        let lines = match existing {
            Some(text) => {
                let chars = chars_of(text);
                if chars.len() > 0 {
                    proof {
                        lemma_split_lines_nonempty(chars@);
                    }
                    split_lines_exec(&chars)
                } else {
                    let mut v: Vec<String> = Vec::new();
                    v.push(String::new());
                    assert(lines_of(v@) =~= seq![Seq::<char>::empty()]);
                    v
                }
            },
            None => {
                let mut v: Vec<String> = Vec::new();
                v.push(String::new());
                assert(lines_of(v@) =~= seq![Seq::<char>::empty()]);
                v
            },
        };
        Self {
            book,
            chapter,
            verse,
            lines,
            cursor_row: 0,
            cursor_col: 0,
            scroll_offset: 0,
            last_width: 80,
        }
    }

    fn line_chars(&self, row: usize) -> (v: Vec<char>)
        requires
            row < self.lines.len(),
        ensures
            v@ == self.model().lines[row as int],
    {
        chars_of(self.lines[row].as_str())
    }

    fn set_line(&mut self, row: usize, v: &Vec<char>)
        requires
            row < old(self).lines.len(),
        ensures
            final(self).model().lines == old(self).model().lines.update(row as int, v@),
            final(self).cursor_row == old(self).cursor_row,
            final(self).cursor_col == old(self).cursor_col,
            final(self).same_frame(old(self)),
    {
        let s = string_from_chars(v.as_slice());
        self.lines.set(row, s);
        assert(lines_of(self.lines@) =~= lines_of(old(self).lines@).update(row as int, v@));
    }

    /// Types `c` at the cursor.
    pub fn insert_char(&mut self, c: char)
        requires
            old(self).cursor_row < old(self).lines.len(),
            old(self).cursor_col < usize::MAX,
        ensures
            final(self).model() == spec_insert_char(old(self).model(), c),
            final(self).same_frame(old(self)),
    {
        let row = self.cursor_row;
        let mut line = self.line_chars(row);
        let p = if self.cursor_col <= line.len() {
            self.cursor_col
        } else {
            line.len()
        };
        line.insert(p, c);
        self.set_line(row, &line);
        self.cursor_col = self.cursor_col + 1;
    }

    /// Splits the line at the cursor; the cursor moves to the start of the
    /// new line.
    pub fn insert_newline(&mut self)
        requires
            old(self).cursor_row < old(self).lines.len(),
        ensures
            final(self).model() == spec_insert_newline(old(self).model()),
            final(self).same_frame(old(self)),
    {
        let row = self.cursor_row;
        let line = self.line_chars(row);
        let p = if self.cursor_col <= line.len() {
            self.cursor_col
        } else {
            line.len()
        };
        let head = crate::text::subvec(&line, 0, p);
        let tail = crate::text::subvec(&line, p, line.len());
        self.set_line(row, &head);
        let ghost mid = lines_of(self.lines@);
        assert(self.lines@.len() == mid.len());
        assert(mid.len() == old(self).model().lines.len());
        self.lines.insert(row + 1, string_from_chars(tail.as_slice()));
        assert(lines_of(self.lines@) =~= mid.insert(row + 1, tail@));
        self.cursor_row = row + 1;
        self.cursor_col = 0;
    }

    /// Deletes the character before the cursor, or joins the line to the
    /// previous one when the cursor is at the start of a line.
    pub fn delete_char(&mut self)
        requires
            old(self).cursor_col > 0 || old(self).cursor_row > 0 ==> old(self).cursor_row < old(
                self,
            ).lines.len(),
        ensures
            final(self).model() == spec_delete_char(old(self).model()),
            final(self).same_frame(old(self)),
    {
        if self.cursor_col > 0 {
            let row = self.cursor_row;
            let mut line = self.line_chars(row);
            if self.cursor_col <= line.len() {
                line.remove(self.cursor_col - 1);
            }
            self.set_line(row, &line);
            self.cursor_col = self.cursor_col - 1;
        } else if self.cursor_row > 0 {
            let row = self.cursor_row;
            let ghost m = self.model();
            let removed = self.lines.remove(row);
            assert(lines_of(self.lines@) =~= m.lines.remove(row as int));
            let mut prev = self.line_chars(row - 1);
            let prev_len = prev.len();
            let tail = chars_of(removed.as_str());
            crate::text::extend_chars(&mut prev, &tail);
            self.set_line(row - 1, &prev);
            self.cursor_row = row - 1;
            self.cursor_col = prev_len;
        }
    }

    /// Moves the cursor one character left, if it is not at the line start.
    pub fn move_cursor_left(&mut self)
        ensures
            final(self).model() == spec_move_left(old(self).model()),
            final(self).same_frame(old(self)),
            final(self).lines@ == old(self).lines@,
    {
        if self.cursor_col > 0 {
            self.cursor_col = self.cursor_col - 1;
        }
    }

    /// Moves the cursor one character right, if it is not at the line end.
    pub fn move_cursor_right(&mut self)
        requires
            old(self).cursor_row < old(self).lines.len(),
        ensures
            final(self).model() == spec_move_right(old(self).model()),
            final(self).same_frame(old(self)),
            final(self).lines@ == old(self).lines@,
    {
        let len = self.lines[self.cursor_row].as_str().unicode_len();
        if self.cursor_col < len {
            self.cursor_col = self.cursor_col + 1;
        }
    }

    /// Moves the cursor one wrapped row up, for text wrapped at `width`
    /// columns (0: no wrapping).
    pub fn move_cursor_up(&mut self, width: usize)
        requires
            forall|i: int| 0 <= i < old(self).lines.len() ==> #[trigger] old(self).lines@[i]@.len() + width <= usize::MAX,
            old(self).cursor_row <= old(self).lines.len(),
            visual_row(old(self).cursor_col as int, width as int) > 0 ==> old(self).cursor_row < old(
                self,
            ).lines.len(),
        ensures
            final(self).model() == spec_move_up(old(self).model(), width as int),
            final(self).same_frame(old(self)),
            final(self).lines@ == old(self).lines@,
    {
        let col = self.cursor_col;
        let vr = if width > 0 {
            col / width
        } else {
            0
        };
        let civ = if width > 0 {
            col % width
        } else {
            col
        };
        proof {
            if width > 0 {
                lemma_div_mod_parts(col as int, width as int);
            }
        }
        if vr > 0 {
            assert((vr - 1) * width + civ <= col) by (nonlinear_arith)
                requires
                    vr * width + civ == col,
                    vr > 0,
            ;
            let target = (vr - 1) * width + civ;
            let len = self.lines[self.cursor_row].as_str().unicode_len();
            self.cursor_col = if target <= len {
                target
            } else {
                len
            };
        } else if self.cursor_row > 0 {
            let row = self.cursor_row - 1;
            let prev_len = self.lines[row].as_str().unicode_len();
            assert(self.lines@[row as int]@.len() + width <= usize::MAX);
            let last = if width > 0 && prev_len > 0 {
                (prev_len - 1) / width
            } else {
                0
            };
            proof {
                if width > 0 && prev_len > 0 {
                    lemma_div_mod_parts((prev_len - 1) as int, width as int);
                    assert(last * width <= prev_len - 1) by (nonlinear_arith)
                        requires
                            last * width + (prev_len - 1) % (width as int) == prev_len - 1,
                            (prev_len - 1) % (width as int) >= 0,
                    ;
                }
            }
            let target = last * width + civ;
            self.cursor_row = row;
            self.cursor_col = if target <= prev_len {
                target
            } else {
                prev_len
            };
        }
    }

    /// Moves the cursor one wrapped row down, for text wrapped at `width`
    /// columns (0: no wrapping).
    pub fn move_cursor_down(&mut self, width: usize)
        requires
            forall|i: int| 0 <= i < old(self).lines.len() ==> #[trigger] old(self).lines@[i]@.len() + width <= usize::MAX,
            old(self).cursor_row < old(self).lines.len(),
            width == 0 || old(self).cursor_col / width < usize::MAX,
        ensures
            final(self).model() == spec_move_down(old(self).model(), width as int),
            final(self).same_frame(old(self)),
            final(self).lines@ == old(self).lines@,
    {
        let col = self.cursor_col;
        let line_len = self.lines[self.cursor_row].as_str().unicode_len();
        assert(self.lines@[self.cursor_row as int]@.len() + width <= usize::MAX);
        let vr = if width > 0 {
            col / width
        } else {
            0
        };
        let total = if width > 0 && line_len > 0 {
            line_len / width + if line_len % width != 0 {
                1
            } else {
                0
            }
        } else {
            1
        };
        let civ = if width > 0 {
            col % width
        } else {
            col
        };
        proof {
            if width > 0 {
                lemma_div_mod_parts(col as int, width as int);
                lemma_div_mod_parts(line_len as int, width as int);
            }
        }
        if vr + 1 < total {
            assert((vr + 1) * width + civ < line_len + width) by (nonlinear_arith)
                requires
                    width > 0,
                    vr + 1 < total,
                    total == (line_len as int) / (width as int) + if (line_len as int) % (width as int) != 0 {
                        1int
                    } else {
                        0int
                    },
                    ((line_len as int) / (width as int)) * width + (line_len as int) % (width as int) == line_len,
                    0 <= (line_len as int) % (width as int) < width,
                    0 <= civ < width,
            ;
            let target = (vr + 1) * width + civ;
            self.cursor_col = if target <= line_len {
                target
            } else {
                line_len
            };
        } else if self.cursor_row + 1 < self.lines.len() {
            let row = self.cursor_row + 1;
            let next_len = self.lines[row].as_str().unicode_len();
            self.cursor_row = row;
            self.cursor_col = if civ <= next_len {
                civ
            } else {
                next_len
            };
        }
    }

    /// The note text: the lines joined with `\n`.
    pub fn to_text(&self) -> (s: String)
        ensures
            s@ == join_lines(self.model().lines),
    {
        let mut out: Vec<char> = Vec::new();
        let mut i: usize = 0;
        while i < self.lines.len()
            invariant
                i <= self.lines.len(),
                out@ == join_lines(lines_of(self.lines@).subrange(0, i as int)),
            decreases self.lines.len() - i,
        {
            let ghost before = out@;
            if i > 0 {
                out.push('\n');
            }
            let line = chars_of(self.lines[i].as_str());
            crate::text::extend_chars(&mut out, &line);
            proof {
                let ls = lines_of(self.lines@);
                assert(ls.subrange(0, i + 1).drop_last() =~= ls.subrange(0, i as int));
                if i == 0 {
                    assert(out@ =~= ls.subrange(0, 1)[0]);
                }
            }
            i = i + 1;
        }
        assert(lines_of(self.lines@).subrange(0, self.lines@.len() as int) =~= lines_of(self.lines@));
        string_from_chars(out.as_slice())
    }
}

proof fn lemma_div_mod_parts(x: int, d: int)
    requires
        d > 0,
        x >= 0,
    ensures
        (x / d) * d + x % d == x,
        0 <= x % d < d,
        x / d >= 0,
{
    vstd::arithmetic::div_mod::lemma_fundamental_div_mod(x, d);
    vstd::arithmetic::div_mod::lemma_mod_bound(x, d);
    vstd::arithmetic::div_mod::lemma_div_pos_is_pos(x, d);
    assert((x / d) * d == d * (x / d)) by (nonlinear_arith);
}

/// Every editing step keeps the cursor on an existing line and within it.
pub proof fn lemma_editing_keeps_cursor_valid(m: EditorModel, c: char, w: int)
    requires
        model_wf(m),
        w >= 0,
    ensures
        model_wf(spec_insert_char(m, c)),
        model_wf(spec_insert_newline(m)),
        model_wf(spec_delete_char(m)),
        model_wf(spec_move_left(m)),
        model_wf(spec_move_right(m)),
        model_wf(spec_move_up(m, w)),
        model_wf(spec_move_down(m, w)),
{
    let line = m.lines[m.row];
    let ins = spec_insert_char(m, c);
    assert(ins.lines[m.row] == line.insert(m.col, c));
    let nl = spec_insert_newline(m);
    assert(nl.lines[m.row + 1] == line.subrange(m.col, line.len() as int));
    let up = spec_move_up(m, w);
    if w > 0 {
        lemma_div_mod_parts(m.col, w);
    }
    let down = spec_move_down(m, w);
    if w > 0 {
        lemma_div_mod_parts(m.col, w);
    }
}

/// Typing a character and then deleting it restores the lines and cursor.
pub proof fn lemma_insert_then_delete(m: EditorModel, c: char)
    requires
        model_wf(m),
    ensures
        spec_delete_char(spec_insert_char(m, c)) == m,
{
    let line = m.lines[m.row];
    let after = spec_insert_char(m, c);
    assert(after.lines[m.row] == line.insert(m.col, c));
    assert(line.insert(m.col, c).remove(m.col) =~= line);
    assert(after.lines.update(m.row, line) =~= m.lines);
}

/// Breaking a line and then deleting at the start of the new line joins
/// it back: the lines and cursor are restored.
pub proof fn lemma_newline_then_delete(m: EditorModel)
    requires
        model_wf(m),
    ensures
        spec_delete_char(spec_insert_newline(m)) == m,
{
    let line = m.lines[m.row];
    let after = spec_insert_newline(m);
    let head = line.subrange(0, m.col);
    let tail = line.subrange(m.col, line.len() as int);
    assert(after.lines[m.row] == head);
    assert(after.lines[m.row + 1] == tail);
    assert(head + tail =~= line);
    assert(after.lines.remove(m.row + 1) =~= m.lines.update(m.row, head));
    assert(after.lines.remove(m.row + 1).update(m.row, head + tail) =~= m.lines);
}

/// Up from the first soft-wrapped row of a line goes to the previous line,
/// keeping the lines; when the previous line fits in one row (shorter than
/// the width), the cursor keeps its column, or stops at that line's end
/// when the line is shorter than the column.
pub proof fn lemma_up_to_previous_line(m: EditorModel, w: int)
    requires
        model_wf(m),
        w > 0,
        m.row > 0,
        m.col < w,
    ensures
        spec_move_up(m, w).lines == m.lines,
        spec_move_up(m, w).row == m.row - 1,
        spec_move_up(m, w).col <= m.lines[m.row - 1].len(),
        m.lines[m.row - 1].len() < w ==> spec_move_up(m, w).col == if m.col <= m.lines[m.row - 1].len() {
            m.col
        } else {
            m.lines[m.row - 1].len() as int
        },
{
    assert(m.col / w == 0) by (nonlinear_arith)
        requires
            0 <= m.col < w,
    ;
    assert(m.col % w == m.col) by (nonlinear_arith)
        requires
            0 <= m.col < w,
    ;
    assert(visual_row(m.col, w) == 0 && col_in_row(m.col, w) == m.col);
    let prev_len = m.lines[m.row - 1].len() as int;
    if prev_len > 0 && prev_len < w {
        assert((prev_len - 1) / w == 0) by (nonlinear_arith)
            requires
                0 <= prev_len - 1 < w,
        ;
        assert(((prev_len - 1) / w) * w == 0) by (nonlinear_arith)
            requires
                (prev_len - 1) / w == 0,
        ;
    }
    assert(0 * w == 0);
}

/// Down and then Up, between lines that each fit in one soft-wrapped row,
/// brings the cursor back where it was, when the next line reaches the
/// cursor's column.
pub proof fn lemma_down_then_up(m: EditorModel, w: int)
    requires
        model_wf(m),
        w > 0,
        m.row + 1 < m.lines.len(),
        m.lines[m.row].len() < w,
        m.lines[m.row + 1].len() < w,
        m.col <= m.lines[m.row + 1].len(),
    ensures
        spec_move_up(spec_move_down(m, w), w) == m,
{
    let len = m.lines[m.row].len() as int;
    assert(m.col / w == 0 && m.col % w == m.col) by (nonlinear_arith)
        requires
            0 <= m.col < w,
    ;
    if len > 0 {
        assert(len / w == 0 && len % w == len) by (nonlinear_arith)
            requires
                0 < len < w,
        ;
        assert((len - 1) / w == 0) by (nonlinear_arith)
            requires
                0 <= len - 1 < w,
        ;
    }
    assert(wrapped_rows(len, w) == 1);
    assert(visual_row(m.col, w) == 0 && col_in_row(m.col, w) == m.col);
    let d = spec_move_down(m, w);
    assert(d.row == m.row + 1 && d.col == m.col && d.lines == m.lines);
    assert(model_wf(d));
    lemma_up_to_previous_line(d, w);
    assert(spec_move_up(d, w) =~= m);
}

/// Joining a first line and at least one more puts a line break between the
/// first line and the join of the rest.
proof fn lemma_join_lines_cons(a: Seq<char>, rest: Seq<Seq<char>>)
    requires
        rest.len() > 0,
    ensures
        join_lines(seq![a] + rest) == a + seq!['\n'] + join_lines(rest),
    decreases rest.len(),
{
    let all = seq![a] + rest;
    assert(all.len() >= 2);
    assert(join_lines(all) == join_lines(all.drop_last()) + seq!['\n'] + all.last());
    if rest.len() == 1 {
        assert(all.drop_last() =~= seq![a]);
        assert(join_lines(seq![a]) == a);
        assert(all.last() == rest[0]);
        assert(join_lines(rest) == rest[0]);
    } else {
        assert(all.drop_last() =~= seq![a] + rest.drop_last());
        assert(all.last() == rest.last());
        lemma_join_lines_cons(a, rest.drop_last());
        assert(join_lines(rest) == join_lines(rest.drop_last()) + seq!['\n'] + rest.last());
        assert(a + seq!['\n'] + join_lines(rest.drop_last()) + seq!['\n'] + rest.last() =~= a + seq!['\n'] + (
        join_lines(rest.drop_last()) + seq!['\n'] + rest.last()));
    }
}

/// Splitting text into lines and joining them with `\n` gives the text back,
/// when it holds no carriage return and does not end in a line break.
proof fn lemma_join_split_lines(s: Seq<char>)
    requires
        s.len() > 0,
        !s.contains('\r'),
        s.last() != '\n',
    ensures
        join_lines(split_lines(s)) == s,
    decreases s.len(),
{
    let nl = seq!['\n'];
    crate::text::lemma_find_from_props(s, nl, 0);
    match crate::text::find_spec(s, nl) {
        Some(i) => {
            assert(s.subrange(i, i + 1) == nl);
            assert(s[i] == s.subrange(i, i + 1)[0]);
            assert(i + 1 < s.len());
            let head = s.subrange(0, i);
            let rest = s.subrange(i + 1, s.len() as int);
            assert(!rest.contains('\r')) by {
                if rest.contains('\r') {
                    let k = choose|k: int| 0 <= k < rest.len() && rest[k] == '\r';
                    assert(s[i + 1 + k] == '\r');
                }
            }
            assert(rest.last() == s.last());
            assert(strip_cr(head) == head) by {
                if head.len() > 0 {
                    assert(head.last() == s[i - 1]);
                }
            }
            lemma_join_split_lines(rest);
            lemma_split_lines_nonempty(rest);
            lemma_join_lines_cons(head, split_lines(rest));
            assert(head + nl + rest =~= s);
        },
        None => {},
    }
}

/// Opening the note editor on a note and taking its text back gives the
/// note: the lines it starts with, joined with `\n`, are the text, for any
/// text without carriage returns that does not end in a line break.
pub proof fn lemma_note_text_round_trip(t: Seq<char>)
    requires
        !t.contains('\r'),
        t.len() == 0 || t.last() != '\n',
    ensures
        join_lines(initial_lines(Some(t))) == t,
{
    if t.len() > 0 {
        lemma_join_split_lines(t);
    } else {
        assert(join_lines(seq![Seq::<char>::empty()]) =~= t);
    }
}

impl NoteEditorState {
    /// The editing preconditions: the cursor is on a line, and no line is
    /// so long that wrapping it at the current width would overflow.
    pub open spec fn spec_within_limits(&self) -> bool {
        &&& self.cursor_row < self.lines.len()
        &&& self.cursor_col < usize::MAX
        &&& forall|i: int| 0 <= i < self.lines.len() ==> #[trigger] self.lines@[i]@.len() + self.last_width <= usize::MAX
    }

    /// Whether the editor is within the limits that editing needs.
    pub fn within_limits(&self) -> (b: bool)
        ensures
            b == self.spec_within_limits(),
    {
        if self.cursor_row >= self.lines.len() || self.cursor_col == usize::MAX {
            return false;
        }
        let mut i: usize = 0;
        while i < self.lines.len()
            invariant
                i <= self.lines.len(),
                forall|k: int| 0 <= k < i ==> #[trigger] self.lines@[k]@.len() + self.last_width <= usize::MAX,
            decreases self.lines.len() - i,
        {
            let n = self.lines[i].as_str().unicode_len();
            if n > usize::MAX - self.last_width {
                return false;
            }
            i = i + 1;
        }
        true
    }
}

} // verus!
