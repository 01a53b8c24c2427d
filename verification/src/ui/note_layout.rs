//! How the note editor shows its lines: each line soft-wrapped into screen
//! rows of a fixed width, the row holding the cursor marked, and the
//! scroll offset moved so that the cursor row stays in view.
use vstd::prelude::*;
use vstd::string::*;

use crate::text::chars_of;
use crate::text::extend_str;
use crate::text::spec_verse_reference;
use crate::text::string_from_chars;
use crate::text::subvec;
use crate::ui::notes::lines_of;
use crate::ui::notes::NoteEditorState;

verus! {

broadcast use vstd::string::group_string_axioms;

/// Where a screen row shows the cursor: not at all, as a highlighted
/// character at an index of the row's text, or as a block after the text.
#[derive(Debug, Clone, Copy, PartialEq, Eq, Structural)]
pub enum CursorMark {
    Absent,
    On(usize),
    After,
}

/// One screen row of the editor.
pub struct VisualLine {
    pub text: String,
    pub cursor: CursorMark,
}

/// A screen row as text and cursor mark.
pub struct RowSpec {
    pub text: Seq<char>,
    pub cursor: CursorMark,
}

/// The text and mark of a screen row.
pub open spec fn row_view(v: VisualLine) -> RowSpec {
    RowSpec { text: v.text@, cursor: v.cursor }
}

/// The screen rows.
pub open spec fn rows_view(v: Seq<VisualLine>) -> Seq<RowSpec> {
    v.map_values(|r: VisualLine| row_view(r))
}

/// The rows of the stretch `chars` of a line, cut every `w` characters; on
/// the cursor line, the cursor at `col` counted from the stretch's start is
/// marked in the row whose `w` columns hold it: on its character, or after
/// the text when the row is shorter.
pub open spec fn chunk_rows(chars: Seq<char>, is_cur: bool, col: int, w: int) -> Seq<RowSpec>
    decreases chars.len(),
{
    if chars.len() == 0 || w <= 0 {
        Seq::empty()
    } else {
        let n = if chars.len() < w { chars.len() as int } else { w };
        let mark = if is_cur && 0 <= col < w {
            if col < n { CursorMark::On(col as usize) } else { CursorMark::After }
        } else {
            CursorMark::Absent
        };
        seq![RowSpec { text: chars.take(n), cursor: mark }] + chunk_rows(chars.skip(n), is_cur, col - w, w)
    }
}

/// Start of the last row of a line of `len` characters when the cursor is
/// at or past its end: the line's end when the length is a multiple of the
/// width, else the start of the last, partly filled row.
pub open spec fn last_row_start(len: int, w: int) -> int {
    if len % w == 0 {
        len
    } else {
        len - len % w
    }
}

/// The screen rows of one line at width `w`, with the cursor at column
/// `col` when `is_cur`. An empty line takes one row. With the cursor at or
/// past the end, the cursor gets a row of its own when it lies a full row
/// beyond the last row's start; otherwise the last row is redrawn from that
/// start with the cursor after it.
pub open spec fn line_rows(chars: Seq<char>, is_cur: bool, col: int, w: int) -> Seq<RowSpec> {
    if chars.len() == 0 {
        seq![RowSpec { text: Seq::empty(), cursor: if is_cur { CursorMark::After } else { CursorMark::Absent } }]
    } else {
        let base = chunk_rows(chars, is_cur, col, w);
        if is_cur && col >= chars.len() {
            let ls = last_row_start(chars.len() as int, w);
            if col >= ls + w {
                base.push(RowSpec { text: Seq::empty(), cursor: CursorMark::After })
            } else {
                base.update(base.len() - 1, RowSpec { text: chars.subrange(ls, chars.len() as int), cursor: CursorMark::After })
            }
        } else {
            base
        }
    }
}

/// The screen rows of all lines, the cursor at line `row`, column `col`.
pub open spec fn layout_rows(lines: Seq<Seq<char>>, row: int, col: int, w: int) -> Seq<RowSpec>
    decreases lines.len(),
{
    if lines.len() == 0 {
        Seq::empty()
    } else {
        layout_rows(lines.drop_last(), row, col, w) + line_rows(lines.last(), lines.len() - 1 == row, col, w)
    }
}

/// The scroll offset that keeps screen row `cursor` in a window of
/// `height` rows starting at `scroll`: unchanged while the row is visible,
/// otherwise just enough to show it at the top or the bottom.
pub open spec fn spec_scroll_to(scroll: int, cursor: int, height: int) -> int {
    if cursor < scroll {
        cursor
    } else if cursor >= scroll + height {
        cursor - height + 1
    } else {
        scroll
    }
}

/// Whether row `cursor` of `rows` is where the cursor shows: a row with a
/// cursor mark when the cursor is on one of the `n_lines` lines (at line
/// `line`), else the first row.
pub open spec fn cursor_at(rows: Seq<RowSpec>, cursor: int, line: int, n_lines: int) -> bool {
    if line < n_lines {
        0 <= cursor < rows.len() && rows[cursor].cursor != CursorMark::Absent
    } else {
        cursor == 0
    }
}

/// The rows seen through a window of `height` rows scrolled to `scroll`.
pub open spec fn window(rows: Seq<RowSpec>, scroll: int, height: int) -> Seq<RowSpec> {
    let start = if scroll < rows.len() { scroll } else { rows.len() as int };
    let end = if start + height < rows.len() { start + height } else { rows.len() as int };
    rows.subrange(start, end)
}

/// Appends the rows of `chars` to `out`; returns one that holds the
/// cursor, if any does.
fn push_chunks(out: &mut Vec<VisualLine>, chars: &Vec<char>, is_cur: bool, col: usize, w: usize) -> (marked: Option<usize>)
    requires
        w > 0,
    ensures
        rows_view(final(out)@) == rows_view(old(out)@) + chunk_rows(chars@, is_cur, col as int, w as int),
        final(out).len() >= old(out).len(),
        final(out)@.subrange(0, old(out).len() as int) == old(out)@,
        marked matches Some(i) ==> old(out).len() <= i < final(out).len() && final(out)@[i as int].cursor
            != CursorMark::Absent,
        is_cur && col < chars.len() ==> marked is Some,
        chars.len() > 0 ==> final(out).len() > old(out).len(),
{
    let len = chars.len();
    let mut offset: usize = 0;
    let mut marked: Option<usize> = None;
    let ghost start = old(out)@.len();
    let ghost total = chunk_rows(chars@, is_cur, col as int, w as int);
    proof {
        assert(chars@.skip(0) =~= chars@);
        assert(total.take(0) + total =~= total);
    }
    while offset < len
        invariant
            w > 0,
            len == chars.len(),
            offset <= len,
            start <= out.len(),
            out.len() - start <= total.len(),
            rows_view(out@) == rows_view(old(out)@) + total.take(out.len() - start),
            total == total.take(out.len() - start) + chunk_rows(chars@.skip(offset as int), is_cur, col - offset, w as int),
            out@.subrange(0, start as int) == old(out)@,
            marked matches Some(i) ==> start <= i < out.len() && out@[i as int].cursor != CursorMark::Absent,
            marked is None && is_cur ==> col >= offset,
            offset > 0 ==> out.len() > start,
        decreases len - offset,
    {
        let ghost rest = chars@.skip(offset as int);
        let end: usize = if len - offset < w { len } else { offset + w };
        let piece = subvec(chars, offset, end);
        let mark = if is_cur && col >= offset && col - offset < w {
            if col < end { CursorMark::On(col - offset) } else { CursorMark::After }
        } else {
            CursorMark::Absent
        };
        proof {
            let n = end - offset;
            assert(rest.take(n as int) =~= piece@);
            assert(rest.skip(n as int) =~= chars@.skip(end as int));
            let first = seq![RowSpec { text: rest.take(n as int), cursor: mark }];
            assert(chunk_rows(rest, is_cur, col - offset, w as int) == first + chunk_rows(
                rest.skip(n as int),
                is_cur,
                col - offset - w,
                w as int,
            ));
            assert(total == (total.take(out.len() - start) + first) + chunk_rows(chars@.skip(end as int), is_cur, col - offset - w, w as int));
            let k = out.len() - start;
            assert(total[k] == first[0]);
            assert(total.take(k + 1) =~= total.take(k) + first);
        }
        if mark != CursorMark::Absent {
            marked = Some(out.len());
        }
        let ghost before = out@;
        out.push(VisualLine { text: string_from_chars(piece.as_slice()), cursor: mark });
        proof {
            assert(rows_view(out@) =~= rows_view(before).push(row_view(out@[out.len() - 1])));
            assert(out@.subrange(0, start as int) =~= before.subrange(0, start as int));
        }
        offset = end;
    }
    proof {
        assert(chars@.skip(len as int).len() == 0);
        assert(total.take(out.len() - start) =~= total);
    }
    marked
}

/// Appends the screen rows of one line to `out`; returns where the cursor
/// row is when `is_cur`.
fn push_line(out: &mut Vec<VisualLine>, line: &String, is_cur: bool, col: usize, w: usize) -> (cursor: usize)
    requires
        w > 0,
    ensures
        rows_view(final(out)@) == rows_view(old(out)@) + line_rows(line@, is_cur, col as int, w as int),
        final(out).len() >= old(out).len(),
        final(out)@.subrange(0, old(out).len() as int) == old(out)@,
        is_cur ==> old(out).len() <= cursor < final(out).len() && final(out)@[cursor as int].cursor != CursorMark::Absent,
{
    let chars = chars_of(line.as_str());
    let len = chars.len();
    let ghost before = out@;
    if len == 0 {
        out.push(VisualLine { text: String::new(), cursor: if is_cur { CursorMark::After } else { CursorMark::Absent } });
        proof {
            assert(rows_view(out@) =~= rows_view(before) + line_rows(line@, is_cur, col as int, w as int));
            assert(out@.subrange(0, before.len() as int) =~= before);
        }
        return out.len() - 1;
    }
    let marked = push_chunks(out, &chars, is_cur, col, w);
    if is_cur && col >= len {
        proof {
            assert(len % w <= len) by (nonlinear_arith)
                requires
                    w > 0,
            ;
        }
        let ls = if len % w == 0 { len } else { len - len % w };
        if col - ls >= w {
            let ghost mid = out@;
            out.push(VisualLine { text: String::new(), cursor: CursorMark::After });
            proof {
                assert(rows_view(out@) =~= rows_view(mid).push(RowSpec { text: Seq::empty(), cursor: CursorMark::After }));
                assert(out@.subrange(0, before.len() as int) =~= mid.subrange(0, before.len() as int));
            }
            out.len() - 1
        } else {
            let last = out.len() - 1;
            let tail = subvec(&chars, ls, len);
            let ghost mid = out@;
            out.set(last, VisualLine { text: string_from_chars(tail.as_slice()), cursor: CursorMark::After });
            proof {
                let base = chunk_rows(chars@, is_cur, col as int, w as int);
                assert(rows_view(mid) == rows_view(before) + base);
                assert(base.len() > 0);
                assert(rows_view(out@) =~= rows_view(mid).update(
                    last as int,
                    RowSpec { text: chars@.subrange(ls as int, len as int), cursor: CursorMark::After },
                ));
                assert(out@.subrange(0, before.len() as int) =~= mid.subrange(0, before.len() as int));
            }
            last
        }
    } else {
        match marked {
            Some(i) => i,
            None => 0,
        }
    }
}

/// The screen rows of `lines` at width `width` with the cursor at line
/// `row`, column `col`, and the index of the row holding the cursor (0 when
/// the cursor is on no line).
pub fn layout(lines: &Vec<String>, row: usize, col: usize, width: usize) -> (r: (Vec<VisualLine>, usize))
    requires
        width > 0,
    ensures
        rows_view(r.0@) == layout_rows(lines_of(lines@), row as int, col as int, width as int),
        row < lines.len() ==> r.1 < r.0.len() && r.0@[r.1 as int].cursor != CursorMark::Absent,
        row >= lines.len() ==> r.1 == 0,
{
    let mut out: Vec<VisualLine> = Vec::new();
    let mut cursor: usize = 0;
    let mut i: usize = 0;
    let ghost all = lines_of(lines@);
    while i < lines.len()
        invariant
            width > 0,
            i <= lines.len(),
            all == lines_of(lines@),
            rows_view(out@) == layout_rows(all.take(i as int), row as int, col as int, width as int),
            row < i ==> cursor < out.len() && out@[cursor as int].cursor != CursorMark::Absent,
            row >= i ==> cursor == 0,
        decreases lines.len() - i,
    {
        let ghost before = out@;
        let c = push_line(&mut out, &lines[i], i == row, col, width);
        proof {
            assert(all.take(i + 1).drop_last() =~= all.take(i as int));
            assert(all.take(i + 1).last() == lines@[i as int]@);
            if row < i {
                assert(cursor < before.len());
                assert(out@.subrange(0, before.len() as int)[cursor as int] == out@[cursor as int]);
            }
        }
        if i == row {
            cursor = c;
        }
        i = i + 1;
    }
    proof {
        assert(all.take(lines.len() as int) =~= all);
    }
    (out, cursor)
}

impl NoteEditorState {
    /// The rows the editor shows in a window of `width` by `height` cells:
    /// the wrap width becomes `width`, the scroll offset moves just enough
    /// to keep the cursor row in view, and the rows from the scroll offset
    /// on (at most `height`) are returned.
    pub fn visible_rows(&mut self, width: usize, height: usize) -> (v: Vec<VisualLine>)
        requires
            width > 0,
        ensures
            final(self).last_width == width,
            final(self).lines == old(self).lines,
            final(self).cursor_row == old(self).cursor_row,
            final(self).cursor_col == old(self).cursor_col,
            final(self).book == old(self).book,
            final(self).chapter == old(self).chapter,
            final(self).verse == old(self).verse,
            exists|cursor: int|
                #[trigger] cursor_at(
                    layout_rows(lines_of(old(self).lines@), old(self).cursor_row as int, old(self).cursor_col as int, width as int),
                    cursor,
                    old(self).cursor_row as int,
                    old(self).lines.len() as int,
                ) && final(self).scroll_offset == spec_scroll_to(old(self).scroll_offset as int, cursor, height as int)
                    && rows_view(v@) == window(
                    layout_rows(lines_of(old(self).lines@), old(self).cursor_row as int, old(self).cursor_col as int, width as int),
                    final(self).scroll_offset as int,
                    height as int,
                ),
    {
        self.last_width = width;
        let (rows, cursor) = layout(&self.lines, self.cursor_row, self.cursor_col, width);
        if cursor < self.scroll_offset {
            self.scroll_offset = cursor;
        } else if cursor - self.scroll_offset >= height {
            self.scroll_offset = cursor - height + 1;
        }
        let start = if self.scroll_offset < rows.len() { self.scroll_offset } else { rows.len() };
        let end = if height < rows.len() - start { start + height } else { rows.len() };
        let mut v: Vec<VisualLine> = Vec::new();
        let mut k = start;
        while k < end
            invariant
                start <= k <= end <= rows.len(),
                rows_view(v@) == rows_view(rows@).subrange(start as int, k as int),
            decreases end - k,
        {
            let r = &rows[k];
            let ghost before = v@;
            let line = VisualLine { text: r.text.clone(), cursor: r.cursor };
            assert(row_view(line) == row_view(rows@[k as int]));
            v.push(line);
            proof {
                assert(rows_view(v@) =~= rows_view(before).push(row_view(rows@[k as int])));
                assert(rows_view(rows@).subrange(start as int, k + 1) =~= rows_view(rows@).subrange(start as int, k as int).push(
                    row_view(rows@[k as int]),
                ));
            }
            k = k + 1;
        }
        proof {
            let all = layout_rows(lines_of(old(self).lines@), old(self).cursor_row as int, old(self).cursor_col as int, width as int);
            assert(rows_view(rows@) == all);
            if self.cursor_row < self.lines.len() {
                assert(all[cursor as int] == row_view(rows@[cursor as int]));
            }
            assert(cursor_at(all, cursor as int, old(self).cursor_row as int, old(self).lines.len() as int));
        }
        v
    }
}

/// The texts of `rows`, one after the other.
pub open spec fn joined(rows: Seq<RowSpec>) -> Seq<char>
    decreases rows.len(),
{
    if rows.len() == 0 {
        Seq::empty()
    } else {
        joined(rows.drop_last()) + rows.last().text
    }
}

proof fn lemma_joined_single(x: RowSpec)
    ensures
        joined(seq![x]) == x.text,
{
    assert(seq![x].drop_last() =~= Seq::<RowSpec>::empty());
    assert(joined(Seq::<RowSpec>::empty()) == Seq::<char>::empty());
    assert(Seq::<char>::empty() + x.text =~= x.text);
}

proof fn lemma_mod_le(len: int, w: int)
    requires
        w > 0,
        len >= 0,
    ensures
        0 <= len % w <= len,
        len % w < w,
{
    assert(0 <= len % w < w) by {
        vstd::arithmetic::div_mod::lemma_mod_bound(len, w);
    }
    if len < w {
        vstd::arithmetic::div_mod::lemma_small_mod(len as nat, w as nat);
    }
}

proof fn lemma_joined_append(a: Seq<RowSpec>, b: Seq<RowSpec>)
    ensures
        joined(a + b) == joined(a) + joined(b),
    decreases b.len(),
{
    if b.len() == 0 {
        assert(a + b =~= a);
    } else {
        lemma_joined_append(a, b.drop_last());
        assert((a + b).drop_last() =~= a + b.drop_last());
    }
}

/// The rows of a stretch hold its characters in order, at most `w` per
/// row, and the last row starts where `last_row_start` says when the
/// stretch does not fill its last row.
proof fn lemma_chunk_rows(chars: Seq<char>, is_cur: bool, col: int, w: int)
    requires
        w > 0,
    ensures
        joined(chunk_rows(chars, is_cur, col, w)) == chars,
        forall|i: int| 0 <= i < chunk_rows(chars, is_cur, col, w).len() ==> (#[trigger] chunk_rows(chars, is_cur, col, w)[i]).text.len() <= w,
        chars.len() > 0 ==> chunk_rows(chars, is_cur, col, w).len() > 0,
        chars.len() > 0 && (chars.len() as int) % w != 0 ==> chunk_rows(chars, is_cur, col, w).last().text == chars.subrange(
            last_row_start(chars.len() as int, w),
            chars.len() as int,
        ),
    decreases chars.len(),
{
    if chars.len() == 0 {
    } else {
        let n = if chars.len() < w { chars.len() as int } else { w };
        let first = seq![RowSpec { text: chars.take(n), cursor: chunk_rows(chars, is_cur, col, w)[0].cursor }];
        let rest = chunk_rows(chars.skip(n), is_cur, col - w, w);
        lemma_chunk_rows(chars.skip(n), is_cur, col - w, w);
        assert(chunk_rows(chars, is_cur, col, w) == first + rest);
        lemma_joined_append(first, rest);
        lemma_joined_single(first[0]);
        assert(first =~= seq![first[0]]);
        assert(chars.take(n) + chars.skip(n) =~= chars);
        assert forall|i: int| 0 <= i < (first + rest).len() implies #[trigger] (first + rest)[i].text.len() <= w by {
            if i > 0 {
                assert((first + rest)[i] == rest[i - 1]);
            }
        }
        if (chars.len() as int) % w != 0 {
            if chars.len() < w {
                assert(chars.skip(n).len() == 0);
                assert((chars.len() as int) % w == chars.len()) by {
                    vstd::arithmetic::div_mod::lemma_small_mod(chars.len() as nat, w as nat);
                }
                assert(chars.subrange(0, chars.len() as int) =~= chars.take(n));
            } else {
                let m = chars.skip(n);
                assert(m.len() == chars.len() - w);
                assert((m.len() as int) % w == (chars.len() as int) % w) by {
                    vstd::arithmetic::div_mod::lemma_mod_sub_multiples_vanish(chars.len() as int, w);
                }
                assert(m.len() > 0) by {
                    if m.len() == 0 {
                        assert((chars.len() as int) % w == 0) by {
                            vstd::arithmetic::div_mod::lemma_mod_self_0(w);
                        }
                    }
                }
                assert((first + rest).last() == rest.last());
                lemma_mod_le(m.len() as int, w);
                lemma_mod_le(chars.len() as int, w);
                let lsm = last_row_start(m.len() as int, w);
                assert(lsm + w == last_row_start(chars.len() as int, w));
                assert(m.subrange(last_row_start(m.len() as int, w), m.len() as int) =~= chars.subrange(
                    last_row_start(chars.len() as int, w),
                    chars.len() as int,
                ));
            }
        }
    }
}

/// Soft wrapping keeps a line's text: its rows, read one after the other,
/// give the line back. The one exception is the cursor line when the
/// cursor sits at the end of a line whose length is a multiple of the
/// width: its last row is then drawn empty with the cursor after it.
pub proof fn lemma_line_rows_keep_text(chars: Seq<char>, is_cur: bool, col: int, w: int)
    requires
        w > 0,
        !(is_cur && chars.len() > 0 && (chars.len() as int) % w == 0 && chars.len() <= col < chars.len() + w),
    ensures
        joined(line_rows(chars, is_cur, col, w)) == chars,
{
    if chars.len() == 0 {
        let r = line_rows(chars, is_cur, col, w);
        lemma_joined_single(r[0]);
        assert(r =~= seq![r[0]]);
        assert(chars =~= Seq::<char>::empty());
    } else {
        lemma_chunk_rows(chars, is_cur, col, w);
        lemma_mod_le(chars.len() as int, w);
        let base = chunk_rows(chars, is_cur, col, w);
        if is_cur && col >= chars.len() {
            let ls = last_row_start(chars.len() as int, w);
            if col >= ls + w {
                let e = seq![RowSpec { text: Seq::<char>::empty(), cursor: CursorMark::After }];
                lemma_joined_append(base, e);
                assert(base.push(e[0]) =~= base + e);
                lemma_joined_single(e[0]);
                assert(chars + Seq::<char>::empty() =~= chars);
            } else {
                assert((chars.len() as int) % w != 0);
                let r = base.update(base.len() - 1, RowSpec { text: chars.subrange(ls, chars.len() as int), cursor: CursorMark::After });
                assert(r.drop_last() =~= base.drop_last());
                assert(joined(base) == joined(base.drop_last()) + base.last().text);
            }
        }
    }
}

/// Every screen row holds at most `w` characters.
pub proof fn lemma_rows_fit_width(lines: Seq<Seq<char>>, row: int, col: int, w: int)
    requires
        w > 0,
    ensures
        forall|i: int| 0 <= i < layout_rows(lines, row, col, w).len() ==> (#[trigger] layout_rows(lines, row, col, w)[i]).text.len() <= w,
    decreases lines.len(),
{
    if lines.len() > 0 {
        lemma_rows_fit_width(lines.drop_last(), row, col, w);
        let a = layout_rows(lines.drop_last(), row, col, w);
        let chars = lines.last();
        let is_cur = lines.len() - 1 == row;
        let b = line_rows(chars, is_cur, col, w);
        assert forall|i: int| 0 <= i < b.len() implies #[trigger] b[i].text.len() <= w by {
            if chars.len() > 0 {
                lemma_chunk_rows(chars, is_cur, col, w);
                let base = chunk_rows(chars, is_cur, col, w);
                if is_cur && col >= chars.len() {
                    let ls = last_row_start(chars.len() as int, w);
                    if col < ls + w && i == base.len() - 1 {
                        assert(chars.len() - ls <= w) by {
                            if (chars.len() as int) % w != 0 {
                                vstd::arithmetic::div_mod::lemma_mod_bound(chars.len() as int, w);
                            }
                        }
                    } else if i < base.len() {
                        assert(b[i] == base[i]);
                    }
                }
            }
        }
        assert forall|i: int| 0 <= i < (a + b).len() implies #[trigger] (a + b)[i].text.len() <= w by {
            if i >= a.len() {
                assert((a + b)[i] == b[i - a.len()]);
            } else {
                assert((a + b)[i] == a[i]);
            }
        }
    }
}

/// After scrolling with `spec_scroll_to`, the cursor row is inside the
/// window whenever the window has room for a row.
pub proof fn lemma_cursor_in_view(scroll: int, cursor: int, height: int)
    requires
        height > 0,
    ensures
        spec_scroll_to(scroll, cursor, height) <= cursor < spec_scroll_to(scroll, cursor, height) + height,
{
}

impl NoteEditorState {
    /// The editor's title: the verse the note is on.
    pub fn title(&self) -> (r: String)
        ensures
            r@ == " Note: "@ + spec_verse_reference(self.book@, self.chapter, self.verse) + " "@,
    {
        let r = crate::text::verse_reference(self.book.as_str(), self.chapter, self.verse);
        let mut out: Vec<char> = Vec::new();
        extend_str(&mut out, " Note: ");
        extend_str(&mut out, r.as_str());
        extend_str(&mut out, " ");
        string_from_chars(out.as_slice())
    }
}

/// Number of rows that show the cursor.
pub open spec fn marked_count(rows: Seq<RowSpec>) -> nat
    decreases rows.len(),
{
    if rows.len() == 0 {
        0
    } else {
        marked_count(rows.drop_last()) + if rows.last().cursor != CursorMark::Absent { 1nat } else { 0nat }
    }
}

proof fn lemma_marked_count_append(a: Seq<RowSpec>, b: Seq<RowSpec>)
    ensures
        marked_count(a + b) == marked_count(a) + marked_count(b),
    decreases b.len(),
{
    if b.len() == 0 {
        assert(a + b =~= a);
    } else {
        lemma_marked_count_append(a, b.drop_last());
        assert((a + b).drop_last() =~= a + b.drop_last());
    }
}

proof fn lemma_marked_count_single(x: RowSpec)
    ensures
        marked_count(seq![x]) == if x.cursor != CursorMark::Absent { 1nat } else { 0nat },
{
    assert(seq![x].drop_last() =~= Seq::<RowSpec>::empty());
    assert(marked_count(Seq::<RowSpec>::empty()) == 0);
}

/// The rows of a stretch: none shows the cursor before the stretch or off
/// the cursor line; exactly one shows it when it lies within the stretch;
/// past the stretch's end, only the last row can show it, and it does not
/// once the cursor is a full row past the last row's start.
proof fn lemma_chunk_marks(chars: Seq<char>, is_cur: bool, col: int, w: int)
    requires
        w > 0,
    ensures
        (!is_cur || col < 0) ==> marked_count(chunk_rows(chars, is_cur, col, w)) == 0,
        is_cur && 0 <= col < chars.len() ==> marked_count(chunk_rows(chars, is_cur, col, w)) == 1,
        is_cur && col >= chars.len() && chars.len() > 0 ==> marked_count(
            chunk_rows(chars, is_cur, col, w).drop_last(),
        ) == 0,
        is_cur && chars.len() > 0 && col >= last_row_start(chars.len() as int, w) + w ==> marked_count(
            chunk_rows(chars, is_cur, col, w),
        ) == 0,
    decreases chars.len(),
{
    if chars.len() == 0 {
    } else {
        let n = if chars.len() < w { chars.len() as int } else { w };
        let rows = chunk_rows(chars, is_cur, col, w);
        let first = seq![rows[0]];
        let rest = chunk_rows(chars.skip(n), is_cur, col - w, w);
        lemma_chunk_marks(chars.skip(n), is_cur, col - w, w);
        lemma_chunk_rows(chars.skip(n), is_cur, col - w, w);
        assert(rows == first + rest);
        lemma_marked_count_append(first, rest);
        lemma_marked_count_single(rows[0]);
        lemma_mod_le(chars.len() as int, w);
        if rest.len() > 0 {
            assert(rows.drop_last() =~= first + rest.drop_last());
            lemma_marked_count_append(first, rest.drop_last());
        } else {
            assert(rows.drop_last() =~= Seq::<RowSpec>::empty());
        }
        if chars.len() > w {
            let m = chars.skip(n);
            assert(m.len() == chars.len() - w);
            assert((m.len() as int) % w == (chars.len() as int) % w) by {
                vstd::arithmetic::div_mod::lemma_mod_sub_multiples_vanish(chars.len() as int, w);
            }
            lemma_mod_le(m.len() as int, w);
            assert(last_row_start(m.len() as int, w) + w == last_row_start(chars.len() as int, w));
        } else if chars.len() < w {
            vstd::arithmetic::div_mod::lemma_small_mod(chars.len() as nat, w as nat);
        } else {
            vstd::arithmetic::div_mod::lemma_mod_self_0(w);
        }
    }
}

/// The rows of one line: none shows the cursor off the cursor line, and
/// exactly one does on it.
proof fn lemma_line_marks(chars: Seq<char>, is_cur: bool, col: int, w: int)
    requires
        w > 0,
        col >= 0,
    ensures
        marked_count(line_rows(chars, is_cur, col, w)) == if is_cur { 1nat } else { 0nat },
{
    let r = line_rows(chars, is_cur, col, w);
    if chars.len() == 0 {
        lemma_marked_count_single(r[0]);
        assert(r =~= seq![r[0]]);
    } else {
        lemma_chunk_marks(chars, is_cur, col, w);
        lemma_chunk_rows(chars, is_cur, col, w);
        let base = chunk_rows(chars, is_cur, col, w);
        if is_cur && col >= chars.len() {
            let ls = last_row_start(chars.len() as int, w);
            let after = RowSpec { text: Seq::empty(), cursor: CursorMark::After };
            if col >= ls + w {
                lemma_marked_count_append(base, seq![after]);
                lemma_marked_count_single(after);
                assert(base.push(after) =~= base + seq![after]);
            } else {
                let last = RowSpec { text: chars.subrange(ls, chars.len() as int), cursor: CursorMark::After };
                assert(r.drop_last() =~= base.drop_last());
                assert(r.last() == last);
            }
        }
    }
}

/// Exactly one screen row shows the cursor when the cursor is on one of the
/// lines, and none when it is not.
pub proof fn lemma_one_cursor_row(lines: Seq<Seq<char>>, row: int, col: int, w: int)
    requires
        w > 0,
        col >= 0,
        row >= 0,
    ensures
        marked_count(layout_rows(lines, row, col, w)) == if row < lines.len() { 1nat } else { 0nat },
    decreases lines.len(),
{
    if lines.len() > 0 {
        lemma_one_cursor_row(lines.drop_last(), row, col, w);
        lemma_line_marks(lines.last(), lines.len() - 1 == row, col, w);
        lemma_marked_count_append(
            layout_rows(lines.drop_last(), row, col, w),
            line_rows(lines.last(), lines.len() - 1 == row, col, w),
        );
    }
}

} // verus!
