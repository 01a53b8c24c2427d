//! The four-panel reader: books, chapters, verses and scripture, with the
//! selection in each list, the loaded chapter and the overlay on top.
use vstd::prelude::*;
use vstd::string::*;

use rusqlite::Connection;

use crate::bible::books::book_info;
use crate::bible::books::lemma_book_chapters_bounds;
use crate::bible::books::spec_book_chapters;
use crate::bible::books::spec_book_name;
use crate::bible::books::spec_book_name_of;
use crate::bible::db;
use crate::bible::resolver::FetchResult;
use crate::bible::types::Chapter;
use crate::bible::types::Verse;
use crate::config::session::SessionState;
use crate::text::extend_str;
use crate::text::string_from_chars;
use crate::text::uppercase_of;
use crate::ui::bookmarks::BookmarkListState;
use crate::ui::help::HelpState;
use crate::ui::highlight_list::HighlightListState;
use crate::ui::layout::spec_contains;
use crate::ui::layout::spec_select;
use crate::ui::layout::ListState;
use crate::ui::layout::Rect;
use crate::ui::note_list::NoteListState;
use crate::ui::notes::NoteEditorState;
use crate::ui::search::SearchState;
use crate::ui::theme::ThemeName;
use crate::ui::translation::TranslationPickerState;

verus! {

/// The four panels, in reading order.
#[derive(Debug, Clone, Copy, PartialEq, Eq, Structural)]
pub enum Panel {
    Books,
    Chapters,
    Verses,
    Scripture,
}

/// Position of a panel in reading order, from 0 (books) to 3 (scripture).
pub open spec fn panel_rank(p: Panel) -> int {
    match p {
        Panel::Books => 0,
        Panel::Chapters => 1,
        Panel::Verses => 2,
        Panel::Scripture => 3,
    }
}

/// The panel after `p` in reading order; the scripture panel is the last.
pub open spec fn spec_panel_next(p: Panel) -> Panel {
    match p {
        Panel::Books => Panel::Chapters,
        Panel::Chapters => Panel::Verses,
        Panel::Verses => Panel::Scripture,
        Panel::Scripture => Panel::Scripture,
    }
}

/// The panel before `p` in reading order; the books panel is the first.
pub open spec fn spec_panel_prev(p: Panel) -> Panel {
    match p {
        Panel::Books => Panel::Books,
        Panel::Chapters => Panel::Books,
        Panel::Verses => Panel::Chapters,
        Panel::Scripture => Panel::Verses,
    }
}

/// The number a session stores for panel `p`: 0 books, 1 chapters,
/// 2 scripture, and 3 verses.
pub open spec fn panel_code(p: Panel) -> int {
    match p {
        Panel::Books => 0,
        Panel::Chapters => 1,
        Panel::Scripture => 2,
        Panel::Verses => 3,
    }
}

/// The panel stored in a session under number `n`: 1, 2 and 3 are the
/// chapters, scripture and verses panels, anything else the books panel.
pub open spec fn panel_from_index(n: u8) -> Panel {
    if n == 1 {
        Panel::Chapters
    } else if n == 2 {
        Panel::Scripture
    } else if n == 3 {
        Panel::Verses
    } else {
        Panel::Books
    }
}

impl Panel {
    /// The next panel in reading order (the scripture panel stays put).
    pub fn next(self) -> (r: Self)
        ensures
            r == spec_panel_next(self),
    {
        match self {
            Panel::Books => Panel::Chapters,
            Panel::Chapters => Panel::Verses,
            Panel::Verses => Panel::Scripture,
            Panel::Scripture => Panel::Scripture,
        }
    }

    /// The previous panel in reading order (the books panel stays put).
    pub fn prev(self) -> (r: Self)
        ensures
            r == spec_panel_prev(self),
    {
        match self {
            Panel::Books => Panel::Books,
            Panel::Chapters => Panel::Books,
            Panel::Verses => Panel::Chapters,
            Panel::Scripture => Panel::Verses,
        }
    }

    /// The panel's number in a saved session.
    pub fn index(self) -> (n: u8)
        ensures
            n == panel_code(self),
    {
        match self {
            Panel::Books => 0,
            Panel::Chapters => 1,
            Panel::Scripture => 2,
            Panel::Verses => 3,
        }
    }

    /// The panel saved under number `n`.
    pub fn from_index(n: u8) -> (p: Self)
        ensures
            p == panel_from_index(n),
    {
        if n == 1 {
            Panel::Chapters
        } else if n == 2 {
            Panel::Scripture
        } else if n == 3 {
            Panel::Verses
        } else {
            Panel::Books
        }
    }
}

/// Moving forward goes one panel further, up to the scripture panel;
/// moving back goes one panel back, down to the books panel; and the two
/// undo each other everywhere but at the ends.
pub proof fn lemma_panel_steps(p: Panel)
    ensures
        panel_rank(spec_panel_next(p)) == if panel_rank(p) < 3 { panel_rank(p) + 1 } else { 3 },
        panel_rank(spec_panel_prev(p)) == if panel_rank(p) > 0 { panel_rank(p) - 1 } else { 0 },
        p != Panel::Scripture ==> spec_panel_prev(spec_panel_next(p)) == p,
        p != Panel::Books ==> spec_panel_next(spec_panel_prev(p)) == p,
{
}

/// A panel saved by its number is read back as the same panel.
pub proof fn lemma_panel_index_round_trip(p: Panel)
    ensures
        panel_from_index(panel_code(p) as u8) == p,
{
}

/// A short message in the status bar, with the moment it was shown in
/// milliseconds of a monotonic clock.
pub struct StatusFlash {
    pub message: String,
    pub shown_at_ms: u64,
}

/// How long a status message stays, in milliseconds: it is cleared once
/// more than this has passed.
pub const FLASH_MS: u64 = 2000;

/// The overlays that can cover the panels.
pub enum OverlayKind {
    Search(SearchState),
    Bookmarks(BookmarkListState),
    Translation(TranslationPickerState),
    Highlights(HighlightListState),
    NoteEditor(NoteEditorState),
    NotesList(NoteListState),
    QuitConfirm,
    Help(HelpState),
}

/// State of the reader screen.
pub struct BrowserState {
    pub active_panel: Panel,
    pub book_list: ListState,
    pub chapter_list: ListState,
    pub verse_list: ListState,
    pub scripture_scroll: u16,
    pub selected_book_idx: usize,
    pub selected_chapter: u32,
    pub selected_verse: u32,
    pub current_chapter: Option<Chapter>,
    pub translation: String,
    pub overlay: Option<OverlayKind>,
    pub books_rect: Rect,
    pub chapters_rect: Rect,
    pub verses_rect: Rect,
    pub scripture_rect: Rect,
    pub status_flash: Option<StatusFlash>,
    pub loading: bool,
}

/// A loaded chapter fits the selection: it is chapter `chapter` of the
/// book at index `book_idx`, has at least one verse, and each verse is of
/// translation `translation` and names its book.
pub open spec fn chapter_fits(c: Option<Chapter>, book_idx: usize, chapter: u32, translation: Seq<char>) -> bool {
    c matches Some(ch) ==> {
        &&& ch.book@ == spec_book_name(book_idx as int)
        &&& ch.chapter == chapter
        &&& ch.verses@.len() > 0
        &&& forall|i: int|
            0 <= i < ch.verses@.len() ==> (#[trigger] ch.verses@[i]).translation@ == uppercase_of(translation)
                && ch.verses@[i].book@ == spec_book_name_of(ch.verses@[i].book_num as int)
    }
}

/// Number of verses of the loaded chapter, 0 when none is loaded.
pub open spec fn verse_count(c: Option<Chapter>) -> nat {
    match c {
        Some(ch) => ch.verses@.len(),
        None => 0,
    }
}

/// What a load left in the reader `t`: its chapter and its status message.
pub open spec fn loaded_of(t: BrowserState) -> (Option<Chapter>, Option<StatusFlash>) {
    (t.current_chapter, t.status_flash)
}

/// The error shown when a chapter of translation `translation` cannot be
/// read from the offline database.
pub open spec fn spec_unreadable_message(translation: Seq<char>) -> Seq<char> {
    "Translation "@ + translation + " is not in the offline database"@
}

/// The error shown when a chapter of translation `translation` cannot be
/// read from the offline database.
pub fn unreadable_message(translation: &str) -> (s: String)
    ensures
        s@ == spec_unreadable_message(translation@),
{
    let mut out: Vec<char> = Vec::new();
    extend_str(&mut out, "Translation ");
    extend_str(&mut out, translation);
    extend_str(&mut out, " is not in the offline database");
    string_from_chars(out.as_slice())
}

/// What a load left, `l`, in a reader of translation `translation` showing
/// status message `flash`, when the database read gave `r`: after a failed
/// read (`None`) no chapter and the error naming the translation; otherwise
/// the status message unchanged, and the verses read as the chapter (no
/// chapter when there were none).
pub open spec fn read_left(
    translation: Seq<char>,
    flash: Option<StatusFlash>,
    r: Option<Vec<Verse>>,
    l: (Option<Chapter>, Option<StatusFlash>),
) -> bool {
    match r {
        None => l.0 is None && (l.1 matches Some(f) && f.message@ == spec_unreadable_message(translation)),
        Some(v) => l.1 == flash && if v@.len() == 0 {
            l.0 is None
        } else {
            l.0 matches Some(ch) && ch.verses == v
        },
    }
}

/// What a load left, `l`, is what some database read left (see
/// `read_left`); the read itself depends on the database.
pub open spec fn loaded_by_read(translation: Seq<char>, flash: Option<StatusFlash>, l: (Option<Chapter>, Option<StatusFlash>)) -> bool {
    exists|r: Option<Vec<Verse>>| #[trigger] read_left(translation, flash, r, l)
}

/// What a load into `s` left, `l`, is what some database read left.
pub open spec fn load_flash(s: BrowserState, l: (Option<Chapter>, Option<StatusFlash>)) -> bool {
    loaded_by_read(s.translation@, s.status_flash, l)
}

/// The chapter `c.0` that a read `r` of chapter `chapter` of the book at
/// `book_idx` gives, with `c.1` telling whether the read failed: nothing
/// and `true` for a failed read, nothing for a read without verses,
/// otherwise the verses read under the book's name.
pub open spec fn chapter_of_read(r: Option<Vec<Verse>>, book_idx: usize, chapter: u32, c: (Option<Chapter>, bool)) -> bool {
    match r {
        None => c.0 is None && c.1,
        Some(v) => !c.1 && if v@.len() == 0 {
            c.0 is None
        } else {
            c.0 matches Some(ch) && ch.book@ == spec_book_name(book_idx as int) && ch.chapter == chapter && ch.verses == v
        },
    }
}

/// The chapter that the read `r` of chapter `chapter` of the book at
/// `book_idx` gives, and whether the read failed.
pub fn chapter_from_read(r: Option<Vec<Verse>>, book_idx: usize, chapter: u32) -> (c: (Option<Chapter>, bool))
    requires
        book_idx < 66,
    ensures
        chapter_of_read(r, book_idx, chapter, c),
{
    match r {
        Some(verses) => {
            if verses.len() == 0 {
                (None, false)
            } else {
                (Some(Chapter { book: String::from_str(book_info(book_idx).name), chapter, verses }), false)
            }
        },
        None => (None, true),
    }
}

/// Milliseconds on the clock that stamps status messages.
///
/// Trusted: reads `SystemTime::now()`; the value depends on the moment of the
/// call, so nothing is claimed about it.
#[verifier::external_body]
fn clock_ms() -> (t: u64) {
    match std::time::SystemTime::now().duration_since(std::time::UNIX_EPOCH) {
        Ok(d) => d.as_millis() as u64,
        Err(_) => 0,
    }
}

/// The state after a load that left chapter `l.0` and status message `l.1`:
/// no verse selected and the scripture scrolled to the top.
pub open spec fn spec_loaded(s: BrowserState, l: (Option<Chapter>, Option<StatusFlash>)) -> BrowserState {
    BrowserState {
        current_chapter: l.0,
        status_flash: l.1,
        verse_list: spec_select(s.verse_list, None),
        selected_verse: 0,
        scripture_scroll: 0,
        ..s
    }
}

/// The state after another book was chosen: its first chapter selected,
/// nothing loaded, no verse selected, the scripture at the top.
pub open spec fn spec_reset_chapter(s: BrowserState) -> BrowserState {
    BrowserState {
        chapter_list: spec_select(s.chapter_list, Some(0)),
        selected_chapter: 1,
        current_chapter: None,
        verse_list: spec_select(s.verse_list, None),
        selected_verse: 0,
        scripture_scroll: 0,
        ..s
    }
}

/// The chapter shown at start for a saved chapter number: at least the
/// first, at most the last chapter of the book.
pub open spec fn clamp_chapter(saved: u32, book_idx: int) -> u32 {
    if saved < 1 {
        1
    } else if saved > spec_book_chapters(book_idx) {
        spec_book_chapters(book_idx)
    } else {
        saved
    }
}

/// `s` is the reader as saved session `session` opens it: the saved book
/// (the last one when the number is too large), the saved chapter kept
/// within the book and loaded (as some database read gave it), no verse
/// selected, the saved panel, scroll and translation, no overlay, message
/// or running fetch.
pub open spec fn opened_at(session: SessionState, s: BrowserState) -> bool {
    &&& s.wf()
    &&& s.selected_book_idx == (if session.book_index < 65 { session.book_index } else { 65 })
    &&& s.book_list == (ListState { selected: Some(s.selected_book_idx), offset: 0 })
    &&& s.selected_chapter == clamp_chapter(session.chapter, s.selected_book_idx as int)
    &&& s.chapter_list == (ListState { selected: Some((s.selected_chapter - 1) as usize), offset: 0 })
    &&& s.verse_list == (ListState { selected: None, offset: 0 })
    &&& s.selected_verse == 0
    &&& s.scripture_scroll == session.scroll_position
    &&& s.active_panel == panel_from_index(session.active_panel)
    &&& s.translation@ == session.translation@
    &&& s.overlay is None
    &&& s.status_flash is None
    &&& !s.loading
    &&& s.books_rect == Rect::spec_zero()
    &&& s.chapters_rect == Rect::spec_zero()
    &&& s.verses_rect == Rect::spec_zero()
    &&& s.scripture_rect == Rect::spec_zero()
    &&& chapter_fits(s.current_chapter, s.selected_book_idx, s.selected_chapter, s.translation@)
    &&& exists|r: Option<Vec<Verse>>, failed: bool|
        #[trigger] chapter_of_read(r, s.selected_book_idx, s.selected_chapter, (s.current_chapter, failed))
}

impl BrowserState {
    /// The selected book is one of the 66, and the book list selects it.
    pub open spec fn wf(&self) -> bool {
        &&& self.selected_book_idx < 66
        &&& self.book_list.selected == Some(self.selected_book_idx)
    }

    /// Loads chapter `chapter` of the book at `book_idx` from the database:
    /// `None` when it has no verses, and with `true` beside it when it could
    /// not be read at all.
    fn read_chapter(conn: &Connection, translation: &str, book_idx: usize, chapter: u32) -> (c: (Option<Chapter>, bool))
        requires
            book_idx < 66,
        ensures
            chapter_fits(c.0, book_idx, chapter, translation@),
            exists|r: Option<Vec<Verse>>| #[trigger] chapter_of_read(r, book_idx, chapter, c),
    {
        let r = db::read_chapter_verses(conn, translation, (book_idx + 1) as u32, chapter);
        proof {
            if r is Some {
                let verses = r->0;
                let rows = choose|rows: Seq<Result<db::VerseRow, rusqlite::Error>>| #[trigger] db::verses_read(verses@, rows, translation@);
                assert forall|i: int| 0 <= i < verses@.len() implies (#[trigger] verses@[i]).translation@ == uppercase_of(translation@)
                    && verses@[i].book@ == spec_book_name_of(verses@[i].book_num as int) by {
                    assert(db::verse_matches_row(verses@[i], db::ok_rows(rows)[i], translation@));
                }
            }
        }
        let ghost rr = r;
        let c = chapter_from_read(r, book_idx, chapter);
        assert(chapter_of_read(rr, book_idx, chapter, c));
        c
    }

    /// The reader as a saved session left it: the saved book (the last one
    /// when the number is too large), the saved chapter kept within the
    /// book, that chapter loaded, the saved panel, scroll and translation.
    pub fn new(conn: &Connection, session: &SessionState) -> (s: Self)
        ensures
            opened_at(*session, s),
    {
        let book_idx: usize = if session.book_index < 65 { session.book_index } else { 65 };
        let mut book_list = ListState::new();
        book_list.select(Some(book_idx));
        let max_chapter = book_info(book_idx).chapters;
        proof {
            lemma_book_chapters_bounds(book_idx as int);
        }
        let saved: u32 = if session.chapter < 1 { 1 } else { session.chapter };
        let chapter_idx: u32 = if saved - 1 < max_chapter - 1 { saved - 1 } else { max_chapter - 1 };
        let mut chapter_list = ListState::new();
        chapter_list.select(Some(chapter_idx as usize));
        let selected_chapter = chapter_idx + 1;
        let read = Self::read_chapter(conn, session.translation.as_str(), book_idx, selected_chapter);
        let ghost rc = read;
        let (current_chapter, _) = read;
        proof {
            let r = choose|r: Option<Vec<Verse>>| #[trigger] chapter_of_read(r, book_idx, selected_chapter, rc);
            assert(chapter_of_read(r, book_idx, selected_chapter, (current_chapter, rc.1)));
        }
        let translation = session.translation.clone();
        BrowserState {
            active_panel: Panel::from_index(session.active_panel),
            book_list,
            chapter_list,
            verse_list: ListState::new(),
            scripture_scroll: session.scroll_position,
            selected_book_idx: book_idx,
            selected_chapter,
            selected_verse: 0,
            current_chapter,
            translation,
            overlay: None,
            books_rect: Rect::zero(),
            chapters_rect: Rect::zero(),
            verses_rect: Rect::zero(),
            scripture_rect: Rect::zero(),
            status_flash: None,
            loading: false,
        }
    }
}

/// One step up in the active panel: the previous book (resetting the
/// chapter selection), the previous chapter, the previous verse (from the
/// first verse back to the whole chapter), or one line of scripture up.
pub open spec fn spec_move_up(s: BrowserState) -> BrowserState {
    match s.active_panel {
        Panel::Books => match s.book_list.selected {
            Some(i) => if i > 0 {
                spec_reset_chapter(
                    BrowserState {
                        book_list: spec_select(s.book_list, Some((i - 1) as usize)),
                        selected_book_idx: (i - 1) as usize,
                        ..s
                    },
                )
            } else {
                s
            },
            None => s,
        },
        Panel::Chapters => match s.chapter_list.selected {
            Some(i) => if i > 0 {
                BrowserState {
                    chapter_list: spec_select(s.chapter_list, Some((i - 1) as usize)),
                    selected_chapter: i as u32,
                    ..s
                }
            } else {
                s
            },
            None => s,
        },
        Panel::Verses => match s.verse_list.selected {
            Some(i) => if i > 0 {
                BrowserState {
                    verse_list: spec_select(s.verse_list, Some((i - 1) as usize)),
                    selected_verse: i as u32,
                    scripture_scroll: 0,
                    ..s
                }
            } else {
                BrowserState {
                    verse_list: spec_select(s.verse_list, None),
                    selected_verse: 0,
                    scripture_scroll: 0,
                    ..s
                }
            },
            None => s,
        },
        Panel::Scripture => BrowserState {
            scripture_scroll: if s.scripture_scroll > 0 { (s.scripture_scroll - 1) as u16 } else { 0 },
            ..s
        },
    }
}

/// In the verses panel, a step up from the verse at index `i > 0` selects
/// the verse just before it: index `i - 1`, verse number `i`, the chapter
/// and panel unchanged.
pub proof fn lemma_verse_step_up(s: BrowserState, i: usize)
    requires
        s.active_panel == Panel::Verses,
        s.verse_list.selected == Some(i),
        0 < i <= u32::MAX,
    ensures
        spec_move_up(s).verse_list.selected == Some((i - 1) as usize),
        spec_move_up(s).selected_verse == i,
        spec_move_up(s).current_chapter == s.current_chapter,
        spec_move_up(s).active_panel == Panel::Verses,
{
}

/// In the verses and chapters panels, a step down followed by a step up
/// returns to the same selection whenever there is a next item.
pub proof fn lemma_step_down_then_up(s: BrowserState, i: usize)
    requires
        s.active_panel == Panel::Verses || s.active_panel == Panel::Chapters,
        i + 2 <= u32::MAX,
        s.active_panel == Panel::Verses ==> s.verse_list.selected == Some(i) && i + 1 < verse_count(s.current_chapter),
        s.active_panel == Panel::Chapters ==> s.chapter_list.selected == Some(i) && i + 1 < spec_book_chapters(s.selected_book_idx as int),
    ensures
        s.active_panel == Panel::Verses ==> spec_move_up(spec_move_down(s)).verse_list.selected == Some(i)
            && spec_move_up(spec_move_down(s)).selected_verse == i + 1,
        s.active_panel == Panel::Chapters ==> spec_move_up(spec_move_down(s)).chapter_list.selected == Some(i)
            && spec_move_up(spec_move_down(s)).selected_chapter == i + 1,
{
}

/// One step down in the active panel: the next book (resetting the
/// chapter selection), the next chapter of the book, the next verse of the
/// loaded chapter (the first one when none was selected), or one line of
/// scripture down.
pub open spec fn spec_move_down(s: BrowserState) -> BrowserState {
    match s.active_panel {
        Panel::Books => match s.book_list.selected {
            Some(i) => if i < 65 {
                spec_reset_chapter(
                    BrowserState {
                        book_list: spec_select(s.book_list, Some((i + 1) as usize)),
                        selected_book_idx: (i + 1) as usize,
                        ..s
                    },
                )
            } else {
                s
            },
            None => s,
        },
        Panel::Chapters => match s.chapter_list.selected {
            Some(i) => if i + 1 < spec_book_chapters(s.selected_book_idx as int) {
                BrowserState {
                    chapter_list: spec_select(s.chapter_list, Some((i + 1) as usize)),
                    selected_chapter: (i + 2) as u32,
                    ..s
                }
            } else {
                s
            },
            None => s,
        },
        Panel::Verses => match s.verse_list.selected {
            Some(i) => if i + 1 < verse_count(s.current_chapter) {
                BrowserState {
                    verse_list: spec_select(s.verse_list, Some((i + 1) as usize)),
                    selected_verse: (i + 2) as u32,
                    scripture_scroll: 0,
                    ..s
                }
            } else {
                s
            },
            None => if verse_count(s.current_chapter) > 0 {
                BrowserState {
                    verse_list: spec_select(s.verse_list, Some(0)),
                    selected_verse: 1,
                    scripture_scroll: 0,
                    ..s
                }
            } else {
                s
            },
        },
        Panel::Scripture => BrowserState {
            scripture_scroll: if s.scripture_scroll < u16::MAX { (s.scripture_scroll + 1) as u16 } else { u16::MAX },
            ..s
        },
    }
}

impl BrowserState {
    /// Selects the first chapter of a newly chosen book and forgets the
    /// loaded chapter and the verse selection.
    fn reset_chapter_selection(&mut self)
        ensures
            *final(self) == spec_reset_chapter(*old(self)),
    {
        self.chapter_list.select(Some(0));
        self.selected_chapter = 1;
        self.current_chapter = None;
        self.verse_list.select(None);
        self.selected_verse = 0;
        self.scripture_scroll = 0;
    }

    /// Moves the selection of the active panel one step up.
    pub fn move_up(&mut self)
        requires
            old(self).wf(),
        ensures
            *final(self) == spec_move_up(*old(self)),
            final(self).wf(),
    {
        match self.active_panel {
            Panel::Books => {
                if let Some(i) = self.book_list.selected() {
                    if i > 0 {
                        self.book_list.select(Some(i - 1));
                        self.selected_book_idx = i - 1;
                        self.reset_chapter_selection();
                    }
                }
            },
            Panel::Chapters => {
                if let Some(i) = self.chapter_list.selected() {
                    if i > 0 {
                        self.chapter_list.select(Some(i - 1));
                        self.selected_chapter = i as u32;
                    }
                }
            },
            Panel::Verses => {
                match self.verse_list.selected() {
                    Some(i) => {
                        if i > 0 {
                            self.verse_list.select(Some(i - 1));
                            self.selected_verse = i as u32;
                            self.scripture_scroll = 0;
                        } else {
                            self.verse_list.select(None);
                            self.selected_verse = 0;
                            self.scripture_scroll = 0;
                        }
                    },
                    None => {},
                }
            },
            Panel::Scripture => {
                self.scripture_scroll = self.scripture_scroll.saturating_sub(1);
            },
        }
    }

    /// Moves the selection of the active panel one step down.
    pub fn move_down(&mut self)
        requires
            old(self).wf(),
        ensures
            *final(self) == spec_move_down(*old(self)),
            final(self).wf(),
    {
        match self.active_panel {
            Panel::Books => {
                if let Some(i) = self.book_list.selected() {
                    if i < 65 {
                        self.book_list.select(Some(i + 1));
                        self.selected_book_idx = i + 1;
                        self.reset_chapter_selection();
                    }
                }
            },
            Panel::Chapters => {
                let max = book_info(self.selected_book_idx).chapters as usize;
                proof {
                    lemma_book_chapters_bounds(self.selected_book_idx as int);
                }
                if let Some(i) = self.chapter_list.selected() {
                    if i < max - 1 {
                        self.chapter_list.select(Some(i + 1));
                        self.selected_chapter = (i + 2) as u32;
                    }
                }
            },
            Panel::Verses => {
                let max: usize = match &self.current_chapter {
                    Some(c) => c.verses.len(),
                    None => 0,
                };
                match self.verse_list.selected() {
                    Some(i) => {
                        if i < max.saturating_sub(1) {
                            self.verse_list.select(Some(i + 1));
                            self.selected_verse = (i + 2) as u32;
                            self.scripture_scroll = 0;
                        }
                    },
                    None => {
                        if max > 0 {
                            self.verse_list.select(Some(0));
                            self.selected_verse = 1;
                            self.scripture_scroll = 0;
                        }
                    },
                }
            },
            Panel::Scripture => {
                self.scripture_scroll = self.scripture_scroll.saturating_add(1);
            },
        }
    }
}

/// The selection after a jump to book number `book_num`, chapter
/// `chapter`, before the chapter is loaded.
pub open spec fn spec_jump_target(s: BrowserState, book_num: u32, chapter: u32) -> BrowserState {
    let idx: usize = if book_num >= 1 { (book_num - 1) as usize } else { 0 };
    BrowserState {
        selected_book_idx: idx,
        selected_chapter: chapter,
        book_list: spec_select(s.book_list, Some(idx)),
        chapter_list: spec_select(s.chapter_list, Some(if chapter >= 1 { (chapter - 1) as usize } else { 0 })),
        ..s
    }
}

/// The state after a jump once the load left `l` (chapter and status
/// message, as `spec_loaded` says): verse
/// `verse` selected (none for 0) and the scripture panel active.
pub open spec fn spec_jumped(s: BrowserState, book_num: u32, chapter: u32, verse: u32, l: (Option<Chapter>, Option<StatusFlash>)) -> BrowserState {
    let loaded = spec_loaded(spec_jump_target(s, book_num, chapter), l);
    BrowserState {
        verse_list: if verse > 0 { spec_select(loaded.verse_list, Some((verse - 1) as usize)) } else { loaded.verse_list },
        selected_verse: verse,
        active_panel: Panel::Scripture,
        ..loaded
    }
}

/// Entering the verses panel loads the selected chapter, and so does
/// entering the scripture panel when no chapter is loaded.
pub open spec fn focus_loads(s: BrowserState) -> bool {
    let n = spec_panel_next(s.active_panel);
    n != s.active_panel && (n == Panel::Verses || (n == Panel::Scripture && s.current_chapter is None))
}

impl BrowserState {
    /// Loads the selected chapter from the database, clearing the verse
    /// selection and scrolling the scripture to the top; an empty result
    /// leaves no chapter loaded, and a chapter that cannot be read at all
    /// (the translation has no table) also shows an error naming the
    /// translation.
    pub fn load_chapter(&mut self, conn: &Connection)
        requires
            old(self).wf(),
        ensures
            *final(self) == spec_loaded(*old(self), loaded_of(*final(self))),
            load_flash(*old(self), loaded_of(*final(self))),
            chapter_fits(final(self).current_chapter, old(self).selected_book_idx, old(self).selected_chapter, old(self).translation@),
    {
        let ghost s0 = *self;
        let read = Self::read_chapter(conn, self.translation.as_str(), self.selected_book_idx, self.selected_chapter);
        let ghost rc = read;
        let (c, failed) = read;
        self.current_chapter = c;
        self.verse_list.select(None);
        self.selected_verse = 0;
        self.scripture_scroll = 0;
        if failed {
            let message = unreadable_message(self.translation.as_str());
            let now = clock_ms();
            self.status_flash = Some(StatusFlash { message, shown_at_ms: now });
        }
        proof {
            let r = choose|r: Option<Vec<Verse>>| #[trigger] chapter_of_read(r, s0.selected_book_idx, s0.selected_chapter, rc);
            assert(read_left(s0.translation@, s0.status_flash, r, loaded_of(*self)));
        }
    }

    /// Activates the next panel, loading the chapter on the way where
    /// `focus_loads` says so.
    pub fn focus_next(&mut self, conn: &Connection)
        requires
            old(self).wf(),
        ensures
            final(self).wf(),
            focus_loads(*old(self)) ==> *final(self) == (BrowserState {
                active_panel: spec_panel_next(old(self).active_panel),
                ..spec_loaded(*old(self), loaded_of(*final(self)))
            }) && load_flash(*old(self), loaded_of(*final(self))) && chapter_fits(final(self).current_chapter, old(self).selected_book_idx, old(self).selected_chapter, old(self).translation@),
            !focus_loads(*old(self)) ==> *final(self) == (BrowserState {
                active_panel: spec_panel_next(old(self).active_panel),
                ..*old(self)
            }),
    {
        let next = self.active_panel.next();
        if next != self.active_panel {
            if next == Panel::Verses || (next == Panel::Scripture && self.current_chapter.is_none()) {
                self.load_chapter(conn);
            }
            self.active_panel = next;
        }
    }

    /// Activates the previous panel.
    pub fn focus_prev(&mut self)
        ensures
            *final(self) == (BrowserState { active_panel: spec_panel_prev(old(self).active_panel), ..*old(self) }),
    {
        self.active_panel = self.active_panel.prev();
    }

    /// Shows book number `book_num` (0 counts as the first book), chapter
    /// `chapter`, loads it and selects verse `verse` (none for 0) in the
    /// scripture panel.
    pub fn jump_to_verse(&mut self, conn: &Connection, book_num: u32, chapter: u32, verse: u32)
        requires
            old(self).wf(),
            book_num <= 66,
        ensures
            final(self).wf(),
            *final(self) == spec_jumped(*old(self), book_num, chapter, verse, loaded_of(*final(self))),
            load_flash(*old(self), loaded_of(*final(self))),
            chapter_fits(final(self).current_chapter, final(self).selected_book_idx, chapter, old(self).translation@),
    {
        self.selected_book_idx = book_num.saturating_sub(1) as usize;
        self.selected_chapter = chapter;
        self.book_list.select(Some(self.selected_book_idx));
        self.chapter_list.select(Some(chapter.saturating_sub(1) as usize));
        self.load_chapter(conn);
        if verse > 0 {
            self.verse_list.select(Some(verse.saturating_sub(1) as usize));
            self.selected_verse = verse;
        }
        self.active_panel = Panel::Scripture;
    }

    /// The session to save: the selected book, chapter, scroll, panel and
    /// translation, with theme `theme` and highlights shown.
    pub fn to_session(&self, theme: ThemeName) -> (s: SessionState)
        ensures
            s.book_index == self.selected_book_idx,
            s.chapter == self.selected_chapter,
            s.scroll_position == self.scripture_scroll,
            s.active_panel == panel_code(self.active_panel),
            s.theme == theme,
            s.translation@ == self.translation@,
            s.highlights_visible,
    {
        SessionState {
            book_index: self.selected_book_idx,
            chapter: self.selected_chapter,
            scroll_position: self.scripture_scroll,
            active_panel: self.active_panel.index(),
            theme,
            translation: self.translation.clone(),
            highlights_visible: true,
        }
    }
}

/// Saving the reader to a session and starting from that session again
/// restores the reading position: the same book, chapter (when it is one of
/// the book's chapters), panel, scroll and translation.
pub proof fn lemma_session_round_trip(s: BrowserState, saved: SessionState, restored: BrowserState)
    requires
        s.wf(),
        1 <= s.selected_chapter <= spec_book_chapters(s.selected_book_idx as int),
        saved.book_index == s.selected_book_idx,
        saved.chapter == s.selected_chapter,
        saved.scroll_position == s.scripture_scroll,
        saved.active_panel == panel_code(s.active_panel),
        saved.translation@ == s.translation@,
        restored.selected_book_idx == (if saved.book_index < 65 { saved.book_index } else { 65 }),
        restored.selected_chapter == clamp_chapter(saved.chapter, restored.selected_book_idx as int),
        restored.scripture_scroll == saved.scroll_position,
        restored.active_panel == panel_from_index(saved.active_panel),
        restored.translation@ == saved.translation@,
    ensures
        restored.selected_book_idx == s.selected_book_idx,
        restored.selected_chapter == s.selected_chapter,
        restored.active_panel == s.active_panel,
        restored.scripture_scroll == s.scripture_scroll,
        restored.translation@ == s.translation@,
{
}

/// What the mouse did.
#[derive(Debug, Clone, Copy, PartialEq, Eq, Structural)]
pub enum MouseKind {
    LeftDown,
    ScrollDown,
    ScrollUp,
    Other,
}

/// A mouse event at a terminal cell.
#[derive(Debug, Clone, Copy, PartialEq, Eq, Structural)]
pub struct MouseInput {
    pub kind: MouseKind,
    pub column: u16,
    pub row: u16,
}

/// The list item under screen row `row` of a bordered list at `rect`
/// scrolled to `offset`: the border takes the first row.
pub open spec fn item_under(rect: Rect, row: u16, offset: usize) -> int {
    offset + (if row > rect.y + 1 { row - (rect.y + 1) } else { 0 })
}

/// The panel whose area holds cell `(col, row)`, trying books, chapters,
/// verses and scripture in that order.
pub open spec fn panel_at(s: BrowserState, col: u16, row: u16) -> Option<Panel> {
    if spec_contains(s.books_rect, col, row) {
        Some(Panel::Books)
    } else if spec_contains(s.chapters_rect, col, row) {
        Some(Panel::Chapters)
    } else if spec_contains(s.verses_rect, col, row) {
        Some(Panel::Verses)
    } else if spec_contains(s.scripture_rect, col, row) {
        Some(Panel::Scripture)
    } else {
        None
    }
}

/// Whether a mouse event loads a chapter: a click on an existing chapter,
/// or a click in the verses panel while no chapter is loaded.
pub open spec fn mouse_loads(s: BrowserState, m: MouseInput) -> bool {
    &&& m.kind == MouseKind::LeftDown
    &&& ({
        ||| panel_at(s, m.column, m.row) == Some(Panel::Chapters) && item_under(s.chapters_rect, m.row, s.chapter_list.offset)
            < spec_book_chapters(s.selected_book_idx as int)
        ||| panel_at(s, m.column, m.row) == Some(Panel::Verses) && s.current_chapter is None
    })
}

/// The state after a click at `(col, row)`, where `l` is what the load
/// left (chapter and status message) when the click loads one: the clicked panel becomes active, and a
/// click on a book, chapter or verse selects it (a chapter is then loaded,
/// a book resets the chapter selection).
pub open spec fn spec_click(s: BrowserState, col: u16, row: u16, l: (Option<Chapter>, Option<StatusFlash>)) -> BrowserState {
    match panel_at(s, col, row) {
        Some(Panel::Books) => {
            let s1 = BrowserState { active_panel: Panel::Books, ..s };
            let idx = item_under(s.books_rect, row, s.book_list.offset);
            if idx < 66 {
                spec_reset_chapter(
                    BrowserState {
                        book_list: spec_select(s1.book_list, Some(idx as usize)),
                        selected_book_idx: idx as usize,
                        ..s1
                    },
                )
            } else {
                s1
            }
        },
        Some(Panel::Chapters) => {
            let s1 = BrowserState { active_panel: Panel::Chapters, ..s };
            let idx = item_under(s.chapters_rect, row, s.chapter_list.offset);
            if idx < spec_book_chapters(s.selected_book_idx as int) {
                spec_loaded(
                    BrowserState {
                        chapter_list: spec_select(s1.chapter_list, Some(idx as usize)),
                        selected_chapter: (idx + 1) as u32,
                        ..s1
                    },
                    l,
                )
            } else {
                s1
            }
        },
        Some(Panel::Verses) => {
            let s1 = BrowserState { active_panel: Panel::Verses, ..s };
            let s2 = if s.current_chapter is None { spec_loaded(s1, l) } else { s1 };
            let idx = item_under(s.verses_rect, row, s2.verse_list.offset);
            if idx < verse_count(s2.current_chapter) {
                BrowserState {
                    verse_list: spec_select(s2.verse_list, Some(idx as usize)),
                    selected_verse: (idx + 1) as u32,
                    scripture_scroll: 0,
                    ..s2
                }
            } else {
                s2
            }
        },
        Some(Panel::Scripture) => BrowserState { active_panel: Panel::Scripture, ..s },
        None => s,
    }
}

/// The state after mouse event `m`, where `l` is what the load left
/// (chapter and status message) when the event loads one: clicks as `spec_click` says; the wheel over a
/// panel activates it and moves its selection one step.
pub open spec fn spec_mouse(s: BrowserState, m: MouseInput, l: (Option<Chapter>, Option<StatusFlash>)) -> BrowserState {
    match m.kind {
        MouseKind::LeftDown => spec_click(s, m.column, m.row, l),
        MouseKind::ScrollDown => match panel_at(s, m.column, m.row) {
            Some(p) => spec_move_down(BrowserState { active_panel: p, ..s }),
            None => s,
        },
        MouseKind::ScrollUp => match panel_at(s, m.column, m.row) {
            Some(p) => spec_move_up(BrowserState { active_panel: p, ..s }),
            None => s,
        },
        MouseKind::Other => s,
    }
}

impl BrowserState {
    /// The panel whose area holds cell `(col, row)`.
    fn panel_at(&self, col: u16, row: u16) -> (p: Option<Panel>)
        ensures
            p == panel_at(*self, col, row),
    {
        if self.books_rect.contains(col, row) {
            Some(Panel::Books)
        } else if self.chapters_rect.contains(col, row) {
            Some(Panel::Chapters)
        } else if self.verses_rect.contains(col, row) {
            Some(Panel::Verses)
        } else if self.scripture_rect.contains(col, row) {
            Some(Panel::Scripture)
        } else {
            None
        }
    }

    /// Handles a click or a wheel turn over the panels.
    pub fn handle_mouse(&mut self, mouse: MouseInput, conn: &Connection)
        requires
            old(self).wf(),
        ensures
            final(self).wf(),
            *final(self) == spec_mouse(*old(self), mouse, loaded_of(*final(self))),
            mouse_loads(*old(self), mouse) ==> load_flash(*old(self), loaded_of(*final(self))),
            mouse_loads(*old(self), mouse) ==> chapter_fits(
                final(self).current_chapter,
                final(self).selected_book_idx,
                final(self).selected_chapter,
                old(self).translation@,
            ),
    {
        let panel = self.panel_at(mouse.column, mouse.row);
        match mouse.kind {
            MouseKind::LeftDown => {
                match panel {
                    Some(Panel::Books) => {
                        self.active_panel = Panel::Books;
                        let row = mouse.row.saturating_sub(self.books_rect.y + 1) as usize;
                        let idx = self.book_list.offset().saturating_add(row);
                        if idx < 66 {
                            self.book_list.select(Some(idx));
                            self.selected_book_idx = idx;
                            self.reset_chapter_selection();
                        }
                    },
                    Some(Panel::Chapters) => {
                        self.active_panel = Panel::Chapters;
                        let row = mouse.row.saturating_sub(self.chapters_rect.y + 1) as usize;
                        let idx = self.chapter_list.offset().saturating_add(row);
                        let max = book_info(self.selected_book_idx).chapters as usize;
                        proof {
                            lemma_book_chapters_bounds(self.selected_book_idx as int);
                        }
                        if idx < max {
                            self.chapter_list.select(Some(idx));
                            self.selected_chapter = (idx + 1) as u32;
                            self.load_chapter(conn);
                        }
                    },
                    Some(Panel::Verses) => {
                        self.active_panel = Panel::Verses;
                        if self.current_chapter.is_none() {
                            self.load_chapter(conn);
                        }
                        let verse_count: usize = match &self.current_chapter {
                            Some(c) => c.verses.len(),
                            None => 0,
                        };
                        if verse_count > 0 {
                            let row = mouse.row.saturating_sub(self.verses_rect.y + 1) as usize;
                            let idx = self.verse_list.offset().saturating_add(row);
                            if idx < verse_count {
                                self.verse_list.select(Some(idx));
                                self.selected_verse = (idx + 1) as u32;
                                self.scripture_scroll = 0;
                            }
                        }
                    },
                    Some(Panel::Scripture) => {
                        self.active_panel = Panel::Scripture;
                    },
                    None => {},
                }
            },
            MouseKind::ScrollDown => {
                if let Some(p) = panel {
                    self.active_panel = p;
                    self.move_down();
                }
            },
            MouseKind::ScrollUp => {
                if let Some(p) = panel {
                    self.active_panel = p;
                    self.move_up();
                }
            },
            MouseKind::Other => {},
        }
    }
}

/// A status message is shown until more than two seconds have passed (a
/// clock that went back counts as no time passed).
pub open spec fn spec_flash_active(f: StatusFlash, now_ms: u64) -> bool {
    now_ms < f.shown_at_ms || now_ms - f.shown_at_ms <= FLASH_MS
}

/// The left part of the status bar: the status message, the quit hint, or
/// the key summary.
pub open spec fn spec_status_left(flash: Option<StatusFlash>, quit_pending: bool) -> Seq<char> {
    match flash {
        Some(f) => f.message@,
        None => if quit_pending {
            "press q again to quit"@
        } else {
            "q: quit | t: theme | /: search | b: bookmark | r: random | v: version"@
        },
    }
}

/// The status bar: its left part, the translation and the theme name.
pub open spec fn spec_status_text(left: Seq<char>, translation: Seq<char>, theme_label: Seq<char>) -> Seq<char> {
    " "@ + left + " \u{2502} "@ + translation + " \u{2502} "@ + theme_label
}

/// A panel title with a star marking the active panel.
pub open spec fn spec_panel_title(title: Seq<char>, active: bool) -> Seq<char> {
    " ["@ + (if active { "*"@ } else { " "@ }) + "] "@ + title + " "@
}

/// The verses shown in the scripture panel, as a range of indices into the
/// loaded chapter: the selected verse alone, or every verse when none is
/// selected (nothing when the selection is past the end).
pub open spec fn spec_scripture_range(c: Option<Chapter>, selected: Option<usize>) -> (int, int) {
    match c {
        None => (0, 0),
        Some(ch) => match selected {
            None => (0, ch.verses@.len() as int),
            Some(i) => if i < ch.verses@.len() { (i as int, i + 1) } else { (0, 0) },
        },
    }
}

impl BrowserState {
    /// Shows `message` in the status bar from time `now_ms` on.
    pub fn show_flash(&mut self, message: String, now_ms: u64)
        ensures
            *final(self) == (BrowserState {
                status_flash: Some(StatusFlash { message, shown_at_ms: now_ms }),
                ..*old(self)
            }),
    {
        self.status_flash = Some(StatusFlash { message, shown_at_ms: now_ms });
    }

    /// Drops the status message once more than two seconds have passed.
    pub fn expire_flash(&mut self, now_ms: u64)
        ensures
            *final(self) == (BrowserState {
                status_flash: match old(self).status_flash {
                    Some(f) => if spec_flash_active(f, now_ms) { Some(f) } else { None },
                    None => None,
                },
                ..*old(self)
            }),
    {
        let active = match &self.status_flash {
            Some(f) => now_ms < f.shown_at_ms || now_ms - f.shown_at_ms <= FLASH_MS,
            None => false,
        };
        if !active {
            self.status_flash = None;
        }
    }

    /// The text of the status bar.
    pub fn status_text(&self, quit_pending: bool, theme_label: &str) -> (r: String)
        ensures
            r@ == spec_status_text(spec_status_left(self.status_flash, quit_pending), self.translation@, theme_label@),
    {
        let mut out: Vec<char> = Vec::new();
        extend_str(&mut out, " ");
        match &self.status_flash {
            Some(f) => extend_str(&mut out, f.message.as_str()),
            None => {
                if quit_pending {
                    extend_str(&mut out, "press q again to quit");
                } else {
                    extend_str(&mut out, "q: quit | t: theme | /: search | b: bookmark | r: random | v: version");
                }
            },
        }
        extend_str(&mut out, " \u{2502} ");
        extend_str(&mut out, self.translation.as_str());
        extend_str(&mut out, " \u{2502} ");
        extend_str(&mut out, theme_label);
        string_from_chars(out.as_slice())
    }

    /// The indices of the verses the scripture panel shows.
    pub fn scripture_range(&self) -> (r: (usize, usize))
        ensures
            (r.0 as int, r.1 as int) == spec_scripture_range(self.current_chapter, self.verse_list.selected),
    {
        match &self.current_chapter {
            None => (0, 0),
            Some(ch) => match self.verse_list.selected {
                None => (0, ch.verses.len()),
                Some(i) => if i < ch.verses.len() {
                    (i, i + 1)
                } else {
                    (0, 0)
                },
            },
        }
    }

    /// Applies the outcome of a background fetch of chapter `chapter` of
    /// the book at `book_idx`: verses become the loaded chapter (none when
    /// there are no verses) and an error becomes the status message; both
    /// end the loading state. A fetch still running changes nothing.
    pub fn apply_fetch(&mut self, book_idx: usize, chapter: u32, result: FetchResult, now_ms: u64)
        requires
            result is Ready ==> book_idx < 66,
        ensures
            match result {
                FetchResult::Ready(verses) => *final(self) == (BrowserState {
                    loading: false,
                    current_chapter: if verses@.len() == 0 {
                        None
                    } else {
                        Some(Chapter { book: final(self).current_chapter->0.book, chapter, verses })
                    },
                    ..*old(self)
                }) && (verses@.len() > 0 ==> final(self).current_chapter->0.book@ == spec_book_name(book_idx as int)),
                FetchResult::Error(msg) => *final(self) == (BrowserState {
                    loading: false,
                    status_flash: Some(StatusFlash { message: msg, shown_at_ms: now_ms }),
                    ..*old(self)
                }),
                FetchResult::Loading => *final(self) == *old(self),
            },
    {
        match result {
            FetchResult::Ready(verses) => {
                self.loading = false;
                if verses.len() == 0 {
                    self.current_chapter = None;
                } else {
                    self.current_chapter = Some(Chapter { book: String::from_str(book_info(book_idx).name), chapter, verses });
                }
            },
            FetchResult::Error(msg) => {
                self.loading = false;
                self.status_flash = Some(StatusFlash { message: msg, shown_at_ms: now_ms });
            },
            FetchResult::Loading => {},
        }
    }
}

/// The title of a panel, marked when `active`.
pub fn panel_title(title: &str, active: bool) -> (r: String)
    ensures
        r@ == spec_panel_title(title@, active),
{
    let mut out: Vec<char> = Vec::new();
    extend_str(&mut out, " [");
    if active {
        extend_str(&mut out, "*");
    } else {
        extend_str(&mut out, " ");
    }
    extend_str(&mut out, "] ");
    extend_str(&mut out, title);
    extend_str(&mut out, " ");
    string_from_chars(out.as_slice())
}

/// In the books panel, one step down and one step up come back to the same
/// book, and one step up from the first book stays there.
pub proof fn lemma_books_down_up(s: BrowserState)
    requires
        s.wf(),
        s.active_panel == Panel::Books,
    ensures
        s.selected_book_idx < 65 ==> spec_move_up(spec_move_down(s)).selected_book_idx == s.selected_book_idx,
        s.selected_book_idx == 0 ==> spec_move_up(s) == s,
        spec_move_down(s).wf() && spec_move_up(s).wf(),
{
}

/// In the chapters panel, one step down and one step up come back to the
/// same chapter when the book has a next chapter.
pub proof fn lemma_chapters_down_up(s: BrowserState, i: usize)
    requires
        s.active_panel == Panel::Chapters,
        s.chapter_list.selected == Some(i),
        i + 1 < spec_book_chapters(s.selected_book_idx as int),
    ensures
        spec_move_up(spec_move_down(s)).selected_chapter == i + 1,
        spec_move_up(spec_move_down(s)).chapter_list.selected == Some(i),
{
}

/// In the verses panel, a step up from the first verse goes back to the
/// whole chapter, and a step down from there selects the first verse again
/// when the chapter has verses.
pub proof fn lemma_verses_up_from_first(s: BrowserState)
    requires
        s.active_panel == Panel::Verses,
        s.verse_list.selected == Some(0usize),
    ensures
        spec_move_up(s).verse_list.selected is None,
        spec_move_up(s).selected_verse == 0,
        verse_count(s.current_chapter) > 0 ==> spec_move_down(spec_move_up(s)).verse_list.selected == Some(0usize)
            && spec_move_down(spec_move_up(s)).selected_verse == 1,
{
}

} // verus!
