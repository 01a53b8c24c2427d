//! The reader application: what each key press and mouse event does to the
//! screen, the bookmarks, highlights and notes, and which chapter fetches
//! to start. Terminal input, drawing, files and threads are left to the
//! caller, which performs the effects each step returns.
use vstd::prelude::*;
use vstd::string::*;

use rusqlite::Connection;

use crate::api::cache::CacheDb;
use crate::api::cache::CachedVersion;
use crate::bible::resolver::cache_resolution;
use crate::bible::types::Verse;
use crate::text::uppercase_of;
use crate::bible::books::book_info;
use crate::bible::books::book_num_by_name;
use crate::bible::books::spec_book_name;
use crate::bible::db;
use crate::bible::is_bundled_translation;
use crate::bible::resolver::resolve_step;
use crate::bible::resolver::spec_usfm_reference;
use crate::bible::resolver::spec_not_found_message;
use crate::bible::resolver::ChapterResolver;
use crate::bible::resolver::FetchRequest;
use crate::bible::resolver::FetchResult;
use crate::bible::resolver::poll_reports;
use crate::bible::resolver::Received;
use crate::bible::resolver::ResolveStep;
use crate::bible::spec_is_bundled;
use crate::bible::spec_translation_code;
use crate::bible::translation_info;
use crate::bible::TRANSLATION_COUNT;
use crate::bible::types::Chapter;
use crate::bible::types::SearchResult;
use crate::config::bookmarks::has_bookmark;
use crate::config::bookmarks::spec_add;
use crate::config::bookmarks::BookmarkEntry;
use crate::config::highlights::build_map;
use crate::config::highlights::spec_color_label;
use crate::config::highlights::spec_toggle;
use crate::config::highlights::HighlightColor;
use crate::config::highlights::hl_views;
use crate::config::highlights::spec_build_map;
use crate::config::highlights::HighlightEntry;
use crate::config::highlights::HighlightMap;
use crate::config::notes::note_views;
use crate::config::notes::spec_find;
use crate::config::notes::spec_remove;
use crate::config::notes::spec_upsert;
use crate::config::notes::NoteEntry;
use crate::config::providers::ProvidersConfig;
use crate::config::session::SessionState;
use crate::ui::banner::BannerState;
use crate::ui::browser::chapter_fits;
use crate::ui::browser::focus_loads;
use crate::ui::browser::mouse_loads;
use crate::ui::browser::opened_at;
use crate::ui::browser::spec_jump_target;
use crate::ui::browser::spec_jumped;
use crate::ui::browser::spec_mouse;
use crate::ui::browser::spec_panel_next;
use crate::ui::browser::MouseInput;
use crate::ui::browser::OverlayKind;
use crate::ui::bookmarks::BookmarkListState;
use crate::ui::help::HelpState;
use crate::ui::highlight_list::HighlightListState;
use crate::ui::note_list::NoteListState;
use crate::ui::translation::TranslationPickerState;
use crate::ui::browser::Panel;
use crate::ui::browser::panel_from_index;
use crate::ui::browser::spec_loaded;
use crate::ui::browser::loaded_of;
use crate::ui::browser::load_flash;
use crate::ui::browser::BrowserState;
use crate::ui::browser::StatusFlash;
use crate::ui::theme::spec_next_theme;
use crate::ui::theme::ThemeName;
use crate::text::chars_of;
use crate::text::extend_str;
use crate::text::first_chars;
use crate::text::spec_first_chars;
use crate::text::spec_verse_reference;
use crate::text::verse_reference;
use crate::text::is_blank;
use crate::text::string_from_chars;
use crate::text::trim_spec;
use crate::ui::layout::spec_index_after_removal;
use crate::ui::layout::spec_next_index;
use crate::ui::layout::spec_select;
use crate::ui::layout::ListState;
use crate::ui::notes::initial_lines;
use crate::ui::notes::join_lines;
use crate::ui::notes::EditorModel;
use crate::ui::notes::spec_delete_char;
use crate::ui::notes::spec_insert_char;
use crate::ui::notes::spec_insert_newline;
use crate::ui::notes::spec_move_down;
use crate::ui::notes::spec_move_left;
use crate::ui::notes::spec_move_right;
use crate::ui::notes::spec_move_up;
use crate::ui::notes::NoteEditorState;
use crate::ui::search::byte_len;
use crate::ui::search::SearchState;

verus! {

broadcast use vstd::string::group_string_axioms;

/// A key press, as far as the reader tells keys apart.
#[derive(Debug, Clone, Copy, PartialEq, Eq, Structural)]
pub enum Key {
    Char(char),
    Enter,
    Backspace,
    Up,
    Down,
    Left,
    Right,
    Esc,
    Tab,
    Other,
}

/// What a key does in a list overlay.
#[derive(Debug, Clone, Copy, PartialEq, Eq, Structural)]
pub enum ListAction {
    Stay,
    Close,
    Open(usize),
    Delete(usize),
}

/// Moving down is `j` or the down arrow.
pub open spec fn is_down(key: Key) -> bool {
    key == Key::Char('j') || key == Key::Down
}

/// Moving up is `k` or the up arrow.
pub open spec fn is_up(key: Key) -> bool {
    key == Key::Char('k') || key == Key::Up
}

/// The list state and action after `key` in a list of `len` items: `j`
/// and `k` (or the arrows) move the selection, Enter opens the selected
/// item when it exists, Esc closes the list.
pub open spec fn spec_list_nav(list: ListState, len: usize, key: Key) -> (ListState, ListAction) {
    if is_down(key) {
        (if len > 0 { spec_select(list, Some(spec_next_index(list.selected, len))) } else { list }, ListAction::Stay)
    } else if is_up(key) {
        (
            match list.selected {
                Some(i) => if i > 0 { spec_select(list, Some((i - 1) as usize)) } else { list },
                None => list,
            },
            ListAction::Stay,
        )
    } else if key == Key::Enter {
        (
            list,
            match list.selected {
                Some(i) => if i < len { ListAction::Open(i) } else { ListAction::Stay },
                None => ListAction::Stay,
            },
        )
    } else if key == Key::Esc {
        (list, ListAction::Close)
    } else {
        (list, ListAction::Stay)
    }
}

/// Moves through a list of `len` items.
pub fn list_nav_key(list: &mut ListState, len: usize, key: Key) -> (a: ListAction)
    ensures
        (*final(list), a) == spec_list_nav(*old(list), len, key),
{
    match key {
        Key::Char('j') | Key::Down => {
            list.select_next(len);
            ListAction::Stay
        },
        Key::Char('k') | Key::Up => {
            list.select_prev();
            ListAction::Stay
        },
        Key::Enter => match list.selected() {
            Some(i) => if i < len {
                ListAction::Open(i)
            } else {
                ListAction::Stay
            },
            None => ListAction::Stay,
        },
        Key::Esc => ListAction::Close,
        _ => ListAction::Stay,
    }
}

/// The list state and action after `key` in a list of `len` items where
/// `d` deletes the selected item and keeps a valid item selected; when
/// `existing_only`, only an item that exists is deleted.
pub open spec fn spec_list_delete_key(list: ListState, len: usize, key: Key, existing_only: bool) -> (
    ListState,
    ListAction,
) {
    if key == Key::Char('d') {
        match list.selected {
            Some(i) => if !existing_only || i < len {
                (spec_select(list, spec_index_after_removal(i, len)), ListAction::Delete(i))
            } else {
                (list, ListAction::Stay)
            },
            None => (list, ListAction::Stay),
        }
    } else {
        spec_list_nav(list, len, key)
    }
}

/// Moves through, opens or deletes from a list of `len` items.
pub fn list_delete_key(list: &mut ListState, len: usize, key: Key, existing_only: bool) -> (a: ListAction)
    ensures
        (*final(list), a) == spec_list_delete_key(*old(list), len, key, existing_only),
{
    if key == Key::Char('d') {
        match list.selected() {
            Some(i) => {
                if !existing_only || i < len {
                    list.select_after_removal(i, len);
                    ListAction::Delete(i)
                } else {
                    ListAction::Stay
                }
            },
            None => ListAction::Stay,
        }
    } else {
        list_nav_key(list, len, key)
    }
}

/// The translation picker: like any list of `count` items, and `v` closes
/// it too.
pub fn picker_key(list: &mut ListState, count: usize, key: Key) -> (a: ListAction)
    ensures
        key == Key::Char('v') ==> *final(list) == *old(list) && a == ListAction::Close,
        key != Key::Char('v') ==> (*final(list), a) == spec_list_nav(*old(list), count, key),
{
    if key == Key::Char('v') {
        ListAction::Close
    } else {
        list_nav_key(list, count, key)
    }
}

/// What a key does in the quit dialog.
#[derive(Debug, Clone, Copy, PartialEq, Eq, Structural)]
pub enum QuitAction {
    Stay,
    Close,
    Quit,
}

/// `y` or Enter quits; `n`, `q` or Esc closes the dialog.
pub open spec fn spec_quit_key(key: Key) -> QuitAction {
    if key == Key::Char('y') || key == Key::Enter {
        QuitAction::Quit
    } else if key == Key::Char('n') || key == Key::Esc || key == Key::Char('q') {
        QuitAction::Close
    } else {
        QuitAction::Stay
    }
}

/// Answers the quit dialog.
pub fn quit_key(key: Key) -> (a: QuitAction)
    ensures
        a == spec_quit_key(key),
{
    match key {
        Key::Char('y') | Key::Enter => QuitAction::Quit,
        Key::Char('n') | Key::Esc | Key::Char('q') => QuitAction::Close,
        _ => QuitAction::Stay,
    }
}

/// What a key does in the note editor.
pub enum EditorAction {
    Stay,
    Close,
    Save(String),
    Delete,
}

/// Saving is Ctrl-S.
pub open spec fn is_save(key: Key, ctrl: bool) -> bool {
    key == Key::Char('s') && ctrl
}

/// What a key does in the note editor (see `editor_key`): `old` and `new`
/// are the editor before and after, `a` the action.
pub open spec fn editor_key_post(old: NoteEditorState, new: NoteEditorState, key: Key, ctrl: bool, a: EditorAction) -> bool {
    &&& is_save(key, ctrl) ==> new == old && match a {
        EditorAction::Save(t) => t@ == join_lines(old.model().lines) && trim_spec(t@).len() > 0,
        EditorAction::Delete => trim_spec(join_lines(old.model().lines)).len() == 0,
        _ => false,
    }
    &&& key == Key::Esc ==> new == old && a is Close
    &&& !is_save(key, ctrl) && key != Key::Esc ==> a is Stay
    &&& !is_save(key, ctrl) && key != Key::Esc && old.spec_within_limits() ==> new.same_frame(&old)
        && new.model() == match key {
        Key::Enter => spec_insert_newline(old.model()),
        Key::Char(c) => spec_insert_char(old.model(), c),
        Key::Backspace => spec_delete_char(old.model()),
        Key::Left => spec_move_left(old.model()),
        Key::Right => spec_move_right(old.model()),
        Key::Up => spec_move_up(old.model(), old.last_width as int),
        Key::Down => spec_move_down(old.model(), old.last_width as int),
        _ => old.model(),
    }
    &&& !is_save(key, ctrl) && key != Key::Esc && !old.spec_within_limits() ==> new == old
}

/// Edits the note: Ctrl-S saves the text (a blank text deletes the note)
/// and closes the editor, Esc closes it without saving, Enter, typed
/// characters and Backspace edit, the arrows move the cursor. An editor past
/// the limits that editing needs (`spec_within_limits`) ignores editing
/// keys.
pub fn editor_key(editor: &mut NoteEditorState, key: Key, ctrl: bool) -> (a: EditorAction)
    ensures
        editor_key_post(*old(editor), *final(editor), key, ctrl, a),
{
    if key == Key::Char('s') && ctrl {
        let text = editor.to_text();
        let chars = chars_of(text.as_str());
        if is_blank(&chars) {
            return EditorAction::Delete;
        } else {
            return EditorAction::Save(text);
        }
    }
    if key == Key::Esc {
        return EditorAction::Close;
    }
    if !editor.within_limits() {
        return EditorAction::Stay;
    }
    match key {
        Key::Enter => editor.insert_newline(),
        Key::Char(c) => editor.insert_char(c),
        Key::Backspace => editor.delete_char(),
        Key::Left => editor.move_cursor_left(),
        Key::Right => editor.move_cursor_right(),
        Key::Up => {
            let w = editor.last_width;
            editor.move_cursor_up(w);
        },
        Key::Down => {
            let w = editor.last_width;
            editor.move_cursor_down(w);
        },
        _ => {},
    }
    EditorAction::Stay
}

/// The query after `key` in the search box: a typed character is appended,
/// Backspace removes the last one.
pub open spec fn spec_edited_query(query: Seq<char>, key: Key) -> Seq<char> {
    match key {
        Key::Char(c) => query.push(c),
        Key::Backspace => if query.len() > 0 { query.drop_last() } else { query },
        _ => query,
    }
}

/// Every hit names its book by the book's number.
pub open spec fn hits_name_books(hits: Seq<SearchResult>) -> bool {
    forall|i: int|
        0 <= i < hits.len() ==> (#[trigger] hits[i]).book@ == crate::bible::books::spec_book_name_of(hits[i].book_num as int)
}

/// The help menu after `key`, and whether it closes: Tab and `l` show the
/// next tab, `h` the previous one (both wrapping around, scrolled back to
/// the top), `j` and `k` scroll by one line, Esc closes the menu.
pub open spec fn spec_help_key(h: HelpState, key: Key) -> (HelpState, bool) {
    if key == Key::Tab || key == Key::Char('l') {
        (HelpState { active_tab: if h.active_tab < 3 { (h.active_tab + 1) as usize } else { 0 }, scroll: 0, ..h }, false)
    } else if key == Key::Char('h') {
        (HelpState { active_tab: if 1 <= h.active_tab <= 3 { (h.active_tab - 1) as usize } else { 3 }, scroll: 0, ..h }, false)
    } else if key == Key::Char('j') {
        (HelpState { scroll: if h.scroll < u16::MAX { (h.scroll + 1) as u16 } else { u16::MAX }, ..h }, false)
    } else if key == Key::Char('k') {
        (HelpState { scroll: if h.scroll > 0 { (h.scroll - 1) as u16 } else { 0 }, ..h }, false)
    } else if key == Key::Esc {
        (h, true)
    } else {
        (h, false)
    }
}

/// Handles a key in the help menu; returns whether the menu closes.
pub fn help_key(help: &mut HelpState, key: Key) -> (close: bool)
    ensures
        (*final(help), close) == spec_help_key(*old(help), key),
{
    match key {
        Key::Tab | Key::Char('l') => {
            help.active_tab = if help.active_tab < 3 { help.active_tab + 1 } else { 0 };
            help.scroll = 0;
            false
        },
        Key::Char('h') => {
            help.active_tab = if help.active_tab >= 1 && help.active_tab <= 3 { help.active_tab - 1 } else { 3 };
            help.scroll = 0;
            false
        },
        Key::Char('j') => {
            help.scroll = help.scroll.saturating_add(1);
            false
        },
        Key::Char('k') => {
            help.scroll = help.scroll.saturating_sub(1);
            false
        },
        Key::Esc => true,
        _ => false,
    }
}

/// Four presses of Tab in the help menu come back to the tab shown before,
/// scrolled to the top; `h` undoes `l`.
pub proof fn lemma_help_tabs_cycle(h: HelpState)
    requires
        h.active_tab < 4,
    ensures
        spec_help_key(spec_help_key(spec_help_key(spec_help_key(h, Key::Tab).0, Key::Tab).0, Key::Tab).0, Key::Tab).0
            == (HelpState { scroll: 0, ..h }),
        spec_help_key(spec_help_key(h, Key::Char('l')).0, Key::Char('h')).0 == (HelpState { scroll: 0, ..h }),
{
}

/// The help menu after a click: a click on the title of a tab shows that
/// tab from the top.
pub open spec fn spec_help_click(h: HelpState, m: MouseInput) -> HelpState {
    if m.kind == crate::ui::browser::MouseKind::LeftDown && crate::ui::layout::spec_contains(h.tab_bar_rect, m.column, m.row) {
        match crate::ui::help::spec_tab_at(h.tab_offsets@, m.column) {
            Some(i) => HelpState { active_tab: i, scroll: 0, ..h },
            None => h,
        }
    } else {
        h
    }
}

/// Handles a click in the help menu.
pub fn help_click(help: &mut HelpState, m: MouseInput)
    ensures
        *final(help) == spec_help_click(*old(help), m),
{
    if m.kind == crate::ui::browser::MouseKind::LeftDown && help.tab_bar_rect.contains(m.column, m.row) {
        if let Some(i) = help.tab_at_col(m.column) {
            help.active_tab = i;
            help.scroll = 0;
        }
    }
}

/// What a key does in the search box (see `search_key`): `old` and `new`
/// are the search state before and after, `r` whether the search closes
/// and where it jumps.
pub open spec fn search_key_post(old: SearchState, new: SearchState, key: Key, r: (bool, Option<(u32, u32, u32)>)) -> bool {
    &&& ((key is Char || key is Backspace) ==> {
        let q = spec_edited_query(old.query@, key);
        &&& new.query@ == q
        &&& r == (false, None::<(u32, u32, u32)>)
        &&& byte_len(q) < 3 ==> new.results@.len() == 0 && new.list_state == spec_select(
            old.list_state,
            None,
        )
        &&& byte_len(q) >= 3 ==> new.list_state == spec_select(
            old.list_state,
            if new.results@.len() == 0 { None } else { Some(0) },
        ) && hits_name_books(new.results@)
    })
    &&& (key == Key::Up ==> new.query == old.query && new.results == old.results
        && new.list_state == (match old.list_state.selected {
        Some(i) => if i > 0 { spec_select(old.list_state, Some((i - 1) as usize)) } else { old.list_state },
        None => old.list_state,
    }) && r == (false, None::<(u32, u32, u32)>))
    &&& (key == Key::Down ==> new.query == old.query && new.results == old.results
        && new.list_state == (if old.results.len() > 0 {
        spec_select(old.list_state, Some(spec_next_index(old.list_state.selected, old.results.len())))
    } else {
        old.list_state
    }) && r == (false, None::<(u32, u32, u32)>))
    &&& (key == Key::Enter ==> new == old && r == match old.list_state.selected {
        Some(i) => if i < old.results.len() {
            (
                true,
                Some(
                    (
                        old.results@[i as int].book_num,
                        old.results@[i as int].chapter,
                        old.results@[i as int].verse,
                    ),
                ),
            )
        } else {
            (false, None)
        },
        None => (false, None),
    })
    &&& (key == Key::Esc ==> new == old && r == (true, None::<(u32, u32, u32)>))
    &&& ((key is Left || key is Right || key is Tab || key is Other) ==> new == old && r == (
        false,
        None::<(u32, u32, u32)>,
    ))
}

/// Handles a key in the search overlay of translation `translation`.
///
/// Typing and Backspace edit the query; from three bytes on the hits are
/// searched again and the first one selected (nothing when there are no
/// hits), below that the hits are cleared. The arrows move the selection,
/// Enter jumps to the selected hit (its book number, chapter and verse),
/// Esc closes the search.
pub fn search_key(search: &mut SearchState, conn: &Connection, translation: &str, key: Key) -> (r: (
    bool,
    Option<(u32, u32, u32)>,
))
    ensures
        search_key_post(*old(search), *final(search), key, r),
{
    match key {
        Key::Char(_) | Key::Backspace => {
            let mut chars = chars_of(search.query.as_str());
            match key {
                Key::Char(c) => chars.push(c),
                _ => {
                    if chars.len() > 0 {
                        chars.pop();
                    }
                },
            }
            search.query = string_from_chars(chars.as_slice());
            if search.query.as_str().len() >= 3 {
                let results = db::search(conn, search.query.as_str(), translation);
                if results.len() == 0 {
                    search.list_state.select(None);
                } else {
                    search.list_state.select(Some(0));
                }
                search.results = results;
            } else {
                search.results = Vec::new();
                search.list_state.select(None);
            }
            (false, None)
        },
        Key::Up => {
            search.list_state.select_prev();
            (false, None)
        },
        Key::Down => {
            let n = search.results.len();
            search.list_state.select_next(n);
            (false, None)
        },
        Key::Enter => match search.list_state.selected() {
            Some(i) => {
                if i < search.results.len() {
                    let hit = &search.results[i];
                    (true, Some((hit.book_num, hit.chapter, hit.verse)))
                } else {
                    (false, None)
                }
            },
            None => (false, None),
        },
        Key::Esc => (true, None),
        _ => (false, None),
    }
}

/// What the caller has to do after a step: save the bookmarks, highlights
/// or notes, and start a background fetch.
pub struct Effects {
    pub save_bookmarks: bool,
    pub save_highlights: bool,
    pub save_notes: bool,
    pub fetch: Option<FetchRequest>,
}

/// Nothing to do.
pub open spec fn no_effects(e: Effects) -> bool {
    !e.save_bookmarks && !e.save_highlights && !e.save_notes && e.fetch is None
}

impl Effects {
    /// Nothing to do.
    pub fn none() -> (e: Self)
        ensures
            no_effects(e),
    {
        Effects { save_bookmarks: false, save_highlights: false, save_notes: false, fetch: None }
    }
}

/// The splash screen or the reader.
pub enum AppMode {
    Banner(BannerState),
    Browser(BrowserState),
}

/// How long the event loop waits for input before the next frame, in
/// milliseconds: 16 while the splash screen animates, 50 in the reader.
pub fn tick_interval_ms(mode: &AppMode) -> (ms: u64)
    ensures
        mode is Banner ==> ms == 16,
        mode is Browser ==> ms == 50,
{
    match mode {
        AppMode::Banner(_) => 16,
        AppMode::Browser(_) => 50,
    }
}

/// The whole application state.
pub struct App {
    pub mode: AppMode,
    pub theme_name: ThemeName,
    pub db: Connection,
    pub should_quit: bool,
    pub bookmarks: Vec<BookmarkEntry>,
    pub highlights: Vec<HighlightEntry>,
    pub highlight_map: HighlightMap,
    pub highlights_visible: bool,
    pub notes: Vec<NoteEntry>,
    pub providers: ProvidersConfig,
    pub resolver: ChapterResolver,
    pub cache: Option<CacheDb>,
    pub session: SessionState,
}

/// A chapter obtained for the selection: chapter `chapter` of the book at
/// `book_idx`, with at least one verse.
pub open spec fn chapter_for(c: Option<Chapter>, book_idx: usize, chapter: u32) -> bool {
    c matches Some(ch) ==> ch.book@ == spec_book_name(book_idx as int) && ch.chapter == chapter && ch.verses@.len() > 0
}

/// How the resolution step `step` was applied to `s`, giving `t` and the
/// fetch `fetch` to start: the verse selection is cleared as for any load;
/// a fetch is handed on with loading shown and nothing loaded; verses are
/// loaded as the chapter of the selection (nothing when there are none);
/// an error becomes the status message from `now_ms` on.
pub open spec fn step_applied(s: BrowserState, t: BrowserState, step: ResolveStep, fetch: Option<FetchRequest>, now_ms: u64) -> bool {
    let base = spec_loaded(s, (t.current_chapter, s.status_flash));
    match step {
        ResolveStep::Fetch(req) => fetch == Some(req) && t.current_chapter is None && t == (BrowserState {
            loading: true,
            ..base
        }),
        ResolveStep::Finished(FetchResult::Ready(v)) => fetch is None && t == (BrowserState { loading: false, ..base })
            && if v@.len() == 0 {
            t.current_chapter is None
        } else {
            t.current_chapter matches Some(ch) && ch.book@ == spec_book_name(s.selected_book_idx as int)
                && ch.chapter == s.selected_chapter && ch.verses == v
        },
        ResolveStep::Finished(FetchResult::Error(m)) => fetch is None && t.current_chapter is None && t == (
        BrowserState {
            loading: false,
            status_flash: Some(StatusFlash { message: m, shown_at_ms: now_ms }),
            ..base
        }),
        ResolveStep::Finished(FetchResult::Loading) => fetch is None && t.current_chapter is None && t == (
        BrowserState { loading: false, ..base }),
    }
}

/// The step that resolving chapter `chapter` of book `book_num` of
/// translation `translation` (not bundled) can give in context `ctx`
/// (whether a cache is open, and the configured API key): without a cache
/// the error "Cache not available"; with one, what `cache_resolution` says
/// for some translation list, id and cached chapter read from the cache.
pub open spec fn step_from_cache(step: ResolveStep, ctx: (bool, Option<Seq<char>>), translation: Seq<char>, book_num: u32, chapter: u32) -> bool {
    if ctx.0 {
        exists|versions: Seq<CachedVersion>, version_id: Option<u32>, cached: Option<Vec<Verse>>|
            #[trigger] cache_resolution(versions, version_id, cached, ctx.1, translation, book_num, chapter, step)
    } else {
        step matches ResolveStep::Finished(FetchResult::Error(m)) && m@ == "Cache not available"@
    }
}

/// How a chapter of a translation that is not bundled was loaded into `t`
/// from `s` in context `ctx` (whether a cache is open, and the configured
/// API key): the selected chapter was resolved through the cache as
/// `step_from_cache` says, and that step applied as `step_applied` says.
pub open spec fn resolved_into(s: BrowserState, t: BrowserState, fetch: Option<FetchRequest>, now_ms: u64, ctx: (bool, Option<Seq<char>>)) -> bool {
    exists|step: ResolveStep|
        #[trigger] step_applied(s, t, step, fetch, now_ms) && step_from_cache(
            step,
            ctx,
            s.translation@,
            (s.selected_book_idx + 1) as u32,
            s.selected_chapter,
        )
}

/// How the selected chapter was loaded into `t` from `s`: from the bundled
/// database for a bundled translation, otherwise as `resolved_into` says.
pub open spec fn loaded_into(s: BrowserState, t: BrowserState, fetch: Option<FetchRequest>, now_ms: u64, cached: (bool, Option<Seq<char>>)) -> bool {
    if spec_is_bundled(s.translation@) {
        &&& t == spec_loaded(s, loaded_of(t))
        &&& load_flash(s, loaded_of(t))
        &&& chapter_fits(t.current_chapter, s.selected_book_idx, s.selected_chapter, s.translation@)
        &&& fetch is None
    } else {
        resolved_into(s, t, fetch, now_ms, cached)
    }
}

/// Loads the selected chapter of a translation that is not bundled: from
/// the cache when it holds it, else by a background fetch to start.
fn resolve_selected(
    state: &mut BrowserState,
    conn: &Connection,
    cache: &Option<CacheDb>,
    providers: &ProvidersConfig,
    now_ms: u64,
) -> (fetch: Option<FetchRequest>)
    requires
        old(state).wf(),
        !spec_is_bundled(old(state).translation@),
    ensures
        final(state).wf(),
        resolved_into(*old(state), *final(state), fetch, now_ms, (cache is Some, providers.spec_youversion_key())),
{
    let book_idx = state.selected_book_idx;
    let chapter = state.selected_chapter;
    let cache_ref = cache.as_ref();
    let tr = state.translation.as_str();
    let book_num = (book_idx + 1) as u32;
    let step = resolve_step(conn, cache_ref, providers, tr, book_num, chapter);
    let ghost st = step;
    let ghost s0 = *state;
    let fetch = apply_step(state, step, now_ms);
    proof {
        assert(cache_ref is Some <==> cache is Some);
        assert(tr@ == s0.translation@);
        assert(!spec_is_bundled(tr@));
        if cache is Some {
            let (versions, version_id, cached) = choose|versions: Seq<CachedVersion>, version_id: Option<u32>, cached: Option<Vec<Verse>>|
                #[trigger] cache_resolution(versions, version_id, cached, providers.spec_youversion_key(), tr@, book_num, chapter, st);
            assert(cache_resolution(versions, version_id, cached, providers.spec_youversion_key(), s0.translation@, (book_idx + 1) as u32, chapter, st));
            let ctx = (cache is Some, providers.spec_youversion_key());
            assert(cache_resolution(versions, version_id, cached, ctx.1, s0.translation@, (book_idx + 1) as u32, chapter, st));
        } else {
            assert(st matches ResolveStep::Finished(FetchResult::Error(m)) && m@ == "Cache not available"@);
        }
        assert(step_from_cache(st, (cache is Some, providers.spec_youversion_key()), s0.translation@, (book_idx + 1) as u32, chapter));
        assert(step_applied(s0, *state, st, fetch, now_ms));
    }
    fetch
}

/// Applies the resolution step `step` to the reader: a fetch to start is
/// handed back with loading shown, verses become the loaded chapter of the
/// selection, an error the status message from `now_ms` on.
pub fn apply_step(state: &mut BrowserState, step: ResolveStep, now_ms: u64) -> (fetch: Option<FetchRequest>)
    requires
        old(state).wf(),
    ensures
        final(state).wf(),
        step_applied(*old(state), *final(state), step, fetch, now_ms),
{
    let book_idx = state.selected_book_idx;
    let chapter = state.selected_chapter;
    state.current_chapter = None;
    state.verse_list.select(None);
    state.selected_verse = 0;
    state.scripture_scroll = 0;
    match step {
        ResolveStep::Finished(FetchResult::Ready(verses)) => {
            state.loading = false;
            if verses.len() > 0 {
                state.current_chapter = Some(Chapter { book: String::from_str(book_info(book_idx).name), chapter, verses });
            }
            None
        },
        ResolveStep::Finished(FetchResult::Error(msg)) => {
            state.loading = false;
            state.status_flash = Some(StatusFlash { message: msg, shown_at_ms: now_ms });
            None
        },
        ResolveStep::Finished(FetchResult::Loading) => {
            state.loading = false;
            None
        },
        ResolveStep::Fetch(req) => {
            state.loading = true;
            Some(req)
        },
    }
}

/// Loads the selected chapter: from the bundled database for a bundled
/// translation, otherwise from the cache or by a fetch to start.
pub fn load_selected(
    state: &mut BrowserState,
    conn: &Connection,
    cache: &Option<CacheDb>,
    providers: &ProvidersConfig,
    now_ms: u64,
) -> (fetch: Option<FetchRequest>)
    requires
        old(state).wf(),
    ensures
        final(state).wf(),
        loaded_into(*old(state), *final(state), fetch, now_ms, (cache is Some, providers.spec_youversion_key())),
{
    if is_bundled_translation(state.translation.as_str()) {
        state.load_chapter(conn);
        None
    } else {
        resolve_selected(state, conn, cache, providers, now_ms)
    }
}

/// The reader right after it opened at `session`: as the session says;
/// for a translation that is not bundled, the saved chapter is then
/// loaded as `resolved_into` says.
pub open spec fn browser_opened(session: SessionState, t: BrowserState, fetch: Option<FetchRequest>, now_ms: u64, cached: (bool, Option<Seq<char>>)) -> bool {
    exists|s: BrowserState|
        #[trigger] opened_at(session, s) && if spec_is_bundled(s.translation@) {
            t == s && fetch is None
        } else {
            resolved_into(s, t, fetch, now_ms, cached)
        }
}

impl App {
    /// The reader's selection is valid, and the highlight map shows the
    /// highlight list.
    pub open spec fn wf(&self) -> bool {
        &&& self.mode matches AppMode::Browser(s) ==> s.wf()
        &&& self.highlight_map.wf()
        &&& self.highlight_map.spec_map() == spec_build_map(hl_views(self.highlights@))
    }

    /// What resolving a chapter through the cache depends on: whether a
    /// cache is open, and the configured API key.
    pub open spec fn resolve_ctx(&self) -> (bool, Option<Seq<char>>) {
        (self.cache is Some, self.providers.spec_youversion_key())
    }

    /// Everything but the mode is as in `other`.
    pub open spec fn same_but_mode(&self, other: &App) -> bool {
        App { mode: other.mode, ..*self } == *other
    }

    /// Replaces the mode by the reader opened at the saved session.
    fn open_browser(&mut self, now_ms: u64) -> (fetch: Option<FetchRequest>)
        requires
            old(self).wf(),
        ensures
            final(self).wf(),
            final(self).same_but_mode(&*old(self)),
            final(self).mode matches AppMode::Browser(t) && browser_opened(old(self).session, t, fetch, now_ms, old(self).resolve_ctx()),
    {
        let mut state = BrowserState::new(&self.db, &self.session);
        let ghost s0 = state;
        let fetch = if is_bundled_translation(state.translation.as_str()) {
            None
        } else {
            resolve_selected(&mut state, &self.db, &self.cache, &self.providers, now_ms)
        };
        assert(opened_at(self.session, s0) && if spec_is_bundled(s0.translation@) {
            state == s0 && fetch is None
        } else {
            resolved_into(s0, state, fetch, now_ms, self.resolve_ctx())
        });
        self.mode = AppMode::Browser(state);
        fetch
    }

    /// The application at start, from what was read from disk: the splash
    /// screen (or the reader right away with `no_banner`), the saved theme,
    /// the highlight map built from the highlights, highlights shown, and
    /// no fetch running.
    pub fn from_parts(
        db: Connection,
        session: SessionState,
        bookmarks: Vec<BookmarkEntry>,
        highlights: Vec<HighlightEntry>,
        notes: Vec<NoteEntry>,
        providers: ProvidersConfig,
        cache: Option<CacheDb>,
        no_banner: bool,
        now_ms: u64,
    ) -> (r: (App, Option<FetchRequest>))
        ensures
            r.0.wf(),
            r.0.theme_name == session.theme,
            !r.0.should_quit,
            r.0.bookmarks == bookmarks,
            r.0.highlights == highlights,
            r.0.highlights_visible == session.highlights_visible,
            r.0.notes == notes,
            r.0.providers == providers,
            r.0.cache == cache,
            r.0.session == session,
            !r.0.resolver.spec_is_loading(),
            no_banner ==> (r.0.mode matches AppMode::Browser(t) && browser_opened(session, t, r.1, now_ms, (cache is Some, providers.spec_youversion_key()))),
            !no_banner ==> r.1 is None && (r.0.mode matches AppMode::Banner(b) && b.phase == 0 && b.tick == 0 && !b.done),
    {
        let highlight_map = build_map(highlights.as_slice());
        let theme_name = session.theme;
        let mut app = App {
            mode: AppMode::Banner(BannerState::new()),
            theme_name,
            db,
            should_quit: false,
            bookmarks,
            highlights,
            highlight_map,
            highlights_visible: session.highlights_visible,
            notes,
            providers,
            resolver: ChapterResolver::new(),
            cache,
            session,
        };
        if no_banner {
            let fetch = app.open_browser(now_ms);
            (app, fetch)
        } else {
            (app, None)
        }
    }

    /// Advances the splash screen by one frame; once it is done the reader
    /// opens at the saved session. The reader itself does not tick.
    pub fn tick(&mut self, now_ms: u64) -> (fetch: Option<FetchRequest>)
        requires
            old(self).wf(),
        ensures
            final(self).wf(),
            final(self).same_but_mode(&*old(self)),
            old(self).mode is Browser ==> *final(self) == *old(self) && fetch is None,
            old(self).mode matches AppMode::Banner(b) ==> {
                let b1 = if b.tick < u32::MAX { crate::ui::banner::spec_tick(b) } else { b };
                &&& b1.done ==> (final(self).mode matches AppMode::Browser(t) && browser_opened(old(self).session, t, fetch, now_ms, old(self).resolve_ctx()))
                &&& !b1.done ==> final(self).mode == AppMode::Banner(b1) && fetch is None
            },
    {
        let mut done = false;
        match &mut self.mode {
            AppMode::Banner(b) => {
                if b.tick < u32::MAX {
                    b.tick();
                }
                done = b.done;
            },
            AppMode::Browser(_) => {},
        }
        if done {
            self.open_browser(now_ms)
        } else {
            None
        }
    }
}

/// The selection of a jump, with the scripture panel active, before the
/// chapter is loaded.
pub open spec fn jump_start(s: BrowserState, book_num: u32, chapter: u32) -> BrowserState {
    BrowserState { active_panel: Panel::Scripture, ..spec_jump_target(s, book_num, chapter) }
}

/// How a jump to book number `book_num`, chapter `chapter`, verse `verse`
/// turned `s` into `t`: as `spec_jumped` says for a bundled translation;
/// otherwise the chapter is resolved as `resolved_into` says and the verse
/// then selected in the scripture panel.
pub open spec fn jumped_into(
    s: BrowserState,
    t: BrowserState,
    book_num: u32,
    chapter: u32,
    verse: u32,
    fetch: Option<FetchRequest>,
    now_ms: u64,
    cached: (bool, Option<Seq<char>>),
) -> bool {
    if spec_is_bundled(s.translation@) {
        &&& t == spec_jumped(s, book_num, chapter, verse, loaded_of(t))
        &&& load_flash(s, loaded_of(t))
        &&& chapter_fits(t.current_chapter, t.selected_book_idx, chapter, s.translation@)
        &&& fetch is None
    } else {
        exists|mid: BrowserState|
            #[trigger] resolved_into(jump_start(s, book_num, chapter), mid, fetch, now_ms, cached) && t == (BrowserState {
                verse_list: if verse > 0 { spec_select(mid.verse_list, Some((verse - 1) as usize)) } else { mid.verse_list },
                selected_verse: verse,
                ..mid
            })
    }
}

/// How moving to the next panel turned `s` into `t`: the next panel is
/// active, and the chapter was loaded where `focus_loads` says (as
/// `loaded_into` says).
pub open spec fn focused_into(s: BrowserState, t: BrowserState, fetch: Option<FetchRequest>, now_ms: u64, cached: (bool, Option<Seq<char>>)) -> bool {
    if focus_loads(s) {
        loaded_into(BrowserState { active_panel: spec_panel_next(s.active_panel), ..s }, t, fetch, now_ms, cached)
    } else {
        t == (BrowserState { active_panel: spec_panel_next(s.active_panel), ..s }) && fetch is None
    }
}

/// How mouse event `m` turned `s` into `t`: as `spec_mouse` says; where the
/// event loads a chapter of a translation that is not bundled, that chapter
/// is then resolved as `resolved_into` says.
pub open spec fn moused_into(s: BrowserState, t: BrowserState, m: MouseInput, fetch: Option<FetchRequest>, now_ms: u64, cached: (bool, Option<Seq<char>>)) -> bool {
    if spec_is_bundled(s.translation@) || !mouse_loads(s, m) {
        &&& t == spec_mouse(s, m, loaded_of(t))
        &&& mouse_loads(s, m) ==> load_flash(s, loaded_of(t))
        &&& mouse_loads(s, m) ==> chapter_fits(t.current_chapter, t.selected_book_idx, t.selected_chapter, s.translation@)
        &&& fetch is None
    } else {
        exists|mid: BrowserState|
            mid == spec_mouse(s, m, (mid.current_chapter, s.status_flash)) && #[trigger] resolved_into(mid, t, fetch, now_ms, cached)
    }
}

impl App {
    /// Shows book number `book_num`, chapter `chapter` with verse `verse`
    /// selected, loading the chapter as the translation needs.
    fn jump(&self, state: &mut BrowserState, book_num: u32, chapter: u32, verse: u32, now_ms: u64) -> (fetch: Option<FetchRequest>)
        requires
            old(state).wf(),
            book_num <= 66,
        ensures
            final(state).wf(),
            jumped_into(*old(state), *final(state), book_num, chapter, verse, fetch, now_ms, self.resolve_ctx()),
    {
        if is_bundled_translation(state.translation.as_str()) {
            state.jump_to_verse(&self.db, book_num, chapter, verse);
            None
        } else {
            let prior = state.status_flash.take();
            state.jump_to_verse(&self.db, book_num, chapter, verse);
            state.status_flash = prior;
            let ghost pre = *state;
            let fetch = resolve_selected(state, &self.db, &self.cache, &self.providers, now_ms);
            let ghost mid = *state;
            if verse > 0 {
                state.verse_list.select(Some((verse - 1) as usize));
            }
            state.selected_verse = verse;
            proof {
                let target = jump_start(*old(state), book_num, chapter);
                assert(pre.status_flash == target.status_flash);
                assert(spec_loaded(target, (mid.current_chapter, target.status_flash)) == spec_loaded(
                    pre,
                    (mid.current_chapter, pre.status_flash),
                ));
                let ctx = self.resolve_ctx();
                let step = choose|step: ResolveStep|
                    #[trigger] step_applied(pre, mid, step, fetch, now_ms) && step_from_cache(
                        step,
                        ctx,
                        pre.translation@,
                        (pre.selected_book_idx + 1) as u32,
                        pre.selected_chapter,
                    );
                assert(step_applied(target, mid, step, fetch, now_ms));
                assert(resolved_into(target, mid, fetch, now_ms, ctx));
            }
            fetch
        }
    }

    /// Moves to the next panel, loading the chapter as the translation
    /// needs.
    fn focus_next(&self, state: &mut BrowserState, now_ms: u64) -> (fetch: Option<FetchRequest>)
        requires
            old(state).wf(),
        ensures
            final(state).wf(),
            focused_into(*old(state), *final(state), fetch, now_ms, self.resolve_ctx()),
    {
        let loads = {
            let next = state.active_panel.next();
            next != state.active_panel && (next == Panel::Verses || (next == Panel::Scripture
                && state.current_chapter.is_none()))
        };
        if loads && !is_bundled_translation(state.translation.as_str()) {
            let prior = state.status_flash.take();
            state.focus_next(&self.db);
            state.status_flash = prior;
            let ghost mid = *state;
            let fetch = resolve_selected(state, &self.db, &self.cache, &self.providers, now_ms);
            proof {
                let s = *old(state);
                let n = BrowserState { active_panel: spec_panel_next(s.active_panel), ..s };
                let t = *final(state);
                assert(spec_loaded(n, (t.current_chapter, n.status_flash)) == spec_loaded(
                    mid,
                    (t.current_chapter, mid.status_flash),
                ));
                let ctx = self.resolve_ctx();
                let step = choose|step: ResolveStep|
                    #[trigger] step_applied(mid, t, step, fetch, now_ms) && step_from_cache(
                        step,
                        ctx,
                        mid.translation@,
                        (mid.selected_book_idx + 1) as u32,
                        mid.selected_chapter,
                    );
                assert(step_applied(n, t, step, fetch, now_ms));
                assert(resolved_into(n, t, fetch, now_ms, ctx));
            }
            fetch
        } else {
            state.focus_next(&self.db);
            None
        }
    }

    /// Handles a mouse event over the reader; while an overlay is open the
    /// mouse only switches tabs of the help menu.
    pub fn on_mouse(&mut self, mouse: MouseInput, now_ms: u64) -> (fetch: Option<FetchRequest>)
        requires
            old(self).wf(),
        ensures
            final(self).wf(),
            final(self).same_but_mode(&*old(self)),
            old(self).mode is Banner ==> *final(self) == *old(self) && fetch is None,
            old(self).mode matches AppMode::Browser(s) ==> (final(self).mode matches AppMode::Browser(t) && if s.overlay is Some {
                fetch is None && t == match s.overlay {
                    Some(OverlayKind::Help(h)) => with_overlay(s, OverlayKind::Help(spec_help_click(h, mouse))),
                    _ => s,
                }
            } else {
                moused_into(s, t, mouse, fetch, now_ms, old(self).resolve_ctx())
            }),
    {
        let mut fetch: Option<FetchRequest> = None;
        match &mut self.mode {
            AppMode::Browser(state) => {
                if let Some(OverlayKind::Help(h)) = &mut state.overlay {
                    help_click(h, mouse);
                } else if state.overlay.is_none() {
                    let loads = match mouse.kind {
                        crate::ui::browser::MouseKind::LeftDown => {
                            let col = mouse.column;
                            let row = mouse.row;
                            if state.books_rect.contains(col, row) {
                                false
                            } else if state.chapters_rect.contains(col, row) {
                                let r = mouse.row.saturating_sub(state.chapters_rect.y + 1) as usize;
                                let idx = state.chapter_list.offset().saturating_add(r);
                                idx < book_info(state.selected_book_idx).chapters as usize
                            } else if state.verses_rect.contains(col, row) {
                                state.current_chapter.is_none()
                            } else {
                                false
                            }
                        },
                        _ => false,
                    };
                    let ghost s0 = *state;
                    assert(loads == mouse_loads(s0, mouse));
                    if loads && !is_bundled_translation(state.translation.as_str()) {
                        let prior = state.status_flash.take();
                        state.handle_mouse(mouse, &self.db);
                        state.status_flash = prior;
                        fetch = resolve_selected(state, &self.db, &self.cache, &self.providers, now_ms);
                    } else {
                        state.handle_mouse(mouse, &self.db);
                    }
                }
            },
            AppMode::Banner(_) => {},
        }
        fetch
    }
}

/// Book number `n` is where a list entry naming book `name` jumps: the
/// first book of that name, or the first book when no book has it.
pub open spec fn book_for_name(n: u32, name: Seq<char>) -> bool {
    ||| 1 <= n <= 66 && spec_book_name(n - 1) == name && forall|k: int| 0 <= k < n - 1 ==> spec_book_name(k) != name
    ||| n == 1 && forall|k: int| 0 <= k < 66 ==> spec_book_name(k) != name
}

/// The book number a list entry naming book `name` jumps to.
fn jump_book(name: &str) -> (n: u32)
    ensures
        1 <= n <= 66,
        book_for_name(n, name@),
{
    match book_num_by_name(name) {
        Some(n) => n,
        None => 1,
    }
}

/// `s` with its overlay closed.
pub open spec fn closed(s: BrowserState) -> BrowserState {
    BrowserState { overlay: None, ..s }
}

/// `s` with overlay `o`.
pub open spec fn with_overlay(s: BrowserState, o: OverlayKind) -> BrowserState {
    BrowserState { overlay: Some(o), ..s }
}

/// Nothing to save.
pub open spec fn no_saves(e: Effects) -> bool {
    !e.save_bookmarks && !e.save_highlights && !e.save_notes
}

/// A jump from a list entry to verse `chapter:verse` of the book named
/// `name` turned `s` into `t`, closing the list.
pub open spec fn jumped_to_entry(s: BrowserState, t: BrowserState, name: Seq<char>, chapter: u32, verse: u32, e: Effects, now_ms: u64, cached: (bool, Option<Seq<char>>)) -> bool {
    exists|n: u32| #[trigger] book_for_name(n, name) && jumped_into(closed(s), t, n, chapter, verse, e.fetch, now_ms, cached)
}

/// What a key does in the search overlay holding `ss`.
pub open spec fn search_step(a: App, s: BrowserState, ss: SearchState, b: App, t: BrowserState, key: Key, e: Effects, now_ms: u64) -> bool {
    exists|ss2: SearchState, r: (bool, Option<(u32, u32, u32)>)|
        #[trigger] search_key_post(ss, ss2, key, r) && b == a && no_saves(e) && match r.1 {
            Some(j) => if j.0 <= 66 {
                jumped_into(closed(s), t, j.0, j.1, j.2, e.fetch, now_ms, a.resolve_ctx())
            } else {
                t == closed(s) && e.fetch is None
            },
            None => e.fetch is None && t == if r.0 {
                closed(s)
            } else {
                with_overlay(s, OverlayKind::Search(ss2))
            },
        }
}

/// What a key does in the bookmark list with selection `l`.
pub open spec fn bookmarks_step(a: App, s: BrowserState, l: ListState, b: App, t: BrowserState, key: Key, e: Effects, now_ms: u64) -> bool {
    let (l2, act) = spec_list_delete_key(l, a.bookmarks.len(), key, false);
    let kept = with_overlay(s, OverlayKind::Bookmarks(BookmarkListState { list_state: l2 }));
    match act {
        ListAction::Stay => t == kept && b == a && no_effects(e),
        ListAction::Close => t == closed(s) && b == a && no_effects(e),
        ListAction::Open(i) => b == a && no_saves(e) && jumped_to_entry(
            s,
            t,
            a.bookmarks@[i as int].book@,
            a.bookmarks@[i as int].chapter,
            a.bookmarks@[i as int].verse,
            e,
            now_ms,
            a.resolve_ctx(),
        ),
        ListAction::Delete(i) => t == kept && e.fetch is None && !e.save_highlights && !e.save_notes && e.save_bookmarks == (i
            < a.bookmarks.len()) && b == (App { bookmarks: b.bookmarks, ..a }) && b.bookmarks@ == if i < a.bookmarks.len() {
            a.bookmarks@.remove(i as int)
        } else {
            a.bookmarks@
        },
    }
}

/// What a key does in the translation picker with selection `l`: choosing
/// translation `i` switches to it and loads the chapter.
pub open spec fn picker_step(a: App, s: BrowserState, l: ListState, b: App, t: BrowserState, key: Key, e: Effects, now_ms: u64) -> bool {
    let (l2, act) = if key == Key::Char('v') {
        (l, ListAction::Close)
    } else {
        spec_list_nav(l, TRANSLATION_COUNT, key)
    };
    &&& b == a
    &&& no_saves(e)
    &&& match act {
        ListAction::Open(i) => spec_translation_code(i as int) == t.translation@ && loaded_into(
            BrowserState { overlay: None, translation: t.translation, ..s },
            t,
            e.fetch,
            now_ms,
            a.resolve_ctx(),
        ),
        ListAction::Close => t == closed(s) && e.fetch is None,
        _ => t == with_overlay(s, OverlayKind::Translation(TranslationPickerState { list_state: l2 })) && e.fetch is None,
    }
}

/// What a key does in the highlight list with selection `l`: deleting an
/// existing highlight also rebuilds the highlight map.
pub open spec fn highlights_step(a: App, s: BrowserState, l: ListState, b: App, t: BrowserState, key: Key, e: Effects, now_ms: u64) -> bool {
    let (l2, act) = spec_list_delete_key(l, a.highlights.len(), key, false);
    let kept = with_overlay(s, OverlayKind::Highlights(HighlightListState { list_state: l2 }));
    match act {
        ListAction::Stay => t == kept && b == a && no_effects(e),
        ListAction::Close => t == closed(s) && b == a && no_effects(e),
        ListAction::Open(i) => b == a && no_saves(e) && jumped_to_entry(
            s,
            t,
            a.highlights@[i as int].book@,
            a.highlights@[i as int].chapter,
            a.highlights@[i as int].verse,
            e,
            now_ms,
            a.resolve_ctx(),
        ),
        ListAction::Delete(i) => t == kept && e.fetch is None && !e.save_bookmarks && !e.save_notes && if i
            < a.highlights.len() {
            &&& e.save_highlights
            &&& b == (App { highlights: b.highlights, highlight_map: b.highlight_map, ..a })
            &&& b.highlights@ == a.highlights@.remove(i as int)
        } else {
            b == a && !e.save_highlights
        },
    }
}

/// What a key does in the note editor `ed`: saving writes the note (a blank
/// text removes it) and closes the editor.
pub open spec fn editor_step(a: App, s: BrowserState, ed: NoteEditorState, b: App, t: BrowserState, key: Key, ctrl: bool, e: Effects) -> bool {
    exists|ed2: NoteEditorState, act: EditorAction|
        #[trigger] editor_key_post(ed, ed2, key, ctrl, act) && e.fetch is None && !e.save_bookmarks && !e.save_highlights
            && match act {
            EditorAction::Stay => t == with_overlay(s, OverlayKind::NoteEditor(ed2)) && b == a && !e.save_notes,
            EditorAction::Close => t == closed(s) && b == a && !e.save_notes,
            EditorAction::Save(text) => t == closed(s) && e.save_notes && b == (App { notes: b.notes, ..a }) && exists|
                now: u64,
            | note_views(b.notes@) == #[trigger] spec_upsert(
                note_views(a.notes@),
                (ed.book@, ed.chapter, ed.verse),
                text@,
                now,
            ),
            EditorAction::Delete => t == closed(s) && e.save_notes && b == (App { notes: b.notes, ..a }) && note_views(b.notes@)
                == spec_remove(note_views(a.notes@), (ed.book@, ed.chapter, ed.verse)),
        }
}

/// What a key does in the note list with selection `l`: deleting removes
/// the notes on the selected note's verse.
pub open spec fn notes_list_step(a: App, s: BrowserState, l: ListState, b: App, t: BrowserState, key: Key, e: Effects, now_ms: u64) -> bool {
    let (l2, act) = spec_list_delete_key(l, a.notes.len(), key, true);
    let kept = with_overlay(s, OverlayKind::NotesList(NoteListState { list_state: l2 }));
    match act {
        ListAction::Stay => t == kept && b == a && no_effects(e),
        ListAction::Close => t == closed(s) && b == a && no_effects(e),
        ListAction::Open(i) => b == a && no_saves(e) && jumped_to_entry(
            s,
            t,
            a.notes@[i as int].book@,
            a.notes@[i as int].chapter,
            a.notes@[i as int].verse,
            e,
            now_ms,
            a.resolve_ctx(),
        ),
        ListAction::Delete(i) => t == kept && e.fetch is None && !e.save_bookmarks && !e.save_highlights && e.save_notes
            && b == (App { notes: b.notes, ..a }) && note_views(b.notes@) == spec_remove(
            note_views(a.notes@),
            (a.notes@[i as int].book@, a.notes@[i as int].chapter, a.notes@[i as int].verse),
        ),
    }
}

/// What a key does in the quit dialog.
pub open spec fn quit_step(a: App, s: BrowserState, b: App, t: BrowserState, key: Key, e: Effects) -> bool {
    &&& no_effects(e)
    &&& match spec_quit_key(key) {
        QuitAction::Quit => t == s && b == (App { should_quit: true, ..a }),
        QuitAction::Close => t == closed(s) && b == a,
        QuitAction::Stay => t == s && b == a,
    }
}

/// What a key does while an overlay covers the reader: `a` and `s` are the
/// application and the reader before, `b` and `t` after.
pub open spec fn overlay_step(a: App, s: BrowserState, b: App, t: BrowserState, key: Key, ctrl: bool, e: Effects, now_ms: u64) -> bool {
    match s.overlay {
        Some(OverlayKind::Search(ss)) => search_step(a, s, ss, b, t, key, e, now_ms),
        Some(OverlayKind::Bookmarks(bl)) => bookmarks_step(a, s, bl.list_state, b, t, key, e, now_ms),
        Some(OverlayKind::Translation(p)) => picker_step(a, s, p.list_state, b, t, key, e, now_ms),
        Some(OverlayKind::Highlights(h)) => highlights_step(a, s, h.list_state, b, t, key, e, now_ms),
        Some(OverlayKind::NoteEditor(ed)) => editor_step(a, s, ed, b, t, key, ctrl, e),
        Some(OverlayKind::NotesList(nl)) => notes_list_step(a, s, nl.list_state, b, t, key, e, now_ms),
        Some(OverlayKind::QuitConfirm) => quit_step(a, s, b, t, key, e),
        Some(OverlayKind::Help(h)) => b == a && no_effects(e) && t == if spec_help_key(h, key).1 {
            closed(s)
        } else {
            with_overlay(s, OverlayKind::Help(spec_help_key(h, key).0))
        },
        None => t == s && b == a && no_effects(e),
    }
}

/// What a key in an overlay leads to, once the overlay's own state has
/// been updated.
enum OverlayOutcome {
    Stay,
    Close,
    Jump(u32, u32, u32),
    Quit,
    DeleteBookmark(usize),
    DeleteHighlight(usize),
    PickTranslation(usize),
    SaveNote(String, u32, u32, String),
    DeleteNote(String, u32, u32, bool),
}

impl App {
    /// Handles a key while an overlay covers the reader `state`.
    fn overlay_key(&mut self, state: &mut BrowserState, key: Key, ctrl: bool, now_ms: u64) -> (e: Effects)
        requires
            old(self).wf(),
            old(state).wf(),
        ensures
            final(self).wf(),
            final(state).wf(),
            overlay_step(*old(self), *old(state), *final(self), *final(state), key, ctrl, e, now_ms),
    {
        let translation = state.translation.clone();
        let outcome = match &mut state.overlay {
            Some(OverlayKind::Search(ss)) => {
                let r = search_key(ss, &self.db, translation.as_str(), key);
                match r.1 {
                    Some((bn, ch, v)) => OverlayOutcome::Jump(bn, ch, v),
                    None => if r.0 {
                        OverlayOutcome::Close
                    } else {
                        OverlayOutcome::Stay
                    },
                }
            },
            Some(OverlayKind::Bookmarks(bl)) => match list_delete_key(&mut bl.list_state, self.bookmarks.len(), key, false) {
                ListAction::Stay => OverlayOutcome::Stay,
                ListAction::Close => OverlayOutcome::Close,
                ListAction::Open(i) => {
                    let b = &self.bookmarks[i];
                    OverlayOutcome::Jump(jump_book(b.book.as_str()), b.chapter, b.verse)
                },
                ListAction::Delete(i) => OverlayOutcome::DeleteBookmark(i),
            },
            Some(OverlayKind::Translation(p)) => match picker_key(&mut p.list_state, TRANSLATION_COUNT, key) {
                ListAction::Open(i) => OverlayOutcome::PickTranslation(i),
                ListAction::Close => OverlayOutcome::Close,
                _ => OverlayOutcome::Stay,
            },
            Some(OverlayKind::Highlights(h)) => match list_delete_key(&mut h.list_state, self.highlights.len(), key, false) {
                ListAction::Stay => OverlayOutcome::Stay,
                ListAction::Close => OverlayOutcome::Close,
                ListAction::Open(i) => {
                    let hl = &self.highlights[i];
                    OverlayOutcome::Jump(jump_book(hl.book.as_str()), hl.chapter, hl.verse)
                },
                ListAction::Delete(i) => OverlayOutcome::DeleteHighlight(i),
            },
            Some(OverlayKind::NoteEditor(ed)) => match editor_key(ed, key, ctrl) {
                EditorAction::Stay => OverlayOutcome::Stay,
                EditorAction::Close => OverlayOutcome::Close,
                EditorAction::Save(text) => OverlayOutcome::SaveNote(ed.book.clone(), ed.chapter, ed.verse, text),
                EditorAction::Delete => OverlayOutcome::DeleteNote(ed.book.clone(), ed.chapter, ed.verse, true),
            },
            Some(OverlayKind::NotesList(nl)) => match list_delete_key(&mut nl.list_state, self.notes.len(), key, true) {
                ListAction::Stay => OverlayOutcome::Stay,
                ListAction::Close => OverlayOutcome::Close,
                ListAction::Open(i) => {
                    let n = &self.notes[i];
                    OverlayOutcome::Jump(jump_book(n.book.as_str()), n.chapter, n.verse)
                },
                ListAction::Delete(i) => {
                    let n = &self.notes[i];
                    OverlayOutcome::DeleteNote(n.book.clone(), n.chapter, n.verse, false)
                },
            },
            Some(OverlayKind::QuitConfirm) => match quit_key(key) {
                QuitAction::Quit => OverlayOutcome::Quit,
                QuitAction::Close => OverlayOutcome::Close,
                QuitAction::Stay => OverlayOutcome::Stay,
            },
            Some(OverlayKind::Help(h)) => if help_key(h, key) {
                OverlayOutcome::Close
            } else {
                OverlayOutcome::Stay
            },
            None => OverlayOutcome::Stay,
        };
        match outcome {
            OverlayOutcome::Stay => Effects::none(),
            OverlayOutcome::Close => {
                state.overlay = None;
                Effects::none()
            },
            OverlayOutcome::Jump(bn, ch, v) => {
                state.overlay = None;
                let fetch = if bn <= 66 {
                    self.jump(state, bn, ch, v, now_ms)
                } else {
                    None
                };
                Effects { save_bookmarks: false, save_highlights: false, save_notes: false, fetch }
            },
            OverlayOutcome::Quit => {
                self.should_quit = true;
                Effects::none()
            },
            OverlayOutcome::DeleteBookmark(i) => {
                let removed = crate::config::bookmarks::remove(&mut self.bookmarks, i);
                Effects { save_bookmarks: removed, save_highlights: false, save_notes: false, fetch: None }
            },
            OverlayOutcome::DeleteHighlight(i) => {
                if i < self.highlights.len() {
                    self.highlights.remove(i);
                    self.highlight_map = build_map(self.highlights.as_slice());
                    Effects { save_bookmarks: false, save_highlights: true, save_notes: false, fetch: None }
                } else {
                    Effects::none()
                }
            },
            OverlayOutcome::PickTranslation(i) => {
                state.overlay = None;
                state.translation = String::from_str(translation_info(i).code);
                let fetch = load_selected(state, &self.db, &self.cache, &self.providers, now_ms);
                Effects { save_bookmarks: false, save_highlights: false, save_notes: false, fetch }
            },
            OverlayOutcome::SaveNote(book, ch, v, text) => {
                state.overlay = None;
                crate::config::notes::upsert(&mut self.notes, book.as_str(), ch, v, text.as_str());
                Effects { save_bookmarks: false, save_highlights: false, save_notes: true, fetch: None }
            },
            OverlayOutcome::DeleteNote(book, ch, v, close) => {
                if close {
                    state.overlay = None;
                }
                crate::config::notes::remove(&mut self.notes, book.as_str(), ch, v);
                Effects { save_bookmarks: false, save_highlights: false, save_notes: true, fetch: None }
            },
        }
    }
}

/// The verse that `b`, `H` and `n` act on: the selected one; `b` takes the
/// first verse when none is selected.
pub open spec fn bookmark_verse(s: BrowserState) -> u32 {
    if s.selected_verse > 0 {
        s.selected_verse
    } else {
        1
    }
}

/// The snippet stored with a bookmark of verse `verse`: the first 60
/// characters of its text, when the loaded chapter has that verse.
pub open spec fn snippet_of(c: Option<Chapter>, verse: u32) -> Option<Seq<char>> {
    match c {
        Some(ch) => if 1 <= verse && verse - 1 < ch.verses@.len() {
            Some(spec_first_chars(ch.verses@[verse - 1].text@, 60))
        } else {
            None
        },
        None => None,
    }
}

/// `t` is `s` with message `m` shown from `now_ms` on.
pub open spec fn flashed(s: BrowserState, t: BrowserState, m: Seq<char>, now_ms: u64) -> bool {
    &&& t.status_flash matches Some(f) && f.message@ == m && f.shown_at_ms == now_ms
    &&& t == (BrowserState { status_flash: t.status_flash, ..s })
}

/// Bookmarking the current verse (see `bookmark_verse`) of the selected
/// chapter: the bookmark list gains it unless the verse is already
/// bookmarked, and the status bar says so.
pub open spec fn bookmark_step(a: App, s: BrowserState, b: App, t: BrowserState, e: Effects, now_ms: u64) -> bool {
    let book = spec_book_name(s.selected_book_idx as int);
    let v = bookmark_verse(s);
    &&& exists|entry: BookmarkEntry|
        #![trigger spec_add(a.bookmarks@, entry)]
        {
            &&& entry.book@ == book
            &&& entry.chapter == s.selected_chapter
            &&& entry.verse == v
            &&& entry.note is None
            &&& match entry.snippet {
                Some(x) => snippet_of(s.current_chapter, v) == Some(x@),
                None => snippet_of(s.current_chapter, v) is None,
            }
            &&& b.bookmarks@ == spec_add(a.bookmarks@, entry)
            &&& e.save_bookmarks == !has_bookmark(a.bookmarks@, entry)
        }
    &&& b == (App { bookmarks: b.bookmarks, ..a })
    &&& !e.save_highlights && !e.save_notes && e.fetch is None
    &&& flashed(s, t, "Bookmarked "@ + spec_verse_reference(book, s.selected_chapter, v), now_ms)
}

/// The message after toggling the highlight of verse `r`: its new colour,
/// or that it was removed.
pub open spec fn highlight_message(r: Seq<char>, color: Option<HighlightColor>) -> Seq<char> {
    match color {
        Some(c) => "Highlighted "@ + r + " ("@ + spec_color_label(c) + ")"@,
        None => "Removed highlight from "@ + r,
    }
}

/// Toggling the highlight of the selected verse (nothing without one):
/// the highlight list changes as `spec_toggle` says, the map is rebuilt and
/// the status bar names the outcome.
pub open spec fn highlight_step(a: App, s: BrowserState, b: App, t: BrowserState, e: Effects, now_ms: u64) -> bool {
    if s.selected_verse == 0 {
        b == a && t == s && no_effects(e)
    } else {
        let book = spec_book_name(s.selected_book_idx as int);
        let k = (book, s.selected_chapter, s.selected_verse);
        &&& exists|now: u64|
            #[trigger] spec_toggle(hl_views(a.highlights@), k, now).0 == hl_views(b.highlights@) && flashed(
                s,
                t,
                highlight_message(
                    spec_verse_reference(book, s.selected_chapter, s.selected_verse),
                    spec_toggle(hl_views(a.highlights@), k, now).1,
                ),
                now_ms,
            )
        &&& b == (App { highlights: b.highlights, highlight_map: b.highlight_map, ..a })
        &&& e.save_highlights && !e.save_bookmarks && !e.save_notes && e.fetch is None
    }
}

/// What the reader does with the verse `drawn` at random: for a verse of a
/// book that exists it jumps there (as `jumped_into` says) and the status
/// bar names the verse; with no verse, or one past the last book, nothing
/// changes.
pub open spec fn drawn_applied(
    s: BrowserState,
    t: BrowserState,
    drawn: Option<Verse>,
    fetch: Option<FetchRequest>,
    now_ms: u64,
    cached: (bool, Option<Seq<char>>),
) -> bool {
    match drawn {
        Some(v) => if v.book_num <= 66 {
            exists|mid: BrowserState|
                #[trigger] jumped_into(s, mid, v.book_num, v.chapter, v.verse, fetch, now_ms, cached) && flashed(
                    mid,
                    t,
                    "\u{2192} "@ + spec_verse_reference(v.book@, v.chapter, v.verse),
                    now_ms,
                )
        } else {
            t == s && fetch is None
        },
        None => t == s && fetch is None,
    }
}

/// Jumping to a random verse: the database draws a verse (or none) of the
/// reader's translation, named by its book number, and the reader takes it
/// as `drawn_applied` says.
pub open spec fn random_step(s: BrowserState, t: BrowserState, fetch: Option<FetchRequest>, now_ms: u64, cached: (bool, Option<Seq<char>>)) -> bool {
    exists|drawn: Option<Verse>|
        #[trigger] drawn_applied(s, t, drawn, fetch, now_ms, cached) && (drawn matches Some(v) ==> v.translation@
            == uppercase_of(s.translation@) && v.book@ == crate::bible::books::spec_book_name_of(v.book_num as int))
}

/// Opening the note editor on the selected verse (nothing without one),
/// filled with the verse's note if it has one.
pub open spec fn note_editor_step(a: App, s: BrowserState, t: BrowserState) -> bool {
    if s.selected_verse == 0 {
        t == s
    } else {
        let book = spec_book_name(s.selected_book_idx as int);
        let existing = match spec_find(note_views(a.notes@), (book, s.selected_chapter, s.selected_verse)) {
            Some(n) => Some(n.text),
            None => None,
        };
        &&& t.overlay matches Some(OverlayKind::NoteEditor(ed)) && ed.book@ == book && ed.chapter == s.selected_chapter
            && ed.verse == s.selected_verse && ed.model() == (EditorModel { lines: initial_lines(existing), row: 0, col: 0 })
            && ed.scroll_offset == 0 && ed.last_width == 80
        &&& t == (BrowserState { overlay: t.overlay, ..s })
    }
}

/// Builds a status message from a lead and a verse reference.
fn message(a: &str, b: &str) -> (r: String)
    ensures
        r@ == a@ + b@,
{
    let mut out: Vec<char> = Vec::new();
    extend_str(&mut out, a);
    extend_str(&mut out, b);
    string_from_chars(out.as_slice())
}

impl App {
    /// Bookmarks the current verse.
    fn bookmark_current(&mut self, state: &mut BrowserState, now_ms: u64) -> (e: Effects)
        requires
            old(self).wf(),
            old(state).wf(),
        ensures
            final(self).wf(),
            final(state).wf(),
            bookmark_step(*old(self), *old(state), *final(self), *final(state), e, now_ms),
    {
        let verse: u32 = if state.selected_verse > 0 { state.selected_verse } else { 1 };
        let snippet: Option<String> = match &state.current_chapter {
            Some(ch) => if ((verse - 1) as usize) < ch.verses.len() {
                Some(first_chars(ch.verses[(verse - 1) as usize].text.as_str(), 60))
            } else {
                None
            },
            None => None,
        };
        let book = book_info(state.selected_book_idx).name;
        let entry = BookmarkEntry {
            book: String::from_str(book),
            chapter: state.selected_chapter,
            verse,
            snippet,
            note: None,
            created_at: crate::config::bookmarks::now_unix(),
        };
        let added = crate::config::bookmarks::add(&mut self.bookmarks, entry);
        let r = verse_reference(book, state.selected_chapter, verse);
        state.show_flash(message("Bookmarked ", r.as_str()), now_ms);
        Effects { save_bookmarks: added, save_highlights: false, save_notes: false, fetch: None }
    }

    /// Toggles the highlight of the selected verse.
    fn highlight_current(&mut self, state: &mut BrowserState, now_ms: u64) -> (e: Effects)
        requires
            old(self).wf(),
            old(state).wf(),
        ensures
            final(self).wf(),
            final(state).wf(),
            highlight_step(*old(self), *old(state), *final(self), *final(state), e, now_ms),
    {
        if state.selected_verse == 0 {
            return Effects::none();
        }
        let verse = state.selected_verse;
        let chapter = state.selected_chapter;
        let book = book_info(state.selected_book_idx).name;
        let color = crate::config::highlights::toggle(&mut self.highlights, book, chapter, verse);
        self.highlight_map = build_map(self.highlights.as_slice());
        let r = verse_reference(book, chapter, verse);
        let msg = match color {
            Some(c) => {
                let mut out: Vec<char> = Vec::new();
                extend_str(&mut out, "Highlighted ");
                extend_str(&mut out, r.as_str());
                extend_str(&mut out, " (");
                extend_str(&mut out, c.label());
                extend_str(&mut out, ")");
                string_from_chars(out.as_slice())
            },
            None => message("Removed highlight from ", r.as_str()),
        };
        state.show_flash(msg, now_ms);
        proof {
            let k = (book@, chapter, verse);
            let now = choose|now: u64|
                (hl_views(self.highlights@), color) == spec_toggle(hl_views(old(self).highlights@), k, now);
            assert(spec_toggle(hl_views(old(self).highlights@), k, now).0 == hl_views(self.highlights@));
            assert(msg@ == highlight_message(r@, spec_toggle(hl_views(old(self).highlights@), k, now).1));
        }
        Effects { save_bookmarks: false, save_highlights: true, save_notes: false, fetch: None }
    }

    /// Jumps to a random verse of the current translation.
    fn random_jump(&self, state: &mut BrowserState, now_ms: u64) -> (fetch: Option<FetchRequest>)
        requires
            old(state).wf(),
        ensures
            final(state).wf(),
            random_step(*old(state), *final(state), fetch, now_ms, self.resolve_ctx()),
    {
        let drawn = db::get_random_verse(&self.db, state.translation.as_str());
        let ghost d = drawn;
        let fetch = self.take_drawn(state, drawn, now_ms);
        assert(drawn_applied(*old(state), *state, d, fetch, now_ms, self.resolve_ctx()));
        fetch
    }

    /// Takes the verse drawn at random: jumps to a verse of a book that
    /// exists and names it in the status bar; otherwise changes nothing.
    pub fn take_drawn(&self, state: &mut BrowserState, drawn: Option<Verse>, now_ms: u64) -> (fetch: Option<FetchRequest>)
        requires
            old(state).wf(),
        ensures
            final(state).wf(),
            drawn_applied(*old(state), *final(state), drawn, fetch, now_ms, self.resolve_ctx()),
    {
        match drawn {
            Some(v) => {
                if v.book_num <= 66 {
                    let r = verse_reference(v.book.as_str(), v.chapter, v.verse);
                    let msg = message("\u{2192} ", r.as_str());
                    let fetch = self.jump(state, v.book_num, v.chapter, v.verse, now_ms);
                    let ghost mid = *state;
                    state.show_flash(msg, now_ms);
                    proof {
                        assert(jumped_into(*old(state), mid, v.book_num, v.chapter, v.verse, fetch, now_ms, self.resolve_ctx()));
                    }
                    fetch
                } else {
                    None
                }
            },
            None => None,
        }
    }

    /// Opens the note editor on the selected verse.
    fn open_note_editor(&self, state: &mut BrowserState)
        requires
            old(state).wf(),
        ensures
            final(state).wf(),
            note_editor_step(*self, *old(state), *final(state)),
    {
        if state.selected_verse == 0 {
            return;
        }
        let verse = state.selected_verse;
        let chapter = state.selected_chapter;
        let book = book_info(state.selected_book_idx).name;
        let existing: Option<&str> = match crate::config::notes::find(self.notes.as_slice(), book, chapter, verse) {
            Some(n) => Some(n.text.as_str()),
            None => None,
        };
        let editor = NoteEditorState::new(String::from_str(book), chapter, verse, existing);
        state.overlay = Some(OverlayKind::NoteEditor(editor));
    }
}

/// The selection a list opens with: the first item, if there is one.
pub open spec fn first_of(len: usize) -> ListState {
    ListState { selected: if len > 0 { Some(0) } else { None }, offset: 0 }
}

/// The translation picker opens on translation `code` when the list has it.
pub open spec fn picker_opened(l: ListState, code: Seq<char>) -> bool {
    &&& l.offset == 0
    &&& match l.selected {
        Some(i) => i < 21 && spec_translation_code(i as int) == code && forall|k: int|
            0 <= k < i ==> spec_translation_code(k) != code,
        None => forall|k: int| 0 <= k < 21 ==> spec_translation_code(k) != code,
    }
}

/// What a key does when no overlay covers the reader: `a` and `s` are the
/// application and the reader before, `b` and `t` after.
pub open spec fn browse_step(a: App, s: BrowserState, b: App, t: BrowserState, key: Key, e: Effects, now_ms: u64) -> bool {
    match key {
        Key::Char('q') => t == with_overlay(s, OverlayKind::QuitConfirm) && b == a && no_effects(e),
        Key::Char('t') => t == s && b == (App { theme_name: spec_next_theme(a.theme_name), ..a }) && no_effects(e),
        Key::Char('?') => t == with_overlay(s, OverlayKind::Help(t.overlay->0->Help_0)) && t.overlay->0->Help_0.active_tab == 0
            && t.overlay->0->Help_0.scroll == 0 && t.overlay->0->Help_0.tab_bar_rect == crate::ui::layout::Rect::spec_zero()
            && t.overlay->0->Help_0.tab_offsets@ == seq![0u16, 0u16, 0u16, 0u16] && b == a && no_effects(e),
        Key::Char('/') => (t.overlay matches Some(OverlayKind::Search(ss)) && ss.query@.len() == 0 && ss.results@.len() == 0
            && ss.list_state == ListState { selected: None, offset: 0 }) && t == (BrowserState { overlay: t.overlay, ..s })
            && b == a && no_effects(e),
        Key::Char('b') => bookmark_step(a, s, b, t, e, now_ms),
        Key::Char('B') => t == with_overlay(
            s,
            OverlayKind::Bookmarks(BookmarkListState { list_state: first_of(a.bookmarks.len()) }),
        ) && b == a && no_effects(e),
        Key::Char('v') => (t.overlay matches Some(OverlayKind::Translation(p)) && picker_opened(p.list_state, s.translation@))
            && t == (BrowserState { overlay: t.overlay, ..s }) && b == a && no_effects(e),
        Key::Char('r') => random_step(s, t, e.fetch, now_ms, a.resolve_ctx()) && b == a && no_saves(e),
        Key::Char('H') => highlight_step(a, s, b, t, e, now_ms),
        Key::Char('g') => b == (App { highlights_visible: !a.highlights_visible, ..a }) && no_effects(e) && flashed(
            s,
            t,
            "Highlights "@ + if !a.highlights_visible { "on"@ } else { "off"@ },
            now_ms,
        ),
        Key::Char('G') => t == with_overlay(
            s,
            OverlayKind::Highlights(HighlightListState { list_state: first_of(a.highlights.len()) }),
        ) && b == a && no_effects(e),
        Key::Char('n') => note_editor_step(a, s, t) && b == a && no_effects(e),
        Key::Char('N') => t == with_overlay(
            s,
            OverlayKind::NotesList(NoteListState { list_state: first_of(a.notes.len()) }),
        ) && b == a && no_effects(e),
        Key::Char('j') | Key::Down => t == crate::ui::browser::spec_move_down(s) && b == a && no_effects(e),
        Key::Char('k') | Key::Up => t == crate::ui::browser::spec_move_up(s) && b == a && no_effects(e),
        Key::Char('h') | Key::Left => t == (BrowserState {
            active_panel: crate::ui::browser::spec_panel_prev(s.active_panel),
            ..s
        }) && b == a && no_effects(e),
        Key::Char('l') | Key::Right | Key::Enter => focused_into(s, t, e.fetch, now_ms, a.resolve_ctx()) && b == a && no_saves(e),
        _ => t == s && b == a && no_effects(e),
    }
}

/// What a key does in the reader: in the overlay when one is open,
/// otherwise in the panels.
pub open spec fn key_step(a: App, s: BrowserState, b: App, t: BrowserState, key: Key, ctrl: bool, e: Effects, now_ms: u64) -> bool {
    if s.overlay is Some {
        overlay_step(a, s, b, t, key, ctrl, e, now_ms)
    } else {
        browse_step(a, s, b, t, key, e, now_ms)
    }
}

/// `a` with a fresh splash screen standing in for the reader while the
/// reader is being updated.
pub open spec fn idle(a: App) -> App {
    App { mode: AppMode::Banner(BannerState { phase: 0, tick: 0, done: false }), ..a }
}

impl App {
    /// Handles a key while no overlay covers the reader `state`.
    fn browse_key(&mut self, state: &mut BrowserState, key: Key, now_ms: u64) -> (e: Effects)
        requires
            old(self).wf(),
            old(state).wf(),
        ensures
            final(self).wf(),
            final(state).wf(),
            browse_step(*old(self), *old(state), *final(self), *final(state), key, e, now_ms),
    {
        match key {
            Key::Char('q') => {
                state.overlay = Some(OverlayKind::QuitConfirm);
                Effects::none()
            },
            Key::Char('t') => {
                self.theme_name = self.theme_name.next();
                Effects::none()
            },
            Key::Char('?') => {
                state.overlay = Some(OverlayKind::Help(HelpState::default()));
                Effects::none()
            },
            Key::Char('/') => {
                state.overlay = Some(OverlayKind::Search(SearchState::default()));
                Effects::none()
            },
            Key::Char('b') => self.bookmark_current(state, now_ms),
            Key::Char('B') => {
                let mut list = BookmarkListState::default();
                if self.bookmarks.len() > 0 {
                    list.list_state.select(Some(0));
                }
                state.overlay = Some(OverlayKind::Bookmarks(list));
                Effects::none()
            },
            Key::Char('v') => {
                let mut picker = TranslationPickerState::default();
                if let Some(idx) = crate::bible::translation_index(state.translation.as_str()) {
                    picker.list_state.select(Some(idx));
                }
                state.overlay = Some(OverlayKind::Translation(picker));
                Effects::none()
            },
            Key::Char('r') => {
                let fetch = self.random_jump(state, now_ms);
                Effects { save_bookmarks: false, save_highlights: false, save_notes: false, fetch }
            },
            Key::Char('H') => self.highlight_current(state, now_ms),
            Key::Char('g') => {
                self.highlights_visible = !self.highlights_visible;
                let label = if self.highlights_visible { "on" } else { "off" };
                state.show_flash(message("Highlights ", label), now_ms);
                Effects::none()
            },
            Key::Char('G') => {
                let mut list = HighlightListState::default();
                if self.highlights.len() > 0 {
                    list.list_state.select(Some(0));
                }
                state.overlay = Some(OverlayKind::Highlights(list));
                Effects::none()
            },
            Key::Char('n') => {
                self.open_note_editor(state);
                Effects::none()
            },
            Key::Char('N') => {
                let mut list = NoteListState::default();
                if self.notes.len() > 0 {
                    list.list_state.select(Some(0));
                }
                state.overlay = Some(OverlayKind::NotesList(list));
                Effects::none()
            },
            Key::Char('j') | Key::Down => {
                state.move_down();
                Effects::none()
            },
            Key::Char('k') | Key::Up => {
                state.move_up();
                Effects::none()
            },
            Key::Char('h') | Key::Left => {
                state.focus_prev();
                Effects::none()
            },
            Key::Char('l') | Key::Right | Key::Enter => {
                let fetch = self.focus_next(state, now_ms);
                Effects { save_bookmarks: false, save_highlights: false, save_notes: false, fetch }
            },
            _ => Effects::none(),
        }
    }

    /// Handles a key press. Ctrl-C quits at once; on the splash screen any
    /// key ends the animation; in the reader the key goes to the open
    /// overlay or else to the panels (`key_step`).
    pub fn on_key(&mut self, key: Key, ctrl: bool, now_ms: u64) -> (e: Effects)
        requires
            old(self).wf(),
        ensures
            final(self).wf(),
            key == Key::Char('c') && ctrl ==> *final(self) == (App { should_quit: true, ..*old(self) }) && no_effects(e),
            !(key == Key::Char('c') && ctrl) ==> match old(self).mode {
                AppMode::Banner(bs) => *final(self) == (App {
                    mode: AppMode::Banner(BannerState { done: true, ..bs }),
                    ..*old(self)
                }) && no_effects(e),
                AppMode::Browser(s) => exists|b: App, t: BrowserState|
                    #[trigger] key_step(idle(*old(self)), s, b, t, key, ctrl, e, now_ms) && *final(self) == (App {
                        mode: AppMode::Browser(t),
                        ..b
                    }),
            },
    {
        if key == Key::Char('c') && ctrl {
            self.should_quit = true;
            return Effects::none();
        }
        let mut mode = AppMode::Banner(BannerState::new());
        std::mem::swap(&mut mode, &mut self.mode);
        match mode {
            AppMode::Banner(b) => {
                let mut b = b;
                b.done = true;
                self.mode = AppMode::Banner(b);
                Effects::none()
            },
            AppMode::Browser(state) => {
                let mut state = state;
                let ghost a = *self;
                let ghost s = state;
                if state.overlay.is_some() {
                    let e = self.overlay_key(&mut state, key, ctrl, now_ms);
                    let ghost b = *self;
                    self.mode = AppMode::Browser(state);
                    proof {
                        assert(key_step(a, s, b, state, key, ctrl, e, now_ms));
                    }
                    e
                } else {
                    let e = self.browse_key(&mut state, key, now_ms);
                    let ghost b = *self;
                    self.mode = AppMode::Browser(state);
                    proof {
                        assert(key_step(a, s, b, state, key, ctrl, e, now_ms));
                    }
                    e
                }
            },
        }
    }
}

impl App {
    /// Records the background fetch the caller started for `req`, answering
    /// on `receiver`.
    pub fn start_fetch(&mut self, receiver: std::sync::mpsc::Receiver<crate::bible::resolver::FetchMessage>, req: &FetchRequest)
        ensures
            final(self).resolver.spec_pending_target() == Some((req.book_idx, req.chapter)),
            *final(self) == (App { resolver: final(self).resolver, ..*old(self) }),
    {
        self.resolver.start_fetch(receiver, req.book_idx, req.chapter);
    }

    /// Takes the outcome of the background fetch, if it finished, into the
    /// reader: verses become the loaded chapter, an error the status
    /// message. Outcomes for a book past the last one are dropped. Nothing
    /// is polled while the splash screen shows.
    pub fn poll_fetch(&mut self, now_ms: u64)
        requires
            old(self).wf(),
        ensures
            final(self).wf(),
            old(self).mode is Banner ==> *final(self) == *old(self),
            old(self).mode matches AppMode::Browser(s) ==> final(self).mode matches AppMode::Browser(t) && (
            match old(self).resolver.spec_pending_target() {
                None => t == s && final(self).resolver.spec_pending_target() is None,
                Some(p) => exists|got: Received, r: Option<(usize, u32, FetchResult)>|
                    #[trigger] poll_reports(p.0, p.1, got, r) && poll_applied(s, t, r, now_ms) && (got is Empty
                        ==> final(self).resolver.spec_pending_target() == Some(p)) && (!(got is Empty)
                        ==> final(self).resolver.spec_pending_target() is None),
            }),
            *final(self) == (App { mode: final(self).mode, resolver: final(self).resolver, ..*old(self) }),
    {
        let in_browser = match &self.mode {
            AppMode::Browser(_) => true,
            AppMode::Banner(_) => false,
        };
        if !in_browser {
            return;
        }
        let polled = self.resolver.poll();
        let ghost rr = polled;
        let ghost s0 = self.mode->Browser_0;
        match &mut self.mode {
            AppMode::Browser(state) => {
                match polled {
                    Some((book_idx, chapter, result)) => {
                        let usable = match &result {
                            FetchResult::Ready(_) => book_idx < 66,
                            _ => true,
                        };
                        if usable {
                            let ghost r = result;
                            state.apply_fetch(book_idx, chapter, result, now_ms);
                            assert(fetch_applied(s0, *state, book_idx, chapter, r, now_ms));
                        }
                        assert(poll_applied(s0, *state, rr, now_ms));
                    },
                    None => {
                        assert(poll_applied(s0, *state, rr, now_ms));
                    },
                }
            },
            AppMode::Banner(_) => {},
        }
        proof {
            if old(self).resolver.spec_pending_target() is Some {
                let p = old(self).resolver.spec_pending_target()->0;
                let got = choose|got: Received|
                    #[trigger] poll_reports(p.0, p.1, got, rr) && (got is Empty
                        ==> self.resolver.spec_pending_target() == old(self).resolver.spec_pending_target()) && (!(
                    got is Empty) ==> self.resolver.spec_pending_target() is None);
                assert(poll_reports(p.0, p.1, got, rr));
            }
        }
    }

    /// Drops the reader's status message once its time is over.
    pub fn expire_flash(&mut self, now_ms: u64)
        requires
            old(self).wf(),
        ensures
            final(self).wf(),
            old(self).mode is Banner ==> *final(self) == *old(self),
            old(self).mode matches AppMode::Browser(s) ==> final(self).mode == AppMode::Browser(BrowserState {
                status_flash: match s.status_flash {
                    Some(f) => if crate::ui::browser::spec_flash_active(f, now_ms) { Some(f) } else { None },
                    None => None,
                },
                ..s
            }),
            final(self).same_but_mode(&*old(self)),
    {
        match &mut self.mode {
            AppMode::Browser(state) => state.expire_flash(now_ms),
            AppMode::Banner(_) => {},
        }
    }

    /// The session to save on exit: the reader's position with the current
    /// theme and highlight visibility, or the default session with those
    /// while the splash screen shows.
    pub fn session_to_save(&self) -> (s: SessionState)
        ensures
            s.theme == self.theme_name,
            s.highlights_visible == self.highlights_visible,
            self.mode matches AppMode::Browser(b) ==> s.book_index == b.selected_book_idx && s.chapter == b.selected_chapter
                && s.scroll_position == b.scripture_scroll && s.active_panel == crate::ui::browser::panel_code(b.active_panel)
                && s.translation@ == b.translation@,
            self.mode is Banner ==> s.book_index == 0 && s.chapter == 1 && s.scroll_position == 0 && s.active_panel == 0
                && s.translation@ == "KJV"@,
    {
        match &self.mode {
            AppMode::Browser(b) => {
                let s = b.to_session(self.theme_name);
                SessionState { highlights_visible: self.highlights_visible, ..s }
            },
            AppMode::Banner(_) => {
                let d = SessionState::default();
                SessionState { theme: self.theme_name, highlights_visible: self.highlights_visible, ..d }
            },
        }
    }
}

/// The reader `t` is `s` after the outcome `r` of a fetch of chapter
/// `chapter` of the book at `book_idx` was applied (see
/// `BrowserState::apply_fetch`).
pub open spec fn fetch_applied(s: BrowserState, t: BrowserState, book_idx: usize, chapter: u32, r: FetchResult, now_ms: u64) -> bool {
    match r {
        FetchResult::Ready(verses) => t == (BrowserState {
            loading: false,
            current_chapter: if verses@.len() == 0 {
                None
            } else {
                Some(Chapter { book: t.current_chapter->0.book, chapter, verses })
            },
            ..s
        }) && (verses@.len() > 0 ==> t.current_chapter->0.book@ == spec_book_name(book_idx as int)),
        FetchResult::Error(msg) => t == (BrowserState {
            loading: false,
            status_flash: Some(StatusFlash { message: msg, shown_at_ms: now_ms }),
            ..s
        }),
        FetchResult::Loading => t == s,
    }
}

/// The reader `t` after the reader `s` took what a poll reported, `r`:
/// unchanged when nothing came or when verses came for a book past the last
/// one, otherwise the outcome applied as `fetch_applied` says.
pub open spec fn poll_applied(s: BrowserState, t: BrowserState, r: Option<(usize, u32, FetchResult)>, now_ms: u64) -> bool {
    match r {
        None => t == s,
        Some((book_idx, chapter, res)) => if res is Ready && book_idx >= 66 {
            t == s
        } else {
            fetch_applied(s, t, book_idx, chapter, res, now_ms)
        },
    }
}

/// Opening the quit dialog and answering no (`n`, `q` or Esc) leaves the
/// application and the reader as they were; answering yes (`y` or Enter)
/// quits and changes nothing else.
pub proof fn lemma_quit_dialog(
    a: App,
    s: BrowserState,
    b: App,
    t: BrowserState,
    c: App,
    u: BrowserState,
    answer: Key,
    ctrl: bool,
    e1: Effects,
    e2: Effects,
    now1: u64,
    now2: u64,
)
    requires
        s.overlay is None,
        browse_step(a, s, b, t, Key::Char('q'), e1, now1),
        overlay_step(b, t, c, u, answer, ctrl, e2, now2),
    ensures
        answer == Key::Char('n') || answer == Key::Char('q') || answer == Key::Esc ==> c == a && u == s,
        answer == Key::Char('y') || answer == Key::Enter ==> c == (App { should_quit: true, ..a }),
        no_effects(e1) && no_effects(e2),
{
    assert(closed(with_overlay(s, OverlayKind::QuitConfirm)) == s);
}

/// Pressing `g` twice shows the highlights as before.
pub proof fn lemma_highlight_visibility_toggle(
    a: App,
    s: BrowserState,
    b: App,
    t: BrowserState,
    c: App,
    u: BrowserState,
    e1: Effects,
    e2: Effects,
    now1: u64,
    now2: u64,
)
    requires
        browse_step(a, s, b, t, Key::Char('g'), e1, now1),
        browse_step(b, t, c, u, Key::Char('g'), e2, now2),
    ensures
        c == a,
{
}

/// Bookmarking the same verse twice keeps a single bookmark for it: the
/// second press adds nothing and has nothing to save.
pub proof fn lemma_bookmark_twice(
    a: App,
    s: BrowserState,
    b: App,
    t: BrowserState,
    c: App,
    u: BrowserState,
    e1: Effects,
    e2: Effects,
    now1: u64,
    now2: u64,
)
    requires
        bookmark_step(a, s, b, t, e1, now1),
        bookmark_step(b, t, c, u, e2, now2),
    ensures
        c.bookmarks@ == b.bookmarks@,
        !e2.save_bookmarks,
{
    let e = choose|entry: BookmarkEntry|
        #![trigger spec_add(a.bookmarks@, entry)]
        {
            &&& entry.book@ == spec_book_name(s.selected_book_idx as int)
            &&& entry.chapter == s.selected_chapter
            &&& entry.verse == bookmark_verse(s)
            &&& entry.note is None
            &&& match entry.snippet {
                Some(x) => snippet_of(s.current_chapter, bookmark_verse(s)) == Some(x@),
                None => snippet_of(s.current_chapter, bookmark_verse(s)) is None,
            }
            &&& b.bookmarks@ == spec_add(a.bookmarks@, entry)
            &&& e1.save_bookmarks == !has_bookmark(a.bookmarks@, entry)
        };
    let f = choose|entry: BookmarkEntry|
        #![trigger spec_add(b.bookmarks@, entry)]
        {
            &&& entry.book@ == spec_book_name(t.selected_book_idx as int)
            &&& entry.chapter == t.selected_chapter
            &&& entry.verse == bookmark_verse(t)
            &&& entry.note is None
            &&& match entry.snippet {
                Some(x) => snippet_of(t.current_chapter, bookmark_verse(t)) == Some(x@),
                None => snippet_of(t.current_chapter, bookmark_verse(t)) is None,
            }
            &&& c.bookmarks@ == spec_add(b.bookmarks@, entry)
            &&& e2.save_bookmarks == !has_bookmark(b.bookmarks@, entry)
        };
    crate::config::bookmarks::lemma_add_idempotent(a.bookmarks@, e, f);
}

/// Opening the search and closing it with Esc leaves the reader as it was.
pub proof fn lemma_search_escape(
    a: App,
    s: BrowserState,
    b: App,
    t: BrowserState,
    c: App,
    u: BrowserState,
    e1: Effects,
    e2: Effects,
    now1: u64,
    now2: u64,
)
    requires
        s.overlay is None,
        browse_step(a, s, b, t, Key::Char('/'), e1, now1),
        overlay_step(b, t, c, u, Key::Esc, false, e2, now2),
    ensures
        c == a,
        u == s,
{
    let ss = t.overlay->0->Search_0;
    let (ss2, r) = choose|ss2: SearchState, r: (bool, Option<(u32, u32, u32)>)|
        #[trigger] search_key_post(ss, ss2, Key::Esc, r) && b == a && no_saves(e2) && match r.1 {
            Some(j) => if j.0 <= 66 {
                jumped_into(closed(t), u, j.0, j.1, j.2, e2.fetch, now2, b.resolve_ctx())
            } else {
                u == closed(t) && e2.fetch is None
            },
            None => e2.fetch is None && u == if r.0 {
                closed(t)
            } else {
                with_overlay(t, OverlayKind::Search(ss2))
            },
        };
    assert(closed(t) == s);
}

} // verus!
