//! Verse highlights: each highlighted verse has one colour, and toggling a
//! verse walks it through the colours and back to no highlight.
use vstd::prelude::*;

use crate::config::bookmarks::now_unix;

verus! {

/// The colours a highlight can take, in toggling order.
#[derive(Clone, Copy, PartialEq, Eq, Debug, Structural)]
pub enum HighlightColor {
    Yellow,
    Green,
    Blue,
    Pink,
    Orange,
}

/// The colour that follows `c` when toggling; `None` after the last one.
pub open spec fn spec_next_color(c: HighlightColor) -> Option<HighlightColor> {
    match c {
        HighlightColor::Yellow => Some(HighlightColor::Green),
        HighlightColor::Green => Some(HighlightColor::Blue),
        HighlightColor::Blue => Some(HighlightColor::Pink),
        HighlightColor::Pink => Some(HighlightColor::Orange),
        HighlightColor::Orange => None,
    }
}

/// The lower-case name of a colour.
pub open spec fn spec_color_label(c: HighlightColor) -> Seq<char> {
    match c {
        HighlightColor::Yellow => "yellow"@,
        HighlightColor::Green => "green"@,
        HighlightColor::Blue => "blue"@,
        HighlightColor::Pink => "pink"@,
        HighlightColor::Orange => "orange"@,
    }
}

impl HighlightColor {
    /// The colour that follows this one when toggling; `None` after orange.
    pub fn next(self) -> (r: Option<Self>)
        ensures
            r == spec_next_color(self),
    {
        match self {
            Self::Yellow => Some(Self::Green),
            Self::Green => Some(Self::Blue),
            Self::Blue => Some(Self::Pink),
            Self::Pink => Some(Self::Orange),
            Self::Orange => None,
        }
    }

    /// The lower-case name of this colour.
    pub fn label(self) -> (r: &'static str)
        ensures
            r@ == spec_color_label(self),
    {
        match self {
            Self::Yellow => "yellow",
            Self::Green => "green",
            Self::Blue => "blue",
            Self::Pink => "pink",
            Self::Orange => "orange",
        }
    }
}

/// A highlighted verse.
pub struct HighlightEntry {
    pub book: String,
    pub chapter: u32,
    pub verse: u32,
    pub color: HighlightColor,
    pub created_at: u64,
}

/// A verse: book name, chapter and verse number.
pub type VerseKey = (Seq<char>, u32, u32);

/// Mathematical view of a highlight.
pub struct HighlightView {
    pub book: Seq<char>,
    pub chapter: u32,
    pub verse: u32,
    pub color: HighlightColor,
    pub created_at: u64,
}

impl View for HighlightEntry {
    type V = HighlightView;

    open spec fn view(&self) -> HighlightView {
        HighlightView {
            book: self.book@,
            chapter: self.chapter,
            verse: self.verse,
            color: self.color,
            created_at: self.created_at,
        }
    }
}

/// The verse a highlight is on.
pub open spec fn hl_key(h: HighlightView) -> VerseKey {
    (h.book, h.chapter, h.verse)
}

/// Views of a list of highlights.
pub open spec fn hl_views(s: Seq<HighlightEntry>) -> Seq<HighlightView> {
    s.map_values(|h: HighlightEntry| h@)
}

/// Index of the first highlight at or after `i` on verse `k`.
pub open spec fn hl_pos_from(s: Seq<HighlightView>, k: VerseKey, i: int) -> Option<int>
    decreases s.len() - i,
{
    if i < 0 || i >= s.len() {
        None
    } else if hl_key(s[i]) == k {
        Some(i)
    } else {
        hl_pos_from(s, k, i + 1)
    }
}

/// Index of the first highlight on verse `k`.
pub open spec fn hl_pos(s: Seq<HighlightView>, k: VerseKey) -> Option<int> {
    hl_pos_from(s, k, 0)
}

proof fn lemma_hl_pos_from(s: Seq<HighlightView>, k: VerseKey, i: int)
    requires
        0 <= i,
    ensures
        hl_pos_from(s, k, i) matches Some(j) ==> i <= j < s.len() && hl_key(s[j]) == k
            && forall|m: int| i <= m < j ==> hl_key(#[trigger] s[m]) != k,
        hl_pos_from(s, k, i) is None ==> forall|m: int| i <= m < s.len() ==> hl_key(#[trigger] s[m]) != k,
    decreases s.len() - i,
{
    if i < s.len() && hl_key(s[i]) != k {
        lemma_hl_pos_from(s, k, i + 1);
    }
}

/// The first highlight on `k` is at `j` when `j` is on `k` and no earlier one is.
proof fn lemma_hl_pos_is(s: Seq<HighlightView>, k: VerseKey, j: int)
    requires
        0 <= j < s.len(),
        hl_key(s[j]) == k,
        forall|m: int| 0 <= m < j ==> hl_key(#[trigger] s[m]) != k,
    ensures
        hl_pos(s, k) == Some(j),
{
    lemma_hl_pos_from(s, k, 0);
    match hl_pos(s, k) {
        Some(i) => {
            if i < j {
                assert(hl_key(s[i]) != k);
            }
            if i > j {
                assert(hl_key(s[j]) != k);
            }
        },
        None => {
            assert(hl_key(s[j]) != k);
        },
    }
}

/// No two highlights are on the same verse.
pub open spec fn unique_keys(s: Seq<HighlightView>) -> bool {
    forall|i: int, j: int| 0 <= i < j < s.len() ==> hl_key(#[trigger] s[i]) != hl_key(#[trigger] s[j])
}

/// `h` with its colour replaced by `c`.
pub open spec fn with_color(h: HighlightView, c: HighlightColor) -> HighlightView {
    HighlightView { color: c, ..h }
}

/// What toggling verse `k` does to the list `s` at time `now`, and the
/// colour the verse ends up with: a new yellow highlight is appended when
/// the verse has none; otherwise its colour advances, and after orange the
/// highlight is removed.
pub open spec fn spec_toggle(s: Seq<HighlightView>, k: VerseKey, now: u64) -> (
    Seq<HighlightView>,
    Option<HighlightColor>,
) {
    match hl_pos(s, k) {
        Some(idx) => match spec_next_color(s[idx].color) {
            Some(n) => (s.update(idx, with_color(s[idx], n)), Some(n)),
            None => (s.remove(idx), None),
        },
        None => (
            s.push(
                HighlightView {
                    book: k.0,
                    chapter: k.1,
                    verse: k.2,
                    color: HighlightColor::Yellow,
                    created_at: now,
                },
            ),
            Some(HighlightColor::Yellow),
        ),
    }
}

/// Position of the first highlight on verse `book chapter:verse`.
fn find_highlight(highlights: &Vec<HighlightEntry>, book: &str, chapter: u32, verse: u32) -> (r:
    Option<usize>)
    ensures
        match r {
            Some(i) => hl_pos(hl_views(highlights@), (book@, chapter, verse)) == Some(i as int),
            None => hl_pos(hl_views(highlights@), (book@, chapter, verse)) is None,
        },
{
    let ghost s = hl_views(highlights@);
    let ghost k = (book@, chapter, verse);
    let mut i: usize = 0;
    while i < highlights.len()
        invariant
            i <= highlights.len(),
            s == hl_views(highlights@),
            k == (book@, chapter, verse),
            hl_pos(s, k) == hl_pos_from(s, k, i as int),
        decreases highlights.len() - i,
    {
        let h = &highlights[i];
        assert(s[i as int] == highlights@[i as int]@);
        if crate::text::string_eq_str(&h.book, book) && h.chapter == chapter && h.verse == verse {
            assert(hl_key(s[i as int]) == k);
            return Some(i);
        }
        assert(hl_key(s[i as int]) != k);
        i = i + 1;
    }
    None
}

/// Toggles the highlight of verse `book chapter:verse`, stamping a new
/// highlight with `now`. Returns the colour the verse now has, or `None`
/// when its highlight was removed.
pub fn toggle_at(
    highlights: &mut Vec<HighlightEntry>,
    book: &str,
    chapter: u32,
    verse: u32,
    now: u64,
) -> (r: Option<HighlightColor>)
    ensures
        (hl_views(final(highlights)@), r) == spec_toggle(
            hl_views(old(highlights)@),
            (book@, chapter, verse),
            now,
        ),
{
    let ghost s = hl_views(highlights@);
    proof {
        lemma_hl_pos_from(s, (book@, chapter, verse), 0);
    }
    match find_highlight(highlights, book, chapter, verse) {
        Some(idx) => {
            assert(s[idx as int] == highlights@[idx as int]@);
            let current = highlights[idx].color;
            match current.next() {
                Some(next_color) => {
                    let mut e = highlights.remove(idx);
                    e.color = next_color;
                    highlights.insert(idx, e);
                    assert(hl_views(highlights@) =~= s.update(
                        idx as int,
                        with_color(s[idx as int], next_color),
                    ));
                    Some(next_color)
                },
                None => {
                    highlights.remove(idx);
                    assert(hl_views(highlights@) =~= s.remove(idx as int));
                    None
                },
            }
        },
        None => {
            highlights.push(
                HighlightEntry {
                    book: String::from_str(book),
                    chapter,
                    verse,
                    color: HighlightColor::Yellow,
                    created_at: now,
                },
            );
            assert(hl_views(highlights@) =~= s.push(
                HighlightView {
                    book: book@,
                    chapter,
                    verse,
                    color: HighlightColor::Yellow,
                    created_at: now,
                },
            ));
            Some(HighlightColor::Yellow)
        },
    }
}

/// Toggles the highlight of verse `book chapter:verse`, stamping a new
/// highlight with the current time. Returns the colour the verse now has,
/// or `None` when its highlight was removed.
pub fn toggle(highlights: &mut Vec<HighlightEntry>, book: &str, chapter: u32, verse: u32) -> (r:
    Option<HighlightColor>)
    ensures
        exists|now: u64|
            (hl_views(final(highlights)@), r) == spec_toggle(
                hl_views(old(highlights)@),
                (book@, chapter, verse),
                now,
            ),
{
    let now = now_unix();
    toggle_at(highlights, book, chapter, verse, now)
}

/// Toggling keeps at most one highlight per verse.
pub proof fn lemma_toggle_keeps_unique(s: Seq<HighlightView>, k: VerseKey, now: u64)
    requires
        unique_keys(s),
    ensures
        unique_keys(spec_toggle(s, k, now).0),
{
    lemma_hl_pos_from(s, k, 0);
    let t = spec_toggle(s, k, now).0;
    match hl_pos(s, k) {
        Some(idx) => {
            match spec_next_color(s[idx].color) {
                Some(n) => {
                    assert forall|i: int, j: int| 0 <= i < j < t.len() implies hl_key(#[trigger] t[i])
                        != hl_key(#[trigger] t[j]) by {
                        assert(hl_key(t[i]) == hl_key(s[i]));
                        assert(hl_key(t[j]) == hl_key(s[j]));
                    }
                },
                None => {
                    assert forall|i: int, j: int| 0 <= i < j < t.len() implies hl_key(#[trigger] t[i])
                        != hl_key(#[trigger] t[j]) by {
                        let si = if i < idx { i } else { i + 1 };
                        let sj = if j < idx { j } else { j + 1 };
                        assert(t[i] == s[si]);
                        assert(t[j] == s[sj]);
                    }
                },
            }
        },
        None => {
            assert forall|i: int, j: int| 0 <= i < j < t.len() implies hl_key(#[trigger] t[i]) != hl_key(
                #[trigger] t[j],
            ) by {
                if j == s.len() {
                    assert(t[i] == s[i]);
                }
            }
        },
    }
}

/// Toggling a verse only touches that verse: every other verse keeps the
/// highlight it had.
pub proof fn lemma_toggle_other_verses(s: Seq<HighlightView>, k: VerseKey, now: u64, other: VerseKey)
    requires
        unique_keys(s),
        other != k,
    ensures
        hl_pos(spec_toggle(s, k, now).0, other) matches Some(j) ==> hl_pos(s, other) matches Some(
            i,
        ) && spec_toggle(s, k, now).0[j] == s[i],
        hl_pos(spec_toggle(s, k, now).0, other) is None ==> hl_pos(s, other) is None,
{
    let t = spec_toggle(s, k, now).0;
    lemma_hl_pos_from(s, k, 0);
    lemma_hl_pos_from(s, other, 0);
    lemma_hl_pos_from(t, other, 0);
    match hl_pos(s, k) {
        Some(idx) => {
            match spec_next_color(s[idx].color) {
                Some(n) => {
                    if let Some(j) = hl_pos(t, other) {
                        assert(hl_key(t[j]) == hl_key(s[j]));
                        assert(j != idx);
                        if let Some(i) = hl_pos(s, other) {
                            if i < j {
                                assert(hl_key(t[i]) == hl_key(s[i]));
                            }
                        }
                    } else {
                        if let Some(i) = hl_pos(s, other) {
                            assert(hl_key(t[i]) == hl_key(s[i]));
                        }
                    }
                },
                None => {
                    if let Some(j) = hl_pos(t, other) {
                        let sj = if j < idx { j } else { j + 1 };
                        assert(t[j] == s[sj]);
                        if let Some(i) = hl_pos(s, other) {
                            if i < sj {
                                assert(i != idx);
                                let ti = if i < idx { i } else { i - 1 };
                                assert(t[ti] == s[i]);
                            }
                        }
                    } else {
                        if let Some(i) = hl_pos(s, other) {
                            assert(i != idx);
                            let ti = if i < idx { i } else { i - 1 };
                            assert(t[ti] == s[i]);
                        }
                    }
                },
            }
        },
        None => {
            if let Some(j) = hl_pos(t, other) {
                assert(j < s.len());
                assert(t[j] == s[j]);
                if let Some(i) = hl_pos(s, other) {
                    if i < j {
                        assert(t[i] == s[i]);
                    }
                }
            } else {
                if let Some(i) = hl_pos(s, other) {
                    assert(t[i] == s[i]);
                }
            }
        },
    }
}

/// Toggling a verse with no highlight six times walks it through yellow,
/// green, blue, pink and orange and then removes it, leaving the list as it
/// was.
pub proof fn lemma_toggle_cycle(s: Seq<HighlightView>, k: VerseKey, t1: u64, t2: u64, t3: u64, t4: u64, t5: u64, t6: u64)
    requires
        hl_pos(s, k) is None,
    ensures
        ({
            let r1 = spec_toggle(s, k, t1);
            let r2 = spec_toggle(r1.0, k, t2);
            let r3 = spec_toggle(r2.0, k, t3);
            let r4 = spec_toggle(r3.0, k, t4);
            let r5 = spec_toggle(r4.0, k, t5);
            let r6 = spec_toggle(r5.0, k, t6);
            &&& r1.1 == Some(HighlightColor::Yellow)
            &&& r2.1 == Some(HighlightColor::Green)
            &&& r3.1 == Some(HighlightColor::Blue)
            &&& r4.1 == Some(HighlightColor::Pink)
            &&& r5.1 == Some(HighlightColor::Orange)
            &&& r6.1 == None::<HighlightColor>
            &&& r6.0 == s
        }),
{
    lemma_hl_pos_from(s, k, 0);
    let n = s.len() as int;
    let r1 = spec_toggle(s, k, t1);
    lemma_hl_pos_from(r1.0, k, 0);
    assert(hl_pos(r1.0, k) == Some(n)) by {
        assert(forall|m: int| 0 <= m < n ==> r1.0[m] == s[m]);
        lemma_hl_pos_is(r1.0, k, n);
    }
    let r2 = spec_toggle(r1.0, k, t2);
    lemma_hl_pos_from(r2.0, k, 0);
    assert(hl_pos(r2.0, k) == Some(n)) by {
        assert(forall|m: int| 0 <= m < n ==> r2.0[m] == s[m]);
        lemma_hl_pos_is(r2.0, k, n);
    }
    let r3 = spec_toggle(r2.0, k, t3);
    lemma_hl_pos_from(r3.0, k, 0);
    assert(hl_pos(r3.0, k) == Some(n)) by {
        assert(forall|m: int| 0 <= m < n ==> r3.0[m] == s[m]);
        lemma_hl_pos_is(r3.0, k, n);
    }
    let r4 = spec_toggle(r3.0, k, t4);
    lemma_hl_pos_from(r4.0, k, 0);
    assert(hl_pos(r4.0, k) == Some(n)) by {
        assert(forall|m: int| 0 <= m < n ==> r4.0[m] == s[m]);
        lemma_hl_pos_is(r4.0, k, n);
    }
    let r5 = spec_toggle(r4.0, k, t5);
    lemma_hl_pos_from(r5.0, k, 0);
    assert(hl_pos(r5.0, k) == Some(n)) by {
        assert(forall|m: int| 0 <= m < n ==> r5.0[m] == s[m]);
        lemma_hl_pos_is(r5.0, k, n);
    }
    let r6 = spec_toggle(r5.0, k, t6);
    assert(r6.0 =~= s);
}

// ---------------------------------------------------------------------------
// Lookup map
// ---------------------------------------------------------------------------

/// One verse's colour in a `HighlightMap`.
pub struct MapSlot {
    pub book: String,
    pub chapter: u32,
    pub verse: u32,
    pub color: HighlightColor,
}

/// Colour of each highlighted verse, for lookup while drawing.
pub struct HighlightMap {
    slots: Vec<MapSlot>,
}

/// The verse of a slot.
pub open spec fn slot_key(s: MapSlot) -> VerseKey {
    (s.book@, s.chapter, s.verse)
}

/// The map that collecting the highlights `s` in order gives: a later
/// highlight of a verse replaces an earlier one.
pub open spec fn spec_build_map(s: Seq<HighlightView>) -> Map<VerseKey, HighlightColor>
    decreases s.len(),
{
    if s.len() == 0 {
        Map::empty()
    } else {
        spec_build_map(s.drop_last()).insert(hl_key(s.last()), s.last().color)
    }
}

impl HighlightMap {
    /// The slots hold distinct verses.
    pub closed spec fn wf(&self) -> bool {
        forall|i: int, j: int|
            0 <= i < j < self.slots.len() ==> slot_key(#[trigger] self.slots@[i]) != slot_key(
                #[trigger] self.slots@[j],
            )
    }

    /// Colour of each verse in the map.
    pub closed spec fn spec_map(&self) -> Map<VerseKey, HighlightColor> {
        Map::new(
            |k: VerseKey| exists|i: int| 0 <= i < self.slots.len() && slot_key(self.slots@[i]) == k,
            |k: VerseKey|
                self.slots@[choose|i: int|
                    0 <= i < self.slots.len() && slot_key(self.slots@[i]) == k].color,
        )
    }

    /// An empty map.
    pub fn new() -> (m: Self)
        ensures
            m.wf(),
            m.spec_map() == Map::<VerseKey, HighlightColor>::empty(),
    {
        let m = HighlightMap { slots: Vec::new() };
        assert(m.spec_map() =~= Map::<VerseKey, HighlightColor>::empty());
        m
    }

    fn slot_of(&self, book: &str, chapter: u32, verse: u32) -> (r: Option<usize>)
        requires
            self.wf(),
        ensures
            match r {
                Some(i) => i < self.slots.len() && slot_key(self.slots@[i as int]) == (
                    book@,
                    chapter,
                    verse,
                ),
                None => !self.spec_map().contains_key((book@, chapter, verse)),
            },
    {
        let mut i: usize = 0;
        while i < self.slots.len()
            invariant
                i <= self.slots.len(),
                forall|m: int|
                    0 <= m < i ==> slot_key(#[trigger] self.slots@[m]) != (book@, chapter, verse),
            decreases self.slots.len() - i,
        {
            let s = &self.slots[i];
            if crate::text::string_eq_str(&s.book, book) && s.chapter == chapter && s.verse == verse {
                return Some(i);
            }
            i = i + 1;
        }
        None
    }

    /// Sets the colour of a verse.
    pub fn insert(&mut self, book: &str, chapter: u32, verse: u32, color: HighlightColor)
        requires
            old(self).wf(),
        ensures
            final(self).wf(),
            final(self).spec_map() == old(self).spec_map().insert((book@, chapter, verse), color),
    {
        let ghost k = (book@, chapter, verse);
        let ghost before = self.slots@;
        match self.slot_of(book, chapter, verse) {
            Some(i) => {
                let mut s = self.slots.remove(i);
                s.color = color;
                self.slots.insert(i, s);
                assert(self.slots@ =~= before.update(i as int, s));
                assert(self.wf()) by {
                    assert forall|a: int, b: int| 0 <= a < b < self.slots.len() implies slot_key(
                        #[trigger] self.slots@[a],
                    ) != slot_key(#[trigger] self.slots@[b]) by {
                        assert(slot_key(self.slots@[a]) == slot_key(before[a]));
                        assert(slot_key(self.slots@[b]) == slot_key(before[b]));
                    }
                }
                assert(self.spec_map() =~= old(self).spec_map().insert(k, color)) by {
                    assert forall|kk: VerseKey| #[trigger] self.spec_map().contains_key(kk) == old(
                        self,
                    ).spec_map().insert(k, color).contains_key(kk) by {
                        if self.spec_map().contains_key(kk) {
                            let j = choose|j: int|
                                0 <= j < self.slots.len() && slot_key(self.slots@[j]) == kk;
                            assert(slot_key(before[j]) == kk);
                        }
                        if old(self).spec_map().contains_key(kk) {
                            let j = choose|j: int|
                                0 <= j < before.len() && slot_key(before[j]) == kk;
                            assert(slot_key(self.slots@[j]) == kk);
                        }
                        if kk == k {
                            assert(slot_key(self.slots@[i as int]) == kk);
                        }
                    }
                    assert forall|kk: VerseKey| #[trigger]
                        self.spec_map().contains_key(kk) implies self.spec_map()[kk] == old(
                        self,
                    ).spec_map().insert(k, color)[kk] by {
                        let j = choose|j: int|
                            0 <= j < self.slots.len() && slot_key(self.slots@[j]) == kk;
                        if kk == k {
                            assert(j == i);
                        } else {
                            let j2 = choose|j2: int|
                                0 <= j2 < before.len() && slot_key(before[j2]) == kk;
                            assert(slot_key(before[j]) == kk);
                            assert(j == j2);
                        }
                    }
                }
            },
            None => {
                self.slots.push(MapSlot { book: String::from_str(book), chapter, verse, color });
                let ghost n = before.len() as int;
                assert(slot_key(self.slots@[n]) == k);
                assert(self.wf()) by {
                    assert forall|a: int, b: int| 0 <= a < b < self.slots.len() implies slot_key(
                        #[trigger] self.slots@[a],
                    ) != slot_key(#[trigger] self.slots@[b]) by {
                        assert(self.slots@[a] == before[a]);
                        if b < n {
                            assert(self.slots@[b] == before[b]);
                        } else {
                            assert(!(exists|m: int| 0 <= m < before.len() && slot_key(before[m]) == k));
                            assert(slot_key(before[a]) != k);
                        }
                    }
                }
                assert(self.spec_map() =~= old(self).spec_map().insert(k, color)) by {
                    assert forall|kk: VerseKey| #[trigger] self.spec_map().contains_key(kk) == old(
                        self,
                    ).spec_map().insert(k, color).contains_key(kk) by {
                        if self.spec_map().contains_key(kk) {
                            let j = choose|j: int|
                                0 <= j < self.slots.len() && slot_key(self.slots@[j]) == kk;
                            if j < n {
                                assert(slot_key(before[j]) == kk);
                            }
                        }
                        if old(self).spec_map().contains_key(kk) {
                            let j = choose|j: int|
                                0 <= j < before.len() && slot_key(before[j]) == kk;
                            assert(slot_key(self.slots@[j]) == kk);
                        }
                    }
                    assert forall|kk: VerseKey| #[trigger]
                        self.spec_map().contains_key(kk) implies self.spec_map()[kk] == old(
                        self,
                    ).spec_map().insert(k, color)[kk] by {
                        let j = choose|j: int|
                            0 <= j < self.slots.len() && slot_key(self.slots@[j]) == kk;
                        if kk == k {
                            assert(j == n);
                        } else {
                            let j2 = choose|j2: int|
                                0 <= j2 < before.len() && slot_key(before[j2]) == kk;
                            assert(self.slots@[j2] == before[j2]);
                            assert(j == j2);
                        }
                    }
                }
            },
        }
    }

    /// Colour of verse `key`, if it is highlighted.
    pub fn get(&self, key: &(String, u32, u32)) -> (r: Option<&HighlightColor>)
        requires
            self.wf(),
        ensures
            match r {
                Some(c) => self.spec_map().contains_key((key.0@, key.1, key.2)) && *c
                    == self.spec_map()[(key.0@, key.1, key.2)],
                None => !self.spec_map().contains_key((key.0@, key.1, key.2)),
            },
    {
        match self.slot_of(key.0.as_str(), key.1, key.2) {
            Some(i) => {
                proof {
                    let kk = (key.0@, key.1, key.2);
                    let j = choose|j: int| 0 <= j < self.slots.len() && slot_key(self.slots@[j]) == kk;
                    assert(j == i as int);
                }
                Some(&self.slots[i].color)
            },
            None => None,
        }
    }

    /// Colour of verse `book chapter:verse`, if it is highlighted.
    pub fn color_of(&self, book: &str, chapter: u32, verse: u32) -> (r: Option<HighlightColor>)
        requires
            self.wf(),
        ensures
            match r {
                Some(c) => self.spec_map().contains_key((book@, chapter, verse)) && c
                    == self.spec_map()[(book@, chapter, verse)],
                None => !self.spec_map().contains_key((book@, chapter, verse)),
            },
    {
        match self.slot_of(book, chapter, verse) {
            Some(i) => {
                proof {
                    let kk = (book@, chapter, verse);
                    let j = choose|j: int| 0 <= j < self.slots.len() && slot_key(self.slots@[j]) == kk;
                    assert(j == i as int);
                }
                Some(self.slots[i].color)
            },
            None => None,
        }
    }

    /// Number of highlighted verses.
    pub fn len(&self) -> (n: usize)
        requires
            self.wf(),
        ensures
            n == self.spec_map().dom().len(),
    {
        proof {
            let keys = self.slots@.map_values(|s: MapSlot| slot_key(s));
            assert(keys.no_duplicates()) by {
                assert forall|a: int, b: int| 0 <= a < keys.len() && 0 <= b < keys.len() && a != b implies keys[a] != keys[b] by {
                    if a < b {
                        assert(slot_key(self.slots@[a]) != slot_key(self.slots@[b]));
                    } else {
                        assert(slot_key(self.slots@[b]) != slot_key(self.slots@[a]));
                    }
                }
            }
            assert(self.spec_map().dom() =~= keys.to_set()) by {
                assert forall|kk: VerseKey| self.spec_map().dom().contains(kk) implies keys.to_set().contains(kk) by {
                    let j = choose|j: int| 0 <= j < self.slots.len() && slot_key(self.slots@[j]) == kk;
                    assert(keys[j] == kk);
                }
                assert forall|kk: VerseKey| keys.to_set().contains(kk) implies self.spec_map().dom().contains(kk) by {
                    let j = choose|j: int| 0 <= j < keys.len() && keys[j] == kk;
                    assert(slot_key(self.slots@[j]) == kk);
                }
            }
            keys.unique_seq_to_set();
        }
        self.slots.len()
    }
}

/// The colour of each highlighted verse; when a verse appears more than once
/// the later entry wins.
pub fn build_map(highlights: &[HighlightEntry]) -> (m: HighlightMap)
    ensures
        m.wf(),
        m.spec_map() == spec_build_map(hl_views(highlights@)),
{
    let mut m = HighlightMap::new();
    let mut i: usize = 0;
    while i < highlights.len()
        invariant
            i <= highlights.len(),
            m.wf(),
            m.spec_map() == spec_build_map(hl_views(highlights@).subrange(0, i as int)),
        decreases highlights.len() - i,
    {
        let h = &highlights[i];
        m.insert(h.book.as_str(), h.chapter, h.verse, h.color);
        proof {
            let s = hl_views(highlights@);
            assert(s.subrange(0, i + 1).drop_last() =~= s.subrange(0, i as int));
        }
        i = i + 1;
    }
    proof {
        assert(hl_views(highlights@).subrange(0, highlights@.len() as int) =~= hl_views(highlights@));
    }
    m
}

} // verus!
