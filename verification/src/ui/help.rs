//! The help menu overlay: tabs and their positions on screen.
use vstd::prelude::*;

use crate::ui::layout::Rect;

verus! {

/// Number of help tabs.
pub const TAB_COUNT: usize = 4;

/// Title of each help tab.
pub open spec fn spec_tab_label(i: int) -> Seq<char> {
    if i == 0 {
        "Navigation"@
    } else if i == 1 {
        "Actions"@
    } else if i == 2 {
        "App"@
    } else {
        "Overlays"@
    }
}

/// Title of help tab `i`.
pub fn tab_label(i: usize) -> (s: &'static str)
    requires
        i < 4,
    ensures
        s@ == spec_tab_label(i as int),
{
    if i == 0 {
        "Navigation"
    } else if i == 1 {
        "Actions"
    } else if i == 2 {
        "App"
    } else {
        "Overlays"
    }
}

/// State of the help overlay.
pub struct HelpState {
    pub scroll: u16,
    pub active_tab: usize,
    pub tab_bar_rect: Rect,
    pub tab_offsets: [u16; 4],
}

impl Default for HelpState {
    fn default() -> (s: Self)
        ensures
            s.scroll == 0,
            s.active_tab == 0,
            s.tab_bar_rect == Rect::spec_zero(),
            s.tab_offsets@ == seq![0u16, 0u16, 0u16, 0u16],
    {
        HelpState { scroll: 0, active_tab: 0, tab_bar_rect: Rect::zero(), tab_offsets: [0, 0, 0, 0] }
    }
}

impl Rect {
    /// The empty rectangle at the origin.
    pub open spec fn spec_zero() -> Rect {
        Rect { x: 0, y: 0, width: 0, height: 0 }
    }
}

/// Column where each tab starts when the tab bar starts at column `x`: each
/// title is drawn with a space on either side, and tabs are separated by
/// five columns.
pub open spec fn spec_tab_offsets(x: int) -> Seq<int> {
    seq![x, x + 17, x + 31, x + 41]
}

/// Columns where the four tabs start when the tab bar starts at column `x`.
pub fn tab_offsets(x: u16) -> (o: [u16; 4])
    requires
        x as int + 51 <= u16::MAX,
    ensures
        forall|i: int| 0 <= i < 4 ==> o@[i] as int == spec_tab_offsets(x as int)[i],
{
    let mut offsets: [u16; 4] = [0, 0, 0, 0];
    let mut pos: u16 = x;
    let mut i: usize = 0;
    while i < TAB_COUNT
        invariant
            i <= 4,
            x as int + 51 <= u16::MAX,
            pos as int == x + if i == 0 { 0int } else if i == 1 { 17int } else if i == 2 { 31int } else if i == 3 { 41int } else { 51int },
            forall|k: int| 0 <= k < i ==> offsets@[k] as int == spec_tab_offsets(x as int)[k],
        decreases 4 - i,
    {
        offsets[i] = pos;
        let label = tab_label(i);
        proof {
            reveal_strlit("Navigation");
            reveal_strlit("Actions");
            reveal_strlit("App");
            reveal_strlit("Overlays");
        }
        let len = label.unicode_len();
        pos = pos + (len as u16) + 2;
        if i < TAB_COUNT - 1 {
            pos = pos + 5;
        }
        i = i + 1;
    }
    offsets
}

impl HelpState {
    /// The tab whose title covers column `col`: the last tab starting at or
    /// before it, or none when the tab positions are not known yet (all
    /// zero) or the column is left of the first tab.
    pub fn tab_at_col(&self, col: u16) -> (r: Option<usize>)
        ensures
            r == spec_tab_at(self.tab_offsets@, col),
    {
        if self.tab_offsets[0] == 0 && self.tab_offsets[1] == 0 && self.tab_offsets[2] == 0
            && self.tab_offsets[3] == 0 {
            return None;
        }
        if col >= self.tab_offsets[3] {
            Some(3)
        } else if col >= self.tab_offsets[2] {
            Some(2)
        } else if col >= self.tab_offsets[1] {
            Some(1)
        } else if col >= self.tab_offsets[0] {
            Some(0)
        } else {
            None
        }
    }

    /// Places the tab bar at `bar`: the tab positions follow from its left
    /// column.
    pub fn place_tabs(&mut self, bar: Rect)
        requires
            bar.x as int + 51 <= u16::MAX,
        ensures
            final(self).tab_bar_rect == bar,
            forall|i: int| 0 <= i < 4 ==> final(self).tab_offsets@[i] as int == spec_tab_offsets(bar.x as int)[i],
            final(self).scroll == old(self).scroll,
            final(self).active_tab == old(self).active_tab,
    {
        self.tab_bar_rect = bar;
        self.tab_offsets = tab_offsets(bar.x);
    }
}

/// The tab under column `col` for tab positions `o`: the last tab starting
/// at or before the column; none when the positions are all zero (not yet
/// drawn) or the column is left of the first tab.
pub open spec fn spec_tab_at(o: Seq<u16>, col: u16) -> Option<usize> {
    if o[0] == 0 && o[1] == 0 && o[2] == 0 && o[3] == 0 {
        None
    } else if col >= o[3] {
        Some(3)
    } else if col >= o[2] {
        Some(2)
    } else if col >= o[1] {
        Some(1)
    } else if col >= o[0] {
        Some(0)
    } else {
        None
    }
}

/// The key bindings listed on help tab `tab` (3 and above: the overlays
/// tab), as keys and description.
pub open spec fn spec_help_bindings(tab: int) -> Seq<(Seq<char>, Seq<char>)> {
    if tab == 0 {
        seq![
            ("h / \u{2190}"@, "Focus previous panel"@),
            ("l / \u{2192} / Enter"@, "Focus next panel"@),
            ("j / \u{2193}"@, "Move down"@),
            ("k / \u{2191}"@, "Move up"@),
        ]
    } else if tab == 1 {
        seq![
            ("/"@, "Search"@),
            ("b"@, "Bookmark current verse"@),
            ("B"@, "Bookmarks list"@),
            ("H"@, "Toggle highlight"@),
            ("g"@, "Toggle highlight visibility"@),
            ("G"@, "Highlights list"@),
            ("n"@, "Edit note on verse"@),
            ("N"@, "Notes list"@),
            ("r"@, "Random verse"@),
            ("v"@, "Translation picker"@),
        ]
    } else if tab == 2 {
        seq![
            ("t"@, "Cycle theme"@),
            ("S"@, "Settings"@),
            ("?"@, "This menu"@),
            ("q"@, "Quit"@),
        ]
    } else {
        seq![
            ("Esc"@, "Close overlay"@),
            ("j / k / \u{2191} / \u{2193}"@, "Navigate lists"@),
            ("Enter"@, "Select item"@),
            ("d"@, "Delete item"@),
        ]
    }
}

/// The key bindings listed on help tab `tab`.
pub fn help_bindings(tab: usize) -> (v: Vec<(&'static str, &'static str)>)
    ensures
        v@.len() == spec_help_bindings(tab as int).len(),
        forall|i: int| 0 <= i < v@.len() ==> (#[trigger] v@[i].0@, v@[i].1@) == spec_help_bindings(tab as int)[i],
{
    let v: Vec<(&'static str, &'static str)> = if tab == 0 {
        vec![("h / \u{2190}", "Focus previous panel"), ("l / \u{2192} / Enter", "Focus next panel"), ("j / \u{2193}", "Move down"), ("k / \u{2191}", "Move up")]
    } else if tab == 1 {
        vec![("/", "Search"), ("b", "Bookmark current verse"), ("B", "Bookmarks list"), ("H", "Toggle highlight"), ("g", "Toggle highlight visibility"), ("G", "Highlights list"), ("n", "Edit note on verse"), ("N", "Notes list"), ("r", "Random verse"), ("v", "Translation picker")]
    } else if tab == 2 {
        vec![("t", "Cycle theme"), ("S", "Settings"), ("?", "This menu"), ("q", "Quit")]
    } else {
        vec![("Esc", "Close overlay"), ("j / k / \u{2191} / \u{2193}", "Navigate lists"), ("Enter", "Select item"), ("d", "Delete item")]
    };
    proof {
        assert forall|i: int| 0 <= i < v@.len() implies (#[trigger] v@[i].0@, v@[i].1@) == spec_help_bindings(tab as int)[i] by {
        }
    }
    v
}

/// A key column of the help menu: two spaces, then the keys padded with
/// spaces to 16 characters.
pub open spec fn spec_binding_label(keys: Seq<char>) -> Seq<char> {
    "  "@ + keys + Seq::new(if keys.len() < 16 { (16 - keys.len()) as nat } else { 0 }, |i: int| ' ')
}

/// The key column of one help line.
pub fn binding_label(keys: &str) -> (r: String)
    ensures
        r@ == spec_binding_label(keys@),
{
    let mut out: Vec<char> = Vec::new();
    crate::text::extend_str(&mut out, "  ");
    crate::text::extend_str(&mut out, keys);
    let n = keys.unicode_len();
    let mut k: usize = n;
    while k < 16
        invariant
            n == keys@.len(),
            n <= k <= 16 || (n > 16 && k == n),
            out@ == "  "@ + keys@ + Seq::new((k - n) as nat, |i: int| ' '),
        decreases 16 - k,
    {
        out.push(' ');
        proof {
            assert(out@ =~= "  "@ + keys@ + Seq::new((k + 1 - n) as nat, |i: int| ' '));
        }
        k = k + 1;
    }
    proof {
        assert(Seq::new((k - n) as nat, |i: int| ' ') =~= Seq::new(if n < 16 { (16 - n) as nat } else { 0 }, |i: int| ' '));
    }
    crate::text::string_from_chars(out.as_slice())
}

} // verus!
