//! The translation picker overlay.
use vstd::prelude::*;

use crate::bible::spec_translation_code;
use crate::bible::spec_translation_lang;
use crate::bible::spec_translation_name;
use crate::bible::spec_translation_offline;
use crate::bible::translation_info;
use crate::text::extend_str;
use crate::text::string_from_chars;
use crate::ui::layout::ListState;

verus! {

/// Selection in the translation picker.
pub struct TranslationPickerState {
    pub list_state: ListState,
}

impl Default for TranslationPickerState {
    /// Nothing selected.
    fn default() -> (s: Self)
        ensures
            s.list_state == (ListState { selected: None, offset: 0 }),
    {
        TranslationPickerState { list_state: ListState::new() }
    }
}

/// How translation `i` is listed in the picker: a check mark on the active
/// bundled translation, and `[soon]` after the ones that are not bundled.
pub open spec fn spec_picker_label(i: int, active: Seq<char>) -> Seq<char> {
    let body = spec_translation_code(i) + " \u{2014} "@ + spec_translation_name(i) + " ("@ + spec_translation_lang(i) + ")"@;
    if spec_translation_offline(i) {
        if spec_translation_code(i) == active {
            "\u{2713} "@ + body
        } else {
            "  "@ + body
        }
    } else {
        "  "@ + body + " [soon]"@
    }
}

/// The picker line of translation `i`, with `active` the current code.
pub fn picker_label(i: usize, active: &str) -> (r: String)
    requires
        i < 21,
    ensures
        r@ == spec_picker_label(i as int, active@),
{
    let t = translation_info(i);
    let mut out: Vec<char> = Vec::new();
    if t.offline {
        if crate::text::str_eq(t.code, active) {
            extend_str(&mut out, "\u{2713} ");
        } else {
            extend_str(&mut out, "  ");
        }
    } else {
        extend_str(&mut out, "  ");
    }
    extend_str(&mut out, t.code);
    extend_str(&mut out, " \u{2014} ");
    extend_str(&mut out, t.name);
    extend_str(&mut out, " (");
    extend_str(&mut out, t.lang);
    extend_str(&mut out, ")");
    if !t.offline {
        extend_str(&mut out, " [soon]");
    }
    string_from_chars(out.as_slice())
}

} // verus!
