//! The Bible: book catalogue, verse records, the bundled database, the
//! translation list and the chapter resolver.
pub mod books;
pub mod db;
pub mod random;
pub mod resolver;
pub mod types;

use vstd::prelude::*;

use crate::text::eq_ignore_ascii_case;
use crate::text::eq_ignore_ascii_case_spec;

verus! {

/// One translation the reader knows about.
pub struct TranslationInfo {
    pub code: &'static str,
    pub name: &'static str,
    pub lang: &'static str,
    pub offline: bool,
}

/// Number of known translations.
pub const TRANSLATION_COUNT: usize = 21;
/// Code of the translation at index `i` of the list.
pub open spec fn spec_translation_code(i: int) -> Seq<char> {
    if i == 0 {
        "KJV"@
    } else     if i == 1 {
        "AMP"@
    } else     if i == 2 {
        "ASV"@
    } else     if i == 3 {
        "BSB"@
    } else     if i == 4 {
        "CPDV"@
    } else     if i == 5 {
        "EASY"@
    } else     if i == 6 {
        "FBV"@
    } else     if i == 7 {
        "LSV"@
    } else     if i == 8 {
        "NASB1995"@
    } else     if i == 9 {
        "NASB2020"@
    } else     if i == 10 {
        "NIV11"@
    } else     if i == 11 {
        "NIrV"@
    } else     if i == 12 {
        "NIVUK11"@
    } else     if i == 13 {
        "PEV"@
    } else     if i == 14 {
        "TCENT"@
    } else     if i == 15 {
        "TOJB2011"@
    } else     if i == 16 {
        "TPT"@
    } else     if i == 17 {
        "WMB"@
    } else     if i == 18 {
        "WMBBE"@
    } else     if i == 19 {
        "engWEBUS"@
    } else {
        "enggnv"@
    }
}

/// Full name of the translation at index `i`.
pub open spec fn spec_translation_name(i: int) -> Seq<char> {
    if i == 0 {
        "King James Version"@
    } else     if i == 1 {
        "Amplified Bible"@
    } else     if i == 2 {
        "American Standard Version"@
    } else     if i == 3 {
        "Berean Standard Bible"@
    } else     if i == 4 {
        "Catholic Public Domain Version"@
    } else     if i == 5 {
        "EasyEnglish Bible 2024"@
    } else     if i == 6 {
        "Free Bible Version"@
    } else     if i == 7 {
        "Literal Standard Version"@
    } else     if i == 8 {
        "New American Standard Bible 1995"@
    } else     if i == 9 {
        "New American Standard Bible 2020"@
    } else     if i == 10 {
        "New International Version"@
    } else     if i == 11 {
        "New International Reader's Version"@
    } else     if i == 12 {
        "New International Version (Anglicised)"@
    } else     if i == 13 {
        "Plain English Version"@
    } else     if i == 14 {
        "Text-Critical English New Testament"@
    } else     if i == 15 {
        "The Orthodox Jewish Bible"@
    } else     if i == 16 {
        "The Passion Translation"@
    } else     if i == 17 {
        "World Messianic Bible"@
    } else     if i == 18 {
        "World Messianic Bible British Edition"@
    } else     if i == 19 {
        "World English Bible"@
    } else {
        "Geneva Bible"@
    }
}

/// Language of the translation at index `i`.
pub open spec fn spec_translation_lang(i: int) -> Seq<char> {
    if i == 0 {
        "English"@
    } else     if i == 1 {
        "English"@
    } else     if i == 2 {
        "English"@
    } else     if i == 3 {
        "English"@
    } else     if i == 4 {
        "English"@
    } else     if i == 5 {
        "English"@
    } else     if i == 6 {
        "English"@
    } else     if i == 7 {
        "English"@
    } else     if i == 8 {
        "English"@
    } else     if i == 9 {
        "English"@
    } else     if i == 10 {
        "English"@
    } else     if i == 11 {
        "English"@
    } else     if i == 12 {
        "English"@
    } else     if i == 13 {
        "English"@
    } else     if i == 14 {
        "English"@
    } else     if i == 15 {
        "English"@
    } else     if i == 16 {
        "English"@
    } else     if i == 17 {
        "English"@
    } else     if i == 18 {
        "English"@
    } else     if i == 19 {
        "English"@
    } else {
        "English"@
    }
}

/// Whether the translation at index `i` is bundled for offline use.
pub open spec fn spec_translation_offline(i: int) -> bool {
    if i == 0 {
        true
    } else     if i == 1 {
        false
    } else     if i == 2 {
        false
    } else     if i == 3 {
        false
    } else     if i == 4 {
        false
    } else     if i == 5 {
        false
    } else     if i == 6 {
        false
    } else     if i == 7 {
        false
    } else     if i == 8 {
        false
    } else     if i == 9 {
        false
    } else     if i == 10 {
        false
    } else     if i == 11 {
        false
    } else     if i == 12 {
        false
    } else     if i == 13 {
        false
    } else     if i == 14 {
        false
    } else     if i == 15 {
        false
    } else     if i == 16 {
        false
    } else     if i == 17 {
        false
    } else     if i == 18 {
        false
    } else     if i == 19 {
        false
    } else {
        false
    }
}

/// The record that `translation_info(i)` returns, field by field.
pub open spec fn translation_matches(t: TranslationInfo, i: int) -> bool {
    &&& t.code@ == spec_translation_code(i)
    &&& t.name@ == spec_translation_name(i)
    &&& t.lang@ == spec_translation_lang(i)
    &&& t.offline == spec_translation_offline(i)
}

/// The translation at index `idx` of the list: the bundled KJV first, then
/// the translations served by the YouVersion API.
pub fn translation_info(idx: usize) -> (t: TranslationInfo)
    requires
        idx < 21,
    ensures
        translation_matches(t, idx as int),
{
    match idx {
        0 => TranslationInfo { code: "KJV", name: "King James Version", lang: "English", offline: true },
        1 => TranslationInfo { code: "AMP", name: "Amplified Bible", lang: "English", offline: false },
        2 => TranslationInfo { code: "ASV", name: "American Standard Version", lang: "English", offline: false },
        3 => TranslationInfo { code: "BSB", name: "Berean Standard Bible", lang: "English", offline: false },
        4 => TranslationInfo { code: "CPDV", name: "Catholic Public Domain Version", lang: "English", offline: false },
        5 => TranslationInfo { code: "EASY", name: "EasyEnglish Bible 2024", lang: "English", offline: false },
        6 => TranslationInfo { code: "FBV", name: "Free Bible Version", lang: "English", offline: false },
        7 => TranslationInfo { code: "LSV", name: "Literal Standard Version", lang: "English", offline: false },
        8 => TranslationInfo { code: "NASB1995", name: "New American Standard Bible 1995", lang: "English", offline: false },
        9 => TranslationInfo { code: "NASB2020", name: "New American Standard Bible 2020", lang: "English", offline: false },
        10 => TranslationInfo { code: "NIV11", name: "New International Version", lang: "English", offline: false },
        11 => TranslationInfo { code: "NIrV", name: "New International Reader's Version", lang: "English", offline: false },
        12 => TranslationInfo { code: "NIVUK11", name: "New International Version (Anglicised)", lang: "English", offline: false },
        13 => TranslationInfo { code: "PEV", name: "Plain English Version", lang: "English", offline: false },
        14 => TranslationInfo { code: "TCENT", name: "Text-Critical English New Testament", lang: "English", offline: false },
        15 => TranslationInfo { code: "TOJB2011", name: "The Orthodox Jewish Bible", lang: "English", offline: false },
        16 => TranslationInfo { code: "TPT", name: "The Passion Translation", lang: "English", offline: false },
        17 => TranslationInfo { code: "WMB", name: "World Messianic Bible", lang: "English", offline: false },
        18 => TranslationInfo { code: "WMBBE", name: "World Messianic Bible British Edition", lang: "English", offline: false },
        19 => TranslationInfo { code: "engWEBUS", name: "World English Bible", lang: "English", offline: false },
        _ => TranslationInfo { code: "enggnv", name: "Geneva Bible", lang: "English", offline: false },
    }
}

/// The whole translation list, in display order.
pub fn translations() -> (v: Vec<TranslationInfo>)
    ensures
        v.len() == 21,
        forall|i: int| 0 <= i < 21 ==> translation_matches(#[trigger] v@[i], i),
{
    let mut v: Vec<TranslationInfo> = Vec::new();
    let mut i: usize = 0;
    while i < TRANSLATION_COUNT
        invariant
            i <= 21,
            v.len() == i,
            forall|k: int| 0 <= k < i ==> translation_matches(#[trigger] v@[k], k),
        decreases 21 - i,
    {
        v.push(translation_info(i));
        i = i + 1;
    }
    v
}

/// The translation named `code` (compared without ASCII case) is in the list
/// and bundled for offline use.
pub open spec fn spec_is_bundled(code: Seq<char>) -> bool {
    exists|i: int|
        0 <= i < 21 && eq_ignore_ascii_case_spec(spec_translation_code(i), code)
            && spec_translation_offline(i)
}

/// Whether `code` names a bundled translation, ignoring ASCII case.
pub fn is_bundled_translation(code: &str) -> (r: bool)
    ensures
        r == spec_is_bundled(code@),
{
    let mut i: usize = 0;
    while i < TRANSLATION_COUNT
        invariant
            i <= 21,
            forall|k: int|
                0 <= k < i ==> !(eq_ignore_ascii_case_spec(#[trigger] spec_translation_code(k), code@)
                    && spec_translation_offline(k)),
        decreases 21 - i,
    {
        let t = translation_info(i);
        if eq_ignore_ascii_case(t.code, code) && t.offline {
            return true;
        }
        i = i + 1;
    }
    false
}

/// Position of the translation whose code is exactly `code`, if any.
pub fn translation_index(code: &str) -> (r: Option<usize>)
    ensures
        match r {
            Some(i) => i < 21 && spec_translation_code(i as int) == code@ && forall|k: int|
                0 <= k < i ==> spec_translation_code(k) != code@,
            None => forall|k: int| 0 <= k < 21 ==> spec_translation_code(k) != code@,
        },
{
    let mut i: usize = 0;
    while i < TRANSLATION_COUNT
        invariant
            i <= 21,
            forall|k: int| 0 <= k < i ==> spec_translation_code(k) != code@,
        decreases 21 - i,
    {
        let t = translation_info(i);
        if crate::text::str_eq(t.code, code) {
            return Some(i);
        }
        i = i + 1;
    }
    None
}

} // verus!
