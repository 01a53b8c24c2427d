use selah::bible::books::book_name;
use selah::bible::books::book_num_from_usfm;
use selah::bible::books::book_usfm;
use selah::bible::books::books;
use selah::bible::books::Testament;
use selah::bible::translations;
use selah::bible::is_bundled_translation;

#[test]
fn book_count_is_66() {
    assert_eq!(books().len(), 66);
}

#[test]
fn first_book_is_genesis() {
    assert_eq!(books()[0].name, "Genesis");
}

#[test]
fn last_book_is_revelation() {
    assert_eq!(books()[65].name, "Revelation");
}

#[test]
fn book_name_lookup() {
    assert_eq!(book_name(1), "Genesis");
    assert_eq!(book_name(66), "Revelation");
    assert_eq!(book_name(43), "John");
}

#[test]
fn book_usfm_genesis() {
    assert_eq!(book_usfm(1), "GEN");
}

#[test]
fn book_usfm_john() {
    assert_eq!(book_usfm(43), "JHN");
}

#[test]
fn book_usfm_revelation() {
    assert_eq!(book_usfm(66), "REV");
}

#[test]
fn book_num_from_usfm_genesis() {
    assert_eq!(book_num_from_usfm("GEN"), Some(1));
}

#[test]
fn book_num_from_usfm_john() {
    assert_eq!(book_num_from_usfm("JHN"), Some(43));
}

#[test]
fn book_num_from_usfm_unknown() {
    assert_eq!(book_num_from_usfm("XYZ"), None);
}

#[test]
fn usfm_round_trip_all_books() {
    for n in 1..=66 {
        assert_eq!(book_num_from_usfm(book_usfm(n)), Some(n));
    }
}

#[test]
fn out_of_range_book_numbers_are_unknown() {
    assert_eq!(book_name(0), "Unknown");
    assert_eq!(book_name(67), "Unknown");
    assert_eq!(book_usfm(0), "UNK");
    assert_eq!(book_usfm(100), "UNK");
}

#[test]
fn testaments_split_at_matthew() {
    let all = books();
    assert_eq!(all[38].name, "Malachi");
    assert_eq!(all[38].testament, Testament::Old);
    assert_eq!(all[39].name, "Matthew");
    assert_eq!(all[39].testament, Testament::New);
    assert_eq!(all[18].chapters, 150);
}

#[test]
fn translations_contains_kjv_offline() {
    let all = translations();
    let kjv = all.iter().find(|t| t.code == "KJV");
    assert!(kjv.is_some());
    assert!(kjv.unwrap().offline);
}

#[test]
fn translations_has_non_offline_entries() {
    assert!(translations().iter().any(|t| !t.offline));
}

#[test]
fn bundled_check_ignores_ascii_case() {
    assert!(is_bundled_translation("KJV"));
    assert!(is_bundled_translation("kjv"));
    assert!(!is_bundled_translation("ASV"));
    assert!(!is_bundled_translation("KJV "));
}
