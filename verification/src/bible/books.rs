//! The sixty-six books of the Protestant canon, in canonical order, with
//! their names, abbreviations, USFM codes, chapter counts and testaments.
use vstd::prelude::*;

use crate::text::str_eq;

verus! {

/// Which testament a book belongs to.
#[derive(Debug, Clone, Copy, PartialEq, Eq, Structural)]
pub enum Testament {
    Old,
    New,
}

/// Static description of one book of the canon.
pub struct BookInfo {
    pub name: &'static str,
    pub abbreviation: &'static str,
    pub usfm: &'static str,
    pub chapters: u32,
    pub testament: Testament,
}

/// Number of books in the canon.
pub const BOOK_COUNT: usize = 66;
/// Full English name of the book at canonical index `i` (0-based).
pub open spec fn spec_book_name(i: int) -> Seq<char> {
    if i == 0 {
        "Genesis"@
    } else     if i == 1 {
        "Exodus"@
    } else     if i == 2 {
        "Leviticus"@
    } else     if i == 3 {
        "Numbers"@
    } else     if i == 4 {
        "Deuteronomy"@
    } else     if i == 5 {
        "Joshua"@
    } else     if i == 6 {
        "Judges"@
    } else     if i == 7 {
        "Ruth"@
    } else     if i == 8 {
        "1 Samuel"@
    } else     if i == 9 {
        "2 Samuel"@
    } else     if i == 10 {
        "1 Kings"@
    } else     if i == 11 {
        "2 Kings"@
    } else     if i == 12 {
        "1 Chronicles"@
    } else     if i == 13 {
        "2 Chronicles"@
    } else     if i == 14 {
        "Ezra"@
    } else     if i == 15 {
        "Nehemiah"@
    } else     if i == 16 {
        "Esther"@
    } else     if i == 17 {
        "Job"@
    } else     if i == 18 {
        "Psalms"@
    } else     if i == 19 {
        "Proverbs"@
    } else     if i == 20 {
        "Ecclesiastes"@
    } else     if i == 21 {
        "Song of Solomon"@
    } else     if i == 22 {
        "Isaiah"@
    } else     if i == 23 {
        "Jeremiah"@
    } else     if i == 24 {
        "Lamentations"@
    } else     if i == 25 {
        "Ezekiel"@
    } else     if i == 26 {
        "Daniel"@
    } else     if i == 27 {
        "Hosea"@
    } else     if i == 28 {
        "Joel"@
    } else     if i == 29 {
        "Amos"@
    } else     if i == 30 {
        "Obadiah"@
    } else     if i == 31 {
        "Jonah"@
    } else     if i == 32 {
        "Micah"@
    } else     if i == 33 {
        "Nahum"@
    } else     if i == 34 {
        "Habakkuk"@
    } else     if i == 35 {
        "Zephaniah"@
    } else     if i == 36 {
        "Haggai"@
    } else     if i == 37 {
        "Zechariah"@
    } else     if i == 38 {
        "Malachi"@
    } else     if i == 39 {
        "Matthew"@
    } else     if i == 40 {
        "Mark"@
    } else     if i == 41 {
        "Luke"@
    } else     if i == 42 {
        "John"@
    } else     if i == 43 {
        "Acts"@
    } else     if i == 44 {
        "Romans"@
    } else     if i == 45 {
        "1 Corinthians"@
    } else     if i == 46 {
        "2 Corinthians"@
    } else     if i == 47 {
        "Galatians"@
    } else     if i == 48 {
        "Ephesians"@
    } else     if i == 49 {
        "Philippians"@
    } else     if i == 50 {
        "Colossians"@
    } else     if i == 51 {
        "1 Thessalonians"@
    } else     if i == 52 {
        "2 Thessalonians"@
    } else     if i == 53 {
        "1 Timothy"@
    } else     if i == 54 {
        "2 Timothy"@
    } else     if i == 55 {
        "Titus"@
    } else     if i == 56 {
        "Philemon"@
    } else     if i == 57 {
        "Hebrews"@
    } else     if i == 58 {
        "James"@
    } else     if i == 59 {
        "1 Peter"@
    } else     if i == 60 {
        "2 Peter"@
    } else     if i == 61 {
        "1 John"@
    } else     if i == 62 {
        "2 John"@
    } else     if i == 63 {
        "3 John"@
    } else     if i == 64 {
        "Jude"@
    } else {
        "Revelation"@
    }
}
/// Short abbreviation of the book at canonical index `i`.
pub open spec fn spec_book_abbreviation(i: int) -> Seq<char> {
    if i == 0 {
        "Gen"@
    } else     if i == 1 {
        "Exod"@
    } else     if i == 2 {
        "Lev"@
    } else     if i == 3 {
        "Num"@
    } else     if i == 4 {
        "Deut"@
    } else     if i == 5 {
        "Josh"@
    } else     if i == 6 {
        "Judg"@
    } else     if i == 7 {
        "Ruth"@
    } else     if i == 8 {
        "1Sam"@
    } else     if i == 9 {
        "2Sam"@
    } else     if i == 10 {
        "1Kgs"@
    } else     if i == 11 {
        "2Kgs"@
    } else     if i == 12 {
        "1Chr"@
    } else     if i == 13 {
        "2Chr"@
    } else     if i == 14 {
        "Ezra"@
    } else     if i == 15 {
        "Neh"@
    } else     if i == 16 {
        "Esth"@
    } else     if i == 17 {
        "Job"@
    } else     if i == 18 {
        "Ps"@
    } else     if i == 19 {
        "Prov"@
    } else     if i == 20 {
        "Eccl"@
    } else     if i == 21 {
        "Song"@
    } else     if i == 22 {
        "Isa"@
    } else     if i == 23 {
        "Jer"@
    } else     if i == 24 {
        "Lam"@
    } else     if i == 25 {
        "Ezek"@
    } else     if i == 26 {
        "Dan"@
    } else     if i == 27 {
        "Hos"@
    } else     if i == 28 {
        "Joel"@
    } else     if i == 29 {
        "Amos"@
    } else     if i == 30 {
        "Obad"@
    } else     if i == 31 {
        "Jonah"@
    } else     if i == 32 {
        "Mic"@
    } else     if i == 33 {
        "Nah"@
    } else     if i == 34 {
        "Hab"@
    } else     if i == 35 {
        "Zeph"@
    } else     if i == 36 {
        "Hag"@
    } else     if i == 37 {
        "Zech"@
    } else     if i == 38 {
        "Mal"@
    } else     if i == 39 {
        "Matt"@
    } else     if i == 40 {
        "Mark"@
    } else     if i == 41 {
        "Luke"@
    } else     if i == 42 {
        "John"@
    } else     if i == 43 {
        "Acts"@
    } else     if i == 44 {
        "Rom"@
    } else     if i == 45 {
        "1Cor"@
    } else     if i == 46 {
        "2Cor"@
    } else     if i == 47 {
        "Gal"@
    } else     if i == 48 {
        "Eph"@
    } else     if i == 49 {
        "Phil"@
    } else     if i == 50 {
        "Col"@
    } else     if i == 51 {
        "1Thess"@
    } else     if i == 52 {
        "2Thess"@
    } else     if i == 53 {
        "1Tim"@
    } else     if i == 54 {
        "2Tim"@
    } else     if i == 55 {
        "Titus"@
    } else     if i == 56 {
        "Phlm"@
    } else     if i == 57 {
        "Heb"@
    } else     if i == 58 {
        "Jas"@
    } else     if i == 59 {
        "1Pet"@
    } else     if i == 60 {
        "2Pet"@
    } else     if i == 61 {
        "1John"@
    } else     if i == 62 {
        "2John"@
    } else     if i == 63 {
        "3John"@
    } else     if i == 64 {
        "Jude"@
    } else {
        "Rev"@
    }
}
/// The three letters of the USFM code of the book at canonical index `i`.
pub open spec fn usfm_triple(i: int) -> (char, char, char) {
    if i == 0 {
        ('G', 'E', 'N')
    } else     if i == 1 {
        ('E', 'X', 'O')
    } else     if i == 2 {
        ('L', 'E', 'V')
    } else     if i == 3 {
        ('N', 'U', 'M')
    } else     if i == 4 {
        ('D', 'E', 'U')
    } else     if i == 5 {
        ('J', 'O', 'S')
    } else     if i == 6 {
        ('J', 'D', 'G')
    } else     if i == 7 {
        ('R', 'U', 'T')
    } else     if i == 8 {
        ('1', 'S', 'A')
    } else     if i == 9 {
        ('2', 'S', 'A')
    } else     if i == 10 {
        ('1', 'K', 'I')
    } else     if i == 11 {
        ('2', 'K', 'I')
    } else     if i == 12 {
        ('1', 'C', 'H')
    } else     if i == 13 {
        ('2', 'C', 'H')
    } else     if i == 14 {
        ('E', 'Z', 'R')
    } else     if i == 15 {
        ('N', 'E', 'H')
    } else     if i == 16 {
        ('E', 'S', 'T')
    } else     if i == 17 {
        ('J', 'O', 'B')
    } else     if i == 18 {
        ('P', 'S', 'A')
    } else     if i == 19 {
        ('P', 'R', 'O')
    } else     if i == 20 {
        ('E', 'C', 'C')
    } else     if i == 21 {
        ('S', 'N', 'G')
    } else     if i == 22 {
        ('I', 'S', 'A')
    } else     if i == 23 {
        ('J', 'E', 'R')
    } else     if i == 24 {
        ('L', 'A', 'M')
    } else     if i == 25 {
        ('E', 'Z', 'K')
    } else     if i == 26 {
        ('D', 'A', 'N')
    } else     if i == 27 {
        ('H', 'O', 'S')
    } else     if i == 28 {
        ('J', 'O', 'L')
    } else     if i == 29 {
        ('A', 'M', 'O')
    } else     if i == 30 {
        ('O', 'B', 'A')
    } else     if i == 31 {
        ('J', 'O', 'N')
    } else     if i == 32 {
        ('M', 'I', 'C')
    } else     if i == 33 {
        ('N', 'A', 'M')
    } else     if i == 34 {
        ('H', 'A', 'B')
    } else     if i == 35 {
        ('Z', 'E', 'P')
    } else     if i == 36 {
        ('H', 'A', 'G')
    } else     if i == 37 {
        ('Z', 'E', 'C')
    } else     if i == 38 {
        ('M', 'A', 'L')
    } else     if i == 39 {
        ('M', 'A', 'T')
    } else     if i == 40 {
        ('M', 'R', 'K')
    } else     if i == 41 {
        ('L', 'U', 'K')
    } else     if i == 42 {
        ('J', 'H', 'N')
    } else     if i == 43 {
        ('A', 'C', 'T')
    } else     if i == 44 {
        ('R', 'O', 'M')
    } else     if i == 45 {
        ('1', 'C', 'O')
    } else     if i == 46 {
        ('2', 'C', 'O')
    } else     if i == 47 {
        ('G', 'A', 'L')
    } else     if i == 48 {
        ('E', 'P', 'H')
    } else     if i == 49 {
        ('P', 'H', 'P')
    } else     if i == 50 {
        ('C', 'O', 'L')
    } else     if i == 51 {
        ('1', 'T', 'H')
    } else     if i == 52 {
        ('2', 'T', 'H')
    } else     if i == 53 {
        ('1', 'T', 'I')
    } else     if i == 54 {
        ('2', 'T', 'I')
    } else     if i == 55 {
        ('T', 'I', 'T')
    } else     if i == 56 {
        ('P', 'H', 'M')
    } else     if i == 57 {
        ('H', 'E', 'B')
    } else     if i == 58 {
        ('J', 'A', 'S')
    } else     if i == 59 {
        ('1', 'P', 'E')
    } else     if i == 60 {
        ('2', 'P', 'E')
    } else     if i == 61 {
        ('1', 'J', 'N')
    } else     if i == 62 {
        ('2', 'J', 'N')
    } else     if i == 63 {
        ('3', 'J', 'N')
    } else     if i == 64 {
        ('J', 'U', 'D')
    } else {
        ('R', 'E', 'V')
    }
}
/// Number of chapters of the book at canonical index `i`.
pub open spec fn spec_book_chapters(i: int) -> u32 {
    if i == 0 {
        50
    } else     if i == 1 {
        40
    } else     if i == 2 {
        27
    } else     if i == 3 {
        36
    } else     if i == 4 {
        34
    } else     if i == 5 {
        24
    } else     if i == 6 {
        21
    } else     if i == 7 {
        4
    } else     if i == 8 {
        31
    } else     if i == 9 {
        24
    } else     if i == 10 {
        22
    } else     if i == 11 {
        25
    } else     if i == 12 {
        29
    } else     if i == 13 {
        36
    } else     if i == 14 {
        10
    } else     if i == 15 {
        13
    } else     if i == 16 {
        10
    } else     if i == 17 {
        42
    } else     if i == 18 {
        150
    } else     if i == 19 {
        31
    } else     if i == 20 {
        12
    } else     if i == 21 {
        8
    } else     if i == 22 {
        66
    } else     if i == 23 {
        52
    } else     if i == 24 {
        5
    } else     if i == 25 {
        48
    } else     if i == 26 {
        12
    } else     if i == 27 {
        14
    } else     if i == 28 {
        3
    } else     if i == 29 {
        9
    } else     if i == 30 {
        1
    } else     if i == 31 {
        4
    } else     if i == 32 {
        7
    } else     if i == 33 {
        3
    } else     if i == 34 {
        3
    } else     if i == 35 {
        3
    } else     if i == 36 {
        2
    } else     if i == 37 {
        14
    } else     if i == 38 {
        4
    } else     if i == 39 {
        28
    } else     if i == 40 {
        16
    } else     if i == 41 {
        24
    } else     if i == 42 {
        21
    } else     if i == 43 {
        28
    } else     if i == 44 {
        16
    } else     if i == 45 {
        16
    } else     if i == 46 {
        13
    } else     if i == 47 {
        6
    } else     if i == 48 {
        6
    } else     if i == 49 {
        4
    } else     if i == 50 {
        4
    } else     if i == 51 {
        5
    } else     if i == 52 {
        3
    } else     if i == 53 {
        6
    } else     if i == 54 {
        4
    } else     if i == 55 {
        3
    } else     if i == 56 {
        1
    } else     if i == 57 {
        13
    } else     if i == 58 {
        5
    } else     if i == 59 {
        5
    } else     if i == 60 {
        3
    } else     if i == 61 {
        5
    } else     if i == 62 {
        1
    } else     if i == 63 {
        1
    } else     if i == 64 {
        1
    } else {
        22
    }
}
/// Testament of the book at canonical index `i`.
pub open spec fn spec_book_testament(i: int) -> Testament {
    if i == 0 {
        Testament::Old
    } else     if i == 1 {
        Testament::Old
    } else     if i == 2 {
        Testament::Old
    } else     if i == 3 {
        Testament::Old
    } else     if i == 4 {
        Testament::Old
    } else     if i == 5 {
        Testament::Old
    } else     if i == 6 {
        Testament::Old
    } else     if i == 7 {
        Testament::Old
    } else     if i == 8 {
        Testament::Old
    } else     if i == 9 {
        Testament::Old
    } else     if i == 10 {
        Testament::Old
    } else     if i == 11 {
        Testament::Old
    } else     if i == 12 {
        Testament::Old
    } else     if i == 13 {
        Testament::Old
    } else     if i == 14 {
        Testament::Old
    } else     if i == 15 {
        Testament::Old
    } else     if i == 16 {
        Testament::Old
    } else     if i == 17 {
        Testament::Old
    } else     if i == 18 {
        Testament::Old
    } else     if i == 19 {
        Testament::Old
    } else     if i == 20 {
        Testament::Old
    } else     if i == 21 {
        Testament::Old
    } else     if i == 22 {
        Testament::Old
    } else     if i == 23 {
        Testament::Old
    } else     if i == 24 {
        Testament::Old
    } else     if i == 25 {
        Testament::Old
    } else     if i == 26 {
        Testament::Old
    } else     if i == 27 {
        Testament::Old
    } else     if i == 28 {
        Testament::Old
    } else     if i == 29 {
        Testament::Old
    } else     if i == 30 {
        Testament::Old
    } else     if i == 31 {
        Testament::Old
    } else     if i == 32 {
        Testament::Old
    } else     if i == 33 {
        Testament::Old
    } else     if i == 34 {
        Testament::Old
    } else     if i == 35 {
        Testament::Old
    } else     if i == 36 {
        Testament::Old
    } else     if i == 37 {
        Testament::Old
    } else     if i == 38 {
        Testament::Old
    } else     if i == 39 {
        Testament::New
    } else     if i == 40 {
        Testament::New
    } else     if i == 41 {
        Testament::New
    } else     if i == 42 {
        Testament::New
    } else     if i == 43 {
        Testament::New
    } else     if i == 44 {
        Testament::New
    } else     if i == 45 {
        Testament::New
    } else     if i == 46 {
        Testament::New
    } else     if i == 47 {
        Testament::New
    } else     if i == 48 {
        Testament::New
    } else     if i == 49 {
        Testament::New
    } else     if i == 50 {
        Testament::New
    } else     if i == 51 {
        Testament::New
    } else     if i == 52 {
        Testament::New
    } else     if i == 53 {
        Testament::New
    } else     if i == 54 {
        Testament::New
    } else     if i == 55 {
        Testament::New
    } else     if i == 56 {
        Testament::New
    } else     if i == 57 {
        Testament::New
    } else     if i == 58 {
        Testament::New
    } else     if i == 59 {
        Testament::New
    } else     if i == 60 {
        Testament::New
    } else     if i == 61 {
        Testament::New
    } else     if i == 62 {
        Testament::New
    } else     if i == 63 {
        Testament::New
    } else     if i == 64 {
        Testament::New
    } else {
        Testament::New
    }
}
/// USFM code of the book at canonical index `i`, as a character sequence.
pub open spec fn spec_book_usfm(i: int) -> Seq<char> {
    let t = usfm_triple(i);
    seq![t.0, t.1, t.2]
}

/// The record that `book_info(i)` returns, field by field.
pub open spec fn book_info_matches(b: BookInfo, i: int) -> bool {
    &&& b.name@ == spec_book_name(i)
    &&& b.abbreviation@ == spec_book_abbreviation(i)
    &&& b.usfm@ == spec_book_usfm(i)
    &&& b.chapters == spec_book_chapters(i)
    &&& b.testament == spec_book_testament(i)
}

/// Distinct books have distinct USFM letter triples.
proof fn lemma_usfm_triples_distinct()
    ensures
        forall|i: int, j: int|
            0 <= i < 66 && 0 <= j < 66 && i != j ==> usfm_triple(i) != usfm_triple(j),
{
}

/// Distinct books have distinct USFM codes.
pub proof fn lemma_usfm_distinct(i: int, j: int)
    requires
        0 <= i < 66,
        0 <= j < 66,
        i != j,
    ensures
        spec_book_usfm(i) != spec_book_usfm(j),
{
    lemma_usfm_triples_distinct();
    if spec_book_usfm(i) == spec_book_usfm(j) {
        assert(spec_book_usfm(i)[0] == spec_book_usfm(j)[0]);
        assert(spec_book_usfm(i)[1] == spec_book_usfm(j)[1]);
        assert(spec_book_usfm(i)[2] == spec_book_usfm(j)[2]);
    }
}

/// The catalogue entry of the book at canonical index `idx` (0-based).
pub fn book_info(idx: usize) -> (b: BookInfo)
    requires
        idx < 66,
    ensures
        book_info_matches(b, idx as int),
{
    match idx {
        0 => {
            proof {
                reveal_strlit("GEN");
                assert("GEN"@ =~= seq!['G', 'E', 'N']);
            }
            BookInfo { name: "Genesis", abbreviation: "Gen", usfm: "GEN", chapters: 50, testament: Testament::Old }
        },
        1 => {
            proof {
                reveal_strlit("EXO");
                assert("EXO"@ =~= seq!['E', 'X', 'O']);
            }
            BookInfo { name: "Exodus", abbreviation: "Exod", usfm: "EXO", chapters: 40, testament: Testament::Old }
        },
        2 => {
            proof {
                reveal_strlit("LEV");
                assert("LEV"@ =~= seq!['L', 'E', 'V']);
            }
            BookInfo { name: "Leviticus", abbreviation: "Lev", usfm: "LEV", chapters: 27, testament: Testament::Old }
        },
        3 => {
            proof {
                reveal_strlit("NUM");
                assert("NUM"@ =~= seq!['N', 'U', 'M']);
            }
            BookInfo { name: "Numbers", abbreviation: "Num", usfm: "NUM", chapters: 36, testament: Testament::Old }
        },
        4 => {
            proof {
                reveal_strlit("DEU");
                assert("DEU"@ =~= seq!['D', 'E', 'U']);
            }
            BookInfo { name: "Deuteronomy", abbreviation: "Deut", usfm: "DEU", chapters: 34, testament: Testament::Old }
        },
        5 => {
            proof {
                reveal_strlit("JOS");
                assert("JOS"@ =~= seq!['J', 'O', 'S']);
            }
            BookInfo { name: "Joshua", abbreviation: "Josh", usfm: "JOS", chapters: 24, testament: Testament::Old }
        },
        6 => {
            proof {
                reveal_strlit("JDG");
                assert("JDG"@ =~= seq!['J', 'D', 'G']);
            }
            BookInfo { name: "Judges", abbreviation: "Judg", usfm: "JDG", chapters: 21, testament: Testament::Old }
        },
        7 => {
            proof {
                reveal_strlit("RUT");
                assert("RUT"@ =~= seq!['R', 'U', 'T']);
            }
            BookInfo { name: "Ruth", abbreviation: "Ruth", usfm: "RUT", chapters: 4, testament: Testament::Old }
        },
        8 => {
            proof {
                reveal_strlit("1SA");
                assert("1SA"@ =~= seq!['1', 'S', 'A']);
            }
            BookInfo { name: "1 Samuel", abbreviation: "1Sam", usfm: "1SA", chapters: 31, testament: Testament::Old }
        },
        9 => {
            proof {
                reveal_strlit("2SA");
                assert("2SA"@ =~= seq!['2', 'S', 'A']);
            }
            BookInfo { name: "2 Samuel", abbreviation: "2Sam", usfm: "2SA", chapters: 24, testament: Testament::Old }
        },
        10 => {
            proof {
                reveal_strlit("1KI");
                assert("1KI"@ =~= seq!['1', 'K', 'I']);
            }
            BookInfo { name: "1 Kings", abbreviation: "1Kgs", usfm: "1KI", chapters: 22, testament: Testament::Old }
        },
        11 => {
            proof {
                reveal_strlit("2KI");
                assert("2KI"@ =~= seq!['2', 'K', 'I']);
            }
            BookInfo { name: "2 Kings", abbreviation: "2Kgs", usfm: "2KI", chapters: 25, testament: Testament::Old }
        },
        12 => {
            proof {
                reveal_strlit("1CH");
                assert("1CH"@ =~= seq!['1', 'C', 'H']);
            }
            BookInfo { name: "1 Chronicles", abbreviation: "1Chr", usfm: "1CH", chapters: 29, testament: Testament::Old }
        },
        13 => {
            proof {
                reveal_strlit("2CH");
                assert("2CH"@ =~= seq!['2', 'C', 'H']);
            }
            BookInfo { name: "2 Chronicles", abbreviation: "2Chr", usfm: "2CH", chapters: 36, testament: Testament::Old }
        },
        14 => {
            proof {
                reveal_strlit("EZR");
                assert("EZR"@ =~= seq!['E', 'Z', 'R']);
            }
            BookInfo { name: "Ezra", abbreviation: "Ezra", usfm: "EZR", chapters: 10, testament: Testament::Old }
        },
        15 => {
            proof {
                reveal_strlit("NEH");
                assert("NEH"@ =~= seq!['N', 'E', 'H']);
            }
            BookInfo { name: "Nehemiah", abbreviation: "Neh", usfm: "NEH", chapters: 13, testament: Testament::Old }
        },
        16 => {
            proof {
                reveal_strlit("EST");
                assert("EST"@ =~= seq!['E', 'S', 'T']);
            }
            BookInfo { name: "Esther", abbreviation: "Esth", usfm: "EST", chapters: 10, testament: Testament::Old }
        },
        17 => {
            proof {
                reveal_strlit("JOB");
                assert("JOB"@ =~= seq!['J', 'O', 'B']);
            }
            BookInfo { name: "Job", abbreviation: "Job", usfm: "JOB", chapters: 42, testament: Testament::Old }
        },
        18 => {
            proof {
                reveal_strlit("PSA");
                assert("PSA"@ =~= seq!['P', 'S', 'A']);
            }
            BookInfo { name: "Psalms", abbreviation: "Ps", usfm: "PSA", chapters: 150, testament: Testament::Old }
        },
        19 => {
            proof {
                reveal_strlit("PRO");
                assert("PRO"@ =~= seq!['P', 'R', 'O']);
            }
            BookInfo { name: "Proverbs", abbreviation: "Prov", usfm: "PRO", chapters: 31, testament: Testament::Old }
        },
        20 => {
            proof {
                reveal_strlit("ECC");
                assert("ECC"@ =~= seq!['E', 'C', 'C']);
            }
            BookInfo { name: "Ecclesiastes", abbreviation: "Eccl", usfm: "ECC", chapters: 12, testament: Testament::Old }
        },
        21 => {
            proof {
                reveal_strlit("SNG");
                assert("SNG"@ =~= seq!['S', 'N', 'G']);
            }
            BookInfo { name: "Song of Solomon", abbreviation: "Song", usfm: "SNG", chapters: 8, testament: Testament::Old }
        },
        22 => {
            proof {
                reveal_strlit("ISA");
                assert("ISA"@ =~= seq!['I', 'S', 'A']);
            }
            BookInfo { name: "Isaiah", abbreviation: "Isa", usfm: "ISA", chapters: 66, testament: Testament::Old }
        },
        23 => {
            proof {
                reveal_strlit("JER");
                assert("JER"@ =~= seq!['J', 'E', 'R']);
            }
            BookInfo { name: "Jeremiah", abbreviation: "Jer", usfm: "JER", chapters: 52, testament: Testament::Old }
        },
        24 => {
            proof {
                reveal_strlit("LAM");
                assert("LAM"@ =~= seq!['L', 'A', 'M']);
            }
            BookInfo { name: "Lamentations", abbreviation: "Lam", usfm: "LAM", chapters: 5, testament: Testament::Old }
        },
        25 => {
            proof {
                reveal_strlit("EZK");
                assert("EZK"@ =~= seq!['E', 'Z', 'K']);
            }
            BookInfo { name: "Ezekiel", abbreviation: "Ezek", usfm: "EZK", chapters: 48, testament: Testament::Old }
        },
        26 => {
            proof {
                reveal_strlit("DAN");
                assert("DAN"@ =~= seq!['D', 'A', 'N']);
            }
            BookInfo { name: "Daniel", abbreviation: "Dan", usfm: "DAN", chapters: 12, testament: Testament::Old }
        },
        27 => {
            proof {
                reveal_strlit("HOS");
                assert("HOS"@ =~= seq!['H', 'O', 'S']);
            }
            BookInfo { name: "Hosea", abbreviation: "Hos", usfm: "HOS", chapters: 14, testament: Testament::Old }
        },
        28 => {
            proof {
                reveal_strlit("JOL");
                assert("JOL"@ =~= seq!['J', 'O', 'L']);
            }
            BookInfo { name: "Joel", abbreviation: "Joel", usfm: "JOL", chapters: 3, testament: Testament::Old }
        },
        29 => {
            proof {
                reveal_strlit("AMO");
                assert("AMO"@ =~= seq!['A', 'M', 'O']);
            }
            BookInfo { name: "Amos", abbreviation: "Amos", usfm: "AMO", chapters: 9, testament: Testament::Old }
        },
        30 => {
            proof {
                reveal_strlit("OBA");
                assert("OBA"@ =~= seq!['O', 'B', 'A']);
            }
            BookInfo { name: "Obadiah", abbreviation: "Obad", usfm: "OBA", chapters: 1, testament: Testament::Old }
        },
        31 => {
            proof {
                reveal_strlit("JON");
                assert("JON"@ =~= seq!['J', 'O', 'N']);
            }
            BookInfo { name: "Jonah", abbreviation: "Jonah", usfm: "JON", chapters: 4, testament: Testament::Old }
        },
        32 => {
            proof {
                reveal_strlit("MIC");
                assert("MIC"@ =~= seq!['M', 'I', 'C']);
            }
            BookInfo { name: "Micah", abbreviation: "Mic", usfm: "MIC", chapters: 7, testament: Testament::Old }
        },
        33 => {
            proof {
                reveal_strlit("NAM");
                assert("NAM"@ =~= seq!['N', 'A', 'M']);
            }
            BookInfo { name: "Nahum", abbreviation: "Nah", usfm: "NAM", chapters: 3, testament: Testament::Old }
        },
        34 => {
            proof {
                reveal_strlit("HAB");
                assert("HAB"@ =~= seq!['H', 'A', 'B']);
            }
            BookInfo { name: "Habakkuk", abbreviation: "Hab", usfm: "HAB", chapters: 3, testament: Testament::Old }
        },
        35 => {
            proof {
                reveal_strlit("ZEP");
                assert("ZEP"@ =~= seq!['Z', 'E', 'P']);
            }
            BookInfo { name: "Zephaniah", abbreviation: "Zeph", usfm: "ZEP", chapters: 3, testament: Testament::Old }
        },
        36 => {
            proof {
                reveal_strlit("HAG");
                assert("HAG"@ =~= seq!['H', 'A', 'G']);
            }
            BookInfo { name: "Haggai", abbreviation: "Hag", usfm: "HAG", chapters: 2, testament: Testament::Old }
        },
        37 => {
            proof {
                reveal_strlit("ZEC");
                assert("ZEC"@ =~= seq!['Z', 'E', 'C']);
            }
            BookInfo { name: "Zechariah", abbreviation: "Zech", usfm: "ZEC", chapters: 14, testament: Testament::Old }
        },
        38 => {
            proof {
                reveal_strlit("MAL");
                assert("MAL"@ =~= seq!['M', 'A', 'L']);
            }
            BookInfo { name: "Malachi", abbreviation: "Mal", usfm: "MAL", chapters: 4, testament: Testament::Old }
        },
        39 => {
            proof {
                reveal_strlit("MAT");
                assert("MAT"@ =~= seq!['M', 'A', 'T']);
            }
            BookInfo { name: "Matthew", abbreviation: "Matt", usfm: "MAT", chapters: 28, testament: Testament::New }
        },
        40 => {
            proof {
                reveal_strlit("MRK");
                assert("MRK"@ =~= seq!['M', 'R', 'K']);
            }
            BookInfo { name: "Mark", abbreviation: "Mark", usfm: "MRK", chapters: 16, testament: Testament::New }
        },
        41 => {
            proof {
                reveal_strlit("LUK");
                assert("LUK"@ =~= seq!['L', 'U', 'K']);
            }
            BookInfo { name: "Luke", abbreviation: "Luke", usfm: "LUK", chapters: 24, testament: Testament::New }
        },
        42 => {
            proof {
                reveal_strlit("JHN");
                assert("JHN"@ =~= seq!['J', 'H', 'N']);
            }
            BookInfo { name: "John", abbreviation: "John", usfm: "JHN", chapters: 21, testament: Testament::New }
        },
        43 => {
            proof {
                reveal_strlit("ACT");
                assert("ACT"@ =~= seq!['A', 'C', 'T']);
            }
            BookInfo { name: "Acts", abbreviation: "Acts", usfm: "ACT", chapters: 28, testament: Testament::New }
        },
        44 => {
            proof {
                reveal_strlit("ROM");
                assert("ROM"@ =~= seq!['R', 'O', 'M']);
            }
            BookInfo { name: "Romans", abbreviation: "Rom", usfm: "ROM", chapters: 16, testament: Testament::New }
        },
        45 => {
            proof {
                reveal_strlit("1CO");
                assert("1CO"@ =~= seq!['1', 'C', 'O']);
            }
            BookInfo { name: "1 Corinthians", abbreviation: "1Cor", usfm: "1CO", chapters: 16, testament: Testament::New }
        },
        46 => {
            proof {
                reveal_strlit("2CO");
                assert("2CO"@ =~= seq!['2', 'C', 'O']);
            }
            BookInfo { name: "2 Corinthians", abbreviation: "2Cor", usfm: "2CO", chapters: 13, testament: Testament::New }
        },
        47 => {
            proof {
                reveal_strlit("GAL");
                assert("GAL"@ =~= seq!['G', 'A', 'L']);
            }
            BookInfo { name: "Galatians", abbreviation: "Gal", usfm: "GAL", chapters: 6, testament: Testament::New }
        },
        48 => {
            proof {
                reveal_strlit("EPH");
                assert("EPH"@ =~= seq!['E', 'P', 'H']);
            }
            BookInfo { name: "Ephesians", abbreviation: "Eph", usfm: "EPH", chapters: 6, testament: Testament::New }
        },
        49 => {
            proof {
                reveal_strlit("PHP");
                assert("PHP"@ =~= seq!['P', 'H', 'P']);
            }
            BookInfo { name: "Philippians", abbreviation: "Phil", usfm: "PHP", chapters: 4, testament: Testament::New }
        },
        50 => {
            proof {
                reveal_strlit("COL");
                assert("COL"@ =~= seq!['C', 'O', 'L']);
            }
            BookInfo { name: "Colossians", abbreviation: "Col", usfm: "COL", chapters: 4, testament: Testament::New }
        },
        51 => {
            proof {
                reveal_strlit("1TH");
                assert("1TH"@ =~= seq!['1', 'T', 'H']);
            }
            BookInfo { name: "1 Thessalonians", abbreviation: "1Thess", usfm: "1TH", chapters: 5, testament: Testament::New }
        },
        52 => {
            proof {
                reveal_strlit("2TH");
                assert("2TH"@ =~= seq!['2', 'T', 'H']);
            }
            BookInfo { name: "2 Thessalonians", abbreviation: "2Thess", usfm: "2TH", chapters: 3, testament: Testament::New }
        },
        53 => {
            proof {
                reveal_strlit("1TI");
                assert("1TI"@ =~= seq!['1', 'T', 'I']);
            }
            BookInfo { name: "1 Timothy", abbreviation: "1Tim", usfm: "1TI", chapters: 6, testament: Testament::New }
        },
        54 => {
            proof {
                reveal_strlit("2TI");
                assert("2TI"@ =~= seq!['2', 'T', 'I']);
            }
            BookInfo { name: "2 Timothy", abbreviation: "2Tim", usfm: "2TI", chapters: 4, testament: Testament::New }
        },
        55 => {
            proof {
                reveal_strlit("TIT");
                assert("TIT"@ =~= seq!['T', 'I', 'T']);
            }
            BookInfo { name: "Titus", abbreviation: "Titus", usfm: "TIT", chapters: 3, testament: Testament::New }
        },
        56 => {
            proof {
                reveal_strlit("PHM");
                assert("PHM"@ =~= seq!['P', 'H', 'M']);
            }
            BookInfo { name: "Philemon", abbreviation: "Phlm", usfm: "PHM", chapters: 1, testament: Testament::New }
        },
        57 => {
            proof {
                reveal_strlit("HEB");
                assert("HEB"@ =~= seq!['H', 'E', 'B']);
            }
            BookInfo { name: "Hebrews", abbreviation: "Heb", usfm: "HEB", chapters: 13, testament: Testament::New }
        },
        58 => {
            proof {
                reveal_strlit("JAS");
                assert("JAS"@ =~= seq!['J', 'A', 'S']);
            }
            BookInfo { name: "James", abbreviation: "Jas", usfm: "JAS", chapters: 5, testament: Testament::New }
        },
        59 => {
            proof {
                reveal_strlit("1PE");
                assert("1PE"@ =~= seq!['1', 'P', 'E']);
            }
            BookInfo { name: "1 Peter", abbreviation: "1Pet", usfm: "1PE", chapters: 5, testament: Testament::New }
        },
        60 => {
            proof {
                reveal_strlit("2PE");
                assert("2PE"@ =~= seq!['2', 'P', 'E']);
            }
            BookInfo { name: "2 Peter", abbreviation: "2Pet", usfm: "2PE", chapters: 3, testament: Testament::New }
        },
        61 => {
            proof {
                reveal_strlit("1JN");
                assert("1JN"@ =~= seq!['1', 'J', 'N']);
            }
            BookInfo { name: "1 John", abbreviation: "1John", usfm: "1JN", chapters: 5, testament: Testament::New }
        },
        62 => {
            proof {
                reveal_strlit("2JN");
                assert("2JN"@ =~= seq!['2', 'J', 'N']);
            }
            BookInfo { name: "2 John", abbreviation: "2John", usfm: "2JN", chapters: 1, testament: Testament::New }
        },
        63 => {
            proof {
                reveal_strlit("3JN");
                assert("3JN"@ =~= seq!['3', 'J', 'N']);
            }
            BookInfo { name: "3 John", abbreviation: "3John", usfm: "3JN", chapters: 1, testament: Testament::New }
        },
        64 => {
            proof {
                reveal_strlit("JUD");
                assert("JUD"@ =~= seq!['J', 'U', 'D']);
            }
            BookInfo { name: "Jude", abbreviation: "Jude", usfm: "JUD", chapters: 1, testament: Testament::New }
        },
        _ => {
            proof {
                reveal_strlit("REV");
                assert("REV"@ =~= seq!['R', 'E', 'V']);
            }
            BookInfo { name: "Revelation", abbreviation: "Rev", usfm: "REV", chapters: 22, testament: Testament::New }
        },
    }
}


/// The whole catalogue, in canonical order.
pub fn books() -> (v: Vec<BookInfo>)
    ensures
        v.len() == 66,
        forall|i: int| 0 <= i < 66 ==> book_info_matches(#[trigger] v@[i], i),
{
    let mut v: Vec<BookInfo> = Vec::new();
    let mut i: usize = 0;
    while i < BOOK_COUNT
        invariant
            i <= 66,
            v.len() == i,
            forall|k: int| 0 <= k < i ==> book_info_matches(#[trigger] v@[k], k),
        decreases 66 - i,
    {
        v.push(book_info(i));
        i = i + 1;
    }
    v
}

/// Name of the book with 1-based number `book_num`, or `"Unknown"` when the
/// number is outside `1..=66`.
pub open spec fn spec_book_name_of(book_num: int) -> Seq<char> {
    if 1 <= book_num <= 66 {
        spec_book_name(book_num - 1)
    } else {
        "Unknown"@
    }
}

/// USFM code of the book with 1-based number `book_num`, or `"UNK"` when the
/// number is outside `1..=66`.
pub open spec fn spec_book_usfm_of(book_num: int) -> Seq<char> {
    if 1 <= book_num <= 66 {
        spec_book_usfm(book_num - 1)
    } else {
        "UNK"@
    }
}

/// Book number (1-based) whose USFM code is `s`, if any.
pub open spec fn spec_book_num_from_usfm(s: Seq<char>) -> Option<u32> {
    if exists|i: int| 0 <= i < 66 && spec_book_usfm(i) == s {
        Some(((choose|i: int| 0 <= i < 66 && spec_book_usfm(i) == s) + 1) as u32)
    } else {
        None
    }
}

/// Name of the book with 1-based number `book_num`.
///
/// Numbers outside `1..=66` give `"Unknown"`.
pub fn book_name(book_num: u32) -> (r: &'static str)
    ensures
        r@ == spec_book_name_of(book_num as int),
{
    if book_num >= 1 && book_num <= 66 {
        book_info((book_num - 1) as usize).name
    } else {
        "Unknown"
    }
}

/// USFM code of the book with 1-based number `book_num`.
///
/// Numbers outside `1..=66` give `"UNK"`.
pub fn book_usfm(book_num: u32) -> (r: &'static str)
    ensures
        r@ == spec_book_usfm_of(book_num as int),
{
    if book_num >= 1 && book_num <= 66 {
        book_info((book_num - 1) as usize).usfm
    } else {
        "UNK"
    }
}

/// Number of chapters of the book at 0-based index `idx`.
pub fn book_chapters(idx: usize) -> (r: u32)
    requires
        idx < 66,
    ensures
        r == spec_book_chapters(idx as int),
{
    book_info(idx).chapters
}

/// Every book has at least one chapter and at most 150.
pub proof fn lemma_book_chapters_bounds(i: int)
    requires
        0 <= i < 66,
    ensures
        1 <= spec_book_chapters(i) <= 150,
{
}

/// 1-based number of the book whose USFM code is `usfm`, if any.
pub fn book_num_from_usfm(usfm: &str) -> (r: Option<u32>)
    ensures
        r == spec_book_num_from_usfm(usfm@),
{
    let mut i: usize = 0;
    while i < BOOK_COUNT
        invariant
            i <= 66,
            forall|k: int| 0 <= k < i ==> spec_book_usfm(k) != usfm@,
        decreases 66 - i,
    {
        let b = book_info(i);
        if str_eq(b.usfm, usfm) {
            proof {
                let j = choose|j: int| 0 <= j < 66 && spec_book_usfm(j) == usfm@;
                if j != i {
                    lemma_usfm_distinct(i as int, j);
                }
            }
            return Some((i + 1) as u32);
        }
        i = i + 1;
    }
    None
}

/// Looking a book's own USFM code up gives back its number, and a code that
/// is found is the code of the book it names.
pub proof fn lemma_usfm_round_trip(book_num: u32)
    requires
        1 <= book_num <= 66,
    ensures
        spec_book_num_from_usfm(spec_book_usfm_of(book_num as int)) == Some(book_num),
{
    let s = spec_book_usfm_of(book_num as int);
    assert(spec_book_usfm((book_num - 1) as int) == s);
    let j = choose|j: int| 0 <= j < 66 && spec_book_usfm(j) == s;
    if j != book_num - 1 {
        lemma_usfm_distinct(j, (book_num - 1) as int);
    }
}

/// A code that is found is the code of the book whose number comes back.
pub proof fn lemma_usfm_lookup_sound(s: Seq<char>)
    ensures
        spec_book_num_from_usfm(s) matches Some(n) ==> 1 <= n <= 66 && spec_book_usfm_of(
            n as int,
        ) == s,
{
}

/// 1-based number of the first book named exactly `name`, if any.
pub fn book_num_by_name(name: &str) -> (r: Option<u32>)
    ensures
        match r {
            Some(n) => 1 <= n <= 66 && spec_book_name(n - 1) == name@ && forall|k: int|
                0 <= k < n - 1 ==> spec_book_name(k) != name@,
            None => forall|k: int| 0 <= k < 66 ==> spec_book_name(k) != name@,
        },
{
    let mut i: usize = 0;
    while i < BOOK_COUNT
        invariant
            i <= 66,
            forall|k: int| 0 <= k < i ==> spec_book_name(k) != name@,
        decreases 66 - i,
    {
        if str_eq(book_info(i).name, name) {
            return Some((i + 1) as u32);
        }
        i = i + 1;
    }
    None
}

} // verus!
