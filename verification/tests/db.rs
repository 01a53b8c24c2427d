use selah::bible::db::hits_from_rows;
use rusqlite::Connection;
use selah::bible::db::{build_fts, chapter_params, get_chapter, get_random_verse, get_verse, search, verse_params};
use selah::bible::resolver::{resolve_step, FetchResult, ResolveStep};
use selah::config::providers::ProvidersConfig;

const GENESIS_1: [&str; 31] = [
    "In the beginning God created the heaven and the earth.",
    "And the earth was without form, and void; and darkness was upon the face of the deep. And the Spirit of God moved upon the face of the waters.",
    "And God said, Let there be light: and there was light.",
    "And God saw the light, that it was good: and God divided the light from the darkness.",
    "And God called the light Day, and the darkness he called Night. And the evening and the morning were the first day.",
    "And God said, Let there be a firmament in the midst of the waters, and let it divide the waters from the waters.",
    "And God made the firmament, and divided the waters which were under the firmament from the waters which were above the firmament: and it was so.",
    "And God called the firmament Heaven. And the evening and the morning were the second day.",
    "And God said, Let the waters under the heaven be gathered together unto one place, and let the dry land appear: and it was so.",
    "And God called the dry land Earth; and the gathering together of the waters called he Seas: and God saw that it was good.",
    "And God said, Let the earth bring forth grass, the herb yielding seed, and the fruit tree yielding fruit after his kind, whose seed is in itself, upon the earth: and it was so.",
    "And the earth brought forth grass, and herb yielding seed after his kind, and the tree yielding fruit, whose seed was in itself, after his kind: and God saw that it was good.",
    "And the evening and the morning were the third day.",
    "And God said, Let there be lights in the firmament of the heaven to divide the day from the night; and let them be for signs, and for seasons, and for days, and years:",
    "And let them be for lights in the firmament of the heaven to give light upon the earth: and it was so.",
    "And God made two great lights; the greater light to rule the day, and the lesser light to rule the night: he made the stars also.",
    "And God set them in the firmament of the heaven to give light upon the earth,",
    "And to rule over the day and over the night, and to divide the light from the darkness: and God saw that it was good.",
    "And the evening and the morning were the fourth day.",
    "And God said, Let the waters bring forth abundantly the moving creature that hath life, and fowl that may fly above the earth in the open firmament of heaven.",
    "And God created great whales, and every living creature that moveth, which the waters brought forth abundantly, after their kind, and every winged fowl after his kind: and God saw that it was good.",
    "And God blessed them, saying, Be fruitful, and multiply, and fill the waters in the seas, and let fowl multiply in the earth.",
    "And the evening and the morning were the fifth day.",
    "And God said, Let the earth bring forth the living creature after his kind, cattle, and creeping thing, and beast of the earth after his kind: and it was so.",
    "And God made the beast of the earth after his kind, and cattle after their kind, and every thing that creepeth upon the earth after his kind: and God saw that it was good.",
    "And God said, Let us make man in our image, after our likeness: and let them have dominion over the fish of the sea, and over the fowl of the air, and over the cattle, and over all the earth, and over every creeping thing that creepeth upon the earth.",
    "So God created man in his own image, in the image of God created he him; male and female created he them.",
    "And God blessed them, and God said unto them, Be fruitful, and multiply, and replenish the earth, and subdue it: and have dominion over the fish of the sea, and over the fowl of the air, and over every living thing that moveth upon the earth.",
    "And God said, Behold, I have given you every herb bearing seed, which is upon the face of all the earth, and every tree, in the which is the fruit of a tree yielding seed; to you it shall be for meat.",
    "And to every beast of the earth, and to every fowl of the air, and to every thing that creepeth upon the earth, wherein there is life, I have given every green herb for meat: and it was so.",
    "And God saw every thing that he had made, and, behold, it was very good. And the evening and the morning were the sixth day.",
];

/// A part of the KJV database: Genesis 1 and a few verses of the New
/// Testament.
fn test_db() -> Connection {
    let conn = Connection::open_in_memory().unwrap();
    conn.execute_batch("CREATE TABLE t_kjv (b INTEGER, c INTEGER, v INTEGER, t TEXT);").unwrap();
    for (i, text) in GENESIS_1.iter().enumerate() {
        conn.execute("INSERT INTO t_kjv VALUES (1, 1, ?1, ?2)", ((i + 1) as u32, *text)).unwrap();
    }
    conn.execute_batch(
        "INSERT INTO t_kjv VALUES (43, 3, 16, 'For God so loved the world, that he gave his only begotten Son, that whosoever believeth in him should not perish, but have everlasting life.');
         INSERT INTO t_kjv VALUES (58, 11, 1, 'Now faith is the substance of things hoped for, the evidence of things not seen.');
         INSERT INTO t_kjv VALUES (62, 4, 8, 'He that loveth not knoweth not God; for God is love.');",
    )
    .unwrap();
    build_fts(&conn, "kjv").unwrap();
    conn
}

#[test]
fn genesis_1_has_31_verses() {
    let conn = test_db();
    let verses = get_chapter(&conn, "kjv", 1, 1);
    assert_eq!(verses.len(), 31);
}

#[test]
fn john_3_16() {
    let conn = test_db();
    let verse = get_verse(&conn, "kjv", 43, 3, 16).expect("John 3:16 should exist");
    assert_eq!(verse.book, "John");
    assert_eq!(verse.chapter, 3);
    assert_eq!(verse.verse, 16);
    assert!(verse.text.contains("God so loved"));
}

#[test]
fn search_love_returns_results() {
    let conn = test_db();
    let results = search(&conn, "love", "kjv");
    assert!(!results.is_empty());
}

#[test]
fn search_faith_returns_results() {
    let conn = test_db();
    let results = search(&conn, "faith", "kjv");
    assert!(!results.is_empty());
}

#[test]
fn search_short_query_returns_empty() {
    let conn = test_db();
    let results = search(&conn, "ab", "kjv");
    assert!(results.is_empty());
}

#[test]
fn search_nonexistent_returns_empty() {
    let conn = test_db();
    let results = search(&conn, "xyznonexistent", "kjv");
    assert!(results.is_empty());
}

#[test]
fn random_verse_returns_valid() {
    let conn = test_db();
    let verse = get_random_verse(&conn, "kjv").expect("Should return a random verse");
    assert!(verse.book_num >= 1 && verse.book_num <= 66);
    assert!(!verse.text.is_empty());
}

#[test]
fn bundled_resolves_immediately() {
    let conn = test_db();
    let result = resolve_step(&conn, None, &ProvidersConfig::default(), "KJV", 1, 1);
    match result {
        ResolveStep::Finished(FetchResult::Ready(verses)) => assert_eq!(verses.len(), 31),
        _ => panic!("Expected Ready for bundled translation"),
    }
}

#[test]
fn chapter_rows_carry_names_and_translation() {
    let conn = test_db();
    let verses = get_chapter(&conn, "kjv", 1, 1);
    assert_eq!(verses[0].book, "Genesis");
    assert_eq!(verses[0].translation, "KJV");
    assert_eq!(verses[30].verse, 31);
    // A translation without a table gives nothing.
    assert!(get_chapter(&conn, "asv", 1, 1).is_empty());
    assert!(get_verse(&conn, "kjv", 43, 3, 17).is_none());
}

#[test]
fn unbundled_translation_needs_the_cache() {
    let conn = test_db();
    match resolve_step(&conn, None, &ProvidersConfig::default(), "ASV", 1, 1) {
        ResolveStep::Finished(FetchResult::Error(msg)) => assert_eq!(msg, "Cache not available"),
        _ => panic!("Expected the cache error"),
    }
}

#[test]
fn hits_keep_the_good_rows_in_order() {
    let rows: Vec<Result<(u32, u32, u32, String), rusqlite::Error>> = vec![
        Ok((43, 3, 16, "For God so loved".to_string())),
        Err(rusqlite::Error::InvalidQuery),
        Ok((1, 1, 1, "In the beginning".to_string())),
    ];
    let hits = hits_from_rows(rows);
    assert_eq!(hits.len(), 2);
    assert_eq!(hits[0].book, "John");
    assert_eq!((hits[0].book_num, hits[0].chapter, hits[0].verse), (43, 3, 16));
    assert_eq!(hits[0].text, "For God so loved");
    assert_eq!(hits[1].book, "Genesis");
    assert_eq!(hits[1].text, "In the beginning");
}

#[test]
fn search_short_query_gives_nothing() {
    let conn = test_db();
    assert!(search(&conn, "ab", "kjv").is_empty());
    let hits = search(&conn, "loved", "kjv");
    assert!(!hits.is_empty());
    assert!(hits.len() <= 50);
    assert!(hits.iter().all(|h| (1..=66).contains(&h.book_num)));
}

#[test]
fn query_parameters_keep_their_order() {
    assert_eq!(chapter_params(43, 3), [43, 3]);
    assert_eq!(verse_params(43, 3, 16), [43, 3, 16]);
}
