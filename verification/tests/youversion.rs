use selah::api::youversion::api_error_for_status;
use selah::api::youversion::parse_passage_to_verses;
use selah::api::youversion::strip_html_tags;
use selah::api::youversion::ApiError;
use selah::api::youversion::YouVersionClient;

#[test]
fn parse_html_verses() {
    let content = r#"<div><div class="p"><span class="yv-v" v="1"></span><span class="yv-vlbl">1</span>In the beginning God created the heavens and the earth. <span class="yv-v" v="2"></span><span class="yv-vlbl">2</span>Now the earth was formless and void.</div></div>"#;
    let verses = parse_passage_to_verses(content, 1, 1, "bsb");
    assert_eq!(verses.len(), 2);
    assert_eq!(verses[0].verse, 1);
    assert_eq!(
        verses[0].text,
        "In the beginning God created the heavens and the earth."
    );
    assert_eq!(verses[1].verse, 2);
    assert_eq!(verses[1].text, "Now the earth was formless and void.");
    assert_eq!(verses[0].book, "Genesis");
    assert_eq!(verses[0].translation, "BSB");
}

#[test]
fn parse_html_single_verse() {
    let content = r#"<div><div class="p"><span class="yv-v" v="16"></span><span class="yv-vlbl">16</span>For God so loved the world that He gave His one and only Son.</div></div>"#;
    let verses = parse_passage_to_verses(content, 43, 3, "bsb");
    assert_eq!(verses.len(), 1);
    assert_eq!(verses[0].verse, 16);
    assert_eq!(verses[0].book, "John");
    assert_eq!(verses[0].chapter, 3);
    assert!(verses[0].text.starts_with("For God so loved"));
}

#[test]
fn parse_html_multiline_paragraph() {
    let content = r#"<div><div class="p"><span class="yv-v" v="5"></span><span class="yv-vlbl">5</span>Jesus answered, "Truly I tell you." <span class="yv-v" v="6"></span><span class="yv-vlbl">6</span>Flesh is born of flesh.</div><div class="p"><span class="yv-v" v="7"></span><span class="yv-vlbl">7</span>Do not be amazed.</div></div>"#;
    let verses = parse_passage_to_verses(content, 43, 3, "bsb");
    assert_eq!(verses.len(), 3);
    assert_eq!(verses[0].verse, 5);
    assert_eq!(verses[1].verse, 6);
    assert_eq!(verses[2].verse, 7);
    assert_eq!(verses[2].text, "Do not be amazed.");
}

#[test]
fn parse_empty_content() {
    let verses = parse_passage_to_verses("", 1, 1, "kjv");
    assert!(verses.is_empty());
}

#[test]
fn api_error_display() {
    assert_eq!(
        ApiError::Network("timeout".into()).message(),
        "Network error: timeout"
    );
    assert_eq!(ApiError::InvalidKey.message(), "Invalid API key");
    assert_eq!(
        ApiError::RateLimited.message(),
        "Rate limited — try again later"
    );
    assert_eq!(ApiError::NotFound.message(), "Resource not found");
    assert_eq!(ApiError::ServerError(500).message(), "Server error (500)");
    assert_eq!(
        ApiError::ParseError("bad json".into()).message(),
        "Parse error: bad json"
    );
}

#[test]
fn parse_without_markers_gives_one_verse() {
    let verses = parse_passage_to_verses("  <p>Jesus wept.</p>\n", 43, 11, "kjv");
    assert_eq!(verses.len(), 1);
    assert_eq!(verses[0].verse, 1);
    assert_eq!(verses[0].text, "Jesus wept.");
    assert_eq!(verses[0].translation, "KJV");
}

#[test]
fn parse_blank_content_gives_nothing() {
    assert!(parse_passage_to_verses(" \n\t ", 1, 1, "kjv").is_empty());
    assert!(parse_passage_to_verses("<p></p>", 1, 1, "kjv").is_empty());
}

#[test]
fn parse_stops_at_bad_verse_number() {
    let content = r#"<span class="yv-v" v="1"></span>One. <span class="yv-v" v="x"></span>Two."#;
    let verses = parse_passage_to_verses(content, 1, 1, "kjv");
    assert_eq!(verses.len(), 1);
    assert_eq!(verses[0].text, "One.");
}

#[test]
fn parse_accepts_plus_sign_and_drops_empty_verses() {
    let content = r#"<span class="yv-v" v="+3"></span>Three. <span class="yv-v" v="4"></span> <span class="yv-v" v="5"></span>Five."#;
    let verses = parse_passage_to_verses(content, 1, 1, "kjv");
    assert_eq!(verses.len(), 2);
    assert_eq!(verses[0].verse, 3);
    assert_eq!(verses[1].verse, 5);
    assert_eq!(verses[1].text, "Five.");
}

#[test]
fn strip_tags_keeps_inner_text() {
    assert_eq!(strip_html_tags("<b>bold</b> and <i>it</i>"), "bold and it");
    assert_eq!(strip_html_tags("a > b"), "a  b");
}

#[test]
fn status_codes_map_to_errors() {
    assert!(matches!(api_error_for_status(401), ApiError::InvalidKey));
    assert!(matches!(api_error_for_status(403), ApiError::InvalidKey));
    assert!(matches!(api_error_for_status(404), ApiError::NotFound));
    assert!(matches!(api_error_for_status(429), ApiError::RateLimited));
    assert!(matches!(api_error_for_status(503), ApiError::ServerError(503)));
}

#[test]
fn request_urls() {
    let client = YouVersionClient::new("key".to_string());
    assert_eq!(client.app_key(), "key");
    assert_eq!(
        client.versions_url("en"),
        "https://api.youversion.com/v1/bibles?language_ranges[]=en"
    );
    assert_eq!(client.version_url(3034), "https://api.youversion.com/v1/bibles/3034");
    assert_eq!(
        client.passage_url(3034, "JHN.3"),
        "https://api.youversion.com/v1/bibles/3034/passages/JHN.3?format=html"
    );
}

#[test]
fn parse_keeps_each_verse_in_its_own_segment() {
    let content = r#"<span class="yv-v" v="1"></span>Alpha <span class="yv-v" v="2"></span><span class="yv-vlbl">2</span>Beta"#;
    let verses = parse_passage_to_verses(content, 43, 3, "bsb");
    assert_eq!(verses.len(), 2);
    assert_eq!(verses[0].verse, 1);
    assert_eq!(verses[0].text, "Alpha");
    assert_eq!(verses[1].verse, 2);
    assert_eq!(verses[1].text, "Beta");
    assert_eq!(verses[1].translation, "BSB");
}
