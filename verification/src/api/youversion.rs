//! YouVersion Platform API: request URLs, error classification, response
//! records and the parser that splits a passage's HTML into verses.
use vstd::prelude::*;
use vstd::string::*;

use crate::bible::books::book_name;
use crate::bible::books::spec_book_name_of;
use crate::bible::types::Verse;
use crate::text::chars_of;
use crate::text::decimal;
use crate::text::extend_str;
use crate::text::find_chars;
use crate::text::find_spec;
use crate::text::is_blank;
use crate::text::is_white_space;
use crate::text::lemma_find_from_props;
use crate::text::lemma_strip_tags_props;
use crate::text::lemma_trim_props;
use crate::text::parse_u32_chars;
use crate::text::parse_u32_spec;
use crate::text::push_decimal;
use crate::text::string_from_chars;
use crate::text::strip_tags_chars;
use crate::text::strip_tags_spec;
use crate::text::subvec;
use crate::text::to_uppercase;
use crate::text::trim_chars;
use crate::text::trim_spec;
use crate::text::uppercase_of;

verus! {

broadcast use vstd::string::group_string_axioms;

/// Errors of the YouVersion API.
pub enum ApiError {
    Network(String),
    InvalidKey,
    RateLimited,
    NotFound,
    ServerError(u16),
    ParseError(String),
}

/// The message that describes an error to the reader.
pub open spec fn api_error_message(e: ApiError) -> Seq<char> {
    match e {
        ApiError::Network(msg) => "Network error: "@ + msg@,
        ApiError::InvalidKey => "Invalid API key"@,
        ApiError::RateLimited => "Rate limited — try again later"@,
        ApiError::NotFound => "Resource not found"@,
        ApiError::ServerError(code) => "Server error ("@ + decimal(code as nat) + ")"@,
        ApiError::ParseError(msg) => "Parse error: "@ + msg@,
    }
}

impl ApiError {
    /// The message that describes this error to the reader.
    pub fn message(&self) -> (s: String)
        ensures
            s@ == api_error_message(*self),
    {
        let mut out: Vec<char> = Vec::new();
        match self {
            ApiError::Network(msg) => {
                extend_str(&mut out, "Network error: ");
                extend_str(&mut out, msg.as_str());
            },
            ApiError::InvalidKey => {
                extend_str(&mut out, "Invalid API key");
            },
            ApiError::RateLimited => {
                extend_str(&mut out, "Rate limited — try again later");
            },
            ApiError::NotFound => {
                extend_str(&mut out, "Resource not found");
            },
            ApiError::ServerError(code) => {
                extend_str(&mut out, "Server error (");
                push_decimal(&mut out, *code as u64);
                extend_str(&mut out, ")");
            },
            ApiError::ParseError(msg) => {
                extend_str(&mut out, "Parse error: ");
                extend_str(&mut out, msg.as_str());
            },
        }
        string_from_chars(out.as_slice())
    }
}

/// The error that an HTTP status code other than success stands for.
pub open spec fn spec_api_error_for_status(code: u16) -> ApiError {
    if code == 401 || code == 403 {
        ApiError::InvalidKey
    } else if code == 404 {
        ApiError::NotFound
    } else if code == 429 {
        ApiError::RateLimited
    } else {
        ApiError::ServerError(code)
    }
}

/// Classifies an HTTP error status: 401 and 403 mean a bad key, 404 a
/// missing resource, 429 rate limiting, anything else a server error.
pub fn api_error_for_status(code: u16) -> (e: ApiError)
    ensures
        e == spec_api_error_for_status(code),
{
    if code == 401 || code == 403 {
        ApiError::InvalidKey
    } else if code == 404 {
        ApiError::NotFound
    } else if code == 429 {
        ApiError::RateLimited
    } else {
        ApiError::ServerError(code)
    }
}

/// One page of the translation list.
pub struct YvVersionsResponse {
    pub data: Vec<YvVersion>,
    pub next_page_token: Option<String>,
}

/// One translation as the API describes it.
pub struct YvVersion {
    pub id: u32,
    pub abbreviation: String,
    pub localized_title: String,
    pub language_tag: String,
    pub copyright: Option<String>,
    pub books: Vec<String>,
}

/// One passage as the API returns it; `content` is HTML.
pub struct YvPassage {
    pub id: String,
    pub content: String,
    pub reference: String,
}

/// Base address of the API.
pub open spec fn api_base() -> Seq<char> {
    "https://api.youversion.com"@
}

/// Client for the YouVersion Platform API, holding the app key.
pub struct YouVersionClient {
    app_key: String,
}

/// Address of the list of translations in `language`.
pub open spec fn spec_versions_url(language: Seq<char>) -> Seq<char> {
    api_base() + "/v1/bibles?language_ranges[]="@ + language
}

/// Address of one translation.
pub open spec fn spec_version_url(version_id: u32) -> Seq<char> {
    api_base() + "/v1/bibles/"@ + decimal(version_id as nat)
}

/// Address of one passage of a translation, in HTML form.
pub open spec fn spec_passage_url(version_id: u32, usfm: Seq<char>) -> Seq<char> {
    api_base() + "/v1/bibles/"@ + decimal(version_id as nat) + "/passages/"@ + usfm
        + "?format=html"@
}

impl YouVersionClient {
    /// A client that authenticates with `app_key`.
    pub fn new(app_key: String) -> (c: Self)
        ensures
            c.spec_app_key() == app_key@,
    {
        Self { app_key }
    }

    /// The key this client sends.
    pub closed spec fn spec_app_key(&self) -> Seq<char> {
        self.app_key@
    }

    /// The key this client sends with every request.
    pub fn app_key(&self) -> (k: &str)
        ensures
            k@ == self.spec_app_key(),
    {
        self.app_key.as_str()
    }

    /// Address of the list of translations in `language`.
    pub fn versions_url(&self, language: &str) -> (u: String)
        ensures
            u@ == spec_versions_url(language@),
    {
        let mut out: Vec<char> = Vec::new();
        extend_str(&mut out, "https://api.youversion.com");
        extend_str(&mut out, "/v1/bibles?language_ranges[]=");
        extend_str(&mut out, language);
        string_from_chars(out.as_slice())
    }

    /// Address of one translation.
    pub fn version_url(&self, version_id: u32) -> (u: String)
        ensures
            u@ == spec_version_url(version_id),
    {
        let mut out: Vec<char> = Vec::new();
        extend_str(&mut out, "https://api.youversion.com");
        extend_str(&mut out, "/v1/bibles/");
        push_decimal(&mut out, version_id as u64);
        string_from_chars(out.as_slice())
    }

    /// Address of one passage of a translation, in HTML form.
    pub fn passage_url(&self, version_id: u32, usfm: &str) -> (u: String)
        ensures
            u@ == spec_passage_url(version_id, usfm@),
    {
        let mut out: Vec<char> = Vec::new();
        extend_str(&mut out, "https://api.youversion.com");
        extend_str(&mut out, "/v1/bibles/");
        push_decimal(&mut out, version_id as u64);
        extend_str(&mut out, "/passages/");
        extend_str(&mut out, usfm);
        extend_str(&mut out, "?format=html");
        string_from_chars(out.as_slice())
    }
}

/// Removes HTML tags from `html`, keeping the text between them.
pub fn strip_html_tags(html: &str) -> (r: String)
    ensures
        r@ == strip_tags_spec(html@),
{
    let v = chars_of(html);
    let s = strip_tags_chars(&v);
    string_from_chars(s.as_slice())
}

// ---------------------------------------------------------------------------
// Passage parsing
// ---------------------------------------------------------------------------

/// The attribute text that opens every verse marker.
pub open spec fn verse_marker() -> Seq<char> {
    "class=\"yv-v\" v=\""@
}

/// The attribute text of the verse-number label that follows a marker.
pub open spec fn label_marker() -> Seq<char> {
    "class=\"yv-vlbl\">"@
}

/// The tag that closes a span.
pub open spec fn span_close() -> Seq<char> {
    "</span>"@
}

/// Where the segment of a verse ends in `content`, the text after its
/// marker: at the next verse marker, or at the end.
pub open spec fn segment_end(content: Seq<char>) -> int {
    match find_spec(content, verse_marker()) {
        Some(e) => e,
        None => content.len() as int,
    }
}

/// A verse's segment without its number label: the text after the first
/// closed label span in the segment, or the whole segment when it has none.
pub open spec fn without_label(segment: Seq<char>) -> Seq<char> {
    match find_spec(segment, label_marker()) {
        Some(ls) => match find_spec(segment.subrange(ls, segment.len() as int), span_close()) {
            Some(i) => segment.subrange(ls + i + span_close().len(), segment.len() as int),
            None => segment,
        },
        None => segment,
    }
}

/// One step of the splitter on the unread text `rest`: the number of the
/// next verse, its text (the segment up to the next marker, label dropped,
/// tags stripped, trimmed), and the text from the next marker on; `None`
/// when no further well-formed verse marker is found.
pub open spec fn passage_step(rest: Seq<char>) -> Option<(u32, Seq<char>, Seq<char>)> {
    match find_spec(rest, verse_marker()) {
        None => None,
        Some(pos) => {
            let after = rest.subrange(pos + verse_marker().len(), rest.len() as int);
            match find_spec(after, seq!['"']) {
                None => None,
                Some(eq) => match parse_u32_spec(after.subrange(0, eq)) {
                    None => None,
                    Some(n) => match find_spec(after.subrange(eq, after.len() as int), seq!['>']) {
                        None => None,
                        Some(g) => {
                            let content = after.subrange(eq + g + 1, after.len() as int);
                            let end = segment_end(content);
                            Some(
                                (
                                    n,
                                    trim_spec(strip_tags_spec(without_label(content.subrange(0, end)))),
                                    content.subrange(end, content.len() as int),
                                ),
                            )
                        },
                    },
                },
            }
        },
    }
}

/// The verses (number and text) that the splitter reads from `rest`,
/// skipping verses whose cleaned text is empty.
pub open spec fn passage_verses(rest: Seq<char>) -> Seq<(u32, Seq<char>)>
    decreases rest.len(),
{
    match passage_step(rest) {
        None => Seq::empty(),
        Some(step) => {
            let tail = if step.2.len() < rest.len() {
                passage_verses(step.2)
            } else {
                Seq::empty()
            };
            if step.1.len() > 0 {
                seq![(step.0, step.1)] + tail
            } else {
                tail
            }
        },
    }
}

/// The verses of a passage: those the splitter finds, or, when it finds none
/// and the content is not blank, the whole cleaned content as verse 1.
pub open spec fn parse_passage_spec(content: Seq<char>) -> Seq<(u32, Seq<char>)> {
    let found = passage_verses(content);
    if found.len() == 0 && trim_spec(content).len() > 0 {
        let text = trim_spec(strip_tags_spec(content));
        if text.len() > 0 {
            seq![(1u32, text)]
        } else {
            Seq::empty()
        }
    } else {
        found
    }
}

/// The text left after a step is shorter than the text before it.
proof fn lemma_passage_step_shrinks(rest: Seq<char>)
    ensures
        passage_step(rest) matches Some(step) ==> step.2.len() < rest.len(),
{
    reveal_strlit("class=\"yv-v\" v=\"");
    if let Some(pos) = find_spec(rest, verse_marker()) {
        lemma_find_from_props(rest, verse_marker(), 0);
        let after = rest.subrange(pos + verse_marker().len(), rest.len() as int);
        assert(after.len() < rest.len());
        if let Some(eq) = find_spec(after, seq!['"']) {
            lemma_find_from_props(after, seq!['"'], 0);
            let tail = after.subrange(eq, after.len() as int);
            if let Some(g) = find_spec(tail, seq!['>']) {
                lemma_find_from_props(tail, seq!['>'], 0);
                let content = after.subrange(eq + g + 1, after.len() as int);
                assert(content.len() <= after.len());
                lemma_find_from_props(content, verse_marker(), 0);
            }
        }
    }
}

/// Every verse the splitter yields has clean text: not empty, free of angle
/// brackets, and without surrounding white space.
pub open spec fn clean_verse_text(t: Seq<char>) -> bool {
    &&& t.len() > 0
    &&& !t.contains('<')
    &&& !t.contains('>')
    &&& !is_white_space(t[0])
    &&& !is_white_space(t.last())
}

proof fn lemma_clean_text(s: Seq<char>)
    requires
        trim_spec(strip_tags_spec(s)).len() > 0,
    ensures
        clean_verse_text(trim_spec(strip_tags_spec(s))),
{
    lemma_strip_tags_props(s, 0, false);
    lemma_trim_props(strip_tags_spec(s));
}

proof fn lemma_passage_verses_clean(rest: Seq<char>)
    ensures
        forall|i: int|
            0 <= i < passage_verses(rest).len() ==> clean_verse_text(
                #[trigger] passage_verses(rest)[i].1,
            ),
    decreases rest.len(),
{
    lemma_passage_step_shrinks(rest);
    match passage_step(rest) {
        None => {},
        Some(step) => {
            if step.2.len() < rest.len() {
                lemma_passage_verses_clean(step.2);
            }
            let tail = if step.2.len() < rest.len() {
                passage_verses(step.2)
            } else {
                Seq::empty()
            };
            if step.1.len() > 0 {
                let text_content_text = step.1;
                assert(clean_verse_text(step.1)) by {
                    lemma_step_text_clean(rest);
                }
                let all = seq![(step.0, step.1)] + tail;
                assert forall|i: int| 0 <= i < all.len() implies clean_verse_text(
                    #[trigger] all[i].1,
                ) by {
                    if i > 0 {
                        assert(all[i] == tail[i - 1]);
                    }
                }
            }
        },
    }
}

proof fn lemma_step_text_clean(rest: Seq<char>)
    requires
        passage_step(rest) is Some,
        passage_step(rest).unwrap().1.len() > 0,
    ensures
        clean_verse_text(passage_step(rest).unwrap().1),
{
    let pos = find_spec(rest, verse_marker())->0;
    let after = rest.subrange(pos + verse_marker().len(), rest.len() as int);
    let eq = find_spec(after, seq!['"'])->0;
    let g = find_spec(after.subrange(eq, after.len() as int), seq!['>'])->0;
    let content = after.subrange(eq + g + 1, after.len() as int);
    let end = segment_end(content);
    lemma_clean_text(without_label(content.subrange(0, end)));
}

/// Every verse that `parse_passage_spec` yields has clean text.
pub proof fn lemma_parsed_passage_clean(content: Seq<char>)
    ensures
        forall|i: int|
            0 <= i < parse_passage_spec(content).len() ==> clean_verse_text(
                #[trigger] parse_passage_spec(content)[i].1,
            ),
{
    lemma_passage_verses_clean(content);
    let found = passage_verses(content);
    if found.len() == 0 && trim_spec(content).len() > 0 {
        let text = trim_spec(strip_tags_spec(content));
        if text.len() > 0 {
            lemma_clean_text(content);
        }
    }
}

/// The record a parsed verse becomes.
pub open spec fn verse_from_parsed(
    v: Verse,
    parsed: (u32, Seq<char>),
    book_num: u32,
    chapter: u32,
    translation: Seq<char>,
) -> bool {
    &&& v.book@ == spec_book_name_of(book_num as int)
    &&& v.book_num == book_num
    &&& v.chapter == chapter
    &&& v.verse == parsed.0
    &&& v.text@ == parsed.1
    &&& v.translation@ == uppercase_of(translation)
}

/// One step of the splitter on `rest`, computed.
fn passage_step_exec(rest: &Vec<char>, marker: &Vec<char>, label: &Vec<char>, close: &Vec<char>) -> (r:
    Option<(u32, Vec<char>, Vec<char>)>)
    requires
        marker@ == verse_marker(),
        label@ == label_marker(),
        close@ == span_close(),
    ensures
        match r {
            None => passage_step(rest@) is None,
            Some(step) => passage_step(rest@) == Some((step.0, step.1@, step.2@)),
        },
{
    let pos = match find_chars(rest, marker) {
        Some(p) => p,
        None => return None,
    };
    proof {
        lemma_find_from_props(rest@, marker@, 0);
    }
    let mlen = marker.len();
    let rlen = rest.len();
    assert(pos + mlen <= rlen);
    let after = subvec(rest, pos + mlen, rlen);
    let quote = vec!['"'];
    assert(quote@ =~= seq!['"']);
    let eq = match find_chars(&after, &quote) {
        Some(e) => e,
        None => return None,
    };
    proof {
        lemma_find_from_props(after@, quote@, 0);
    }
    let n = match parse_u32_chars(&after, 0, eq) {
        Some(n) => n,
        None => return None,
    };
    let tail = subvec(&after, eq, after.len());
    let gt = vec!['>'];
    assert(gt@ =~= seq!['>']);
    let g = match find_chars(&tail, &gt) {
        Some(g) => g,
        None => return None,
    };
    proof {
        lemma_find_from_props(tail@, gt@, 0);
    }
    let content = subvec(&after, eq + g + 1, after.len());
    let end = match find_chars(&content, marker) {
        Some(e) => {
            proof {
                lemma_find_from_props(content@, marker@, 0);
            }
            e
        },
        None => content.len(),
    };
    let segment = subvec(&content, 0, end);
    let text_content = match find_chars(&segment, label) {
        Some(ls) => {
            proof {
                lemma_find_from_props(segment@, label@, 0);
            }
            let after_lbl = subvec(&segment, ls, segment.len());
            match find_chars(&after_lbl, close) {
                Some(i) => {
                    proof {
                        lemma_find_from_props(after_lbl@, close@, 0);
                    }
                    subvec(&segment, ls + i + close.len(), segment.len())
                },
                None => segment,
            }
        },
        None => segment,
    };
    assert(text_content@ == without_label(segment@));
    let stripped = strip_tags_chars(&text_content);
    let text = trim_chars(&stripped);
    let next = subvec(&content, end, content.len());
    Some((n, text, next))
}

/// Splits the HTML of a passage into verses.
///
/// The API marks each verse with `<span class="yv-v" v="N">`, followed by a
/// label span with the verse number. Each verse is its own segment, from
/// its marker to the next one; the segment's label is dropped, tags are
/// stripped and the result trimmed, and verses left empty are dropped. When no marker is
/// found, non-blank content becomes verse 1.
pub fn parse_passage_to_verses(content: &str, book_num: u32, chapter: u32, translation: &str) -> (v:
    Vec<Verse>)
    ensures
        v.len() == parse_passage_spec(content@).len(),
        forall|i: int|
            0 <= i < v.len() ==> verse_from_parsed(
                #[trigger] v@[i],
                parse_passage_spec(content@)[i],
                book_num,
                chapter,
                translation@,
            ),
        forall|i: int| 0 <= i < v.len() ==> clean_verse_text(#[trigger] v@[i].text@),
{
    let book_str = book_name(book_num);
    let upper = to_uppercase(translation);
    let marker = chars_of("class=\"yv-v\" v=\"");
    let label = chars_of("class=\"yv-vlbl\">");
    let close = chars_of("</span>");
    let all = chars_of(content);
    let mut verses: Vec<Verse> = Vec::new();
    let ghost mut acc: Seq<(u32, Seq<char>)> = Seq::empty();
    let mut rest = chars_of(content);
    loop
        invariant
            marker@ == verse_marker(),
            label@ == label_marker(),
            close@ == span_close(),
            all@ == content@,
            book_str@ == spec_book_name_of(book_num as int),
            upper@ == uppercase_of(translation@),
            acc + passage_verses(rest@) == passage_verses(content@),
            verses.len() == acc.len(),
            forall|i: int|
                0 <= i < verses.len() ==> verse_from_parsed(
                    #[trigger] verses@[i],
                    acc[i],
                    book_num,
                    chapter,
                    translation@,
                ),
        ensures
            acc == passage_verses(content@),
            verses.len() == acc.len(),
            forall|i: int|
                0 <= i < verses.len() ==> verse_from_parsed(
                    #[trigger] verses@[i],
                    acc[i],
                    book_num,
                    chapter,
                    translation@,
                ),
        decreases rest.len(),
    {
        proof {
            lemma_passage_step_shrinks(rest@);
        }
        match passage_step_exec(&rest, &marker, &label, &close) {
            None => {
                assert(acc + Seq::<(u32, Seq<char>)>::empty() =~= acc);
                break ;
            },
            Some(step) => {
                let (n, text, next) = step;
                let ghost old_rest = rest@;
                if text.len() > 0 {
                    let verse = Verse {
                        book: String::from_str(book_str),
                        book_num,
                        chapter,
                        verse: n,
                        text: string_from_chars(text.as_slice()),
                        translation: upper.clone(),
                    };
                    verses.push(verse);
                    proof {
                        assert(acc.push((n, text@)) + passage_verses(next@) =~= acc + (seq![
                            (n, text@),
                        ] + passage_verses(next@)));
                        acc = acc.push((n, text@));
                    }
                }
                rest = next;
            },
        }
    }
    if verses.len() == 0 && !is_blank(&all) {
        let stripped = strip_tags_chars(&all);
        let text = trim_chars(&stripped);
        if text.len() > 0 {
            verses.push(
                Verse {
                    book: String::from_str(book_str),
                    book_num,
                    chapter,
                    verse: 1,
                    text: string_from_chars(text.as_slice()),
                    translation: upper.clone(),
                },
            );
        }
    }
    proof {
        lemma_parsed_passage_clean(content@);
        assert forall|i: int| 0 <= i < verses.len() implies verse_from_parsed(
            #[trigger] verses@[i],
            parse_passage_spec(content@)[i],
            book_num,
            chapter,
            translation@,
        ) by {}
    }
    verses
}

} // verus!
