//! Finding the verses of a chapter: from the bundled database for offline
//! translations, otherwise from the cache or, in the background, from the
//! YouVersion API.
use vstd::prelude::*;
use vstd::string::*;

use std::sync::mpsc::Receiver;
use std::sync::mpsc::TryRecvError;

use rusqlite::Connection;

use crate::api::cache::CacheDb;
use crate::api::cache::CachedVersion;
use crate::api::cache::CachedVerseRow;
use crate::api::cache::CachedVersionRow;
use crate::api::cache::chapter_read;
use crate::api::cache::versions_read;
use crate::bible::books::book_usfm;
use crate::bible::books::spec_book_usfm_of;
use crate::bible::db;
use crate::bible::is_bundled_translation;
use crate::bible::spec_is_bundled;
use crate::bible::types::Verse;
use crate::config::providers::ProvidersConfig;
use crate::config::providers::active_pos;
use crate::config::providers::ProviderKind;
use crate::text::decimal;
use crate::text::eq_ignore_ascii_case;
use crate::text::eq_ignore_ascii_case_spec;
use crate::text::extend_str;
use crate::text::push_decimal;
use crate::text::string_from_chars;
use crate::text::to_uppercase;
use crate::text::uppercase_of;

verus! {

/// The receiving end of a channel.
#[verifier::external_type_specification]
#[verifier::external_body]
#[verifier::reject_recursive_types(T)]
pub struct ExReceiver<T>(Receiver<T>);

/// What a background fetch sends back: the verses, or an error message.
pub type FetchMessage = Result<Vec<Verse>, String>;

/// Outcome of looking for a chapter.
pub enum FetchResult {
    Ready(Vec<Verse>),
    Loading,
    Error(String),
}

/// What a non-blocking receive found.
pub enum Received {
    Message(FetchMessage),
    Empty,
    Disconnected,
}

/// Receives without blocking.
///
/// Trusted: calls `Receiver::try_recv` and tells its three outcomes apart;
/// which one comes depends on the other thread, so nothing is claimed.
#[verifier::external_body]
fn try_receive(receiver: &Receiver<FetchMessage>) -> (r: Received) {
    match receiver.try_recv() {
        Ok(m) => Received::Message(m),
        Err(TryRecvError::Empty) => Received::Empty,
        Err(TryRecvError::Disconnected) => Received::Disconnected,
    }
}

/// A fetch running in the background, for chapter `chapter` of the book at
/// index `book_idx`.
pub struct PendingFetch {
    receiver: Receiver<FetchMessage>,
    book_idx: usize,
    chapter: u32,
}

/// Tracks the one background fetch that may be running.
pub struct ChapterResolver {
    pending: Option<PendingFetch>,
}

/// What polling reports for a fetch of chapter `chapter` of the book at
/// index `book_idx` when the receive found `got`: nothing while the channel
/// is empty, the chapter's verses or error once a message came, and the
/// error "Fetch failed" at position `(0, 0)` when the fetching thread is gone.
pub open spec fn poll_reports(
    book_idx: usize,
    chapter: u32,
    got: Received,
    r: Option<(usize, u32, FetchResult)>,
) -> bool {
    match got {
        Received::Message(Ok(verses)) => r == Some((book_idx, chapter, FetchResult::Ready(verses))),
        Received::Message(Err(msg)) => r == Some((book_idx, chapter, FetchResult::Error(msg))),
        Received::Empty => r is None,
        Received::Disconnected => r matches Some((i, c, FetchResult::Error(m))) && i == 0 && c == 0
            && m@ == "Fetch failed"@,
    }
}

/// Turns the outcome of a receive into what polling reports.
pub fn poll_result(book_idx: usize, chapter: u32, got: Received) -> (r: Option<(usize, u32, FetchResult)>)
    ensures
        poll_reports(book_idx, chapter, got, r),
{
    match got {
        Received::Message(Ok(verses)) => Some((book_idx, chapter, FetchResult::Ready(verses))),
        Received::Message(Err(msg)) => Some((book_idx, chapter, FetchResult::Error(msg))),
        Received::Empty => None,
        Received::Disconnected => Some((0, 0, FetchResult::Error(String::from_str("Fetch failed")))),
    }
}

impl ChapterResolver {
    /// A resolver with no fetch running.
    pub fn new() -> (r: Self)
        ensures
            !r.spec_is_loading(),
    {
        Self { pending: None }
    }

    /// Whether a fetch is running.
    pub closed spec fn spec_is_loading(&self) -> bool {
        self.pending is Some
    }

    /// A fetch is running exactly when it has a target chapter.
    pub proof fn lemma_loading_iff_target(&self)
        ensures
            self.spec_is_loading() <==> self.spec_pending_target() is Some,
    {
    }

    /// Chapter of the running fetch: book index and chapter.
    pub closed spec fn spec_pending_target(&self) -> Option<(usize, u32)> {
        match self.pending {
            Some(p) => Some((p.book_idx, p.chapter)),
            None => None,
        }
    }

    /// Records a fetch started in the background for chapter `chapter` of
    /// the book at index `book_idx`, answering on `receiver`.
    pub fn start_fetch(&mut self, receiver: Receiver<FetchMessage>, book_idx: usize, chapter: u32)
        ensures
            final(self).spec_pending_target() == Some((book_idx, chapter)),
    {
        self.pending = Some(PendingFetch { receiver, book_idx, chapter });
    }

    /// Checks without blocking whether the running fetch has finished. A
    /// finished fetch (with verses, with an error, or gone) is forgotten and
    /// its outcome returned; while it is still running, or when none is,
    /// nothing is returned.
    pub fn poll(&mut self) -> (r: Option<(usize, u32, FetchResult)>)
        ensures
            old(self).spec_pending_target() is None ==> r is None && final(self).spec_pending_target() is None,
            old(self).spec_pending_target() matches Some(t) ==> exists|got: Received|
                #[trigger] poll_reports(t.0, t.1, got, r) && (got is Empty
                    ==> final(self).spec_pending_target() == old(self).spec_pending_target()) && (!(got is Empty)
                    ==> final(self).spec_pending_target() is None),
    {
        let got = match &self.pending {
            None => return None,
            Some(p) => try_receive(&p.receiver),
        };
        let ghost g = got;
        let (idx, ch) = match &self.pending {
            Some(p) => (p.book_idx, p.chapter),
            None => (0, 0),
        };
        let keep = match &got {
            Received::Empty => true,
            _ => false,
        };
        let r = poll_result(idx, ch, got);
        if !keep {
            self.pending = None;
        }
        proof {
            let t = old(self).spec_pending_target()->0;
            assert(keep == (g is Empty));
            assert(t == (idx, ch));
            assert(poll_reports(t.0, t.1, g, r) && (g is Empty ==> self.spec_pending_target()
                == old(self).spec_pending_target()) && (!(g is Empty) ==> self.spec_pending_target()
                is None));
        }
        r
    }

    /// Whether a fetch is running.
    pub fn is_loading(&self) -> (r: bool)
        ensures
            r == self.spec_is_loading(),
    {
        self.pending.is_some()
    }
}

/// A chapter to fetch from the API in the background.
pub struct FetchRequest {
    pub api_key: String,
    pub version_id: u32,
    pub usfm: String,
    pub book_num: u32,
    pub chapter: u32,
    pub translation_upper: String,
    pub book_idx: usize,
}

/// What resolving a chapter leads to: an outcome now, or a fetch to start.
pub enum ResolveStep {
    Finished(FetchResult),
    Fetch(FetchRequest),
}

/// The passage reference of a chapter: book code, a dot, chapter number.
pub open spec fn spec_usfm_reference(book_num: u32, chapter: u32) -> Seq<char> {
    spec_book_usfm_of(book_num as int) + "."@ + decimal(chapter as nat)
}

/// The passage reference of a chapter, such as `JHN.3`.
pub fn usfm_reference(book_num: u32, chapter: u32) -> (s: String)
    ensures
        s@ == spec_usfm_reference(book_num, chapter),
{
    let mut out: Vec<char> = Vec::new();
    extend_str(&mut out, book_usfm(book_num));
    extend_str(&mut out, ".");
    push_decimal(&mut out, chapter as u64);
    string_from_chars(out.as_slice())
}

/// The error shown when the cache lists no translation `translation`.
pub open spec fn spec_not_found_message(translation: Seq<char>) -> Seq<char> {
    "Translation '"@ + translation + "' not found — sync versions first"@
}

/// The error shown when the cache lists no translation `translation`.
pub fn not_found_message(translation: &str) -> (s: String)
    ensures
        s@ == spec_not_found_message(translation@),
{
    let mut out: Vec<char> = Vec::new();
    extend_str(&mut out, "Translation '");
    extend_str(&mut out, translation);
    extend_str(&mut out, "' not found — sync versions first");
    string_from_chars(out.as_slice())
}

/// `r` is the id of the first translation of `versions` whose abbreviation
/// matches `translation` without regard to ASCII case, or nothing when none
/// does.
pub open spec fn lists_version(versions: Seq<CachedVersion>, translation: Seq<char>, r: Option<u32>) -> bool {
    match r {
        Some(id) => exists|i: int| 0 <= i < versions.len() && eq_ignore_ascii_case_spec(#[trigger] versions[i].abbreviation@, translation)
            && versions[i].version_id == id
            && forall|j: int| 0 <= j < i ==> !eq_ignore_ascii_case_spec(#[trigger] versions[j].abbreviation@, translation),
        None => forall|i: int| 0 <= i < versions.len() ==> !eq_ignore_ascii_case_spec(#[trigger] versions[i].abbreviation@, translation),
    }
}

/// Id of the first cached translation whose abbreviation matches
/// `translation` without regard to ASCII case.
pub fn find_version_id(versions: &[CachedVersion], translation: &str) -> (r: Option<u32>)
    ensures
        lists_version(versions@, translation@, r),
{
    let mut i: usize = 0;
    while i < versions.len()
        invariant
            i <= versions.len(),
            forall|j: int| 0 <= j < i ==> !eq_ignore_ascii_case_spec(#[trigger] versions@[j].abbreviation@, translation@),
        decreases versions.len() - i,
    {
        let v = &versions[i];
        if eq_ignore_ascii_case(v.abbreviation.as_str(), translation) {
            return Some(v.version_id);
        }
        i = i + 1;
    }
    None
}

/// The view of an optional text.
pub open spec fn opt_text(o: Option<&str>) -> Option<Seq<char>> {
    match o {
        Some(s) => Some(s@),
        None => None,
    }
}

/// `r` is what follows once translation `version_id` was found in the
/// cache: the cached chapter `cached` if there is one, else a fetch of
/// chapter `chapter` of book `book_num` with the key `api_key`, or the error
/// "No API key configured" when there is no key.
pub open spec fn planned(
    version_id: u32,
    cached: Option<Vec<Verse>>,
    api_key: Option<Seq<char>>,
    translation: Seq<char>,
    book_num: u32,
    chapter: u32,
    r: ResolveStep,
) -> bool {
    match cached {
        Some(v) => r == ResolveStep::Finished(FetchResult::Ready(v)),
        None => match api_key {
            None => r matches ResolveStep::Finished(FetchResult::Error(m)) && m@ == "No API key configured"@,
            Some(k) => r matches ResolveStep::Fetch(req) && req.api_key@ == k && req.version_id == version_id
                && req.usfm@ == spec_usfm_reference(book_num, chapter) && req.book_num == book_num
                && req.chapter == chapter && req.translation_upper@ == uppercase_of(translation)
                && req.book_idx == (if book_num >= 1 { book_num - 1 } else { 0 }),
        },
    }
}

/// What follows once translation `version_id` was found in the cache: the
/// cached chapter if there is one, else a fetch with the API key, or an
/// error when no key is configured.
pub fn plan_fetch(
    version_id: u32,
    cached: Option<Vec<Verse>>,
    api_key: Option<&str>,
    translation: &str,
    book_num: u32,
    chapter: u32,
) -> (r: ResolveStep)
    ensures
        planned(version_id, cached, opt_text(api_key), translation@, book_num, chapter, r),
{
    match cached {
        Some(verses) => ResolveStep::Finished(FetchResult::Ready(verses)),
        None => match api_key {
            None => ResolveStep::Finished(FetchResult::Error(String::from_str("No API key configured"))),
            Some(k) => {
                let book_idx: usize = if book_num >= 1 {
                    (book_num - 1) as usize
                } else {
                    0
                };
                ResolveStep::Fetch(FetchRequest {
                    api_key: String::from_str(k),
                    version_id,
                    usfm: usfm_reference(book_num, chapter),
                    book_num,
                    chapter,
                    translation_upper: to_uppercase(translation),
                    book_idx,
                })
            },
        },
    }
}

/// What follows from looking translation `translation` up in the cached
/// translation list, which gave `version_id`: the error naming the
/// translation when it is not listed, otherwise what `plan_fetch` gives for
/// the cached chapter `cached` and the key `api_key`.
pub fn resolve_listed(
    version_id: Option<u32>,
    cached: Option<Vec<Verse>>,
    api_key: Option<&str>,
    translation: &str,
    book_num: u32,
    chapter: u32,
) -> (r: ResolveStep)
    ensures
        match version_id {
            None => r matches ResolveStep::Finished(FetchResult::Error(m)) && m@ == spec_not_found_message(translation@),
            Some(id) => planned(id, cached, opt_text(api_key), translation@, book_num, chapter, r),
        },
{
    match version_id {
        None => ResolveStep::Finished(FetchResult::Error(not_found_message(translation))),
        Some(id) => plan_fetch(id, cached, api_key, translation, book_num, chapter),
    }
}

/// `r` is how chapter `chapter` of book `book_num` in translation
/// `translation` resolves through the cache, given the translation list
/// `versions` read from it, the id `version_id` found there, the cached
/// chapter `cached` read for that id and the API key `api_key`: the
/// not-found error when the list does not name the translation, otherwise
/// what `plan_fetch` gives.
pub open spec fn cache_resolution(
    versions: Seq<CachedVersion>,
    version_id: Option<u32>,
    cached: Option<Vec<Verse>>,
    api_key: Option<Seq<char>>,
    translation: Seq<char>,
    book_num: u32,
    chapter: u32,
    r: ResolveStep,
) -> bool {
    &&& exists|rows: Seq<Result<CachedVersionRow, rusqlite::Error>>, now: int| #[trigger] versions_read(versions, rows, now)
    &&& lists_version(versions, translation, version_id)
    &&& match version_id {
        None => r matches ResolveStep::Finished(FetchResult::Error(m)) && m@ == spec_not_found_message(translation),
        Some(id) => (exists|rows: Seq<Result<CachedVerseRow, rusqlite::Error>>, now: int|
            #[trigger] chapter_read(cached, rows, book_num, chapter, now))
            && planned(id, cached, api_key, translation, book_num, chapter, r),
    }
}

/// Decides how to get chapter `chapter` of book `book_num` in translation
/// `translation`: bundled translations are read from the database at once;
/// others need the cache, a cached translation list naming the translation,
/// and then either a cached chapter or an API key to fetch it with.
pub fn resolve_step(
    conn: &Connection,
    cache: Option<&CacheDb>,
    providers: &ProvidersConfig,
    translation: &str,
    book_num: u32,
    chapter: u32,
) -> (r: ResolveStep)
    ensures
        spec_is_bundled(translation@) ==> r matches ResolveStep::Finished(FetchResult::Ready(_)),
        (!spec_is_bundled(translation@) && cache is None) ==> (r matches ResolveStep::Finished(FetchResult::Error(m))
            && m@ == "Cache not available"@),
        (!spec_is_bundled(translation@) && cache is Some) ==> exists|
            versions: Seq<CachedVersion>,
            version_id: Option<u32>,
            cached: Option<Vec<Verse>>,
        |
            #[trigger] cache_resolution(
                versions,
                version_id,
                cached,
                providers.spec_youversion_key(),
                translation@,
                book_num,
                chapter,
                r,
            ),
        !spec_is_bundled(translation@) ==> {
            &&& r matches ResolveStep::Finished(FetchResult::Ready(v)) ==> v@.len() > 0
            &&& !(r matches ResolveStep::Finished(FetchResult::Loading))
            &&& r matches ResolveStep::Finished(FetchResult::Error(m)) ==> (cache is None && m@ == "Cache not available"@)
                || (cache is Some && (m@ == spec_not_found_message(translation@) || m@ == "No API key configured"@))
        },
        r matches ResolveStep::Fetch(req) ==> !spec_is_bundled(translation@) && cache is Some
            && active_pos(providers.providers@, ProviderKind::YouVersion) is Some
            && req.usfm@ == spec_usfm_reference(book_num, chapter) && req.book_num == book_num
            && req.chapter == chapter,
{
    if is_bundled_translation(translation) {
        return ResolveStep::Finished(FetchResult::Ready(db::get_chapter(conn, translation, book_num, chapter)));
    }
    let cache = match cache {
        Some(c) => c,
        None => return ResolveStep::Finished(FetchResult::Error(String::from_str("Cache not available"))),
    };
    let versions = cache.get_versions();
    let version_id = find_version_id(versions.as_slice(), translation);
    let cached = match version_id {
        Some(id) => cache.get_chapter(id, book_num, chapter),
        None => None,
    };
    let key = providers.youversion_key();
    let r = resolve_listed(version_id, cached, key, translation, book_num, chapter);
    proof {
        assert(opt_text(key) == providers.spec_youversion_key());
        assert(cache_resolution(versions@, version_id, cached, providers.spec_youversion_key(), translation@, book_num, chapter, r));
    }
    r
}

} // verus!
