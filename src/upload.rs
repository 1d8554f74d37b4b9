//! The decisions of a deduplicating upload. A caller looks the content's
//! fingerprint up in a cache, uploads only on a miss, and records what it
//! uploaded; after each answer from the cache or the media store these functions
//! say what to do next.
use crate::image::{mime_of, Error, Image};
use crate::name::extension;
use vstd::prelude::*;

verus! {

/// What the caller does next.
pub enum UploadAction {
    /// Look the fingerprint of the data up in the cache.
    QueryCache,
    /// Send the picture to the media store under this MIME type.
    Upload { mime_type: String },
    /// Record in the cache that the fingerprint maps to `url`.
    Record { url: String },
    /// Finished: the reference, and whether this call uploaded the data.
    Done { url: String, is_new: bool },
    /// Failed; nothing more is done.
    Fail(Error),
}

/// An `UploadAction` with its strings as sequences of characters.
pub ghost enum ActionModel {
    QueryCache,
    Upload { mime_type: Seq<char> },
    Record { url: Seq<char> },
    Done { url: Seq<char>, is_new: bool },
    Fail(Error),
}

impl View for UploadAction {
    type V = ActionModel;

    open spec fn view(&self) -> ActionModel {
        match self {
            UploadAction::QueryCache => ActionModel::QueryCache,
            UploadAction::Upload { mime_type } => ActionModel::Upload { mime_type: mime_type@ },
            UploadAction::Record { url } => ActionModel::Record { url: url@ },
            UploadAction::Done { url, is_new } => ActionModel::Done { url: url@, is_new: *is_new },
            UploadAction::Fail(e) => ActionModel::Fail(*e),
        }
    }
}

/// What the cache answered to a lookup.
pub enum CacheAnswer {
    /// The fingerprint was recorded with this reference.
    Hit(String),
    /// The fingerprint was not recorded.
    Miss,
    /// The cache failed.
    Failed,
}

/// A `CacheAnswer` with its string as a sequence of characters.
pub ghost enum CacheReply {
    Hit(Seq<char>),
    Miss,
    Failed,
}

impl View for CacheAnswer {
    type V = CacheReply;

    open spec fn view(&self) -> CacheReply {
        match self {
            CacheAnswer::Hit(url) => CacheReply::Hit(url@),
            CacheAnswer::Miss => CacheReply::Miss,
            CacheAnswer::Failed => CacheReply::Failed,
        }
    }
}

/// Upload under the MIME type of `name`, or fail where it has no extension.
pub open spec fn upload_or_fail(name: Seq<char>) -> ActionModel {
    match extension(name) {
        None => ActionModel::Fail(Error::NoMimeType),
        Some(ext) => ActionModel::Upload { mime_type: mime_of(ext) },
    }
}

/// The first step: ask the cache where there is one, else upload.
pub open spec fn begin_step(name: Seq<char>, has_cache: bool) -> ActionModel {
    if has_cache {
        ActionModel::QueryCache
    } else {
        upload_or_fail(name)
    }
}

/// The step after the cache answered a lookup.
pub open spec fn lookup_step(name: Seq<char>, answer: CacheReply) -> ActionModel {
    match answer {
        CacheReply::Hit(url) => ActionModel::Done { url, is_new: false },
        CacheReply::Miss => upload_or_fail(name),
        CacheReply::Failed => ActionModel::Fail(Error::Database),
    }
}

/// The step after the media store answered an upload (`None`: it failed).
pub open spec fn store_step(has_cache: bool, answer: Option<Seq<char>>) -> ActionModel {
    match answer {
        None => ActionModel::Fail(Error::Transport),
        Some(url) => if has_cache {
            ActionModel::Record { url }
        } else {
            ActionModel::Done { url, is_new: true }
        },
    }
}

/// The step after the cache answered a request to record `url`.
pub open spec fn record_step(url: Seq<char>, recorded: bool) -> ActionModel {
    if recorded {
        ActionModel::Done { url, is_new: true }
    } else {
        ActionModel::Fail(Error::Database)
    }
}

/// The outcome of a whole upload: the last step, the cache after it, and whether
/// the media store was called.
pub ghost struct UploadRun {
    pub outcome: ActionModel,
    pub cache: Map<Seq<u8>, Seq<char>>,
    pub uploaded: bool,
}

/// What a cache that holds `cache` answers to a lookup of `fingerprint`.
pub open spec fn lookup_in(cache: Map<Seq<u8>, Seq<char>>, fingerprint: Seq<u8>) -> CacheReply {
    if cache.contains_key(fingerprint) {
        CacheReply::Hit(cache[fingerprint])
    } else {
        CacheReply::Miss
    }
}

/// An upload of data with fingerprint `fingerprint` under the file name `name`,
/// with a cache that holds `cache` (none where `None`) and answers as a map, and
/// a media store that answers `store` (`None`: it fails), run step by step.
pub open spec fn run_upload(
    name: Seq<char>,
    fingerprint: Seq<u8>,
    cache: Option<Map<Seq<u8>, Seq<char>>>,
    store: Option<Seq<char>>,
) -> UploadRun {
    let has_cache = cache is Some;
    let held = match cache {
        Some(m) => m,
        None => Map::empty(),
    };
    let first = begin_step(name, has_cache);
    let next = match first {
        ActionModel::QueryCache => lookup_step(name, lookup_in(held, fingerprint)),
        other => other,
    };
    match next {
        ActionModel::Upload { .. } => match store_step(has_cache, store) {
            ActionModel::Record { url } => UploadRun {
                outcome: record_step(url, true),
                cache: held.insert(fingerprint, url),
                uploaded: true,
            },
            other => UploadRun { outcome: other, cache: held, uploaded: true },
        },
        other => UploadRun { outcome: other, cache: held, uploaded: false },
    }
}

/// Uploading the same content twice through one cache: the first upload sends
/// the data and reports it new; the second finds the first one's reference in
/// the cache, reports it not new, and never calls the media store, whatever the
/// file names and whatever the store would answer.
pub proof fn lemma_second_upload_is_cached(
    name1: Seq<char>,
    name2: Seq<char>,
    fingerprint: Seq<u8>,
    cache: Map<Seq<u8>, Seq<char>>,
    url: Seq<char>,
    store2: Option<Seq<char>>,
)
    requires
        (extension(name1) is Some),
        !cache.contains_key(fingerprint),
    ensures
        run_upload(name1, fingerprint, Some(cache), Some(url)).outcome == (ActionModel::Done {
            url,
            is_new: true,
        }),
        run_upload(name1, fingerprint, Some(cache), Some(url)).uploaded,
        run_upload(
            name2,
            fingerprint,
            Some(run_upload(name1, fingerprint, Some(cache), Some(url)).cache),
            store2,
        ).outcome == (ActionModel::Done { url, is_new: false }),
        !run_upload(
            name2,
            fingerprint,
            Some(run_upload(name1, fingerprint, Some(cache), Some(url)).cache),
            store2,
        ).uploaded,
{
}

/// A name without an extension fails with `NoMimeType` on a cache miss, and the
/// media store is never called.
pub proof fn lemma_no_extension_no_upload(
    name: Seq<char>,
    fingerprint: Seq<u8>,
    cache: Option<Map<Seq<u8>, Seq<char>>>,
    store: Option<Seq<char>>,
)
    requires
        (extension(name) is None),
        cache is Some ==> !cache->Some_0.contains_key(fingerprint),
    ensures
        run_upload(name, fingerprint, cache, store).outcome == ActionModel::Fail(Error::NoMimeType),
        !run_upload(name, fingerprint, cache, store).uploaded,
{
}

/// After a cache miss and a failed upload the cache is as it was: it holds no
/// entry for the fingerprint.
pub proof fn lemma_failed_upload_records_nothing(
    name: Seq<char>,
    fingerprint: Seq<u8>,
    cache: Map<Seq<u8>, Seq<char>>,
)
    requires
        !cache.contains_key(fingerprint),
    ensures
        run_upload(name, fingerprint, Some(cache), None).cache == cache,
        !run_upload(name, fingerprint, Some(cache), None).cache.contains_key(fingerprint),
        (run_upload(name, fingerprint, Some(cache), None).outcome is Fail),
{
}

/// Upload under the MIME type of the picture's name, or fail where it has none.
fn upload_or_fail_exec(image: &Image) -> (r: UploadAction)
    ensures
        r@ == upload_or_fail(image.file_name@),
{
    match image.mime_type() {
        Ok(mime_type) => UploadAction::Upload { mime_type },
        Err(_) => UploadAction::Fail(Error::NoMimeType),
    }
}

/// The first step of an upload of `image`, with or without a cache.
pub fn upload_begin(image: &Image, has_cache: bool) -> (r: UploadAction)
    ensures
        r@ == begin_step(image.file_name@, has_cache),
{
    if has_cache {
        UploadAction::QueryCache
    } else {
        upload_or_fail_exec(image)
    }
}

/// The step after the cache answered the lookup of `image`'s fingerprint.
pub fn upload_after_lookup(image: &Image, answer: CacheAnswer) -> (r: UploadAction)
    ensures
        r@ == lookup_step(image.file_name@, answer@),
{
    match answer {
        CacheAnswer::Hit(url) => UploadAction::Done { url, is_new: false },
        CacheAnswer::Miss => upload_or_fail_exec(image),
        CacheAnswer::Failed => UploadAction::Fail(Error::Database),
    }
}

/// The step after the media store answered the upload: the reference it gave,
/// or `None` where it failed.
pub fn upload_after_store(has_cache: bool, answer: Option<String>) -> (r: UploadAction)
    ensures
        r@ == store_step(
            has_cache,
            match answer {
                Some(url) => Some(url@),
                None => None,
            },
        ),
{
    match answer {
        None => UploadAction::Fail(Error::Transport),
        Some(url) => if has_cache {
            UploadAction::Record { url }
        } else {
            UploadAction::Done { url, is_new: true }
        },
    }
}

/// The step after the cache answered the request to record `url`.
pub fn upload_after_record(url: String, recorded: bool) -> (r: UploadAction)
    ensures
        r@ == record_step(url@, recorded),
{
    if recorded {
        UploadAction::Done { url, is_new: true }
    } else {
        UploadAction::Fail(Error::Database)
    }
}

} // verus!
