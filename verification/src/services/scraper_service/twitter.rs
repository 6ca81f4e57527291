//! The X (Twitter) scraper of the service layer: the post id of a link, the
//! request to the scraping service, and the media of its JSON answer.
use vstd::prelude::*;

use crate::error::{BotError, BotResult};
use crate::json::Json;
use crate::services::scraper_service::{media_parts, MediaKind, MediaMetadata, TwitterMediaMetadata};
use crate::text::{
    after_last, before_first, chars_eq_str, chars_of, lemma_split_by_len, lemma_split_n_len,
    lemma_split_by_no_sep,
    split_by, split_chars, split_n, splitn_chars, string_of,
};
use crate::twitter::scraper::field_text;
use crate::url::{parsed_url, path_segments_of, Url, UrlView};

pub mod error;

use error::{
    custom, custom_text, invalid_field, invalid_field_text, invalid_response,
    invalid_response_text, invalid_url, invalid_url_text, missing_field, missing_field_text,
};

verus! {

/// The post id of the link `handle`, or the message of why there is none.
/// The link is split on its first five `/`; the third piece must be
/// `x.com` or `twitter.com`, and the id is the sixth piece up to any `?`.
pub open spec fn post_id_of(handle: Seq<char>) -> Result<Seq<char>, Seq<char>> {
    let parts = split_n(handle, 6, '/');
    if parts.len() < 6 {
        Err(invalid_url_text("Invalid domain expect more segment in the url"@))
    } else if !(parts[2] == "x.com"@ || parts[2] == "twitter.com"@) {
        Err(invalid_url_text("Invalid domain"@))
    } else {
        Ok(before_first(parts[5], '?'))
    }
}

/// The post id of the link `handle`, or the error of why there is none.
pub open spec fn post_id_or_error(handle: Seq<char>) -> Result<Seq<char>, BotError> {
    match post_id_of(handle) {
        Ok(id) => Ok(id),
        Err(_) => Err(BotError::InvalidUrl),
    }
}

/// The request to the scraping service at `base` for the post `post_id`.
pub open spec fn scraper_link_text(base: Seq<char>, post_id: Seq<char>) -> Seq<char> {
    base + post_id
}

/// The file name of a media at the link `link`: the last `/` piece of the
/// link up to its first `.`, when it has one.
pub open spec fn media_id_of(link: Seq<char>) -> Option<Seq<char>> {
    let file = after_last(link, '/');
    if split_by(file, '.').len() > 1 {
        Some(before_first(file, '.'))
    } else {
        None
    }
}

/// The media of kind `kind` at the member `key` of `item`, or the message
/// of why there is none.
pub open spec fn linked_media_text(kind: MediaKind, item: Json, key: Seq<char>) -> Result<
    (MediaKind, UrlView, Seq<char>),
    Seq<char>,
> {
    match field_text(item, key) {
        None => Err(missing_field_text(key)),
        Some(link) => match parsed_url(link) {
            Err(e) => Err("invalid url: "@ + e),
            Ok(u) => match media_id_of(u.serialization) {
                None => Err("invalid URL format: "@ + u.serialization),
                Some(id) => Ok((kind, u, id)),
            },
        },
    }
}

/// The media described by an item of the service's `media` list: an
/// `image` at its `url`, a `video` at its `videoUrl`; or the message of why
/// there is none.
pub open spec fn item_media_text(item: Json) -> Result<(MediaKind, UrlView, Seq<char>), Seq<char>> {
    match field_text(item, "type"@) {
        None => Err(missing_field_text("type"@)),
        Some(t) => if t == "image"@ {
            linked_media_text(MediaKind::Image, item, "url"@)
        } else if t == "video"@ {
            linked_media_text(MediaKind::Video, item, "videoUrl"@)
        } else {
            Err("unknown media type: "@ + t)
        },
    }
}

/// The media of kind `kind` at the member `key` of `item`, or the error of
/// why there is none.
pub open spec fn linked_media_bot(kind: MediaKind, item: Json, key: Seq<char>) -> Result<
    (MediaKind, UrlView, Seq<char>),
    BotError,
> {
    match field_text(item, key) {
        None => Err(BotError::InvalidScraperResponse),
        Some(link) => match parsed_url(link) {
            Err(_) => Err(BotError::InvalidUrl),
            Ok(u) => match media_id_of(u.serialization) {
                None => Err(BotError::InvalidUrl),
                Some(id) => Ok((kind, u, id)),
            },
        },
    }
}

/// The media described by an item of the service's `media` list: an
/// `image` or `photo` at its `url`, a `video` at its `videoUrl`; or the
/// error of why there is none.
pub open spec fn item_media_bot(item: Json) -> Result<(MediaKind, UrlView, Seq<char>), BotError> {
    match field_text(item, "type"@) {
        None => Err(BotError::InvalidScraperResponse),
        Some(t) => if t == "image"@ || t == "photo"@ {
            linked_media_bot(MediaKind::Image, item, "url"@)
        } else if t == "video"@ {
            linked_media_bot(MediaKind::Video, item, "videoUrl"@)
        } else {
            Err(BotError::InvalidScraperResponse)
        },
    }
}

/// Why no JSON answer came from the scraping service; each holds the
/// message of the underlying error.
pub enum FetchError {
    /// The request failed.
    Request(String),
    /// The answer is no JSON.
    Decode(String),
}

/// The items of the `data.media` list of the service's answer, or the
/// message of why there are none.
pub open spec fn answer_items_text(answer: Result<Json, FetchError>) -> Result<Seq<Json>, Seq<char>> {
    match answer {
        Err(FetchError::Request(t)) => Err(custom_text(t@)),
        Err(FetchError::Decode(t)) => Err(invalid_response_text(t@)),
        Ok(j) => match j.field("data"@) {
            None => Err(missing_field_text("data"@)),
            Some(data) => match data.field("media"@) {
                None => Err(missing_field_text("media"@)),
                Some(media) => match media.items() {
                    None => Err(invalid_field_text("media"@)),
                    Some(items) => Ok(items),
                },
            },
        },
    }
}

/// The items of the `data.media` list of the service's answer (`None`: no
/// answer, or one that is no JSON), or the error of why there are none.
pub open spec fn answer_items_bot(response: Option<Json>) -> Result<Seq<Json>, BotError> {
    match response {
        None => Err(BotError::Other),
        Some(j) => match j.field("data"@) {
            None => Err(BotError::InvalidScraperResponse),
            Some(data) => match data.field("media"@) {
                None => Err(BotError::InvalidScraperResponse),
                Some(media) => match media.items() {
                    None => Err(BotError::InvalidScraperResponse),
                    Some(items) => Ok(items),
                },
            },
        },
    }
}

/// Whether `r` is the media (or the message) `expected` describes.
pub open spec fn text_result_is(
    r: Result<MediaMetadata, String>,
    expected: Result<(MediaKind, UrlView, Seq<char>), Seq<char>>,
) -> bool {
    match (r, expected) {
        (Ok(m), Ok(parts)) => media_parts(m) == parts,
        (Err(t), Err(msg)) => t@ == msg,
        _ => false,
    }
}

/// Whether `r` is the media (or the error) `expected` describes.
pub open spec fn bot_result_is(
    r: BotResult<MediaMetadata>,
    expected: Result<(MediaKind, UrlView, Seq<char>), BotError>,
) -> bool {
    match (r, expected) {
        (Ok(m), Ok(parts)) => media_parts(m) == parts,
        (Err(e), Err(f)) => e == f,
        _ => false,
    }
}

/// Whether `res` holds, item for item, the media of `items`.
pub open spec fn text_results_match(res: Seq<Result<MediaMetadata, String>>, items: Seq<Json>) -> bool {
    &&& res.len() == items.len()
    &&& forall|i: int| 0 <= i < items.len() ==> text_result_is(#[trigger] res[i], item_media_text(items[i]))
}

/// Whether `res` holds, item for item, the media of `items`.
pub open spec fn bot_results_match(res: Seq<BotResult<MediaMetadata>>, items: Seq<Json>) -> bool {
    &&& res.len() == items.len()
    &&& forall|i: int| 0 <= i < items.len() ==> bot_result_is(#[trigger] res[i], item_media_bot(items[i]))
}

/// The file name of the media at `url`.
fn media_id(url: &Url) -> (res: Option<String>)
    ensures
        match res {
            Some(id) => media_id_of(url@.serialization) == Some(id@),
            None => media_id_of(url@.serialization) is None,
        },
{
    let link = chars_of(url.as_str());
    let parts = split_chars(&link, '/');
    proof {
        lemma_split_by_len(link@, '/');
    }
    let file = &parts[parts.len() - 1];
    let pieces = split_chars(file, '.');
    proof {
        lemma_split_by_len(file@, '.');
    }
    if pieces.len() > 1 {
        Some(string_of(&pieces[0]))
    } else {
        None
    }
}

/// The text of the member `key` of `item`, when it is a string.
fn field_str<'a>(item: &'a Json, key: &str) -> (res: Option<&'a str>)
    ensures
        match res {
            Some(s) => field_text(*item, key@) == Some(s@),
            None => field_text(*item, key@) is None,
        },
{
    match item.get(key) {
        Some(v) => v.as_str(),
        None => None,
    }
}

impl TwitterMediaMetadata {
    /// The media of kind `kind` at the member `key` of `item`.
    fn linked_text(kind: MediaKind, item: &Json, key: &str) -> (res: Result<Self, String>)
        ensures
            text_result_is(
                match res {
                    Ok(m) => Ok(MediaMetadata::Twitter(m)),
                    Err(t) => Err(t),
                },
                linked_media_text(kind, *item, key@),
            ),
    {
        let link = match field_str(item, key) {
            Some(l) => l,
            None => return Err(missing_field(key)),
        };
        let url = match Url::parse(link) {
            Ok(u) => u,
            Err(e) => return Err(String::from_str("invalid url: ").concat(e.as_str())),
        };
        match media_id(&url) {
            Some(id) => Ok(TwitterMediaMetadata { url, id, kind }),
            None => Err(String::from_str("invalid URL format: ").concat(url.as_str())),
        }
    }

    /// The media described by an item of the service's `media` list, or the
    /// message of why there is none.
    pub fn from_json_item(item: &Json) -> (res: Result<Self, String>)
        ensures
            text_result_is(
                match res {
                    Ok(m) => Ok(MediaMetadata::Twitter(m)),
                    Err(t) => Err(t),
                },
                item_media_text(*item),
            ),
    {
        let type_ = match field_str(item, "type") {
            Some(t) => t,
            None => return Err(missing_field("type")),
        };
        let tc = chars_of(type_);
        if chars_eq_str(&tc, "image") {
            Self::linked_text(MediaKind::Image, item, "url")
        } else if chars_eq_str(&tc, "video") {
            Self::linked_text(MediaKind::Video, item, "videoUrl")
        } else {
            Err(String::from_str("unknown media type: ").concat(type_))
        }
    }

    /// The media of kind `kind` at the member `key` of `item`.
    fn linked_bot(kind: MediaKind, item: &Json, key: &str) -> (res: BotResult<Self>)
        ensures
            bot_result_is(
                match res {
                    Ok(m) => Ok(MediaMetadata::Twitter(m)),
                    Err(e) => Err(e),
                },
                linked_media_bot(kind, *item, key@),
            ),
    {
        let link = match field_str(item, key) {
            Some(l) => l,
            None => return Err(BotError::InvalidScraperResponse),
        };
        let url = match Url::parse(link) {
            Ok(u) => u,
            Err(_) => return Err(BotError::InvalidUrl),
        };
        match media_id(&url) {
            Some(id) => Ok(TwitterMediaMetadata { url, id, kind }),
            None => Err(BotError::InvalidUrl),
        }
    }

    /// The media described by an item of the service's `media` list, or the
    /// error of why there is none.
    pub fn try_from_json(item: &Json) -> (res: BotResult<Self>)
        ensures
            bot_result_is(
                match res {
                    Ok(m) => Ok(MediaMetadata::Twitter(m)),
                    Err(e) => Err(e),
                },
                item_media_bot(*item),
            ),
    {
        let type_ = match field_str(item, "type") {
            Some(t) => chars_of(t),
            None => return Err(BotError::InvalidScraperResponse),
        };
        if chars_eq_str(&type_, "image") || chars_eq_str(&type_, "photo") {
            Self::linked_bot(MediaKind::Image, item, "url")
        } else if chars_eq_str(&type_, "video") {
            Self::linked_bot(MediaKind::Video, item, "videoUrl")
        } else {
            Err(BotError::InvalidScraperResponse)
        }
    }
}

/// The X (Twitter) scraper of the service layer.
pub struct Twitter;

impl Twitter {
    /// The post id of the link `handle`, or the message of why there is
    /// none.
    pub fn post_id_from_url(handle: &str) -> (res: Result<String, String>)
        ensures
            match post_id_of(handle@) {
                Ok(id) => res matches Ok(r) && r@ == id,
                Err(msg) => res matches Err(t) && t@ == msg,
            },
    {
        let h = chars_of(handle);
        let extract = splitn_chars(&h, 6, '/');
        proof {
            lemma_split_n_len(h@, 6, '/');
        }
        if extract.len() < 6 {
            return Err(custom(invalid_url("Invalid domain expect more segment in the url").as_str()));
        }
        if !(chars_eq_str(&extract[2], "x.com") || chars_eq_str(&extract[2], "twitter.com")) {
            return Err(custom(invalid_url("Invalid domain").as_str()));
        }
        let mid = split_chars(&extract[5], '?');
        proof {
            lemma_split_by_len(extract@[5]@, '?');
        }
        Ok(string_of(&mid[0]))
    }

    /// The post id of the link `handle`, or `InvalidUrl`.
    pub fn parse_post_id_from_url(handle: &str) -> (res: BotResult<String>)
        ensures
            match post_id_or_error(handle@) {
                Ok(id) => res matches Ok(r) && r@ == id,
                Err(e) => res == Err::<String, BotError>(e),
            },
    {
        match Self::post_id_from_url(handle) {
            Ok(id) => Ok(id),
            Err(_) => Err(BotError::InvalidUrl),
        }
    }

    /// The request to the scraping service at `base` for the post
    /// `post_id`.
    pub fn scraper_link(base: &str, post_id: &str) -> (res: String)
        ensures
            res@ == scraper_link_text(base@, post_id@),
    {
        String::from_str(base).concat(post_id)
    }

    /// The request to the scraping service at `base` for the post
    /// `post_id`, as a URL; `InvalidLink` when it does not parse.
    pub fn scraper_url(base: &str, post_id: &str) -> (res: BotResult<Url>)
        ensures
            match parsed_url(scraper_link_text(base@, post_id@)) {
                Ok(u) => res matches Ok(r) && r@ == u,
                Err(_) => res == Err::<Url, BotError>(BotError::InvalidLink),
            },
    {
        let link = Self::scraper_link(base, post_id);
        match Url::parse(link.as_str()) {
            Ok(u) => Ok(u),
            Err(_) => Err(BotError::InvalidLink),
        }
    }

    /// The request to the scraping service at `base` for the post at the
    /// link `handle`: the post id is the last segment of its path.
    pub fn request_for(handle: &Url, base: &str) -> (res: BotResult<Url>)
        ensures
            match path_segments_of(handle@.path) {
                None => res == Err::<Url, BotError>(BotError::InvalidUrl),
                Some(segs) => match parsed_url(scraper_link_text(base@, segs.last())) {
                    Ok(u) => res matches Ok(r) && r@ == u,
                    Err(_) => res == Err::<Url, BotError>(BotError::InvalidLink),
                },
            },
    {
        let segments = match handle.path_segments() {
            Some(s) => s,
            None => return Err(BotError::InvalidUrl),
        };
        proof {
            lemma_split_by_len(handle@.path.drop_first(), '/');
        }
        let post_id = string_of(&segments[segments.len() - 1]);
        Self::scraper_url(base, post_id.as_str())
    }

    /// The media of the service's answer, or the message of why there are
    /// none.
    pub fn scrape_medias_inner(answer: Result<Json, FetchError>) -> (res: Result<
        Vec<Result<MediaMetadata, String>>,
        String,
    >)
        ensures
            match answer_items_text(answer) {
                Err(msg) => res matches Err(t) && t@ == msg,
                Ok(items) => res matches Ok(v) && text_results_match(v@, items),
            },
    {
        let json = match answer {
            Ok(j) => j,
            Err(FetchError::Request(t)) => return Err(custom(t.as_str())),
            Err(FetchError::Decode(t)) => return Err(invalid_response(t.as_str())),
        };
        let data = match json.get("data") {
            Some(d) => d,
            None => return Err(missing_field("data")),
        };
        let media = match data.get("media") {
            Some(m) => m,
            None => return Err(missing_field("media")),
        };
        let items = match media.as_array() {
            Some(items) => items,
            None => return Err(invalid_field("media")),
        };
        let mut medias: Vec<Result<MediaMetadata, String>> = Vec::new();
        let n = items.len();
        for i in 0..n
            invariant
                n == items@.len(),
                medias@.len() == i,
                forall|j: int|
                    0 <= j < i ==> text_result_is(#[trigger] medias@[j], item_media_text(items@[j])),
        {
            let r = match TwitterMediaMetadata::from_json_item(&items[i]) {
                Ok(m) => Ok(MediaMetadata::from(m)),
                Err(t) => Err(t),
            };
            medias.push(r);
        }
        Ok(medias)
    }

    /// The media of the service's answer (`None`: no answer, or one that is
    /// no JSON), or the error of why there are none; an answer that lists
    /// none is refused with `NoMediaFound`.
    pub fn medias_from_response(response: Option<Json>) -> (res: BotResult<
        Vec<BotResult<MediaMetadata>>,
    >)
        ensures
            match answer_items_bot(response) {
                Err(e) => res matches Err(f) && f == e,
                Ok(items) => if items.len() == 0 {
                    res matches Err(f) && f == BotError::NoMediaFound
                } else {
                    res matches Ok(v) && bot_results_match(v@, items)
                },
            },
    {
        let json = match response {
            Some(j) => j,
            None => return Err(BotError::Other),
        };
        let data = match json.get("data") {
            Some(d) => d,
            None => return Err(BotError::InvalidScraperResponse),
        };
        let media = match data.get("media") {
            Some(m) => m,
            None => return Err(BotError::InvalidScraperResponse),
        };
        let items = match media.as_array() {
            Some(items) => items,
            None => return Err(BotError::InvalidScraperResponse),
        };
        let mut medias: Vec<BotResult<MediaMetadata>> = Vec::new();
        let n = items.len();
        for i in 0..n
            invariant
                n == items@.len(),
                medias@.len() == i,
                forall|j: int|
                    0 <= j < i ==> bot_result_is(#[trigger] medias@[j], item_media_bot(items@[j])),
        {
            let r = match TwitterMediaMetadata::try_from_json(&items[i]) {
                Ok(m) => Ok(MediaMetadata::Twitter(m)),
                Err(e) => Err(e),
            };
            medias.push(r);
        }
        if medias.len() == 0 {
            return Err(BotError::NoMediaFound);
        }
        Ok(medias)
    }
}

/// The `video`, `image` and `photo` type names are distinct.
proof fn lemma_type_names_differ()
    ensures
        "video"@ != "image"@,
        "video"@ != "photo"@,
        "image"@ != "photo"@,
{
    reveal_strlit("video");
    reveal_strlit("image");
    reveal_strlit("photo");
    assert("video"@[0] != "image"@[0]);
    assert("video"@[0] != "photo"@[0]);
    assert("image"@[0] != "photo"@[0]);
}

/// For the services bot, an `image` or `photo` item whose `url` parses to a
/// link with a file name is an image at that link, named by its file name;
/// both type names give the same media.
pub proof fn lemma_bot_image_item(item: Json, t: Seq<char>, link: Seq<char>, u: UrlView)
    requires
        field_text(item, "type"@) == Some(t),
        t == "image"@ || t == "photo"@,
        field_text(item, "url"@) == Some(link),
        parsed_url(link) == Ok::<UrlView, Seq<char>>(u),
        split_by(after_last(u.serialization, '/'), '.').len() > 1,
    ensures
        item_media_bot(item) == Ok::<(MediaKind, UrlView, Seq<char>), BotError>(
            (MediaKind::Image, u, before_first(after_last(u.serialization, '/'), '.')),
        ),
{
}

/// For the services bot, a `video` item whose `videoUrl` parses to a link
/// with a file name is a video at exactly that link, named by its file
/// name; the item's `url` plays no part.
pub proof fn lemma_bot_video_item(item: Json, link: Seq<char>, u: UrlView)
    requires
        field_text(item, "type"@) == Some("video"@),
        field_text(item, "videoUrl"@) == Some(link),
        parsed_url(link) == Ok::<UrlView, Seq<char>>(u),
        split_by(after_last(u.serialization, '/'), '.').len() > 1,
    ensures
        item_media_bot(item) == Ok::<(MediaKind, UrlView, Seq<char>), BotError>(
            (MediaKind::Video, u, before_first(after_last(u.serialization, '/'), '.')),
        ),
{
    lemma_type_names_differ();
}

/// For the download bot, an `image` item whose `url` parses to a link with a
/// file name is an image at that link, named by its file name.
pub proof fn lemma_text_image_item(item: Json, link: Seq<char>, u: UrlView)
    requires
        field_text(item, "type"@) == Some("image"@),
        field_text(item, "url"@) == Some(link),
        parsed_url(link) == Ok::<UrlView, Seq<char>>(u),
        split_by(after_last(u.serialization, '/'), '.').len() > 1,
    ensures
        item_media_text(item) == Ok::<(MediaKind, UrlView, Seq<char>), Seq<char>>(
            (MediaKind::Image, u, before_first(after_last(u.serialization, '/'), '.')),
        ),
{
}

/// For the download bot, a `video` item whose `videoUrl` parses to a link
/// with a file name is a video at exactly that link, named by its file
/// name; the item's `url` plays no part.
pub proof fn lemma_text_video_item(item: Json, link: Seq<char>, u: UrlView)
    requires
        field_text(item, "type"@) == Some("video"@),
        field_text(item, "videoUrl"@) == Some(link),
        parsed_url(link) == Ok::<UrlView, Seq<char>>(u),
        split_by(after_last(u.serialization, '/'), '.').len() > 1,
    ensures
        item_media_text(item) == Ok::<(MediaKind, UrlView, Seq<char>), Seq<char>>(
            (MediaKind::Video, u, before_first(after_last(u.serialization, '/'), '.')),
        ),
{
    lemma_type_names_differ();
}

/// The post id that the service layer reads from a link is the one the
/// link handler reads; a refusal carries the handler's message after
/// `invalid url: `, and `parse_post_id_from_url` refuses exactly those links.
pub proof fn lemma_post_id_readers_agree(handle: Seq<char>)
    ensures
        match (post_id_of(handle), crate::links::x::x_post_id_of(handle)) {
            (Ok(a), Ok(b)) => a == b,
            (Err(m), Err(n)) => m == invalid_url_text(n),
            _ => false,
        },
        post_id_or_error(handle) is Err <==> post_id_of(handle) is Err,
{
}

/// The post id of a post link `<scheme>//<domain>/<user>/<status>/<rest>`
/// on `x.com` or `twitter.com` is `<rest>` up to its first `?`: the query
/// of the link is never part of it.
pub proof fn lemma_service_post_link_id(
    scheme: Seq<char>,
    domain: Seq<char>,
    user: Seq<char>,
    status: Seq<char>,
    rest: Seq<char>,
)
    requires
        !scheme.contains('/'),
        !domain.contains('/'),
        !user.contains('/'),
        !status.contains('/'),
        domain == "x.com"@ || domain == "twitter.com"@,
    ensures
        post_id_of(
            scheme + seq!['/', '/'] + domain + seq!['/'] + user + seq!['/'] + status + seq!['/'] + rest,
        ) == Ok::<Seq<char>, Seq<char>>(before_first(rest, '?')),
{
    crate::links::x::lemma_post_link_id(scheme, domain, user, status, rest);
    lemma_post_id_readers_agree(
        scheme + seq!['/', '/'] + domain + seq!['/'] + user + seq!['/'] + status + seq!['/'] + rest,
    );
}

} // verus!
