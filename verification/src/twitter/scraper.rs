//! The X (Twitter) scraper: it finds the post id in a link, asks the
//! scraping service for the post's media, and reads the media from the
//! service's JSON answer.
use vstd::prelude::*;

use crate::common::{media_result_is, BotResult, Error, MediaKind, MediaMetadata};
use crate::json::{json_text_of, Json};
use crate::text::{
    after_last, chars_of, lemma_split_by_concat, lemma_split_by_len, lemma_split_by_no_sep, string_of,
};
use crate::twitter::config::TWITTER_SCRAPER_LINK;
use crate::url::{parsed_url, path_segments_of, Url, UrlView};

verus! {

/// The request to the scraping service for the post `post_id`.
pub open spec fn media_link_text(post_id: Seq<char>) -> Seq<char> {
    TWITTER_SCRAPER_LINK@ + post_id
}

/// The request for the media of the post at the link `arg`: the post id is
/// the last segment of the link's path.
pub open spec fn request_url_of(arg: Seq<char>) -> Result<UrlView, Error> {
    match parsed_url(arg) {
        Err(_) => Err(Error::InvalidUrl),
        Ok(u) => match path_segments_of(u.path) {
            None => Err(Error::InvalidUrl),
            Some(segs) => match parsed_url(media_link_text(segs.last())) {
                Ok(link) => Ok(link),
                Err(_) => Err(Error::InvalidLink),
            },
        },
    }
}

/// The text of the member `key` of `v`, when it is a string.
pub open spec fn field_text(v: Json, key: Seq<char>) -> Option<Seq<char>> {
    match v.field(key) {
        Some(f) => f.text(),
        None => None,
    }
}

/// A media of kind `kind` at the link `link` (a link that must be there and
/// parse).
pub open spec fn linked_media(kind: MediaKind, link: Option<Seq<char>>) -> Result<
    (MediaKind, UrlView),
    Error,
> {
    match link {
        None => Err(Error::InvalidScraperResponse),
        Some(l) => match parsed_url(l) {
            Ok(u) => Ok((kind, u)),
            Err(_) => Err(Error::InvalidScraperResponse),
        },
    }
}

/// The media described by one item of the service's `media` list: an
/// `image` or `photo` at its `url`, a `video` at its `videoUrl`.
pub open spec fn media_of_item(item: Json) -> Result<(MediaKind, UrlView), Error> {
    match field_text(item, "type"@) {
        None => Err(Error::InvalidScraperResponse),
        Some(t) => if t == "image"@ || t == "photo"@ {
            linked_media(MediaKind::Image, field_text(item, "url"@))
        } else if t == "video"@ {
            linked_media(MediaKind::Video, field_text(item, "videoUrl"@))
        } else {
            Err(Error::FileTypeNotSupported)
        },
    }
}

/// What the service's answer holds.
pub ghost enum ScraperAnswer {
    /// The service reported a failure with this message.
    Failed(Seq<char>),
    /// The answer is refused with this error.
    Refused(Error),
    /// The items of the `media` list.
    Items(Seq<Json>),
}

/// What the service's answer `response` holds (`None`: no answer, or one
/// that is no JSON). An answer with `"success": false` is a failure whose
/// message is the JSON text of its `error` member; otherwise the media are
/// the items of `data.media`.
pub open spec fn answer_of(response: Option<Json>) -> ScraperAnswer {
    match response {
        None => ScraperAnswer::Refused(Error::Unknown),
        Some(j) => if j.field("success"@) matches Some(s) && s.flag() == Some(false) {
            ScraperAnswer::Failed(
                match j.field("error"@) {
                    Some(e) => json_text_of(e),
                    None => Error::Unknown.message_text(),
                },
            )
        } else {
            match j.field("data"@) {
                None => ScraperAnswer::Refused(Error::InvalidScraperResponse),
                Some(data) => match data.field("media"@) {
                    None => ScraperAnswer::Refused(Error::InvalidScraperResponse),
                    Some(media) => match media.items() {
                        None => ScraperAnswer::Refused(Error::InvalidScraperResponse),
                        Some(items) => ScraperAnswer::Items(items),
                    },
                },
            }
        },
    }
}

/// Whether `res` is what the scraper answers for `items`: one result per
/// item, each the media the item describes.
pub open spec fn results_match_items(res: Seq<BotResult<MediaMetadata>>, items: Seq<Json>) -> bool {
    &&& res.len() == items.len()
    &&& forall|i: int| 0 <= i < items.len() ==> media_result_is(#[trigger] res[i], media_of_item(items[i]))
}

/// Scraper of the media of X (Twitter) posts.
pub struct TwitterScraper;

impl TwitterScraper {
    /// The request to the scraping service for the post `post_id`.
    pub fn media_link(post_id: &str) -> (res: BotResult<Url>)
        ensures
            match res {
                Ok(u) => parsed_url(media_link_text(post_id@)) == Ok::<UrlView, Seq<char>>(u@),
                Err(e) => parsed_url(media_link_text(post_id@)) is Err && e == Error::InvalidLink,
            },
    {
        let link = String::from_str(TWITTER_SCRAPER_LINK).concat(post_id);
        match Url::parse(link.as_str()) {
            Ok(u) => Ok(u),
            Err(_) => Err(Error::InvalidLink),
        }
    }

    /// The request for the media of the post at the link `arg`.
    pub fn request_url(arg: &str) -> (res: BotResult<Url>)
        ensures
            match res {
                Ok(u) => request_url_of(arg@) == Ok::<UrlView, Error>(u@),
                Err(e) => request_url_of(arg@) == Err::<UrlView, Error>(e),
            },
    {
        let url = match Url::parse(arg) {
            Ok(u) => u,
            Err(_) => return Err(Error::InvalidUrl),
        };
        let segments = match url.path_segments() {
            Some(s) => s,
            None => return Err(Error::InvalidUrl),
        };
        proof {
            lemma_split_by_len(url@.path.drop_first(), '/');
        }
        let post_id = string_of(&segments[segments.len() - 1]);
        Self::media_link(post_id.as_str())
    }

    /// The text of the member `key` of `item`, when it is a string.
    fn field_str<'a>(item: &'a Json, key: &str) -> (res: Option<&'a str>)
        ensures
            match res {
                Some(s) => field_text(*item, key@) == Some(s@),
                None => field_text(*item, key@) is None,
            },
    {
        match item.get(key) {
            Some(v) => v.as_str(),
            None => None,
        }
    }

    /// The media at `link`, of kind `kind`.
    fn linked_media(kind: MediaKind, link: Option<&str>) -> (res: BotResult<MediaMetadata>)
        ensures
            media_result_is(
                res,
                linked_media(
                    kind,
                    match link {
                        Some(l) => Some(l@),
                        None => None,
                    },
                ),
            ),
    {
        let link = match link {
            Some(l) => l,
            None => return Err(Error::InvalidScraperResponse),
        };
        match Url::parse(link) {
            Ok(u) => Ok(MediaMetadata::new(kind, u)),
            Err(_) => Err(Error::InvalidScraperResponse),
        }
    }

    /// The media described by one item of the service's `media` list.
    pub fn parse_metadata(item: &Json) -> (res: BotResult<MediaMetadata>)
        ensures
            media_result_is(res, media_of_item(*item)),
    {
        let type_ = match Self::field_str(item, "type") {
            Some(t) => chars_of(t),
            None => return Err(Error::InvalidScraperResponse),
        };
        if crate::text::chars_eq_str(&type_, "image") || crate::text::chars_eq_str(&type_, "photo") {
            Self::linked_media(MediaKind::Image, Self::field_str(item, "url"))
        } else if crate::text::chars_eq_str(&type_, "video") {
            Self::linked_media(MediaKind::Video, Self::field_str(item, "videoUrl"))
        } else {
            Err(Error::FileTypeNotSupported)
        }
    }

    /// The media of each item of `items`, in order.
    pub fn parse_items(items: &Vec<Json>) -> (res: Vec<BotResult<MediaMetadata>>)
        ensures
            results_match_items(res@, items@),
    {
        let mut res: Vec<BotResult<MediaMetadata>> = Vec::new();
        let n = items.len();
        for i in 0..n
            invariant
                n == items@.len(),
                res@.len() == i,
                forall|j: int| 0 <= j < i ==> media_result_is(#[trigger] res@[j], media_of_item(items@[j])),
        {
            res.push(Self::parse_metadata(&items[i]));
        }
        res
    }

    /// The media listed by the service's answer `response` (`None` when no
    /// answer came or it was no JSON): one result per item of `data.media`,
    /// in order, an item that is refused giving an error in its place.
    pub fn scrape_medias_inner(response: Option<Json>) -> (res: BotResult<Vec<BotResult<MediaMetadata>>>)
        ensures
            match answer_of(response) {
                ScraperAnswer::Failed(msg) => res matches Err(Error::Custom(m)) && m@ == msg,
                ScraperAnswer::Refused(e) => res matches Err(f) && f == e,
                ScraperAnswer::Items(items) => res matches Ok(v) && results_match_items(v@, items),
            },
    {
        let json = match response {
            Some(j) => j,
            None => return Err(Error::Unknown),
        };
        let failed = match json.get("success") {
            Some(s) => match s.as_bool() {
                Some(b) => !b,
                None => false,
            },
            None => false,
        };
        if failed {
            let error_msg = match json.get("error") {
                Some(e) => e.to_text(),
                None => Error::Unknown.to_string(),
            };
            return Err(Error::Custom(error_msg));
        }
        let data = match json.get("data") {
            Some(d) => d,
            None => return Err(Error::InvalidScraperResponse),
        };
        let media = match data.get("media") {
            Some(m) => m,
            None => return Err(Error::InvalidScraperResponse),
        };
        let items = match media.as_array() {
            Some(items) => items,
            None => return Err(Error::InvalidScraperResponse),
        };
        Ok(Self::parse_items(items))
    }

    /// The media listed by the service's answer `response` (`None` when no
    /// answer came or it was no JSON); an answer that lists none is refused
    /// with `NoMediaFound`.
    pub fn medias_from_response(response: Option<Json>) -> (res: BotResult<Vec<BotResult<MediaMetadata>>>)
        ensures
            match answer_of(response) {
                ScraperAnswer::Failed(msg) => res matches Err(Error::Custom(m)) && m@ == msg,
                ScraperAnswer::Refused(e) => res matches Err(f) && f == e,
                ScraperAnswer::Items(items) => if items.len() == 0 {
                    res matches Err(f) && f == Error::NoMediaFound
                } else {
                    res matches Ok(v) && results_match_items(v@, items)
                },
            },
    {
        let medias = Self::scrape_medias_inner(response)?;
        if medias.len() == 0 {
            return Err(Error::NoMediaFound);
        }
        Ok(medias)
    }
}

/// A `video` item whose `videoUrl` parses is a video at exactly that link,
/// whatever else the item holds: its `url` (the thumbnail) plays no part.
pub proof fn lemma_video_item_is_its_video_url(item: Json, link: Seq<char>, u: UrlView)
    requires
        field_text(item, "type"@) == Some("video"@),
        field_text(item, "videoUrl"@) == Some(link),
        parsed_url(link) == Ok::<UrlView, Seq<char>>(u),
    ensures
        media_of_item(item) == Ok::<(MediaKind, UrlView), Error>((MediaKind::Video, u)),
{
    reveal_strlit("video");
    reveal_strlit("image");
    reveal_strlit("photo");
    assert("video"@ != "image"@) by {
        assert("video"@[0] != "image"@[0]);
    }
    assert("video"@ != "photo"@) by {
        assert("video"@[0] != "photo"@[0]);
    }
}

/// An `image` or `photo` item whose `url` parses is an image at exactly that
/// link; both type names give the same media.
pub proof fn lemma_image_item_is_its_url(item: Json, t: Seq<char>, link: Seq<char>, u: UrlView)
    requires
        field_text(item, "type"@) == Some(t),
        t == "image"@ || t == "photo"@,
        field_text(item, "url"@) == Some(link),
        parsed_url(link) == Ok::<UrlView, Seq<char>>(u),
    ensures
        media_of_item(item) == Ok::<(MediaKind, UrlView), Error>((MediaKind::Image, u)),
{
}

/// The request for a link is the service's request for the last segment of
/// the link's path, whatever query or fragment the link has.
pub proof fn lemma_request_is_for_last_path_segment(arg: Seq<char>, u: UrlView)
    requires
        parsed_url(arg) == Ok::<UrlView, Seq<char>>(u),
        u.path.len() > 0,
        u.path[0] == '/',
    ensures
        request_url_of(arg) == match parsed_url(TWITTER_SCRAPER_LINK@ + after_last(u.path, '/')) {
            Ok(link) => Ok::<UrlView, Error>(link),
            Err(_) => Err(Error::InvalidLink),
        },
{
    let rest = u.path.drop_first();
    assert(u.path =~= Seq::<char>::empty() + seq!['/'] + rest);
    lemma_split_by_concat(Seq::<char>::empty(), rest, '/');
    lemma_split_by_len(rest, '/');
}

/// For a post link `https://<host>/<user>/status/<id>`, with any query or
/// fragment, the request is the service's request for `<id>` alone.
pub proof fn lemma_request_is_for_post_id(
    arg: Seq<char>,
    u: UrlView,
    user: Seq<char>,
    id: Seq<char>,
)
    requires
        parsed_url(arg) == Ok::<UrlView, Seq<char>>(u),
        u.path == seq!['/'] + user + seq!['/'] + "status"@ + seq!['/'] + id,
        !id.contains('/'),
    ensures
        request_url_of(arg) == match parsed_url(TWITTER_SCRAPER_LINK@ + id) {
            Ok(link) => Ok::<UrlView, Error>(link),
            Err(_) => Err(Error::InvalidLink),
        },
{
    let front = seq!['/'] + user + seq!['/'] + "status"@;
    assert(u.path =~= front + seq!['/'] + id);
    lemma_split_by_concat(front, id, '/');
    lemma_split_by_no_sep(id, '/');
    lemma_split_by_len(front, '/');
    assert(after_last(u.path, '/') == id);
    lemma_request_is_for_last_path_segment(arg, u);
}

/// An item of any type other than `image`, `photo` and `video` is refused
/// as a media format that is not supported.
pub proof fn lemma_other_type_not_supported(item: Json, t: Seq<char>)
    requires
        field_text(item, "type"@) == Some(t),
        t != "image"@,
        t != "photo"@,
        t != "video"@,
    ensures
        media_of_item(item) == Err::<(MediaKind, UrlView), Error>(Error::FileTypeNotSupported),
{
}

/// An answer that does not say `"success": false` and whose `data.media` is
/// a list gives exactly the items of that list, in order.
pub proof fn lemma_answer_items_are_the_media_list(json: Json, data: Json, items: Vec<Json>)
    requires
        json.field("success"@) != Some(Json::Bool(false)),
        json.field("data"@) == Some(data),
        data.field("media"@) == Some(Json::Array(items)),
    ensures
        answer_of(Some(json)) == ScraperAnswer::Items(items@),
{
}

/// An answer that says `"success": false` is a failure, whatever else it
/// holds; its message is the JSON text of its `error` member.
pub proof fn lemma_failed_answer_is_failure(json: Json, error: Json)
    requires
        json.field("success"@) == Some(Json::Bool(false)),
        json.field("error"@) == Some(error),
    ensures
        answer_of(Some(json)) == ScraperAnswer::Failed(json_text_of(error)),
{
}

} // verus!
