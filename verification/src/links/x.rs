//! X (Twitter) links: the post id of a link and the media of the scraping
//! service's answer.
use vstd::prelude::*;

use crate::json::{parse_json, parsed_json, Json};
use crate::text::{
    lemma_split_n_first_piece, lemma_split_n_one,
    after_last, before_first, chars_eq_str, chars_of, lemma_split_by_len, lemma_split_n_len,
    split_by, split_chars, split_n, splitn_chars, string_of,
};
use crate::twitter::scraper::field_text;

verus! {

/// What a media is.
#[derive(Debug, Clone, Copy, PartialEq, Eq, Structural)]
pub enum Which {
    Video,
    Img,
    Txt,
    Other,
}

impl Default for Which {
    fn default() -> (res: Self)
        ensures
            res == Which::Video,
    {
        Which::Video
    }
}

/// What `context` makes of a media of kind `which`: `video`, `img` and
/// `text` set the kind, anything else keeps it.
pub open spec fn which_for(context: Seq<char>, which: Which) -> Which {
    if context == "video"@ {
        Which::Video
    } else if context == "img"@ {
        Which::Img
    } else if context == "text"@ {
        Which::Txt
    } else {
        which
    }
}

/// The kind set by `context`, or `which` when `context` sets none.
pub fn which_from_context(context: &str, which: Which) -> (res: Which)
    ensures
        res == which_for(context@, which),
{
    let c = chars_of(context);
    if chars_eq_str(&c, "video") {
        Which::Video
    } else if chars_eq_str(&c, "img") {
        Which::Img
    } else if chars_eq_str(&c, "text") {
        Which::Txt
    } else {
        which
    }
}

/// A media of an X post.
pub struct X {
    pub which: Which,
    pub id: String,
    pub url: String,
}

/// The kind, link and file name of a media.
pub open spec fn x_view(x: X) -> (Which, Seq<char>, Seq<char>) {
    (x.which, x.url@, x.id@)
}

impl X {
    /// The media with the kind set by `context`, the link `url` and the
    /// file name `id`.
    pub fn new(self, context: &str, url: String, id: String) -> (res: X)
        ensures
            res.which == which_for(context@, self.which),
            res.url == url,
            res.id == id,
    {
        let mut x = self;
        x.which = which_from_context(context, x.which);
        x.url = url;
        x.id = id;
        x
    }
}

/// The post id of the link `handle`, or the message of why there is none.
/// The link is split on its first five `/`; the third piece must be
/// `x.com` or `twitter.com`, and the id is the sixth piece up to any `?`.
pub open spec fn x_post_id_of(handle: Seq<char>) -> Result<Seq<char>, Seq<char>> {
    let parts = split_n(handle, 6, '/');
    if parts.len() < 6 {
        Err("Invalid domain expect more segment in the url"@)
    } else if !(parts[2] == "x.com"@ || parts[2] == "twitter.com"@) {
        Err("Invalid domain"@)
    } else {
        Ok(before_first(parts[5], '?'))
    }
}

/// The post id of the link `handle`, or the message of why there is none.
pub fn x_url_parser(handle: &str) -> (res: Result<String, String>)
    ensures
        match x_post_id_of(handle@) {
            Ok(id) => res matches Ok(r) && r@ == id,
            Err(msg) => res matches Err(t) && t@ == msg,
        },
{
    let h = chars_of(handle);
    let extract = splitn_chars(&h, 6, '/');
    proof {
        lemma_split_n_len(h@, 6, '/');
    }
    if extract.len() < 6 {
        return Err(String::from_str("Invalid domain expect more segment in the url"));
    }
    if !(chars_eq_str(&extract[2], "x.com") || chars_eq_str(&extract[2], "twitter.com")) {
        return Err(String::from_str("Invalid domain"));
    }
    let mid = split_chars(&extract[5], '?');
    proof {
        lemma_split_by_len(extract@[5]@, '?');
    }
    Ok(string_of(&mid[0]))
}

/// The request to the scraping service at `key` for the post `post_id`.
pub open spec fn x_request_text(key: Seq<char>, post_id: Seq<char>) -> Seq<char> {
    key + post_id
}

/// The request to the scraping service at `key` for the post `post_id`.
pub fn x_request(key: &str, post_id: &str) -> (res: String)
    ensures
        res@ == x_request_text(key@, post_id@),
{
    String::from_str(key).concat(post_id)
}

/// The file name of a media at `link`: its last `/` piece up to its first
/// `.`, when it has one.
pub open spec fn file_stem_of(link: Seq<char>) -> Option<Seq<char>> {
    let file = after_last(link, '/');
    if split_by(file, '.').len() > 1 {
        Some(before_first(file, '.'))
    } else {
        None
    }
}

/// The file name of a media at `link`.
pub fn file_stem(link: &str) -> (res: Option<String>)
    ensures
        match res {
            Some(s) => file_stem_of(link@) == Some(s@),
            None => file_stem_of(link@) is None,
        },
{
    let l = chars_of(link);
    let parts = split_chars(&l, '/');
    proof {
        lemma_split_by_len(l@, '/');
    }
    let file = &parts[parts.len() - 1];
    let pieces = split_chars(file, '.');
    proof {
        lemma_split_by_len(file@, '.');
    }
    if pieces.len() > 1 {
        Some(string_of(&pieces[0]))
    } else {
        None
    }
}

/// The text of the member `key` of `item` (`""` when it is no string).
pub open spec fn text_or_empty(item: Json, key: Seq<char>) -> Seq<char> {
    match field_text(item, key) {
        Some(t) => t,
        None => Seq::empty(),
    }
}

/// What one item of the `media` list gives: a photo at its `url`, a video
/// at its `videoUrl` (possibly empty), nothing for another type; or the
/// message of why the list is refused. The file name comes from `url`.
pub open spec fn x_item(item: Json) -> Result<Option<(Which, Seq<char>, Seq<char>)>, Seq<char>> {
    match field_text(item, "type"@) {
        None => Err("Missing 'type' in media item"@),
        Some(t) => match field_text(item, "url"@) {
            None => Err("Missing 'type' in media item"@),
            Some(url) => match file_stem_of(url) {
                None => Err("Invalid URL format: "@ + url),
                Some(id) => if t == "photo"@ {
                    Ok(Some((Which::Img, url, id)))
                } else if t == "video"@ {
                    Ok(Some((Which::Video, text_or_empty(item, "videoUrl"@), id)))
                } else {
                    Ok(None)
                },
            },
        },
    }
}

/// The media of the items `items`, in order, or the message of the first
/// item that is refused.
pub open spec fn x_medias_of_items(items: Seq<Json>) -> Result<Seq<(Which, Seq<char>, Seq<char>)>, Seq<char>>
    decreases items.len(),
{
    if items.len() == 0 {
        Ok(Seq::empty())
    } else {
        match x_medias_of_items(items.drop_last()) {
            Err(e) => Err(e),
            Ok(prev) => match x_item(items.last()) {
                Err(e) => Err(e),
                Ok(None) => Ok(prev),
                Ok(Some(m)) => Ok(prev.push(m)),
            },
        }
    }
}

/// Once a prefix of the items is refused, the whole list is refused with
/// the same message.
proof fn lemma_refusal_extends(items: Seq<Json>, k: int)
    requires
        0 <= k <= items.len(),
        x_medias_of_items(items.take(k)) is Err,
    ensures
        x_medias_of_items(items) == x_medias_of_items(items.take(k)),
    decreases items.len() - k,
{
    if k < items.len() {
        assert(items.drop_last().take(k) == items.take(k));
        lemma_refusal_extends(items.drop_last(), k);
    } else {
        assert(items.take(k) == items);
    }
}

/// A `photo` item whose `url` has a file name gives an image at that link,
/// named by its file name.
pub proof fn lemma_x_photo_item(item: Json, url: Seq<char>)
    requires
        field_text(item, "type"@) == Some("photo"@),
        field_text(item, "url"@) == Some(url),
        split_by(after_last(url, '/'), '.').len() > 1,
    ensures
        x_item(item) == Ok::<Option<(Which, Seq<char>, Seq<char>)>, Seq<char>>(
            Some((Which::Img, url, before_first(after_last(url, '/'), '.'))),
        ),
{
}

/// A `video` item whose `url` (the thumbnail) has a file name gives a video
/// at its `videoUrl`, named by the thumbnail's file name.
pub proof fn lemma_x_video_item(item: Json, url: Seq<char>, video_url: Seq<char>)
    requires
        field_text(item, "type"@) == Some("video"@),
        field_text(item, "url"@) == Some(url),
        field_text(item, "videoUrl"@) == Some(video_url),
        split_by(after_last(url, '/'), '.').len() > 1,
    ensures
        x_item(item) == Ok::<Option<(Which, Seq<char>, Seq<char>)>, Seq<char>>(
            Some((Which::Video, video_url, before_first(after_last(url, '/'), '.'))),
        ),
{
    reveal_strlit("video");
    reveal_strlit("photo");
    assert("video"@[0] != "photo"@[0]);
}

/// An item of another type with a usable `url` gives nothing and refuses
/// nothing: it is skipped.
pub proof fn lemma_x_other_item_skipped(item: Json, t: Seq<char>, url: Seq<char>)
    requires
        field_text(item, "type"@) == Some(t),
        t != "photo"@,
        t != "video"@,
        field_text(item, "url"@) == Some(url),
        split_by(after_last(url, '/'), '.').len() > 1,
    ensures
        x_item(item) == Ok::<Option<(Which, Seq<char>, Seq<char>)>, Seq<char>>(None),
{
}

/// The media that one item of the list gives, when it gives one.
pub open spec fn x_item_found(item: Json) -> Option<(Which, Seq<char>, Seq<char>)> {
    match x_item(item) {
        Ok(Some(m)) => Some(m),
        _ => None,
    }
}

/// When no item of the list is refused, the media are those of its `photo`
/// and `video` items, one each, in the list's order; items of any other
/// type are skipped.
pub proof fn lemma_x_medias_kept_in_order(items: Seq<Json>)
    requires
        forall|i: int| 0 <= i < items.len() ==> #[trigger] x_item(items[i]) is Ok,
    ensures
        x_medias_of_items(items) == Ok::<Seq<(Which, Seq<char>, Seq<char>)>, Seq<char>>(
            items.filter_map(|item: Json| x_item_found(item)),
        ),
    decreases items.len(),
{
    if items.len() > 0 {
        let rest = items.drop_last();
        assert forall|i: int| 0 <= i < rest.len() implies #[trigger] x_item(rest[i]) is Ok by {
            assert(rest[i] == items[i]);
        }
        lemma_x_medias_kept_in_order(rest);
        assert(x_item(items[items.len() - 1]) is Ok);
        let prev = rest.filter_map(|item: Json| x_item_found(item));
        match x_item(items.last()) {
            Ok(Some(m)) => {
                assert(prev.push(m) =~= prev + seq![m]);
            },
            _ => {},
        }
    }
}

/// The first item of the list that is refused refuses the whole list, with
/// its message.
pub proof fn lemma_x_medias_first_refusal(items: Seq<Json>, k: int)
    requires
        0 <= k < items.len(),
        x_item(items[k]) is Err,
        forall|j: int| 0 <= j < k ==> #[trigger] x_item(items[j]) is Ok,
    ensures
        x_item(items[k]) matches Err(msg) && x_medias_of_items(items) == Err::<
            Seq<(Which, Seq<char>, Seq<char>)>,
            Seq<char>,
        >(msg),
{
    let head = items.take(k);
    assert forall|i: int| 0 <= i < head.len() implies #[trigger] x_item(head[i]) is Ok by {
        assert(head[i] == items[i]);
    }
    lemma_x_medias_kept_in_order(head);
    assert(items.take(k + 1).drop_last() =~= head);
    assert(items.take(k + 1).last() == items[k]);
    lemma_refusal_extends(items, k + 1);
}

/// The media of the scraping service's answer `json`: the items of
/// `data.media`.
pub open spec fn x_medias_of(json: Json) -> Result<Seq<(Which, Seq<char>, Seq<char>)>, Seq<char>> {
    match json.field("data"@) {
        None => Err("Missing data->media"@),
        Some(data) => match data.field("media"@) {
            None => Err("Missing data->media"@),
            Some(media) => match media.items() {
                None => Err("Missing data->media"@),
                Some(items) => x_medias_of_items(items),
            },
        },
    }
}

/// The text of the member `key` of `item`, when it is a string.
fn field_str<'a>(item: &'a Json, key: &str) -> (res: Option<&'a str>)
    ensures
        match res {
            Some(s) => field_text(*item, key@) == Some(s@),
            None => field_text(*item, key@) is None,
        },
{
    match item.get(key) {
        Some(v) => v.as_str(),
        None => None,
    }
}

/// What one item of the `media` list gives.
pub fn x_media_of_item(item: &Json) -> (res: Result<Option<X>, String>)
    ensures
        match x_item(*item) {
            Err(msg) => res matches Err(t) && t@ == msg,
            Ok(None) => res matches Ok(None),
            Ok(Some(m)) => res matches Ok(Some(x)) && x_view(x) == m,
        },
{
    let media_type = match field_str(item, "type") {
        Some(t) => chars_of(t),
        None => return Err(String::from_str("Missing 'type' in media item")),
    };
    let url = match field_str(item, "url") {
        Some(u) => u,
        None => return Err(String::from_str("Missing 'type' in media item")),
    };
    let id = match file_stem(url) {
        Some(s) => s,
        None => return Err(String::from_str("Invalid URL format: ").concat(url)),
    };
    if chars_eq_str(&media_type, "photo") {
        Ok(Some(X { which: Which::Img, url: String::from_str(url), id }))
    } else if chars_eq_str(&media_type, "video") {
        let video_url = match field_str(item, "videoUrl") {
            Some(v) => String::from_str(v),
            None => String::new(),
        };
        Ok(Some(X { which: Which::Video, url: video_url, id }))
    } else {
        Ok(None)
    }
}

/// The media of the scraping service's answer `json`, or the message of
/// why it is refused.
pub fn twitter(json: &Json) -> (res: Result<Vec<X>, String>)
    ensures
        match x_medias_of(*json) {
            Err(msg) => res matches Err(t) && t@ == msg,
            Ok(ms) => res matches Ok(v) && v@.len() == ms.len() && forall|i: int|
                0 <= i < ms.len() ==> x_view(#[trigger] v@[i]) == ms[i],
        },
{
    let data = match json.get("data") {
        Some(d) => d,
        None => return Err(String::from_str("Missing data->media")),
    };
    let media = match data.get("media") {
        Some(m) => m,
        None => return Err(String::from_str("Missing data->media")),
    };
    let items = match media.as_array() {
        Some(items) => items,
        None => return Err(String::from_str("Missing data->media")),
    };
    let mut vx: Vec<X> = Vec::new();
    let n = items.len();
    assert(x_medias_of(*json) == x_medias_of_items(items@));
    assert(items@.take(0) =~= Seq::<Json>::empty());
    for i in 0..n
        invariant
            n == items@.len(),
            x_medias_of(*json) == x_medias_of_items(items@),
            x_medias_of_items(items@.take(i as int)) matches Ok(ms) && vx@.len() == ms.len()
                && forall|j: int| 0 <= j < ms.len() ==> x_view(#[trigger] vx@[j]) == ms[j],
    {
        proof {
            assert(items@.take(i + 1).drop_last() == items@.take(i as int));
            assert(items@.take(i + 1).last() == items@[i as int]);
        }
        let ghost prev = vx@;
        match x_media_of_item(&items[i]) {
            Err(e) => {
                proof {
                    lemma_refusal_extends(items@, i + 1);
                }
                return Err(e);
            },
            Ok(None) => {},
            Ok(Some(x)) => {
                vx.push(x);
            },
        }
    }
    assert(items@.take(n as int) == items@);
    Ok(vx)
}

/// The media of the scraping service's answer text `body`: the text read
/// as JSON, then its media; or the message of why there are none.
pub open spec fn x_medias_of_body(body: Seq<char>) -> Result<Seq<(Which, Seq<char>, Seq<char>)>, Seq<char>> {
    match parsed_json(body) {
        Err(e) => Err(e),
        Ok(json) => x_medias_of(json),
    }
}

/// The media of the scraping service's answer text `body`, or the message
/// of why it is refused (the JSON reader's message when it is no JSON).
pub fn twitter_from_body(body: &str) -> (res: Result<Vec<X>, String>)
    ensures
        match x_medias_of_body(body@) {
            Err(msg) => res matches Err(t) && t@ == msg,
            Ok(ms) => res matches Ok(v) && v@.len() == ms.len() && forall|i: int|
                0 <= i < ms.len() ==> x_view(#[trigger] v@[i]) == ms[i],
        },
{
    match parse_json(body) {
        Ok(json) => twitter(&json),
        Err(e) => Err(e),
    }
}

/// The post id of a post link `<scheme>//<domain>/<user>/<status>/<rest>`
/// on `x.com` or `twitter.com` is `<rest>` up to its first `?`: the query
/// of the link is never part of it.
pub proof fn lemma_post_link_id(
    scheme: Seq<char>,
    domain: Seq<char>,
    user: Seq<char>,
    status: Seq<char>,
    rest: Seq<char>,
)
    requires
        !scheme.contains('/'),
        !domain.contains('/'),
        !user.contains('/'),
        !status.contains('/'),
        domain == "x.com"@ || domain == "twitter.com"@,
    ensures
        x_post_id_of(
            scheme + seq!['/', '/'] + domain + seq!['/'] + user + seq!['/'] + status + seq!['/'] + rest,
        ) == Ok::<Seq<char>, Seq<char>>(before_first(rest, '?')),
{
    let empty = Seq::<char>::empty();
    let t4 = status + seq!['/'] + rest;
    let t3 = user + seq!['/'] + t4;
    let t2 = domain + seq!['/'] + t3;
    let t1 = empty + seq!['/'] + t2;
    let h = scheme + seq!['/'] + t1;
    assert(scheme + seq!['/', '/'] + domain + seq!['/'] + user + seq!['/'] + status + seq!['/'] + rest
        =~= h);
    assert(!empty.contains('/'));
    lemma_split_n_first_piece(scheme, t1, 6, '/');
    lemma_split_n_first_piece(empty, t2, 5, '/');
    lemma_split_n_first_piece(domain, t3, 4, '/');
    lemma_split_n_first_piece(user, t4, 3, '/');
    lemma_split_n_first_piece(status, rest, 2, '/');
    lemma_split_n_one(rest, '/');
    assert(split_n(h, 6, '/') =~= seq![scheme, empty, domain, user, status, rest]);
}

/// A post id never holds a query: it stops before any `?`.
pub proof fn lemma_post_id_has_no_query(handle: Seq<char>)
    requires
        x_post_id_of(handle) is Ok,
    ensures
        x_post_id_of(handle) matches Ok(id) && !id.contains('?'),
{
    let parts = split_n(handle, 6, '/');
    crate::text::lemma_split_by_len(parts[5], '?');
    crate::text::lemma_split_by_pieces_lack_sep(parts[5], '?');
}

} // verus!
