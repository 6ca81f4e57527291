//! The TikTok scraper: it checks a TikTok link, resolves a short link
//! through its redirection, and gives the link of the video file.
use vstd::prelude::*;

use crate::common::{media_result_is, BotResult, Error, MediaKind, MediaMetadata};
use crate::text::{
    after_last, all_alphanumeric, all_ascii_alphanumeric, all_ascii_digits, all_numeric, chars_all_alphanumeric, chars_all_numeric,
    chars_eq_str, chars_of, lemma_ascii_alphanumeric_lack_slash, lemma_ascii_digits_lack_slash,
    lemma_split_by_concat, lemma_split_by_len, lemma_split_by_no_sep, lemma_trim_leading_sep,
    lemma_trim_start_keeps_last_piece, trim_end_char, trim_start_char,
    lemma_utf8_len_at_least_len, split_by, split_chars, string_of, trim_char,
    trim_chars, utf8_len, utf8_len_of, views,
};
use crate::tiktok::config::{
    TIKTOK_DOMAIN, TIKTOK_SCRAPER_LINK, TIKTOK_SCRAPER_LINK_END, TIKTOK_SHORT_DOMAIN_VM,
    TIKTOK_SHORT_DOMAIN_VT,
};
use crate::url::{parsed_url, path_segments_of, Url, UrlView};

verus! {

/// Whether `kind` and `id` are the last two segments of a video link:
/// `video`, then an id of at least 18 bytes, all numeric.
pub open spec fn video_parts_ok(kind: Seq<char>, id: Seq<char>) -> bool {
    &&& kind == "video"@
    &&& utf8_len(id) >= 18
    &&& all_numeric(id)
}

/// Whether `u` looks like `https://www.tiktok.com/[@username/]video/<id>`.
pub open spec fn is_video_url(u: UrlView) -> bool {
    &&& u.domain == Some(TIKTOK_DOMAIN@)
    &&& {
        let segs = split_by(trim_char(u.path, '/'), '/');
        if segs.len() == 3 {
            &&& utf8_len(segs[0]) >= 2
            &&& segs[0].len() > 0
            &&& segs[0][0] == '@'
            &&& video_parts_ok(segs[1], segs[2])
        } else if segs.len() == 2 {
            video_parts_ok(segs[0], segs[1])
        } else {
            false
        }
    }
}

/// Whether `kind` and `id` are the last two segments of a video link whose
/// id is written in ASCII digits: `video`, then at least 18 digits.
pub open spec fn ascii_video_parts(kind: Seq<char>, id: Seq<char>) -> bool {
    &&& kind == "video"@
    &&& utf8_len(id) >= 18
    &&& all_ascii_digits(id)
}

/// Whether `u` is `https://www.tiktok.com/[@username/]video/<id>` with an id
/// of at least 18 ASCII digits, the form TikTok gives its video links.
pub open spec fn is_ascii_video_url(u: UrlView) -> bool {
    &&& u.domain == Some(TIKTOK_DOMAIN@)
    &&& {
        let segs = split_by(trim_char(u.path, '/'), '/');
        if segs.len() == 3 {
            &&& utf8_len(segs[0]) >= 2
            &&& segs[0].len() > 0
            &&& segs[0][0] == '@'
            &&& ascii_video_parts(segs[1], segs[2])
        } else if segs.len() == 2 {
            ascii_video_parts(segs[0], segs[1])
        } else {
            false
        }
    }
}

/// Whether `d` is the domain of a short TikTok link.
pub open spec fn is_short_domain(d: Seq<char>) -> bool {
    d == TIKTOK_SHORT_DOMAIN_VM@ || d == TIKTOK_SHORT_DOMAIN_VT@
}

/// Whether `u` looks like `https://vm.tiktok.com/ABC123` (or `vt.`): one
/// path segment of at least 6 bytes, all alphanumeric.
pub open spec fn is_short_url(u: UrlView) -> bool {
    &&& u.domain matches Some(d)
    &&& is_short_domain(d)
    &&& path_segments_of(u.path) matches Some(segs)
    &&& segs.len() == 1
    &&& utf8_len(segs[0]) >= 6
    &&& all_alphanumeric(segs[0])
}

/// Whether `u` is `https://vm.tiktok.com/<code>` (or `vt.`) with a code of
/// at least 6 ASCII letters and digits, the form TikTok gives its short
/// links.
pub open spec fn is_ascii_short_url(u: UrlView) -> bool {
    &&& u.domain matches Some(d)
    &&& is_short_domain(d)
    &&& path_segments_of(u.path) matches Some(segs)
    &&& segs.len() == 1
    &&& utf8_len(segs[0]) >= 6
    &&& all_ascii_alphanumeric(segs[0])
}

/// The text after the last `/` of `path`, when it has a `/`.
pub open spec fn video_id_of(path: Seq<char>) -> Option<Seq<char>> {
    if split_by(path, '/').len() > 1 {
        Some(after_last(path, '/'))
    } else {
        None
    }
}

/// The link of the video file of the video `id`.
pub open spec fn media_link_text(id: Seq<char>) -> Seq<char> {
    TIKTOK_SCRAPER_LINK@ + id + TIKTOK_SCRAPER_LINK_END@
}

/// The media of the video at `u` (a link already checked by
/// `is_video_url`): the id is the last path segment, which must be
/// non-empty and numeric, and the media is the video file at
/// `media_link_text(id)`.
pub open spec fn media_of_video_url(u: UrlView) -> Result<(MediaKind, UrlView), Error> {
    match video_id_of(u.path) {
        None => Err(Error::InvalidUrl),
        Some(id) => if id.len() == 0 || !all_numeric(id) {
            Err(Error::InvalidUrl)
        } else {
            match parsed_url(media_link_text(id)) {
                Ok(m) => Ok((MediaKind::Video, m)),
                Err(_) => Err(Error::InvalidLink),
            }
        },
    }
}

/// The media of a full TikTok link `u`: refused unless it is a video link.
pub open spec fn media_of_full_url(u: UrlView) -> Result<(MediaKind, UrlView), Error> {
    if is_video_url(u) {
        media_of_video_url(u)
    } else {
        Err(Error::InvalidUrl)
    }
}

/// Whether a header byte is visible ASCII or a tab, the bytes that
/// `HeaderValue::to_str` accepts.
pub open spec fn is_visible_ascii(b: u8) -> bool {
    (32 <= b && b < 127) || b == 9
}

/// The text of a header value, when all its bytes are visible ASCII.
pub open spec fn header_text_of(bytes: Seq<u8>) -> Option<Seq<char>> {
    if forall|i: int| 0 <= i < bytes.len() ==> #[trigger] is_visible_ascii(bytes[i]) {
        Some(Seq::new(bytes.len(), |i: int| bytes[i] as char))
    } else {
        None
    }
}

/// What came back when the redirection of a short link was asked for.
pub struct RedirectResponse {
    /// Whether the status is a redirection (3xx).
    pub is_redirection: bool,
    /// The bytes of the `Location` header, if there is one.
    pub location: Option<Vec<u8>>,
}

/// Why no response came back for a short link.
#[derive(Debug, Clone, Copy, PartialEq, Eq, Structural)]
pub enum RequestFailure {
    /// The HTTP client could not be built.
    ClientBuild,
    /// The request could not be sent or answered.
    Send,
}

/// The target of the redirection, the full link the short link stands for:
/// the redirection's `Location` parsed as a URL on `www.tiktok.com`.
pub open spec fn redirection_target(
    response: Result<(bool, Option<Seq<u8>>), RequestFailure>,
) -> Result<UrlView, Error> {
    match response {
        Err(RequestFailure::ClientBuild) => Err(Error::Unknown),
        Err(RequestFailure::Send) => Err(Error::InvalidUrl),
        Ok((is_redirection, location)) => if !is_redirection {
            Err(Error::Unknown)
        } else {
            match location {
                None => Err(Error::Unknown),
                Some(bytes) => match header_text_of(bytes) {
                    None => Err(Error::Unknown),
                    Some(text) => match parsed_url(text) {
                        Err(_) => Err(Error::Unknown),
                        Ok(target) => if target.domain == Some(TIKTOK_DOMAIN@) {
                            Ok(target)
                        } else {
                            Err(Error::Unknown)
                        },
                    },
                },
            }
        },
    }
}

/// The plain values of a response.
pub open spec fn response_view(response: Result<RedirectResponse, RequestFailure>) -> Result<
    (bool, Option<Seq<u8>>),
    RequestFailure,
> {
    match response {
        Ok(r) => Ok(
            (
                r.is_redirection,
                match r.location {
                    Some(v) => Some(v@),
                    None => None,
                },
            ),
        ),
        Err(f) => Err(f),
    }
}

/// The media of a short link whose redirection answered `response`.
pub open spec fn media_of_redirection(response: Result<(bool, Option<Seq<u8>>), RequestFailure>) -> Result<
    (MediaKind, UrlView),
    Error,
> {
    match redirection_target(response) {
        Err(e) => Err(e),
        Ok(target) => media_of_full_url(target),
    }
}

/// What the scraper makes of a link given to it: an answer, or a short
/// link whose redirection has to be asked for. A full link is answered with
/// its media; a short link is checked first; anything else is refused.
pub ghost enum StartOutcome {
    Answer(Result<(MediaKind, UrlView), Error>),
    Resolve(UrlView),
}

pub open spec fn start_outcome(arg: Seq<char>) -> StartOutcome {
    match parsed_url(arg) {
        Err(_) => StartOutcome::Answer(Err(Error::InvalidUrl)),
        Ok(u) => match u.domain {
            Some(d) => if d == TIKTOK_DOMAIN@ {
                StartOutcome::Answer(media_of_full_url(u))
            } else if is_short_domain(d) {
                if is_short_url(u) {
                    StartOutcome::Resolve(u)
                } else {
                    StartOutcome::Answer(Err(Error::InvalidUrl))
                }
            } else {
                StartOutcome::Answer(Err(Error::InvalidUrl))
            },
            None => StartOutcome::Answer(Err(Error::InvalidUrl)),
        },
    }
}

/// What to do with a link given to the scraper.
pub enum TikTokStep {
    /// The answer is known.
    Done(BotResult<MediaMetadata>),
    /// The link is a short link: its redirection has to be asked for.
    Resolve(Url),
}

/// Scraper of TikTok videos.
pub struct TikTokScraper;

impl TikTokScraper {
    /// Whether `kind` and `id` are the last two segments of a video link.
    fn video_parts_ok(kind: &Vec<char>, id: &Vec<char>) -> (res: bool)
        ensures
            res == video_parts_ok(kind@, id@),
            ascii_video_parts(kind@, id@) ==> res,
    {
        chars_eq_str(kind, "video") && utf8_len_of(id) >= 18 && chars_all_numeric(id)
    }

    /// Checks that `url` looks like
    /// `https://www.tiktok.com/[@username/]video/123456789`.
    pub fn validate_tiktok_url(url: &Url) -> (res: BotResult<()>)
        ensures
            res == (if is_video_url(url@) {
                Ok::<(), Error>(())
            } else {
                Err(Error::InvalidUrl)
            }),
            is_ascii_video_url(url@) ==> res is Ok,
    {
        let on_domain = match url.domain() {
            Some(d) => chars_eq_str(&chars_of(d), TIKTOK_DOMAIN),
            None => false,
        };
        if !on_domain {
            return Err(Error::InvalidUrl);
        }
        let path = chars_of(url.path());
        let trimmed = trim_chars(&path, '/');
        let segs = split_chars(&trimmed, '/');
        let ghost s = split_by(trim_char(url@.path, '/'), '/');
        assert(views(segs@) == s);
        let ok = if segs.len() == 3 {
            assert(s[0] == segs@[0]@ && s[1] == segs@[1]@ && s[2] == segs@[2]@);
            utf8_len_of(&segs[0]) >= 2 && segs[0].len() > 0 && segs[0][0] == '@'
                && Self::video_parts_ok(&segs[1], &segs[2])
        } else if segs.len() == 2 {
            assert(s[0] == segs@[0]@ && s[1] == segs@[1]@);
            Self::video_parts_ok(&segs[0], &segs[1])
        } else {
            false
        };
        if ok {
            Ok(())
        } else {
            Err(Error::InvalidUrl)
        }
    }

    /// Checks that `url` is a short link: `https://vm.tiktok.com/ABC123` or
    /// `https://vt.tiktok.com/ABC123`.
    pub fn validate_redirection_url(url: &Url) -> (res: BotResult<()>)
        ensures
            res == (if is_short_url(url@) {
                Ok::<(), Error>(())
            } else {
                Err(Error::InvalidUrl)
            }),
            is_ascii_short_url(url@) ==> res is Ok,
    {
        let on_domain = match url.domain() {
            Some(d) => {
                let dc = chars_of(d);
                chars_eq_str(&dc, TIKTOK_SHORT_DOMAIN_VM) || chars_eq_str(&dc, TIKTOK_SHORT_DOMAIN_VT)
            },
            None => false,
        };
        if !on_domain {
            return Err(Error::InvalidUrl);
        }
        let segments = match url.path_segments() {
            Some(segments) => segments,
            None => return Err(Error::InvalidUrl),
        };
        if segments.len() != 1 {
            return Err(Error::InvalidUrl);
        }
        let at_least_6 = utf8_len_of(&segments[0]) >= 6;
        let is_alphanumeric = chars_all_alphanumeric(&segments[0]);
        if !at_least_6 || !is_alphanumeric {
            return Err(Error::InvalidUrl);
        }
        Ok(())
    }

    /// The link of the video file of the video `video_id`.
    pub fn media_url(video_id: &str) -> (res: BotResult<Url>)
        ensures
            match res {
                Ok(u) => parsed_url(media_link_text(video_id@)) == Ok::<UrlView, Seq<char>>(u@),
                Err(e) => parsed_url(media_link_text(video_id@)) is Err && e == Error::InvalidLink,
            },
    {
        let link = String::from_str(TIKTOK_SCRAPER_LINK).concat(video_id).concat(TIKTOK_SCRAPER_LINK_END);
        match Url::parse(link.as_str()) {
            Ok(u) => Ok(u),
            Err(_) => Err(Error::InvalidLink),
        }
    }

    /// The media of a video link already checked by `validate_tiktok_url`.
    pub fn media_from_video_url(url: &Url) -> (res: BotResult<MediaMetadata>)
        ensures
            media_result_is(res, media_of_video_url(url@)),
    {
        let path = chars_of(url.path());
        let parts = split_chars(&path, '/');
        proof {
            lemma_split_by_len(path@, '/');
        }
        if parts.len() <= 1 {
            return Err(Error::InvalidUrl);
        }
        let id = &parts[parts.len() - 1];
        assert(id@ == after_last(url@.path, '/'));
        if id.len() == 0 || !chars_all_numeric(id) {
            return Err(Error::InvalidUrl);
        }
        let id_text = string_of(id);
        let media_url = Self::media_url(id_text.as_str())?;
        Ok(MediaMetadata::new(MediaKind::Video, media_url))
    }

    /// What to do with the link `arg`: a full link is checked and answered,
    /// a short link is checked and has to be resolved first.
    pub fn start(arg: &str) -> (res: TikTokStep)
        ensures
            match start_outcome(arg@) {
                StartOutcome::Answer(r) => res matches TikTokStep::Done(x) && media_result_is(x, r),
                StartOutcome::Resolve(u) => res matches TikTokStep::Resolve(link) && link@ == u,
            },
    {
        let url = match Url::parse(arg) {
            Ok(u) => u,
            Err(_) => return TikTokStep::Done(Err(Error::InvalidUrl)),
        };
        let domain = match url.domain() {
            Some(d) => chars_of(d),
            None => return TikTokStep::Done(Err(Error::InvalidUrl)),
        };
        if chars_eq_str(&domain, TIKTOK_DOMAIN) {
            TikTokStep::Done(Self::media_from_full_url(&url))
        } else if chars_eq_str(&domain, TIKTOK_SHORT_DOMAIN_VM) || chars_eq_str(
            &domain,
            TIKTOK_SHORT_DOMAIN_VT,
        ) {
            match Self::validate_redirection_url(&url) {
                Ok(()) => TikTokStep::Resolve(url),
                Err(e) => TikTokStep::Done(Err(e)),
            }
        } else {
            TikTokStep::Done(Err(Error::InvalidUrl))
        }
    }

    /// The media of a full link: checked, then its video id is read.
    pub fn media_from_full_url(url: &Url) -> (res: BotResult<MediaMetadata>)
        ensures
            media_result_is(res, media_of_full_url(url@)),
    {
        Self::validate_tiktok_url(url)?;
        Self::media_from_video_url(url)
    }

    /// The text of a header value, when all its bytes are visible ASCII or
    /// tabs.
    pub fn header_text(bytes: &[u8]) -> (res: Option<String>)
        ensures
            match res {
                Some(s) => header_text_of(bytes@) == Some(s@),
                None => header_text_of(bytes@) is None,
            },
    {
        let mut chars: Vec<char> = Vec::new();
        let n = bytes.len();
        for i in 0..n
            invariant
                n == bytes@.len(),
                chars@ == Seq::new(i as nat, |j: int| bytes@[j] as char),
                forall|j: int| 0 <= j < i ==> #[trigger] is_visible_ascii(bytes@[j]),
        {
            let b = bytes[i];
            if !((32 <= b && b < 127) || b == 9) {
                assert(!is_visible_ascii(bytes@[i as int]));
                return None;
            }
            chars.push(b as char);
            assert(chars@ =~= Seq::new((i + 1) as nat, |j: int| bytes@[j] as char));
        }
        Some(string_of(&chars))
    }

    /// The full link a short link redirects to, from the answer to the
    /// request for its redirection.
    pub fn redirection_url(response: Result<RedirectResponse, RequestFailure>) -> (res: BotResult<Url>)
        ensures
            match res {
                Ok(u) => redirection_target(response_view(response)) == Ok::<UrlView, Error>(u@),
                Err(e) => redirection_target(response_view(response)) == Err::<UrlView, Error>(e),
            },
    {
        let response = match response {
            Ok(r) => r,
            Err(RequestFailure::ClientBuild) => return Err(Error::Unknown),
            Err(RequestFailure::Send) => return Err(Error::InvalidUrl),
        };
        if !response.is_redirection {
            return Err(Error::Unknown);
        }
        let bytes = match &response.location {
            Some(b) => b,
            None => return Err(Error::Unknown),
        };
        let text = match Self::header_text(bytes.as_slice()) {
            Some(t) => t,
            None => return Err(Error::Unknown),
        };
        let target = match Url::parse(text.as_str()) {
            Ok(u) => u,
            Err(_) => return Err(Error::Unknown),
        };
        let on_domain = match target.domain() {
            Some(d) => chars_eq_str(&chars_of(d), TIKTOK_DOMAIN),
            None => false,
        };
        if !on_domain {
            return Err(Error::Unknown);
        }
        Ok(target)
    }

    /// The media of a short link, from the answer to the request for its
    /// redirection.
    pub fn finish(response: Result<RedirectResponse, RequestFailure>) -> (res: BotResult<MediaMetadata>)
        ensures
            media_result_is(res, media_of_redirection(response_view(response))),
    {
        let target = Self::redirection_url(response)?;
        Self::media_from_full_url(&target)
    }

    /// The list that `get_medias` answers: the one result of the link.
    pub fn get_medias(media: BotResult<MediaMetadata>) -> (res: BotResult<Vec<BotResult<MediaMetadata>>>)
        ensures
            res matches Ok(v) && v@ == seq![media],
    {
        Ok(vec![media])
    }
}

/// A short link whose redirection points to a full link gives the same
/// answer as that full link given directly.
pub proof fn lemma_redirection_matches_full_link(location: Seq<u8>)
    requires
        header_text_of(location) is Some,
        parsed_url(header_text_of(location)->0) matches Ok(u) && u.domain == Some(TIKTOK_DOMAIN@),
    ensures
        start_outcome(header_text_of(location)->0) == StartOutcome::Answer(
            media_of_redirection(Ok((true, Some(location)))),
        ),
{
}

/// Whatever link the scraper answers with a media, that media is a video
/// and the link was a checked video link on `www.tiktok.com`, or a short
/// link that redirected to one.
pub proof fn lemma_answered_media_is_checked_video(arg: Seq<char>)
    requires
        start_outcome(arg) matches StartOutcome::Answer(Ok(_)),
    ensures
        start_outcome(arg) matches StartOutcome::Answer(Ok((kind, _))) && kind == MediaKind::Video,
        parsed_url(arg) matches Ok(u) && is_video_url(u),
{
}

/// Whatever a short link redirects to, a media comes only from a checked
/// video link on `www.tiktok.com`.
pub proof fn lemma_redirected_media_is_checked_video(
    response: Result<(bool, Option<Seq<u8>>), RequestFailure>,
)
    requires
        media_of_redirection(response) is Ok,
    ensures
        media_of_redirection(response) matches Ok((kind, _)) && kind == MediaKind::Video,
        redirection_target(response) matches Ok(u) && is_video_url(u) && u.domain == Some(
            TIKTOK_DOMAIN@,
        ),
{
}

/// Every link on `www.tiktok.com` whose path is `/@username/video/<id>`,
/// with a username of at least two characters and an id of at least 18
/// ASCII digits, is a video link of the form TikTok gives, which
/// `validate_tiktok_url` accepts.
pub proof fn lemma_username_video_link_accepted(u: UrlView, user: Seq<char>, id: Seq<char>)
    requires
        u.domain == Some(TIKTOK_DOMAIN@),
        u.path == seq!['/'] + user + seq!['/'] + "video"@ + seq!['/'] + id,
        user.len() >= 2,
        user[0] == '@',
        !user.contains('/'),
        id.len() >= 18,
        all_ascii_digits(id),
    ensures
        is_ascii_video_url(u),
{
    reveal_strlit("video");
    let video = "video"@;
    assert(video =~= seq!['v', 'i', 'd', 'e', 'o']);
    assert(!video.contains('/'));
    lemma_ascii_digits_lack_slash(id);
    assert(id.last() != '/') by {
        assert(id[id.len() - 1] == id.last());
    }
    let tail = video + seq!['/'] + id;
    let body = user + seq!['/'] + tail;
    assert(u.path =~= seq!['/'] + body);
    assert(body[0] == user[0]);
    assert(body.last() == id.last());
    lemma_trim_leading_sep(body, '/');
    lemma_split_by_concat(user, tail, '/');
    lemma_split_by_concat(video, id, '/');
    lemma_split_by_no_sep(user, '/');
    lemma_split_by_no_sep(video, '/');
    lemma_split_by_no_sep(id, '/');
    assert(split_by(trim_char(u.path, '/'), '/') =~= seq![user, video, id]);
    lemma_utf8_len_at_least_len(user);
    lemma_utf8_len_at_least_len(id);
}

/// Every link on `www.tiktok.com` whose path is `/video/<id>`, with an id
/// of at least 18 ASCII digits, is a video link of the form TikTok gives,
/// which `validate_tiktok_url` accepts.
pub proof fn lemma_video_link_accepted(u: UrlView, id: Seq<char>)
    requires
        u.domain == Some(TIKTOK_DOMAIN@),
        u.path == seq!['/'] + "video"@ + seq!['/'] + id,
        id.len() >= 18,
        all_ascii_digits(id),
    ensures
        is_ascii_video_url(u),
{
    reveal_strlit("video");
    let video = "video"@;
    assert(video =~= seq!['v', 'i', 'd', 'e', 'o']);
    assert(!video.contains('/'));
    lemma_ascii_digits_lack_slash(id);
    assert(id.last() != '/') by {
        assert(id[id.len() - 1] == id.last());
    }
    let body = video + seq!['/'] + id;
    assert(u.path =~= seq!['/'] + body);
    assert(body[0] == 'v');
    assert(body.last() == id.last());
    lemma_trim_leading_sep(body, '/');
    lemma_split_by_concat(video, id, '/');
    lemma_split_by_no_sep(video, '/');
    lemma_split_by_no_sep(id, '/');
    assert(split_by(trim_char(u.path, '/'), '/') =~= seq![video, id]);
    lemma_utf8_len_at_least_len(id);
}

/// Every link on `vm.tiktok.com` or `vt.tiktok.com` whose path is
/// `/<code>`, with a code of at least 6 ASCII letters and digits, is a short
/// link of the form TikTok gives, which `validate_redirection_url` accepts.
pub proof fn lemma_short_link_accepted(u: UrlView, code: Seq<char>)
    requires
        u.domain matches Some(d) && is_short_domain(d),
        u.path == seq!['/'] + code,
        code.len() >= 6,
        all_ascii_alphanumeric(code),
    ensures
        is_ascii_short_url(u),
{
    lemma_ascii_alphanumeric_lack_slash(code);
    assert(u.path.drop_first() =~= code);
    lemma_split_by_no_sep(code, '/');
    lemma_utf8_len_at_least_len(code);
}

/// Every link on `www.tiktok.com` that passes the video link check and
/// whose path does not end with `/` (with or without the `@username`
/// segment) is answered with a video at the service's link for its id, the
/// last segment of its path.
pub proof fn lemma_checked_video_link_answered(arg: Seq<char>, u: UrlView)
    requires
        parsed_url(arg) == Ok::<UrlView, Seq<char>>(u),
        is_video_url(u),
        u.path.len() > 0,
        u.path.last() != '/',
    ensures
        after_last(u.path, '/') == split_by(trim_char(u.path, '/'), '/').last(),
        start_outcome(arg) == StartOutcome::Answer(
            match parsed_url(
                TIKTOK_SCRAPER_LINK@ + after_last(u.path, '/') + TIKTOK_SCRAPER_LINK_END@,
            ) {
                Ok(m) => Ok::<(MediaKind, UrlView), Error>((MediaKind::Video, m)),
                Err(_) => Err(Error::InvalidLink),
            },
        ),
{
    let path = u.path;
    let t = trim_start_char(path, '/');
    lemma_trim_start_keeps_last_piece(path, '/');
    assert(trim_end_char(t, '/') == t);
    assert(trim_char(path, '/') == t);
    let segs = split_by(t, '/');
    let id = after_last(path, '/');
    assert(id == segs.last());
    assert(segs.len() == 2 || segs.len() == 3);
    assert(video_parts_ok(segs[segs.len() - 2], segs[segs.len() - 1]));
    assert(all_numeric(id));
    assert(id.len() > 0) by {
        if id.len() == 0 {
            assert(utf8_len(id) == 0);
        }
    }
    assert(split_by(path, '/').len() > 1);
}

} // verus!
