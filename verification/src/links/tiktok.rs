//! TikTok links: which kind a link is, what a short link redirects to, and
//! the video file of a video.
use vstd::prelude::*;

use crate::links::x::{which_for, which_from_context, Which};
use crate::text::{
    lemma_split_n_first_piece, lemma_split_n_len,
    after_last, before_first, chars_eq_str, chars_of, lemma_split_by_len,
    remove_all, remove_all_chars, split_chars, split_n, splitn_chars, string_of,
};

verus! {

/// A TikTok video.
#[derive(Debug)]
pub struct Tiktok {
    pub which: Which,
    pub url: String,
    pub id: String,
}

impl Default for Tiktok {
    fn default() -> (res: Self)
        ensures
            res.which == Which::Video,
            res.url@ == Seq::<char>::empty(),
            res.id@ == Seq::<char>::empty(),
    {
        Tiktok { which: Which::Video, url: String::new(), id: String::new() }
    }
}

impl Tiktok {
    /// The video with the kind set by `context`, the link `url` and the id
    /// `id`.
    pub fn new(self, context: &str, url: String, id: String) -> (res: Tiktok)
        ensures
            res.which == which_for(context@, self.which),
            res.url == url,
            res.id == id,
    {
        let mut t = self;
        t.which = which_from_context(context, t.which);
        t.url = url;
        t.id = id;
        t
    }
}

/// What kind of TikTok link a link is.
#[derive(Debug, Clone, Copy, PartialEq, Eq, Structural)]
pub enum TiktokLink {
    /// A `www.tiktok.com` link, used as it is.
    Full,
    /// A `vm.tiktok.com` or `vt.tiktok.com` link, to be resolved.
    Short,
}

/// What kind of TikTok link `handle` is, or the message of why it is
/// none: the link is split on its first five `/`, and the third piece is
/// its domain.
pub open spec fn tiktok_link_of(handle: Seq<char>) -> Result<TiktokLink, Seq<char>> {
    let parts = split_n(handle, 6, '/');
    if parts.len() <= 1 {
        Err("Invalid tiktok url"@)
    } else if parts[2] == "www.tiktok.com"@ {
        Ok(TiktokLink::Full)
    } else if parts[2] == "vm.tiktok.com"@ || parts[2] == "vt.tiktok.com"@ {
        Ok(TiktokLink::Short)
    } else {
        Err("Unrecognized tiktok URL."@)
    }
}

/// What kind of TikTok link `handle` is. A link with exactly one `/` has
/// no third piece to read.
pub fn tiktok_url_parser(handle: &str) -> (res: Result<TiktokLink, String>)
    requires
        split_n(handle@, 6, '/').len() != 2,
    ensures
        match tiktok_link_of(handle@) {
            Ok(link) => res == Ok::<TiktokLink, String>(link),
            Err(msg) => res matches Err(t) && t@ == msg,
        },
{
    let h = chars_of(handle);
    let extract = splitn_chars(&h, 6, '/');
    proof {
        lemma_split_n_len(h@, 6, '/');
    }
    if extract.len() <= 1 {
        return Err(String::from_str("Invalid tiktok url"));
    }
    if chars_eq_str(&extract[2], "www.tiktok.com") {
        Ok(TiktokLink::Full)
    } else if chars_eq_str(&extract[2], "vm.tiktok.com") || chars_eq_str(&extract[2], "vt.tiktok.com") {
        Ok(TiktokLink::Short)
    } else {
        Err(String::from_str("Unrecognized tiktok URL."))
    }
}

/// The link a short link's answer `body` points to: the body without its
/// `<a href="` markers, up to the first `?`.
pub open spec fn redirect_target_of(body: Seq<char>) -> Seq<char> {
    before_first(remove_all(body, "<a href=\""@), '?')
}

/// The link a short link's answer `body` points to.
pub fn redirect_target(body: &str) -> (res: String)
    ensures
        res@ == redirect_target_of(body@),
{
    let b = chars_of(body);
    let marker = chars_of("<a href=\"");
    proof {
        reveal_strlit("<a href=\"");
    }
    let cleaned = remove_all_chars(&b, &marker);
    let pieces = split_chars(&cleaned, '?');
    proof {
        lemma_split_by_len(cleaned@, '?');
    }
    string_of(&pieces[0])
}

/// The video id of the full link `last`: the text after its last `/`.
pub open spec fn tiktok_video_id_of(last: Seq<char>) -> Seq<char> {
    after_last(last, '/')
}

/// The video file of the full link `last`, at the service `key`.
pub fn tiktok_media(key: &str, last: &str) -> (res: Tiktok)
    ensures
        res.which == Which::Video,
        res.id@ == tiktok_video_id_of(last@),
        res.url@ == key@ + tiktok_video_id_of(last@) + ".mp4"@,
{
    let l = chars_of(last);
    let parts = split_chars(&l, '/');
    proof {
        lemma_split_by_len(l@, '/');
    }
    let id = string_of(&parts[parts.len() - 1]);
    let url = String::from_str(key).concat(id.as_str()).concat(".mp4");
    Tiktok { which: Which::Video, url, id }
}

/// The link read from a short link's answer never holds a query: it stops
/// before any `?`.
pub proof fn lemma_redirect_target_has_no_query(body: Seq<char>)
    ensures
        !redirect_target_of(body).contains('?'),
{
    let cleaned = remove_all(body, "<a href=\""@);
    lemma_split_by_len(cleaned, '?');
    crate::text::lemma_split_by_pieces_lack_sep(cleaned, '?');
}

/// A link `<scheme>//<domain>/<rest>` is a full link on `www.tiktok.com`, a
/// short link on `vm.tiktok.com` or `vt.tiktok.com`, and refused on any
/// other domain, whatever its path.
pub proof fn lemma_tiktok_link_kind(scheme: Seq<char>, domain: Seq<char>, rest: Seq<char>)
    requires
        !scheme.contains('/'),
        !domain.contains('/'),
    ensures
        tiktok_link_of(scheme + seq!['/', '/'] + domain + seq!['/'] + rest) == (if domain
            == "www.tiktok.com"@ {
            Ok::<TiktokLink, Seq<char>>(TiktokLink::Full)
        } else if domain == "vm.tiktok.com"@ || domain == "vt.tiktok.com"@ {
            Ok::<TiktokLink, Seq<char>>(TiktokLink::Short)
        } else {
            Err::<TiktokLink, Seq<char>>("Unrecognized tiktok URL."@)
        }),
{
    let empty = Seq::<char>::empty();
    let t2 = domain + seq!['/'] + rest;
    let t1 = empty + seq!['/'] + t2;
    let h = scheme + seq!['/'] + t1;
    assert(scheme + seq!['/', '/'] + domain + seq!['/'] + rest =~= h);
    assert(!empty.contains('/'));
    lemma_split_n_first_piece(scheme, t1, 6, '/');
    lemma_split_n_first_piece(empty, t2, 5, '/');
    lemma_split_n_first_piece(domain, rest, 4, '/');
    lemma_split_n_len(rest, 3, '/');
    let parts = split_n(h, 6, '/');
    assert(parts.len() >= 3);
    assert(parts[2] == domain);
}

} // verus!
