//! Instagram profiles: the profile request and the profile picture of its
//! JSON answer.
use vstd::prelude::*;

use crate::json::{parse_json, parsed_json, Json};
use crate::links::x::file_stem;
use crate::links::x::file_stem_of;
use crate::text::{before_first, chars_eq_str, chars_of, lemma_split_by_len, split_chars, string_of};

verus! {

/// An Instagram item: which kind of item it is, its link and its id.
pub struct Insta {
    highlight: bool,
    story: bool,
    post: bool,
    pp: bool,
    url: String,
    id: String,
}

/// Which of `highlight`, `story`, `post` and `pp` the context `context` sets.
pub open spec fn context_flags(context: Seq<char>, flags: (bool, bool, bool, bool)) -> (bool, bool, bool, bool) {
    if context == "highlight"@ {
        (true, flags.1, flags.2, flags.3)
    } else if context == "story"@ {
        (flags.0, true, flags.2, flags.3)
    } else if context == "post"@ {
        (flags.0, flags.1, true, flags.3)
    } else if context == "pp"@ {
        (flags.0, flags.1, flags.2, true)
    } else {
        flags
    }
}

impl Insta {
    pub closed spec fn flags_view(&self) -> (bool, bool, bool, bool) {
        (self.highlight, self.story, self.post, self.pp)
    }

    pub closed spec fn url_view(&self) -> Seq<char> {
        self.url@
    }

    pub closed spec fn id_view(&self) -> Seq<char> {
        self.id@
    }

    /// An item of no kind, with no link and no id.
    pub fn empty() -> (res: Insta)
        ensures
            res.flags_view() == (false, false, false, false),
            res.url_view() == Seq::<char>::empty(),
            res.id_view() == Seq::<char>::empty(),
    {
        Insta {
            highlight: false,
            story: false,
            post: false,
            pp: false,
            url: String::new(),
            id: String::new(),
        }
    }

    /// The item with the kind set by `context` (`highlight`, `story`,
    /// `post` or `pp`), the link `url` and the id `id`.
    pub fn new(self, context: &str, url: String, id: String) -> (res: Insta)
        ensures
            res.flags_view() == context_flags(context@, self.flags_view()),
            res.url_view() == url@,
            res.id_view() == id@,
    {
        let mut s = self;
        let c = chars_of(context);
        if chars_eq_str(&c, "highlight") {
            s.highlight = true;
        } else if chars_eq_str(&c, "story") {
            s.story = true;
        } else if chars_eq_str(&c, "post") {
            s.post = true;
        } else if chars_eq_str(&c, "pp") {
            s.pp = true;
        }
        s.url = url;
        s.id = id;
        s
    }

    /// Which of `highlight`, `story`, `post` and `pp` the item is.
    pub fn flags(&self) -> (res: (bool, bool, bool, bool))
        ensures
            res == self.flags_view(),
    {
        (self.highlight, self.story, self.post, self.pp)
    }

    /// The link of the item.
    pub fn url(&self) -> (res: &str)
        ensures
            res@ == self.url_view(),
    {
        self.url.as_str()
    }

    /// The id of the item.
    pub fn id(&self) -> (res: &str)
        ensures
            res@ == self.id_view(),
    {
        self.id.as_str()
    }
}

/// The request for the profile of `username`.
pub open spec fn profile_info_url_text(username: Seq<char>) -> Seq<char> {
    "https://i.instagram.com/api/v1/users/web_profile_info/?username="@ + username
}

/// The request for the profile of `username`.
pub fn profile_info_url(username: &str) -> (res: String)
    ensures
        res@ == profile_info_url_text(username@),
{
    String::from_str("https://i.instagram.com/api/v1/users/web_profile_info/?username=").concat(username)
}

/// The `Referer` of the request for the profile of `username`.
pub fn profile_referer(username: &str) -> (res: String)
    ensures
        res@ == "https://www.instagram.com/"@ + username@ + "/"@,
{
    String::from_str("https://www.instagram.com/").concat(username).concat("/")
}

/// The member `key` of `o`, when `o` is an object that has one.
pub open spec fn at_key(o: Option<Json>, key: Seq<char>) -> Option<Json> {
    match o {
        Some(v) => v.field(key),
        None => None,
    }
}

/// What the JSON pointer token `0` reaches in `o`: the member `0` of an
/// object, the first item of an array.
pub open spec fn at_zero(o: Option<Json>) -> Option<Json> {
    match o {
        Some(Json::Array(v)) => if v@.len() > 0 {
            Some(v@[0])
        } else {
            None
        },
        Some(v) => v.field("0"@),
        None => None,
    }
}

/// The first of the places where a profile picture may stand that the
/// answer `json` has: `/data/profile_pic_url_hd`,
/// `/data/user/profile_pic_url_hd`, `/includes/users/0/profile_pic_url_hd`
/// and `/includes/users/0/profile_image_url_https`.
pub open spec fn profile_pic_value(json: Json) -> Option<Json> {
    let data = json.field("data"@);
    let user0 = at_zero(at_key(at_key(Some(json), "includes"@), "users"@));
    if at_key(data, "profile_pic_url_hd"@) is Some {
        at_key(data, "profile_pic_url_hd"@)
    } else if at_key(at_key(data, "user"@), "profile_pic_url_hd"@) is Some {
        at_key(at_key(data, "user"@), "profile_pic_url_hd"@)
    } else if at_key(user0, "profile_pic_url_hd"@) is Some {
        at_key(user0, "profile_pic_url_hd"@)
    } else {
        at_key(user0, "profile_image_url_https"@)
    }
}

/// The link of the profile picture in the answer `json` (empty when the
/// first place found holds no text, or none is found).
pub open spec fn profile_pic_url_of(json: Json) -> Seq<char> {
    match profile_pic_value(json) {
        Some(v) => match v.text() {
            Some(t) => t,
            None => Seq::empty(),
        },
        None => Seq::empty(),
    }
}

fn key_of<'a>(o: Option<&'a Json>, key: &str) -> (res: Option<&'a Json>)
    ensures
        match res {
            Some(r) => at_key(
                match o {
                    Some(v) => Some(*v),
                    None => None,
                },
                key@,
            ) == Some(*r),
            None => at_key(
                match o {
                    Some(v) => Some(*v),
                    None => None,
                },
                key@,
            ) is None,
        },
{
    match o {
        Some(v) => v.get(key),
        None => None,
    }
}

fn zero_of<'a>(o: Option<&'a Json>) -> (res: Option<&'a Json>)
    ensures
        match res {
            Some(r) => at_zero(
                match o {
                    Some(v) => Some(*v),
                    None => None,
                },
            ) == Some(*r),
            None => at_zero(
                match o {
                    Some(v) => Some(*v),
                    None => None,
                },
            ) is None,
        },
{
    match o {
        Some(Json::Array(v)) => if v.len() > 0 {
            Some(&v[0])
        } else {
            None
        },
        Some(v) => v.get("0"),
        None => None,
    }
}

/// The link of the profile picture in the answer `json`.
pub fn profile_pic_url(json: &Json) -> (res: String)
    ensures
        res@ == profile_pic_url_of(*json),
{
    let data = json.get("data");
    let user0 = zero_of(key_of(key_of(Some(json), "includes"), "users"));
    let found = match key_of(data, "profile_pic_url_hd") {
        Some(v) => Some(v),
        None => match key_of(key_of(data, "user"), "profile_pic_url_hd") {
            Some(v) => Some(v),
            None => match key_of(user0, "profile_pic_url_hd") {
                Some(v) => Some(v),
                None => key_of(user0, "profile_image_url_https"),
            },
        },
    };
    match found {
        Some(v) => match v.as_str() {
            Some(t) => String::from_str(t),
            None => String::new(),
        },
        None => String::new(),
    }
}

/// The name of the profile picture at `url`: its file name without query
/// and extension, or `unknown`.
pub open spec fn profile_pic_name_of(url: Seq<char>) -> Seq<char> {
    match file_stem_of(before_first(url, '?')) {
        Some(name) => name,
        None => "unknown"@,
    }
}

/// The name of the profile picture at `url`.
pub fn profile_pic_name(url: &str) -> (res: String)
    ensures
        res@ == profile_pic_name_of(url@),
{
    let u = chars_of(url);
    let pieces = split_chars(&u, '?');
    proof {
        lemma_split_by_len(u@, '?');
    }
    let clean = string_of(&pieces[0]);
    match file_stem(clean.as_str()) {
        Some(name) => name,
        None => String::from_str("unknown"),
    }
}

/// The link of the profile picture in the profile answer text `body`
/// (empty when there is none) and the picture's name; or the JSON reader's
/// message when the text is no JSON.
pub fn instagram_profile_pic(body: &str) -> (res: Result<(String, String), String>)
    ensures
        match parsed_json(body@) {
            Err(e) => res matches Err(t) && t@ == e,
            Ok(json) => res matches Ok((u, n)) && u@ == profile_pic_url_of(json) && n@
                == profile_pic_name_of(profile_pic_url_of(json)),
        },
{
    let json = match parse_json(body) {
        Ok(j) => j,
        Err(e) => return Err(e),
    };
    let url = profile_pic_url(&json);
    let name = profile_pic_name(url.as_str());
    Ok((url, name))
}

} // verus!
