//! Parsed URLs, held as the plain texts that the scrapers read from them.
use vstd::prelude::*;

use crate::text::{chars_of, split_by, split_chars, sub_chars, views};

verus! {

/// What a parsed URL holds: its serialization, its domain (when its host is
/// a domain name rather than an IP address) and its path.
pub ghost struct UrlView {
    pub serialization: Seq<char>,
    pub domain: Option<Seq<char>>,
    pub path: Seq<char>,
}

/// A URL as the WHATWG URL parser of the `url` crate (which `reqwest`
/// re-exports) produced it.
pub struct Url {
    serialization: String,
    domain: Option<String>,
    path: String,
}

pub open spec fn option_view(o: Option<String>) -> Option<Seq<char>> {
    match o {
        Some(s) => Some(s@),
        None => None,
    }
}

impl View for Url {
    type V = UrlView;

    closed spec fn view(&self) -> UrlView {
        UrlView {
            serialization: self.serialization@,
            domain: option_view(self.domain),
            path: self.path@,
        }
    }
}

/// The URL that `reqwest::Url::parse` makes of `input`, or the message of
/// the error with which it refuses the text.
pub uninterp spec fn parsed_url(input: Seq<char>) -> Result<UrlView, Seq<char>>;

/// The path segments of a URL whose path is `path`, as
/// `reqwest::Url::path_segments` yields them: `None` unless the path starts
/// with `/`, else the rest of the path split on `/`.
pub open spec fn path_segments_of(path: Seq<char>) -> Option<Seq<Seq<char>>> {
    if path.len() > 0 && path[0] == '/' {
        Some(split_by(path.drop_first(), '/'))
    } else {
        None
    }
}

/// Calls `reqwest::Url::parse` and keeps the serialization, the domain and
/// the path of the result, or the `Display` text of the parse error. What
/// the parser makes of a text is named `parsed_url`; nothing more is stated
/// of it.
#[verifier::external_body]
fn parse_with_reqwest(input: &str) -> (res: Result<Url, String>)
    ensures
        match res {
            Ok(u) => parsed_url(input@) == Ok::<UrlView, Seq<char>>(u@),
            Err(e) => parsed_url(input@) == Err::<UrlView, Seq<char>>(e@),
        },
{
    match reqwest::Url::parse(input) {
        Ok(u) => Ok(
            Url {
                serialization: u.as_str().to_string(),
                domain: u.domain().map(|d| d.to_string()),
                path: u.path().to_string(),
            },
        ),
        Err(e) => Err(e.to_string()),
    }
}

impl Url {
    /// Parses `input` as an absolute URL, or gives the parser's message
    /// where it refuses the text.
    pub fn parse(input: &str) -> (res: Result<Url, String>)
        ensures
            match res {
                Ok(u) => parsed_url(input@) == Ok::<UrlView, Seq<char>>(u@),
                Err(e) => parsed_url(input@) == Err::<UrlView, Seq<char>>(e@),
            },
    {
        parse_with_reqwest(input)
    }

    /// The serialization of the URL.
    pub fn as_str(&self) -> (res: &str)
        ensures
            res@ == self@.serialization,
    {
        self.serialization.as_str()
    }

    /// The domain of the URL, if its host is a domain name.
    pub fn domain(&self) -> (res: Option<&str>)
        ensures
            match res {
                Some(d) => self@.domain == Some(d@),
                None => self@.domain is None,
            },
    {
        match &self.domain {
            Some(d) => Some(d.as_str()),
            None => None,
        }
    }

    /// The path of the URL.
    pub fn path(&self) -> (res: &str)
        ensures
            res@ == self@.path,
    {
        self.path.as_str()
    }

    /// The `/`-separated segments of the path, `None` for a URL that cannot
    /// be a base (its path does not start with `/`).
    pub fn path_segments(&self) -> (res: Option<Vec<Vec<char>>>)
        ensures
            match res {
                Some(v) => path_segments_of(self@.path) == Some(views(v@)),
                None => path_segments_of(self@.path) is None,
            },
    {
        let p = chars_of(self.path.as_str());
        if p.len() > 0 && p[0] == '/' {
            let rest = sub_chars(&p, 1, p.len());
            assert(rest@ == p@.drop_first());
            Some(split_chars(&rest, '/'))
        } else {
            None
        }
    }

    /// A copy of the URL.
    pub fn duplicate(&self) -> (res: Url)
        ensures
            res@ == self@,
    {
        Url {
            serialization: self.serialization.clone(),
            domain: match &self.domain {
                Some(d) => Some(d.clone()),
                None => None,
            },
            path: self.path.clone(),
        }
    }
}

} // verus!
