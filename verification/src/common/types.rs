//! What a scraper finds: the kind of a media and where it can be fetched.
use vstd::prelude::*;

use crate::common::error::{BotResult, Error};
use crate::url::{Url, UrlView};

verus! {

/// Whether a media is a picture or a video.
#[derive(Debug, Clone, Copy, PartialEq, Eq, Structural)]
pub enum MediaKind {
    Image,
    Video,
}

/// A media found by a scraper.
pub struct MediaMetadata {
    pub kind: MediaKind,
    pub url: Url,
}

impl MediaKind {
    /// The name of the kind, as `Debug` writes it.
    pub open spec fn name_text(self) -> Seq<char> {
        match self {
            MediaKind::Image => "Image"@,
            MediaKind::Video => "Video"@,
        }
    }
}

impl MediaMetadata {
    pub fn new(kind: MediaKind, url: Url) -> (res: Self)
        ensures
            res.kind == kind,
            res.url@ == url@,
    {
        Self { kind, url }
    }

    /// How the media is written in the logs (its `Display` text): the kind,
    /// then the link in brackets, as in `Video(https://...)`.
    pub fn to_string(&self) -> (res: String)
        ensures
            res@ == self.kind.name_text() + "("@ + self.url@.serialization + ")"@,
    {
        let name = match self.kind {
            MediaKind::Image => "Image",
            MediaKind::Video => "Video",
        };
        String::from_str(name).concat("(").concat(self.url.as_str()).concat(")")
    }
}

/// Whether `res` is the media `expected` describes: the same kind and URL,
/// or the same error.
pub open spec fn media_result_is(
    res: BotResult<MediaMetadata>,
    expected: Result<(MediaKind, UrlView), Error>,
) -> bool {
    match (res, expected) {
        (Ok(m), Ok((kind, url))) => m.kind == kind && m.url@ == url,
        (Err(e), Err(f)) => e == f,
        _ => false,
    }
}

} // verus!
