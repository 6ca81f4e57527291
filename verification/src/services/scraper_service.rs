//! The scraper service: it answers a command with the media it finds.
use vstd::prelude::*;

use crate::json::Json;
use crate::services::command::Command;
use crate::url::{Url, UrlView};

pub mod twitter;

use twitter::{answer_items_text, post_id_of, scraper_link_text, text_results_match, FetchError, Twitter};

verus! {

/// Whether a media is a picture or a video.
#[derive(Debug, Clone, Copy, PartialEq, Eq, Structural)]
pub enum MediaKind {
    Image,
    Video,
}

impl MediaKind {
    /// The name of the kind, as `Debug` writes it.
    pub open spec fn name_text(self) -> Seq<char> {
        match self {
            MediaKind::Image => "Image"@,
            MediaKind::Video => "Video"@,
        }
    }
}

/// A media of an X (Twitter) post: its file name (without extension), its
/// link and its kind.
pub struct TwitterMediaMetadata {
    pub id: String,
    pub url: Url,
    pub kind: MediaKind,
}

/// A media found by the scraper service.
pub enum MediaMetadata {
    Twitter(TwitterMediaMetadata),
}

/// The kind, link and file name of a media.
pub open spec fn media_parts(m: MediaMetadata) -> (MediaKind, UrlView, Seq<char>) {
    match m {
        MediaMetadata::Twitter(t) => (t.kind, t.url@, t.id@),
    }
}

impl From<TwitterMediaMetadata> for MediaMetadata {
    fn from(media: TwitterMediaMetadata) -> (res: Self) {
        MediaMetadata::Twitter(media)
    }
}

impl vstd::std_specs::convert::FromSpecImpl<TwitterMediaMetadata> for MediaMetadata {
    open spec fn obeys_from_spec() -> bool {
        true
    }

    open spec fn from_spec(v: TwitterMediaMetadata) -> Self {
        MediaMetadata::Twitter(v)
    }
}

impl MediaMetadata {
    /// The link of the media.
    pub fn url(&self) -> (res: &Url)
        ensures
            res@ == media_parts(*self).1,
    {
        match self {
            MediaMetadata::Twitter(metadata) => &metadata.url,
        }
    }

    /// The kind of the media.
    pub fn kind(&self) -> (res: MediaKind)
        ensures
            res == media_parts(*self).0,
    {
        match self {
            MediaMetadata::Twitter(metadata) => metadata.kind,
        }
    }

    /// How the media is written in the logs (its `Display` text): the kind,
    /// then the link in brackets, as in `Image(https://...)`.
    pub fn to_string(&self) -> (res: String)
        ensures
            res@ == media_parts(*self).0.name_text() + "("@ + media_parts(*self).1.serialization + ")"@,
    {
        let name = match self.kind() {
            MediaKind::Image => "Image",
            MediaKind::Video => "Video",
        };
        String::from_str(name).concat("(").concat(self.url().as_str()).concat(")")
    }
}

/// The first step of the answer to a command.
pub enum ScrapeStep {
    /// The command is answered with this message and nothing is scraped.
    Refuse(String),
    /// The scraping service has to be asked at this link.
    Fetch(String),
}

/// The message with which a scraping that found nothing is refused.
pub open spec fn nothing_to_scrape_text() -> Seq<char> {
    "Nothing to scrape"@
}

/// The scraper service that the bot uses.
pub struct DefaultScraperService;

/// A scraper service.
pub enum ScraperService {
    Default(DefaultScraperService),
}

impl DefaultScraperService {
    /// The first step of the answer to `cmd`: `/help` is answered with
    /// `descriptions`, the list of commands; an X link is checked and its
    /// post is asked for at `base` followed by the post id.
    pub fn start(&self, cmd: &Command, base: &str, descriptions: &str) -> (res: ScrapeStep)
        ensures
            match *cmd {
                Command::Help => res matches ScrapeStep::Refuse(t) && t@ == descriptions@,
                Command::Twitter(handle) => match post_id_of(handle@) {
                    Err(msg) => res matches ScrapeStep::Refuse(t) && t@ == msg,
                    Ok(id) => res matches ScrapeStep::Fetch(link) && link@ == scraper_link_text(
                        base@,
                        id,
                    ),
                },
            },
    {
        match cmd {
            Command::Help => ScrapeStep::Refuse(String::from_str(descriptions)),
            Command::Twitter(handle) => match Twitter::post_id_from_url(handle.as_str()) {
                Err(msg) => ScrapeStep::Refuse(msg),
                Ok(id) => ScrapeStep::Fetch(Twitter::scraper_link(base, id.as_str())),
            },
        }
    }

    /// The answer to a command from what the scraping service answered:
    /// its media, or the message of what went wrong; a scraping that found
    /// nothing is refused.
    pub fn finish(&self, answer: Result<Json, FetchError>) -> (res: Result<
        Vec<Result<MediaMetadata, String>>,
        String,
    >)
        ensures
            match answer_items_text(answer) {
                Err(msg) => res matches Err(t) && t@ == msg,
                Ok(items) => if items.len() == 0 {
                    res matches Err(t) && t@ == nothing_to_scrape_text()
                } else {
                    res matches Ok(v) && text_results_match(v@, items)
                },
            },
    {
        let results = Twitter::scrape_medias_inner(answer)?;
        if results.len() == 0 {
            return Err(String::from_str("Nothing to scrape"));
        }
        Ok(results)
    }
}

impl ScraperService {
    pub fn new() -> (res: Self)
        ensures
            res == ScraperService::Default(DefaultScraperService),
    {
        ScraperService::Default(DefaultScraperService)
    }

    /// The first step of the answer to `cmd` (see `DefaultScraperService`).
    pub fn start(&self, cmd: &Command, base: &str, descriptions: &str) -> (res: ScrapeStep)
        ensures
            match *cmd {
                Command::Help => res matches ScrapeStep::Refuse(t) && t@ == descriptions@,
                Command::Twitter(handle) => match post_id_of(handle@) {
                    Err(msg) => res matches ScrapeStep::Refuse(t) && t@ == msg,
                    Ok(id) => res matches ScrapeStep::Fetch(link) && link@ == scraper_link_text(
                        base@,
                        id,
                    ),
                },
            },
    {
        match self {
            ScraperService::Default(service) => service.start(cmd, base, descriptions),
        }
    }

    /// The answer to a command from what the scraping service answered.
    pub fn finish(&self, answer: Result<Json, FetchError>) -> (res: Result<
        Vec<Result<MediaMetadata, String>>,
        String,
    >)
        ensures
            match answer_items_text(answer) {
                Err(msg) => res matches Err(t) && t@ == msg,
                Ok(items) => if items.len() == 0 {
                    res matches Err(t) && t@ == nothing_to_scrape_text()
                } else {
                    res matches Ok(v) && text_results_match(v@, items)
                },
            },
    {
        match self {
            ScraperService::Default(service) => service.finish(answer),
        }
    }
}

} // verus!
