//! The commands of the Telegram bot and what the bot does for each.
use vstd::prelude::*;

use crate::common::{media_result_is, BotResult, Error, MediaMetadata};
use crate::json::Json;
use crate::tiktok::scraper::{
    media_of_redirection, response_view, start_outcome, RedirectResponse, RequestFailure,
    StartOutcome, TikTokStep,
};
use crate::tiktok::TikTokScraper;
use crate::twitter::scraper::{answer_of, request_url_of, results_match_items, ScraperAnswer};
use crate::twitter::TwitterScraper;
use crate::url::Url;

verus! {

/// A command of the bot.
pub enum Command {
    /// Display the list of commands.
    Help,
    /// Download the media attached to an X (Twitter) post.
    Twitter(String),
    /// Download a TikTok video.
    Tiktok(String),
}

impl Command {
    /// How the command is written in a chat.
    pub open spec fn display_text(&self) -> Seq<char> {
        match self {
            Command::Help => "/help"@,
            Command::Twitter(arg) => "/twitter "@ + arg@,
            Command::Tiktok(arg) => "/tiktok "@ + arg@,
        }
    }

    /// How the command is written in a chat (its `Display` text).
    pub fn to_string(&self) -> (res: String)
        ensures
            res@ == self.display_text(),
    {
        match self {
            Command::Help => String::from_str("/help"),
            Command::Twitter(arg) => String::from_str("/twitter ").concat(arg.as_str()),
            Command::Tiktok(arg) => String::from_str("/tiktok ").concat(arg.as_str()),
        }
    }
}

/// What the bot does next while it answers a command.
pub enum Action {
    /// Send this text to the chat; the command is answered.
    Reply(String),
    /// Ask the scraping service at this link for the media of an X post.
    FetchTwitter(Url),
    /// Ask this short TikTok link for its redirection.
    ResolveTiktok(Url),
    /// Send these scraping results to the chat; the command is answered.
    SendMedias(Vec<BotResult<MediaMetadata>>),
}

/// The reply to a message that holds no known command.
pub open spec fn unknown_command_text() -> Seq<char> {
    "Unknown command"@
}

/// The Telegram bot.
pub struct TelegramBot;

impl TelegramBot {
    /// The reply to a message that holds no known command.
    pub fn unknown_command_reply() -> (res: String)
        ensures
            res@ == unknown_command_text(),
    {
        String::from_str("Unknown command")
    }

    /// What the bot does with the scraping results of a command: an error
    /// is told to the chat, the media are sent.
    pub fn reply_to_scraping(results: BotResult<Vec<BotResult<MediaMetadata>>>) -> (res: Action)
        ensures
            match results {
                Ok(v) => res == Action::SendMedias(v),
                Err(e) => res matches Action::Reply(t) && t@ == e.message_text(),
            },
    {
        match results {
            Ok(v) => Action::SendMedias(v),
            Err(e) => Action::Reply(e.to_string()),
        }
    }

    /// What the bot does first for `cmd`; `descriptions` is the list of
    /// commands, the answer to `/help`.
    pub fn on_command(cmd: Command, descriptions: &str) -> (res: Action)
        ensures
            match cmd {
                Command::Help => res matches Action::Reply(t) && t@ == descriptions@,
                Command::Twitter(arg) => match request_url_of(arg@) {
                    Ok(u) => res matches Action::FetchTwitter(link) && link@ == u,
                    Err(e) => res matches Action::Reply(t) && t@ == e.message_text(),
                },
                Command::Tiktok(arg) => match start_outcome(arg@) {
                    StartOutcome::Answer(r) => res matches Action::SendMedias(v) && v@.len() == 1
                        && media_result_is(v@[0], r),
                    StartOutcome::Resolve(u) => res matches Action::ResolveTiktok(link) && link@ == u,
                },
            },
    {
        match cmd {
            Command::Help => Action::Reply(String::from_str(descriptions)),
            Command::Twitter(arg) => match TwitterScraper::request_url(arg.as_str()) {
                Ok(u) => Action::FetchTwitter(u),
                Err(e) => Action::Reply(e.to_string()),
            },
            Command::Tiktok(arg) => match TikTokScraper::start(arg.as_str()) {
                TikTokStep::Done(r) => Action::SendMedias(vec![r]),
                TikTokStep::Resolve(u) => Action::ResolveTiktok(u),
            },
        }
    }

    /// What the bot does with the scraping service's answer for an X post
    /// (`None`: no answer, or one that is no JSON).
    pub fn on_twitter_response(response: Option<Json>) -> (res: Action)
        ensures
            match answer_of(response) {
                ScraperAnswer::Failed(msg) => res matches Action::Reply(t) && t@ == msg,
                ScraperAnswer::Refused(e) => res matches Action::Reply(t) && t@ == e.message_text(),
                ScraperAnswer::Items(items) => if items.len() == 0 {
                    res matches Action::Reply(t) && t@ == Error::NoMediaFound.message_text()
                } else {
                    res matches Action::SendMedias(v) && results_match_items(v@, items)
                },
            },
    {
        Self::reply_to_scraping(TwitterScraper::medias_from_response(response))
    }

    /// What the bot does with the answer to the request for the redirection
    /// of a short TikTok link.
    pub fn on_tiktok_response(response: Result<RedirectResponse, RequestFailure>) -> (res: Action)
        ensures
            res matches Action::SendMedias(v) && v@.len() == 1 && media_result_is(
                v@[0],
                media_of_redirection(response_view(response)),
            ),
    {
        let media = TikTokScraper::finish(response);
        match TikTokScraper::get_medias(media) {
            Ok(v) => Action::SendMedias(v),
            Err(e) => Action::Reply(e.to_string()),
        }
    }
}

} // verus!
