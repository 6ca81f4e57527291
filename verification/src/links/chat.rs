//! What the bot of the link handlers answers to each command, step by
//! step: the requests it makes are made by its caller, who hands back what
//! came of them.
use vstd::prelude::*;

use crate::links::x::{twitter_from_body, x_medias_of_body, x_post_id_of, x_url_parser, x_view, X};

verus! {

/// A command of the bot of the link handlers.
pub enum LinksCommand {
    /// Display the list of commands.
    Help,
    /// Handle an X link.
    Twitter(String),
    /// Handle an Instagram link.
    Instagram,
    /// Handle a TikTok link.
    Tiktok,
}

/// What the bot does next while it answers a command.
pub enum LinksStep {
    /// Send this text; the command is answered.
    Reply(String),
    /// Ask the X scraping service for the media of the post with this id.
    FetchX(String),
    /// Send this text, then download and send these media; the command is
    /// answered.
    SendX(String, Vec<X>),
}

/// The reply to an X link that gave no media list.
pub open spec fn not_recognized_text() -> Seq<char> {
    "url not recognized"@
}

/// The reply sent before the media of an X post.
pub open spec fn loading_text() -> Seq<char> {
    "x scrapping loading..."@
}

/// The reply to the Instagram command.
pub open spec fn insta_not_ready_text() -> Seq<char> {
    "🚧💻👨🏻‍💻 insta is not ready yet🚧"@
}

/// The reply to the TikTok command.
pub open spec fn tiktok_not_ready_text() -> Seq<char> {
    "🚧💻👨🏻‍💻 tiktok is not ready yet🚧"@
}

/// What the bot does first for `cmd`; `descriptions` is the list of
/// commands, the answer to `/help`. An X link is asked for by its post id,
/// or refused when it has none.
pub fn links_start(cmd: LinksCommand, descriptions: &str) -> (res: LinksStep)
    ensures
        match cmd {
            LinksCommand::Help => res matches LinksStep::Reply(t) && t@ == descriptions@,
            LinksCommand::Twitter(handle) => match x_post_id_of(handle@) {
                Ok(id) => res matches LinksStep::FetchX(p) && p@ == id,
                Err(_) => res matches LinksStep::Reply(t) && t@ == not_recognized_text(),
            },
            LinksCommand::Instagram => res matches LinksStep::Reply(t) && t@ == insta_not_ready_text(),
            LinksCommand::Tiktok => res matches LinksStep::Reply(t) && t@ == tiktok_not_ready_text(),
        },
{
    match cmd {
        LinksCommand::Help => LinksStep::Reply(String::from_str(descriptions)),
        LinksCommand::Twitter(handle) => match x_url_parser(handle.as_str()) {
            Ok(id) => LinksStep::FetchX(id),
            Err(_) => LinksStep::Reply(String::from_str("url not recognized")),
        },
        LinksCommand::Instagram => LinksStep::Reply(String::from_str("🚧💻👨🏻‍💻 insta is not ready yet🚧")),
        LinksCommand::Tiktok => LinksStep::Reply(String::from_str("🚧💻👨🏻‍💻 tiktok is not ready yet🚧")),
    }
}

/// What the bot does with the scraping service's answer text for an X post
/// (`None`: the request failed): its media are sent after a notice, and an
/// answer that gives no media list is told as an unrecognized link.
pub fn links_on_x_answer(body: Option<&str>) -> (res: LinksStep)
    ensures
        match body {
            None => res matches LinksStep::Reply(t) && t@ == not_recognized_text(),
            Some(b) => match x_medias_of_body(b@) {
                Err(_) => res matches LinksStep::Reply(t) && t@ == not_recognized_text(),
                Ok(ms) => res matches LinksStep::SendX(t, v) && t@ == loading_text() && v@.len()
                    == ms.len() && forall|i: int| 0 <= i < ms.len() ==> x_view(#[trigger] v@[i]) == ms[i],
            },
        },
{
    let b = match body {
        Some(b) => b,
        None => return LinksStep::Reply(String::from_str("url not recognized")),
    };
    match twitter_from_body(b) {
        Ok(v) => LinksStep::SendX(String::from_str("x scrapping loading..."), v),
        Err(_) => LinksStep::Reply(String::from_str("url not recognized")),
    }
}

} // verus!
