//! What the Telegram bot sends for each scraping result.
use vstd::prelude::*;

use crate::common::traits::MediaSender;
use crate::common::{BotError, BotResult, MediaMetadata};

verus! {

/// One message to send to the chat.
pub enum SendJob {
    /// The media itself (a photo or a video, by its kind).
    Media(MediaMetadata),
    /// A text, the message of an error.
    Notice(String),
}

/// Whether `job` is what is sent for `result`: the media when there is
/// one, else the error's message.
pub open spec fn job_for(result: BotResult<MediaMetadata>, job: SendJob) -> bool {
    match result {
        Ok(m) => job == SendJob::Media(m),
        Err(e) => job matches SendJob::Notice(t) && t@ == e.message_text(),
    }
}

/// Why Telegram refused a media.
#[derive(Debug, Clone, Copy, PartialEq, Eq, Structural)]
pub enum SendFailure {
    /// An API error that Telegram did not describe further (most likely an
    /// invalid link given by the user).
    ApiUnknown,
    /// Any other failure.
    Other,
}

/// The note added to the message of an unknown error when Telegram refused
/// a media without saying why.
pub open spec fn url_note() -> Seq<char> {
    "\nNote: ensure that the URL is valid"@
}

/// Sender of scraping results to a Telegram chat.
pub struct TelegramSender;

impl TelegramSender {
    /// The messages to send for `scraping_results`, one per result, in the
    /// same order.
    pub fn plan(scraping_results: Vec<BotResult<MediaMetadata>>) -> (res: Vec<SendJob>)
        ensures
            res@.len() == scraping_results@.len(),
            forall|i: int|
                0 <= i < res@.len() ==> job_for(scraping_results@[i], #[trigger] res@[i]),
    {
        let ghost all = scraping_results@;
        let mut rest = scraping_results;
        let mut jobs: Vec<SendJob> = Vec::new();
        assert(rest@ == all.skip(0));
        while rest.len() > 0
            invariant
                jobs@.len() + rest@.len() == all.len(),
                rest@ == all.skip(jobs@.len() as int),
                forall|i: int| 0 <= i < jobs@.len() ==> job_for(all[i], #[trigger] jobs@[i]),
            decreases rest@.len(),
        {
            let r = rest.remove(0);
            let ghost k = jobs@.len() as int;
            assert(r == all[k]);
            let job = match r {
                Ok(metadata) => SendJob::Media(metadata),
                Err(err) => SendJob::Notice(err.to_string()),
            };
            jobs.push(job);
            assert(rest@ == all.skip(k + 1));
        }
        jobs
    }

    /// The error whose message is sent when Telegram refused a media.
    pub fn failure_notice(failure: SendFailure) -> (res: BotError)
        ensures
            match failure {
                SendFailure::ApiUnknown => res matches BotError::Custom(m) && m@
                    == BotError::Unknown.message_text() + url_note(),
                SendFailure::Other => res == BotError::Unknown,
            },
    {
        match failure {
            SendFailure::ApiUnknown => {
                let mut unknown_err = BotError::Unknown.to_string();
                unknown_err.append("\nNote: ensure that the URL is valid");
                BotError::Custom(unknown_err)
            },
            SendFailure::Other => BotError::Unknown,
        }
    }
}

impl MediaSender for TelegramSender {
    type Input = Vec<BotResult<MediaMetadata>>;

    type Output = Vec<SendJob>;

    fn send_medias(input: Self::Input) -> (res: Self::Output)
        ensures
            res@.len() == input@.len(),
            forall|i: int| 0 <= i < res@.len() ==> job_for(input@[i], #[trigger] res@[i]),
    {
        TelegramSender::plan(input)
    }
}

} // verus!
