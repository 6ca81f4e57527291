//! The message service: what is sent to a chat for each scraping result.
use vstd::prelude::*;

use crate::error::{BotError, BotResult};
use crate::services::scraper_service::MediaMetadata;

verus! {

/// One message to send to the chat.
pub enum MessageJob {
    /// The media itself (a photo or a video, by its kind).
    Media(MediaMetadata),
    /// A text.
    Notice(String),
}

/// The text sent for a result that is an error.
pub open spec fn error_notice_text(e: BotError) -> Seq<char> {
    "Error: "@ + e.message_text()
}

/// The text sent when Telegram refused a media with the error `err`.
pub open spec fn media_failure_text(err: Seq<char>) -> Seq<char> {
    "Failed to send media: "@ + err
}

/// Whether `job` is what is sent for `result`.
pub open spec fn message_job_for(result: BotResult<MediaMetadata>, job: MessageJob) -> bool {
    match result {
        Ok(m) => job == MessageJob::Media(m),
        Err(e) => job matches MessageJob::Notice(t) && t@ == error_notice_text(e),
    }
}

/// The message service that the bot uses.
pub struct DefaultMessageService;

/// A message service.
pub enum MessageService {
    Default(DefaultMessageService),
}

impl DefaultMessageService {
    /// The messages to send for `scraping_results`, one per result, in the
    /// same order: the media, or `Error: ` and the error's message.
    pub fn plan(&self, scraping_results: Vec<BotResult<MediaMetadata>>) -> (res: Vec<MessageJob>)
        ensures
            res@.len() == scraping_results@.len(),
            forall|i: int|
                0 <= i < res@.len() ==> message_job_for(scraping_results@[i], #[trigger] res@[i]),
    {
        let ghost all = scraping_results@;
        let mut rest = scraping_results;
        let mut jobs: Vec<MessageJob> = Vec::new();
        assert(rest@ == all.skip(0));
        while rest.len() > 0
            invariant
                jobs@.len() + rest@.len() == all.len(),
                rest@ == all.skip(jobs@.len() as int),
                forall|i: int| 0 <= i < jobs@.len() ==> message_job_for(all[i], #[trigger] jobs@[i]),
            decreases rest@.len(),
        {
            let r = rest.remove(0);
            let ghost k = jobs@.len() as int;
            assert(r == all[k]);
            let job = match r {
                Ok(metadata) => MessageJob::Media(metadata),
                Err(err) => MessageJob::Notice(String::from_str("Error: ").concat(err.to_string().as_str())),
            };
            jobs.push(job);
            assert(rest@ == all.skip(k + 1));
        }
        jobs
    }

    /// The text sent when Telegram refused a media with the error `err`.
    pub fn media_failure_notice(err: &str) -> (res: String)
        ensures
            res@ == media_failure_text(err@),
    {
        String::from_str("Failed to send media: ").concat(err)
    }

    /// The error reported for a message that could not be sent: a media
    /// that failed is `MediaSendFailed`, a text that failed is `Other`.
    pub fn failure_of(job: &MessageJob) -> (res: BotError)
        ensures
            match *job {
                MessageJob::Media(_) => res == BotError::MediaSendFailed,
                MessageJob::Notice(_) => res == BotError::Other,
            },
    {
        match job {
            MessageJob::Media(_) => BotError::MediaSendFailed,
            MessageJob::Notice(_) => BotError::Other,
        }
    }
}

impl MessageService {
    pub fn new() -> (res: Self)
        ensures
            res == MessageService::Default(DefaultMessageService),
    {
        MessageService::Default(DefaultMessageService)
    }

    /// The messages to send for `scraping_results` (see
    /// `DefaultMessageService::plan`).
    pub fn plan(&self, scraping_results: Vec<BotResult<MediaMetadata>>) -> (res: Vec<MessageJob>)
        ensures
            res@.len() == scraping_results@.len(),
            forall|i: int|
                0 <= i < res@.len() ==> message_job_for(scraping_results@[i], #[trigger] res@[i]),
    {
        match self {
            MessageService::Default(service) => service.plan(scraping_results),
        }
    }
}

} // verus!
