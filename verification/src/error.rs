//! The errors of the service layer, with the messages sent to the chat.
use vstd::prelude::*;

verus! {

/// An error of the service layer; its message is what the chat is told.
#[derive(Debug, Clone, Copy, PartialEq, Eq, Structural)]
pub enum BotError {
    NoMediaFound,
    InvalidLink,
    InvalidUrl,
    MediaSendFailed,
    InvalidScraperResponse,
    FileTypeNotSupported,
    InvalidMedia,
    Other,
}

/// The result of a service.
pub type BotResult<T> = Result<T, BotError>;

impl BotError {
    /// The message that describes the error.
    pub open spec fn message_text(&self) -> Seq<char> {
        match self {
            BotError::NoMediaFound => "No media items found for this link. The post might be private or not contain any media."@,
            BotError::InvalidLink => "Invalid link provided. Please provide a valid Twitter/X link."@,
            BotError::InvalidUrl => "Invalid URL format. Please provide a valid Twitter/X link."@,
            BotError::MediaSendFailed => "Failed to send media. The media might be unavailable or the format unsupported."@,
            BotError::InvalidScraperResponse => "The scraper returned an unexpected response. The link might be invalid or the content might be unavailable."@,
            BotError::FileTypeNotSupported => "The media format is not currently supported."@,
            BotError::InvalidMedia => "The media might be corrupted or in an unrecognized format."@,
            BotError::Other => "An unexpected error occured, please retry later..."@,
        }
    }

    /// The message that describes the error (its `Display` text).
    pub fn to_string(&self) -> (res: String)
        ensures
            res@ == self.message_text(),
    {
        match self {
            BotError::NoMediaFound => String::from_str("No media items found for this link. The post might be private or not contain any media."),
            BotError::InvalidLink => String::from_str("Invalid link provided. Please provide a valid Twitter/X link."),
            BotError::InvalidUrl => String::from_str("Invalid URL format. Please provide a valid Twitter/X link."),
            BotError::MediaSendFailed => String::from_str("Failed to send media. The media might be unavailable or the format unsupported."),
            BotError::InvalidScraperResponse => String::from_str("The scraper returned an unexpected response. The link might be invalid or the content might be unavailable."),
            BotError::FileTypeNotSupported => String::from_str("The media format is not currently supported."),
            BotError::InvalidMedia => String::from_str("The media might be corrupted or in an unrecognized format."),
            BotError::Other => String::from_str("An unexpected error occured, please retry later..."),
        }
    }
}

} // verus!
