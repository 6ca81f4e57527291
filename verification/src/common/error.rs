//! The errors that the scrapers and the senders report to a chat.
use vstd::prelude::*;

verus! {

/// An error of a scraper or a sender; its message is what the chat is told.
#[derive(Debug, PartialEq, Eq)]
pub enum Error {
    NoMediaFound,
    InvalidLink,
    InvalidUrl,
    MediaSendFailed,
    InvalidScraperResponse,
    FileTypeNotSupported,
    InvalidMedia,
    Unknown,
    Custom(String),
}

/// The error of the scrapers and senders under the name they use for it.
pub type BotError = Error;

/// The result of a scraper or a sender.
pub type BotResult<T> = Result<T, Error>;

impl Error {
    /// The message that describes the error.
    pub open spec fn message_text(&self) -> Seq<char> {
        match self {
            Error::NoMediaFound => "No media items found for this link. The post might be private or not contain any media."@,
            Error::InvalidLink => "Invalid link."@,
            Error::InvalidUrl => "Invalid URL."@,
            Error::MediaSendFailed => "Failed to send media. The media might be unavailable or the format unsupported."@,
            Error::InvalidScraperResponse => "The scraper returned an unexpected response. The link might be invalid or the content might be unavailable."@,
            Error::FileTypeNotSupported => "The media format is not currently supported."@,
            Error::InvalidMedia => "The media might be corrupted or in an unrecognized format."@,
            Error::Unknown => "An unexpected error occured, please retry later..."@,
            Error::Custom(msg) => msg@,
        }
    }

    /// The message that describes the error (its `Display` text).
    pub fn to_string(&self) -> (res: String)
        ensures
            res@ == self.message_text(),
    {
        match self {
            Error::NoMediaFound => String::from_str("No media items found for this link. The post might be private or not contain any media."),
            Error::InvalidLink => String::from_str("Invalid link."),
            Error::InvalidUrl => String::from_str("Invalid URL."),
            Error::MediaSendFailed => String::from_str("Failed to send media. The media might be unavailable or the format unsupported."),
            Error::InvalidScraperResponse => String::from_str("The scraper returned an unexpected response. The link might be invalid or the content might be unavailable."),
            Error::FileTypeNotSupported => String::from_str("The media format is not currently supported."),
            Error::InvalidMedia => String::from_str("The media might be corrupted or in an unrecognized format."),
            Error::Unknown => String::from_str("An unexpected error occured, please retry later..."),
            Error::Custom(msg) => msg.clone(),
        }
    }
}

} // verus!
