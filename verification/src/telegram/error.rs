//! The errors of the Telegram bot, with the messages sent to the chat.
use vstd::prelude::*;

verus! {

/// An error of the Telegram bot; its message is what the chat is told.
#[derive(Debug, PartialEq, Eq)]
pub enum Error {
    NoMediaFound,
    InvalidLink,
    InvalidUrl,
    MediaSendFailed,
    InvalidScraperResponse,
    FileTypeNotSupported,
    InvalidMedia,
    Other,
    Custom(String),
}

impl Error {
    /// The message that describes the error.
    pub open spec fn message_text(&self) -> Seq<char> {
        match self {
            Error::NoMediaFound => "No media items found for this link. The post might be private or not contain any media."@,
            Error::InvalidLink => "Invalid link provided. Please provide a valid Twitter/X link."@,
            Error::InvalidUrl => "Invalid URL format. Please provide a valid Twitter/X link."@,
            Error::MediaSendFailed => "Failed to send media. The media might be unavailable or the format unsupported."@,
            Error::InvalidScraperResponse => "The scraper returned an unexpected response. The link might be invalid or the content might be unavailable."@,
            Error::FileTypeNotSupported => "The media format is not currently supported."@,
            Error::InvalidMedia => "The media might be corrupted or in an unrecognized format."@,
            Error::Other => "An unexpected error occured, please retry later..."@,
            Error::Custom(msg) => msg@,
        }
    }

    /// The message that describes the error (its `Display` text).
    pub fn to_string(&self) -> (res: String)
        ensures
            res@ == self.message_text(),
    {
        match self {
            Error::NoMediaFound => String::from_str("No media items found for this link. The post might be private or not contain any media."),
            Error::InvalidLink => String::from_str("Invalid link provided. Please provide a valid Twitter/X link."),
            Error::InvalidUrl => String::from_str("Invalid URL format. Please provide a valid Twitter/X link."),
            Error::MediaSendFailed => String::from_str("Failed to send media. The media might be unavailable or the format unsupported."),
            Error::InvalidScraperResponse => String::from_str("The scraper returned an unexpected response. The link might be invalid or the content might be unavailable."),
            Error::FileTypeNotSupported => String::from_str("The media format is not currently supported."),
            Error::InvalidMedia => String::from_str("The media might be corrupted or in an unrecognized format."),
            Error::Other => String::from_str("An unexpected error occured, please retry later..."),
            Error::Custom(msg) => msg.clone(),
        }
    }
}

} // verus!
