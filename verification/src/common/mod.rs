//! The error type, the media description and the service traits shared by
//! the scrapers and the senders.
pub mod error;
pub mod traits;
pub mod types;

pub use error::{BotError, BotResult, Error};
pub use types::{media_result_is, MediaKind, MediaMetadata};
