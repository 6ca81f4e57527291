//! The link handlers of the media bot: X posts, TikTok videos and Instagram
//! profiles, and the files their media are written to.
pub mod chat;
pub mod handler;
pub mod insta;
pub mod tiktok;
pub mod x;
