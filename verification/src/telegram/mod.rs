//! The Telegram bot: which command asks for what, and what is sent back.
pub mod bot;
pub mod error;
pub mod sender;

pub use bot::TelegramBot;
pub use sender::TelegramSender;
