pub mod text;
pub mod url;
pub mod json;
pub mod common;
pub mod tiktok;
pub mod twitter;
pub mod telegram;
pub mod error;
pub mod services;
pub mod discord;
pub mod scraper;
pub mod links;
