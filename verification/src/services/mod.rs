//! The service layer of the bot: a scraper service that finds the media of
//! a command, and a message service that sends them.
pub mod command;
pub mod container;
pub mod message_service;
pub mod scraper_service;
