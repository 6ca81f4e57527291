//! The services a chat is answered with.
use vstd::prelude::*;

use crate::services::message_service::{DefaultMessageService, MessageService};
use crate::services::scraper_service::{DefaultScraperService, ScraperService};

verus! {

/// The services a chat is answered with.
pub struct ServiceContainer {
    pub scraper_service: ScraperService,
    pub message_service: MessageService,
}

impl ServiceContainer {
    pub fn new() -> (res: Self)
        ensures
            res.scraper_service == ScraperService::Default(DefaultScraperService),
            res.message_service == MessageService::Default(DefaultMessageService),
    {
        Self { scraper_service: ScraperService::new(), message_service: MessageService::new() }
    }
}

} // verus!
