//! The service that lists the media of a post.
use vstd::prelude::*;

verus! {

/// The start of the request for the media of a post; the post id follows.
pub const TWITTER_SCRAPER_LINK: &'static str = "https://www.twitter-viewer.com/api/x/tweet?tweetId=";

} // verus!
