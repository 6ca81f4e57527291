//! Where TikTok videos are fetched from, and how the redirection of a short
//! link is asked for.
use vstd::prelude::*;

verus! {

/// The start of the link of a video file; the video id and
/// `TIKTOK_SCRAPER_LINK_END` follow.
pub const TIKTOK_SCRAPER_LINK: &'static str = "https://www.tikwm.com/video/media/hdplay/";

/// The end of the link of a video file.
pub const TIKTOK_SCRAPER_LINK_END: &'static str = ".mp4";

/// The user agent of a browser.
pub const BROWSER_UA: &'static str = "Mozilla/5.0 (Macintosh; Intel Mac OS X 10_15_7) AppleWebKit/537.36 (KHTML, like Gecko) Chrome/120.0.0.0 Safari/537.36";

/// The user agent sent when a short link is resolved.
pub const MINIMAL_USER_AGENT: &'static str = "curl/8.7.1";

/// The `Accept` header sent when a short link is resolved.
pub const MINIMAL_ACCEPT: &'static str = "*/*";

/// The domain of a full TikTok link.
pub const TIKTOK_DOMAIN: &'static str = "www.tiktok.com";

/// The domains of short TikTok links.
pub const TIKTOK_SHORT_DOMAIN_VM: &'static str = "vm.tiktok.com";

pub const TIKTOK_SHORT_DOMAIN_VT: &'static str = "vt.tiktok.com";

} // verus!
