use media_bot::common::{Error, MediaKind};
use media_bot::tiktok::scraper::{RedirectResponse, RequestFailure, TikTokStep};
use media_bot::tiktok::TikTokScraper;
use media_bot::url::Url;

const VIDEO: &str = "https://www.tiktok.com/@benmoraga/video/7552558101023526166?is_from_webapp=1&sender_device=pc";

fn url(s: &str) -> Url {
    Url::parse(s).unwrap()
}

#[test]
fn accepts_video_links() {
    assert_eq!(TikTokScraper::validate_tiktok_url(&url(VIDEO)), Ok(()));
    assert_eq!(TikTokScraper::validate_tiktok_url(&url("https://www.tiktok.com/video/7552558101023526166")), Ok(()));
    assert_eq!(TikTokScraper::validate_tiktok_url(&url("https://www.tiktok.com/@ab/video/7552558101023526166/")), Ok(()));
}

#[test]
fn refuses_other_links() {
    let refused = [
        "https://vm.tiktok.com/@benmoraga/video/7552558101023526166",
        "https://www.tiktok.com/benmoraga/video/7552558101023526166",
        "https://www.tiktok.com/@/video/7552558101023526166",
        "https://www.tiktok.com/@benmoraga/photo/7552558101023526166",
        "https://www.tiktok.com/@benmoraga/video/75525581010235",
        "https://www.tiktok.com/@benmoraga/video/75525581010235261a6",
        "https://www.tiktok.com/a/@benmoraga/video/7552558101023526166",
        "https://www.tiktok.com/",
    ];
    for link in refused {
        assert_eq!(TikTokScraper::validate_tiktok_url(&url(link)), Err(Error::InvalidUrl), "{link}");
    }
}

#[test]
fn short_links() {
    assert_eq!(TikTokScraper::validate_redirection_url(&url("https://vm.tiktok.com/ZNdpECbDU/")), Err(Error::InvalidUrl));
    assert_eq!(TikTokScraper::validate_redirection_url(&url("https://vm.tiktok.com/ZNdpECbDU")), Ok(()));
    assert_eq!(TikTokScraper::validate_redirection_url(&url("https://vt.tiktok.com/ZNdpEC")), Ok(()));
    assert_eq!(TikTokScraper::validate_redirection_url(&url("https://vt.tiktok.com/ZNdpE")), Err(Error::InvalidUrl));
    assert_eq!(TikTokScraper::validate_redirection_url(&url("https://vt.tiktok.com/ZNd-pECbDU")), Err(Error::InvalidUrl));
    assert_eq!(TikTokScraper::validate_redirection_url(&url("https://www.tiktok.com/ZNdpECbDU")), Err(Error::InvalidUrl));
    assert_eq!(TikTokScraper::validate_redirection_url(&url("https://127.0.0.1/ZNdpECbDU")), Err(Error::InvalidUrl));
}

#[test]
fn media_link_of_video() {
    let m = TikTokScraper::media_url("7552558101023526166").unwrap();
    assert_eq!(m.as_str(), "https://www.tikwm.com/video/media/hdplay/7552558101023526166.mp4");
}

#[test]
fn full_link_is_answered() {
    match TikTokScraper::start(VIDEO) {
        TikTokStep::Done(Ok(m)) => {
            assert_eq!(m.kind, MediaKind::Video);
            assert_eq!(m.url.as_str(), "https://www.tikwm.com/video/media/hdplay/7552558101023526166.mp4");
        }
        _ => panic!("expected a media"),
    }
}

#[test]
fn start_refuses_bad_links() {
    for link in ["nonsense", "https://example.com/video/7552558101023526166", "https://127.0.0.1/x", "https://www.tiktok.com/@u/video/1"] {
        match TikTokScraper::start(link) {
            TikTokStep::Done(Err(e)) => assert_eq!(e, Error::InvalidUrl, "{link}"),
            _ => panic!("expected a refusal for {link}"),
        }
    }
    match TikTokScraper::start("https://vm.tiktok.com/ZN") {
        TikTokStep::Done(Err(e)) => assert_eq!(e, Error::InvalidUrl),
        _ => panic!("expected a refusal"),
    }
}

#[test]
fn short_link_is_resolved() {
    match TikTokScraper::start("https://vm.tiktok.com/ZNdpECbDU") {
        TikTokStep::Resolve(u) => assert_eq!(u.as_str(), "https://vm.tiktok.com/ZNdpECbDU"),
        _ => panic!("expected a redirection to resolve"),
    }
}

fn redirect(location: &str) -> Result<RedirectResponse, RequestFailure> {
    Ok(RedirectResponse { is_redirection: true, location: Some(location.as_bytes().to_vec()) })
}

#[test]
fn redirection_answers() {
    let m = TikTokScraper::finish(redirect(VIDEO)).unwrap();
    assert_eq!(m.kind, MediaKind::Video);
    assert_eq!(m.url.as_str(), "https://www.tikwm.com/video/media/hdplay/7552558101023526166.mp4");
    assert_eq!(TikTokScraper::finish(Err(RequestFailure::ClientBuild)).err(), Some(Error::Unknown));
    assert_eq!(TikTokScraper::finish(Err(RequestFailure::Send)).err(), Some(Error::InvalidUrl));
    let not_redirect = Ok(RedirectResponse { is_redirection: false, location: Some(VIDEO.as_bytes().to_vec()) });
    assert_eq!(TikTokScraper::finish(not_redirect).err(), Some(Error::Unknown));
    let no_location = Ok(RedirectResponse { is_redirection: true, location: None });
    assert_eq!(TikTokScraper::finish(no_location).err(), Some(Error::Unknown));
    let invisible = Ok(RedirectResponse { is_redirection: true, location: Some(vec![b'h', 0x7f]) });
    assert_eq!(TikTokScraper::finish(invisible).err(), Some(Error::Unknown));
    assert_eq!(TikTokScraper::finish(redirect("https://example.com/x")).err(), Some(Error::Unknown));
    assert_eq!(TikTokScraper::finish(redirect("/relative")).err(), Some(Error::Unknown));
    assert_eq!(TikTokScraper::finish(redirect("https://www.tiktok.com/explore")).err(), Some(Error::InvalidUrl));
}

#[test]
fn header_text_takes_visible_ascii() {
    assert_eq!(TikTokScraper::header_text(b"abc\tdef"), Some("abc\tdef".to_string()));
    assert_eq!(TikTokScraper::header_text(&[0x61, 0x0a]), None);
    assert_eq!(TikTokScraper::header_text(&[0xc3, 0xa9]), None);
    assert_eq!(TikTokScraper::header_text(b""), Some(String::new()));
}

#[test]
fn short_link_gives_what_its_target_gives() {
    let direct = match TikTokScraper::start(VIDEO) {
        TikTokStep::Done(Ok(m)) => m,
        _ => panic!("expected a media"),
    };
    let redirected = TikTokScraper::finish(redirect(VIDEO)).unwrap();
    assert_eq!(direct.kind, redirected.kind);
    assert_eq!(direct.url.as_str(), redirected.url.as_str());
}

#[test]
fn get_medias_gives_one_result() {
    let v = TikTokScraper::get_medias(Err(Error::InvalidUrl)).unwrap();
    assert_eq!(v.len(), 1);
    assert_eq!(v[0].as_ref().err(), Some(&Error::InvalidUrl));
}

#[test]
fn error_messages() {
    assert_eq!(Error::InvalidUrl.to_string(), "Invalid URL.");
    assert_eq!(Error::InvalidLink.to_string(), "Invalid link.");
    assert_eq!(Error::Unknown.to_string(), "An unexpected error occured, please retry later...");
    assert_eq!(Error::Custom("boom".to_string()).to_string(), "boom");
    assert_eq!(
        Error::NoMediaFound.to_string(),
        "No media items found for this link. The post might be private or not contain any media."
    );
}
