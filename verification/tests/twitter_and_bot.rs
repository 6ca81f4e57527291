use media_bot::common::{Error, MediaKind, MediaMetadata};
use media_bot::json::Json;
use media_bot::telegram::bot::{Action, Command};
use media_bot::telegram::error::Error as TelegramError;
use media_bot::telegram::sender::{SendFailure, SendJob};
use media_bot::telegram::{TelegramBot, TelegramSender};
use media_bot::twitter::TwitterScraper;
use media_bot::url::Url;

fn text(s: &str) -> Json {
    Json::String(s.to_string())
}

fn obj(members: Vec<(&str, Json)>) -> Json {
    Json::Object(members.into_iter().map(|(k, v)| (k.to_string(), v)).collect())
}

fn answer(items: Vec<Json>) -> Json {
    obj(vec![("success", Json::Bool(true)), ("data", obj(vec![("media", Json::Array(items))]))])
}

#[test]
fn request_for_post() {
    let u = TwitterScraper::request_url("https://x.com/user/status/1234567890").unwrap();
    assert_eq!(u.as_str(), "https://www.twitter-viewer.com/api/x/tweet?tweetId=1234567890");
    assert_eq!(TwitterScraper::request_url("no link").err(), Some(Error::InvalidUrl));
    assert_eq!(TwitterScraper::request_url("data:text/plain,x").err(), Some(Error::InvalidUrl));
}

#[test]
fn metadata_of_items() {
    let photo = obj(vec![("type", text("photo")), ("url", text("https://pbs.twimg.com/media/a.jpg"))]);
    let m = TwitterScraper::parse_metadata(&photo).unwrap();
    assert_eq!(m.kind, MediaKind::Image);
    assert_eq!(m.url.as_str(), "https://pbs.twimg.com/media/a.jpg");
    let video = obj(vec![("type", text("video")), ("videoUrl", text("https://video.twimg.com/v.mp4"))]);
    let m = TwitterScraper::parse_metadata(&video).unwrap();
    assert_eq!(m.kind, MediaKind::Video);
    assert_eq!(m.url.as_str(), "https://video.twimg.com/v.mp4");
    let gif = obj(vec![("type", text("gif")), ("url", text("https://x/a.gif"))]);
    assert_eq!(TwitterScraper::parse_metadata(&gif).err(), Some(Error::FileTypeNotSupported));
    let no_type = obj(vec![("url", text("https://x/a.gif"))]);
    assert_eq!(TwitterScraper::parse_metadata(&no_type).err(), Some(Error::InvalidScraperResponse));
    let no_url = obj(vec![("type", text("image"))]);
    assert_eq!(TwitterScraper::parse_metadata(&no_url).err(), Some(Error::InvalidScraperResponse));
    let bad_url = obj(vec![("type", text("image")), ("url", text("nope"))]);
    assert_eq!(TwitterScraper::parse_metadata(&bad_url).err(), Some(Error::InvalidScraperResponse));
}

#[test]
fn response_media_in_order() {
    let items = vec![
        obj(vec![("type", text("image")), ("url", text("https://pbs.twimg.com/media/a.jpg"))]),
        obj(vec![("type", text("gif"))]),
    ];
    let v = TwitterScraper::medias_from_response(Some(answer(items))).unwrap();
    assert_eq!(v.len(), 2);
    assert_eq!(v[0].as_ref().unwrap().url.as_str(), "https://pbs.twimg.com/media/a.jpg");
    assert_eq!(v[1].as_ref().err(), Some(&Error::FileTypeNotSupported));
}

#[test]
fn response_refusals() {
    assert_eq!(TwitterScraper::medias_from_response(None).err(), Some(Error::Unknown));
    assert_eq!(TwitterScraper::medias_from_response(Some(answer(vec![]))).err(), Some(Error::NoMediaFound));
    let no_data = obj(vec![("success", Json::Bool(true))]);
    assert_eq!(TwitterScraper::medias_from_response(Some(no_data)).err(), Some(Error::InvalidScraperResponse));
    let not_list = obj(vec![("data", obj(vec![("media", text("x"))]))]);
    assert_eq!(TwitterScraper::medias_from_response(Some(not_list)).err(), Some(Error::InvalidScraperResponse));
    let failed = obj(vec![("success", Json::Bool(false)), ("error", text("Tweet not found"))]);
    assert_eq!(
        TwitterScraper::medias_from_response(Some(failed)).err(),
        Some(Error::Custom("\"Tweet not found\"".to_string()))
    );
    let failed_silently = obj(vec![("success", Json::Bool(false))]);
    assert_eq!(
        TwitterScraper::medias_from_response(Some(failed_silently)).err(),
        Some(Error::Custom("An unexpected error occured, please retry later...".to_string()))
    );
    let failed_code = obj(vec![("success", Json::Bool(false)), ("error", obj(vec![("code", Json::Number(serde_json::Number::from(404)))]))]);
    assert_eq!(
        TwitterScraper::medias_from_response(Some(failed_code)).err(),
        Some(Error::Custom("{\"code\":404}".to_string()))
    );
}

#[test]
fn json_text_of_values() {
    assert_eq!(Json::Null.to_text(), "null");
    assert_eq!(Json::Array(vec![Json::Bool(true), text("a\"b")]).to_text(), "[true,\"a\\\"b\"]");
}

#[test]
fn command_texts() {
    assert_eq!(Command::Help.to_string(), "/help");
    assert_eq!(Command::Twitter("https://x.com/a".to_string()).to_string(), "/twitter https://x.com/a");
    assert_eq!(Command::Tiktok("t".to_string()).to_string(), "/tiktok t");
    assert_eq!(TelegramBot::unknown_command_reply(), "Unknown command");
}

#[test]
fn help_is_answered_with_descriptions() {
    match TelegramBot::on_command(Command::Help, "These commands are supported:") {
        Action::Reply(t) => assert_eq!(t, "These commands are supported:"),
        _ => panic!("expected a reply"),
    }
}

#[test]
fn twitter_command_fetches_or_replies() {
    match TelegramBot::on_command(Command::Twitter("https://x.com/u/status/42".to_string()), "") {
        Action::FetchTwitter(u) => assert_eq!(u.as_str(), "https://www.twitter-viewer.com/api/x/tweet?tweetId=42"),
        _ => panic!("expected a fetch"),
    }
    match TelegramBot::on_command(Command::Twitter("bad".to_string()), "") {
        Action::Reply(t) => assert_eq!(t, "Invalid URL."),
        _ => panic!("expected a reply"),
    }
    match TelegramBot::on_twitter_response(None) {
        Action::Reply(t) => assert_eq!(t, "An unexpected error occured, please retry later..."),
        _ => panic!("expected a reply"),
    }
}

#[test]
fn tiktok_command_sends_or_resolves() {
    match TelegramBot::on_command(Command::Tiktok("https://vt.tiktok.com/ZNdpECbDU".to_string()), "") {
        Action::ResolveTiktok(u) => assert_eq!(u.as_str(), "https://vt.tiktok.com/ZNdpECbDU"),
        _ => panic!("expected a resolution"),
    }
    match TelegramBot::on_command(Command::Tiktok("https://www.tiktok.com/x".to_string()), "") {
        Action::SendMedias(v) => {
            assert_eq!(v.len(), 1);
            assert_eq!(v[0].as_ref().err(), Some(&Error::InvalidUrl));
        }
        _ => panic!("expected media results"),
    }
    match TelegramBot::on_tiktok_response(Err(media_bot::tiktok::scraper::RequestFailure::Send)) {
        Action::SendMedias(v) => assert_eq!(v[0].as_ref().err(), Some(&Error::InvalidUrl)),
        _ => panic!("expected media results"),
    }
}

#[test]
fn sender_plans_one_message_per_result() {
    let u = Url::parse("https://pbs.twimg.com/media/a.jpg").unwrap();
    let results = vec![Ok(MediaMetadata::new(MediaKind::Image, u)), Err(Error::NoMediaFound)];
    let jobs = TelegramSender::plan(results);
    assert_eq!(jobs.len(), 2);
    match &jobs[0] {
        SendJob::Media(m) => assert_eq!(m.url.as_str(), "https://pbs.twimg.com/media/a.jpg"),
        _ => panic!("expected a media"),
    }
    match &jobs[1] {
        SendJob::Notice(t) => assert_eq!(
            t,
            "No media items found for this link. The post might be private or not contain any media."
        ),
        _ => panic!("expected a notice"),
    }
}

#[test]
fn failure_notices() {
    assert_eq!(
        TelegramSender::failure_notice(SendFailure::ApiUnknown),
        Error::Custom("An unexpected error occured, please retry later...\nNote: ensure that the URL is valid".to_string())
    );
    assert_eq!(TelegramSender::failure_notice(SendFailure::Other), Error::Unknown);
}

#[test]
fn telegram_error_messages() {
    assert_eq!(TelegramError::InvalidLink.to_string(), "Invalid link provided. Please provide a valid Twitter/X link.");
    assert_eq!(TelegramError::Other.to_string(), "An unexpected error occured, please retry later...");
    assert_eq!(TelegramError::Custom("c".to_string()).to_string(), "c");
}

#[test]
fn media_display_text_of_core_type() {
    let m = MediaMetadata::new(MediaKind::Image, Url::parse("https://pbs.twimg.com/media/a.jpg").unwrap());
    assert_eq!(m.to_string(), "Image(https://pbs.twimg.com/media/a.jpg)");
}

#[test]
fn scrape_medias_inner_keeps_empty_lists() {
    let v = TwitterScraper::scrape_medias_inner(Some(answer(vec![]))).unwrap();
    assert!(v.is_empty());
    assert_eq!(TwitterScraper::medias_from_response(Some(answer(vec![]))).err(), Some(Error::NoMediaFound));
    assert_eq!(TwitterScraper::scrape_medias_inner(None).err(), Some(Error::Unknown));
    assert_eq!(
        TwitterScraper::scrape_medias_inner(Some(obj(vec![("data", text("x"))]))).err(),
        Some(Error::InvalidScraperResponse)
    );
    let items = vec![obj(vec![("type", text("gif"))]), obj(vec![("type", text("image")), ("url", text("https://p/a.jpg"))])];
    let v = TwitterScraper::scrape_medias_inner(Some(answer(items))).unwrap();
    assert_eq!(v.len(), 2);
    assert_eq!(v[0].as_ref().err(), Some(&Error::FileTypeNotSupported));
    assert_eq!(v[1].as_ref().unwrap().kind, MediaKind::Image);
}
