use media_bot::error::BotError;
use media_bot::json::Json;
use media_bot::services::command::Command;
use media_bot::services::container::ServiceContainer;
use media_bot::services::message_service::{DefaultMessageService, MessageJob, MessageService};
use media_bot::services::scraper_service::twitter::error::{
    custom, invalid_field, invalid_response, invalid_url, missing_field,
};
use media_bot::services::scraper_service::twitter::{FetchError, Twitter};
use media_bot::services::scraper_service::{
    MediaKind, MediaMetadata, ScrapeStep, ScraperService, TwitterMediaMetadata,
};
use media_bot::url::Url;

fn text(s: &str) -> Json {
    Json::String(s.to_string())
}

fn obj(members: Vec<(&str, Json)>) -> Json {
    Json::Object(members.into_iter().map(|(k, v)| (k.to_string(), v)).collect())
}

fn answer(items: Vec<Json>) -> Json {
    obj(vec![("data", obj(vec![("media", Json::Array(items))]))])
}

const BASE: &str = "https://scraper.example/api?id=";

#[test]
fn post_id_of_links() {
    assert_eq!(
        Twitter::post_id_from_url("https://x.com/user/status/123?s=20"),
        Ok("123".to_string())
    );
    assert_eq!(
        Twitter::post_id_from_url("https://twitter.com/user/status/42/photo/1"),
        Ok("42/photo/1".to_string())
    );
    assert_eq!(
        Twitter::post_id_from_url("https://x.com/user"),
        Err("invalid url: Invalid domain expect more segment in the url".to_string())
    );
    assert_eq!(
        Twitter::post_id_from_url("https://example.com/user/status/1"),
        Err("invalid url: Invalid domain".to_string())
    );
    assert_eq!(Twitter::parse_post_id_from_url("https://x.com/a/status/7"), Ok("7".to_string()));
    assert_eq!(Twitter::parse_post_id_from_url("https://x.com/a"), Err(BotError::InvalidUrl));
}

#[test]
fn scraper_links() {
    assert_eq!(Twitter::scraper_link(BASE, "99"), "https://scraper.example/api?id=99");
    let u = Twitter::scraper_url(BASE, "99").unwrap();
    assert_eq!(u.as_str(), "https://scraper.example/api?id=99");
    assert_eq!(Twitter::scraper_url("no base ", "99").err(), Some(BotError::InvalidLink));
    let handle = Url::parse("https://x.com/user/status/555").unwrap();
    assert_eq!(Twitter::request_for(&handle, BASE).unwrap().as_str(), "https://scraper.example/api?id=555");
    let opaque = Url::parse("data:text/plain,x").unwrap();
    assert_eq!(Twitter::request_for(&opaque, BASE).err(), Some(BotError::InvalidUrl));
}

#[test]
fn item_messages() {
    let image = obj(vec![("type", text("image")), ("url", text("https://pbs.twimg.com/media/abc.jpg"))]);
    let m = TwitterMediaMetadata::from_json_item(&image).unwrap();
    assert_eq!(m.id, "abc");
    assert_eq!(m.kind, MediaKind::Image);
    assert_eq!(m.url.as_str(), "https://pbs.twimg.com/media/abc.jpg");
    let video = obj(vec![("type", text("video")), ("videoUrl", text("https://video.twimg.com/v/clip.mp4"))]);
    let m = TwitterMediaMetadata::from_json_item(&video).unwrap();
    assert_eq!(m.id, "clip");
    assert_eq!(m.kind, MediaKind::Video);
    let photo = obj(vec![("type", text("photo")), ("url", text("https://pbs.twimg.com/media/abc.jpg"))]);
    assert_eq!(
        TwitterMediaMetadata::from_json_item(&photo).err(),
        Some("unknown media type: photo".to_string())
    );
    let no_type = obj(vec![("url", text("https://pbs.twimg.com/media/abc.jpg"))]);
    assert_eq!(
        TwitterMediaMetadata::from_json_item(&no_type).err(),
        Some("invalid response from Twitter scraper: missing field 'type'".to_string())
    );
    let no_url = obj(vec![("type", text("video"))]);
    assert_eq!(
        TwitterMediaMetadata::from_json_item(&no_url).err(),
        Some("invalid response from Twitter scraper: missing field 'videoUrl'".to_string())
    );
    let no_dot = obj(vec![("type", text("image")), ("url", text("https://pbs.twimg.com/media/abc"))]);
    assert_eq!(
        TwitterMediaMetadata::from_json_item(&no_dot).err(),
        Some("invalid URL format: https://pbs.twimg.com/media/abc".to_string())
    );
    let bad = obj(vec![("type", text("image")), ("url", text("not a link"))]);
    let e = TwitterMediaMetadata::from_json_item(&bad).err().unwrap();
    assert!(e.starts_with("invalid url: "));
}

#[test]
fn item_errors() {
    let photo = obj(vec![("type", text("photo")), ("url", text("https://pbs.twimg.com/media/abc.png"))]);
    let m = TwitterMediaMetadata::try_from_json(&photo).unwrap();
    assert_eq!(m.id, "abc");
    assert_eq!(m.kind, MediaKind::Image);
    let gif = obj(vec![("type", text("animated_gif")), ("url", text("https://a/b.gif"))]);
    assert_eq!(TwitterMediaMetadata::try_from_json(&gif).err(), Some(BotError::InvalidScraperResponse));
    let no_url = obj(vec![("type", text("image"))]);
    assert_eq!(TwitterMediaMetadata::try_from_json(&no_url).err(), Some(BotError::InvalidScraperResponse));
    let bad = obj(vec![("type", text("image")), ("url", text("not a link"))]);
    assert_eq!(TwitterMediaMetadata::try_from_json(&bad).err(), Some(BotError::InvalidUrl));
    let no_dot = obj(vec![("type", text("image")), ("url", text("https://a/b"))]);
    assert_eq!(TwitterMediaMetadata::try_from_json(&no_dot).err(), Some(BotError::InvalidUrl));
}

#[test]
fn scrape_answers() {
    let items = vec![
        obj(vec![("type", text("image")), ("url", text("https://pbs.twimg.com/media/one.jpg"))]),
        obj(vec![("type", text("gif"))]),
    ];
    let v = Twitter::scrape_medias_inner(Ok(answer(items))).unwrap();
    assert_eq!(v.len(), 2);
    assert_eq!(v[0].as_ref().unwrap().url().as_str(), "https://pbs.twimg.com/media/one.jpg");
    assert_eq!(v[0].as_ref().unwrap().kind(), MediaKind::Image);
    assert_eq!(v[1].as_ref().err(), Some(&"unknown media type: gif".to_string()));
    assert_eq!(
        Twitter::scrape_medias_inner(Err(FetchError::Request("timeout".to_string()))).err(),
        Some("timeout".to_string())
    );
    assert_eq!(
        Twitter::scrape_medias_inner(Err(FetchError::Decode("eof".to_string()))).err(),
        Some("invalid response from Twitter scraper: eof".to_string())
    );
    assert_eq!(
        Twitter::scrape_medias_inner(Ok(obj(vec![]))).err(),
        Some("invalid response from Twitter scraper: missing field 'data'".to_string())
    );
    assert_eq!(
        Twitter::scrape_medias_inner(Ok(obj(vec![("data", obj(vec![]))]))).err(),
        Some("invalid response from Twitter scraper: missing field 'media'".to_string())
    );
    assert_eq!(
        Twitter::scrape_medias_inner(Ok(obj(vec![("data", obj(vec![("media", text("x"))]))]))).err(),
        Some("invalid response from Twitter scraper: invalid field 'media'".to_string())
    );
}

#[test]
fn response_errors() {
    assert_eq!(Twitter::medias_from_response(None).err(), Some(BotError::Other));
    assert_eq!(Twitter::medias_from_response(Some(answer(vec![]))).err(), Some(BotError::NoMediaFound));
    assert_eq!(
        Twitter::medias_from_response(Some(obj(vec![]))).err(),
        Some(BotError::InvalidScraperResponse)
    );
    let items = vec![obj(vec![("type", text("video")), ("videoUrl", text("https://v/x.mp4"))])];
    let v = Twitter::medias_from_response(Some(answer(items))).unwrap();
    assert_eq!(v.len(), 1);
    assert_eq!(v[0].as_ref().unwrap().kind(), MediaKind::Video);
}

#[test]
fn error_texts() {
    assert_eq!(custom("boom"), "boom");
    assert_eq!(missing_field("a"), "invalid response from Twitter scraper: missing field 'a'");
    assert_eq!(invalid_field("b"), "invalid response from Twitter scraper: invalid field 'b'");
    assert_eq!(invalid_response("c"), "invalid response from Twitter scraper: c");
    assert_eq!(invalid_url("d"), "invalid url: d");
    assert_eq!(
        BotError::InvalidLink.to_string(),
        "Invalid link provided. Please provide a valid Twitter/X link."
    );
    assert_eq!(BotError::Other.to_string(), "An unexpected error occured, please retry later...");
}

#[test]
fn commands_and_steps() {
    assert_eq!(Command::Help.to_string(), "/help");
    assert_eq!(Command::Twitter("https://x.com/a/status/1".to_string()).to_string(), "/twitter https://x.com/a/status/1");
    let service = ScraperService::new();
    match service.start(&Command::Help, BASE, "the commands") {
        ScrapeStep::Refuse(t) => assert_eq!(t, "the commands"),
        ScrapeStep::Fetch(_) => panic!("help is answered without a fetch"),
    }
    match service.start(&Command::Twitter("https://x.com/a/status/77".to_string()), BASE, "") {
        ScrapeStep::Fetch(link) => assert_eq!(link, "https://scraper.example/api?id=77"),
        ScrapeStep::Refuse(_) => panic!("a post link is fetched"),
    }
    match service.start(&Command::Twitter("https://example.com/a/status/77".to_string()), BASE, "") {
        ScrapeStep::Refuse(t) => assert_eq!(t, "invalid url: Invalid domain"),
        ScrapeStep::Fetch(_) => panic!("another domain is refused"),
    }
}

#[test]
fn finish_refuses_empty_scraping() {
    let service = ScraperService::new();
    assert_eq!(service.finish(Ok(answer(vec![]))).err(), Some("Nothing to scrape".to_string()));
    let items = vec![obj(vec![("type", text("image")), ("url", text("https://p/q.jpg"))])];
    let v = service.finish(Ok(answer(items))).unwrap();
    assert_eq!(v.len(), 1);
    assert_eq!(
        service.finish(Err(FetchError::Request("down".to_string()))).err(),
        Some("down".to_string())
    );
}

#[test]
fn message_plan_in_order() {
    let media = MediaMetadata::Twitter(TwitterMediaMetadata {
        id: "abc".to_string(),
        url: Url::parse("https://p/abc.jpg").unwrap(),
        kind: MediaKind::Image,
    });
    let container = ServiceContainer::new();
    let jobs = container.message_service.plan(vec![Err(BotError::InvalidMedia), Ok(media)]);
    assert_eq!(jobs.len(), 2);
    match &jobs[0] {
        MessageJob::Notice(t) => {
            assert_eq!(t, "Error: The media might be corrupted or in an unrecognized format.")
        }
        MessageJob::Media(_) => panic!("an error is told as a text"),
    }
    match &jobs[1] {
        MessageJob::Media(m) => assert_eq!(m.url().as_str(), "https://p/abc.jpg"),
        MessageJob::Notice(_) => panic!("a media is sent as itself"),
    }
    assert_eq!(DefaultMessageService::failure_of(&jobs[0]), BotError::Other);
    assert_eq!(DefaultMessageService::failure_of(&jobs[1]), BotError::MediaSendFailed);
    assert_eq!(DefaultMessageService::media_failure_notice("too big"), "Failed to send media: too big");
    assert!(MessageService::new().plan(vec![]).is_empty());
}

#[test]
fn media_display_text() {
    let media = MediaMetadata::from(TwitterMediaMetadata {
        id: "v".to_string(),
        url: Url::parse("https://video.twimg.com/v.mp4").unwrap(),
        kind: MediaKind::Video,
    });
    assert_eq!(media.to_string(), "Video(https://video.twimg.com/v.mp4)");
}
