use media_bot::links::chat::{links_on_x_answer, links_start, LinksCommand, LinksStep};
use media_bot::common::MediaKind;
use media_bot::discord::{Command, DOWNLOAD_DIR};
use media_bot::json::Json;
use media_bot::links::handler::{file_path, media_file_name, send_kind};
use media_bot::links::insta::{profile_info_url, profile_pic_name, profile_pic_url, profile_referer, Insta};
use media_bot::links::tiktok::{redirect_target, tiktok_media, tiktok_url_parser, Tiktok, TiktokLink};
use media_bot::links::x::{file_stem, twitter, which_from_context, x_media_of_item, x_request, x_url_parser, Which, X};
use media_bot::scraper::{
    check_scraping, download_failure, download_file_path, download_steps, scrape_failure, scrape_start,
    DownloadStep, ScrapeStart, ScrapingResult, TwitterMedia,
};

fn text(s: &str) -> Json {
    Json::String(s.to_string())
}

fn obj(members: Vec<(&str, Json)>) -> Json {
    Json::Object(members.into_iter().map(|(k, v)| (k.to_string(), v)).collect())
}

fn media(url: &str, id: &str) -> ScrapingResult {
    ScrapingResult::from(TwitterMedia { url: url.to_string(), id: id.to_string() })
}

const PNG: [u8; 16] = [0x89, 0x50, 0x4E, 0x47, 0x0D, 0x0A, 0x1A, 0x0A, 0, 0, 0, 0x0D, 0x49, 0x48, 0x44, 0x52];

#[test]
fn download_commands() {
    assert_eq!(Command::Help.to_string(), "help");
    assert_eq!(Command::Twitter("https://x.com/a/status/1".to_string()).to_string(), "twitter https://x.com/a/status/1");
    match scrape_start(Command::Help, "commands") {
        ScrapeStart::Refuse(t) => assert_eq!(t, "commands"),
        ScrapeStart::Scrape(_) => panic!("help scrapes nothing"),
    }
    match scrape_start(Command::Twitter("https://x.com/a/status/1".to_string()), "commands") {
        ScrapeStart::Scrape(h) => assert_eq!(h, "https://x.com/a/status/1"),
        ScrapeStart::Refuse(_) => panic!("a link is scraped"),
    }
}

#[test]
fn download_paths() {
    let m = media("https://pbs.twimg.com/media/abc.png", "abc");
    let d = m.download_metadata();
    assert_eq!(d.url(), "https://pbs.twimg.com/media/abc.png");
    assert_eq!(d.filename(), "abc");
    assert_eq!(download_file_path(&d, &PNG), Ok(format!("{}/abc.png", DOWNLOAD_DIR)));
    assert_eq!(download_file_path(&d, &PNG), Ok("./download/abc.png".to_string()));
    assert_eq!(download_file_path(&d, b"plain words"), Err("Invalid file type".to_string()));
}

#[test]
fn empty_scraping_is_refused() {
    assert_eq!(check_scraping(vec![]).err(), Some("Error: Nothing to scrape".to_string()));
    let kept = check_scraping(vec![Ok(media("https://a/b.jpg", "b")), Err("x".to_string())]).unwrap();
    assert_eq!(kept.len(), 2);
}

#[test]
fn one_download_step_per_result() {
    let steps = download_steps(vec![Err("gone".to_string()), Ok(media("https://a/b.jpg", "b"))]);
    assert_eq!(steps.len(), 2);
    match &steps[0] {
        DownloadStep::Failed(t) => assert_eq!(t, "failed to scrape: gone"),
        DownloadStep::Fetch(_) => panic!("an error is not fetched"),
    }
    match &steps[1] {
        DownloadStep::Fetch(m) => assert_eq!(m.download_metadata().filename(), "b"),
        DownloadStep::Failed(_) => panic!("a media is fetched"),
    }
    assert!(download_steps(vec![]).is_empty());
    assert_eq!(download_failure("b", "404"), "failed to download b: 404");
    assert_eq!(scrape_failure("boom"), "failed to scrape: boom");
}

#[test]
fn x_links() {
    assert_eq!(x_url_parser("https://x.com/u/status/123?s=1"), Ok("123".to_string()));
    assert_eq!(x_url_parser("https://twitter.com/u/status/9"), Ok("9".to_string()));
    assert_eq!(x_url_parser("https://x.com/u"), Err("Invalid domain expect more segment in the url".to_string()));
    assert_eq!(x_url_parser("https://y.com/u/status/9"), Err("Invalid domain".to_string()));
    assert_eq!(x_request("https://svc/?id=", "9"), "https://svc/?id=9");
    assert_eq!(file_stem("https://a/b/c.d.jpg"), Some("c".to_string()));
    assert_eq!(file_stem("https://a/b/c"), None);
}

#[test]
fn x_kinds() {
    assert_eq!(Which::default(), Which::Video);
    assert_eq!(which_from_context("img", Which::Video), Which::Img);
    assert_eq!(which_from_context("text", Which::Video), Which::Txt);
    assert_eq!(which_from_context("video", Which::Other), Which::Video);
    assert_eq!(which_from_context("audio", Which::Other), Which::Other);
    let x = X { which: Which::default(), id: String::new(), url: String::new() }.new(
        "img",
        "https://a/b.jpg".to_string(),
        "b".to_string(),
    );
    assert_eq!(x.which, Which::Img);
    assert_eq!(x.url, "https://a/b.jpg");
    assert_eq!(x.id, "b");
}

#[test]
fn x_answer_media() {
    let photo = obj(vec![("type", text("photo")), ("url", text("https://pbs/p.jpg"))]);
    let video = obj(vec![
        ("type", text("video")),
        ("url", text("https://pbs/thumb.jpg")),
        ("videoUrl", text("https://video/v.mp4")),
    ]);
    let gif = obj(vec![("type", text("gif")), ("url", text("https://pbs/g.gif"))]);
    let json = obj(vec![("data", obj(vec![("media", Json::Array(vec![photo, gif, video]))]))]);
    let v = twitter(&json).unwrap();
    assert_eq!(v.len(), 2);
    assert_eq!((v[0].which, v[0].url.as_str(), v[0].id.as_str()), (Which::Img, "https://pbs/p.jpg", "p"));
    assert_eq!((v[1].which, v[1].url.as_str(), v[1].id.as_str()), (Which::Video, "https://video/v.mp4", "thumb"));
    assert_eq!(twitter(&obj(vec![])).err(), Some("Missing data->media".to_string()));
    let bad = obj(vec![("type", text("photo")), ("url", text("https://pbs/noext"))]);
    let json = obj(vec![("data", obj(vec![("media", Json::Array(vec![bad]))]))]);
    assert_eq!(twitter(&json).err(), Some("Invalid URL format: https://pbs/noext".to_string()));
    let untyped = obj(vec![("url", text("https://pbs/p.jpg"))]);
    assert_eq!(x_media_of_item(&untyped).err(), Some("Missing 'type' in media item".to_string()));
    let no_video = obj(vec![("type", text("video")), ("url", text("https://pbs/t.jpg"))]);
    let m = x_media_of_item(&no_video).unwrap().unwrap();
    assert_eq!(m.url, "");
}

#[test]
fn tiktok_links() {
    assert_eq!(tiktok_url_parser("https://www.tiktok.com/@u/video/1"), Ok(TiktokLink::Full));
    assert_eq!(tiktok_url_parser("https://vm.tiktok.com/ZM123/"), Ok(TiktokLink::Short));
    assert_eq!(tiktok_url_parser("https://vt.tiktok.com/ZM123/"), Ok(TiktokLink::Short));
    assert_eq!(tiktok_url_parser("https://example.com/x"), Err("Unrecognized tiktok URL.".to_string()));
    assert_eq!(tiktok_url_parser("no slash"), Err("Invalid tiktok url".to_string()));
    assert_eq!(
        redirect_target("<a href=\"https://www.tiktok.com/@u/video/7?_r=1\">Moved</a>"),
        "https://www.tiktok.com/@u/video/7"
    );
    let t = tiktok_media("https://svc/", "https://www.tiktok.com/@u/video/7");
    assert_eq!(t.which, Which::Video);
    assert_eq!(t.id, "7");
    assert_eq!(t.url, "https://svc/7.mp4");
    let d = Tiktok::default().new("video", "u".to_string(), "i".to_string());
    assert_eq!((d.which, d.url.as_str(), d.id.as_str()), (Which::Video, "u", "i"));
}

#[test]
fn insta_profiles() {
    let i = Insta::empty().new("story", "https://i/1.jpg".to_string(), "1".to_string());
    assert_eq!(i.flags(), (false, true, false, false));
    assert_eq!(i.url(), "https://i/1.jpg");
    assert_eq!(i.id(), "1");
    assert_eq!(Insta::empty().new("nothing", String::new(), String::new()).flags(), (false, false, false, false));
    assert_eq!(
        profile_info_url("bob"),
        "https://i.instagram.com/api/v1/users/web_profile_info/?username=bob"
    );
    assert_eq!(profile_referer("bob"), "https://www.instagram.com/bob/");
    let direct = obj(vec![("data", obj(vec![("profile_pic_url_hd", text("https://cdn/a/pic.jpg?x=1"))]))]);
    assert_eq!(profile_pic_url(&direct), "https://cdn/a/pic.jpg?x=1");
    let nested = obj(vec![("data", obj(vec![("user", obj(vec![("profile_pic_url_hd", text("https://cdn/u.jpg"))]))]))]);
    assert_eq!(profile_pic_url(&nested), "https://cdn/u.jpg");
    let listed = obj(vec![(
        "includes",
        obj(vec![("users", Json::Array(vec![obj(vec![("profile_image_url_https", text("https://cdn/l.png"))])]))]),
    )]);
    assert_eq!(profile_pic_url(&listed), "https://cdn/l.png");
    assert_eq!(profile_pic_url(&obj(vec![])), "");
    let not_text = obj(vec![("data", obj(vec![("profile_pic_url_hd", Json::Bool(true))]))]);
    assert_eq!(profile_pic_url(&not_text), "");
    assert_eq!(profile_pic_name("https://cdn/a/pic.v2.jpg?x=1.2"), "pic");
    assert_eq!(profile_pic_name("https://cdn/a/pic"), "unknown");
}

#[test]
fn files_and_kinds() {
    assert_eq!(media_file_name(Which::Video, "7"), Ok("7.mp4".to_string()));
    assert_eq!(media_file_name(Which::Img, "p"), Ok("p.png".to_string()));
    assert_eq!(media_file_name(Which::Txt, "t"), Err("Unsupported media type encountered: Txt".to_string()));
    assert_eq!(media_file_name(Which::Other, "o"), Err("Unsupported media type encountered: Other".to_string()));
    assert_eq!(file_path("./downloads/", "7.mp4"), "./downloads/7.mp4");
    assert_eq!(send_kind(Which::Video), Ok(MediaKind::Video));
    assert_eq!(send_kind(Which::Img), Ok(MediaKind::Image));
    assert_eq!(send_kind(Which::Txt), Err("Unsupported media type encountered".to_string()));
}

#[test]
fn x_answer_text_is_read() {
    let body = r#"{"data":{"media":[{"type":"photo","url":"https://pbs/p.jpg"},{"type":"gif","url":"https://pbs/g.gif"},{"type":"video","url":"https://pbs/t.jpg","videoUrl":"https://video/v.mp4"}]}}"#;
    let v = media_bot::links::x::twitter_from_body(body).unwrap();
    assert_eq!(v.len(), 2);
    assert_eq!((v[0].which, v[0].url.as_str(), v[0].id.as_str()), (Which::Img, "https://pbs/p.jpg", "p"));
    assert_eq!((v[1].which, v[1].url.as_str(), v[1].id.as_str()), (Which::Video, "https://video/v.mp4", "t"));
    assert_eq!(
        media_bot::links::x::twitter_from_body(r#"{"data":{}}"#).err(),
        Some("Missing data->media".to_string())
    );
    let err = media_bot::links::x::twitter_from_body("not json").err().unwrap();
    assert_eq!(err, serde_json::from_str::<serde_json::Value>("not json").unwrap_err().to_string());
}

#[test]
fn insta_answer_text_is_read() {
    let body = r#"{"data":{"user":{"profile_pic_url_hd":"https://cdn/a/me.jpg?s=1"}}}"#;
    assert_eq!(
        media_bot::links::insta::instagram_profile_pic(body),
        Ok(("https://cdn/a/me.jpg?s=1".to_string(), "me".to_string()))
    );
    assert_eq!(
        media_bot::links::insta::instagram_profile_pic("{}"),
        Ok((String::new(), "unknown".to_string()))
    );
    assert!(media_bot::links::insta::instagram_profile_pic("{").is_err());
}

#[test]
fn links_bot_steps() {
    match links_start(LinksCommand::Help, "cmds") {
        LinksStep::Reply(t) => assert_eq!(t, "cmds"),
        _ => panic!("help is a reply"),
    }
    match links_start(LinksCommand::Twitter("https://x.com/u/status/42?s=1".to_string()), "") {
        LinksStep::FetchX(id) => assert_eq!(id, "42"),
        _ => panic!("a post link is fetched"),
    }
    match links_start(LinksCommand::Twitter("https://y.com/u/status/42".to_string()), "") {
        LinksStep::Reply(t) => assert_eq!(t, "url not recognized"),
        _ => panic!("another domain is refused"),
    }
    match links_start(LinksCommand::Instagram, "") {
        LinksStep::Reply(t) => assert_eq!(t, "🚧💻👨🏻‍💻 insta is not ready yet🚧"),
        _ => panic!("instagram is not ready"),
    }
    match links_start(LinksCommand::Tiktok, "") {
        LinksStep::Reply(t) => assert_eq!(t, "🚧💻👨🏻‍💻 tiktok is not ready yet🚧"),
        _ => panic!("tiktok is not ready"),
    }
    match links_on_x_answer(None) {
        LinksStep::Reply(t) => assert_eq!(t, "url not recognized"),
        _ => panic!("no answer is refused"),
    }
    match links_on_x_answer(Some("oops")) {
        LinksStep::Reply(t) => assert_eq!(t, "url not recognized"),
        _ => panic!("no JSON is refused"),
    }
    match links_on_x_answer(Some(r#"{"data":{"media":[{"type":"photo","url":"https://p/q.jpg"}]}}"#)) {
        LinksStep::SendX(t, v) => {
            assert_eq!(t, "x scrapping loading...");
            assert_eq!(v.len(), 1);
            assert_eq!(v[0].id, "q");
        }
        _ => panic!("media are sent"),
    }
}
