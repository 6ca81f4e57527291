//! The download bot's scraping and downloading: which media to fetch, and
//! where a fetched file is written.
use vstd::prelude::*;

use crate::discord::{Command, DOWNLOAD_DIR};

verus! {

/// A media of an X (Twitter) post: its link and its file name.
pub struct TwitterMedia {
    pub url: String,
    pub id: String,
}

/// Where a media is fetched from and the name it is written under.
pub struct DownloadMetadata<'a> {
    media_url: &'a str,
    filename: &'a str,
}

impl DownloadMetadata<'_> {
    pub closed spec fn url_text(&self) -> Seq<char> {
        self.media_url@
    }

    pub closed spec fn filename_text(&self) -> Seq<char> {
        self.filename@
    }

    /// The link of the media.
    pub fn url(&self) -> (res: &str)
        ensures
            res@ == self.url_text(),
    {
        self.media_url
    }

    /// The file name of the media (without extension).
    pub fn filename(&self) -> (res: &str)
        ensures
            res@ == self.filename_text(),
    {
        self.filename
    }
}

/// A media found by a scraper.
pub enum ScrapingResult {
    Twitter(TwitterMedia),
}

impl From<TwitterMedia> for ScrapingResult {
    fn from(media: TwitterMedia) -> (res: Self) {
        ScrapingResult::Twitter(media)
    }
}

impl vstd::std_specs::convert::FromSpecImpl<TwitterMedia> for ScrapingResult {
    open spec fn obeys_from_spec() -> bool {
        true
    }

    open spec fn from_spec(v: TwitterMedia) -> Self {
        ScrapingResult::Twitter(v)
    }
}

impl ScrapingResult {
    /// Where the media is fetched from and the name it is written under:
    /// the link and the id of the post's media.
    pub fn download_metadata<'a>(&'a self) -> (res: DownloadMetadata<'a>)
        ensures
            match self {
                ScrapingResult::Twitter(media) => res.url_text() == media.url@
                    && res.filename_text() == media.id@,
            },
    {
        let (media_url, filename) = match self {
            ScrapingResult::Twitter(media) => (media.url.as_str(), media.id.as_str()),
        };
        DownloadMetadata { media_url, filename }
    }
}

/// The file extension of the file type that `infer::get` recognizes in
/// `bytes`, if any.
pub uninterp spec fn inferred_extension(bytes: Seq<u8>) -> Option<Seq<char>>;

/// Calls `infer::get` on `bytes` and takes the extension of the type it
/// finds. What it finds is named `inferred_extension`; nothing more is
/// stated of it.
#[verifier::external_body]
fn infer_extension(bytes: &[u8]) -> (res: Option<String>)
    ensures
        match res {
            Some(e) => inferred_extension(bytes@) == Some(e@),
            None => inferred_extension(bytes@) is None,
        },
{
    infer::get(bytes).map(|kind| kind.extension().to_string())
}

/// The path a fetched media is written to: `./download/<filename>.<ext>`,
/// where `<ext>` is the extension of the file type found in its bytes.
pub open spec fn download_path_text(filename: Seq<char>, extension: Seq<char>) -> Seq<char> {
    DOWNLOAD_DIR@ + "/"@ + filename + "."@ + extension
}

/// The message of a media whose file type is not recognized.
pub open spec fn invalid_file_type_text() -> Seq<char> {
    "Invalid file type"@
}

/// The path the media `metadata`, fetched as `bytes`, is written to; its
/// file type must be recognized.
pub fn download_file_path(metadata: &DownloadMetadata<'_>, bytes: &[u8]) -> (res: Result<String, String>)
    ensures
        match inferred_extension(bytes@) {
            Some(ext) => res matches Ok(p) && p@ == download_path_text(metadata.filename_text(), ext),
            None => res matches Err(t) && t@ == invalid_file_type_text(),
        },
{
    let extension = match infer_extension(bytes) {
        Some(e) => e,
        None => return Err(String::from_str("Invalid file type")),
    };
    Ok(
        String::from_str(DOWNLOAD_DIR).concat("/").concat(metadata.filename()).concat(".").concat(
            extension.as_str(),
        ),
    )
}

/// What the download bot does for `cmd`: `help` is answered with
/// `descriptions`, the list of commands; a link is scraped.
pub enum ScrapeStart {
    Refuse(String),
    Scrape(String),
}

pub fn scrape_start(cmd: Command, descriptions: &str) -> (res: ScrapeStart)
    ensures
        match cmd {
            Command::Help => res matches ScrapeStart::Refuse(t) && t@ == descriptions@,
            Command::Twitter(handle) => res matches ScrapeStart::Scrape(h) && h@ == handle@,
        },
{
    match cmd {
        Command::Help => ScrapeStart::Refuse(String::from_str(descriptions)),
        Command::Twitter(handle) => ScrapeStart::Scrape(handle),
    }
}

/// The message of a scraping that found nothing.
pub open spec fn nothing_to_scrape_text() -> Seq<char> {
    "Error: Nothing to scrape"@
}

/// The scraping results, refused when there are none.
pub fn check_scraping(results: Vec<Result<ScrapingResult, String>>) -> (res: Result<
    Vec<Result<ScrapingResult, String>>,
    String,
>)
    ensures
        if results@.len() == 0 {
            res matches Err(t) && t@ == nothing_to_scrape_text()
        } else {
            res == Ok::<Vec<Result<ScrapingResult, String>>, String>(results)
        },
{
    if results.len() == 0 {
        return Err(String::from_str("Error: Nothing to scrape"));
    }
    Ok(results)
}

/// The message of a media that could not be downloaded.
pub open spec fn download_failure_text(filename: Seq<char>, err: Seq<char>) -> Seq<char> {
    "failed to download "@ + filename + ": "@ + err
}

/// The message of a scraping result that is an error.
pub open spec fn scrape_failure_text(err: Seq<char>) -> Seq<char> {
    "failed to scrape: "@ + err
}

/// The message of a media named `filename` that could not be downloaded
/// for `err`.
pub fn download_failure(filename: &str, err: &str) -> (res: String)
    ensures
        res@ == download_failure_text(filename@, err@),
{
    String::from_str("failed to download ").concat(filename).concat(": ").concat(err)
}

/// The message of a scraping result that is the error `err`.
pub fn scrape_failure(err: &str) -> (res: String)
    ensures
        res@ == scrape_failure_text(err@),
{
    String::from_str("failed to scrape: ").concat(err)
}

/// What is done with one scraping result when downloading.
pub enum DownloadStep {
    /// The media is fetched and written.
    Fetch(ScrapingResult),
    /// The result is reported as a failure with this message.
    Failed(String),
}

/// Whether `step` is what is done with `result`.
pub open spec fn download_step_for(result: Result<ScrapingResult, String>, step: DownloadStep) -> bool {
    match result {
        Ok(m) => step == DownloadStep::Fetch(m),
        Err(e) => step matches DownloadStep::Failed(t) && t@ == scrape_failure_text(e@),
    }
}

/// What is done with each scraping result, in order: one step per result,
/// so a download of a non-empty scraping is never empty.
pub fn download_steps(results: Vec<Result<ScrapingResult, String>>) -> (res: Vec<DownloadStep>)
    ensures
        res@.len() == results@.len(),
        results@.len() > 0 ==> res@.len() > 0,
        forall|i: int| 0 <= i < res@.len() ==> download_step_for(results@[i], #[trigger] res@[i]),
{
    let ghost all = results@;
    let mut rest = results;
    let mut steps: Vec<DownloadStep> = Vec::new();
    assert(rest@ == all.skip(0));
    while rest.len() > 0
        invariant
            steps@.len() + rest@.len() == all.len(),
            rest@ == all.skip(steps@.len() as int),
            forall|i: int| 0 <= i < steps@.len() ==> download_step_for(all[i], #[trigger] steps@[i]),
        decreases rest@.len(),
    {
        let r = rest.remove(0);
        let ghost k = steps@.len() as int;
        assert(r == all[k]);
        let step = match r {
            Ok(media) => DownloadStep::Fetch(media),
            Err(err) => DownloadStep::Failed(scrape_failure(err.as_str())),
        };
        steps.push(step);
        assert(rest@ == all.skip(k + 1));
    }
    steps
}

} // verus!
