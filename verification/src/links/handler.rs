//! The files media are written to and how each kind is sent.
use vstd::prelude::*;

use crate::common::MediaKind;
use crate::links::x::Which;

verus! {

/// The name of the file a media of kind `which` and id `id` is written to,
/// or the message of a kind that is not written.
pub open spec fn media_file_name_of(which: Which, id: Seq<char>) -> Result<Seq<char>, Seq<char>> {
    match which {
        Which::Video => Ok(id + ".mp4"@),
        Which::Img => Ok(id + ".png"@),
        Which::Txt => Err("Unsupported media type encountered: Txt"@),
        Which::Other => Err("Unsupported media type encountered: Other"@),
    }
}

/// The name of the file a media of kind `which` and id `id` is written to.
pub fn media_file_name(which: Which, id: &str) -> (res: Result<String, String>)
    ensures
        match media_file_name_of(which, id@) {
            Ok(name) => res matches Ok(r) && r@ == name,
            Err(msg) => res matches Err(t) && t@ == msg,
        },
{
    match which {
        Which::Video => Ok(String::from_str(id).concat(".mp4")),
        Which::Img => Ok(String::from_str(id).concat(".png")),
        Which::Txt => Err(String::from_str("Unsupported media type encountered: Txt")),
        Which::Other => Err(String::from_str("Unsupported media type encountered: Other")),
    }
}

/// The path of the file named `file_name` in the directory `dir` (which
/// ends with its separator).
pub fn file_path(dir: &str, file_name: &str) -> (res: String)
    ensures
        res@ == dir@ + file_name@,
{
    String::from_str(dir).concat(file_name)
}

/// How a media of kind `which` is sent: a video as a video, an image as a
/// photo; other kinds are not sent.
pub fn send_kind(which: Which) -> (res: Result<MediaKind, String>)
    ensures
        match which {
            Which::Video => res == Ok::<MediaKind, String>(MediaKind::Video),
            Which::Img => res == Ok::<MediaKind, String>(MediaKind::Image),
            _ => res matches Err(t) && t@ == "Unsupported media type encountered"@,
        },
{
    match which {
        Which::Video => Ok(MediaKind::Video),
        Which::Img => Ok(MediaKind::Image),
        _ => Err(String::from_str("Unsupported media type encountered")),
    }
}

} // verus!
