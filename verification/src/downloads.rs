//! Downloading episodes: what is known of an episode to fetch, the
//! messages that report how a download went, the file name it is saved
//! under, and how many times a request is retried.

use vstd::prelude::*;

use crate::text::{push_char, push_str};
use crate::types::{format_date, formatted_date};

verus! {

/// What a download needs of an episode; `file_path` is set once the
/// file is saved.
#[derive(Debug)]
pub struct EpData {
    pub id: i64,
    pub pod_id: i64,
    pub title: String,
    pub url: String,
    pub pubdate: Option<i64>,
    pub file_path: Option<String>,
}

/// How a download went.
#[derive(Debug)]
pub enum DownloadMsg {
    Complete(EpData),
    ResponseError(EpData),
    FileCreateError(EpData),
    FileWriteError(EpData),
}

/// The file extension for a response's content type: `m4a`, `mp3`,
/// `mov`, `mp4` or `m4v` for the audio and video types that have them,
/// else `mp3`.
pub open spec fn spec_file_extension(content_type: Option<Seq<char>>) -> Seq<char> {
    match content_type {
        Some(t) => if t == "audio/x-m4a"@ {
            "m4a"@
        } else if t == "audio/mpeg"@ {
            "mp3"@
        } else if t == "video/quicktime"@ {
            "mov"@
        } else if t == "video/mp4"@ {
            "mp4"@
        } else if t == "video/x-m4v"@ {
            "m4v"@
        } else {
            "mp3"@
        },
        None => "mp3"@,
    }
}

/// Whether two strings are equal.
fn str_eq(a: &str, b: &str) -> (res: bool)
    ensures
        res == (a@ == b@),
{
    let x = String::from_str(a);
    let y = String::from_str(b);
    x == y
}

/// The file extension for a response's content type.
pub fn file_extension(content_type: Option<&str>) -> (res: &'static str)
    ensures
        res@ == spec_file_extension(
            match content_type {
                Some(t) => Some(t@),
                None => None,
            },
        ),
{
    match content_type {
        Some(t) => if str_eq(t, "audio/x-m4a") {
            "m4a"
        } else if str_eq(t, "audio/mpeg") {
            "mp3"
        } else if str_eq(t, "video/quicktime") {
            "mov"
        } else if str_eq(t, "video/mp4") {
            "mp4"
        } else if str_eq(t, "video/x-m4v") {
            "m4v"
        } else {
            "mp3"
        },
        None => "mp3",
    }
}

/// The name `sanitize_filename::sanitize_with_options` makes of `name`
/// with the options the program uses (Windows-safe, truncated, nothing
/// put in place of what is removed).
pub uninterp spec fn sanitized(name: Seq<char>) -> Seq<char>;

/// Calls `sanitize_filename::sanitize_with_options(name, Options {
/// truncate: true, windows: true, replacement: "" })`; the result is
/// named `sanitized`.
#[verifier::external_body]
pub(crate) fn sanitize_name(name: &str) -> (res: String)
    ensures
        res@ == sanitized(name@),
{
    sanitize_filename::sanitize_with_options(
        name,
        sanitize_filename::Options { truncate: true, windows: true, replacement: "" },
    )
}

/// The name of the file an episode is saved under: its title made safe
/// for file names, then, when its publication date is known, `_` and
/// the date and time (`%Y%m%d_%H%M%S`), then `.` and the extension.
pub open spec fn spec_file_name(title: Seq<char>, pubdate: Option<i64>, ext: Seq<char>) -> Seq<char> {
    let base = sanitized(title);
    let dated = match pubdate {
        Some(ts) => match formatted_date(ts as int, "%Y%m%d_%H%M%S"@) {
            Some(d) => base.push('_') + d,
            None => base,
        },
        None => base,
    };
    dated.push('.') + ext
}

/// The name of the file an episode is saved under, for a response of
/// the given content type.
pub fn file_name(ep: &EpData, content_type: Option<&str>) -> (res: String)
    ensures
        res@ == spec_file_name(
            ep.title@,
            ep.pubdate,
            spec_file_extension(
                match content_type {
                    Some(t) => Some(t@),
                    None => None,
                },
            ),
        ),
{
    let ext = file_extension(content_type);
    let mut name = sanitize_name(ep.title.as_str());
    if let Some(ts) = ep.pubdate {
        if let Some(d) = format_date(ts, "%Y%m%d_%H%M%S") {
            push_char(&mut name, '_');
            push_str(&mut name, d.as_str());
        }
    }
    push_char(&mut name, '.');
    push_str(&mut name, ext);
    name
}

/// After a failed request with `remaining` tries left (counting that
/// one): the tries left, or `None` when none are.
pub fn after_failed_try(remaining: usize) -> (res: Option<usize>)
    requires
        remaining >= 1,
    ensures
        res == if remaining == 1 {
            None
        } else {
            Some((remaining - 1) as usize)
        },
{
    let left = remaining - 1;
    if left == 0 {
        None
    } else {
        Some(left)
    }
}

} // verus!
