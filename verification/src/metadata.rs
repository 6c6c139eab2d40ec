//! Reading the description of one media item.
//!
//! The downloader tool is asked to dump a single JSON document. Of that
//! document four string members are read: `title`, `duration_string`,
//! `thumbnail` and `uploader`. A member that is missing, or that is no
//! string, counts as absent; an absent title reads "Unknown".

use vstd::prelude::*;
use vstd::string::*;
use crate::ident::{fresh_identifier, is_identifier};
use crate::json::{
    json_error_message,
    json_error_text,
    json_parsed,
    member_text,
    parse_json,
    string_member,
};
use crate::records::{opt_text, DownloadInfo, DownloadInfoView};
use crate::tool::{downloader, ToolCommand, ToolCommandView, ToolOutput};

verus! {

/// The arguments that make the tool describe `url`.
pub open spec fn info_arguments(url: Seq<char>) -> Seq<Seq<char>> {
    seq!["--dump-single-json"@, "--no-warnings"@, url]
}

/// The command that describes `url`.
pub fn video_info_command(url: &str) -> (r: ToolCommand)
    ensures
        r@ == (ToolCommandView { program: downloader(), args: info_arguments(url@) }),
{
    let mut args: Vec<String> = Vec::new();
    args.push("--dump-single-json".to_owned());
    args.push("--no-warnings".to_owned());
    args.push(String::from_str(url));
    assert(args.deep_view() =~= info_arguments(url@));
    ToolCommand { program: "yt-dlp".to_owned(), args }
}

/// The title to show: the one given, or "Unknown".
pub open spec fn title_or_unknown(title: Option<Seq<char>>) -> Seq<char> {
    match title {
        Some(t) => t,
        None => "Unknown"@,
    }
}

/// The record of an item from what was read of it.
pub fn info_from_fields(
    id: String,
    url: String,
    title: Option<String>,
    duration: Option<String>,
    thumbnail: Option<String>,
    uploader: Option<String>,
) -> (r: DownloadInfo)
    ensures
        r@ == (DownloadInfoView {
            id: id@,
            url: url@,
            title: title_or_unknown(opt_text(title)),
            duration: opt_text(duration),
            thumbnail: opt_text(thumbnail),
            uploader: opt_text(uploader),
        }),
{
    let title = match title {
        Some(t) => t,
        None => "Unknown".to_owned(),
    };
    DownloadInfo { id, url, title, duration, thumbnail, uploader }
}

/// The record that the document `doc` describes.
pub open spec fn info_of(id: Seq<char>, url: Seq<char>, doc: serde_json::Value) -> DownloadInfoView {
    DownloadInfoView {
        id,
        url,
        title: title_or_unknown(member_text(doc, "title"@)),
        duration: member_text(doc, "duration_string"@),
        thumbnail: member_text(doc, "thumbnail"@),
        uploader: member_text(doc, "uploader"@),
    }
}

/// Reads the record of an item out of the document that describes it.
pub fn info_from_document(id: String, url: String, doc: &serde_json::Value) -> (r: DownloadInfo)
    ensures
        r@ == info_of(id@, url@, *doc),
{
    info_from_fields(
        id,
        url,
        string_member(doc, "title"),
        string_member(doc, "duration_string"),
        string_member(doc, "thumbnail"),
        string_member(doc, "uploader"),
    )
}

/// What a run of the tool yields: the document it wrote, or the reason why
/// there is none. The run fails where the tool could not be executed, where
/// it exited with failure (its error stream is the reason), and where its
/// output is no JSON.
pub open spec fn described_by(run: Result<ToolOutput, String>) -> Result<
    serde_json::Value,
    Seq<char>,
> {
    match run {
        Err(reason) => Err("Failed to execute yt-dlp: "@ + reason@),
        Ok(output) => if !output.success {
            Err("yt-dlp error: "@ + output.stderr@)
        } else {
            match json_parsed(output.stdout@) {
                Ok(doc) => Ok(doc),
                Err(error) => Err("Failed to parse JSON: "@ + json_error_text(error)),
            }
        },
    }
}

/// Reads the document out of a run of the tool.
pub fn document_of_run(run: &Result<ToolOutput, String>) -> (r: Result<serde_json::Value, String>)
    ensures
        match described_by(*run) {
            Ok(doc) => r == Ok::<serde_json::Value, String>(doc),
            Err(reason) => r is Err && r->Err_0@ == reason,
        },
{
    match run {
        Err(reason) => Err("Failed to execute yt-dlp: ".to_owned().concat(reason.as_str())),
        Ok(output) => {
            if !output.success {
                return Err("yt-dlp error: ".to_owned().concat(output.stderr.as_str()));
            }
            match parse_json(output.stdout.as_str()) {
                Ok(doc) => Ok(doc),
                Err(error) => Err(
                    "Failed to parse JSON: ".to_owned().concat(json_error_message(&error).as_str()),
                ),
            }
        },
    }
}

/// The description of `url` under the identifier `id`, from a run of the
/// command that describes it.
pub fn video_info_with_id(id: String, url: String, run: &Result<ToolOutput, String>) -> (r: Result<
    DownloadInfo,
    String,
>)
    ensures
        match described_by(*run) {
            Ok(doc) => r is Ok && r->Ok_0@ == info_of(id@, url@, doc),
            Err(reason) => r is Err && r->Err_0@ == reason,
        },
{
    match document_of_run(run) {
        Ok(doc) => Ok(info_from_document(id, url, &doc)),
        Err(reason) => Err(reason),
    }
}

/// The description of `url` under a fresh identifier, from a run of the
/// command that describes it. No identifier is drawn for a failed run.
pub fn get_video_info(url: String, run: &Result<ToolOutput, String>) -> (r: Result<
    DownloadInfo,
    String,
>)
    ensures
        match described_by(*run) {
            Ok(doc) => r is Ok && is_identifier(r->Ok_0.id@) && r->Ok_0@ == info_of(
                r->Ok_0.id@,
                url@,
                doc,
            ),
            Err(reason) => r is Err && r->Err_0@ == reason,
        },
{
    match document_of_run(run) {
        Ok(doc) => Ok(info_from_document(fresh_identifier(), url, &doc)),
        Err(reason) => Err(reason),
    }
}

} // verus!
