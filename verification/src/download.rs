//! Downloading the audio of one media item.
//!
//! A download is one run of the downloader tool. Before the run a snapshot
//! of stage "starting" is reported; after it, one of stage "completed" or
//! "error", depending on the exit status. Nothing is reported in between,
//! and nothing at all when the tool could not be started or waited for.
//!
//! The caller gets the identifier of a download that succeeded. For one
//! that failed it gets the reason: why the tool could not be started or
//! waited for, or what the tool wrote to its error stream before it exited
//! with failure.

use vstd::prelude::*;
use vstd::string::*;
use crate::ident::{fresh_identifier, is_identifier};
use crate::records::{result_text, DownloadProgress, DownloadProgressView, DownloadStatus};
use crate::text::{contains_text, joined, occurs_at, same_text};
use crate::tool::{downloader, ToolCommand, ToolCommandView, ToolEvent};

verus! {

/// The audio formats on offer.
#[derive(Debug, Clone, Copy, PartialEq, Eq, Structural)]
pub enum AudioQuality {
    /// MP3 at the best quality the tool offers.
    Mp3Best,
    /// MP3 at a lower quality.
    Mp3Lower,
    /// Lossless FLAC.
    Flac,
}

impl AudioQuality {
    /// The format that a selector stands for: `"320"`, `"256"` or `"flac"`.
    /// Any other selector stands for what `"320"` does.
    pub open spec fn of(selector: Seq<char>) -> AudioQuality {
        if selector == "320"@ {
            AudioQuality::Mp3Best
        } else if selector == "256"@ {
            AudioQuality::Mp3Lower
        } else if selector == "flac"@ {
            AudioQuality::Flac
        } else {
            AudioQuality::Mp3Best
        }
    }

    /// The flags that ask the tool for this format.
    pub open spec fn flags(self) -> Seq<Seq<char>> {
        match self {
            AudioQuality::Mp3Best => seq!["--audio-quality"@, "0"@, "--audio-format"@, "mp3"@],
            AudioQuality::Mp3Lower => seq!["--audio-quality"@, "2"@, "--audio-format"@, "mp3"@],
            AudioQuality::Flac => seq!["--audio-format"@, "flac"@],
        }
    }

    /// The format that `selector` stands for.
    pub fn from_selector(selector: &str) -> (r: AudioQuality)
        ensures
            r == AudioQuality::of(selector@),
    {
        if same_text(selector, "320") {
            AudioQuality::Mp3Best
        } else if same_text(selector, "256") {
            AudioQuality::Mp3Lower
        } else if same_text(selector, "flac") {
            AudioQuality::Flac
        } else {
            AudioQuality::Mp3Best
        }
    }

    /// The flags that ask the tool for this format.
    pub fn args(self) -> (r: Vec<String>)
        ensures
            r.deep_view() == self.flags(),
    {
        let mut out: Vec<String> = Vec::new();
        match self {
            AudioQuality::Mp3Best => {
                out.push("--audio-quality".to_owned());
                out.push("0".to_owned());
                out.push("--audio-format".to_owned());
                out.push("mp3".to_owned());
            },
            AudioQuality::Mp3Lower => {
                out.push("--audio-quality".to_owned());
                out.push("2".to_owned());
                out.push("--audio-format".to_owned());
                out.push("mp3".to_owned());
            },
            AudioQuality::Flac => {
                out.push("--audio-format".to_owned());
                out.push("flac".to_owned());
            },
        }
        assert(out.deep_view() =~= self.flags());
        out
    }
}

/// The flags for a quality selector.
pub fn quality_args(quality: &str) -> (r: Vec<String>)
    ensures
        r.deep_view() == AudioQuality::of(quality@).flags(),
{
    AudioQuality::from_selector(quality).args()
}

/// Where the tool writes: a file under `output_path`, named by the item's
/// title and the extension of the format.
pub open spec fn template_of(output_path: Seq<char>) -> Seq<char> {
    output_path + "/%(title)s.%(ext)s"@
}

/// The template of the files that a download into `output_path` writes.
pub fn output_template(output_path: &str) -> (r: String)
    ensures
        r@ == template_of(output_path@),
{
    String::from_str(output_path).concat("/%(title)s.%(ext)s")
}

/// The arguments of a download: extract the audio, embed metadata and
/// thumbnail, write to the template, read from `url`, in the format chosen.
pub open spec fn download_arguments(
    url: Seq<char>,
    output_path: Seq<char>,
    quality: Seq<char>,
) -> Seq<Seq<char>> {
    seq![
        "--extract-audio"@,
        "--embed-metadata"@,
        "--embed-thumbnail"@,
        "--output"@,
        template_of(output_path),
        url,
    ] + AudioQuality::of(quality).flags()
}

/// The command that downloads the audio of `url` into `output_path`.
pub fn download_command(url: &str, output_path: &str, quality: &str) -> (r: ToolCommand)
    ensures
        r@ == (ToolCommandView {
            program: downloader(),
            args: download_arguments(url@, output_path@, quality@),
        }),
{
    let mut args: Vec<String> = Vec::new();
    args.push("--extract-audio".to_owned());
    args.push("--embed-metadata".to_owned());
    args.push("--embed-thumbnail".to_owned());
    args.push("--output".to_owned());
    args.push(output_template(output_path));
    args.push(String::from_str(url));
    let mut flags = quality_args(quality);
    let ghost head = args.deep_view();
    let ghost tail = flags.deep_view();
    args.append(&mut flags);
    assert(args.deep_view() =~= head + tail);
    assert(head =~= download_arguments(url@, output_path@, quality@).take(6));
    assert(args.deep_view() =~= download_arguments(url@, output_path@, quality@));
    ToolCommand { program: "yt-dlp".to_owned(), args }
}

/// The name of the event that carries a snapshot to the user interface.
pub open spec fn progress_event_name() -> Seq<char> {
    "download-progress"@
}

/// The name of the event that carries a snapshot.
pub fn progress_event() -> (r: String)
    ensures
        r@ == progress_event_name(),
{
    "download-progress".to_owned()
}

/// What is known when a download begins: its identifier, the snapshot to
/// report, and the command to run.
#[derive(Debug)]
pub struct DownloadStart {
    pub id: String,
    pub progress: DownloadProgress,
    pub command: ToolCommand,
}

/// The view of a `DownloadStart`.
pub struct DownloadStartView {
    pub id: Seq<char>,
    pub progress: DownloadProgressView,
    pub command: ToolCommandView,
}

impl View for DownloadStart {
    type V = DownloadStartView;

    open spec fn view(&self) -> DownloadStartView {
        DownloadStartView { id: self.id@, progress: self.progress@, command: self.command@ }
    }
}

/// The beginning of the download `id`.
pub open spec fn start_of(
    id: Seq<char>,
    url: Seq<char>,
    output_path: Seq<char>,
    quality: Seq<char>,
) -> DownloadStartView {
    DownloadStartView {
        id,
        progress: DownloadProgressView::at(id, DownloadStatus::Starting, 0, None),
        command: ToolCommandView {
            program: downloader(),
            args: download_arguments(url, output_path, quality),
        },
    }
}

/// Begins the download that goes by `id`.
pub fn start_download(id: String, url: &str, output_path: &str, quality: &str) -> (r:
    DownloadStart)
    ensures
        r@ == start_of(id@, url@, output_path@, quality@),
{
    let progress = DownloadProgress::starting(id.clone());
    let command = download_command(url, output_path, quality);
    DownloadStart { id, progress, command }
}

/// Begins a download under a fresh identifier.
pub fn begin_download(url: &str, output_path: &str, quality: &str) -> (r: DownloadStart)
    ensures
        is_identifier(r.id@),
        r@ == start_of(r.id@, url@, output_path@, quality@),
{
    start_download(fresh_identifier(), url, output_path, quality)
}

/// What is known when a download has ended: the snapshot to report, if
/// any, and what the caller gets: the identifier, or the reason of failure.
#[derive(Debug)]
pub struct DownloadReport {
    pub progress: Option<DownloadProgress>,
    pub result: Result<String, String>,
}

/// The snapshot that ends the download `id`: "completed" with the output
/// path after a successful exit, "error" after a failed one, none where the
/// tool did not run to its end.
pub open spec fn closing_progress(
    id: Seq<char>,
    output_path: Seq<char>,
    event: ToolEvent,
) -> Option<DownloadProgressView> {
    match event {
        ToolEvent::Exited { success, stderr } => if success {
            Some(DownloadProgressView::at(id, DownloadStatus::Completed, 100, Some(output_path)))
        } else {
            Some(DownloadProgressView::at(id, DownloadStatus::Error, 0, None))
        },
        _ => None,
    }
}

/// What is reported for a tool that exited with failure: that the download
/// failed, and what the tool wrote to its error stream, as it stands.
pub open spec fn failure_text(stderr: Seq<char>) -> Seq<char> {
    "Download failed: "@ + stderr
}

/// What the caller of the download `id` gets: the identifier after a
/// successful exit, and otherwise the reason of the failure.
pub open spec fn closing_result(id: Seq<char>, event: ToolEvent) -> Result<Seq<char>, Seq<char>> {
    match event {
        ToolEvent::SpawnFailed(reason) => Err("Failed to spawn yt-dlp: "@ + reason@),
        ToolEvent::WaitFailed(reason) => Err("Failed to wait for yt-dlp: "@ + reason@),
        ToolEvent::Exited { success, stderr } => if success {
            Ok(id)
        } else {
            Err(failure_text(stderr@))
        },
    }
}

/// Ends the download `id`, whose files were to go under `output_path`.
pub fn finish_download(id: String, output_path: String, event: ToolEvent) -> (r: DownloadReport)
    ensures
        match r.progress {
            Some(p) => closing_progress(id@, output_path@, event) == Some(p@) && p.well_formed(),
            None => closing_progress(id@, output_path@, event) is None,
        },
        result_text(r.result) == closing_result(id@, event),
{
    match event {
        ToolEvent::SpawnFailed(reason) => DownloadReport {
            progress: None,
            result: Err(joined("Failed to spawn yt-dlp: ", reason.as_str())),
        },
        ToolEvent::WaitFailed(reason) => DownloadReport {
            progress: None,
            result: Err(joined("Failed to wait for yt-dlp: ", reason.as_str())),
        },
        ToolEvent::Exited { success, stderr } => {
            if success {
                DownloadReport {
                    progress: Some(DownloadProgress::completed(id.clone(), output_path)),
                    result: Ok(id),
                }
            } else {
                DownloadReport {
                    progress: Some(DownloadProgress::failed(id)),
                    result: Err(joined("Download failed: ", stderr.as_str())),
                }
            }
        },
    }
}

/// A download succeeds exactly where the tool exited with success; it is
/// then that the caller gets the identifier, and that the last snapshot
/// stands at 100 percent. Every other snapshot stands at 0.
pub proof fn lemma_download_succeeds_on_success_alone(
    id: Seq<char>,
    output_path: Seq<char>,
    event: ToolEvent,
)
    ensures
        closing_result(id, event) is Ok <==> (event is Exited && event->success),
        closing_result(id, event) is Ok ==> closing_result(id, event) == Ok::<
            Seq<char>,
            Seq<char>,
        >(id),
        closing_progress(id, output_path, event) is Some <==> event is Exited,
        closing_progress(id, output_path, event) matches Some(p) ==> p.id == id && p.progress == (
        if closing_result(id, event) is Ok {
            100nat
        } else {
            0nat
        }),
{
}

/// Whatever ends a download in failure is handed on word for word: the
/// reason why the tool could not be started or waited for, and what a tool
/// that exited with failure wrote to its error stream.
pub proof fn lemma_failure_holds_the_reason(id: Seq<char>, event: ToolEvent)
    requires
        closing_result(id, event) is Err,
    ensures
        contains_text(
            closing_result(id, event)->Err_0,
            match event {
                ToolEvent::SpawnFailed(reason) => reason@,
                ToolEvent::WaitFailed(reason) => reason@,
                ToolEvent::Exited { success, stderr } => stderr@,
            },
        ),
{
    let text = closing_result(id, event)->Err_0;
    let reason = match event {
        ToolEvent::SpawnFailed(reason) => reason@,
        ToolEvent::WaitFailed(reason) => reason@,
        ToolEvent::Exited { success, stderr } => stderr@,
    };
    let at = text.len() - reason.len();
    assert(text.subrange(at, at + reason.len()) =~= reason);
    assert(occurs_at(text, reason, at));
}

} // verus!
