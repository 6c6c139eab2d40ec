//! Commands for outside tools, and what comes back from running one.

use vstd::prelude::*;

verus! {

/// A program and the arguments to start it with.
#[derive(Debug)]
pub struct ToolCommand {
    pub program: String,
    pub args: Vec<String>,
}

/// The view of a `ToolCommand`.
pub struct ToolCommandView {
    pub program: Seq<char>,
    pub args: Seq<Seq<char>>,
}

impl View for ToolCommand {
    type V = ToolCommandView;

    open spec fn view(&self) -> ToolCommandView {
        ToolCommandView { program: self.program@, args: self.args.deep_view() }
    }
}

/// What a tool left behind when it exited: whether its exit status was
/// success, and the text it wrote to its two output streams.
#[derive(Debug)]
pub struct ToolOutput {
    pub success: bool,
    pub stdout: String,
    pub stderr: String,
}

/// How a tool ended that was started with only its error stream captured.
#[derive(Debug)]
pub enum ToolEvent {
    /// The tool could not be started; the text says why.
    SpawnFailed(String),
    /// Waiting for the tool failed; the text says why.
    WaitFailed(String),
    /// The tool exited. `success` tells whether its exit status was success;
    /// `stderr` is the text it wrote to its error stream.
    Exited { success: bool, stderr: String },
}

/// The name of the downloader tool.
pub open spec fn downloader() -> Seq<char> {
    "yt-dlp"@
}

} // verus!
