//! The value records that the operations produce.
//!
//! Each record has a view: the same record with every string replaced by
//! its sequence of characters. Contracts are stated over the views.

use vstd::prelude::*;

verus! {

/// The characters of an optional string.
pub open spec fn opt_text(value: Option<String>) -> Option<Seq<char>> {
    match value {
        Some(s) => Some(s@),
        None => None,
    }
}

/// The characters of a result whose two sides are strings.
pub open spec fn result_text(value: Result<String, String>) -> Result<Seq<char>, Seq<char>> {
    match value {
        Ok(s) => Ok(s@),
        Err(e) => Err(e@),
    }
}

/// One media item, as described by the downloader tool.
#[derive(Debug, Clone)]
pub struct DownloadInfo {
    pub id: String,
    pub url: String,
    pub title: String,
    pub duration: Option<String>,
    pub thumbnail: Option<String>,
    pub uploader: Option<String>,
}

/// The view of a `DownloadInfo`.
pub struct DownloadInfoView {
    pub id: Seq<char>,
    pub url: Seq<char>,
    pub title: Seq<char>,
    pub duration: Option<Seq<char>>,
    pub thumbnail: Option<Seq<char>>,
    pub uploader: Option<Seq<char>>,
}

impl View for DownloadInfo {
    type V = DownloadInfoView;

    open spec fn view(&self) -> DownloadInfoView {
        DownloadInfoView {
            id: self.id@,
            url: self.url@,
            title: self.title@,
            duration: opt_text(self.duration),
            thumbnail: opt_text(self.thumbnail),
            uploader: opt_text(self.uploader),
        }
    }
}

/// The stage that a download has reached.
#[derive(Debug, Clone, Copy, PartialEq, Eq, Structural)]
pub enum DownloadStatus {
    Starting,
    Downloading,
    Converting,
    Completed,
    Error,
}

impl DownloadStatus {
    /// The tag under which the stage is reported.
    pub open spec fn tag(self) -> Seq<char> {
        match self {
            DownloadStatus::Starting => "starting"@,
            DownloadStatus::Downloading => "downloading"@,
            DownloadStatus::Converting => "converting"@,
            DownloadStatus::Completed => "completed"@,
            DownloadStatus::Error => "error"@,
        }
    }

    /// The tag under which the stage is reported.
    pub fn label(self) -> (r: String)
        ensures
            r@ == self.tag(),
    {
        match self {
            DownloadStatus::Starting => "starting".to_owned(),
            DownloadStatus::Downloading => "downloading".to_owned(),
            DownloadStatus::Converting => "converting".to_owned(),
            DownloadStatus::Completed => "completed".to_owned(),
            DownloadStatus::Error => "error".to_owned(),
        }
    }
}

/// A snapshot of one download. `progress` is a percentage.
#[derive(Debug, Clone)]
pub struct DownloadProgress {
    pub id: String,
    pub status: String,
    pub progress: u8,
    pub speed: Option<String>,
    pub eta: Option<String>,
    pub file_path: Option<String>,
}

/// The view of a `DownloadProgress`.
pub struct DownloadProgressView {
    pub id: Seq<char>,
    pub status: Seq<char>,
    pub progress: nat,
    pub speed: Option<Seq<char>>,
    pub eta: Option<Seq<char>>,
    pub file_path: Option<Seq<char>>,
}

impl View for DownloadProgress {
    type V = DownloadProgressView;

    open spec fn view(&self) -> DownloadProgressView {
        DownloadProgressView {
            id: self.id@,
            status: self.status@,
            progress: self.progress as nat,
            speed: opt_text(self.speed),
            eta: opt_text(self.eta),
            file_path: opt_text(self.file_path),
        }
    }
}

impl DownloadProgressView {
    /// The snapshot of stage `status` at `progress` percent, with nothing
    /// known of speed or remaining time.
    pub open spec fn at(
        id: Seq<char>,
        status: DownloadStatus,
        progress: nat,
        file_path: Option<Seq<char>>,
    ) -> DownloadProgressView {
        DownloadProgressView {
            id,
            status: status.tag(),
            progress,
            speed: None,
            eta: None,
            file_path,
        }
    }

    /// The percentage is at most 100 and the status is one of the five tags.
    pub open spec fn well_formed(self) -> bool {
        &&& self.progress <= 100
        &&& exists|status: DownloadStatus| self.status == #[trigger] status.tag()
    }
}

impl DownloadProgress {
    /// The percentage is at most 100 and the status is one of the five tags.
    pub open spec fn well_formed(&self) -> bool {
        self@.well_formed()
    }

    /// The snapshot sent before the tool is started.
    pub fn starting(id: String) -> (r: DownloadProgress)
        ensures
            r@ == DownloadProgressView::at(id@, DownloadStatus::Starting, 0, None),
            r.well_formed(),
    {
        DownloadProgress {
            id,
            status: DownloadStatus::Starting.label(),
            progress: 0,
            speed: None,
            eta: None,
            file_path: None,
        }
    }

    /// The snapshot sent when the tool has exited with success: everything is
    /// done, and the files lie under `output_path`.
    pub fn completed(id: String, output_path: String) -> (r: DownloadProgress)
        ensures
            r@ == DownloadProgressView::at(
                id@,
                DownloadStatus::Completed,
                100,
                Some(output_path@),
            ),
            r.well_formed(),
    {
        DownloadProgress {
            id,
            status: DownloadStatus::Completed.label(),
            progress: 100,
            speed: None,
            eta: None,
            file_path: Some(output_path),
        }
    }

    /// The snapshot sent when the tool has exited with failure.
    pub fn failed(id: String) -> (r: DownloadProgress)
        ensures
            r@ == DownloadProgressView::at(id@, DownloadStatus::Error, 0, None),
            r.well_formed(),
    {
        DownloadProgress {
            id,
            status: DownloadStatus::Error.label(),
            progress: 0,
            speed: None,
            eta: None,
            file_path: None,
        }
    }
}

/// What the remote service says of a subscription.
#[derive(Debug)]
pub struct SubscriptionStatus {
    pub active: bool,
    pub tier: String,
    pub downloads_used: u32,
    pub downloads_limit: Option<u32>,
}

/// The view of a `SubscriptionStatus`.
pub struct SubscriptionStatusView {
    pub active: bool,
    pub tier: Seq<char>,
    pub downloads_used: u32,
    pub downloads_limit: Option<u32>,
}

impl View for SubscriptionStatus {
    type V = SubscriptionStatusView;

    open spec fn view(&self) -> SubscriptionStatusView {
        SubscriptionStatusView {
            active: self.active,
            tier: self.tier@,
            downloads_used: self.downloads_used,
            downloads_limit: self.downloads_limit,
        }
    }
}

/// One removable storage device.
#[derive(Debug)]
pub struct USBDrive {
    pub name: String,
    pub path: String,
    pub capacity: u64,
    pub available: u64,
}

/// The view of a `USBDrive`.
pub struct USBDriveView {
    pub name: Seq<char>,
    pub path: Seq<char>,
    pub capacity: u64,
    pub available: u64,
}

impl View for USBDrive {
    type V = USBDriveView;

    open spec fn view(&self) -> USBDriveView {
        USBDriveView {
            name: self.name@,
            path: self.path@,
            capacity: self.capacity,
            available: self.available,
        }
    }
}

/// The views of a list of devices, in order.
pub open spec fn drive_views(drives: Seq<USBDrive>) -> Seq<USBDriveView> {
    drives.map_values(|d: USBDrive| d@)
}

} // verus!
