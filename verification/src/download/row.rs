//! What a row of the downloads list shows for a transfer.

use vstd::prelude::*;
use crate::download::{DownloadItem, DownloadStatus, ItemView, StatusView};
use crate::text::{push_str, string_of};

verus! {

/// A button of a row: its icon and its tooltip.
#[derive(Debug, Clone, Copy, PartialEq, Eq)]
pub enum RowButton {
    /// Pauses the transfer.
    Pause,
    /// Resumes the transfer.
    Resume,
    /// Cancels the transfer.
    Cancel,
    /// Shows the downloaded file in its folder.
    ShowInFolder,
}

impl RowButton {
    /// The name of the button's icon.
    pub open spec fn icon(self) -> Seq<char> {
        match self {
            RowButton::Pause => "media-playback-pause-symbolic"@,
            RowButton::Resume => "media-playback-start-symbolic"@,
            RowButton::Cancel => "process-stop-symbolic"@,
            RowButton::ShowInFolder => "folder-open-symbolic"@,
        }
    }

    /// The button's tooltip.
    pub open spec fn tooltip(self) -> Seq<char> {
        match self {
            RowButton::Pause => "Pause"@,
            RowButton::Resume => "Resume"@,
            RowButton::Cancel => "Cancel"@,
            RowButton::ShowInFolder => "Show in folder"@,
        }
    }

    /// The name of the button's icon.
    pub fn icon_name(&self) -> (name: &'static str)
        ensures
            name@ == self.icon(),
    {
        match self {
            RowButton::Pause => "media-playback-pause-symbolic",
            RowButton::Resume => "media-playback-start-symbolic",
            RowButton::Cancel => "process-stop-symbolic",
            RowButton::ShowInFolder => "folder-open-symbolic",
        }
    }

    /// The button's tooltip.
    pub fn tooltip_text(&self) -> (text: &'static str)
        ensures
            text@ == self.tooltip(),
    {
        match self {
            RowButton::Pause => "Pause",
            RowButton::Resume => "Resume",
            RowButton::Cancel => "Cancel",
            RowButton::ShowInFolder => "Show in folder",
        }
    }
}

/// The icon that tells how a transfer ended.
#[derive(Debug, Clone, Copy, PartialEq, Eq)]
pub enum StatusIcon {
    Completed,
    Failed,
    Cancelled,
}

impl StatusIcon {
    /// The name of the icon.
    pub open spec fn icon(self) -> Seq<char> {
        match self {
            StatusIcon::Completed => "emblem-ok-symbolic"@,
            StatusIcon::Failed => "dialog-error-symbolic"@,
            StatusIcon::Cancelled => "process-stop-symbolic"@,
        }
    }

    /// The name of the icon.
    pub fn icon_name(&self) -> (name: &'static str)
        ensures
            name@ == self.icon(),
    {
        match self {
            StatusIcon::Completed => "emblem-ok-symbolic",
            StatusIcon::Failed => "dialog-error-symbolic",
            StatusIcon::Cancelled => "process-stop-symbolic",
        }
    }
}

/// What a row shows.
#[derive(Debug, PartialEq, Eq)]
pub struct RowContent {
    pub filename: String,
    /// The line below the file name.
    pub status_text: String,
    /// Whether the progress bar is shown.
    pub progress_visible: bool,
    /// The icon of the outcome; none while there is no outcome.
    pub status_icon: Option<StatusIcon>,
    /// The button that pauses or resumes, where it is shown.
    pub pause_button: Option<RowButton>,
    /// The button that cancels or opens the folder, where it is shown.
    pub action_button: Option<RowButton>,
    /// Whether the row can be dismissed.
    pub dismiss_visible: bool,
}

/// What a `RowContent` stands for in contracts.
pub struct RowContentView {
    pub filename: Seq<char>,
    pub status_text: Seq<char>,
    pub progress_visible: bool,
    pub status_icon: Option<StatusIcon>,
    pub pause_button: Option<RowButton>,
    pub action_button: Option<RowButton>,
    pub dismiss_visible: bool,
}

impl View for RowContent {
    type V = RowContentView;

    open spec fn view(&self) -> RowContentView {
        RowContentView {
            filename: self.filename@,
            status_text: self.status_text@,
            progress_visible: self.progress_visible,
            status_icon: self.status_icon,
            pause_button: self.pause_button,
            action_button: self.action_button,
            dismiss_visible: self.dismiss_visible,
        }
    }
}

impl ItemView {
    /// The line below the file name: speed, time left and size while the
    /// transfer runs; the size once it is paused; and else how it ended.
    pub open spec fn status_line(self, speed: Seq<char>, estimate: Option<u64>) -> Seq<char> {
        match self.status {
            StatusView::InProgress => speed + " - "@ + self.eta_text(estimate) + " left - "@
                + self.size_text(),
            StatusView::Paused => if self.supports_resume {
                "Paused - "@ + self.size_text()
            } else {
                "Paused (resume not supported) - "@ + self.size_text()
            },
            StatusView::Completed => "Completed"@,
            StatusView::Failed(reason) => "Failed: "@ + reason,
            StatusView::Cancelled => "Cancelled"@,
        }
    }

    /// What the row of the transfer shows, `speed` being its speed in words
    /// and `estimate` the time that the remaining bytes take at that speed.
    pub open spec fn row(self, speed: Seq<char>, estimate: Option<u64>) -> RowContentView {
        RowContentView {
            filename: self.filename,
            status_text: self.status_line(speed, estimate),
            progress_visible: self.status is InProgress || self.status is Paused,
            status_icon: match self.status {
                StatusView::Completed => Some(StatusIcon::Completed),
                StatusView::Failed(_) => Some(StatusIcon::Failed),
                StatusView::Cancelled => Some(StatusIcon::Cancelled),
                _ => None,
            },
            pause_button: match self.status {
                StatusView::InProgress => if self.supports_resume {
                    Some(RowButton::Pause)
                } else {
                    None
                },
                StatusView::Paused => if self.supports_resume {
                    Some(RowButton::Resume)
                } else {
                    None
                },
                _ => None,
            },
            action_button: match self.status {
                StatusView::InProgress => Some(RowButton::Cancel),
                StatusView::Completed => Some(RowButton::ShowInFolder),
                _ => None,
            },
            dismiss_visible: !self.is_active(),
        }
    }
}

impl DownloadItem {
    /// The line below the file name in the row of the transfer.
    pub fn status_text(&self, speed: &str, estimate: Option<u64>) -> (text: String)
        ensures
            text@ == self@.status_line(speed@, estimate),
    {
        let mut out: Vec<char> = Vec::new();
        match &self.status {
            DownloadStatus::InProgress => {
                push_str(&mut out, speed);
                push_str(&mut out, " - ");
                push_str(&mut out, self.eta_string(estimate).as_str());
                push_str(&mut out, " left - ");
                push_str(&mut out, self.size_string().as_str());
            },
            DownloadStatus::Paused => {
                if self.supports_resume {
                    push_str(&mut out, "Paused - ");
                } else {
                    push_str(&mut out, "Paused (resume not supported) - ");
                }
                push_str(&mut out, self.size_string().as_str());
            },
            DownloadStatus::Completed => {
                push_str(&mut out, "Completed");
            },
            DownloadStatus::Failed(reason) => {
                push_str(&mut out, "Failed: ");
                push_str(&mut out, reason.as_str());
            },
            DownloadStatus::Cancelled => {
                push_str(&mut out, "Cancelled");
            },
        }
        assert(out@ =~= self@.status_line(speed@, estimate));
        string_of(&out)
    }

    /// What the row of the transfer shows, `speed` being its speed in words
    /// and `estimate` the time that the remaining bytes take at that speed.
    pub fn row_content(&self, speed: &str, estimate: Option<u64>) -> (content: RowContent)
        ensures
            content@ == self@.row(speed@, estimate),
    {
        let status_icon = match &self.status {
            DownloadStatus::Completed => Some(StatusIcon::Completed),
            DownloadStatus::Failed(_) => Some(StatusIcon::Failed),
            DownloadStatus::Cancelled => Some(StatusIcon::Cancelled),
            _ => None,
        };
        let pause_button = match &self.status {
            DownloadStatus::InProgress => if self.supports_resume {
                Some(RowButton::Pause)
            } else {
                None
            },
            DownloadStatus::Paused => if self.supports_resume {
                Some(RowButton::Resume)
            } else {
                None
            },
            _ => None,
        };
        let action_button = match &self.status {
            DownloadStatus::InProgress => Some(RowButton::Cancel),
            DownloadStatus::Completed => Some(RowButton::ShowInFolder),
            _ => None,
        };
        RowContent {
            filename: self.filename.clone(),
            status_text: self.status_text(speed, estimate),
            progress_visible: self.is_active() || self.is_paused(),
            status_icon,
            pause_button,
            action_button,
            dismiss_visible: !self.is_active(),
        }
    }
}

} // verus!
