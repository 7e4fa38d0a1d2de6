//! The bridge between one download of the browser engine and the registry:
//! what each event of the engine does to the registry, and what the engine is
//! told in return.

use vstd::prelude::*;
use std::time::SystemTime;
use crate::download::model::{CancelAction, RegistryView, ResumeAction};
use crate::download::{
    DownloadStatus, GlobalDownloadManager, StatusView, add_download, is_active, is_paused,
    is_save_as, last_save_directory, register_cancel_callback,
    register_resume_callback, remove_cancel_callback, remove_resume_callback, save_directory,
    set_download_status, set_last_save_directory, set_supports_resume, update_progress,
};
use crate::text::{lowercase, option_text, same_text, string_of, to_lowercase};

verus! {

/// One download of the engine, as far as the registry is concerned.
pub struct NativeDownload {
    uri: Option<String>,
    show_dialog: bool,
    download_id: Option<u64>,
    resume_checked: bool,
}

/// What a `NativeDownload` stands for in contracts.
pub struct NativeView {
    /// The source URL, where the engine gave one.
    pub uri: Option<Seq<char>>,
    /// Whether the user is to choose the destination.
    pub show_dialog: bool,
    /// The transfer in the registry, once there is one.
    pub download_id: Option<u64>,
    /// Whether the response has been looked at for range support.
    pub resume_checked: bool,
}

impl View for NativeDownload {
    type V = NativeView;

    closed spec fn view(&self) -> NativeView {
        NativeView {
            uri: option_text(self.uri),
            show_dialog: self.show_dialog,
            download_id: self.download_id,
            resume_checked: self.resume_checked,
        }
    }
}

/// What the engine reports of the response it is reading.
pub struct NativeResponse {
    /// The announced length of the body; 0 where none was announced.
    pub content_length: u64,
    /// The value of the response's `Accept-Ranges` header, if it has one.
    pub accept_ranges: Option<String>,
}

/// What the engine's download object is told to do.
#[derive(Debug, PartialEq)]
pub enum NativeCommand {
    /// Let the destination be overwritten.
    AllowOverwrite,
    /// Write to this path.
    SetDestination(String),
    /// Give the download up.
    Cancel,
}

/// What a `NativeCommand` stands for in contracts.
pub enum NativeCommandView {
    AllowOverwrite,
    SetDestination(Seq<char>),
    Cancel,
}

impl View for NativeCommand {
    type V = NativeCommandView;

    open spec fn view(&self) -> NativeCommandView {
        match self {
            NativeCommand::AllowOverwrite => NativeCommandView::AllowOverwrite,
            NativeCommand::SetDestination(path) => NativeCommandView::SetDestination(path@),
            NativeCommand::Cancel => NativeCommandView::Cancel,
        }
    }
}

/// The views of `commands`, in order.
pub open spec fn command_views(commands: Seq<NativeCommand>) -> Seq<NativeCommandView> {
    Seq::new(commands.len(), |i: int| commands[i]@)
}

/// How the destination of a download is to be found.
#[derive(Debug, PartialEq)]
pub enum DestinationPlan {
    /// Ask the user, with a dialog that opens in `initial_folder` and offers
    /// `initial_name`.
    AskUser { initial_name: String, initial_folder: String },
    /// Save under a free name in `directory`, without asking.
    AutoSave { directory: String },
}

/// What a `DestinationPlan` stands for in contracts.
pub enum DestinationPlanView {
    AskUser { initial_name: Seq<char>, initial_folder: Seq<char> },
    AutoSave { directory: Seq<char> },
}

impl View for DestinationPlan {
    type V = DestinationPlanView;

    open spec fn view(&self) -> DestinationPlanView {
        match self {
            DestinationPlan::AskUser { initial_name, initial_folder } => {
                DestinationPlanView::AskUser {
                    initial_name: initial_name@,
                    initial_folder: initial_folder@,
                }
            },
            DestinationPlan::AutoSave { directory } => DestinationPlanView::AutoSave {
                directory: directory@,
            },
        }
    }
}

/// How the "Save As" dialog ended.
pub enum DialogAnswer {
    /// The user chose `path`, which lies in the directory `parent` where it
    /// has one.
    Chosen { path: String, parent: Option<String> },
    /// The dialog was confirmed but gave no path.
    NoPath,
    /// The dialog was dismissed or failed.
    Dismissed,
}

/// What a `DialogAnswer` stands for in contracts.
pub enum DialogAnswerView {
    Chosen { path: Seq<char>, parent: Option<Seq<char>> },
    NoPath,
    Dismissed,
}

impl View for DialogAnswer {
    type V = DialogAnswerView;

    open spec fn view(&self) -> DialogAnswerView {
        match self {
            DialogAnswer::Chosen { path, parent } => DialogAnswerView::Chosen {
                path: path@,
                parent: option_text(*parent),
            },
            DialogAnswer::NoPath => DialogAnswerView::NoPath,
            DialogAnswer::Dismissed => DialogAnswerView::Dismissed,
        }
    }
}

/// The text `none`, by which a server declines range requests.
pub open spec fn none_token() -> Seq<char> {
    seq!['n', 'o', 'n', 'e']
}

/// Whether a response with this `Accept-Ranges` value, already in lower
/// case, allows a transfer to be resumed: any value does but `none`.
pub fn accepts_ranges(lowered: &str) -> (accepts: bool)
    ensures
        accepts == (lowered@ != none_token()),
{
    proof {
        reveal_strlit("none");
        assert("none"@ =~= none_token());
    }
    !same_text(lowered, "none")
}

/// The directory in which downloads are saved without asking: the user's
/// downloads folder, failing that the home directory, failing that the
/// current directory.
pub open spec fn auto_save_directory(
    downloads_dir: Option<Seq<char>>,
    home: Option<Seq<char>>,
) -> Seq<char> {
    match downloads_dir {
        Some(dir) => dir,
        None => match home {
            Some(dir) => dir,
            None => seq!['.'],
        },
    }
}

/// The source URL under which a download is registered: the empty text where
/// the engine gave none.
pub open spec fn source_of(uri: Option<Seq<char>>) -> Seq<char> {
    match uri {
        Some(u) => u,
        None => Seq::empty(),
    }
}

impl RegistryView {
    /// A download of the engine has begun: its URL is no longer flagged.
    pub open spec fn native_started(self, uri: Option<Seq<char>>) -> RegistryView {
        match uri {
            Some(u) => RegistryView { save_as: self.save_as.remove(u), ..self },
            None => self,
        }
    }

    /// The user chose `path` in the dialog: the directory is remembered, and
    /// the transfer is created with the engine's cancel as its cancel action.
    pub open spec fn save_as_chosen(
        self,
        uri: Option<Seq<char>>,
        filename: Seq<char>,
        path: Seq<char>,
        parent: Option<Seq<char>>,
        now: SystemTime,
    ) -> RegistryView {
        let remembered = match parent {
            Some(dir) => RegistryView { last_save_directory: Some(dir), ..self },
            None => self,
        };
        let added = remembered.added(source_of(uri), filename, path, now);
        RegistryView {
            cancel_actions: added.cancel_actions.insert(self.next_id, CancelAction::NativeCancel),
            ..added
        }
    }

    /// A download is saved without asking: the transfer is created, with a
    /// cancel action that preserves the partial file across a pause and with
    /// the range request as its resume action.
    pub open spec fn auto_saved(
        self,
        uri: Option<Seq<char>>,
        filename: Seq<char>,
        destination: Seq<char>,
        now: SystemTime,
    ) -> RegistryView {
        let added = self.added(source_of(uri), filename, destination, now);
        RegistryView {
            cancel_actions: added.cancel_actions.insert(
                self.next_id,
                CancelAction::BackupThenNativeCancel,
            ),
            resume_actions: added.resume_actions.insert(self.next_id, ResumeAction::RangeRequest),
            ..added
        }
    }

    /// The engine reports data for the transfer `id`. On the first report
    /// that comes with a response, `first` holds, and `resumable` tells
    /// whether that response allows a resume.
    pub open spec fn native_progress(
        self,
        id: u64,
        received: u64,
        total: u64,
        first: bool,
        resumable: bool,
    ) -> RegistryView {
        let progressed = self.progressed(id, received, total);
        if first && resumable {
            progressed.with_supports_resume(id, true)
        } else {
            progressed
        }
    }

    /// The engine reports that the transfer `id` has finished, `short` of
    /// the expected length or not. Only a transfer still in progress is
    /// touched: one that got all it expected is completed and loses its
    /// actions, one that stopped short is cancelled. A status that was set on
    /// purpose, or that a transfer ended with, stays.
    pub open spec fn native_finished(self, id: u64, short: bool) -> RegistryView {
        if !self.is_active(id) {
            self
        } else if short {
            self.with_status(id, StatusView::Cancelled)
        } else {
            let completed = self.with_status(id, StatusView::Completed);
            RegistryView {
                cancel_actions: completed.cancel_actions.remove(id),
                resume_actions: completed.resume_actions.remove(id),
                ..completed
            }
        }
    }

    /// The engine reports that the transfer `id` has failed for `reason`.
    pub open spec fn native_failed(self, id: u64, reason: Seq<char>) -> RegistryView {
        let marked = if self.is_active(id) {
            self.with_status(id, StatusView::Failed(reason))
        } else {
            self
        };
        RegistryView { cancel_actions: marked.cancel_actions.remove(id), ..marked }
    }
}

/// Whether a finished download stopped short: a length was announced and
/// fewer bytes came.
pub open spec fn stopped_short(expected: Option<u64>, received: u64) -> bool {
    match expected {
        Some(length) => length > 0 && received < length,
        None => false,
    }
}

/// Whether a response allows a resume: it has an `Accept-Ranges` header
/// whose value, in lower case, is not `none`.
pub open spec fn allows_resume(accept_ranges: Option<Seq<char>>) -> bool {
    match accept_ranges {
        Some(value) => lowercase(value) != none_token(),
        None => false,
    }
}

impl NativeDownload {
    /// The engine has started a download from `uri`. Whether the user is to
    /// choose its destination is looked up among the flagged URLs, and the
    /// flag is cleared.
    pub fn started(reg: &mut GlobalDownloadManager, uri: Option<String>) -> (download:
        NativeDownload)
        requires
            old(reg).wf(),
        ensures
            final(reg).wf(),
            final(reg)@ == old(reg)@.native_started(option_text(uri)),
            download@ == (NativeView {
                uri: option_text(uri),
                show_dialog: match option_text(uri) {
                    Some(u) => old(reg)@.save_as.contains(u),
                    None => false,
                },
                download_id: None,
                resume_checked: false,
            }),
    {
        let show_dialog = match &uri {
            Some(u) => is_save_as(reg, u.as_str()),
            None => false,
        };
        NativeDownload { uri, show_dialog, download_id: None, resume_checked: false }
    }

    /// The transfer in the registry, once the destination is decided.
    pub fn download_id(&self) -> (id: Option<u64>)
        ensures
            id == self@.download_id,
    {
        self.download_id
    }

    /// The engine asks where to save. A flagged download goes to the user,
    /// with the last directory used as the folder of the dialog; any other is
    /// saved without asking.
    pub fn decide_destination(
        &self,
        reg: &GlobalDownloadManager,
        suggested_filename: &str,
        downloads_dir: Option<String>,
        home: Option<String>,
    ) -> (plan: DestinationPlan)
        ensures
            plan@ == if self@.show_dialog {
                DestinationPlanView::AskUser {
                    initial_name: suggested_filename@,
                    initial_folder: save_directory(
                        reg@.last_save_directory,
                        option_text(downloads_dir),
                    ),
                }
            } else {
                DestinationPlanView::AutoSave {
                    directory: auto_save_directory(option_text(downloads_dir), option_text(home)),
                }
            },
    {
        if self.show_dialog {
            DestinationPlan::AskUser {
                initial_name: suggested_filename.to_owned(),
                initial_folder: last_save_directory(reg, downloads_dir),
            }
        } else {
            let directory = match downloads_dir {
                Some(dir) => dir,
                None => match home {
                    Some(dir) => dir,
                    None => {
                        let mut out: Vec<char> = Vec::new();
                        out.push('.');
                        assert(out@ =~= seq!['.']);
                        string_of(&out)
                    },
                },
            };
            DestinationPlan::AutoSave { directory }
        }
    }

    /// The "Save As" dialog has ended. A chosen path makes the transfer; the
    /// engine is then told to overwrite and to write there. Without a path
    /// the engine's download is cancelled and the registry never hears of it.
    pub fn save_as_answered(
        &mut self,
        reg: &mut GlobalDownloadManager,
        suggested_filename: &str,
        answer: DialogAnswer,
        now: SystemTime,
    ) -> (commands: Vec<NativeCommand>)
        requires
            old(reg).wf(),
            old(reg)@.next_id < u64::MAX,
        ensures
            final(reg).wf(),
            match answer@ {
                DialogAnswerView::Chosen { path, parent } => {
                    &&& final(reg)@ == old(reg)@.save_as_chosen(
                        old(self)@.uri,
                        suggested_filename@,
                        path,
                        parent,
                        now,
                    )
                    &&& final(self)@ == (NativeView {
                        download_id: Some(old(reg)@.next_id),
                        ..old(self)@
                    })
                    &&& command_views(commands@) == seq![
                        NativeCommandView::AllowOverwrite,
                        NativeCommandView::SetDestination(path),
                    ]
                },
                _ => {
                    &&& final(reg)@ == old(reg)@
                    &&& final(self)@ == old(self)@
                    &&& command_views(commands@) == seq![NativeCommandView::Cancel]
                },
            },
    {
        let mut commands: Vec<NativeCommand> = Vec::new();
        match answer {
            DialogAnswer::Chosen { path, parent } => {
                match parent {
                    Some(dir) => {
                        set_last_save_directory(reg, dir);
                    },
                    None => {},
                }
                let id = match &self.uri {
                    Some(u) => add_download(reg, u.as_str(), suggested_filename, path.clone(), now),
                    None => add_download(reg, "", suggested_filename, path.clone(), now),
                };
                proof {
                    reveal_strlit("");
                    assert(""@ =~= Seq::<char>::empty());
                }
                self.download_id = Some(id);
                register_cancel_callback(reg, id, CancelAction::NativeCancel);
                commands.push(NativeCommand::AllowOverwrite);
                commands.push(NativeCommand::SetDestination(path));
                assert(command_views(commands@) =~= seq![
                    NativeCommandView::AllowOverwrite,
                    NativeCommandView::SetDestination(path@),
                ]);
            },
            _ => {
                commands.push(NativeCommand::Cancel);
                assert(command_views(commands@) =~= seq![NativeCommandView::Cancel]);
            },
        }
        commands
    }

    /// The download is saved without asking, as `filename` at `destination`.
    /// The transfer is made, with a cancel action that keeps the partial file
    /// across a pause and with a resume action; the engine is then told to
    /// overwrite and to write there.
    pub fn auto_save(
        &mut self,
        reg: &mut GlobalDownloadManager,
        filename: &str,
        destination: String,
        now: SystemTime,
    ) -> (commands: Vec<NativeCommand>)
        requires
            old(reg).wf(),
            old(reg)@.next_id < u64::MAX,
        ensures
            final(reg).wf(),
            final(reg)@ == old(reg)@.auto_saved(old(self)@.uri, filename@, destination@, now),
            final(self)@ == (NativeView { download_id: Some(old(reg)@.next_id), ..old(self)@ }),
            command_views(commands@) == seq![
                NativeCommandView::AllowOverwrite,
                NativeCommandView::SetDestination(destination@),
            ],
    {
        let id = match &self.uri {
            Some(u) => add_download(reg, u.as_str(), filename, destination.clone(), now),
            None => add_download(reg, "", filename, destination.clone(), now),
        };
        proof {
            reveal_strlit("");
            assert(""@ =~= Seq::<char>::empty());
        }
        self.download_id = Some(id);
        register_cancel_callback(reg, id, CancelAction::BackupThenNativeCancel);
        register_resume_callback(reg, id, ResumeAction::RangeRequest);
        let mut commands: Vec<NativeCommand> = Vec::new();
        commands.push(NativeCommand::AllowOverwrite);
        commands.push(NativeCommand::SetDestination(destination));
        assert(command_views(commands@) =~= seq![
            NativeCommandView::AllowOverwrite,
            NativeCommandView::SetDestination(destination@),
        ]);
        commands
    }

    /// Whether `response` allows a resume.
    fn response_allows_resume(response: &NativeResponse) -> (allows: bool)
        ensures
            allows == allows_resume(option_text(response.accept_ranges)),
    {
        match &response.accept_ranges {
            Some(value) => {
                let lowered = to_lowercase(value.as_str());
                accepts_ranges(lowered.as_str())
            },
            None => false,
        }
    }

    /// The engine has received data: `received` bytes so far. With a
    /// transfer and a response at hand, the transfer's counters are
    /// overwritten, and the first such report also settles whether the
    /// transfer can be resumed. Without either, nothing happens.
    pub fn received_data(
        &mut self,
        reg: &mut GlobalDownloadManager,
        response: Option<NativeResponse>,
        received: u64,
    )
        requires
            old(reg).wf(),
        ensures
            final(reg).wf(),
            match (old(self)@.download_id, response) {
                (Some(id), Some(r)) => {
                    &&& final(reg)@ == old(reg)@.native_progress(
                        id,
                        received,
                        r.content_length,
                        !old(self)@.resume_checked,
                        allows_resume(option_text(r.accept_ranges)),
                    )
                    &&& final(self)@ == (NativeView { resume_checked: true, ..old(self)@ })
                },
                _ => final(reg)@ == old(reg)@ && final(self)@ == old(self)@,
            },
    {
        match self.download_id {
            Some(id) => match response {
                Some(r) => {
                    update_progress(reg, id, received, r.content_length);
                    if !self.resume_checked {
                        self.resume_checked = true;
                        if Self::response_allows_resume(&r) {
                            set_supports_resume(reg, id, true);
                        }
                    }
                },
                None => {},
            },
            None => {},
        }
    }

    /// The engine reports that the download has finished, with `received`
    /// bytes of the `expected` ones (`None` where there was no response).
    /// Only a transfer still in progress is touched: one that got all it
    /// expected is completed and loses its actions; one that stopped short is
    /// no success and becomes cancelled. A transfer that was paused or
    /// cancelled meanwhile, or that has ended, keeps its status.
    pub fn finished(&self, reg: &mut GlobalDownloadManager, expected: Option<u64>, received: u64)
        requires
            old(reg).wf(),
        ensures
            final(reg).wf(),
            final(reg)@ == match self@.download_id {
                Some(id) => old(reg)@.native_finished(id, stopped_short(expected, received)),
                None => old(reg)@,
            },
    {
        match self.download_id {
            Some(id) => {
                let short = match expected {
                    Some(length) => length > 0 && received < length,
                    None => false,
                };
                if is_active(reg, id) {
                    if short {
                        set_download_status(reg, id, DownloadStatus::Cancelled);
                    } else {
                        set_download_status(reg, id, DownloadStatus::Completed);
                        remove_cancel_callback(reg, id);
                        remove_resume_callback(reg, id);
                    }
                }
            },
            None => {},
        }
    }

    /// The engine reports that the download has failed for `reason`. Only a
    /// transfer still in progress becomes failed: a failure that follows a
    /// pause or a cancel leaves the status that was set on purpose. The
    /// cancel action is dropped either way, the resume action is kept.
    pub fn failed(&self, reg: &mut GlobalDownloadManager, reason: &str)
        requires
            old(reg).wf(),
        ensures
            final(reg).wf(),
            final(reg)@ == match self@.download_id {
                Some(id) => old(reg)@.native_failed(id, reason@),
                None => old(reg)@,
            },
    {
        match self.download_id {
            Some(id) => {
                if !is_paused(reg, id) && is_active(reg, id) {
                    set_download_status(reg, id, DownloadStatus::Failed(reason.to_owned()));
                }
                remove_cancel_callback(reg, id);
            },
            None => {},
        }
    }
}

} // verus!
