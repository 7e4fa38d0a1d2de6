//! Resuming a paused transfer with an HTTP range request, apart from the
//! browser engine: what each step of the fetch does to the registry, and what
//! the fetch is to do next.

use vstd::prelude::*;
use crate::download::model::{CancelAction, RegistryView, backup_path};
use crate::download::{
    DownloadStatus, GlobalDownloadManager, ItemView, StatusView, backup_path_of, can_resume,
    get_download_for_resume, is_active, is_live, register_cancel_callback, remove_cancel_callback,
    remove_resume_callback, set_download_status, update_progress,
};
use crate::text::{decimal, push_decimal, push_str, string_of};

verus! {

/// The number of bytes asked of the response body at a time.
pub const CHUNK_SIZE: usize = 65536;

/// The HTTP status of a response that honours the range.
pub const STATUS_PARTIAL_CONTENT: u32 = 206;

/// The HTTP status of a response that ignores the range and sends the whole
/// entity.
pub const STATUS_OK: u32 = 200;

/// One resume of a paused transfer.
pub struct RangeResume {
    id: u64,
    url: String,
    destination: String,
    start_byte: u64,
    received: u64,
    total: u64,
}

/// What a `RangeResume` stands for in contracts.
pub struct RangeResumeView {
    pub id: u64,
    pub url: Seq<char>,
    pub destination: Seq<char>,
    /// The number of bytes that the transfer had when it was resumed.
    pub start_byte: u64,
    /// The number of bytes that the destination file holds.
    pub received: u64,
    /// The size of the whole file, once the response has told it.
    pub total: u64,
}

impl View for RangeResume {
    type V = RangeResumeView;

    closed spec fn view(&self) -> RangeResumeView {
        RangeResumeView {
            id: self.id,
            url: self.url@,
            destination: self.destination@,
            start_byte: self.start_byte,
            received: self.received,
            total: self.total,
        }
    }
}

/// The renaming that brings the backup back to the destination.
#[derive(Debug, PartialEq)]
pub struct RestoreStep {
    pub from: String,
    pub to: String,
}

/// The request that fetches the rest of the file.
#[derive(Debug, PartialEq)]
pub struct RangeRequest {
    /// The URL to `GET`.
    pub url: String,
    /// The value of the request's `Range` header.
    pub range: String,
}

/// What to do with the body of the response.
#[derive(Debug, PartialEq)]
pub enum ResponsePlan {
    /// The server honours the range: append the body to the destination.
    Append,
    /// The server sends the whole entity: truncate the destination and write
    /// it from the start.
    Rewrite,
    /// Neither: the fetch has failed, with this message.
    Reject(String),
}

/// What a `ResponsePlan` stands for in contracts.
pub enum ResponsePlanView {
    Append,
    Rewrite,
    Reject(Seq<char>),
}

impl View for ResponsePlan {
    type V = ResponsePlanView;

    open spec fn view(&self) -> ResponsePlanView {
        match self {
            ResponsePlan::Append => ResponsePlanView::Append,
            ResponsePlan::Rewrite => ResponsePlanView::Rewrite,
            ResponsePlan::Reject(message) => ResponsePlanView::Reject(message@),
        }
    }
}

/// What to do with the body of a response with `status` (in words:
/// `status_name`): with 206 it is the rest of the file and is appended; with
/// 200 it is the whole file and is written in place of what is there; any
/// other status fails the fetch.
pub open spec fn response_plan(status: u32, status_name: Seq<char>) -> ResponsePlanView {
    if status == STATUS_PARTIAL_CONTENT {
        ResponsePlanView::Append
    } else if status == STATUS_OK {
        ResponsePlanView::Rewrite
    } else {
        ResponsePlanView::Reject(status_failure(status_name))
    }
}

impl ResponsePlanView {
    /// What the destination holds once the body `body` was handled as the
    /// plan says, where it held `file` before: the body after what was there,
    /// the body alone, or what was there.
    pub open spec fn file_after(self, file: Seq<u8>, body: Seq<u8>) -> Seq<u8> {
        match self {
            ResponsePlanView::Append => file + body,
            ResponsePlanView::Rewrite => body,
            ResponsePlanView::Reject(_) => file,
        }
    }
}

/// Whether the backup is brought back before the fetch: it is where a
/// backup exists and the destination does not.
pub open spec fn restores_backup(backup_exists: bool, destination_exists: bool) -> bool {
    backup_exists && !destination_exists
}

/// What the fetch finds at the destination once the backup was brought back
/// where that is due: what the backup held, or what the destination held; and
/// nothing where there is neither.
pub open spec fn found_at_destination(destination: Option<Seq<u8>>, backup: Option<Seq<u8>>)
    -> Option<Seq<u8>> {
    if restores_backup(backup is Some, destination is Some) {
        backup
    } else {
        destination
    }
}

/// How the streaming of the body ended.
#[derive(Debug, PartialEq)]
pub enum StreamEnd {
    /// The body was read to its end.
    Eof,
    /// The cancellation token was found flipped.
    Cancelled,
    /// Request, read or write failed, with this message.
    Failed(String),
}

/// What a `StreamEnd` stands for in contracts.
pub enum StreamEndView {
    Eof,
    Cancelled,
    Failed(Seq<char>),
}

impl View for StreamEnd {
    type V = StreamEndView;

    open spec fn view(&self) -> StreamEndView {
        match self {
            StreamEnd::Eof => StreamEndView::Eof,
            StreamEnd::Cancelled => StreamEndView::Cancelled,
            StreamEnd::Failed(message) => StreamEndView::Failed(message@),
        }
    }
}

/// The value of the `Range` header that asks for everything from the byte
/// `start` on.
pub open spec fn range_header(start: u64) -> Seq<char> {
    "bytes="@ + decimal(start as nat) + "-"@
}

/// The message of a resume that could not bring its backup back.
pub open spec fn restore_failure(error: Seq<char>) -> Seq<char> {
    "Failed to restore backup: "@ + error
}

/// The message of a resume whose response has a status that is neither 206
/// nor 200.
pub open spec fn status_failure(status_name: Seq<char>) -> Seq<char> {
    "Server returned status "@ + status_name
}

/// The message of a resume whose body could not be read.
pub open spec fn read_failure(error: Seq<char>) -> Seq<char> {
    "Read error: "@ + error
}

impl RegistryView {
    /// A range fetch takes the transfer `id` over, which it does only where
    /// the transfer can be resumed: its cancel action replaces the one that
    /// was there, and the transfer is in progress. A transfer that is not
    /// paused, or whose server does not honour range requests, is left alone.
    pub open spec fn resume_started(self, id: u64) -> RegistryView {
        if self.can_resume(id) {
            RegistryView {
                cancel_actions: self.cancel_actions.insert(id, CancelAction::StopRangeFetch),
                ..self
            }.with_status(id, StatusView::InProgress)
        } else {
            self
        }
    }

    /// The backup of the transfer `id` could not be brought back for a
    /// resume, for the reason `message`: the transfer has failed, unless it
    /// has ended or is gone meanwhile.
    pub open spec fn resume_restore_failed(self, id: u64, message: Seq<char>) -> RegistryView {
        if self.is_live(id) {
            self.with_status(id, StatusView::Failed(message))
        } else {
            self
        }
    }

    /// The range fetch of the transfer `id` has ended. Only a transfer that
    /// is still in progress is touched: a body read to its end completes it
    /// and clears its actions, a failure fails it. A flipped token changes
    /// nothing: who flipped it has set the status.
    pub open spec fn resume_finished(self, id: u64, end: StreamEndView) -> RegistryView {
        if !self.is_active(id) {
            self
        } else {
            match end {
                StreamEndView::Eof => {
                    let completed = self.with_status(id, StatusView::Completed);
                    RegistryView {
                        cancel_actions: completed.cancel_actions.remove(id),
                        resume_actions: completed.resume_actions.remove(id),
                        ..completed
                    }
                },
                StreamEndView::Cancelled => self,
                StreamEndView::Failed(message) => self.with_status(
                    id,
                    StatusView::Failed(message),
                ),
            }
        }
    }
}

impl RangeResumeView {
    /// The resume of the transfer `item` as it begins: the fetch starts at
    /// the number of bytes that the transfer has, and the size of the whole
    /// is not known yet.
    pub open spec fn of(item: ItemView) -> RangeResumeView {
        RangeResumeView {
            id: item.id,
            url: item.url,
            destination: item.destination,
            start_byte: item.received_bytes,
            received: item.received_bytes,
            total: 0,
        }
    }

    /// The resume after a response with `status` that announces
    /// `content_length` bytes.
    pub open spec fn responded(self, status: u32, content_length: u64) -> RangeResumeView {
        if status == STATUS_PARTIAL_CONTENT {
            RangeResumeView {
                received: self.start_byte,
                total: (self.start_byte + content_length) as u64,
                ..self
            }
        } else if status == STATUS_OK {
            RangeResumeView { received: 0, total: content_length, ..self }
        } else {
            self
        }
    }

    /// The resume after `n` more bytes were written.
    pub open spec fn written(self, n: nat) -> RangeResumeView {
        RangeResumeView { received: (self.received + n) as u64, ..self }
    }
}

impl RangeResume {
    /// Prepares the resume of the transfer `id`, which has to be known and
    /// paused, with a server that honours range requests: the fetch starts at
    /// the number of bytes the transfer has. There is no resume of any other
    /// transfer.
    pub fn begin(reg: &GlobalDownloadManager, id: u64) -> (resume: Option<RangeResume>)
        requires
            reg.wf(),
        ensures
            resume is Some == reg@.can_resume(id),
            resume is Some ==> resume->0@ == RangeResumeView::of(reg@.item(id)),
    {
        if !can_resume(reg, id) {
            return None;
        }
        match get_download_for_resume(reg, id) {
            Some((url, destination, received)) => Some(
                RangeResume { id, url, destination, start_byte: received, received, total: 0 },
            ),
            None => None,
        }
    }

    /// The transfer that is resumed.
    pub fn id(&self) -> (id: u64)
        ensures
            id == self@.id,
    {
        self.id
    }

    /// The path of the file that the fetch writes.
    pub fn destination(&self) -> (path: &str)
        ensures
            path@ == self@.destination,
    {
        self.destination.as_str()
    }

    /// The number of bytes that the destination file holds.
    pub fn received(&self) -> (n: u64)
        ensures
            n == self@.received,
    {
        self.received
    }

    /// The size of the whole file, once the response has told it.
    pub fn total(&self) -> (n: u64)
        ensures
            n == self@.total,
    {
        self.total
    }

    /// Whether the backup is to be brought back first: it is where a backup
    /// exists and the destination does not.
    pub fn restore_step(&self, backup_exists: bool, destination_exists: bool) -> (step: Option<
        RestoreStep,
    >)
        ensures
            step is Some == restores_backup(backup_exists, destination_exists),
            step is Some ==> step->0.from@ == backup_path(self@.destination) && step->0.to@
                == self@.destination,
    {
        if backup_exists && !destination_exists {
            Some(
                RestoreStep {
                    from: backup_path_of(self.destination.as_str()),
                    to: self.destination.clone(),
                },
            )
        } else {
            None
        }
    }

    /// The backup could not be brought back: the transfer has failed, and
    /// the resume is over. A transfer that has ended meanwhile, or is gone,
    /// is left as it is.
    pub fn restore_failed(&self, reg: &mut GlobalDownloadManager, error: &str)
        requires
            old(reg).wf(),
        ensures
            final(reg).wf(),
            final(reg)@ == old(reg)@.resume_restore_failed(self@.id, restore_failure(error@)),
    {
        if is_live(reg, self.id) {
            let mut message: Vec<char> = Vec::new();
            push_str(&mut message, "Failed to restore backup: ");
            push_str(&mut message, error);
            assert(message@ =~= restore_failure(error@));
            set_download_status(reg, self.id, DownloadStatus::Failed(string_of(&message)));
        }
    }

    /// Takes the transfer over from whatever backend had it, if it can
    /// still be resumed: the cancel action now stops this fetch, and the
    /// transfer is in progress. The result is the request to send. Where the
    /// transfer is no longer paused with range support, nothing changes and
    /// there is no request.
    pub fn start(&self, reg: &mut GlobalDownloadManager) -> (request: Option<RangeRequest>)
        requires
            old(reg).wf(),
        ensures
            final(reg).wf(),
            final(reg)@ == old(reg)@.resume_started(self@.id),
            request is Some == old(reg)@.can_resume(self@.id),
            request is Some ==> request->0.url@ == self@.url && request->0.range@ == range_header(
                self@.start_byte,
            ),
    {
        if !can_resume(reg, self.id) {
            return None;
        }
        register_cancel_callback(reg, self.id, CancelAction::StopRangeFetch);
        set_download_status(reg, self.id, DownloadStatus::InProgress);
        let mut range: Vec<char> = Vec::new();
        push_str(&mut range, "bytes=");
        push_decimal(&mut range, self.start_byte);
        push_str(&mut range, "-");
        assert(range@ =~= range_header(self.start_byte));
        Some(RangeRequest { url: self.url.clone(), range: string_of(&range) })
    }

    /// The response has come, with `status` (in words: `status_name`) and
    /// `content_length` bytes announced. With 206 the body is the rest of the
    /// file. With 200 it is the whole file: progress goes back to 0. Any
    /// other status fails the fetch.
    pub fn response(
        &mut self,
        reg: &mut GlobalDownloadManager,
        status: u32,
        status_name: &str,
        content_length: u64,
    ) -> (plan: ResponsePlan)
        requires
            old(reg).wf(),
            status == STATUS_PARTIAL_CONTENT ==> old(self)@.start_byte + content_length
                <= u64::MAX,
        ensures
            final(reg).wf(),
            final(self)@ == old(self)@.responded(status, content_length),
            final(reg)@ == if status == STATUS_OK {
                old(reg)@.progressed(old(self)@.id, 0, content_length)
            } else {
                old(reg)@
            },
            plan@ == response_plan(status, status_name@),
    {
        if status == STATUS_PARTIAL_CONTENT {
            self.total = self.start_byte + content_length;
            self.received = self.start_byte;
            ResponsePlan::Append
        } else if status == STATUS_OK {
            self.total = content_length;
            self.received = 0;
            update_progress(reg, self.id, 0, content_length);
            ResponsePlan::Rewrite
        } else {
            let mut message: Vec<char> = Vec::new();
            push_str(&mut message, "Server returned status ");
            push_str(&mut message, status_name);
            assert(message@ =~= status_failure(status_name@));
            ResponsePlan::Reject(string_of(&message))
        }
    }

    /// A chunk of `n` bytes was read and written to the destination: the
    /// transfer's counters follow.
    pub fn chunk_written(&mut self, reg: &mut GlobalDownloadManager, n: usize)
        requires
            old(reg).wf(),
            old(self)@.received + n <= u64::MAX,
        ensures
            final(reg).wf(),
            final(self)@ == old(self)@.written(n as nat),
            final(reg)@ == old(reg)@.progressed(
                old(self)@.id,
                final(self)@.received,
                old(self)@.total,
            ),
    {
        self.received = self.received + n as u64;
        update_progress(reg, self.id, self.received, self.total);
    }

    /// A read of the body failed with `error`. If the token was flipped
    /// meanwhile, that is the cancellation and no failure.
    pub fn read_failed(cancelled: bool, error: &str) -> (end: StreamEnd)
        ensures
            end@ == if cancelled {
                StreamEndView::Cancelled
            } else {
                StreamEndView::Failed(read_failure(error@))
            },
    {
        if cancelled {
            StreamEnd::Cancelled
        } else {
            let mut message: Vec<char> = Vec::new();
            push_str(&mut message, "Read error: ");
            push_str(&mut message, error);
            assert(message@ =~= read_failure(error@));
            StreamEnd::Failed(string_of(&message))
        }
    }

    /// The fetch is over. Its outcome reaches the registry only if the
    /// transfer is still in progress.
    pub fn finish(&self, reg: &mut GlobalDownloadManager, end: StreamEnd)
        requires
            old(reg).wf(),
        ensures
            final(reg).wf(),
            final(reg)@ == old(reg)@.resume_finished(self@.id, end@),
    {
        if is_active(reg, self.id) {
            match end {
                StreamEnd::Eof => {
                    set_download_status(reg, self.id, DownloadStatus::Completed);
                    remove_cancel_callback(reg, self.id);
                    remove_resume_callback(reg, self.id);
                },
                StreamEnd::Cancelled => {},
                StreamEnd::Failed(message) => {
                    set_download_status(reg, self.id, DownloadStatus::Failed(message));
                },
            }
        }
    }
}

} // verus!
