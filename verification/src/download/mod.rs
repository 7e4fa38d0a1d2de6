//! The download registry: every known transfer with its status, the actions
//! registered for cancelling and resuming each of them, and the observers to
//! tell when something changes.

use vstd::prelude::*;
use std::collections::HashMap;
use std::time::SystemTime;
use crate::download::model::{
    CancelAction, RegistryView, ResumeAction, StepView, backup_path, keep_active, keep_all_but,
    lemma_filter_step,
};
use crate::text::{chars_of, option_text, same_text, string_of};

pub mod format;
pub mod laws;
pub mod model;
pub mod naming;
pub mod native;
pub mod popover;
pub mod resume;
pub mod row;

verus! {

/// Status of a download.
#[derive(Debug, PartialEq)]
pub enum DownloadStatus {
    InProgress,
    Paused,
    Completed,
    Failed(String),
    Cancelled,
}

/// What a `DownloadStatus` stands for in contracts.
pub enum StatusView {
    InProgress,
    Paused,
    Completed,
    Failed(Seq<char>),
    Cancelled,
}

impl View for DownloadStatus {
    type V = StatusView;

    open spec fn view(&self) -> StatusView {
        match self {
            DownloadStatus::InProgress => StatusView::InProgress,
            DownloadStatus::Paused => StatusView::Paused,
            DownloadStatus::Completed => StatusView::Completed,
            DownloadStatus::Failed(reason) => StatusView::Failed(reason@),
            DownloadStatus::Cancelled => StatusView::Cancelled,
        }
    }
}

impl Clone for DownloadStatus {
    fn clone(&self) -> (r: DownloadStatus)
        ensures
            r@ == self@,
    {
        match self {
            DownloadStatus::InProgress => DownloadStatus::InProgress,
            DownloadStatus::Paused => DownloadStatus::Paused,
            DownloadStatus::Completed => DownloadStatus::Completed,
            DownloadStatus::Failed(reason) => DownloadStatus::Failed(reason.clone()),
            DownloadStatus::Cancelled => DownloadStatus::Cancelled,
        }
    }
}

/// Represents a single download.
#[derive(Debug)]
pub struct DownloadItem {
    /// Unique handle, assigned at creation and never reused.
    pub id: u64,
    /// Suggested file name.
    pub filename: String,
    /// Origin URL.
    pub url: String,
    /// Absolute path of the file being written.
    pub destination: String,
    /// Expected size in bytes; 0 until known.
    pub total_bytes: u64,
    /// Bytes received so far.
    pub received_bytes: u64,
    pub status: DownloadStatus,
    /// When the transfer was created.
    pub started_at: SystemTime,
    /// Whether the server supports range requests (resume).
    pub supports_resume: bool,
}

/// What a `DownloadItem` stands for in contracts.
pub struct ItemView {
    pub id: u64,
    pub filename: Seq<char>,
    pub url: Seq<char>,
    pub destination: Seq<char>,
    pub total_bytes: u64,
    pub received_bytes: u64,
    pub status: StatusView,
    pub started_at: SystemTime,
    pub supports_resume: bool,
}

impl View for DownloadItem {
    type V = ItemView;

    open spec fn view(&self) -> ItemView {
        ItemView {
            id: self.id,
            filename: self.filename@,
            url: self.url@,
            destination: self.destination@,
            total_bytes: self.total_bytes,
            received_bytes: self.received_bytes,
            status: self.status@,
            started_at: self.started_at,
            supports_resume: self.supports_resume,
        }
    }
}

impl Clone for DownloadItem {
    fn clone(&self) -> (r: DownloadItem)
        ensures
            r@ == self@,
    {
        DownloadItem {
            id: self.id,
            filename: self.filename.clone(),
            url: self.url.clone(),
            destination: self.destination.clone(),
            total_bytes: self.total_bytes,
            received_bytes: self.received_bytes,
            status: self.status.clone(),
            started_at: self.started_at,
            supports_resume: self.supports_resume,
        }
    }
}

impl ItemView {
    /// Still in progress (actively downloading).
    pub open spec fn is_active(self) -> bool {
        self.status is InProgress
    }

    /// Paused: stopped for now, to be resumed.
    pub open spec fn is_paused(self) -> bool {
        self.status is Paused
    }

    /// Paused, and the server is known to honour range requests.
    pub open spec fn can_resume(self) -> bool {
        self.is_paused() && self.supports_resume
    }

    /// Bytes still to come, 0 where more was received than expected.
    pub open spec fn remaining_bytes(self) -> nat {
        if self.total_bytes >= self.received_bytes {
            (self.total_bytes - self.received_bytes) as nat
        } else {
            0
        }
    }
}

impl DownloadItem {
    /// Check if download is still in progress (actively downloading).
    pub fn is_active(&self) -> (r: bool)
        ensures
            r == self@.is_active(),
    {
        matches!(self.status, DownloadStatus::InProgress)
    }

    /// Check if download is paused.
    pub fn is_paused(&self) -> (r: bool)
        ensures
            r == self@.is_paused(),
    {
        matches!(self.status, DownloadStatus::Paused)
    }

    /// Check if download can be resumed.
    pub fn can_resume(&self) -> (r: bool)
        ensures
            r == self@.can_resume(),
    {
        self.is_paused() && self.supports_resume
    }
}

/// One thing for the backend to do on behalf of the registry.
#[derive(Debug, PartialEq)]
pub enum BackendStep {
    /// Copy the partial file at `from` to the backup path `to`. A failure is
    /// logged and otherwise ignored.
    CopyPartialToBackup { from: String, to: String },
    /// Cancel the engine's own download object.
    CancelNative,
    /// Flip the cancellation token of the range fetch.
    CancelRangeFetch,
}

impl View for BackendStep {
    type V = StepView;

    open spec fn view(&self) -> StepView {
        match self {
            BackendStep::CopyPartialToBackup { from, to } => StepView::CopyPartialToBackup {
                from: from@,
                to: to@,
            },
            BackendStep::CancelNative => StepView::CancelNative,
            BackendStep::CancelRangeFetch => StepView::CancelRangeFetch,
        }
    }
}

/// `SystemTime` of the standard library: a point in time, carried through as
/// it is.
#[verifier::external_type_specification]
#[verifier::external_body]
pub struct ExSystemTime(SystemTime);

/// The views of `items`, in order.
pub open spec fn item_views(items: Seq<DownloadItem>) -> Seq<ItemView> {
    Seq::new(items.len(), |i: int| items[i]@)
}

/// The views of `steps`, in order.
pub open spec fn step_views(steps: Seq<BackendStep>) -> Seq<StepView> {
    Seq::new(steps.len(), |i: int| steps[i]@)
}

/// The texts that `uris` holds.
pub open spec fn text_set(uris: Seq<String>) -> Set<Seq<char>> {
    Set::new(|text: Seq<char>| exists|i: int| 0 <= i < uris.len() && uris[i]@ == text)
}

/// The path of the backup kept for `destination` across a pause.
pub fn backup_path_of(destination: &str) -> (path: String)
    ensures
        path@ == backup_path(destination@),
{
    let mut out: Vec<char> = chars_of(destination);
    out.push('.');
    out.push('p');
    out.push('a');
    out.push('r');
    out.push('t');
    assert(out@ =~= backup_path(destination@));
    string_of(&out)
}

/// The download registry: the single source of truth for all transfers.
pub struct GlobalDownloadManager {
    downloads: Vec<DownloadItem>,
    next_id: u64,
    subscribers: usize,
    notice_pending: bool,
    cancel_callbacks: HashMap<u64, CancelAction>,
    resume_callbacks: HashMap<u64, ResumeAction>,
    pending_save_as: Vec<String>,
    last_save_directory: Option<String>,
}

impl View for GlobalDownloadManager {
    type V = RegistryView;

    closed spec fn view(&self) -> RegistryView {
        RegistryView {
            items: item_views(self.downloads@),
            next_id: self.next_id,
            subscribers: self.subscribers as nat,
            notice_pending: self.notice_pending,
            cancel_actions: self.cancel_callbacks@,
            resume_actions: self.resume_callbacks@,
            save_as: text_set(self.pending_save_as@),
            last_save_directory: option_text(self.last_save_directory),
        }
    }
}

impl GlobalDownloadManager {
    /// No URL is flagged twice.
    closed spec fn save_as_distinct(&self) -> bool {
        forall|i: int, j: int|
            0 <= i < j < self.pending_save_as@.len() ==> self.pending_save_as@[i]@
                != self.pending_save_as@[j]@
    }

    /// The registry's invariant: ids grow with age and none is at or above the
    /// next one to be given out.
    pub closed spec fn wf(&self) -> bool {
        &&& self@.wf()
        &&& self@.subscribers <= usize::MAX
        &&& self.save_as_distinct()
    }

    /// What `wf` says of the registry's state.
    pub proof fn lemma_wf(&self)
        requires
            self.wf(),
        ensures
            self@.wf(),
            self@.subscribers <= usize::MAX,
    {
    }

    /// A registry without transfers, whose first transfer gets the id 1.
    pub fn new() -> (reg: GlobalDownloadManager)
        ensures
            reg.wf(),
            reg@ == RegistryView::empty(),
    {
        let reg = GlobalDownloadManager {
            downloads: Vec::new(),
            next_id: 1,
            subscribers: 0,
            notice_pending: false,
            cancel_callbacks: HashMap::new(),
            resume_callbacks: HashMap::new(),
            pending_save_as: Vec::new(),
            last_save_directory: None,
        };
        assert(reg@.items =~= Seq::empty());
        assert(reg@.save_as =~= Set::empty());
        reg
    }

    /// The id that the next transfer gets.
    pub fn next_id(&self) -> (id: u64)
        ensures
            id == self@.next_id,
    {
        self.next_id
    }

    /// How many observers have subscribed.
    pub fn subscriber_count(&self) -> (n: usize)
        ensures
            n == self@.subscribers,
    {
        self.subscribers
    }

    /// Where the transfer `id` stands, if it is known.
    fn find(&self, id: u64) -> (found: Option<usize>)
        requires
            self.wf(),
        ensures
            match found {
                Some(k) => k < self.downloads@.len() && self@.contains(id) && self@.position(id)
                    == k,
                None => !self@.contains(id),
            },
    {
        let mut i: usize = 0;
        while i < self.downloads.len()
            invariant
                self.wf(),
                i <= self.downloads@.len(),
                forall|j: int| 0 <= j < i ==> self.downloads@[j].id != id,
            decreases self.downloads@.len() - i,
        {
            if self.downloads[i].id == id {
                proof {
                    self@.lemma_position(id, i as int);
                }
                return Some(i);
            }
            i += 1;
        }
        None
    }
}

/// Subscribe to download changes; returns the observer's number, which is
/// the count of those that subscribed before it.
pub fn subscribe_to_changes(reg: &mut GlobalDownloadManager) -> (id: usize)
    requires
        old(reg).wf(),
        old(reg)@.subscribers < usize::MAX,
    ensures
        final(reg).wf(),
        id == old(reg)@.subscribers,
        final(reg)@ == (RegistryView { subscribers: old(reg)@.subscribers + 1, ..old(reg)@ }),
{
    let id = reg.subscribers;
    reg.subscribers = id + 1;
    id
}

/// Whether the observers are still to be told of a change. Tells how many
/// observers there are to call, and marks them as told.
pub fn take_change_notice(reg: &mut GlobalDownloadManager) -> (observers: Option<usize>)
    requires
        old(reg).wf(),
    ensures
        final(reg).wf(),
        final(reg)@ == (RegistryView { notice_pending: false, ..old(reg)@ }),
        observers == if old(reg)@.notice_pending {
            Some(old(reg)@.subscribers as usize)
        } else {
            None
        },
{
    if reg.notice_pending {
        reg.notice_pending = false;
        Some(reg.subscribers)
    } else {
        None
    }
}

/// Add a new download, in progress and with nothing received, and return its
/// id. The observers are to be told.
pub fn add_download(
    reg: &mut GlobalDownloadManager,
    url: &str,
    filename: &str,
    destination: String,
    started_at: SystemTime,
) -> (id: u64)
    requires
        old(reg).wf(),
        old(reg)@.next_id < u64::MAX,
    ensures
        final(reg).wf(),
        id == old(reg)@.next_id,
        final(reg)@ == old(reg)@.added(url@, filename@, destination@, started_at),
{
    let id = reg.next_id;
    let item = DownloadItem {
        id,
        filename: filename.to_owned(),
        url: url.to_owned(),
        destination,
        total_bytes: 0,
        received_bytes: 0,
        status: DownloadStatus::InProgress,
        started_at,
        supports_resume: false,
    };
    reg.next_id = id + 1;
    reg.downloads.push(item);
    reg.notice_pending = true;
    assert(reg@.items =~= old(reg)@.added(url@, filename@, destination@, started_at).items);
    id
}

/// Update download progress: the counters of the transfer `id` are
/// overwritten. An unknown id changes no transfer. The observers are to be
/// told either way.
pub fn update_progress(reg: &mut GlobalDownloadManager, id: u64, received: u64, total: u64)
    requires
        old(reg).wf(),
    ensures
        final(reg).wf(),
        final(reg)@ == old(reg)@.progressed(id, received, total),
        final(reg)@.items.len() == old(reg)@.items.len(),
        !old(reg)@.contains(id) ==> final(reg)@.items == old(reg)@.items,
{
    match reg.find(id) {
        Some(k) => {
            reg.downloads[k].received_bytes = received;
            reg.downloads[k].total_bytes = total;
            proof {
                let item = ItemView {
                    received_bytes: received,
                    total_bytes: total,
                    ..old(reg)@.item(id)
                };
                old(reg)@.lemma_replaced(id, item);
                assert(reg@.items =~= old(reg)@.replaced(id, item).items);
            }
        },
        None => {},
    }
    reg.notice_pending = true;
}

/// Set download status: the status of the transfer `id` is overwritten. An
/// unknown id changes no transfer. The observers are to be told either way.
pub fn set_download_status(reg: &mut GlobalDownloadManager, id: u64, status: DownloadStatus)
    requires
        old(reg).wf(),
    ensures
        final(reg).wf(),
        final(reg)@ == old(reg)@.with_status(id, status@),
        final(reg)@.items.len() == old(reg)@.items.len(),
        !old(reg)@.contains(id) ==> final(reg)@.items == old(reg)@.items,
{
    match reg.find(id) {
        Some(k) => {
            reg.downloads[k].status = status;
            proof {
                let item = ItemView { status: status@, ..old(reg)@.item(id) };
                old(reg)@.lemma_replaced(id, item);
                assert(reg@.items =~= old(reg)@.replaced(id, item).items);
            }
        },
        None => {},
    }
    reg.notice_pending = true;
}

/// Set whether a download supports resume. An unknown id changes nothing.
/// The observers are not told.
pub fn set_supports_resume(reg: &mut GlobalDownloadManager, id: u64, supports: bool)
    requires
        old(reg).wf(),
    ensures
        final(reg).wf(),
        final(reg)@ == old(reg)@.with_supports_resume(id, supports),
{
    match reg.find(id) {
        Some(k) => {
            reg.downloads[k].supports_resume = supports;
            proof {
                let item = ItemView { supports_resume: supports, ..old(reg)@.item(id) };
                old(reg)@.lemma_replaced(id, item);
                assert(reg@.items =~= old(reg)@.replaced(id, item).items);
            }
        },
        None => {},
    }
}

/// Get recent downloads: the `limit` most recently created, most recent
/// first.
pub fn recent_downloads(reg: &GlobalDownloadManager, limit: usize) -> (recent: Vec<DownloadItem>)
    requires
        reg.wf(),
    ensures
        item_views(recent@) == reg@.recent(limit as nat),
{
    let n = reg.downloads.len();
    let count = if limit < n {
        limit
    } else {
        n
    };
    let mut recent: Vec<DownloadItem> = Vec::new();
    let mut i: usize = 0;
    while i < count
        invariant
            n == reg.downloads@.len(),
            count <= n,
            i <= count,
            recent@.len() == i,
            forall|j: int| 0 <= j < i ==> recent@[j]@ == reg.downloads@[n - 1 - j]@,
        decreases count - i,
    {
        recent.push(reg.downloads[n - 1 - i].clone());
        i += 1;
    }
    assert(item_views(recent@) =~= reg@.recent(limit as nat));
    recent
}

/// Check if there are any active downloads.
pub fn has_active_downloads(reg: &GlobalDownloadManager) -> (active: bool)
    requires
        reg.wf(),
    ensures
        active == reg@.has_active(),
{
    let mut i: usize = 0;
    while i < reg.downloads.len()
        invariant
            i <= reg.downloads@.len(),
            forall|j: int| 0 <= j < i ==> !reg@.items[j].is_active(),
        decreases reg.downloads@.len() - i,
    {
        if reg.downloads[i].is_active() {
            assert(reg@.items[i as int].is_active());
            return true;
        }
        i += 1;
    }
    false
}

/// Check if there are any downloads.
pub fn has_downloads(reg: &GlobalDownloadManager) -> (any: bool)
    requires
        reg.wf(),
    ensures
        any == reg@.has_any(),
{
    reg.downloads.len() > 0
}

/// Which transfers a sweep of the registry keeps.
enum Keep {
    /// Those still in progress.
    Active,
    /// All but the one with this id.
    AllBut(u64),
}

impl Keep {
    spec fn rule(self) -> spec_fn(ItemView) -> bool {
        match self {
            Keep::Active => keep_active(),
            Keep::AllBut(id) => keep_all_but(id),
        }
    }

    fn keeps(&self, item: &DownloadItem) -> (r: bool)
        ensures
            r == (self.rule())(item@),
    {
        match self {
            Keep::Active => item.is_active(),
            Keep::AllBut(id) => item.id != *id,
        }
    }
}

/// Drops the transfers that `keep` rejects; the others stay in order.
fn sweep(reg: &mut GlobalDownloadManager, keep: Keep)
    requires
        old(reg).wf(),
    ensures
        final(reg).wf(),
        final(reg)@ == (RegistryView { items: old(reg)@.items.filter(keep.rule()), ..old(reg)@ }),
{
    let ghost orig = reg@.items;
    let ghost mut decided: int = 0;
    let mut i: usize = 0;
    assert(orig.take(0).filter(keep.rule()) =~= Seq::empty()) by {
        reveal(Seq::filter);
    }
    assert(reg@.items.take(0) =~= Seq::empty());
    assert(reg@.items.skip(0) =~= orig.skip(0));
    while i < reg.downloads.len()
        invariant
            reg.wf(),
            reg@ == (RegistryView { items: reg@.items, ..old(reg)@ }),
            i <= reg.downloads@.len(),
            0 <= decided <= orig.len(),
            reg@.items.take(i as int) == orig.take(decided).filter(keep.rule()),
            reg@.items.skip(i as int) == orig.skip(decided),
        decreases reg.downloads@.len() - i,
    {
        let ghost before = reg@.items;
        assert(before.skip(i as int)[0] == before[i as int]);
        assert(decided < orig.len() && orig[decided] == before[i as int]) by {
            assert(orig.skip(decided).len() == before.skip(i as int).len());
            assert(orig.skip(decided)[0] == orig[decided]);
        }
        proof {
            lemma_filter_step(orig, keep.rule(), decided);
        }
        if keep.keeps(&reg.downloads[i]) {
            assert(before.take(i + 1) =~= before.take(i as int).push(before[i as int]));
            assert(before.skip(i + 1) =~= before.skip(i as int).skip(1));
            assert(orig.skip(decided + 1) =~= orig.skip(decided).skip(1));
            i += 1;
        } else {
            reg.downloads.remove(i);
            assert(reg@.items =~= before.remove(i as int));
            assert(reg@.items.take(i as int) =~= before.take(i as int));
            assert(reg@.items.skip(i as int) =~= before.skip(i as int).skip(1));
            assert(orig.skip(decided + 1) =~= orig.skip(decided).skip(1));
        }
        proof {
            decided = decided + 1;
        }
    }
    assert(reg@.items.take(i as int) =~= reg@.items);
    assert(decided == orig.len()) by {
        assert(orig.skip(decided).len() == reg@.items.skip(i as int).len());
    }
    assert(orig.take(decided) =~= orig);
}

/// Clear completed downloads: every transfer that is no longer in progress
/// is dropped, a paused one too. The observers are to be told.
pub fn clear_completed(reg: &mut GlobalDownloadManager)
    requires
        old(reg).wf(),
    ensures
        final(reg).wf(),
        final(reg)@ == old(reg)@.cleared(),
{
    sweep(reg, Keep::Active);
    reg.notice_pending = true;
}

/// Remove a specific download by id, and its cancel action with it. Nothing
/// but the notice to the observers comes of an unknown id.
pub fn remove_download(reg: &mut GlobalDownloadManager, id: u64)
    requires
        old(reg).wf(),
    ensures
        final(reg).wf(),
        final(reg)@ == old(reg)@.without(id),
{
    sweep(reg, Keep::AllBut(id));
    reg.notice_pending = true;
    remove_cancel_callback(reg, id);
}

/// Where `uri` stands among the flagged URLs.
fn find_save_as(reg: &GlobalDownloadManager, uri: &str) -> (found: Option<usize>)
    ensures
        match found {
            Some(k) => k < reg.pending_save_as@.len() && reg.pending_save_as@[k as int]@ == uri@,
            None => !reg@.save_as.contains(uri@),
        },
{
    let mut i: usize = 0;
    while i < reg.pending_save_as.len()
        invariant
            i <= reg.pending_save_as@.len(),
            forall|j: int| 0 <= j < i ==> reg.pending_save_as@[j]@ != uri@,
        decreases reg.pending_save_as@.len() - i,
    {
        if same_text(reg.pending_save_as[i].as_str(), uri) {
            return Some(i);
        }
        i += 1;
    }
    None
}

/// Mark a URI as pending a "Save As" dialog.
pub fn mark_save_as(reg: &mut GlobalDownloadManager, uri: &str)
    requires
        old(reg).wf(),
    ensures
        final(reg).wf(),
        final(reg)@ == (RegistryView { save_as: old(reg)@.save_as.insert(uri@), ..old(reg)@ }),
{
    match find_save_as(reg, uri) {
        Some(k) => {
            assert(reg@.save_as.contains(uri@));
            assert(reg@.save_as =~= old(reg)@.save_as.insert(uri@));
        },
        None => {
            let ghost before = reg.pending_save_as@;
            reg.pending_save_as.push(uri.to_owned());
            assert forall|text: Seq<char>|
                reg@.save_as.contains(text) == old(reg)@.save_as.insert(uri@).contains(
                    text,
                ) by {
                let after = reg.pending_save_as@;
                if old(reg)@.save_as.contains(text) {
                    let i = choose|i: int| 0 <= i < before.len() && before[i]@ == text;
                    assert(after[i]@ == text);
                }
                if text == uri@ {
                    assert(after[before.len() as int]@ == text);
                }
            }
            assert(reg@.save_as =~= old(reg)@.save_as.insert(uri@));
        },
    }
}

/// Check if a URI should show the "Save As" dialog, and take it off the
/// pending ones.
pub fn is_save_as(reg: &mut GlobalDownloadManager, uri: &str) -> (flagged: bool)
    requires
        old(reg).wf(),
    ensures
        final(reg).wf(),
        flagged == old(reg)@.save_as.contains(uri@),
        final(reg)@ == (RegistryView { save_as: old(reg)@.save_as.remove(uri@), ..old(reg)@ }),
{
    match find_save_as(reg, uri) {
        Some(k) => {
            let ghost before = reg.pending_save_as@;
            reg.pending_save_as.remove(k);
            assert forall|text: Seq<char>|
                reg@.save_as.contains(text) == old(reg)@.save_as.remove(uri@).contains(
                    text,
                ) by {
                let after = reg.pending_save_as@;
                if old(reg)@.save_as.contains(text) && text != uri@ {
                    let i = choose|i: int| 0 <= i < before.len() && before[i]@ == text;
                    if i < k {
                        assert(after[i]@ == text);
                    } else {
                        assert(after[i - 1]@ == text);
                    }
                }
                if reg@.save_as.contains(text) {
                    let i = choose|i: int| 0 <= i < after.len() && after[i]@ == text;
                    if i < k {
                        assert(before[i]@ == text);
                    } else {
                        assert(before[i + 1]@ == text);
                    }
                }
            }
            assert(reg@.save_as =~= old(reg)@.save_as.remove(uri@));
            true
        },
        None => {
            assert(reg@.save_as =~= old(reg)@.save_as.remove(uri@));
            false
        },
    }
}

/// The directory in which a "Save As" dialog opens.
pub open spec fn save_directory(
    last: Option<Seq<char>>,
    downloads_dir: Option<Seq<char>>,
) -> Seq<char> {
    match last {
        Some(dir) => dir,
        None => match downloads_dir {
            Some(dir) => dir,
            None => seq!['.'],
        },
    }
}

/// Get the last directory used for "Save As"; failing that the user's
/// downloads folder `downloads_dir`, and failing that too the current
/// directory.
pub fn last_save_directory(reg: &GlobalDownloadManager, downloads_dir: Option<String>) -> (dir:
    String)
    ensures
        dir@ == save_directory(reg@.last_save_directory, option_text(downloads_dir)),
{
    match &reg.last_save_directory {
        Some(dir) => dir.clone(),
        None => match downloads_dir {
            Some(dir) => dir,
            None => {
                let mut out: Vec<char> = Vec::new();
                out.push('.');
                assert(out@ =~= seq!['.']);
                string_of(&out)
            },
        },
    }
}

/// Set the last directory used for "Save As".
pub fn set_last_save_directory(reg: &mut GlobalDownloadManager, path: String)
    requires
        old(reg).wf(),
    ensures
        final(reg).wf(),
        final(reg)@ == (RegistryView { last_save_directory: Some(path@), ..old(reg)@ }),
{
    reg.last_save_directory = Some(path);
}

/// Register the cancel action of a download; one registered before for the
/// same id is replaced.
pub fn register_cancel_callback(reg: &mut GlobalDownloadManager, id: u64, action: CancelAction)
    requires
        old(reg).wf(),
    ensures
        final(reg).wf(),
        final(reg)@ == (RegistryView {
            cancel_actions: old(reg)@.cancel_actions.insert(id, action),
            ..old(reg)@
        }),
{
    reg.cancel_callbacks.insert(id, action);
}

/// Remove the cancel action of a download.
pub fn remove_cancel_callback(reg: &mut GlobalDownloadManager, id: u64)
    requires
        old(reg).wf(),
    ensures
        final(reg).wf(),
        final(reg)@ == (RegistryView {
            cancel_actions: old(reg)@.cancel_actions.remove(id),
            ..old(reg)@
        }),
{
    reg.cancel_callbacks.remove(&id);
}

/// Register the resume action of a download; one registered before for the
/// same id is replaced.
pub fn register_resume_callback(reg: &mut GlobalDownloadManager, id: u64, action: ResumeAction)
    requires
        old(reg).wf(),
    ensures
        final(reg).wf(),
        final(reg)@ == (RegistryView {
            resume_actions: old(reg)@.resume_actions.insert(id, action),
            ..old(reg)@
        }),
{
    reg.resume_callbacks.insert(id, action);
}

/// Remove the resume action of a download.
pub fn remove_resume_callback(reg: &mut GlobalDownloadManager, id: u64)
    requires
        old(reg).wf(),
    ensures
        final(reg).wf(),
        final(reg)@ == (RegistryView {
            resume_actions: old(reg)@.resume_actions.remove(id),
            ..old(reg)@
        }),
{
    reg.resume_callbacks.remove(&id);
}

/// What the cancel action registered for `id` asks of the backend, given the
/// status that the transfer has now.
fn cancel_steps(reg: &GlobalDownloadManager, id: u64) -> (steps: Vec<BackendStep>)
    requires
        reg.wf(),
    ensures
        step_views(steps@) == reg@.cancel_steps(id),
{
    let mut steps: Vec<BackendStep> = Vec::new();
    match reg.cancel_callbacks.get(&id) {
        None => {},
        Some(action) => {
            let backup = match reg.find(id) {
                Some(k) => if reg.downloads[k].is_paused() {
                    let from = reg.downloads[k].destination.clone();
                    let to = backup_path_of(reg.downloads[k].destination.as_str());
                    Some(BackendStep::CopyPartialToBackup { from, to })
                } else {
                    None
                },
                None => None,
            };
            match action {
                CancelAction::NativeCancel => {
                    steps.push(BackendStep::CancelNative);
                },
                CancelAction::BackupThenNativeCancel => {
                    match backup {
                        Some(copy) => {
                            steps.push(copy);
                        },
                        None => {},
                    }
                    steps.push(BackendStep::CancelNative);
                },
                CancelAction::StopRangeFetch => {
                    steps.push(BackendStep::CancelRangeFetch);
                    match backup {
                        Some(copy) => {
                            steps.push(copy);
                        },
                        None => {},
                    }
                },
            }
        },
    }
    assert(step_views(steps@) =~= reg@.cancel_steps(id));
    steps
}

/// Whether the transfer `id` is known and in progress or paused.
fn is_live(reg: &GlobalDownloadManager, id: u64) -> (live: bool)
    requires
        reg.wf(),
    ensures
        live == reg@.is_live(id),
{
    match reg.find(id) {
        Some(k) => reg.downloads[k].is_active() || reg.downloads[k].is_paused(),
        None => false,
    }
}

/// Whether the transfer `id` can be resumed: it is known and paused, and its
/// server is known to honour range requests.
pub fn can_resume(reg: &GlobalDownloadManager, id: u64) -> (resumable: bool)
    requires
        reg.wf(),
    ensures
        resumable == reg@.can_resume(id),
{
    match reg.find(id) {
        Some(k) => reg.downloads[k].can_resume(),
        None => false,
    }
}

/// Cancel a download by id. A transfer in progress or paused is set to
/// `Cancelled` first, so that the backend's own failure and finish events find
/// it there; a transfer that is completed, failed or cancelled already keeps
/// its status. The observers are to be told either way. The result is what the
/// registered cancel action then asks of the backend, in order.
pub fn cancel_download(reg: &mut GlobalDownloadManager, id: u64) -> (steps: Vec<BackendStep>)
    requires
        old(reg).wf(),
    ensures
        final(reg).wf(),
        final(reg)@ == old(reg)@.cancelled(id),
        step_views(steps@) == final(reg)@.cancel_steps(id),
{
    if is_live(reg, id) {
        set_download_status(reg, id, DownloadStatus::Cancelled);
    } else {
        reg.notice_pending = true;
    }
    cancel_steps(reg, id)
}

/// Pause a download by id. A transfer in progress or paused is set to
/// `Paused` first; a transfer that is completed, failed or cancelled keeps its
/// status. The observers are to be told either way. The result is what the
/// registered cancel action then asks of the backend, in order, which for a
/// paused transfer that the backend would delete begins or ends with the copy
/// to its backup.
pub fn pause_download(reg: &mut GlobalDownloadManager, id: u64) -> (steps: Vec<BackendStep>)
    requires
        old(reg).wf(),
    ensures
        final(reg).wf(),
        final(reg)@ == old(reg)@.paused(id),
        step_views(steps@) == final(reg)@.cancel_steps(id),
{
    if is_live(reg, id) {
        set_download_status(reg, id, DownloadStatus::Paused);
    } else {
        reg.notice_pending = true;
    }
    cancel_steps(reg, id)
}

/// Resume a paused download: the resume action registered for `id`, for the
/// backend to carry out; none where none is registered. The registry is left
/// as it is: whether the transfer can be resumed is for the action to find
/// out.
pub fn resume_download(reg: &GlobalDownloadManager, id: u64) -> (action: Option<ResumeAction>)
    requires
        reg.wf(),
    ensures
        action == if reg@.resume_actions.contains_key(id) {
            Some(reg@.resume_actions[id])
        } else {
            None
        },
{
    match reg.resume_callbacks.get(&id) {
        Some(action) => Some(*action),
        None => None,
    }
}

/// Check if a download is paused.
pub fn is_paused(reg: &GlobalDownloadManager, id: u64) -> (paused: bool)
    requires
        reg.wf(),
    ensures
        paused == reg@.is_paused(id),
{
    match reg.find(id) {
        Some(k) => reg.downloads[k].is_paused(),
        None => false,
    }
}

/// Check if a download is active (in progress).
pub fn is_active(reg: &GlobalDownloadManager, id: u64) -> (active: bool)
    requires
        reg.wf(),
    ensures
        active == reg@.is_active(id),
{
    match reg.find(id) {
        Some(k) => reg.downloads[k].is_active(),
        None => false,
    }
}

/// The views of what a resume needs: URL, destination, bytes received.
pub open spec fn resume_info_view(info: Option<(String, String, u64)>) -> Option<
    (Seq<char>, Seq<char>, u64),
> {
    match info {
        Some((url, destination, received)) => Some((url@, destination@, received)),
        None => None,
    }
}

/// Get paused download info for resuming: URL, destination and bytes
/// received, of a transfer that is known and paused.
pub fn get_download_for_resume(reg: &GlobalDownloadManager, id: u64) -> (info: Option<
    (String, String, u64),
>)
    requires
        reg.wf(),
    ensures
        resume_info_view(info) == reg@.resume_info(id),
{
    match reg.find(id) {
        Some(k) => if reg.downloads[k].is_paused() {
            Some(
                (
                    reg.downloads[k].url.clone(),
                    reg.downloads[k].destination.clone(),
                    reg.downloads[k].received_bytes,
                ),
            )
        } else {
            None
        },
        None => None,
    }
}

} // verus!
