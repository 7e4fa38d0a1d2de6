//! What holds of the registry over whole runs, whatever is done to it and in
//! whatever order.

use vstd::prelude::*;
use std::time::SystemTime;
use crate::download::model::{
    CancelAction, RegistryView, ResumeAction, keep_active, keep_all_but,
};
use crate::download::native::source_of;
use crate::download::resume::{
    RangeResumeView, ResponsePlanView, StreamEndView, found_at_destination, response_plan,
    STATUS_PARTIAL_CONTENT,
};
use crate::download::{ItemView, StatusView};

verus! {

/// One thing done to the registry, by a caller or by a backend.
pub enum RegistryOp {
    Subscribe,
    TakeChangeNotice,
    Add { url: Seq<char>, filename: Seq<char>, destination: Seq<char>, started_at: SystemTime },
    UpdateProgress { id: u64, received: u64, total: u64 },
    SetStatus { id: u64, status: StatusView },
    SetSupportsResume { id: u64, supports: bool },
    ClearCompleted,
    Remove { id: u64 },
    MarkSaveAs { uri: Seq<char> },
    IsSaveAs { uri: Seq<char> },
    SetLastSaveDirectory { path: Seq<char> },
    RegisterCancel { id: u64, action: CancelAction },
    RemoveCancel { id: u64 },
    RegisterResume { id: u64, resume: ResumeAction },
    RemoveResume { id: u64 },
    Cancel { id: u64 },
    Pause { id: u64 },
    NativeStarted { source: Option<Seq<char>> },
    SaveAsChosen {
        source: Option<Seq<char>>,
        filename: Seq<char>,
        path: Seq<char>,
        parent: Option<Seq<char>>,
        now: SystemTime,
    },
    AutoSaved { source: Option<Seq<char>>, filename: Seq<char>, destination: Seq<char>, now: SystemTime },
    NativeProgress { id: u64, received: u64, total: u64, first: bool, resumable: bool },
    NativeFinished { id: u64, short: bool },
    NativeFailed { id: u64, reason: Seq<char> },
    ResumeRestoreFailed { id: u64, message: Seq<char> },
    ResumeStarted { id: u64 },
    ResumeFinished { id: u64, end: StreamEndView },
}

impl RegistryOp {
    /// Whether the operation creates a transfer.
    pub open spec fn adds(self) -> bool {
        self is Add || self is SaveAsChosen || self is AutoSaved
    }
}

impl RegistryView {
    /// The registry after `op`.
    pub open spec fn apply(self, op: RegistryOp) -> RegistryView {
        match op {
            RegistryOp::Subscribe => RegistryView { subscribers: self.subscribers + 1, ..self },
            RegistryOp::TakeChangeNotice => RegistryView { notice_pending: false, ..self },
            RegistryOp::Add { url, filename, destination, started_at } => self.added(
                url,
                filename,
                destination,
                started_at,
            ),
            RegistryOp::UpdateProgress { id, received, total } => self.progressed(
                id,
                received,
                total,
            ),
            RegistryOp::SetStatus { id, status } => self.with_status(id, status),
            RegistryOp::SetSupportsResume { id, supports } => self.with_supports_resume(
                id,
                supports,
            ),
            RegistryOp::ClearCompleted => self.cleared(),
            RegistryOp::Remove { id } => self.without(id),
            RegistryOp::MarkSaveAs { uri } => RegistryView {
                save_as: self.save_as.insert(uri),
                ..self
            },
            RegistryOp::IsSaveAs { uri } => RegistryView {
                save_as: self.save_as.remove(uri),
                ..self
            },
            RegistryOp::SetLastSaveDirectory { path } => RegistryView {
                last_save_directory: Some(path),
                ..self
            },
            RegistryOp::RegisterCancel { id, action } => RegistryView {
                cancel_actions: self.cancel_actions.insert(id, action),
                ..self
            },
            RegistryOp::RemoveCancel { id } => RegistryView {
                cancel_actions: self.cancel_actions.remove(id),
                ..self
            },
            RegistryOp::RegisterResume { id, resume } => RegistryView {
                resume_actions: self.resume_actions.insert(id, resume),
                ..self
            },
            RegistryOp::RemoveResume { id } => RegistryView {
                resume_actions: self.resume_actions.remove(id),
                ..self
            },
            RegistryOp::Cancel { id } => self.cancelled(id),
            RegistryOp::Pause { id } => self.paused(id),
            RegistryOp::NativeStarted { source } => self.native_started(source),
            RegistryOp::SaveAsChosen { source, filename, path, parent, now } => self.save_as_chosen(
                source,
                filename,
                path,
                parent,
                now,
            ),
            RegistryOp::AutoSaved { source, filename, destination, now } => self.auto_saved(
                source,
                filename,
                destination,
                now,
            ),
            RegistryOp::NativeProgress { id, received, total, first, resumable } => {
                self.native_progress(id, received, total, first, resumable)
            },
            RegistryOp::NativeFinished { id, short } => self.native_finished(id, short),
            RegistryOp::NativeFailed { id, reason } => self.native_failed(id, reason),
            RegistryOp::ResumeRestoreFailed { id, message } => self.resume_restore_failed(
                id,
                message,
            ),
            RegistryOp::ResumeStarted { id } => self.resume_started(id),
            RegistryOp::ResumeFinished { id, end } => self.resume_finished(id, end),
        }
    }

    /// The registry after the operations `ops`, in order.
    pub open spec fn run(self, ops: Seq<RegistryOp>) -> RegistryView
        decreases ops.len(),
    {
        if ops.len() == 0 {
            self
        } else {
            self.run(ops.drop_last()).apply(ops.last())
        }
    }

    /// The id that the operation `ops[k]` gives to the transfer it creates.
    pub open spec fn id_given(self, ops: Seq<RegistryOp>, k: int) -> u64 {
        self.run(ops.take(k)).next_id
    }

    /// One operation keeps the registry's invariant. It never lowers the
    /// next id, and raises it, by one, exactly when it creates a transfer.
    pub proof fn lemma_apply(self, op: RegistryOp)
        requires
            self.wf(),
            op.adds() ==> self.next_id < u64::MAX,
        ensures
            self.apply(op).wf(),
            self.apply(op).next_id == if op.adds() {
                self.next_id + 1
            } else {
                self.next_id as int
            },
    {
        match op {
            RegistryOp::UpdateProgress { id, received, total } => {
                self.lemma_progressed(id, received, total);
            },
            RegistryOp::SetStatus { id, status } => {
                self.lemma_with_status(id, status);
            },
            RegistryOp::SetSupportsResume { id, supports } => {
                self.lemma_replaced(id, (ItemView { supports_resume: supports, ..self.item(id) }));
            },
            RegistryOp::ClearCompleted => {
                self.lemma_filter_wf(keep_active());
            },
            RegistryOp::Remove { id } => {
                self.lemma_filter_wf(keep_all_but(id));
            },
            RegistryOp::Cancel { id } => {
                self.lemma_with_status(id, StatusView::Cancelled);
            },
            RegistryOp::Pause { id } => {
                self.lemma_with_status(id, StatusView::Paused);
            },
            RegistryOp::NativeProgress { id, received, total, first, resumable } => {
                self.lemma_progressed(id, received, total);
                let progressed = self.progressed(id, received, total);
                progressed.lemma_replaced(
                    id,
                    (ItemView { supports_resume: true, ..progressed.item(id) }),
                );
            },
            RegistryOp::NativeFinished { id, short } => {
                self.lemma_with_status(id, StatusView::Cancelled);
                self.lemma_with_status(id, StatusView::Completed);
            },
            RegistryOp::NativeFailed { id, reason } => {
                self.lemma_with_status(id, StatusView::Failed(reason));
            },
            RegistryOp::ResumeRestoreFailed { id, message } => {
                self.lemma_with_status(id, StatusView::Failed(message));
            },
            RegistryOp::ResumeStarted { id } => {
                let registered = RegistryView {
                    cancel_actions: self.cancel_actions.insert(id, CancelAction::StopRangeFetch),
                    ..self
                };
                registered.lemma_with_status(id, StatusView::InProgress);
            },
            RegistryOp::ResumeFinished { id, end } => {
                self.lemma_with_status(id, StatusView::Completed);
                match end {
                    StreamEndView::Failed(message) => {
                        self.lemma_with_status(id, StatusView::Failed(message));
                    },
                    _ => {},
                }
            },
            _ => {},
        }
    }

    /// Whether every operation of `ops` that creates a transfer finds an id
    /// to give: when its turn comes, the next id is below the greatest number.
    pub open spec fn has_ids_for(self, ops: Seq<RegistryOp>) -> bool {
        forall|k: int|
            0 <= k < ops.len() && ops[k].adds() ==> (#[trigger] self.run(ops.take(k))).next_id
                < u64::MAX
    }

    /// What holds of a run holds of each of its beginnings.
    pub proof fn lemma_has_ids_for_prefix(self, ops: Seq<RegistryOp>, n: int)
        requires
            self.has_ids_for(ops),
            0 <= n <= ops.len(),
        ensures
            self.has_ids_for(ops.take(n)),
    {
        assert forall|k: int| 0 <= k < n && ops.take(n)[k].adds() implies (#[trigger] self.run(
            ops.take(n).take(k),
        )).next_id < u64::MAX by {
            assert(ops.take(n).take(k) =~= ops.take(k));
            assert(ops[k].adds());
        }
    }

    /// A run keeps the registry's invariant and never lowers the next id;
    /// its last operation raises the next id by one if it creates a transfer.
    pub proof fn lemma_run(self, ops: Seq<RegistryOp>)
        requires
            self.wf(),
            self.has_ids_for(ops),
        ensures
            self.run(ops).wf(),
            self.next_id <= self.run(ops).next_id,
            ops.len() > 0 ==> self.run(ops.drop_last()).next_id <= self.run(ops).next_id,
            ops.len() > 0 && ops.last().adds() ==> self.run(ops).next_id == self.run(
                ops.drop_last(),
            ).next_id + 1,
        decreases ops.len(),
    {
        if ops.len() > 0 {
            let front = ops.drop_last();
            assert(front =~= ops.take(ops.len() - 1));
            self.lemma_has_ids_for_prefix(ops, ops.len() - 1);
            self.lemma_run(front);
            self.run(front).lemma_apply(ops.last());
        }
    }

    /// The next id never falls along a run: at a later point of the run it is
    /// at least what it was at an earlier one.
    pub proof fn lemma_next_id_grows(self, ops: Seq<RegistryOp>, a: int, b: int)
        requires
            self.wf(),
            self.has_ids_for(ops),
            0 <= a <= b <= ops.len(),
        ensures
            self.run(ops.take(a)).next_id <= self.run(ops.take(b)).next_id,
        decreases b - a,
    {
        if a < b {
            self.lemma_next_id_grows(ops, a, b - 1);
            self.lemma_has_ids_for_prefix(ops, b);
            self.lemma_run(ops.take(b));
            assert(ops.take(b).drop_last() =~= ops.take(b - 1));
        }
    }

    /// Monotonic ids: in any run of the registry in which every operation
    /// that creates a transfer finds an id to give, of two such operations the
    /// later gives the greater id, and that id is above the id of every
    /// transfer that the registry held when the run began. So no id is ever
    /// given twice.
    pub proof fn lemma_ids_strictly_increase(self, ops: Seq<RegistryOp>, i: int, j: int)
        requires
            self.wf(),
            self.has_ids_for(ops),
            0 <= i < j < ops.len(),
            ops[i].adds(),
        ensures
            self.id_given(ops, i) < self.id_given(ops, j),
            forall|k: int| 0 <= k < self.items.len() ==> self.items[k].id < self.id_given(ops, i),
    {
        // The id given at `i` is below the next id right after `i`, which is
        // at most the next id at `j`.
        let upto_i = ops.take(i + 1);
        assert(upto_i.drop_last() =~= ops.take(i));
        assert(upto_i.last() == ops[i]);
        self.lemma_has_ids_for_prefix(ops, i + 1);
        self.lemma_run(upto_i);
        self.lemma_has_ids_for_prefix(ops, i);
        self.lemma_run(ops.take(i));
        self.lemma_next_id_grows(ops, i + 1, j);
    }

    /// A run of two parts is the run of the second part after the first.
    pub proof fn lemma_run_split(self, first: Seq<RegistryOp>, second: Seq<RegistryOp>)
        ensures
            self.run(first + second) == self.run(first).run(second),
        decreases second.len(),
    {
        if second.len() == 0 {
            assert(first + second =~= first);
        } else {
            assert((first + second).drop_last() =~= first + second.drop_last());
            self.lemma_run_split(first, second.drop_last());
        }
    }
}

impl RegistryView {
    /// Cancel suppresses failure: once a transfer in progress or paused has
    /// been cancelled, it is cancelled, and a failure that its backend reports
    /// afterwards, be it the engine or a range fetch, leaves it so. Whatever
    /// the transfer was before the cancel, a failure after it changes no
    /// status; and the same holds of any transfer that is not in progress when
    /// a failure comes, a paused one above all.
    pub proof fn lemma_cancel_suppresses_failure(self, id: u64, reason: Seq<char>)
        requires
            self.wf(),
            self.contains(id),
        ensures
            self.is_live(id) ==> self.cancelled(id).status_of(id) == Some(StatusView::Cancelled),
            self.cancelled(id).native_failed(id, reason).status_of(id) == self.cancelled(
                id,
            ).status_of(id),
            self.cancelled(id).resume_finished(id, StreamEndView::Failed(reason)).status_of(id)
                == self.cancelled(id).status_of(id),
            !self.is_live(id) ==> self.cancelled(id).status_of(id) == self.status_of(id),
            !self.is_active(id) ==> self.native_failed(id, reason).status_of(id) == self.status_of(
                id,
            ),
            !self.is_active(id) ==> self.resume_finished(
                id,
                StreamEndView::Failed(reason),
            ).status_of(id) == self.status_of(id),
    {
        self.lemma_with_status(id, StatusView::Cancelled);
        let cancelled = self.cancelled(id);
        assert(cancelled.contains(id) && cancelled.position(id) == self.position(id)) by {
            if !self.is_live(id) {
                assert(cancelled.items == self.items);
            }
        }
        assert(!cancelled.is_active(id));
        let failed = cancelled.native_failed(id, reason);
        assert(failed.items == cancelled.items);
        assert(failed.contains(id));
        let unmarked = self.native_failed(id, reason);
        if !self.is_active(id) {
            assert(unmarked.items == self.items);
        }
    }

    /// A transfer that has ended stays as it ended: neither a cancel nor a
    /// pause, neither a finish nor a failure of the engine, and no step of a
    /// range fetch, changes the status of a transfer that is completed, failed
    /// or cancelled.
    pub proof fn lemma_ended_transfer_keeps_status(self, op: RegistryOp, id: u64)
        requires
            self.wf(),
            self.contains(id),
            !self.is_live(id),
            op is Cancel || op is Pause || op is NativeFinished || op is NativeFailed
                || op is ResumeRestoreFailed || op is ResumeStarted || op is ResumeFinished,
        ensures
            self.apply(op).status_of(id) == self.status_of(id),
    {
        let after = self.apply(op);
        match op {
            RegistryOp::Cancel { id: target } => {
                self.lemma_with_status(target, StatusView::Cancelled);
            },
            RegistryOp::Pause { id: target } => {
                self.lemma_with_status(target, StatusView::Paused);
            },
            RegistryOp::NativeFinished { id: target, short } => {
                self.lemma_with_status(target, StatusView::Cancelled);
                self.lemma_with_status(target, StatusView::Completed);
            },
            RegistryOp::NativeFailed { id: target, reason } => {
                self.lemma_with_status(target, StatusView::Failed(reason));
            },
            RegistryOp::ResumeRestoreFailed { id: target, message } => {
                self.lemma_with_status(target, StatusView::Failed(message));
            },
            RegistryOp::ResumeStarted { id: target } => {
                let registered = RegistryView {
                    cancel_actions: self.cancel_actions.insert(
                        target,
                        CancelAction::StopRangeFetch,
                    ),
                    ..self
                };
                assert(registered.contains(target) == self.contains(target));
                assert(registered.position(target) == self.position(target));
                registered.lemma_with_status(target, StatusView::InProgress);
                assert(registered.contains(id));
                assert(registered.position(id) == self.position(id));
            },
            RegistryOp::ResumeFinished { id: target, end } => {
                self.lemma_with_status(target, StatusView::Completed);
                match end {
                    StreamEndView::Failed(message) => {
                        self.lemma_with_status(target, StatusView::Failed(message));
                    },
                    _ => {},
                }
            },
            _ => {},
        }
        assert(after.contains(id));
        if after.items == self.items {
            assert(after.position(id) == self.position(id));
        }
    }

    /// Short completion is not success: when the engine reports a transfer
    /// finished with fewer bytes than were announced, a transfer still in
    /// progress becomes cancelled, and no transfer becomes completed.
    pub proof fn lemma_short_completion_is_not_success(self, id: u64)
        requires
            self.wf(),
            self.contains(id),
        ensures
            self.is_active(id) ==> self.native_finished(id, true).status_of(id) == Some(
                StatusView::Cancelled,
            ),
            !self.is_active(id) ==> self.native_finished(id, true) == self,
            !(self.status_of(id) == Some(StatusView::Completed)) ==> !(self.native_finished(
                id,
                true,
            ).status_of(id) == Some(StatusView::Completed)),
    {
        self.lemma_with_status(id, StatusView::Cancelled);
    }
}

impl RegistryView {
    /// What creating a transfer does: the new transfer stands last, under
    /// the id that was next, and every other transfer is as it was.
    pub proof fn lemma_added(
        self,
        url: Seq<char>,
        filename: Seq<char>,
        destination: Seq<char>,
        started_at: SystemTime,
        id: u64,
    )
        requires
            self.wf(),
            self.next_id < u64::MAX,
        ensures
            self.added(url, filename, destination, started_at).wf(),
            self.added(url, filename, destination, started_at).contains(id) == (self.contains(id)
                || id == self.next_id),
            self.contains(id) ==> self.added(url, filename, destination, started_at).item(id)
                == self.item(id),
    {
        let after = self.added(url, filename, destination, started_at);
        if self.contains(id) {
            let p = self.position(id);
            assert(after.items[p].id == id);
            after.lemma_position(id, p);
        }
        if id == self.next_id {
            assert(after.items[self.items.len() as int].id == id);
        }
        if after.contains(id) && id != self.next_id {
            let q = after.position(id);
            assert(self.items[q].id == id);
        }
    }

    /// What dropping transfers does: a transfer is there afterwards if it
    /// was there and is kept, and then it is as it was.
    pub proof fn lemma_filtered(self, keep: spec_fn(ItemView) -> bool, id: u64)
        requires
            self.wf(),
        ensures
            (RegistryView { items: self.items.filter(keep), ..self }).contains(id) ==> self.contains(
                id,
            ) && (RegistryView { items: self.items.filter(keep), ..self }).item(id) == self.item(
                id,
            ),
    {
        let after = RegistryView { items: self.items.filter(keep), ..self };
        self.lemma_filter_wf(keep);
        if after.contains(id) {
            let q = after.position(id);
            assert(after.items.contains(after.items[q]));
            self.items.lemma_filter_contains_rev(keep, after.items[q]);
            let p = choose|p: int| 0 <= p < self.items.len() && self.items[p] == after.items[q];
            self.lemma_position(id, p);
        }
    }

    /// A status other than `InProgress` puts no transfer in progress.
    pub proof fn lemma_status_keeps_inactive(self, target: u64, status: StatusView, id: u64)
        requires
            self.wf(),
            !(status is InProgress),
            self.with_status(target, status).is_active(id),
        ensures
            self.is_active(id),
    {
        self.lemma_with_status(target, status);
    }

    /// New counters put no transfer in progress.
    pub proof fn lemma_progress_keeps_inactive(self, target: u64, received: u64, total: u64, id: u64)
        requires
            self.wf(),
            self.progressed(target, received, total).is_active(id),
        ensures
            self.is_active(id),
    {
        self.lemma_progressed(target, received, total);
    }

    /// Finding out about range support puts no transfer in progress.
    pub proof fn lemma_support_keeps_inactive(self, target: u64, supports: bool, id: u64)
        requires
            self.wf(),
            self.with_supports_resume(target, supports).is_active(id),
        ensures
            self.is_active(id),
    {
        self.lemma_replaced(target, (ItemView { supports_resume: supports, ..self.item(target) }));
    }

    /// Dropping transfers puts no transfer in progress.
    pub proof fn lemma_filter_keeps_inactive(self, keep: spec_fn(ItemView) -> bool, id: u64)
        requires
            self.wf(),
            (RegistryView { items: self.items.filter(keep), ..self }).is_active(id),
        ensures
            self.is_active(id),
    {
        self.lemma_filtered(keep, id);
    }

    /// Creating a transfer puts none in progress but the new one.
    pub proof fn lemma_add_keeps_inactive(
        self,
        url: Seq<char>,
        filename: Seq<char>,
        destination: Seq<char>,
        started_at: SystemTime,
        id: u64,
    )
        requires
            self.wf(),
            self.next_id < u64::MAX,
            self.added(url, filename, destination, started_at).is_active(id),
        ensures
            self.is_active(id) || id == self.next_id,
    {
        self.lemma_added(url, filename, destination, started_at, id);
    }

    /// What is in progress depends on the transfers alone.
    pub proof fn lemma_same_items(self, other: RegistryView, id: u64)
        requires
            self.items == other.items,
        ensures
            self.is_active(id) == other.is_active(id),
    {
        assert(self.contains(id) == other.contains(id));
        assert(self.position(id) == other.position(id));
    }

    /// Only creation and resume put a transfer in progress, and resume only
    /// a paused transfer with range support: apart from setting a status
    /// outright, no operation leaves a transfer in progress that was not in
    /// progress before, unless it is the transfer that the operation created,
    /// or the operation is the start of a range fetch for that transfer and
    /// the transfer was paused with a server that honours range requests.
    pub proof fn lemma_in_progress_by_creation_or_resume(self, op: RegistryOp, id: u64)
        requires
            self.wf(),
            op.adds() ==> self.next_id < u64::MAX,
            !(op is SetStatus),
            self.apply(op).is_active(id),
        ensures
            self.is_active(id) || (op.adds() && id == self.next_id) || (op
                == RegistryOp::ResumeStarted { id } && self.can_resume(id)),
    {
        match op {
            RegistryOp::Add { url, filename, destination, started_at } => {
                self.lemma_add_keeps_inactive(url, filename, destination, started_at, id);
            },
            RegistryOp::UpdateProgress { id: target, received, total } => {
                self.lemma_progress_keeps_inactive(target, received, total, id);
            },
            RegistryOp::SetSupportsResume { id: target, supports } => {
                self.lemma_support_keeps_inactive(target, supports, id);
            },
            RegistryOp::ClearCompleted => {
                let kept = RegistryView { items: self.items.filter(keep_active()), ..self };
                kept.lemma_same_items(self.cleared(), id);
                self.lemma_filter_keeps_inactive(keep_active(), id);
            },
            RegistryOp::Remove { id: target } => {
                let kept = RegistryView { items: self.items.filter(keep_all_but(target)), ..self };
                kept.lemma_same_items(self.without(target), id);
                self.lemma_filter_keeps_inactive(keep_all_but(target), id);
            },
            RegistryOp::Cancel { id: target } => {
                if self.is_live(target) {
                    self.lemma_status_keeps_inactive(target, StatusView::Cancelled, id);
                } else {
                    self.lemma_same_items(self.apply(op), id);
                }
            },
            RegistryOp::Pause { id: target } => {
                if self.is_live(target) {
                    self.lemma_status_keeps_inactive(target, StatusView::Paused, id);
                } else {
                    self.lemma_same_items(self.apply(op), id);
                }
            },
            RegistryOp::ResumeRestoreFailed { id: target, message } => {
                if self.is_live(target) {
                    self.lemma_status_keeps_inactive(target, StatusView::Failed(message), id);
                }
            },
            RegistryOp::ResumeStarted { id: target } => {
                self.lemma_resume_start_keeps_inactive(target, id);
            },
            RegistryOp::SaveAsChosen { source, filename, path, parent, now } => {
                self.lemma_save_as_keeps_inactive(source, filename, path, parent, now, id);
            },
            RegistryOp::AutoSaved { source, filename, destination, now } => {
                let added = self.added(source_of(source), filename, destination, now);
                added.lemma_same_items(self.auto_saved(source, filename, destination, now), id);
                self.lemma_add_keeps_inactive(source_of(source), filename, destination, now, id);
            },
            RegistryOp::NativeProgress { id: target, received, total, first, resumable } => {
                let progressed = self.progressed(target, received, total);
                self.lemma_progressed(target, received, total);
                if first && resumable {
                    progressed.lemma_support_keeps_inactive(target, true, id);
                }
                self.lemma_progress_keeps_inactive(target, received, total, id);
            },
            RegistryOp::NativeFinished { id: target, short } => {
                self.lemma_finished_keeps_inactive(target, short, id);
            },
            RegistryOp::NativeFailed { id: target, reason } => {
                let marked = if self.is_active(target) {
                    self.with_status(target, StatusView::Failed(reason))
                } else {
                    self
                };
                marked.lemma_same_items(self.native_failed(target, reason), id);
                if self.is_active(target) {
                    self.lemma_status_keeps_inactive(target, StatusView::Failed(reason), id);
                }
            },
            RegistryOp::ResumeFinished { id: target, end } => {
                self.lemma_resume_end_keeps_inactive(target, end, id);
            },
            _ => {
                self.lemma_same_items(self.apply(op), id);
            },
        }
    }

    proof fn lemma_save_as_keeps_inactive(
        self,
        source: Option<Seq<char>>,
        filename: Seq<char>,
        path: Seq<char>,
        parent: Option<Seq<char>>,
        now: SystemTime,
        id: u64,
    )
        requires
            self.wf(),
            self.next_id < u64::MAX,
            self.save_as_chosen(source, filename, path, parent, now).is_active(id),
        ensures
            self.is_active(id) || id == self.next_id,
    {
        let remembered = match parent {
            Some(dir) => RegistryView { last_save_directory: Some(dir), ..self },
            None => self,
        };
        let added = remembered.added(source_of(source), filename, path, now);
        added.lemma_same_items(self.save_as_chosen(source, filename, path, parent, now), id);
        remembered.lemma_add_keeps_inactive(source_of(source), filename, path, now, id);
        remembered.lemma_same_items(self, id);
    }

    proof fn lemma_finished_keeps_inactive(self, target: u64, short: bool, id: u64)
        requires
            self.wf(),
            self.native_finished(target, short).is_active(id),
        ensures
            self.is_active(id),
    {
        if self.is_active(target) {
            if short {
                self.lemma_status_keeps_inactive(target, StatusView::Cancelled, id);
            } else {
                let completed = self.with_status(target, StatusView::Completed);
                completed.lemma_same_items(self.native_finished(target, short), id);
                self.lemma_status_keeps_inactive(target, StatusView::Completed, id);
            }
        }
    }

    proof fn lemma_resume_start_keeps_inactive(self, target: u64, id: u64)
        requires
            self.wf(),
            self.resume_started(target).is_active(id),
        ensures
            self.is_active(id) || (target == id && self.can_resume(id)),
    {
        if self.can_resume(target) {
            let registered = RegistryView {
                cancel_actions: self.cancel_actions.insert(target, CancelAction::StopRangeFetch),
                ..self
            };
            registered.lemma_same_items(self, id);
            registered.lemma_with_status(target, StatusView::InProgress);
            if target != id {
                assert(registered.contains(id));
                assert(registered.item(id) == self.item(id)) by {
                    assert(registered.position(id) == self.position(id));
                }
            }
        }
    }

    proof fn lemma_resume_end_keeps_inactive(self, target: u64, end: StreamEndView, id: u64)
        requires
            self.wf(),
            self.resume_finished(target, end).is_active(id),
        ensures
            self.is_active(id),
    {
        if self.is_active(target) {
            match end {
                StreamEndView::Eof => {
                    let completed = self.with_status(target, StatusView::Completed);
                    completed.lemma_same_items(self.resume_finished(target, end), id);
                    self.lemma_status_keeps_inactive(target, StatusView::Completed, id);
                },
                StreamEndView::Cancelled => {},
                StreamEndView::Failed(message) => {
                    self.lemma_status_keeps_inactive(target, StatusView::Failed(message), id);
                },
            }
        }
    }
}

/// The number of bytes in chunks of these sizes.
pub open spec fn total_len(chunks: Seq<nat>) -> nat
    decreases chunks.len(),
{
    if chunks.len() == 0 {
        0
    } else {
        total_len(chunks.drop_last()) + chunks.last()
    }
}

/// The registry and the resume after chunks of these sizes were read and
/// written, in order.
pub open spec fn streamed(reg: RegistryView, resume: RangeResumeView, chunks: Seq<nat>) -> (
    RegistryView,
    RangeResumeView,
)
    decreases chunks.len(),
{
    if chunks.len() == 0 {
        (reg, resume)
    } else {
        let (before, fetching) = streamed(reg, resume, chunks.drop_last());
        let written = fetching.written(chunks.last());
        (before.progressed(written.id, written.received, written.total), written)
    }
}

/// What the chunks written so far have done: the transfer is in progress
/// still, and its counters are those of the resume.
proof fn lemma_streamed(reg: RegistryView, resume: RangeResumeView, chunks: Seq<nat>)
    requires
        reg.wf(),
        reg.is_active(resume.id),
        resume.received + total_len(chunks) <= u64::MAX,
    ensures
        streamed(reg, resume, chunks).0.wf(),
        streamed(reg, resume, chunks).0.is_active(resume.id),
        streamed(reg, resume, chunks).1 == (RangeResumeView {
            received: (resume.received + total_len(chunks)) as u64,
            ..resume
        }),
        chunks.len() > 0 ==> streamed(reg, resume, chunks).0.item(resume.id).received_bytes
            == resume.received + total_len(chunks) && streamed(reg, resume, chunks).0.item(
            resume.id,
        ).total_bytes == resume.total,
    decreases chunks.len(),
{
    if chunks.len() > 0 {
        lemma_streamed(reg, resume, chunks.drop_last());
        let (before, fetching) = streamed(reg, resume, chunks.drop_last());
        let written = fetching.written(chunks.last());
        before.lemma_progressed(written.id, written.received, written.total);
    }
}

/// What a resume does that meets a server which honours the range: the
/// transfer `id`, paused with range support and `start` bytes received, is
/// taken over by a range fetch; the server announces `content_length` more
/// bytes, which arrive in chunks of the sizes `chunks` and are written, and the
/// body ends. Then the transfer is completed, and received and total are both
/// `start + content_length`.
pub proof fn lemma_resume_completes(
    paused: RegistryView,
    id: u64,
    content_length: u64,
    chunks: Seq<nat>,
)
    requires
        paused.wf(),
        paused.can_resume(id),
        chunks.len() > 0,
        total_len(chunks) == content_length,
        paused.item(id).received_bytes + content_length <= u64::MAX,
    ensures
        ({
            let start = paused.item(id).received_bytes;
            let started = paused.resume_started(id);
            let responded = RangeResumeView::of(paused.item(id)).responded(
                STATUS_PARTIAL_CONTENT,
                content_length,
            );
            let (fetched, _) = streamed(started, responded, chunks);
            let done = fetched.resume_finished(id, StreamEndView::Eof);
            &&& started.status_of(id) == Some(StatusView::InProgress)
            &&& done.status_of(id) == Some(StatusView::Completed)
            &&& done.item(id).received_bytes == start + content_length
            &&& done.item(id).total_bytes == start + content_length
        }),
{
    let registered = RegistryView {
        cancel_actions: paused.cancel_actions.insert(id, CancelAction::StopRangeFetch),
        ..paused
    };
    assert(registered.contains(id)) by {
        assert(registered.items[paused.position(id)].id == id);
    }
    assert(registered.item(id) == paused.item(id));
    registered.lemma_with_status(id, StatusView::InProgress);
    let started = paused.resume_started(id);
    let responded = RangeResumeView::of(paused.item(id)).responded(
        STATUS_PARTIAL_CONTENT,
        content_length,
    );
    lemma_streamed(started, responded, chunks);
    let (fetched, _) = streamed(started, responded, chunks);
    fetched.lemma_with_status(id, StatusView::Completed);
    let completed = fetched.with_status(id, StatusView::Completed);
    let done = fetched.resume_finished(id, StreamEndView::Eof);
    assert(done.items == completed.items);
    assert(done.contains(id) && done.item(id) == completed.item(id)) by {
        assert(done.items[completed.position(id)].id == id);
    }
}

/// Pause-then-resume round trip: a transfer in progress or paused, whose
/// server honours range requests, is paused with `start` bytes received and
/// then resumed; the server honours the range and announces `content_length`
/// more bytes, which arrive in chunks of the sizes `chunks` and are written,
/// and the body ends. Then the transfer is completed and every byte is counted
/// once: received and total are both `start + content_length`.
pub proof fn lemma_pause_resume_round_trip(
    reg: RegistryView,
    id: u64,
    content_length: u64,
    chunks: Seq<nat>,
)
    requires
        reg.wf(),
        reg.is_live(id),
        reg.item(id).supports_resume,
        chunks.len() > 0,
        total_len(chunks) == content_length,
        reg.item(id).received_bytes + content_length <= u64::MAX,
    ensures
        ({
            let start = reg.item(id).received_bytes;
            let paused = reg.paused(id);
            let resume = RangeResumeView::of(paused.item(id));
            let started = paused.resume_started(id);
            let responded = resume.responded(STATUS_PARTIAL_CONTENT, content_length);
            let (fetched, _) = streamed(started, responded, chunks);
            let done = fetched.resume_finished(id, StreamEndView::Eof);
            &&& paused.status_of(id) == Some(StatusView::Paused)
            &&& paused.can_resume(id)
            &&& resume == RangeResumeView::of(reg.item(id))
            &&& paused.resume_info(id) == Some((resume.url, resume.destination, start))
            &&& started.status_of(id) == Some(StatusView::InProgress)
            &&& done.status_of(id) == Some(StatusView::Completed)
            &&& done.item(id).received_bytes == start + content_length
            &&& done.item(id).total_bytes == start + content_length
        }),
{
    reg.lemma_with_status(id, StatusView::Paused);
    lemma_resume_completes(reg.paused(id), id, content_length, chunks);
}

/// The bytes of chunks, one chunk after the other.
pub open spec fn joined(chunks: Seq<Seq<u8>>) -> Seq<u8>
    decreases chunks.len(),
{
    if chunks.len() == 0 {
        Seq::empty()
    } else {
        joined(chunks.drop_last()) + chunks.last()
    }
}

/// The sizes of chunks, in order.
pub open spec fn sizes(chunks: Seq<Seq<u8>>) -> Seq<nat> {
    Seq::new(chunks.len(), |i: int| chunks[i].len())
}

/// Chunks hold as many bytes as their sizes add up to.
pub proof fn lemma_joined_len(chunks: Seq<Seq<u8>>)
    ensures
        joined(chunks).len() == total_len(sizes(chunks)),
    decreases chunks.len(),
{
    if chunks.len() > 0 {
        lemma_joined_len(chunks.drop_last());
        assert(sizes(chunks).drop_last() =~= sizes(chunks.drop_last()));
    }
}

/// A resume writes every byte once: the transfer `id` is paused with range
/// support and `r` bytes received, and the destination, or its backup where
/// the destination is gone, holds those `r` bytes. The fetch is begun and
/// started, the server answers 206, and the body arrives in the chunks `chunks`,
/// each of which is written as the plan says, and ends. Then the plan was to
/// append; the destination holds the `r` old bytes, none of them overwritten,
/// followed by the bytes of the body, none of them twice; and its length is the
/// total and the received size of the transfer, which is completed.
pub proof fn lemma_resume_writes_each_byte_once(
    reg: RegistryView,
    id: u64,
    destination: Option<Seq<u8>>,
    backup: Option<Seq<u8>>,
    chunks: Seq<Seq<u8>>,
    status_name: Seq<char>,
)
    requires
        reg.wf(),
        reg.can_resume(id),
        found_at_destination(destination, backup) is Some,
        found_at_destination(destination, backup)->0.len() == reg.item(id).received_bytes,
        chunks.len() > 0,
        reg.item(id).received_bytes + joined(chunks).len() <= u64::MAX,
    ensures
        ({
            let r = reg.item(id).received_bytes;
            let held = found_at_destination(destination, backup)->0;
            let body = joined(chunks);
            let started = reg.resume_started(id);
            let responded = RangeResumeView::of(reg.item(id)).responded(
                STATUS_PARTIAL_CONTENT,
                body.len() as u64,
            );
            let plan = response_plan(STATUS_PARTIAL_CONTENT, status_name);
            let (fetched, _) = streamed(started, responded, sizes(chunks));
            let done = fetched.resume_finished(id, StreamEndView::Eof);
            let file = plan.file_after(held, body);
            &&& plan == ResponsePlanView::Append
            &&& file == held + body
            &&& file.take(r as int) == held
            &&& file.skip(r as int) == body
            &&& file.len() == r + body.len()
            &&& done.status_of(id) == Some(StatusView::Completed)
            &&& done.item(id).received_bytes == file.len()
            &&& done.item(id).total_bytes == file.len()
        }),
{
    let held = found_at_destination(destination, backup)->0;
    let body = joined(chunks);
    lemma_joined_len(chunks);
    lemma_resume_completes(reg, id, body.len() as u64, sizes(chunks));
    assert((held + body).take(held.len() as int) =~= held);
    assert((held + body).skip(held.len() as int) =~= body);
}

} // verus!
