//! The registry as a mathematical value, and each of its operations as a
//! function from one such value to the next.

use vstd::prelude::*;
use std::time::SystemTime;
use crate::download::{ItemView, StatusView};

verus! {

/// What the registry does to the backend when a transfer is cancelled or
/// paused.
#[derive(Debug, Clone, Copy, PartialEq, Eq)]
pub enum CancelAction {
    /// Cancel the engine's own download object.
    NativeCancel,
    /// Cancel the engine's own download object, which deletes the partial
    /// file: where the transfer is paused, copy that file to its backup first.
    BackupThenNativeCancel,
    /// Flip the cancellation token of the range fetch, then copy the partial
    /// file to its backup where the transfer is paused.
    StopRangeFetch,
}

/// What the registry does to the backend when a transfer is resumed.
#[derive(Debug, Clone, Copy, PartialEq, Eq)]
pub enum ResumeAction {
    /// Fetch the rest with an HTTP range request.
    RangeRequest,
}

/// One thing for the backend to do; what a `BackendStep` stands for in
/// contracts.
pub enum StepView {
    CopyPartialToBackup { from: Seq<char>, to: Seq<char> },
    CancelNative,
    CancelRangeFetch,
}

/// The suffix that turns a destination path into the path of its backup.
pub open spec fn backup_suffix() -> Seq<char> {
    seq!['.', 'p', 'a', 'r', 't']
}

/// The path of the backup kept for `destination` across a pause.
pub open spec fn backup_path(destination: Seq<char>) -> Seq<char> {
    destination + backup_suffix()
}

/// Holds of the transfers still in progress.
pub open spec fn keep_active() -> spec_fn(ItemView) -> bool {
    |item: ItemView| item.is_active()
}

/// Holds of every transfer but `id`.
pub open spec fn keep_all_but(id: u64) -> spec_fn(ItemView) -> bool {
    |item: ItemView| item.id != id
}

/// Filtering the first `k + 1` items is filtering the first `k` and then
/// deciding on the item at `k`.
pub proof fn lemma_filter_step(items: Seq<ItemView>, keep: spec_fn(ItemView) -> bool, k: int)
    requires
        0 <= k < items.len(),
    ensures
        items.take(k + 1).filter(keep) == if keep(items[k]) {
            items.take(k).filter(keep).push(items[k])
        } else {
            items.take(k).filter(keep)
        },
{
    assert(items.take(k + 1) =~= items.take(k).push(items[k]));
    items.take(k).lemma_filter_push(items[k], keep);
}

/// The registry's state.
pub struct RegistryView {
    /// The transfers, oldest first.
    pub items: Seq<ItemView>,
    /// The id that the next transfer gets.
    pub next_id: u64,
    /// How many observers have subscribed.
    pub subscribers: nat,
    /// Whether the observers are still to be told of a change.
    pub notice_pending: bool,
    pub cancel_actions: Map<u64, CancelAction>,
    pub resume_actions: Map<u64, ResumeAction>,
    /// Source URLs flagged for a destination-choice dialog.
    pub save_as: Set<Seq<char>>,
    pub last_save_directory: Option<Seq<char>>,
}

impl RegistryView {
    /// A registry that has seen nothing yet.
    pub open spec fn empty() -> RegistryView {
        RegistryView {
            items: Seq::empty(),
            next_id: 1,
            subscribers: 0,
            notice_pending: false,
            cancel_actions: Map::empty(),
            resume_actions: Map::empty(),
            save_as: Set::empty(),
            last_save_directory: None,
        }
    }

    /// Ids grow along `items`, and `next_id` is above them all.
    pub open spec fn wf(self) -> bool {
        &&& forall|i: int, j: int|
            0 <= i < j < self.items.len() ==> self.items[i].id < self.items[j].id
        &&& forall|i: int| 0 <= i < self.items.len() ==> self.items[i].id < self.next_id
    }

    /// Whether there is a transfer with the id `id`.
    pub open spec fn contains(self, id: u64) -> bool {
        exists|i: int| 0 <= i < self.items.len() && self.items[i].id == id
    }

    /// Where the transfer `id` stands in `items`.
    pub open spec fn position(self, id: u64) -> int
        recommends
            self.contains(id),
    {
        choose|i: int| 0 <= i < self.items.len() && self.items[i].id == id
    }

    /// The transfer with the id `id`.
    pub open spec fn item(self, id: u64) -> ItemView
        recommends
            self.contains(id),
    {
        self.items[self.position(id)]
    }

    /// The status of the transfer `id`, if there is such a transfer.
    pub open spec fn status_of(self, id: u64) -> Option<StatusView> {
        if self.contains(id) {
            Some(self.item(id).status)
        } else {
            None
        }
    }

    /// Whether the transfer `id` is known and paused.
    pub open spec fn is_paused(self, id: u64) -> bool {
        self.contains(id) && self.item(id).is_paused()
    }

    /// Whether the transfer `id` is known and in progress.
    pub open spec fn is_active(self, id: u64) -> bool {
        self.contains(id) && self.item(id).is_active()
    }

    /// The transfer `id` replaced by `item`; nothing at all for an unknown id.
    pub open spec fn replaced(self, id: u64, item: ItemView) -> RegistryView {
        if self.contains(id) {
            RegistryView { items: self.items.update(self.position(id), item), ..self }
        } else {
            self
        }
    }

    /// The registry with a change for the observers to be told of.
    pub open spec fn notified(self) -> RegistryView {
        RegistryView { notice_pending: true, ..self }
    }

    /// The transfer that `added` creates.
    pub open spec fn fresh_item(
        self,
        url: Seq<char>,
        filename: Seq<char>,
        destination: Seq<char>,
        started_at: SystemTime,
    ) -> ItemView {
        ItemView {
            id: self.next_id,
            filename,
            url,
            destination,
            total_bytes: 0,
            received_bytes: 0,
            status: StatusView::InProgress,
            started_at,
            supports_resume: false,
        }
    }

    /// The registry with one more transfer, the newest, for the observers to
    /// be told of.
    pub open spec fn added(
        self,
        url: Seq<char>,
        filename: Seq<char>,
        destination: Seq<char>,
        started_at: SystemTime,
    ) -> RegistryView {
        RegistryView {
            items: self.items.push(self.fresh_item(url, filename, destination, started_at)),
            next_id: (self.next_id + 1) as u64,
            notice_pending: true,
            ..self
        }
    }

    /// The registry with the counters of the transfer `id` overwritten, for
    /// the observers to be told of.
    pub open spec fn progressed(self, id: u64, received: u64, total: u64) -> RegistryView {
        self.replaced(
            id,
            ItemView { received_bytes: received, total_bytes: total, ..self.item(id) },
        ).notified()
    }

    /// The registry with the status of the transfer `id` overwritten, for the
    /// observers to be told of.
    pub open spec fn with_status(self, id: u64, status: StatusView) -> RegistryView {
        self.replaced(id, ItemView { status, ..self.item(id) }).notified()
    }

    /// The registry with the range support of the transfer `id` set.
    pub open spec fn with_supports_resume(self, id: u64, supports: bool) -> RegistryView {
        self.replaced(id, ItemView { supports_resume: supports, ..self.item(id) })
    }

    /// The `limit` most recently created transfers, most recent first.
    pub open spec fn recent(self, limit: nat) -> Seq<ItemView> {
        Seq::new(
            if limit < self.items.len() {
                limit
            } else {
                self.items.len()
            },
            |i: int| self.items[self.items.len() - 1 - i],
        )
    }

    /// Whether a transfer is in progress.
    pub open spec fn has_active(self) -> bool {
        exists|i: int| 0 <= i < self.items.len() && self.items[i].is_active()
    }

    /// Whether there is a transfer at all.
    pub open spec fn has_any(self) -> bool {
        self.items.len() > 0
    }

    /// Only the transfers still in progress are kept.
    pub open spec fn cleared(self) -> RegistryView {
        RegistryView { items: self.items.filter(keep_active()), notice_pending: true, ..self }
    }

    /// The transfer `id` and its cancel action are gone.
    pub open spec fn without(self, id: u64) -> RegistryView {
        RegistryView {
            items: self.items.filter(keep_all_but(id)),
            notice_pending: true,
            cancel_actions: self.cancel_actions.remove(id),
            ..self
        }
    }

    /// The copy that preserves the partial file of `id`.
    pub open spec fn backup_step(self, id: u64) -> StepView {
        StepView::CopyPartialToBackup {
            from: self.item(id).destination,
            to: backup_path(self.item(id).destination),
        }
    }

    /// What the backend is to do, in order, once `id` has been marked
    /// cancelled or paused.
    pub open spec fn cancel_steps(self, id: u64) -> Seq<StepView> {
        if !self.cancel_actions.contains_key(id) {
            Seq::empty()
        } else {
            match self.cancel_actions[id] {
                CancelAction::NativeCancel => seq![StepView::CancelNative],
                CancelAction::BackupThenNativeCancel => if self.is_paused(id) {
                    seq![self.backup_step(id), StepView::CancelNative]
                } else {
                    seq![StepView::CancelNative]
                },
                CancelAction::StopRangeFetch => if self.is_paused(id) {
                    seq![StepView::CancelRangeFetch, self.backup_step(id)]
                } else {
                    seq![StepView::CancelRangeFetch]
                },
            }
        }
    }

    /// Whether the transfer `id` is known and not yet at its end: it is in
    /// progress or paused. A transfer that is completed, failed or cancelled
    /// has reached its end and keeps its status.
    pub open spec fn is_live(self, id: u64) -> bool {
        self.contains(id) && (self.item(id).is_active() || self.item(id).is_paused())
    }

    /// Whether the transfer `id` can be resumed: it is known and paused, and
    /// its server is known to honour range requests.
    pub open spec fn can_resume(self, id: u64) -> bool {
        self.contains(id) && self.item(id).can_resume()
    }

    /// The registry after the transfer `id` was cancelled: a transfer in
    /// progress or paused is marked cancelled; any other keeps its status.
    /// The observers are to be told either way.
    pub open spec fn cancelled(self, id: u64) -> RegistryView {
        if self.is_live(id) {
            self.with_status(id, StatusView::Cancelled)
        } else {
            self.notified()
        }
    }

    /// The registry after the transfer `id` was paused: a transfer in
    /// progress or paused is marked paused; any other keeps its status. The
    /// observers are to be told either way.
    pub open spec fn paused(self, id: u64) -> RegistryView {
        if self.is_live(id) {
            self.with_status(id, StatusView::Paused)
        } else {
            self.notified()
        }
    }

    /// What a resume needs of the transfer `id`: its URL, its destination and
    /// the number of bytes it has; only a paused transfer has it.
    pub open spec fn resume_info(self, id: u64) -> Option<(Seq<char>, Seq<char>, u64)> {
        if self.is_paused(id) {
            Some((self.item(id).url, self.item(id).destination, self.item(id).received_bytes))
        } else {
            None
        }
    }

    /// Under `wf`, a transfer is found at one place only.
    pub proof fn lemma_position(self, id: u64, k: int)
        requires
            self.wf(),
            0 <= k < self.items.len(),
            self.items[k].id == id,
        ensures
            self.contains(id),
            self.position(id) == k,
    {
        let p = self.position(id);
        if p < k {
            assert(self.items[p].id < self.items[k].id);
        } else if k < p {
            assert(self.items[k].id < self.items[p].id);
        }
    }

    /// Replacing a transfer by one of the same id keeps `wf` and every other
    /// transfer.
    pub proof fn lemma_replaced(self, id: u64, item: ItemView)
        requires
            self.wf(),
            self.contains(id) ==> item.id == id,
        ensures
            self.replaced(id, item).wf(),
            self.replaced(id, item).items.len() == self.items.len(),
            forall|other: u64| self.replaced(id, item).contains(other) == self.contains(other),
            self.contains(id) ==> self.replaced(id, item).item(id) == item,
            forall|other: u64|
                other != id && self.contains(other) ==> self.replaced(id, item).item(other)
                    == self.item(other),
    {
        let after = self.replaced(id, item);
        if self.contains(id) {
            let p = self.position(id);
            assert forall|other: u64| after.contains(other) == self.contains(other) by {
                if self.contains(other) {
                    let q = self.position(other);
                    assert(after.items[q].id == other);
                }
                if after.contains(other) {
                    let q = after.position(other);
                    assert(self.items[q].id == other);
                }
            }
            assert(after.items[p].id == id);
            after.lemma_position(id, p);
            assert forall|other: u64| other != id && self.contains(other) implies after.item(other)
                == self.item(other) by {
                let q = self.position(other);
                assert(after.items[q].id == other);
                after.lemma_position(other, q);
            }
        }
    }

    /// What setting a status does: the transfer `id`, if known, has the new
    /// status and is otherwise as it was; every other transfer is as it was.
    pub proof fn lemma_with_status(self, id: u64, status: StatusView)
        requires
            self.wf(),
        ensures
            self.with_status(id, status).wf(),
            forall|other: u64| self.with_status(id, status).contains(other) == self.contains(other),
            self.contains(id) ==> self.with_status(id, status).item(id) == (ItemView {
                status,
                ..self.item(id)
            }),
            forall|other: u64|
                other != id && self.contains(other) ==> self.with_status(id, status).item(other)
                    == self.item(other),
    {
        self.lemma_replaced(id, ItemView { status, ..self.item(id) });
    }

    /// What overwriting the counters does: the transfer `id`, if known, has
    /// the new counters and is otherwise as it was; every other transfer is as
    /// it was.
    pub proof fn lemma_progressed(self, id: u64, received: u64, total: u64)
        requires
            self.wf(),
        ensures
            self.progressed(id, received, total).wf(),
            forall|other: u64|
                self.progressed(id, received, total).contains(other) == self.contains(other),
            self.contains(id) ==> self.progressed(id, received, total).item(id) == (ItemView {
                received_bytes: received,
                total_bytes: total,
                ..self.item(id)
            }),
            forall|other: u64|
                other != id && self.contains(other) ==> self.progressed(id, received, total).item(
                    other,
                ) == self.item(other),
    {
        self.lemma_replaced(
            id,
            ItemView { received_bytes: received, total_bytes: total, ..self.item(id) },
        );
    }

    /// Dropping transfers keeps `wf`.
    pub proof fn lemma_filter_wf(self, keep: spec_fn(ItemView) -> bool)
        requires
            self.wf(),
        ensures
            (RegistryView { items: self.items.filter(keep), ..self }).wf(),
    {
        let kept = self.items.filter(keep);
        lemma_filter_increasing(self.items, keep);
        assert forall|i: int| 0 <= i < kept.len() implies kept[i].id < self.next_id by {
            assert(kept.contains(kept[i]));
            self.items.lemma_filter_contains_rev(keep, kept[i]);
        }
    }
}

/// Ids grow along `items`.
pub open spec fn ids_increasing(items: Seq<ItemView>) -> bool {
    forall|i: int, j: int| 0 <= i < j < items.len() ==> items[i].id < items[j].id
}

/// Where ids grow along a sequence, they grow along what a filter keeps of
/// it.
pub proof fn lemma_filter_increasing(items: Seq<ItemView>, keep: spec_fn(ItemView) -> bool)
    requires
        ids_increasing(items),
    ensures
        ids_increasing(items.filter(keep)),
    decreases items.len(),
{
    reveal(Seq::filter);
    if items.len() > 0 {
        let front = items.drop_last();
        lemma_filter_increasing(front, keep);
        let kept = front.filter(keep);
        assert forall|i: int| 0 <= i < kept.len() implies kept[i].id < items.last().id by {
            assert(kept.contains(kept[i]));
            front.lemma_filter_contains_rev(keep, kept[i]);
            let k = choose|k: int| 0 <= k < front.len() && front[k] == kept[i];
            assert(items[k].id < items[items.len() - 1].id);
        }
    }
}

} // verus!
