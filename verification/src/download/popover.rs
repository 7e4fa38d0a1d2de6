//! What the downloads button and its popover show for the recent transfers.

use vstd::prelude::*;
use crate::download::{DownloadItem, ItemView, item_views};
use crate::text::{push_str, string_of};

verus! {

/// Whether a transfer counts towards the progress of the downloads button:
/// it is in progress or paused.
pub open spec fn is_pending(item: ItemView) -> bool {
    item.is_active() || item.is_paused()
}

/// The bytes received by the pending ones among `items`.
pub open spec fn pending_received(items: Seq<ItemView>) -> int
    decreases items.len(),
{
    if items.len() == 0 {
        0
    } else if is_pending(items.last()) {
        pending_received(items.drop_last()) + items.last().received_bytes
    } else {
        pending_received(items.drop_last())
    }
}

/// The bytes expected by the pending ones among `items`.
pub open spec fn pending_total(items: Seq<ItemView>) -> int
    decreases items.len(),
{
    if items.len() == 0 {
        0
    } else if is_pending(items.last()) {
        pending_total(items.drop_last()) + items.last().total_bytes
    } else {
        pending_total(items.drop_last())
    }
}

/// Whether one of `items` is pending.
pub open spec fn any_pending(items: Seq<ItemView>) -> bool {
    exists|i: int| 0 <= i < items.len() && is_pending(items[i])
}

/// What the downloads button and its popover show.
#[derive(Debug, PartialEq, Eq)]
pub struct PopoverState {
    /// The words of the toast that announces a new transfer, if one is due.
    pub toast: Option<String>,
    /// Received and expected bytes of the pending transfers together; none
    /// where no transfer is pending, and the progress bar is hidden.
    pub progress: Option<(u128, u128)>,
    /// Whether the popover says that there are no downloads.
    pub empty_label_visible: bool,
}

/// The words of the toast for a transfer that began, if one is due: the
/// list has grown since it was last shown, and its newest transfer is in
/// progress.
pub open spec fn toast_for(items: Seq<ItemView>, previous_count: usize) -> Option<Seq<char>> {
    if items.len() > previous_count && items.len() > 0 && items[0].is_active() {
        Some("Downloading "@ + items[0].filename)
    } else {
        None
    }
}

/// What the button and the popover show for the recent transfers
/// `downloads`, most recent first, where `previous_count` transfers were
/// shown last.
pub fn popover_state(downloads: &Vec<DownloadItem>, previous_count: usize) -> (state: PopoverState)
    ensures
        match state.toast {
            Some(t) => toast_for(item_views(downloads@), previous_count) == Some(t@),
            None => toast_for(item_views(downloads@), previous_count) is None,
        },
        state.progress == if any_pending(item_views(downloads@)) {
            Some(
                (
                    pending_received(item_views(downloads@)) as u128,
                    pending_total(item_views(downloads@)) as u128,
                ),
            )
        } else {
            None
        },
        state.empty_label_visible == (downloads@.len() == 0),
{
    let toast = if downloads.len() > previous_count && downloads.len() > 0
        && downloads[0].is_active() {
        let mut words: Vec<char> = Vec::new();
        push_str(&mut words, "Downloading ");
        push_str(&mut words, downloads[0].filename.as_str());
        Some(string_of(&words))
    } else {
        None
    };
    let ghost items = item_views(downloads@);
    let mut received: u128 = 0;
    let mut total: u128 = 0;
    let mut pending = false;
    let mut i: usize = 0;
    assert(items.take(0) =~= Seq::<ItemView>::empty());
    while i < downloads.len()
        invariant
            i <= downloads@.len(),
            items == item_views(downloads@),
            received == pending_received(items.take(i as int)),
            total == pending_total(items.take(i as int)),
            received <= i * u64::MAX,
            total <= i * u64::MAX,
            pending == any_pending(items.take(i as int)),
        decreases downloads@.len() - i,
    {
        assert(items.take(i + 1).drop_last() =~= items.take(i as int));
        assert(i * u64::MAX + u64::MAX == (i + 1) * u64::MAX) by (nonlinear_arith);
        assert((i + 1) * u64::MAX <= usize::MAX * u64::MAX) by (nonlinear_arith)
            requires
                i + 1 <= usize::MAX,
        ;
        let item = &downloads[i];
        let counts = item.is_active() || item.is_paused();
        if counts {
            received = received + item.received_bytes as u128;
            total = total + item.total_bytes as u128;
            assert(is_pending(items.take(i + 1)[i as int]));
        }
        proof {
            let before = items.take(i as int);
            let after = items.take(i + 1);
            if any_pending(before) {
                let k = choose|k: int| 0 <= k < before.len() && is_pending(before[k]);
                assert(is_pending(after[k]));
            }
            if any_pending(after) && !counts {
                let k = choose|k: int| 0 <= k < after.len() && is_pending(after[k]);
                assert(is_pending(before[k]));
            }
        }
        pending = pending || counts;
        i += 1;
    }
    assert(items.take(i as int) =~= items);
    PopoverState {
        toast,
        progress: if pending {
            Some((received, total))
        } else {
            None
        },
        empty_label_visible: downloads.len() == 0,
    }
}

/// Whether the transfer `id` is among `items`.
pub open spec fn is_listed(items: Seq<ItemView>, id: u64) -> bool {
    exists|i: int| 0 <= i < items.len() && items[i].id == id
}

/// Whether the transfer `id` is among `downloads`: its row stays in the
/// popover, and any other row goes.
pub fn has_row(downloads: &Vec<DownloadItem>, id: u64) -> (listed: bool)
    ensures
        listed == is_listed(item_views(downloads@), id),
{
    let mut i: usize = 0;
    while i < downloads.len()
        invariant
            i <= downloads@.len(),
            forall|j: int| 0 <= j < i ==> item_views(downloads@)[j].id != id,
        decreases downloads@.len() - i,
    {
        if downloads[i].id == id {
            assert(item_views(downloads@)[i as int].id == id);
            return true;
        }
        i += 1;
    }
    false
}

} // verus!
