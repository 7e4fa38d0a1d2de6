use qayeq::download::model::{CancelAction, ResumeAction};
use qayeq::download::{
    add_download, backup_path_of, can_resume, cancel_download, clear_completed,
    get_download_for_resume,
    has_active_downloads, has_downloads, is_active, is_paused, is_save_as, last_save_directory,
    mark_save_as, pause_download, recent_downloads, register_cancel_callback,
    register_resume_callback, remove_cancel_callback, remove_download, remove_resume_callback,
    resume_download, set_download_status, set_last_save_directory, set_supports_resume,
    subscribe_to_changes, take_change_notice, update_progress, BackendStep, DownloadStatus,
    GlobalDownloadManager,
};
use std::time::{Duration, SystemTime};

fn at(secs: u64) -> SystemTime {
    SystemTime::UNIX_EPOCH + Duration::from_secs(secs)
}

fn add(reg: &mut GlobalDownloadManager, name: &str) -> u64 {
    add_download(
        reg,
        &format!("http://x/{}", name),
        name,
        format!("/tmp/{}", name),
        at(1),
    )
}

fn status(reg: &GlobalDownloadManager, id: u64) -> Option<DownloadStatus> {
    recent_downloads(reg, usize::MAX)
        .into_iter()
        .find(|d| d.id == id)
        .map(|d| d.status)
}

#[test]
fn ids_start_at_one_and_increase() {
    let mut reg = GlobalDownloadManager::new();
    assert_eq!(reg.next_id(), 1);
    let a = add(&mut reg, "a");
    let b = add(&mut reg, "b");
    remove_download(&mut reg, b);
    clear_completed(&mut reg);
    let c = add(&mut reg, "c");
    assert_eq!(a, 1);
    assert_eq!(b, 2);
    assert_eq!(c, 3);
    assert_eq!(reg.next_id(), 4);
}

#[test]
fn a_new_download_is_in_progress_with_nothing_received() {
    let mut reg = GlobalDownloadManager::new();
    let id = add_download(
        &mut reg,
        "http://x/file.bin",
        "file.bin",
        "/tmp/file.bin".to_string(),
        at(42),
    );
    let all = recent_downloads(&reg, 10);
    assert_eq!(all.len(), 1);
    let item = &all[0];
    assert_eq!(item.id, id);
    assert_eq!(item.url, "http://x/file.bin");
    assert_eq!(item.filename, "file.bin");
    assert_eq!(item.destination, "/tmp/file.bin");
    assert_eq!(item.total_bytes, 0);
    assert_eq!(item.received_bytes, 0);
    assert_eq!(item.status, DownloadStatus::InProgress);
    assert_eq!(item.started_at, at(42));
    assert!(!item.supports_resume);
    assert!(item.is_active());
    assert!(!item.is_paused());
    assert!(!item.can_resume());
}

#[test]
fn progress_for_unknown_id_changes_no_transfer() {
    let mut reg = GlobalDownloadManager::new();
    let id = add(&mut reg, "a");
    update_progress(&mut reg, id + 7, 10, 20);
    let all = recent_downloads(&reg, 10);
    assert_eq!(all.len(), 1);
    assert_eq!(all[0].received_bytes, 0);
    assert_eq!(all[0].total_bytes, 0);
    let mut empty = GlobalDownloadManager::new();
    update_progress(&mut empty, 1, 10, 20);
    assert!(!has_downloads(&empty));
    assert_eq!(recent_downloads(&empty, 10).len(), 0);
}

#[test]
fn progress_overwrites_the_counters_of_one_transfer() {
    let mut reg = GlobalDownloadManager::new();
    let a = add(&mut reg, "a");
    let b = add(&mut reg, "b");
    update_progress(&mut reg, a, 50, 100);
    update_progress(&mut reg, a, 30, 90);
    let all = recent_downloads(&reg, 10);
    assert_eq!(all[0].id, b);
    assert_eq!((all[0].received_bytes, all[0].total_bytes), (0, 0));
    assert_eq!(all[1].id, a);
    assert_eq!((all[1].received_bytes, all[1].total_bytes), (30, 90));
}

#[test]
fn recent_downloads_are_most_recent_first_and_limited() {
    let mut reg = GlobalDownloadManager::new();
    let ids: Vec<u64> = ["a", "b", "c", "d"].iter().map(|n| add(&mut reg, n)).collect();
    let two: Vec<u64> = recent_downloads(&reg, 2).iter().map(|d| d.id).collect();
    assert_eq!(two, vec![ids[3], ids[2]]);
    let all: Vec<u64> = recent_downloads(&reg, 10).iter().map(|d| d.id).collect();
    assert_eq!(all, vec![ids[3], ids[2], ids[1], ids[0]]);
    assert_eq!(recent_downloads(&reg, 0).len(), 0);
}

#[test]
fn status_queries_follow_set_status() {
    let mut reg = GlobalDownloadManager::new();
    assert!(!has_downloads(&reg));
    assert!(!has_active_downloads(&reg));
    let id = add(&mut reg, "a");
    assert!(has_downloads(&reg));
    assert!(has_active_downloads(&reg));
    assert!(is_active(&reg, id));
    assert!(!is_paused(&reg, id));
    set_download_status(&mut reg, id, DownloadStatus::Failed("boom".to_string()));
    assert_eq!(status(&reg, id), Some(DownloadStatus::Failed("boom".to_string())));
    assert!(!is_active(&reg, id));
    assert!(!has_active_downloads(&reg));
    assert!(has_downloads(&reg));
    set_download_status(&mut reg, id, DownloadStatus::Paused);
    assert!(is_paused(&reg, id));
    assert!(!is_active(&reg, 99));
    assert!(!is_paused(&reg, 99));
    set_download_status(&mut reg, 99, DownloadStatus::Completed);
    assert_eq!(recent_downloads(&reg, 10).len(), 1);
    assert_eq!(status(&reg, id), Some(DownloadStatus::Paused));
}

#[test]
fn clear_completed_keeps_only_transfers_in_progress() {
    let mut reg = GlobalDownloadManager::new();
    let a = add(&mut reg, "a");
    let b = add(&mut reg, "b");
    let c = add(&mut reg, "c");
    let d = add(&mut reg, "d");
    let e = add(&mut reg, "e");
    set_download_status(&mut reg, a, DownloadStatus::Completed);
    set_download_status(&mut reg, c, DownloadStatus::Paused);
    set_download_status(&mut reg, d, DownloadStatus::Cancelled);
    clear_completed(&mut reg);
    let left: Vec<u64> = recent_downloads(&reg, 10).iter().map(|d| d.id).collect();
    assert_eq!(left, vec![e, b]);
}

#[test]
fn remove_is_idempotent_and_drops_the_cancel_action() {
    let mut reg = GlobalDownloadManager::new();
    let a = add(&mut reg, "a");
    let b = add(&mut reg, "b");
    register_cancel_callback(&mut reg, a, CancelAction::NativeCancel);
    register_resume_callback(&mut reg, a, ResumeAction::RangeRequest);
    remove_download(&mut reg, a);
    remove_download(&mut reg, a);
    let left: Vec<u64> = recent_downloads(&reg, 10).iter().map(|d| d.id).collect();
    assert_eq!(left, vec![b]);
    assert_eq!(cancel_download(&mut reg, a), vec![]);
    // The resume action stays: it finds out by itself that there is nothing to resume.
    assert_eq!(resume_download(&reg, a), Some(ResumeAction::RangeRequest));
    assert_eq!(get_download_for_resume(&reg, a), None);
}

#[test]
fn cancel_sets_the_status_then_runs_the_action() {
    let mut reg = GlobalDownloadManager::new();
    let plain = add(&mut reg, "plain");
    let native = add(&mut reg, "native");
    let kept = add(&mut reg, "kept");
    let fetched = add(&mut reg, "fetched");
    register_cancel_callback(&mut reg, native, CancelAction::NativeCancel);
    register_cancel_callback(&mut reg, kept, CancelAction::BackupThenNativeCancel);
    register_cancel_callback(&mut reg, fetched, CancelAction::StopRangeFetch);
    assert_eq!(cancel_download(&mut reg, plain), vec![]);
    assert_eq!(cancel_download(&mut reg, native), vec![BackendStep::CancelNative]);
    assert_eq!(cancel_download(&mut reg, kept), vec![BackendStep::CancelNative]);
    assert_eq!(cancel_download(&mut reg, fetched), vec![BackendStep::CancelRangeFetch]);
    for id in [plain, native, kept, fetched] {
        assert_eq!(status(&reg, id), Some(DownloadStatus::Cancelled));
    }
}

#[test]
fn pause_backs_the_partial_file_up_in_the_order_of_the_backend() {
    let mut reg = GlobalDownloadManager::new();
    let native = add(&mut reg, "native");
    let kept = add(&mut reg, "kept");
    let fetched = add(&mut reg, "fetched");
    register_cancel_callback(&mut reg, native, CancelAction::NativeCancel);
    register_cancel_callback(&mut reg, kept, CancelAction::BackupThenNativeCancel);
    register_cancel_callback(&mut reg, fetched, CancelAction::StopRangeFetch);
    assert_eq!(pause_download(&mut reg, native), vec![BackendStep::CancelNative]);
    assert_eq!(
        pause_download(&mut reg, kept),
        vec![
            BackendStep::CopyPartialToBackup {
                from: "/tmp/kept".to_string(),
                to: "/tmp/kept.part".to_string(),
            },
            BackendStep::CancelNative,
        ]
    );
    assert_eq!(
        pause_download(&mut reg, fetched),
        vec![
            BackendStep::CancelRangeFetch,
            BackendStep::CopyPartialToBackup {
                from: "/tmp/fetched".to_string(),
                to: "/tmp/fetched.part".to_string(),
            },
        ]
    );
    for id in [native, kept, fetched] {
        assert_eq!(status(&reg, id), Some(DownloadStatus::Paused));
    }
    // An action registered for an id without a transfer has nothing to back up.
    register_cancel_callback(&mut reg, 77, CancelAction::BackupThenNativeCancel);
    assert_eq!(pause_download(&mut reg, 77), vec![BackendStep::CancelNative]);
}

#[test]
fn registering_an_action_replaces_the_one_before() {
    let mut reg = GlobalDownloadManager::new();
    let id = add(&mut reg, "a");
    register_cancel_callback(&mut reg, id, CancelAction::NativeCancel);
    register_cancel_callback(&mut reg, id, CancelAction::StopRangeFetch);
    assert_eq!(cancel_download(&mut reg, id), vec![BackendStep::CancelRangeFetch]);
    remove_cancel_callback(&mut reg, id);
    assert_eq!(cancel_download(&mut reg, id), vec![]);
    assert_eq!(resume_download(&reg, id), None);
    register_resume_callback(&mut reg, id, ResumeAction::RangeRequest);
    register_resume_callback(&mut reg, id, ResumeAction::RangeRequest);
    assert_eq!(resume_download(&reg, id), Some(ResumeAction::RangeRequest));
    // Resuming does not flip the status.
    assert_eq!(status(&reg, id), Some(DownloadStatus::Cancelled));
    remove_resume_callback(&mut reg, id);
    assert_eq!(resume_download(&reg, id), None);
    // An action is handed out whatever the transfer is, and for an id without a transfer.
    register_resume_callback(&mut reg, 77, ResumeAction::RangeRequest);
    assert_eq!(resume_download(&reg, 77), Some(ResumeAction::RangeRequest));
    assert_eq!(resume_download(&reg, 78), None);
}

#[test]
fn a_transfer_that_has_ended_is_neither_paused_nor_cancelled() {
    for ended in [
        DownloadStatus::Completed,
        DownloadStatus::Failed("disk full".to_string()),
        DownloadStatus::Cancelled,
    ] {
        let mut reg = GlobalDownloadManager::new();
        let id = add(&mut reg, "a");
        register_cancel_callback(&mut reg, id, CancelAction::BackupThenNativeCancel);
        set_download_status(&mut reg, id, ended.clone());
        take_change_notice(&mut reg);
        // The action is still asked of the backend, without a backup, and the observers are
        // told; the status stays.
        assert_eq!(pause_download(&mut reg, id), vec![BackendStep::CancelNative]);
        assert_eq!(status(&reg, id), Some(ended.clone()));
        assert!(!is_paused(&reg, id));
        assert_eq!(take_change_notice(&mut reg), Some(0));
        assert_eq!(cancel_download(&mut reg, id), vec![BackendStep::CancelNative]);
        assert_eq!(status(&reg, id), Some(ended.clone()));
        assert_eq!(take_change_notice(&mut reg), Some(0));
    }
}

#[test]
fn a_paused_transfer_can_be_cancelled_and_paused_again() {
    let mut reg = GlobalDownloadManager::new();
    let id = add(&mut reg, "a");
    pause_download(&mut reg, id);
    pause_download(&mut reg, id);
    assert_eq!(status(&reg, id), Some(DownloadStatus::Paused));
    cancel_download(&mut reg, id);
    assert_eq!(status(&reg, id), Some(DownloadStatus::Cancelled));
    pause_download(&mut reg, id);
    assert_eq!(status(&reg, id), Some(DownloadStatus::Cancelled));
}

#[test]
fn only_a_paused_transfer_with_range_support_can_be_resumed() {
    let mut reg = GlobalDownloadManager::new();
    let id = add(&mut reg, "a");
    assert!(!can_resume(&reg, id));
    set_supports_resume(&mut reg, id, true);
    assert!(!can_resume(&reg, id));
    pause_download(&mut reg, id);
    assert!(can_resume(&reg, id));
    set_supports_resume(&mut reg, id, false);
    assert!(!can_resume(&reg, id));
    assert_eq!(status(&reg, id), Some(DownloadStatus::Paused));
    set_supports_resume(&mut reg, id, true);
    cancel_download(&mut reg, id);
    assert!(!can_resume(&reg, id));
    assert!(!can_resume(&reg, id + 1));
}

#[test]
fn resume_info_is_for_paused_transfers_only() {
    let mut reg = GlobalDownloadManager::new();
    let id = add(&mut reg, "a");
    update_progress(&mut reg, id, 50, 100);
    assert_eq!(get_download_for_resume(&reg, id), None);
    set_download_status(&mut reg, id, DownloadStatus::Paused);
    assert_eq!(
        get_download_for_resume(&reg, id),
        Some(("http://x/a".to_string(), "/tmp/a".to_string(), 50))
    );
    assert_eq!(get_download_for_resume(&reg, id + 1), None);
}

#[test]
fn supports_resume_is_set_without_a_notice() {
    let mut reg = GlobalDownloadManager::new();
    let id = add(&mut reg, "a");
    assert_eq!(take_change_notice(&mut reg), Some(0));
    set_supports_resume(&mut reg, id, true);
    assert_eq!(take_change_notice(&mut reg), None);
    set_download_status(&mut reg, id, DownloadStatus::Paused);
    let item = &recent_downloads(&reg, 1)[0];
    assert!(item.supports_resume);
    assert!(item.can_resume());
    set_supports_resume(&mut reg, id + 1, true);
    assert_eq!(recent_downloads(&reg, 10).len(), 1);
}

#[test]
fn observers_are_numbered_and_told_of_every_change() {
    let mut reg = GlobalDownloadManager::new();
    assert_eq!(subscribe_to_changes(&mut reg), 0);
    assert_eq!(subscribe_to_changes(&mut reg), 1);
    assert_eq!(reg.subscriber_count(), 2);
    assert_eq!(take_change_notice(&mut reg), None);
    let id = add(&mut reg, "a");
    assert_eq!(take_change_notice(&mut reg), Some(2));
    assert_eq!(take_change_notice(&mut reg), None);
    update_progress(&mut reg, id + 1, 1, 2);
    assert_eq!(take_change_notice(&mut reg), Some(2));
    set_download_status(&mut reg, id, DownloadStatus::Completed);
    assert_eq!(take_change_notice(&mut reg), Some(2));
    clear_completed(&mut reg);
    assert_eq!(take_change_notice(&mut reg), Some(2));
    remove_download(&mut reg, id);
    assert_eq!(take_change_notice(&mut reg), Some(2));
    register_cancel_callback(&mut reg, id, CancelAction::NativeCancel);
    assert_eq!(take_change_notice(&mut reg), None);
}

#[test]
fn save_as_flags_are_taken_once() {
    let mut reg = GlobalDownloadManager::new();
    assert!(!is_save_as(&mut reg, "http://x/a"));
    mark_save_as(&mut reg, "http://x/a");
    mark_save_as(&mut reg, "http://x/a");
    mark_save_as(&mut reg, "http://x/b");
    assert!(is_save_as(&mut reg, "http://x/a"));
    assert!(!is_save_as(&mut reg, "http://x/a"));
    assert!(is_save_as(&mut reg, "http://x/b"));
}

#[test]
fn last_save_directory_falls_back_to_downloads_then_here() {
    let mut reg = GlobalDownloadManager::new();
    assert_eq!(last_save_directory(&reg, Some("/home/u/Downloads".to_string())), "/home/u/Downloads");
    assert_eq!(last_save_directory(&reg, None), ".");
    set_last_save_directory(&mut reg, "/data".to_string());
    assert_eq!(last_save_directory(&reg, Some("/home/u/Downloads".to_string())), "/data");
    assert_eq!(last_save_directory(&reg, None), "/data");
}

#[test]
fn the_backup_path_appends_the_suffix() {
    assert_eq!(backup_path_of("/tmp/file.bin"), "/tmp/file.bin.part");
    assert_eq!(backup_path_of("archive"), "archive.part");
}
