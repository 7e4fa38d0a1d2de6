use qayeq::download::model::ResumeAction;
use qayeq::download::native::{
    accepts_ranges, DestinationPlan, DialogAnswer, NativeCommand, NativeDownload, NativeResponse,
};
use qayeq::download::resume::{
    RangeResume, ResponsePlan, RestoreStep, StreamEnd, CHUNK_SIZE, STATUS_OK,
    STATUS_PARTIAL_CONTENT,
};
use qayeq::download::{
    add_download, cancel_download, is_active, is_paused, mark_save_as, pause_download,
    recent_downloads, resume_download, set_download_status, set_supports_resume, update_progress,
    BackendStep,
    DownloadItem, DownloadStatus, GlobalDownloadManager,
};
use std::collections::HashMap;
use std::time::SystemTime;

fn now() -> SystemTime {
    SystemTime::UNIX_EPOCH
}

fn item(reg: &GlobalDownloadManager, id: u64) -> DownloadItem {
    recent_downloads(reg, usize::MAX)
        .into_iter()
        .find(|d| d.id == id)
        .unwrap()
}

fn response(length: u64, ranges: Option<&str>) -> Option<NativeResponse> {
    Some(NativeResponse {
        content_length: length,
        accept_ranges: ranges.map(|s| s.to_string()),
    })
}

fn auto_saved(reg: &mut GlobalDownloadManager, name: &str) -> (NativeDownload, u64) {
    let mut download = NativeDownload::started(reg, Some(format!("http://x/{}", name)));
    download.auto_save(reg, name, format!("/tmp/{}", name), now());
    let id = download.download_id().unwrap();
    (download, id)
}

// An auto-saved download whose server is known to honour range requests.
fn resumable(reg: &mut GlobalDownloadManager, name: &str) -> (NativeDownload, u64) {
    let (download, id) = auto_saved(reg, name);
    set_supports_resume(reg, id, true);
    (download, id)
}

#[test]
fn a_flagged_download_asks_the_user() {
    let mut reg = GlobalDownloadManager::new();
    mark_save_as(&mut reg, "http://x/a.zip");
    let download = NativeDownload::started(&mut reg, Some("http://x/a.zip".to_string()));
    assert_eq!(
        download.decide_destination(&reg, "a.zip", Some("/home/u/Downloads".to_string()), None),
        DestinationPlan::AskUser {
            initial_name: "a.zip".to_string(),
            initial_folder: "/home/u/Downloads".to_string(),
        }
    );
    // The flag was taken: the next download of the same URL is saved without asking.
    let next = NativeDownload::started(&mut reg, Some("http://x/a.zip".to_string()));
    assert_eq!(
        next.decide_destination(&reg, "a.zip", Some("/home/u/Downloads".to_string()), None),
        DestinationPlan::AutoSave { directory: "/home/u/Downloads".to_string() }
    );
    let anonymous = NativeDownload::started(&mut reg, None);
    assert_eq!(
        anonymous.decide_destination(&reg, "a.zip", None, Some("/home/u".to_string())),
        DestinationPlan::AutoSave { directory: "/home/u".to_string() }
    );
    assert_eq!(
        anonymous.decide_destination(&reg, "a.zip", None, None),
        DestinationPlan::AutoSave { directory: ".".to_string() }
    );
}

#[test]
fn a_chosen_path_makes_the_transfer() {
    let mut reg = GlobalDownloadManager::new();
    mark_save_as(&mut reg, "http://x/a.zip");
    let mut download = NativeDownload::started(&mut reg, Some("http://x/a.zip".to_string()));
    assert_eq!(download.download_id(), None);
    let commands = download.save_as_answered(
        &mut reg,
        "a.zip",
        DialogAnswer::Chosen {
            path: "/data/in/b.zip".to_string(),
            parent: Some("/data/in".to_string()),
        },
        now(),
    );
    assert_eq!(
        commands,
        vec![
            NativeCommand::AllowOverwrite,
            NativeCommand::SetDestination("/data/in/b.zip".to_string()),
        ]
    );
    let id = download.download_id().unwrap();
    let made = item(&reg, id);
    assert_eq!(made.url, "http://x/a.zip");
    assert_eq!(made.filename, "a.zip");
    assert_eq!(made.destination, "/data/in/b.zip");
    assert_eq!(made.status, DownloadStatus::InProgress);
    // The directory is remembered for the next dialog.
    mark_save_as(&mut reg, "http://x/c.zip");
    let next = NativeDownload::started(&mut reg, Some("http://x/c.zip".to_string()));
    assert_eq!(
        next.decide_destination(&reg, "c.zip", Some("/home/u/Downloads".to_string()), None),
        DestinationPlan::AskUser {
            initial_name: "c.zip".to_string(),
            initial_folder: "/data/in".to_string(),
        }
    );
    // Its cancel action is the engine's cancel, with no backup, and it has no resume action.
    assert_eq!(pause_download(&mut reg, id), vec![BackendStep::CancelNative]);
    assert_eq!(resume_download(&reg, id), None);
}

#[test]
fn a_dismissed_dialog_cancels_the_engine_download_only() {
    let mut reg = GlobalDownloadManager::new();
    let mut download = NativeDownload::started(&mut reg, Some("http://x/a.zip".to_string()));
    for answer in [DialogAnswer::Dismissed, DialogAnswer::NoPath] {
        assert_eq!(
            download.save_as_answered(&mut reg, "a.zip", answer, now()),
            vec![NativeCommand::Cancel]
        );
    }
    assert_eq!(download.download_id(), None);
    assert_eq!(recent_downloads(&reg, 10).len(), 0);
    // Events of a download without a transfer do nothing.
    download.received_data(&mut reg, response(100, Some("bytes")), 10);
    download.finished(&mut reg, Some(100), 100);
    download.failed(&mut reg, "cancelled");
    assert_eq!(recent_downloads(&reg, 10).len(), 0);
}

#[test]
fn an_auto_saved_download_can_be_paused_and_resumed() {
    let mut reg = GlobalDownloadManager::new();
    let mut download = NativeDownload::started(&mut reg, None);
    let commands = download.auto_save(&mut reg, "a.(1).zip", "/dl/a.(1).zip".to_string(), now());
    assert_eq!(
        commands,
        vec![
            NativeCommand::AllowOverwrite,
            NativeCommand::SetDestination("/dl/a.(1).zip".to_string()),
        ]
    );
    let id = download.download_id().unwrap();
    let made = item(&reg, id);
    assert_eq!(made.url, "");
    assert_eq!(made.filename, "a.(1).zip");
    assert_eq!(resume_download(&reg, id), Some(ResumeAction::RangeRequest));
    // In progress, and range support not yet known: nothing to resume.
    assert!(RangeResume::begin(&reg, id).is_none());
    download.received_data(&mut reg, response(100, Some("bytes")), 10);
    assert!(RangeResume::begin(&reg, id).is_none());
    assert_eq!(
        pause_download(&mut reg, id),
        vec![
            BackendStep::CopyPartialToBackup {
                from: "/dl/a.(1).zip".to_string(),
                to: "/dl/a.(1).zip.part".to_string(),
            },
            BackendStep::CancelNative,
        ]
    );
    assert!(RangeResume::begin(&reg, id).is_some());
}

#[test]
fn the_first_report_settles_range_support() {
    assert!(accepts_ranges("bytes"));
    assert!(accepts_ranges(""));
    assert!(!accepts_ranges("none"));
    for (header, expected) in [
        (Some("bytes"), true),
        (Some("none"), false),
        (Some("None"), false),
        (Some("NONE"), false),
        (Some("none "), true),
        (None, false),
    ] {
        let mut reg = GlobalDownloadManager::new();
        let (mut download, id) = auto_saved(&mut reg, "a");
        download.received_data(&mut reg, response(100, header), 10);
        let seen = item(&reg, id);
        assert_eq!((seen.received_bytes, seen.total_bytes), (10, 100));
        assert_eq!(seen.supports_resume, expected, "header {:?}", header);
        // Later reports move the counters only.
        download.received_data(&mut reg, response(100, Some("bytes")), 20);
        let later = item(&reg, id);
        assert_eq!((later.received_bytes, later.total_bytes), (20, 100));
        assert_eq!(later.supports_resume, expected);
    }
}

#[test]
fn a_report_without_a_response_is_ignored() {
    let mut reg = GlobalDownloadManager::new();
    let (mut download, id) = auto_saved(&mut reg, "a");
    download.received_data(&mut reg, None, 10);
    assert_eq!(item(&reg, id).received_bytes, 0);
    download.received_data(&mut reg, response(100, Some("bytes")), 10);
    assert!(item(&reg, id).supports_resume);
}

#[test]
fn a_whole_download_completes_and_loses_its_actions() {
    let mut reg = GlobalDownloadManager::new();
    let (mut download, id) = auto_saved(&mut reg, "a");
    download.received_data(&mut reg, response(100, Some("bytes")), 100);
    download.finished(&mut reg, Some(100), 100);
    assert_eq!(item(&reg, id).status, DownloadStatus::Completed);
    assert_eq!(resume_download(&reg, id), None);
    assert_eq!(cancel_download(&mut reg, id), vec![]);
    // Without an announced length, or without a response, nothing is short.
    for expected in [Some(0), None] {
        let (other, other_id) = auto_saved(&mut reg, "b");
        other.finished(&mut reg, expected, 10);
        assert_eq!(item(&reg, other_id).status, DownloadStatus::Completed);
    }
}

#[test]
fn short_completion_is_not_success() {
    let mut reg = GlobalDownloadManager::new();
    let (mut download, id) = auto_saved(&mut reg, "a");
    download.received_data(&mut reg, response(100, Some("bytes")), 40);
    assert!(is_active(&reg, id));
    download.finished(&mut reg, Some(100), 40);
    assert_eq!(item(&reg, id).status, DownloadStatus::Cancelled);
    // The actions stay: only a completed transfer loses them. But a cancelled transfer is
    // not resumed.
    assert_eq!(resume_download(&reg, id), Some(ResumeAction::RangeRequest));
    assert!(RangeResume::begin(&reg, id).is_none());
}

#[test]
fn a_finish_after_a_pause_leaves_the_transfer_paused() {
    let mut reg = GlobalDownloadManager::new();
    let (download, id) = resumable(&mut reg, "a");
    update_progress(&mut reg, id, 40, 100);
    pause_download(&mut reg, id);
    download.finished(&mut reg, Some(100), 40);
    assert!(is_paused(&reg, id));
    download.finished(&mut reg, Some(100), 100);
    assert!(is_paused(&reg, id));
    assert_eq!(resume_download(&reg, id), Some(ResumeAction::RangeRequest));
}

#[test]
fn cancel_suppresses_failure() {
    let mut reg = GlobalDownloadManager::new();
    let (download, id) = auto_saved(&mut reg, "a");
    assert_eq!(cancel_download(&mut reg, id), vec![BackendStep::CancelNative]);
    download.failed(&mut reg, "Download cancelled");
    assert_eq!(item(&reg, id).status, DownloadStatus::Cancelled);
    // The failure drops the cancel action and keeps the resume action.
    assert_eq!(cancel_download(&mut reg, id), vec![]);
    assert_eq!(resume_download(&reg, id), Some(ResumeAction::RangeRequest));
    assert!(RangeResume::begin(&reg, id).is_none());
}

#[test]
fn a_finish_after_the_end_changes_nothing() {
    for ended in [
        DownloadStatus::Cancelled,
        DownloadStatus::Failed("timeout".to_string()),
        DownloadStatus::Completed,
    ] {
        for (expected, received) in [(Some(100), 100), (Some(100), 40), (None, 0)] {
            let mut reg = GlobalDownloadManager::new();
            let (download, id) = auto_saved(&mut reg, "a");
            set_download_status(&mut reg, id, ended.clone());
            download.finished(&mut reg, expected, received);
            assert_eq!(item(&reg, id).status, ended);
            download.failed(&mut reg, "late");
            assert_eq!(item(&reg, id).status, ended);
        }
    }
    // A cancelled transfer whose download ran to its end all the same stays cancelled, and
    // keeps its resume action.
    let mut reg = GlobalDownloadManager::new();
    let (download, id) = auto_saved(&mut reg, "a");
    cancel_download(&mut reg, id);
    download.finished(&mut reg, Some(100), 100);
    assert_eq!(item(&reg, id).status, DownloadStatus::Cancelled);
    assert_eq!(resume_download(&reg, id), Some(ResumeAction::RangeRequest));
}

#[test]
fn pause_suppresses_failure() {
    let mut reg = GlobalDownloadManager::new();
    let (download, id) = auto_saved(&mut reg, "a");
    pause_download(&mut reg, id);
    download.failed(&mut reg, "Download cancelled");
    assert_eq!(item(&reg, id).status, DownloadStatus::Paused);
}

#[test]
fn a_failure_in_progress_fails_the_transfer() {
    let mut reg = GlobalDownloadManager::new();
    let (download, id) = auto_saved(&mut reg, "a");
    download.failed(&mut reg, "connection reset");
    assert_eq!(
        item(&reg, id).status,
        DownloadStatus::Failed("connection reset".to_string())
    );
    download.failed(&mut reg, "again");
    assert_eq!(
        item(&reg, id).status,
        DownloadStatus::Failed("connection reset".to_string())
    );
}

#[test]
fn a_resume_begins_only_for_a_paused_transfer_with_range_support() {
    let mut reg = GlobalDownloadManager::new();
    let (_, id) = auto_saved(&mut reg, "a");
    assert!(RangeResume::begin(&reg, id).is_none());
    assert!(RangeResume::begin(&reg, id + 1).is_none());
    update_progress(&mut reg, id, 50, 100);
    pause_download(&mut reg, id);
    // Paused, but the server is not known to honour range requests: the action is handed
    // out, and finds nothing to resume.
    assert_eq!(resume_download(&reg, id), Some(ResumeAction::RangeRequest));
    assert!(RangeResume::begin(&reg, id).is_none());
    assert!(is_paused(&reg, id));
    set_supports_resume(&mut reg, id, true);
    assert_eq!(resume_download(&reg, id), Some(ResumeAction::RangeRequest));
    let resume = RangeResume::begin(&reg, id).unwrap();
    assert_eq!(resume.id(), id);
    assert_eq!(resume.destination(), "/tmp/a");
    assert_eq!(resume.received(), 50);
    assert_eq!(resume.total(), 0);
}

#[test]
fn the_backup_is_restored_only_where_the_destination_is_gone() {
    let mut reg = GlobalDownloadManager::new();
    let (_, id) = resumable(&mut reg, "a");
    pause_download(&mut reg, id);
    let resume = RangeResume::begin(&reg, id).unwrap();
    assert_eq!(
        resume.restore_step(true, false),
        Some(RestoreStep { from: "/tmp/a.part".to_string(), to: "/tmp/a".to_string() })
    );
    assert_eq!(resume.restore_step(true, true), None);
    assert_eq!(resume.restore_step(false, false), None);
    assert_eq!(resume.restore_step(false, true), None);
    resume.restore_failed(&mut reg, "permission denied");
    assert_eq!(
        item(&reg, id).status,
        DownloadStatus::Failed("Failed to restore backup: permission denied".to_string())
    );    // A later failure to restore finds the transfer ended and leaves it.
    resume.restore_failed(&mut reg, "no such file");
    assert_eq!(
        item(&reg, id).status,
        DownloadStatus::Failed("Failed to restore backup: permission denied".to_string())
    );
    let (_, other) = resumable(&mut reg, "b");
    pause_download(&mut reg, other);
    let resume = RangeResume::begin(&reg, other).unwrap();
    cancel_download(&mut reg, other);
    resume.restore_failed(&mut reg, "no such file");
    assert_eq!(item(&reg, other).status, DownloadStatus::Cancelled);
}

#[test]
fn a_resume_takes_the_transfer_over() {
    let mut reg = GlobalDownloadManager::new();
    let (_, id) = resumable(&mut reg, "a");
    update_progress(&mut reg, id, 1234, 5000);
    pause_download(&mut reg, id);
    let resume = RangeResume::begin(&reg, id).unwrap();
    let request = resume.start(&mut reg).unwrap();
    assert_eq!(request.url, "http://x/a");
    assert_eq!(request.range, "bytes=1234-");
    assert!(is_active(&reg, id));
    // The cancel action is now that of the range fetch.
    assert_eq!(
        pause_download(&mut reg, id),
        vec![
            BackendStep::CancelRangeFetch,
            BackendStep::CopyPartialToBackup {
                from: "/tmp/a".to_string(),
                to: "/tmp/a.part".to_string(),
            },
        ]
    );
}

#[test]
fn a_whole_entity_starts_over() {
    let mut reg = GlobalDownloadManager::new();
    let (_, id) = resumable(&mut reg, "a");
    update_progress(&mut reg, id, 50, 100);
    pause_download(&mut reg, id);
    let mut resume = RangeResume::begin(&reg, id).unwrap();
    assert!(resume.start(&mut reg).is_some());
    assert_eq!(resume.response(&mut reg, STATUS_OK, "Ok", 120), ResponsePlan::Rewrite);
    assert_eq!((resume.received(), resume.total()), (0, 120));
    let seen = item(&reg, id);
    assert_eq!((seen.received_bytes, seen.total_bytes), (0, 120));
    resume.chunk_written(&mut reg, 120);
    resume.finish(&mut reg, StreamEnd::Eof);
    let done = item(&reg, id);
    assert_eq!(done.status, DownloadStatus::Completed);
    assert_eq!((done.received_bytes, done.total_bytes), (120, 120));
}

#[test]
fn another_status_fails_the_resume() {
    let mut reg = GlobalDownloadManager::new();
    let (_, id) = resumable(&mut reg, "a");
    update_progress(&mut reg, id, 50, 100);
    pause_download(&mut reg, id);
    let mut resume = RangeResume::begin(&reg, id).unwrap();
    assert!(resume.start(&mut reg).is_some());
    let plan = resume.response(&mut reg, 404, "NotFound", 0);
    assert_eq!(plan, ResponsePlan::Reject("Server returned status NotFound".to_string()));
    if let ResponsePlan::Reject(message) = plan {
        resume.finish(&mut reg, StreamEnd::Failed(message));
    }
    let seen = item(&reg, id);
    assert_eq!(
        seen.status,
        DownloadStatus::Failed("Server returned status NotFound".to_string())
    );
    assert_eq!((seen.received_bytes, seen.total_bytes), (50, 100));
    // A failed transfer keeps its actions, but it is not resumed.
    assert_eq!(resume_download(&reg, id), Some(ResumeAction::RangeRequest));
    assert!(RangeResume::begin(&reg, id).is_none());
}

#[test]
fn a_resume_does_not_start_once_the_transfer_cannot_be_resumed() {
    let mut reg = GlobalDownloadManager::new();
    let (_, id) = resumable(&mut reg, "a");
    update_progress(&mut reg, id, 50, 100);
    pause_download(&mut reg, id);
    let resume = RangeResume::begin(&reg, id).unwrap();
    // The user cancels before the fetch starts.
    assert_eq!(cancel_download(&mut reg, id), vec![BackendStep::CancelNative]);
    assert_eq!(resume.start(&mut reg), None);
    assert_eq!(item(&reg, id).status, DownloadStatus::Cancelled);
    // The cancel action is still the engine's: the fetch did not take the transfer over.
    assert_eq!(cancel_download(&mut reg, id), vec![BackendStep::CancelNative]);
    // Nor does it start once range support is withdrawn, or for a transfer that is gone.
    let (_, other) = resumable(&mut reg, "b");
    pause_download(&mut reg, other);
    let resume = RangeResume::begin(&reg, other).unwrap();
    set_supports_resume(&mut reg, other, false);
    assert_eq!(resume.start(&mut reg), None);
    assert!(is_paused(&reg, other));
    let (_, third) = resumable(&mut reg, "c");
    pause_download(&mut reg, third);
    let resume = RangeResume::begin(&reg, third).unwrap();
    qayeq::download::remove_download(&mut reg, third);
    assert_eq!(resume.start(&mut reg), None);
}

#[test]
fn a_read_failure_is_a_cancellation_where_the_token_was_flipped() {
    assert_eq!(RangeResume::read_failed(true, "stream closed"), StreamEnd::Cancelled);
    assert_eq!(
        RangeResume::read_failed(false, "stream closed"),
        StreamEnd::Failed("Read error: stream closed".to_string())
    );
}

#[test]
fn the_end_of_a_fetch_reaches_only_a_transfer_in_progress() {
    for (status, end, expected) in [
        (DownloadStatus::Paused, StreamEnd::Eof, DownloadStatus::Paused),
        (DownloadStatus::Cancelled, StreamEnd::Failed("x".to_string()), DownloadStatus::Cancelled),
        (DownloadStatus::InProgress, StreamEnd::Cancelled, DownloadStatus::InProgress),
        (DownloadStatus::InProgress, StreamEnd::Eof, DownloadStatus::Completed),
        (
            DownloadStatus::InProgress,
            StreamEnd::Failed("x".to_string()),
            DownloadStatus::Failed("x".to_string()),
        ),
    ] {
        let mut reg = GlobalDownloadManager::new();
        let (_, id) = resumable(&mut reg, "a");
        pause_download(&mut reg, id);
        let resume = RangeResume::begin(&reg, id).unwrap();
        assert!(resume.start(&mut reg).is_some());
        set_download_status(&mut reg, id, status);
        resume.finish(&mut reg, end);
        assert_eq!(item(&reg, id).status, expected);
    }
}

// A backend made of a map from paths to file contents.
struct Disk {
    files: HashMap<String, Vec<u8>>,
}

impl Disk {
    fn run(&mut self, steps: Vec<BackendStep>) {
        for step in steps {
            match step {
                BackendStep::CopyPartialToBackup { from, to } => {
                    if let Some(bytes) = self.files.get(&from).cloned() {
                        self.files.insert(to, bytes);
                    }
                }
                // The engine deletes the partial file when it is cancelled.
                BackendStep::CancelNative => self.files.retain(|path, _| path.ends_with(".part")),
                BackendStep::CancelRangeFetch => {}
            }
        }
    }
}

#[test]
fn pause_then_resume_completes_the_file() {
    let mut reg = GlobalDownloadManager::new();
    let mut disk = Disk { files: HashMap::new() };
    let body: Vec<u8> = (0..100u8).collect();

    let id = add_download(
        &mut reg,
        "http://x/file.bin",
        "file.bin",
        "/tmp/file.bin".to_string(),
        now(),
    );
    qayeq::download::register_cancel_callback(
        &mut reg,
        id,
        qayeq::download::model::CancelAction::BackupThenNativeCancel,
    );
    qayeq::download::register_resume_callback(&mut reg, id, ResumeAction::RangeRequest);
    disk.files.insert("/tmp/file.bin".to_string(), body[..50].to_vec());
    update_progress(&mut reg, id, 50, 100);
    // The first response announced that the server honours range requests.
    set_supports_resume(&mut reg, id, true);

    let steps = pause_download(&mut reg, id);
    disk.run(steps);
    assert_eq!(item(&reg, id).status, DownloadStatus::Paused);
    assert_eq!(disk.files.get("/tmp/file.bin.part").map(|f| f.len()), Some(50));
    assert!(!disk.files.contains_key("/tmp/file.bin"));

    assert_eq!(resume_download(&reg, id), Some(ResumeAction::RangeRequest));
    let mut resume = RangeResume::begin(&reg, id).unwrap();
    let restore = resume
        .restore_step(
            disk.files.contains_key("/tmp/file.bin.part"),
            disk.files.contains_key("/tmp/file.bin"),
        )
        .unwrap();
    let partial = disk.files.remove(&restore.from).unwrap();
    disk.files.insert(restore.to, partial);

    let request = resume.start(&mut reg).unwrap();
    assert_eq!(request.url, "http://x/file.bin");
    assert_eq!(request.range, "bytes=50-");
    assert_eq!(item(&reg, id).status, DownloadStatus::InProgress);

    // The server honours the range and sends the other 50 bytes.
    let rest = &body[50..];
    let plan = resume.response(&mut reg, STATUS_PARTIAL_CONTENT, "PartialContent", rest.len() as u64);
    assert_eq!(plan, ResponsePlan::Append);
    assert_eq!((resume.received(), resume.total()), (50, 100));
    assert_eq!(CHUNK_SIZE, 65536);
    for chunk in rest.chunks(16) {
        disk.files.get_mut(resume.destination()).unwrap().extend_from_slice(chunk);
        resume.chunk_written(&mut reg, chunk.len());
    }
    resume.finish(&mut reg, StreamEnd::Eof);

    let done = item(&reg, id);
    assert_eq!(done.status, DownloadStatus::Completed);
    assert_eq!((done.received_bytes, done.total_bytes), (100, 100));
    assert_eq!(disk.files.get("/tmp/file.bin"), Some(&body));
    assert_eq!(resume_download(&reg, id), None);
    assert_eq!(cancel_download(&mut reg, id), vec![]);
}
