use mumu_search::{DownloadError, DownloadProgress};
use mumu_search::errors::timeout_message;

#[test]
fn progress_sums_chunk_lengths() {
    let mut p = DownloadProgress::new(10);
    assert_eq!(p.downloaded, 0);
    assert_eq!(p.total, 10);
    assert!(!p.matches_advertised());
    p.record_chunk(4);
    p.record_chunk(6);
    assert_eq!(p.downloaded, 10);
    assert!(p.matches_advertised());
}

#[test]
fn progress_saturates_at_the_top() {
    let mut p = DownloadProgress::new(0);
    p.record_chunk(usize::MAX);
    p.record_chunk(usize::MAX);
    p.record_chunk(1);
    assert_eq!(p.downloaded, u64::MAX);
    assert_eq!(p.total, 0);
}

#[test]
fn error_messages_name_the_failing_phase() {
    assert_eq!(DownloadError::InvalidUrlFormat.message(), "Invalid URL format");
    assert_eq!(DownloadError::CreateDirFailed.message(), "Failed to create directory");
    assert_eq!(DownloadError::RequestFailed.message(), "Download request failed");
    assert_eq!(DownloadError::CreateFileFailed.message(), "Failed to create file");
    assert_eq!(DownloadError::StreamReadFailed.message(), "Download stream error");
    assert_eq!(DownloadError::WriteChunkFailed.message(), "Write chunk failed");
}

#[test]
fn timeout_message_text() {
    assert_eq!(timeout_message(), "No valid URL found within time limit");
}
