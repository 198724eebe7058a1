use usbmaker::dd::{
    copy_bytes, copy_step, overwrite_gate, run_copy, tally_progress, CopyProgress, CopyStep,
    DdError, ReadEvent, CHUNK_SIZE,
};

#[test]
fn dd_error_codes_are_distinct_and_positive() {
    let codes = [
        DdError::InputFileOpenError.error_code(),
        DdError::InputFileMetadataError.error_code(),
        DdError::CanceledByUser.error_code(),
        DdError::OutputFileOpenError.error_code(),
        DdError::ReadError.error_code(),
        DdError::WriteError.error_code(),
        DdError::SyncError.error_code(),
    ];
    for (i, &a) in codes.iter().enumerate() {
        assert!(a > 0);
        for &b in &codes[i + 1..] {
            assert_ne!(a, b);
        }
    }
}

#[test]
fn declining_an_overwrite_cancels() {
    assert_eq!(overwrite_gate(true, false, false), Err(DdError::CanceledByUser));
}

#[test]
fn overwrite_gate_passes_otherwise() {
    assert!(overwrite_gate(false, false, false).is_ok());
    assert!(overwrite_gate(true, true, false).is_ok());
    assert!(overwrite_gate(true, false, true).is_ok());
    assert!(overwrite_gate(false, true, true).is_ok());
}

#[test]
fn copy_step_decisions() {
    assert_eq!(copy_step(ReadEvent::Read(0)), CopyStep::Finish);
    assert_eq!(copy_step(ReadEvent::Read(5)), CopyStep::Write(5));
    assert_eq!(copy_step(ReadEvent::Read(CHUNK_SIZE)), CopyStep::Write(CHUNK_SIZE));
    assert_eq!(copy_step(ReadEvent::Interrupted), CopyStep::Retry);
    assert_eq!(copy_step(ReadEvent::Failed), CopyStep::Fail(DdError::ReadError));
}

#[test]
fn progress_counter_accumulates_and_completes() {
    let mut p = CopyProgress::new(300);
    assert_eq!(p.bytes_written, 0);
    assert!(!p.complete());
    p.record(100);
    assert_eq!(p.bytes_written, 100);
    p.record(200);
    assert_eq!(p.bytes_written, 300);
    assert!(p.complete());
}

#[test]
fn copying_yields_identical_bytes_and_full_progress() {
    // Three chunks: two full ones and a remainder.
    let n = 2 * CHUNK_SIZE + 37_856;
    let source: Vec<u8> = (0..n).map(|i| (i % 251) as u8).collect();
    let mut dest: Vec<u8> = vec![7, 7, 7];
    let mut progress = CopyProgress::new(source.len() as u64);
    let chunks = copy_bytes(&source, &mut dest, &mut progress);
    assert_eq!(dest, source);
    assert_eq!(progress.bytes_written, n as u64);
    assert_eq!(progress.total_bytes, n as u64);
    assert!(progress.complete());
    assert_eq!(chunks, vec![CHUNK_SIZE, CHUNK_SIZE, 37_856]);
    let written = tally_progress(&chunks, progress.total_bytes);
    assert_eq!(written, n as u64);
}

#[test]
fn copying_an_empty_source_sends_nothing() {
    let source: Vec<u8> = Vec::new();
    let mut dest: Vec<u8> = vec![1, 2, 3];
    let mut progress = CopyProgress::new(0);
    let chunks = copy_bytes(&source, &mut dest, &mut progress);
    assert!(dest.is_empty());
    assert!(chunks.is_empty());
    assert!(progress.complete());
    assert_eq!(tally_progress(&chunks, 0), 0);
}

#[test]
fn copying_a_small_source_sends_one_chunk() {
    let source: Vec<u8> = vec![9; 10];
    let mut dest: Vec<u8> = Vec::new();
    let mut progress = CopyProgress::new(10);
    let chunks = copy_bytes(&source, &mut dest, &mut progress);
    assert_eq!(dest, source);
    assert_eq!(chunks, vec![10]);
}

#[test]
fn declined_copy_leaves_destination_unmodified() {
    let source: Vec<u8> = vec![1, 2, 3, 4];
    let mut dest: Vec<u8> = vec![9, 8];
    let r = run_copy(&source, &mut dest, true, false, false);
    assert_eq!(r, Err(DdError::CanceledByUser));
    assert_eq!(dest, vec![9, 8]);
}

#[test]
fn confirmed_copy_overwrites_destination() {
    let source: Vec<u8> = vec![1, 2, 3, 4];
    let mut dest: Vec<u8> = vec![9, 8];
    let (chunks, progress) = run_copy(&source, &mut dest, true, false, true).unwrap();
    assert_eq!(dest, source);
    assert_eq!(chunks, vec![4]);
    assert_eq!(progress.bytes_written, 4);
    assert_eq!(progress.total_bytes, 4);
}
