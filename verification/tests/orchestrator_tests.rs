use usbmaker::error::USBMakerError;
use usbmaker::iso::{ProvisionState, ProvisionStep, ProvisioningRun};

#[test]
fn successful_run_walks_every_state_and_releases_both_mounts() {
    let mut run = ProvisioningRun::new();
    assert_eq!(run.state, ProvisionState::Init);
    assert_eq!(run.next_step(), Some(ProvisionStep::CreateTable));

    assert_eq!(run.advance(Ok(())), 0);
    assert_eq!(run.state, ProvisionState::TableCreated);
    assert_eq!(run.next_step(), Some(ProvisionStep::Format));

    assert_eq!(run.advance(Ok(())), 0);
    assert_eq!(run.state, ProvisionState::Formatted);
    assert_eq!(run.next_step(), Some(ProvisionStep::MountSource));

    assert_eq!(run.advance(Ok(())), 0);
    assert_eq!(run.state, ProvisionState::SourceMounted);
    assert_eq!(run.mounts_held, 1);
    assert_eq!(run.next_step(), Some(ProvisionStep::MountTarget));

    assert_eq!(run.advance(Ok(())), 0);
    assert_eq!(run.state, ProvisionState::BothMounted);
    assert_eq!(run.mounts_held, 2);
    assert_eq!(run.next_step(), Some(ProvisionStep::CopyTree));

    assert_eq!(run.advance(Ok(())), 0);
    assert_eq!(run.state, ProvisionState::ContentsCopied);
    assert_eq!(run.next_step(), Some(ProvisionStep::Finish));

    // Finishing releases both mounts, in reverse acquisition order, before
    // the run reports success.
    assert_eq!(run.advance(Ok(())), 2);
    assert_eq!(run.state, ProvisionState::Done);
    assert_eq!(run.mounts_held, 0);
    assert_eq!(run.next_step(), None);
    assert!(run.error.is_none());
}

#[test]
fn format_failure_returns_the_format_error() {
    let mut run = ProvisioningRun::new();
    assert_eq!(run.advance(Ok(())), 0); // table created
    assert_eq!(run.state, ProvisionState::TableCreated);

    // Formatting fails after the table was committed: no mounts exist yet,
    // so none are released, and the run's error is the formatting error
    // itself, not a mount error.
    let format_error =
        USBMakerError::CommandFailed(Some(1), "mkfs.fat -F32 /dev/sdb1".to_string());
    let released = run.advance(Err(format_error));
    assert_eq!(released, 0);
    assert_eq!(run.state, ProvisionState::Aborted);
    assert_eq!(run.mounts_held, 0);
    assert_eq!(
        run.error,
        Some(USBMakerError::CommandFailed(Some(1), "mkfs.fat -F32 /dev/sdb1".to_string()))
    );
    assert_eq!(run.next_step(), None);
}

#[test]
fn copy_failure_releases_both_mounts_and_keeps_the_copy_error() {
    let mut run = ProvisioningRun::new();
    for _ in 0..4 {
        run.advance(Ok(()));
    }
    assert_eq!(run.state, ProvisionState::BothMounted);
    assert_eq!(run.mounts_held, 2);

    let copy_error = USBMakerError::IoError("read failed".to_string(), "copying files".to_string());
    let released = run.advance(Err(copy_error));
    assert_eq!(released, 2);
    assert_eq!(run.state, ProvisionState::Aborted);
    assert_eq!(run.mounts_held, 0);
    assert_eq!(
        run.error,
        Some(USBMakerError::IoError("read failed".to_string(), "copying files".to_string()))
    );
}

#[test]
fn declining_the_confirmation_aborts_before_any_step() {
    let mut run = ProvisioningRun::new();
    let released = run.advance(Err(USBMakerError::CanceledByUser));
    assert_eq!(released, 0);
    assert_eq!(run.state, ProvisionState::Aborted);
    assert_eq!(run.error, Some(USBMakerError::CanceledByUser));
}

#[test]
fn source_mount_failure_releases_nothing() {
    let mut run = ProvisioningRun::new();
    run.advance(Ok(()));
    run.advance(Ok(()));
    assert_eq!(run.state, ProvisionState::Formatted);
    let released = run.advance(Err(USBMakerError::IoError(
        "mount failed".to_string(),
        "mounting source".to_string(),
    )));
    assert_eq!(released, 0);
    assert_eq!(run.state, ProvisionState::Aborted);
}

#[test]
fn target_mount_failure_releases_the_source_mount() {
    let mut run = ProvisioningRun::new();
    for _ in 0..3 {
        run.advance(Ok(()));
    }
    assert_eq!(run.state, ProvisionState::SourceMounted);
    assert_eq!(run.mounts_held, 1);
    let released = run.advance(Err(USBMakerError::IoError(
        "mount failed".to_string(),
        "mounting target".to_string(),
    )));
    assert_eq!(released, 1);
    assert_eq!(run.state, ProvisionState::Aborted);
    assert_eq!(run.mounts_held, 0);
}
