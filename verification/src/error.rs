//! The provisioning pipeline's error taxonomy.
//!
//! Every step reports its outcome to its caller; only the top-level front
//! end turns a final error into a printed message and a process exit code.
//! Each error kind maps to its own positive exit code so scripts can branch
//! on the failure class.

use vstd::prelude::*;

use vstd::string::StringExecFns;

verus! {

/// What can go wrong while provisioning a device.
#[derive(Debug, PartialEq)]
pub enum USBMakerError {
    /// An external command ran and exited unsuccessfully: its exit code
    /// (`None` when a signal ended it) and the command.
    CommandFailed(Option<i32>, String),
    /// An external command could not be launched: the launch error's text
    /// and the command.
    CommandLaunchFailed(String, String),
    /// An I/O step failed: the error's text and the step it arose in.
    IoError(String, String),
    /// The partition-table library failed: the error's text and the step it
    /// arose in.
    PartitioningError(String, String),
    /// The user declined the confirmation prompt before the destructive
    /// part of the run began.
    CanceledByUser,
}

impl USBMakerError {
    /// The process exit code reported for this error kind.
    pub open spec fn spec_error_code(self) -> int {
        match self {
            USBMakerError::CommandFailed(_, _) => 1,
            USBMakerError::CommandLaunchFailed(_, _) => 2,
            USBMakerError::IoError(_, _) => 3,
            USBMakerError::PartitioningError(_, _) => 4,
            USBMakerError::CanceledByUser => 5,
        }
    }

    /// The process exit code reported for this error kind: positive, and
    /// distinct per kind.
    pub fn error_code(&self) -> (r: i32)
        ensures
            r == self.spec_error_code(),
            1 <= r <= 5,
    {
        match self {
            USBMakerError::CommandFailed(_, _) => 1,
            USBMakerError::CommandLaunchFailed(_, _) => 2,
            USBMakerError::IoError(_, _) => 3,
            USBMakerError::PartitioningError(_, _) => 4,
            USBMakerError::CanceledByUser => 5,
        }
    }

    /// The human-readable description of this error.
    pub open spec fn spec_message(self) -> Seq<char> {
        match self {
            USBMakerError::CommandFailed(Some(_), c) => c@ + " exited unsuccessfully"@,
            USBMakerError::CommandFailed(None, c) => c@ + " was terminated by a signal"@,
            USBMakerError::CommandLaunchFailed(e, c) => "Failed to launch command "@ + c@ + ": "@
                + e@,
            USBMakerError::IoError(e, step) => "I/O error while "@ + step@ + ": "@ + e@,
            USBMakerError::PartitioningError(e, step) => "Error preparing partition table ("@
                + step@ + "): "@ + e@,
            USBMakerError::CanceledByUser => "Canceled by user"@,
        }
    }

    /// The human-readable description of this error.
    pub fn message(&self) -> (r: String)
        ensures
            r@ == self.spec_message(),
    {
        match self {
            USBMakerError::CommandFailed(code, c) => {
                let mut s: String = c.clone();
                match code {
                    Some(_) => s.append(" exited unsuccessfully"),
                    None => s.append(" was terminated by a signal"),
                }
                s
            },
            USBMakerError::CommandLaunchFailed(e, c) => {
                let mut s: String = "Failed to launch command ".to_owned();
                s.append(c.as_str());
                s.append(": ");
                s.append(e.as_str());
                s
            },
            USBMakerError::IoError(e, step) => {
                let mut s: String = "I/O error while ".to_owned();
                s.append(step.as_str());
                s.append(": ");
                s.append(e.as_str());
                s
            },
            USBMakerError::PartitioningError(e, step) => {
                let mut s: String = "Error preparing partition table (".to_owned();
                s.append(step.as_str());
                s.append("): ");
                s.append(e.as_str());
                s
            },
            USBMakerError::CanceledByUser => "Canceled by user".to_owned(),
        }
    }
}

} // verus!
