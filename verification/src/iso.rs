//! The provisioning orchestrator: the state machine that turns an empty
//! device and a source image into a bootable device.
//!
//! One run walks `Init → TableCreated → Formatted → SourceMounted →
//! BothMounted → ContentsCopied → Done`; a failure in any step moves it to
//! the terminal `Aborted` state. The front end performs each step's external
//! work (the table commit, the maker programs, the mounts, the tree copy)
//! and feeds every outcome through `advance`, keeping its scoped mounts on a
//! stack; `advance` says how many mounts to release — popping them releases
//! in reverse acquisition order. Whatever step fails, every mount acquired
//! so far is released, and that step's own error — no later mount or release
//! error — is what the run returns. No committed table or completed format
//! is rolled back.

use vstd::prelude::*;

use crate::error::USBMakerError;

verus! {

/// The states of one provisioning run.
#[derive(Clone, Copy, Debug, PartialEq, Eq, Structural)]
pub enum ProvisionState {
    /// Nothing has happened; the confirmation checkpoint stands here.
    Init,
    /// The partition table was created and committed.
    TableCreated,
    /// The partition was formatted.
    Formatted,
    /// The source image is mounted.
    SourceMounted,
    /// The source and the freshly formatted partition are both mounted.
    BothMounted,
    /// The source tree was copied onto the destination.
    ContentsCopied,
    /// The run succeeded; every mount was released.
    Done,
    /// The run failed or was canceled; every mount acquired was released.
    Aborted,
}

/// The external step a run performs next in a given state.
#[derive(Clone, Copy, Debug, PartialEq, Eq, Structural)]
pub enum ProvisionStep {
    /// Create and commit the partition table with its single partition,
    /// tagged with the partition-type hint derived from the requested
    /// filesystem.
    CreateTable,
    /// Wipe signatures and run the maker program on the partition.
    Format,
    /// Mount the source image onto a fresh temporary directory.
    MountSource,
    /// Mount the formatted partition onto a fresh temporary directory.
    MountTarget,
    /// Copy the source mount's tree onto the target mount's tree.
    CopyTree,
    /// Release both mounts, in reverse acquisition order, and return
    /// success.
    Finish,
}

/// How many mounts a run holds in each state.
pub open spec fn spec_mounts_in(state: ProvisionState) -> int {
    match state {
        ProvisionState::Init => 0,
        ProvisionState::TableCreated => 0,
        ProvisionState::Formatted => 0,
        ProvisionState::SourceMounted => 1,
        ProvisionState::BothMounted => 2,
        ProvisionState::ContentsCopied => 2,
        ProvisionState::Done => 0,
        ProvisionState::Aborted => 0,
    }
}

/// The state a successful step leads to.
pub open spec fn spec_next_state(state: ProvisionState) -> ProvisionState {
    match state {
        ProvisionState::Init => ProvisionState::TableCreated,
        ProvisionState::TableCreated => ProvisionState::Formatted,
        ProvisionState::Formatted => ProvisionState::SourceMounted,
        ProvisionState::SourceMounted => ProvisionState::BothMounted,
        ProvisionState::BothMounted => ProvisionState::ContentsCopied,
        ProvisionState::ContentsCopied => ProvisionState::Done,
        ProvisionState::Done => ProvisionState::Done,
        ProvisionState::Aborted => ProvisionState::Aborted,
    }
}

/// One provisioning run: its state, the mounts it holds, and the error that
/// aborted it, if one did.
pub struct ProvisioningRun {
    pub state: ProvisionState,
    pub mounts_held: u8,
    pub error: Option<USBMakerError>,
}

impl ProvisioningRun {
    /// A run always holds exactly the mounts its state says, and carries an
    /// error exactly when it was aborted.
    pub open spec fn wf(self) -> bool {
        &&& self.mounts_held == spec_mounts_in(self.state)
        &&& (self.state is Aborted <==> self.error is Some)
    }

    /// Whether the run still has work to do.
    pub open spec fn in_progress(self) -> bool {
        !(self.state is Done) && !(self.state is Aborted)
    }

    /// A fresh run, before the confirmation checkpoint.
    pub fn new() -> (r: ProvisioningRun)
        ensures
            r.state is Init,
            r.mounts_held == 0,
            r.error is None,
            r.wf(),
    {
        ProvisioningRun { state: ProvisionState::Init, mounts_held: 0, error: None }
    }

    /// The external step to perform next, while the run is in progress.
    pub fn next_step(&self) -> (r: Option<ProvisionStep>)
        ensures
            r == match self.state {
                ProvisionState::Init => Some(ProvisionStep::CreateTable),
                ProvisionState::TableCreated => Some(ProvisionStep::Format),
                ProvisionState::Formatted => Some(ProvisionStep::MountSource),
                ProvisionState::SourceMounted => Some(ProvisionStep::MountTarget),
                ProvisionState::BothMounted => Some(ProvisionStep::CopyTree),
                ProvisionState::ContentsCopied => Some(ProvisionStep::Finish),
                ProvisionState::Done => None::<ProvisionStep>,
                ProvisionState::Aborted => None::<ProvisionStep>,
            },
            r is Some <==> self.in_progress(),
    {
        match self.state {
            ProvisionState::Init => Some(ProvisionStep::CreateTable),
            ProvisionState::TableCreated => Some(ProvisionStep::Format),
            ProvisionState::Formatted => Some(ProvisionStep::MountSource),
            ProvisionState::SourceMounted => Some(ProvisionStep::MountTarget),
            ProvisionState::BothMounted => Some(ProvisionStep::CopyTree),
            ProvisionState::ContentsCopied => Some(ProvisionStep::Finish),
            ProvisionState::Done => None,
            ProvisionState::Aborted => None,
        }
    }

    /// Feeds the current step's outcome into the run and says how many
    /// mounts the front end must now release (popping its stack releases
    /// them in reverse acquisition order).
    ///
    /// On success the run moves to the next state; finishing from
    /// `ContentsCopied` releases both mounts before the run reports `Done`.
    /// On failure the run is aborted: every mount acquired so far is
    /// released, and the failing step's own error — never a mount or release
    /// error — is recorded as the run's error.
    pub fn advance(&mut self, outcome: Result<(), USBMakerError>) -> (released: u8)
        requires
            old(self).wf(),
            old(self).in_progress(),
        ensures
            final(self).wf(),
            outcome matches Err(e) ==> {
                &&& final(self).state is Aborted
                &&& final(self).error == Some(e)
                &&& released == old(self).mounts_held
                &&& final(self).mounts_held == 0
            },
            outcome is Ok ==> {
                &&& final(self).state == spec_next_state(old(self).state)
                &&& final(self).error is None
                &&& released == (if old(self).state is ContentsCopied {
                    old(self).mounts_held as int
                } else {
                    0
                })
            },
    {
        match outcome {
            Err(e) => {
                let released: u8 = self.mounts_held;
                self.state = ProvisionState::Aborted;
                self.mounts_held = 0;
                self.error = Some(e);
                released
            },
            Ok(()) => {
                match self.state {
                    ProvisionState::Init => {
                        self.state = ProvisionState::TableCreated;
                        0
                    },
                    ProvisionState::TableCreated => {
                        self.state = ProvisionState::Formatted;
                        0
                    },
                    ProvisionState::Formatted => {
                        self.state = ProvisionState::SourceMounted;
                        self.mounts_held = 1;
                        0
                    },
                    ProvisionState::SourceMounted => {
                        self.state = ProvisionState::BothMounted;
                        self.mounts_held = 2;
                        0
                    },
                    ProvisionState::BothMounted => {
                        self.state = ProvisionState::ContentsCopied;
                        0
                    },
                    ProvisionState::ContentsCopied => {
                        let released: u8 = self.mounts_held;
                        self.state = ProvisionState::Done;
                        self.mounts_held = 0;
                        released
                    },
                    ProvisionState::Done => 0,
                    ProvisionState::Aborted => 0,
                }
            },
        }
    }
}

} // verus!
