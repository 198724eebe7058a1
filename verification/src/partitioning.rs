//! Driving the partition-table library: the steps of creating and committing
//! a table with one full-device partition, and how each step's failure is
//! reported.
//!
//! The front end makes the library calls (opening the device, creating the
//! fresh table, adding the partition, committing); this module plans the
//! partition, maps each step's failure to the pipeline's error taxonomy, and
//! picks the path handed back on success.

use vstd::prelude::*;

use vstd::string::StringExecFns;

use crate::error::USBMakerError;
use crate::geometry;
use crate::geometry::PartitionPlan;
use crate::parted::DiskType;

verus! {

/// The confirmation checkpoint before the destructive run begins: unless the
/// caller pre-authorized, a declined prompt cancels the run — the only
/// cancellation point; once past it, the run proceeds to completion or hard
/// failure.
pub fn confirmation_gate(assume_yes: bool, confirmed: bool) -> (r: Result<(), USBMakerError>)
    ensures
        r is Err <==> (!assume_yes && !confirmed),
        r matches Err(e) ==> e == USBMakerError::CanceledByUser,
{
    if !assume_yes && !confirmed {
        Err(USBMakerError::CanceledByUser)
    } else {
        Ok(())
    }
}

/// The steps of creating a partition table, in order. Each step is one call
/// into the partition-table library.
#[derive(Clone, Copy, Debug, PartialEq, Eq, Structural)]
pub enum TableStep {
    /// Open the device exclusively.
    DeviceOpen,
    /// Initialize a fresh in-memory table of the requested type.
    DiskOpen,
    /// Create the partition over the planned sectors.
    PartitionCreate,
    /// Obtain the geometric constraint the partition is added under.
    ConstraintGet,
    /// Add the partition to the in-memory table.
    PartitionAdd,
    /// Commit the table to the device — the only step with on-disk effects.
    Commit,
}

impl TableStep {
    /// The step description under which this step's failure is reported.
    pub open spec fn spec_context(self) -> Seq<char> {
        match self {
            TableStep::DeviceOpen => "opening device for partitioning"@,
            TableStep::DiskOpen => "opening disk for partitioning"@,
            TableStep::PartitionCreate => "creating partition"@,
            TableStep::ConstraintGet => "generating constraint"@,
            TableStep::PartitionAdd => "adding partition"@,
            TableStep::Commit => "commiting partition table to disk"@,
        }
    }

    /// The step description under which this step's failure is reported.
    pub fn context(&self) -> (r: &'static str)
        ensures
            r@ == self.spec_context(),
    {
        match self {
            TableStep::DeviceOpen => "opening device for partitioning",
            TableStep::DiskOpen => "opening disk for partitioning",
            TableStep::PartitionCreate => "creating partition",
            TableStep::ConstraintGet => "generating constraint",
            TableStep::PartitionAdd => "adding partition",
            TableStep::Commit => "commiting partition table to disk",
        }
    }

    /// Whether this step's failure counts as an I/O failure (device, disk
    /// and commit) rather than a partitioning failure (partition creation,
    /// constraint, adding).
    pub open spec fn spec_is_io(self) -> bool {
        match self {
            TableStep::DeviceOpen => true,
            TableStep::DiskOpen => true,
            TableStep::Commit => true,
            _ => false,
        }
    }

    /// The error under which a failure of this step is reported, carrying
    /// the underlying error's text.
    pub fn error(&self, detail: String) -> (r: USBMakerError)
        ensures
            self.spec_is_io() ==> r is IoError,
            !self.spec_is_io() ==> r is PartitioningError,
            (r matches USBMakerError::IoError(d, c) ==> d == detail && c@ == self.spec_context()),
            (r matches USBMakerError::PartitioningError(d, c) ==> d == detail && c@
                == self.spec_context()),
    {
        let context: String = self.context().to_owned();
        match self {
            TableStep::DeviceOpen => USBMakerError::IoError(detail, context),
            TableStep::DiskOpen => USBMakerError::IoError(detail, context),
            TableStep::Commit => USBMakerError::IoError(detail, context),
            TableStep::PartitionCreate => USBMakerError::PartitioningError(detail, context),
            TableStep::ConstraintGet => USBMakerError::PartitioningError(detail, context),
            TableStep::PartitionAdd => USBMakerError::PartitioningError(detail, context),
        }
    }
}

/// Plans the single partition as the provisioner does: a geometry the device
/// cannot hold is reported as a partitioning failure of the
/// partition-creation step.
pub fn plan_partition(length: u64, sector_size: u64, table_type: DiskType) -> (r: Result<
    PartitionPlan,
    USBMakerError,
>)
    requires
        1 <= sector_size,
    ensures
        r is Ok <==> length > 2 * geometry::spec_alignment_unit(sector_size),
        r matches Ok(p) ==> p == geometry::spec_plan(length, sector_size, table_type),
        r matches Err(e) ==> (e matches USBMakerError::PartitioningError(d, c) && d@
            == "invalid geometry"@ && c@ == TableStep::PartitionCreate.spec_context()),
{
    match geometry::plan(length, sector_size, table_type) {
        Ok(p) => Ok(p),
        Err(_) => Err(TableStep::PartitionCreate.error("invalid geometry".to_owned())),
    }
}

/// The path handed back by a successful run: the created partition's device
/// path when one was created and the library reported its path, else the
/// device's own path.
pub fn return_path(device_path: String, partition_path: Option<String>) -> (r: String)
    ensures
        partition_path matches Some(p) ==> r@ == p@,
        partition_path is None ==> r@ == device_path@,
{
    match partition_path {
        Some(p) => p,
        None => device_path,
    }
}

} // verus!
