//! The four stage error kinds, how a later stage embeds an earlier stage's
//! error, and how any of them resolves to an exit code and a message.
//!
//! A system-level cause (an I/O failure) is held as the text that describes
//! it; a subprocess status is `Some(code)` when the process exited with a
//! code and `None` when a signal ended it.

use vstd::prelude::*;
use crate::decimal::{append_decimal, int_decimal};

verus! {

/// An error of one pipeline stage: it resolves to a process exit code and to
/// a one-line message.
pub trait USBMakerError {
    /// The exit code that this error resolves to.
    spec fn spec_error_code(&self) -> int;

    /// The message that this error renders to.
    spec fn spec_message(&self) -> Seq<char>;

    /// The process exit code for this error.
    fn error_code(&self) -> (r: i32)
        ensures
            r as int == self.spec_error_code(),
    ;

    /// The one-line diagnostic for this error.
    fn message(&self) -> (r: String)
        ensures
            r@ == self.spec_message(),
    ;
}

/// Failures of the formatting stage.
#[derive(Debug)]
pub enum FormatError {
    CanceledByUser,
    CommandExecError(String),
    CommandFailed(Option<i32>),
    PartitioningError(PartitioningError),
    UnknownFilesystemType(String),
    WipefsExecError(String),
    WipefsFailed(Option<i32>),
}

/// Failures of the image-writing stage.
#[derive(Debug)]
pub enum IsoError {
    CanceledByUser,
    CopyError(String),
    FormatError(FormatError),
    MountError(MountError),
    PartitioningError(PartitioningError),
}

/// Failures of the mounting stage.
#[derive(Debug)]
pub enum MountError {
    CommandExecError(String),
    CommandFailed(Option<i32>),
    TempdirCreationError(String),
}

/// Failures of the partitioning stage.
#[derive(Debug)]
pub enum PartitioningError {
    CanceledByUser,
    CommitError(String),
    ConstraintError,
    DeviceOpenError(String),
    DiskOpenError(String),
    PartitionAddError(String),
    PartitionCreateError(String),
    UnknownTableType(String),
}

/// The sentence of every cancellation, whatever the stage.
pub open spec fn canceled_text() -> Seq<char> {
    "The operation was canceled by the user"@
}

/// The sentence for a subprocess status: `exited` and the code when it
/// exited, `signaled` when a signal ended it.
pub open spec fn status_text(exited: Seq<char>, signaled: Seq<char>, status: Option<i32>) -> Seq<char> {
    match status {
        Some(code) => exited + int_decimal(code as int),
        None => signaled,
    }
}

impl PartitioningError {
    /// The exit code: a leaf cause's fixed code, or that of the embedded error.
    pub open spec fn exit_code(self) -> int {
        match self {
            PartitioningError::CanceledByUser => 1,
            PartitioningError::CommitError(_) => 8,
            PartitioningError::ConstraintError => 9,
            PartitioningError::DeviceOpenError(_) => 10,
            PartitioningError::DiskOpenError(_) => 11,
            PartitioningError::PartitionAddError(_) => 12,
            PartitioningError::PartitionCreateError(_) => 13,
            PartitioningError::UnknownTableType(_) => 14,
        }
    }

    /// The message: a leaf cause's template, or that of the embedded error.
    pub open spec fn rendered(self) -> Seq<char> {
        match self {
            PartitioningError::CanceledByUser => canceled_text(),
            PartitioningError::CommitError(e) => "Failed to commit changes to disk: "@ + e@,
            PartitioningError::ConstraintError => "Failed to get the constraint"@,
            PartitioningError::DeviceOpenError(e) => "Failed open the target device: "@ + e@,
            PartitioningError::DiskOpenError(e) => "Failed open the partition table: "@ + e@,
            PartitioningError::PartitionAddError(e) =>
                "Failed to add partition to partition table: "@ + e@,
            PartitioningError::PartitionCreateError(e) =>
                "Failed create partition in memory: "@ + e@,
            PartitioningError::UnknownTableType(s) => "Unknown partition table type: "@ + s@,
        }
    }
}

impl FormatError {
    /// The exit code: a leaf cause's fixed code, or that of the embedded error.
    pub open spec fn exit_code(self) -> int {
        match self {
            FormatError::CanceledByUser => 1,
            FormatError::CommandExecError(_) => 15,
            FormatError::CommandFailed(_) => 16,
            FormatError::PartitioningError(e) => e.exit_code(),
            FormatError::UnknownFilesystemType(_) => 17,
            FormatError::WipefsExecError(_) => 18,
            FormatError::WipefsFailed(_) => 19,
        }
    }

    /// The message: a leaf cause's template, or that of the embedded error.
    pub open spec fn rendered(self) -> Seq<char> {
        match self {
            FormatError::CanceledByUser => canceled_text(),
            FormatError::CommandExecError(e) => "Failed to execute command: "@ + e@,
            FormatError::CommandFailed(status) => status_text(
                "Command exited with code: "@,
                "Command terminated by signal"@,
                status,
            ),
            FormatError::PartitioningError(e) => e.rendered(),
            FormatError::UnknownFilesystemType(s) => "Unknown filesystem type: "@ + s@,
            FormatError::WipefsExecError(e) => "Failed to execute wipefs: "@ + e@,
            FormatError::WipefsFailed(status) => status_text(
                "Wipefs exited with code: "@,
                "Wipefs terminated by signal"@,
                status,
            ),
        }
    }

    /// The partitioning error that this one embeds, if it embeds one.
    pub open spec fn partitioning_cause(self) -> Option<PartitioningError> {
        match self {
            FormatError::PartitioningError(e) => Some(e),
            _ => None,
        }
    }

    /// Takes out the embedded partitioning error, if there is one.
    pub fn into_partitioning(self) -> (r: Option<PartitioningError>)
        ensures
            r == self.partitioning_cause(),
    {
        match self {
            FormatError::PartitioningError(e) => Some(e),
            _ => None,
        }
    }
}

impl MountError {
    /// The exit code: a leaf cause's fixed code, or that of the embedded error.
    pub open spec fn exit_code(self) -> int {
        match self {
            MountError::CommandExecError(_) => 1,
            MountError::CommandFailed(_) => 1,
            MountError::TempdirCreationError(_) => 17,
        }
    }

    /// The message: a leaf cause's template, or that of the embedded error.
    pub open spec fn rendered(self) -> Seq<char> {
        match self {
            MountError::CommandExecError(e) => "Failed to execute command: "@ + e@,
            MountError::CommandFailed(status) => status_text(
                "Mount command exited with code: "@,
                "Mount command terminated by signal"@,
                status,
            ),
            MountError::TempdirCreationError(e) => "Failed to create temporary directory: "@ + e@,
        }
    }
}

impl IsoError {
    /// The exit code: a leaf cause's fixed code, or that of the embedded error.
    pub open spec fn exit_code(self) -> int {
        match self {
            IsoError::CanceledByUser => 1,
            IsoError::CopyError(_) => 1,
            IsoError::FormatError(e) => e.exit_code(),
            IsoError::MountError(e) => e.exit_code(),
            IsoError::PartitioningError(e) => e.exit_code(),
        }
    }

    /// The message: a leaf cause's template, or that of the embedded error.
    pub open spec fn rendered(self) -> Seq<char> {
        match self {
            IsoError::CanceledByUser => canceled_text(),
            IsoError::CopyError(e) => "Failed to copy files: "@ + e@,
            IsoError::FormatError(e) => e.rendered(),
            IsoError::MountError(e) => e.rendered(),
            IsoError::PartitioningError(e) => e.rendered(),
        }
    }

    /// The formatting error that this one embeds, if it embeds one.
    pub open spec fn format_cause(self) -> Option<FormatError> {
        match self {
            IsoError::FormatError(e) => Some(e),
            _ => None,
        }
    }

    /// The mounting error that this one embeds, if it embeds one.
    pub open spec fn mount_cause(self) -> Option<MountError> {
        match self {
            IsoError::MountError(e) => Some(e),
            _ => None,
        }
    }

    /// The partitioning error that this one embeds directly, if it embeds one.
    pub open spec fn partitioning_cause(self) -> Option<PartitioningError> {
        match self {
            IsoError::PartitioningError(e) => Some(e),
            _ => None,
        }
    }

    /// Takes out the embedded formatting error, if there is one.
    pub fn into_format(self) -> (r: Option<FormatError>)
        ensures
            r == self.format_cause(),
    {
        match self {
            IsoError::FormatError(e) => Some(e),
            _ => None,
        }
    }

    /// Takes out the embedded mounting error, if there is one.
    pub fn into_mount(self) -> (r: Option<MountError>)
        ensures
            r == self.mount_cause(),
    {
        match self {
            IsoError::MountError(e) => Some(e),
            _ => None,
        }
    }

    /// Takes out the directly embedded partitioning error, if there is one.
    pub fn into_partitioning(self) -> (r: Option<PartitioningError>)
        ensures
            r == self.partitioning_cause(),
    {
        match self {
            IsoError::PartitioningError(e) => Some(e),
            _ => None,
        }
    }
}

/// A new string holding `prefix` followed by `detail`.
fn joined(prefix: &str, detail: &str) -> (r: String)
    ensures
        r@ == prefix@ + detail@,
{
    let mut s = String::from_str(prefix);
    s.append(detail);
    s
}

/// The sentence for a subprocess status.
fn status_message(exited: &str, signaled: &str, status: Option<i32>) -> (r: String)
    ensures
        r@ == status_text(exited@, signaled@, status),
{
    match status {
        Some(code) => {
            let mut s = String::from_str(exited);
            append_decimal(&mut s, code);
            s
        },
        None => String::from_str(signaled),
    }
}

impl USBMakerError for PartitioningError {
    open spec fn spec_error_code(&self) -> int {
        self.exit_code()
    }

    open spec fn spec_message(&self) -> Seq<char> {
        self.rendered()
    }

    fn error_code(&self) -> (r: i32) {
        match self {
            PartitioningError::CanceledByUser => 1,
            PartitioningError::CommitError(_) => 8,
            PartitioningError::ConstraintError => 9,
            PartitioningError::DeviceOpenError(_) => 10,
            PartitioningError::DiskOpenError(_) => 11,
            PartitioningError::PartitionAddError(_) => 12,
            PartitioningError::PartitionCreateError(_) => 13,
            PartitioningError::UnknownTableType(_) => 14,
        }
    }

    fn message(&self) -> (r: String) {
        match self {
            PartitioningError::CanceledByUser => String::from_str(
                "The operation was canceled by the user",
            ),
            PartitioningError::CommitError(e) => joined(
                "Failed to commit changes to disk: ",
                e.as_str(),
            ),
            PartitioningError::ConstraintError => String::from_str("Failed to get the constraint"),
            PartitioningError::DeviceOpenError(e) => joined(
                "Failed open the target device: ",
                e.as_str(),
            ),
            PartitioningError::DiskOpenError(e) => joined(
                "Failed open the partition table: ",
                e.as_str(),
            ),
            PartitioningError::PartitionAddError(e) => joined(
                "Failed to add partition to partition table: ",
                e.as_str(),
            ),
            PartitioningError::PartitionCreateError(e) => joined(
                "Failed create partition in memory: ",
                e.as_str(),
            ),
            PartitioningError::UnknownTableType(s) => joined(
                "Unknown partition table type: ",
                s.as_str(),
            ),
        }
    }
}

impl USBMakerError for FormatError {
    open spec fn spec_error_code(&self) -> int {
        self.exit_code()
    }

    open spec fn spec_message(&self) -> Seq<char> {
        self.rendered()
    }

    fn error_code(&self) -> (r: i32) {
        match self {
            FormatError::CanceledByUser => 1,
            FormatError::CommandExecError(_) => 15,
            FormatError::CommandFailed(_) => 16,
            FormatError::PartitioningError(e) => e.error_code(),
            FormatError::UnknownFilesystemType(_) => 17,
            FormatError::WipefsExecError(_) => 18,
            FormatError::WipefsFailed(_) => 19,
        }
    }

    fn message(&self) -> (r: String) {
        match self {
            FormatError::CanceledByUser => String::from_str(
                "The operation was canceled by the user",
            ),
            FormatError::CommandExecError(e) => joined("Failed to execute command: ", e.as_str()),
            FormatError::CommandFailed(status) => status_message(
                "Command exited with code: ",
                "Command terminated by signal",
                *status,
            ),
            FormatError::PartitioningError(e) => e.message(),
            FormatError::UnknownFilesystemType(s) => joined(
                "Unknown filesystem type: ",
                s.as_str(),
            ),
            FormatError::WipefsExecError(e) => joined("Failed to execute wipefs: ", e.as_str()),
            FormatError::WipefsFailed(status) => status_message(
                "Wipefs exited with code: ",
                "Wipefs terminated by signal",
                *status,
            ),
        }
    }
}

impl USBMakerError for MountError {
    open spec fn spec_error_code(&self) -> int {
        self.exit_code()
    }

    open spec fn spec_message(&self) -> Seq<char> {
        self.rendered()
    }

    fn error_code(&self) -> (r: i32) {
        match self {
            MountError::CommandExecError(_) => 1,
            MountError::CommandFailed(_) => 1,
            MountError::TempdirCreationError(_) => 17,
        }
    }

    fn message(&self) -> (r: String) {
        match self {
            MountError::CommandExecError(e) => joined("Failed to execute command: ", e.as_str()),
            MountError::CommandFailed(status) => status_message(
                "Mount command exited with code: ",
                "Mount command terminated by signal",
                *status,
            ),
            MountError::TempdirCreationError(e) => joined(
                "Failed to create temporary directory: ",
                e.as_str(),
            ),
        }
    }
}

impl USBMakerError for IsoError {
    open spec fn spec_error_code(&self) -> int {
        self.exit_code()
    }

    open spec fn spec_message(&self) -> Seq<char> {
        self.rendered()
    }

    fn error_code(&self) -> (r: i32) {
        match self {
            IsoError::CanceledByUser => 1,
            // No code of its own has been set aside for a failed copy yet.
            IsoError::CopyError(_) => 1,
            IsoError::FormatError(e) => e.error_code(),
            IsoError::MountError(e) => e.error_code(),
            IsoError::PartitioningError(e) => e.error_code(),
        }
    }

    fn message(&self) -> (r: String) {
        match self {
            IsoError::CanceledByUser => String::from_str("The operation was canceled by the user"),
            IsoError::CopyError(e) => joined("Failed to copy files: ", e.as_str()),
            IsoError::FormatError(e) => e.message(),
            IsoError::MountError(e) => e.message(),
            IsoError::PartitioningError(e) => e.message(),
        }
    }
}

impl From<PartitioningError> for FormatError {
    fn from(e: PartitioningError) -> (r: FormatError) {
        FormatError::PartitioningError(e)
    }
}

impl vstd::std_specs::convert::FromSpecImpl<PartitioningError> for FormatError {
    open spec fn obeys_from_spec() -> bool {
        true
    }

    open spec fn from_spec(e: PartitioningError) -> FormatError {
        FormatError::PartitioningError(e)
    }
}

impl From<FormatError> for IsoError {
    fn from(e: FormatError) -> (r: IsoError) {
        IsoError::FormatError(e)
    }
}

impl vstd::std_specs::convert::FromSpecImpl<FormatError> for IsoError {
    open spec fn obeys_from_spec() -> bool {
        true
    }

    open spec fn from_spec(e: FormatError) -> IsoError {
        IsoError::FormatError(e)
    }
}

impl From<MountError> for IsoError {
    fn from(e: MountError) -> (r: IsoError) {
        IsoError::MountError(e)
    }
}

impl vstd::std_specs::convert::FromSpecImpl<MountError> for IsoError {
    open spec fn obeys_from_spec() -> bool {
        true
    }

    open spec fn from_spec(e: MountError) -> IsoError {
        IsoError::MountError(e)
    }
}

impl From<PartitioningError> for IsoError {
    fn from(e: PartitioningError) -> (r: IsoError) {
        IsoError::PartitioningError(e)
    }
}

impl vstd::std_specs::convert::FromSpecImpl<PartitioningError> for IsoError {
    open spec fn obeys_from_spec() -> bool {
        true
    }

    open spec fn from_spec(e: PartitioningError) -> IsoError {
        IsoError::PartitioningError(e)
    }
}

} // verus!
