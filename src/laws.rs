//! Laws that hold of every error value: the fixed codes of the leaf causes,
//! the transparency of embedding, cancellation, subprocess statuses, and
//! embedding followed by unwrapping.

use vstd::prelude::*;
use vstd::std_specs::convert::FromSpec;
use crate::decimal::int_decimal;
use crate::error::{canceled_text, FormatError, IsoError, MountError, PartitioningError};

verus! {

/// Every leaf cause of the partitioning stage has its fixed exit code,
/// whatever its payload.
pub proof fn lemma_partitioning_leaf_codes(cause: String, name: String)
    ensures
        PartitioningError::CanceledByUser.exit_code() == 1,
        PartitioningError::CommitError(cause).exit_code() == 8,
        PartitioningError::ConstraintError.exit_code() == 9,
        PartitioningError::DeviceOpenError(cause).exit_code() == 10,
        PartitioningError::DiskOpenError(cause).exit_code() == 11,
        PartitioningError::PartitionAddError(cause).exit_code() == 12,
        PartitioningError::PartitionCreateError(cause).exit_code() == 13,
        PartitioningError::UnknownTableType(name).exit_code() == 14,
{
}

/// Every leaf cause of the formatting stage has its fixed exit code,
/// whatever its payload.
pub proof fn lemma_format_leaf_codes(cause: String, name: String, status: Option<i32>)
    ensures
        FormatError::CanceledByUser.exit_code() == 1,
        FormatError::CommandExecError(cause).exit_code() == 15,
        FormatError::CommandFailed(status).exit_code() == 16,
        FormatError::UnknownFilesystemType(name).exit_code() == 17,
        FormatError::WipefsExecError(cause).exit_code() == 18,
        FormatError::WipefsFailed(status).exit_code() == 19,
{
}

/// Every leaf cause of the mounting stage has its fixed exit code, whatever
/// its payload.
pub proof fn lemma_mount_leaf_codes(cause: String, status: Option<i32>)
    ensures
        MountError::CommandExecError(cause).exit_code() == 1,
        MountError::CommandFailed(status).exit_code() == 1,
        MountError::TempdirCreationError(cause).exit_code() == 17,
{
}

/// Every leaf cause of the image-writing stage has its fixed exit code,
/// whatever its payload.
pub proof fn lemma_iso_leaf_codes(cause: String)
    ensures
        IsoError::CanceledByUser.exit_code() == 1,
        IsoError::CopyError(cause).exit_code() == 1,
{
}

/// An embedding error resolves to the exit code of the error it embeds, also
/// through the whole chain from image writing down to partitioning.
pub proof fn lemma_exit_code_delegates(p: PartitioningError, f: FormatError, m: MountError)
    ensures
        FormatError::PartitioningError(p).exit_code() == p.exit_code(),
        IsoError::FormatError(f).exit_code() == f.exit_code(),
        IsoError::MountError(m).exit_code() == m.exit_code(),
        IsoError::PartitioningError(p).exit_code() == p.exit_code(),
        IsoError::FormatError(FormatError::PartitioningError(p)).exit_code() == p.exit_code(),
{
}

/// An embedding error renders exactly as the error it embeds, with nothing
/// added, also through the whole chain from image writing down to
/// partitioning.
pub proof fn lemma_message_transparent(p: PartitioningError, f: FormatError, m: MountError)
    ensures
        FormatError::PartitioningError(p).rendered() == p.rendered(),
        IsoError::FormatError(f).rendered() == f.rendered(),
        IsoError::MountError(m).rendered() == m.rendered(),
        IsoError::PartitioningError(p).rendered() == p.rendered(),
        IsoError::FormatError(FormatError::PartitioningError(p)).rendered() == p.rendered(),
{
}

/// Cancellation, in every stage that has it, resolves to exit code 1 and to
/// one fixed sentence.
pub proof fn lemma_cancellation()
    ensures
        canceled_text() == "The operation was canceled by the user"@,
        PartitioningError::CanceledByUser.exit_code() == 1,
        FormatError::CanceledByUser.exit_code() == 1,
        IsoError::CanceledByUser.exit_code() == 1,
        PartitioningError::CanceledByUser.rendered() == canceled_text(),
        FormatError::CanceledByUser.rendered() == canceled_text(),
        IsoError::CanceledByUser.rendered() == canceled_text(),
{
}

/// A failed command renders the code it exited with, and a command that a
/// signal ended renders a sentence of its own, which differs from every
/// rendering of an exit code.
pub proof fn lemma_status_messages(code: i32)
    ensures
        FormatError::CommandFailed(Some(code)).rendered()
            == "Command exited with code: "@ + int_decimal(code as int),
        FormatError::CommandFailed(None).rendered() == "Command terminated by signal"@,
        FormatError::CommandFailed(Some(code)).rendered()
            != FormatError::CommandFailed(None).rendered(),
        FormatError::WipefsFailed(Some(code)).rendered()
            == "Wipefs exited with code: "@ + int_decimal(code as int),
        FormatError::WipefsFailed(None).rendered() == "Wipefs terminated by signal"@,
        FormatError::WipefsFailed(Some(code)).rendered()
            != FormatError::WipefsFailed(None).rendered(),
        MountError::CommandFailed(Some(code)).rendered()
            == "Mount command exited with code: "@ + int_decimal(code as int),
        MountError::CommandFailed(None).rendered() == "Mount command terminated by signal"@,
        MountError::CommandFailed(Some(code)).rendered()
            != MountError::CommandFailed(None).rendered(),
{
    reveal_strlit("Command exited with code: ");
    reveal_strlit("Command terminated by signal");
    reveal_strlit("Wipefs exited with code: ");
    reveal_strlit("Wipefs terminated by signal");
    reveal_strlit("Mount command exited with code: ");
    reveal_strlit("Mount command terminated by signal");
    let d = int_decimal(code as int);
    assert(("Command exited with code: "@ + d)[8] != "Command terminated by signal"@[8]);
    assert(("Wipefs exited with code: "@ + d)[7] != "Wipefs terminated by signal"@[7]);
    assert(("Mount command exited with code: "@ + d)[14]
        != "Mount command terminated by signal"@[14]);
}

/// Embedding an earlier stage's error and then unwrapping it gives back the
/// same error, with the same exit code and message as the embedding.
pub proof fn lemma_embed_then_unwrap(p: PartitioningError, f: FormatError, m: MountError)
    ensures
        <FormatError as FromSpec<PartitioningError>>::from_spec(p).partitioning_cause() == Some(p),
        <IsoError as FromSpec<FormatError>>::from_spec(f).format_cause() == Some(f),
        <IsoError as FromSpec<MountError>>::from_spec(m).mount_cause() == Some(m),
        <IsoError as FromSpec<PartitioningError>>::from_spec(p).partitioning_cause() == Some(p),
        <FormatError as FromSpec<PartitioningError>>::from_spec(p).exit_code() == p.exit_code(),
        <FormatError as FromSpec<PartitioningError>>::from_spec(p).rendered() == p.rendered(),
        <IsoError as FromSpec<FormatError>>::from_spec(f).exit_code() == f.exit_code(),
        <IsoError as FromSpec<FormatError>>::from_spec(f).rendered() == f.rendered(),
        <IsoError as FromSpec<MountError>>::from_spec(m).exit_code() == m.exit_code(),
        <IsoError as FromSpec<MountError>>::from_spec(m).rendered() == m.rendered(),
        <IsoError as FromSpec<PartitioningError>>::from_spec(p).exit_code() == p.exit_code(),
        <IsoError as FromSpec<PartitioningError>>::from_spec(p).rendered() == p.rendered(),
{
}

} // verus!
