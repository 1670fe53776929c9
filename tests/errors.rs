use usbmaker::{FormatError, IsoError, MountError, PartitioningError, USBMakerError};

fn s(text: &str) -> String {
    text.to_string()
}

#[test]
fn partitioning_leaf_codes() {
    assert_eq!(PartitioningError::CanceledByUser.error_code(), 1);
    assert_eq!(PartitioningError::CommitError(s("x")).error_code(), 8);
    assert_eq!(PartitioningError::ConstraintError.error_code(), 9);
    assert_eq!(PartitioningError::DeviceOpenError(s("x")).error_code(), 10);
    assert_eq!(PartitioningError::DiskOpenError(s("x")).error_code(), 11);
    assert_eq!(PartitioningError::PartitionAddError(s("x")).error_code(), 12);
    assert_eq!(PartitioningError::PartitionCreateError(s("x")).error_code(), 13);
    assert_eq!(PartitioningError::UnknownTableType(s("gpt2")).error_code(), 14);
}

#[test]
fn leaf_codes_ignore_payload() {
    assert_eq!(PartitioningError::CommitError(s("")).error_code(), 8);
    assert_eq!(PartitioningError::CommitError(s("disk gone")).error_code(), 8);
    assert_eq!(FormatError::CommandFailed(None).error_code(), 16);
    assert_eq!(FormatError::CommandFailed(Some(255)).error_code(), 16);
    assert_eq!(MountError::CommandFailed(Some(32)).error_code(), 1);
}

#[test]
fn format_leaf_codes() {
    assert_eq!(FormatError::CanceledByUser.error_code(), 1);
    assert_eq!(FormatError::CommandExecError(s("x")).error_code(), 15);
    assert_eq!(FormatError::CommandFailed(Some(2)).error_code(), 16);
    assert_eq!(FormatError::UnknownFilesystemType(s("zfs")).error_code(), 17);
    assert_eq!(FormatError::WipefsExecError(s("x")).error_code(), 18);
    assert_eq!(FormatError::WipefsFailed(None).error_code(), 19);
}

#[test]
fn mount_leaf_codes() {
    assert_eq!(MountError::CommandExecError(s("x")).error_code(), 1);
    assert_eq!(MountError::CommandFailed(None).error_code(), 1);
    assert_eq!(MountError::TempdirCreationError(s("x")).error_code(), 17);
}

#[test]
fn iso_leaf_codes() {
    assert_eq!(IsoError::CanceledByUser.error_code(), 1);
    assert_eq!(IsoError::CopyError(s("x")).error_code(), 1);
}

#[test]
fn exit_code_delegates_through_chain() {
    let f = FormatError::PartitioningError(PartitioningError::DiskOpenError(s("busy")));
    assert_eq!(f.error_code(), 11);
    let i = IsoError::FormatError(f);
    assert_eq!(i.error_code(), 11);
    assert_eq!(IsoError::MountError(MountError::TempdirCreationError(s("x"))).error_code(), 17);
    assert_eq!(IsoError::PartitioningError(PartitioningError::ConstraintError).error_code(), 9);
    assert_eq!(IsoError::FormatError(FormatError::WipefsFailed(Some(1))).error_code(), 19);
}

#[test]
fn message_is_transparent_through_chain() {
    let inner = PartitioningError::PartitionAddError(s("no space"));
    let expected = inner.message();
    assert_eq!(expected, "Failed to add partition to partition table: no space");
    let f = FormatError::PartitioningError(inner);
    assert_eq!(f.message(), expected);
    let i = IsoError::FormatError(f);
    assert_eq!(i.message(), expected);
    let m = MountError::CommandExecError(s("not found"));
    let m_text = m.message();
    assert_eq!(IsoError::MountError(m).message(), m_text);
    let p = PartitioningError::ConstraintError;
    let p_text = p.message();
    assert_eq!(IsoError::PartitioningError(p).message(), p_text);
}

#[test]
fn cancellation_in_every_stage() {
    let text = "The operation was canceled by the user";
    assert_eq!(PartitioningError::CanceledByUser.error_code(), 1);
    assert_eq!(PartitioningError::CanceledByUser.message(), text);
    assert_eq!(FormatError::CanceledByUser.error_code(), 1);
    assert_eq!(FormatError::CanceledByUser.message(), text);
    assert_eq!(IsoError::CanceledByUser.error_code(), 1);
    assert_eq!(IsoError::CanceledByUser.message(), text);
    let nested = IsoError::FormatError(FormatError::PartitioningError(
        PartitioningError::CanceledByUser,
    ));
    assert_eq!(nested.error_code(), 1);
    assert_eq!(nested.message(), text);
}

#[test]
fn command_status_rendering() {
    assert_eq!(FormatError::CommandFailed(Some(1)).message(), "Command exited with code: 1");
    assert_eq!(FormatError::CommandFailed(None).message(), "Command terminated by signal");
    assert_eq!(FormatError::WipefsFailed(Some(42)).message(), "Wipefs exited with code: 42");
    assert_eq!(FormatError::WipefsFailed(None).message(), "Wipefs terminated by signal");
    assert_eq!(
        MountError::CommandFailed(Some(32)).message(),
        "Mount command exited with code: 32"
    );
    assert_eq!(
        MountError::CommandFailed(None).message(),
        "Mount command terminated by signal"
    );
    assert_ne!(
        FormatError::CommandFailed(Some(0)).message(),
        FormatError::CommandFailed(None).message()
    );
}

#[test]
fn command_status_rendering_extremes() {
    assert_eq!(FormatError::CommandFailed(Some(0)).message(), "Command exited with code: 0");
    assert_eq!(FormatError::CommandFailed(Some(-7)).message(), "Command exited with code: -7");
    assert_eq!(
        FormatError::CommandFailed(Some(i32::MAX)).message(),
        "Command exited with code: 2147483647"
    );
    assert_eq!(
        FormatError::WipefsFailed(Some(i32::MIN)).message(),
        "Wipefs exited with code: -2147483648"
    );
    assert_eq!(
        MountError::CommandFailed(Some(100)).message(),
        "Mount command exited with code: 100"
    );
}

#[test]
fn nested_unknown_table_type_scenario() {
    let e = IsoError::FormatError(FormatError::PartitioningError(
        PartitioningError::UnknownTableType(s("gpt2")),
    ));
    assert_eq!(e.error_code(), 14);
    assert_eq!(e.message(), "Unknown partition table type: gpt2");
}

#[test]
fn tempdir_creation_scenario() {
    let e = MountError::TempdirCreationError(s("permission denied"));
    assert_eq!(e.error_code(), 17);
    assert_eq!(e.message(), "Failed to create temporary directory: permission denied");
}

#[test]
fn leaf_message_templates() {
    assert_eq!(
        PartitioningError::CommitError(s("e")).message(),
        "Failed to commit changes to disk: e"
    );
    assert_eq!(PartitioningError::ConstraintError.message(), "Failed to get the constraint");
    assert_eq!(
        PartitioningError::DeviceOpenError(s("e")).message(),
        "Failed open the target device: e"
    );
    assert_eq!(
        PartitioningError::DiskOpenError(s("e")).message(),
        "Failed open the partition table: e"
    );
    assert_eq!(
        PartitioningError::PartitionCreateError(s("e")).message(),
        "Failed create partition in memory: e"
    );
    assert_eq!(
        FormatError::CommandExecError(s("e")).message(),
        "Failed to execute command: e"
    );
    assert_eq!(
        FormatError::UnknownFilesystemType(s("zfs")).message(),
        "Unknown filesystem type: zfs"
    );
    assert_eq!(FormatError::WipefsExecError(s("e")).message(), "Failed to execute wipefs: e");
    assert_eq!(MountError::CommandExecError(s("e")).message(), "Failed to execute command: e");
    assert_eq!(IsoError::CopyError(s("e")).message(), "Failed to copy files: e");
}

#[test]
fn embed_then_unwrap_round_trip() {
    let p = PartitioningError::UnknownTableType(s("gpt2"));
    let (code, text) = (p.error_code(), p.message());
    let back = FormatError::from(p).into_partitioning().unwrap();
    assert_eq!(back.error_code(), code);
    assert_eq!(back.message(), text);

    let f = FormatError::UnknownFilesystemType(s("zfs"));
    let (code, text) = (f.error_code(), f.message());
    let back = IsoError::from(f).into_format().unwrap();
    assert_eq!(back.error_code(), code);
    assert_eq!(back.message(), text);

    let m = MountError::CommandFailed(Some(3));
    let (code, text) = (m.error_code(), m.message());
    let back = IsoError::from(m).into_mount().unwrap();
    assert_eq!(back.error_code(), code);
    assert_eq!(back.message(), text);

    let p = PartitioningError::DeviceOpenError(s("busy"));
    let (code, text) = (p.error_code(), p.message());
    let back = IsoError::from(p).into_partitioning().unwrap();
    assert_eq!(back.error_code(), code);
    assert_eq!(back.message(), text);
}

#[test]
fn unwrap_of_a_leaf_gives_nothing() {
    assert!(FormatError::CanceledByUser.into_partitioning().is_none());
    assert!(IsoError::CopyError(s("e")).into_format().is_none());
    assert!(IsoError::CanceledByUser.into_mount().is_none());
    assert!(IsoError::MountError(MountError::CommandFailed(None)).into_partitioning().is_none());
}
