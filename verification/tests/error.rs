use bootc_install::error::{ErrorKind, InstallError};
use bootc_install::text::i32_to_decimal;

fn s(text: &str) -> String {
    text.to_string()
}

#[test]
fn every_error_has_its_kind() {
    let cases = vec![
        (InstallError::EmptyMountSpec, ErrorKind::Format),
        (InstallError::MissingMountTarget { spec: s("x") }, ErrorKind::Format),
        (InstallError::InvalidSize { text: s("x") }, ErrorKind::Format),
        (InstallError::UnexpectedSkopeoOutput, ErrorKind::Format),
        (InstallError::MissingSkopeoMinor, ErrorKind::Format),
        (InstallError::InvalidSkopeoNumber { text: s("x") }, ErrorKind::Format),
        (InstallError::MissingDeployment, ErrorKind::Format),
        (InstallError::BootNotByUuid, ErrorKind::Configuration),
        (InstallError::SelinuxUnsupportedByHost, ErrorKind::Configuration),
        (InstallError::Tpm2LuksNotImplemented, ErrorKind::Configuration),
        (InstallError::UnsupportedArchitecture { arch: s("x") }, ErrorKind::Configuration),
        (InstallError::UnknownTransport { name: s("x") }, ErrorKind::Configuration),
        (InstallError::DeviceNotUnderDev { device: s("x") }, ErrorKind::Configuration),
        (InstallError::EmptyDevicePath, ErrorKind::Configuration),
        (InstallError::EmptyRootPath, ErrorKind::Configuration),
        (InstallError::HostInitNotVisible, ErrorKind::Precondition),
        (InstallError::UnsupportedEngine { engine: s("x") }, ErrorKind::Precondition),
        (InstallError::EmptyImageId, ErrorKind::Precondition),
        (InstallError::ExistingPartitions { device: s("x") }, ErrorKind::Safety),
        (InstallError::NonEmptyRoot { entry: s("x") }, ErrorKind::Safety),
        (InstallError::NonEmptyBoot { entry: s("x") }, ErrorKind::Safety),
        (InstallError::MultipleParents { first: s("x"), second: s("y") }, ErrorKind::Topology),
        (InstallError::BootNotSeparate, ErrorKind::Topology),
        (InstallError::MissingBootDirectory, ErrorKind::Topology),
        (InstallError::MissingRootUuid, ErrorKind::Topology),
        (InstallError::MissingBootUuid, ErrorKind::Topology),
        (InstallError::ToolFailed { purpose: s("x"), status: 1 }, ErrorKind::Tool),
        (
            InstallError::FinalizationFailed { filesystem: s("x"), purpose: s("y"), status: 1 },
            ErrorKind::Finalization,
        ),
    ];
    for (error, kind) in cases {
        assert_eq!(error.kind(), kind, "{error:?}");
        assert!(!error.message().is_empty());
    }
}

#[test]
fn messages_name_what_went_wrong() {
    assert_eq!(InstallError::EmptyMountSpec.message(), "Invalid empty mount specification");
    assert_eq!(
        InstallError::MissingMountTarget { spec: s("/dev/vda3") }.message(),
        "Missing target in mount specification /dev/vda3"
    );
    assert_eq!(
        InstallError::BootNotByUuid.message(),
        "/boot is not specified via UUID= (this is currently required)"
    );
    assert_eq!(
        InstallError::ExistingPartitions { device: s("/dev/vda") }.message(),
        "Detected existing partitions on /dev/vda; use e.g. `wipefs` if you intend to overwrite"
    );
    assert_eq!(
        InstallError::MultipleParents { first: s("/dev/sda1"), second: s("/dev/sdb1") }.message(),
        "Found multiple parent devices /dev/sda1 and /dev/sdb1; not currently supported"
    );
    assert_eq!(
        InstallError::NonEmptyRoot { entry: s("etc") }.message(),
        "Non-empty root filesystem; found etc"
    );
    assert_eq!(
        InstallError::NonEmptyBoot { entry: s("grub2") }.message(),
        "Non-empty boot directory, found grub2"
    );
    assert_eq!(InstallError::UnknownTransport { name: s("ftp") }.message(), "Unknown transport 'ftp'");
    assert_eq!(
        InstallError::UnsupportedArchitecture { arch: s("s390x") }.message(),
        "Unsupported architecture: s390x"
    );
    assert_eq!(
        InstallError::HostInitNotVisible.message(),
        "This command must be run with --pid=host"
    );
    assert_eq!(
        InstallError::BootNotSeparate.message(),
        "/boot must currently be a separate mounted filesystem"
    );
    assert_eq!(
        InstallError::ToolFailed { purpose: s("Creating filesystem"), status: 1 }.message(),
        "Creating filesystem: command exited with status 1"
    );
    assert_eq!(
        InstallError::FinalizationFailed { filesystem: s("/mnt/boot"), purpose: s("Trimming boot"), status: -1 }
            .message(),
        "Finalizing /mnt/boot: Trimming boot: command exited with status -1"
    );
}

#[test]
fn signed_decimal_notation() {
    assert_eq!(i32_to_decimal(0), "0");
    assert_eq!(i32_to_decimal(42), "42");
    assert_eq!(i32_to_decimal(-1), "-1");
    assert_eq!(i32_to_decimal(i32::MAX), "2147483647");
    assert_eq!(i32_to_decimal(i32::MIN), "-2147483648");
}
