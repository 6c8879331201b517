//! The errors an installation can end with.

use vstd::prelude::*;
use vstd::string::StringExecFns;
use crate::text::{i32_to_decimal, signed_decimal};

verus! {

broadcast use vstd::string::group_string_axioms;

/// The broad classes of failure.
#[derive(Debug, Clone, Copy, PartialEq, Eq, Structural)]
pub enum ErrorKind {
    /// The environment is not privileged, not containerized, or cannot see
    /// the host's init system.
    Precondition,
    /// An option is missing or contradicts the state of the host.
    Configuration,
    /// Going on would silently destroy data.
    Safety,
    /// A mount specification or the output of a tool is malformed.
    Format,
    /// Device relationships are ambiguous or missing.
    Topology,
    /// An external command failed.
    Tool,
    /// A mounted filesystem could not be brought into its final state.
    Finalization,
}

/// Why an installation was refused or aborted.
#[derive(Debug)]
pub enum InstallError {
    /// The mount specification holds no field at all.
    EmptyMountSpec,
    /// The mount specification names a source but no target.
    MissingMountTarget { spec: String },
    /// The size is not a number of mebibytes, gibibytes or tebibytes that fits in 64 bits.
    InvalidSize { text: String },
    /// The version report of skopeo does not start as expected.
    UnexpectedSkopeoOutput,
    /// The version of skopeo has no minor number.
    MissingSkopeoMinor,
    /// A part of the version of skopeo is not a number.
    InvalidSkopeoNumber { text: String },
    /// The deployment engine reports no deployment after deploying.
    MissingDeployment,
    /// The source of `/boot` is not of the form `UUID=...`.
    BootNotByUuid,
    /// The target enables SELinux, the host kernel does not support it, and no override was given.
    SelinuxUnsupportedByHost,
    /// Binding the root filesystem to a TPM is not implemented.
    Tpm2LuksNotImplemented,
    /// No partition layout is known for this architecture.
    UnsupportedArchitecture { arch: String },
    /// The transport of the target image is not a known one.
    UnknownTransport { name: String },
    /// The target device is not given by a path under `/dev/`.
    DeviceNotUnderDev { device: String },
    /// The path of the backing device is empty.
    EmptyDevicePath,
    /// The path of the target root is empty.
    EmptyRootPath,
    /// The init system of the host is not visible as process 1.
    HostInitNotVisible,
    /// The process does not run under podman.
    UnsupportedEngine { engine: String },
    /// The container runtime reports no image id.
    EmptyImageId,
    /// The target device holds partitions and wiping was not asked for.
    ExistingPartitions { device: String },
    /// The target root directory holds an unexpected entry.
    NonEmptyRoot { entry: String },
    /// The `boot` directory of the target holds an unexpected entry.
    NonEmptyBoot { entry: String },
    /// A device has more than one parent device.
    MultipleParents { first: String, second: String },
    /// `/boot` lies on the same filesystem as the root.
    BootNotSeparate,
    /// The target root has no `boot` directory.
    MissingBootDirectory,
    /// The root filesystem reports no UUID.
    MissingRootUuid,
    /// The filesystem of `/boot` reports no UUID.
    MissingBootUuid,
    /// An external command ended with a status other than zero.
    ToolFailed { purpose: String, status: i32 },
    /// A command that finalizes a mounted filesystem failed.
    FinalizationFailed { filesystem: String, purpose: String, status: i32 },
}

/// The mathematical value of an [`InstallError`].
pub enum InstallErrorView {
    EmptyMountSpec,
    MissingMountTarget { spec: Seq<char> },
    InvalidSize { text: Seq<char> },
    UnexpectedSkopeoOutput,
    MissingSkopeoMinor,
    InvalidSkopeoNumber { text: Seq<char> },
    MissingDeployment,
    BootNotByUuid,
    SelinuxUnsupportedByHost,
    Tpm2LuksNotImplemented,
    UnsupportedArchitecture { arch: Seq<char> },
    UnknownTransport { name: Seq<char> },
    DeviceNotUnderDev { device: Seq<char> },
    EmptyDevicePath,
    EmptyRootPath,
    HostInitNotVisible,
    UnsupportedEngine { engine: Seq<char> },
    EmptyImageId,
    ExistingPartitions { device: Seq<char> },
    NonEmptyRoot { entry: Seq<char> },
    NonEmptyBoot { entry: Seq<char> },
    MultipleParents { first: Seq<char>, second: Seq<char> },
    BootNotSeparate,
    MissingBootDirectory,
    MissingRootUuid,
    MissingBootUuid,
    ToolFailed { purpose: Seq<char>, status: i32 },
    FinalizationFailed { filesystem: Seq<char>, purpose: Seq<char>, status: i32 },
}

impl View for InstallError {
    type V = InstallErrorView;

    open spec fn view(&self) -> InstallErrorView {
        match self {
            InstallError::EmptyMountSpec => InstallErrorView::EmptyMountSpec,
            InstallError::MissingMountTarget { spec } =>
                InstallErrorView::MissingMountTarget { spec: spec@ },
            InstallError::InvalidSize { text } => InstallErrorView::InvalidSize { text: text@ },
            InstallError::UnexpectedSkopeoOutput => InstallErrorView::UnexpectedSkopeoOutput,
            InstallError::MissingSkopeoMinor => InstallErrorView::MissingSkopeoMinor,
            InstallError::InvalidSkopeoNumber { text } =>
                InstallErrorView::InvalidSkopeoNumber { text: text@ },
            InstallError::MissingDeployment => InstallErrorView::MissingDeployment,
            InstallError::BootNotByUuid => InstallErrorView::BootNotByUuid,
            InstallError::SelinuxUnsupportedByHost => InstallErrorView::SelinuxUnsupportedByHost,
            InstallError::Tpm2LuksNotImplemented => InstallErrorView::Tpm2LuksNotImplemented,
            InstallError::UnsupportedArchitecture { arch } =>
                InstallErrorView::UnsupportedArchitecture { arch: arch@ },
            InstallError::UnknownTransport { name } =>
                InstallErrorView::UnknownTransport { name: name@ },
            InstallError::DeviceNotUnderDev { device } =>
                InstallErrorView::DeviceNotUnderDev { device: device@ },
            InstallError::EmptyDevicePath => InstallErrorView::EmptyDevicePath,
            InstallError::EmptyRootPath => InstallErrorView::EmptyRootPath,
            InstallError::HostInitNotVisible => InstallErrorView::HostInitNotVisible,
            InstallError::UnsupportedEngine { engine } =>
                InstallErrorView::UnsupportedEngine { engine: engine@ },
            InstallError::EmptyImageId => InstallErrorView::EmptyImageId,
            InstallError::ExistingPartitions { device } =>
                InstallErrorView::ExistingPartitions { device: device@ },
            InstallError::NonEmptyRoot { entry } =>
                InstallErrorView::NonEmptyRoot { entry: entry@ },
            InstallError::NonEmptyBoot { entry } =>
                InstallErrorView::NonEmptyBoot { entry: entry@ },
            InstallError::MultipleParents { first, second } =>
                InstallErrorView::MultipleParents { first: first@, second: second@ },
            InstallError::BootNotSeparate => InstallErrorView::BootNotSeparate,
            InstallError::MissingBootDirectory => InstallErrorView::MissingBootDirectory,
            InstallError::MissingRootUuid => InstallErrorView::MissingRootUuid,
            InstallError::MissingBootUuid => InstallErrorView::MissingBootUuid,
            InstallError::ToolFailed { purpose, status } =>
                InstallErrorView::ToolFailed { purpose: purpose@, status: *status },
            InstallError::FinalizationFailed { filesystem, purpose, status } => InstallErrorView::FinalizationFailed {
                filesystem: filesystem@,
                purpose: purpose@,
                status: *status,
            },
        }
    }
}

impl DeepView for InstallError {
    type V = InstallErrorView;

    open spec fn deep_view(&self) -> InstallErrorView {
        self@
    }
}

impl InstallErrorView {
    /// The class an error belongs to.
    pub open spec fn kind(self) -> ErrorKind {
        match self {
            InstallErrorView::EmptyMountSpec => ErrorKind::Format,
            InstallErrorView::MissingMountTarget { .. } => ErrorKind::Format,
            InstallErrorView::InvalidSize { .. } => ErrorKind::Format,
            InstallErrorView::UnexpectedSkopeoOutput => ErrorKind::Format,
            InstallErrorView::MissingSkopeoMinor => ErrorKind::Format,
            InstallErrorView::InvalidSkopeoNumber { .. } => ErrorKind::Format,
            InstallErrorView::MissingDeployment => ErrorKind::Format,
            InstallErrorView::BootNotByUuid => ErrorKind::Configuration,
            InstallErrorView::SelinuxUnsupportedByHost => ErrorKind::Configuration,
            InstallErrorView::Tpm2LuksNotImplemented => ErrorKind::Configuration,
            InstallErrorView::UnsupportedArchitecture { .. } => ErrorKind::Configuration,
            InstallErrorView::UnknownTransport { .. } => ErrorKind::Configuration,
            InstallErrorView::DeviceNotUnderDev { .. } => ErrorKind::Configuration,
            InstallErrorView::EmptyDevicePath => ErrorKind::Configuration,
            InstallErrorView::EmptyRootPath => ErrorKind::Configuration,
            InstallErrorView::HostInitNotVisible => ErrorKind::Precondition,
            InstallErrorView::UnsupportedEngine { .. } => ErrorKind::Precondition,
            InstallErrorView::EmptyImageId => ErrorKind::Precondition,
            InstallErrorView::ExistingPartitions { .. } => ErrorKind::Safety,
            InstallErrorView::NonEmptyRoot { .. } => ErrorKind::Safety,
            InstallErrorView::NonEmptyBoot { .. } => ErrorKind::Safety,
            InstallErrorView::MultipleParents { .. } => ErrorKind::Topology,
            InstallErrorView::BootNotSeparate => ErrorKind::Topology,
            InstallErrorView::MissingBootDirectory => ErrorKind::Topology,
            InstallErrorView::MissingRootUuid => ErrorKind::Topology,
            InstallErrorView::MissingBootUuid => ErrorKind::Topology,
            InstallErrorView::ToolFailed { .. } => ErrorKind::Tool,
            InstallErrorView::FinalizationFailed { .. } => ErrorKind::Finalization,
        }
    }

    /// A description of the error for the user.
    pub open spec fn message(self) -> Seq<char> {
        match self {
            InstallErrorView::EmptyMountSpec => "Invalid empty mount specification"@,
            InstallErrorView::MissingMountTarget { spec } =>
                "Missing target in mount specification "@ + spec,
            InstallErrorView::InvalidSize { text } => "Invalid size: "@ + text,
            InstallErrorView::UnexpectedSkopeoOutput => "Unexpected output from skopeo version"@,
            InstallErrorView::MissingSkopeoMinor => "Missing minor version"@,
            InstallErrorView::InvalidSkopeoNumber { text } =>
                "Invalid number in skopeo version: "@ + text,
            InstallErrorView::MissingDeployment => "Failed to find deployment"@,
            InstallErrorView::BootNotByUuid =>
                "/boot is not specified via UUID= (this is currently required)"@,
            InstallErrorView::SelinuxUnsupportedByHost =>
                "Host kernel does not have SELinux support, but target enables it by default"@,
            InstallErrorView::Tpm2LuksNotImplemented => "tpm2-luks is not implemented yet"@,
            InstallErrorView::UnsupportedArchitecture { arch } =>
                "Unsupported architecture: "@ + arch,
            InstallErrorView::UnknownTransport { name } => "Unknown transport '"@ + name + "'"@,
            InstallErrorView::DeviceNotUnderDev { device } =>
                "Absolute device path in /dev/ required: "@ + device,
            InstallErrorView::EmptyDevicePath => "The path of the backing device is empty"@,
            InstallErrorView::EmptyRootPath => "The path of the target root is empty"@,
            InstallErrorView::HostInitNotVisible => "This command must be run with --pid=host"@,
            InstallErrorView::UnsupportedEngine { engine } =>
                "Currently this command only supports being executed via podman, not "@ + engine,
            InstallErrorView::EmptyImageId => "Invalid empty imageid"@,
            InstallErrorView::ExistingPartitions { device } =>
                "Detected existing partitions on "@ + device
                    + "; use e.g. `wipefs` if you intend to overwrite"@,
            InstallErrorView::NonEmptyRoot { entry } =>
                "Non-empty root filesystem; found "@ + entry,
            InstallErrorView::NonEmptyBoot { entry } => "Non-empty boot directory, found "@ + entry,
            InstallErrorView::MultipleParents { first, second } =>
                "Found multiple parent devices "@ + first + " and "@ + second
                    + "; not currently supported"@,
            InstallErrorView::BootNotSeparate =>
                "/boot must currently be a separate mounted filesystem"@,
            InstallErrorView::MissingBootDirectory =>
                "No /boot directory found in root; this is currently required"@,
            InstallErrorView::MissingRootUuid => "No filesystem uuid found in target root"@,
            InstallErrorView::MissingBootUuid => "No UUID found for /boot"@,
            InstallErrorView::ToolFailed { purpose, status } =>
                purpose + ": command exited with status "@ + signed_decimal(status as int),
            InstallErrorView::FinalizationFailed { filesystem, purpose, status } =>
                "Finalizing "@ + filesystem + ": "@ + purpose + ": command exited with status "@
                    + signed_decimal(status as int),
        }
    }
}

impl InstallError {
    /// The class this error belongs to.
    pub fn kind(&self) -> (k: ErrorKind)
        ensures
            k == self@.kind(),
    {
        match self {
            InstallError::EmptyMountSpec => ErrorKind::Format,
            InstallError::MissingMountTarget { .. } => ErrorKind::Format,
            InstallError::InvalidSize { .. } => ErrorKind::Format,
            InstallError::UnexpectedSkopeoOutput => ErrorKind::Format,
            InstallError::MissingSkopeoMinor => ErrorKind::Format,
            InstallError::InvalidSkopeoNumber { .. } => ErrorKind::Format,
            InstallError::MissingDeployment => ErrorKind::Format,
            InstallError::BootNotByUuid => ErrorKind::Configuration,
            InstallError::SelinuxUnsupportedByHost => ErrorKind::Configuration,
            InstallError::Tpm2LuksNotImplemented => ErrorKind::Configuration,
            InstallError::UnsupportedArchitecture { .. } => ErrorKind::Configuration,
            InstallError::UnknownTransport { .. } => ErrorKind::Configuration,
            InstallError::DeviceNotUnderDev { .. } => ErrorKind::Configuration,
            InstallError::EmptyDevicePath => ErrorKind::Configuration,
            InstallError::EmptyRootPath => ErrorKind::Configuration,
            InstallError::HostInitNotVisible => ErrorKind::Precondition,
            InstallError::UnsupportedEngine { .. } => ErrorKind::Precondition,
            InstallError::EmptyImageId => ErrorKind::Precondition,
            InstallError::ExistingPartitions { .. } => ErrorKind::Safety,
            InstallError::NonEmptyRoot { .. } => ErrorKind::Safety,
            InstallError::NonEmptyBoot { .. } => ErrorKind::Safety,
            InstallError::MultipleParents { .. } => ErrorKind::Topology,
            InstallError::BootNotSeparate => ErrorKind::Topology,
            InstallError::MissingBootDirectory => ErrorKind::Topology,
            InstallError::MissingRootUuid => ErrorKind::Topology,
            InstallError::MissingBootUuid => ErrorKind::Topology,
            InstallError::ToolFailed { .. } => ErrorKind::Tool,
            InstallError::FinalizationFailed { .. } => ErrorKind::Finalization,
        }
    }

    /// A description of this error for the user.
    pub fn message(&self) -> (m: String)
        ensures
            m@ == self@.message(),
    {
        match self {
            InstallError::EmptyMountSpec => String::from_str("Invalid empty mount specification"),
            InstallError::MissingMountTarget { spec } => {
                let mut m = String::from_str("Missing target in mount specification ");
                m.append(spec.as_str());
                m
            },
            InstallError::InvalidSize { text } => {
                let mut m = String::from_str("Invalid size: ");
                m.append(text.as_str());
                m
            },
            InstallError::UnexpectedSkopeoOutput =>
                String::from_str("Unexpected output from skopeo version"),
            InstallError::MissingSkopeoMinor => String::from_str("Missing minor version"),
            InstallError::InvalidSkopeoNumber { text } => {
                let mut m = String::from_str("Invalid number in skopeo version: ");
                m.append(text.as_str());
                m
            },
            InstallError::MissingDeployment => String::from_str("Failed to find deployment"),
            InstallError::BootNotByUuid =>
                String::from_str("/boot is not specified via UUID= (this is currently required)"),
            InstallError::SelinuxUnsupportedByHost =>
                String::from_str("Host kernel does not have SELinux support, but target enables it by default"),
            InstallError::Tpm2LuksNotImplemented =>
                String::from_str("tpm2-luks is not implemented yet"),
            InstallError::UnsupportedArchitecture { arch } => {
                let mut m = String::from_str("Unsupported architecture: ");
                m.append(arch.as_str());
                m
            },
            InstallError::UnknownTransport { name } => {
                let mut m = String::from_str("Unknown transport '");
                m.append(name.as_str());
                m.append("'");
                m
            },
            InstallError::DeviceNotUnderDev { device } => {
                let mut m = String::from_str("Absolute device path in /dev/ required: ");
                m.append(device.as_str());
                m
            },
            InstallError::EmptyDevicePath =>
                String::from_str("The path of the backing device is empty"),
            InstallError::EmptyRootPath => String::from_str("The path of the target root is empty"),
            InstallError::HostInitNotVisible =>
                String::from_str("This command must be run with --pid=host"),
            InstallError::UnsupportedEngine { engine } => {
                let mut m = String::from_str("Currently this command only supports being executed via podman, not ");
                m.append(engine.as_str());
                m
            },
            InstallError::EmptyImageId => String::from_str("Invalid empty imageid"),
            InstallError::ExistingPartitions { device } => {
                let mut m = String::from_str("Detected existing partitions on ");
                m.append(device.as_str());
                m.append("; use e.g. `wipefs` if you intend to overwrite");
                m
            },
            InstallError::NonEmptyRoot { entry } => {
                let mut m = String::from_str("Non-empty root filesystem; found ");
                m.append(entry.as_str());
                m
            },
            InstallError::NonEmptyBoot { entry } => {
                let mut m = String::from_str("Non-empty boot directory, found ");
                m.append(entry.as_str());
                m
            },
            InstallError::MultipleParents { first, second } => {
                let mut m = String::from_str("Found multiple parent devices ");
                m.append(first.as_str());
                m.append(" and ");
                m.append(second.as_str());
                m.append("; not currently supported");
                m
            },
            InstallError::BootNotSeparate =>
                String::from_str("/boot must currently be a separate mounted filesystem"),
            InstallError::MissingBootDirectory =>
                String::from_str("No /boot directory found in root; this is currently required"),
            InstallError::MissingRootUuid =>
                String::from_str("No filesystem uuid found in target root"),
            InstallError::MissingBootUuid => String::from_str("No UUID found for /boot"),
            InstallError::ToolFailed { purpose, status } => {
                let mut m = String::from_str(purpose.as_str());
                m.append(": command exited with status ");
                let number = i32_to_decimal(*status);
                m.append(number.as_str());
                m
            },
            InstallError::FinalizationFailed { filesystem, purpose, status } => {
                let mut m = String::from_str("Finalizing ");
                m.append(filesystem.as_str());
                m.append(": ");
                m.append(purpose.as_str());
                m.append(": command exited with status ");
                let number = i32_to_decimal(*status);
                m.append(number.as_str());
                m
            },
        }
    }
}

} // verus!
