//! The options of the two installation commands.

use vstd::prelude::*;
use crate::baseline::{BlockDeviceOptsView, InstallBlockDeviceOpts};
use crate::filesystem::{FilesystemOptsView, InstallTargetFilesystemOpts};

verus! {

/// Which image the installed system follows for updates.
#[derive(Debug)]
pub struct InstallTargetOpts {
    /// The name of the transport, such as `registry` or `oci`.
    pub target_transport: String,
    /// The image to fetch for later updates; by default the one installed
    /// from.
    pub target_imgref: Option<String>,
    /// Opt out of any form of signature verification.
    pub target_no_signature_verification: bool,
    /// Verify signatures through this ostree remote.
    pub target_ostree_remote: Option<String>,
}

/// The mathematical value of [`InstallTargetOpts`].
pub struct TargetOptsView {
    pub target_transport: Seq<char>,
    pub target_imgref: Option<Seq<char>>,
    pub target_no_signature_verification: bool,
    pub target_ostree_remote: Option<Seq<char>>,
}

impl View for InstallTargetOpts {
    type V = TargetOptsView;

    open spec fn view(&self) -> TargetOptsView {
        TargetOptsView {
            target_transport: self.target_transport@,
            target_imgref: self.target_imgref.deep_view(),
            target_no_signature_verification: self.target_no_signature_verification,
            target_ostree_remote: self.target_ostree_remote.deep_view(),
        }
    }
}

/// How the installed system is configured.
#[derive(Debug)]
pub struct InstallConfigOpts {
    /// The path of an Ignition config file.
    pub ignition_file: Option<String>,
    /// The digest that the Ignition config has to have, as
    /// `<type>-<hexvalue>`.
    pub ignition_hash: Option<String>,
    /// Disable SELinux in the installed system.
    pub disable_selinux: bool,
    /// Kernel arguments to add.
    pub karg: Option<Vec<String>>,
}

/// The mathematical value of [`InstallConfigOpts`].
pub struct ConfigOptsView {
    pub ignition_file: Option<Seq<char>>,
    pub ignition_hash: Option<Seq<char>>,
    pub disable_selinux: bool,
    pub karg: Option<Seq<Seq<char>>>,
}

impl View for InstallConfigOpts {
    type V = ConfigOptsView;

    open spec fn view(&self) -> ConfigOptsView {
        ConfigOptsView {
            ignition_file: self.ignition_file.deep_view(),
            ignition_hash: self.ignition_hash.deep_view(),
            disable_selinux: self.disable_selinux,
            karg: self.karg.deep_view(),
        }
    }
}

/// The options of an installation to a block device.
#[derive(Debug)]
pub struct InstallOpts {
    pub block_opts: InstallBlockDeviceOpts,
    pub target_opts: InstallTargetOpts,
    pub config_opts: InstallConfigOpts,
}

/// The mathematical value of [`InstallOpts`].
pub struct InstallOptsView {
    pub block_opts: BlockDeviceOptsView,
    pub target_opts: TargetOptsView,
    pub config_opts: ConfigOptsView,
}

impl View for InstallOpts {
    type V = InstallOptsView;

    open spec fn view(&self) -> InstallOptsView {
        InstallOptsView {
            block_opts: self.block_opts@,
            target_opts: self.target_opts@,
            config_opts: self.config_opts@,
        }
    }
}

/// The options of an installation to a mounted filesystem.
#[derive(Debug)]
pub struct InstallToFilesystemOpts {
    pub filesystem_opts: InstallTargetFilesystemOpts,
    pub target_opts: InstallTargetOpts,
    pub config_opts: InstallConfigOpts,
}

/// The mathematical value of [`InstallToFilesystemOpts`].
pub struct InstallToFilesystemOptsView {
    pub filesystem_opts: FilesystemOptsView,
    pub target_opts: TargetOptsView,
    pub config_opts: ConfigOptsView,
}

impl View for InstallToFilesystemOpts {
    type V = InstallToFilesystemOptsView;

    open spec fn view(&self) -> InstallToFilesystemOptsView {
        InstallToFilesystemOptsView {
            filesystem_opts: self.filesystem_opts@,
            target_opts: self.target_opts@,
            config_opts: self.config_opts@,
        }
    }
}

} // verus!
