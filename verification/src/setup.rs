//! The description of a prepared target that provisioning hands to
//! deployment.

use vstd::prelude::*;
use crate::command::push_str;
use crate::error::{InstallError, InstallErrorView};
use crate::mountspec::{require_boot_uuid, source_uuid, MountSpec, MountSpecView};

verus! {

broadcast use vstd::string::group_string_axioms;

/// A prepared target: the device behind it, where its root is mounted, how
/// `/boot` is mounted, and the kernel arguments gathered so far. The open
/// handle to the root directory stays with the caller.
#[derive(Debug)]
pub struct RootSetup {
    pub device: String,
    pub rootfs: String,
    pub boot: MountSpec,
    pub kargs: Vec<String>,
}

/// The mathematical value of a [`RootSetup`].
pub struct RootSetupView {
    pub device: Seq<char>,
    pub rootfs: Seq<char>,
    pub boot: MountSpecView,
    pub kargs: Seq<Seq<char>>,
}

impl RootSetupView {
    /// Neither the device nor the root path is empty.
    pub open spec fn well_formed(self) -> bool {
        self.device.len() > 0 && self.rootfs.len() > 0
    }
}

impl View for RootSetup {
    type V = RootSetupView;

    open spec fn view(&self) -> RootSetupView {
        RootSetupView {
            device: self.device@,
            rootfs: self.rootfs@,
            boot: self.boot@,
            kargs: self.kargs.deep_view(),
        }
    }
}

/// The target that the given parts describe, unless a path is empty.
pub open spec fn checked_root_setup(
    device: Seq<char>,
    rootfs: Seq<char>,
    boot: MountSpecView,
    kargs: Seq<Seq<char>>,
) -> Result<RootSetupView, InstallErrorView> {
    if device.len() == 0 {
        Err(InstallErrorView::EmptyDevicePath)
    } else if rootfs.len() == 0 {
        Err(InstallErrorView::EmptyRootPath)
    } else {
        Ok(RootSetupView { device, rootfs, boot, kargs })
    }
}

impl RootSetup {
    /// Describes a prepared target. An empty device or root path is
    /// refused.
    pub fn new(device: String, rootfs: String, boot: MountSpec, kargs: Vec<String>) -> (r: Result<
        RootSetup,
        InstallError,
    >)
        ensures
            match r {
                Ok(root) => checked_root_setup(device@, rootfs@, boot@, kargs.deep_view()) == Ok::<
                    RootSetupView,
                    InstallErrorView,
                >(root@) && root@.well_formed(),
                Err(e) => checked_root_setup(device@, rootfs@, boot@, kargs.deep_view()) == Err::<
                    RootSetupView,
                    InstallErrorView,
                >(e@),
            },
    {
        if device.as_str().unicode_len() == 0 {
            Err(InstallError::EmptyDevicePath)
        } else if rootfs.as_str().unicode_len() == 0 {
            Err(InstallError::EmptyRootPath)
        } else {
            Ok(RootSetup { device, rootfs, boot, kargs })
        }
    }

    /// The UUID by which `/boot` is mounted.
    pub fn get_boot_uuid(&self) -> (r: Result<&str, InstallError>)
        ensures
            match r {
                Ok(u) => source_uuid(self@.boot.source) == Some(u@),
                Err(e) => source_uuid(self@.boot.source) is None && e@
                    == InstallErrorView::BootNotByUuid,
            },
    {
        require_boot_uuid(&self.boot)
    }

    /// Appends a kernel argument.
    pub fn push_karg(&mut self, karg: &str)
        ensures
            final(self)@ == (RootSetupView { kargs: old(self)@.kargs.push(karg@), ..old(self)@ }),
    {
        push_str(&mut self.kargs, karg);
    }
}

} // verus!
