//! Deploying the image to a prepared target: the ostree layout, the image
//! to pull and the one to follow, the deployment itself, and what is
//! recorded about it.

use vstd::prelude::*;
use vstd::string::StringExecFns;
use crate::command::{push_str, CommandSpec, CommandView, Output, Place, Step, StepView};
use crate::error::{InstallError, InstallErrorView};
use crate::image::{
    digested_pullspec, image_text, pinned_name, transport_named, ImageReference,
    ImageReferenceView, OstreeImageReference, OstreeImageReferenceView, SignatureSource,
    SignatureSourceView, Transport,
};
use crate::mountspec::fstab_line;
use crate::options::{InstallTargetOpts, TargetOptsView};
use crate::paths::{join, joined_path};
use crate::preflight::{State, StateView};
use crate::setup::{RootSetup, RootSetupView};
use crate::text::{
    chars_of, find_char, first_index_of, has_prefix, parse_u64, starts_with, unsigned_value,
};

verus! {

broadcast use vstd::string::group_string_axioms;

/// The name of the state root that deployments go to.
pub const STATEROOT_DEFAULT: &'static str = "default";

/// What the version report of skopeo starts with.
pub open spec fn skopeo_version_prefix() -> Seq<char> {
    "skopeo version "@
}

/// The number that a part of a version denotes, if it fits in 64 bits.
pub open spec fn version_number(part: Seq<char>) -> Result<u64, InstallErrorView> {
    match unsigned_value(part) {
        Some(n) => if n <= u64::MAX {
            Ok(n as u64)
        } else {
            Err(InstallErrorView::InvalidSkopeoNumber { text: part })
        },
        None => Err(InstallErrorView::InvalidSkopeoNumber { text: part }),
    }
}

/// Whether the skopeo that printed `report` as its version can read from
/// the container storage: any version beyond 1.10 can.
///
/// The report has to start with `skopeo version `. What follows is split at
/// dots: the part before the first is the major number, the part before
/// the second (or up to the end) the minor number.
pub open spec fn skopeo_reads_storage(report: Seq<char>) -> Result<bool, InstallErrorView> {
    if !has_prefix(report, skopeo_version_prefix()) {
        Err(InstallErrorView::UnexpectedSkopeoOutput)
    } else {
        let version = report.subrange(skopeo_version_prefix().len() as int, report.len() as int);
        let dot = first_index_of(version, '.');
        if dot >= version.len() {
            Err(InstallErrorView::MissingSkopeoMinor)
        } else {
            let rest = version.subrange(dot + 1, version.len() as int);
            let minor = rest.subrange(0, first_index_of(rest, '.'));
            match (version_number(version.subrange(0, dot)), version_number(minor)) {
                (Err(e), _) => Err(e),
                (Ok(_), Err(e)) => Err(e),
                (Ok(major), Ok(minor)) => Ok(major > 1 || minor > 10),
            }
        }
    }
}

fn parse_version_number(part: &str) -> (r: Result<u64, InstallError>)
    ensures
        match r {
            Ok(n) => version_number(part@) == Ok::<u64, InstallErrorView>(n),
            Err(e) => version_number(part@) == Err::<u64, InstallErrorView>(e@),
        },
{
    match parse_u64(part) {
        Some(n) => Ok(n),
        None => Err(InstallError::InvalidSkopeoNumber { text: part.to_owned() }),
    }
}

/// Tells from the output of `skopeo --version` whether that skopeo can
/// read from the container storage.
pub fn skopeo_supports_containers_storage(report: &str) -> (r: Result<bool, InstallError>)
    ensures
        match r {
            Ok(b) => skopeo_reads_storage(report@) == Ok::<bool, InstallErrorView>(b),
            Err(e) => skopeo_reads_storage(report@) == Err::<bool, InstallErrorView>(e@),
        },
{
    proof {
        reveal_strlit("skopeo version ");
    }
    if !starts_with(report, "skopeo version ") {
        return Err(InstallError::UnexpectedSkopeoOutput);
    }
    let total = report.unicode_len();
    let version = report.substring_char(15, total);
    let vs = chars_of(version);
    let dot = find_char(&vs, '.');
    if dot >= vs.len() {
        return Err(InstallError::MissingSkopeoMinor);
    }
    let rest = version.substring_char(dot + 1, vs.len());
    let rs = chars_of(rest);
    let end = find_char(&rs, '.');
    let major = parse_version_number(version.substring_char(0, dot))?;
    let minor = parse_version_number(rest.substring_char(0, end))?;
    Ok(major > 1 || minor > 10)
}

/// The command that asks skopeo, in the mount namespace of the host, for
/// its version.
pub open spec fn skopeo_version_command() -> CommandView {
    CommandView {
        description: "Querying skopeo version"@,
        program: "skopeo"@,
        args: seq!["--version"@],
        announce: false,
        output: Output::OnFailure,
        place: Place::HostMounts,
    }
}

/// The image in OCI layout at `dir`.
pub open spec fn oci_image(dir: Seq<char>) -> ImageReferenceView {
    ImageReferenceView { transport: Transport::OciDir, name: dir }
}

/// The command by which skopeo, in the mount namespace of the host, copies
/// `src` to an OCI layout at `dir`.
pub open spec fn oci_copy_command(src: ImageReferenceView, dir: Seq<char>) -> CommandView {
    CommandView {
        description: "Copying to temporary OCI (skopeo is too old)"@,
        program: "skopeo"@,
        args: seq!["copy"@, image_text(src), image_text(oci_image(dir))],
        announce: true,
        output: Output::Inherit,
        place: Place::HostMounts,
    }
}

/// The command that copies `src_imageref` to an OCI layout at `dir`,
/// together with the reference to the copy.
pub fn copy_to_oci(src_imageref: &ImageReference, dir: &str) -> (r: (CommandSpec, ImageReference))
    ensures
        r.0@ == oci_copy_command(src_imageref@, dir@),
        r.1@ == oci_image(dir@),
{
    let dest = ImageReference { transport: Transport::OciDir, name: dir.to_owned() };
    let mut c = CommandSpec::new("Copying to temporary OCI (skopeo is too old)", "skopeo");
    c.arg("copy");
    let src_text = src_imageref.to_text();
    c.arg(src_text.as_str());
    let dest_text = dest.to_text();
    c.arg(dest_text.as_str());
    c.place = Place::HostMounts;
    assert(c@.args =~= oci_copy_command(src_imageref@, dir@).args);
    (c, dest)
}

/// How the signature of the image to follow is checked: not at all if so
/// asked; else through the ostree remote if one is named; else by the
/// container policy.
pub open spec fn target_signature(opts: TargetOptsView) -> SignatureSourceView {
    if opts.target_no_signature_verification {
        SignatureSourceView::ContainerPolicyAllowInsecure
    } else {
        match opts.target_ostree_remote {
            Some(remote) => SignatureSourceView::OstreeRemote { remote },
            None => SignatureSourceView::ContainerPolicy,
        }
    }
}

/// The image that the installed system follows: the one named in the
/// options, reached by the transport named there, or else the image
/// installed from.
pub open spec fn target_image(opts: TargetOptsView, source: ImageReferenceView) -> Result<
    OstreeImageReferenceView,
    InstallErrorView,
> {
    match opts.target_imgref {
        Some(name) => match transport_named(opts.target_transport) {
            Some(transport) => Ok(
                OstreeImageReferenceView {
                    sigverify: target_signature(opts),
                    imgref: ImageReferenceView { transport, name },
                },
            ),
            None => Err(InstallErrorView::UnknownTransport { name: opts.target_transport }),
        },
        None => Ok(OstreeImageReferenceView { sigverify: target_signature(opts), imgref: source }),
    }
}

/// Works out which image the installed system follows.
pub fn target_image_reference(opts: &InstallTargetOpts, source: &ImageReference) -> (r: Result<
    OstreeImageReference,
    InstallError,
>)
    ensures
        match r {
            Ok(t) => target_image(opts@, source@) == Ok::<
                OstreeImageReferenceView,
                InstallErrorView,
            >(t@),
            Err(e) => target_image(opts@, source@) == Err::<
                OstreeImageReferenceView,
                InstallErrorView,
            >(e@),
        },
{
    let sigverify = if opts.target_no_signature_verification {
        SignatureSource::ContainerPolicyAllowInsecure
    } else {
        match &opts.target_ostree_remote {
            Some(remote) => SignatureSource::OstreeRemote { remote: remote.clone() },
            None => SignatureSource::ContainerPolicy,
        }
    };
    let imgref = match &opts.target_imgref {
        Some(name) => {
            let transport = Transport::try_from_name(opts.target_transport.as_str())?;
            ImageReference { transport, name: name.clone() }
        },
        None => source.duplicate(),
    };
    Ok(OstreeImageReference { sigverify, imgref })
}

/// The command that sets one option of the ostree repository of the
/// target.
pub open spec fn ostree_config_command(key: Seq<char>, value: Seq<char>) -> CommandView {
    CommandView {
        description: "Configuring ostree repo"@,
        program: "ostree"@,
        args: seq!["config"@, "--repo"@, "ostree/repo"@, "set"@, key, value],
        announce: false,
        output: Output::Inherit,
        place: Place::TargetRoot,
    }
}

/// The steps that turn the root mounted at `rootfs` into an ostree
/// deployment root: the layout is created; the repository is told that no
/// boot loader is managed through it and that the deployment root is
/// read-only; the state root is created; everything under `ostree_dir`,
/// the `ostree` directory of the root, is labelled as `/usr` is; and the
/// deployment root is loaded.
pub open spec fn ostree_init_steps(rootfs: Seq<char>, ostree_dir: Seq<char>) -> Seq<StepView> {
    seq![
        StepView::Run {
            command: CommandView {
                description: "Initializing ostree layout"@,
                program: "ostree"@,
                args: seq!["admin"@, "init-fs"@, "--modern"@, rootfs],
                announce: true,
                output: Output::Inherit,
                place: Place::Here,
            },
        },
        StepView::Run { command: ostree_config_command("sysroot.bootloader"@, "none"@) },
        StepView::Run { command: ostree_config_command("sysroot.readonly"@, "true"@) },
        StepView::Run {
            command: CommandView {
                description: "Initializing sysroot"@,
                program: "ostree"@,
                args: seq!["admin"@, "os-init"@, "default"@, "--sysroot"@, "."@],
                announce: true,
                output: Output::Inherit,
                place: Place::TargetRoot,
            },
        },
        StepView::Label { path: ostree_dir, as_path: "/usr"@, recurse: true },
        StepView::LoadSysroot { path: rootfs },
    ]
}

fn ostree_config(key: &str, value: &str) -> (c: CommandSpec)
    ensures
        c@ == ostree_config_command(key@, value@),
{
    let mut c = CommandSpec::new("Configuring ostree repo", "ostree");
    c.arg("config");
    c.arg("--repo");
    c.arg("ostree/repo");
    c.arg("set");
    c.arg(key);
    c.arg(value);
    c.announce = false;
    c.place = Place::TargetRoot;
    assert(c@.args =~= ostree_config_command(key@, value@).args);
    c
}

fn ostree_init(rootfs: &str, ostree_dir: &str) -> (steps: Vec<Step>)
    ensures
        steps.deep_view() == ostree_init_steps(rootfs@, ostree_dir@),
{
    proof {
        reveal_strlit("default");
    }
    let mut steps: Vec<Step> = Vec::new();
    let mut init = CommandSpec::new("Initializing ostree layout", "ostree");
    init.arg("admin");
    init.arg("init-fs");
    init.arg("--modern");
    init.arg(rootfs);
    assert(init@.args =~= seq!["admin"@, "init-fs"@, "--modern"@, rootfs@]);
    steps.push(Step::Run { command: init });
    steps.push(Step::Run { command: ostree_config("sysroot.bootloader", "none") });
    steps.push(Step::Run { command: ostree_config("sysroot.readonly", "true") });
    let mut os_init = CommandSpec::new("Initializing sysroot", "ostree");
    os_init.arg("admin");
    os_init.arg("os-init");
    os_init.arg(STATEROOT_DEFAULT);
    os_init.arg("--sysroot");
    os_init.arg(".");
    os_init.place = Place::TargetRoot;
    assert(os_init@.args =~= seq!["admin"@, "os-init"@, "default"@, "--sysroot"@, "."@]);
    steps.push(Step::Run { command: os_init });
    steps.push(
        Step::Label {
            path: ostree_dir.to_owned(),
            as_path: String::from_str("/usr"),
            recurse: true,
        },
    );
    steps.push(Step::LoadSysroot { path: rootfs.to_owned() });
    assert(steps.deep_view() =~= ostree_init_steps(rootfs@, ostree_dir@));
    steps
}

/// What is recorded about an installation for later diagnosis.
#[derive(Debug)]
pub struct InstallAleph {
    /// The image that was installed, pinned to its digest.
    pub image: String,
    /// The release of the kernel under which the installer ran.
    pub kernel: String,
}

/// The mathematical value of an [`InstallAleph`].
pub struct InstallAlephView {
    pub image: Seq<char>,
    pub kernel: Seq<char>,
}

impl View for InstallAleph {
    type V = InstallAlephView;

    open spec fn view(&self) -> InstallAlephView {
        InstallAlephView { image: self.image@, kernel: self.kernel@ }
    }
}

/// What the deployment engine is asked to do.
#[derive(Debug)]
pub struct DeployRequest {
    /// The state root to deploy into.
    pub stateroot: String,
    /// The image to pull.
    pub source: OstreeImageReference,
    /// The image that the deployment follows for updates.
    pub target: OstreeImageReference,
    /// The kernel arguments of the deployment.
    pub kargs: Vec<String>,
}

/// The mathematical value of a [`DeployRequest`].
pub struct DeployRequestView {
    pub stateroot: Seq<char>,
    pub source: OstreeImageReferenceView,
    pub target: OstreeImageReferenceView,
    pub kargs: Seq<Seq<char>>,
}

impl View for DeployRequest {
    type V = DeployRequestView;

    open spec fn view(&self) -> DeployRequestView {
        DeployRequestView {
            stateroot: self.stateroot@,
            source: self.source@,
            target: self.target@,
            kargs: self.kargs.deep_view(),
        }
    }
}

/// What has been done and found out so far while deploying.
#[derive(Debug)]
pub struct DeployFacts {
    /// Whether the ostree layout was set up and loaded.
    pub initialized: bool,
    /// What `skopeo --version` printed.
    pub skopeo_version: Option<String>,
    /// The temporary directory made to stage the image in.
    pub staging_dir: Option<String>,
    /// Whether the image was copied to the staging directory.
    pub staged: bool,
    /// The digest of the manifest that was deployed.
    pub deployed: Option<String>,
    /// Whether the deployments were looked up after deploying.
    pub looked_up: bool,
    /// The path of the first deployment below the root, if there is one.
    pub deployment_dir: Option<String>,
    /// Whether the line for boot was added to the deployment's fstab.
    pub fstab_written: bool,
    /// The release of the running kernel.
    pub kernel_release: Option<String>,
}

/// The mathematical value of [`DeployFacts`].
pub struct DeployFactsView {
    pub initialized: bool,
    pub skopeo_version: Option<Seq<char>>,
    pub staging_dir: Option<Seq<char>>,
    pub staged: bool,
    pub deployed: Option<Seq<char>>,
    pub looked_up: bool,
    pub deployment_dir: Option<Seq<char>>,
    pub fstab_written: bool,
    pub kernel_release: Option<Seq<char>>,
}

impl View for DeployFacts {
    type V = DeployFactsView;

    open spec fn view(&self) -> DeployFactsView {
        DeployFactsView {
            initialized: self.initialized,
            skopeo_version: self.skopeo_version.deep_view(),
            staging_dir: self.staging_dir.deep_view(),
            staged: self.staged,
            deployed: self.deployed.deep_view(),
            looked_up: self.looked_up,
            deployment_dir: self.deployment_dir.deep_view(),
            fstab_written: self.fstab_written,
            kernel_release: self.kernel_release.deep_view(),
        }
    }
}

/// What the installer has to do next to deploy.
#[derive(Debug)]
pub enum DeployStep {
    /// Carry out the steps that set up the ostree layout.
    Initialize { steps: Vec<Step> },
    /// Run the command and keep what it prints.
    QuerySkopeoVersion { command: CommandSpec },
    /// Make a temporary directory below `parent`.
    CreateStagingDir { parent: String },
    /// Copy the image to the staging directory.
    Stage { command: CommandSpec },
    /// Deploy, and keep the digest of the manifest.
    Deploy { request: DeployRequest },
    /// Remove the staging directory if there is one, load the deployment
    /// root again and look up the first deployment.
    FindDeployment,
    /// Append `line` to `file` in the deployment at `dir`, reached through
    /// the handle to the target root.
    AppendFstab { dir: String, file: String, line: String },
    /// Read the release of the running kernel.
    ReadKernelRelease,
    /// The deployment is complete.
    Done { aleph: InstallAleph },
    /// The installation cannot go on.
    Fail { error: InstallError },
}

/// The mathematical value of a [`DeployStep`].
pub enum DeployStepView {
    Initialize { steps: Seq<StepView> },
    QuerySkopeoVersion { command: CommandView },
    CreateStagingDir { parent: Seq<char> },
    Stage { command: CommandView },
    Deploy { request: DeployRequestView },
    FindDeployment,
    AppendFstab { dir: Seq<char>, file: Seq<char>, line: Seq<char> },
    ReadKernelRelease,
    Done { aleph: InstallAlephView },
    Fail { error: InstallErrorView },
}

impl View for DeployStep {
    type V = DeployStepView;

    open spec fn view(&self) -> DeployStepView {
        match self {
            DeployStep::Initialize { steps } => DeployStepView::Initialize {
                steps: steps.deep_view(),
            },
            DeployStep::QuerySkopeoVersion { command } => DeployStepView::QuerySkopeoVersion {
                command: command@,
            },
            DeployStep::CreateStagingDir { parent } => DeployStepView::CreateStagingDir {
                parent: parent@,
            },
            DeployStep::Stage { command } => DeployStepView::Stage { command: command@ },
            DeployStep::Deploy { request } => DeployStepView::Deploy { request: request@ },
            DeployStep::FindDeployment => DeployStepView::FindDeployment,
            DeployStep::AppendFstab { dir, file, line } => DeployStepView::AppendFstab {
                dir: dir@,
                file: file@,
                line: line@,
            },
            DeployStep::ReadKernelRelease => DeployStepView::ReadKernelRelease,
            DeployStep::Done { aleph } => DeployStepView::Done { aleph: aleph@ },
            DeployStep::Fail { error } => DeployStepView::Fail { error: error@ },
        }
    }
}

/// The image in the container storage that the installation pulls: the
/// running image, pinned to the digest it runs at.
pub open spec fn stored_image(state: StateView) -> ImageReferenceView {
    ImageReferenceView {
        transport: Transport::ContainerStorage,
        name: pinned_name(state.source_imageref.name, state.source_digest),
    }
}

/// An image that is pulled without checking signatures, since it was
/// already pulled once.
pub open spec fn unverified(imgref: ImageReferenceView) -> OstreeImageReferenceView {
    OstreeImageReferenceView {
        sigverify: SignatureSourceView::ContainerPolicyAllowInsecure,
        imgref,
    }
}

/// What follows once the image to pull from is settled.
pub open spec fn deploy_from(
    root: RootSetupView,
    facts: DeployFactsView,
    target: OstreeImageReferenceView,
    source: ImageReferenceView,
) -> DeployStepView {
    if facts.deployed is None {
        DeployStepView::Deploy {
            request: DeployRequestView {
                stateroot: "default"@,
                source: unverified(source),
                target,
                kargs: root.kargs,
            },
        }
    } else if !facts.looked_up {
        DeployStepView::FindDeployment
    } else {
        match facts.deployment_dir {
            None => DeployStepView::Fail { error: InstallErrorView::MissingDeployment },
            Some(dir) => if !facts.fstab_written {
                DeployStepView::AppendFstab {
                    dir,
                    file: "etc/fstab"@,
                    line: fstab_line(root.boot),
                }
            } else {
                match facts.kernel_release {
                    None => DeployStepView::ReadKernelRelease,
                    Some(kernel) => DeployStepView::Done {
                        aleph: InstallAlephView { image: source.name, kernel },
                    },
                }
            },
        }
    }
}

/// What is to be done next to deploy the image to the target, given the
/// shared state, the target, what is known so far, and the path of the
/// `ostree` directory of the target root.
///
/// The image to follow is worked out first, so that a bad transport name
/// stops the deployment before anything is written. Then the ostree layout
/// is set up. The image is pulled from the container storage, pinned to its
/// digest, if skopeo can read from there; else it is first copied to a
/// temporary directory below `/var/tmp` and pulled from that. After the
/// deployment its directory is looked up, the line for boot is added to
/// its fstab, and the record of the installation is made from the name of
/// the image pulled and the release of the kernel.
pub open spec fn next_deploy_step(
    state: StateView,
    root: RootSetupView,
    facts: DeployFactsView,
    ostree_dir: Seq<char>,
) -> DeployStepView {
    match target_image(state.target_opts, state.source_imageref) {
        Err(error) => DeployStepView::Fail { error },
        Ok(target) => if !facts.initialized {
            DeployStepView::Initialize { steps: ostree_init_steps(root.rootfs, ostree_dir) }
        } else {
            match facts.skopeo_version {
                None => DeployStepView::QuerySkopeoVersion { command: skopeo_version_command() },
                Some(report) => match skopeo_reads_storage(report) {
                    Err(error) => DeployStepView::Fail { error },
                    Ok(true) => deploy_from(root, facts, target, stored_image(state)),
                    Ok(false) => match facts.staging_dir {
                        None => DeployStepView::CreateStagingDir { parent: "/var/tmp"@ },
                        Some(dir) => if !facts.staged {
                            DeployStepView::Stage {
                                command: oci_copy_command(state.source_imageref, dir),
                            }
                        } else {
                            deploy_from(root, facts, target, oci_image(dir))
                        },
                    },
                },
            }
        },
    }
}

fn deploy_from_source(
    root: &RootSetup,
    facts: &DeployFacts,
    target: OstreeImageReference,
    source: ImageReference,
) -> (step: DeployStep)
    ensures
        step@ == deploy_from(root@, facts@, target@, source@),
{
    proof {
        reveal_strlit("default");
    }
    if facts.deployed.is_none() {
        let mut kargs: Vec<String> = Vec::new();
        let ghost all = root.kargs.deep_view();
        let mut i: usize = 0;
        assert(kargs.deep_view() =~= all.take(0));
        while i < root.kargs.len()
            invariant
                i <= root.kargs.len(),
                all == root.kargs.deep_view(),
                kargs.deep_view() == all.take(i as int),
            decreases root.kargs.len() - i,
        {
            push_str(&mut kargs, root.kargs[i].as_str());
            assert(all[i as int] == root.kargs@[i as int]@);
            assert(all.take(i as int).push(all[i as int]) =~= all.take(i + 1));
            i += 1;
        }
        assert(all.take(i as int) =~= all);
        return DeployStep::Deploy {
            request: DeployRequest {
                stateroot: String::from_str(STATEROOT_DEFAULT),
                source: OstreeImageReference {
                    sigverify: SignatureSource::ContainerPolicyAllowInsecure,
                    imgref: source,
                },
                target,
                kargs,
            },
        };
    }
    if !facts.looked_up {
        return DeployStep::FindDeployment;
    }
    let dir = match &facts.deployment_dir {
        None => {
            return DeployStep::Fail { error: InstallError::MissingDeployment };
        },
        Some(dir) => dir,
    };
    if !facts.fstab_written {
        return DeployStep::AppendFstab {
            dir: dir.clone(),
            file: String::from_str("etc/fstab"),
            line: root.boot.to_fstab(),
        };
    }
    match &facts.kernel_release {
        None => DeployStep::ReadKernelRelease,
        Some(kernel) => DeployStep::Done {
            aleph: InstallAleph { image: source.name, kernel: kernel.clone() },
        },
    }
}

/// Says what the installer has to do next to deploy, given the path of the
/// `ostree` directory of the target root.
pub fn next_step_with_ostree_dir(
    state: &State,
    root: &RootSetup,
    facts: &DeployFacts,
    ostree_dir: &str,
) -> (step: DeployStep)
    ensures
        step@ == next_deploy_step(state@, root@, facts@, ostree_dir@),
{
    let target = match target_image_reference(&state.target_opts, &state.source_imageref) {
        Err(error) => {
            return DeployStep::Fail { error };
        },
        Ok(target) => target,
    };
    if !facts.initialized {
        return DeployStep::Initialize { steps: ostree_init(root.rootfs.as_str(), ostree_dir) };
    }
    let report = match &facts.skopeo_version {
        None => {
            let mut c = CommandSpec::new("Querying skopeo version", "skopeo");
            c.arg("--version");
            c.announce = false;
            c.output = Output::OnFailure;
            c.place = Place::HostMounts;
            assert(c@.args =~= skopeo_version_command().args);
            return DeployStep::QuerySkopeoVersion { command: c };
        },
        Some(report) => report,
    };
    match skopeo_supports_containers_storage(report.as_str()) {
        Err(error) => DeployStep::Fail { error },
        Ok(true) => {
            let source = ImageReference {
                transport: Transport::ContainerStorage,
                name: digested_pullspec(
                    state.source_imageref.name.as_str(),
                    state.source_digest.as_str(),
                ),
            };
            deploy_from_source(root, facts, target, source)
        },
        Ok(false) => {
            let dir = match &facts.staging_dir {
                None => {
                    return DeployStep::CreateStagingDir { parent: String::from_str("/var/tmp") };
                },
                Some(dir) => dir,
            };
            let (command, staged) = copy_to_oci(&state.source_imageref, dir.as_str());
            if !facts.staged {
                DeployStep::Stage { command }
            } else {
                deploy_from_source(root, facts, target, staged)
            }
        },
    }
}

/// Says what the installer has to do next to deploy the image it runs from
/// to the target.
pub fn initialize_ostree_root_from_self(state: &State, root_setup: &RootSetup, facts: &DeployFacts) -> (step:
    DeployStep)
    ensures
        step@ == next_deploy_step(
            state@,
            root_setup@,
            facts@,
            joined_path(root_setup@.rootfs, "ostree"@),
        ),
{
    let ostree_dir = join(root_setup.rootfs.as_str(), "ostree");
    next_step_with_ostree_dir(state, root_setup, facts, ostree_dir.as_str())
}

impl DeployFacts {
    /// Nothing is done or known yet.
    pub fn new() -> (facts: DeployFacts)
        ensures
            facts@ == (DeployFactsView {
                initialized: false,
                skopeo_version: None,
                staging_dir: None,
                staged: false,
                deployed: None,
                looked_up: false,
                deployment_dir: None,
                fstab_written: false,
                kernel_release: None,
            }),
    {
        DeployFacts {
            initialized: false,
            skopeo_version: None,
            staging_dir: None,
            staged: false,
            deployed: None,
            looked_up: false,
            deployment_dir: None,
            fstab_written: false,
            kernel_release: None,
        }
    }
}

/// Whatever is deployed is pulled without a mutable tag in the way: either
/// from the container storage, under the name of the running image pinned
/// to the digest it runs at, or from the copy that was staged in the
/// temporary directory. And nothing is deployed before the image to follow
/// is settled and the ostree layout is set up.
pub proof fn lemma_deploy_pulls_pinned_image(
    state: StateView,
    root: RootSetupView,
    facts: DeployFactsView,
    ostree_dir: Seq<char>,
)
    requires
        next_deploy_step(state, root, facts, ostree_dir) is Deploy,
    ensures
        ({
            let request = next_deploy_step(state, root, facts, ostree_dir)->request;
            &&& facts.initialized
            &&& target_image(state.target_opts, state.source_imageref) == Ok::<
                OstreeImageReferenceView,
                InstallErrorView,
            >(request.target)
            &&& request.kargs == root.kargs
            &&& request.source.sigverify is ContainerPolicyAllowInsecure
            &&& (request.source.imgref == stored_image(state) || (facts.staged
                && facts.staging_dir is Some && request.source.imgref == oci_image(
                facts.staging_dir->0,
            )))
            &&& request.source.imgref == stored_image(state) ==> request.source.imgref.name
                == state.source_imageref.name.subrange(
                0,
                crate::image::digest_start(state.source_imageref.name),
            ) + "@"@ + state.source_digest
        }),
{
}

} // verus!
