//! What has to hold, and what has to be arranged, before an installation
//! starts: the checks on the environment, the private mount namespace, the
//! scratch filesystem, and the reconciliation of SELinux between the host
//! and the image.

use vstd::prelude::*;
use vstd::string::StringExecFns;
use crate::command::{CommandSpec, CommandView, Output, Place, Step, StepView};
use crate::error::{ErrorKind, InstallError, InstallErrorView};
use crate::image::{ImageReference, ImageReferenceView, Transport};
use crate::options::{ConfigOptsView, InstallConfigOpts, InstallTargetOpts, TargetOptsView};
use crate::text::{contains, decimal, has_prefix, has_substring, starts_with, u64_to_decimal};

verus! {

broadcast use vstd::string::group_string_axioms;

/// What the container runtime tells about the running container.
#[derive(Debug)]
pub struct ContainerInfo {
    pub engine: String,
    pub image: String,
    pub imageid: String,
}

/// The mathematical value of a [`ContainerInfo`].
pub struct ContainerInfoView {
    pub engine: Seq<char>,
    pub image: Seq<char>,
    pub imageid: Seq<char>,
}

impl View for ContainerInfo {
    type V = ContainerInfoView;

    open spec fn view(&self) -> ContainerInfoView {
        ContainerInfoView { engine: self.engine@, image: self.image@, imageid: self.imageid@ }
    }
}

/// What is known of the system the installer runs from.
#[derive(Debug)]
pub struct SourceData {
    /// The checksum of the base commit.
    pub commit: String,
    /// Whether the tree of that commit carries SELinux labels.
    pub selinux: bool,
}

/// The mathematical value of a [`SourceData`].
pub struct SourceDataView {
    pub commit: Seq<char>,
    pub selinux: bool,
}

impl View for SourceData {
    type V = SourceDataView;

    open spec fn view(&self) -> SourceDataView {
        SourceDataView { commit: self.commit@, selinux: self.selinux }
    }
}

/// What the process was started with, beyond its options.
#[derive(Debug, Clone, Copy, PartialEq, Eq, Structural)]
pub struct Environment {
    /// The process is not to enter a mount namespace of its own.
    pub skip_unshare: bool,
    /// The temporary directory of the host is not to be bound in.
    pub skip_host_tmp: bool,
    /// The id of the process.
    pub pid: u32,
}

/// What has been found out and arranged so far.
#[derive(Debug)]
pub struct HostFacts {
    /// The executable of process 1.
    pub init_exe: Option<String>,
    pub container: Option<ContainerInfo>,
    /// The digest of the running image.
    pub digest: Option<String>,
    /// Whether the process has a mount namespace of its own.
    pub unshared: bool,
    /// Whether `/tmp` was found to be a tmpfs.
    pub tmp_is_tmpfs: Option<bool>,
    /// Whether a tmpfs was mounted at `/tmp`.
    pub tmpfs_mounted: bool,
    pub source: Option<SourceData>,
    /// Whether SELinux is enabled on the host.
    pub host_selinux: Option<bool>,
    /// Whether the process carries the label it needs to install.
    pub install_label_held: bool,
    /// Whether the temporary directory of the host was bound in.
    pub host_tmp_bound: bool,
}

/// The mathematical value of [`HostFacts`].
pub struct HostFactsView {
    pub init_exe: Option<Seq<char>>,
    pub container: Option<ContainerInfoView>,
    pub digest: Option<Seq<char>>,
    pub unshared: bool,
    pub tmp_is_tmpfs: Option<bool>,
    pub tmpfs_mounted: bool,
    pub source: Option<SourceDataView>,
    pub host_selinux: Option<bool>,
    pub install_label_held: bool,
    pub host_tmp_bound: bool,
}

impl View for HostFacts {
    type V = HostFactsView;

    open spec fn view(&self) -> HostFactsView {
        HostFactsView {
            init_exe: self.init_exe.deep_view(),
            container: match self.container {
                Some(c) => Some(c@),
                None => None,
            },
            digest: self.digest.deep_view(),
            unshared: self.unshared,
            tmp_is_tmpfs: self.tmp_is_tmpfs,
            tmpfs_mounted: self.tmpfs_mounted,
            source: match self.source {
                Some(s) => Some(s@),
                None => None,
            },
            host_selinux: self.host_selinux,
            install_label_held: self.install_label_held,
            host_tmp_bound: self.host_tmp_bound,
        }
    }
}

/// What an installation rests on once the checks have passed.
#[derive(Debug)]
pub struct Prepared {
    /// The image to pull from.
    pub source_imageref: ImageReference,
    /// The digest to pull.
    pub source_digest: String,
    /// SELinux is to be forced off in the installed system.
    pub override_disable_selinux: bool,
}

/// The mathematical value of [`Prepared`].
pub struct PreparedView {
    pub source_imageref: ImageReferenceView,
    pub source_digest: Seq<char>,
    pub override_disable_selinux: bool,
}

impl View for Prepared {
    type V = PreparedView;

    open spec fn view(&self) -> PreparedView {
        PreparedView {
            source_imageref: self.source_imageref@,
            source_digest: self.source_digest@,
            override_disable_selinux: self.override_disable_selinux,
        }
    }
}

/// The state that the whole installation shares. It is made once and not
/// changed afterwards.
#[derive(Debug)]
pub struct State {
    pub source_imageref: ImageReference,
    pub source_digest: String,
    pub override_disable_selinux: bool,
    pub config_opts: InstallConfigOpts,
    pub target_opts: InstallTargetOpts,
}

/// The mathematical value of [`State`].
pub struct StateView {
    pub source_imageref: ImageReferenceView,
    pub source_digest: Seq<char>,
    pub override_disable_selinux: bool,
    pub config_opts: ConfigOptsView,
    pub target_opts: TargetOptsView,
}

impl View for State {
    type V = StateView;

    open spec fn view(&self) -> StateView {
        StateView {
            source_imageref: self.source_imageref@,
            source_digest: self.source_digest@,
            override_disable_selinux: self.override_disable_selinux,
            config_opts: self.config_opts@,
            target_opts: self.target_opts@,
        }
    }
}

impl State {
    /// The shared state of an installation with the given options.
    pub fn new(prepared: Prepared, config_opts: InstallConfigOpts, target_opts: InstallTargetOpts) -> (state:
        State)
        ensures
            state@ == (StateView {
                source_imageref: prepared@.source_imageref,
                source_digest: prepared@.source_digest,
                override_disable_selinux: prepared@.override_disable_selinux,
                config_opts: config_opts@,
                target_opts: target_opts@,
            }),
    {
        State {
            source_imageref: prepared.source_imageref,
            source_digest: prepared.source_digest,
            override_disable_selinux: prepared.override_disable_selinux,
            config_opts,
            target_opts,
        }
    }
}

/// What is to be done about SELinux.
#[derive(Debug, Clone, Copy, PartialEq, Eq, Structural)]
pub enum SelinuxStep {
    /// Find out whether SELinux is enabled on the host.
    QueryHost,
    /// Set SELinux up in the container and make sure that the process
    /// carries the label it needs to install, executing it anew if not.
    EnsureInstallLabel,
    /// Go on. With `disable` set, SELinux is to be forced off in the
    /// installed system.
    Proceed { disable: bool },
    /// The host cannot label the target and no override was given.
    Unsupported,
}

/// What is to be done about SELinux, given whether the image carries
/// labels, whether the override was given, what is known of the host, and
/// whether the process already carries the label it needs.
///
/// An image without labels needs nothing. For one with labels the host is
/// asked first; where SELinux is enabled there, the process has to carry
/// the install label; where it is not, the override is honoured, and
/// without it the installation cannot go on.
pub open spec fn selinux_step(
    target_has_labels: bool,
    override_disable_selinux: bool,
    host_selinux: Option<bool>,
    install_label_held: bool,
) -> SelinuxStep {
    if !target_has_labels {
        SelinuxStep::Proceed { disable: false }
    } else {
        match host_selinux {
            None => SelinuxStep::QueryHost,
            Some(true) => if install_label_held {
                SelinuxStep::Proceed { disable: false }
            } else {
                SelinuxStep::EnsureInstallLabel
            },
            Some(false) => if override_disable_selinux {
                SelinuxStep::Proceed { disable: true }
            } else {
                SelinuxStep::Unsupported
            },
        }
    }
}

/// Says what is to be done about SELinux.
pub fn reexecute_self_for_selinux_if_needed(
    srcdata: &SourceData,
    override_disable_selinux: bool,
    host_selinux: Option<bool>,
    install_label_held: bool,
) -> (step: SelinuxStep)
    ensures
        step == selinux_step(
            srcdata.selinux,
            override_disable_selinux,
            host_selinux,
            install_label_held,
        ),
{
    if !srcdata.selinux {
        return SelinuxStep::Proceed { disable: false };
    }
    match host_selinux {
        None => SelinuxStep::QueryHost,
        Some(true) => {
            if install_label_held {
                SelinuxStep::Proceed { disable: false }
            } else {
                SelinuxStep::EnsureInstallLabel
            }
        },
        Some(false) => {
            if override_disable_selinux {
                SelinuxStep::Proceed { disable: true }
            } else {
                SelinuxStep::Unsupported
            }
        },
    }
}

/// The command that reads the checksum of the commit the system runs
/// from.
pub open spec fn source_commit_command() -> CommandView {
    CommandView {
        description: "Reading ostree commit"@,
        program: "ostree"@,
        args: seq!["--repo=/ostree/repo"@, "rev-parse"@, "--single"@],
        announce: false,
        output: Output::Inherit,
        place: Place::Here,
    }
}

/// The command whose output is the checksum of the commit the system runs
/// from.
pub fn gather_source_data() -> (c: CommandSpec)
    ensures
        c@ == source_commit_command(),
{
    let mut c = CommandSpec::new("Reading ostree commit", "ostree");
    c.arg("--repo=/ostree/repo");
    c.arg("rev-parse");
    c.arg("--single");
    c.announce = false;
    assert(c@.args =~= source_commit_command().args);
    c
}

/// The command that mounts a tmpfs at `/tmp`.
pub open spec fn tmpfs_command() -> CommandView {
    CommandView {
        description: "Creating tmpfs on /tmp"@,
        program: "mount"@,
        args: seq!["-t"@, "tmpfs"@, "tmpfs"@, "/tmp"@],
        announce: false,
        output: Output::Inherit,
        place: Place::Here,
    }
}

/// The steps that make the host's directory `src` appear at `dest`: the
/// directory is created, then `mount`, run in the mount namespace of the
/// host, binds `src` into the namespace of the process `pid`.
pub open spec fn bind_mount_steps(src: Seq<char>, dest: Seq<char>, pid: u32) -> Seq<StepView> {
    seq![
        StepView::CreateDirAll { path: dest },
        StepView::Run {
            command: CommandView {
                description: "Bind mounting "@ + src + " from host"@,
                program: "mount"@,
                args: seq!["--bind"@, "-N"@, decimal(pid as nat), src, dest],
                announce: false,
                output: Output::Inherit,
                place: Place::HostMounts,
            },
        },
    ]
}

/// The steps that make the host's directory `src` appear at `dest` in the
/// namespace of the process `pid`.
pub fn bind_mount_from_host(src: &str, dest: &str, pid: u32) -> (steps: Vec<Step>)
    ensures
        steps.deep_view() == bind_mount_steps(src@, dest@, pid),
{
    let mut description = String::from_str("Bind mounting ");
    description.append(src);
    description.append(" from host");
    let mut c = CommandSpec::new(description.as_str(), "mount");
    c.arg("--bind");
    c.arg("-N");
    let target = u64_to_decimal(pid as u64);
    c.arg(target.as_str());
    c.arg(src);
    c.arg(dest);
    c.announce = false;
    c.place = Place::HostMounts;
    assert(c@.args =~= seq!["--bind"@, "-N"@, decimal(pid as nat), src@, dest@]);
    let mut steps: Vec<Step> = Vec::new();
    steps.push(Step::CreateDirAll { path: dest.to_owned() });
    steps.push(Step::Run { command: c });
    assert(steps.deep_view() =~= bind_mount_steps(src@, dest@, pid));
    steps
}

/// What the installer has to do next before it can install.
#[derive(Debug)]
pub enum PreflightStep {
    /// Read which executable process 1 runs.
    ReadInitExe,
    /// Ask the container runtime about the running container.
    QueryContainer,
    /// Look up the digest of the image with this id.
    ResolveDigest { imageid: String },
    /// Enter a mount namespace of the process's own.
    Unshare,
    /// Find out whether `/tmp` is a tmpfs.
    StatTmp,
    /// Mount a tmpfs at `/tmp`.
    MountTmpfs { command: CommandSpec },
    /// Read the commit the system runs from and whether it carries labels.
    GatherSource,
    /// Find out whether SELinux is enabled on the host.
    QueryHostSelinux,
    /// Make sure that the process carries the install label.
    EnsureInstallLabel,
    /// Bind the temporary directory of the host into the namespace.
    BindHostTmp { steps: Vec<Step> },
    /// All is arranged.
    Ready { prepared: Prepared },
    /// The installation cannot start.
    Fail { error: InstallError },
}

/// The mathematical value of a [`PreflightStep`].
pub enum PreflightStepView {
    ReadInitExe,
    QueryContainer,
    ResolveDigest { imageid: Seq<char> },
    Unshare,
    StatTmp,
    MountTmpfs { command: CommandView },
    GatherSource,
    QueryHostSelinux,
    EnsureInstallLabel,
    BindHostTmp { steps: Seq<StepView> },
    Ready { prepared: PreparedView },
    Fail { error: InstallErrorView },
}

impl View for PreflightStep {
    type V = PreflightStepView;

    open spec fn view(&self) -> PreflightStepView {
        match self {
            PreflightStep::ReadInitExe => PreflightStepView::ReadInitExe,
            PreflightStep::QueryContainer => PreflightStepView::QueryContainer,
            PreflightStep::ResolveDigest { imageid } => PreflightStepView::ResolveDigest {
                imageid: imageid@,
            },
            PreflightStep::Unshare => PreflightStepView::Unshare,
            PreflightStep::StatTmp => PreflightStepView::StatTmp,
            PreflightStep::MountTmpfs { command } => PreflightStepView::MountTmpfs {
                command: command@,
            },
            PreflightStep::GatherSource => PreflightStepView::GatherSource,
            PreflightStep::QueryHostSelinux => PreflightStepView::QueryHostSelinux,
            PreflightStep::EnsureInstallLabel => PreflightStepView::EnsureInstallLabel,
            PreflightStep::BindHostTmp { steps } => PreflightStepView::BindHostTmp {
                steps: steps.deep_view(),
            },
            PreflightStep::Ready { prepared } => PreflightStepView::Ready { prepared: prepared@ },
            PreflightStep::Fail { error } => PreflightStepView::Fail { error: error@ },
        }
    }
}

/// What follows once the container is known to be in order and SELinux is
/// settled: the temporary directory of the host is bound in unless that is
/// skipped, and then the installation can start.
pub open spec fn after_selinux(
    env: Environment,
    facts: HostFactsView,
    disable: bool,
) -> PreflightStepView {
    if !env.skip_host_tmp && !facts.host_tmp_bound {
        PreflightStepView::BindHostTmp { steps: bind_mount_steps("/var/tmp"@, "/var/tmp"@, env.pid) }
    } else {
        PreflightStepView::Ready {
            prepared: PreparedView {
                source_imageref: ImageReferenceView {
                    transport: Transport::ContainerStorage,
                    name: facts.container->0.image,
                },
                source_digest: facts.digest->0,
                override_disable_selinux: disable,
            },
        }
    }
}

/// What is to be done next before installing, given the override for
/// SELinux, the environment, and what is known so far.
///
/// In order: process 1 has to be systemd, which shows that the process ids
/// of the host are visible; the process has to run under podman, from an
/// image with an id; the digest of that image is looked up; the process
/// enters its own mount namespace unless that is skipped; `/tmp` has to be
/// a tmpfs and is made one if it is not; the source commit is read; SELinux
/// is reconciled; the temporary directory of the host is bound in.
pub open spec fn next_preflight_step(
    disable_selinux: bool,
    env: Environment,
    facts: HostFactsView,
) -> PreflightStepView {
    match (facts.init_exe, facts.container) {
        (None, _) => PreflightStepView::ReadInitExe,
        (Some(exe), _) if !has_substring(exe, "systemd"@) => PreflightStepView::Fail {
            error: InstallErrorView::HostInitNotVisible,
        },
        (Some(_), None) => PreflightStepView::QueryContainer,
        (Some(_), Some(info)) => if !has_prefix(info.engine, "podman"@) {
            PreflightStepView::Fail {
                error: InstallErrorView::UnsupportedEngine { engine: info.engine },
            }
        } else if info.imageid.len() == 0 {
            PreflightStepView::Fail { error: InstallErrorView::EmptyImageId }
        } else if facts.digest is None {
            PreflightStepView::ResolveDigest { imageid: info.imageid }
        } else if !env.skip_unshare && !facts.unshared {
            PreflightStepView::Unshare
        } else if facts.tmp_is_tmpfs is None {
            PreflightStepView::StatTmp
        } else if facts.tmp_is_tmpfs == Some(false) && !facts.tmpfs_mounted {
            PreflightStepView::MountTmpfs { command: tmpfs_command() }
        } else {
            match facts.source {
                None => PreflightStepView::GatherSource,
                Some(source) => match selinux_step(
                    source.selinux,
                    disable_selinux,
                    facts.host_selinux,
                    facts.install_label_held,
                ) {
                    SelinuxStep::QueryHost => PreflightStepView::QueryHostSelinux,
                    SelinuxStep::EnsureInstallLabel => PreflightStepView::EnsureInstallLabel,
                    SelinuxStep::Unsupported => PreflightStepView::Fail {
                        error: InstallErrorView::SelinuxUnsupportedByHost,
                    },
                    SelinuxStep::Proceed { disable } => after_selinux(env, facts, disable),
                },
            }
        },
    }
}

/// Says what the installer has to do next before it can install.
pub fn prepare_install(config_opts: &InstallConfigOpts, env: Environment, facts: &HostFacts) -> (step:
    PreflightStep)
    ensures
        step@ == next_preflight_step(config_opts.disable_selinux, env, facts@),
{
    let exe = match &facts.init_exe {
        None => {
            return PreflightStep::ReadInitExe;
        },
        Some(exe) => exe,
    };
    if !contains(exe.as_str(), "systemd") {
        return PreflightStep::Fail { error: InstallError::HostInitNotVisible };
    }
    let info = match &facts.container {
        None => {
            return PreflightStep::QueryContainer;
        },
        Some(info) => info,
    };
    if !starts_with(info.engine.as_str(), "podman") {
        return PreflightStep::Fail {
            error: InstallError::UnsupportedEngine { engine: info.engine.clone() },
        };
    }
    if info.imageid.as_str().unicode_len() == 0 {
        return PreflightStep::Fail { error: InstallError::EmptyImageId };
    }
    let digest = match &facts.digest {
        None => {
            return PreflightStep::ResolveDigest { imageid: info.imageid.clone() };
        },
        Some(digest) => digest,
    };
    if !env.skip_unshare && !facts.unshared {
        return PreflightStep::Unshare;
    }
    match facts.tmp_is_tmpfs {
        None => {
            return PreflightStep::StatTmp;
        },
        Some(is_tmpfs) => {
            if !is_tmpfs && !facts.tmpfs_mounted {
                let mut c = CommandSpec::new("Creating tmpfs on /tmp", "mount");
                c.arg("-t");
                c.arg("tmpfs");
                c.arg("tmpfs");
                c.arg("/tmp");
                c.announce = false;
                assert(c@.args =~= tmpfs_command().args);
                return PreflightStep::MountTmpfs { command: c };
            }
        },
    }
    let source = match &facts.source {
        None => {
            return PreflightStep::GatherSource;
        },
        Some(source) => source,
    };
    let disable = match reexecute_self_for_selinux_if_needed(
        source,
        config_opts.disable_selinux,
        facts.host_selinux,
        facts.install_label_held,
    ) {
        SelinuxStep::QueryHost => {
            return PreflightStep::QueryHostSelinux;
        },
        SelinuxStep::EnsureInstallLabel => {
            return PreflightStep::EnsureInstallLabel;
        },
        SelinuxStep::Unsupported => {
            return PreflightStep::Fail { error: InstallError::SelinuxUnsupportedByHost };
        },
        SelinuxStep::Proceed { disable } => disable,
    };
    if !env.skip_host_tmp && !facts.host_tmp_bound {
        return PreflightStep::BindHostTmp {
            steps: bind_mount_from_host("/var/tmp", "/var/tmp", env.pid),
        };
    }
    PreflightStep::Ready {
        prepared: Prepared {
            source_imageref: ImageReference {
                transport: Transport::ContainerStorage,
                name: info.image.clone(),
            },
            source_digest: digest.clone(),
            override_disable_selinux: disable,
        },
    }
}

impl HostFacts {
    /// Nothing is known or arranged yet.
    pub fn new() -> (facts: HostFacts)
        ensures
            facts@ == (HostFactsView {
                init_exe: None,
                container: None,
                digest: None,
                unshared: false,
                tmp_is_tmpfs: None,
                tmpfs_mounted: false,
                source: None,
                host_selinux: None,
                install_label_held: false,
                host_tmp_bound: false,
            }),
    {
        HostFacts {
            init_exe: None,
            container: None,
            digest: None,
            unshared: false,
            tmp_is_tmpfs: None,
            tmpfs_mounted: false,
            source: None,
            host_selinux: None,
            install_label_held: false,
            host_tmp_bound: false,
        }
    }
}

/// An installation starts only from a container run by podman, with the
/// host's init visible, from an image with an id and a known digest, and
/// with SELinux settled; and the image it pulls is named by that digest.
pub proof fn lemma_ready_implies_checked(disable_selinux: bool, env: Environment, facts: HostFactsView)
    requires
        next_preflight_step(disable_selinux, env, facts) is Ready,
    ensures
        facts.init_exe matches Some(exe) && has_substring(exe, "systemd"@),
        facts.container matches Some(info) && has_prefix(info.engine, "podman"@)
            && info.imageid.len() > 0,
        facts.digest matches Some(digest) && next_preflight_step(
            disable_selinux,
            env,
            facts,
        )->prepared.source_digest == digest,
        env.skip_unshare || facts.unshared,
        facts.tmp_is_tmpfs == Some(true) || facts.tmpfs_mounted,
        facts.source matches Some(source) && (source.selinux ==> (facts.host_selinux == Some(true)
            && facts.install_label_held) || (facts.host_selinux == Some(false) && disable_selinux)),
        next_preflight_step(disable_selinux, env, facts)->prepared.override_disable_selinux == (
        facts.source->0.selinux && facts.host_selinux == Some(false)),
{
}

/// Every failure of the preparation lies in the environment or in the
/// configuration.
pub proof fn lemma_preflight_failures(disable_selinux: bool, env: Environment, facts: HostFactsView)
    requires
        next_preflight_step(disable_selinux, env, facts) is Fail,
    ensures
        ({
            let kind = next_preflight_step(disable_selinux, env, facts)->error.kind();
            kind == ErrorKind::Precondition || kind == ErrorKind::Configuration
        }),
{
}

} // verus!
