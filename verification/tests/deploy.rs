use bootc_install::command::{CommandSpec, Output, Place, Step};
use bootc_install::deploy::{
    copy_to_oci, initialize_ostree_root_from_self, next_step_with_ostree_dir,
    skopeo_supports_containers_storage, target_image_reference, DeployFacts, DeployStep,
    InstallAleph,
};
use bootc_install::error::{ErrorKind, InstallError};
use bootc_install::finish::{
    add_config_kargs, complete_with, finalize_filesystem, finalize_named_filesystem,
    install_to_filesystem_impl, installation_complete, unmount_filesystems,
};
use bootc_install::image::{
    digested_pullspec, ImageReference, OstreeImageReference, SignatureSource, Transport,
};
use bootc_install::mountspec::MountSpec;
use bootc_install::options::{InstallConfigOpts, InstallTargetOpts};
use bootc_install::preflight::State;
use bootc_install::setup::RootSetup;

fn strings(v: &[&str]) -> Vec<String> {
    v.iter().map(|s| s.to_string()).collect()
}

fn target_opts() -> InstallTargetOpts {
    InstallTargetOpts {
        target_transport: "registry".to_string(),
        target_imgref: None,
        target_no_signature_verification: false,
        target_ostree_remote: None,
    }
}

fn state() -> State {
    State {
        source_imageref: ImageReference {
            transport: Transport::ContainerStorage,
            name: "quay.io/example/os:latest".to_string(),
        },
        source_digest: "sha256:feed".to_string(),
        override_disable_selinux: false,
        config_opts: InstallConfigOpts {
            ignition_file: None,
            ignition_hash: None,
            disable_selinux: false,
            karg: None,
        },
        target_opts: target_opts(),
    }
}

fn root() -> RootSetup {
    RootSetup::new(
        "/dev/vda".to_string(),
        "/mnt/target".to_string(),
        MountSpec::new_uuid_src("boot-uuid", "/boot"),
        strings(&["root=UUID=root-uuid", "rw", "boot=UUID=boot-uuid"]),
    )
    .unwrap()
}

fn line(c: &CommandSpec) -> String {
    format!("{} {}", c.program, c.args.join(" "))
}

fn run_lines(steps: &[Step]) -> Vec<String> {
    steps
        .iter()
        .filter_map(|s| match s {
            Step::Run { command } => Some(line(command)),
            _ => None,
        })
        .collect()
}

#[test]
fn skopeo_versions() {
    assert_eq!(skopeo_supports_containers_storage("skopeo version 1.11.0\n").unwrap(), true);
    assert_eq!(skopeo_supports_containers_storage("skopeo version 1.10.0\n").unwrap(), false);
    assert_eq!(skopeo_supports_containers_storage("skopeo version 1.9.3\n").unwrap(), false);
    assert_eq!(skopeo_supports_containers_storage("skopeo version 2.0.0\n").unwrap(), true);
    assert_eq!(skopeo_supports_containers_storage("skopeo version 0.11.0").unwrap(), true);
    assert_eq!(skopeo_supports_containers_storage("skopeo version 1.10.").unwrap(), false);
    assert_eq!(skopeo_supports_containers_storage("skopeo version 1.14.2-dev\n").unwrap(), true);
}

#[test]
fn malformed_skopeo_reports_are_format_errors() {
    let e = skopeo_supports_containers_storage("podman version 4.3.1").unwrap_err();
    assert_eq!(e.kind(), ErrorKind::Format);
    assert!(matches!(e, InstallError::UnexpectedSkopeoOutput));
    assert!(matches!(
        skopeo_supports_containers_storage("").unwrap_err(),
        InstallError::UnexpectedSkopeoOutput
    ));
    let e = skopeo_supports_containers_storage("skopeo version 1").unwrap_err();
    assert_eq!(e.kind(), ErrorKind::Format);
    assert!(matches!(e, InstallError::MissingSkopeoMinor));
    let e = skopeo_supports_containers_storage("skopeo version one.11.0").unwrap_err();
    assert!(matches!(e, InstallError::InvalidSkopeoNumber { text } if text == "one"));
    let e = skopeo_supports_containers_storage("skopeo version 1.11\n").unwrap_err();
    assert!(matches!(e, InstallError::InvalidSkopeoNumber { text } if text == "11\n"));
    let e = skopeo_supports_containers_storage("skopeo version .5").unwrap_err();
    assert!(matches!(e, InstallError::InvalidSkopeoNumber { text } if text.is_empty()));
}

#[test]
fn image_references_as_text() {
    let r = |transport, name: &str| ImageReference { transport, name: name.to_string() };
    assert_eq!(r(Transport::Registry, "quay.io/x/y").to_text(), "docker://quay.io/x/y");
    assert_eq!(r(Transport::OciDir, "/tmp/d").to_text(), "oci:/tmp/d");
    assert_eq!(r(Transport::OciArchive, "/tmp/a.tar").to_text(), "oci-archive:/tmp/a.tar");
    assert_eq!(r(Transport::DockerArchive, "/tmp/a.tar").to_text(), "docker-archive:/tmp/a.tar");
    assert_eq!(
        r(Transport::ContainerStorage, "localhost/os").to_text(),
        "containers-storage:localhost/os"
    );
    assert_eq!(r(Transport::Dir, "/tmp/d").to_text(), "dir:/tmp/d");

    let o = |sigverify, transport, name: &str| OstreeImageReference {
        sigverify,
        imgref: r(transport, name),
    };
    assert_eq!(
        o(SignatureSource::ContainerPolicyAllowInsecure, Transport::Registry, "quay.io/x/y")
            .to_text(),
        "ostree-unverified-registry:quay.io/x/y"
    );
    assert_eq!(
        o(SignatureSource::ContainerPolicyAllowInsecure, Transport::OciDir, "/tmp/d").to_text(),
        "ostree-unverified-image:oci:/tmp/d"
    );
    assert_eq!(
        o(SignatureSource::ContainerPolicy, Transport::Registry, "quay.io/x/y").to_text(),
        "ostree-image-signed:docker://quay.io/x/y"
    );
    assert_eq!(
        o(
            SignatureSource::OstreeRemote { remote: "fedora".to_string() },
            Transport::Registry,
            "quay.io/x/y"
        )
        .to_text(),
        "ostree-remote-image:fedora:docker://quay.io/x/y"
    );
}

#[test]
fn transports_by_name() {
    for (name, t) in [
        ("registry", Transport::Registry),
        ("docker", Transport::Registry),
        ("oci", Transport::OciDir),
        ("oci-archive", Transport::OciArchive),
        ("docker-archive", Transport::DockerArchive),
        ("containers-storage", Transport::ContainerStorage),
        ("dir", Transport::Dir),
    ] {
        assert_eq!(Transport::try_from_name(name).unwrap(), t);
    }
    let e = Transport::try_from_name("ftp").unwrap_err();
    assert_eq!(e.kind(), ErrorKind::Configuration);
    assert!(matches!(e, InstallError::UnknownTransport { name } if name == "ftp"));
}

#[test]
fn pull_spec_is_pinned_to_the_digest() {
    assert_eq!(digested_pullspec("quay.io/x/y:latest", "sha256:feed"), "quay.io/x/y:latest@sha256:feed");
    assert_eq!(digested_pullspec("quay.io/x/y@sha256:old", "sha256:feed"), "quay.io/x/y@sha256:feed");
    assert_eq!(digested_pullspec("a@b@c", "d"), "a@b@d");
    assert_eq!(digested_pullspec("", "d"), "@d");
    assert_eq!(digested_pullspec("x@", "d"), "x@d");
}

#[test]
fn target_image_follows_the_options() {
    let source = state().source_imageref;
    let t = target_image_reference(&target_opts(), &source).unwrap();
    assert!(matches!(t.sigverify, SignatureSource::ContainerPolicy));
    assert_eq!(t.imgref.transport, Transport::ContainerStorage);
    assert_eq!(t.imgref.name, "quay.io/example/os:latest");

    let mut o = target_opts();
    o.target_imgref = Some("quay.io/example/os:stable".to_string());
    o.target_ostree_remote = Some("fedora".to_string());
    let t = target_image_reference(&o, &source).unwrap();
    assert!(matches!(&t.sigverify, SignatureSource::OstreeRemote { remote } if remote == "fedora"));
    assert_eq!(t.imgref.transport, Transport::Registry);
    assert_eq!(t.imgref.name, "quay.io/example/os:stable");

    o.target_no_signature_verification = true;
    let t = target_image_reference(&o, &source).unwrap();
    assert!(matches!(t.sigverify, SignatureSource::ContainerPolicyAllowInsecure));

    o.target_transport = "carrier-pigeon".to_string();
    let e = target_image_reference(&o, &source).unwrap_err();
    assert!(matches!(e, InstallError::UnknownTransport { name } if name == "carrier-pigeon"));

    o.target_imgref = None;
    assert!(target_image_reference(&o, &source).is_ok());
}

#[test]
fn copy_to_oci_command() {
    let (c, dest) = copy_to_oci(&state().source_imageref, "/var/tmp/.tmpX");
    assert_eq!(c.description, "Copying to temporary OCI (skopeo is too old)");
    assert_eq!(
        line(&c),
        "skopeo copy containers-storage:quay.io/example/os:latest oci:/var/tmp/.tmpX"
    );
    assert_eq!(c.place, Place::HostMounts);
    assert_eq!(dest.transport, Transport::OciDir);
    assert_eq!(dest.name, "/var/tmp/.tmpX");
}

#[test]
fn deployment_from_container_storage() {
    let (s, r) = (state(), root());
    let mut f = DeployFacts::new();
    match initialize_ostree_root_from_self(&s, &r, &f) {
        DeployStep::Initialize { steps } => {
            assert_eq!(
                run_lines(&steps),
                vec![
                    "ostree admin init-fs --modern /mnt/target",
                    "ostree config --repo ostree/repo set sysroot.bootloader none",
                    "ostree config --repo ostree/repo set sysroot.readonly true",
                    "ostree admin os-init default --sysroot .",
                ]
            );
            assert_eq!(steps.len(), 6);
            assert!(matches!(&steps[0], Step::Run { command } if command.place == Place::Here));
            assert!(matches!(&steps[1], Step::Run { command } if command.place == Place::TargetRoot && !command.announce));
            assert!(matches!(&steps[3], Step::Run { command } if command.place == Place::TargetRoot && command.announce));
            assert!(matches!(&steps[4], Step::Label { path, as_path, recurse: true }
                if path == "/mnt/target/ostree" && as_path == "/usr"));
            assert!(matches!(&steps[5], Step::LoadSysroot { path } if path == "/mnt/target"));
        }
        other => panic!("unexpected {other:?}"),
    }
    f.initialized = true;
    match initialize_ostree_root_from_self(&s, &r, &f) {
        DeployStep::QuerySkopeoVersion { command } => {
            assert_eq!(line(&command), "skopeo --version");
            assert_eq!(command.place, Place::HostMounts);
            assert_eq!(command.output, Output::OnFailure);
        }
        other => panic!("unexpected {other:?}"),
    }
    f.skopeo_version = Some("skopeo version 1.12.0\n".to_string());
    match initialize_ostree_root_from_self(&s, &r, &f) {
        DeployStep::Deploy { request } => {
            assert_eq!(request.stateroot, "default");
            assert!(matches!(request.source.sigverify, SignatureSource::ContainerPolicyAllowInsecure));
            assert_eq!(request.source.imgref.transport, Transport::ContainerStorage);
            assert_eq!(request.source.imgref.name, "quay.io/example/os:latest@sha256:feed");
            assert!(matches!(request.target.sigverify, SignatureSource::ContainerPolicy));
            assert_eq!(request.target.imgref.name, "quay.io/example/os:latest");
            assert_eq!(request.kargs, r.kargs);
        }
        other => panic!("unexpected {other:?}"),
    }
    f.deployed = Some("sha256:manifest".to_string());
    assert!(matches!(initialize_ostree_root_from_self(&s, &r, &f), DeployStep::FindDeployment));
    f.looked_up = true;
    match initialize_ostree_root_from_self(&s, &r, &f) {
        DeployStep::Fail { error } => {
            assert_eq!(error.kind(), ErrorKind::Format);
            assert!(matches!(error, InstallError::MissingDeployment));
        }
        other => panic!("unexpected {other:?}"),
    }
    f.deployment_dir = Some("ostree/deploy/default/deploy/abc.0".to_string());
    match initialize_ostree_root_from_self(&s, &r, &f) {
        DeployStep::AppendFstab { dir, file, line } => {
            assert_eq!(dir, "ostree/deploy/default/deploy/abc.0");
            assert_eq!(file, "etc/fstab");
            assert_eq!(line, "UUID=boot-uuid /boot auto defaults 0 0");
        }
        other => panic!("unexpected {other:?}"),
    }
    f.fstab_written = true;
    assert!(matches!(initialize_ostree_root_from_self(&s, &r, &f), DeployStep::ReadKernelRelease));
    f.kernel_release = Some("6.1.0-1.x86_64".to_string());
    match initialize_ostree_root_from_self(&s, &r, &f) {
        DeployStep::Done { aleph } => {
            assert_eq!(aleph.image, "quay.io/example/os:latest@sha256:feed");
            assert_eq!(aleph.kernel, "6.1.0-1.x86_64");
        }
        other => panic!("unexpected {other:?}"),
    }
}

#[test]
fn old_skopeo_stages_through_an_oci_directory() {
    let (s, r) = (state(), root());
    let mut f = DeployFacts::new();
    f.initialized = true;
    f.skopeo_version = Some("skopeo version 1.9.0\n".to_string());
    match initialize_ostree_root_from_self(&s, &r, &f) {
        DeployStep::CreateStagingDir { parent } => assert_eq!(parent, "/var/tmp"),
        other => panic!("unexpected {other:?}"),
    }
    f.staging_dir = Some("/var/tmp/.tmpX".to_string());
    match initialize_ostree_root_from_self(&s, &r, &f) {
        DeployStep::Stage { command } => assert_eq!(
            line(&command),
            "skopeo copy containers-storage:quay.io/example/os:latest oci:/var/tmp/.tmpX"
        ),
        other => panic!("unexpected {other:?}"),
    }
    f.staged = true;
    match initialize_ostree_root_from_self(&s, &r, &f) {
        DeployStep::Deploy { request } => {
            assert_eq!(request.source.imgref.transport, Transport::OciDir);
            assert_eq!(request.source.imgref.name, "/var/tmp/.tmpX");
        }
        other => panic!("unexpected {other:?}"),
    }
    f.deployed = Some("sha256:manifest".to_string());
    f.looked_up = true;
    f.deployment_dir = Some("d".to_string());
    f.fstab_written = true;
    f.kernel_release = Some("6.1".to_string());
    match initialize_ostree_root_from_self(&s, &r, &f) {
        DeployStep::Done { aleph } => assert_eq!(aleph.image, "/var/tmp/.tmpX"),
        other => panic!("unexpected {other:?}"),
    }
}

#[test]
fn bad_transport_or_skopeo_report_fails_the_deployment() {
    let mut s = state();
    s.target_opts.target_imgref = Some("x".to_string());
    s.target_opts.target_transport = "nope".to_string();
    assert!(matches!(
        initialize_ostree_root_from_self(&s, &root(), &DeployFacts::new()),
        DeployStep::Fail { error: InstallError::UnknownTransport { .. } }
    ));
    let mut f = DeployFacts::new();
    f.initialized = true;
    f.skopeo_version = Some("garbage".to_string());
    assert!(matches!(
        next_step_with_ostree_dir(&state(), &root(), &f, "/mnt/target/ostree"),
        DeployStep::Fail { error: InstallError::UnexpectedSkopeoOutput }
    ));
}

#[test]
fn configuration_adds_kernel_arguments() {
    let mut r = root();
    add_config_kargs(&state(), &mut r);
    assert_eq!(r.kargs, strings(&["root=UUID=root-uuid", "rw", "boot=UUID=boot-uuid"]));

    let mut s = state();
    s.override_disable_selinux = true;
    s.config_opts.ignition_file = Some("/tmp/config.ign".to_string());
    add_config_kargs(&s, &mut r);
    assert_eq!(
        r.kargs,
        strings(&[
            "root=UUID=root-uuid",
            "rw",
            "boot=UUID=boot-uuid",
            "selinux=0",
            "ignition.platform.id=metal",
            "$ignition_firstboot",
        ])
    );
    assert_eq!(r.device, "/dev/vda");
    assert_eq!(r.rootfs, "/mnt/target");
}

#[test]
fn finalization_trims_remounts_and_flushes() {
    let f = finalize_filesystem("/mnt/target/boot").unwrap();
    assert_eq!(f.filesystem, "/mnt/target/boot");
    assert_eq!(
        run_lines(&f.steps),
        vec![
            "fstrim -v /mnt/target/boot",
            "mount -o remount,ro /mnt/target/boot",
            "xfs_freeze -f /mnt/target/boot",
            "xfs_freeze -u /mnt/target/boot",
        ]
    );
    let descriptions: Vec<(&str, bool)> = f
        .steps
        .iter()
        .map(|s| match s {
            Step::Run { command } => (command.description.as_str(), command.announce),
            other => panic!("unexpected {other:?}"),
        })
        .collect();
    assert_eq!(
        descriptions,
        vec![
            ("Trimming boot", true),
            ("Finalizing filesystem boot", true),
            ("Flushing filesystem journal", false),
            ("Flushing filesystem journal", false),
        ]
    );
    assert!(finalize_filesystem("/").is_none());
    assert!(finalize_filesystem("/mnt/..").is_none());
    let named = finalize_named_filesystem("/", "root");
    assert_eq!(run_lines(&named.steps)[0], "fstrim -v /");
}

#[test]
fn finalization_failures_have_their_own_kind() {
    let f = finalize_filesystem("/mnt/target").unwrap();
    let Step::Run { command } = &f.steps[1] else { panic!("not a command") };
    let e = f.failure(command, 32);
    assert_eq!(e.kind(), ErrorKind::Finalization);
    assert_eq!(
        e.message(),
        "Finalizing /mnt/target: Finalizing filesystem target: command exited with status 32"
    );
    match e {
        InstallError::FinalizationFailed { filesystem, purpose, status } => {
            assert_eq!(filesystem, "/mnt/target");
            assert_eq!(purpose, "Finalizing filesystem target");
            assert_eq!(status, 32);
        }
        other => panic!("unexpected error {other:?}"),
    }
    assert!(command.check(0).is_ok());
    let e = command.check(1).unwrap_err();
    assert_eq!(e.kind(), ErrorKind::Tool);
    assert_eq!(e.message(), "Finalizing filesystem target: command exited with status 1");
    assert!(matches!(e, InstallError::ToolFailed { purpose, status: 1 }
        if purpose == "Finalizing filesystem target"));
    assert_eq!(
        command.check(-9).unwrap_err().message(),
        "Finalizing filesystem target: command exited with status -9"
    );
}

#[test]
fn completion_plan() {
    let aleph = InstallAleph { image: "img@sha256:feed".to_string(), kernel: "6.1".to_string() };
    let mut s = state();
    s.config_opts.ignition_file = Some("/tmp/config.ign".to_string());
    s.config_opts.ignition_hash = Some("sha256-abcd".to_string());
    let plan = install_to_filesystem_impl(&s, &root(), &aleph).unwrap();
    assert!(plan.outcome.is_ok());
    assert_eq!(plan.steps.len(), 5);
    assert!(matches!(&plan.steps[0], Step::WriteAleph { path, image, kernel }
        if path == ".bootc-aleph.json" && image == "img@sha256:feed" && kernel == "6.1"));
    assert!(matches!(&plan.steps[1], Step::InstallBootloader { device, rootfs, boot_uuid }
        if device == "/dev/vda" && rootfs == "/mnt/target" && boot_uuid == "boot-uuid"));
    assert!(matches!(&plan.steps[2], Step::WriteIgnition { bootfs, file, hash }
        if bootfs == "/mnt/target/boot" && file == "/tmp/config.ign"
            && hash.as_deref() == Some("sha256-abcd")));
    assert!(matches!(&plan.steps[3], Step::EnableFirstboot { bootfs } if bootfs == "/mnt/target/boot"));
    match &plan.steps[4] {
        Step::Run { command } => {
            assert_eq!(command.description, "Setting root immutable bit");
            assert_eq!(line(command), "chattr +i .");
            assert_eq!(command.place, Place::TargetRoot);
        }
        other => panic!("unexpected {other:?}"),
    }
    assert_eq!(plan.finalize.len(), 2);
    assert_eq!(plan.finalize[0].filesystem, "/mnt/target/boot");
    assert_eq!(
        run_lines(&plan.finalize[0].steps),
        vec![
            "fstrim -v /mnt/target/boot",
            "mount -o remount,ro /mnt/target/boot",
            "xfs_freeze -f /mnt/target/boot",
            "xfs_freeze -u /mnt/target/boot",
        ]
    );
    assert_eq!(plan.finalize[1].filesystem, "/mnt/target");
    assert_eq!(
        run_lines(&plan.finalize[1].steps),
        vec![
            "fstrim -v /mnt/target",
            "mount -o remount,ro /mnt/target",
            "xfs_freeze -f /mnt/target",
            "xfs_freeze -u /mnt/target",
        ]
    );

    let plain = install_to_filesystem_impl(&state(), &root(), &aleph).unwrap();
    assert_eq!(plain.steps.len(), 3);
}

#[test]
fn boot_without_uuid_fails_after_the_record_is_written() {
    let aleph = InstallAleph { image: "img".to_string(), kernel: "6.1".to_string() };
    let mut r = root();
    r.boot = MountSpec::new("LABEL=boot", "/boot");
    let plan = complete_with(&state(), &r, &aleph, "/mnt/target/boot", Vec::new());
    assert_eq!(plan.steps.len(), 1);
    assert!(matches!(&plan.steps[0], Step::WriteAleph { .. }));
    assert!(plan.finalize.is_empty());
    let e = plan.outcome.unwrap_err();
    assert!(matches!(e, InstallError::BootNotByUuid));
}

#[test]
fn root_without_a_name_cannot_be_finalized() {
    let aleph = InstallAleph { image: "img".to_string(), kernel: "6.1".to_string() };
    let r = RootSetup::new(
        "/dev/vda".to_string(),
        "/".to_string(),
        MountSpec::new_uuid_src("boot-uuid", "/boot"),
        Vec::new(),
    )
    .unwrap();
    assert!(install_to_filesystem_impl(&state(), &r, &aleph).is_none());
}

#[test]
fn root_setup_requires_paths() {
    let boot = || MountSpec::new_uuid_src("b", "/boot");
    let e = RootSetup::new(String::new(), "/mnt".to_string(), boot(), Vec::new()).unwrap_err();
    assert_eq!(e.kind(), ErrorKind::Configuration);
    assert!(matches!(e, InstallError::EmptyDevicePath));
    let e = RootSetup::new("/dev/vda".to_string(), String::new(), boot(), Vec::new()).unwrap_err();
    assert!(matches!(e, InstallError::EmptyRootPath));
    let mut r = RootSetup::new("/dev/vda".to_string(), "/mnt".to_string(), boot(), Vec::new()).unwrap();
    r.push_karg("quiet");
    assert_eq!(r.kargs, strings(&["quiet"]));
}

#[test]
fn unmount_and_completion_notice() {
    let c = unmount_filesystems("/run/bootc/mounts/rootfs");
    assert_eq!(c.description, "Unmounting filesystems");
    assert_eq!(line(&c), "umount -R /run/bootc/mounts/rootfs");
    assert_eq!(installation_complete(), "Installation complete!");
}
