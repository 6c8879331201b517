use bootc_install::error::{ErrorKind, InstallError};
use bootc_install::mountspec::{require_boot_uuid, MountSpec};

#[test]
fn parse_full_line() {
    let m = MountSpec::from_str("/dev/vda3 /boot ext4 ro").unwrap();
    assert_eq!(m.source, "/dev/vda3");
    assert_eq!(m.target, "/boot");
    assert_eq!(m.fstype, "ext4");
    assert_eq!(m.options.as_deref(), Some("ro"));
}

#[test]
fn parse_two_fields_defaults_to_auto() {
    let m = MountSpec::from_str("/dev/nvme0n1p4 /").unwrap();
    assert_eq!(m.source, "/dev/nvme0n1p4");
    assert_eq!(m.target, "/");
    assert_eq!(m.fstype, "auto");
    assert_eq!(m.options, None);
    assert_eq!(m.to_fstab(), "/dev/nvme0n1p4 / auto defaults 0 0");
}

#[test]
fn parse_three_fields() {
    let m = MountSpec::from_str("/dev/sda2 /var/mnt xfs").unwrap();
    assert_eq!(m.fstype, "xfs");
    assert_eq!(m.options, None);
    assert_eq!(m.to_fstab(), "/dev/sda2 /var/mnt xfs defaults 0 0");
}

#[test]
fn parse_empty_is_format_error() {
    let e = MountSpec::from_str("").unwrap_err();
    assert!(matches!(e, InstallError::EmptyMountSpec));
    assert_eq!(e.kind(), ErrorKind::Format);
    let e = MountSpec::from_str(" \t\n").unwrap_err();
    assert!(matches!(e, InstallError::EmptyMountSpec));
}

#[test]
fn parse_missing_target_is_format_error() {
    let e = MountSpec::from_str("/dev/vda3").unwrap_err();
    assert_eq!(e.kind(), ErrorKind::Format);
    match e {
        InstallError::MissingMountTarget { spec } => assert_eq!(spec, "/dev/vda3"),
        other => panic!("unexpected error {other:?}"),
    }
}

#[test]
fn parse_splits_on_every_ascii_whitespace() {
    let m = MountSpec::from_str("\t/dev/vda3 \n /boot\rext4\x0Cro,noatime  ").unwrap();
    assert_eq!(m.source, "/dev/vda3");
    assert_eq!(m.target, "/boot");
    assert_eq!(m.fstype, "ext4");
    assert_eq!(m.options.as_deref(), Some("ro,noatime"));
}

#[test]
fn parse_ignores_fields_beyond_the_fourth() {
    let m = MountSpec::from_str("UUID=abc /boot ext4 ro 0 0").unwrap();
    assert_eq!(m.options.as_deref(), Some("ro"));
    assert_eq!(m.to_fstab(), "UUID=abc /boot ext4 ro 0 0");
}

#[test]
fn parse_then_encode_is_idempotent() {
    for text in ["/dev/vda3 /boot", "/dev/vda3 /boot ext4", "/dev/vda3   /boot\text4 ro"] {
        let first = MountSpec::from_str(text).unwrap();
        let line = first.to_fstab();
        assert_eq!(line.split_ascii_whitespace().count(), 6);
        assert!(line.ends_with(" 0 0"));
        let second = MountSpec::from_str(&line).unwrap();
        assert_eq!(second.source, first.source);
        assert_eq!(second.target, first.target);
        assert_eq!(second.fstype, first.fstype);
        assert_eq!(
            second.options.as_deref().unwrap_or("defaults"),
            first.options.as_deref().unwrap_or("defaults")
        );
        assert_eq!(second.to_fstab(), line);
    }
}

#[test]
fn uuid_of_source() {
    let m = MountSpec::new("UUID=2e9f4241-229b-4202-8429-62d2302382e1", "/boot");
    assert_eq!(m.get_source_uuid(), Some("2e9f4241-229b-4202-8429-62d2302382e1"));
    assert_eq!(MountSpec::new("/dev/sda2", "/").get_source_uuid(), None);
    assert_eq!(MountSpec::new("LABEL=root", "/").get_source_uuid(), None);
}

#[test]
fn uuid_key_is_case_insensitive() {
    assert_eq!(MountSpec::new("uuid=abc", "/").get_source_uuid(), Some("abc"));
    assert_eq!(MountSpec::new("UuId=abc=def", "/").get_source_uuid(), Some("abc=def"));
    assert_eq!(MountSpec::new("UUID=", "/").get_source_uuid(), Some(""));
    assert_eq!(MountSpec::new("UUIDX=abc", "/").get_source_uuid(), None);
    assert_eq!(MountSpec::new("UUID", "/").get_source_uuid(), None);
    assert_eq!(MountSpec::new("=UUID", "/").get_source_uuid(), None);
}

#[test]
fn new_uuid_src_builds_uuid_source() {
    let m = MountSpec::new_uuid_src("2e9f4241-229b-4202-8429-62d2302382e1", "/boot");
    assert_eq!(m.source, "UUID=2e9f4241-229b-4202-8429-62d2302382e1");
    assert_eq!(m.target, "/boot");
    assert_eq!(m.fstype, "auto");
    assert_eq!(m.options, None);
    assert_eq!(m.get_source_uuid(), Some("2e9f4241-229b-4202-8429-62d2302382e1"));
    assert_eq!(
        m.to_fstab(),
        "UUID=2e9f4241-229b-4202-8429-62d2302382e1 /boot auto defaults 0 0"
    );
}

#[test]
fn boot_has_to_be_given_by_uuid() {
    let by_uuid = MountSpec::new_uuid_src("abc", "/boot");
    assert_eq!(require_boot_uuid(&by_uuid).unwrap(), "abc");
    let by_label = MountSpec::new("LABEL=boot", "/boot");
    let e = require_boot_uuid(&by_label).unwrap_err();
    assert!(matches!(e, InstallError::BootNotByUuid));
    assert_eq!(e.kind(), ErrorKind::Configuration);
}
