use bootc_install::size::parse_size_mib;
use bootc_install::text::{
    chars_of, contains, parse_u64, split_ascii_whitespace, starts_with, str_eq, u64_to_decimal,
};
use bootc_install::error::{ErrorKind, InstallError};

#[test]
fn split_matches_std() {
    for text in ["", "   ", "a", " a ", "a b", "a\tb\nc", "  one\r\ntwo\x0Cthree  ", "x\u{b}y z"] {
        let ours = split_ascii_whitespace(text);
        let std: Vec<String> = text.split_ascii_whitespace().map(|s| s.to_string()).collect();
        assert_eq!(ours, std, "for {text:?}");
    }
}

#[test]
fn split_keeps_non_ascii_characters_whole() {
    assert_eq!(split_ascii_whitespace("é ü\u{a0}x"), vec!["é", "ü\u{a0}x"]);
}

#[test]
fn chars_are_collected_in_order() {
    assert_eq!(chars_of("a=ü"), vec!['a', '=', 'ü']);
    assert_eq!(chars_of(""), Vec::<char>::new());
}

#[test]
fn string_comparisons() {
    assert!(str_eq("boot", "boot"));
    assert!(!str_eq("boot", "boot "));
    assert!(starts_with("podman-remote", "podman"));
    assert!(starts_with("podman", "podman"));
    assert!(!starts_with("podma", "podman"));
    assert!(starts_with("x", ""));
    assert!(contains("/usr/lib/systemd/systemd", "systemd"));
    assert!(contains("systemd", "systemd"));
    assert!(!contains("/sbin/init", "systemd"));
    assert!(!contains("system", "systemd"));
    assert!(contains("", ""));
}

#[test]
fn decimal_notation() {
    assert_eq!(u64_to_decimal(0), "0");
    assert_eq!(u64_to_decimal(7), "7");
    assert_eq!(u64_to_decimal(10), "10");
    assert_eq!(u64_to_decimal(510), "510");
    assert_eq!(u64_to_decimal(u64::MAX), "18446744073709551615");
}

#[test]
fn unsigned_numbers_are_read_as_std_reads_them() {
    for text in [
        "0", "7", "007", "+5", "18446744073709551615", "18446744073709551616", "", "+", "-1",
        "1 ", " 1", "1_0", "12a", "++1", "99999999999999999999999",
    ] {
        assert_eq!(parse_u64(text), text.parse::<u64>().ok(), "for {text:?}");
    }
}

#[test]
fn sizes_in_mebibytes() {
    assert_eq!(parse_size_mib("0M").unwrap(), 0);
    assert_eq!(parse_size_mib("10M").unwrap(), 10);
    assert_eq!(parse_size_mib("10MiB").unwrap(), 10);
    assert_eq!(parse_size_mib("10").unwrap(), 10);
    assert_eq!(parse_size_mib("1G").unwrap(), 1024);
    assert_eq!(parse_size_mib("9G").unwrap(), 9216);
    assert_eq!(parse_size_mib("9GiB").unwrap(), 9216);
    assert_eq!(parse_size_mib("11T").unwrap(), 11 * 1024 * 1024);
    assert_eq!(parse_size_mib("11TiB").unwrap(), 11 * 1024 * 1024);
    assert_eq!(parse_size_mib("17592186044415M").unwrap(), 17592186044415);
}

#[test]
fn invalid_sizes_are_format_errors() {
    for text in ["", "M", "G", "10K", "10MB", "10 M", "1.5G", "-1M", "10Mi", "1GT", "x"] {
        let e = parse_size_mib(text).unwrap_err();
        assert_eq!(e.kind(), ErrorKind::Format, "for {text:?}");
        match e {
            InstallError::InvalidSize { text: t } => assert_eq!(t, text),
            other => panic!("unexpected error {other:?}"),
        }
    }
}

#[test]
fn sizes_beyond_64_bits_are_refused() {
    assert_eq!(parse_size_mib("18446744073709551615M").unwrap(), u64::MAX);
    assert!(parse_size_mib("18446744073709551616M").is_err());
    assert!(parse_size_mib("18014398509481984G").is_err());
    assert_eq!(parse_size_mib("18014398509481983G").unwrap(), 18014398509481983 * 1024);
    assert!(parse_size_mib("17592186044416T").is_err());
}
