use axinstall::args::parse_partitions;
use axinstall::strutil::{
    concat_str, contains_str, eq_ignore_ascii_case, find_str, split_char, starts_with, str_eq,
    u64_to_dec,
};

#[test]
fn string_equality_is_exact() {
    assert!(str_eq("ext4", "ext4"));
    assert!(!str_eq("ext4", "ext"));
    assert!(!str_eq("ext4", "Ext4"));
    assert!(str_eq("", ""));
}

#[test]
fn prefix_and_substring_tests() {
    assert!(starts_with("GRUB_CMDLINE_LINUX_DEFAULT=\"quiet\"", "GRUB_CMDLINE_LINUX_DEFAULT="));
    assert!(!starts_with("GRUB", "GRUB_CMDLINE"));
    assert!(contains_str("/dev/nvme0n1", "nvme"));
    assert!(!contains_str("/dev/sda", "nvme"));
    assert_eq!(find_str("abcabc", "ca"), Some(2));
    assert_eq!(find_str("abc", "d"), None);
}

#[test]
fn split_keeps_empty_pieces() {
    let p = split_char("/:/dev/sda1:ext4", ':');
    assert_eq!(p, vec!["/", "/dev/sda1", "ext4"]);
    let p = split_char("a::b", ':');
    assert_eq!(p, vec!["a", "", "b"]);
    let p = split_char("", ':');
    assert_eq!(p, vec![""]);
    let p = split_char(":x:", ':');
    assert_eq!(p, vec!["", "x", ""]);
}

#[test]
fn decimal_rendering_is_exact() {
    assert_eq!(u64_to_dec(0), "0");
    assert_eq!(u64_to_dec(7), "7");
    assert_eq!(u64_to_dec(2048), "2048");
    assert_eq!(u64_to_dec(18446744073709551615), "18446744073709551615");
}

#[test]
fn concatenation_joins_views() {
    assert_eq!(concat_str("/dev/sda", "1"), "/dev/sda1");
    assert_eq!(concat_str("", "x"), "x");
}

#[test]
fn ascii_case_insensitive_comparison() {
    assert!(eq_ignore_ascii_case("KDE", "kde"));
    assert!(eq_ignore_ascii_case("None/DIY", "none/diy"));
    assert!(!eq_ignore_ascii_case("kde", "kd"));
}

#[test]
fn partition_descriptors_parse_by_colons() {
    let p = parse_partitions("/boot/efi:/dev/sda1:fat32").unwrap();
    assert_eq!(p.mountpoint, "/boot/efi");
    assert_eq!(p.blockdevice, "/dev/sda1");
    assert_eq!(p.filesystem, "fat32");
    // extra pieces are ignored
    let p = parse_partitions("/:/dev/sda2:ext4:extra").unwrap();
    assert_eq!(p.filesystem, "ext4");
    assert!(parse_partitions("/boot:/dev/sda1").is_err());
    assert!(parse_partitions("").is_err());
}
