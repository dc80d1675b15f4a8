use diskwipe::control::Event;
use diskwipe::decimal::{parse_u64, parse_u64_from};
use diskwipe::oracle::{
    consents, contains_between, holders_listed, mount_table_lists, offers_unmount, opened_event,
    parse_size_report, trim_bounds, usage_event, PreconditionPolicy,
};

const MOUNTS: &[u8] = b"/dev/sda1 / ext4 rw,relatime 0 0\n/dev/sdb1 /mnt/data ext4 rw 0 0\nproc /proc proc rw 0 0\n";

#[test]
fn mounted_device_is_found_in_the_table() {
    assert!(mount_table_lists(MOUNTS, b"/dev/sda1"));
    assert!(mount_table_lists(MOUNTS, b"/dev/sdb1"));
    assert!(mount_table_lists(MOUNTS, b"/dev/sdb"));
    assert!(mount_table_lists(MOUNTS, b"proc"));
    assert!(mount_table_lists(MOUNTS, b"rw 0 0"));
}

#[test]
fn unmounted_device_is_not_found() {
    assert!(!mount_table_lists(MOUNTS, b"/dev/sdc"));
    assert!(!mount_table_lists(MOUNTS, b"/dev/sda2"));
    assert!(!mount_table_lists(MOUNTS, b"test.img"));
}

#[test]
fn match_must_lie_within_one_line() {
    assert!(!mount_table_lists(MOUNTS, b"0 0\n/dev/sdb1"));
    assert!(!mount_table_lists(b"/dev/\nsda", b"/dev/sda"));
    assert!(!mount_table_lists(MOUNTS, b"\n"));
    assert!(!mount_table_lists(b"abc\n", b"abc\n"));
}

#[test]
fn last_line_needs_no_newline() {
    assert!(mount_table_lists(b"/dev/sda1 /\n/dev/sdb1 /mnt", b"/dev/sdb1"));
    assert!(mount_table_lists(b"/dev/sdb1", b"/dev/sdb1"));
    assert!(mount_table_lists(b"x", b"x"));
}

#[test]
fn carriage_return_before_newline_is_no_part_of_the_line() {
    assert!(mount_table_lists(b"/dev/sda1 /\r\n", b"/dev/sda1 /"));
    assert!(!mount_table_lists(b"/dev/sda1 /\r\n", b"/\r"));
    assert!(mount_table_lists(b"/dev/sda1 /\r", b"/\r"));
    assert!(mount_table_lists(b"a\rb\n", b"a\rb"));
    assert!(!mount_table_lists(b"\r\n", b"\r"));
}

#[test]
fn empty_device_name_matches_any_line() {
    assert!(mount_table_lists(MOUNTS, b""));
    assert!(mount_table_lists(b"\n", b""));
    assert!(mount_table_lists(b"\r\n", b""));
    assert!(!mount_table_lists(b"", b""));
}

#[test]
fn empty_table_lists_nothing() {
    assert!(!mount_table_lists(b"", b"/dev/sda"));
    assert!(!mount_table_lists(b"\n\n\n", b"/dev/sda"));
}

#[test]
fn device_longer_than_any_line() {
    assert!(!mount_table_lists(b"ab\ncd\n", b"abcd"));
    assert!(!mount_table_lists(b"ab", b"abc"));
}

#[test]
fn search_between_bounds() {
    let text = b"hello world";
    assert!(contains_between(text, 0, 11, b"world"));
    assert!(contains_between(text, 6, 11, b"world"));
    assert!(!contains_between(text, 7, 11, b"world"));
    assert!(!contains_between(text, 0, 10, b"world"));
    assert!(contains_between(text, 0, 5, b"hello"));
    assert!(contains_between(text, 3, 3, b""));
    assert!(!contains_between(text, 3, 3, b"l"));
    assert!(contains_between(text, 0, 11, b"o w"));
    assert!(contains_between(b"aaab", 0, 4, b"aab"));
}

#[test]
fn any_listing_means_in_use() {
    assert!(!holders_listed(b""));
    assert!(holders_listed(b"COMMAND PID USER\ndd 4242 root\n"));
    assert!(holders_listed(b"\n"));
    assert!(holders_listed(b" "));
}

#[test]
fn size_report_is_read() {
    assert_eq!(parse_size_report(b"10485760\n"), Some(10485760));
    assert_eq!(parse_size_report(b"10485760"), Some(10485760));
    assert_eq!(parse_size_report(b"  \t512\r\n"), Some(512));
    assert_eq!(parse_size_report(b"0\n"), Some(0));
    assert_eq!(parse_size_report(b"+42\n"), Some(42));
    assert_eq!(parse_size_report(b"000123\n"), Some(123));
    assert_eq!(parse_size_report(b"\x0b\x0c7\x0b\x0c"), Some(7));
    assert_eq!(parse_size_report(b"18446744073709551615\n"), Some(u64::MAX));
    assert_eq!(
        parse_size_report(b"000000000000000000000000018446744073709551615"),
        Some(u64::MAX)
    );
}

#[test]
fn unreadable_size_report_is_refused() {
    assert_eq!(parse_size_report(b""), None);
    assert_eq!(parse_size_report(b"\n"), None);
    assert_eq!(parse_size_report(b"   "), None);
    assert_eq!(parse_size_report(b"abc\n"), None);
    assert_eq!(parse_size_report(b"12 34\n"), None);
    assert_eq!(parse_size_report(b"-5\n"), None);
    assert_eq!(parse_size_report(b"+\n"), None);
    assert_eq!(parse_size_report(b"++5\n"), None);
    assert_eq!(parse_size_report(b"5+\n"), None);
    assert_eq!(parse_size_report(b"1.5\n"), None);
    assert_eq!(parse_size_report(b"0x10\n"), None);
    assert_eq!(parse_size_report(b"18446744073709551616\n"), None);
    assert_eq!(parse_size_report(b"99999999999999999999999\n"), None);
    assert_eq!(parse_size_report(b"blockdev: cannot open /dev/sdz: No such file\n"), None);
}

#[test]
fn decimal_numbers() {
    assert_eq!(parse_u64(b"0"), Some(0));
    assert_eq!(parse_u64(b"7"), Some(7));
    assert_eq!(parse_u64(b"+7"), Some(7));
    assert_eq!(parse_u64(b"1234567890"), Some(1234567890));
    assert_eq!(parse_u64(b"18446744073709551615"), Some(u64::MAX));
    assert_eq!(parse_u64(b"18446744073709551616"), None);
    assert_eq!(parse_u64(b"18446744073709551620"), None);
    assert_eq!(parse_u64(b""), None);
    assert_eq!(parse_u64(b"+"), None);
    assert_eq!(parse_u64(b" 7"), None);
    assert_eq!(parse_u64(b"7 "), None);
    assert_eq!(parse_u64(b"7a"), None);
    assert_eq!(parse_u64(b"/"), None);
    assert_eq!(parse_u64(b":"), None);
    assert_eq!(parse_u64_from(b"ab123cd", 2, 5), Some(123));
    assert_eq!(parse_u64_from(b"ab123cd", 2, 6), None);
    assert_eq!(parse_u64_from(b"ab123cd", 2, 2), None);
    assert_eq!(parse_u64_from(b"ab+9", 2, 4), Some(9));
    assert_eq!(parse_u64_from(b"ab+9", 2, 3), None);
}

#[test]
fn trimming() {
    assert_eq!(trim_bounds(b"  ab c \n"), (2, 6));
    assert_eq!(trim_bounds(b"abc"), (0, 3));
    assert_eq!(trim_bounds(b""), (0, 0));
    let (lo, hi) = trim_bounds(b" \t\r\n");
    assert_eq!(lo, hi);
    assert_eq!(trim_bounds(b"\x0bx\x0c"), (1, 2));
    assert_eq!(trim_bounds(b"\x08x\x0e"), (0, 3));
}

#[test]
fn consent_is_a_single_y() {
    assert!(consents(b"y"));
    assert!(consents(b"Y"));
    assert!(consents(b"y\n"));
    assert!(consents(b"  Y \r\n"));
    assert!(!consents(b""));
    assert!(!consents(b"\n"));
    assert!(!consents(b"n"));
    assert!(!consents(b"yes"));
    assert!(!consents(b"yy"));
    assert!(!consents(b"y y"));
    assert!(!consents(b"x"));
}

#[test]
fn unmount_is_offered_only_under_the_prompting_policy() {
    assert!(offers_unmount(PreconditionPolicy::PromptUnmount, true, false));
    assert!(offers_unmount(PreconditionPolicy::PromptUnmount, false, true));
    assert!(offers_unmount(PreconditionPolicy::PromptUnmount, true, true));
    assert!(!offers_unmount(PreconditionPolicy::PromptUnmount, false, false));
    assert!(!offers_unmount(PreconditionPolicy::Abort, true, true));
    assert!(!offers_unmount(PreconditionPolicy::Abort, false, false));
}

#[test]
fn usage_signal_joins_both_reports() {
    match usage_event(MOUNTS, b"", b"/dev/sdb1") {
        Event::Usage { mounted, in_use } => {
            assert!(mounted);
            assert!(!in_use);
        }
        other => panic!("unexpected {:?}", other),
    }
    match usage_event(MOUNTS, b"dd 1 root\n", b"/dev/sdq") {
        Event::Usage { mounted, in_use } => {
            assert!(!mounted);
            assert!(in_use);
        }
        other => panic!("unexpected {:?}", other),
    }
}

#[test]
fn open_signal_carries_the_reported_size() {
    match opened_event(b"1572864\n") {
        Event::Opened { total_bytes } => assert_eq!(total_bytes, 1572864),
        other => panic!("unexpected {:?}", other),
    }
    assert!(matches!(opened_event(b"no such device\n"), Event::SizeUnavailable));
    assert!(matches!(opened_event(b""), Event::SizeUnavailable));
}
