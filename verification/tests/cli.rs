use diskwipe::cli::{parse_args, parse_pass_count, BatchConfig};
use diskwipe::outcome::ConfigError;
use diskwipe::pattern::Pattern;

fn args(list: &[&str]) -> Vec<String> {
    list.iter().map(|s| s.to_string()).collect()
}

#[test]
fn defaults_are_zero_fill_one_pass_no_verify() {
    let config = parse_args(&args(&["/dev/sdb"])).unwrap();
    assert_eq!(config.devices(), &vec![String::from("/dev/sdb")]);
    assert_eq!(config.pattern(), Pattern::Zero);
    assert_eq!(config.pass_count(), 1);
    assert!(!config.verify());
}

#[test]
fn all_flags_together() {
    let config =
        parse_args(&args(&["--random", "--passes", "3", "--verify", "/dev/sdb", "/dev/sdc"]))
            .unwrap();
    assert_eq!(config.devices(), &args(&["/dev/sdb", "/dev/sdc"]));
    assert_eq!(config.pattern(), Pattern::Random);
    assert_eq!(config.pass_count(), 3);
    assert!(config.verify());
}

#[test]
fn flags_may_stand_anywhere() {
    let config =
        parse_args(&args(&["/dev/sdb", "--verify", "/dev/sdc", "--passes", "2", "/dev/sdd"]))
            .unwrap();
    assert_eq!(config.devices(), &args(&["/dev/sdb", "/dev/sdc", "/dev/sdd"]));
    assert_eq!(config.pass_count(), 2);
    assert!(config.verify());
}

#[test]
fn later_pattern_flag_wins() {
    let config = parse_args(&args(&["--random", "--zero", "a"])).unwrap();
    assert_eq!(config.pattern(), Pattern::Zero);
    let config = parse_args(&args(&["--zero", "a", "--random"])).unwrap();
    assert_eq!(config.pattern(), Pattern::Random);
}

#[test]
fn later_pass_count_wins() {
    let config = parse_args(&args(&["--passes", "2", "--passes", "5", "a"])).unwrap();
    assert_eq!(config.pass_count(), 5);
}

#[test]
fn missing_devices_are_refused() {
    assert_eq!(parse_args(&args(&[])).err(), Some(ConfigError::NoDevices));
    assert_eq!(parse_args(&args(&["--zero", "--verify"])).err(), Some(ConfigError::NoDevices));
    assert_eq!(parse_args(&args(&["--passes", "2"])).err(), Some(ConfigError::NoDevices));
}

#[test]
fn passes_without_a_number_is_refused() {
    assert_eq!(parse_args(&args(&["a", "--passes"])).err(), Some(ConfigError::MissingPassCount));
    assert_eq!(parse_args(&args(&["--passes"])).err(), Some(ConfigError::MissingPassCount));
}

#[test]
fn invalid_pass_counts_are_refused() {
    for bad in ["0", "abc", "-1", "", "1.5", "4294967296", "99999999999999999999", " 3", "3 ", "+"] {
        assert_eq!(
            parse_args(&args(&["--passes", bad, "/dev/sdb"])).err(),
            Some(ConfigError::InvalidPassCount),
            "{:?}",
            bad
        );
    }
}

#[test]
fn pass_count_takes_the_next_argument_whatever_it_is() {
    assert_eq!(
        parse_args(&args(&["--passes", "--verify", "a"])).err(),
        Some(ConfigError::InvalidPassCount)
    );
    assert_eq!(
        parse_args(&args(&["--passes", "/dev/sdb"])).err(),
        Some(ConfigError::InvalidPassCount)
    );
}

#[test]
fn largest_pass_count() {
    let config = parse_args(&args(&["--passes", "4294967295", "a"])).unwrap();
    assert_eq!(config.pass_count(), u32::MAX);
    let config = parse_args(&args(&["--passes", "+007", "a"])).unwrap();
    assert_eq!(config.pass_count(), 7);
}

#[test]
fn first_error_from_the_left_is_reported() {
    assert_eq!(
        parse_args(&args(&["--passes", "x", "--passes"])).err(),
        Some(ConfigError::InvalidPassCount)
    );
    assert_eq!(
        parse_args(&args(&["--passes", "0"])).err(),
        Some(ConfigError::InvalidPassCount)
    );
}

#[test]
fn unknown_flag_names_a_device() {
    let config = parse_args(&args(&["--fast", "-v", "--Zero"])).unwrap();
    assert_eq!(config.devices(), &args(&["--fast", "-v", "--Zero"]));
    assert_eq!(config.pattern(), Pattern::Zero);
}

#[test]
fn same_device_twice_is_kept_twice() {
    let config = parse_args(&args(&["a", "a"])).unwrap();
    assert_eq!(config.devices(), &args(&["a", "a"]));
}

#[test]
fn pass_count_argument() {
    assert_eq!(parse_pass_count(&String::from("1")), Some(1));
    assert_eq!(parse_pass_count(&String::from("35")), Some(35));
    assert_eq!(parse_pass_count(&String::from("0")), None);
    assert_eq!(parse_pass_count(&String::from("00")), None);
    assert_eq!(parse_pass_count(&String::from("4294967295")), Some(4294967295));
    assert_eq!(parse_pass_count(&String::from("4294967296")), None);
    assert_eq!(parse_pass_count(&String::from("three")), None);
    assert_eq!(parse_pass_count(&String::from("٣")), None);
}

#[test]
fn batch_made_by_hand() {
    let config = BatchConfig::new(args(&["x", "y"]), Pattern::Random, 2, true).unwrap();
    assert_eq!(config.devices(), &args(&["x", "y"]));
    assert_eq!(config.pattern(), Pattern::Random);
    assert_eq!(config.pass_count(), 2);
    assert!(config.verify());
    assert_eq!(
        BatchConfig::new(Vec::new(), Pattern::Zero, 1, false).err(),
        Some(ConfigError::NoDevices)
    );
    assert_eq!(
        BatchConfig::new(args(&["x"]), Pattern::Zero, 0, false).err(),
        Some(ConfigError::InvalidPassCount)
    );
    assert_eq!(
        BatchConfig::new(Vec::new(), Pattern::Zero, 0, false).err(),
        Some(ConfigError::NoDevices)
    );
}
