use mkfs_btrfs_rs::format::{ChecksumAlgorithm, DataProfile, Formatter, FormatterOptions};
use mkfs_btrfs_rs::Error;
use std::io;

fn there() -> io::Result<bool> {
    Ok(true)
}

fn missing() -> io::Result<bool> {
    Ok(false)
}

fn denied() -> io::Result<bool> {
    Err(io::Error::new(io::ErrorKind::PermissionDenied, "probe refused"))
}

/// Test every single option
#[test]
fn format_start_to_finish() -> Result<(), Error> {
    let path = "/tmp/test.btrfs";

    let options = Formatter::options()
        .byte_count(536_870_912_u64)
        .expect("536,870,912_u64 is a valid byte_count.")
        .checksum(ChecksumAlgorithm::Crc32c)
        .expect("CRC32C is a valid ChecksumAlgorithm.")
        .data(DataProfile::Dup)
        .expect("Dup is a valid DataProfile.")
        .features(&["mixed-bg"])
        .expect("mixed-bg is valid feature.")
        .force()
        .expect("`force` should not fail.")
        .label("label-label")
        .expect("label-label is 11 characters. Max 255.")
        .metadata(DataProfile::Dup)
        .expect("Dup is a valid DataProfile.")
        .mixed()
        .expect("`mixed` should not fail.")
        .no_discard()
        .expect("`no_discard` should not fail.")
        .nodesize(4096_usize)
        .expect("4096 is a valid nodesize")
        .rootdir("src", there())
        .expect("Path should exist (it's the path of this directory")
        .runtime_features(&["quota"])
        .expect("quota is a valid runtime feature")
        .sectorsize(4096_usize)
        .expect("4096 is a valid sectorsize")
        .shrink()
        .expect("`shrink` should never fail.")
        .uuid("73e1b7e2-a3a8-49c2-b258-06f01a889bba")
        .expect("This uuid is of the correct format");
    let dump = options.dump_args();
    let argv = options
        .build()
        .format(path, there())
        .expect("Format::format should succeed.");

    assert_eq!(
        argv,
        vec![
            "--byte-count=536870912",
            "--checksum=crc32c",
            "--data=dup",
            "--features=mixed-bg",
            "--force",
            "--label=label-label",
            "--metadata=dup",
            "--mixed",
            "--nodiscard",
            "--nodesize=4096",
            "--rootdir=src",
            "--runtime-features=quota",
            "--sectorsize=4096",
            "--shrink",
            "--uuid=73e1b7e2-a3a8-49c2-b258-06f01a889bba",
            "/tmp/test.btrfs",
        ]
    );
    assert_eq!(dump, format!("{:#?}", &argv[..15]));
    Ok(())
}

/// Test very long strings in .label:
#[test]
fn very_long_label() {
    let label = String::from_utf8(vec![b'A'; 256]).unwrap();
    Formatter::options()
        .label(&label)
        .expect_err("Must reject labels greater than 255 bytes");
}

#[test]
fn label_of_255_bytes_is_accepted() {
    let label = String::from_utf8(vec![b'A'; 255]).unwrap();
    let args = Formatter::options().label(&label).unwrap().to_args();
    assert_eq!(args, vec![format!("--label={label}")]);
}

#[test]
fn label_refusal_names_length_and_label() {
    let label = "A".repeat(256);
    match Formatter::options().label(&label) {
        Err(Error::ArgumentError(message)) => {
            assert_eq!(
                message,
                format!("label cannot be longer than 255 bytes: 256, {label}")
            );
        }
        other => panic!("expected an argument error, got {other:?}"),
    }
}

#[test]
fn label_limit_counts_bytes() {
    // 128 characters of two bytes each: 256 bytes.
    let wide = "é".repeat(128);
    assert_eq!(128, wide.chars().count());
    assert!(matches!(
        Formatter::options().label(&wide),
        Err(Error::ArgumentError(_))
    ));
    // 85 characters of three bytes each: 255 bytes.
    let fits = "€".repeat(85);
    let args = Formatter::options().label(&fits).unwrap().to_args();
    assert_eq!(args, vec![format!("--label={fits}")]);
}

#[test]
fn empty_label_is_accepted() {
    let args = Formatter::options().label("").unwrap().to_args();
    assert_eq!(args, vec!["--label="]);
}

#[test]
fn nodesize_accepts_powers_of_two_up_to_the_limit() {
    for n in [1usize, 2, 512, 4096, 8192, 16384] {
        let args = Formatter::options().nodesize(n).unwrap().to_args();
        assert_eq!(args, vec![format!("--nodesize={n}")]);
    }
}

#[test]
fn nodesize_refuses_the_rest() {
    for n in [0usize, 3, 4097, 16383, 16385, 32768, 65536, usize::MAX] {
        match Formatter::options().nodesize(n) {
            Err(Error::ArgumentError(message)) => {
                assert_eq!(
                    message,
                    format!("node_size ( = {n} )\nMust be a power of 2, and <= 16384")
                );
            }
            other => panic!("expected an argument error for {n}, got {other:?}"),
        }
    }
}

#[test]
fn sectorsize_is_not_checked() {
    for n in [0usize, 3, 4096, 1 << 20] {
        let args = Formatter::options().sectorsize(n).unwrap().to_args();
        assert_eq!(args, vec![format!("--sectorsize={n}")]);
    }
}

#[test]
fn byte_count_is_written_in_decimal() {
    let args = Formatter::options().byte_count(0).unwrap().to_args();
    assert_eq!(args, vec!["--byte-count=0"]);
    let args = Formatter::options().byte_count(u64::MAX).unwrap().to_args();
    assert_eq!(args, vec!["--byte-count=18446744073709551615"]);
}

#[test]
fn profiles_fill_their_own_slots() {
    let args = Formatter::options()
        .metadata(DataProfile::Raid1c3)
        .unwrap()
        .data(DataProfile::Raid10)
        .unwrap()
        .to_args();
    assert_eq!(args, vec!["--data=raid10", "--metadata=raid1c3"]);
}

#[test]
fn checksum_is_written_by_keyword() {
    let args = Formatter::options()
        .checksum(ChecksumAlgorithm::Blake2)
        .unwrap()
        .to_args();
    assert_eq!(args, vec!["--checksum=blake2"]);
}

#[test]
fn features_are_joined_in_the_order_given() {
    let args = Formatter::options()
        .features(&["mixed-bg", "^extref", "raid56"])
        .unwrap()
        .runtime_features(&["quota", "free-space-tree"])
        .unwrap()
        .to_args();
    assert_eq!(
        args,
        vec![
            "--features=mixed-bg,^extref,raid56",
            "--runtime-features=quota,free-space-tree",
        ]
    );
}

#[test]
fn empty_feature_list_still_sets_the_option() {
    let args = Formatter::options()
        .features(&[])
        .unwrap()
        .runtime_features(&[])
        .unwrap()
        .to_args();
    assert_eq!(args, vec!["--features=", "--runtime-features="]);
}

#[test]
fn flags_are_bare() {
    let args = Formatter::options()
        .shrink()
        .unwrap()
        .no_discard()
        .unwrap()
        .mixed()
        .unwrap()
        .force()
        .unwrap()
        .to_args();
    assert_eq!(args, vec!["--force", "--mixed", "--nodiscard", "--shrink"]);
}

#[test]
fn uuid_is_not_checked() {
    let args = Formatter::options().uuid("not a uuid").unwrap().to_args();
    assert_eq!(args, vec!["--uuid=not a uuid"]);
}

#[test]
fn empty_registry_compiles_to_nothing() {
    assert!(Formatter::options().to_args().is_empty());
    assert!(FormatterOptions::default().to_args().is_empty());
}

#[test]
fn call_order_does_not_matter() {
    let one = Formatter::options()
        .force()
        .unwrap()
        .label("volume")
        .unwrap()
        .byte_count(7)
        .unwrap()
        .to_args();
    let other = Formatter::options()
        .byte_count(7)
        .unwrap()
        .label("volume")
        .unwrap()
        .force()
        .unwrap()
        .to_args();
    assert_eq!(one, other);
    assert_eq!(one, vec!["--byte-count=7", "--force", "--label=volume"]);
}

#[test]
fn setting_a_slot_again_replaces_it() {
    let args = Formatter::options()
        .mixed()
        .unwrap()
        .mixed()
        .unwrap()
        .to_args();
    assert_eq!(args, vec!["--mixed"]);
    let args = Formatter::options()
        .byte_count(1)
        .unwrap()
        .byte_count(2)
        .unwrap()
        .to_args();
    assert_eq!(args, vec!["--byte-count=2"]);
}

#[test]
fn compiling_leaves_the_registry_usable() {
    let options = Formatter::options().force().unwrap();
    let first = options.to_args();
    let second = options.to_args();
    assert_eq!(first, second);
    let more = options.shrink().unwrap().to_args();
    assert_eq!(more, vec!["--force", "--shrink"]);
}

#[test]
fn a_clone_holds_the_same_options() {
    let options = Formatter::options().label("a").unwrap().uuid("b").unwrap();
    let copy = options.clone();
    assert_eq!(options.to_args(), copy.to_args());
    let changed = copy.label("c").unwrap();
    assert_eq!(options.to_args(), vec!["--label=a", "--uuid=b"]);
    assert_eq!(changed.to_args(), vec!["--label=c", "--uuid=b"]);
}

#[test]
fn rootdir_that_is_there_is_stored() {
    let args = Formatter::options()
        .rootdir("./testdir", there())
        .unwrap()
        .to_args();
    assert_eq!(args, vec!["--rootdir=./testdir"]);
}

#[test]
fn rootdir_that_is_missing_is_an_io_error() {
    match Formatter::options().rootdir("/no/such/dir", missing()) {
        Err(Error::IoError(fault)) => assert_eq!(fault.kind(), io::ErrorKind::NotFound),
        other => panic!("expected an I/O error, got {other:?}"),
    }
}

#[test]
fn rootdir_hands_on_the_error_of_the_probe() {
    match Formatter::options().rootdir("/root/secret", denied()) {
        Err(Error::IoError(fault)) => {
            assert_eq!(fault.kind(), io::ErrorKind::PermissionDenied);
            assert_eq!(fault.to_string(), "probe refused");
        }
        other => panic!("expected an I/O error, got {other:?}"),
    }
}

#[test]
fn a_refused_setter_leaves_a_clone_usable() {
    let options = Formatter::options().force().unwrap();
    let kept = options.clone();
    assert!(options.nodesize(3).is_err());
    assert_eq!(kept.to_args(), vec!["--force"]);
}

#[test]
fn label_shrink_rootdir_scenario() {
    let argv = Formatter::options()
        .label("label-label")
        .unwrap()
        .shrink()
        .unwrap()
        .rootdir("/tmp", there())
        .unwrap()
        .build()
        .format("/dev/loop0", there())
        .unwrap();
    // The target is last. The options stand in slot order, which puts the
    // root directory between the label and the shrink flag.
    assert_eq!(
        argv,
        vec!["--label=label-label", "--rootdir=/tmp", "--shrink", "/dev/loop0"]
    );
    let at = |token: &str| argv.iter().position(|a| a == token).unwrap();
    assert!(at("--label=label-label") < at("--shrink"));
    assert_eq!(at("/dev/loop0"), argv.len() - 1);
}

#[test]
fn format_appends_the_target_last() {
    let argv = Formatter::options()
        .force()
        .unwrap()
        .build()
        .format("./test.btrfs", there())
        .unwrap();
    assert_eq!(argv, vec!["--force", "./test.btrfs"]);
    let argv = Formatter::options()
        .build()
        .format("./test.btrfs", there())
        .unwrap();
    assert_eq!(argv, vec!["./test.btrfs"]);
}

#[test]
fn format_on_a_missing_target_is_an_io_error() {
    let fault = Formatter::options()
        .force()
        .unwrap()
        .build()
        .format("/no/such/device", missing())
        .expect_err("a missing target must be refused");
    assert_eq!(fault.kind(), io::ErrorKind::NotFound);
}

#[test]
fn format_hands_on_the_error_of_the_probe() {
    let fault = Formatter::options()
        .build()
        .format("/dev/sda", denied())
        .expect_err("a failed probe must be refused");
    assert_eq!(fault.kind(), io::ErrorKind::PermissionDenied);
    assert_eq!(fault.to_string(), "probe refused");
}

#[test]
fn formatters_of_equal_options_are_equal() {
    let a = Formatter::options().force().unwrap().label("x").unwrap().build();
    let b = Formatter::options().label("x").unwrap().force().unwrap().build();
    let c = Formatter::options().label("y").unwrap().build();
    assert_eq!(a, b);
    assert_ne!(a, c);
}

#[test]
fn dump_lists_the_arguments() {
    let options = Formatter::options().force().unwrap().label("a\"b").unwrap();
    assert_eq!(
        options.dump_args(),
        "[\n    \"--force\",\n    \"--label=a\\\"b\",\n]"
    );
    assert_eq!(Formatter::options().dump_args(), "[]");
    // Dumping changes nothing.
    assert_eq!(options.to_args(), vec!["--force", "--label=a\"b"]);
}
