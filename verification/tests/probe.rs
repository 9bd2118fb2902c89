use mkfs_btrfs_rs::format::{Formatter, RUNTIME_FEATURES};
use mkfs_btrfs_rs::probe::found;
use mkfs_btrfs_rs::Error;
use std::io;

#[test]
fn a_path_that_is_there_passes() {
    assert!(found(Ok(true)).is_ok());
}

#[test]
fn a_path_that_is_missing_is_not_found() {
    let fault = found(Ok(false)).expect_err("a missing path must be refused");
    assert_eq!(fault.kind(), io::ErrorKind::NotFound);
}

#[test]
fn an_error_of_the_host_is_handed_on() {
    let probe = Err(io::Error::new(io::ErrorKind::TimedOut, "host is slow"));
    let fault = found(probe).expect_err("a failed probe must be refused");
    assert_eq!(fault.kind(), io::ErrorKind::TimedOut);
    assert_eq!(fault.to_string(), "host is slow");
}

#[test]
fn an_io_error_converts_into_the_library_error() {
    let fault = io::Error::new(io::ErrorKind::Other, "broken");
    match Error::from(fault) {
        Error::IoError(inner) => assert_eq!(inner.to_string(), "broken"),
        other => panic!("expected an I/O error, got {other:?}"),
    }
}

#[test]
fn documented_runtime_features() {
    assert_eq!(RUNTIME_FEATURES, ["quota", "free-space-tree"]);
    let args = Formatter::options()
        .runtime_features(&RUNTIME_FEATURES)
        .unwrap()
        .to_args();
    assert_eq!(args, vec!["--runtime-features=quota,free-space-tree"]);
}
