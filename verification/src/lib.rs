//! Typed construction of `mkfs.btrfs` command lines.
//!
//! Not a binding to btrfs: this crate builds the argument list of the
//! `mkfs.btrfs` program from typed, checked options. It touches neither the
//! filesystem nor any process. Whoever runs the command asks the host
//! whether a path exists and hands the answer in.
//!
//! Start at [`Formatter::options`], set options by chained calls on
//! [`format::FormatterOptions`], then [`build`](format::FormatterOptions::build)
//! a [`Formatter`] and let [`Formatter::format`] complete the command line
//! with the target.

use vstd::prelude::*;

pub mod format;
pub mod limits;
pub mod probe;
pub mod slots;
pub mod text;

pub use format::{ChecksumAlgorithm, DataProfile, Formatter};

verus! {

/// Why an operation of this library failed.
#[derive(Debug)]
pub enum Error {
    /// A path was not there, or the host could not tell whether it was.
    IoError(std::io::Error),
    /// An input broke a stated limit; the message names the offending value.
    ArgumentError(String),
}

impl From<std::io::Error> for Error {
    fn from(fault: std::io::Error) -> (error: Error) {
        Error::IoError(fault)
    }
}

impl vstd::std_specs::convert::FromSpecImpl<std::io::Error> for Error {
    open spec fn obeys_from_spec() -> bool {
        true
    }

    open spec fn from_spec(fault: std::io::Error) -> Error {
        Error::IoError(fault)
    }
}

} // verus!
