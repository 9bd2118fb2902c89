//! Existence probes.
//!
//! Whether a path exists is a question for the host. It is asked outside
//! this crate, with `Path::try_exists` or its like, and the answer is handed
//! in as it came: `Ok(true)` for a path that is there, `Ok(false)` for one
//! that is not, `Err` where the host could not tell.

use vstd::prelude::*;

verus! {

/// The operating system's error type. Its values are carried through
/// unopened.
#[verifier::external_type_specification]
#[verifier::external_body]
pub struct ExIoError(std::io::Error);

/// `std::io::Error::from` on `ErrorKind::NotFound`: the error that stands for
/// a path that is not there. Nothing is claimed of the value.
#[verifier::external_body]
fn not_found() -> std::io::Error {
    std::io::Error::from(std::io::ErrorKind::NotFound)
}

/// Settles an existence probe: a path that is there passes, one that is not
/// gives an error of its own, and an error of the host is handed on as it
/// came.
pub fn found(probe: Result<bool, std::io::Error>) -> (r: Result<(), std::io::Error>)
    ensures
        match probe {
            Ok(true) => r is Ok,
            Ok(false) => r is Err,
            Err(fault) => r matches Err(handed) && handed == fault,
        },
{
    match probe {
        Ok(true) => Ok(()),
        Ok(false) => Err(not_found()),
        Err(fault) => Err(fault),
    }
}

} // verus!
